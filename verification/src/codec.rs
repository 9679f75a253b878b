//! Unpadded base32 (RFC 4648 alphabet) — the transport encoding for MAC
//! signatures.
//!
//! The spec functions below model the encoding byte for byte: five input bytes
//! become eight alphabet characters (a trailing group of 1–4 bytes becomes
//! 2, 4, 5 or 7 characters), and decoding accepts exactly the strings made of
//! the 32 alphabet characters.  The executable entry points call the `base32`
//! crate; `lemma_base32_round_trip` proves that decoding inverts encoding.
use vstd::prelude::*;

verus! {

/// The character of the RFC 4648 alphabet standing for a five-bit value.
pub open spec fn b32_char(v: u8) -> char {
    if v == 0 { 'A' } else if v == 1 { 'B' } else if v == 2 { 'C' }
    else if v == 3 { 'D' } else if v == 4 { 'E' } else if v == 5 { 'F' }
    else if v == 6 { 'G' } else if v == 7 { 'H' } else if v == 8 { 'I' }
    else if v == 9 { 'J' } else if v == 10 { 'K' } else if v == 11 { 'L' }
    else if v == 12 { 'M' } else if v == 13 { 'N' } else if v == 14 { 'O' }
    else if v == 15 { 'P' } else if v == 16 { 'Q' } else if v == 17 { 'R' }
    else if v == 18 { 'S' } else if v == 19 { 'T' } else if v == 20 { 'U' }
    else if v == 21 { 'V' } else if v == 22 { 'W' } else if v == 23 { 'X' }
    else if v == 24 { 'Y' } else if v == 25 { 'Z' } else if v == 26 { '2' }
    else if v == 27 { '3' } else if v == 28 { '4' } else if v == 29 { '5' }
    else if v == 30 { '6' } else if v == 31 { '7' } else { ' ' }
}

/// The five-bit value of an alphabet character, or -1 for any other character.
pub open spec fn b32_val(c: char) -> int {
    if c == 'A' { 0 } else if c == 'B' { 1 } else if c == 'C' { 2 }
    else if c == 'D' { 3 } else if c == 'E' { 4 } else if c == 'F' { 5 }
    else if c == 'G' { 6 } else if c == 'H' { 7 } else if c == 'I' { 8 }
    else if c == 'J' { 9 } else if c == 'K' { 10 } else if c == 'L' { 11 }
    else if c == 'M' { 12 } else if c == 'N' { 13 } else if c == 'O' { 14 }
    else if c == 'P' { 15 } else if c == 'Q' { 16 } else if c == 'R' { 17 }
    else if c == 'S' { 18 } else if c == 'T' { 19 } else if c == 'U' { 20 }
    else if c == 'V' { 21 } else if c == 'W' { 22 } else if c == 'X' { 23 }
    else if c == 'Y' { 24 } else if c == 'Z' { 25 } else if c == '2' { 26 }
    else if c == '3' { 27 } else if c == '4' { 28 } else if c == '5' { 29 }
    else if c == '6' { 30 } else if c == '7' { 31 } else { -1 }
}

/// Whether a character belongs to the unpadded RFC 4648 alphabet.
pub open spec fn is_b32_char(c: char) -> bool {
    b32_val(c) >= 0
}

pub open spec fn all_b32_chars(s: Seq<char>) -> bool {
    forall|i: int| 0 <= i < s.len() ==> is_b32_char(#[trigger] s[i])
}

/// A byte of a group, or the zero padding beyond the group's end.
pub open spec fn byte_at(s: Seq<u8>, i: int) -> u8 {
    if 0 <= i < s.len() { s[i] } else { 0 }
}

/// The i-th five-bit value of the (zero-padded) group `s` of at most 5 bytes.
pub open spec fn enc_val(s: Seq<u8>, i: int) -> u8 {
    let b0 = byte_at(s, 0);
    let b1 = byte_at(s, 1);
    let b2 = byte_at(s, 2);
    let b3 = byte_at(s, 3);
    let b4 = byte_at(s, 4);
    if i == 0 { (b0 & 0xF8) >> 3 }
    else if i == 1 { ((b0 & 0x07) << 2) | ((b1 & 0xC0) >> 6) }
    else if i == 2 { (b1 & 0x3E) >> 1 }
    else if i == 3 { ((b1 & 0x01) << 4) | ((b2 & 0xF0) >> 4) }
    else if i == 4 { ((b2 & 0x0F) << 1) | (b3 >> 7) }
    else if i == 5 { (b3 & 0x7C) >> 2 }
    else if i == 6 { ((b3 & 0x03) << 3) | ((b4 & 0xE0) >> 5) }
    else { b4 & 0x1F }
}

/// How many characters a group of `n` bytes encodes to (1 <= n <= 5).
pub open spec fn enc_group_len(n: int) -> int {
    (n * 8 + 4) / 5
}

/// How many bytes a group of `n` characters decodes to (1 <= n <= 8).
pub open spec fn dec_group_len(n: int) -> int {
    n * 5 / 8
}

pub open spec fn encode_group(s: Seq<u8>) -> Seq<char>
    recommends 1 <= s.len() <= 5,
{
    Seq::new(enc_group_len(s.len() as int) as nat, |i: int| b32_char(enc_val(s, i)))
}

/// The unpadded base32 encoding of a byte sequence.
pub open spec fn base32_encode(s: Seq<u8>) -> Seq<char>
    decreases s.len(),
{
    if s.len() == 0 {
        Seq::empty()
    } else if s.len() <= 5 {
        encode_group(s)
    } else {
        encode_group(s.take(5)) + base32_encode(s.skip(5))
    }
}

/// The i-th five-bit value of a (zero-padded) group `s` of at most 8 characters.
pub open spec fn dec_val(s: Seq<char>, i: int) -> u8 {
    if 0 <= i < s.len() { b32_val(s[i]) as u8 } else { 0 }
}

/// The i-th byte recovered from a group of characters.
pub open spec fn dec_byte(s: Seq<char>, i: int) -> u8 {
    if i == 0 { (dec_val(s, 0) << 3) | (dec_val(s, 1) >> 2) }
    else if i == 1 { (dec_val(s, 1) << 6) | (dec_val(s, 2) << 1) | (dec_val(s, 3) >> 4) }
    else if i == 2 { (dec_val(s, 3) << 4) | (dec_val(s, 4) >> 1) }
    else if i == 3 { (dec_val(s, 4) << 7) | (dec_val(s, 5) << 2) | (dec_val(s, 6) >> 3) }
    else { (dec_val(s, 6) << 5) | dec_val(s, 7) }
}

pub open spec fn decode_group(s: Seq<char>) -> Seq<u8>
    recommends 1 <= s.len() <= 8,
{
    Seq::new(dec_group_len(s.len() as int) as nat, |i: int| dec_byte(s, i))
}

pub open spec fn decode_groups(s: Seq<char>) -> Seq<u8>
    decreases s.len(),
{
    if s.len() == 0 {
        Seq::empty()
    } else if s.len() <= 8 {
        decode_group(s)
    } else {
        decode_group(s.take(8)) + decode_groups(s.skip(8))
    }
}

/// The unpadded base32 decoding of a character sequence: defined exactly on
/// the strings whose every character belongs to the alphabet.
pub open spec fn base32_decode(s: Seq<char>) -> Option<Seq<u8>> {
    if all_b32_chars(s) {
        Some(decode_groups(s))
    } else {
        None
    }
}

/// Relies on `base32::encode` with `Alphabet::Rfc4648 { padding: false }`:
/// each five-byte group becomes eight alphabet characters through the bit
/// splitting modelled by `enc_val`, and a trailing group of 1–4 bytes is
/// truncated to 2, 4, 5 or 7 characters instead of being padded.
#[verifier::external_body]
pub(crate) fn b32_encode(data: &Vec<u8>) -> (r: String)
    ensures
        r@ == base32_encode(data@),
{
    base32::encode(base32::Alphabet::Rfc4648 { padding: false }, data.as_slice())
}

/// Relies on `base32::decode` with `Alphabet::Rfc4648 { padding: false }`:
/// it returns `None` exactly when some character falls outside the 32-letter
/// alphabet (`=` included), and otherwise recovers the bytes modelled by
/// `dec_byte`, truncated to five bits of output per character.
#[verifier::external_body]
pub(crate) fn b32_decode(s: &String) -> (r: Option<Vec<u8>>)
    ensures
        match r {
            Some(v) => base32_decode(s@) == Some(v@),
            None => base32_decode(s@) is None,
        },
{
    base32::decode(base32::Alphabet::Rfc4648 { padding: false }, s.as_str())
}

/// An alphabet character decodes back to the five-bit value it stands for.
pub proof fn lemma_b32_char_val(v: u8)
    requires
        v < 32,
    ensures
        b32_val(b32_char(v)) == v as int,
{
}

/// One group of bytes survives encoding and decoding unchanged.
pub proof fn lemma_group_round_trip(s: Seq<u8>)
    requires
        1 <= s.len() <= 5,
    ensures
        encode_group(s).len() == enc_group_len(s.len() as int),
        2 <= encode_group(s).len() <= 8,
        all_b32_chars(encode_group(s)),
        dec_group_len(enc_group_len(s.len() as int)) == s.len(),
        decode_group(encode_group(s)) =~= s,
{
    let b0 = byte_at(s, 0);
    let b1 = byte_at(s, 1);
    let b2 = byte_at(s, 2);
    let b3 = byte_at(s, 3);
    let b4 = byte_at(s, 4);
    let e = encode_group(s);

    assert(((b0 & 0xF8) >> 3) < 32) by (bit_vector);
    assert((((b0 & 0x07) << 2) | ((b1 & 0xC0) >> 6)) < 32) by (bit_vector);
    assert(((b1 & 0x3E) >> 1) < 32) by (bit_vector);
    assert((((b1 & 0x01) << 4) | ((b2 & 0xF0) >> 4)) < 32) by (bit_vector);
    assert((((b2 & 0x0F) << 1) | (b3 >> 7)) < 32) by (bit_vector);
    assert(((b3 & 0x7C) >> 2) < 32) by (bit_vector);
    assert((((b3 & 0x03) << 3) | ((b4 & 0xE0) >> 5)) < 32) by (bit_vector);
    assert((b4 & 0x1F) < 32) by (bit_vector);

    assert forall|i: int| 0 <= i < 8 implies enc_val(s, i) < 32 by {}

    assert forall|i: int| 0 <= i < e.len() implies is_b32_char(#[trigger] e[i]) by {
        lemma_b32_char_val(enc_val(s, i));
    }

    // Each character of the group decodes back to the five-bit value it came from.
    assert forall|i: int| 0 <= i < e.len() implies dec_val(e, i) == enc_val(s, i) by {
        lemma_b32_char_val(enc_val(s, i));
    }

    // The five reconstruction identities, one per recovered byte.
    assert(((((b0 & 0xF8) >> 3) << 3) | ((((b0 & 0x07) << 2) | ((b1 & 0xC0) >> 6)) >> 2)) == b0)
        by (bit_vector);
    assert((((((b0 & 0x07) << 2) | ((b1 & 0xC0) >> 6)) << 6) | (((b1 & 0x3E) >> 1) << 1)
        | ((((b1 & 0x01) << 4) | ((b2 & 0xF0) >> 4)) >> 4)) == b1) by (bit_vector);
    assert((((((b1 & 0x01) << 4) | ((b2 & 0xF0) >> 4)) << 4)
        | ((((b2 & 0x0F) << 1) | (b3 >> 7)) >> 1)) == b2) by (bit_vector);
    assert((((((b2 & 0x0F) << 1) | (b3 >> 7)) << 7) | (((b3 & 0x7C) >> 2) << 2)
        | ((((b3 & 0x03) << 3) | ((b4 & 0xE0) >> 5)) >> 3)) == b3) by (bit_vector);
    assert((((((b3 & 0x03) << 3) | ((b4 & 0xE0) >> 5)) << 5) | (b4 & 0x1F)) == b4)
        by (bit_vector);

    assert forall|i: int| 0 <= i < s.len() implies decode_group(e)[i] == s[i] by {
        assert(byte_at(s, i) == s[i]);
    }
}

/// Decoding undoes encoding: the law behind carrying MAC signatures as
/// unpadded base32 text.
pub proof fn lemma_base32_round_trip(s: Seq<u8>)
    ensures
        base32_decode(base32_encode(s)) == Some(s),
    decreases s.len(),
{
    if s.len() == 0 {
        assert(base32_encode(s) =~= Seq::<char>::empty());
        assert(decode_groups(base32_encode(s)) =~= s);
    } else if s.len() <= 5 {
        lemma_group_round_trip(s);
        assert(decode_groups(base32_encode(s)) =~= s);
    } else {
        let head = s.take(5);
        let tail = s.skip(5);
        lemma_group_round_trip(head);
        lemma_base32_round_trip(tail);
        let e1 = encode_group(head);
        let e2 = base32_encode(tail);
        let e = base32_encode(s);
        assert(e == e1 + e2);
        assert(e1.len() == 8);
        assert(all_b32_chars(e2));
        assert(e2.len() >= 2) by {
            if tail.len() <= 5 {
                lemma_group_round_trip(tail);
            } else {
                lemma_group_round_trip(tail.take(5));
            }
        }
        assert forall|i: int| 0 <= i < e.len() implies is_b32_char(#[trigger] e[i]) by {
            if i < 8 {
                assert(e[i] == e1[i]);
            } else {
                assert(e[i] == e2[i - 8]);
            }
        }
        assert(e.take(8) =~= e1);
        assert(e.skip(8) =~= e2);
        assert(decode_groups(e) == decode_group(e1) + decode_groups(e2));
        assert(decode_groups(e2) == tail);
        assert(decode_group(e1) + decode_groups(e2) =~= s);
    }
}

} // verus!
