//! The translation table and its lookup: a flat list of `language/key`
//! entries, looked up with a region-specific fallback chain and a default
//! language, and a fixed placeholder where nothing matches.
use vstd::prelude::*;

use crate::kv::{find_first, lookup_pair};

verus! {

#[derive(Clone, Debug)]
pub struct Translations {
    pub languages: Vec<(String, String)>,
    pub n_a: String,
}

/// Index of the first `-` in a language tag, or the tag's length.
pub open spec fn spec_dash_index(s: Seq<char>) -> int
    decreases s.len(),
{
    if s.len() == 0 {
        0
    } else if s[0] == '-' {
        0
    } else {
        1 + spec_dash_index(s.skip(1))
    }
}

/// Split a language tag at its first `-` into language and region, as the
/// lookup's fallback chain expects them: `de-AT` becomes `de` with region
/// `AT`, a bare `de` has no region.
pub fn split_language_tag(tag: &String) -> (r: (String, Option<String>))
    ensures
        ({
            let d = spec_dash_index(tag@);
            if d < tag@.len() {
                &&& r.0@ == tag@.take(d)
                &&& r.1 is Some
                &&& r.1.unwrap()@ == tag@.skip(d + 1)
            } else {
                &&& r.0@ == tag@
                &&& r.1 is None
            }
        }),
{
    let s = tag.as_str();
    let n = s.unicode_len();
    let mut i: usize = 0;
    proof {
        assert(tag@.skip(0) =~= tag@);
    }
    while i < n && s.get_char(i) != '-'
        invariant
            0 <= i <= n,
            s@ == tag@,
            n == tag@.len(),
            spec_dash_index(tag@) == i + spec_dash_index(tag@.skip(i as int)),
            forall|j: int| 0 <= j < i ==> tag@[j] != '-',
        decreases n - i,
    {
        proof {
            assert(tag@.skip(i as int)[0] == tag@[i as int]);
            assert(tag@.skip(i as int).skip(1) =~= tag@.skip(i as int + 1));
        }
        i += 1;
    }
    proof {
        if i < n {
            assert(tag@.skip(i as int)[0] == tag@[i as int]);
        } else {
            assert(tag@.skip(i as int) =~= Seq::<char>::empty());
        }
    }
    if i < n {
        let lang = s.substring_char(0, i).to_owned();
        let region = s.substring_char(i + 1, n).to_owned();
        proof {
            assert(tag@.subrange(0, i as int) =~= tag@.take(i as int));
            assert(tag@.subrange(i as int + 1, n as int) =~= tag@.skip(i as int + 1));
        }
        (lang, Some(region))
    } else {
        proof {
            assert(tag@.subrange(0, n as int) =~= tag@);
        }
        (s.substring_char(0, n).to_owned(), None)
    }
}

/// The table key under which a translation is stored: `lang/key`.
pub open spec fn spec_table_key(lang: Seq<char>, key: Seq<char>) -> Seq<char> {
    lang + "/"@ + key
}

/// The table key for a region-specific translation: `lang-REGION/key`.
pub open spec fn spec_region_key(
    lang: Seq<char>,
    region: Seq<char>,
    key: Seq<char>,
) -> Seq<char> {
    lang + "-"@ + region + "/"@ + key
}

impl Translations {
    /// What `lookup` returns: the region-specific entry where a region is
    /// given and present, else the language's entry, else the default
    /// language's entry, else the `N/A` placeholder.
    pub open spec fn spec_lookup(
        &self,
        key: Seq<char>,
        lang: Seq<char>,
        region: Option<String>,
        default_lang: Seq<char>,
    ) -> Seq<char> {
        let by_region = match region {
            Some(rg) => lookup_pair(self.languages@, spec_region_key(lang, rg@, key)),
            None => None,
        };
        if by_region is Some {
            by_region.unwrap()@
        } else if lookup_pair(self.languages@, spec_table_key(lang, key)) is Some {
            lookup_pair(self.languages@, spec_table_key(lang, key)).unwrap()@
        } else if lookup_pair(self.languages@, spec_table_key(default_lang, key)) is Some {
            lookup_pair(self.languages@, spec_table_key(default_lang, key)).unwrap()@
        } else {
            self.n_a@
        }
    }

    pub fn new(languages: Vec<(String, String)>) -> (r: Translations)
        ensures
            r.languages == languages,
            r.n_a@ == "N/A"@,
    {
        Translations { languages, n_a: String::from_str("N/A") }
    }

    /// Look a key up for a language, preferring its region-specific entry,
    /// falling back to the default language and finally to `N/A`.
    pub fn lookup(
        &self,
        key: &String,
        lang: &String,
        region: &Option<String>,
        default_lang: &String,
    ) -> (r: String)
        ensures
            r@ == self.spec_lookup(key@, lang@, *region, default_lang@),
    {
        match region {
            Some(rg) => {
                let mut k = lang.clone();
                k.append("-");
                k.append(rg.as_str());
                k.append("/");
                k.append(key.as_str());
                proof {
                    assert(k@ == spec_region_key(lang@, rg@, key@));
                }
                match find_first(&self.languages, &k) {
                    Some(v) => {
                        return v;
                    },
                    None => {},
                }
            },
            None => {},
        }

        let mut k = lang.clone();
        k.append("/");
        k.append(key.as_str());
        proof {
            assert(k@ == spec_table_key(lang@, key@));
        }
        match find_first(&self.languages, &k) {
            Some(v) => {
                return v;
            },
            None => {},
        }

        let mut k = default_lang.clone();
        k.append("/");
        k.append(key.as_str());
        proof {
            assert(k@ == spec_table_key(default_lang@, key@));
        }
        match find_first(&self.languages, &k) {
            Some(v) => {
                return v;
            },
            None => {},
        }

        self.n_a.clone()
    }
}

} // verus!
