//! First-match lookup in a list of name/value pairs, as cookies, form
//! fields and translation tables are handed to the library.
use vstd::prelude::*;

verus! {

/// The value of the first pair whose name matches, as the form-field and
/// cookie lookups see it.
pub open spec fn lookup_pair(pairs: Seq<(String, String)>, name: Seq<char>) -> Option<String>
    decreases pairs.len(),
{
    if pairs.len() == 0 {
        None
    } else if pairs[0].0@ == name {
        Some(pairs[0].1)
    } else {
        lookup_pair(pairs.skip(1), name)
    }
}

/// Find the value of the first pair carrying the given name.
pub fn find_first(pairs: &Vec<(String, String)>, name: &String) -> (r: Option<String>)
    ensures
        r == lookup_pair(pairs@, name@),
{
    let mut i: usize = 0;
    proof {
        assert(pairs@.skip(0) =~= pairs@);
    }
    while i < pairs.len()
        invariant
            0 <= i <= pairs@.len(),
            lookup_pair(pairs@, name@) == lookup_pair(pairs@.skip(i as int), name@),
        decreases pairs@.len() - i,
    {
        let p = &pairs[i];
        proof {
            assert(pairs@.skip(i as int)[0] == pairs@[i as int]);
        }
        if p.0 == *name {
            return Some(p.1.clone());
        }
        proof {
            assert(pairs@.skip(i as int).skip(1) =~= pairs@.skip(i as int + 1));
        }
        i += 1;
    }
    proof {
        assert(pairs@.skip(pairs@.len() as int) =~= Seq::<(String, String)>::empty());
    }
    None
}

} // verus!
