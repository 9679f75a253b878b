//! The consent scopes: which scope names the consent page knows, each with
//! its list of entries.  The YAML loading and merging that produces them
//! runs in the surrounding program.
use vstd::prelude::*;

verus! {

pub struct Scopes {
    pub scopes: Vec<(String, Vec<String>)>,
}

impl Scopes {
    pub fn new(scopes: Vec<(String, Vec<String>)>) -> (r: Scopes)
        ensures
            r.scopes == scopes,
    {
        Scopes { scopes }
    }

    pub fn entries(&self) -> (r: &Vec<(String, Vec<String>)>)
        ensures
            r == self.scopes,
    {
        &self.scopes
    }
}

} // verus!
