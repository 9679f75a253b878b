//! The program's command-line surface: at least one configuration file, one
//! translation file and one scope file, each repeatable, with later files
//! overriding earlier ones.  Parsing the actual command line happens in the
//! surrounding program; the library holds the resulting paths.
use vstd::prelude::*;

verus! {

pub struct Args {
    pub configs: Vec<String>,
    pub translations: Vec<String>,
    pub scopes: Vec<String>,
}

impl Args {
    pub fn new(configs: Vec<String>, translations: Vec<String>, scopes: Vec<String>) -> (r: Args)
        ensures
            r.configs == configs,
            r.translations == translations,
            r.scopes == scopes,
    {
        Args { configs, translations, scopes }
    }

    pub fn configs(&self) -> (r: &Vec<String>)
        ensures
            r == self.configs,
    {
        &self.configs
    }

    pub fn translations(&self) -> (r: &Vec<String>)
        ensures
            r == self.translations,
    {
        &self.translations
    }

    pub fn scopes(&self) -> (r: &Vec<String>)
        ensures
            r == self.scopes,
    {
        &self.scopes
    }
}

} // verus!
