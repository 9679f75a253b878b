//! Application settings: the merged configuration, the consent scopes and
//! the translation table.  Loading and merging the YAML documents they come
//! from is left to the surrounding program; the library holds the resulting
//! plain values and the logic over them.
use vstd::prelude::*;

pub mod config;
pub mod scopes;
pub mod translations;
pub mod yaml_helper;

verus! {

pub struct Settings {
    pub config: config::Config,
    pub scopes: scopes::Scopes,
    pub translations: translations::Translations,
}

} // verus!
