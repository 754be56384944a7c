//! The asset registry's records: what a token is, and what a house or a
//! building earns and risks.

use vstd::prelude::*;

pub mod state;

verus! {

/// One trait of a token, as marketplaces show it.
#[derive(Clone, Debug, PartialEq, Eq)]
pub struct Trait {
    pub display_type: Option<String>,
    pub trait_type: String,
    pub value: String,
}

/// What a token carries beside its identifier.
#[derive(Clone, Debug, PartialEq, Eq)]
pub struct Metadata {
    pub extension: Option<String>,
}

impl Default for Trait {
    /// A trait with no text in it.
    fn default() -> (fresh: Self)
        ensures
            fresh.display_type is None,
            fresh.trait_type@ == Seq::<char>::empty(),
            fresh.value@ == Seq::<char>::empty(),
    {
        Trait { display_type: None, trait_type: String::new(), value: String::new() }
    }
}

impl Default for Metadata {
    /// Metadata without an extension.
    fn default() -> (fresh: Self)
        ensures
            fresh.extension is None,
    {
        Metadata { extension: None }
    }
}

} // verus!
