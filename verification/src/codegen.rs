//! The crate builder a helper drives: the value minted by the generation
//! context's factory, initialized from the destination-crate descriptor and
//! thereafter owned entirely by the helper. Materializing files on disk is a
//! downstream concern; this core only constructs the builder.

use vstd::prelude::*;

use crate::payload::GlueGunDestinationCrate;

verus! {

/// A builder for one generated crate, scoped to a destination path and an
/// optional crate name. Each value is independently owned: nothing a helper
/// does to one builder can reach another, and the context that minted it
/// keeps no handle on it.
#[derive(Debug, PartialEq)]
pub struct LibraryCrate {
    path: String,
    crate_name: Option<String>,
}

impl LibraryCrate {
    /// The destination path this builder was created for.
    pub closed spec fn spec_path(&self) -> String {
        self.path
    }

    /// The crate name this builder was created for, if one was given.
    pub closed spec fn spec_crate_name(&self) -> Option<String> {
        self.crate_name
    }

    /// Builds a fresh crate builder from a destination descriptor.
    pub fn from_args(dest: &GlueGunDestinationCrate) -> (r: LibraryCrate)
        ensures
            r.spec_path() == dest.path,
            r.spec_crate_name() == dest.crate_name,
    {
        let crate_name = match &dest.crate_name {
            Option::Some(n) => Option::Some(n.clone()),
            Option::None => Option::None,
        };
        LibraryCrate { path: dest.path.clone(), crate_name }
    }

    /// The destination path this builder writes under.
    pub fn path(&self) -> (r: &String)
        ensures
            *r == self.spec_path(),
    {
        &self.path
    }

    /// The crate name this builder will use, if one was given.
    pub fn crate_name(&self) -> (r: &Option<String>)
        ensures
            *r == self.spec_crate_name(),
    {
        &self.crate_name
    }
}

} // verus!
