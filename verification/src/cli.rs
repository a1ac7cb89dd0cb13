//! The command line interface: its commands and the decisions its asset commands take.
//!
//! Loading and saving the library, loading manifests, removing files and indexing are done
//! by the program around this module, which hands the outcomes in.
use vstd::prelude::*;

pub mod assets;

verus! {

/// All commands available in the CLI.
#[derive(Debug)]
pub enum Commands {
    /// Manage the asset library and its packs.
    Assets(assets::Args),
}

} // verus!
