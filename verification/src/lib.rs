//! Core of a file-backup manager: a registry of named backup directories,
//! a per-backup ledger mapping original paths to content identifiers, and
//! the decision logic of the add / restore / remove / deinit transitions.
//! Filesystem access, persistence of the two stores and the interactive
//! prompt live outside this crate and hand plain values in and out.
use vstd::prelude::*;

pub mod confirm;
pub mod content;
pub mod engine;
pub mod errors;
pub mod ledger;
pub mod list;
pub mod model;
pub mod paths;
pub mod registry;
pub mod restore;
pub mod store;
pub mod text;

verus! {

/// The subset of the command line that callers thread through explicitly:
/// where the registry store lives, and whether prompts are skipped.
#[derive(Debug, Clone)]
pub struct Options {
    /// The path of the registry store.
    pub config_file: String,
    /// Answer every confirmation question with yes, without asking.
    pub no_confirm: bool,
}

/// The options value of one invocation, built once from the parsed
/// command line and passed along explicitly.
pub fn get_options(config_file: String, no_confirm: bool) -> (r: Options)
    ensures
        r.config_file@ == config_file@,
        r.no_confirm == no_confirm,
{
    Options { config_file, no_confirm }
}

} // verus!
