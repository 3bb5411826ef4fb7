//! Ratchet checks for the `pkgs/by-name` package layout.
//!
//! A ratchet compares the state of a convention before and after a change and
//! only lets it move towards compliance. Tolerated violations can be migrated
//! into a conflict-free set of source edits.

mod edits;
pub mod laws;

pub use edits::{
    EditIntent, EditIntentView, MigrationError, MigrationErrorView, MigrationOutcome, MigrationPlan,
    MigrationPlanView, NodeRange,
};
mod problem;
mod ratchet;
mod snapshot;
mod structure;

pub use problem::{NixpkgsProblem, ProblemView, Validation};
pub use structure::{
    relative_dir_for_package, relative_file_for_package, shard_for_package, shard_from_lowercase,
};
pub use ratchet::{
    CallPackageArgumentInfo, ManualDefinition, RatchetState, ToNixpkgsProblem, UsesByName,
    UsesByNameContext,
};
pub use snapshot::{Nixpkgs, Package};
