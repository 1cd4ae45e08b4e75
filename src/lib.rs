//! Package sources: a closed set of places a package's source tree can come
//! from (a registry, a git repository, a local directory), the steps each of
//! them takes to cache and stage that tree, and a model of the disk on which
//! those steps are proved to behave.
//!
//! The library decides; the caller acts. Each operation of [`Crate`] takes
//! what the caller found on disk (whether a cache entry or a destination
//! exists) and returns the [`Step`]s to carry out, in order, stopping at the
//! first that fails. [`run`] states what those steps do to a disk.

mod git;
mod laws;
mod local;
mod model;
mod package;
mod registry;

pub use laws::{
    lemma_copy_replaces_destination, lemma_fetch_idempotent, lemma_local_copy_fails_iff_missing,
    lemma_local_fetch_purge_untouched, lemma_purge_then_fetch_is_fresh,
    lemma_restage_leaves_only_last,
};
pub use model::{
    apply, contents, is_vcs_file, materialize, missing_error, opt_view, place, run, steps_view, without_vcs, CacheKey,
    Disk, ErrorKind, Files, KeyV, LocV, Location, RegistryV, Remote, Step, StepV,
};
pub use package::{Crate, CrateV};
pub use registry::{AlternativeRegistry, Registry};
