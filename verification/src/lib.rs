//! Source acquisition and resource coordination for an isolated build
//! workspace: crate sources (registry archive, git repository, local
//! directory) are fetched into a shared cache and materialized into a
//! destination tree, while file locks and an idempotent tool installer keep
//! the shared state safe under concurrent callers.
//!
//! The library plans and checks every step; the surrounding process performs
//! the filesystem and network work the plans describe.

pub mod archive;
pub mod crates;
pub mod local;
pub mod lock;
pub mod tools;
pub mod paths;

use vstd::prelude::*;

verus! {

/// Shared directories of the build workspace, as plain path strings.
///
/// The workspace itself (configuration, HTTP transport, command runner) is an
/// external collaborator; this library only needs the directory layout.
pub struct Workspace {
    /// Root of the download cache.
    pub cache_dir: String,
    /// CARGO_HOME managed by the workspace; installed tools live under
    /// its `bin` subdirectory.
    pub cargo_home: String,
    /// RUSTUP_HOME managed by the workspace.
    pub rustup_home: String,
    /// Profile handed to the toolchain installer.
    pub rustup_profile: String,
}

impl Workspace {
    pub fn new(
        cache_dir: String,
        cargo_home: String,
        rustup_home: String,
        rustup_profile: String,
    ) -> (w: Workspace)
        ensures
            w.cache_dir@ == cache_dir@,
            w.cargo_home@ == cargo_home@,
            w.rustup_home@ == rustup_home@,
            w.rustup_profile@ == rustup_profile@,
    {
        Workspace { cache_dir, cargo_home, rustup_home, rustup_profile }
    }
}

} // verus!
