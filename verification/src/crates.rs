//! The crate-source abstraction: a crate to build comes from the registry,
//! from a git repository, or from a local directory. Every backend first
//! ensures a cached or local copy exists (`fetch`), can drop that copy
//! (`purge_from_cache`), and materializes the source into a destination tree
//! (`copy_source_to`).
//!
//! The functions here decide and describe each step over plain values; the
//! caller performs the network and filesystem work the returned plans name.
//! Paths are built with `/` separators.

use vstd::prelude::*;
use crate::Workspace;
use crate::archive::{ArchiveError, TarEntry, plan_unpack, spec_gunzip, spec_tar_entries, spec_unpacked_path};

verus! {

/// Identity of a crate source, as spec-level data: exactly one variant is
/// active, and a value never changes after construction.
pub enum CrateSpec {
    Registry { name: Seq<char>, version: Seq<char> },
    Git { url: Seq<char> },
    Local { path: Seq<char> },
}

/// A crate from the crates.io registry, identified by name and version.
pub struct CratesIOCrate {
    pub name: String,
    pub version: String,
}

/// A crate in a git repository, identified by the URL used to clone it.
pub struct GitRepo {
    pub url: String,
}

/// A crate in a directory on the local filesystem.
pub struct Local {
    pub path: String,
}

enum CrateType {
    CratesIO(CratesIOCrate),
    Git(GitRepo),
    Local(Local),
}

/// A crate whose source can be fetched, cached and materialized.
pub struct Crate(CrateType);

impl View for Crate {
    type V = CrateSpec;

    closed spec fn view(&self) -> CrateSpec {
        match &self.0 {
            CrateType::CratesIO(c) => CrateSpec::Registry { name: c.name@, version: c.version@ },
            CrateType::Git(g) => CrateSpec::Git { url: g.url@ },
            CrateType::Local(l) => CrateSpec::Local { path: l.path@ },
        }
    }
}

/// Root of the remote registry layout downloads come from.
pub open spec fn spec_crates_root() -> Seq<char> {
    "https://static.crates.io/crates"@
}

/// Where the cached archive of a registry crate lives:
/// `<cache-dir>/cratesio-sources/<name>/<name>-<version>.crate`.
pub open spec fn spec_cache_path(cache_dir: Seq<char>, name: Seq<char>, version: Seq<char>) -> Seq<
    char,
> {
    cache_dir + "/cratesio-sources/"@ + name + "/"@ + name + "-"@ + version + ".crate"@
}

/// Where a registry crate is downloaded from:
/// `<crates-root>/<name>/<name>-<version>.crate`.
pub open spec fn spec_download_url(name: Seq<char>, version: Seq<char>) -> Seq<char> {
    spec_crates_root() + "/"@ + name + "/"@ + name + "-"@ + version + ".crate"@
}

/// What a `fetch` call has to do to make the source available.
#[derive(Debug)]
pub enum FetchAction {
    /// The registry archive is already cached: fetch is a no-op.
    UseCache,
    /// Download `url`, creating the parent directories of `cache_path`
    /// first and streaming the body to `cache_path`; a non-2xx status is a
    /// fetch error.
    Download { url: String, cache_path: String },
    /// Git: clone if no checkout exists yet, otherwise fetch the remote.
    CloneOrFetch { url: String },
    /// Local directory: there is nothing to fetch.
    Nothing,
}

/// What a `purge_from_cache` call has to remove.
#[derive(Debug)]
pub enum PurgeAction {
    /// Delete the cached registry archive.
    RemoveFile { path: String },
    /// Drop the git backend's checkout for `url`.
    RemoveGitCheckout { url: String },
    /// Nothing is cached: purge is a no-op.
    Nothing,
}

/// How a destination tree is populated.
#[derive(Debug)]
pub enum CopyStep {
    /// Unpack the cached registry archive at `cache_path` (see
    /// `crate::archive`).
    UnpackCachedArchive { cache_path: String },
    /// Walk and copy the local tree at `source` (see `crate::local`).
    CopyLocalTree { source: String },
    /// Have the git backend materialize its checkout of `url`.
    CheckoutGit { url: String },
}

/// A full `copy_source_to` order: clear the destination first when it
/// already exists — never merge into stale contents — then populate it.
#[derive(Debug)]
pub struct CopyCommand {
    pub remove_dest_first: bool,
    pub step: CopyStep,
}

/// Why a registry archive could not be unpacked, with the crate identity the
/// failure is about.
#[derive(Debug)]
pub enum SourceError {
    Unpack { name: String, version: String, cause: ArchiveError },
}

impl CratesIOCrate {
    pub fn new(name: &str, version: &str) -> (c: CratesIOCrate)
        ensures
            c.name@ == name@,
            c.version@ == version@,
    {
        CratesIOCrate { name: name.to_owned(), version: version.to_owned() }
    }

    /// The cache location for this crate under the workspace's cache
    /// directory.
    pub fn cache_path(&self, workspace: &Workspace) -> (r: String)
        ensures
            r@ == spec_cache_path(workspace.cache_dir@, self.name@, self.version@),
    {
        let mut s = workspace.cache_dir.clone();
        s.append("/cratesio-sources/");
        s.append(self.name.as_str());
        s.append("/");
        s.append(self.name.as_str());
        s.append("-");
        s.append(self.version.as_str());
        s.append(".crate");
        proof {
            assert(s@ =~= spec_cache_path(workspace.cache_dir@, self.name@, self.version@));
        }
        s
    }

    /// The fixed remote location this crate is downloaded from.
    pub fn download_url(&self) -> (r: String)
        ensures
            r@ == spec_download_url(self.name@, self.version@),
    {
        let mut s = String::from_str("https://static.crates.io/crates");
        s.append("/");
        s.append(self.name.as_str());
        s.append("/");
        s.append(self.name.as_str());
        s.append("-");
        s.append(self.version.as_str());
        s.append(".crate");
        proof {
            assert(s@ =~= spec_download_url(self.name@, self.version@));
        }
        s
    }

    /// Ensure the cached archive exists. `cached` reports whether the cache
    /// file is already present; fetch is a no-op exactly then, so calling it
    /// again after a completed download asks for no second request.
    pub fn fetch(&self, workspace: &Workspace, cached: bool) -> (a: FetchAction)
        ensures
            cached <==> a is UseCache,
            !cached ==> (a matches FetchAction::Download { url, cache_path } && url@
                == spec_download_url(self.name@, self.version@) && cache_path@ == spec_cache_path(
                workspace.cache_dir@,
                self.name@,
                self.version@,
            )),
    {
        if cached {
            FetchAction::UseCache
        } else {
            FetchAction::Download {
                url: self.download_url(),
                cache_path: self.cache_path(workspace),
            }
        }
    }

    /// Remove the cached archive. `present` reports whether the cache file
    /// exists; when it does not, purge is a no-op that still succeeds.
    pub fn purge_from_cache(&self, workspace: &Workspace, present: bool) -> (a: PurgeAction)
        ensures
            present ==> (a matches PurgeAction::RemoveFile { path } && path@ == spec_cache_path(
                workspace.cache_dir@,
                self.name@,
                self.version@,
            )),
            !present ==> a is Nothing,
    {
        if present {
            PurgeAction::RemoveFile { path: self.cache_path(workspace) }
        } else {
            PurgeAction::Nothing
        }
    }

    /// Plan the unpacking of this crate's cached archive into a destination:
    /// every member lands at its path with the wrapping
    /// `<name>-<version>/` component stripped (and no trailing separator). On a corrupt archive the
    /// error names this crate and version, and the caller removes whatever
    /// was already unpacked — a half-extracted tree is never left behind.
    pub fn copy_source_to(&self, archive: &Vec<u8>) -> (r: Result<Vec<TarEntry>, SourceError>)
        ensures
            r is Ok <==> (spec_gunzip(archive@) matches Some(t) && spec_tar_entries(t) is Some),
            r matches Ok(out) ==> spec_tar_entries(spec_gunzip(archive@)->Some_0) matches Some(m)
                && out@.len() == m.len() && (forall|i: int|
                0 <= i < m.len() ==> (#[trigger] out@[i]).path@ == spec_unpacked_path(m[i].0)
                && out@[i].is_dir == m[i].1 && out@[i].data@ == m[i].2),
            r matches Err(e) ==> (e matches SourceError::Unpack { name, version, cause } && name@
                == self.name@ && version@ == self.version@ && (cause == ArchiveError::Gzip
                <==> spec_gunzip(archive@) is None)),
    {
        match plan_unpack(archive) {
            Ok(entries) => Ok(entries),
            Err(cause) => Err(
                SourceError::Unpack {
                    name: self.name.clone(),
                    version: self.version.clone(),
                    cause,
                },
            ),
        }
    }

    /// Human-readable identity: `crates.io crate <name> <version>`.
    pub fn display(&self) -> (r: String)
        ensures
            r@ == "crates.io crate "@ + self.name@ + " "@ + self.version@,
    {
        let mut s = String::from_str("crates.io crate ");
        s.append(self.name.as_str());
        s.append(" ");
        s.append(self.version.as_str());
        proof {
            assert(s@ =~= "crates.io crate "@ + self.name@ + " "@ + self.version@);
        }
        s
    }
}

impl GitRepo {
    pub fn new(url: &str) -> (g: GitRepo)
        ensures
            g.url@ == url@,
    {
        GitRepo { url: url.to_owned() }
    }
}

impl Local {
    pub fn new(path: &str) -> (l: Local)
        ensures
            l.path@ == path@,
    {
        Local { path: path.to_owned() }
    }
}

impl Crate {
    /// A crate from the crates.io registry.
    pub fn crates_io(name: &str, version: &str) -> (c: Crate)
        ensures
            c@ == (CrateSpec::Registry { name: name@, version: version@ }),
    {
        Crate(CrateType::CratesIO(CratesIOCrate::new(name, version)))
    }

    /// A crate from a git repository; `url` is the full URL needed to clone
    /// it.
    pub fn git(url: &str) -> (c: Crate)
        ensures
            c@ == (CrateSpec::Git { url: url@ }),
    {
        Crate(CrateType::Git(GitRepo::new(url)))
    }

    /// A crate in a directory on the local filesystem.
    pub fn local(path: &str) -> (c: Crate)
        ensures
            c@ == (CrateSpec::Local { path: path@ }),
    {
        Crate(CrateType::Local(Local::new(path)))
    }

    /// Ensure a cached or local copy of the source exists. Safe to call
    /// repeatedly: with the registry archive already cached (`cached`) it is
    /// a no-op, and for a local crate there is never anything to do.
    pub fn fetch(&self, workspace: &Workspace, cached: bool) -> (a: FetchAction)
        ensures
            self@ matches CrateSpec::Registry { name, version } ==> ((cached <==> a is UseCache)
                && (!cached ==> (a matches FetchAction::Download { url, cache_path } && url@
                == spec_download_url(name, version) && cache_path@ == spec_cache_path(
                workspace.cache_dir@,
                name,
                version,
            )))),
            self@ matches CrateSpec::Git { url: u } ==> (a
                matches FetchAction::CloneOrFetch { url } && url@ == u),
            self@ is Local ==> a is Nothing,
    {
        match &self.0 {
            CrateType::CratesIO(c) => c.fetch(workspace, cached),
            CrateType::Git(g) => FetchAction::CloneOrFetch { url: g.url.clone() },
            CrateType::Local(_) => FetchAction::Nothing,
        }
    }

    /// Remove the cached copy of this crate; a no-op when nothing is cached
    /// (`present` reports that), and always a no-op for a local crate.
    pub fn purge_from_cache(&self, workspace: &Workspace, present: bool) -> (a: PurgeAction)
        ensures
            self@ matches CrateSpec::Registry { name, version } ==> (present ==> (a
                matches PurgeAction::RemoveFile { path } && path@ == spec_cache_path(
                workspace.cache_dir@,
                name,
                version,
            ))) && (!present ==> a is Nothing),
            self@ matches CrateSpec::Git { url: u } ==> (present ==> (a
                matches PurgeAction::RemoveGitCheckout { url } && url@ == u)) && (!present ==> a
                is Nothing),
            self@ is Local ==> a is Nothing,
    {
        match &self.0 {
            CrateType::CratesIO(c) => c.purge_from_cache(workspace, present),
            CrateType::Git(g) => {
                if present {
                    PurgeAction::RemoveGitCheckout { url: g.url.clone() }
                } else {
                    PurgeAction::Nothing
                }
            },
            CrateType::Local(_) => PurgeAction::Nothing,
        }
    }

    /// This crate's git commit, best-effort: `reported` is whatever the git
    /// capability read as the current HEAD, and it is passed through only
    /// for a git crate; every other variant answers `None`.
    pub fn git_commit(&self, reported: Option<String>) -> (r: Option<String>)
        ensures
            self@ is Git ==> r == reported,
            !(self@ is Git) ==> r is None,
    {
        if let CrateType::Git(_) = &self.0 {
            reported
        } else {
            None
        }
    }

    /// Order the materialization of this crate's source into a destination:
    /// when the destination already exists (`dest_exists`) it is removed
    /// first — population never merges with stale contents — and then the
    /// backend's own step runs.
    pub fn copy_source_to(&self, workspace: &Workspace, dest_exists: bool) -> (cmd: CopyCommand)
        ensures
            cmd.remove_dest_first == dest_exists,
            self@ matches CrateSpec::Registry { name, version } ==> (cmd.step
                matches CopyStep::UnpackCachedArchive { cache_path } && cache_path@
                == spec_cache_path(workspace.cache_dir@, name, version)),
            self@ matches CrateSpec::Git { url: u } ==> (cmd.step
                matches CopyStep::CheckoutGit { url } && url@ == u),
            self@ matches CrateSpec::Local { path } ==> (cmd.step
                matches CopyStep::CopyLocalTree { source } && source@ == path),
    {
        let step = match &self.0 {
            CrateType::CratesIO(c) => CopyStep::UnpackCachedArchive {
                cache_path: c.cache_path(workspace),
            },
            CrateType::Git(g) => CopyStep::CheckoutGit { url: g.url.clone() },
            CrateType::Local(l) => CopyStep::CopyLocalTree { source: l.path.clone() },
        };
        CopyCommand { remove_dest_first: dest_exists, step }
    }

    /// Human-readable identity of this crate source.
    pub fn display(&self) -> (r: String)
        ensures
            self@ matches CrateSpec::Registry { name, version } ==> r@ == "crates.io crate "@
                + name + " "@ + version,
            self@ matches CrateSpec::Git { url } ==> r@ == "git crate at "@ + url,
            self@ matches CrateSpec::Local { path } ==> r@ == "local crate "@ + path,
    {
        match &self.0 {
            CrateType::CratesIO(c) => c.display(),
            CrateType::Git(g) => {
                let mut s = String::from_str("git crate at ");
                s.append(g.url.as_str());
                proof {
                    assert(s@ =~= "git crate at "@ + g.url@);
                }
                s
            },
            CrateType::Local(l) => {
                let mut s = String::from_str("local crate ");
                s.append(l.path.as_str());
                proof {
                    assert(s@ =~= "local crate "@ + l.path@);
                }
                s
            },
        }
    }
}

/// Whether a fetch for `key` has to download: exactly when the cache holds
/// no entry for it.
pub open spec fn spec_fetch_downloads(cache: Map<Seq<char>, Seq<u8>>, key: Seq<char>) -> bool {
    !cache.dom().contains(key)
}

/// The cache after a completed fetch for `key`: untouched when the entry
/// already exists, otherwise extended with the downloaded bytes.
pub open spec fn spec_cache_after_fetch(
    cache: Map<Seq<char>, Seq<u8>>,
    key: Seq<char>,
    body: Seq<u8>,
) -> Map<Seq<char>, Seq<u8>> {
    if cache.dom().contains(key) {
        cache
    } else {
        cache.insert(key, body)
    }
}

/// Fetch is idempotent: after one completed fetch the entry exists, so a
/// second fetch for the same key downloads nothing — whatever bytes a second
/// download would have produced — and leaves the cache file identical.
pub proof fn lemma_fetch_idempotent(
    cache: Map<Seq<char>, Seq<u8>>,
    key: Seq<char>,
    first: Seq<u8>,
    second: Seq<u8>,
)
    ensures
        !spec_fetch_downloads(spec_cache_after_fetch(cache, key, first), key),
        spec_cache_after_fetch(spec_cache_after_fetch(cache, key, first), key, second)
            == spec_cache_after_fetch(cache, key, first),
        spec_cache_after_fetch(cache, key, first)[key] == if cache.dom().contains(key) {
            cache[key]
        } else {
            first
        },
{
}

} // verus!
