use sourceprep::crates::{Crate, CratesIOCrate, CopyStep, FetchAction, PurgeAction};
use sourceprep::Workspace;

fn workspace() -> Workspace {
    Workspace::new(
        String::from("/work/cache"),
        String::from("/work/cargo-home"),
        String::from("/work/rustup-home"),
        String::from("minimal"),
    )
}

#[test]
fn cache_path_layout() {
    let ws = workspace();
    let krate = CratesIOCrate::new("serde", "1.0.100");
    assert_eq!(
        krate.cache_path(&ws),
        "/work/cache/cratesio-sources/serde/serde-1.0.100.crate"
    );
}

#[test]
fn download_url_layout() {
    let krate = CratesIOCrate::new("serde", "1.0.100");
    assert_eq!(
        krate.download_url(),
        "https://static.crates.io/crates/serde/serde-1.0.100.crate"
    );
}

#[test]
fn fetch_is_idempotent() {
    // First call: nothing cached, so exactly one download is ordered.
    let ws = workspace();
    let krate = Crate::crates_io("serde", "1.0.100");
    match krate.fetch(&ws, false) {
        FetchAction::Download { url, cache_path } => {
            assert_eq!(url, "https://static.crates.io/crates/serde/serde-1.0.100.crate");
            assert_eq!(
                cache_path,
                "/work/cache/cratesio-sources/serde/serde-1.0.100.crate"
            );
        }
        _ => panic!("an uncached crate must be downloaded"),
    }

    // Second call: the cache file now exists, so no request is made and the
    // cached bytes stay untouched.
    match krate.fetch(&ws, true) {
        FetchAction::UseCache => {}
        _ => panic!("a cached crate must not be fetched again"),
    }
}

#[test]
fn git_and_local_fetch() {
    let ws = workspace();
    let git = Crate::git("https://example.com/repo.git");
    match git.fetch(&ws, false) {
        FetchAction::CloneOrFetch { url } => assert_eq!(url, "https://example.com/repo.git"),
        _ => panic!("a git crate is cloned or fetched"),
    }

    let local = Crate::local("/src/mycrate");
    match local.fetch(&ws, false) {
        FetchAction::Nothing => {}
        _ => panic!("a local crate has nothing to fetch"),
    }
}

#[test]
fn purge_actions() {
    let ws = workspace();
    let krate = Crate::crates_io("serde", "1.0.100");
    match krate.purge_from_cache(&ws, true) {
        PurgeAction::RemoveFile { path } => {
            assert_eq!(path, "/work/cache/cratesio-sources/serde/serde-1.0.100.crate");
        }
        _ => panic!("a cached registry crate is purged by deleting its file"),
    }
    match krate.purge_from_cache(&ws, false) {
        PurgeAction::Nothing => {}
        _ => panic!("purging an absent entry is a no-op"),
    }

    let local = Crate::local("/src/mycrate");
    match local.purge_from_cache(&ws, true) {
        PurgeAction::Nothing => {}
        _ => panic!("a local crate has no cache to purge"),
    }
}

#[test]
fn git_commit_only_for_git() {
    let git = Crate::git("https://example.com/repo.git");
    assert_eq!(
        git.git_commit(Some(String::from("abc123"))),
        Some(String::from("abc123"))
    );
    assert_eq!(git.git_commit(None), None);

    let registry = Crate::crates_io("serde", "1.0.100");
    assert_eq!(registry.git_commit(Some(String::from("abc123"))), None);

    let local = Crate::local("/src/mycrate");
    assert_eq!(local.git_commit(Some(String::from("abc123"))), None);
}

#[test]
fn copy_source_clears_existing_destination() {
    let ws = workspace();
    let krate = Crate::crates_io("serde", "1.0.100");

    let cmd = krate.copy_source_to(&ws, true);
    assert!(cmd.remove_dest_first);
    match cmd.step {
        CopyStep::UnpackCachedArchive { cache_path } => {
            assert_eq!(
                cache_path,
                "/work/cache/cratesio-sources/serde/serde-1.0.100.crate"
            );
        }
        _ => panic!("a registry crate is materialized from its cached archive"),
    }

    let cmd = krate.copy_source_to(&ws, false);
    assert!(!cmd.remove_dest_first);

    let local = Crate::local("/src/mycrate");
    let cmd = local.copy_source_to(&ws, true);
    assert!(cmd.remove_dest_first);
    match cmd.step {
        CopyStep::CopyLocalTree { source } => assert_eq!(source, "/src/mycrate"),
        _ => panic!("a local crate is materialized by copying its tree"),
    }

    let git = Crate::git("https://example.com/repo.git");
    match git.copy_source_to(&ws, false).step {
        CopyStep::CheckoutGit { url } => assert_eq!(url, "https://example.com/repo.git"),
        _ => panic!("a git crate is materialized from its checkout"),
    }
}

#[test]
fn display_identities() {
    let ws_free = Crate::crates_io("serde", "1.0.100");
    assert_eq!(ws_free.display(), "crates.io crate serde 1.0.100");
    assert_eq!(
        Crate::git("https://example.com/repo.git").display(),
        "git crate at https://example.com/repo.git"
    );
    assert_eq!(Crate::local("/src/mycrate").display(), "local crate /src/mycrate");
}
