use sourceprep::archive::ArchiveError;
use sourceprep::crates::{CratesIOCrate, SourceError};
use std::io::Write;

fn gzip(bytes: &[u8]) -> Vec<u8> {
    let mut enc = flate2::write::GzEncoder::new(Vec::new(), flate2::Compression::default());
    enc.write_all(bytes).unwrap();
    enc.finish().unwrap()
}

fn make_archive(entries: &[(&str, Option<&[u8]>)]) -> Vec<u8> {
    let mut builder = tar::Builder::new(Vec::new());
    for (path, contents) in entries {
        let mut header = tar::Header::new_gnu();
        match contents {
            Some(data) => {
                header.set_size(data.len() as u64);
                header.set_mode(0o644);
                header.set_cksum();
                builder.append_data(&mut header, path, *data).unwrap();
            }
            None => {
                header.set_entry_type(tar::EntryType::Directory);
                header.set_size(0);
                header.set_mode(0o755);
                header.set_cksum();
                builder.append_data(&mut header, path, &[][..]).unwrap();
            }
        }
    }
    let tar_bytes = builder.into_inner().unwrap();
    gzip(&tar_bytes)
}

#[test]
fn unpack_strips_first_component() {
    let archive = make_archive(&[
        ("foo-1.0.0/", None),
        ("foo-1.0.0/Cargo.toml", Some(b"[package]")),
        ("foo-1.0.0/src/", None),
        ("foo-1.0.0/src/lib.rs", Some(b"pub fn f() {}")),
    ]);
    let krate = CratesIOCrate::new("foo", "1.0.0");
    let plan = krate.copy_source_to(&archive).unwrap();

    assert_eq!(plan.len(), 4);
    assert_eq!(plan[0].path, b"");
    assert!(plan[0].is_dir);
    assert_eq!(plan[1].path, b"Cargo.toml");
    assert!(!plan[1].is_dir);
    assert_eq!(plan[1].data, b"[package]");
    assert_eq!(plan[2].path, b"src");
    assert!(plan[2].is_dir);
    assert_eq!(plan[3].path, b"src/lib.rs");
    assert_eq!(plan[3].data, b"pub fn f() {}");

    // The wrapping directory name appears in no planned path.
    for entry in &plan {
        assert!(!entry.path.starts_with(b"foo-1.0.0"));
    }
}

#[test]
fn unpack_rejects_corrupt_gzip() {
    let krate = CratesIOCrate::new("bar", "0.2.1");
    let err = krate.copy_source_to(&vec![1u8, 2, 3, 4]).unwrap_err();
    let SourceError::Unpack { name, version, cause } = err;
    assert_eq!(name, "bar");
    assert_eq!(version, "0.2.1");
    assert_eq!(cause, ArchiveError::Gzip);
}

#[test]
fn unpack_rejects_corrupt_tar() {
    let garbage = gzip(&[0xffu8; 600]);
    let krate = CratesIOCrate::new("baz", "3.0.0");
    let err = krate.copy_source_to(&garbage).unwrap_err();
    let SourceError::Unpack { name, version, cause } = err;
    assert_eq!(name, "baz");
    assert_eq!(version, "3.0.0");
    assert_eq!(cause, ArchiveError::Tar);
}

#[test]
fn unpack_of_empty_archive_is_empty() {
    let archive = make_archive(&[]);
    let krate = CratesIOCrate::new("empty", "0.0.0");
    let plan = krate.copy_source_to(&archive).unwrap();
    assert!(plan.is_empty());
}
