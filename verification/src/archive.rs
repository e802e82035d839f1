//! Registry archives: a cached crate is a gzip-compressed tar whose entries
//! all sit under a single `<name>-<version>/` directory. Unpacking strips
//! exactly that first path component, so the wrapping directory never appears
//! in the destination tree.

use vstd::prelude::*;
use vstd::slice::{slice_index_get, slice_subrange, slice_to_vec};

verus! {

/// Why a cached archive could not be read.
#[derive(Clone, Copy, PartialEq, Eq, Structural, Debug)]
pub enum ArchiveError {
    /// The gzip layer is corrupt.
    Gzip,
    /// The tar layer is corrupt.
    Tar,
}

/// One member of a tar archive: its path inside the archive (as bytes, with
/// `/` separators), whether it is a directory, and its contents.
#[derive(Debug)]
pub struct TarEntry {
    pub path: Vec<u8>,
    pub is_dir: bool,
    pub data: Vec<u8>,
}

/// What decompressing a byte string as gzip yields: the decompressed bytes,
/// or nothing when the input is not a valid gzip stream.
pub uninterp spec fn spec_gunzip(data: Seq<u8>) -> Option<Seq<u8>>;

/// Relies on flate2::read::GzDecoder: reading it to the end yields the
/// decompressed payload of a gzip stream and fails on a corrupt one; the
/// outcome depends on the input bytes alone.
#[verifier::external_body]
fn gunzip(data: &Vec<u8>) -> (r: Result<Vec<u8>, ArchiveError>)
    ensures
        r is Ok <==> spec_gunzip(data@) is Some,
        r matches Ok(v) ==> spec_gunzip(data@) == Some(v@),
        r matches Err(e) ==> e == ArchiveError::Gzip,
{
    let mut out = Vec::new();
    let mut dec = flate2::read::GzDecoder::new(&data[..]);
    match std::io::Read::read_to_end(&mut dec, &mut out) {
        Ok(_) => Ok(out),
        Err(_) => Err(ArchiveError::Gzip),
    }
}

/// What reading a byte string as a tar archive yields: each member in order
/// as (path bytes, is-directory, contents), or nothing when the input is not
/// a well-formed archive.
pub uninterp spec fn spec_tar_entries(data: Seq<u8>) -> Option<Seq<(Seq<u8>, bool, Seq<u8>)>>;

/// Relies on tar::Archive: `entries` yields each member of the archive in
/// order, with its path bytes, its type and its contents, and fails on a
/// malformed archive; the outcome depends on the input bytes alone.
#[verifier::external_body]
fn tar_entry_list(data: &Vec<u8>) -> (r: Result<Vec<TarEntry>, ArchiveError>)
    ensures
        r is Ok <==> spec_tar_entries(data@) is Some,
        r matches Ok(es) ==> spec_tar_entries(data@) matches Some(m) && es@.len() == m.len()
            && (forall|i: int|
            0 <= i < m.len() ==> es@[i].path@ == m[i].0 && es@[i].is_dir == m[i].1
                && es@[i].data@ == m[i].2),
        r matches Err(e) ==> e == ArchiveError::Tar,
{
    let mut ar = tar::Archive::new(&data[..]);
    let mut out = Vec::new();
    let entries = match ar.entries() { Ok(es) => es, Err(_) => return Err(ArchiveError::Tar) };
    for entry in entries {
        let mut entry = match entry { Ok(e) => e, Err(_) => return Err(ArchiveError::Tar) };
        let path = entry.path_bytes().to_vec();
        let is_dir = entry.header().entry_type().is_dir();
        let mut data = Vec::new();
        if std::io::Read::read_to_end(&mut entry, &mut data).is_err() {
            return Err(ArchiveError::Tar);
        }
        out.push(TarEntry { path, is_dir, data });
    }
    Ok(out)
}

/// A path with its first component thrown away: everything after the first
/// `/`, or nothing when the path is a single component.
pub open spec fn spec_strip_first_component(p: Seq<u8>) -> Seq<u8>
    decreases p.len(),
{
    if p.len() == 0 {
        p
    } else if p.first() == 47u8 {
        p.drop_first()
    } else {
        spec_strip_first_component(p.drop_first())
    }
}

/// Throw away the first path component of `p`.
pub fn strip_first_component(p: &[u8]) -> (r: Vec<u8>)
    ensures
        r@ == spec_strip_first_component(p@),
{
    let n = p.len();
    let mut i: usize = 0;
    proof {
        assert(p@.skip(0) =~= p@);
    }
    while i < n && *slice_index_get(p, i) != 47u8
        invariant
            0 <= i <= n,
            n == p@.len(),
            spec_strip_first_component(p@) == spec_strip_first_component(p@.skip(i as int)),
        decreases n - i,
    {
        proof {
            assert(p@.skip(i as int).drop_first() =~= p@.skip(i + 1));
        }
        i = i + 1;
    }
    if i < n {
        let r = slice_to_vec(slice_subrange(p, i + 1, n));
        proof {
            assert(p@.skip(i as int).drop_first() =~= p@.subrange(i + 1, n as int));
        }
        r
    } else {
        let r: Vec<u8> = Vec::new();
        proof {
            assert(p@.skip(i as int) =~= Seq::<u8>::empty());
        }
        r
    }
}

/// Unpacking strips exactly the wrapping directory: an entry filed under
/// `dir/`, where `dir` itself holds no separator, comes out at its path
/// inside that directory.
pub proof fn lemma_strip_first_component_of_wrapped(dir: Seq<u8>, rest: Seq<u8>)
    requires
        forall|i: int| 0 <= i < dir.len() ==> dir[i] != 47u8,
    ensures
        spec_strip_first_component(dir + seq![47u8] + rest) == rest,
    decreases dir.len(),
{
    let whole = dir + seq![47u8] + rest;
    if dir.len() == 0 {
        assert(whole.first() == 47u8);
        assert(whole.drop_first() =~= rest);
    } else {
        assert(whole.first() == dir[0]);
        assert(whole.drop_first() =~= dir.drop_first() + seq![47u8] + rest);
        lemma_strip_first_component_of_wrapped(dir.drop_first(), rest);
    }
}

/// The same, end to end: a member filed under the wrapping directory is
/// planned at exactly its path inside it (the separator a directory entry
/// carries at its end is dropped), so the wrapping directory itself never
/// appears in the destination tree.
pub proof fn lemma_unpacked_path_of_wrapped(dir: Seq<u8>, rest: Seq<u8>)
    requires
        forall|i: int| 0 <= i < dir.len() ==> dir[i] != 47u8,
    ensures
        spec_unpacked_path(dir + seq![47u8] + rest) == spec_drop_trailing_slash(rest),
{
    lemma_strip_first_component_of_wrapped(dir, rest);
}

/// A path without the trailing separator a tar directory entry carries.
pub open spec fn spec_drop_trailing_slash(p: Seq<u8>) -> Seq<u8> {
    if p.len() > 0 && p.last() == 47u8 {
        p.drop_last()
    } else {
        p
    }
}

/// Where a member of a registry archive lands, relative to the destination:
/// its path with the first component thrown away and without a trailing
/// separator.
pub open spec fn spec_unpacked_path(p: Seq<u8>) -> Seq<u8> {
    spec_drop_trailing_slash(spec_strip_first_component(p))
}

/// Where each member of a registry archive lands, relative to the
/// destination: the member's path with the first component thrown away.
pub fn unpack_without_first_dir(entries: &Vec<TarEntry>) -> (r: Vec<TarEntry>)
    ensures
        r@.len() == entries@.len(),
        forall|i: int|
            0 <= i < entries@.len() ==> (#[trigger] r@[i]).path@ == spec_unpacked_path(
                entries@[i].path@,
            ) && r@[i].is_dir == entries@[i].is_dir && r@[i].data@ == entries@[i].data@,
{
    let mut out: Vec<TarEntry> = Vec::new();
    let n = entries.len();
    let mut k: usize = 0;
    while k < n
        invariant
            0 <= k <= n,
            n == entries@.len(),
            out@.len() == k,
            forall|i: int|
                0 <= i < k ==> (#[trigger] out@[i]).path@ == spec_unpacked_path(
                    entries@[i].path@,
                ) && out@[i].is_dir == entries@[i].is_dir && out@[i].data@ == entries@[i].data@,
        decreases n - k,
    {
        let e = &entries[k];
        let mut path = strip_first_component(e.path.as_slice());
        let m = path.len();
        if m > 0 && path[m - 1] == 47u8 {
            path.pop();
            proof {
                assert(path@ =~= spec_unpacked_path(e.path@));
            }
        }
        let data = slice_to_vec(e.data.as_slice());
        out.push(TarEntry { path, is_dir: e.is_dir, data });
        k = k + 1;
    }
    out
}

/// Read a cached registry archive (gzip-compressed tar) and plan its
/// unpacking: each member, in order, with the wrapping directory stripped
/// from its path.
pub fn plan_unpack(archive: &Vec<u8>) -> (r: Result<Vec<TarEntry>, ArchiveError>)
    ensures
        r is Ok <==> (spec_gunzip(archive@) matches Some(t) && spec_tar_entries(t) is Some),
        r matches Ok(out) ==> spec_tar_entries(spec_gunzip(archive@)->Some_0) matches Some(m)
            && out@.len() == m.len() && (forall|i: int|
            0 <= i < m.len() ==> #[trigger] out@[i].path@ == spec_unpacked_path(m[i].0)
                && out@[i].is_dir == m[i].1 && out@[i].data@ == m[i].2),
        r matches Err(e) ==> (e == ArchiveError::Gzip <==> spec_gunzip(archive@) is None),
{
    let tar_bytes = match gunzip(archive) {
        Ok(b) => b,
        Err(e) => {
            return Err(e);
        },
    };
    let entries = match tar_entry_list(&tar_bytes) {
        Ok(es) => es,
        Err(e) => {
            return Err(e);
        },
    };
    Ok(unpack_without_first_dir(&entries))
}

} // verus!
