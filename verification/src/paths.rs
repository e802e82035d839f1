//! Path normalization: parsing the prefix of a Windows-style path and
//! stripping the extended-length (verbatim) form `\\?\` back to the
//! conventional one, so that normalized paths stay compatible with external
//! tools that reject the verbatim syntax.

use vstd::prelude::*;

verus! {

/// A conservative estimate for the maximum length of a path on Windows.
///
/// The additional 12 character restriction is applied when creating
/// directories: it ensures that files can always be created inside that
/// directory without exceeding the path limit.
pub const MAX_PATH_LEN: usize = 260 - 12;

/// The parsed prefix of a Windows-style path, as spec-level data.
#[verifier::ext_equal]
pub enum PrefixSpec {
    /// `\\?\prefix`
    Verbatim { prefix: Seq<char> },
    /// `\\?\UNC\server\share`
    VerbatimUnc { server: Seq<char>, share: Seq<char> },
    /// `\\?\C:`, holding the one drive letter
    VerbatimDisk { drive: Seq<char> },
    /// `\\.\device`
    DeviceNs { device: Seq<char> },
    /// `\\server\share`
    Unc { server: Seq<char>, share: Seq<char> },
    /// `C:`, holding the one drive letter
    Disk { drive: Seq<char> },
}

/// The parsed prefix of a Windows-style path.
#[derive(Debug)]
pub enum PathPrefix {
    Verbatim { prefix: String },
    VerbatimUnc { server: String, share: String },
    VerbatimDisk { drive: String },
    DeviceNs { device: String },
    Unc { server: String, share: String },
    Disk { drive: String },
}

impl View for PathPrefix {
    type V = PrefixSpec;

    open spec fn view(&self) -> PrefixSpec {
        match self {
            PathPrefix::Verbatim { prefix } => PrefixSpec::Verbatim { prefix: prefix@ },
            PathPrefix::VerbatimUnc { server, share } => PrefixSpec::VerbatimUnc {
                server: server@,
                share: share@,
            },
            PathPrefix::VerbatimDisk { drive } => PrefixSpec::VerbatimDisk { drive: drive@ },
            PathPrefix::DeviceNs { device } => PrefixSpec::DeviceNs { device: device@ },
            PathPrefix::Unc { server, share } => PrefixSpec::Unc {
                server: server@,
                share: share@,
            },
            PathPrefix::Disk { drive } => PrefixSpec::Disk { drive: drive@ },
        }
    }
}

/// True for the letters a drive name may use.
pub open spec fn spec_is_drive_letter(c: char) -> bool {
    ('a' as u32 <= c as u32 && c as u32 <= 'z' as u32) || ('A' as u32 <= c as u32 && c as u32
        <= 'Z' as u32)
}

fn is_drive_letter(c: char) -> (r: bool)
    ensures
        r == spec_is_drive_letter(c),
{
    let u = c as u32;
    ('a' as u32 <= u && u <= 'z' as u32) || ('A' as u32 <= u && u <= 'Z' as u32)
}

/// Index right after the path segment that starts at `i`: the first position
/// at or after `i` holding a backslash, or the end of the string.
pub open spec fn seg_end(s: Seq<char>, i: int) -> int
    decreases s.len() - i,
{
    if i < 0 || i >= s.len() {
        s.len() as int
    } else if s[i] == '\\' {
        i
    } else {
        seg_end(s, i + 1)
    }
}

proof fn lemma_seg_end_bounds(s: Seq<char>, i: int)
    requires
        0 <= i <= s.len(),
    ensures
        i <= seg_end(s, i) <= s.len(),
    decreases s.len() - i,
{
    if i < s.len() && s[i] != '\\' {
        lemma_seg_end_bounds(s, i + 1);
    }
}

fn find_seg_end(s: &str, start: usize, n: usize) -> (e: usize)
    requires
        n == s@.len(),
        start <= n,
    ensures
        e == seg_end(s@, start as int),
        start <= e <= n,
{
    let mut j: usize = start;
    while j < n && s.get_char(j) != '\\'
        invariant
            start <= j <= n,
            n == s@.len(),
            seg_end(s@, start as int) == seg_end(s@, j as int),
        decreases n - j,
    {
        j = j + 1;
    }
    j
}

/// What prefix, if any, a Windows-style path starts with, and how many
/// characters of the path it takes up.
pub open spec fn spec_parse_prefix(s: Seq<char>) -> Option<(PrefixSpec, int)> {
    if s.len() >= 4 && s[0] == '\\' && s[1] == '\\' && s[2] == '?' && s[3] == '\\' {
        if s.len() >= 8 && s[4] == 'U' && s[5] == 'N' && s[6] == 'C' && s[7] == '\\' {
            let sv_end = seg_end(s, 8);
            let sh_end = if sv_end < s.len() {
                seg_end(s, sv_end + 1)
            } else {
                sv_end
            };
            Some(
                (
                    PrefixSpec::VerbatimUnc {
                        server: s.subrange(8, sv_end),
                        share: if sv_end < s.len() {
                            s.subrange(sv_end + 1, sh_end)
                        } else {
                            Seq::empty()
                        },
                    },
                    sh_end,
                ),
            )
        } else {
            let e = seg_end(s, 4);
            if e == 6 && spec_is_drive_letter(s[4]) && s[5] == ':' {
                Some((PrefixSpec::VerbatimDisk { drive: s.subrange(4, 5) }, 6))
            } else {
                Some((PrefixSpec::Verbatim { prefix: s.subrange(4, e) }, e))
            }
        }
    } else if s.len() >= 4 && s[0] == '\\' && s[1] == '\\' && s[2] == '.' && s[3] == '\\' {
        let e = seg_end(s, 4);
        Some((PrefixSpec::DeviceNs { device: s.subrange(4, e) }, e))
    } else if s.len() >= 2 && s[0] == '\\' && s[1] == '\\' {
        let sv_end = seg_end(s, 2);
        let sh_end = if sv_end < s.len() {
            seg_end(s, sv_end + 1)
        } else {
            sv_end
        };
        Some(
            (
                PrefixSpec::Unc {
                    server: s.subrange(2, sv_end),
                    share: if sv_end < s.len() {
                        s.subrange(sv_end + 1, sh_end)
                    } else {
                        Seq::empty()
                    },
                },
                sh_end,
            ),
        )
    } else if s.len() >= 2 && spec_is_drive_letter(s[0]) && s[1] == ':' {
        Some((PrefixSpec::Disk { drive: s.subrange(0, 1) }, 2))
    } else {
        None
    }
}

/// A prefix parsed off the front of a path, with the number of characters it
/// occupies.
#[derive(Debug)]
pub struct ParsedPrefix {
    pub prefix: PathPrefix,
    pub len: usize,
}

/// Parse the prefix of a Windows-style path, if it has one.
pub fn parse_prefix(s: &str) -> (r: Option<ParsedPrefix>)
    ensures
        match r {
            Some(p) => spec_parse_prefix(s@) == Some((p.prefix@, p.len as int)),
            None => spec_parse_prefix(s@) is None,
        },
{
    let n = s.unicode_len();
    if n >= 4 && s.get_char(0) == '\\' && s.get_char(1) == '\\' && s.get_char(2) == '?'
        && s.get_char(3) == '\\' {
        if n >= 8 && s.get_char(4) == 'U' && s.get_char(5) == 'N' && s.get_char(6) == 'C'
            && s.get_char(7) == '\\' {
            let sv_end = find_seg_end(s, 8, n);
            let server = s.substring_char(8, sv_end).to_owned();
            if sv_end < n {
                let sh_end = find_seg_end(s, sv_end + 1, n);
                let share = s.substring_char(sv_end + 1, sh_end).to_owned();
                Some(
                    ParsedPrefix {
                        prefix: PathPrefix::VerbatimUnc { server, share },
                        len: sh_end,
                    },
                )
            } else {
                let share = String::new();
                Some(
                    ParsedPrefix {
                        prefix: PathPrefix::VerbatimUnc { server, share },
                        len: sv_end,
                    },
                )
            }
        } else {
            let e = find_seg_end(s, 4, n);
            if e == 6 && is_drive_letter(s.get_char(4)) && s.get_char(5) == ':' {
                let drive = s.substring_char(4, 5).to_owned();
                Some(ParsedPrefix { prefix: PathPrefix::VerbatimDisk { drive }, len: 6 })
            } else {
                let prefix = s.substring_char(4, e).to_owned();
                Some(ParsedPrefix { prefix: PathPrefix::Verbatim { prefix }, len: e })
            }
        }
    } else if n >= 4 && s.get_char(0) == '\\' && s.get_char(1) == '\\' && s.get_char(2) == '.'
        && s.get_char(3) == '\\' {
        let e = find_seg_end(s, 4, n);
        let device = s.substring_char(4, e).to_owned();
        Some(ParsedPrefix { prefix: PathPrefix::DeviceNs { device }, len: e })
    } else if n >= 2 && s.get_char(0) == '\\' && s.get_char(1) == '\\' {
        let sv_end = find_seg_end(s, 2, n);
        let server = s.substring_char(2, sv_end).to_owned();
        if sv_end < n {
            let sh_end = find_seg_end(s, sv_end + 1, n);
            let share = s.substring_char(sv_end + 1, sh_end).to_owned();
            Some(ParsedPrefix { prefix: PathPrefix::Unc { server, share }, len: sh_end })
        } else {
            let share = String::new();
            Some(ParsedPrefix { prefix: PathPrefix::Unc { server, share }, len: sv_end })
        }
    } else if n >= 2 && s.get_char(1) == ':' && is_drive_letter(s.get_char(0)) {
        let drive = s.substring_char(0, 1).to_owned();
        Some(ParsedPrefix { prefix: PathPrefix::Disk { drive }, len: 2 })
    } else {
        None
    }
}

/// The conventional form of a verbatim prefix: the named part for `\\?\name`,
/// `X:\` for `\\?\X:`, and nothing for the prefixes that are not verbatim.
/// The `\\?\UNC\` form has no conventional rendering here; callers must not
/// pass it.
pub open spec fn spec_strip_verbatim(p: PrefixSpec) -> Option<Seq<char>> {
    match p {
        PrefixSpec::Verbatim { prefix } => Some(prefix),
        PrefixSpec::VerbatimDisk { drive } => Some(drive + seq![':', '\\']),
        _ => None,
    }
}

/// If a prefix uses the extended-length syntax (`\\?\`), return the
/// equivalent version without it; `None` for a prefix that is not verbatim.
pub fn strip_verbatim_from_prefix(prefix: &PathPrefix) -> (r: Option<String>)
    requires
        !(prefix@ is VerbatimUnc),
    ensures
        match r {
            Some(s) => spec_strip_verbatim(prefix@) == Some(s@),
            None => spec_strip_verbatim(prefix@) is None,
        },
{
    match prefix {
        PathPrefix::Verbatim { prefix } => Some(prefix.clone()),
        PathPrefix::VerbatimDisk { drive } => {
            proof {
                reveal_strlit(":\\");
                assert(":\\"@ =~= seq![':', '\\']);
            }
            Some(drive.clone().concat(":\\"))
        },
        // Callers never hand over a `\\?\UNC\` prefix.
        PathPrefix::VerbatimUnc { .. } => None,
        PathPrefix::DeviceNs { .. } => None,
        PathPrefix::Unc { .. } => None,
        PathPrefix::Disk { .. } => None,
    }
}

/// Join a stripped prefix back onto the remainder of the path, collapsing the
/// separator where both sides bring one.
pub open spec fn spec_join_stripped(stripped: Seq<char>, rest: Seq<char>) -> Seq<char> {
    if rest.len() > 0 && rest[0] == '\\' && stripped.len() > 0 && stripped.last() == '\\' {
        stripped + rest.skip(1)
    } else {
        stripped + rest
    }
}

proof fn lemma_parse_prefix_len(s: Seq<char>)
    ensures
        spec_parse_prefix(s) matches Some(pl) ==> 0 <= pl.1 <= s.len(),
{
    if s.len() >= 8 {
        lemma_seg_end_bounds(s, 8);
        if seg_end(s, 8) < s.len() {
            lemma_seg_end_bounds(s, seg_end(s, 8) + 1);
        }
    }
    if s.len() >= 4 {
        lemma_seg_end_bounds(s, 4);
    }
    if s.len() >= 2 {
        lemma_seg_end_bounds(s, 2);
        if seg_end(s, 2) < s.len() {
            lemma_seg_end_bounds(s, seg_end(s, 2) + 1);
        }
    }
}

/// A Windows-style path with a verbatim prefix rewritten to its conventional
/// form; any other path is left unchanged.
pub open spec fn spec_normalized_windows(s: Seq<char>) -> Seq<char> {
    match spec_parse_prefix(s) {
        Some(pl) => match spec_strip_verbatim(pl.0) {
            Some(st) => spec_join_stripped(st, s.skip(pl.1)),
            None => s,
        },
        None => s,
    }
}

/// Platform-adapt an already canonicalized path.
///
/// On Windows (`windows` set) the extended-length prefix that
/// canonicalization introduces is stripped back to the conventional form, and
/// the flag in the result reports whether the outcome is still so long that
/// creating directories under it would be unsafe. Elsewhere the path is
/// returned unchanged. Resolving the path against the filesystem is the
/// caller's step, done before this one.
pub fn normalize_path(p: &str, windows: bool) -> (r: (String, bool))
    requires
        windows ==> !(spec_parse_prefix(p@) matches Some(pl) && pl.0 is VerbatimUnc),
    ensures
        !windows ==> r.0@ == p@ && r.1 == false,
        windows ==> r.0@ == spec_normalized_windows(p@),
        windows ==> (r.1 <==> r.0@.len() >= MAX_PATH_LEN),
{
    if !windows {
        return (p.to_owned(), false);
    }
    let n = p.unicode_len();
    let out: String = match parse_prefix(p) {
        Some(parsed) => {
            proof {
                lemma_parse_prefix_len(p@);
            }
            match strip_verbatim_from_prefix(&parsed.prefix) {
                Some(stripped) => {
                    let rest = p.substring_char(parsed.len, n);
                    let rest_n = rest.unicode_len();
                    let stripped_len = stripped.as_str().unicode_len();
                    let collapse = rest_n > 0 && rest.get_char(0) == '\\' && stripped_len > 0
                        && stripped.as_str().get_char(stripped_len - 1) == '\\';
                    proof {
                        assert(p@.subrange(parsed.len as int, n as int) =~= p@.skip(
                            parsed.len as int,
                        ));
                    }
                    if collapse {
                        let tail = rest.substring_char(1, rest_n);
                        stripped.concat(tail)
                    } else {
                        stripped.concat(rest)
                    }
                },
                None => p.to_owned(),
            }
        },
        None => p.to_owned(),
    };
    let too_long = out.as_str().unicode_len() >= MAX_PATH_LEN;
    (out, too_long)
}

} // verus!
