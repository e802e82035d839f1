//! Idempotent installation of the externally-managed tools the workspace
//! depends on: each required tool, in order, is updated when already present
//! and installed when missing; after an install the binary is re-checked,
//! and a binary still missing then is a fatal configuration error that
//! aborts the whole sequence — order matters, since later tools rely on
//! earlier ones being in place.
//!
//! The decisions form a state machine over plain observations (is the binary
//! there, did the external step succeed); the caller performs the downloads,
//! spawns the installers, and feeds each outcome back in.

use vstd::prelude::*;
use crate::Workspace;

verus! {

/// An externally-managed executable the workspace depends on.
pub struct Tool {
    pub name: String,
}

/// Where a tool's binary lives:
/// `<cargo-home>/bin/<name><exe-suffix>`. The presence check on this path
/// must be cheap and side-effect-free — it never invokes the tool.
pub open spec fn spec_binary_path(cargo_home: Seq<char>, name: Seq<char>, exe_suffix: Seq<char>) -> Seq<
    char,
> {
    cargo_home + "/bin/"@ + name + exe_suffix
}

impl Tool {
    pub fn new(name: &str) -> (t: Tool)
        ensures
            t.name@ == name@,
    {
        Tool { name: name.to_owned() }
    }

    /// The expected path of this tool's binary under the workspace.
    pub fn binary_path(&self, workspace: &Workspace, exe_suffix: &str) -> (r: String)
        ensures
            r@ == spec_binary_path(workspace.cargo_home@, self.name@, exe_suffix@),
    {
        let mut s = workspace.cargo_home.clone();
        s.append("/bin/");
        s.append(self.name.as_str());
        s.append(exe_suffix);
        proof {
            assert(s@ =~= spec_binary_path(workspace.cargo_home@, self.name@, exe_suffix@));
        }
        s
    }
}

/// Where the install sequence stands for the tool at `idx`.
#[derive(Clone, Copy, PartialEq, Eq, Structural, Debug)]
pub enum ToolPhase {
    /// About to check whether the tool is installed.
    Checking,
    /// The tool is present: an update is running.
    Updating,
    /// The tool is missing: an install is running.
    Installing,
    /// The install finished: the binary is being re-checked.
    Rechecking,
    /// Fatal: the sequence stops at this tool.
    Failed,
    /// Every tool is installed or updated.
    Done,
}

/// The install sequence: which tool of the ordered list is being worked on,
/// and in which phase.
#[derive(Clone, Copy)]
pub struct InstallState {
    pub idx: usize,
    pub phase: ToolPhase,
}

/// An observation fed back into the sequence.
#[derive(Clone, Copy)]
pub enum ToolEvent {
    /// The presence check answered.
    Checked { installed: bool },
    /// The external update step finished.
    Updated { ok: bool },
    /// The external install step finished.
    Installed { ok: bool },
    /// The post-install presence check answered.
    Rechecked { installed: bool },
}

/// Move to the next tool, or finish after the last one.
pub open spec fn spec_advance(s: InstallState, n: int) -> InstallState {
    if s.idx + 1 < n {
        InstallState { idx: (s.idx + 1) as usize, phase: ToolPhase::Checking }
    } else {
        InstallState { idx: s.idx, phase: ToolPhase::Done }
    }
}

/// One transition of the install sequence:
/// a present tool is always updated, and a failed update surfaces rather
/// than being ignored; a missing tool is installed and then re-checked, and
/// a binary still missing after its install is fatal. `Failed` and `Done`
/// absorb every further event, and an event that does not answer the
/// current phase changes nothing.
pub open spec fn spec_step(s: InstallState, e: ToolEvent, n: int) -> InstallState {
    match (s.phase, e) {
        (ToolPhase::Checking, ToolEvent::Checked { installed }) => {
            if installed {
                InstallState { idx: s.idx, phase: ToolPhase::Updating }
            } else {
                InstallState { idx: s.idx, phase: ToolPhase::Installing }
            }
        },
        (ToolPhase::Updating, ToolEvent::Updated { ok }) => {
            if ok {
                spec_advance(s, n)
            } else {
                InstallState { idx: s.idx, phase: ToolPhase::Failed }
            }
        },
        (ToolPhase::Installing, ToolEvent::Installed { ok }) => {
            if ok {
                InstallState { idx: s.idx, phase: ToolPhase::Rechecking }
            } else {
                InstallState { idx: s.idx, phase: ToolPhase::Failed }
            }
        },
        (ToolPhase::Rechecking, ToolEvent::Rechecked { installed }) => {
            if installed {
                spec_advance(s, n)
            } else {
                InstallState { idx: s.idx, phase: ToolPhase::Failed }
            }
        },
        _ => s,
    }
}

/// Start the install sequence over an ordered list of required tools.
pub fn install(tools: &Vec<Tool>) -> (s: InstallState)
    ensures
        tools@.len() == 0 ==> s.phase == ToolPhase::Done,
        tools@.len() > 0 ==> s.idx == 0 && s.phase == ToolPhase::Checking,
        s.idx == 0,
{
    if tools.len() == 0 {
        InstallState { idx: 0, phase: ToolPhase::Done }
    } else {
        InstallState { idx: 0, phase: ToolPhase::Checking }
    }
}

/// Apply one observation to the sequence.
pub fn step(s: InstallState, e: ToolEvent, n: usize) -> (r: InstallState)
    requires
        s.idx < n,
    ensures
        r == spec_step(s, e, n as int),
        r.idx < n,
{
    match (s.phase, e) {
        (ToolPhase::Checking, ToolEvent::Checked { installed }) => {
            if installed {
                InstallState { idx: s.idx, phase: ToolPhase::Updating }
            } else {
                InstallState { idx: s.idx, phase: ToolPhase::Installing }
            }
        },
        (ToolPhase::Updating, ToolEvent::Updated { ok }) => {
            if ok {
                advance(s, n)
            } else {
                InstallState { idx: s.idx, phase: ToolPhase::Failed }
            }
        },
        (ToolPhase::Installing, ToolEvent::Installed { ok }) => {
            if ok {
                InstallState { idx: s.idx, phase: ToolPhase::Rechecking }
            } else {
                InstallState { idx: s.idx, phase: ToolPhase::Failed }
            }
        },
        (ToolPhase::Rechecking, ToolEvent::Rechecked { installed }) => {
            if installed {
                advance(s, n)
            } else {
                InstallState { idx: s.idx, phase: ToolPhase::Failed }
            }
        },
        _ => s,
    }
}

fn advance(s: InstallState, n: usize) -> (r: InstallState)
    requires
        s.idx < n,
    ensures
        r == spec_advance(s, n as int),
        r.idx < n,
{
    if s.idx + 1 < n {
        InstallState { idx: s.idx + 1, phase: ToolPhase::Checking }
    } else {
        InstallState { idx: s.idx, phase: ToolPhase::Done }
    }
}

/// Tool install verification: when the re-check after an install still does
/// not find the binary, the sequence fails at that very tool — the state
/// names it — and does not move on to the next one.
pub proof fn lemma_install_verification_fatal(s: InstallState, n: int)
    requires
        s.phase == ToolPhase::Rechecking,
    ensures
        spec_step(s, ToolEvent::Rechecked { installed: false }, n) == (InstallState {
            idx: s.idx,
            phase: ToolPhase::Failed,
        }),
{
}

/// A fatal failure aborts the whole sequence: no event whatsoever moves a
/// failed sequence forward, so no tool after the failing one is touched.
pub proof fn lemma_failed_is_absorbing(s: InstallState, e: ToolEvent, n: int)
    requires
        s.phase == ToolPhase::Failed,
    ensures
        spec_step(s, e, n) == s,
{
}

/// The fixed remote location of the toolchain installer for a platform.
pub open spec fn spec_rustup_init_url(host_target: Seq<char>, exe_suffix: Seq<char>) -> Seq<char> {
    "https://static.rust-lang.org/rustup/dist"@ + "/"@ + host_target + "/rustup-init"@ + exe_suffix
}

/// Where the toolchain installer for `host_target` is downloaded from; the
/// payload is saved to a temporary location, marked executable, and run.
pub fn rustup_init_url(host_target: &str, exe_suffix: &str) -> (r: String)
    ensures
        r@ == spec_rustup_init_url(host_target@, exe_suffix@),
{
    let mut s = String::from_str("https://static.rust-lang.org/rustup/dist");
    s.append("/");
    s.append(host_target);
    s.append("/rustup-init");
    s.append(exe_suffix);
    proof {
        assert(s@ =~= spec_rustup_init_url(host_target@, exe_suffix@));
    }
    s
}

/// The arguments the toolchain installer is invoked with: non-interactive,
/// leaving the caller's PATH alone, with the workspace's default toolchain
/// and install profile. The caller also sets the two environment variables
/// that redirect the tool's home directories into the workspace.
pub fn rustup_install_args(toolchain: &str, profile: &str) -> (r: Vec<String>)
    ensures
        r@.len() == 6,
        r@[0]@ == "-y"@,
        r@[1]@ == "--no-modify-path"@,
        r@[2]@ == "--default-toolchain"@,
        r@[3]@ == toolchain@,
        r@[4]@ == "--profile"@,
        r@[5]@ == profile@,
{
    let mut v: Vec<String> = Vec::new();
    v.push(String::from_str("-y"));
    v.push(String::from_str("--no-modify-path"));
    v.push(String::from_str("--default-toolchain"));
    v.push(toolchain.to_owned());
    v.push(String::from_str("--profile"));
    v.push(profile.to_owned());
    v
}

/// The arguments of the first update command: the tool updates itself.
pub fn rustup_self_update_args() -> (r: Vec<String>)
    ensures
        r@.len() == 2,
        r@[0]@ == "self"@,
        r@[1]@ == "update"@,
{
    let mut v: Vec<String> = Vec::new();
    v.push(String::from_str("self"));
    v.push(String::from_str("update"));
    v
}

/// The arguments of the second update command: the main toolchain is
/// brought up to date.
pub fn rustup_update_args(toolchain: &str) -> (r: Vec<String>)
    ensures
        r@.len() == 2,
        r@[0]@ == "update"@,
        r@[1]@ == toolchain@,
{
    let mut v: Vec<String> = Vec::new();
    v.push(String::from_str("update"));
    v.push(toolchain.to_owned());
    v
}

} // verus!
