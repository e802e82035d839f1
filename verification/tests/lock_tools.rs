use sourceprep::lock::{LockState, Waiter};
use sourceprep::tools::{
    install, rustup_init_url, rustup_install_args, rustup_self_update_args, rustup_update_args,
    step, InstallState, Tool, ToolEvent, ToolPhase,
};
use sourceprep::Workspace;

fn workspace() -> Workspace {
    Workspace::new(
        String::from("/work/cache"),
        String::from("/work/cargo-home"),
        String::from("/work/rustup-home"),
        String::from("minimal"),
    )
}

#[test]
fn lock_mutual_exclusion() {
    // While one task holds the lock, nobody else enters the critical
    // section; after the release — which happens on every exit path, a
    // panicking operation included — the next waiter gets in.
    let free = LockState::new();
    let (held, granted_a) = free.try_acquire(1);
    assert!(granted_a);

    let (still_held, granted_b) = held.try_acquire(2);
    assert!(!granted_b);
    let (_, granted_again) = still_held.try_acquire(1);
    assert!(!granted_again);

    let released = still_held.release(1);
    let (_, granted_after) = released.try_acquire(2);
    assert!(granted_after);
}

#[test]
fn contention_notice_is_logged_once() {
    let waiter = Waiter::new();
    let (waiter, notify_first) = waiter.note_contention();
    assert!(notify_first);
    let (waiter, notify_second) = waiter.note_contention();
    assert!(!notify_second);
    let (_, notify_third) = waiter.note_contention();
    assert!(!notify_third);
}

#[test]
fn tool_install_verification() {
    // A fake tool whose install step does not create the binary: the
    // sequence reports a fatal error at that tool and never proceeds to the
    // next one.
    let tools = vec![Tool::new("broken"), Tool::new("next")];
    let n = tools.len();

    let s = install(&tools);
    assert_eq!(s.phase, ToolPhase::Checking);
    assert_eq!(s.idx, 0);

    let s = step(s, ToolEvent::Checked { installed: false }, n);
    assert_eq!(s.phase, ToolPhase::Installing);
    let s = step(s, ToolEvent::Installed { ok: true }, n);
    assert_eq!(s.phase, ToolPhase::Rechecking);
    let s = step(s, ToolEvent::Rechecked { installed: false }, n);
    assert_eq!(s.phase, ToolPhase::Failed);
    assert_eq!(s.idx, 0, "the failed state names the broken tool");

    // No further event reaches the second tool.
    let s = step(s, ToolEvent::Checked { installed: true }, n);
    assert_eq!(s.phase, ToolPhase::Failed);
    assert_eq!(s.idx, 0);
}

#[test]
fn tool_sequence_happy_path() {
    let tools = vec![Tool::new("rustup"), Tool::new("helper")];
    let n = tools.len();

    // First tool present: updated, then on to the next.
    let s = install(&tools);
    let s = step(s, ToolEvent::Checked { installed: true }, n);
    assert_eq!(s.phase, ToolPhase::Updating);
    let s = step(s, ToolEvent::Updated { ok: true }, n);
    assert_eq!(s.phase, ToolPhase::Checking);
    assert_eq!(s.idx, 1);

    // Second tool missing: installed, re-checked, and the sequence is done.
    let s = step(s, ToolEvent::Checked { installed: false }, n);
    let s = step(s, ToolEvent::Installed { ok: true }, n);
    let s = step(s, ToolEvent::Rechecked { installed: true }, n);
    assert_eq!(s.phase, ToolPhase::Done);
}

#[test]
fn tool_update_failure_surfaces() {
    let tools = vec![Tool::new("rustup")];
    let s = InstallState { idx: 0, phase: ToolPhase::Updating };
    let s = step(s, ToolEvent::Updated { ok: false }, tools.len());
    assert_eq!(s.phase, ToolPhase::Failed);
}

#[test]
fn empty_tool_list_is_done() {
    let tools: Vec<Tool> = Vec::new();
    let s = install(&tools);
    assert_eq!(s.phase, ToolPhase::Done);
}

#[test]
fn tool_binary_path() {
    let ws = workspace();
    let tool = Tool::new("rustup");
    assert_eq!(tool.binary_path(&ws, ""), "/work/cargo-home/bin/rustup");
    assert_eq!(tool.binary_path(&ws, ".exe"), "/work/cargo-home/bin/rustup.exe");
}

#[test]
fn rustup_endpoints_and_args() {
    assert_eq!(
        rustup_init_url("x86_64-unknown-linux-gnu", ""),
        "https://static.rust-lang.org/rustup/dist/x86_64-unknown-linux-gnu/rustup-init"
    );
    assert_eq!(
        rustup_init_url("x86_64-pc-windows-msvc", ".exe"),
        "https://static.rust-lang.org/rustup/dist/x86_64-pc-windows-msvc/rustup-init.exe"
    );

    assert_eq!(
        rustup_install_args("stable", "minimal"),
        vec!["-y", "--no-modify-path", "--default-toolchain", "stable", "--profile", "minimal"]
    );
    assert_eq!(rustup_self_update_args(), vec!["self", "update"]);
    assert_eq!(rustup_update_args("stable"), vec!["update", "stable"]);
}
