//! Copying a local source tree into a destination: the walk of the source is
//! turned into a plan of directories to create and files to byte-copy.
//! The top-level directory of build artifacts (named `target`, at depth one)
//! is left out entirely, and a walk failure — a broken or self-referential
//! symlink — aborts the copy with the offending path, rather than being
//! skipped silently.
//!
//! Relative paths are byte strings with `/` separators; the source root
//! itself appears as the empty path.

use vstd::prelude::*;
use vstd::slice::slice_to_vec;

verus! {

/// One observation from walking the source tree, symlinks followed.
#[derive(Debug)]
pub enum WalkEvent {
    /// An entry at `rel` (relative to the source root; empty for the root).
    Entry { rel: Vec<u8>, is_dir: bool },
    /// The walk failed at `path`: a broken or self-referential symlink, or
    /// an unreadable entry.
    Failure { path: Vec<u8> },
}

/// One step of a copy plan.
#[derive(Debug)]
pub enum CopyAction {
    CreateDir { rel: Vec<u8> },
    CopyFile { rel: Vec<u8> },
}

/// A copy plan step, as spec-level data.
pub enum ActionSpec {
    CreateDir { rel: Seq<u8> },
    CopyFile { rel: Seq<u8> },
}

impl View for CopyAction {
    type V = ActionSpec;

    open spec fn view(&self) -> ActionSpec {
        match self {
            CopyAction::CreateDir { rel } => ActionSpec::CreateDir { rel: rel@ },
            CopyAction::CopyFile { rel } => ActionSpec::CopyFile { rel: rel@ },
        }
    }
}

/// The walk failed: `path` identifies the entry that could not be read.
#[derive(Debug)]
pub struct CopyError {
    pub path: Vec<u8>,
}

/// The path component reserved for build artifacts.
pub open spec fn target_bytes() -> Seq<u8> {
    seq![116u8, 97u8, 114u8, 103u8, 101u8, 116u8]
}

/// The build-artifact directory itself: a directory named `target` at depth
/// one.
pub open spec fn spec_is_target_dir(e: WalkEvent) -> bool {
    e matches WalkEvent::Entry { rel, is_dir } && is_dir && rel@ == target_bytes()
}

/// Whether the walk saw the build-artifact directory at depth one.
pub open spec fn spec_target_excluded(events: Seq<WalkEvent>) -> bool {
    exists|i: int| 0 <= i < events.len() && spec_is_target_dir(events[i])
}

/// A relative path strictly inside the depth-one `target` directory.
pub open spec fn spec_under_target(rel: Seq<u8>) -> bool {
    rel.len() > 6 && rel.subrange(0, 6) == target_bytes() && rel[6] == 47u8
}

/// Whether an entry is left out of the plan: the depth-one `target`
/// directory itself, and — once that directory is known to be present —
/// everything inside it.
pub open spec fn spec_skipped(e: WalkEvent, excl: bool) -> bool {
    e matches WalkEvent::Entry { rel, is_dir } && (spec_is_target_dir(e) || (excl
        && spec_under_target(rel@)))
}

/// The plan for a walk: each entry in walk order, directories recreated and
/// files byte-copied, except the entries `spec_skipped` leaves out.
/// Failures contribute nothing here; they abort the plan instead.
pub open spec fn spec_plan(events: Seq<WalkEvent>, excl: bool) -> Seq<ActionSpec>
    decreases events.len(),
{
    if events.len() == 0 {
        Seq::empty()
    } else {
        let init = spec_plan(events.drop_last(), excl);
        match events.last() {
            WalkEvent::Entry { rel, is_dir } => {
                if spec_skipped(events.last(), excl) {
                    init
                } else if is_dir {
                    init.push(ActionSpec::CreateDir { rel: rel@ })
                } else {
                    init.push(ActionSpec::CopyFile { rel: rel@ })
                }
            },
            WalkEvent::Failure { .. } => init,
        }
    }
}

fn is_target_component(rel: &Vec<u8>) -> (r: bool)
    ensures
        r == (rel@ == target_bytes()),
{
    if rel.len() == 6 && rel[0] == 116u8 && rel[1] == 97u8 && rel[2] == 114u8 && rel[3] == 103u8
        && rel[4] == 101u8 && rel[5] == 116u8 {
        proof {
            assert(rel@ =~= target_bytes());
        }
        true
    } else {
        proof {
            if rel@ == target_bytes() {
                assert(rel@.len() == 6);
            }
        }
        false
    }
}

fn is_under_target(rel: &Vec<u8>) -> (r: bool)
    ensures
        r == spec_under_target(rel@),
{
    if rel.len() > 6 && rel[0] == 116u8 && rel[1] == 97u8 && rel[2] == 114u8 && rel[3] == 103u8
        && rel[4] == 101u8 && rel[5] == 116u8 && rel[6] == 47u8 {
        proof {
            assert(rel@.subrange(0, 6) =~= target_bytes());
        }
        true
    } else {
        proof {
            if spec_under_target(rel@) {
                assert(rel@.subrange(0, 6) == target_bytes());
                assert(rel@[0] == 116u8 && rel@[1] == 97u8 && rel@[2] == 114u8 && rel@[3] == 103u8
                    && rel@[4] == 101u8 && rel@[5] == 116u8);
            }
        }
        false
    }
}

/// Plan the copy of a walked source tree: every directory is recreated and
/// every file byte-copied at its relative path, except the depth-one
/// `target` directory and its contents; the first walk failure aborts the
/// whole copy with the offending path.
pub fn copy_dir(events: &Vec<WalkEvent>) -> (r: Result<Vec<CopyAction>, CopyError>)
    ensures
        r is Ok <==> (forall|i: int| 0 <= i < events@.len() ==> events@[i] is Entry),
        r matches Ok(acts) ==> {
            let plan = spec_plan(events@, spec_target_excluded(events@));
            acts@.len() == plan.len() && (forall|i: int|
                0 <= i < plan.len() ==> (#[trigger] acts@[i])@ == plan[i])
        },
        r matches Err(e) ==> exists|i: int|
            0 <= i < events@.len() && ((#[trigger] events@[i]) matches WalkEvent::Failure { path }
                && path@ == e.path@) && (forall|j: int| 0 <= j < i ==> events@[j] is Entry),
{
    let n = events.len();

    // First pass: is the depth-one `target` directory present at all?
    let mut excl = false;
    let mut i: usize = 0;
    while i < n
        invariant
            0 <= i <= n,
            n == events@.len(),
            excl <==> exists|j: int| 0 <= j < i && spec_is_target_dir(events@[j]),
        decreases n - i,
    {
        match &events[i] {
            WalkEvent::Entry { rel, is_dir } => {
                if *is_dir && is_target_component(rel) {
                    proof {
                        assert(spec_is_target_dir(events@[i as int]));
                    }
                    excl = true;
                }
            },
            WalkEvent::Failure { .. } => {},
        }
        i = i + 1;
    }
    proof {
        assert(excl == spec_target_excluded(events@));
    }

    // Second pass: build the plan, stopping at the first failure.
    let mut acts: Vec<CopyAction> = Vec::new();
    let mut k: usize = 0;
    while k < n
        invariant
            0 <= k <= n,
            n == events@.len(),
            excl == spec_target_excluded(events@),
            forall|j: int| 0 <= j < k ==> events@[j] is Entry,
            acts@.len() == spec_plan(events@.take(k as int), excl).len(),
            forall|i2: int|
                0 <= i2 < acts@.len() ==> (#[trigger] acts@[i2])@ == spec_plan(
                    events@.take(k as int),
                    excl,
                )[i2],
        decreases n - k,
    {
        proof {
            assert(events@.take(k + 1).drop_last() =~= events@.take(k as int));
            assert(events@.take(k + 1).last() == events@[k as int]);
        }
        match &events[k] {
            WalkEvent::Entry { rel, is_dir } => {
                let skipped = (*is_dir && is_target_component(rel)) || (excl && is_under_target(
                    rel,
                ));
                if !skipped {
                    let rel_copy = slice_to_vec(rel.as_slice());
                    if *is_dir {
                        acts.push(CopyAction::CreateDir { rel: rel_copy });
                    } else {
                        acts.push(CopyAction::CopyFile { rel: rel_copy });
                    }
                }
            },
            WalkEvent::Failure { path } => {
                let p = slice_to_vec(path.as_slice());
                return Err(CopyError { path: p });
            },
        }
        k = k + 1;
    }
    proof {
        assert(events@.take(n as int) =~= events@);
    }
    Ok(acts)
}

/// Target exclusion: when the walk holds the depth-one `target` directory,
/// the plan creates no `target` directory and touches nothing inside it —
/// every action is for a path outside `target/`, and a `target` path can at
/// most be a plain file, which a walk holding the `target` directory never
/// yields.
pub proof fn lemma_plan_excludes_target(events: Seq<WalkEvent>)
    ensures
        forall|k: int|
            0 <= k < spec_plan(events, true).len() ==> {
                let a = #[trigger] spec_plan(events, true)[k];
                !(a matches ActionSpec::CreateDir { rel } && rel == target_bytes()) && !(match a {
                    ActionSpec::CreateDir { rel } => spec_under_target(rel),
                    ActionSpec::CopyFile { rel } => spec_under_target(rel),
                })
            },
    decreases events.len(),
{
    if events.len() > 0 {
        lemma_plan_excludes_target(events.drop_last());
    }
}

/// An action that realizes a walk entry: the same relative path, a
/// directory recreated or a file copied according to the entry's kind.
pub open spec fn spec_action_from_entry(a: ActionSpec, e: WalkEvent) -> bool {
    match (a, e) {
        (ActionSpec::CreateDir { rel }, WalkEvent::Entry { rel: r2, is_dir }) => is_dir && rel
            == r2@,
        (ActionSpec::CopyFile { rel }, WalkEvent::Entry { rel: r2, is_dir }) => !is_dir && rel
            == r2@,
        _ => false,
    }
}

/// Whether the `k`-th planned action realizes some entry of the walk.
pub open spec fn spec_plan_entry_sourced(events: Seq<WalkEvent>, excl: bool, k: int) -> bool {
    exists|i: int|
        0 <= i < events.len() && #[trigger] spec_action_from_entry(
            spec_plan(events, excl)[k],
            events[i],
        )
}

/// Destructive re-copy: the plan holds nothing but the source's own entries
/// — every action realizes an entry of the walk, at its path and of its
/// kind. Together with the facade's order to clear an existing destination
/// first, a re-copy leaves exactly the source's files and none of the stale
/// ones.
pub proof fn lemma_plan_only_source_entries(events: Seq<WalkEvent>, excl: bool)
    ensures
        forall|k: int|
            0 <= k < spec_plan(events, excl).len() ==> #[trigger] spec_plan_entry_sourced(
                events,
                excl,
                k,
            ),
    decreases events.len(),
{
    if events.len() > 0 {
        lemma_plan_only_source_entries(events.drop_last(), excl);
        let plan = spec_plan(events, excl);
        let init = spec_plan(events.drop_last(), excl);
        assert forall|k: int| 0 <= k < plan.len() implies spec_plan_entry_sourced(
            events,
            excl,
            k,
        ) by {
            if k < init.len() {
                assert(spec_plan_entry_sourced(events.drop_last(), excl, k));
                assert(plan[k] == init[k]);
                let i = choose|i: int|
                    0 <= i < events.drop_last().len() && #[trigger] spec_action_from_entry(
                        init[k],
                        events.drop_last()[i],
                    );
                assert(events.drop_last()[i] == events[i]);
                assert(spec_action_from_entry(plan[k], events[i]));
            } else {
                let last = events.len() - 1;
                assert(plan[k] == plan.last());
                assert(spec_action_from_entry(plan[k], events[last]));
            }
        }
    }
}

} // verus!
