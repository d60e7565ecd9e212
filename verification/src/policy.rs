//! The occupancy policy: a pure decision function from a snapshot (the
//! ordered workspaces and the filtered windows) to one structural change.
//!
//! The system keeps exactly one trailing buffer workspace empty. It grows
//! when the trailing workspace gains a window, and collapses the buffer only
//! when the two trailing workspaces are both empty. The workspace count
//! never drops below two; that floor is part of the decision itself, so a
//! two-workspace snapshot with both workspaces empty decides `NoOp`.

use vstd::prelude::*;

use crate::filter::Blacklist;
use crate::model::{Window, Workspace, count_on};

verus! {

/// The one structural change a pass may apply before re-querying.
#[derive(Clone, Copy, PartialEq, Eq, Structural, Debug)]
pub enum Decision {
    /// Append one new empty workspace at the end.
    Grow,
    /// Remove one workspace from the end.
    Shrink,
    /// Leave the workspace count alone.
    NoOp,
}

/// The decision table. `windows` is the already-filtered window list.
pub open spec fn spec_decide(workspaces: Seq<Workspace>, windows: Seq<Window>) -> Decision {
    if workspaces.len() == 0 {
        Decision::NoOp
    } else if count_on(windows, workspaces.last().number as int) > 0 {
        Decision::Grow
    } else if workspaces.len() > 2 && count_on(
        windows,
        workspaces[workspaces.len() - 2].number as int,
    ) == 0 {
        Decision::Shrink
    } else {
        Decision::NoOp
    }
}

/// The workspace count after applying a decision to a count of `count`.
/// A shrink is guarded: it never takes the count below two.
pub open spec fn applied_count(count: int, d: Decision) -> int {
    match d {
        Decision::Grow => count + 1,
        Decision::Shrink => if count > 2 {
            count - 1
        } else {
            count
        },
        Decision::NoOp => count,
    }
}

/// Decides grow/shrink/no-op for one snapshot. `windows` must already have
/// passed the window filter; the caller hands the filtered list in.
pub fn decide(workspaces: &Vec<Workspace>, windows: &Vec<Window>) -> (d: Decision)
    ensures
        d == spec_decide(workspaces@, windows@),
{
    let n = workspaces.len();
    if n == 0 {
        return Decision::NoOp;
    }
    let last_count = crate::model::count_windows_on(windows, workspaces[n - 1].number);
    if last_count > 0 {
        return Decision::Grow;
    }
    if n > 2 {
        let second_last_count = crate::model::count_windows_on(windows, workspaces[n - 2].number);
        if second_last_count == 0 {
            return Decision::Shrink;
        }
    }
    Decision::NoOp
}

/// Computes the workspace count that decision `d` asks the desktop-count
/// tool to set.
pub fn apply_decision(count: usize, d: Decision) -> (r: usize)
    requires
        d == Decision::Grow ==> count < usize::MAX,
    ensures
        r as int == applied_count(count as int, d),
{
    match d {
        Decision::Grow => count + 1,
        Decision::Shrink => if count > 2 {
            count - 1
        } else {
            count
        },
        Decision::NoOp => count,
    }
}

/// Grow trigger law: on every snapshot whose last workspace holds at least
/// one non-blacklisted window, the policy decides `Grow`.
pub proof fn lemma_grow_trigger(workspaces: Seq<Workspace>, windows: Seq<Window>, bl: Blacklist)
    requires
        workspaces.len() > 0,
        count_on(windows.filter(|w: Window| bl.keeps(w)), workspaces.last().number as int) > 0,
    ensures
        spec_decide(workspaces, windows.filter(|w: Window| bl.keeps(w))) == Decision::Grow,
{
}

/// Shrink trigger law: on every snapshot with more than two workspaces whose
/// last two workspaces hold no non-blacklisted window, the policy decides
/// `Shrink`, and applying the shrink never takes the count below two. At
/// exactly two workspaces the minimum-two floor makes the decision `NoOp`
/// instead, so that case is excluded here.
pub proof fn lemma_shrink_trigger(workspaces: Seq<Workspace>, windows: Seq<Window>, bl: Blacklist)
    requires
        workspaces.len() > 2,
        count_on(windows.filter(|w: Window| bl.keeps(w)), workspaces.last().number as int) == 0,
        count_on(
            windows.filter(|w: Window| bl.keeps(w)),
            workspaces[workspaces.len() - 2].number as int,
        ) == 0,
    ensures
        spec_decide(workspaces, windows.filter(|w: Window| bl.keeps(w))) == Decision::Shrink,
        applied_count(workspaces.len() as int, Decision::Shrink) == workspaces.len() - 1,
        forall|c: int| c >= 2 ==> #[trigger] applied_count(c, Decision::Shrink) >= 2,
{
}

/// Idempotence law: a stable snapshot — exactly two workspaces, the last one
/// empty, the second-to-last occupied — decides `NoOp`, and the no-op leaves
/// the workspace count unchanged, so a second pass over the same snapshot
/// evaluates the very same term and decides `NoOp` again.
pub proof fn lemma_stable_idempotent(workspaces: Seq<Workspace>, windows: Seq<Window>, bl: Blacklist)
    requires
        workspaces.len() == 2,
        count_on(windows.filter(|w: Window| bl.keeps(w)), workspaces.last().number as int) == 0,
        count_on(
            windows.filter(|w: Window| bl.keeps(w)),
            workspaces[workspaces.len() - 2].number as int,
        ) > 0,
    ensures
        spec_decide(workspaces, windows.filter(|w: Window| bl.keeps(w))) == Decision::NoOp,
        applied_count(
            workspaces.len() as int,
            spec_decide(workspaces, windows.filter(|w: Window| bl.keeps(w))),
        ) == workspaces.len(),
{
}

} // verus!
