//! The compactor: finds an empty interior workspace, and plans its removal —
//! which windows move where, what the new desktop count is, and whether the
//! active desktop must be switched to keep the user's focus stable.
//!
//! Only one interior workspace is removed per pass; the next pass runs on a
//! fresh snapshot and catches the remaining empty ones.

use vstd::prelude::*;

use crate::model::{Window, Workspace, count_on};
use crate::policy::{Decision, applied_count};

verus! {

/// Whether the workspace at position `idx` may be removed: it is interior
/// (not the trailing buffer), not the active workspace, not the same
/// workspace as the live sequence's last one, and no filtered window sits on
/// it.
pub open spec fn removable(
    workspaces: Seq<Workspace>,
    windows: Seq<Window>,
    active: Option<usize>,
    idx: int,
) -> bool {
    &&& 0 <= idx < workspaces.len() - 1
    &&& active != Some(workspaces[idx].number)
    &&& workspaces[idx].number != workspaces[workspaces.len() - 1].number
    &&& count_on(windows, workspaces[idx].number as int) == 0
}

/// Finds the first removable interior workspace, if any. Compaction only
/// runs on snapshots with more than two workspaces; on smaller ones the
/// result is `None`.
pub fn find_removable(
    workspaces: &Vec<Workspace>,
    windows: &Vec<Window>,
    active: Option<usize>,
) -> (r: Option<usize>)
    ensures
        match r {
            Some(i) => {
                &&& workspaces@.len() > 2
                &&& removable(workspaces@, windows@, active, i as int)
                &&& forall|j: int| 0 <= j < i ==> !removable(workspaces@, windows@, active, j)
            },
            None => workspaces@.len() <= 2 || forall|j: int|
                !removable(workspaces@, windows@, active, j),
        },
{
    let n = workspaces.len();
    if n <= 2 {
        return None;
    }
    let last_number = workspaces[n - 1].number;
    let mut idx: usize = 0;
    while idx < n - 1
        invariant
            n == workspaces@.len(),
            n > 2,
            idx <= n - 1,
            last_number == workspaces@[n - 1].number,
            forall|j: int| 0 <= j < idx ==> !removable(workspaces@, windows@, active, j),
        decreases n - idx,
    {
        let number = workspaces[idx].number;
        let is_active = match active {
            Some(a) => a == number,
            None => false,
        };
        if !is_active && number != last_number {
            if crate::model::count_windows_on(windows, number) == 0 {
                return Some(idx);
            }
        }
        idx = idx + 1;
    }
    None
}

/// Where window `w` must move when the workspace at index `idx` is removed
/// from a sequence of `count` workspaces: every window on a workspace
/// numbered strictly above `idx` shifts one slot left; a window at or below
/// `idx`, an unassigned window, and a window whose number is already out of
/// the live range stay put.
pub open spec fn spec_migration_target(w: Window, idx: int, count: int) -> Option<usize> {
    match w.workspace {
        Some(n) => if idx < n && n < count {
            Some((n - 1) as usize)
        } else {
            None
        },
        None => None,
    }
}

/// The window `w` as it stands after the removal of index `idx`: the same
/// window, with its workspace shifted where `spec_migration_target` says so.
pub open spec fn migrated_window(w: Window, idx: int, count: int) -> Window {
    match spec_migration_target(w, idx, count) {
        Some(t) => Window {
            name: w.name,
            class: w.class,
            role: w.role,
            sticky: w.sticky,
            workspace: Some(t),
        },
        None => w,
    }
}

/// Decides for one window whether removing index `idx` makes it move, and
/// where to.
pub fn migration_target(w: &Window, idx: usize, count: usize) -> (t: Option<usize>)
    ensures
        t == spec_migration_target(*w, idx as int, count as int),
{
    match w.workspace {
        Some(n) => if idx < n && n < count {
            Some(n - 1)
        } else {
            None
        },
        None => None,
    }
}

/// The whole window list as it stands after the removal of index `idx`.
pub open spec fn migrated_seq(windows: Seq<Window>, idx: int, count: int) -> Seq<Window> {
    windows.map_values(|w: Window| migrated_window(w, idx, count))
}

/// Computes the window list as it stands after the removal of index `idx`.
pub fn migrate(windows: &Vec<Window>, idx: usize, count: usize) -> (r: Vec<Window>)
    ensures
        r@ == migrated_seq(windows@, idx as int, count as int),
        r@.len() == windows@.len(),
        forall|k: int| 0 <= k < windows@.len() ==> r@[k] == migrated_window(
            windows@[k],
            idx as int,
            count as int,
        ),
{
    let mut r: Vec<Window> = Vec::new();
    let mut i: usize = 0;
    while i < windows.len()
        invariant
            i <= windows@.len(),
            r@.len() == i,
            forall|k: int| 0 <= k < i ==> r@[k] == migrated_window(
                windows@[k],
                idx as int,
                count as int,
            ),
        decreases windows@.len() - i,
    {
        let w = windows[i].clone();
        match migration_target(&w, idx, count) {
            Some(t) => r.push(Window {
                name: w.name,
                class: w.class,
                role: w.role,
                sticky: w.sticky,
                workspace: Some(t),
            }),
            None => r.push(w),
        }
        i = i + 1;
    }
    proof {
        assert(r@ =~= migrated_seq(windows@, idx as int, count as int));
    }
    r
}

/// What the removal of one workspace asks of the surrounding program, beyond
/// the per-window moves: the desktop count to set, and the desktop to switch
/// to where focus stability demands it.
pub struct RemovalPlan {
    pub new_count: usize,
    pub switch_to: Option<usize>,
}

/// The focus-stability rule: after removing index `idx`, the active desktop
/// is switched to `idx` exactly when an active workspace was recorded before
/// the mutation and the controller's last noted active number lies strictly
/// left of it.
pub open spec fn spec_switch_target(
    prev_active: Option<usize>,
    last_active: int,
    idx: usize,
) -> Option<usize> {
    match prev_active {
        Some(p) => if last_active < p {
            Some(idx)
        } else {
            None
        },
        None => None,
    }
}

/// Plans the removal of the workspace at index `idx`. `desktop_count` is the
/// authoritative count read back from the desktop-count tool, `prev_active`
/// the active workspace's number before the mutation, and `last_active` the
/// controller's recorded active number from the end of the previous pass.
pub fn plan_removal(
    idx: usize,
    desktop_count: usize,
    prev_active: Option<usize>,
    last_active: usize,
) -> (p: RemovalPlan)
    ensures
        p.new_count as int == applied_count(desktop_count as int, Decision::Shrink),
        p.switch_to == spec_switch_target(prev_active, last_active as int, idx),
{
    let new_count = crate::policy::apply_decision(desktop_count, Decision::Shrink);
    let switch_to = match prev_active {
        Some(p) => if last_active < p {
            Some(idx)
        } else {
            None
        },
        None => None,
    };
    RemovalPlan { new_count, switch_to }
}

/// Compaction preserves order: after removing index `idx`, a window that sat
/// on a workspace numbered `n` with `idx < n < count` sits on `n - 1` and is
/// otherwise unchanged, while a window at or below `idx`, an unassigned
/// window, and a window out of the live range are untouched.
pub proof fn lemma_compaction_preserves_order(w: Window, idx: int, count: int)
    ensures
        w.workspace matches Some(n) ==> (idx < n < count ==> migrated_window(w, idx, count)
            == (Window {
            name: w.name,
            class: w.class,
            role: w.role,
            sticky: w.sticky,
            workspace: Some((n - 1) as usize),
        })),
        w.workspace matches Some(n) ==> (n <= idx ==> migrated_window(w, idx, count) == w),
        w.workspace is None ==> migrated_window(w, idx, count) == w,
{
}

/// Compaction preserves placement, counted per workspace: removing the empty
/// workspace at index `idx` leaves the occupancy of every workspace left of
/// `idx` unchanged, and every surviving workspace right of it inherits
/// exactly the occupancy of its old right-hand neighbour — the whole old
/// numbering with `idx` cut out.
pub proof fn lemma_compaction_preserves_occupancy(
    windows: Seq<Window>,
    idx: int,
    count: int,
    k: int,
)
    requires
        0 <= idx,
        count_on(windows, idx) == 0,
    ensures
        0 <= k < idx ==> count_on(migrated_seq(windows, idx, count), k) == count_on(windows, k),
        idx <= k < count - 1 ==> count_on(migrated_seq(windows, idx, count), k) == count_on(
            windows,
            k + 1,
        ),
    decreases windows.len(),
{
    if windows.len() > 0 {
        let prefix = windows.drop_last();
        lemma_compaction_preserves_occupancy(prefix, idx, count, k);
        assert(migrated_seq(windows, idx, count).drop_last() =~= migrated_seq(
            prefix,
            idx,
            count,
        ));
    }
}

/// Focus stability: when the active workspace's number before compaction was
/// greater than the removed index, and the controller's recorded last-active
/// number lies strictly left of that number, the plan switches the active
/// desktop to the removed index. Where the recorded number does not lie left
/// of the active one the plan leaves the active desktop alone, so that case
/// is excluded here.
pub proof fn lemma_focus_stability(idx: usize, prev_active: usize, last_active: usize)
    requires
        prev_active > idx,
        last_active < prev_active,
    ensures
        spec_switch_target(Some(prev_active), last_active as int, idx) == Some(idx),
{
}

} // verus!
