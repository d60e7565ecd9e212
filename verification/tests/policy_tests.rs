use dynamic_workspaces::controller::DynamicWorkspaces;
use dynamic_workspaces::model::{Window, Workspace, count_windows_on};
use dynamic_workspaces::policy::{apply_decision, decide, Decision};

fn workspaces(n: usize) -> Vec<Workspace> {
    (0..n).map(|number| Workspace { number }).collect()
}

fn win(name: &str, workspace: Option<usize>) -> Window {
    Window {
        name: name.to_string(),
        class: String::new(),
        role: String::new(),
        sticky: false,
        workspace,
    }
}

#[test]
fn grow_when_last_workspace_occupied() {
    // One window on the last of three workspaces: the policy grows to four.
    let ws = workspaces(3);
    let windows = vec![win("w1", Some(2))];
    let d = decide(&ws, &windows);
    assert_eq!(d, Decision::Grow);
    assert_eq!(apply_decision(ws.len(), d), 4);
}

#[test]
fn noop_at_two_empty_workspaces() {
    // Two workspaces, no windows: the minimum-two floor forbids a shrink,
    // so the decision is NoOp even though both trailing workspaces are empty.
    let ws = workspaces(2);
    let windows: Vec<Window> = Vec::new();
    assert_eq!(decide(&ws, &windows), Decision::NoOp);
}

#[test]
fn shrink_when_last_two_empty_above_floor() {
    let ws = workspaces(3);
    let windows = vec![win("w1", Some(0))];
    let d = decide(&ws, &windows);
    assert_eq!(d, Decision::Shrink);
    assert_eq!(apply_decision(ws.len(), d), 2);
}

#[test]
fn shrink_never_goes_below_two() {
    assert_eq!(apply_decision(3, Decision::Shrink), 2);
    assert_eq!(apply_decision(2, Decision::Shrink), 2);
    assert_eq!(apply_decision(1, Decision::Shrink), 1);
}

#[test]
fn stable_snapshot_is_idempotent() {
    // Last workspace empty, second-to-last occupied, two workspaces: NoOp,
    // and since nothing changes, a second pass decides NoOp again.
    let ws = workspaces(2);
    let windows = vec![win("w1", Some(0))];
    let first = decide(&ws, &windows);
    assert_eq!(first, Decision::NoOp);
    let count_after = apply_decision(ws.len(), first);
    assert_eq!(count_after, ws.len());
    let second = decide(&ws, &windows);
    assert_eq!(second, Decision::NoOp);
}

#[test]
fn empty_workspace_list_is_noop() {
    let ws: Vec<Workspace> = Vec::new();
    let windows = vec![win("w1", Some(0))];
    assert_eq!(decide(&ws, &windows), Decision::NoOp);
}

#[test]
fn no_shrink_when_second_to_last_occupied() {
    let ws = workspaces(3);
    let windows = vec![win("w1", Some(1))];
    assert_eq!(decide(&ws, &windows), Decision::NoOp);
}

#[test]
fn grow_wins_over_shrink() {
    // A window on the last workspace grows even where an interior one is empty.
    let ws = workspaces(3);
    let windows = vec![win("w1", Some(2))];
    assert_eq!(decide(&ws, &windows), Decision::Grow);
}

#[test]
fn blacklisted_window_on_last_never_triggers_grow() {
    // A window named "Desktop" sits on the last workspace; the compiled-in
    // blacklist removes it, so the policy must not grow.
    let dw = DynamicWorkspaces::new(false, false);
    let ws = workspaces(2);
    let windows = vec![
        win("Desktop", Some(1)),
        win("w1", Some(0)),
    ];
    let filtered = dw.remove_blacklist(&windows);
    let d = decide(&ws, &filtered);
    assert_ne!(d, Decision::Grow);
    assert_eq!(d, Decision::NoOp);
}

#[test]
fn count_windows_on_counts_exactly() {
    let windows = vec![
        win("a", Some(1)),
        win("b", Some(1)),
        win("c", Some(2)),
        win("d", None),
    ];
    assert_eq!(count_windows_on(&windows, 1), 2);
    assert_eq!(count_windows_on(&windows, 2), 1);
    assert_eq!(count_windows_on(&windows, 0), 0);
}

#[test]
fn noop_and_grow_counts() {
    assert_eq!(apply_decision(5, Decision::NoOp), 5);
    assert_eq!(apply_decision(5, Decision::Grow), 6);
}
