use dynamic_workspaces::controller::DynamicWorkspaces;
use dynamic_workspaces::filter::{Blacklist, ClassRoleRule};
use dynamic_workspaces::model::Window;

fn win(name: &str, class: &str, role: &str, sticky: bool, workspace: Option<usize>) -> Window {
    Window {
        name: name.to_string(),
        class: class.to_string(),
        role: role.to_string(),
        sticky,
        workspace,
    }
}

fn names(windows: &[Window]) -> Vec<String> {
    windows.iter().map(|w| w.name.clone()).collect()
}

#[test]
fn sticky_windows_are_dropped() {
    let dw = DynamicWorkspaces::new(false, false);
    let windows = vec![
        win("editor", "code", "", false, Some(0)),
        win("pinned", "code", "", true, Some(0)),
    ];
    let kept = dw.remove_blacklist(&windows);
    assert_eq!(names(&kept), vec!["editor".to_string()]);
}

#[test]
fn blacklisted_names_are_dropped() {
    let dw = DynamicWorkspaces::new(false, false);
    let windows = vec![
        win("Desktop", "xfdesktop", "", false, Some(0)),
        win("xfce4-panel", "panel", "", false, Some(0)),
        win("mail", "thunderbird", "", false, Some(1)),
        win("Whisker Menu", "menu", "", false, Some(1)),
    ];
    let kept = dw.remove_blacklist(&windows);
    assert_eq!(names(&kept), vec!["mail".to_string()]);
}

#[test]
fn class_role_rule_drops_matching_window() {
    let dw = DynamicWorkspaces::new(false, false);
    let windows = vec![
        win("dropdown", "tilix", "quake", false, Some(0)),
        win("terminal", "tilix", "main", false, Some(0)),
    ];
    let kept = dw.remove_blacklist(&windows);
    assert_eq!(names(&kept), vec!["terminal".to_string()]);
}

#[test]
fn empty_role_never_matches_a_rule() {
    let dw = DynamicWorkspaces::new(false, false);
    let windows = vec![win("plain", "tilix", "", false, Some(0))];
    let kept = dw.remove_blacklist(&windows);
    assert_eq!(names(&kept), vec!["plain".to_string()]);
}

#[test]
fn empty_role_rule_matches_nothing() {
    let bl = Blacklist {
        names: Vec::new(),
        class_roles: vec![ClassRoleRule {
            class: "tilix".to_string(),
            role: String::new(),
        }],
    };
    let windows = vec![
        win("a", "tilix", "", false, Some(0)),
        win("b", "tilix", "main", false, Some(0)),
    ];
    let kept = bl.remove_blacklist(&windows);
    assert_eq!(names(&kept), vec!["a".to_string(), "b".to_string()]);
}

#[test]
fn filter_preserves_relative_order() {
    let dw = DynamicWorkspaces::new(false, false);
    let windows = vec![
        win("one", "c1", "", false, Some(0)),
        win("Desktop", "xfdesktop", "", false, Some(0)),
        win("two", "c2", "", false, Some(1)),
        win("three", "c3", "", true, Some(2)),
        win("four", "c4", "", false, None),
    ];
    let kept = dw.remove_blacklist(&windows);
    assert_eq!(
        names(&kept),
        vec!["one".to_string(), "two".to_string(), "four".to_string()]
    );
    assert_eq!(kept[2].workspace, None);
}

#[test]
fn window_kept_decides_each_reason() {
    let dw = DynamicWorkspaces::new(false, false);
    assert!(dw.blacklist.window_kept(&win("app", "c", "r", false, Some(0))));
    assert!(!dw.blacklist.window_kept(&win("app", "c", "r", true, Some(0))));
    assert!(!dw.blacklist.window_kept(&win("plank", "dock", "", false, Some(0))));
    assert!(!dw.blacklist.window_kept(&win("term", "tilix", "quake", false, Some(0))));
}
