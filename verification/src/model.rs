//! The snapshot model: workspaces and windows as plain values, queried fresh
//! from the window system on every pass and never retained across passes.

use vstd::prelude::*;

verus! {

/// One virtual desktop, identified by its stable 0-based number. The window
/// system presents workspaces as an ordered, gap-free sequence, so the number
/// doubles as the position in that sequence.
#[derive(Clone, Copy, PartialEq, Eq, Structural)]
pub struct Workspace {
    pub number: usize,
}

/// A window as one pass sees it. `role` holds the empty string where the
/// window reports none; `workspace` is `None` for an unassigned window.
pub struct Window {
    pub name: String,
    pub class: String,
    pub role: String,
    pub sticky: bool,
    pub workspace: Option<usize>,
}

impl Clone for Window {
    fn clone(&self) -> (r: Self)
        ensures
            r == *self,
    {
        Window {
            name: self.name.clone(),
            class: self.class.clone(),
            role: self.role.clone(),
            sticky: self.sticky,
            workspace: self.workspace,
        }
    }
}

/// Whether window `w` sits on the workspace numbered `number`.
pub open spec fn on_workspace(w: Window, number: int) -> bool {
    match w.workspace {
        Some(n) => n == number,
        None => false,
    }
}

/// How many windows of `ws` sit on the workspace numbered `number`.
pub open spec fn count_on(ws: Seq<Window>, number: int) -> nat
    decreases ws.len(),
{
    if ws.len() == 0 {
        0
    } else {
        count_on(ws.drop_last(), number) + if on_workspace(ws.last(), number) {
            1nat
        } else {
            0nat
        }
    }
}

pub proof fn lemma_count_on_le_len(ws: Seq<Window>, number: int)
    ensures
        count_on(ws, number) <= ws.len(),
    decreases ws.len(),
{
    if ws.len() > 0 {
        lemma_count_on_le_len(ws.drop_last(), number);
    }
}

/// Counts the windows of `windows` sitting on the workspace numbered `number`.
pub fn count_windows_on(windows: &Vec<Window>, number: usize) -> (c: usize)
    ensures
        c == count_on(windows@, number as int),
{
    let mut c: usize = 0;
    let mut i: usize = 0;
    while i < windows.len()
        invariant
            i <= windows@.len(),
            c == count_on(windows@.take(i as int), number as int),
        decreases windows@.len() - i,
    {
        proof {
            lemma_count_on_le_len(windows@.take(i as int), number as int);
            assert(windows@.take(i + 1).drop_last() =~= windows@.take(i as int));
        }
        let on = match windows[i].workspace {
            Some(n) => n == number,
            None => false,
        };
        if on {
            c = c + 1;
        }
        i = i + 1;
    }
    proof {
        assert(windows@.take(windows@.len() as int) =~= windows@);
    }
    c
}

} // verus!
