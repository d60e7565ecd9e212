//! The controller's persistent state and the pure steps of one pass. The
//! surrounding program owns the scheduling (native events or a fixed polling
//! interval), performs every query and mutation, and hands this module plain
//! snapshot values; the decisions themselves all live here, so both
//! scheduling strategies produce identical decisions for identical
//! snapshots.

use vstd::prelude::*;

use crate::compact::{RemovalPlan, spec_switch_target};
use crate::filter::{Blacklist, ClassRoleRule};
use crate::model::Window;
use crate::policy::{Decision, applied_count};

verus! {

/// The controller: configuration fixed at start, the compiled-in blacklist,
/// and the one piece of state that outlives a pass — the number of the
/// workspace observed active at the end of the previous pass.
pub struct DynamicWorkspaces {
    pub debug: bool,
    pub notify: bool,
    pub blacklist: Blacklist,
    pub last: usize,
}

/// The compiled-in blacklist: seven exact window names, and the one
/// (class, role) rule.
pub open spec fn is_default_blacklist(b: Blacklist) -> bool {
    &&& b.names@.len() == 7
    &&& b.names@[0]@ == "Skriveboard"@
    &&& b.names@[1]@ == "Desktop"@
    &&& b.names@[2]@ == "xfdashboard"@
    &&& b.names@[3]@ == "xfce4-panel"@
    &&& b.names@[4]@ == "plank"@
    &&& b.names@[5]@ == "xfce4-notifyd"@
    &&& b.names@[6]@ == "Whisker Menu"@
    &&& b.class_roles@.len() == 1
    &&& b.class_roles@[0].class@ == "tilix"@
    &&& b.class_roles@[0].role@ == "quake"@
}

/// How many newline bytes `s` holds; the desktop-count tool lists one line
/// per desktop, so this is the authoritative desktop count.
pub open spec fn count_newlines(s: Seq<u8>) -> nat
    decreases s.len(),
{
    if s.len() == 0 {
        0
    } else {
        count_newlines(s.drop_last()) + if s.last() == 10u8 {
            1nat
        } else {
            0nat
        }
    }
}

pub proof fn lemma_count_newlines_le_len(s: Seq<u8>)
    ensures
        count_newlines(s) <= s.len(),
    decreases s.len(),
{
    if s.len() > 0 {
        lemma_count_newlines_le_len(s.drop_last());
    }
}

/// Reads the authoritative desktop count out of the desktop-count tool's
/// listing: one line, hence one newline byte, per desktop.
pub fn desktop_count_from_listing(listing: &Vec<u8>) -> (n: usize)
    ensures
        n == count_newlines(listing@),
{
    let mut n: usize = 0;
    let mut i: usize = 0;
    while i < listing.len()
        invariant
            i <= listing@.len(),
            n == count_newlines(listing@.take(i as int)),
        decreases listing@.len() - i,
    {
        proof {
            lemma_count_newlines_le_len(listing@.take(i as int));
            assert(listing@.take(i + 1).drop_last() =~= listing@.take(i as int));
        }
        if listing[i] == 10u8 {
            n = n + 1;
        }
        i = i + 1;
    }
    proof {
        assert(listing@.take(listing@.len() as int) =~= listing@);
    }
    n
}

impl DynamicWorkspaces {
    /// A fresh controller: the given flags, the compiled-in blacklist, and no
    /// workspace noted active yet.
    pub fn new(debug: bool, notify: bool) -> (r: Self)
        ensures
            r.debug == debug,
            r.notify == notify,
            r.last == 0,
            is_default_blacklist(r.blacklist),
    {
        let mut names: Vec<String> = Vec::new();
        names.push(String::from_str("Skriveboard"));
        names.push(String::from_str("Desktop"));
        names.push(String::from_str("xfdashboard"));
        names.push(String::from_str("xfce4-panel"));
        names.push(String::from_str("plank"));
        names.push(String::from_str("xfce4-notifyd"));
        names.push(String::from_str("Whisker Menu"));
        let mut class_roles: Vec<ClassRoleRule> = Vec::new();
        class_roles.push(
            ClassRoleRule { class: String::from_str("tilix"), role: String::from_str("quake") },
        );
        DynamicWorkspaces { debug, notify, blacklist: Blacklist { names, class_roles }, last: 0 }
    }

    /// Removes blacklisted windows from the fresh window query, preserving
    /// relative order.
    pub fn remove_blacklist(&self, windows: &Vec<Window>) -> (kept: Vec<Window>)
        ensures
            kept@ == windows@.filter(|w: Window| self.blacklist.keeps(w)),
    {
        self.blacklist.remove_blacklist(windows)
    }

    /// Plans the removal of the workspace at index `idx`, judging the
    /// focus-stability switch against the active number recorded at the end
    /// of the previous pass.
    pub fn plan_workspace_removal(
        &self,
        idx: usize,
        desktop_count: usize,
        prev_active: Option<usize>,
    ) -> (p: RemovalPlan)
        ensures
            p.new_count as int == applied_count(desktop_count as int, Decision::Shrink),
            p.switch_to == spec_switch_target(prev_active, self.last as int, idx),
    {
        crate::compact::plan_removal(idx, desktop_count, prev_active, self.last)
    }

    /// Ends a pass: notes the currently active workspace's number, leaving
    /// the recorded one alone where no workspace is active.
    pub fn note_active(&mut self, active: Option<usize>)
        ensures
            final(self).last == match active {
                Some(n) => n as int,
                None => old(self).last as int,
            },
            final(self).debug == old(self).debug,
            final(self).notify == old(self).notify,
            final(self).blacklist == old(self).blacklist,
    {
        match active {
            Some(n) => {
                self.last = n;
            },
            None => {},
        }
    }
}

} // verus!
