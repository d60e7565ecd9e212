//! The window filter: drops windows that must never count toward occupancy
//! decisions (sticky windows, and windows matched by the blacklist), keeping
//! the rest in their original order.

use vstd::prelude::*;

use crate::model::Window;

verus! {

/// One (class, role) blacklist rule. A window matches it only when its role
/// is non-empty and both its class and role equal the rule's fields exactly.
pub struct ClassRoleRule {
    pub class: String,
    pub role: String,
}

/// The static window blacklist: exact-name entries and (class, role) rules.
pub struct Blacklist {
    pub names: Vec<String>,
    pub class_roles: Vec<ClassRoleRule>,
}

/// Whether some entry of `names` equals `name` exactly.
pub open spec fn name_listed(names: Seq<String>, name: Seq<char>) -> bool {
    exists|i: int| 0 <= i < names.len() && names[i]@ == name
}

/// Whether some rule of `rules` matches the pair (`class`, `role`) exactly.
pub open spec fn class_role_listed(rules: Seq<ClassRoleRule>, class: Seq<char>, role: Seq<char>) -> bool {
    exists|i: int| 0 <= i < rules.len() && rules[i].class@ == class && rules[i].role@ == role
}

impl Blacklist {
    /// Whether the filter keeps window `w`: it is not sticky, its name is not
    /// blacklisted, and, where it reports a non-empty role, its (class, role)
    /// pair is not blacklisted. An empty role never matches a rule.
    pub open spec fn keeps(self, w: Window) -> bool {
        &&& !w.sticky
        &&& !name_listed(self.names@, w.name@)
        &&& (w.role@.len() == 0 || !class_role_listed(self.class_roles@, w.class@, w.role@))
    }

    fn contains_name(&self, name: &String) -> (r: bool)
        ensures
            r == name_listed(self.names@, name@),
    {
        let mut i: usize = 0;
        while i < self.names.len()
            invariant
                i <= self.names@.len(),
                forall|j: int| 0 <= j < i ==> self.names@[j]@ != name@,
            decreases self.names@.len() - i,
        {
            if self.names[i] == *name {
                return true;
            }
            i = i + 1;
        }
        false
    }

    fn contains_class_role(&self, class: &String, role: &String) -> (r: bool)
        ensures
            r == class_role_listed(self.class_roles@, class@, role@),
    {
        let mut i: usize = 0;
        while i < self.class_roles.len()
            invariant
                i <= self.class_roles@.len(),
                forall|j: int| 0 <= j < i ==> !(self.class_roles@[j].class@ == class@
                    && self.class_roles@[j].role@ == role@),
            decreases self.class_roles@.len() - i,
        {
            if self.class_roles[i].class == *class && self.class_roles[i].role == *role {
                return true;
            }
            i = i + 1;
        }
        false
    }

    /// Decides `keeps` for one window.
    pub fn window_kept(&self, w: &Window) -> (r: bool)
        ensures
            r == self.keeps(*w),
    {
        if w.sticky {
            return false;
        }
        if self.contains_name(&w.name) {
            return false;
        }
        if w.role.as_str().unicode_len() > 0 && self.contains_class_role(&w.class, &w.role) {
            return false;
        }
        true
    }

    /// Removes blacklisted windows from `windows`, preserving relative order.
    pub fn remove_blacklist(&self, windows: &Vec<Window>) -> (kept: Vec<Window>)
        ensures
            kept@ == windows@.filter(|w: Window| self.keeps(w)),
    {
        let ghost pred = |w: Window| self.keeps(w);
        let mut kept: Vec<Window> = Vec::new();
        let mut i: usize = 0;
        while i < windows.len()
            invariant
                i <= windows@.len(),
                kept@ == windows@.take(i as int).filter(pred),
                pred == (|w: Window| self.keeps(w)),
            decreases windows@.len() - i,
        {
            proof {
                reveal(Seq::filter);
                assert(windows@.take(i + 1).drop_last() =~= windows@.take(i as int));
            }
            if self.window_kept(&windows[i]) {
                kept.push(windows[i].clone());
            }
            i = i + 1;
        }
        proof {
            assert(windows@.take(windows@.len() as int) =~= windows@);
        }
        kept
    }
}

} // verus!
