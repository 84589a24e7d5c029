use vstd::prelude::*;

use crate::text::same_text;
use crate::vcs::Vcs;

verus! {

/// Which context is in use: the one that a switch made active, or the one
/// that a repository is bound to.
#[derive(Debug)]
pub struct ApplyContext {
    pub name: String,
    pub vcs: Vcs,
}

/// The content of an `ApplyContext`.
pub struct ApplyContextView {
    pub name: Seq<char>,
    pub vcs: Vcs,
}

impl View for ApplyContext {
    type V = ApplyContextView;

    open spec fn view(&self) -> ApplyContextView {
        ApplyContextView { name: self.name@, vcs: self.vcs }
    }
}

/// Whether `active` names the context `name` of `vcs`.
pub open spec fn names_context(active: Option<ApplyContext>, name: Seq<char>, vcs: Vcs) -> bool {
    active matches Some(a) && a.name@ == name && a.vcs == vcs
}

impl ApplyContext {
    pub fn new(name: String, vcs: Vcs) -> (a: ApplyContext)
        ensures
            a.name == name,
            a.vcs == vcs,
    {
        ApplyContext { name, vcs }
    }

    /// A copy with the same fields.
    pub fn duplicate(&self) -> (a: ApplyContext)
        ensures
            a == *self,
    {
        ApplyContext { name: self.name.clone(), vcs: self.vcs }
    }

    /// Whether this refers to the context `name` of `vcs`.
    pub fn refers_to(&self, name: &str, vcs: Vcs) -> (r: bool)
        ensures
            r == (self.name@ == name@ && self.vcs == vcs),
    {
        self.vcs == vcs && same_text(self.name.as_str(), name)
    }
}

/// Whether the active context, if any, is the context `name` of `vcs`.
pub fn is_active_context(active: &Option<ApplyContext>, name: &str, vcs: Vcs) -> (r: bool)
    ensures
        r == names_context(*active, name@, vcs),
{
    match active {
        Some(a) => a.refers_to(name, vcs),
        None => false,
    }
}

} // verus!
