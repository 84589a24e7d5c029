use vstd::prelude::*;

use crate::transport::Transport;

verus! {

/// A saved identity on a VCS host: where to log in, as whom, and how git
/// reaches the host.
#[derive(Debug)]
pub struct Context {
    pub hostname: String,
    pub user: String,
    pub transport: Transport,
}

/// The content of a context.
pub struct ContextView {
    pub hostname: Seq<char>,
    pub user: Seq<char>,
    pub transport: Transport,
}

impl View for Context {
    type V = ContextView;

    open spec fn view(&self) -> ContextView {
        ContextView { hostname: self.hostname@, user: self.user@, transport: self.transport }
    }
}

impl Context {
    pub fn new(hostname: String, user: String, transport: Transport) -> (c: Context)
        ensures
            c.hostname == hostname,
            c.user == user,
            c.transport == transport,
    {
        Context { hostname, user, transport }
    }

    /// A copy of the context with the same fields.
    pub fn duplicate(&self) -> (c: Context)
        ensures
            c == *self,
    {
        Context {
            hostname: self.hostname.clone(),
            user: self.user.clone(),
            transport: self.transport,
        }
    }
}

} // verus!
