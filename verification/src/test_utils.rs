use vstd::prelude::*;

use crate::context::{Context, ContextView};
use crate::transport::Transport;

verus! {

/// A GitHub context for examples and tests.
pub fn sample_context() -> (c: Context)
    ensures
        c@ == (ContextView { hostname: "github.com"@, user: "testuser"@, transport: Transport::Ssh }),
{
    Context { hostname: "github.com".to_owned(), user: "testuser".to_owned(), transport: Transport::Ssh }
}

/// A GitLab context for examples and tests.
pub fn sample_gitlab_context() -> (c: Context)
    ensures
        c@ == (ContextView { hostname: "gitlab.com"@, user: "testuser"@, transport: Transport::Ssh }),
{
    Context { hostname: "gitlab.com".to_owned(), user: "testuser".to_owned(), transport: Transport::Ssh }
}

} // verus!
