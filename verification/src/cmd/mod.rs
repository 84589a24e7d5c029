use vstd::prelude::*;

pub mod protocol;
pub mod switch;
pub mod delete;
pub mod set_token;
pub mod create;
pub mod binding;
pub mod bind;
pub mod unbind;
pub mod apply;
pub mod current;
pub mod list;
pub mod auth_status;

verus! {
} // verus!
