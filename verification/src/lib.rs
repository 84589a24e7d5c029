use vstd::prelude::*;

pub mod apply_context;
pub mod clients;
pub mod cmd;
pub mod context;
pub mod failure;
pub mod gl_config;
pub mod hosts;
pub mod names;
pub mod path;
pub mod storage;
pub mod test_utils;
pub mod text;
pub mod transport;
pub mod validate_name;
pub mod vcs;
pub mod yaml;
pub mod yaml_text;

verus! {
} // verus!
