//! Verified core of a developer-toolchain bootstrapper and plugin lifecycle
//! manager: an idempotent, single-flight environment setup state machine, and
//! a config-document install/uninstall surface with `${NAME}` argument
//! templating.

use vstd::prelude::*;

pub mod bootstrap;
pub mod config;
pub mod errors;
pub mod host;
pub mod lifecycle;
pub mod numfmt;
pub mod platform;
pub mod registry;
pub mod scalar;
pub mod state;
pub mod strmap;
pub mod strutil;
pub mod template;

verus! {

/// The pinned Node.js runtime version that the bootstrap installs and checks for.
pub const NODE_VERSION: &'static str = "v20.9.0";

pub fn pinned_node_version() -> (r: &'static str)
    ensures
        r@ == NODE_VERSION@,
{
    NODE_VERSION
}

} // verus!
