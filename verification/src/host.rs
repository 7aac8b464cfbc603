//! The host's per-user directories, read through the `dirs` crate, and the
//! probe plans built on them. What a directory is on this machine depends on
//! the environment, so nothing is promised of the wrappers' results; every
//! decision over them is a verified function.

use vstd::prelude::*;

use crate::platform::{
    npx_shim_fallback_path, npx_shim_path_under, spec_npx_shim_fallback, spec_npx_shim_path,
    spec_uvx_candidate_paths, test_shim_path, test_uvx_path, uvx_candidate_paths, Platform,
};
use crate::state::EnvironmentState;

verus! {

/// Relies on dirs::home_dir: the user's home directory, if the platform
/// reports one. The result depends on the environment, so nothing is promised
/// of it.
#[verifier::external_body]
fn home_dir() -> (r: Option<String>) {
    dirs::home_dir().map(|p| p.to_string_lossy().to_string())
}

/// Relies on dirs::data_local_dir: the user's local application-data
/// directory, if the platform reports one. The result depends on the
/// environment, so nothing is promised of it.
#[verifier::external_body]
fn data_local_dir() -> (r: Option<String>) {
    dirs::data_local_dir().map(|p| p.to_string_lossy().to_string())
}

/// The shim's canonical path on this host: the canned test path in test
/// mode, else the per-platform location under this user's base directory;
/// on a host that reports no base directory the path is the same suffix,
/// relative.
pub fn get_npx_shim_path(state: &EnvironmentState, platform: Platform) -> (r: String)
    ensures
        state.test_mode ==> r@ == "/test/.local/share/staten/bin/npx-staten"@,
        !state.test_mode ==> ((exists|base: Seq<char>| r@ == spec_npx_shim_path(platform, base))
            || r@ == spec_npx_shim_fallback(platform)),
{
    if state.test_mode {
        return test_shim_path();
    }
    let base = match platform {
        Platform::Windows => data_local_dir(),
        _ => home_dir(),
    };
    match base {
        Some(dir) => {
            let r = npx_shim_path_under(platform, dir.as_str());
            proof {
                assert(r@ == spec_npx_shim_path(platform, dir@));
            }
            r
        },
        None => npx_shim_fallback_path(platform),
    }
}

/// What the launcher probe should do on this host: nothing in test mode (the
/// canned path stands), else stat the well-known candidate locations for this
/// user, in order.
pub enum UvxProbePlan {
    /// Test mode: the canned path is the result, no probing.
    TestMode(String),
    /// Stat these paths in order; first hit wins, then fall back to a PATH
    /// lookup.
    Candidates(Vec<String>),
    /// The host reports no home directory, so there is nothing to stat.
    NoHome,
}

/// Plans the launcher probe for this host; the candidate list is the
/// well-known locations under this user's home directory.
pub fn plan_uvx_probe(state: &EnvironmentState, platform: Platform) -> (r: UvxProbePlan)
    ensures
        state.test_mode ==> (r matches UvxProbePlan::TestMode(p) && p@ == "/test/.local/bin/uvx"@),
        !state.test_mode ==> match r {
            UvxProbePlan::TestMode(_) => false,
            UvxProbePlan::Candidates(paths) => exists|home: Seq<char>|
                paths.deep_view() == spec_uvx_candidate_paths(platform, home),
            UvxProbePlan::NoHome => true,
        },
{
    if state.test_mode {
        return UvxProbePlan::TestMode(test_uvx_path());
    }
    match home_dir() {
        Some(home) => {
            let paths = uvx_candidate_paths(platform, home.as_str());
            proof {
                assert(paths.deep_view() == spec_uvx_candidate_paths(platform, home@));
            }
            UvxProbePlan::Candidates(paths)
        },
        None => UvxProbePlan::NoHome,
    }
}

} // verus!
