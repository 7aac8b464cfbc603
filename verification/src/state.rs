//! Process-wide bootstrap state, modelled as an explicit value owned by the
//! embedding application: which toolchains stand confirmed, whether a setup
//! run is underway or has completed, and the test-mode override.

use vstd::prelude::*;

verus! {

/// The coordinator's state: three toolchain confirmations, the two setup
/// flags, and the test-mode override.
///
/// `setup_started` is the single-flight gate of the non-blocking dispatch;
/// `setup_completed` records a fully successful bootstrap.
#[derive(Clone, Copy)]
pub struct EnvironmentState {
    /// The Python packaging tool stands confirmed present.
    pub uv_installed: bool,
    /// The runtime version manager stands confirmed present.
    pub nvm_installed: bool,
    /// The pinned runtime version stands confirmed present.
    pub node_installed: bool,
    /// A non-blocking dispatch holds the single-flight gate.
    pub setup_started: bool,
    /// A bootstrap run has completed successfully.
    pub setup_completed: bool,
    /// Every probe and installer returns fixed canned values.
    pub test_mode: bool,
}

impl EnvironmentState {
    /// The state invariant: a completed setup means every toolchain was
    /// confirmed at least once.
    pub open spec fn inv(&self) -> bool {
        self.setup_completed ==> self.uv_installed && self.nvm_installed && self.node_installed
    }

    /// The all-false startup state.
    pub fn new() -> (r: EnvironmentState)
        ensures
            !r.uv_installed,
            !r.nvm_installed,
            !r.node_installed,
            !r.setup_started,
            !r.setup_completed,
            !r.test_mode,
            r.inv(),
    {
        EnvironmentState {
            uv_installed: false,
            nvm_installed: false,
            node_installed: false,
            setup_started: false,
            setup_completed: false,
            test_mode: false,
        }
    }
}

/// Turns the test-mode override on or off, leaving all other state alone.
pub fn set_test_mode(state: &mut EnvironmentState, enabled: bool)
    ensures
        final(state).test_mode == enabled,
        final(state).uv_installed == old(state).uv_installed,
        final(state).nvm_installed == old(state).nvm_installed,
        final(state).node_installed == old(state).node_installed,
        final(state).setup_started == old(state).setup_started,
        final(state).setup_completed == old(state).setup_completed,
{
    state.test_mode = enabled;
}

/// Whether the test-mode override is on.
pub fn is_test_mode(state: &EnvironmentState) -> (r: bool)
    ensures
        r == state.test_mode,
{
    state.test_mode
}

} // verus!
