//! The environment setup coordinator: an idempotent, single-flight state
//! machine that sequences the package tool, the runtime version manager, the
//! pinned runtime and the launcher shim.
//!
//! The machine holds every decision; the embedding application performs the
//! probes and installers it asks for (the only parts that touch the file
//! system or spawn processes) and hands their outcomes back as events.
//! An installer's clean exit is never trusted: after every install-success
//! event the run re-runs detection, and only a positive detection confirms
//! the toolchain.

use vstd::prelude::*;

use crate::errors::{Error, Toolchain};
use crate::state::EnvironmentState;
use crate::NODE_VERSION;

verus! {

/// Which entry point a run serves; it decides how the setup flags are
/// maintained and how the final result is worded.
#[derive(Clone, Copy)]
pub enum RunKind {
    /// The non-blocking dispatch: it holds the single-flight gate and
    /// releases it when the run ends.
    Dispatch,
    /// The blocking entry: mutual exclusion is the caller's lock, and the
    /// single-flight gate is left alone.
    Blocking,
    /// The runtime-only entry: version manager, runtime and shim, without
    /// the package tool step.
    NodeOnly,
}

/// Where a run stands: which outcome it waits for, or how it ended.
pub enum RunPhase {
    /// Waiting for the package-tool launcher probe.
    ProbingUvx,
    /// Waiting for the package-tool detection.
    CheckingUv,
    /// Waiting for the package-tool installer.
    InstallingUv,
    /// The package-tool installer exited cleanly; waiting for the detection
    /// that is the only thing allowed to confirm it.
    VerifyingUv,
    /// Waiting for the version-manager detection.
    CheckingNvm,
    /// Waiting for the version-manager installer.
    InstallingNvm,
    /// The version-manager installer exited cleanly; waiting for the
    /// re-detection.
    VerifyingNvm,
    /// Waiting for the runtime version check.
    CheckingNode,
    /// Waiting for the runtime installer.
    InstallingNode,
    /// The runtime installer exited cleanly; waiting for the version check
    /// to see the pinned version.
    VerifyingNode,
    /// Waiting for the launcher shim to be written or found.
    EnsuringShim,
    /// Every step succeeded.
    Succeeded,
    /// A step failed; the run is over.
    Failed(Error),
}

/// One bootstrap run in progress.
pub struct BootstrapRun {
    pub kind: RunKind,
    pub phase: RunPhase,
}

/// What the embedding application must do next for a run.
pub enum BootstrapAction {
    /// Probe the well-known locations and the PATH for the package-tool
    /// launcher.
    ProbeUvx,
    /// Detect the package tool itself.
    CheckUv,
    /// Run the package-tool installer.
    InstallUv,
    /// Detect the version manager.
    CheckNvm,
    /// Run the version-manager installer.
    InstallNvm,
    /// Query the installed runtime version.
    CheckNodeVersion,
    /// Install the pinned runtime version through the version manager.
    InstallNode,
    /// Find or write the launcher shim.
    EnsureShim,
}

/// The outcome of one performed action.
pub enum BootstrapEvent {
    /// The launcher probe's result: the path found, if any.
    UvxProbed(Option<String>),
    /// Whether the package tool was detected.
    UvChecked(bool),
    /// The package-tool installer's result: captured stderr wrapped as
    /// `InstallFailed`, or `UnsupportedPlatform`, on failure.
    UvInstalled(Result<(), Error>),
    /// Whether the version manager was detected.
    NvmChecked(bool),
    /// The version-manager installer's result, as an error value on failure.
    NvmInstalled(Result<(), Error>),
    /// The installed runtime version, or why it could not be read.
    NodeVersionChecked(Result<String, String>),
    /// The runtime installer's result, as an error value on failure.
    NodeInstalled(Result<(), Error>),
    /// The shim path, or the error that kept the shim from existing.
    ShimEnsured(Result<String, Error>),
}

/// Whether an event answers what the phase is waiting for.
pub open spec fn event_matches(phase: RunPhase, event: BootstrapEvent) -> bool {
    match (phase, event) {
        (RunPhase::ProbingUvx, BootstrapEvent::UvxProbed(_)) => true,
        (RunPhase::CheckingUv, BootstrapEvent::UvChecked(_)) => true,
        (RunPhase::InstallingUv, BootstrapEvent::UvInstalled(_)) => true,
        (RunPhase::VerifyingUv, BootstrapEvent::UvChecked(_)) => true,
        (RunPhase::CheckingNvm, BootstrapEvent::NvmChecked(_)) => true,
        (RunPhase::InstallingNvm, BootstrapEvent::NvmInstalled(_)) => true,
        (RunPhase::VerifyingNvm, BootstrapEvent::NvmChecked(_)) => true,
        (RunPhase::CheckingNode, BootstrapEvent::NodeVersionChecked(_)) => true,
        (RunPhase::InstallingNode, BootstrapEvent::NodeInstalled(_)) => true,
        (RunPhase::VerifyingNode, BootstrapEvent::NodeVersionChecked(_)) => true,
        (RunPhase::EnsuringShim, BootstrapEvent::ShimEnsured(_)) => true,
        _ => false,
    }
}

/// The steps run strictly in order, so a run's phase records which toolchains
/// the state has already confirmed.
pub open spec fn run_inv(s: EnvironmentState, run: BootstrapRun) -> bool {
    &&& match run.phase {
        RunPhase::CheckingNvm | RunPhase::InstallingNvm | RunPhase::VerifyingNvm
            | RunPhase::CheckingNode | RunPhase::InstallingNode | RunPhase::VerifyingNode
            | RunPhase::EnsuringShim => (run.kind is NodeOnly) || s.uv_installed,
        _ => true,
    }
    &&& match run.phase {
        RunPhase::CheckingNode | RunPhase::InstallingNode | RunPhase::VerifyingNode
            | RunPhase::EnsuringShim => s.nvm_installed,
        _ => true,
    }
    &&& match run.phase {
        RunPhase::EnsuringShim => s.node_installed,
        _ => true,
    }
}

/// A failed run: the failure is recorded, completion is withdrawn, and a
/// dispatch run releases the single-flight gate so a later call may retry.
pub open spec fn spec_fail(s: EnvironmentState, run: BootstrapRun, err: Error) -> (
    EnvironmentState,
    BootstrapRun,
) {
    (
        EnvironmentState {
            setup_completed: false,
            setup_started: if run.kind is Dispatch {
                false
            } else {
                s.setup_started
            },
            ..s
        },
        BootstrapRun { phase: RunPhase::Failed(err), ..run },
    )
}

/// A successful run: completion records that all three toolchains stand
/// confirmed, and a dispatch run releases the single-flight gate.
pub open spec fn spec_succeed(s: EnvironmentState, run: BootstrapRun) -> (
    EnvironmentState,
    BootstrapRun,
) {
    (
        EnvironmentState {
            setup_completed: s.uv_installed && s.nvm_installed && s.node_installed,
            setup_started: if run.kind is Dispatch {
                false
            } else {
                s.setup_started
            },
            ..s
        },
        BootstrapRun { phase: RunPhase::Succeeded, ..run },
    )
}

/// The coordinator's transition function: what one event does to the state
/// and the run.
pub open spec fn spec_step(s: EnvironmentState, run: BootstrapRun, event: BootstrapEvent) -> (
    EnvironmentState,
    BootstrapRun,
) {
    match event {
        BootstrapEvent::UvxProbed(found) => {
            if found is Some || s.uv_installed {
                (
                    EnvironmentState { uv_installed: true, ..s },
                    BootstrapRun { phase: RunPhase::CheckingNvm, ..run },
                )
            } else {
                (s, BootstrapRun { phase: RunPhase::CheckingUv, ..run })
            }
        },
        BootstrapEvent::UvChecked(found) => {
            if found {
                (
                    EnvironmentState { uv_installed: true, ..s },
                    BootstrapRun { phase: RunPhase::CheckingNvm, ..run },
                )
            } else if run.phase is VerifyingUv {
                spec_fail(s, run, Error::InstallVerificationFailed(Toolchain::PackageTool))
            } else {
                (s, BootstrapRun { phase: RunPhase::InstallingUv, ..run })
            }
        },
        BootstrapEvent::UvInstalled(outcome) => match outcome {
            Ok(_) => (s, BootstrapRun { phase: RunPhase::VerifyingUv, ..run }),
            Err(err) => spec_fail(s, run, err),
        },
        BootstrapEvent::NvmChecked(found) => {
            if found {
                (
                    EnvironmentState { nvm_installed: true, ..s },
                    BootstrapRun { phase: RunPhase::CheckingNode, ..run },
                )
            } else if run.phase is VerifyingNvm {
                spec_fail(s, run, Error::InstallVerificationFailed(Toolchain::VersionManager))
            } else {
                (s, BootstrapRun { phase: RunPhase::InstallingNvm, ..run })
            }
        },
        BootstrapEvent::NvmInstalled(outcome) => match outcome {
            Ok(_) => (s, BootstrapRun { phase: RunPhase::VerifyingNvm, ..run }),
            Err(err) => spec_fail(s, run, err),
        },
        BootstrapEvent::NodeVersionChecked(outcome) => match outcome {
            Ok(version) => {
                if version@ == NODE_VERSION@ {
                    (
                        EnvironmentState { node_installed: true, ..s },
                        BootstrapRun { phase: RunPhase::EnsuringShim, ..run },
                    )
                } else if run.phase is VerifyingNode {
                    spec_fail(s, run, Error::InstallVerificationFailed(Toolchain::Runtime))
                } else {
                    (s, BootstrapRun { phase: RunPhase::InstallingNode, ..run })
                }
            },
            Err(_) => {
                if run.phase is VerifyingNode {
                    spec_fail(s, run, Error::InstallVerificationFailed(Toolchain::Runtime))
                } else {
                    (s, BootstrapRun { phase: RunPhase::InstallingNode, ..run })
                }
            },
        },
        BootstrapEvent::NodeInstalled(outcome) => match outcome {
            Ok(_) => (s, BootstrapRun { phase: RunPhase::VerifyingNode, ..run }),
            Err(err) => spec_fail(s, run, err),
        },
        BootstrapEvent::ShimEnsured(outcome) => match outcome {
            Ok(_) => spec_succeed(s, run),
            Err(err) => spec_fail(s, run, err),
        },
    }
}

/// The action a phase waits for, or nothing once the run is over.
pub open spec fn spec_next_action(phase: RunPhase) -> Option<BootstrapAction> {
    match phase {
        RunPhase::ProbingUvx => Some(BootstrapAction::ProbeUvx),
        RunPhase::CheckingUv => Some(BootstrapAction::CheckUv),
        RunPhase::InstallingUv => Some(BootstrapAction::InstallUv),
        RunPhase::VerifyingUv => Some(BootstrapAction::CheckUv),
        RunPhase::CheckingNvm => Some(BootstrapAction::CheckNvm),
        RunPhase::InstallingNvm => Some(BootstrapAction::InstallNvm),
        RunPhase::VerifyingNvm => Some(BootstrapAction::CheckNvm),
        RunPhase::CheckingNode => Some(BootstrapAction::CheckNodeVersion),
        RunPhase::InstallingNode => Some(BootstrapAction::InstallNode),
        RunPhase::VerifyingNode => Some(BootstrapAction::CheckNodeVersion),
        RunPhase::EnsuringShim => Some(BootstrapAction::EnsureShim),
        RunPhase::Succeeded => None,
        RunPhase::Failed(_) => None,
    }
}

impl BootstrapRun {
    /// What the embedding application must do next, or nothing if the run is
    /// over.
    pub fn next_action(&self) -> (r: Option<BootstrapAction>)
        ensures
            r == spec_next_action(self.phase),
    {
        match &self.phase {
            RunPhase::ProbingUvx => Some(BootstrapAction::ProbeUvx),
            RunPhase::CheckingUv => Some(BootstrapAction::CheckUv),
            RunPhase::InstallingUv => Some(BootstrapAction::InstallUv),
            RunPhase::VerifyingUv => Some(BootstrapAction::CheckUv),
            RunPhase::CheckingNvm => Some(BootstrapAction::CheckNvm),
            RunPhase::InstallingNvm => Some(BootstrapAction::InstallNvm),
            RunPhase::VerifyingNvm => Some(BootstrapAction::CheckNvm),
            RunPhase::CheckingNode => Some(BootstrapAction::CheckNodeVersion),
            RunPhase::InstallingNode => Some(BootstrapAction::InstallNode),
            RunPhase::VerifyingNode => Some(BootstrapAction::CheckNodeVersion),
            RunPhase::EnsuringShim => Some(BootstrapAction::EnsureShim),
            RunPhase::Succeeded => None,
            RunPhase::Failed(_) => None,
        }
    }

    /// Feeds one performed action's outcome into the run.
    pub fn step(&mut self, state: &mut EnvironmentState, event: BootstrapEvent)
        requires
            event_matches(old(self).phase, event),
            run_inv(*old(state), *old(self)),
            old(state).inv(),
        ensures
            *final(state) == spec_step(*old(state), *old(self), event).0,
            *final(self) == spec_step(*old(state), *old(self), event).1,
            run_inv(*final(state), *final(self)),
            final(state).test_mode == old(state).test_mode,
            old(state).uv_installed ==> final(state).uv_installed,
            old(state).nvm_installed ==> final(state).nvm_installed,
            old(state).node_installed ==> final(state).node_installed,
            final(state).inv(),
    {
        match event {
            BootstrapEvent::UvxProbed(found) => {
                if found.is_some() || state.uv_installed {
                    state.uv_installed = true;
                    self.phase = RunPhase::CheckingNvm;
                } else {
                    self.phase = RunPhase::CheckingUv;
                }
            },
            BootstrapEvent::UvChecked(found) => {
                let verifying = if let RunPhase::VerifyingUv = self.phase {
                    true
                } else {
                    false
                };
                if found {
                    state.uv_installed = true;
                    self.phase = RunPhase::CheckingNvm;
                } else if verifying {
                    self.record_failure(
                        state,
                        Error::InstallVerificationFailed(Toolchain::PackageTool),
                    );
                } else {
                    self.phase = RunPhase::InstallingUv;
                }
            },
            BootstrapEvent::UvInstalled(outcome) => match outcome {
                Ok(_) => {
                    self.phase = RunPhase::VerifyingUv;
                },
                Err(err) => {
                    self.record_failure(state, err);
                },
            },
            BootstrapEvent::NvmChecked(found) => {
                let verifying = if let RunPhase::VerifyingNvm = self.phase {
                    true
                } else {
                    false
                };
                if found {
                    state.nvm_installed = true;
                    self.phase = RunPhase::CheckingNode;
                } else if verifying {
                    self.record_failure(
                        state,
                        Error::InstallVerificationFailed(Toolchain::VersionManager),
                    );
                } else {
                    self.phase = RunPhase::InstallingNvm;
                }
            },
            BootstrapEvent::NvmInstalled(outcome) => match outcome {
                Ok(_) => {
                    self.phase = RunPhase::VerifyingNvm;
                },
                Err(err) => {
                    self.record_failure(state, err);
                },
            },
            BootstrapEvent::NodeVersionChecked(outcome) => {
                let verifying = if let RunPhase::VerifyingNode = self.phase {
                    true
                } else {
                    false
                };
                match outcome {
                    Ok(version) => {
                        if crate::strutil::str_eq(version.as_str(), NODE_VERSION) {
                            state.node_installed = true;
                            self.phase = RunPhase::EnsuringShim;
                        } else if verifying {
                            self.record_failure(
                                state,
                                Error::InstallVerificationFailed(Toolchain::Runtime),
                            );
                        } else {
                            self.phase = RunPhase::InstallingNode;
                        }
                    },
                    Err(_) => {
                        if verifying {
                            self.record_failure(
                                state,
                                Error::InstallVerificationFailed(Toolchain::Runtime),
                            );
                        } else {
                            self.phase = RunPhase::InstallingNode;
                        }
                    },
                }
            },
            BootstrapEvent::NodeInstalled(outcome) => match outcome {
                Ok(_) => {
                    self.phase = RunPhase::VerifyingNode;
                },
                Err(err) => {
                    self.record_failure(state, err);
                },
            },
            BootstrapEvent::ShimEnsured(outcome) => match outcome {
                Ok(_) => {
                    state.setup_completed = state.uv_installed && state.nvm_installed
                        && state.node_installed;
                    if let RunKind::Dispatch = self.kind {
                        state.setup_started = false;
                    }
                    self.phase = RunPhase::Succeeded;
                },
                Err(err) => {
                    self.record_failure(state, err);
                },
            },
        }
    }

    /// Records a failed step: see [`spec_fail`].
    fn record_failure(&mut self, state: &mut EnvironmentState, err: Error)
        ensures
            *final(state) == spec_fail(*old(state), *old(self), err).0,
            *final(self) == spec_fail(*old(state), *old(self), err).1,
    {
        state.setup_completed = false;
        if let RunKind::Dispatch = self.kind {
            state.setup_started = false;
        }
        self.phase = RunPhase::Failed(err);
    }

    /// The user-visible result of a finished run: a completion message, or a
    /// failure message worded for the entry point that started the run (the
    /// runtime-only entry propagates its granular cause).
    pub fn final_result(self) -> (r: Result<String, String>)
        requires
            self.phase is Succeeded || self.phase is Failed,
        ensures
            r is Ok <==> self.phase is Succeeded,
            self.phase is Succeeded && !(self.kind is NodeOnly) ==> r->Ok_0@
                == "Environment setup completed"@,
            self.phase is Succeeded && self.kind is NodeOnly ==> r->Ok_0@
                == "Node environment is ready"@,
            self.phase is Failed && self.kind is Dispatch ==> r->Err_0@
                == "Environment setup failed. Please check the logs for details."@,
            self.phase is Failed && self.kind is Blocking ==> r->Err_0@
                == "Environment setup failed with errors"@,
            self.phase is Failed && self.kind is NodeOnly ==> r->Err_0@ == self.phase->Failed_0.spec_message(),
    {
        match self.phase {
            RunPhase::Succeeded => match self.kind {
                RunKind::NodeOnly => Ok(String::from_str("Node environment is ready")),
                _ => Ok(String::from_str("Environment setup completed")),
            },
            RunPhase::Failed(err) => match self.kind {
                RunKind::Dispatch => Err(
                    String::from_str("Environment setup failed. Please check the logs for details."),
                ),
                RunKind::Blocking => Err(String::from_str("Environment setup failed with errors")),
                RunKind::NodeOnly => Err(err.message()),
            },
            _ => Err(String::new()),
        }
    }
}

/// What a non-blocking dispatch finds: canned success in test mode, the
/// completed short-circuit, the single-flight loser's notice, or a fresh run.
pub enum DispatchOutcome {
    TestMode,
    AlreadyCompleted,
    InProgress,
    Started(BootstrapRun),
}

/// The non-blocking entry's decision over the state.
pub open spec fn spec_dispatch(s: EnvironmentState) -> (EnvironmentState, DispatchOutcome) {
    if s.test_mode {
        (s, DispatchOutcome::TestMode)
    } else if s.setup_completed {
        (s, DispatchOutcome::AlreadyCompleted)
    } else if s.setup_started {
        (s, DispatchOutcome::InProgress)
    } else {
        (
            EnvironmentState { setup_started: true, ..s },
            DispatchOutcome::Started(
                BootstrapRun { kind: RunKind::Dispatch, phase: RunPhase::ProbingUvx },
            ),
        )
    }
}

/// The non-blocking bootstrap dispatch. At most one caller wins the
/// single-flight gate; the winner receives the run to drive, and every other
/// caller is told a setup is already in progress without blocking.
pub fn ensure_environment(state: &mut EnvironmentState) -> (r: DispatchOutcome)
    ensures
        *final(state) == spec_dispatch(*old(state)).0,
        r == spec_dispatch(*old(state)).1,
        r matches DispatchOutcome::Started(run) ==> run_inv(*final(state), run),
        old(state).inv() ==> final(state).inv(),
{
    if state.test_mode {
        DispatchOutcome::TestMode
    } else if state.setup_completed {
        DispatchOutcome::AlreadyCompleted
    } else if state.setup_started {
        DispatchOutcome::InProgress
    } else {
        state.setup_started = true;
        DispatchOutcome::Started(BootstrapRun { kind: RunKind::Dispatch, phase: RunPhase::ProbingUvx })
    }
}

impl DispatchOutcome {
    /// The user-visible message of a dispatch that started no run.
    pub fn message(&self) -> (r: String)
        requires
            !(self is Started),
        ensures
            self is TestMode ==> r@ == "Environment setup started"@,
            self is AlreadyCompleted ==> r@ == "Environment setup completed"@,
            self is InProgress ==> r@ == "Environment setup already in progress"@,
    {
        match self {
            DispatchOutcome::TestMode => String::from_str("Environment setup started"),
            DispatchOutcome::AlreadyCompleted => String::from_str("Environment setup completed"),
            _ => String::from_str("Environment setup already in progress"),
        }
    }
}

/// What the blocking entry finds before taking the exclusion lock.
pub enum SyncBegin {
    TestMode,
    AlreadyCompleted,
    NeedsLock,
}

/// The blocking entry's decision before the lock.
pub open spec fn spec_sync_begin(s: EnvironmentState) -> SyncBegin {
    if s.test_mode {
        SyncBegin::TestMode
    } else if s.setup_completed {
        SyncBegin::AlreadyCompleted
    } else {
        SyncBegin::NeedsLock
    }
}

/// The blocking bootstrap entry: returns at once in test mode or when setup
/// has completed; otherwise the caller must take the exclusion lock and call
/// [`ensure_environment_sync_locked`].
pub fn ensure_environment_sync(state: &EnvironmentState) -> (r: SyncBegin)
    ensures
        r == spec_sync_begin(*state),
{
    if state.test_mode {
        SyncBegin::TestMode
    } else if state.setup_completed {
        SyncBegin::AlreadyCompleted
    } else {
        SyncBegin::NeedsLock
    }
}

impl SyncBegin {
    /// The user-visible message of a blocking entry that needs no run.
    pub fn message(&self) -> (r: String)
        requires
            !(self is NeedsLock),
        ensures
            self is TestMode ==> r@ == "Environment setup completed"@,
            self is AlreadyCompleted ==> r@ == "Environment setup already completed"@,
    {
        match self {
            SyncBegin::TestMode => String::from_str("Environment setup completed"),
            _ => String::from_str("Environment setup already completed"),
        }
    }
}

/// What the blocking entry finds once it holds the exclusion lock.
pub enum SyncLocked {
    /// Another caller finished the setup while this one waited for the lock.
    CompletedWhileWaiting,
    /// The work is this caller's: a fresh blocking run.
    Run(BootstrapRun),
}

/// The blocking entry's decision under the lock: the completion flag is read
/// again, so a caller that waited does not redo finished work.
pub open spec fn spec_sync_locked(s: EnvironmentState) -> SyncLocked {
    if s.setup_completed {
        SyncLocked::CompletedWhileWaiting
    } else {
        SyncLocked::Run(BootstrapRun { kind: RunKind::Blocking, phase: RunPhase::ProbingUvx })
    }
}

/// The blocking entry's re-check under the exclusion lock.
pub fn ensure_environment_sync_locked(state: &EnvironmentState) -> (r: SyncLocked)
    ensures
        r == spec_sync_locked(*state),
        r matches SyncLocked::Run(run) ==> run_inv(*state, run),
{
    if state.setup_completed {
        SyncLocked::CompletedWhileWaiting
    } else {
        SyncLocked::Run(BootstrapRun { kind: RunKind::Blocking, phase: RunPhase::ProbingUvx })
    }
}

impl SyncLocked {
    /// The user-visible message when the wait made the work unnecessary.
    pub fn message(&self) -> (r: String)
        requires
            self is CompletedWhileWaiting,
        ensures
            r@ == "Environment setup completed while waiting"@,
    {
        String::from_str("Environment setup completed while waiting")
    }
}

/// What the runtime-only entry finds.
pub enum NodeBegin {
    TestMode,
    Run(BootstrapRun),
}

/// The runtime-only entry: ensures the version manager, the pinned runtime
/// and the shim, without the package-tool step.
pub fn ensure_node_environment(state: &EnvironmentState) -> (r: NodeBegin)
    ensures
        state.test_mode ==> r is TestMode,
        !state.test_mode ==> r == NodeBegin::Run(
            BootstrapRun { kind: RunKind::NodeOnly, phase: RunPhase::CheckingNvm },
        ),
        r matches NodeBegin::Run(run) ==> run_inv(*state, run),
{
    if state.test_mode {
        NodeBegin::TestMode
    } else {
        NodeBegin::Run(BootstrapRun { kind: RunKind::NodeOnly, phase: RunPhase::CheckingNvm })
    }
}

impl NodeBegin {
    /// The canned test-mode message of the runtime-only entry.
    pub fn message(&self) -> (r: String)
        requires
            self is TestMode,
        ensures
            r@ == "Node environment is ready"@,
    {
        String::from_str("Node environment is ready")
    }
}

/// Releases the single-flight gate of a dispatch that could not take the
/// exclusion lock, so a later call may retry; nothing else changes.
pub fn cancel_dispatch(state: &mut EnvironmentState)
    ensures
        *final(state) == (EnvironmentState { setup_started: false, ..*old(state) }),
{
    state.setup_started = false;
}

/// Recovers from a worker that ended abnormally mid-run: the single-flight
/// gate is released and completion withdrawn, so the system never stays stuck
/// reporting a setup in progress.
pub fn reset_after_fault(state: &mut EnvironmentState)
    ensures
        *final(state) == (EnvironmentState {
            setup_started: false,
            setup_completed: false,
            ..*old(state)
        }),
        final(state).inv(),
{
    state.setup_started = false;
    state.setup_completed = false;
}

/// Law: the bootstrap is idempotent — once a run's last step succeeds, the
/// state is completed, and both entry points then short-circuit to success
/// without starting a run or changing the state.
pub proof fn lemma_bootstrap_idempotent(s: EnvironmentState, run: BootstrapRun, path: String)
    requires
        !s.test_mode,
        run.phase is EnsuringShim,
        !(run.kind is NodeOnly),
        run_inv(s, run),
    ensures
        ({
            let (s1, run1) = spec_step(s, run, BootstrapEvent::ShimEnsured(Ok(path)));
            run1.phase is Succeeded && s1.setup_completed && spec_dispatch(s1).1
                is AlreadyCompleted && spec_dispatch(s1).0 == s1 && spec_sync_begin(s1)
                is AlreadyCompleted
        }),
{
}

/// Law: the dispatch is single-flight — of two dispatches on a state with
/// work to do, the first starts the one run and the second is turned away
/// with the in-progress notice, changing nothing.
pub proof fn lemma_single_flight(s: EnvironmentState)
    requires
        !s.test_mode,
        !s.setup_completed,
        !s.setup_started,
    ensures
        ({
            let (s1, first) = spec_dispatch(s);
            let (s2, second) = spec_dispatch(s1);
            first is Started && second is InProgress && s2 == s1
        }),
{
}

/// Law: a step never reverts a toolchain confirmation, keeps the test-mode
/// override, and leaves the state invariant standing.
pub proof fn lemma_step_preserves(s: EnvironmentState, run: BootstrapRun, event: BootstrapEvent)
    requires
        event_matches(run.phase, event),
        run_inv(s, run),
        s.inv(),
    ensures
        ({
            let (s1, run1) = spec_step(s, run, event);
            (s.uv_installed ==> s1.uv_installed) && (s.nvm_installed ==> s1.nvm_installed) && (
            s.node_installed ==> s1.node_installed) && s1.test_mode == s.test_mode && s1.inv()
                && run_inv(s1, run1)
        }),
{
}

/// Law: the package-tool installer's clean exit is never trusted — the run
/// confirms nothing on the install-success event and re-runs detection; only
/// a positive detection confirms the tool, and a negative one fails the run
/// with the verification-tagged error, leaving the setup incomplete.
pub proof fn lemma_uv_install_verified(s: EnvironmentState, run: BootstrapRun)
    requires
        run.phase is InstallingUv,
    ensures
        ({
            let (s1, r1) = spec_step(s, run, BootstrapEvent::UvInstalled(Ok(())));
            &&& s1.uv_installed == s.uv_installed
            &&& r1.phase is VerifyingUv
            &&& spec_step(s1, r1, BootstrapEvent::UvChecked(true)).0.uv_installed
            &&& spec_step(s1, r1, BootstrapEvent::UvChecked(false)).1.phase == RunPhase::Failed(
                Error::InstallVerificationFailed(Toolchain::PackageTool),
            )
            &&& !spec_step(s1, r1, BootstrapEvent::UvChecked(false)).0.setup_completed
        }),
{
}

/// Law: the version-manager installer's clean exit is never trusted — the
/// run re-runs detection, only a positive detection confirms the version
/// manager, and a negative one after a clean exit fails the run with an
/// error distinct from an installer failure.
pub proof fn lemma_nvm_install_verified(s: EnvironmentState, run: BootstrapRun)
    requires
        run.phase is InstallingNvm,
    ensures
        ({
            let (s1, r1) = spec_step(s, run, BootstrapEvent::NvmInstalled(Ok(())));
            &&& s1.nvm_installed == s.nvm_installed
            &&& r1.phase is VerifyingNvm
            &&& spec_step(s1, r1, BootstrapEvent::NvmChecked(true)).0.nvm_installed
            &&& spec_step(s1, r1, BootstrapEvent::NvmChecked(false)).1.phase == RunPhase::Failed(
                Error::InstallVerificationFailed(Toolchain::VersionManager),
            )
            &&& !spec_step(s1, r1, BootstrapEvent::NvmChecked(false)).0.setup_completed
        }),
{
}

/// Law: the runtime installer's clean exit is never trusted — the run re-runs
/// the version check, and only seeing the pinned version confirms the
/// runtime; any other version, or a failed check, fails the run with the
/// verification-tagged error.
pub proof fn lemma_node_install_verified(
    s: EnvironmentState,
    run: BootstrapRun,
    version: String,
    probe_err: String,
)
    requires
        run.phase is InstallingNode,
    ensures
        ({
            let (s1, r1) = spec_step(s, run, BootstrapEvent::NodeInstalled(Ok(())));
            &&& s1.node_installed == s.node_installed
            &&& r1.phase is VerifyingNode
            &&& (version@ == NODE_VERSION@ ==> spec_step(
                s1,
                r1,
                BootstrapEvent::NodeVersionChecked(Ok(version)),
            ).0.node_installed)
            &&& (version@ != NODE_VERSION@ ==> spec_step(
                s1,
                r1,
                BootstrapEvent::NodeVersionChecked(Ok(version)),
            ).1.phase == RunPhase::Failed(Error::InstallVerificationFailed(Toolchain::Runtime)))
            &&& spec_step(s1, r1, BootstrapEvent::NodeVersionChecked(Err(probe_err))).1.phase
                == RunPhase::Failed(Error::InstallVerificationFailed(Toolchain::Runtime))
        }),
{
}

} // verus!
