//! Init supervisor: the process-lifecycle state machine. Boot-time setup
//! is followed by a split into two independent control flows — the parent
//! hands off to the real init (terminal success), the child revalidates
//! GPU state forever — with any failure anywhere fatal to the process
//! carrying that role. The surrounding binary performs the outside work
//! (file reads, subprocesses, the process split, the blocking wait for a
//! device event) and reports each outcome as an event.

use vstd::prelude::*;

use crate::check_supported::allow_list_view;
use crate::check_supported::check_gpu_supported;
use crate::check_supported::gate_spec;
use crate::query_cc_mode::CcModeError;
use crate::query_cc_mode::classify_spec;
use crate::query_cc_mode::inconsistency_witness;
use crate::query_cc_mode::mode_str;
use crate::query_cc_mode::query_gpu_cc_mode;
use crate::query_cc_mode::uniform_mode;

verus! {

/// States of the init supervisor.
#[derive(Clone, Copy, Debug, PartialEq, Eq, Structural)]
pub enum SupervisorState {
    /// Boot-time setup: parameters parsed, CPU vendor detected, one
    /// diagnostic enumeration pass run.
    Bootstrap,
    /// The process is being duplicated into two independent control
    /// flows sharing no state.
    Split,
    /// The parent has replaced its image with the real init: terminal
    /// success, the permanent path for the rest of the host's lifetime.
    ParentHandoff,
    /// The child revalidates and reprovisions GPU state on every device
    /// topology change, forever.
    ChildSuperviseLoop,
    /// A fatal condition: terminal, with no recovery or retry.
    Fatal,
}

/// Events the surrounding process reports to the state machine.
#[derive(Clone, Copy, Debug, PartialEq, Eq, Structural)]
pub enum SupervisorEvent {
    /// Bootstrap finished without a fatal error.
    BootstrapSucceeded,
    /// Bootstrap hit a fatal error: an I/O failure, an undetected CPU
    /// vendor, or a CC-mode inconsistency.
    BootstrapFailed,
    /// The process was duplicated and this is the parent flow.
    SplitParent,
    /// The process was duplicated and this is the child flow.
    SplitChild,
    /// Duplicating the process failed.
    SplitFailed,
    /// One revalidation pass of the child finished without failure.
    RevalidationPassed,
    /// A revalidation pass failed: inconsistent CC mode, an unsupported
    /// GPU, or a provisioning failure.
    RevalidationFailed,
}

/// The transition function of the supervisor. The two terminal states
/// absorb every event; everywhere else the expected outcomes advance the
/// machine and any other event is a fatal condition.
pub open spec fn step_spec(state: SupervisorState, event: SupervisorEvent) -> SupervisorState {
    match state {
        SupervisorState::Bootstrap => match event {
            SupervisorEvent::BootstrapSucceeded => SupervisorState::Split,
            _ => SupervisorState::Fatal,
        },
        SupervisorState::Split => match event {
            SupervisorEvent::SplitParent => SupervisorState::ParentHandoff,
            SupervisorEvent::SplitChild => SupervisorState::ChildSuperviseLoop,
            _ => SupervisorState::Fatal,
        },
        SupervisorState::ParentHandoff => SupervisorState::ParentHandoff,
        SupervisorState::ChildSuperviseLoop => match event {
            SupervisorEvent::RevalidationPassed => SupervisorState::ChildSuperviseLoop,
            _ => SupervisorState::Fatal,
        },
        SupervisorState::Fatal => SupervisorState::Fatal,
    }
}

/// Advances the supervisor by one reported event.
pub fn supervisor_step(state: SupervisorState, event: SupervisorEvent) -> (r: SupervisorState)
    ensures
        r == step_spec(state, event),
{
    match state {
        SupervisorState::Bootstrap => match event {
            SupervisorEvent::BootstrapSucceeded => SupervisorState::Split,
            _ => SupervisorState::Fatal,
        },
        SupervisorState::Split => match event {
            SupervisorEvent::SplitParent => SupervisorState::ParentHandoff,
            SupervisorEvent::SplitChild => SupervisorState::ChildSuperviseLoop,
            _ => SupervisorState::Fatal,
        },
        SupervisorState::ParentHandoff => SupervisorState::ParentHandoff,
        SupervisorState::ChildSuperviseLoop => match event {
            SupervisorEvent::RevalidationPassed => SupervisorState::ChildSuperviseLoop,
            _ => SupervisorState::Fatal,
        },
        SupervisorState::Fatal => SupervisorState::Fatal,
    }
}

/// Handoff is permanent: once the parent has become the real init, no
/// event moves the machine anywhere else.
pub proof fn lemma_parent_handoff_terminal(event: SupervisorEvent)
    ensures
        step_spec(SupervisorState::ParentHandoff, event) == SupervisorState::ParentHandoff,
{
}

/// A fatal condition is permanent: there is no retry, backoff or partial
/// recovery anywhere.
pub proof fn lemma_fatal_terminal(event: SupervisorEvent)
    ensures
        step_spec(SupervisorState::Fatal, event) == SupervisorState::Fatal,
{
}

/// The child never hands off: from the supervise loop only the loop
/// itself or a fatal end is reachable.
pub proof fn lemma_child_loops_or_dies(event: SupervisorEvent)
    ensures
        step_spec(SupervisorState::ChildSuperviseLoop, event)
            == SupervisorState::ChildSuperviseLoop || step_spec(
            SupervisorState::ChildSuperviseLoop,
            event,
        ) == SupervisorState::Fatal,
{
}

/// What the boot-time validation pass observed, for logging only.
#[derive(Debug)]
pub struct BootReport {
    /// The CC mode all GPUs agreed on.
    pub cc_mode: String,
    /// The support decision — computed at boot but deliberately not
    /// enforced there, an asymmetry preserved from deployed behavior.
    pub supported: bool,
}

/// The boot-time validation pass over one enumeration.
///
/// With no GPUs discovered nothing runs and nothing is reported. With
/// GPUs, the CC-mode resolver must succeed — an inconsistency is fatal
/// even at boot — and the support gate is computed for the report only,
/// never enforced here.
pub fn boot_validation(
    gpu_bdfs: &Vec<String>,
    gpu_devids: &Vec<String>,
    query_outputs: &Vec<String>,
    allow_list: Option<&Vec<String>>,
) -> (r: Result<Option<BootReport>, CcModeError>)
    requires
        gpu_bdfs@.len() == query_outputs@.len(),
    ensures
        match r {
            Ok(report) => match report {
                None => gpu_bdfs@.len() == 0,
                Some(rep) => gpu_bdfs@.len() > 0 && uniform_mode(query_outputs.deep_view())
                    && rep.cc_mode@ == mode_str(classify_spec(query_outputs.deep_view()[0]))
                    && rep.supported == gate_spec(
                    gpu_devids.deep_view(),
                    allow_list_view(allow_list),
                ),
            },
            Err(e) => gpu_bdfs@.len() > 0 && match e {
                CcModeError::NoGpus => false,
                CcModeError::Inconsistent { bus_address, found, expected } => inconsistency_witness(
                    gpu_bdfs.deep_view(),
                    query_outputs.deep_view(),
                    bus_address@,
                    found@,
                    expected@,
                ),
            },
        },
{
    if gpu_bdfs.len() == 0 {
        return Ok(None);
    }
    let cc_mode = match query_gpu_cc_mode(gpu_bdfs, query_outputs) {
        Ok(m) => m,
        Err(e) => {
            return Err(e);
        },
    };
    let supported = check_gpu_supported(gpu_devids, allow_list);
    Ok(Some(BootReport { cc_mode, supported }))
}

/// Error that fatally ends the child's supervisory process.
#[derive(Debug)]
pub enum SupervisorError {
    /// CC-mode resolution failed: no GPUs were found, or two GPUs
    /// reported different modes.
    CcMode(CcModeError),
    /// A discovered GPU is not on the allow-list, or the allow-list file
    /// is missing: enforced here, unlike at boot.
    UnsupportedGpu,
}

/// One revalidation pass of the supervise loop, over a fresh enumeration.
///
/// The CC mode must resolve — finding no GPUs at all is fatal here, as is
/// an inconsistency — and the support gate is enforced: a false decision
/// is the fatal unsupported-GPU error. On success the pass yields the
/// resolved mode, and provisioning follows.
pub fn revalidate_decision(
    gpu_bdfs: &Vec<String>,
    gpu_devids: &Vec<String>,
    query_outputs: &Vec<String>,
    allow_list: Option<&Vec<String>>,
) -> (r: Result<String, SupervisorError>)
    requires
        gpu_bdfs@.len() == query_outputs@.len(),
    ensures
        match r {
            Ok(mode) => query_outputs@.len() > 0 && uniform_mode(query_outputs.deep_view())
                && mode@ == mode_str(classify_spec(query_outputs.deep_view()[0])) && gate_spec(
                gpu_devids.deep_view(),
                allow_list_view(allow_list),
            ),
            Err(e) => match e {
                SupervisorError::CcMode(ce) => match ce {
                    CcModeError::NoGpus => query_outputs@.len() == 0,
                    CcModeError::Inconsistent {
                        bus_address,
                        found,
                        expected,
                    } => inconsistency_witness(
                        gpu_bdfs.deep_view(),
                        query_outputs.deep_view(),
                        bus_address@,
                        found@,
                        expected@,
                    ),
                },
                SupervisorError::UnsupportedGpu => query_outputs@.len() > 0 && uniform_mode(
                    query_outputs.deep_view(),
                ) && !gate_spec(gpu_devids.deep_view(), allow_list_view(allow_list)),
            },
        },
{
    let cc_mode = match query_gpu_cc_mode(gpu_bdfs, query_outputs) {
        Ok(m) => m,
        Err(e) => {
            return Err(SupervisorError::CcMode(e));
        },
    };
    let supported = check_gpu_supported(gpu_devids, allow_list);
    if !supported {
        return Err(SupervisorError::UnsupportedGpu);
    }
    Ok(cc_mode)
}

} // verus!

