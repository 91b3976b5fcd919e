//! Toolkit provisioning: the strict sequence of external commands that
//! create the GPU device nodes and generate the CDI specification. The
//! library decides how provisioning advances; the surrounding binary runs
//! the commands and reports their outcomes.

use vstd::prelude::*;

verus! {

/// Captured result of one external provisioning command: whether it
/// exited successfully, and its output streams.
pub struct CommandOutcome {
    pub success: bool,
    pub stdout: String,
    pub stderr: String,
}

/// The provisioning phases, in their strict order.
#[derive(Clone, Copy, Debug, PartialEq, Eq, Structural)]
pub enum ProvisionPhase {
    /// Create the GPU device nodes and load the required kernel modules.
    CreateDeviceNodes,
    /// Generate the CDI specification file at its fixed path.
    GenerateCdi,
    /// Read the generated specification back for diagnostic visibility;
    /// its contents are not parsed or validated.
    ReadCdiSpec,
    /// Every provisioning step has run.
    Complete,
}

/// A provisioning step failed: the phase it failed in and the captured
/// output streams of the failing command.
#[derive(Debug)]
pub struct ToolkitError {
    pub phase: ProvisionPhase,
    pub stdout: String,
    pub stderr: String,
}

/// The phase that follows `phase` in the strict provisioning order.
pub open spec fn next_phase_spec(phase: ProvisionPhase) -> ProvisionPhase {
    match phase {
        ProvisionPhase::CreateDeviceNodes => ProvisionPhase::GenerateCdi,
        ProvisionPhase::GenerateCdi => ProvisionPhase::ReadCdiSpec,
        ProvisionPhase::ReadCdiSpec => ProvisionPhase::Complete,
        ProvisionPhase::Complete => ProvisionPhase::Complete,
    }
}

/// Advances provisioning by one command outcome. A successful command
/// moves to the next phase in the strict order; a failing one is a hard
/// failure carrying both captured streams, with no retry.
pub fn provision_step(phase: ProvisionPhase, outcome: CommandOutcome) -> (r: Result<
    ProvisionPhase,
    ToolkitError,
>)
    requires
        phase != ProvisionPhase::Complete,
    ensures
        match r {
            Ok(next) => outcome.success && next == next_phase_spec(phase),
            Err(e) => !outcome.success && e.phase == phase && e.stdout@ == outcome.stdout@
                && e.stderr@ == outcome.stderr@,
        },
{
    if outcome.success {
        let next = match phase {
            ProvisionPhase::CreateDeviceNodes => ProvisionPhase::GenerateCdi,
            ProvisionPhase::GenerateCdi => ProvisionPhase::ReadCdiSpec,
            ProvisionPhase::ReadCdiSpec => ProvisionPhase::Complete,
            ProvisionPhase::Complete => ProvisionPhase::Complete,
        };
        Ok(next)
    } else {
        Err(ToolkitError { phase, stdout: outcome.stdout, stderr: outcome.stderr })
    }
}

} // verus!
