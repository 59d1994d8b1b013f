use vstd::prelude::*;
use crate::request::SystemAction;

verus! {

/// What the daemon does when it exits as PID 1.
#[derive(Debug, Clone, Copy, PartialEq, Eq, Structural)]
pub enum FinalAction {
    Poweroff,
    Reboot,
    Halt,
}

/// The final action that a requested system action calls for.
pub open spec fn final_of(action: SystemAction) -> FinalAction {
    match action {
        SystemAction::Poweroff => FinalAction::Poweroff,
        SystemAction::Reboot => FinalAction::Reboot,
        SystemAction::Halt => FinalAction::Halt,
    }
}

/// The system action that is requested to reach a final action.
pub open spec fn system_action_of(action: FinalAction) -> SystemAction {
    match action {
        FinalAction::Poweroff => SystemAction::Poweroff,
        FinalAction::Reboot => SystemAction::Reboot,
        FinalAction::Halt => SystemAction::Halt,
    }
}

/// The final action that a requested system action calls for.
pub fn to_final(action: SystemAction) -> (f: FinalAction)
    ensures
        f == final_of(action),
{
    match action {
        SystemAction::Poweroff => FinalAction::Poweroff,
        SystemAction::Reboot => FinalAction::Reboot,
        SystemAction::Halt => FinalAction::Halt,
    }
}

/// The system action to request so that the daemon ends with `action`.
pub fn to_system_action(action: FinalAction) -> (a: SystemAction)
    ensures
        a == system_action_of(action),
{
    match action {
        FinalAction::Poweroff => SystemAction::Poweroff,
        FinalAction::Reboot => SystemAction::Reboot,
        FinalAction::Halt => SystemAction::Halt,
    }
}

/// Requesting the system action of a final action leads back to that final
/// action, and the other way round.
pub proof fn lemma_final_action_roundtrip(f: FinalAction, a: SystemAction)
    ensures
        final_of(system_action_of(f)) == f,
        system_action_of(final_of(a)) == a,
{
}

/// The signals that the daemon waits for.
#[derive(Debug, Clone, Copy, PartialEq, Eq, Structural)]
pub enum ShutdownSignal {
    Interrupt,
    Terminate,
    User1,
    User2,
}

/// The final action that each signal asks for: SIGUSR1 reboots, the others
/// power off.
pub open spec fn signal_action_spec(signal: ShutdownSignal) -> FinalAction {
    match signal {
        ShutdownSignal::User1 => FinalAction::Reboot,
        _ => FinalAction::Poweroff,
    }
}

/// The final action that a received signal asks for.
pub fn signal_action(signal: ShutdownSignal) -> (f: FinalAction)
    ensures
        f == signal_action_spec(signal),
{
    match signal {
        ShutdownSignal::Interrupt => FinalAction::Poweroff,
        ShutdownSignal::Terminate => FinalAction::Poweroff,
        ShutdownSignal::User1 => FinalAction::Reboot,
        ShutdownSignal::User2 => FinalAction::Poweroff,
    }
}

/// How the kernel is asked to end the system.
#[derive(Debug, Clone, Copy, PartialEq, Eq, Structural)]
pub enum RebootMode {
    PowerOff,
    Autoboot,
    HaltSystem,
}

/// The kernel's reboot mode for each final action.
pub open spec fn reboot_mode_spec(action: FinalAction) -> RebootMode {
    match action {
        FinalAction::Poweroff => RebootMode::PowerOff,
        FinalAction::Reboot => RebootMode::Autoboot,
        FinalAction::Halt => RebootMode::HaltSystem,
    }
}

/// The kernel's reboot mode that carries out a final action.
pub fn reboot_mode(action: FinalAction) -> (m: RebootMode)
    ensures
        m == reboot_mode_spec(action),
{
    match action {
        FinalAction::Poweroff => RebootMode::PowerOff,
        FinalAction::Reboot => RebootMode::Autoboot,
        FinalAction::Halt => RebootMode::HaltSystem,
    }
}

/// Distinct final actions end the system in distinct ways.
pub proof fn lemma_reboot_mode_injective(a: FinalAction, b: FinalAction)
    requires
        reboot_mode_spec(a) == reboot_mode_spec(b),
    ensures
        a == b,
{
}

/// What one non-blocking wait for any child reported.
#[derive(Debug, Clone, Copy, PartialEq, Eq, Structural)]
pub enum WaitOutcome {
    /// Children exist but none has exited.
    StillAlive,
    /// A child was reaped.
    Reaped,
    /// There is no child left.
    NoChild,
    /// The wait was interrupted by a signal.
    Interrupted,
    /// Any other error.
    Failed,
}

/// What the reaper does after one wait.
#[derive(Debug, Clone, Copy, PartialEq, Eq, Structural)]
pub enum ReapStep {
    /// Wait again at once.
    WaitAgain,
    /// Go back to sleep until the next SIGCHLD.
    Sleep,
}

/// The reaper keeps waiting while children are reaped or the wait was
/// interrupted, and sleeps otherwise.
pub open spec fn reap_step_spec(outcome: WaitOutcome) -> ReapStep {
    match outcome {
        WaitOutcome::Reaped => ReapStep::WaitAgain,
        WaitOutcome::Interrupted => ReapStep::WaitAgain,
        _ => ReapStep::Sleep,
    }
}

/// What the reaper does after a wait with this outcome.
pub fn reap_step(outcome: WaitOutcome) -> (s: ReapStep)
    ensures
        s == reap_step_spec(outcome),
{
    match outcome {
        WaitOutcome::StillAlive => ReapStep::Sleep,
        WaitOutcome::Reaped => ReapStep::WaitAgain,
        WaitOutcome::NoChild => ReapStep::Sleep,
        WaitOutcome::Interrupted => ReapStep::WaitAgain,
        WaitOutcome::Failed => ReapStep::Sleep,
    }
}

/// Whether a process id is the one of the init process.
pub fn pid_is_init(pid: i32) -> (b: bool)
    ensures
        b == (pid == 1),
{
    pid == 1
}

/// The id of the calling process, from `nix::unistd::getpid`. It depends on
/// the process, so nothing is claimed of it.
#[verifier::external_body]
fn current_pid() -> (pid: i32) {
    nix::unistd::getpid().as_raw()
}

/// Whether this process runs as PID 1, the init process. The answer comes
/// from the process id that the system hands out; `pid_is_init` is what
/// decides on it.
pub fn is_pid1() -> bool {
    let pid = current_pid();
    pid_is_init(pid)
}

} // verus!
