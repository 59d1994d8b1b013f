use rinit::commands::{CommandError, EnableCommand, StartCommand};
use rinit::sequence::{EnableAction, EnableState, Outcome, StartAction, StartState};
use rinit::sequence::EnableAction as E;
use rinit::sequence::StartAction as S;
use rinit::sequence::StopAction as P;

fn enable(services: &[&str], atomic: bool, start: bool, stop_at_errors: bool) -> EnableCommand {
    EnableCommand {
        services: services.iter().map(|s| s.to_string()).collect(),
        atomic_changes: atomic,
        start,
        stop_at_errors,
    }
}

/// Runs the enable command's course with the outcomes given, in order, for
/// the actions that can fail, and returns the actions taken.
fn run_enable(cmd: &EnableCommand, mut outcomes: Vec<Outcome>) -> Vec<EnableAction> {
    outcomes.reverse();
    let mut state = EnableState::new();
    let mut outcome = Outcome::Done;
    let mut actions = Vec::new();
    loop {
        let (next, action) = cmd.next(state, outcome);
        state = next;
        actions.push(action);
        match action {
            EnableAction::Abort | EnableAction::Finish(_) => return actions,
            EnableAction::LoadGraph
            | EnableAction::AddAll
            | EnableAction::AddService(_)
            | EnableAction::SaveGraph
            | EnableAction::Connect
            | EnableAction::ReloadGraph
            | EnableAction::StartService(_) => {
                outcome = outcomes.pop().unwrap_or(Outcome::Done);
            }
            _ => outcome = Outcome::Done,
        }
    }
}

#[test]
fn enable_refuses_duplicates() {
    let cmd = enable(&["a", "a"], false, false, false);
    assert_eq!(run_enable(&cmd, vec![]),
        vec![EnableAction::Finish(Err(CommandError::DuplicatedService))]);
}

#[test]
fn enable_atomic_with_start() {
    let cmd = enable(&["a", "b"], true, true, false);
    assert_eq!(run_enable(&cmd, vec![]), vec![
        E::LoadGraph, E::AddAll, E::SaveGraph, E::AnnounceAllEnabled, E::Connect, E::ReloadGraph,
        E::StartService(0), E::AnnounceStarted(0), E::StartService(1), E::AnnounceStarted(1),
        E::Finish(Ok(())),
    ]);
}

#[test]
fn enable_atomic_refused_start_fails_at_end() {
    let cmd = enable(&["a", "b"], true, true, false);
    let outcomes = vec![Outcome::Done, Outcome::Done, Outcome::Done, Outcome::Done,
        Outcome::Done, Outcome::Declined, Outcome::Done];
    assert_eq!(run_enable(&cmd, outcomes), vec![
        E::LoadGraph, E::AddAll, E::SaveGraph, E::AnnounceAllEnabled, E::Connect, E::ReloadGraph,
        E::StartService(0), E::AnnounceStartFailed(0), E::StartService(1), E::AnnounceStarted(1),
        E::Finish(Err(CommandError::OperationFailed)),
    ]);
}

#[test]
fn enable_atomic_without_daemon() {
    let outcomes = vec![Outcome::Done, Outcome::Done, Outcome::Done, Outcome::Failed];
    assert_eq!(run_enable(&enable(&["a"], true, true, false), outcomes.clone()), vec![
        E::LoadGraph, E::AddAll, E::SaveGraph, E::AnnounceAllEnabled, E::Connect,
        E::Finish(Err(CommandError::CannotStartWithoutDaemon)),
    ]);
    assert_eq!(run_enable(&enable(&["a"], true, false, false), outcomes), vec![
        E::LoadGraph, E::AddAll, E::SaveGraph, E::AnnounceAllEnabled, E::Connect, E::Finish(Ok(())),
    ]);
}

#[test]
fn enable_atomic_add_failure_aborts() {
    let cmd = enable(&["a"], true, false, false);
    assert_eq!(run_enable(&cmd, vec![Outcome::Done, Outcome::Failed]),
        vec![E::LoadGraph, E::AddAll, E::Abort]);
}

#[test]
fn enable_one_by_one() {
    let cmd = enable(&["a", "b"], false, true, false);
    assert_eq!(run_enable(&cmd, vec![]), vec![
        E::LoadGraph, E::Connect,
        E::AddService(0), E::SaveGraph, E::AnnounceEnabled(0), E::ReloadGraph, E::StartService(0), E::AnnounceStarted(0),
        E::AddService(1), E::SaveGraph, E::AnnounceEnabled(1), E::ReloadGraph, E::StartService(1), E::AnnounceStarted(1),
        E::Finish(Ok(())),
    ]);
}

#[test]
fn enable_one_by_one_without_daemon() {
    let cmd = enable(&["a"], false, true, false);
    assert_eq!(run_enable(&cmd, vec![Outcome::Done, Outcome::Failed]), vec![
        E::LoadGraph, E::Connect, E::WarnNoStart, E::AddService(0), E::SaveGraph, E::AnnounceEnabled(0),
        E::Finish(Ok(())),
    ]);
    let cmd = enable(&["a"], false, false, false);
    assert_eq!(run_enable(&cmd, vec![Outcome::Done, Outcome::Failed]), vec![
        E::LoadGraph, E::Connect, E::AddService(0), E::SaveGraph, E::AnnounceEnabled(0), E::Finish(Ok(())),
    ]);
}

#[test]
fn enable_one_by_one_add_failure() {
    let outcomes = vec![Outcome::Done, Outcome::Done, Outcome::Failed];
    assert_eq!(run_enable(&enable(&["a", "b"], false, false, true), outcomes.clone()), vec![
        E::LoadGraph, E::Connect, E::AddService(0), E::Abort,
    ]);
    assert_eq!(run_enable(&enable(&["a", "b"], false, false, false), outcomes), vec![
        E::LoadGraph, E::Connect,
        E::AddService(0), E::SaveGraph, E::AnnounceEnabled(0), E::ReloadGraph,
        E::AddService(1), E::SaveGraph, E::AnnounceEnabled(1), E::ReloadGraph,
        E::Finish(Err(CommandError::OperationFailed)),
    ]);
}

#[test]
fn enable_one_by_one_start_failure() {
    let outcomes = vec![Outcome::Done, Outcome::Done, Outcome::Done, Outcome::Done,
        Outcome::Done, Outcome::Failed];
    assert_eq!(run_enable(&enable(&["a"], false, true, true), outcomes.clone()), vec![
        E::LoadGraph, E::Connect, E::AddService(0), E::SaveGraph, E::AnnounceEnabled(0), E::ReloadGraph,
        E::StartService(0), E::ShowStartError(0), E::Finish(Ok(())),
    ]);
    assert_eq!(run_enable(&enable(&["a"], false, true, false), outcomes), vec![
        E::LoadGraph, E::Connect, E::AddService(0), E::SaveGraph, E::AnnounceEnabled(0), E::ReloadGraph,
        E::StartService(0), E::AnnounceStartFailed(0), E::Finish(Err(CommandError::OperationFailed)),
    ]);
}

#[test]
fn enable_save_failure_aborts() {
    let cmd = enable(&["a"], false, false, false);
    assert_eq!(run_enable(&cmd, vec![Outcome::Done, Outcome::Done, Outcome::Done, Outcome::Failed]),
        vec![E::LoadGraph, E::Connect, E::AddService(0), E::SaveGraph, E::Abort]);
}

fn run_start(cmd: &StartCommand, mut outcomes: Vec<Outcome>) -> Vec<StartAction> {
    outcomes.reverse();
    let mut state = StartState::new();
    let mut outcome = Outcome::Done;
    let mut actions = Vec::new();
    loop {
        let (next, action) = cmd.next(state, outcome);
        state = next;
        actions.push(action);
        match action {
            StartAction::Abort | StartAction::Finish(_) => return actions,
            StartAction::Connect | StartAction::StartService(_) => {
                outcome = outcomes.pop().unwrap_or(Outcome::Done)
            }
            _ => outcome = Outcome::Done,
        }
    }
}

fn start(services: &[&str]) -> StartCommand {
    StartCommand { services: services.iter().map(|s| s.to_string()).collect() }
}

#[test]
fn start_runs_each_service() {
    assert_eq!(run_start(&start(&["a", "b"]), vec![]), vec![
        S::Connect, S::StartService(0), S::AnnounceStarted(0), S::StartService(1), S::AnnounceStarted(1),
        S::Finish(Ok(())),
    ]);
    assert_eq!(run_start(&start(&[]), vec![]), vec![S::Connect, S::Finish(Ok(()))]);
}

#[test]
fn start_refusal_fails_at_end() {
    assert_eq!(run_start(&start(&["a", "b"]), vec![Outcome::Done, Outcome::Declined]), vec![
        S::Connect, S::StartService(0), S::AnnounceFailed(0), S::StartService(1), S::AnnounceStarted(1),
        S::Finish(Err(CommandError::StartFailed)),
    ]);
}

#[test]
fn start_errors_abort() {
    assert_eq!(run_start(&start(&["a", "b"]), vec![Outcome::Failed]), vec![S::Connect, S::Abort]);
    assert_eq!(run_start(&start(&["a", "b"]), vec![Outcome::Done, Outcome::Failed]),
        vec![S::Connect, S::StartService(0), S::Abort]);
    assert_eq!(run_start(&start(&["a", "a"]), vec![]),
        vec![S::Finish(Err(CommandError::DuplicatedService))]);
}

fn run_stop(cmd: &rinit::commands::StopCommand, mut outcomes: Vec<Outcome>) -> Vec<rinit::sequence::StopAction> {
    outcomes.reverse();
    let mut state = rinit::sequence::StopState::new();
    let mut outcome = Outcome::Done;
    let mut actions = Vec::new();
    loop {
        let (next, action) = cmd.next(state, outcome);
        state = next;
        actions.push(action);
        match action {
            rinit::sequence::StopAction::Abort | rinit::sequence::StopAction::Finish(_) => return actions,
            rinit::sequence::StopAction::Connect | rinit::sequence::StopAction::StopService(_) => {
                outcome = outcomes.pop().unwrap_or(Outcome::Done)
            }
            _ => outcome = Outcome::Done,
        }
    }
}

fn stop(services: &[&str]) -> rinit::commands::StopCommand {
    rinit::commands::StopCommand {
        runlevel: rinit::target::Target::Default,
        services: services.iter().map(|s| s.to_string()).collect(),
    }
}

#[test]
fn stop_reports_each_answer_and_succeeds() {
    assert_eq!(run_stop(&stop(&["a", "b"]), vec![Outcome::Done, Outcome::Declined, Outcome::Done]), vec![
        P::Connect, P::StopService(0), P::AnnounceStopFailed(0), P::StopService(1),
        P::AnnounceStopped(1), P::Finish(Ok(())),
    ]);
}

#[test]
fn stop_errors() {
    assert_eq!(run_stop(&stop(&["a"]), vec![Outcome::Failed]), vec![P::Connect, P::Abort]);
    assert_eq!(run_stop(&stop(&["a", "b"]), vec![Outcome::Done, Outcome::Failed]),
        vec![P::Connect, P::StopService(0), P::Abort]);
    assert_eq!(run_stop(&stop(&["a", "a"]), vec![]),
        vec![P::Finish(Err(CommandError::DuplicatedService))]);
    assert_eq!(run_stop(&stop(&[]), vec![]), vec![P::Connect, P::Finish(Ok(()))]);
}
