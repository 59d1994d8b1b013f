use rinit::handler::{
    keep_serving_after_send, next_action, NextAction,
    event_action, on_receive, plan_request, shutdown_request, EventAction, Notice, Received,
    ReplyKind, Step, StreamAction,
};
use rinit::mode::Mode;
use rinit::pid1::FinalAction;
use rinit::request::{IdleServiceState, Request, SystemAction};
use rinit::target::Target;

fn started(steps: &[Step]) -> Vec<Target> {
    steps
        .iter()
        .filter_map(|s| match s {
            Step::StartTarget(t) => Some(*t),
            _ => None,
        })
        .collect()
}

fn stopped(steps: &[Step]) -> Vec<Target> {
    steps
        .iter()
        .filter_map(|s| match s {
            Step::StopTarget(t) => Some(*t),
            _ => None,
        })
        .collect()
}

#[test]
fn services_status_collects_states() {
    let plan = plan_request(Request::ServicesStatus, Mode::User);
    assert!(matches!(plan.steps.as_slice(), [Step::CollectStates]));
    assert!(matches!(plan.reply, ReplyKind::ServicesStates));
}

#[test]
fn service_status_waits_for_idle() {
    let plan = plan_request(Request::ServiceStatus("sshd".to_string()), Mode::Root);
    assert!(matches!(plan.steps.as_slice(),
        [Step::LookUp(a), Step::AwaitIdle(s)] if a == "sshd" && s == "sshd"));
    assert!(matches!(plan.reply, ReplyKind::ServiceState(ref s) if s == "sshd"));
}

#[test]
fn start_service_starts_then_waits() {
    let plan = plan_request(Request::StartService { service: "a".to_string() }, Mode::User);
    assert!(matches!(plan.steps.as_slice(),
        [Step::LookUp(l), Step::StartService(x), Step::LookUp(m), Step::AwaitIdle(y)]
        if l == "a" && x == "a" && m == "a" && y == "a"));
    assert!(matches!(plan.reply, ReplyKind::Success));
}

#[test]
fn stop_service_stops_then_waits() {
    let plan = plan_request(Request::StopService { service: "b".to_string() }, Mode::User);
    assert!(matches!(plan.steps.as_slice(),
        [Step::LookUp(l), Step::StopService(x), Step::LookUp(m), Step::AwaitIdle(y)]
        if l == "b" && x == "b" && m == "b" && y == "b"));
    assert!(matches!(plan.reply, ReplyKind::Success));
}

#[test]
fn start_all_as_root_starts_boot_first() {
    let plan = plan_request(Request::StartAllServices, Mode::Root);
    assert_eq!(started(&plan.steps), vec![Target::Boot, Target::Default]);
    assert!(matches!(plan.steps[0], Step::Announce(Notice::BootTargetStarting)));
    assert!(matches!(plan.steps[5], Step::Announce(Notice::DefaultTargetDone)));
    assert_eq!(plan.steps.len(), 6);
    assert!(matches!(plan.reply, ReplyKind::Empty));
}

#[test]
fn start_all_as_user_starts_default_only() {
    let plan = plan_request(Request::StartAllServices, Mode::User);
    assert_eq!(started(&plan.steps), vec![Target::Default]);
    assert_eq!(plan.steps.len(), 3);
    let plan = plan_request(Request::StartAllServices, Mode::Project);
    assert_eq!(started(&plan.steps), vec![Target::Default]);
}

#[test]
fn stop_all_reverses_start_all() {
    for mode in [Mode::Root, Mode::User, Mode::Project] {
        let start = plan_request(Request::StartAllServices, mode);
        let stop = plan_request(Request::StopAllServices { action: SystemAction::Halt }, mode);
        let mut s = started(&start.steps);
        s.reverse();
        assert_eq!(stopped(&stop.steps), s);
    }
}

#[test]
fn stop_all_records_final_action_first() {
    let plan = plan_request(Request::StopAllServices { action: SystemAction::Reboot }, Mode::Root);
    assert!(matches!(plan.steps[0], Step::SetFinalAction(FinalAction::Reboot)));
    assert!(matches!(plan.steps[1], Step::StopListening));
    assert_eq!(stopped(&plan.steps), vec![Target::Default, Target::Boot]);
    assert!(matches!(plan.reply, ReplyKind::Empty));
}

#[test]
fn reload_graph_plan() {
    let plan = plan_request(Request::ReloadGraph, Mode::User);
    assert!(matches!(plan.steps.as_slice(), [Step::ReloadGraph]));
    assert!(matches!(plan.reply, ReplyKind::Empty));
}

#[test]
fn down_report_refreshes_service() {
    let plan = plan_request(
        Request::UpdateServiceStatus("x".to_string(), IdleServiceState::Down),
        Mode::User,
    );
    assert!(matches!(plan.steps.as_slice(),
        [Step::UpdateServiceState(a, IdleServiceState::Down), Step::UpdateService(b)]
        if a == "x" && b == "x"));
    let plan = plan_request(
        Request::UpdateServiceStatus("x".to_string(), IdleServiceState::Up),
        Mode::User,
    );
    assert!(matches!(plan.steps.as_slice(),
        [Step::UpdateServiceState(a, IdleServiceState::Up)] if a == "x"));
}

#[test]
fn events_stop_after_stop_all() {
    let r = Request::StopAllServices { action: SystemAction::Poweroff };
    assert_eq!(event_action(&r), EventAction::HandleThenStop(FinalAction::Poweroff));
    assert_eq!(event_action(&Request::ReloadGraph), EventAction::Spawn);
    assert_eq!(event_action(&Request::StartAllServices), EventAction::Spawn);
}

#[test]
fn shutdown_request_carries_the_signal_action() {
    for f in [FinalAction::Poweroff, FinalAction::Reboot, FinalAction::Halt] {
        let r = shutdown_request(f);
        assert_eq!(event_action(&r), EventAction::HandleThenStop(f));
    }
    assert!(matches!(shutdown_request(FinalAction::Reboot),
        Request::StopAllServices { action: SystemAction::Reboot }));
}

#[test]
fn receive_outcomes() {
    assert!(matches!(on_receive(Received::Message(Request::ReloadGraph)),
        StreamAction::Handle(Request::ReloadGraph)));
    assert!(matches!(on_receive(Received::Closed), StreamAction::Finish));
    assert!(matches!(on_receive(Received::ReceiveFailed { terminated: true }), StreamAction::Finish));
    assert!(matches!(on_receive(Received::ReceiveFailed { terminated: false }), StreamAction::Fail));
    assert!(matches!(on_receive(Received::DeserializeFailed), StreamAction::Fail));
    assert!(matches!(on_receive(Received::MissingPorts), StreamAction::Fail));
    assert!(matches!(on_receive(Received::ItemTooLarge), StreamAction::Fail));
}

#[test]
fn notice_texts() {
    assert_eq!(Notice::BootTargetStarting.text(), "StartAllServices: Boot target");
    assert_eq!(Notice::BootTargetDone.text(), "StartAllServices: Boot done");
    assert_eq!(Notice::DefaultTargetStarting.text(), "StartAllServices: Default target");
    assert_eq!(Notice::DefaultTargetDone.text(), "StartAllServices: Default done");
}

#[test]
fn failed_lookup_ends_request() {
    for req in [
        Request::ServiceStatus("s".to_string()),
        Request::StartService { service: "s".to_string() },
        Request::StopService { service: "s".to_string() },
    ] {
        let plan = plan_request(req, Mode::User);
        assert_eq!(next_action(&plan, 0, true), NextAction::Perform(0));
        assert!(matches!(plan.steps[0], Step::LookUp(_)));
        assert_eq!(next_action(&plan, 1, false), NextAction::Fail);
    }
}

#[test]
fn failed_start_is_the_reply() {
    let plan = plan_request(Request::StartService { service: "s".to_string() }, Mode::User);
    assert_eq!(next_action(&plan, 1, true), NextAction::Perform(1));
    assert_eq!(next_action(&plan, 2, false), NextAction::Fail);
    assert_eq!(next_action(&plan, 2, true), NextAction::Perform(2));
    assert_eq!(next_action(&plan, 4, true), NextAction::Finish);
}

#[test]
fn socket_close_failure_is_ignored() {
    let plan = plan_request(Request::StopAllServices { action: SystemAction::Halt }, Mode::Root);
    assert_eq!(next_action(&plan, 2, false), NextAction::Perform(2));
    assert_eq!(next_action(&plan, 4, true), NextAction::Finish);
    assert!(!plan.steps[1].aborts_on_failure());
}

#[test]
fn failed_state_record_skips_refresh() {
    let plan = plan_request(
        Request::UpdateServiceStatus("x".to_string(), IdleServiceState::Down),
        Mode::User,
    );
    assert_eq!(next_action(&plan, 1, false), NextAction::Fail);
    assert_eq!(next_action(&plan, 1, true), NextAction::Perform(1));
    assert!(plan.steps[1].needs_exclusive_access());
    assert!(!plan.steps[0].needs_exclusive_access());
}

#[test]
fn failed_reload_is_the_reply() {
    let plan = plan_request(Request::ReloadGraph, Mode::User);
    assert!(plan.steps[0].needs_exclusive_access());
    assert_eq!(next_action(&plan, 1, false), NextAction::Fail);
    assert_eq!(next_action(&plan, 1, true), NextAction::Finish);
}

#[test]
fn targets_and_notices_never_abort() {
    let plan = plan_request(Request::StartAllServices, Mode::Root);
    for k in 1..=plan.steps.len() {
        let expected = if k < plan.steps.len() { NextAction::Perform(k) } else { NextAction::Finish };
        assert_eq!(next_action(&plan, k, false), expected);
    }
}

#[test]
fn failed_send_ends_connection() {
    assert!(keep_serving_after_send(true));
    assert!(!keep_serving_after_send(false));
}
