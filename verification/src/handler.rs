use vstd::prelude::*;
use crate::mode::Mode;
use crate::pid1::{FinalAction, final_of, to_final};
use crate::request::{IdleServiceState, Request};
use crate::target::Target;

verus! {

/// A line that the daemon writes to the console while it starts targets.
#[derive(Debug, Clone, Copy, PartialEq, Eq, Structural)]
pub enum Notice {
    BootTargetStarting,
    BootTargetDone,
    DefaultTargetStarting,
    DefaultTargetDone,
}

impl Notice {
    /// The text written to the console.
    pub fn text(&self) -> (s: &'static str)
        ensures
            s@ == notice_text(*self),
    {
        match self {
            Notice::BootTargetStarting => "StartAllServices: Boot target",
            Notice::BootTargetDone => "StartAllServices: Boot done",
            Notice::DefaultTargetStarting => "StartAllServices: Default target",
            Notice::DefaultTargetDone => "StartAllServices: Default done",
        }
    }
}

/// The text of each console line.
pub open spec fn notice_text(n: Notice) -> Seq<char> {
    match n {
        Notice::BootTargetStarting => "StartAllServices: Boot target"@,
        Notice::BootTargetDone => "StartAllServices: Boot done"@,
        Notice::DefaultTargetStarting => "StartAllServices: Default target"@,
        Notice::DefaultTargetDone => "StartAllServices: Default done"@,
    }
}

/// One operation that the daemon performs on its live service graph while
/// it handles a request. The steps of a request run in order; after each
/// one, `next_action` decides whether the request goes on or ends with the
/// error of that step.
#[derive(Debug)]
pub enum Step {
    /// Read the name and current state of every service.
    CollectStates,
    /// Look the service up in the graph; the steps that follow act on the
    /// service found.
    LookUp(String),
    /// Start the service found by the preceding lookup.
    StartService(String),
    /// Stop the service found by the preceding lookup.
    StopService(String),
    /// Wait until the service found by the preceding lookup is idle.
    AwaitIdle(String),
    /// Write a line to the console.
    Announce(Notice),
    /// Start every service of a target.
    StartTarget(Target),
    /// Stop every service of a target.
    StopTarget(Target),
    /// Record what the system does once the daemon exits.
    SetFinalAction(FinalAction),
    /// Stop accepting IPC connections; a failure is only logged.
    StopListening,
    /// Reload the dependency graph from disk.
    ReloadGraph,
    /// Record the idle state that a service reported.
    UpdateServiceState(String, IdleServiceState),
    /// Refresh the service after it went down.
    UpdateService(String),
}

/// The reply that a request receives once all its steps succeeded.
#[derive(Debug)]
pub enum ReplyKind {
    /// The states read by `CollectStates`.
    ServicesStates,
    /// The named service together with the idle state it was awaited in.
    ServiceState(String),
    /// Plain success.
    Success,
    /// Nothing to report.
    Empty,
}

/// What the daemon does for a request, and how it answers.
#[derive(Debug)]
pub struct RequestPlan {
    pub steps: Vec<Step>,
    pub reply: ReplyKind,
}

/// The steps that start every target, in order: the boot target first, and
/// only when the daemon runs as root, then the default target.
pub open spec fn start_all_steps(mode: Mode) -> Seq<Step> {
    let default_part = seq![
        Step::Announce(Notice::DefaultTargetStarting),
        Step::StartTarget(Target::Default),
        Step::Announce(Notice::DefaultTargetDone),
    ];
    if mode == Mode::Root {
        seq![
            Step::Announce(Notice::BootTargetStarting),
            Step::StartTarget(Target::Boot),
            Step::Announce(Notice::BootTargetDone),
        ] + default_part
    } else {
        default_part
    }
}

/// The steps that stop every target before the system ends with `action`.
pub open spec fn stop_all_steps(action: FinalAction, mode: Mode) -> Seq<Step> {
    let common = seq![
        Step::SetFinalAction(action),
        Step::StopListening,
        Step::StopTarget(Target::Default),
    ];
    if mode == Mode::Root {
        common.push(Step::StopTarget(Target::Boot))
    } else {
        common
    }
}

/// The steps that record a reported idle state.
pub open spec fn update_steps(name: String, state: IdleServiceState) -> Seq<Step> {
    if state == IdleServiceState::Down {
        seq![Step::UpdateServiceState(name, state), Step::UpdateService(name)]
    } else {
        seq![Step::UpdateServiceState(name, state)]
    }
}

/// How the daemon handles each request when it runs in `mode`.
pub open spec fn plan_spec(request: Request, mode: Mode) -> (Seq<Step>, ReplyKind) {
    match request {
        Request::ServicesStatus => (seq![Step::CollectStates], ReplyKind::ServicesStates),
        Request::ServiceStatus(service) => (
            seq![Step::LookUp(service), Step::AwaitIdle(service)],
            ReplyKind::ServiceState(service),
        ),
        Request::StartService { service } => (
            seq![
                Step::LookUp(service),
                Step::StartService(service),
                Step::LookUp(service),
                Step::AwaitIdle(service),
            ],
            ReplyKind::Success,
        ),
        Request::StopService { service } => (
            seq![
                Step::LookUp(service),
                Step::StopService(service),
                Step::LookUp(service),
                Step::AwaitIdle(service),
            ],
            ReplyKind::Success,
        ),
        Request::StartAllServices => (start_all_steps(mode), ReplyKind::Empty),
        Request::StopAllServices { action } => (
            stop_all_steps(final_of(action), mode),
            ReplyKind::Empty,
        ),
        Request::ReloadGraph => (seq![Step::ReloadGraph], ReplyKind::Empty),
        Request::UpdateServiceStatus(name, state) => (update_steps(name, state), ReplyKind::Empty),
    }
}

fn start_all_plan(mode: Mode) -> (steps: Vec<Step>)
    ensures
        steps@ == start_all_steps(mode),
{
    let mut steps: Vec<Step> = Vec::new();
    if mode == Mode::Root {
        steps.push(Step::Announce(Notice::BootTargetStarting));
        steps.push(Step::StartTarget(Target::Boot));
        steps.push(Step::Announce(Notice::BootTargetDone));
    }
    steps.push(Step::Announce(Notice::DefaultTargetStarting));
    steps.push(Step::StartTarget(Target::Default));
    steps.push(Step::Announce(Notice::DefaultTargetDone));
    steps
}

fn stop_all_plan(action: FinalAction, mode: Mode) -> (steps: Vec<Step>)
    ensures
        steps@ == stop_all_steps(action, mode),
{
    let mut steps: Vec<Step> = Vec::new();
    steps.push(Step::SetFinalAction(action));
    steps.push(Step::StopListening);
    steps.push(Step::StopTarget(Target::Default));
    if mode == Mode::Root {
        steps.push(Step::StopTarget(Target::Boot));
    }
    steps
}

/// Works out how the daemon handles `request` when it runs in `mode`: the
/// steps it performs on the service graph, in order, and the reply it
/// sends once they all succeeded.
pub fn plan_request(request: Request, mode: Mode) -> (plan: RequestPlan)
    ensures
        (plan.steps@, plan.reply) == plan_spec(request, mode),
{
    match request {
        Request::ServicesStatus => {
            let mut steps: Vec<Step> = Vec::new();
            steps.push(Step::CollectStates);
            RequestPlan { steps, reply: ReplyKind::ServicesStates }
        },
        Request::ServiceStatus(service) => {
            let name = service.clone();
            let mut steps: Vec<Step> = Vec::new();
            steps.push(Step::LookUp(service.clone()));
            steps.push(Step::AwaitIdle(service));
            RequestPlan { steps, reply: ReplyKind::ServiceState(name) }
        },
        Request::StartService { service } => {
            let mut steps: Vec<Step> = Vec::new();
            steps.push(Step::LookUp(service.clone()));
            steps.push(Step::StartService(service.clone()));
            steps.push(Step::LookUp(service.clone()));
            steps.push(Step::AwaitIdle(service));
            RequestPlan { steps, reply: ReplyKind::Success }
        },
        Request::StopService { service } => {
            let mut steps: Vec<Step> = Vec::new();
            steps.push(Step::LookUp(service.clone()));
            steps.push(Step::StopService(service.clone()));
            steps.push(Step::LookUp(service.clone()));
            steps.push(Step::AwaitIdle(service));
            RequestPlan { steps, reply: ReplyKind::Success }
        },
        Request::StartAllServices => {
            RequestPlan { steps: start_all_plan(mode), reply: ReplyKind::Empty }
        },
        Request::StopAllServices { action } => {
            RequestPlan { steps: stop_all_plan(to_final(action), mode), reply: ReplyKind::Empty }
        },
        Request::ReloadGraph => {
            let mut steps: Vec<Step> = Vec::new();
            steps.push(Step::ReloadGraph);
            RequestPlan { steps, reply: ReplyKind::Empty }
        },
        Request::UpdateServiceStatus(name, state) => {
            let mut steps: Vec<Step> = Vec::new();
            if state == IdleServiceState::Down {
                let again = name.clone();
                steps.push(Step::UpdateServiceState(name, state));
                steps.push(Step::UpdateService(again));
            } else {
                steps.push(Step::UpdateServiceState(name, state));
            }
            RequestPlan { steps, reply: ReplyKind::Empty }
        },
    }
}

/// Whether a failure of this step ends the request with the step's error.
/// Closing the IPC socket may fail without harm (the failure is only
/// logged); writing to the console, recording the final action, starting
/// or stopping a target and waiting for a service do not fail; every other
/// step ends the request when it fails.
pub open spec fn aborts_on_failure(step: Step) -> bool {
    match step {
        Step::CollectStates => true,
        Step::LookUp(_) => true,
        Step::StartService(_) => true,
        Step::StopService(_) => true,
        Step::ReloadGraph => true,
        Step::UpdateServiceState(_, _) => true,
        Step::UpdateService(_) => true,
        _ => false,
    }
}

/// Whether the step changes the shape of the graph, and so runs while
/// nobody else reads the graph; every other step only reads it.
pub open spec fn needs_exclusive_access(step: Step) -> bool {
    match step {
        Step::ReloadGraph => true,
        Step::UpdateService(_) => true,
        _ => false,
    }
}

impl Step {
    /// Whether a failure of this step ends the request with its error.
    pub fn aborts_on_failure(&self) -> (b: bool)
        ensures
            b == aborts_on_failure(*self),
    {
        match self {
            Step::CollectStates => true,
            Step::LookUp(_) => true,
            Step::StartService(_) => true,
            Step::StopService(_) => true,
            Step::ReloadGraph => true,
            Step::UpdateServiceState(_, _) => true,
            Step::UpdateService(_) => true,
            _ => false,
        }
    }

    /// Whether the step needs the graph to itself.
    pub fn needs_exclusive_access(&self) -> (b: bool)
        ensures
            b == needs_exclusive_access(*self),
    {
        match self {
            Step::ReloadGraph => true,
            Step::UpdateService(_) => true,
            _ => false,
        }
    }
}

/// What the daemon does next while it carries out a plan.
#[derive(Debug, Clone, Copy, PartialEq, Eq, Structural)]
pub enum NextAction {
    /// Perform the step at this position.
    Perform(usize),
    /// End the request with the error of the step just performed.
    Fail,
    /// All steps are done: answer with the plan's reply.
    Finish,
}

/// What comes next once the first `performed` steps of a plan have run and
/// the last of them succeeded or not: a failed step that may not fail ends
/// the request with its error; otherwise the next step runs, and after the
/// last one the request is answered.
pub open spec fn next_action_spec(steps: Seq<Step>, performed: int, last_ok: bool) -> NextAction {
    if 0 < performed <= steps.len() && !last_ok && aborts_on_failure(steps[performed - 1]) {
        NextAction::Fail
    } else if 0 <= performed < steps.len() {
        NextAction::Perform(performed as usize)
    } else {
        NextAction::Finish
    }
}

/// What the daemon does next with `plan`, once its first `performed` steps
/// have run and the last of them succeeded (`last_ok`) or failed.
pub fn next_action(plan: &RequestPlan, performed: usize, last_ok: bool) -> (a: NextAction)
    ensures
        a == next_action_spec(plan.steps@, performed as int, last_ok),
{
    if 0 < performed && performed <= plan.steps.len() && !last_ok
        && plan.steps[performed - 1].aborts_on_failure() {
        NextAction::Fail
    } else if performed < plan.steps.len() {
        NextAction::Perform(performed)
    } else {
        NextAction::Finish
    }
}

/// Whether the connection handler goes on after sending a reply: a reply
/// that could not be sent ends the connection with that error.
pub fn keep_serving_after_send(sent: bool) -> (keep: bool)
    ensures
        keep == sent,
{
    sent
}

/// What the daemon's event loop does with a request it raised itself.
#[derive(Debug, Clone, Copy, PartialEq, Eq, Structural)]
pub enum EventAction {
    /// Record the final action, handle the request in place, and leave the
    /// loop.
    HandleThenStop(FinalAction),
    /// Handle the request in a task of its own and keep listening.
    Spawn,
}

/// What the event loop does with `request`: a request to stop every service
/// is the last one it handles.
pub fn event_action(request: &Request) -> (a: EventAction)
    ensures
        match *request {
            Request::StopAllServices { action } => a == EventAction::HandleThenStop(final_of(action)),
            _ => a == EventAction::Spawn,
        },
{
    match request {
        Request::StopAllServices { action } => EventAction::HandleThenStop(to_final(*action)),
        _ => EventAction::Spawn,
    }
}

/// The request that a shutdown signal raises: stop every service, then end
/// the system with `action`.
pub fn shutdown_request(action: FinalAction) -> (r: Request)
    ensures
        r matches Request::StopAllServices { action: a } && final_of(a) == action,
{
    crate::request::stop_all_request(crate::pid1::to_system_action(action))
}

/// What receiving from an IPC connection gave.
#[derive(Debug)]
pub enum Received {
    /// A request arrived.
    Message(Request),
    /// The peer closed the channel.
    Closed,
    /// Receiving failed; `terminated` tells whether the connection ended.
    ReceiveFailed { terminated: bool },
    /// A message could not be decoded.
    DeserializeFailed,
    /// Ports that a message refers to are missing.
    MissingPorts,
    /// A message was larger than the channel accepts.
    ItemTooLarge,
}

/// What the connection handler does next.
#[derive(Debug)]
pub enum StreamAction {
    /// Handle the request and send back its reply.
    Handle(Request),
    /// Stop serving the connection without error.
    Finish,
    /// Stop serving the connection with a receive error.
    Fail,
}

/// What the connection handler does with what it received: a request is
/// handled, a closed or ended connection finishes quietly, and any other
/// receive error ends the connection with that error.
pub fn on_receive(received: Received) -> (a: StreamAction)
    ensures
        match received {
            Received::Message(req) => a matches StreamAction::Handle(r) && r == req,
            Received::Closed => a is Finish,
            Received::ReceiveFailed { terminated } => if terminated { a is Finish } else { a is Fail },
            _ => a is Fail,
        },
{
    match received {
        Received::Message(req) => StreamAction::Handle(req),
        Received::Closed => StreamAction::Finish,
        Received::ReceiveFailed { terminated } => {
            if terminated {
                StreamAction::Finish
            } else {
                StreamAction::Fail
            }
        },
        Received::DeserializeFailed => StreamAction::Fail,
        Received::MissingPorts => StreamAction::Fail,
        Received::ItemTooLarge => StreamAction::Fail,
    }
}

/// The targets that a list of steps starts, in the order it starts them.
pub open spec fn started_targets(steps: Seq<Step>) -> Seq<Target>
    decreases steps.len(),
{
    if steps.len() == 0 {
        Seq::empty()
    } else {
        let rest = started_targets(steps.drop_last());
        match steps.last() {
            Step::StartTarget(t) => rest.push(t),
            _ => rest,
        }
    }
}

/// The targets that a list of steps stops, in the order it stops them.
pub open spec fn stopped_targets(steps: Seq<Step>) -> Seq<Target>
    decreases steps.len(),
{
    if steps.len() == 0 {
        Seq::empty()
    } else {
        let rest = stopped_targets(steps.drop_last());
        match steps.last() {
            Step::StopTarget(t) => rest.push(t),
            _ => rest,
        }
    }
}

proof fn lemma_start_all_targets(mode: Mode)
    ensures
        started_targets(start_all_steps(mode)) == (if mode == Mode::Root {
            seq![Target::Boot, Target::Default]
        } else {
            seq![Target::Default]
        }),
{
    reveal_with_fuel(started_targets, 7);
    let s = start_all_steps(mode);
    if mode == Mode::Root {
        assert(s.drop_last().drop_last().drop_last() =~= seq![
            Step::Announce(Notice::BootTargetStarting),
            Step::StartTarget(Target::Boot),
            Step::Announce(Notice::BootTargetDone),
        ]);
        assert(s.drop_last().drop_last().drop_last().drop_last().drop_last().drop_last()
            =~= Seq::<Step>::empty());
    } else {
        assert(s.drop_last().drop_last().drop_last() =~= Seq::<Step>::empty());
    }
}

proof fn lemma_stop_all_targets(action: FinalAction, mode: Mode)
    ensures
        stopped_targets(stop_all_steps(action, mode)) == (if mode == Mode::Root {
            seq![Target::Default, Target::Boot]
        } else {
            seq![Target::Default]
        }),
{
    reveal_with_fuel(stopped_targets, 5);
    let s = stop_all_steps(action, mode);
    if mode == Mode::Root {
        assert(s.drop_last() =~= seq![
            Step::SetFinalAction(action),
            Step::StopListening,
            Step::StopTarget(Target::Default),
        ]);
        assert(s.drop_last().drop_last().drop_last().drop_last() =~= Seq::<Step>::empty());
    } else {
        assert(s.drop_last().drop_last().drop_last() =~= Seq::<Step>::empty());
    }
}

/// Stopping every service takes the targets down in the reverse of the
/// order in which starting every service brings them up, whatever the mode.
pub proof fn lemma_shutdown_reverses_startup(action: crate::request::SystemAction, mode: Mode)
    ensures
        stopped_targets(plan_spec(Request::StopAllServices { action }, mode).0)
            == started_targets(plan_spec(Request::StartAllServices, mode).0).reverse(),
{
    lemma_start_all_targets(mode);
    lemma_stop_all_targets(final_of(action), mode);
    if mode == Mode::Root {
        assert(seq![Target::Boot, Target::Default].reverse() =~= seq![Target::Default, Target::Boot]);
    } else {
        assert(seq![Target::Default].reverse() =~= seq![Target::Default]);
    }
}

/// The boot target is started and stopped only by a daemon that runs as
/// root; in every other mode only the default target is.
pub proof fn lemma_boot_target_only_as_root(action: crate::request::SystemAction, mode: Mode)
    ensures
        started_targets(plan_spec(Request::StartAllServices, mode).0)
            == (if mode == Mode::Root { seq![Target::Boot, Target::Default] } else { seq![Target::Default] }),
        stopped_targets(plan_spec(Request::StopAllServices { action }, mode).0)
            == (if mode == Mode::Root { seq![Target::Default, Target::Boot] } else { seq![Target::Default] }),
{
    lemma_start_all_targets(mode);
    lemma_stop_all_targets(final_of(action), mode);
}

/// Stopping every service first records the final action that the request
/// asks for and closes the IPC socket, before any target is stopped.
pub proof fn lemma_stop_all_records_action_first(action: crate::request::SystemAction, mode: Mode)
    ensures
        plan_spec(Request::StopAllServices { action }, mode).0[0] == Step::SetFinalAction(final_of(action)),
        plan_spec(Request::StopAllServices { action }, mode).0[1] == Step::StopListening,
{
}

/// A shutdown signal leads the daemon to record, as its final action, the
/// action that the signal asks for.
pub proof fn lemma_signal_shutdown_records_signal_action(
    signal: crate::pid1::ShutdownSignal,
    mode: Mode,
)
    ensures
        ({
            let f = crate::pid1::signal_action_spec(signal);
            let action = crate::pid1::system_action_of(f);
            plan_spec(Request::StopAllServices { action }, mode).0[0] == Step::SetFinalAction(f)
        }),
{
}

/// A status, start or stop request first looks its service up, and a failed
/// lookup ends the request with that error before anything else is done.
pub proof fn lemma_failed_lookup_ends_request(request: Request, mode: Mode)
    requires
        request is ServiceStatus || request is StartService || request is StopService,
    ensures
        ({
            let steps = plan_spec(request, mode).0;
            &&& steps[0] matches Step::LookUp(_)
            &&& next_action_spec(steps, 0, true) == NextAction::Perform(0)
            &&& next_action_spec(steps, 1, false) == NextAction::Fail
        }),
{
}

/// An error from starting or stopping the service ends the request with that
/// error; when every step succeeds the request is answered `Success`.
pub proof fn lemma_start_stop_error_is_the_reply(request: Request, mode: Mode)
    requires
        request is StartService || request is StopService,
    ensures
        ({
            let (steps, reply) = plan_spec(request, mode);
            &&& (steps[1] is StartService || steps[1] is StopService)
            &&& next_action_spec(steps, 2, false) == NextAction::Fail
            &&& next_action_spec(steps, 4, true) == NextAction::Finish
            &&& reply is Success
        }),
{
}

/// Stopping every service goes on when closing the IPC socket fails, and is
/// answered `Empty` once the targets are stopped.
pub proof fn lemma_stop_all_survives_socket_failure(
    action: crate::request::SystemAction,
    mode: Mode,
)
    ensures
        ({
            let (steps, reply) = plan_spec(Request::StopAllServices { action }, mode);
            &&& steps[1] == Step::StopListening
            &&& next_action_spec(steps, 2, false) == NextAction::Perform(2)
            &&& next_action_spec(steps, steps.len() as int, true) == NextAction::Finish
            &&& reply is Empty
        }),
{
}

/// When recording a reported state fails, the request ends with that error
/// and the service is not refreshed.
pub proof fn lemma_failed_state_record_skips_refresh(
    name: String,
    state: IdleServiceState,
    mode: Mode,
)
    ensures
        ({
            let steps = plan_spec(Request::UpdateServiceStatus(name, state), mode).0;
            &&& steps[0] == Step::UpdateServiceState(name, state)
            &&& next_action_spec(steps, 1, false) == NextAction::Fail
        }),
{
}

/// Reloading the graph needs the graph to itself, and a failed reload ends
/// the request with that error; a successful one is answered `Empty`.
pub proof fn lemma_failed_reload_is_the_reply(mode: Mode)
    ensures
        ({
            let (steps, reply) = plan_spec(Request::ReloadGraph, mode);
            &&& steps.len() == 1
            &&& needs_exclusive_access(steps[0])
            &&& next_action_spec(steps, 1, false) == NextAction::Fail
            &&& next_action_spec(steps, 1, true) == NextAction::Finish
            &&& reply is Empty
        }),
{
}

/// Whether a step starts or stops a single service.
pub open spec fn starts_service(step: Step) -> bool {
    step is StartService
}

/// Whether a step stops a single service.
pub open spec fn stops_service(step: Step) -> bool {
    step is StopService
}

/// The service that a step names, if any.
pub open spec fn named_service(step: Step) -> Option<String> {
    match step {
        Step::LookUp(s) => Some(s),
        Step::StartService(s) => Some(s),
        Step::StopService(s) => Some(s),
        Step::AwaitIdle(s) => Some(s),
        Step::UpdateServiceState(s, _) => Some(s),
        Step::UpdateService(s) => Some(s),
        _ => None,
    }
}

/// A request to start a service, in whatever mode the daemon runs, looks
/// the service up, starts it, looks it up again and waits until it is
/// idle; it never stops a service, and every step names the requested
/// service. A request to stop a service does the same with a stop and never
/// starts a service. Neither depends on the mode, and both are answered
/// `Success`.
pub proof fn lemma_service_requests_do_what_they_ask(service: String, mode: Mode, other: Mode)
    ensures
        ({
            let (steps, reply) = plan_spec(Request::StartService { service }, mode);
            &&& steps == seq![
                Step::LookUp(service),
                Step::StartService(service),
                Step::LookUp(service),
                Step::AwaitIdle(service),
            ]
            &&& forall|i: int| 0 <= i < steps.len() ==> !stops_service(#[trigger] steps[i])
            &&& forall|i: int| 0 <= i < steps.len() ==> named_service(#[trigger] steps[i]) == Some(service)
            &&& exists|i: int| 0 <= i < steps.len() && #[trigger] steps[i] == Step::StartService(service)
            &&& reply is Success
        }),
        ({
            let (steps, reply) = plan_spec(Request::StopService { service }, mode);
            &&& steps == seq![
                Step::LookUp(service),
                Step::StopService(service),
                Step::LookUp(service),
                Step::AwaitIdle(service),
            ]
            &&& forall|i: int| 0 <= i < steps.len() ==> !starts_service(#[trigger] steps[i])
            &&& forall|i: int| 0 <= i < steps.len() ==> named_service(#[trigger] steps[i]) == Some(service)
            &&& exists|i: int| 0 <= i < steps.len() && #[trigger] steps[i] == Step::StopService(service)
            &&& reply is Success
        }),
        plan_spec(Request::StartService { service }, mode) == plan_spec(Request::StartService { service }, other),
        plan_spec(Request::StopService { service }, mode) == plan_spec(Request::StopService { service }, other),
{
    let (start, _) = plan_spec(Request::StartService { service }, mode);
    assert(start[1] == Step::StartService(service));
    let (stop, _) = plan_spec(Request::StopService { service }, mode);
    assert(stop[1] == Step::StopService(service));
}

/// A service that reports itself down is refreshed after its state is
/// recorded; any other report only records the state.
pub proof fn lemma_down_report_refreshes(name: String, state: IdleServiceState, mode: Mode)
    ensures
        plan_spec(Request::UpdateServiceStatus(name, state), mode).0[0]
            == Step::UpdateServiceState(name, state),
        plan_spec(Request::UpdateServiceStatus(name, state), mode).0.len()
            == (if state == IdleServiceState::Down { 2int } else { 1int }),
        state == IdleServiceState::Down ==> plan_spec(Request::UpdateServiceStatus(name, state), mode).0[1]
            == Step::UpdateService(name),
{
}

} // verus!
