use vstd::prelude::*;

verus! {

/// What the system does once every service has been stopped.
#[derive(Debug, Clone, Copy, PartialEq, Eq, Structural)]
pub enum SystemAction {
    Poweroff,
    Reboot,
    Halt,
}

/// The state of a service that is neither starting nor stopping.
#[derive(Debug, Clone, Copy, PartialEq, Eq, Structural)]
pub enum IdleServiceState {
    Up,
    Down,
}

/// The state of a service that is on its way up or down.
#[derive(Debug, Clone, Copy, PartialEq, Eq, Structural)]
pub enum TransitioningServiceState {
    Starting,
    Stopping,
}

/// The state of a service as the daemon reports it.
#[derive(Debug, Clone, Copy, PartialEq, Eq, Structural)]
pub enum ServiceState {
    Idle(IdleServiceState),
    Transitioning(TransitioningServiceState),
}

/// A request sent to the service control daemon.
#[derive(Debug, Clone)]
pub enum Request {
    UpdateServiceStatus(String, IdleServiceState),
    ServicesStatus,
    ServiceStatus(String),
    StartService { service: String },
    StopService { service: String },
    StartAllServices,
    StopAllServices { action: SystemAction },
    ReloadGraph,
}

/// The daemon's answer to a request that it carried out.
#[derive(Debug, Clone)]
pub enum Reply {
    Success(),
    ServicesStates(Vec<(String, ServiceState)>),
    ServiceState(String, ServiceState),
    Empty,
}

/// The request that asks the daemon to start one service.
pub fn start_service_request(service: &str) -> (r: Request)
    ensures
        r matches Request::StartService { service: s } && s@ == service@,
{
    Request::StartService { service: service.to_owned() }
}

/// The request that the control tool's stop helper sends for one service:
/// a request to start that service.
pub fn stop_service_request(service: &str) -> (r: Request)
    ensures
        r matches Request::StartService { service: s } && s@ == service@,
{
    Request::StartService { service: service.to_owned() }
}

/// The request that stops every service and then performs `action`.
pub fn stop_all_request(action: SystemAction) -> (r: Request)
    ensures
        r matches Request::StopAllServices { action: a } && a == action,
{
    Request::StopAllServices { action }
}

/// Whether a service was started or stopped, read from the daemon's reply
/// to a start or stop request; the daemon answers those requests with
/// `Success` alone.
pub fn reply_confirms(reply: &Reply) -> (ok: bool)
    requires
        reply is Success,
    ensures
        ok,
{
    match reply {
        Reply::Success() => true,
        _ => false,
    }
}

/// Whether a stop request succeeded: an error reply means it did not, and
/// a reply, which can only be `Success`, means it did.
pub fn stop_outcome(reply: &Option<Reply>) -> (ok: bool)
    requires
        reply matches Some(r) ==> r is Success,
    ensures
        ok == reply is Some,
{
    match reply {
        Some(r) => reply_confirms(r),
        None => false,
    }
}

} // verus!
