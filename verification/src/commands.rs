use vstd::prelude::*;
use crate::config::Config;
use crate::request::{Request, SystemAction};
use crate::target::Target;

verus! {

/// Why a control command did not complete.
#[derive(Debug, Clone, Copy, PartialEq, Eq, Structural)]
pub enum CommandError {
    /// A service is named more than once on the command line.
    DuplicatedService,
    /// Services were to be started but the daemon could not be reached.
    CannotStartWithoutDaemon,
    /// Some service could not be enabled or started.
    OperationFailed,
    /// Some service failed to start.
    StartFailed,
}

/// The message of each command error.
pub open spec fn command_error_text(e: CommandError) -> Seq<char> {
    match e {
        CommandError::DuplicatedService => "duplicated service found"@,
        CommandError::CannotStartWithoutDaemon =>
            "Could not start services because we couldn't connect ot the service control daemon"@,
        CommandError::OperationFailed => "Could not complete the operation successfully"@,
        CommandError::StartFailed => ""@,
    }
}

impl CommandError {
    /// The message that the command reports.
    pub fn message(&self) -> (s: &'static str)
        ensures
            s@ == command_error_text(*self),
    {
        match self {
            CommandError::DuplicatedService => "duplicated service found",
            CommandError::CannotStartWithoutDaemon =>
                "Could not start services because we couldn't connect ot the service control daemon",
            CommandError::OperationFailed => "Could not complete the operation successfully",
            CommandError::StartFailed => "",
        }
    }
}

/// Some name occurs twice in `names`.
pub open spec fn has_duplicate(names: Seq<Seq<char>>) -> bool {
    exists|j: int, k: int| 0 <= j < k < names.len() && names[j] == names[k]
}

/// A list of names is refused exactly when its names are not all distinct.
pub proof fn lemma_duplicate_iff_not_distinct(names: Seq<Seq<char>>)
    ensures
        has_duplicate(names) <==> !names.no_duplicates(),
{
    if !names.no_duplicates() {
        let (i, j) = choose|i: int, j: int|
            0 <= i < names.len() && 0 <= j < names.len() && i != j && names[i] == names[j];
        if i < j {
            assert(names[i] == names[j]);
        } else {
            assert(names[j] == names[i]);
        }
    }
}

/// Whether some service is named twice: for some position, the name there
/// occurs again further on.
pub fn find_duplicate(services: &Vec<String>) -> (dup: bool)
    ensures
        dup == has_duplicate(services.deep_view()),
{
    let n = services.len();
    let ghost names = services.deep_view();
    let mut i: usize = 1;
    while i < n
        invariant
            n == services.len(),
            names == services.deep_view(),
            names.len() == n,
            1 <= i,
            i <= n || n == 0,
            forall|j: int, k: int| 0 <= j < i - 1 && j < k < n ==> names[j] != names[k],
        decreases n - i,
    {
        let mut k: usize = i;
        while k < n
            invariant
                n == services.len(),
                names == services.deep_view(),
                names.len() == n,
                1 <= i < n,
                i <= k <= n,
                forall|j: int, m: int| 0 <= j < i - 1 && j < m < n ==> names[j] != names[m],
                forall|m: int| i <= m < k ==> names[i - 1] != #[trigger] names[m],
            decreases n - k,
        {
            if services[i - 1] == services[k] {
                assert(names[i - 1] == names[k as int]);
                return true;
            }
            k += 1;
        }
        i += 1;
    }
    assert forall|j: int, k: int| 0 <= j < k < names.len() implies names[j] != names[k] by {
        assert(j < i - 1 || n == 0 || i - 1 >= n - 1);
    }
    false
}

/// Refuses a list of services in which a service is named twice.
pub fn check_unique(services: &Vec<String>) -> (r: Result<(), CommandError>)
    ensures
        r is Err <==> has_duplicate(services.deep_view()),
        r matches Err(e) ==> e == CommandError::DuplicatedService,
{
    if find_duplicate(services) {
        Err(CommandError::DuplicatedService)
    } else {
        Ok(())
    }
}

/// Enables services: adds them and their dependencies to the dependency
/// graph, and optionally starts them.
#[derive(Debug, Clone)]
pub struct EnableCommand {
    pub services: Vec<String>,
    pub atomic_changes: bool,
    pub start: bool,
    pub stop_at_errors: bool,
}

impl EnableCommand {
    /// Refuses a command that names a service twice.
    pub fn check(&self) -> (r: Result<(), CommandError>)
        ensures
            r is Err <==> has_duplicate(self.services.deep_view()),
            r matches Err(e) ==> e == CommandError::DuplicatedService,
    {
        check_unique(&self.services)
    }
}

/// Restarts services at a run level.
#[derive(Debug, Clone)]
pub struct RestartCommand {
    pub runlevel: Target,
    pub services: Vec<String>,
}

impl RestartCommand {
    /// Restarting checks that no service is named twice, and does nothing
    /// more.
    pub fn run(self, _config: Config) -> (r: Result<(), CommandError>)
        ensures
            r is Err <==> has_duplicate(self.services.deep_view()),
            r matches Err(e) ==> e == CommandError::DuplicatedService,
    {
        check_unique(&self.services)
    }
}

/// Starts services.
#[derive(Debug, Clone)]
pub struct StartCommand {
    pub services: Vec<String>,
}

impl StartCommand {
    /// Refuses a command that names a service twice.
    pub fn check(&self) -> (r: Result<(), CommandError>)
        ensures
            r is Err <==> has_duplicate(self.services.deep_view()),
            r matches Err(e) ==> e == CommandError::DuplicatedService,
    {
        check_unique(&self.services)
    }
}

/// Stops services at a run level.
#[derive(Debug, Clone)]
pub struct StopCommand {
    pub runlevel: Target,
    pub services: Vec<String>,
}

impl StopCommand {
    /// Refuses a command that names a service twice.
    pub fn check(&self) -> (r: Result<(), CommandError>)
        ensures
            r is Err <==> has_duplicate(self.services.deep_view()),
            r matches Err(e) ==> e == CommandError::DuplicatedService,
    {
        check_unique(&self.services)
    }

    /// The request that stops one service; the daemon's stop request names the
    /// service alone.
    pub fn request_for(&self, service: &str) -> (r: Request)
        ensures
            r matches Request::StopService { service: s } && s@ == service@,
    {
        Request::StopService { service: service.to_owned() }
    }
}

/// Stops every service and powers the system off.
#[derive(Debug, Clone, Copy, PartialEq, Eq, Structural)]
pub struct PoweroffCommand {}

/// Stops every service and reboots the system.
#[derive(Debug, Clone, Copy, PartialEq, Eq, Structural)]
pub struct RebootCommand {}

/// Stops every service and halts the system.
#[derive(Debug, Clone, Copy, PartialEq, Eq, Structural)]
pub struct HaltCommand {}

impl PoweroffCommand {
    /// The request that the command sends.
    pub fn request(&self) -> (r: Request)
        ensures
            r matches Request::StopAllServices { action } && action == SystemAction::Poweroff,
    {
        crate::request::stop_all_request(SystemAction::Poweroff)
    }
}

impl RebootCommand {
    /// The request that the command sends.
    pub fn request(&self) -> (r: Request)
        ensures
            r matches Request::StopAllServices { action } && action == SystemAction::Reboot,
    {
        crate::request::stop_all_request(SystemAction::Reboot)
    }
}

impl HaltCommand {
    /// The request that the command sends.
    pub fn request(&self) -> (r: Request)
        ensures
            r matches Request::StopAllServices { action } && action == SystemAction::Halt,
    {
        crate::request::stop_all_request(SystemAction::Halt)
    }
}

} // verus!
