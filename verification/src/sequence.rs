use vstd::prelude::*;
use crate::commands::{find_duplicate, has_duplicate, CommandError, EnableCommand, StartCommand, StopCommand};

verus! {

/// How an operation that a command performed turned out.
#[derive(Debug, Clone, Copy, PartialEq, Eq, Structural)]
pub enum Outcome {
    /// It succeeded (for a connection: the daemon was reached; for a start:
    /// the daemon started the service).
    Done,
    /// It failed with an error.
    Failed,
    /// The daemon answered that the service did not start.
    Declined,
}

/// One thing that the enable command does next.
#[derive(Debug, Clone, Copy, PartialEq, Eq)]
pub enum EnableAction {
    /// Read the dependency graph from its file, or start a new one.
    LoadGraph,
    /// Parse every service and add them all to the graph at once.
    AddAll,
    /// Parse one service and its dependencies and add them to the graph.
    AddService(usize),
    /// Write the graph back to its file.
    SaveGraph,
    /// Print that all the services have been enabled.
    AnnounceAllEnabled,
    /// Print that one service has been enabled.
    AnnounceEnabled(usize),
    /// Connect to the service control daemon.
    Connect,
    /// Warn that the daemon is out of reach and nothing will be started.
    WarnNoStart,
    /// Ask the daemon to reload the graph.
    ReloadGraph,
    /// Ask the daemon to start one service.
    StartService(usize),
    /// Print that one service started.
    AnnounceStarted(usize),
    /// Print that one service failed to start.
    AnnounceStartFailed(usize),
    /// Print the error of starting one service.
    ShowStartError(usize),
    /// End with the error of the last operation.
    Abort,
    /// End with this result.
    Finish(Result<(), CommandError>),
}

/// Where the enable command stands: the last action it took, the service
/// it is at, whether it reached the daemon, and whether all went well.
#[derive(Debug, Clone, Copy, PartialEq, Eq)]
pub struct EnableState {
    pub last: Option<EnableAction>,
    pub current: usize,
    pub connected: bool,
    pub success: bool,
}

impl EnableState {
    /// The state before the command does anything.
    pub fn new() -> (s: EnableState)
        ensures
            s.last is None,
            s.current == 0,
            !s.connected,
            s.success,
    {
        EnableState { last: None, current: 0, connected: false, success: true }
    }
}

/// The settings of an enable command that decide its course.
pub struct EnableSettings {
    pub atomic: bool,
    pub start: bool,
    pub stop_at_errors: bool,
    pub duplicated: bool,
    pub count: int,
}

/// The settings of an enable command.
pub open spec fn enable_settings(cmd: EnableCommand) -> EnableSettings {
    EnableSettings {
        atomic: cmd.atomic_changes,
        start: cmd.start,
        stop_at_errors: cmd.stop_at_errors,
        duplicated: has_duplicate(cmd.services.deep_view()),
        count: cmd.services.len() as int,
    }
}

/// The state after taking `action`, and that action.
pub open spec fn took(action: EnableAction, current: usize, connected: bool, success: bool) -> (EnableState, EnableAction) {
    (EnableState { last: Some(action), current, connected, success }, action)
}

/// The end of the command: success unless something failed on the way.
pub open spec fn enable_finish(current: usize, connected: bool, success: bool) -> (EnableState, EnableAction) {
    took(
        EnableAction::Finish(if success { Ok(()) } else { Err(CommandError::OperationFailed) }),
        current,
        connected,
        success,
    )
}

/// Going on with the first service, one service at a time.
pub open spec fn enable_first(c: EnableSettings, state: EnableState, connected: bool, success: bool) -> (EnableState, EnableAction) {
    if c.count > 0 {
        took(EnableAction::AddService(0), 0, connected, success)
    } else {
        enable_finish(state.current, connected, success)
    }
}

/// Going on after the service at `i`, one service at a time.
pub open spec fn enable_after_service(c: EnableSettings, state: EnableState, i: usize, success: bool) -> (EnableState, EnableAction) {
    if i + 1 < c.count {
        took(EnableAction::AddService((i + 1) as usize), (i + 1) as usize, state.connected, success)
    } else {
        enable_finish(i, state.connected, success)
    }
}

/// Going on after the service at `i` was started, all services at once.
pub open spec fn enable_after_start_all(c: EnableSettings, state: EnableState, i: usize, success: bool) -> (EnableState, EnableAction) {
    if i + 1 < c.count {
        took(EnableAction::StartService((i + 1) as usize), (i + 1) as usize, state.connected, success)
    } else {
        enable_finish(i, state.connected, success)
    }
}

/// The enable command's course. A command that names a service twice ends
/// at once. Otherwise it loads the graph. With atomic changes it adds all
/// services, saves the graph and announces it; then it connects to the
/// daemon: out of reach, it fails if it was to start the services and
/// succeeds otherwise; reached, it asks for a reload and then starts each
/// service in turn, where an error ends the command and a refusal only
/// makes it fail at the end. One service at a time, it connects first (and
/// warns when it cannot start anything), then for each service adds it
/// (a failure ends the command with `--stop-at-errors` and otherwise makes
/// it fail at the end), saves the graph, announces the service, and, when
/// connected, asks for a reload and starts the service if asked to, where
/// a failed start is printed and, without `--stop-at-errors`, makes the
/// command fail at the end. Loading, saving, reloading and adding all at
/// once end the command when they fail.
pub open spec fn enable_step_spec(c: EnableSettings, state: EnableState, outcome: Outcome) -> (EnableState, EnableAction) {
    let failed = outcome == Outcome::Failed;
    let cur = state.current;
    let conn = state.connected;
    let ok = state.success;
    match state.last {
        None => if c.duplicated {
            took(EnableAction::Finish(Err(CommandError::DuplicatedService)), cur, conn, ok)
        } else {
            took(EnableAction::LoadGraph, cur, conn, ok)
        },
        Some(last) => match last {
            EnableAction::LoadGraph => if failed {
                took(EnableAction::Abort, cur, conn, ok)
            } else if c.atomic {
                took(EnableAction::AddAll, cur, conn, ok)
            } else {
                took(EnableAction::Connect, cur, conn, ok)
            },
            EnableAction::AddAll => if failed {
                took(EnableAction::Abort, cur, conn, ok)
            } else {
                took(EnableAction::SaveGraph, cur, conn, ok)
            },
            EnableAction::SaveGraph => if failed {
                took(EnableAction::Abort, cur, conn, ok)
            } else if c.atomic {
                took(EnableAction::AnnounceAllEnabled, cur, conn, ok)
            } else {
                took(EnableAction::AnnounceEnabled(cur), cur, conn, ok)
            },
            EnableAction::AnnounceAllEnabled => took(EnableAction::Connect, cur, conn, ok),
            EnableAction::Connect => if c.atomic {
                if !failed {
                    took(EnableAction::ReloadGraph, cur, true, ok)
                } else if c.start {
                    took(EnableAction::Finish(Err(CommandError::CannotStartWithoutDaemon)), cur, conn, ok)
                } else {
                    enable_finish(cur, conn, ok)
                }
            } else if !failed {
                enable_first(c, state, true, ok)
            } else if c.start {
                took(EnableAction::WarnNoStart, cur, conn, ok)
            } else {
                enable_first(c, state, conn, ok)
            },
            EnableAction::WarnNoStart => enable_first(c, state, conn, ok),
            EnableAction::ReloadGraph => if failed {
                took(EnableAction::Abort, cur, conn, ok)
            } else if c.atomic {
                if c.start && c.count > 0 {
                    took(EnableAction::StartService(0), 0, conn, ok)
                } else {
                    enable_finish(cur, conn, ok)
                }
            } else if c.start {
                took(EnableAction::StartService(cur), cur, conn, ok)
            } else {
                enable_after_service(c, state, cur, ok)
            },
            EnableAction::AddService(i) => if failed && c.stop_at_errors {
                took(EnableAction::Abort, cur, conn, ok)
            } else {
                took(EnableAction::SaveGraph, cur, conn, ok && !failed)
            },
            EnableAction::AnnounceEnabled(i) => if conn {
                took(EnableAction::ReloadGraph, cur, conn, ok)
            } else {
                enable_after_service(c, state, cur, ok)
            },
            EnableAction::StartService(i) => if c.atomic {
                if failed {
                    took(EnableAction::Abort, cur, conn, ok)
                } else if outcome == Outcome::Done {
                    took(EnableAction::AnnounceStarted(cur), cur, conn, ok)
                } else {
                    took(EnableAction::AnnounceStartFailed(cur), cur, conn, false)
                }
            } else if failed {
                if c.stop_at_errors {
                    took(EnableAction::ShowStartError(cur), cur, conn, ok)
                } else {
                    took(EnableAction::AnnounceStartFailed(cur), cur, conn, false)
                }
            } else {
                took(EnableAction::AnnounceStarted(cur), cur, conn, ok)
            },
            EnableAction::AnnounceStarted(i) => if c.atomic {
                enable_after_start_all(c, state, cur, ok)
            } else {
                enable_after_service(c, state, cur, ok)
            },
            EnableAction::AnnounceStartFailed(i) => if c.atomic {
                enable_after_start_all(c, state, cur, ok)
            } else {
                enable_after_service(c, state, cur, ok)
            },
            EnableAction::ShowStartError(i) => if c.atomic {
                enable_after_start_all(c, state, cur, ok)
            } else {
                enable_after_service(c, state, cur, ok)
            },
            EnableAction::Abort => (state, EnableAction::Abort),
            EnableAction::Finish(r) => (state, EnableAction::Finish(r)),
        },
    }
}

impl EnableCommand {
    fn finish_step(&self, current: usize, connected: bool, success: bool) -> (r: (EnableState, EnableAction))
        ensures
            r == enable_finish(current, connected, success),
    {
        let action = EnableAction::Finish(if success { Ok(()) } else { Err(CommandError::OperationFailed) });
        (EnableState { last: Some(action), current, connected, success }, action)
    }

    fn first_step(&self, state: EnableState, connected: bool, success: bool) -> (r: (EnableState, EnableAction))
        ensures
            r == enable_first(enable_settings(*self), state, connected, success),
    {
        if self.services.len() > 0 {
            let action = EnableAction::AddService(0);
            (EnableState { last: Some(action), current: 0, connected, success }, action)
        } else {
            self.finish_step(state.current, connected, success)
        }
    }

    fn after_service_step(&self, state: EnableState, i: usize, success: bool) -> (r: (EnableState, EnableAction))
        ensures
            r == enable_after_service(enable_settings(*self), state, i, success),
    {
        let n = self.services.len();
        if n > 0 && i < n - 1 {
            let action = EnableAction::AddService(i + 1);
            (EnableState { last: Some(action), current: i + 1, connected: state.connected, success }, action)
        } else {
            self.finish_step(i, state.connected, success)
        }
    }

    fn after_start_all_step(&self, state: EnableState, i: usize, success: bool) -> (r: (EnableState, EnableAction))
        ensures
            r == enable_after_start_all(enable_settings(*self), state, i, success),
    {
        let n = self.services.len();
        if n > 0 && i < n - 1 {
            let action = EnableAction::StartService(i + 1);
            (EnableState { last: Some(action), current: i + 1, connected: state.connected, success }, action)
        } else {
            self.finish_step(i, state.connected, success)
        }
    }

    /// What the command does next, once the last action it took turned out
    /// as `outcome` (the outcome is not looked at before the first action).
    pub fn next(&self, state: EnableState, outcome: Outcome) -> (r: (EnableState, EnableAction))
        ensures
            r == enable_step_spec(enable_settings(*self), state, outcome),
    {
        let failed = outcome == Outcome::Failed;
        let cur = state.current;
        let conn = state.connected;
        let ok = state.success;
        let took = |action: EnableAction, current: usize, connected: bool, success: bool| -> (r: (EnableState, EnableAction))
            ensures
                r == (EnableState { last: Some(action), current, connected, success }, action),
            {
                (EnableState { last: Some(action), current, connected, success }, action)
            };
        match state.last {
            None => {
                if find_duplicate(&self.services) {
                    took(EnableAction::Finish(Err(CommandError::DuplicatedService)), cur, conn, ok)
                } else {
                    took(EnableAction::LoadGraph, cur, conn, ok)
                }
            },
            Some(last) => match last {
                EnableAction::LoadGraph => {
                    if failed {
                        took(EnableAction::Abort, cur, conn, ok)
                    } else if self.atomic_changes {
                        took(EnableAction::AddAll, cur, conn, ok)
                    } else {
                        took(EnableAction::Connect, cur, conn, ok)
                    }
                },
                EnableAction::AddAll => {
                    if failed {
                        took(EnableAction::Abort, cur, conn, ok)
                    } else {
                        took(EnableAction::SaveGraph, cur, conn, ok)
                    }
                },
                EnableAction::SaveGraph => {
                    if failed {
                        took(EnableAction::Abort, cur, conn, ok)
                    } else if self.atomic_changes {
                        took(EnableAction::AnnounceAllEnabled, cur, conn, ok)
                    } else {
                        took(EnableAction::AnnounceEnabled(cur), cur, conn, ok)
                    }
                },
                EnableAction::AnnounceAllEnabled => took(EnableAction::Connect, cur, conn, ok),
                EnableAction::Connect => {
                    if self.atomic_changes {
                        if !failed {
                            took(EnableAction::ReloadGraph, cur, true, ok)
                        } else if self.start {
                            took(
                                EnableAction::Finish(Err(CommandError::CannotStartWithoutDaemon)),
                                cur,
                                conn,
                                ok,
                            )
                        } else {
                            self.finish_step(cur, conn, ok)
                        }
                    } else if !failed {
                        self.first_step(state, true, ok)
                    } else if self.start {
                        took(EnableAction::WarnNoStart, cur, conn, ok)
                    } else {
                        self.first_step(state, conn, ok)
                    }
                },
                EnableAction::WarnNoStart => self.first_step(state, conn, ok),
                EnableAction::ReloadGraph => {
                    if failed {
                        took(EnableAction::Abort, cur, conn, ok)
                    } else if self.atomic_changes {
                        if self.start && self.services.len() > 0 {
                            took(EnableAction::StartService(0), 0, conn, ok)
                        } else {
                            self.finish_step(cur, conn, ok)
                        }
                    } else if self.start {
                        took(EnableAction::StartService(cur), cur, conn, ok)
                    } else {
                        self.after_service_step(state, cur, ok)
                    }
                },
                EnableAction::AddService(_) => {
                    if failed && self.stop_at_errors {
                        took(EnableAction::Abort, cur, conn, ok)
                    } else {
                        took(EnableAction::SaveGraph, cur, conn, ok && !failed)
                    }
                },
                EnableAction::AnnounceEnabled(_) => {
                    if conn {
                        took(EnableAction::ReloadGraph, cur, conn, ok)
                    } else {
                        self.after_service_step(state, cur, ok)
                    }
                },
                EnableAction::StartService(_) => {
                    if self.atomic_changes {
                        if failed {
                            took(EnableAction::Abort, cur, conn, ok)
                        } else if outcome == Outcome::Done {
                            took(EnableAction::AnnounceStarted(cur), cur, conn, ok)
                        } else {
                            took(EnableAction::AnnounceStartFailed(cur), cur, conn, false)
                        }
                    } else if failed {
                        if self.stop_at_errors {
                            took(EnableAction::ShowStartError(cur), cur, conn, ok)
                        } else {
                            took(EnableAction::AnnounceStartFailed(cur), cur, conn, false)
                        }
                    } else {
                        took(EnableAction::AnnounceStarted(cur), cur, conn, ok)
                    }
                },
                EnableAction::AnnounceStarted(_) => {
                    if self.atomic_changes {
                        self.after_start_all_step(state, cur, ok)
                    } else {
                        self.after_service_step(state, cur, ok)
                    }
                },
                EnableAction::AnnounceStartFailed(_) => {
                    if self.atomic_changes {
                        self.after_start_all_step(state, cur, ok)
                    } else {
                        self.after_service_step(state, cur, ok)
                    }
                },
                EnableAction::ShowStartError(_) => {
                    if self.atomic_changes {
                        self.after_start_all_step(state, cur, ok)
                    } else {
                        self.after_service_step(state, cur, ok)
                    }
                },
                EnableAction::Abort => (state, EnableAction::Abort),
                EnableAction::Finish(r) => (state, EnableAction::Finish(r)),
            },
        }
    }
}

/// A failure, once recorded, stays recorded, and the command can then no
/// longer end successfully.
pub proof fn lemma_enable_failure_is_kept(c: EnableSettings, state: EnableState, outcome: Outcome)
    requires
        !state.success,
        state.last != Some(EnableAction::Finish(Ok(()))),
    ensures
        !enable_step_spec(c, state, outcome).0.success,
        enable_step_spec(c, state, outcome).1 != EnableAction::Finish(Ok(())),
{
}

/// With atomic changes, a command that was to start services fails when the
/// daemon cannot be reached; one that was not succeeds.
pub proof fn lemma_atomic_enable_needs_daemon_to_start(c: EnableSettings, state: EnableState)
    requires
        c.atomic,
        state.last == Some(EnableAction::Connect),
        state.success,
    ensures
        enable_step_spec(c, state, Outcome::Failed).1 == (if c.start {
            EnableAction::Finish(Err(CommandError::CannotStartWithoutDaemon))
        } else {
            EnableAction::Finish(Ok(()))
        }),
{
}

/// One service at a time, a service that cannot be added ends the command
/// at once under `--stop-at-errors`; otherwise the graph is still saved and
/// the command goes on, to fail at the end.
pub proof fn lemma_enable_add_failure(c: EnableSettings, state: EnableState, i: usize)
    requires
        !c.atomic,
        state.last == Some(EnableAction::AddService(i)),
    ensures
        c.stop_at_errors ==> enable_step_spec(c, state, Outcome::Failed).1 == EnableAction::Abort,
        !c.stop_at_errors ==> enable_step_spec(c, state, Outcome::Failed).1 == EnableAction::SaveGraph
            && !enable_step_spec(c, state, Outcome::Failed).0.success,
{
}

/// One service at a time, a failed start is only printed under
/// `--stop-at-errors`, and otherwise makes the command fail at the end.
pub proof fn lemma_enable_start_failure(c: EnableSettings, state: EnableState, i: usize)
    requires
        !c.atomic,
        state.last == Some(EnableAction::StartService(i)),
    ensures
        c.stop_at_errors ==> enable_step_spec(c, state, Outcome::Failed)
            == (EnableState { last: Some(EnableAction::ShowStartError(state.current)), ..state },
                EnableAction::ShowStartError(state.current)),
        !c.stop_at_errors ==> !enable_step_spec(c, state, Outcome::Failed).0.success,
{
}

/// The state and the last action of the enable command once `outcomes`
/// have been handed to it one after the other, from its initial state.
pub open spec fn enable_run(c: EnableSettings, outcomes: Seq<Outcome>) -> (EnableState, EnableAction)
    decreases outcomes.len(),
{
    if outcomes.len() == 0 {
        (EnableState { last: None, current: 0, connected: false, success: true }, EnableAction::LoadGraph)
    } else {
        enable_step_spec(c, enable_run(c, outcomes.drop_last()).0, outcomes.last())
    }
}

proof fn lemma_enable_step_finish_ok(c: EnableSettings, state: EnableState, outcome: Outcome)
    ensures
        enable_step_spec(c, state, outcome).0.last == Some(enable_step_spec(c, state, outcome).1)
            || enable_step_spec(c, state, outcome).0 == state,
        enable_step_spec(c, state, outcome).1 == EnableAction::Finish(Ok(())) ==> (
            enable_step_spec(c, state, outcome).0.success
            || (state.last == Some(EnableAction::Finish(Ok(())))
                && enable_step_spec(c, state, outcome).0 == state)),
{
}

proof fn lemma_enable_run_invariant(c: EnableSettings, outcomes: Seq<Outcome>)
    requires
        outcomes.len() > 0,
    ensures
        enable_run(c, outcomes).0.last == Some(enable_run(c, outcomes).1),
        enable_run(c, outcomes).1 == EnableAction::Finish(Ok(())) ==> enable_run(c, outcomes).0.success,
    decreases outcomes.len(),
{
    if outcomes.len() > 1 {
        let prev = outcomes.drop_last();
        lemma_enable_run_invariant(c, prev);
        lemma_enable_step_finish_ok(c, enable_run(c, prev).0, outcomes.last());
        assert(enable_run(c, outcomes) == enable_step_spec(c, enable_run(c, prev).0, outcomes.last()));
    } else {
        let first = enable_run(c, outcomes.drop_last()).0;
        lemma_enable_step_finish_ok(c, first, outcomes.last());
        assert(enable_run(c, outcomes) == enable_step_spec(c, first, outcomes.last()));
    }
}

proof fn lemma_enable_success_monotone(c: EnableSettings, outcomes: Seq<Outcome>)
    requires
        enable_run(c, outcomes).0.success,
    ensures
        forall|k: int| 0 <= k <= outcomes.len() ==> (#[trigger] enable_run(c, outcomes.take(k))).0.success,
    decreases outcomes.len(),
{
    assert(outcomes.take(outcomes.len() as int) =~= outcomes);
    if outcomes.len() > 0 {
        let prev = outcomes.drop_last();
        let ps = enable_run(c, prev).0;
        if !ps.success {
            if prev.len() > 0 {
                lemma_enable_run_invariant(c, prev);
            }
            lemma_enable_failure_is_kept(c, ps, outcomes.last());
        }
        lemma_enable_success_monotone(c, prev);
        assert forall|k: int| 0 <= k <= outcomes.len() implies (#[trigger] enable_run(c, outcomes.take(k))).0.success by {
            if k < outcomes.len() {
                assert(outcomes.take(k) =~= prev.take(k));
            }
        }
    } else {
        assert forall|k: int| 0 <= k <= outcomes.len() implies (#[trigger] enable_run(c, outcomes.take(k))).0.success by {
            assert(outcomes.take(k) =~= outcomes);
        }
    }
}

/// The enable command ends successfully only if, all along, no failure was
/// recorded: no service failed to be added or started in a way that makes
/// the command fail (see `lemma_enable_add_failure` and
/// `lemma_enable_start_failure` for which ways those are).
pub proof fn lemma_enable_ok_only_if_never_failed(c: EnableSettings, outcomes: Seq<Outcome>)
    requires
        enable_run(c, outcomes).1 == EnableAction::Finish(Ok(())),
    ensures
        forall|k: int| 0 <= k <= outcomes.len() ==> (#[trigger] enable_run(c, outcomes.take(k))).0.success,
{
    if outcomes.len() > 0 {
        lemma_enable_run_invariant(c, outcomes);
    }
    lemma_enable_success_monotone(c, outcomes);
}

/// The services that the enable command asked to add to the graph one at a
/// time, in order, while it was handed `outcomes`.
pub open spec fn enable_adds(c: EnableSettings, outcomes: Seq<Outcome>) -> Seq<usize>
    decreases outcomes.len(),
{
    if outcomes.len() == 0 {
        Seq::empty()
    } else {
        let before = enable_adds(c, outcomes.drop_last());
        match enable_run(c, outcomes).1 {
            EnableAction::AddService(i) => before.push(i),
            _ => before,
        }
    }
}

proof fn lemma_enable_adds_invariant(c: EnableSettings, outcomes: Seq<Outcome>)
    requires
        !c.atomic,
        !c.duplicated,
        0 <= c.count <= usize::MAX,
        outcomes.len() > 0,
    ensures
        forall|j: int| 0 <= j < enable_adds(c, outcomes).len() ==> #[trigger] enable_adds(c, outcomes)[j] == j,
        ({
            let m = enable_adds(c, outcomes).len();
            let current = enable_run(c, outcomes).0.current;
            &&& m <= c.count
            &&& (match enable_run(c, outcomes).1 {
                EnableAction::LoadGraph => m == 0,
                EnableAction::Connect => m == 0,
                EnableAction::WarnNoStart => m == 0,
                EnableAction::AddService(i) => i == m - 1 && current == i,
                EnableAction::SaveGraph => current == m - 1,
                EnableAction::AnnounceEnabled(_) => current == m - 1,
                EnableAction::ReloadGraph => current == m - 1,
                EnableAction::StartService(_) => current == m - 1,
                EnableAction::AnnounceStarted(_) => current == m - 1,
                EnableAction::AnnounceStartFailed(_) => current == m - 1,
                EnableAction::ShowStartError(_) => current == m - 1,
                EnableAction::Finish(_) => m == c.count,
                _ => true,
            })
        }),
    decreases outcomes.len(),
{
    let prev = outcomes.drop_last();
    let before = enable_adds(c, prev);
    let now = enable_adds(c, outcomes);
    if prev.len() == 0 {
        assert(before =~= Seq::<usize>::empty());
        assert(now == before);
    } else {
        lemma_enable_adds_invariant(c, prev);
        lemma_enable_run_invariant(c, prev);
        let (ps, pa) = enable_run(c, prev);
        let (ns, na) = enable_run(c, outcomes);
        assert(enable_run(c, outcomes) == enable_step_spec(c, ps, outcomes.last()));
        if let EnableAction::AddService(i) = na {
            assert(now == before.push(i));
            assert(i as int == before.len());
            assert forall|j: int| 0 <= j < now.len() implies #[trigger] now[j] == j by {
                if j < before.len() {
                    assert(now[j] == before[j]);
                }
            }
        } else {
            assert(now == before);
        }
    }
}

/// One service at a time, an enable command that names no service twice
/// and comes to its end (it did not abort on an error) has asked to add
/// every one of its `count` services to the graph: each once, in the order
/// they were given, whether or not the daemon could be reached.
pub proof fn lemma_enable_finish_added_every_service(c: EnableSettings, outcomes: Seq<Outcome>)
    requires
        !c.atomic,
        !c.duplicated,
        0 <= c.count <= usize::MAX,
        enable_run(c, outcomes).1 is Finish,
    ensures
        enable_adds(c, outcomes).len() == c.count,
        forall|j: int| 0 <= j < c.count ==> #[trigger] enable_adds(c, outcomes)[j] == j,
{
    lemma_enable_adds_invariant(c, outcomes);
}

/// One thing that the start command does next.
#[derive(Debug, Clone, Copy, PartialEq, Eq)]
pub enum StartAction {
    /// Connect to the service control daemon.
    Connect,
    /// Ask the daemon to start one service.
    StartService(usize),
    /// Print that one service started.
    AnnounceStarted(usize),
    /// Print that one service failed to start.
    AnnounceFailed(usize),
    /// End with the error of the last operation.
    Abort,
    /// End with this result.
    Finish(Result<(), CommandError>),
}

/// Where the start command stands: the last action it took, the service it
/// is at, and whether some service failed to start.
#[derive(Debug, Clone, Copy, PartialEq, Eq)]
pub struct StartState {
    pub last: Option<StartAction>,
    pub current: usize,
    pub failed: bool,
}

impl StartState {
    /// The state before the command does anything.
    pub fn new() -> (s: StartState)
        ensures
            s.last is None,
            s.current == 0,
            !s.failed,
    {
        StartState { last: None, current: 0, failed: false }
    }
}

/// The start command's end: an error when some service failed to start.
pub open spec fn start_finish(current: usize, failed: bool) -> (StartState, StartAction) {
    let action = StartAction::Finish(if failed { Err(CommandError::StartFailed) } else { Ok(()) });
    (StartState { last: Some(action), current, failed }, action)
}

/// The start command's course: a command that names a service twice ends
/// at once; otherwise it connects to the daemon (an error ends it), then
/// asks for each service in turn to be started, where an error ends the
/// command, and a refusal is printed and makes the command fail at the end.
pub open spec fn start_step_spec(duplicated: bool, count: int, state: StartState, outcome: Outcome) -> (StartState, StartAction) {
    let cur = state.current;
    let failed = state.failed;
    let go = |action: StartAction, current: usize, failed: bool|
        (StartState { last: Some(action), current, failed }, action);
    match state.last {
        None => if duplicated {
            go(StartAction::Finish(Err(CommandError::DuplicatedService)), cur, failed)
        } else {
            go(StartAction::Connect, cur, failed)
        },
        Some(last) => match last {
            StartAction::Connect => if outcome == Outcome::Failed {
                go(StartAction::Abort, cur, failed)
            } else if count > 0 {
                go(StartAction::StartService(0), 0, failed)
            } else {
                start_finish(cur, failed)
            },
            StartAction::StartService(_) => if outcome == Outcome::Failed {
                go(StartAction::Abort, cur, failed)
            } else if outcome == Outcome::Done {
                go(StartAction::AnnounceStarted(cur), cur, failed)
            } else {
                go(StartAction::AnnounceFailed(cur), cur, true)
            },
            StartAction::AnnounceStarted(_) => if cur + 1 < count {
                go(StartAction::StartService((cur + 1) as usize), (cur + 1) as usize, failed)
            } else {
                start_finish(cur, failed)
            },
            StartAction::AnnounceFailed(_) => if cur + 1 < count {
                go(StartAction::StartService((cur + 1) as usize), (cur + 1) as usize, failed)
            } else {
                start_finish(cur, failed)
            },
            StartAction::Abort => (state, StartAction::Abort),
            StartAction::Finish(r) => (state, StartAction::Finish(r)),
        },
    }
}

impl StartCommand {
    fn step_to(&self, action: StartAction, current: usize, failed: bool) -> (r: (StartState, StartAction))
        ensures
            r == (StartState { last: Some(action), current, failed }, action),
    {
        (StartState { last: Some(action), current, failed }, action)
    }

    fn next_service(&self, state: StartState) -> (r: (StartState, StartAction))
        ensures
            r == (if state.current + 1 < self.services.len() {
                (
                    StartState {
                        last: Some(StartAction::StartService((state.current + 1) as usize)),
                        current: (state.current + 1) as usize,
                        failed: state.failed,
                    },
                    StartAction::StartService((state.current + 1) as usize),
                )
            } else {
                start_finish(state.current, state.failed)
            }),
    {
        let n = self.services.len();
        let cur = state.current;
        if n > 0 && cur < n - 1 {
            self.step_to(StartAction::StartService(cur + 1), cur + 1, state.failed)
        } else {
            let action = StartAction::Finish(
                if state.failed { Err(CommandError::StartFailed) } else { Ok(()) },
            );
            self.step_to(action, cur, state.failed)
        }
    }

    /// What the command does next, once the last action it took turned out
    /// as `outcome` (the outcome is not looked at before the first action).
    pub fn next(&self, state: StartState, outcome: Outcome) -> (r: (StartState, StartAction))
        ensures
            r == start_step_spec(
                has_duplicate(self.services.deep_view()),
                self.services.len() as int,
                state,
                outcome,
            ),
    {
        let cur = state.current;
        let failed = state.failed;
        match state.last {
            None => {
                if find_duplicate(&self.services) {
                    self.step_to(StartAction::Finish(Err(CommandError::DuplicatedService)), cur, failed)
                } else {
                    self.step_to(StartAction::Connect, cur, failed)
                }
            },
            Some(last) => match last {
                StartAction::Connect => {
                    if outcome == Outcome::Failed {
                        self.step_to(StartAction::Abort, cur, failed)
                    } else if self.services.len() > 0 {
                        self.step_to(StartAction::StartService(0), 0, failed)
                    } else {
                        self.step_to(StartAction::Finish(
                            if failed { Err(CommandError::StartFailed) } else { Ok(()) },
                        ), cur, failed)
                    }
                },
                StartAction::StartService(_) => {
                    if outcome == Outcome::Failed {
                        self.step_to(StartAction::Abort, cur, failed)
                    } else if outcome == Outcome::Done {
                        self.step_to(StartAction::AnnounceStarted(cur), cur, failed)
                    } else {
                        self.step_to(StartAction::AnnounceFailed(cur), cur, true)
                    }
                },
                StartAction::AnnounceStarted(_) => self.next_service(state),
                StartAction::AnnounceFailed(_) => self.next_service(state),
                StartAction::Abort => (state, StartAction::Abort),
                StartAction::Finish(r) => (state, StartAction::Finish(r)),
            },
        }
    }
}

/// A start command ends successfully only if no service failed to start.
pub proof fn lemma_start_succeeds_only_without_failures(
    duplicated: bool,
    count: int,
    state: StartState,
    outcome: Outcome,
)
    ensures
        start_step_spec(duplicated, count, state, outcome).1 == StartAction::Finish(Ok(()))
            && state.last != Some(StartAction::Finish(Ok(())))
            ==> !start_step_spec(duplicated, count, state, outcome).0.failed && !state.failed,
{
}

/// The state and the last action of the start command once `outcomes` have
/// been handed to it one after the other, from its initial state. The
/// first outcome is not looked at, as no action came before it.
pub open spec fn start_run(duplicated: bool, count: int, outcomes: Seq<Outcome>) -> (StartState, StartAction)
    decreases outcomes.len(),
{
    if outcomes.len() == 0 {
        (StartState { last: None, current: 0, failed: false }, StartAction::Connect)
    } else {
        start_step_spec(duplicated, count, start_run(duplicated, count, outcomes.drop_last()).0, outcomes.last())
    }
}

/// The services that the start command asked to start, in order, while it
/// was handed `outcomes`.
pub open spec fn start_requests(duplicated: bool, count: int, outcomes: Seq<Outcome>) -> Seq<usize>
    decreases outcomes.len(),
{
    if outcomes.len() == 0 {
        Seq::empty()
    } else {
        let before = start_requests(duplicated, count, outcomes.drop_last());
        match start_run(duplicated, count, outcomes).1 {
            StartAction::StartService(i) => before.push(i),
            _ => before,
        }
    }
}

/// Some service that the start command asked to start was refused, within
/// `outcomes`.
pub open spec fn start_refused(duplicated: bool, count: int, outcomes: Seq<Outcome>) -> bool {
    exists|k: int|
        0 < k < outcomes.len() && (#[trigger] start_run(duplicated, count, outcomes.take(k))).1 is StartService
            && outcomes[k] == Outcome::Declined
}

proof fn lemma_start_run_invariant(duplicated: bool, count: int, outcomes: Seq<Outcome>)
    requires
        outcomes.len() > 0,
        count <= usize::MAX,
    ensures
        start_run(duplicated, count, outcomes).0.last == Some(start_run(duplicated, count, outcomes).1),
        start_run(duplicated, count, outcomes).1 == StartAction::Finish(Ok(()))
            ==> !start_run(duplicated, count, outcomes).0.failed,
        start_run(duplicated, count, outcomes).0.failed <==> start_refused(duplicated, count, outcomes),
        forall|j: int| 0 <= j < start_requests(duplicated, count, outcomes).len()
            ==> #[trigger] start_requests(duplicated, count, outcomes)[j] == j,
        ({
            let m = start_requests(duplicated, count, outcomes).len();
            &&& m <= count || m == 0
            &&& (match start_run(duplicated, count, outcomes).1 {
                StartAction::Connect => m == 0,
                StartAction::StartService(i) => i == m - 1 && start_run(duplicated, count, outcomes).0.current == i,
                StartAction::AnnounceStarted(i) => i == m - 1 && start_run(duplicated, count, outcomes).0.current == i,
                StartAction::AnnounceFailed(i) => i == m - 1 && start_run(duplicated, count, outcomes).0.current == i,
                _ => true,
            })
            &&& (!duplicated && start_run(duplicated, count, outcomes).1 is Finish
                ==> m == count || (count <= 0 && m == 0))
        }),
    decreases outcomes.len(),
{
    let prev = outcomes.drop_last();
    assert forall|k: int| 0 < k < prev.len() + 1 implies #[trigger] prev.take(k) =~= outcomes.take(k) by {}
    if prev.len() == 0 {
        assert(!start_refused(duplicated, count, outcomes)) by {
            assert forall|k: int| 0 < k < outcomes.len() implies !((#[trigger] start_run(duplicated, count, outcomes.take(k))).1 is StartService) by {}
        }
        assert(start_requests(duplicated, count, prev) =~= Seq::<usize>::empty());
    } else {
        lemma_start_run_invariant(duplicated, count, prev);
        let (ps, pa) = start_run(duplicated, count, prev);
        let (ns, na) = start_run(duplicated, count, outcomes);
        assert(outcomes.take(prev.len() as int) =~= prev);
        if start_refused(duplicated, count, prev) {
            let k = choose|k: int|
                0 < k < prev.len() && (#[trigger] start_run(duplicated, count, prev.take(k))).1 is StartService
                    && prev[k] == Outcome::Declined;
            assert(outcomes.take(k) =~= prev.take(k));
            assert(start_refused(duplicated, count, outcomes));
        }
        if pa is StartService && outcomes.last() == Outcome::Declined {
            let k = prev.len() as int;
            assert(start_run(duplicated, count, outcomes.take(k)).1 is StartService);
            assert(start_refused(duplicated, count, outcomes));
        }
        let before = start_requests(duplicated, count, prev);
        let now = start_requests(duplicated, count, outcomes);
        if let StartAction::StartService(i) = na {
            assert(now == before.push(i));
            assert(ps.last == Some(pa));
            match pa {
                StartAction::Connect => {
                    assert(before.len() == 0);
                    assert(i == 0);
                },
                StartAction::AnnounceStarted(c) => {
                    assert(ps.current == c && c == before.len() - 1);
                    assert(i == c + 1);
                },
                StartAction::AnnounceFailed(c) => {
                    assert(ps.current == c && c == before.len() - 1);
                    assert(i == c + 1);
                },
                _ => {},
            }
            assert(i as int == before.len());
            assert forall|j: int| 0 <= j < now.len() implies #[trigger] now[j] == j by {
                if j < before.len() {
                    assert(now[j] == before[j]);
                }
            }
        } else {
            assert(now == before);
        }
        if start_refused(duplicated, count, outcomes) {
            let k = choose|k: int|
                0 < k < outcomes.len() && (#[trigger] start_run(duplicated, count, outcomes.take(k))).1 is StartService
                    && outcomes[k] == Outcome::Declined;
            if k < prev.len() {
                assert(prev.take(k) =~= outcomes.take(k));
                assert(start_refused(duplicated, count, prev));
            }
        }
    }
}

/// The start command ends successfully only if no service that it asked to
/// start was refused.
pub proof fn lemma_start_ok_only_without_refusal(duplicated: bool, count: int, outcomes: Seq<Outcome>)
    requires
        count <= usize::MAX,
        start_run(duplicated, count, outcomes).1 == StartAction::Finish(Ok(())),
    ensures
        !start_refused(duplicated, count, outcomes),
{
    if outcomes.len() > 0 {
        lemma_start_run_invariant(duplicated, count, outcomes);
    }
}

/// The start command asks for the services in the order they are given,
/// each once, and never for one past the last (`count`, the number of
/// services, is a length and so fits in a `usize`).
pub proof fn lemma_start_requests_in_order(duplicated: bool, count: int, outcomes: Seq<Outcome>)
    requires
        count <= usize::MAX,
    ensures
        start_requests(duplicated, count, outcomes).len() <= count
            || start_requests(duplicated, count, outcomes).len() == 0,
        forall|j: int| 0 <= j < start_requests(duplicated, count, outcomes).len()
            ==> #[trigger] start_requests(duplicated, count, outcomes)[j] == j,
{
    if outcomes.len() > 0 {
        lemma_start_run_invariant(duplicated, count, outcomes);
    }
}

/// A start command that names no service twice and comes to its end (it
/// did not abort on an error) has asked the daemon to start every one of
/// its `count` services: each once, in the order they were given, whether
/// or not the daemon started them.
pub proof fn lemma_start_finish_asked_for_every_service(count: int, outcomes: Seq<Outcome>)
    requires
        0 <= count <= usize::MAX,
        start_run(false, count, outcomes).1 is Finish,
    ensures
        start_requests(false, count, outcomes).len() == count,
        forall|j: int| 0 <= j < count ==> #[trigger] start_requests(false, count, outcomes)[j] == j,
{
    lemma_start_run_invariant(false, count, outcomes);
}

/// One thing that the stop command does next.
#[derive(Debug, Clone, Copy, PartialEq, Eq)]
pub enum StopAction {
    /// Connect to the service control daemon.
    Connect,
    /// Ask the daemon to stop one service.
    StopService(usize),
    /// Print that one service stopped.
    AnnounceStopped(usize),
    /// Print that one service failed to stop, with the daemon's error.
    AnnounceStopFailed(usize),
    /// End with the error of the last operation.
    Abort,
    /// End with this result.
    Finish(Result<(), CommandError>),
}

/// Where the stop command stands: the last action it took and the service
/// it is at.
#[derive(Debug, Clone, Copy, PartialEq, Eq)]
pub struct StopState {
    pub last: Option<StopAction>,
    pub current: usize,
}

impl StopState {
    /// The state before the command does anything.
    pub fn new() -> (s: StopState)
        ensures
            s.last is None,
            s.current == 0,
    {
        StopState { last: None, current: 0 }
    }
}

/// The stop command's course: a command that names a service twice ends at
/// once; otherwise it connects to the daemon (an error ends it) and sends a
/// stop request for each service. A request that cannot be sent ends the
/// command with that error; the daemon's answer is printed, success or
/// error, and the command ends successfully whatever the daemon answered.
/// `Done` stands for the daemon's success, `Declined` for its error, and
/// `Failed` for a request that could not be carried.
pub open spec fn stop_step_spec(duplicated: bool, count: int, state: StopState, outcome: Outcome) -> (StopState, StopAction) {
    let cur = state.current;
    let go = |action: StopAction, current: usize| (StopState { last: Some(action), current }, action);
    match state.last {
        None => if duplicated {
            go(StopAction::Finish(Err(CommandError::DuplicatedService)), cur)
        } else {
            go(StopAction::Connect, cur)
        },
        Some(last) => match last {
            StopAction::Connect => if outcome == Outcome::Failed {
                go(StopAction::Abort, cur)
            } else if count > 0 {
                go(StopAction::StopService(0), 0)
            } else {
                go(StopAction::Finish(Ok(())), cur)
            },
            StopAction::StopService(_) => if outcome == Outcome::Failed {
                go(StopAction::Abort, cur)
            } else if outcome == Outcome::Done {
                go(StopAction::AnnounceStopped(cur), cur)
            } else {
                go(StopAction::AnnounceStopFailed(cur), cur)
            },
            StopAction::AnnounceStopped(_) => if cur + 1 < count {
                go(StopAction::StopService((cur + 1) as usize), (cur + 1) as usize)
            } else {
                go(StopAction::Finish(Ok(())), cur)
            },
            StopAction::AnnounceStopFailed(_) => if cur + 1 < count {
                go(StopAction::StopService((cur + 1) as usize), (cur + 1) as usize)
            } else {
                go(StopAction::Finish(Ok(())), cur)
            },
            StopAction::Abort => (state, StopAction::Abort),
            StopAction::Finish(r) => (state, StopAction::Finish(r)),
        },
    }
}

impl StopCommand {
    fn stop_to(&self, action: StopAction, current: usize) -> (r: (StopState, StopAction))
        ensures
            r == (StopState { last: Some(action), current }, action),
    {
        (StopState { last: Some(action), current }, action)
    }

    fn after_answer(&self, state: StopState) -> (r: (StopState, StopAction))
        ensures
            r == (if state.current + 1 < self.services.len() {
                (
                    StopState {
                        last: Some(StopAction::StopService((state.current + 1) as usize)),
                        current: (state.current + 1) as usize,
                    },
                    StopAction::StopService((state.current + 1) as usize),
                )
            } else {
                (StopState { last: Some(StopAction::Finish(Ok(()))), current: state.current }, StopAction::Finish(Ok(())))
            }),
    {
        let n = self.services.len();
        let cur = state.current;
        if n > 0 && cur < n - 1 {
            self.stop_to(StopAction::StopService(cur + 1), cur + 1)
        } else {
            self.stop_to(StopAction::Finish(Ok(())), cur)
        }
    }

    /// What the command does next, once the last action it took turned out
    /// as `outcome` (the outcome is not looked at before the first action).
    pub fn next(&self, state: StopState, outcome: Outcome) -> (r: (StopState, StopAction))
        ensures
            r == stop_step_spec(
                has_duplicate(self.services.deep_view()),
                self.services.len() as int,
                state,
                outcome,
            ),
    {
        let cur = state.current;
        match state.last {
            None => {
                if find_duplicate(&self.services) {
                    self.stop_to(StopAction::Finish(Err(CommandError::DuplicatedService)), cur)
                } else {
                    self.stop_to(StopAction::Connect, cur)
                }
            },
            Some(last) => match last {
                StopAction::Connect => {
                    if outcome == Outcome::Failed {
                        self.stop_to(StopAction::Abort, cur)
                    } else if self.services.len() > 0 {
                        self.stop_to(StopAction::StopService(0), 0)
                    } else {
                        self.stop_to(StopAction::Finish(Ok(())), cur)
                    }
                },
                StopAction::StopService(_) => {
                    if outcome == Outcome::Failed {
                        self.stop_to(StopAction::Abort, cur)
                    } else if outcome == Outcome::Done {
                        self.stop_to(StopAction::AnnounceStopped(cur), cur)
                    } else {
                        self.stop_to(StopAction::AnnounceStopFailed(cur), cur)
                    }
                },
                StopAction::AnnounceStopped(_) => self.after_answer(state),
                StopAction::AnnounceStopFailed(_) => self.after_answer(state),
                StopAction::Abort => (state, StopAction::Abort),
                StopAction::Finish(r) => (state, StopAction::Finish(r)),
            },
        }
    }
}

/// The stop command never ends with an error of its own once it has
/// connected: it ends successfully, or with the error of a request that
/// could not be carried.
pub proof fn lemma_stop_never_fails_on_answers(count: int, state: StopState, outcome: Outcome)
    requires
        state.last is Some,
        !(state.last matches Some(StopAction::Finish(Err(_)))),
    ensures
        !(stop_step_spec(false, count, state, outcome).1 matches StopAction::Finish(Err(_))),
{
}

} // verus!
