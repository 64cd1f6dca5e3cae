//! A spawned process under console rules: no signals, no enforced identity.

use vstd::prelude::*;
use vstd::string::*;
use crate::error::{Error, Result};
use crate::os::command::{bindings, texts, CommandPlan, CommandPlanView, StdioMode};
use crate::supervisor::child::{ExitStatusExt, HabExitStatus, ShutdownMethod};

verus! {

/// The exit code that the system reports for a process that has not exited.
pub const STILL_ACTIVE: u32 = 259;

/// Milliseconds that a process is given to leave after the control event.
pub const GRACE_PERIOD_MS: u64 = 8000;

/// The exit code given to a process that is terminated by force.
pub const FORCED_EXIT_CODE: u32 = 1;

/// A status word read the console way: it is the exit code, and no signal
/// ever ends a process.
#[derive(Clone, Copy, Debug, PartialEq, Eq, Structural)]
pub struct ExitCode(pub HabExitStatus);

impl ExitStatusExt for ExitCode {
    fn code(&self) -> (r: Option<u32>)
        ensures
            r == self.0.status,
    {
        self.0.status
    }

    fn signal(&self) -> (r: Option<u32>)
        ensures
            r is None,
    {
        None
    }
}

/// Where a termination stands between two steps.
#[derive(Clone, Copy, Debug, PartialEq, Eq, Structural)]
pub enum KillPhase {
    /// Nothing has been done yet.
    Idle,
    /// The launcher is switching off its own handling of the control event.
    Shielding,
    /// The control event is being raised.
    Interrupting,
    /// The control event was raised; the process is polled until `deadline`.
    Waiting { deadline: u64 },
    /// The process is being terminated by force.
    Terminating,
    /// The launcher is switching its handling of the control event back on;
    /// `outcome` is what the termination will report.
    Restoring { outcome: KillAction },
}

/// What the operating system answered to the last action.
#[derive(Clone, Copy, Debug, PartialEq, Eq, Structural)]
pub enum KillEvent {
    /// Nothing yet: the termination begins.
    Start,
    /// A system call returned; `now` is the clock in milliseconds.
    Called { succeeded: bool, now: u64 },
    /// The exit code was asked for, `None` where the query failed; `now` is
    /// the clock in milliseconds.
    Polled { code: Option<u32>, now: u64 },
}

/// What the caller does next.
#[derive(Clone, Copy, Debug, PartialEq, Eq, Structural)]
pub enum KillAction {
    /// Switch off the launcher's handling of the control event, answer with `Called`.
    ShieldLauncher,
    /// Raise the control event, answer with `Called`.
    Interrupt,
    /// Ask for the exit code of the process behind this handle, unless it is
    /// cached by now; answer with `Polled`.
    Poll(u64),
    /// Terminate the process behind this handle with this exit code, answer with `Called`.
    Terminate(u64, u32),
    /// Switch the launcher's handling of the control event back on, answer with `Called`.
    UnshieldLauncher,
    /// The termination is over.
    Done(ShutdownMethod),
    /// The termination failed and there is nothing left to try.
    Failed(Error),
}

/// The deadline of a grace period of `grace` milliseconds that starts at `now`.
pub open spec fn deadline_after(now: u64, grace: u64) -> u64 {
    if now + grace > u64::MAX {
        u64::MAX
    } else {
        (now + grace) as u64
    }
}

/// The status that a poll yields, and the status cached afterwards, given the
/// status cached before and the exit code that the system reported.
pub open spec fn status_step(cached: Option<u32>, polled: Option<u32>) -> (
    Result<HabExitStatus>,
    Option<u32>,
) {
    match cached {
        Some(s) => (Ok(HabExitStatus { status: Some(s) }), cached),
        None => match polled {
            None => (Err(Error::WaitpidFailed), None),
            Some(code) => if code == STILL_ACTIVE {
                (Ok(HabExitStatus { status: None }), None)
            } else {
                (Ok(HabExitStatus { status: Some(code) }), Some(code))
            },
        },
    }
}

/// What a termination reports once the launcher's handling of the control
/// event is back on: only what a termination can end with is kept, a process
/// that left or was killed or a failure; anything else counts as a failed
/// termination.
pub open spec fn restored(outcome: KillAction) -> KillAction {
    match outcome {
        KillAction::Done(ShutdownMethod::GracefulTermination)
        | KillAction::Done(ShutdownMethod::Killed)
        | KillAction::Failed(_) => outcome,
        _ => KillAction::Failed(Error::TerminateProcessFailed),
    }
}

/// One step of terminating a process that no termination has ended yet: the
/// next phase, the next action, and the status cached afterwards. `handle` is
/// the handle of the process, 0 where there is none.
pub open spec fn live_step(
    handle: u64,
    cached: Option<u32>,
    phase: KillPhase,
    event: KillEvent,
    grace: u64,
) -> (KillPhase, KillAction, Option<u32>) {
    match phase {
        KillPhase::Idle => if cached is Some {
            (KillPhase::Idle, KillAction::Done(ShutdownMethod::AlreadyExited), cached)
        } else {
            (KillPhase::Shielding, KillAction::ShieldLauncher, cached)
        },
        KillPhase::Shielding => match event {
            KillEvent::Called { succeeded, now } => if succeeded {
                (KillPhase::Interrupting, KillAction::Interrupt, cached)
            } else {
                (KillPhase::Terminating, KillAction::Terminate(handle, FORCED_EXIT_CODE), cached)
            },
            _ => (phase, KillAction::ShieldLauncher, cached),
        },
        KillPhase::Interrupting => match event {
            KillEvent::Called { succeeded, now } => if succeeded {
                (
                    KillPhase::Waiting { deadline: deadline_after(now, grace) },
                    KillAction::Poll(handle),
                    cached,
                )
            } else {
                (KillPhase::Terminating, KillAction::Terminate(handle, FORCED_EXIT_CODE), cached)
            },
            _ => (phase, KillAction::Interrupt, cached),
        },
        KillPhase::Waiting { deadline } => match event {
            KillEvent::Polled { code, now } => if now > deadline {
                (KillPhase::Terminating, KillAction::Terminate(handle, FORCED_EXIT_CODE), cached)
            } else {
                let after = status_step(cached, code).1;
                if after is Some {
                    (
                        KillPhase::Restoring {
                            outcome: KillAction::Done(ShutdownMethod::GracefulTermination),
                        },
                        KillAction::UnshieldLauncher,
                        after,
                    )
                } else {
                    (phase, KillAction::Poll(handle), after)
                }
            },
            _ => (phase, KillAction::Poll(handle), cached),
        },
        KillPhase::Terminating => match event {
            KillEvent::Called { succeeded, now } => if succeeded {
                (
                    KillPhase::Restoring { outcome: KillAction::Done(ShutdownMethod::Killed) },
                    KillAction::UnshieldLauncher,
                    cached,
                )
            } else {
                (
                    KillPhase::Restoring {
                        outcome: KillAction::Failed(Error::TerminateProcessFailed),
                    },
                    KillAction::UnshieldLauncher,
                    cached,
                )
            },
            _ => (phase, KillAction::Terminate(handle, FORCED_EXIT_CODE), cached),
        },
        KillPhase::Restoring { outcome } => match event {
            KillEvent::Called { succeeded, now } => (KillPhase::Idle, restored(outcome), cached),
            _ => (phase, KillAction::UnshieldLauncher, cached),
        },
    }
}

/// Whether an action says that the process is gone by this termination.
pub open spec fn ends_process(action: KillAction) -> bool {
    action == KillAction::Done(ShutdownMethod::GracefulTermination) || action == KillAction::Done(
        ShutdownMethod::Killed,
    )
}

/// One step of a termination: the next phase, the next action, the status
/// cached afterwards, and whether a termination has ended the process by
/// then. `ended` says whether one had before: then the process is gone for
/// good, and whatever the phase and the event, no event is raised and nothing
/// is asked of the system any more.
pub open spec fn kill_step(
    handle: u64,
    cached: Option<u32>,
    ended: bool,
    phase: KillPhase,
    event: KillEvent,
    grace: u64,
) -> (KillPhase, KillAction, Option<u32>, bool) {
    if ended {
        (KillPhase::Idle, KillAction::Done(ShutdownMethod::AlreadyExited), cached, true)
    } else {
        let next = live_step(handle, cached, phase, event, grace);
        (next.0, next.1, next.2, ends_process(next.1))
    }
}

/// A spawned process: its identifier, the handle through which its status is
/// read, its exit code once seen, and whether a termination has ended it.
#[derive(Debug)]
pub struct Child {
    handle: Option<u64>,
    last_status: Option<u32>,
    ended: bool,
    pid: u32,
}

impl Child {
    /// The identifier of the process.
    pub closed spec fn spec_id(&self) -> u32 {
        self.pid
    }

    /// The handle of the process, where one could be had.
    pub closed spec fn spec_handle(&self) -> Option<u64> {
        self.handle
    }

    /// The exit code that has been observed, if any.
    pub closed spec fn cached(&self) -> Option<u32> {
        self.last_status
    }

    /// Whether a termination has ended the process: gracefully or by force.
    pub closed spec fn ended(&self) -> bool {
        self.ended
    }

    /// The handle as actions name it: 0 where there is none.
    pub open spec fn handle_or_zero(&self) -> u64 {
        match self.spec_handle() {
            Some(h) => h,
            None => 0,
        }
    }

    /// A process without a handle is one whose exit code is already known.
    pub open spec fn wf(&self) -> bool {
        self.spec_handle() is Some || self.cached() is Some
    }

    /// Tracks the process `pid`. `handle` is the handle that the system gave
    /// for it. Where it gave none, the process died first: then `exit_code` is
    /// what waiting for it returned, and without one there is nothing to track.
    pub fn new(pid: u32, handle: Option<u64>, exit_code: Option<u32>) -> (r: Result<Child>)
        ensures
            (handle is None && exit_code is None) <==> r is Err,
            r is Err ==> r == Err::<Child, Error>(Error::GetHabChildFailed),
            r is Ok ==> r.unwrap().wf() && r.unwrap().spec_id() == pid
                && r.unwrap().spec_handle() == handle
                && r.unwrap().cached() == (if handle is Some { None } else { exit_code })
                && !r.unwrap().ended(),
    {
        match handle {
            Some(h) => Ok(Child { handle: Some(h), last_status: None, ended: false, pid }),
            None => match exit_code {
                Some(code) => Ok(Child { handle: None, last_status: Some(code), ended: false, pid }),
                None => Err(Error::GetHabChildFailed),
            },
        }
    }

    pub fn id(&self) -> (r: u32)
        ensures
            r == self.spec_id(),
    {
        self.pid
    }

    /// The handle to release when the process is no longer tracked.
    pub fn handle(&self) -> (r: Option<u64>)
        ensures
            r == self.spec_handle(),
    {
        self.handle
    }

    /// Gives up the process and hands out its handle, which the caller closes:
    /// once, since the process is no longer there to be given up again.
    pub fn release(self) -> (r: Option<u64>)
        ensures
            r == self.spec_handle(),
    {
        self.handle
    }

    /// Whether the system still has to be asked: false once an exit code is
    /// cached, and from then on it must not be asked again.
    pub fn needs_poll(&self) -> (r: bool)
        ensures
            r == (self.cached() is None),
    {
        self.last_status.is_none()
    }

    /// The status of the process. A cached exit code is returned whatever
    /// `polled` says; otherwise `polled` decides, and an exit code is cached.
    pub fn status(&mut self, polled: Option<u32>) -> (r: Result<HabExitStatus>)
        requires
            old(self).wf(),
        ensures
            final(self).wf(),
            final(self).spec_id() == old(self).spec_id(),
            final(self).spec_handle() == old(self).spec_handle(),
            final(self).ended() == old(self).ended(),
            (r, final(self).cached()) == status_step(old(self).cached(), polled),
    {
        match self.last_status {
            Some(status) => Ok(HabExitStatus::new(status)),
            None => match polled {
                None => Err(Error::WaitpidFailed),
                Some(code) => if code == STILL_ACTIVE {
                    Ok(HabExitStatus::running())
                } else {
                    self.last_status = Some(code);
                    Ok(HabExitStatus::new(code))
                },
            },
        }
    }

    /// One step of terminating the process with a grace period of `grace`
    /// milliseconds. Start with `KillPhase::Idle` and `KillEvent::Start`, perform
    /// the action returned, and come back with the phase returned and the event
    /// that answers the action, until the action is `Done` or `Failed`. An event
    /// that does not answer the pending action has that action repeated. Once
    /// a termination has ended the process, every further step is
    /// `Done(AlreadyExited)`. A deadline that would lie beyond the largest
    /// clock value is that value.
    pub fn kill(&mut self, phase: KillPhase, event: KillEvent, grace: u64) -> (r: (
        KillPhase,
        KillAction,
    ))
        requires
            old(self).wf(),
        ensures
            final(self).wf(),
            final(self).spec_id() == old(self).spec_id(),
            final(self).spec_handle() == old(self).spec_handle(),
            (r.0, r.1, final(self).cached(), final(self).ended()) == kill_step(
                old(self).handle_or_zero(),
                old(self).cached(),
                old(self).ended(),
                phase,
                event,
                grace,
            ),
    {
        let handle = match self.handle {
            Some(h) => h,
            None => 0,
        };
        let force = KillAction::Terminate(handle, FORCED_EXIT_CODE);
        if self.ended {
            return (KillPhase::Idle, KillAction::Done(ShutdownMethod::AlreadyExited));
        }
        match phase {
            KillPhase::Idle => if self.last_status.is_some() {
                (KillPhase::Idle, KillAction::Done(ShutdownMethod::AlreadyExited))
            } else {
                (KillPhase::Shielding, KillAction::ShieldLauncher)
            },
            KillPhase::Shielding => match event {
                KillEvent::Called { succeeded, now } => if succeeded {
                    (KillPhase::Interrupting, KillAction::Interrupt)
                } else {
                    (KillPhase::Terminating, force)
                },
                _ => (phase, KillAction::ShieldLauncher),
            },
            KillPhase::Interrupting => match event {
                KillEvent::Called { succeeded, now } => if succeeded {
                    let deadline = if now > u64::MAX - grace {
                        u64::MAX
                    } else {
                        now + grace
                    };
                    (KillPhase::Waiting { deadline }, KillAction::Poll(handle))
                } else {
                    (KillPhase::Terminating, force)
                },
                _ => (phase, KillAction::Interrupt),
            },
            KillPhase::Waiting { deadline } => match event {
                KillEvent::Polled { code, now } => if now > deadline {
                    (KillPhase::Terminating, force)
                } else {
                    let exited = match self.status(code) {
                        Ok(status) => !status.no_status(),
                        Err(_) => false,
                    };
                    if exited {
                        (
                            KillPhase::Restoring {
                                outcome: KillAction::Done(ShutdownMethod::GracefulTermination),
                            },
                            KillAction::UnshieldLauncher,
                        )
                    } else {
                        (phase, KillAction::Poll(handle))
                    }
                },
                _ => (phase, KillAction::Poll(handle)),
            },
            KillPhase::Terminating => match event {
                KillEvent::Called { succeeded, now } => if succeeded {
                    (
                        KillPhase::Restoring { outcome: KillAction::Done(ShutdownMethod::Killed) },
                        KillAction::UnshieldLauncher,
                    )
                } else {
                    (
                        KillPhase::Restoring {
                            outcome: KillAction::Failed(Error::TerminateProcessFailed),
                        },
                        KillAction::UnshieldLauncher,
                    )
                },
                _ => (phase, force),
            },
            KillPhase::Restoring { outcome } => match event {
                KillEvent::Called { succeeded, now } => {
                    match outcome {
                        KillAction::Done(ShutdownMethod::GracefulTermination)
                        | KillAction::Done(ShutdownMethod::Killed) => {
                            self.ended = true;
                            (KillPhase::Idle, outcome)
                        },
                        KillAction::Failed(_) => (KillPhase::Idle, outcome),
                        _ => (KillPhase::Idle, KillAction::Failed(Error::TerminateProcessFailed)),
                    }
                },
                _ => (phase, KillAction::UnshieldLauncher),
            },
        }
    }
}

/// The command line that has the shell run the script at `path`.
pub open spec fn shell_command(path: Seq<char>) -> Seq<char> {
    "iex $(gc "@ + path + " | out-string)"@
}

/// What starting the script at `path` asks of the system, given the
/// environment `env`.
pub open spec fn exec_plan(path: Seq<char>, env: Seq<(Seq<char>, Seq<char>)>) -> CommandPlanView {
    CommandPlanView {
        program: "powershell.exe"@,
        args: seq!["-command"@, shell_command(path)],
        uid: None,
        gid: None,
        own_process_group: false,
        stdin: StdioMode::Null,
        stdout: StdioMode::Piped,
        stderr: StdioMode::Piped,
        env,
    }
}

/// Plans the start of the script at `path` through the shell. A user and a
/// group are taken, as on every platform, but this one has no means to
/// enforce them: the plan names no identity, whatever they say. Standard
/// input is closed and the output streams are captured.
pub fn exec(path: &str, svc_user: &str, svc_group: &str, env: Vec<(String, String)>) -> (r: Result<
    CommandPlan,
>)
    ensures
        r is Ok,
        r.unwrap()@ == exec_plan(path@, bindings(env@)),
{
    let script = "iex $(gc ".to_owned().concat(path).concat(" | out-string)");
    let mut args: Vec<String> = Vec::new();
    args.push("-command".to_owned());
    args.push(script);
    assert(texts(args@) =~= seq!["-command"@, shell_command(path@)]);
    Ok(
        CommandPlan {
            program: "powershell.exe".to_owned(),
            args,
            uid: None,
            gid: None,
            own_process_group: false,
            stdin: StdioMode::Null,
            stdout: StdioMode::Piped,
            stderr: StdioMode::Piped,
            env,
        },
    )
}

/// Once an exit code has been observed, every later poll returns it and leaves
/// it cached, whatever the system reports for the handle by then.
pub proof fn lemma_status_is_final(cached: Option<u32>, first: Option<u32>, later: Option<u32>)
    requires
        status_step(cached, first).1 is Some,
    ensures
        status_step(status_step(cached, first).1, later) == status_step(cached, first),
{
}

/// Terminating a process whose exit code is cached ends at once with
/// `AlreadyExited`: no event is raised, no query made, and nothing changes.
pub proof fn lemma_kill_after_exit(handle: u64, code: u32, ended: bool, event: KillEvent, grace: u64)
    ensures
        kill_step(handle, Some(code), ended, KillPhase::Idle, event, grace) == (
            KillPhase::Idle,
            KillAction::Done(ShutdownMethod::AlreadyExited),
            Some(code),
            ended,
        ),
{
}

/// A termination that is done leaves the process gone for good: whichever
/// way it ended, gracefully, by force or because the process had exited
/// before, every later termination ends at once with `AlreadyExited`, raises
/// no event, makes no query, and changes nothing.
pub proof fn lemma_kill_is_final(
    handle: u64,
    cached: Option<u32>,
    ended: bool,
    phase: KillPhase,
    event: KillEvent,
    later: KillEvent,
    grace: u64,
)
    requires
        kill_step(handle, cached, ended, phase, event, grace).1 is Done,
    ensures
        ({
            let done = kill_step(handle, cached, ended, phase, event, grace);
            kill_step(handle, done.2, done.3, KillPhase::Idle, later, grace) == (
                KillPhase::Idle,
                KillAction::Done(ShutdownMethod::AlreadyExited),
                done.2,
                done.3,
            )
        }),
{
}

/// Once a termination has ended the process, no step raises an event or asks
/// anything of the system, in whatever phase the caller believes to be and
/// whatever event it reports.
pub proof fn lemma_nothing_after_the_end(
    handle: u64,
    cached: Option<u32>,
    phase: KillPhase,
    event: KillEvent,
    grace: u64,
)
    ensures
        kill_step(handle, cached, true, phase, event, grace) == (
            KillPhase::Idle,
            KillAction::Done(ShutdownMethod::AlreadyExited),
            cached,
            true,
        ),
{
}

/// At the first poll later than `grace` milliseconds after the control event
/// the process is terminated by force, whatever the poll reports, and the
/// termination reports `Killed` once the launcher's own handling is restored.
pub proof fn lemma_escalation_bound(
    handle: u64,
    raised_at: u64,
    grace: u64,
    code: Option<u32>,
    now: u64,
    later: u64,
)
    requires
        now > raised_at + grace,
    ensures
        ({
            let waiting = kill_step(
                handle,
                None,
                false,
                KillPhase::Interrupting,
                KillEvent::Called { succeeded: true, now: raised_at },
                grace,
            );
            let escalated = kill_step(handle, None, false, waiting.0, KillEvent::Polled { code, now }, grace);
            let killed = kill_step(
                handle,
                None,
                false,
                escalated.0,
                KillEvent::Called { succeeded: true, now: later },
                grace,
            );
            let ended = kill_step(
                handle,
                None,
                false,
                killed.0,
                KillEvent::Called { succeeded: true, now: later },
                grace,
            );
            &&& escalated.1 == KillAction::Terminate(handle, FORCED_EXIT_CODE)
            &&& killed.1 == KillAction::UnshieldLauncher
            &&& ended.1 == KillAction::Done(ShutdownMethod::Killed)
            &&& ended.0 == KillPhase::Idle
            &&& ended.3
        }),
{
}

} // verus!
