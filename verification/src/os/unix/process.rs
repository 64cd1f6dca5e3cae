//! A spawned process under POSIX rules.

use vstd::prelude::*;
use vstd::string::*;
use crate::error::{Error, Result};
use crate::os::command::{bindings, texts, CommandPlan, CommandPlanView, StdioMode};
use crate::supervisor::child::{ExitStatusExt, HabExitStatus, ShutdownMethod};

verus! {

/// `libc::WIFEXITED`: true when the low seven bits of the status word are zero.
/// This is how Linux-like and BSD targets lay the status word out, and this
/// module is for those targets only.
#[verifier::external_body]
fn wait_exited(status: u32) -> (r: bool)
    ensures
        r == (status & 0x7f == 0),
{
    libc::WIFEXITED(status as libc::c_int)
}

/// `libc::WEXITSTATUS`: bits eight to fifteen of the status word, on
/// Linux-like and BSD targets.
#[verifier::external_body]
fn wait_exit_code(status: u32) -> (r: u32)
    ensures
        r == (status >> 8) & 0xff,
{
    libc::WEXITSTATUS(status as libc::c_int) as u32
}

/// `libc::WTERMSIG`: the low seven bits of the status word, on Linux-like and
/// BSD targets.
#[verifier::external_body]
fn wait_term_signal(status: u32) -> (r: u32)
    ensures
        r == status & 0x7f,
{
    libc::WTERMSIG(status as libc::c_int) as u32
}

/// The exit code that a status word carries, if the process ended by itself.
pub open spec fn exit_code_of(status: Option<u32>) -> Option<u32> {
    match status {
        Some(s) if s & 0x7f == 0 => Some((s >> 8) & 0xff),
        _ => None,
    }
}

/// The signal that a status word carries, if a signal ended the process.
pub open spec fn signal_of(status: Option<u32>) -> Option<u32> {
    match status {
        Some(s) if s & 0x7f != 0 => Some(s & 0x7f),
        _ => None,
    }
}

impl ExitStatusExt for HabExitStatus {
    fn code(&self) -> (r: Option<u32>)
        ensures
            r == exit_code_of(self.status),
    {
        match self.status {
            None => None,
            Some(status) => if wait_exited(status) {
                Some(wait_exit_code(status))
            } else {
                None
            },
        }
    }

    fn signal(&self) -> (r: Option<u32>)
        ensures
            r == signal_of(self.status),
    {
        match self.status {
            None => None,
            Some(status) => if !wait_exited(status) {
                Some(wait_term_signal(status))
            } else {
                None
            },
        }
    }
}

/// A process identifier; a negative one names a whole process group.
pub type Pid = i32;

/// Milliseconds that a process is given to leave after the graceful signal.
pub const GRACE_PERIOD_MS: u64 = 8000;

/// The longest pause, in milliseconds, that a caller may make between two polls.
pub const POLL_INTERVAL_MS: u64 = 100;

/// The two signals of a termination.
#[derive(Clone, Copy, Debug, PartialEq, Eq, Structural)]
pub enum Signal {
    /// The cooperative request to leave.
    Term,
    /// The request that cannot be ignored.
    Kill,
}

/// What a non-blocking wait on the process reported.
#[derive(Clone, Copy, Debug, PartialEq, Eq, Structural)]
pub enum WaitOutcome {
    /// The process has not changed state.
    StillRunning,
    /// The process is gone and left this raw status word.
    Exited(u32),
    /// The query itself failed.
    Failed,
}

/// Where a termination stands between two steps.
#[derive(Clone, Copy, Debug, PartialEq, Eq, Structural)]
pub enum KillPhase {
    /// Nothing has been done yet.
    Idle,
    /// The process group of the process has been asked for.
    QueryingGroup,
    /// The graceful signal is on its way to `target`.
    SendingTerm { target: Pid },
    /// The graceful signal was delivered; the process is polled until `deadline`.
    Waiting { target: Pid, deadline: u64 },
    /// The forced signal is on its way to `target`.
    SendingKill { target: Pid },
}

/// What the operating system answered to the last action.
#[derive(Clone, Copy, Debug, PartialEq, Eq, Structural)]
pub enum KillEvent {
    /// Nothing yet: the termination begins.
    Start,
    /// The process group that the process belongs to.
    Group(Pid),
    /// A signal was sent, or could not be; `now` is the clock in milliseconds.
    Signalled { delivered: bool, now: u64 },
    /// The process was polled; `now` is the clock in milliseconds.
    Polled { outcome: WaitOutcome, now: u64 },
}

/// What the caller does next.
#[derive(Clone, Copy, Debug, PartialEq, Eq, Structural)]
pub enum KillAction {
    /// Ask for the process group of this process, answer with `Group`.
    QueryGroup(Pid),
    /// Send `signal` to `target`, answer with `Signalled`.
    Signal { target: Pid, signal: Signal },
    /// Wait on this process without blocking, unless its status is cached by
    /// now; answer with `Polled`.
    Poll(Pid),
    /// The termination is over.
    Done(ShutdownMethod),
    /// The termination failed and there is nothing left to try.
    Failed(Error),
}

/// Where signals for `pid` go: to its whole group, written as the negative of
/// its identifier, when it leads the group `pgid`; to the process alone otherwise.
pub open spec fn signal_target(pid: Pid, pgid: Pid) -> Pid {
    if pid == pgid && pid > i32::MIN {
        (-pid) as Pid
    } else {
        pid
    }
}

/// The deadline of a grace period of `grace` milliseconds that starts at `now`.
pub open spec fn deadline_after(now: u64, grace: u64) -> u64 {
    if now + grace > u64::MAX {
        u64::MAX
    } else {
        (now + grace) as u64
    }
}

/// The status that a poll yields, and the status cached afterwards, given the
/// status cached before and what the operating system reported.
pub open spec fn status_step(cached: Option<u32>, polled: WaitOutcome) -> (
    Result<HabExitStatus>,
    Option<u32>,
) {
    match cached {
        Some(s) => (Ok(HabExitStatus { status: Some(s) }), cached),
        None => match polled {
            WaitOutcome::StillRunning => (Ok(HabExitStatus { status: None }), None),
            WaitOutcome::Exited(s) => (Ok(HabExitStatus { status: Some(s) }), Some(s)),
            WaitOutcome::Failed => (Err(Error::WaitpidFailed), None),
        },
    }
}

/// One step of terminating a process that no termination has ended yet: the
/// next phase, the next action, and the status cached afterwards.
pub open spec fn live_step(
    pid: Pid,
    cached: Option<u32>,
    phase: KillPhase,
    event: KillEvent,
    grace: u64,
) -> (KillPhase, KillAction, Option<u32>) {
    match phase {
        KillPhase::Idle => if cached is Some {
            (KillPhase::Idle, KillAction::Done(ShutdownMethod::AlreadyExited), cached)
        } else {
            (KillPhase::QueryingGroup, KillAction::QueryGroup(pid), cached)
        },
        KillPhase::QueryingGroup => match event {
            KillEvent::Group(pgid) => {
                let target = signal_target(pid, pgid);
                (
                    KillPhase::SendingTerm { target },
                    KillAction::Signal { target, signal: Signal::Term },
                    cached,
                )
            },
            _ => (phase, KillAction::QueryGroup(pid), cached),
        },
        KillPhase::SendingTerm { target } => match event {
            KillEvent::Signalled { delivered, now } => if delivered {
                (
                    KillPhase::Waiting { target, deadline: deadline_after(now, grace) },
                    KillAction::Poll(pid),
                    cached,
                )
            } else {
                (KillPhase::Idle, KillAction::Failed(Error::SignalFailed), cached)
            },
            _ => (phase, KillAction::Signal { target, signal: Signal::Term }, cached),
        },
        KillPhase::Waiting { target, deadline } => match event {
            KillEvent::Polled { outcome, now } => {
                let after = status_step(cached, outcome).1;
                if after is Some {
                    (
                        KillPhase::Idle,
                        KillAction::Done(ShutdownMethod::GracefulTermination),
                        after,
                    )
                } else if now > deadline {
                    (
                        KillPhase::SendingKill { target },
                        KillAction::Signal { target, signal: Signal::Kill },
                        after,
                    )
                } else {
                    (phase, KillAction::Poll(pid), after)
                }
            },
            _ => (phase, KillAction::Poll(pid), cached),
        },
        KillPhase::SendingKill { target } => match event {
            KillEvent::Signalled { delivered, now } => if delivered {
                (KillPhase::Idle, KillAction::Done(ShutdownMethod::Killed), cached)
            } else {
                (KillPhase::Idle, KillAction::Failed(Error::SignalFailed), cached)
            },
            _ => (phase, KillAction::Signal { target, signal: Signal::Kill }, cached),
        },
    }
}

/// Whether an action says that the process is gone by this termination.
pub open spec fn ends_process(action: KillAction) -> bool {
    action == KillAction::Done(ShutdownMethod::GracefulTermination) || action == KillAction::Done(
        ShutdownMethod::Killed,
    )
}

/// One step of a termination: the next phase, the next action, the status
/// cached afterwards, and whether a termination has ended the process by
/// then. `ended` says whether one had before: then the process is gone for
/// good, and whatever the phase and the event, nothing is asked of the
/// operating system any more.
pub open spec fn kill_step(
    pid: Pid,
    cached: Option<u32>,
    ended: bool,
    phase: KillPhase,
    event: KillEvent,
    grace: u64,
) -> (KillPhase, KillAction, Option<u32>, bool) {
    if ended {
        (KillPhase::Idle, KillAction::Done(ShutdownMethod::AlreadyExited), cached, true)
    } else {
        let next = live_step(pid, cached, phase, event, grace);
        (next.0, next.1, next.2, ends_process(next.1))
    }
}

/// What a non-blocking wait reported, read from the two numbers that the
/// system call leaves: `returned` is 0 while nothing changed, -1 where the
/// call failed, and otherwise `status` holds the status word.
pub fn process_status(returned: Pid, status: u32) -> (r: WaitOutcome)
    ensures
        r == (if returned == 0 {
            WaitOutcome::StillRunning
        } else if returned == -1 {
            WaitOutcome::Failed
        } else {
            WaitOutcome::Exited(status)
        }),
{
    if returned == 0 {
        WaitOutcome::StillRunning
    } else if returned == -1 {
        WaitOutcome::Failed
    } else {
        WaitOutcome::Exited(status)
    }
}

/// A spawned process: its identifier, its terminal status once seen, and
/// whether a termination has ended it.
#[derive(Debug)]
pub struct Child {
    pid: Pid,
    last_status: Option<u32>,
    ended: bool,
}

impl Child {
    /// The identifier of the process.
    pub closed spec fn spec_id(&self) -> Pid {
        self.pid
    }

    /// The terminal status that has been observed, if any.
    pub closed spec fn cached(&self) -> Option<u32> {
        self.last_status
    }

    /// Whether a termination has ended the process: gracefully or by force.
    pub closed spec fn ended(&self) -> bool {
        self.ended
    }

    /// Tracks the process `pid`, of which no status is known yet.
    pub fn new(pid: Pid) -> (r: Result<Child>)
        ensures
            r is Ok,
            r.unwrap().spec_id() == pid,
            r.unwrap().cached() is None,
            !r.unwrap().ended(),
    {
        Ok(Child { pid, last_status: None, ended: false })
    }

    pub fn id(&self) -> (r: Pid)
        ensures
            r == self.spec_id(),
    {
        self.pid
    }

    /// Whether the operating system still has to be asked: false once a
    /// terminal status is cached, and from then on it must not be asked again.
    pub fn needs_poll(&self) -> (r: bool)
        ensures
            r == (self.cached() is None),
    {
        self.last_status.is_none()
    }

    /// The status of the process. A cached terminal status is returned whatever
    /// `polled` says; otherwise `polled` decides, and a terminal status is cached.
    pub fn status(&mut self, polled: WaitOutcome) -> (r: Result<HabExitStatus>)
        ensures
            final(self).spec_id() == old(self).spec_id(),
            final(self).ended() == old(self).ended(),
            (r, final(self).cached()) == status_step(old(self).cached(), polled),
    {
        match self.last_status {
            Some(status) => Ok(HabExitStatus::new(status)),
            None => match polled {
                WaitOutcome::StillRunning => Ok(HabExitStatus::running()),
                WaitOutcome::Exited(status) => {
                    self.last_status = Some(status);
                    Ok(HabExitStatus::new(status))
                },
                WaitOutcome::Failed => Err(Error::WaitpidFailed),
            },
        }
    }

    /// One step of terminating the process with a grace period of `grace`
    /// milliseconds. Start with `KillPhase::Idle` and `KillEvent::Start`, perform
    /// the action returned, and come back with the phase returned and the event
    /// that answers the action, until the action is `Done` or `Failed`. An event
    /// that does not answer the pending action has that action repeated. Once
    /// a termination has ended the process, every further step is
    /// `Done(AlreadyExited)`. A deadline that would lie beyond the largest
    /// clock value is that value.
    pub fn kill(&mut self, phase: KillPhase, event: KillEvent, grace: u64) -> (r: (
        KillPhase,
        KillAction,
    ))
        ensures
            final(self).spec_id() == old(self).spec_id(),
            (r.0, r.1, final(self).cached(), final(self).ended()) == kill_step(
                old(self).spec_id(),
                old(self).cached(),
                old(self).ended(),
                phase,
                event,
                grace,
            ),
    {
        let pid = self.pid;
        if self.ended {
            return (KillPhase::Idle, KillAction::Done(ShutdownMethod::AlreadyExited));
        }
        match phase {
            KillPhase::Idle => if self.last_status.is_some() {
                (KillPhase::Idle, KillAction::Done(ShutdownMethod::AlreadyExited))
            } else {
                (KillPhase::QueryingGroup, KillAction::QueryGroup(pid))
            },
            KillPhase::QueryingGroup => match event {
                KillEvent::Group(pgid) => {
                    // A group leader is signalled through its group, so that
                    // no descendant outlives it.
                    let target = if pid == pgid && pid > i32::MIN {
                        -pid
                    } else {
                        pid
                    };
                    (
                        KillPhase::SendingTerm { target },
                        KillAction::Signal { target, signal: Signal::Term },
                    )
                },
                _ => (phase, KillAction::QueryGroup(pid)),
            },
            KillPhase::SendingTerm { target } => match event {
                KillEvent::Signalled { delivered, now } => if delivered {
                    let deadline = if now > u64::MAX - grace {
                        u64::MAX
                    } else {
                        now + grace
                    };
                    (KillPhase::Waiting { target, deadline }, KillAction::Poll(pid))
                } else {
                    (KillPhase::Idle, KillAction::Failed(Error::SignalFailed))
                },
                _ => (phase, KillAction::Signal { target, signal: Signal::Term }),
            },
            KillPhase::Waiting { target, deadline } => match event {
                KillEvent::Polled { outcome, now } => {
                    let exited = match self.status(outcome) {
                        Ok(status) => !status.no_status(),
                        Err(_) => false,
                    };
                    if exited {
                        self.ended = true;
                        (KillPhase::Idle, KillAction::Done(ShutdownMethod::GracefulTermination))
                    } else if now > deadline {
                        (
                            KillPhase::SendingKill { target },
                            KillAction::Signal { target, signal: Signal::Kill },
                        )
                    } else {
                        (phase, KillAction::Poll(pid))
                    }
                },
                _ => (phase, KillAction::Poll(pid)),
            },
            KillPhase::SendingKill { target } => match event {
                KillEvent::Signalled { delivered, now } => if delivered {
                    self.ended = true;
                    (KillPhase::Idle, KillAction::Done(ShutdownMethod::Killed))
                } else {
                    (KillPhase::Idle, KillAction::Failed(Error::SignalFailed))
                },
                _ => (phase, KillAction::Signal { target, signal: Signal::Kill }),
            },
        }
    }
}

/// What to tell an operator about a `Permissions` error: which name did not
/// resolve, the user's before the group's; nothing where both resolved.
pub open spec fn permissions_text(
    svc_user: Seq<char>,
    svc_group: Seq<char>,
    uid: Option<u32>,
    gid: Option<u32>,
) -> Option<Seq<char>> {
    if uid is None {
        Some("No uid for user '"@ + svc_user + "' could be found"@)
    } else if gid is None {
        Some("No gid for group '"@ + svc_group + "' could be found"@)
    } else {
        None
    }
}

/// The detail that goes with the `Permissions` error of [`exec`]: the name
/// that did not resolve. `uid` and `gid` are what `svc_user` and `svc_group`
/// resolved to.
pub fn permissions_detail(svc_user: &str, svc_group: &str, uid: Option<u32>, gid: Option<u32>) -> (r:
    Option<String>)
    ensures
        r is Some <==> permissions_text(svc_user@, svc_group@, uid, gid) is Some,
        r is Some ==> r.unwrap()@ == permissions_text(svc_user@, svc_group@, uid, gid).unwrap(),
{
    if uid.is_none() {
        Some("No uid for user '".to_owned().concat(svc_user).concat("' could be found"))
    } else if gid.is_none() {
        Some("No gid for group '".to_owned().concat(svc_group).concat("' could be found"))
    } else {
        None
    }
}

/// What starting `path` as the identity `uid`, `gid` asks of the operating
/// system, given the environment `env`.
pub open spec fn exec_plan(
    path: Seq<char>,
    uid: u32,
    gid: u32,
    env: Seq<(Seq<char>, Seq<char>)>,
) -> CommandPlanView {
    CommandPlanView {
        program: path,
        args: Seq::<Seq<char>>::empty(),
        uid: Some(uid),
        gid: Some(gid),
        own_process_group: true,
        stdin: StdioMode::Null,
        stdout: StdioMode::Piped,
        stderr: StdioMode::Piped,
        env,
    }
}

/// Plans the start of `path` under a restricted identity. `uid` and `gid` are
/// what the user and the group name resolved to, `None` where a name is
/// unknown: then nothing is planned and the error is `Permissions`. The process
/// gets a group of its own, so that signals for the launcher's group do not
/// reach it, a closed standard input and captured output streams.
pub fn exec(path: String, uid: Option<u32>, gid: Option<u32>, env: Vec<(String, String)>) -> (r:
    Result<CommandPlan>)
    ensures
        (uid is None || gid is None) ==> r == Err::<CommandPlan, Error>(Error::Permissions),
        (uid is Some && gid is Some) ==> r is Ok && r.unwrap()@ == exec_plan(
            path@,
            uid.unwrap(),
            gid.unwrap(),
            bindings(env@),
        ),
{
    let uid = match uid {
        Some(uid) => uid,
        None => return Err(Error::Permissions),
    };
    let gid = match gid {
        Some(gid) => gid,
        None => return Err(Error::Permissions),
    };
    let args: Vec<String> = Vec::new();
    assert(texts(args@) =~= Seq::<Seq<char>>::empty());
    Ok(
        CommandPlan {
            program: path,
            args,
            uid: Some(uid),
            gid: Some(gid),
            own_process_group: true,
            stdin: StdioMode::Null,
            stdout: StdioMode::Piped,
            stderr: StdioMode::Piped,
            env,
        },
    )
}

/// Once a terminal status has been observed, every later poll returns it and
/// leaves it cached, whatever the operating system reports by then.
pub proof fn lemma_status_is_final(cached: Option<u32>, first: WaitOutcome, later: WaitOutcome)
    requires
        status_step(cached, first).1 is Some,
    ensures
        status_step(status_step(cached, first).1, later) == status_step(cached, first),
        status_step(cached, first).0 == Ok::<HabExitStatus, Error>(
            HabExitStatus { status: status_step(cached, first).1 },
        ),
{
}

/// No step of a termination changes a terminal status that is cached.
pub proof fn lemma_kill_keeps_status(
    pid: Pid,
    status: u32,
    ended: bool,
    phase: KillPhase,
    event: KillEvent,
    grace: u64,
)
    ensures
        kill_step(pid, Some(status), ended, phase, event, grace).2 == Some(status),
{
}

/// Terminating a process whose terminal status is cached ends at once with
/// `AlreadyExited`: no signal is sent, no query made, and nothing changes.
pub proof fn lemma_kill_after_exit(pid: Pid, status: u32, ended: bool, event: KillEvent, grace: u64)
    ensures
        kill_step(pid, Some(status), ended, KillPhase::Idle, event, grace) == (
            KillPhase::Idle,
            KillAction::Done(ShutdownMethod::AlreadyExited),
            Some(status),
            ended,
        ),
{
}

/// A termination that is done leaves the process gone for good: whichever
/// way it ended, gracefully, by force or because the process had exited
/// before, every later termination ends at once with `AlreadyExited`, sends
/// no signal, makes no query, and changes nothing.
pub proof fn lemma_kill_is_final(
    pid: Pid,
    cached: Option<u32>,
    ended: bool,
    phase: KillPhase,
    event: KillEvent,
    later: KillEvent,
    grace: u64,
)
    requires
        kill_step(pid, cached, ended, phase, event, grace).1 is Done,
    ensures
        ({
            let done = kill_step(pid, cached, ended, phase, event, grace);
            kill_step(pid, done.2, done.3, KillPhase::Idle, later, grace) == (
                KillPhase::Idle,
                KillAction::Done(ShutdownMethod::AlreadyExited),
                done.2,
                done.3,
            )
        }),
{
}

/// Once a termination has ended the process, no step asks anything of the
/// operating system, in whatever phase the caller believes to be and whatever
/// event it reports: the identifier may belong to another process by then.
pub proof fn lemma_nothing_after_the_end(
    pid: Pid,
    cached: Option<u32>,
    phase: KillPhase,
    event: KillEvent,
    grace: u64,
)
    ensures
        kill_step(pid, cached, true, phase, event, grace) == (
            KillPhase::Idle,
            KillAction::Done(ShutdownMethod::AlreadyExited),
            cached,
            true,
        ),
{
}

/// A process that is still there at the first poll later than `grace`
/// milliseconds after the graceful signal is killed at that poll, and the
/// termination ends with `Killed` as soon as the signal is delivered.
pub proof fn lemma_escalation_bound(
    pid: Pid,
    target: Pid,
    sent_at: u64,
    grace: u64,
    outcome: WaitOutcome,
    now: u64,
    killed_at: u64,
)
    requires
        !(outcome is Exited),
        now > sent_at + grace,
    ensures
        ({
            let waiting = kill_step(
                pid,
                None,
                false,
                KillPhase::SendingTerm { target },
                KillEvent::Signalled { delivered: true, now: sent_at },
                grace,
            );
            let escalated = kill_step(
                pid,
                None,
                false,
                waiting.0,
                KillEvent::Polled { outcome, now },
                grace,
            );
            let ended = kill_step(
                pid,
                None,
                false,
                escalated.0,
                KillEvent::Signalled { delivered: true, now: killed_at },
                grace,
            );
            &&& waiting.1 == KillAction::Poll(pid)
            &&& escalated.1 == (KillAction::Signal { target, signal: Signal::Kill })
            &&& ended.1 == KillAction::Done(ShutdownMethod::Killed)
            &&& ended.0 == KillPhase::Idle
            &&& ended.3
        }),
{
}

/// Where polls are at most `POLL_INTERVAL_MS` apart, the forced signal goes
/// out no later than the grace period and one such interval after the
/// graceful one: of two polls in a row that find the process, the first at or
/// before the deadline and the second after it, the second one escalates.
pub proof fn lemma_kill_within_slack(
    pid: Pid,
    target: Pid,
    sent_at: u64,
    grace: u64,
    earlier: u64,
    now: u64,
    before: WaitOutcome,
    outcome: WaitOutcome,
)
    requires
        !(before is Exited),
        !(outcome is Exited),
        sent_at + grace <= u64::MAX,
        earlier <= sent_at + grace < now,
        now - earlier <= POLL_INTERVAL_MS,
    ensures
        ({
            let waiting = KillPhase::Waiting { target, deadline: deadline_after(sent_at, grace) };
            let first = kill_step(pid, None, false, waiting, KillEvent::Polled { outcome: before, now: earlier }, grace);
            let second = kill_step(pid, None, false, first.0, KillEvent::Polled { outcome, now }, grace);
            &&& first.1 == KillAction::Poll(pid)
            &&& second.1 == (KillAction::Signal { target, signal: Signal::Kill })
            &&& now <= sent_at + grace + POLL_INTERVAL_MS
        }),
{
}

/// Before the deadline a process that is still there is only polled again:
/// the forced signal is never sent early.
pub proof fn lemma_no_early_kill(
    pid: Pid,
    target: Pid,
    deadline: u64,
    outcome: WaitOutcome,
    now: u64,
    grace: u64,
)
    requires
        !(outcome is Exited),
        now <= deadline,
    ensures
        kill_step(
            pid,
            None,
            false,
            KillPhase::Waiting { target, deadline },
            KillEvent::Polled { outcome, now },
            grace,
        ) == (KillPhase::Waiting { target, deadline }, KillAction::Poll(pid), None::<u32>, false),
{
}

/// The graceful signal for a group leader goes to the negative of its
/// identifier, and so to every member of its group, and the forced signal
/// later goes to the same target. The one identifier that has no negative
/// is left out.
pub proof fn lemma_group_leader_target(pid: Pid, grace: u64, sent_at: u64, outcome: WaitOutcome, now: u64)
    requires
        pid > i32::MIN,
        !(outcome is Exited),
        now > sent_at + grace,
    ensures
        ({
            let asked = kill_step(pid, None, false, KillPhase::QueryingGroup, KillEvent::Group(pid), grace);
            let waiting = kill_step(
                pid,
                None,
                false,
                asked.0,
                KillEvent::Signalled { delivered: true, now: sent_at },
                grace,
            );
            let escalated = kill_step(pid, None, false, waiting.0, KillEvent::Polled { outcome, now }, grace);
            &&& asked.1 == (KillAction::Signal { target: (-pid) as Pid, signal: Signal::Term })
            &&& escalated.1 == (KillAction::Signal { target: (-pid) as Pid, signal: Signal::Kill })
        }),
{
}

} // verus!
