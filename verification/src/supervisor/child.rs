//! Exit status of a supervised process.

use vstd::prelude::*;
use crate::error::Result;
use crate::os::unix::process::{kill_step, status_step, KillAction, KillEvent, KillPhase, Pid, WaitOutcome};

verus! {

/// The raw status word of a process, or nothing while it is still running.
#[derive(Clone, Copy, Debug, PartialEq, Eq, Structural)]
pub struct HabExitStatus {
    pub status: Option<u32>,
}

impl HabExitStatus {
    /// A status for a process that has not terminated.
    pub fn running() -> (r: HabExitStatus)
        ensures
            r.status is None,
    {
        HabExitStatus { status: None }
    }

    /// A status holding the raw word `status`.
    pub fn new(status: u32) -> (r: HabExitStatus)
        ensures
            r.status == Some(status),
    {
        HabExitStatus { status: Some(status) }
    }

    /// True while no terminal status has been observed.
    pub fn no_status(&self) -> (r: bool)
        ensures
            r == (self.status is None),
    {
        self.status.is_none()
    }
}

/// How a termination ended.
#[derive(Clone, Copy, Debug, PartialEq, Eq, Structural)]
pub enum ShutdownMethod {
    /// The process had exited before anything was sent.
    AlreadyExited,
    /// The process left after the graceful signal.
    GracefulTermination,
    /// The grace period ran out and the process was killed.
    Killed,
}

/// How a platform reads a raw status word.
pub trait ExitStatusExt {
    /// The exit code, where the process ended by itself.
    fn code(&self) -> Option<u32>;

    /// The number of the signal that ended the process, where one did.
    fn signal(&self) -> Option<u32>;
}

/// The worker process as the launcher tracks it, whatever the platform.
#[derive(Debug)]
pub struct Child(crate::os::unix::process::Child);

impl Child {
    /// The identifier of the process.
    pub closed spec fn spec_id(&self) -> Pid {
        self.0.spec_id()
    }

    /// The terminal status that has been observed, if any.
    pub closed spec fn cached(&self) -> Option<u32> {
        self.0.cached()
    }

    /// Whether a termination has ended the process.
    pub closed spec fn ended(&self) -> bool {
        self.0.ended()
    }

    /// Tracks the process `pid`, of which no status is known yet.
    pub fn from(pid: Pid) -> (r: Result<Child>)
        ensures
            r is Ok,
            r.unwrap().spec_id() == pid,
            r.unwrap().cached() is None,
            !r.unwrap().ended(),
    {
        match crate::os::unix::process::Child::new(pid) {
            Ok(child) => Ok(Child(child)),
            Err(e) => Err(e),
        }
    }

    pub fn id(&self) -> (r: Pid)
        ensures
            r == self.spec_id(),
    {
        self.0.id()
    }

    /// Whether the operating system still has to be asked for the status.
    pub fn needs_poll(&self) -> (r: bool)
        ensures
            r == (self.cached() is None),
    {
        self.0.needs_poll()
    }

    /// The status of the process: the cached one where there is one, else
    /// what `polled` reports, which is cached if it is terminal.
    pub fn status(&mut self, polled: WaitOutcome) -> (r: Result<HabExitStatus>)
        ensures
            final(self).spec_id() == old(self).spec_id(),
            final(self).ended() == old(self).ended(),
            (r, final(self).cached()) == status_step(old(self).cached(), polled),
    {
        self.0.status(polled)
    }

    /// One step of terminating the process with a grace period of `grace`
    /// milliseconds.
    pub fn kill(&mut self, phase: KillPhase, event: KillEvent, grace: u64) -> (r: (
        KillPhase,
        KillAction,
    ))
        ensures
            final(self).spec_id() == old(self).spec_id(),
            (r.0, r.1, final(self).cached(), final(self).ended()) == kill_step(
                old(self).spec_id(),
                old(self).cached(),
                old(self).ended(),
                phase,
                event,
                grace,
            ),
    {
        self.0.kill(phase, event, grace)
    }
}

} // verus!
