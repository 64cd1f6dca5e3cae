//! The launcher's side of the conversation: what to do next, given what just
//! happened. The caller owns the channels and the worker process; it performs
//! each action and reports back what came of it.

use vstd::prelude::*;
use vstd::string::*;
use crate::error::{Error, Result};
use crate::os::command::{bindings, texts, CommandPlan, CommandPlanView, StdioMode};
use crate::protocol::{
    decode, encode, kind_name, lemma_round_trip, parse_command, parse_envelope, parse_payload,
    Command, CommandView, Envelope, Kind,
};

verus! {

/// The variable through which a worker learns where its launcher listens.
pub const LAUNCHER_PIPE_ENV: &'static str = "HAB_LAUNCHER_PIPE";

/// The variable that names a worker binary to use in place of the packaged one.
pub const SUP_CMD_ENVVAR: &'static str = "HAB_SUP_BINARY";

/// The worker binary to start. `configured` is the binary that the operator
/// named, which always wins. Without one the worker's package decides:
/// `installed` says whether it was found, `packaged` is the binary found in it.
pub fn supervisor_cmd(configured: Option<String>, installed: bool, packaged: Option<String>) -> (r:
    Result<String>)
    ensures
        r == supervisor_cmd_of(configured, installed, packaged),
{
    if let Some(command) = configured {
        return Ok(command);
    }
    if !installed {
        return Err(Error::SupPackageNotFound);
    }
    match packaged {
        Some(command) => Ok(command),
        None => Err(Error::SupBinaryNotFound),
    }
}

/// The result of [`supervisor_cmd`].
pub open spec fn supervisor_cmd_of(
    configured: Option<String>,
    installed: bool,
    packaged: Option<String>,
) -> Result<String> {
    match configured {
        Some(command) => Ok(command),
        None => if !installed {
            Err(Error::SupPackageNotFound)
        } else {
            match packaged {
                Some(command) => Ok(command),
                None => Err(Error::SupBinaryNotFound),
            }
        },
    }
}

/// How a worker is started: `binary` with the rendezvous identifier `pipe` as
/// its one argument and in its environment, its standard input closed and
/// its output streams captured.
pub open spec fn worker_plan(binary: Seq<char>, pipe: Seq<char>) -> CommandPlanView {
    CommandPlanView {
        program: binary,
        args: seq![pipe],
        uid: None,
        gid: None,
        own_process_group: false,
        stdin: StdioMode::Null,
        stdout: StdioMode::Piped,
        stderr: StdioMode::Piped,
        env: seq![("HAB_LAUNCHER_PIPE"@, pipe)],
    }
}

/// Plans the start of the worker `binary` for the rendezvous `pipe`.
pub fn spawn_launcher(binary: &str, pipe: &str) -> (r: CommandPlan)
    ensures
        r@ == worker_plan(binary@, pipe@),
{
    let mut args: Vec<String> = Vec::new();
    args.push(pipe.to_owned());
    let mut env: Vec<(String, String)> = Vec::new();
    env.push((LAUNCHER_PIPE_ENV.to_owned(), pipe.to_owned()));
    assert(texts(args@) =~= seq![pipe@]);
    assert(bindings(env@) =~= seq![("HAB_LAUNCHER_PIPE"@, pipe@)]);
    CommandPlan {
        program: binary.to_owned(),
        args,
        uid: None,
        gid: None,
        own_process_group: false,
        stdin: StdioMode::Null,
        stdout: StdioMode::Piped,
        stderr: StdioMode::Piped,
        env,
    }
}

/// The bytes that sending `command` puts on the channel, or `Serialize`
/// where the command is a spawn request whose environment binds a name twice.
pub fn send(command: &Command) -> (r: Result<Vec<u8>>)
    ensures
        command@.fits(),
        command@.well_formed() ==> r is Ok && r.unwrap()@ == command@.wire(),
        !command@.well_formed() ==> r == Err::<Vec<u8>, Error>(Error::Serialize),
{
    encode(command)
}

/// The worker's reply channel, as its first message names it. `accepted` is
/// that first message, `None` where no worker connected.
pub fn setup_connection(accepted: Option<&[u8]>) -> (r: Result<String>)
    ensures
        r is Ok <==> accepted is Some && parse_command(accepted.unwrap()@, Kind::Register) is Some,
        r is Ok ==> parse_command(accepted.unwrap()@, Kind::Register) == Some(
            CommandView::Register { pipe: r.unwrap()@ },
        ),
        accepted is None ==> r == Err::<String, Error>(Error::AcceptConn),
        accepted is Some && r is Err ==> r == Err::<String, Error>(Error::Deserialize),
{
    let raw = match accepted {
        Some(raw) => raw,
        None => return Err(Error::AcceptConn),
    };
    match decode(raw, Kind::Register) {
        Ok(Command::Register { pipe }) => Ok(pipe),
        _ => Err(Error::Deserialize),
    }
}

/// Why a message was dropped.
#[derive(Clone, Copy, Debug, PartialEq, Eq, Structural)]
pub enum Dropped {
    /// Its envelope names a kind that the launcher does not serve.
    UnknownKind,
    /// It is no envelope, or its payload is not of the kind that it names.
    Malformed,
}

/// What the launcher makes of one message from the worker.
#[derive(Clone, Debug, PartialEq, Eq)]
pub enum Dispatch {
    /// Start the process that this spawn request describes, then reply.
    Launch(Command),
    /// Log the reason and go on; nothing is replied.
    Drop(Dropped),
}

/// What the launcher makes of one message, as a mathematical value.
pub enum DispatchView {
    Launch(CommandView),
    Drop(Dropped),
}

impl View for Dispatch {
    type V = DispatchView;

    open spec fn view(&self) -> DispatchView {
        match self {
            Dispatch::Launch(c) => DispatchView::Launch(c@),
            Dispatch::Drop(d) => DispatchView::Drop(*d),
        }
    }
}

/// What the launcher makes of the message in `bytes`: a well-formed spawn
/// request is launched, anything else is dropped.
pub open spec fn dispatch_of(bytes: Seq<u8>) -> DispatchView {
    match parse_envelope(bytes) {
        None => DispatchView::Drop(Dropped::Malformed),
        Some(envelope) => if envelope.message_id == kind_name(Kind::Spawn) {
            match parse_payload(envelope.payload, Kind::Spawn) {
                Some(c) => DispatchView::Launch(c),
                None => DispatchView::Drop(Dropped::Malformed),
            }
        } else {
            DispatchView::Drop(Dropped::UnknownKind)
        },
    }
}

/// Decides what to do with one message from the worker.
pub fn dispatch(bytes: &[u8]) -> (r: Dispatch)
    ensures
        r@ == dispatch_of(bytes@),
{
    let envelope = match Envelope::decode(bytes) {
        Ok(envelope) => envelope,
        Err(_) => return Dispatch::Drop(Dropped::Malformed),
    };
    if envelope.message_id == Kind::Spawn.name() {
        match Command::parse(envelope.payload.as_slice(), Kind::Spawn) {
            Ok(c) => Dispatch::Launch(c),
            Err(_) => Dispatch::Drop(Dropped::Malformed),
        }
    } else {
        Dispatch::Drop(Dropped::UnknownKind)
    }
}

/// The reply to a spawn request: `Ok` where the launch went through, else an
/// error message whose reason is the description of what went wrong.
pub open spec fn reply_for(outcome: Option<Error>) -> CommandView {
    match outcome {
        None => CommandView::Okay,
        Some(e) => CommandView::Error { reason: e.description_text() },
    }
}

/// The bytes of the reply to a spawn request whose launch ended in `outcome`.
pub fn launch_reply(outcome: Option<Error>) -> (r: Vec<u8>)
    ensures
        r@ == reply_for(outcome).wire(),
        reply_for(outcome).fits(),
{
    match outcome {
        None => encode(&Command::Okay).unwrap(),
        Some(e) => encode(&Command::Error { reason: e.description() }).unwrap(),
    }
}

/// Where one incarnation of the worker stands.
#[derive(Clone, Copy, Debug, PartialEq, Eq, Structural)]
pub enum RunState {
    /// Nothing has been done for this incarnation.
    Start,
    /// The rendezvous is being created.
    OpeningPipe,
    /// The worker is being started.
    Spawning,
    /// The worker's first message is awaited.
    Accepting,
    /// The worker's reply channel is being opened.
    Connecting,
    /// The acknowledgement of the registration is on its way.
    Greeting,
    /// The next message from the worker is awaited.
    Serving,
    /// A process is being started for the worker.
    Launching,
    /// The reply to a spawn request is on its way.
    Replying,
    /// The channel broke; the worker's exit status is awaited.
    Waiting,
}

/// What came of the last action.
#[derive(Clone, Debug, PartialEq, Eq)]
pub enum RunEvent {
    /// Nothing yet.
    Begin,
    /// The rendezvous and its identifier, or `None` where none could be made.
    PipeOpened(Option<String>),
    /// Whether the worker was started.
    Spawned(bool),
    /// The worker's first message, or `None` where no worker connected.
    Accepted(Option<Vec<u8>>),
    /// Whether the worker's reply channel was opened.
    Connected(bool),
    /// Whether the bytes were handed to the channel.
    Sent(bool),
    /// The next message, or `None` where the channel is broken.
    Received(Option<Vec<u8>>),
    /// What went wrong with a launch, or `None` where it went through.
    Launched(Option<Error>),
    /// The worker's exit status, or `None` where it could not be had.
    Exited(Option<i32>),
}

/// What the caller does next.
#[derive(Clone, Debug, PartialEq, Eq)]
pub enum RunAction {
    /// Create a rendezvous; answer with `PipeOpened`.
    OpenPipe,
    /// Start the worker as planned; answer with `Spawned`.
    SpawnWorker(CommandPlan),
    /// Accept the worker's connection; answer with `Accepted`.
    Accept,
    /// Open the channel that this identifier names; answer with `Connected`.
    Connect(String),
    /// Send these bytes to the worker; answer with `Sent`.
    Send(Vec<u8>),
    /// Wait for the worker's next message; answer with `Received`.
    Receive,
    /// Log that a message was dropped, then wait for the next; answer with `Received`.
    Skip(Dropped),
    /// Start the process that this spawn request describes, without waiting
    /// for it to end; answer with `Launched`.
    Launch(Command),
    /// Wait for the worker to exit; answer with `Exited`.
    AwaitExit,
    /// The incarnation is over: the worker left with this status.
    Return(i32),
    /// The incarnation is over: it failed.
    Fail(Error),
}

/// An action as a mathematical value.
pub enum RunActionView {
    OpenPipe,
    SpawnWorker(CommandPlanView),
    Accept,
    Connect(Seq<char>),
    Send(Seq<u8>),
    Receive,
    Skip(Dropped),
    Launch(CommandView),
    AwaitExit,
    Return(i32),
    Fail(Error),
}

impl View for RunAction {
    type V = RunActionView;

    open spec fn view(&self) -> RunActionView {
        match self {
            RunAction::OpenPipe => RunActionView::OpenPipe,
            RunAction::SpawnWorker(plan) => RunActionView::SpawnWorker(plan@),
            RunAction::Accept => RunActionView::Accept,
            RunAction::Connect(pipe) => RunActionView::Connect(pipe@),
            RunAction::Send(bytes) => RunActionView::Send(bytes@),
            RunAction::Receive => RunActionView::Receive,
            RunAction::Skip(d) => RunActionView::Skip(*d),
            RunAction::Launch(c) => RunActionView::Launch(c@),
            RunAction::AwaitExit => RunActionView::AwaitExit,
            RunAction::Return(status) => RunActionView::Return(*status),
            RunAction::Fail(e) => RunActionView::Fail(*e),
        }
    }
}

/// One step of an incarnation: the next state and the next action. An event
/// that does not answer the pending action counts as that action having
/// failed. An incarnation that is over leaves the state `Start`, from which
/// the next one begins.
pub open spec fn run_step(state: RunState, event: RunEvent, binary: Seq<char>) -> (
    RunState,
    RunActionView,
) {
    match state {
        RunState::Start => (RunState::OpeningPipe, RunActionView::OpenPipe),
        RunState::OpeningPipe => match event {
            RunEvent::PipeOpened(Some(pipe)) => (
                RunState::Spawning,
                RunActionView::SpawnWorker(worker_plan(binary, pipe@)),
            ),
            _ => (RunState::Start, RunActionView::Fail(Error::OpenPipe)),
        },
        RunState::Spawning => match event {
            RunEvent::Spawned(true) => (RunState::Accepting, RunActionView::Accept),
            _ => (RunState::Start, RunActionView::Fail(Error::Spawn)),
        },
        RunState::Accepting => match event {
            RunEvent::Accepted(Some(raw)) => match parse_command(raw@, Kind::Register) {
                Some(CommandView::Register { pipe }) => (
                    RunState::Connecting,
                    RunActionView::Connect(pipe),
                ),
                _ => (RunState::Start, RunActionView::Fail(Error::Deserialize)),
            },
            _ => (RunState::Start, RunActionView::Fail(Error::AcceptConn)),
        },
        RunState::Connecting => match event {
            RunEvent::Connected(true) => (
                RunState::Greeting,
                RunActionView::Send(CommandView::Okay.wire()),
            ),
            _ => (RunState::Start, RunActionView::Fail(Error::Connect)),
        },
        RunState::Greeting => match event {
            RunEvent::Sent(true) => (RunState::Serving, RunActionView::Receive),
            _ => (RunState::Start, RunActionView::Fail(Error::Send)),
        },
        RunState::Serving => match event {
            RunEvent::Received(Some(bytes)) => match dispatch_of(bytes@) {
                DispatchView::Launch(c) => (RunState::Launching, RunActionView::Launch(c)),
                DispatchView::Drop(d) => (RunState::Serving, RunActionView::Skip(d)),
            },
            _ => (RunState::Waiting, RunActionView::AwaitExit),
        },
        RunState::Launching => match event {
            RunEvent::Launched(outcome) => (
                RunState::Replying,
                RunActionView::Send(reply_for(outcome).wire()),
            ),
            _ => (RunState::Replying, RunActionView::Send(reply_for(Some(Error::Spawn)).wire())),
        },
        RunState::Replying => match event {
            RunEvent::Sent(true) => (RunState::Serving, RunActionView::Receive),
            _ => (RunState::Start, RunActionView::Fail(Error::Send)),
        },
        RunState::Waiting => match event {
            RunEvent::Exited(Some(status)) => (RunState::Start, RunActionView::Return(status)),
            _ => (RunState::Start, RunActionView::Fail(Error::SupShutdown)),
        },
    }
}

/// One step of running the worker `binary`. Start with `RunState::Start` and
/// `RunEvent::Begin`, perform the action returned, and come back with the
/// state returned and the event that answers the action, until the action is
/// `Return` or `Fail`. `binary` is read in one step only, the one that
/// answers `OpenPipe`: a caller may look the binary up once the rendezvous
/// stands, and pass anything before and after.
pub fn run(state: RunState, event: RunEvent, binary: &str) -> (r: (RunState, RunAction))
    ensures
        (r.0, r.1@) == run_step(state, event, binary@),
{
    match state {
        RunState::Start => (RunState::OpeningPipe, RunAction::OpenPipe),
        RunState::OpeningPipe => match event {
            RunEvent::PipeOpened(Some(pipe)) => (
                RunState::Spawning,
                RunAction::SpawnWorker(spawn_launcher(binary, pipe.as_str())),
            ),
            _ => (RunState::Start, RunAction::Fail(Error::OpenPipe)),
        },
        RunState::Spawning => match event {
            RunEvent::Spawned(true) => (RunState::Accepting, RunAction::Accept),
            _ => (RunState::Start, RunAction::Fail(Error::Spawn)),
        },
        RunState::Accepting => match event {
            RunEvent::Accepted(Some(raw)) => match setup_connection(Some(raw.as_slice())) {
                Ok(pipe) => (RunState::Connecting, RunAction::Connect(pipe)),
                Err(e) => (RunState::Start, RunAction::Fail(e)),
            },
            _ => (RunState::Start, RunAction::Fail(Error::AcceptConn)),
        },
        RunState::Connecting => match event {
            RunEvent::Connected(true) => (
                RunState::Greeting,
                RunAction::Send(send(&Command::Okay).unwrap()),
            ),
            _ => (RunState::Start, RunAction::Fail(Error::Connect)),
        },
        RunState::Greeting => match event {
            RunEvent::Sent(true) => (RunState::Serving, RunAction::Receive),
            _ => (RunState::Start, RunAction::Fail(Error::Send)),
        },
        RunState::Serving => match event {
            RunEvent::Received(Some(bytes)) => match dispatch(bytes.as_slice()) {
                Dispatch::Launch(c) => (RunState::Launching, RunAction::Launch(c)),
                Dispatch::Drop(d) => (RunState::Serving, RunAction::Skip(d)),
            },
            _ => (RunState::Waiting, RunAction::AwaitExit),
        },
        RunState::Launching => match event {
            RunEvent::Launched(outcome) => (RunState::Replying, RunAction::Send(launch_reply(outcome))),
            _ => (RunState::Replying, RunAction::Send(launch_reply(Some(Error::Spawn)))),
        },
        RunState::Replying => match event {
            RunEvent::Sent(true) => (RunState::Serving, RunAction::Receive),
            _ => (RunState::Start, RunAction::Fail(Error::Send)),
        },
        RunState::Waiting => match event {
            RunEvent::Exited(Some(status)) => (RunState::Start, RunAction::Return(status)),
            _ => (RunState::Start, RunAction::Fail(Error::SupShutdown)),
        },
    }
}

/// The worker binary matters to one step only, the one that plans the
/// worker's start once the rendezvous stands.
pub proof fn lemma_binary_is_read_once(state: RunState, event: RunEvent, a: Seq<char>, b: Seq<char>)
    requires
        state != RunState::OpeningPipe,
    ensures
        run_step(state, event, a) == run_step(state, event, b),
{
}

/// A message that is no envelope is dropped and the launcher keeps serving;
/// a well-formed spawn request that arrives next is launched as it was sent.
pub proof fn lemma_bad_frame_is_skipped(bad: Vec<u8>, next: Vec<u8>, request: CommandView, binary: Seq<char>)
    requires
        parse_envelope(bad@) is None,
        request is Spawn,
        request.fits(),
        request.well_formed(),
        next@ == request.wire(),
    ensures
        run_step(RunState::Serving, RunEvent::Received(Some(bad)), binary) == (
            RunState::Serving,
            RunActionView::Skip(Dropped::Malformed),
        ),
        run_step(RunState::Serving, RunEvent::Received(Some(next)), binary) == (
            RunState::Launching,
            RunActionView::Launch(request),
        ),
{
    lemma_round_trip(request);
}

/// Once the channel is broken the worker's exit status is awaited, and that
/// status is what the incarnation returns.
pub proof fn lemma_exit_status_is_returned(status: i32, binary: Seq<char>)
    ensures
        run_step(RunState::Serving, RunEvent::Received(None), binary) == (
            RunState::Waiting,
            RunActionView::AwaitExit,
        ),
        run_step(RunState::Waiting, RunEvent::Exited(Some(status)), binary) == (
            RunState::Start,
            RunActionView::Return(status),
        ),
{
}

} // verus!
