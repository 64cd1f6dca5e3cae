//! The worker's side of the conversation. The caller owns the channels; it
//! performs each action and reports back what came of it.

use vstd::prelude::*;
use crate::error::{Error, Result};
use crate::os::command::bindings;
use crate::protocol::{decode, distinct_names, encode, parse_command, Command, CommandView, Kind};

verus! {

/// Where the connection to the launcher stands.
#[derive(Clone, Copy, Debug, PartialEq, Eq, Structural)]
pub enum ConnectState {
    /// Nothing has been done.
    Start,
    /// The launcher's channel is being opened.
    Connecting,
    /// The worker's own rendezvous is being created.
    OpeningPipe,
    /// The registration is on its way.
    Registering,
    /// The launcher's acknowledgement is awaited.
    Accepting,
    /// Both channels stand.
    Ready,
}

/// What came of the last action.
#[derive(Clone, Debug, PartialEq, Eq)]
pub enum ConnectEvent {
    /// Nothing yet.
    Begin,
    /// Whether the launcher's channel was opened.
    Connected(bool),
    /// The identifier of the worker's rendezvous, or `None` where none could be made.
    PipeOpened(Option<String>),
    /// Whether the bytes were handed to the channel.
    Sent(bool),
    /// The launcher's first message, or `None` where it never connected.
    Accepted(Option<Vec<u8>>),
}

/// What the caller does next.
#[derive(Clone, Debug, PartialEq, Eq)]
pub enum ConnectAction {
    /// Open the channel that this identifier names; answer with `Connected`.
    Connect(String),
    /// Create a rendezvous; answer with `PipeOpened`.
    OpenPipe,
    /// Send these bytes to the launcher; answer with `Sent`.
    Send(Vec<u8>),
    /// Accept the launcher's connection; answer with `Accepted`.
    Accept,
    /// The client is ready for requests.
    Ready,
    /// The connection failed.
    Fail(Error),
}

/// An action as a mathematical value.
pub enum ConnectActionView {
    Connect(Seq<char>),
    OpenPipe,
    Send(Seq<u8>),
    Accept,
    Ready,
    Fail(Error),
}

impl View for ConnectAction {
    type V = ConnectActionView;

    open spec fn view(&self) -> ConnectActionView {
        match self {
            ConnectAction::Connect(pipe) => ConnectActionView::Connect(pipe@),
            ConnectAction::OpenPipe => ConnectActionView::OpenPipe,
            ConnectAction::Send(bytes) => ConnectActionView::Send(bytes@),
            ConnectAction::Accept => ConnectActionView::Accept,
            ConnectAction::Ready => ConnectActionView::Ready,
            ConnectAction::Fail(e) => ConnectActionView::Fail(*e),
        }
    }
}

/// One step of connecting to the launcher that listens under `pipe`: the next
/// state and the next action. An event that does not answer the pending action
/// counts as that action having failed, and a failed connection starts over.
pub open spec fn connect_step(state: ConnectState, event: ConnectEvent, pipe: Seq<char>) -> (
    ConnectState,
    ConnectActionView,
) {
    match state {
        ConnectState::Start => (ConnectState::Connecting, ConnectActionView::Connect(pipe)),
        ConnectState::Connecting => match event {
            ConnectEvent::Connected(true) => (ConnectState::OpeningPipe, ConnectActionView::OpenPipe),
            _ => (ConnectState::Start, ConnectActionView::Fail(Error::Connect)),
        },
        ConnectState::OpeningPipe => match event {
            ConnectEvent::PipeOpened(Some(own)) => (
                ConnectState::Registering,
                ConnectActionView::Send((CommandView::Register { pipe: own@ }).wire()),
            ),
            _ => (ConnectState::Start, ConnectActionView::Fail(Error::OpenPipe)),
        },
        ConnectState::Registering => match event {
            ConnectEvent::Sent(true) => (ConnectState::Accepting, ConnectActionView::Accept),
            _ => (ConnectState::Start, ConnectActionView::Fail(Error::Send)),
        },
        ConnectState::Accepting => match event {
            ConnectEvent::Accepted(Some(raw)) => if parse_command(raw@, Kind::Okay) is Some {
                (ConnectState::Ready, ConnectActionView::Ready)
            } else {
                (ConnectState::Start, ConnectActionView::Fail(Error::Deserialize))
            },
            _ => (ConnectState::Start, ConnectActionView::Fail(Error::AcceptConn)),
        },
        ConnectState::Ready => (ConnectState::Ready, ConnectActionView::Ready),
    }
}

/// What a reply to a request amounts to: success for an `Ok` message,
/// `Deserialize` for anything else, `Receive` where the channel is broken.
pub open spec fn reply_result(received: Option<&[u8]>) -> Result<()> {
    match received {
        None => Err(Error::Receive),
        Some(bytes) => if parse_command(bytes@, Kind::Okay) is Some {
            Ok(())
        } else {
            Err(Error::Deserialize)
        },
    }
}

/// A worker's connection to its launcher.
#[derive(Debug)]
pub struct LauncherCli {
    state: ConnectState,
}

impl LauncherCli {
    /// Where the connection stands.
    pub closed spec fn state(&self) -> ConnectState {
        self.state
    }

    /// A client that has not connected yet.
    pub fn new() -> (r: LauncherCli)
        ensures
            r.state() == ConnectState::Start,
    {
        LauncherCli { state: ConnectState::Start }
    }

    /// Whether both channels stand.
    pub fn is_ready(&self) -> (r: bool)
        ensures
            r == (self.state() == ConnectState::Ready),
    {
        self.state == ConnectState::Ready
    }

    /// Reads from `bytes` the message of the kind that the caller expects.
    fn read(bytes: &[u8], expected: Kind) -> (r: Result<Command>)
        ensures
            match parse_command(bytes@, expected) {
                Some(c) => r is Ok && r.unwrap()@ == c,
                None => r == Err::<Command, Error>(Error::Deserialize),
            },
    {
        decode(bytes, expected)
    }

    /// The bytes that sending `command` puts on the channel, or `Serialize`
    /// where the command is a spawn request whose environment binds a name twice.
    fn send(command: &Command) -> (r: Result<Vec<u8>>)
        ensures
            command@.well_formed() ==> r is Ok && r.unwrap()@ == command@.wire(),
            !command@.well_formed() ==> r == Err::<Vec<u8>, Error>(Error::Serialize),
    {
        encode(command)
    }

    /// Judges the reply to a request. `received` is what the channel gave,
    /// `None` where it is broken.
    pub fn recv(received: Option<&[u8]>) -> (r: Result<()>)
        ensures
            r == reply_result(received),
    {
        match received {
            None => Err(Error::Receive),
            Some(bytes) => match Self::read(bytes, Kind::Okay) {
                Ok(_) => Ok(()),
                Err(e) => Err(e),
            },
        }
    }

    /// One step of connecting to the launcher that listens under `pipe`.
    /// Start with a new client and `ConnectEvent::Begin`, perform the action
    /// returned, and come back with the event that answers it, until the
    /// action is `Ready` or `Fail`.
    pub fn connect(&mut self, event: ConnectEvent, pipe: &str) -> (r: ConnectAction)
        ensures
            (final(self).state(), r@) == connect_step(old(self).state(), event, pipe@),
    {
        let (next, action) = match self.state {
            ConnectState::Start => (ConnectState::Connecting, ConnectAction::Connect(pipe.to_owned())),
            ConnectState::Connecting => match event {
                ConnectEvent::Connected(true) => (ConnectState::OpeningPipe, ConnectAction::OpenPipe),
                _ => (ConnectState::Start, ConnectAction::Fail(Error::Connect)),
            },
            ConnectState::OpeningPipe => match event {
                ConnectEvent::PipeOpened(Some(own)) => (
                    ConnectState::Registering,
                    ConnectAction::Send(Self::send(&Command::Register { pipe: own }).unwrap()),
                ),
                _ => (ConnectState::Start, ConnectAction::Fail(Error::OpenPipe)),
            },
            ConnectState::Registering => match event {
                ConnectEvent::Sent(true) => (ConnectState::Accepting, ConnectAction::Accept),
                _ => (ConnectState::Start, ConnectAction::Fail(Error::Send)),
            },
            ConnectState::Accepting => match event {
                ConnectEvent::Accepted(Some(raw)) => match Self::read(raw.as_slice(), Kind::Okay) {
                    Ok(_) => (ConnectState::Ready, ConnectAction::Ready),
                    Err(e) => (ConnectState::Start, ConnectAction::Fail(e)),
                },
                _ => (ConnectState::Start, ConnectAction::Fail(Error::AcceptConn)),
            },
            ConnectState::Ready => (ConnectState::Ready, ConnectAction::Ready),
        };
        self.state = next;
        action
    }

    /// The bytes of a request to start `bin` as `user` and `group` with the
    /// environment `env`. A client that is not ready has no channel to send
    /// them on: it gets `Connect`. An environment that binds a name twice is
    /// refused with `Serialize`. Judge the launcher's answer with
    /// [`LauncherCli::recv`].
    pub fn spawn(&self, bin: String, user: String, group: String, env: Vec<(String, String)>) -> (r:
        Result<Vec<u8>>)
        ensures
            self.state() != ConnectState::Ready ==> r == Err::<Vec<u8>, Error>(Error::Connect),
            self.state() == ConnectState::Ready && !distinct_names(bindings(env@)) ==> r == Err::<
                Vec<u8>,
                Error,
            >(Error::Serialize),
            self.state() == ConnectState::Ready && distinct_names(bindings(env@)) ==> r is Ok
                && r.unwrap()@ == (CommandView::Spawn {
                binary: bin@,
                svc_user: user@,
                svc_group: group@,
                env: bindings(env@),
            }).wire(),
    {
        if !self.is_ready() {
            return Err(Error::Connect);
        }
        let msg = Command::Spawn { binary: bin, svc_user: user, svc_group: group, env };
        Self::send(&msg)
    }
}

} // verus!
