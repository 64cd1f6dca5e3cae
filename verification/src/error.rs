//! Errors of the launcher and of its client.

use vstd::prelude::*;
use vstd::string::*;

verus! {

/// Everything that can go wrong between a launcher and its worker.
#[derive(Clone, Copy, Debug, PartialEq, Eq, Structural)]
pub enum Error {
    /// The worker never completed its connection to the rendezvous.
    AcceptConn,
    /// The peer's channel could not be opened.
    Connect,
    /// Bytes that arrived are not a well-formed message of the expected kind.
    Deserialize,
    /// The rendezvous could not be created.
    OpenPipe,
    /// The channel broke while waiting for a message.
    Receive,
    /// A message could not be handed to the channel.
    Send,
    /// A message could not be turned into bytes.
    Serialize,
    /// The operating system refused to start the process.
    Spawn,
    /// The worker's package holds no worker binary.
    SupBinaryNotFound,
    /// The worker's package is not installed.
    SupPackageNotFound,
    /// Waiting for the worker's exit status failed.
    SupShutdown,
    /// A user or group name does not resolve to an identity.
    Permissions,
    /// The status of a process could not be queried.
    WaitpidFailed,
    /// A signal could not be delivered.
    SignalFailed,
    /// A forced termination was refused.
    TerminateProcessFailed,
    /// A process died before a handle to it could be had, and left no exit code.
    GetHabChildFailed,
}

pub type Result<T> = core::result::Result<T, Error>;

impl Error {
    /// Whether the operating system or the transport adds a detail to this error.
    pub open spec fn has_detail(self) -> bool {
        match self {
            Error::Connect | Error::Deserialize | Error::OpenPipe | Error::Receive | Error::Send
            | Error::Serialize | Error::Spawn | Error::SupShutdown | Error::Permissions
            | Error::WaitpidFailed | Error::SignalFailed | Error::TerminateProcessFailed
            | Error::GetHabChildFailed => true,
            Error::AcceptConn | Error::SupBinaryNotFound | Error::SupPackageNotFound => false,
        }
    }

    /// Whether the error is a failure of a channel: of opening, accepting,
    /// connecting, sending or receiving.
    pub open spec fn transport(self) -> bool {
        match self {
            Error::AcceptConn | Error::Connect | Error::OpenPipe | Error::Receive | Error::Send => true,
            _ => false,
        }
    }

    /// The fixed text of [`Error::description`].
    pub open spec fn description_text(self) -> Seq<char> {
        match self {
            Error::AcceptConn => "Unable to accept connection from Supervisor"@,
            Error::Connect => "Unable to connect to Supervisor's pipe"@,
            Error::Deserialize => "Unable to deserialize message from Supervisor"@,
            Error::OpenPipe => "Unable to open Launcher's pipe"@,
            Error::Receive => "Unable to receive from Launcher's pipe"@,
            Error::Send => "Unable to send to Launcher's pipe"@,
            Error::Serialize => "Unable to serialize message to Supervisor"@,
            Error::Spawn => "Unable to spawn Supervisor"@,
            Error::SupBinaryNotFound => "Unable to locate Supervisor binary in package"@,
            Error::SupPackageNotFound => "Unable to locate Supervisor package on disk"@,
            Error::SupShutdown => "Error waiting for Supervisor to shutdown"@,
            Error::Permissions => "No identity for the requested user or group"@,
            Error::WaitpidFailed => "Error querying the status of a process"@,
            Error::SignalFailed => "Unable to signal the process"@,
            Error::TerminateProcessFailed => "Failed to terminate the process"@,
            Error::GetHabChildFailed => "Failed to retrieve the exit code of the process"@,
        }
    }

    /// The text that opens [`Error::message`].
    pub open spec fn message_head(self) -> Seq<char> {
        match self {
            Error::AcceptConn => "Unable to accept connection from Supervisor"@,
            Error::Connect => "Unable to connect to Supervisor's comm channel"@,
            Error::Deserialize => "Unable to deserialize message from Supervisor"@,
            Error::OpenPipe => "Unable to open Launcher's comm channel"@,
            Error::Receive => "Unable to receive from Launcher's comm channel"@,
            Error::Send => "Unable to send to Launcher's comm channel"@,
            Error::Serialize => "Unable to serialize message to Supervisor"@,
            Error::Spawn => "Unable to spawn Supervisor"@,
            Error::SupBinaryNotFound => "Supervisor package didn't contain 'hab-sup' binary"@,
            Error::SupPackageNotFound => "Unable to locate Supervisor package, core/hab-sup"@,
            Error::SupShutdown => "Error waiting for Supervisor to shutdown"@,
            Error::Permissions => "No identity could be found"@,
            Error::WaitpidFailed => "Error calling waitpid"@,
            Error::SignalFailed => "Failed to signal"@,
            Error::TerminateProcessFailed => "Failed to call terminate"@,
            Error::GetHabChildFailed => "Failed to retrieve exit code"@,
        }
    }

    /// The full text of [`Error::message`] for a given detail.
    pub open spec fn message_text(self, detail: Seq<char>) -> Seq<char> {
        if self.has_detail() {
            self.message_head() + ", "@ + detail
        } else {
            self.message_head()
        }
    }

    fn head(&self) -> (r: String)
        ensures
            r@ == self.message_head(),
    {
        match self {
            Error::AcceptConn => "Unable to accept connection from Supervisor".to_owned(),
            Error::Connect => "Unable to connect to Supervisor's comm channel".to_owned(),
            Error::Deserialize => "Unable to deserialize message from Supervisor".to_owned(),
            Error::OpenPipe => "Unable to open Launcher's comm channel".to_owned(),
            Error::Receive => "Unable to receive from Launcher's comm channel".to_owned(),
            Error::Send => "Unable to send to Launcher's comm channel".to_owned(),
            Error::Serialize => "Unable to serialize message to Supervisor".to_owned(),
            Error::Spawn => "Unable to spawn Supervisor".to_owned(),
            Error::SupBinaryNotFound => "Supervisor package didn't contain 'hab-sup' binary".to_owned(),
            Error::SupPackageNotFound => "Unable to locate Supervisor package, core/hab-sup".to_owned(),
            Error::SupShutdown => "Error waiting for Supervisor to shutdown".to_owned(),
            Error::Permissions => "No identity could be found".to_owned(),
            Error::WaitpidFailed => "Error calling waitpid".to_owned(),
            Error::SignalFailed => "Failed to signal".to_owned(),
            Error::TerminateProcessFailed => "Failed to call terminate".to_owned(),
            Error::GetHabChildFailed => "Failed to retrieve exit code".to_owned(),
        }
    }

    /// Whether the error is a failure of a channel.
    pub fn is_transport(&self) -> (r: bool)
        ensures
            r == self.transport(),
    {
        match self {
            Error::AcceptConn | Error::Connect | Error::OpenPipe | Error::Receive | Error::Send => true,
            _ => false,
        }
    }

    /// A short fixed description of the error.
    pub fn description(&self) -> (r: String)
        ensures
            r@ == self.description_text(),
    {
        match self {
            Error::AcceptConn => "Unable to accept connection from Supervisor".to_owned(),
            Error::Connect => "Unable to connect to Supervisor's pipe".to_owned(),
            Error::Deserialize => "Unable to deserialize message from Supervisor".to_owned(),
            Error::OpenPipe => "Unable to open Launcher's pipe".to_owned(),
            Error::Receive => "Unable to receive from Launcher's pipe".to_owned(),
            Error::Send => "Unable to send to Launcher's pipe".to_owned(),
            Error::Serialize => "Unable to serialize message to Supervisor".to_owned(),
            Error::Spawn => "Unable to spawn Supervisor".to_owned(),
            Error::SupBinaryNotFound => "Unable to locate Supervisor binary in package".to_owned(),
            Error::SupPackageNotFound => "Unable to locate Supervisor package on disk".to_owned(),
            Error::SupShutdown => "Error waiting for Supervisor to shutdown".to_owned(),
            Error::Permissions => "No identity for the requested user or group".to_owned(),
            Error::WaitpidFailed => "Error querying the status of a process".to_owned(),
            Error::SignalFailed => "Unable to signal the process".to_owned(),
            Error::TerminateProcessFailed => "Failed to terminate the process".to_owned(),
            Error::GetHabChildFailed => "Failed to retrieve the exit code of the process".to_owned(),
        }
    }

    /// The line shown to an operator: the error's text, followed by a comma and
    /// `detail` for the errors that the operating system or the transport explains.
    pub fn message(&self, detail: &str) -> (r: String)
        ensures
            r@ == self.message_text(detail@),
    {
        let head = self.head();
        match self {
            Error::AcceptConn | Error::SupBinaryNotFound | Error::SupPackageNotFound => head,
            _ => head.concat(", ").concat(detail),
        }
    }
}

} // verus!
