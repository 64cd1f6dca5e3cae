use habitat_launcher::client::{ConnectAction, ConnectEvent, LauncherCli};
use habitat_launcher::error::Error;
use habitat_launcher::os::command::StdioMode;
use habitat_launcher::os::unix::process::exec;
use habitat_launcher::protocol::{decode, encode, Command, Envelope, Kind};
use habitat_launcher::server::{
    dispatch, launch_reply, run, send, setup_connection, spawn_launcher, supervisor_cmd, Dispatch,
    Dropped, RunAction, RunEvent, RunState, LAUNCHER_PIPE_ENV, SUP_CMD_ENVVAR,
};
use habitat_launcher::transport::Rendezvous;
use habitat_launcher::{SUP_CMD, SUP_PACKAGE_IDENT};

fn sent(command: &Command) -> Vec<u8> {
    encode(command).unwrap()
}

fn spawn_true() -> Command {
    Command::Spawn {
        binary: "/bin/true".to_string(),
        svc_user: "nobody".to_string(),
        svc_group: "nobody".to_string(),
        env: Vec::new(),
    }
}

fn ready_client() -> LauncherCli {
    let mut client = LauncherCli::new();
    client.connect(ConnectEvent::Begin, "chan-1");
    client.connect(ConnectEvent::Connected(true), "chan-1");
    client.connect(ConnectEvent::PipeOpened(Some("chan-2".to_string())), "chan-1");
    client.connect(ConnectEvent::Sent(true), "chan-1");
    let action = client.connect(ConnectEvent::Accepted(Some(sent(&Command::Okay))), "chan-1");
    assert_eq!(action, ConnectAction::Ready);
    client
}

fn serving_launcher() -> RunState {
    let (state, _) = run(RunState::Start, RunEvent::Begin, "hab-sup");
    let (state, _) = run(state, RunEvent::PipeOpened(Some("chan-1".to_string())), "hab-sup");
    let (state, _) = run(state, RunEvent::Spawned(true), "hab-sup");
    let register = sent(&Command::Register { pipe: "chan-2".to_string() });
    let (state, _) = run(state, RunEvent::Accepted(Some(register)), "hab-sup");
    let (state, _) = run(state, RunEvent::Connected(true), "hab-sup");
    let (state, _) = run(state, RunEvent::Sent(true), "hab-sup");
    assert_eq!(state, RunState::Serving);
    state
}

#[test]
fn constants() {
    assert_eq!(SUP_CMD, "hab-sup");
    assert_eq!(SUP_PACKAGE_IDENT, "core/hab-sup");
    assert_eq!(LAUNCHER_PIPE_ENV, "HAB_LAUNCHER_PIPE");
    assert_eq!(SUP_CMD_ENVVAR, "HAB_SUP_BINARY");
}

#[test]
fn configured_binary_wins() {
    let r = supervisor_cmd(Some("/tmp/sup".to_string()), false, None);
    assert_eq!(r, Ok("/tmp/sup".to_string()));
    let r = supervisor_cmd(Some("/tmp/sup".to_string()), true, Some("/pkg/sup".to_string()));
    assert_eq!(r, Ok("/tmp/sup".to_string()));
}

#[test]
fn packaged_binary_is_used_without_configuration() {
    assert_eq!(supervisor_cmd(None, true, Some("/pkg/sup".to_string())), Ok("/pkg/sup".to_string()));
}

#[test]
fn missing_package_and_missing_binary_differ() {
    assert_eq!(supervisor_cmd(None, false, None), Err(Error::SupPackageNotFound));
    assert_eq!(supervisor_cmd(None, false, Some("x".to_string())), Err(Error::SupPackageNotFound));
    assert_eq!(supervisor_cmd(None, true, None), Err(Error::SupBinaryNotFound));
}

#[test]
fn worker_gets_the_identifier_twice() {
    let plan = spawn_launcher("/pkg/hab-sup", "chan-1");
    assert_eq!(plan.program, "/pkg/hab-sup");
    assert_eq!(plan.args, vec!["chan-1".to_string()]);
    assert_eq!(plan.env, vec![("HAB_LAUNCHER_PIPE".to_string(), "chan-1".to_string())]);
    assert_eq!(plan.stdin, StdioMode::Null);
    assert_eq!(plan.stdout, StdioMode::Piped);
    assert_eq!(plan.stderr, StdioMode::Piped);
    assert_eq!(plan.uid, None);
    assert_eq!(plan.gid, None);
    assert!(!plan.own_process_group);
}

#[test]
fn send_frames_the_command() {
    assert_eq!(send(&spawn_true()), Ok(sent(&spawn_true())));
    assert_eq!(decode(&send(&Command::Okay).unwrap(), Kind::Okay), Ok(Command::Okay));
    let twice = Command::Spawn {
        binary: "b".to_string(),
        svc_user: "u".to_string(),
        svc_group: "g".to_string(),
        env: vec![("A".to_string(), "1".to_string()), ("A".to_string(), "2".to_string())],
    };
    assert_eq!(send(&twice), Err(Error::Serialize));
}

#[test]
fn setup_connection_reads_the_reply_channel() {
    let register = sent(&Command::Register { pipe: "chan-2".to_string() });
    assert_eq!(setup_connection(Some(&register)), Ok("chan-2".to_string()));
}

#[test]
fn setup_connection_failures() {
    assert_eq!(setup_connection(None), Err(Error::AcceptConn));
    assert_eq!(setup_connection(Some(&[1, 2, 3])), Err(Error::Deserialize));
    assert_eq!(setup_connection(Some(&sent(&Command::Okay))), Err(Error::Deserialize));
}

#[test]
fn dispatch_launches_a_spawn_request() {
    assert_eq!(dispatch(&sent(&spawn_true())), Dispatch::Launch(spawn_true()));
}

#[test]
fn dispatch_drops_unknown_kinds() {
    let e = Envelope { message_id: "Restart".to_string(), payload: Vec::new() };
    assert_eq!(dispatch(&e.encode()), Dispatch::Drop(Dropped::UnknownKind));
    assert_eq!(dispatch(&sent(&Command::Okay)), Dispatch::Drop(Dropped::UnknownKind));
    let register = sent(&Command::Register { pipe: "p".to_string() });
    assert_eq!(dispatch(&register), Dispatch::Drop(Dropped::UnknownKind));
}

#[test]
fn dispatch_drops_malformed_bytes() {
    assert_eq!(dispatch(&[]), Dispatch::Drop(Dropped::Malformed));
    let e = Envelope { message_id: "Spawn".to_string(), payload: vec![1] };
    assert_eq!(dispatch(&e.encode()), Dispatch::Drop(Dropped::Malformed));
}

#[test]
fn launch_reply_is_ok_or_the_error() {
    assert_eq!(launch_reply(None), sent(&Command::Okay));
    let reply = launch_reply(Some(Error::Permissions));
    assert_eq!(
        decode(&reply, Kind::Error),
        Ok(Command::Error { reason: "No identity for the requested user or group".to_string() })
    );
    assert_eq!(decode(&reply, Kind::Okay), Err(Error::Deserialize));
}

#[test]
fn handshake_then_spawn_request_succeeds() {
    let mut client = LauncherCli::new();
    let (state, action) = run(RunState::Start, RunEvent::Begin, "/pkg/hab-sup");
    assert_eq!(action, RunAction::OpenPipe);
    let (state, action) = run(state, RunEvent::PipeOpened(Some("chan-1".to_string())), "/pkg/hab-sup");
    assert_eq!(action, RunAction::SpawnWorker(spawn_launcher("/pkg/hab-sup", "chan-1")));
    let (state, action) = run(state, RunEvent::Spawned(true), "/pkg/hab-sup");
    assert_eq!(action, RunAction::Accept);

    assert_eq!(client.connect(ConnectEvent::Begin, "chan-1"), ConnectAction::Connect("chan-1".to_string()));
    assert_eq!(client.connect(ConnectEvent::Connected(true), "chan-1"), ConnectAction::OpenPipe);
    let registration = match client.connect(ConnectEvent::PipeOpened(Some("chan-2".to_string())), "chan-1") {
        ConnectAction::Send(bytes) => bytes,
        other => panic!("unexpected action {:?}", other),
    };
    assert_eq!(registration, sent(&Command::Register { pipe: "chan-2".to_string() }));
    assert_eq!(client.connect(ConnectEvent::Sent(true), "chan-1"), ConnectAction::Accept);

    let (state, action) = run(state, RunEvent::Accepted(Some(registration)), "/pkg/hab-sup");
    assert_eq!(action, RunAction::Connect("chan-2".to_string()));
    let (state, action) = run(state, RunEvent::Connected(true), "/pkg/hab-sup");
    let greeting = match action {
        RunAction::Send(bytes) => bytes,
        other => panic!("unexpected action {:?}", other),
    };
    let (state, action) = run(state, RunEvent::Sent(true), "/pkg/hab-sup");
    assert_eq!((state, action), (RunState::Serving, RunAction::Receive));

    assert_eq!(client.connect(ConnectEvent::Accepted(Some(greeting)), "chan-1"), ConnectAction::Ready);
    assert!(client.is_ready());

    let request = client
        .spawn("/bin/true".to_string(), "nobody".to_string(), "nobody".to_string(), Vec::new())
        .unwrap();
    let (state, action) = run(state, RunEvent::Received(Some(request)), "/pkg/hab-sup");
    assert_eq!((state, action), (RunState::Launching, RunAction::Launch(spawn_true())));
    let (state, action) = run(state, RunEvent::Launched(None), "/pkg/hab-sup");
    let reply = match action {
        RunAction::Send(bytes) => bytes,
        other => panic!("unexpected action {:?}", other),
    };
    assert_eq!(LauncherCli::recv(Some(&reply)), Ok(()));
    let (state, action) = run(state, RunEvent::Sent(true), "/pkg/hab-sup");
    assert_eq!((state, action), (RunState::Serving, RunAction::Receive));
}

#[test]
fn worker_exit_status_is_returned() {
    let state = serving_launcher();
    let (state, action) = run(state, RunEvent::Received(None), "hab-sup");
    assert_eq!((state, action), (RunState::Waiting, RunAction::AwaitExit));
    let (state, action) = run(state, RunEvent::Exited(Some(0)), "hab-sup");
    assert_eq!((state, action), (RunState::Start, RunAction::Return(0)));
}

#[test]
fn unknown_user_gets_an_error_reply() {
    let state = serving_launcher();
    let (state, action) = run(state, RunEvent::Received(Some(sent(&spawn_true()))), "hab-sup");
    assert_eq!(action, RunAction::Launch(spawn_true()));
    let outcome = exec("/bin/true".to_string(), None, Some(65534), Vec::new()).err();
    assert_eq!(outcome, Some(Error::Permissions));
    let (state, action) = run(state, RunEvent::Launched(outcome), "hab-sup");
    assert_eq!(state, RunState::Replying);
    let reply = match action {
        RunAction::Send(bytes) => bytes,
        other => panic!("unexpected action {:?}", other),
    };
    assert_eq!(LauncherCli::recv(Some(&reply)), Err(Error::Deserialize));
    assert!(matches!(decode(&reply, Kind::Error), Ok(Command::Error { .. })));
    let (state, action) = run(state, RunEvent::Sent(true), "hab-sup");
    assert_eq!((state, action), (RunState::Serving, RunAction::Receive));
}

#[test]
fn malformed_bytes_are_skipped_and_serving_goes_on() {
    let state = serving_launcher();
    let mut truncated = sent(&spawn_true());
    truncated.truncate(20);
    let (state, action) = run(state, RunEvent::Received(Some(truncated)), "hab-sup");
    assert_eq!((state, action), (RunState::Serving, RunAction::Skip(Dropped::Malformed)));
    let (state, action) = run(state, RunEvent::Received(Some(sent(&spawn_true()))), "hab-sup");
    assert_eq!((state, action), (RunState::Launching, RunAction::Launch(spawn_true())));
}

#[test]
fn run_failures_end_the_incarnation() {
    let fail = |e| (RunState::Start, RunAction::Fail(e));
    assert_eq!(run(RunState::OpeningPipe, RunEvent::PipeOpened(None), "s"), fail(Error::OpenPipe));
    assert_eq!(run(RunState::Spawning, RunEvent::Spawned(false), "s"), fail(Error::Spawn));
    assert_eq!(run(RunState::Accepting, RunEvent::Accepted(None), "s"), fail(Error::AcceptConn));
    assert_eq!(
        run(RunState::Accepting, RunEvent::Accepted(Some(vec![0])), "s"),
        fail(Error::Deserialize)
    );
    assert_eq!(run(RunState::Connecting, RunEvent::Connected(false), "s"), fail(Error::Connect));
    assert_eq!(run(RunState::Greeting, RunEvent::Sent(false), "s"), fail(Error::Send));
    assert_eq!(run(RunState::Replying, RunEvent::Sent(false), "s"), fail(Error::Send));
    assert_eq!(run(RunState::Waiting, RunEvent::Exited(None), "s"), fail(Error::SupShutdown));
    assert_eq!(run(RunState::Spawning, RunEvent::Begin, "s"), fail(Error::Spawn));
}

#[test]
fn unknown_kind_is_skipped_without_reply() {
    let e = Envelope { message_id: "Restart".to_string(), payload: Vec::new() };
    let step = run(RunState::Serving, RunEvent::Received(Some(e.encode())), "s");
    assert_eq!(step, (RunState::Serving, RunAction::Skip(Dropped::UnknownKind)));
}

#[test]
fn client_connect_failures() {
    let mut client = LauncherCli::new();
    client.connect(ConnectEvent::Begin, "chan-1");
    assert_eq!(client.connect(ConnectEvent::Connected(false), "chan-1"), ConnectAction::Fail(Error::Connect));
    assert!(!client.is_ready());

    let mut client = LauncherCli::new();
    client.connect(ConnectEvent::Begin, "chan-1");
    client.connect(ConnectEvent::Connected(true), "chan-1");
    assert_eq!(client.connect(ConnectEvent::PipeOpened(None), "chan-1"), ConnectAction::Fail(Error::OpenPipe));

    let mut client = LauncherCli::new();
    client.connect(ConnectEvent::Begin, "chan-1");
    client.connect(ConnectEvent::Connected(true), "chan-1");
    client.connect(ConnectEvent::PipeOpened(Some("chan-2".to_string())), "chan-1");
    assert_eq!(client.connect(ConnectEvent::Sent(false), "chan-1"), ConnectAction::Fail(Error::Send));

    let mut client = LauncherCli::new();
    client.connect(ConnectEvent::Begin, "chan-1");
    client.connect(ConnectEvent::Connected(true), "chan-1");
    client.connect(ConnectEvent::PipeOpened(Some("chan-2".to_string())), "chan-1");
    client.connect(ConnectEvent::Sent(true), "chan-1");
    assert_eq!(client.connect(ConnectEvent::Accepted(None), "chan-1"), ConnectAction::Fail(Error::AcceptConn));

    let mut client = LauncherCli::new();
    client.connect(ConnectEvent::Begin, "chan-1");
    client.connect(ConnectEvent::Connected(true), "chan-1");
    client.connect(ConnectEvent::PipeOpened(Some("chan-2".to_string())), "chan-1");
    client.connect(ConnectEvent::Sent(true), "chan-1");
    let bad = sent(&Command::Register { pipe: "x".to_string() });
    assert_eq!(client.connect(ConnectEvent::Accepted(Some(bad)), "chan-1"), ConnectAction::Fail(Error::Deserialize));
}

#[test]
fn client_that_is_not_ready_cannot_spawn() {
    let client = LauncherCli::new();
    let r = client.spawn("b".to_string(), "u".to_string(), "g".to_string(), Vec::new());
    assert_eq!(r, Err(Error::Connect));
}

#[test]
fn ready_client_frames_the_request() {
    let client = ready_client();
    let env = vec![("K".to_string(), "V".to_string())];
    let bytes = client
        .spawn("/bin/sh".to_string(), "hab".to_string(), "hab".to_string(), env.clone())
        .unwrap();
    assert_eq!(
        decode(&bytes, Kind::Spawn),
        Ok(Command::Spawn {
            binary: "/bin/sh".to_string(),
            svc_user: "hab".to_string(),
            svc_group: "hab".to_string(),
            env,
        })
    );
}

#[test]
fn client_reply_judgement() {
    assert_eq!(LauncherCli::recv(None), Err(Error::Receive));
    assert_eq!(LauncherCli::recv(Some(&sent(&Command::Okay))), Ok(()));
    assert_eq!(LauncherCli::recv(Some(&[])), Err(Error::Deserialize));
}

#[test]
fn second_accept_fails() {
    let mut rendezvous = Rendezvous::new("chan-1".to_string());
    assert_eq!(rendezvous.name(), "chan-1");
    assert!(rendezvous.is_open());
    assert_eq!(rendezvous.accept(Some(vec![1, 2])), Ok(vec![1, 2]));
    assert!(!rendezvous.is_open());
    assert_eq!(rendezvous.accept(Some(vec![3])), Err(Error::AcceptConn));
    assert_eq!(rendezvous.accept(None), Err(Error::AcceptConn));
}

#[test]
fn failed_accept_spends_the_rendezvous() {
    let mut rendezvous = Rendezvous::new("chan-1".to_string());
    assert_eq!(rendezvous.accept(None), Err(Error::AcceptConn));
    assert_eq!(rendezvous.accept(Some(vec![1])), Err(Error::AcceptConn));
}

#[test]
fn error_texts() {
    assert_eq!(Error::AcceptConn.description(), "Unable to accept connection from Supervisor");
    assert_eq!(Error::Connect.description(), "Unable to connect to Supervisor's pipe");
    assert_eq!(Error::Deserialize.description(), "Unable to deserialize message from Supervisor");
    assert_eq!(Error::OpenPipe.description(), "Unable to open Launcher's pipe");
    assert_eq!(Error::Send.description(), "Unable to send to Launcher's pipe");
    assert_eq!(Error::Serialize.description(), "Unable to serialize message to Supervisor");
    assert_eq!(Error::Spawn.description(), "Unable to spawn Supervisor");
    assert_eq!(Error::SupBinaryNotFound.description(), "Unable to locate Supervisor binary in package");
    assert_eq!(Error::SupPackageNotFound.description(), "Unable to locate Supervisor package on disk");
    assert_eq!(Error::SupShutdown.description(), "Error waiting for Supervisor to shutdown");
}

#[test]
fn error_messages() {
    assert_eq!(Error::AcceptConn.message("ignored"), "Unable to accept connection from Supervisor");
    assert_eq!(
        Error::Connect.message("refused"),
        "Unable to connect to Supervisor's comm channel, refused"
    );
    assert_eq!(Error::OpenPipe.message("x"), "Unable to open Launcher's comm channel, x");
    assert_eq!(Error::Send.message("x"), "Unable to send to Launcher's comm channel, x");
    assert_eq!(Error::Spawn.message("x"), "Unable to spawn Supervisor, x");
    assert_eq!(
        Error::SupBinaryNotFound.message("x"),
        "Supervisor package didn't contain 'hab-sup' binary"
    );
    assert_eq!(
        Error::SupPackageNotFound.message("x"),
        "Unable to locate Supervisor package, core/hab-sup"
    );
    assert_eq!(Error::SupShutdown.message("gone"), "Error waiting for Supervisor to shutdown, gone");
}

#[test]
fn ready_client_refuses_a_name_bound_twice() {
    let client = ready_client();
    let env = vec![("K".to_string(), "V".to_string()), ("K".to_string(), "W".to_string())];
    let r = client.spawn("/bin/sh".to_string(), "hab".to_string(), "hab".to_string(), env);
    assert_eq!(r, Err(Error::Serialize));
}

#[test]
fn channel_failures_are_transport_errors() {
    for e in [Error::AcceptConn, Error::Connect, Error::OpenPipe, Error::Receive, Error::Send] {
        assert!(e.is_transport());
    }
    for e in [
        Error::Deserialize,
        Error::Serialize,
        Error::Spawn,
        Error::Permissions,
        Error::SupBinaryNotFound,
        Error::SupPackageNotFound,
        Error::SupShutdown,
        Error::WaitpidFailed,
        Error::SignalFailed,
        Error::TerminateProcessFailed,
        Error::GetHabChildFailed,
    ] {
        assert!(!e.is_transport());
    }
}

#[test]
fn detailed_error_messages() {
    assert_eq!(Error::Permissions.message("user 'x'"), "No identity could be found, user 'x'");
    assert_eq!(Error::WaitpidFailed.message("pid 4"), "Error calling waitpid, pid 4");
    assert_eq!(Error::SignalFailed.message("pid 4"), "Failed to signal, pid 4");
    assert_eq!(Error::TerminateProcessFailed.message("pid 4"), "Failed to call terminate, pid 4");
    assert_eq!(Error::GetHabChildFailed.message("pid 4"), "Failed to retrieve exit code, pid 4");
    assert_eq!(Error::Receive.message("closed"), "Unable to receive from Launcher's comm channel, closed");
    assert_eq!(Error::Deserialize.message("x"), "Unable to deserialize message from Supervisor, x");
    assert_eq!(Error::Serialize.message("x"), "Unable to serialize message to Supervisor, x");
    assert_eq!(Error::Receive.description(), "Unable to receive from Launcher's pipe");
    assert_eq!(Error::Permissions.description(), "No identity for the requested user or group");
    assert_eq!(Error::WaitpidFailed.description(), "Error querying the status of a process");
    assert_eq!(Error::SignalFailed.description(), "Unable to signal the process");
    assert_eq!(Error::TerminateProcessFailed.description(), "Failed to terminate the process");
    assert_eq!(
        Error::GetHabChildFailed.description(),
        "Failed to retrieve the exit code of the process"
    );
}

#[test]
fn binary_is_read_only_once_the_rendezvous_stands() {
    assert_eq!(run(RunState::Start, RunEvent::Begin, ""), run(RunState::Start, RunEvent::Begin, "x"));
    let (_, action) = run(RunState::OpeningPipe, RunEvent::PipeOpened(Some("p".to_string())), "/b");
    assert_eq!(action, RunAction::SpawnWorker(spawn_launcher("/b", "p")));
    assert_eq!(
        run(RunState::Spawning, RunEvent::Spawned(true), ""),
        run(RunState::Spawning, RunEvent::Spawned(true), "/b")
    );
}
