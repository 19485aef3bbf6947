use handy::client::check_directory;
use handy::client::classify_connect_error;
use handy::client::spawn_interrupt_watcher;
use handy::client::ConnectAction;
use handy::client::ConnectError;
use handy::client::ConnectFailure;
use handy::client::ConnectPhase;
use handy::client::Connecting;
use handy::client::IdleWatchdog;
use handy::client::Interrupt;
use handy::client::ReplyStep;
use handy::client::Session;
use handy::endpoint::Descriptor;
use handy::endpoint::DirCandidate;
use handy::endpoint::DirStat;
use handy::endpoint::EndpointEnv;
use handy::protocol::ClientFrame;
use handy::protocol::ErrorCode;
use handy::protocol::ServerFrame;
use handy::protocol::StreamBuffer;
use handy::transport::IoFailure;
use handy::transport::IoKind;

fn hello(protocol: u32, min_protocol: u32) -> ServerFrame {
    ServerFrame::Hello { protocol, min_protocol, app_version: "0.9.4".to_string(), pid: 42 }
}

fn session() -> Session {
    Session::connect(StreamBuffer::new(), Ok(Some(hello(1, 1)))).unwrap()
}

fn descriptor(pid: u32, protocol: u32, min_protocol: u32) -> Option<Descriptor> {
    Some(Descriptor {
        schema: 1,
        protocol,
        min_protocol,
        app_version: "9.9".to_string(),
        pid,
        endpoint: "/s".to_string(),
    })
}

fn failed(text: &str, io: Option<(IoKind, &str)>) -> ConnectFailure {
    ConnectFailure {
        text: text.to_string(),
        io: io.map(|(kind, detail)| IoFailure { kind, detail: detail.to_string() }),
    }
}

#[test]
fn a_crashed_instance_is_named() {
    let err = Session::check_descriptor("/s", &descriptor(77, 1, 1), false).unwrap_err();
    assert_eq!(
        err.message(),
        "no running Handy instance (nothing listening at /s: Handy (pid 77) is no longer running)\n  start Handy, or pass --local to transcribe in this process"
    );
    assert!(Session::check_descriptor("/s", &descriptor(77, 1, 1), true).is_ok());
    assert!(Session::check_descriptor("/s", &None, false).is_ok());
}

#[test]
fn a_client_below_the_floor_is_told_so_before_connecting() {
    let err = Session::check_descriptor("/s", &descriptor(77, 3, 2), true).unwrap_err();
    assert_eq!(
        err.message(),
        "the running Handy (9.9) speaks CLI protocol 3 (accepts >= 2), this build speaks 1\n  restart Handy so both sides match"
    );
}

#[test]
fn the_greeting_decides() {
    let s = session();
    assert_eq!(s.app_version, "0.9.4");
    assert_eq!(s.server_pid, 42);
    // A newer server is fine as long as it still accepts us.
    assert!(Session::connect(StreamBuffer::new(), Ok(Some(hello(5, 1)))).is_ok());
    let err = Session::connect(StreamBuffer::new(), Ok(Some(hello(5, 2)))).unwrap_err();
    assert!(matches!(
        err,
        ConnectError::ProtocolMismatch { server_protocol: 5, server_min: 2, client_protocol: 1, .. }
    ));
    let refused = ServerFrame::Error {
        job_id: None,
        code: ErrorCode::TooManyClients,
        message: "too many CLI connections".to_string(),
    };
    let err = Session::connect(StreamBuffer::new(), Ok(Some(refused))).unwrap_err();
    assert_eq!(err.message(), "TooManyClients: too many CLI connections");
    for silent in [None, Some(ServerFrame::Unknown)] {
        let err = Session::connect(StreamBuffer::new(), Ok(silent)).unwrap_err();
        assert_eq!(
            err.message(),
            "the running Handy did not greet us; it may be an older build"
        );
    }
    let err = Session::connect(StreamBuffer::new(), Err("reset".to_string())).unwrap_err();
    assert_eq!(err.message(), "reading a reply: reset");
}

#[test]
fn connection_failures_are_told_apart() {
    let err = classify_connect_error("/s", failed("/d is owned by uid 0, not by you", None));
    assert_eq!(
        err.message(),
        "refusing to use the control socket: /d is owned by uid 0, not by you\n  fix the directory's ownership and permissions, then retry"
    );
    let err = classify_connect_error("/s", failed("/d is accessible to other users", None));
    assert!(matches!(err, ConnectError::Forbidden(_)));
    for kind in [IoKind::NotFound, IoKind::ConnectionRefused, IoKind::AddrNotAvailable] {
        match classify_connect_error("/s", failed("connecting: why", Some((kind, "why")))) {
            ConnectError::NotRunning { endpoint, detail } => {
                assert_eq!(endpoint, "/s");
                assert_eq!(detail, "why");
            }
            other => panic!("got {other:?}"),
        }
    }
    match classify_connect_error("/s", failed("x: Connection refused (111)", None)) {
        ConnectError::NotRunning { detail, .. } => {
            assert_eq!(detail, "x: Connection refused (111)")
        }
        other => panic!("got {other:?}"),
    }
    assert!(matches!(
        classify_connect_error("/s", failed("No such file or directory", None)),
        ConnectError::NotRunning { .. }
    ));
    let other = classify_connect_error("/s", failed("odd", Some((IoKind::Other, "odd"))));
    assert_eq!(other.message(), "odd");
}

#[test]
fn an_unsafe_directory_is_never_connected_through() {
    let stat = |is_dir: bool, owner: u32, mode: u32| Ok(DirStat { is_dir, owner, mode });
    assert!(check_directory("/s", "/d", stat(true, 501, 0o40700), 501).is_ok());
    let err = check_directory("/s", "/d", stat(true, 0, 0o40700), 501).unwrap_err();
    assert!(matches!(err, ConnectError::Forbidden(_)));
    let err = check_directory("/s", "/d", stat(true, 501, 0o40701), 501).unwrap_err();
    match err {
        ConnectError::Forbidden(m) => {
            assert_eq!(m, "/d is accessible to other users (mode 701)")
        }
        other => panic!("got {other:?}"),
    }
    let gone = IoFailure { kind: IoKind::NotFound, detail: "gone".to_string() };
    match check_directory("/s", "/d", Err(gone), 501).unwrap_err() {
        ConnectError::NotRunning { detail, .. } => assert_eq!(detail, "gone"),
        other => panic!("got {other:?}"),
    }
    let err = check_directory("/s", "/d", stat(false, 501, 0o100600), 501).unwrap_err();
    assert_eq!(err.message(), "/d is not a directory");
}

#[test]
fn requests_leave_in_order() {
    let mut s = session();
    assert!(s.next_outgoing().is_none());
    s.send(ClientFrame::Ping);
    s.send_with_audio(ClientFrame::Status, vec![1, 2, 3]);
    s.cancel();
    let first = s.next_outgoing().unwrap();
    assert!(matches!(first.frame, ClientFrame::Ping));
    assert!(first.audio.is_none());
    let second = s.next_outgoing().unwrap();
    assert!(matches!(second.frame, ClientFrame::Status));
    assert_eq!(second.audio, Some(vec![1, 2, 3]));
    let third = s.next_outgoing().unwrap();
    assert!(matches!(third.frame, ClientFrame::Cancel));
    assert!(s.next_outgoing().is_none());
}

#[test]
fn replies_are_read_line_by_line() {
    let mut s = session();
    s.feed(b"{\"type\":");
    assert!(matches!(s.read_frame(), ReplyStep::NeedBytes));
    s.feed(b"\"pong\"}\n");
    match s.read_frame() {
        ReplyStep::Parse(line) => assert_eq!(line, b"{\"type\":\"pong\"}"),
        other => panic!("got {other:?}"),
    }
    s.feed(b"cut");
    s.finish();
    match s.read_frame() {
        ReplyStep::Failed(m) => {
            assert_eq!(m, "reading a reply: control frame exceeded 1048576 bytes")
        }
        other => panic!("got {other:?}"),
    }
    assert!(matches!(s.read_frame(), ReplyStep::Closed));
}

#[test]
fn a_result_ends_the_wait() {
    assert!(Session::wait_for_result(Some(ServerFrame::Unknown)).unwrap().is_none());
    let error = ServerFrame::Error {
        job_id: None,
        code: ErrorCode::Busy,
        message: "busy".to_string(),
    };
    assert!(Session::wait_for_result(Some(error)).unwrap().is_some());
    assert_eq!(
        Session::wait_for_result(None).unwrap_err(),
        "the connection closed before a result arrived"
    );
}

#[test]
fn the_watchdog_counts_silence() {
    let mut dog = IdleWatchdog::spawn(100, 1000);
    assert!(!dog.poll(1100));
    dog.tick(1100);
    assert!(!dog.poll(1200));
    assert!(dog.poll(1201));
    assert!(dog.tripped);
    // It trips once.
    assert!(!dog.poll(9999));

    let mut dog = IdleWatchdog::spawn(100, 1000);
    dog.stop();
    assert!(!dog.poll(9999));
    assert!(!dog.tripped);
}

#[test]
fn a_second_interrupt_kills() {
    let mut watcher = spawn_interrupt_watcher();
    assert_eq!(watcher.interrupted(), Interrupt::Cancel);
    assert_eq!(watcher.interrupted(), Interrupt::Exit(130));
    assert_eq!(watcher.interrupted(), Interrupt::Exit(130));
}

fn env(windows: bool) -> EndpointEnv {
    EndpointEnv {
        runtime_dir: None,
        temp_dir: Some(DirCandidate { path: "/var/tmp".to_string(), is_dir: true }),
        user_id: 501,
        name: None,
        windows,
    }
}

#[test]
fn connecting_checks_before_it_connects() {
    let mut c = Connecting::new(env(false));
    match c.start() {
        ConnectAction::ReadDescriptor(p) => assert_eq!(p, "/var/tmp/handy-501/ipc.json"),
        other => panic!("got {other:?}"),
    }
    match c.described(&descriptor(77, 1, 1), true) {
        ConnectAction::LookAtDirectory(d) => assert_eq!(d, "/var/tmp/handy-501"),
        other => panic!("got {other:?}"),
    }
    match c.looked(Ok(DirStat { is_dir: true, owner: 501, mode: 0o40700 })) {
        ConnectAction::Connect(t) => assert_eq!(t, "/var/tmp/handy-501/ipc.sock"),
        other => panic!("got {other:?}"),
    }
    assert!(matches!(c.reached(Ok(())), ConnectAction::ReadGreeting));
    let session = c.greeted(StreamBuffer::new(), Ok(Some(hello(1, 1)))).unwrap();
    assert_eq!(session.server_pid, 42);
    assert_eq!(c.phase, ConnectPhase::Over);
}

#[test]
fn connecting_stops_at_the_first_check_that_fails() {
    let mut c = Connecting::new(env(false));
    c.start();
    assert!(matches!(
        c.described(&descriptor(77, 1, 1), false),
        ConnectAction::Fail(ConnectError::NotRunning { .. })
    ));
    assert_eq!(c.phase, ConnectPhase::Over);

    for stat in [
        DirStat { is_dir: true, owner: 502, mode: 0o40700 },
        DirStat { is_dir: true, owner: 501, mode: 0o40770 },
    ] {
        let mut c = Connecting::new(env(false));
        c.start();
        c.described(&None, false);
        assert!(matches!(c.looked(Ok(stat)), ConnectAction::Fail(ConnectError::Forbidden(_))));
        assert_eq!(c.phase, ConnectPhase::Over);
    }

    let mut c = Connecting::new(env(false));
    c.start();
    c.described(&None, false);
    c.looked(Ok(DirStat { is_dir: true, owner: 501, mode: 0o40700 }));
    let refused =
        IoFailure { kind: IoKind::Other, detail: "too many open files".to_string() };
    match c.reached(Err(refused)) {
        ConnectAction::Fail(e) => assert_eq!(
            e.message(),
            "connecting to /var/tmp/handy-501/ipc.sock: too many open files"
        ),
        other => panic!("got {other:?}"),
    }
}

#[test]
fn a_named_pipe_has_no_directory() {
    let mut c = Connecting::new(env(true));
    c.start();
    match c.described(&None, false) {
        ConnectAction::Connect(t) => assert_eq!(t, "\\\\.\\pipe\\handy-ipc-501"),
        other => panic!("got {other:?}"),
    }
}

#[test]
fn the_first_terminal_reply_is_the_result() {
    let result = || ServerFrame::Error {
        job_id: None,
        code: ErrorCode::Busy,
        message: "busy".to_string(),
    };
    let replies = vec![hello(1, 1), ServerFrame::Unknown, result(), result()];
    let mut session = session();
    session.feed(b"a\nb\nc\nd\n");
    session.finish();
    let mut handed = 0;
    let mut done = None;
    while done.is_none() {
        match session.read_frame() {
            ReplyStep::Parse(line) => assert_eq!(line, vec![b'a' + handed as u8]),
            other => panic!("got {other:?}"),
        }
        done = Session::wait_for_result(Some(replies[handed].clone())).unwrap();
        handed += 1;
    }
    assert_eq!(handed, 3);
    assert!(matches!(done, Some(ServerFrame::Error { code: ErrorCode::Busy, .. })));
    // What follows the result is still there.
    assert!(matches!(session.read_frame(), ReplyStep::Parse(line) if line == b"d"));
    assert!(matches!(session.read_frame(), ReplyStep::Closed));
    assert_eq!(
        Session::wait_for_result(None).unwrap_err(),
        "the connection closed before a result arrived"
    );
}
