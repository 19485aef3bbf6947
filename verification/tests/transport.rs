use handy::endpoint::Descriptor;
use handy::transport::bind;
use handy::transport::bind_again;
use handy::transport::bind_probed;
use handy::transport::is_addr_in_use;
use handy::transport::probe_is_live;
use handy::transport::BindStep;
use handy::transport::IoFailure;
use handy::transport::IoKind;

fn failure(kind: IoKind) -> IoFailure {
    IoFailure { kind, detail: "why".to_string() }
}

fn descriptor(endpoint: &str) -> Option<Descriptor> {
    Some(Descriptor {
        schema: 1,
        protocol: 1,
        min_protocol: 1,
        app_version: "0.9.4".to_string(),
        pid: 7,
        endpoint: endpoint.to_string(),
    })
}

#[test]
fn a_bound_socket_is_restricted() {
    match bind("/s", false, Ok(())) {
        BindStep::Listening(Some(p)) => {
            assert_eq!(p.path, "/s");
            assert_eq!(p.mode, 0o600);
        }
        other => panic!("got {other:?}"),
    }
    assert!(matches!(bind("pipe", true, Ok(())), BindStep::Listening(None)));
    assert!(matches!(bind_again("/s", false, Ok(())), BindStep::Listening(Some(_))));
}

#[test]
fn a_taken_name_is_probed_before_anything_is_removed() {
    assert!(is_addr_in_use(&failure(IoKind::AddrInUse)));
    assert!(!is_addr_in_use(&failure(IoKind::NotFound)));
    assert!(matches!(bind("/s", false, Err(failure(IoKind::AddrInUse))), BindStep::Probe));
    match bind_probed("/s", false, true) {
        BindStep::Failed(m) => {
            assert_eq!(m, "another Handy instance is already listening on /s")
        }
        other => panic!("got {other:?}"),
    }
    match bind_probed("/s", false, false) {
        BindStep::Rebind(file) => assert_eq!(file.as_deref(), Some("/s")),
        other => panic!("got {other:?}"),
    }
    match bind_probed("pipe", true, false) {
        BindStep::Rebind(file) => assert_eq!(file, None),
        other => panic!("got {other:?}"),
    }
}

#[test]
fn bind_failures_name_the_target() {
    match bind("/s", false, Err(failure(IoKind::Other))) {
        BindStep::Failed(m) => assert_eq!(m, "binding /s: why"),
        other => panic!("got {other:?}"),
    }
    match bind_again("/s", false, Err(failure(IoKind::AddrInUse))) {
        BindStep::Failed(m) => {
            assert_eq!(m, "re-binding /s after clearing a stale socket: why")
        }
        other => panic!("got {other:?}"),
    }
}

#[test]
fn a_dead_descriptor_is_conclusive() {
    assert_eq!(probe_is_live("/s", &descriptor("/s"), false), Some(false));
    assert_eq!(probe_is_live("/s", &descriptor("/s"), true), None);
    assert_eq!(probe_is_live("/s", &descriptor("/other"), false), None);
    assert_eq!(probe_is_live("/s", &None, false), None);
}
