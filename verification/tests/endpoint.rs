use handy::endpoint::cleanup;
use handy::endpoint::descriptor_path;
use handy::endpoint::endpoint_dir;
use handy::endpoint::ensure_private_dir;
use handy::endpoint::process_is_alive;
use handy::endpoint::read_descriptor;
use handy::endpoint::restrict_socket_file;
use handy::endpoint::sanitize;
use handy::endpoint::socket_path;
use handy::endpoint::transport_name;
use handy::endpoint::verify_dir_ownership;
use handy::endpoint::write_descriptor;
use handy::endpoint::Descriptor;
use handy::endpoint::DescriptorFile;
use handy::endpoint::DirCandidate;
use handy::endpoint::DirStat;
use handy::endpoint::EndpointEnv;
use handy::endpoint::PrivateDir;
use handy::endpoint::IPC_NAME_ENV;
use handy::endpoint::MAX_SOCKET_PATH_BYTES;
use handy::server::shutdown;

fn dir(path: &str) -> Option<DirCandidate> {
    Some(DirCandidate { path: path.to_string(), is_dir: true })
}

fn missing(path: &str) -> Option<DirCandidate> {
    Some(DirCandidate { path: path.to_string(), is_dir: false })
}

fn env(runtime: Option<DirCandidate>, temp: Option<DirCandidate>, name: Option<&str>) -> EndpointEnv {
    EndpointEnv {
        runtime_dir: runtime,
        temp_dir: temp,
        user_id: 501,
        name: name.map(|n| n.to_string()),
        windows: false,
    }
}

#[test]
fn name_env_suffixes_the_directory_for_both_sides() {
    assert_eq!(IPC_NAME_ENV, "HANDY_IPC_NAME");
    let dir = endpoint_dir(&env(None, dir("/var/tmp"), Some("devbuild")));
    assert!(dir.ends_with("-devbuild"), "got {}", dir);
    assert_eq!(dir, "/var/tmp/handy-501-devbuild");
}

#[test]
fn name_env_cannot_escape_the_base_directory() {
    let text = endpoint_dir(&env(None, None, Some("../../etc/passwd")));
    assert!(!text.contains(".."), "path traversal not stripped: {text}");
    assert!(!text.contains("/etc/"), "path traversal not stripped: {text}");
    assert_eq!(text, "/tmp/handy-501-etcpasswd");
}

#[test]
fn empty_name_env_is_ignored() {
    let plain = endpoint_dir(&env(None, None, None));
    assert_eq!(endpoint_dir(&env(None, None, Some(""))), plain);
}

#[test]
fn a_long_tmpdir_falls_back_to_a_short_path() {
    let deep = format!("/tmp/{}", "a".repeat(120));
    let env = env(None, dir(&deep), None);
    let path = socket_path(&env);
    assert!(
        path.len() <= MAX_SOCKET_PATH_BYTES,
        "sun_path guard did not trip: {} bytes",
        path.len()
    );
    assert!(path.starts_with("/tmp"), "got {}", path);
    assert_eq!(path, "/tmp/handy-501/ipc.sock");
    // The descriptor stays next to the socket.
    assert_eq!(descriptor_path(&env), "/tmp/handy-501/ipc.json");
}

#[test]
fn the_limit_counts_bytes() {
    // Nineteen bytes of names follow the base.
    let fits = format!("/{}", "é".repeat(39));
    let path = socket_path(&env(None, dir(&fits), None));
    assert_eq!(path, format!("{fits}/handy-501/ipc.sock"));
    assert_eq!(path.len(), 98);
    let longer = format!("/{}", "é".repeat(41));
    assert_eq!(socket_path(&env(None, dir(&longer), None)), "/tmp/handy-501/ipc.sock");
}

#[test]
fn xdg_runtime_dir_wins_over_tmpdir() {
    let xdg = "/tmp/handy-xdg-test";
    let got = endpoint_dir(&env(dir(xdg), dir("/var/tmp"), None));
    assert!(got.starts_with(xdg));
}

#[test]
fn a_nonexistent_base_is_skipped() {
    let got = endpoint_dir(&env(missing("/definitely/not/here"), None, None));
    assert!(got.starts_with("/tmp"));
    let got = endpoint_dir(&env(missing("/nowhere"), dir("/var/tmp"), None));
    assert_eq!(got, "/var/tmp/handy-501");
}

#[test]
fn a_trailing_separator_is_not_doubled() {
    let env = env(None, dir("/var/folders/x/"), None);
    assert_eq!(socket_path(&env), "/var/folders/x/handy-501/ipc.sock");
    assert_eq!(descriptor_path(&env), "/var/folders/x/handy-501/ipc.json");
    assert_eq!(transport_name(&env), socket_path(&env));
}

#[test]
fn a_pipe_takes_the_sockets_place_on_windows() {
    let mut env = env(None, None, Some("dev build"));
    env.windows = true;
    assert_eq!(transport_name(&env), r"\\.\pipe\handy-ipc-501-devbuild");
    env.name = None;
    assert_eq!(transport_name(&env), r"\\.\pipe\handy-ipc-501");
    assert_eq!(descriptor_path(&env), r"/tmp\handy-501\ipc.json");
    env.temp_dir = dir(r"C:\Temp");
    assert_eq!(socket_path(&env), r"C:\Temp\handy-501\ipc.sock");
}

#[test]
fn suffixes_are_cut_and_cleaned() {
    assert_eq!(sanitize("a b/c.d-e_f"), "abcd-e_f");
    assert_eq!(sanitize("日本"), "");
    assert_eq!(sanitize(&"x".repeat(50)), "x".repeat(32));
    // A suffix of which nothing is left still shows.
    assert_eq!(endpoint_dir(&env(None, None, Some("..."))), "/tmp/handy-501-");
}

#[test]
fn the_directory_is_made_private() {
    let env = env(None, None, None);
    match ensure_private_dir(&env, false) {
        PrivateDir::Create(p) => {
            assert_eq!(p.path, "/tmp/handy-501");
            assert_eq!(p.mode, 0o700);
        }
        other => panic!("got {other:?}"),
    }
    match ensure_private_dir(&env, true) {
        PrivateDir::Tighten(p) => {
            assert_eq!(p.path, "/tmp/handy-501");
            assert_eq!(p.mode, 0o700);
        }
        other => panic!("got {other:?}"),
    }
    let socket = restrict_socket_file("/tmp/handy-501/ipc.sock");
    assert_eq!(socket.path, "/tmp/handy-501/ipc.sock");
    assert_eq!(socket.mode, 0o600);
    let descriptor = write_descriptor(&env);
    assert_eq!(descriptor.path, "/tmp/handy-501/ipc.json");
    assert_eq!(descriptor.mode, 0o600);
}

#[test]
fn only_a_private_directory_of_ours_is_trusted() {
    let stat = |is_dir: bool, owner: u32, mode: u32| Ok(DirStat { is_dir, owner, mode });
    assert!(verify_dir_ownership("/d", stat(true, 501, 0o40700), 501).is_ok());
    let err = verify_dir_ownership("/d", stat(false, 501, 0o100600), 501).unwrap_err();
    assert_eq!(err.message(), "/d is not a directory");
    let err = verify_dir_ownership("/d", stat(true, 0, 0o40700), 501).unwrap_err();
    assert_eq!(err.message(), "/d is owned by uid 0, not by you (uid 501)");
    let err = verify_dir_ownership("/d", stat(true, 501, 0o40755), 501).unwrap_err();
    assert_eq!(err.message(), "/d is accessible to other users (mode 755)");
    let err = verify_dir_ownership("/d", Err("No such file".to_string()), 501).unwrap_err();
    assert_eq!(err.message(), "stat /d: No such file");
}

#[test]
fn a_missing_descriptor_is_no_error() {
    let env = env(None, None, None);
    let descriptor = Descriptor {
        schema: 1,
        protocol: 1,
        min_protocol: 1,
        app_version: "0.9.4".to_string(),
        pid: 1234,
        endpoint: "/tmp/handy-501/ipc.sock".to_string(),
    };
    let back = read_descriptor(&env, DescriptorFile::Read(Some(descriptor))).unwrap().unwrap();
    assert_eq!(back.pid, 1234);
    assert_eq!(back.endpoint, "/tmp/handy-501/ipc.sock");
    assert!(read_descriptor(&env, DescriptorFile::Read(None)).unwrap().is_none());
    assert!(read_descriptor(&env, DescriptorFile::NotFound).unwrap().is_none());
    assert_eq!(
        read_descriptor(&env, DescriptorFile::Failed("denied".to_string())).unwrap_err(),
        "reading /tmp/handy-501/ipc.json: denied"
    );
}

#[test]
fn shutting_down_removes_socket_and_descriptor() {
    let env = env(None, None, None);
    let files = vec!["/tmp/handy-501/ipc.sock".to_string(), "/tmp/handy-501/ipc.json".to_string()];
    assert_eq!(cleanup(&env), files);
    assert_eq!(shutdown(&env), files);
}

#[test]
fn a_process_we_may_not_signal_is_alive() {
    assert!(process_is_alive(true, false));
    assert!(process_is_alive(false, true));
    assert!(!process_is_alive(false, false));
}
