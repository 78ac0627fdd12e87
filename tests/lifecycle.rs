use backend_supervisor::{
    binary_candidates, child_environment, choose_binary, config_from_env, default_config, extract_port,
    parse_pid_list, resolve_config, sidecar_binary_name, Action, Arch, BackendConfig,
    BackendProcess, BaseDir, Outcome, StartError, TargetOs,
};

fn config(backend: &str, http: &str, tls: bool, origins: &str) -> BackendConfig {
    BackendConfig {
        backend_addr: backend.to_string(),
        http_addr: http.to_string(),
        use_tls: tls,
        allow_origins: origins.to_string(),
    }
}

fn same(a: &BackendConfig, b: &BackendConfig) -> bool {
    a.backend_addr == b.backend_addr
        && a.http_addr == b.http_addr
        && a.use_tls == b.use_tls
        && a.allow_origins == b.allow_origins
}

/// Drives a supervisor through a start that succeeds, answering each action.
fn run_to_started(sup: &mut BackendProcess, first: Action) -> BackendConfig {
    let mut action = first;
    let mut launched = None;
    loop {
        action = match action {
            Action::TerminateChild => sup.on_outcome(Outcome::ChildStopped),
            Action::ReclaimPort(_) => sup.on_outcome(Outcome::PortReclaimed),
            Action::Launch(c) => {
                launched = Some(c);
                sup.on_outcome(Outcome::Spawned)
            }
            Action::CheckLiveness => sup.on_outcome(Outcome::LivenessChecked { exited: false }),
            Action::Started => break,
            other => panic!("unexpected action {:?}", other),
        };
    }
    launched.expect("a launch")
}

#[test]
fn port_from_bare_port_address() {
    assert_eq!(extract_port(":9000"), Some(9000));
}

#[test]
fn port_from_host_and_port() {
    assert_eq!(extract_port("localhost:8081"), Some(8081));
}

#[test]
fn port_absent_when_invalid() {
    assert_eq!(extract_port("invalid"), None);
}

#[test]
fn port_edge_cases() {
    assert_eq!(extract_port("a:b:123"), Some(123));
    assert_eq!(extract_port("host:+80"), Some(80));
    assert_eq!(extract_port("00080"), Some(80));
    assert_eq!(extract_port("host:65535"), Some(65535));
    assert_eq!(extract_port("host:65536"), None);
    assert_eq!(extract_port("host:"), None);
    assert_eq!(extract_port("host:+"), None);
    assert_eq!(extract_port("host:-1"), None);
    assert_eq!(extract_port("host:80 "), None);
    assert_eq!(extract_port(""), None);
}

#[test]
fn defaults_are_complete() {
    let c = default_config();
    assert!(same(&c, &config("localhost:8081", ":9000", false, "http://localhost:5173")));
    assert!(c.is_complete());
}

#[test]
fn resolution_without_config_gives_defaults() {
    let c = resolve_config(None);
    assert!(same(&c, &default_config()));
}

#[test]
fn resolution_keeps_a_complete_config() {
    let given = config("x", ":1234", true, "y");
    let c = resolve_config(Some(given.duplicate()));
    assert!(same(&c, &given));
}

#[test]
fn resolution_replaces_an_incomplete_config_whole() {
    let c = resolve_config(Some(config("x", "", true, "y")));
    assert!(same(&c, &default_config()));
    assert!(c.is_complete());
}

#[test]
fn environment_holds_every_field() {
    let env = child_environment(&config("x", ":1234", true, "y"));
    let expected = [
        ("GRPS_BACKEND_ADDR", "x"),
        ("GRPS_HTTP_ADDR", ":1234"),
        ("GRPS_BACKEND_USE_TLS", "true"),
        ("GRPS_ALLOW_ORIGINS", "y"),
        ("GRPS_AUTO_ALLOW_DEV_ORIGINS", "true"),
    ];
    assert_eq!(env.len(), expected.len());
    for (got, want) in env.iter().zip(expected.iter()) {
        assert_eq!(got.0, want.0);
        assert_eq!(got.1, want.1);
    }
    let off = child_environment(&default_config());
    assert_eq!(off[2].1, "false");
}

#[test]
fn stop_without_child_is_a_no_op() {
    let mut sup = BackendProcess::new();
    assert!(matches!(sup.stop(), Action::Done));
    assert!(matches!(sup.stop(), Action::Done));
    assert!(!sup.holds_child());
}

#[test]
fn start_without_config_uses_defaults() {
    let mut sup = BackendProcess::new();
    let first = sup.start(None);
    assert!(matches!(first, Action::ReclaimPort(9000)));
    let launched = run_to_started(&mut sup, first);
    assert!(same(&launched, &default_config()));
    assert!(sup.holds_child());
    assert!(same(sup.running_config().unwrap(), &default_config()));
}

#[test]
fn start_proceeds_without_a_port() {
    let mut sup = BackendProcess::new();
    let a = sup.start(Some(config("x", "invalid", false, "y"))); 
    match a {
        Action::Launch(c) => assert_eq!(c.http_addr, "invalid"),
        other => panic!("unexpected action {:?}", other),
    }
}

#[test]
fn restart_replaces_config() {
    let mut sup = BackendProcess::new();
    let first = sup.start(None);
    run_to_started(&mut sup, first);
    let a = sup.restart(config("x", ":1234", true, "y"));
    assert!(matches!(a, Action::TerminateChild));
    let a = sup.on_outcome(Outcome::ChildStopped);
    assert!(matches!(a, Action::ReclaimPort(1234)));
    assert!(!sup.holds_child());
    let a = sup.on_outcome(Outcome::PortReclaimed);
    let launched = match a {
        Action::Launch(c) => c,
        other => panic!("unexpected action {:?}", other),
    };
    assert!(same(&launched, &config("x", ":1234", true, "y")));
    let env = child_environment(&launched);
    assert_eq!(env[0].1, "x");
    assert_eq!(env[1].1, ":1234");
    assert_eq!(env[2].1, "true");
    assert_eq!(env[3].1, "y");
}

#[test]
fn immediate_exit_fails_the_start() {
    let mut sup = BackendProcess::new();
    sup.start(None);
    sup.on_outcome(Outcome::PortReclaimed);
    assert!(matches!(sup.on_outcome(Outcome::Spawned), Action::CheckLiveness));
    assert!(sup.holds_child());
    let a = sup.on_outcome(Outcome::LivenessChecked { exited: true });
    assert!(matches!(
        a,
        Action::Failed { release_child: true, error: StartError::ExitedImmediately }
    ));
    assert!(!sup.holds_child());
    assert!(sup.running_config().is_none());
}

#[test]
fn spawn_failure_holds_no_child() {
    let mut sup = BackendProcess::new();
    sup.start(None);
    sup.on_outcome(Outcome::PortReclaimed);
    let a = sup.on_outcome(Outcome::LaunchFailed(StartError::Spawn("denied".to_string())));
    match a {
        Action::Failed { release_child: false, error: StartError::Spawn(m) } => assert_eq!(m, "denied"),
        other => panic!("unexpected action {:?}", other),
    }
    assert!(!sup.holds_child());
}

#[test]
fn shutdown_stops_the_running_child() {
    let mut sup = BackendProcess::new();
    let first = sup.start(None);
    run_to_started(&mut sup, first);
    assert!(matches!(sup.stop(), Action::TerminateChild));
    assert!(matches!(sup.on_outcome(Outcome::ChildStopped), Action::Done));
    assert!(!sup.holds_child());
    assert!(matches!(sup.stop(), Action::Done));
}

#[test]
fn start_while_running_stops_first() {
    let mut sup = BackendProcess::new();
    let first = sup.start(None);
    run_to_started(&mut sup, first);
    assert!(matches!(sup.start(None), Action::TerminateChild));
    assert!(sup.holds_child());
    assert!(matches!(sup.on_outcome(Outcome::ChildStopped), Action::ReclaimPort(9000)));
}

#[test]
fn stray_outcome_changes_nothing() {
    let mut sup = BackendProcess::new();
    assert!(matches!(sup.on_outcome(Outcome::Spawned), Action::Done));
    assert!(!sup.holds_child());
}

#[test]
fn pid_listing_is_parsed() {
    assert_eq!(parse_pid_list("123\n456\n"), vec![123, 456]);
    assert_eq!(
        parse_pid_list(" 12 \r\n\nabc\n0\n2147483648\n2147483647\n7"),
        vec![12, 2147483647, 7]
    );
    assert_eq!(parse_pid_list(""), Vec::<u32>::new());
}

#[test]
fn binary_names() {
    assert_eq!(sidecar_binary_name(Arch::Aarch64, TargetOs::MacOs), "backend-aarch64-apple-darwin");
    assert_eq!(sidecar_binary_name(Arch::X86_64, TargetOs::MacOs), "backend-x86_64-apple-darwin");
    assert_eq!(
        sidecar_binary_name(Arch::Aarch64, TargetOs::Windows),
        "backend-aarch64-pc-windows-msvc.exe"
    );
    assert_eq!(
        sidecar_binary_name(Arch::X86_64, TargetOs::Windows),
        "backend-x86_64-pc-windows-msvc.exe"
    );
}

#[test]
fn binary_search_order() {
    let name = "backend-x86_64-apple-darwin".to_string();
    let c = binary_candidates(&name);
    assert_eq!(c.len(), 3);
    assert_eq!(c[0].base, BaseDir::Executable);
    assert_eq!(c[0].parts, vec!["backend".to_string()]);
    assert_eq!(c[1].base, BaseDir::Resources);
    assert_eq!(c[1].parts, vec!["binaries".to_string(), name.clone()]);
    assert_eq!(c[2].base, BaseDir::Resources);
    assert_eq!(c[2].parts, vec![name.clone()]);
}

#[test]
fn first_existing_binary_is_chosen() {
    let checked = vec!["a".to_string(), "b".to_string(), "c".to_string()];
    match choose_binary(checked, &[false, true, true]) {
        Ok(p) => assert_eq!(p, "b"),
        Err(e) => panic!("unexpected error {:?}", e),
    }
}

#[test]
fn missing_binary_lists_checked_paths() {
    let checked = vec!["a".to_string(), "b".to_string()];
    match choose_binary(checked, &[false, false]) {
        Err(StartError::BinaryNotFound(paths)) => assert_eq!(paths, vec!["a", "b"]),
        other => panic!("unexpected result {:?}", other),
    }
}

fn some(s: &str) -> Option<String> {
    Some(s.to_string())
}

#[test]
fn environment_config_needs_every_variable() {
    let c = config_from_env(some("b"), some(":7000"), some("true"), some("o")).unwrap();
    assert!(same(&c, &config("b", ":7000", true, "o")));
    let c = config_from_env(some("b"), some(":7000"), some("false"), some("o")).unwrap();
    assert!(!c.use_tls);
    assert!(config_from_env(some("b"), None, some("true"), some("o")).is_none());
    assert!(config_from_env(some("b"), some(":7000"), some("yes"), some("o")).is_none());
}

#[test]
fn environment_config_is_used_whole_at_launch() {
    let mut sup = BackendProcess::new();
    let first = sup.start(config_from_env(some("b"), some(":7000"), some("true"), some("o")));
    assert!(matches!(first, Action::ReclaimPort(7000)));
    let launched = run_to_started(&mut sup, first);
    assert!(same(&launched, &config("b", ":7000", true, "o")));
    let mut other = BackendProcess::new();
    let first = other.start(config_from_env(some(""), some(":7000"), some("true"), some("o")));
    let launched = run_to_started(&mut other, first);
    assert!(same(&launched, &default_config()));
}

#[test]
fn unavailable_launch_holds_no_child() {
    let mut sup = BackendProcess::new();
    sup.start(None);
    sup.on_outcome(Outcome::PortReclaimed);
    let a = sup.on_outcome(Outcome::LaunchFailed(StartError::LaunchUnavailable(
        "Unsupported target OS".to_string(),
    )));
    assert!(matches!(
        a,
        Action::Failed { release_child: false, error: StartError::LaunchUnavailable(_) }
    ));
    assert!(!sup.holds_child());
}

#[test]
fn pid_listing_of_one_line_without_newline() {
    assert_eq!(parse_pid_list("\n1"), vec![1]);
    assert_eq!(parse_pid_list("\n"), Vec::<u32>::new());
}
