use rdp_rspy::{
    endpoint_text, Action, ConnectionProfile, ProbeError, Stage, StepResult, TransportError,
    CLIENT_NAME, CONNECT_TIMEOUT_SECS, SCREEN_HEIGHT, SCREEN_WIDTH,
};

fn ok() -> StepResult {
    Ok(())
}

fn err(text: &str) -> StepResult {
    Err(text.to_string())
}

fn run(results: Vec<StepResult>) -> (Vec<Action>, Stage) {
    let mut stage = Stage::start();
    let mut actions = Vec::new();
    for step in results {
        actions.push(stage.action());
        if stage.is_finished() {
            return (actions, stage);
        }
        stage = stage.advance(step);
    }
    actions.push(stage.action());
    (actions, stage)
}

#[test]
fn invalid_address_fails_without_network_work() {
    let (actions, stage) = run(vec![err("invalid socket address syntax"), ok(), ok(), ok()]);
    let e = ProbeError::Transport(TransportError::InvalidAddress(
        "invalid socket address syntax".to_string(),
    ));
    assert_eq!(stage, Stage::Finished(Err(e.clone())));
    assert_eq!(actions, vec![Action::ParseAddress, Action::Report]);
    assert_eq!(e.cause(), "invalid socket address syntax");
}

#[test]
fn connect_failure_is_a_transport_failure() {
    let (actions, stage) = run(vec![ok(), err("connection refused")]);
    let e = ProbeError::Transport(TransportError::Connect("connection refused".to_string()));
    assert_eq!(stage.into_outcome(), Some(Err(e)));
    assert_eq!(
        actions,
        vec![
            Action::ParseAddress,
            Action::Connect { timeout_secs: 5 },
            Action::Report
        ]
    );
}

#[test]
fn connect_waits_five_seconds() {
    assert_eq!(CONNECT_TIMEOUT_SECS, 5);
    let stage = Stage::start().advance(ok());
    assert_eq!(stage.action(), Action::Connect { timeout_secs: 5 });
}

#[test]
fn no_delay_failure_is_a_transport_failure() {
    let (_, stage) = run(vec![ok(), ok(), err("bad option")]);
    assert_eq!(
        stage.into_outcome(),
        Some(Err(ProbeError::Transport(TransportError::NoDelay(
            "bad option".to_string()
        ))))
    );
}

#[test]
fn handshake_failure_after_transport_success() {
    let (actions, stage) = run(vec![ok(), ok(), ok(), err("negotiation failure")]);
    assert_eq!(
        stage.into_outcome(),
        Some(Err(ProbeError::Handshake("negotiation failure".to_string())))
    );
    assert_eq!(
        actions,
        vec![
            Action::ParseAddress,
            Action::Connect { timeout_secs: 5 },
            Action::SetNoDelay,
            Action::Handshake,
            Action::Report
        ]
    );
}

#[test]
fn all_steps_succeed() {
    let (_, stage) = run(vec![ok(), ok(), ok(), ok()]);
    assert_eq!(stage.action(), Action::Report);
    assert_eq!(stage.into_outcome(), Some(Ok(())));
}

#[test]
fn same_results_same_outcome() {
    for bits in 0..16u32 {
        let results = || -> Vec<StepResult> {
            (0..4)
                .map(|i| if bits & (1 << i) != 0 { ok() } else { err("e") })
                .collect()
        };
        assert_eq!(run(results()), run(results()));
        let mut longer = results();
        longer.push(err("late"));
        assert_eq!(run(results()).1, run(longer).1);
    }
}

#[test]
fn unfinished_stage_has_no_outcome() {
    assert!(!Stage::start().is_finished());
    assert_eq!(Stage::start().action(), Action::ParseAddress);
    assert_eq!(Stage::start().into_outcome(), None);
}

#[test]
fn error_messages_and_causes() {
    let cases = vec![
        (ProbeError::Transport(TransportError::InvalidAddress("a".to_string())), "tcp connect failed", "a"),
        (ProbeError::Transport(TransportError::Connect("b".to_string())), "tcp connect failed", "b"),
        (ProbeError::Transport(TransportError::NoDelay("c".to_string())), "tcp connect failed", "c"),
        (ProbeError::Handshake("d".to_string()), "rdp connect failed", "d"),
    ];
    for (e, message, cause) in cases {
        assert_eq!(e.message(), message);
        assert_eq!(e.cause(), cause);
    }
}

#[test]
fn endpoint_text_joins_host_and_port() {
    assert_eq!(endpoint_text("127.0.0.1", "3389"), "127.0.0.1:3389");
    assert_eq!(endpoint_text("", ""), ":");
    assert_eq!(endpoint_text("[::1]", "80"), "[::1]:80");
}

#[test]
fn profile_is_fixed_but_for_credentials() {
    let p = ConnectionProfile::new("alice", "s3cret");
    assert_eq!(p.width, 1920);
    assert_eq!(p.height, 1080);
    assert_eq!((SCREEN_WIDTH, SCREEN_HEIGHT), (1920, 1080));
    assert_eq!(p.domain, "");
    assert_eq!(p.username, "alice");
    assert_eq!(p.password, "s3cret");
    assert_eq!(p.name, "freerdp");
    assert_eq!(CLIENT_NAME, "freerdp");
    assert!(!p.restricted_admin_mode);
    assert!(matches!(p.layout, rdp::core::gcc::KeyboardLayout::US));
    assert!(!p.auto_logon);
    assert!(!p.blank_creds);
    assert!(!p.check_certificate);
    assert!(p.use_nla);
}

#[test]
fn profile_builds_a_connector_without_panicking() {
    let p = ConnectionProfile::new("bob", "");
    let _connector = p.into_connector();
}
