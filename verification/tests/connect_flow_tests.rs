use remote_hosts::connect_flow::{
    connect_start, connect_step, event_fits_stage, ConnectAction, ConnectEvent, ConnectNext, ConnectStage,
};
use remote_hosts::error::AppError;
use remote_hosts::remote_host::RemoteHost;

fn host() -> RemoteHost {
    RemoteHost {
        id: "h".to_string(),
        name: "box".to_string(),
        host: "10.0.0.5".to_string(),
        port: 2200,
        username: "carol".to_string(),
        password: "pw".to_string(),
        created_at: 0,
    }
}

fn expect_continue(n: ConnectNext) -> (ConnectStage, ConnectAction) {
    match n {
        ConnectNext::Continue(s, a) => (s, a),
        other => panic!("expected to continue, got {:?}", other),
    }
}

fn expect_config_failure(n: ConnectNext) -> String {
    match n {
        ConnectNext::Fail(AppError::Config(m)) => m,
        other => panic!("expected a failure, got {:?}", other),
    }
}

/// Runs the flow with the given outcomes; returns the actions asked for and the end.
fn run(events: Vec<ConnectEvent>) -> (Vec<String>, Option<ConnectNext>) {
    let h = host();
    let (mut stage, mut action) = connect_start(&h);
    let mut actions = vec![format!("{:?}", action)];
    for e in events {
        assert!(event_fits_stage(&stage, &e));
        match connect_step(&h, stage, e) {
            ConnectNext::Continue(s, a) => {
                stage = s;
                action = a;
                actions.push(format!("{:?}", action));
            },
            done => return (actions, Some(done)),
        }
    }
    (actions, None)
}

#[test]
fn connect_starts_by_dialing_the_address() {
    let (stage, action) = connect_start(&host());
    assert_eq!(stage, ConnectStage::Dialing);
    match action {
        ConnectAction::Dial(a) => assert_eq!(a, "10.0.0.5:2200"),
        other => panic!("unexpected {:?}", other),
    }
}

#[test]
fn full_connect_runs_every_step_in_order() {
    let (actions, end) = run(vec![
        ConnectEvent::Done,
        ConnectEvent::Done,
        ConnectEvent::Done,
        ConnectEvent::Done,
        ConnectEvent::LoginChecked(true),
        ConnectEvent::Output(Ok("/home/carol\n".to_string())),
    ]);
    assert_eq!(
        actions,
        vec![
            "Dial(\"10.0.0.5:2200\")".to_string(),
            "OpenSession".to_string(),
            "Handshake".to_string(),
            "Login(\"carol\", \"pw\")".to_string(),
            "CheckLogin".to_string(),
            "RunCommand(\"echo $HOME\")".to_string(),
        ]
    );
    match end {
        Some(ConnectNext::Connected(home)) => assert_eq!(home, "/home/carol"),
        other => panic!("unexpected {:?}", other),
    }
}

#[test]
fn failed_home_probe_falls_back_to_home_of_user() {
    let (_, end) = run(vec![
        ConnectEvent::Done,
        ConnectEvent::Done,
        ConnectEvent::Done,
        ConnectEvent::Done,
        ConnectEvent::LoginChecked(true),
        ConnectEvent::Output(Err(AppError::Config("x".to_string()))),
    ]);
    match end {
        Some(ConnectNext::Connected(home)) => assert_eq!(home, "/home/carol"),
        other => panic!("unexpected {:?}", other),
    }
}

#[test]
fn failed_dial_ends_with_the_address() {
    let (actions, end) = run(vec![ConnectEvent::Failed("connection refused".to_string()), ConnectEvent::Done]);
    assert_eq!(actions.len(), 1);
    assert_eq!(expect_config_failure(end.unwrap()), "无法连接到 10.0.0.5:2200: connection refused");
}

#[test]
fn each_failure_has_its_message() {
    let h = host();
    assert_eq!(
        expect_config_failure(connect_step(&h, ConnectStage::Opening, ConnectEvent::Failed("e1".to_string()))),
        "创建 SSH session 失败: e1"
    );
    assert_eq!(
        expect_config_failure(connect_step(&h, ConnectStage::Handshaking, ConnectEvent::Failed("e2".to_string()))),
        "SSH 握手失败: e2"
    );
    assert_eq!(
        expect_config_failure(connect_step(&h, ConnectStage::LoggingIn, ConnectEvent::Failed("e3".to_string()))),
        "SSH 认证失败: e3"
    );
    let (s, _) = expect_continue(connect_step(&h, ConnectStage::LoggingIn, ConnectEvent::Done));
    assert_eq!(s, ConnectStage::CheckingLogin);
}

#[test]
fn rejected_login_never_probes() {
    let (actions, end) = run(vec![
        ConnectEvent::Done,
        ConnectEvent::Done,
        ConnectEvent::Done,
        ConnectEvent::Done,
        ConnectEvent::LoginChecked(false),
    ]);
    assert!(!actions.iter().any(|a| a.starts_with("RunCommand")));
    assert_eq!(expect_config_failure(end.unwrap()), "SSH 认证失败：用户名或密码错误");
}

#[test]
fn events_fit_only_their_stage() {
    assert!(event_fits_stage(&ConnectStage::Dialing, &ConnectEvent::Done));
    assert!(!event_fits_stage(&ConnectStage::Dialing, &ConnectEvent::LoginChecked(true)));
    assert!(!event_fits_stage(&ConnectStage::CheckingLogin, &ConnectEvent::Done));
    assert!(event_fits_stage(&ConnectStage::ProbingHome, &ConnectEvent::Output(Ok(String::new()))));
}
