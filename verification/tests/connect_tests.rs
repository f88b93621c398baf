use terminoda::connect::{
    advance, next_action, ConnectAction, ConnectError, ConnectStage, HistoryNote, StageOutcome,
};
use terminoda::request::{ConnectionPlan, Credential, CredentialKind};

fn plan() -> ConnectionPlan {
    ConnectionPlan {
        address: "example.org:22".to_string(),
        username: "ada".to_string(),
        credential: Credential::KeyFile {
            path: "/key".to_string(),
            passphrase: Some("words".to_string()),
        },
        timeout_ms: 10_000,
        keepalive: Some(30),
        terminal_type: "xterm-256color".to_string(),
    }
}

#[test]
fn each_stage_has_its_action() {
    let plan = plan();
    assert_eq!(
        next_action(&ConnectStage::Connecting, &plan),
        ConnectAction::OpenStream { address: "example.org:22".to_string() }
    );
    assert_eq!(
        next_action(&ConnectStage::Handshaking, &plan),
        ConnectAction::Handshake { timeout_ms: 10_000, keepalive: Some(30) }
    );
    assert_eq!(
        next_action(&ConnectStage::Authenticating, &plan),
        ConnectAction::Authenticate {
            username: "ada".to_string(),
            credential: plan.credential.clone(),
        }
    );
    assert_eq!(
        next_action(&ConnectStage::ChannelOpening, &plan),
        ConnectAction::OpenShell { terminal_type: "xterm-256color".to_string() }
    );
    assert_eq!(next_action(&ConnectStage::Ready, &plan), ConnectAction::HandOver);
    assert_eq!(
        next_action(&ConnectStage::Failed(ConnectError::NotAuthenticated), &plan),
        ConnectAction::GiveUp
    );
}

#[test]
fn credential_copies_are_equal() {
    let key = plan().credential;
    assert_eq!(key.duplicate(), key);
    let password = Credential::Password("secret".to_string());
    assert_eq!(password.duplicate(), password);
}

fn failed(message: &str) -> StageOutcome {
    StageOutcome::Failed(message.to_string())
}

#[test]
fn four_successes_reach_ready() {
    let kind = CredentialKind::Password;
    let (s, n) = advance(ConnectStage::Connecting, StageOutcome::Succeeded, kind);
    assert_eq!((s.clone(), n), (ConnectStage::Handshaking, None));
    let (s, n) = advance(s, StageOutcome::Succeeded, kind);
    assert_eq!((s.clone(), n), (ConnectStage::Authenticating, None));
    let (s, n) = advance(s, StageOutcome::Succeeded, kind);
    assert_eq!((s.clone(), n), (ConnectStage::ChannelOpening, Some(HistoryNote::Success)));
    let (s, n) = advance(s, StageOutcome::Succeeded, kind);
    assert_eq!((s, n), (ConnectStage::Ready, None));
}

#[test]
fn tcp_failure_is_a_transport_error() {
    let (s, n) = advance(ConnectStage::Connecting, failed("refused"), CredentialKind::Password);
    assert_eq!(s, ConnectStage::Failed(ConnectError::Transport("refused".to_string())));
    assert_eq!(n, None);
}

#[test]
fn handshake_failure_is_a_transport_error() {
    let (s, n) = advance(ConnectStage::Handshaking, failed("timeout"), CredentialKind::KeyFile);
    assert_eq!(s, ConnectStage::Failed(ConnectError::Transport("timeout".to_string())));
    assert_eq!(n, None);
}

#[test]
fn authentication_failure_depends_on_credential() {
    let (s, n) = advance(ConnectStage::Authenticating, failed("denied"), CredentialKind::KeyFile);
    assert_eq!(s, ConnectStage::Failed(ConnectError::KeyAuthentication("denied".to_string())));
    assert_eq!(n, Some(HistoryNote::AuthFailed));
    let (s, n) = advance(ConnectStage::Authenticating, failed("denied"), CredentialKind::Password);
    assert_eq!(
        s,
        ConnectStage::Failed(ConnectError::PasswordAuthentication("denied".to_string()))
    );
    assert_eq!(n, Some(HistoryNote::AuthFailed));
}

#[test]
fn unauthenticated_session_fails() {
    let (s, n) = advance(
        ConnectStage::Authenticating,
        StageOutcome::Unauthenticated,
        CredentialKind::Password,
    );
    assert_eq!(s, ConnectStage::Failed(ConnectError::NotAuthenticated));
    assert_eq!(n, Some(HistoryNote::AuthFailed));
}

#[test]
fn channel_failure_is_a_channel_error() {
    let (s, n) = advance(ConnectStage::ChannelOpening, failed("no pty"), CredentialKind::Password);
    assert_eq!(s, ConnectStage::Failed(ConnectError::Channel("no pty".to_string())));
    assert_eq!(n, None);
}

#[test]
fn final_stages_stay() {
    let kind = CredentialKind::Password;
    for outcome in [StageOutcome::Succeeded, StageOutcome::Unauthenticated, failed("x")] {
        let (s, n) = advance(ConnectStage::Ready, outcome.clone(), kind);
        assert_eq!((s, n), (ConnectStage::Ready, None));
        let stage = ConnectStage::Failed(ConnectError::NotAuthenticated);
        let (s, n) = advance(stage.clone(), outcome, kind);
        assert_eq!((s, n), (stage, None));
    }
}

#[test]
fn connect_error_messages() {
    assert_eq!(ConnectError::Transport("refused".to_string()).message(), "refused");
    assert_eq!(
        ConnectError::KeyAuthentication("bad key".to_string()).message(),
        "Key authentication failed: bad key"
    );
    assert_eq!(
        ConnectError::PasswordAuthentication("bad password".to_string()).message(),
        "Password authentication failed: bad password"
    );
    assert_eq!(ConnectError::NotAuthenticated.message(), "Authentication failed");
    assert_eq!(ConnectError::Channel("no shell".to_string()).message(), "no shell");
}

#[test]
fn history_note_status_texts() {
    assert_eq!(HistoryNote::Connecting.status(), "Connecting...");
    assert_eq!(HistoryNote::Success.status(), "Success");
    assert_eq!(HistoryNote::AuthFailed.status(), "Failed (Auth)");
}

#[test]
fn unauthenticated_report_fails_any_stage_without_a_note() {
    for stage in [ConnectStage::Connecting, ConnectStage::Handshaking, ConnectStage::ChannelOpening] {
        let (s, n) = advance(stage, StageOutcome::Unauthenticated, CredentialKind::KeyFile);
        assert_eq!(s, ConnectStage::Failed(ConnectError::NotAuthenticated));
        assert_eq!(n, None);
    }
}

#[test]
fn a_failed_attempt_gives_up_and_never_goes_on() {
    let plan = plan();
    let kind = plan.credential.kind();
    let (stage, _) = advance(ConnectStage::Connecting, StageOutcome::Succeeded, kind);
    let (stage, _) = advance(stage, failed("no route"), kind);
    assert_eq!(next_action(&stage, &plan), ConnectAction::GiveUp);
    let (stage, note) = advance(stage, StageOutcome::Succeeded, kind);
    assert_eq!(stage, ConnectStage::Failed(ConnectError::Transport("no route".to_string())));
    assert_eq!(note, None);
    assert_eq!(next_action(&stage, &plan), ConnectAction::GiveUp);
}

#[test]
fn authentication_counts_only_on_an_authenticated_session() {
    assert_eq!(StageOutcome::authentication(None, true), StageOutcome::Succeeded);
    assert_eq!(StageOutcome::authentication(None, false), StageOutcome::Unauthenticated);
    assert_eq!(StageOutcome::authentication(Some("denied".to_string()), false), failed("denied"));
    assert_eq!(StageOutcome::authentication(Some("denied".to_string()), true), failed("denied"));
}
