use terminoda::connect::{advance, next_action, ConnectAction, ConnectStage, StageOutcome};
use terminoda::registry::{ResizePlan, SessionError, SessionRecord, SessionRegistry, SftpPlan};
use terminoda::request::{plan_connection, ConnectionDetails};
use terminoda::session_id::{
    new_session_id, parse_session_id, session_id_text, RANDOM_VERSION_VARIANT,
    VERSION_VARIANT_MASK,
};
use terminoda::transfer::TransferError;

const KNOWN: &str = "a1a2a3a4-b1b2-c1c2-d1d2-d3d4d5d6d7d8";
const KNOWN_VALUE: u128 = 0xa1a2a3a4b1b2c1c2d1d2d3d4d5d6d7d8;

#[test]
fn session_id_parses_hyphenated_text() {
    assert_eq!(parse_session_id(KNOWN), Ok(KNOWN_VALUE));
}

#[test]
fn session_id_parses_other_notations() {
    assert_eq!(parse_session_id("a1a2a3a4b1b2c1c2d1d2d3d4d5d6d7d8"), Ok(KNOWN_VALUE));
    assert_eq!(
        parse_session_id("urn:uuid:A1A2A3A4-B1B2-C1C2-D1D2-D3D4D5D6D7D8"),
        Ok(KNOWN_VALUE)
    );
    assert_eq!(parse_session_id("{a1a2a3a4-b1b2-c1c2-d1d2-d3d4d5d6d7d8}"), Ok(KNOWN_VALUE));
}

#[test]
fn session_id_rejects_other_text() {
    assert!(parse_session_id("").is_err());
    assert!(parse_session_id("not-a-session").is_err());
    assert!(parse_session_id("a1a2a3a4-b1b2-c1c2-d1d2-d3d4d5d6d7dz").is_err());
    assert!(!parse_session_id("zz").unwrap_err().is_empty());
}

#[test]
fn session_id_text_is_hyphenated_lower_case() {
    assert_eq!(session_id_text(KNOWN_VALUE), KNOWN);
    assert_eq!(session_id_text(0), "00000000-0000-0000-0000-000000000000");
}

#[test]
fn session_id_text_round_trips() {
    for id in [0u128, 1, KNOWN_VALUE, u128::MAX] {
        assert_eq!(parse_session_id(&session_id_text(id)), Ok(id));
    }
}

#[test]
fn new_session_ids_are_random_uuids() {
    let a = new_session_id();
    let b = new_session_id();
    assert_eq!(a & VERSION_VARIANT_MASK, RANDOM_VERSION_VARIANT);
    assert_eq!(b & VERSION_VARIANT_MASK, RANDOM_VERSION_VARIANT);
    assert_ne!(a, b);
}

#[test]
fn registry_starts_empty() {
    let registry = SessionRegistry::new();
    assert_eq!(registry.get(KNOWN_VALUE), None);
    assert_eq!(
        registry.locate(KNOWN),
        Err(SessionError::NotFound(KNOWN.to_string()))
    );
}

#[test]
fn registry_insert_get_remove() {
    let mut registry = SessionRegistry::new();
    registry.insert(7, SessionRecord { sftp_ready: false });
    registry.insert(9, SessionRecord { sftp_ready: true });
    assert_eq!(registry.get(7), Some(SessionRecord { sftp_ready: false }));
    assert_eq!(registry.get(9), Some(SessionRecord { sftp_ready: true }));
    assert_eq!(registry.get(8), None);
    registry.insert(7, SessionRecord { sftp_ready: true });
    assert_eq!(registry.get(7), Some(SessionRecord { sftp_ready: true }));
    assert_eq!(registry.remove(7), Some(SessionRecord { sftp_ready: true }));
    assert_eq!(registry.remove(7), None);
    assert_eq!(registry.get(7), None);
    assert_eq!(registry.get(9), Some(SessionRecord { sftp_ready: true }));
}

#[test]
fn opened_session_is_found_until_closed() {
    let mut registry = SessionRegistry::new();
    let (id, text) = registry.open_session();
    assert_eq!(text, session_id_text(id));
    assert_eq!(registry.get(id), Some(SessionRecord { sftp_ready: false }));
    assert_eq!(registry.locate(&text), Ok(id));
    assert_eq!(registry.close(&text), Ok(Some(id)));
    assert_eq!(registry.locate(&text), Err(SessionError::NotFound(text.clone())));
    assert_eq!(registry.close(&text), Ok(None));
}

#[test]
fn two_sessions_are_independent() {
    let mut registry = SessionRegistry::new();
    let (a, a_text) = registry.open_session();
    let (b, b_text) = registry.open_session();
    assert_ne!(a, b);
    assert_eq!(registry.close(&a_text), Ok(Some(a)));
    assert_eq!(registry.locate(&b_text), Ok(b));
}

#[test]
fn locate_rejects_malformed_identifier() {
    let registry = SessionRegistry::new();
    match registry.locate("nonsense") {
        Err(SessionError::Malformed(message)) => assert!(!message.is_empty()),
        other => panic!("unexpected: {:?}", other),
    }
}

#[test]
fn closing_unknown_session_changes_nothing() {
    let mut registry = SessionRegistry::new();
    registry.insert(KNOWN_VALUE + 1, SessionRecord { sftp_ready: true });
    assert_eq!(registry.close(KNOWN), Ok(None));
    assert_eq!(registry.get(KNOWN_VALUE + 1), Some(SessionRecord { sftp_ready: true }));
    assert_eq!(registry.get(KNOWN_VALUE), None);
}

#[test]
fn closing_malformed_identifier_is_an_error() {
    let mut registry = SessionRegistry::new();
    assert!(matches!(registry.close("x"), Err(SessionError::Malformed(_))));
}

#[test]
fn resize_of_unknown_session_returns_requested_size() {
    let registry = SessionRegistry::new();
    assert_eq!(
        registry.plan_resize(KNOWN, 24, 80),
        Ok(ResizePlan { session: None, rows: 24, cols: 80 })
    );
}

#[test]
fn resize_of_open_session_names_it() {
    let mut registry = SessionRegistry::new();
    let (id, text) = registry.open_session();
    assert_eq!(
        registry.plan_resize(&text, 50, 132),
        Ok(ResizePlan { session: Some(id), rows: 50, cols: 132 })
    );
}

#[test]
fn resize_with_malformed_identifier_is_an_error() {
    let registry = SessionRegistry::new();
    assert!(matches!(registry.plan_resize("?", 1, 1), Err(SessionError::Malformed(_))));
}

#[test]
fn ensuring_the_subsystem_twice_creates_it_once() {
    let mut registry = SessionRegistry::new();
    let (_, text) = registry.open_session();
    let mut creations = 0;
    for _ in 0..2 {
        let plan = registry.plan_sftp(&text).unwrap();
        if plan.create_subsystem {
            creations += 1;
            assert!(registry.sftp_created(plan.session));
        }
    }
    assert_eq!(creations, 1);
}

#[test]
fn sftp_subsystem_is_created_once() {
    let mut registry = SessionRegistry::new();
    let (id, text) = registry.open_session();
    assert_eq!(
        registry.plan_sftp(&text),
        Ok(SftpPlan { session: id, create_subsystem: true })
    );
    assert!(registry.sftp_created(id));
    assert_eq!(
        registry.plan_sftp(&text),
        Ok(SftpPlan { session: id, create_subsystem: false })
    );
    assert!(registry.sftp_created(id));
    assert_eq!(
        registry.plan_sftp(&text),
        Ok(SftpPlan { session: id, create_subsystem: false })
    );
}

#[test]
fn sftp_plan_for_unknown_or_malformed_session_fails() {
    let mut registry = SessionRegistry::new();
    assert_eq!(
        registry.plan_sftp(KNOWN),
        Err(SessionError::NotFound(KNOWN.to_string()))
    );
    assert!(matches!(registry.plan_sftp("bad"), Err(SessionError::Malformed(_))));
    assert!(!registry.sftp_created(KNOWN_VALUE));
    assert_eq!(registry.get(KNOWN_VALUE), None);
}

#[test]
fn session_error_messages() {
    let missing = SessionError::NotFound("abc".to_string());
    assert_eq!(missing.message(), "Session not found: abc");
    assert_eq!(missing.brief_message(), "Session not found");
    assert_eq!(missing.into_transfer_error(), TransferError::SessionMissing);
    let malformed = SessionError::Malformed("bad text".to_string());
    assert_eq!(malformed.message(), "bad text");
    assert_eq!(malformed.brief_message(), "bad text");
    assert_eq!(malformed.into_transfer_error(), TransferError::InvalidSessionId);
}

#[test]
fn a_connected_session_accepts_input() {
    let details = ConnectionDetails {
        host: "example.org".to_string(),
        port: None,
        username: "ada".to_string(),
        password: Some("secret".to_string()),
        private_key_path: None,
        passphrase: None,
        auth_method: None,
        keepalive_interval: None,
        timeout: None,
    };
    let plan = plan_connection(&details, None).unwrap();
    let kind = plan.credential.kind();
    let mut stage = ConnectStage::Connecting;
    let mut steps = 0;
    while next_action(&stage, &plan) != ConnectAction::HandOver {
        let (next, _) = advance(stage, StageOutcome::Succeeded, kind);
        stage = next;
        steps += 1;
    }
    assert_eq!(steps, 4);
    let mut registry = SessionRegistry::new();
    let (id, session_id) = registry.open_session();
    assert_eq!(registry.locate(&session_id), Ok(id));
}

#[test]
fn refused_resize_of_an_open_session_is_an_error() {
    let mut registry = SessionRegistry::new();
    let (_, text) = registry.open_session();
    let plan = registry.plan_resize(&text, 24, 80).unwrap();
    assert_eq!(plan.reply(Some("channel closed".to_string())), Err("channel closed".to_string()));
    assert_eq!(plan.reply(None), Ok((24, 80)));
}

#[test]
fn resize_of_unknown_session_is_never_an_error() {
    let registry = SessionRegistry::new();
    let plan = registry.plan_resize(KNOWN, 24, 80).unwrap();
    assert_eq!(plan.reply(None), Ok((24, 80)));
    assert_eq!(plan.reply(Some("ignored".to_string())), Ok((24, 80)));
}
