use terminoda::request::{
    plan_connection, ConnectionDetails, Credential, CredentialKind, RequestError, DEFAULT_PORT,
    DEFAULT_TIMEOUT_MS,
};

fn details(password: Option<&str>, key: Option<&str>) -> ConnectionDetails {
    ConnectionDetails {
        host: "example.org".to_string(),
        port: None,
        username: "ada".to_string(),
        password: password.map(|s| s.to_string()),
        private_key_path: key.map(|s| s.to_string()),
        passphrase: None,
        auth_method: None,
        keepalive_interval: None,
        timeout: None,
    }
}

#[test]
fn request_without_credential_is_rejected() {
    let r = plan_connection(&details(None, None), None);
    assert_eq!(r, Err(RequestError::MissingCredential));
    assert_eq!(
        RequestError::MissingCredential.message(),
        "No password or private key provided"
    );
}

#[test]
fn request_with_only_passphrase_is_rejected() {
    let mut d = details(None, None);
    d.passphrase = Some("words".to_string());
    assert_eq!(plan_connection(&d, None), Err(RequestError::MissingCredential));
}

#[test]
fn request_with_password_uses_defaults() {
    let plan = plan_connection(&details(Some("secret"), None), None).unwrap();
    assert_eq!(DEFAULT_PORT, 22);
    assert_eq!(DEFAULT_TIMEOUT_MS, 10_000);
    assert_eq!(plan.address, "example.org:22");
    assert_eq!(plan.username, "ada");
    assert_eq!(plan.timeout_ms, 10_000);
    assert_eq!(plan.keepalive, None);
    assert_eq!(plan.terminal_type, "xterm-256color");
    assert_eq!(plan.credential.kind(), CredentialKind::Password);
    assert_eq!(plan.credential, Credential::Password("secret".to_string()));
}

#[test]
fn request_with_key_and_passphrase() {
    let mut d = details(None, Some("/home/ada/.ssh/id_ed25519"));
    d.passphrase = Some("words".to_string());
    let plan = plan_connection(&d, None).unwrap();
    assert_eq!(plan.credential.kind(), CredentialKind::KeyFile);
    assert_eq!(
        plan.credential,
        Credential::KeyFile {
            path: "/home/ada/.ssh/id_ed25519".to_string(),
            passphrase: Some("words".to_string()),
        }
    );
}

#[test]
fn request_with_password_and_key_is_rejected() {
    let r = plan_connection(&details(Some("secret"), Some("/key")), None);
    assert_eq!(r, Err(RequestError::ConflictingCredentials));
    assert_eq!(
        RequestError::ConflictingCredentials.message(),
        "Both a password and a private key provided"
    );
    let mut d = details(Some(""), Some(""));
    d.passphrase = Some("words".to_string());
    assert_eq!(plan_connection(&d, None), Err(RequestError::ConflictingCredentials));
}

#[test]
fn passphrase_does_not_count_as_a_credential() {
    let mut d = details(Some("secret"), None);
    d.passphrase = Some("words".to_string());
    let plan = plan_connection(&d, None).unwrap();
    assert_eq!(plan.credential, Credential::Password("secret".to_string()));
}

#[test]
fn request_values_override_defaults() {
    let mut d = details(Some("secret"), None);
    d.port = Some(2222);
    d.timeout = Some(500);
    d.keepalive_interval = Some(30);
    let plan = plan_connection(&d, Some("vt100".to_string())).unwrap();
    assert_eq!(plan.address, "example.org:2222");
    assert_eq!(plan.timeout_ms, 500);
    assert_eq!(plan.keepalive, Some(30));
    assert_eq!(plan.terminal_type, "vt100");
}

#[test]
fn zero_keepalive_means_none() {
    let mut d = details(Some("secret"), None);
    d.keepalive_interval = Some(0);
    assert_eq!(plan_connection(&d, None).unwrap().keepalive, None);
}

#[test]
fn address_holds_extreme_ports() {
    let mut d = details(Some("secret"), None);
    d.port = Some(0);
    assert_eq!(plan_connection(&d, None).unwrap().address, "example.org:0");
    d.port = Some(65535);
    assert_eq!(plan_connection(&d, None).unwrap().address, "example.org:65535");
    d.port = Some(10);
    assert_eq!(plan_connection(&d, None).unwrap().address, "example.org:10");
}
