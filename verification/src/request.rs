//! Connection requests and what is derived from them before any network I/O.

use crate::text::{decimal, decimal_text};
use vstd::prelude::*;
use vstd::string::StringExecFns;

verus! {

/// Port used when a request names none.
pub const DEFAULT_PORT: u16 = 22;

/// Handshake timeout in milliseconds used when a request names none.
pub const DEFAULT_TIMEOUT_MS: u32 = 10_000;

/// What a caller asks for when opening a connection.
#[derive(Debug, Clone, PartialEq, Eq)]
pub struct ConnectionDetails {
    pub host: String,
    pub port: Option<u16>,
    pub username: String,
    pub password: Option<String>,
    pub private_key_path: Option<String>,
    pub passphrase: Option<String>,
    pub auth_method: Option<String>,
    pub keepalive_interval: Option<u32>,
    pub timeout: Option<u32>,
}

/// The one credential that authentication will try.
#[derive(Debug, Clone, PartialEq, Eq)]
pub enum Credential {
    Password(String),
    KeyFile { path: String, passphrase: Option<String> },
}

/// Which kind of credential a plan holds.
#[derive(Debug, Clone, Copy, PartialEq, Eq, Structural)]
pub enum CredentialKind {
    Password,
    KeyFile,
}

/// A validated request: every value the connection steps need.
#[derive(Debug, Clone, PartialEq, Eq)]
pub struct ConnectionPlan {
    /// `host:port`, the address the TCP stream is opened to.
    pub address: String,
    pub username: String,
    pub credential: Credential,
    /// Timeout of the transport in milliseconds.
    pub timeout_ms: u32,
    /// Keepalive interval in seconds, where keepalive is wanted.
    pub keepalive: Option<u32>,
    /// Terminal type that the pseudo-terminal is requested with.
    pub terminal_type: String,
}

/// Why a request was turned down before any connection was attempted.
#[derive(Debug, Clone, Copy, PartialEq, Eq, Structural)]
pub enum RequestError {
    /// The request holds neither a password nor a private key.
    MissingCredential,
    /// The request holds both a password and a private key.
    ConflictingCredentials,
}

impl RequestError {
    /// The message shown to the caller.
    pub open spec fn message_text(self) -> Seq<char> {
        match self {
            RequestError::MissingCredential => "No password or private key provided"@,
            RequestError::ConflictingCredentials => "Both a password and a private key provided"@,
        }
    }

    /// The message shown to the caller.
    pub fn message(&self) -> (s: String)
        ensures
            s@ == self.message_text(),
    {
        match self {
            RequestError::MissingCredential => String::from_str(
                "No password or private key provided",
            ),
            RequestError::ConflictingCredentials => String::from_str(
                "Both a password and a private key provided",
            ),
        }
    }
}

/// The text of an optional string.
pub open spec fn opt_text(o: Option<String>) -> Option<Seq<char>> {
    match o {
        Some(s) => Some(s@),
        None => None,
    }
}

/// Terminal type used when the caller names none.
pub open spec fn default_terminal() -> Seq<char> {
    "xterm-256color"@
}

impl ConnectionDetails {
    /// Whether the request holds exactly one credential: a password or a
    /// private key, and not both. Only such a request is valid.
    pub open spec fn has_one_credential(self) -> bool {
        (self.private_key_path is Some) != (self.password is Some)
    }

    /// Why the request is turned down, if it is: for holding no credential,
    /// or for holding two.
    pub open spec fn rejection(self) -> Option<RequestError> {
        if self.private_key_path is Some && self.password is Some {
            Some(RequestError::ConflictingCredentials)
        } else if self.private_key_path is None && self.password is None {
            Some(RequestError::MissingCredential)
        } else {
            None
        }
    }

    /// The port that will be connected to.
    pub open spec fn effective_port(self) -> u16 {
        match self.port {
            Some(p) => p,
            None => DEFAULT_PORT,
        }
    }

    /// The transport timeout that will be set.
    pub open spec fn effective_timeout(self) -> u32 {
        match self.timeout {
            Some(t) => t,
            None => DEFAULT_TIMEOUT_MS,
        }
    }

    /// The keepalive interval that will be set: only a positive one counts.
    pub open spec fn effective_keepalive(self) -> Option<u32> {
        match self.keepalive_interval {
            Some(k) => if k > 0 {
                Some(k)
            } else {
                None
            },
            None => None,
        }
    }

    /// The address `host:port`.
    pub open spec fn address(self) -> Seq<char> {
        self.host@ + seq![':'] + decimal(self.effective_port() as nat)
    }
}

impl Credential {
    /// Which kind of credential this is.
    pub open spec fn kind_of(self) -> CredentialKind {
        match self {
            Credential::Password(_) => CredentialKind::Password,
            Credential::KeyFile { .. } => CredentialKind::KeyFile,
        }
    }

    /// Whether this is the one credential of a request: its private key with
    /// the passphrase, or its password. A request with no credential or with
    /// two has none.
    pub open spec fn selected_from(self, details: ConnectionDetails) -> bool {
        match (details.private_key_path, details.password) {
            (Some(key_path), None) => self matches Credential::KeyFile { path, passphrase }
                && path@ == key_path@ && opt_text(passphrase) == opt_text(details.passphrase),
            (None, Some(password)) => self matches Credential::Password(p) && p@ == password@,
            _ => false,
        }
    }

    /// Whether two credentials hold the same texts.
    pub open spec fn same_as(self, other: Credential) -> bool {
        match self {
            Credential::Password(p) => other matches Credential::Password(q) && p@ == q@,
            Credential::KeyFile { path, passphrase } => other matches Credential::KeyFile {
                path: other_path,
                passphrase: other_passphrase,
            } && path@ == other_path@ && opt_text(passphrase) == opt_text(other_passphrase),
        }
    }

    /// A copy of this credential.
    pub fn duplicate(&self) -> (copy: Credential)
        ensures
            copy.same_as(*self),
    {
        match self {
            Credential::Password(p) => Credential::Password(p.clone()),
            Credential::KeyFile { path, passphrase } => Credential::KeyFile {
                path: path.clone(),
                passphrase: clone_opt(passphrase),
            },
        }
    }

    /// Which kind of credential this is.
    pub fn kind(&self) -> (k: CredentialKind)
        ensures
            k == self.kind_of(),
    {
        match self {
            Credential::Password(_) => CredentialKind::Password,
            Credential::KeyFile { .. } => CredentialKind::KeyFile,
        }
    }
}

impl ConnectionPlan {
    /// Whether this is the plan that follows from a request and the terminal
    /// type the caller asked for.
    pub open spec fn follows_from(
        self,
        details: ConnectionDetails,
        terminal_type: Option<String>,
    ) -> bool {
        &&& self.address@ == details.address()
        &&& self.username@ == details.username@
        &&& self.credential.selected_from(details)
        &&& self.timeout_ms == details.effective_timeout()
        &&& self.keepalive == details.effective_keepalive()
        &&& self.terminal_type@ == match terminal_type {
            Some(t) => t@,
            None => default_terminal(),
        }
    }
}

/// A copy of an optional string.
fn clone_opt(o: &Option<String>) -> (r: Option<String>)
    ensures
        opt_text(r) == opt_text(*o),
{
    match o {
        Some(s) => Some(s.clone()),
        None => None,
    }
}

/// Validates a request and derives the connection plan from it.
///
/// Succeeds exactly when the request holds one credential: a password or a
/// private key, not both. A request without a credential fails with
/// `MissingCredential`, one with both fails with `ConflictingCredentials`;
/// nothing has touched the network at that point. The plan of a valid request
/// is the one that `follows_from` describes: default port 22, default timeout
/// of ten seconds, keepalive only for a positive interval, terminal type
/// `xterm-256color` unless the caller names one.
pub fn plan_connection(details: &ConnectionDetails, terminal_type: Option<String>) -> (r: Result<
    ConnectionPlan,
    RequestError,
>)
    ensures
        r is Ok <==> details.has_one_credential(),
        r matches Ok(plan) ==> plan.follows_from(*details, terminal_type),
        r matches Err(e) ==> details.rejection() == Some(e),
{
    let credential = match (&details.private_key_path, &details.password) {
        (Some(key_path), None) => Credential::KeyFile {
            path: key_path.clone(),
            passphrase: clone_opt(&details.passphrase),
        },
        (None, Some(password)) => Credential::Password(password.clone()),
        (None, None) => {
            return Err(RequestError::MissingCredential);
        },
        (Some(_), Some(_)) => {
            return Err(RequestError::ConflictingCredentials);
        },
    };
    let port: u16 = match details.port {
        Some(p) => p,
        None => DEFAULT_PORT,
    };
    let timeout_ms: u32 = match details.timeout {
        Some(t) => t,
        None => DEFAULT_TIMEOUT_MS,
    };
    let keepalive = match details.keepalive_interval {
        Some(k) => if k > 0 {
            Some(k)
        } else {
            None
        },
        None => None,
    };
    proof {
        reveal_strlit(":");
    }
    let mut address = details.host.clone();
    address.append(":");
    let port_text = decimal_text(port as u32);
    address.append(port_text.as_str());
    assert(address@ =~= details.address());
    let terminal = match terminal_type {
        Some(t) => t,
        None => String::from_str("xterm-256color"),
    };
    Ok(
        ConnectionPlan {
            address,
            username: details.username.clone(),
            credential,
            timeout_ms,
            keepalive,
            terminal_type: terminal,
        },
    )
}

} // verus!
