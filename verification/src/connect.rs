//! The connection state machine.
//!
//! A connection passes through four stages of outside work: opening the TCP
//! stream, the SSH handshake, authentication, and opening the shell channel.
//! The program around this crate asks `next_action` what to do at a stage,
//! does it, and reports how it ended; `advance` answers with the stage that
//! follows. Nothing is ever retried.

use crate::request::{ConnectionPlan, Credential, CredentialKind};
use vstd::prelude::*;
use vstd::string::StringExecFns;

verus! {

/// Why a connection attempt ended without a session.
#[derive(Debug, Clone, PartialEq, Eq)]
pub enum ConnectError {
    /// The TCP connection or the handshake failed; holds the transport's message.
    Transport(String),
    /// Authentication with a private key was refused; holds the reason.
    KeyAuthentication(String),
    /// Authentication with a password was refused; holds the reason.
    PasswordAuthentication(String),
    /// The authentication exchange ended and the session is not authenticated.
    NotAuthenticated,
    /// The channel, its pseudo-terminal or its shell could not be set up.
    Channel(String),
}

/// Where a connection attempt stands.
#[derive(Debug, Clone, PartialEq, Eq)]
pub enum ConnectStage {
    Connecting,
    Handshaking,
    Authenticating,
    ChannelOpening,
    Ready,
    Failed(ConnectError),
}

/// How the outside work of a stage ended.
#[derive(Debug, Clone, PartialEq, Eq)]
pub enum StageOutcome {
    /// The work was done.
    Succeeded,
    /// The authentication exchange completed and left the session unauthenticated.
    Unauthenticated,
    /// The work failed; holds the message of the failure.
    Failed(String),
}

/// The outside work to do at a stage.
#[derive(Debug, Clone, PartialEq, Eq)]
pub enum ConnectAction {
    /// Open the TCP stream to the address.
    OpenStream { address: String },
    /// Set the timeout, and the keepalive interval if there is one, then
    /// perform the SSH handshake.
    Handshake { timeout_ms: u32, keepalive: Option<u32> },
    /// Authenticate the user with the credential, then ask whether the
    /// session is authenticated.
    Authenticate { username: String, credential: Credential },
    /// Open a session channel, request a pseudo-terminal of this type on it
    /// and start the shell.
    OpenShell { terminal_type: String },
    /// Switch the transport to non-blocking mode, then register the session
    /// and start its relay: the relay and the foreground share the transport,
    /// and a blocking read would starve the foreground.
    HandOver,
    /// Report the failure that the stage holds.
    GiveUp,
}

/// What the connection history records about an attempt.
#[derive(Debug, Clone, Copy, PartialEq, Eq, Structural)]
pub enum HistoryNote {
    /// The attempt has started.
    Connecting,
    /// Authentication succeeded.
    Success,
    /// Authentication failed.
    AuthFailed,
}

impl StageOutcome {
    /// How authentication ended, given the message of the failure if the
    /// authentication call failed, and whether the session is authenticated
    /// after it: a call that succeeds on a session that is not authenticated
    /// is no success.
    pub open spec fn of_authentication(failure: Option<String>, authenticated: bool) -> StageOutcome {
        match failure {
            Some(message) => StageOutcome::Failed(message),
            None => if authenticated {
                StageOutcome::Succeeded
            } else {
                StageOutcome::Unauthenticated
            },
        }
    }

    /// Decides how authentication ended.
    pub fn authentication(failure: Option<String>, authenticated: bool) -> (outcome: StageOutcome)
        ensures
            outcome == StageOutcome::of_authentication(failure, authenticated),
    {
        match failure {
            Some(message) => StageOutcome::Failed(message),
            None => {
                if authenticated {
                    StageOutcome::Succeeded
                } else {
                    StageOutcome::Unauthenticated
                }
            },
        }
    }
}

impl ConnectError {
    /// Whether the error comes from authentication.
    pub open spec fn is_authentication(self) -> bool {
        self is KeyAuthentication || self is PasswordAuthentication || self is NotAuthenticated
    }

    /// The message shown to the caller.
    pub open spec fn message_text(self) -> Seq<char> {
        match self {
            ConnectError::Transport(m) => m@,
            ConnectError::KeyAuthentication(m) => "Key authentication failed: "@ + m@,
            ConnectError::PasswordAuthentication(m) => "Password authentication failed: "@ + m@,
            ConnectError::NotAuthenticated => "Authentication failed"@,
            ConnectError::Channel(m) => m@,
        }
    }

    /// The message shown to the caller.
    pub fn message(&self) -> (s: String)
        ensures
            s@ == self.message_text(),
    {
        match self {
            ConnectError::Transport(m) => m.clone(),
            ConnectError::KeyAuthentication(m) => String::from_str(
                "Key authentication failed: ",
            ).concat(m.as_str()),
            ConnectError::PasswordAuthentication(m) => String::from_str(
                "Password authentication failed: ",
            ).concat(m.as_str()),
            ConnectError::NotAuthenticated => String::from_str("Authentication failed"),
            ConnectError::Channel(m) => m.clone(),
        }
    }
}

impl ConnectAction {
    /// Whether this is the work to do at a stage of a planned connection.
    pub open spec fn is_for(self, stage: ConnectStage, plan: ConnectionPlan) -> bool {
        match stage {
            ConnectStage::Connecting => self matches ConnectAction::OpenStream { address }
                && address@ == plan.address@,
            ConnectStage::Handshaking => self == (ConnectAction::Handshake {
                timeout_ms: plan.timeout_ms,
                keepalive: plan.keepalive,
            }),
            ConnectStage::Authenticating => self matches ConnectAction::Authenticate {
                username,
                credential,
            } && username@ == plan.username@ && credential.same_as(plan.credential),
            ConnectStage::ChannelOpening => self matches ConnectAction::OpenShell { terminal_type }
                && terminal_type@ == plan.terminal_type@,
            ConnectStage::Ready => self is HandOver,
            ConnectStage::Failed(_) => self is GiveUp,
        }
    }
}

impl ConnectStage {
    /// Whether the attempt is over, one way or the other.
    pub open spec fn is_final(self) -> bool {
        self is Ready || self is Failed
    }

    /// How far the attempt has come: the stages in their order, the two final
    /// ones last.
    pub open spec fn rank(self) -> nat {
        match self {
            ConnectStage::Connecting => 0,
            ConnectStage::Handshaking => 1,
            ConnectStage::Authenticating => 2,
            ConnectStage::ChannelOpening => 3,
            ConnectStage::Ready => 4,
            ConnectStage::Failed(_) => 4,
        }
    }

    /// The failure that a message means at this stage, given the kind of
    /// credential in use.
    pub open spec fn failure(self, message: String, kind: CredentialKind) -> ConnectError {
        match self {
            ConnectStage::Authenticating => match kind {
                CredentialKind::KeyFile => ConnectError::KeyAuthentication(message),
                CredentialKind::Password => ConnectError::PasswordAuthentication(message),
            },
            ConnectStage::ChannelOpening => ConnectError::Channel(message),
            _ => ConnectError::Transport(message),
        }
    }

    /// The stage that follows this one after an outcome.
    ///
    /// A final stage stays as it is. Otherwise success leads to the next stage
    /// in order, and anything else to `Failed`.
    pub open spec fn next(self, outcome: StageOutcome, kind: CredentialKind) -> ConnectStage {
        if self.is_final() {
            self
        } else {
            match outcome {
                StageOutcome::Succeeded => match self {
                    ConnectStage::Connecting => ConnectStage::Handshaking,
                    ConnectStage::Handshaking => ConnectStage::Authenticating,
                    ConnectStage::Authenticating => ConnectStage::ChannelOpening,
                    _ => ConnectStage::Ready,
                },
                StageOutcome::Unauthenticated => ConnectStage::Failed(
                    ConnectError::NotAuthenticated,
                ),
                StageOutcome::Failed(message) => ConnectStage::Failed(self.failure(message, kind)),
            }
        }
    }

    /// The stage reached from this one after a sequence of outcomes.
    pub open spec fn after(self, outcomes: Seq<StageOutcome>, kind: CredentialKind) -> ConnectStage
        decreases outcomes.len(),
    {
        if outcomes.len() == 0 {
            self
        } else {
            self.next(outcomes[0], kind).after(outcomes.drop_first(), kind)
        }
    }

    /// What the history records when the attempt moves from this stage to
    /// `next`: success once authentication is through, failure when it was
    /// authentication that failed, nothing otherwise.
    pub open spec fn note_on(self, next: ConnectStage) -> Option<HistoryNote> {
        if self is Authenticating && next is ChannelOpening {
            Some(HistoryNote::Success)
        } else if self is Authenticating && next is Failed && next->Failed_0.is_authentication() {
            Some(HistoryNote::AuthFailed)
        } else {
            None
        }
    }
}

impl HistoryNote {
    /// The status text written to the history.
    pub open spec fn status_text(self) -> Seq<char> {
        match self {
            HistoryNote::Connecting => "Connecting..."@,
            HistoryNote::Success => "Success"@,
            HistoryNote::AuthFailed => "Failed (Auth)"@,
        }
    }

    /// The status text written to the history.
    pub fn status(&self) -> (s: String)
        ensures
            s@ == self.status_text(),
    {
        match self {
            HistoryNote::Connecting => String::from_str("Connecting..."),
            HistoryNote::Success => String::from_str("Success"),
            HistoryNote::AuthFailed => String::from_str("Failed (Auth)"),
        }
    }
}

/// Decides the outside work to do at a stage of a planned connection.
pub fn next_action(stage: &ConnectStage, plan: &ConnectionPlan) -> (action: ConnectAction)
    ensures
        action.is_for(*stage, *plan),
{
    match stage {
        ConnectStage::Connecting => ConnectAction::OpenStream { address: plan.address.clone() },
        ConnectStage::Handshaking => ConnectAction::Handshake {
            timeout_ms: plan.timeout_ms,
            keepalive: plan.keepalive,
        },
        ConnectStage::Authenticating => ConnectAction::Authenticate {
            username: plan.username.clone(),
            credential: plan.credential.duplicate(),
        },
        ConnectStage::ChannelOpening => ConnectAction::OpenShell {
            terminal_type: plan.terminal_type.clone(),
        },
        ConnectStage::Ready => ConnectAction::HandOver,
        ConnectStage::Failed(_) => ConnectAction::GiveUp,
    }
}

/// Moves a connection attempt on by one outcome.
///
/// Returns the stage that follows, and what the history records about the
/// step, if anything.
pub fn advance(stage: ConnectStage, outcome: StageOutcome, kind: CredentialKind) -> (r: (
    ConnectStage,
    Option<HistoryNote>,
))
    ensures
        r.0 == stage.next(outcome, kind),
        r.1 == stage.note_on(r.0),
{
    match stage {
        ConnectStage::Ready => (ConnectStage::Ready, None),
        ConnectStage::Failed(e) => (ConnectStage::Failed(e), None),
        ConnectStage::Connecting => match outcome {
            StageOutcome::Succeeded => (ConnectStage::Handshaking, None),
            StageOutcome::Unauthenticated => (
                ConnectStage::Failed(ConnectError::NotAuthenticated),
                None,
            ),
            StageOutcome::Failed(message) => (
                ConnectStage::Failed(ConnectError::Transport(message)),
                None,
            ),
        },
        ConnectStage::Handshaking => match outcome {
            StageOutcome::Succeeded => (ConnectStage::Authenticating, None),
            StageOutcome::Unauthenticated => (
                ConnectStage::Failed(ConnectError::NotAuthenticated),
                None,
            ),
            StageOutcome::Failed(message) => (
                ConnectStage::Failed(ConnectError::Transport(message)),
                None,
            ),
        },
        ConnectStage::Authenticating => match outcome {
            StageOutcome::Succeeded => (ConnectStage::ChannelOpening, Some(HistoryNote::Success)),
            StageOutcome::Unauthenticated => (
                ConnectStage::Failed(ConnectError::NotAuthenticated),
                Some(HistoryNote::AuthFailed),
            ),
            StageOutcome::Failed(message) => {
                let error = match kind {
                    CredentialKind::KeyFile => ConnectError::KeyAuthentication(message),
                    CredentialKind::Password => ConnectError::PasswordAuthentication(message),
                };
                (ConnectStage::Failed(error), Some(HistoryNote::AuthFailed))
            },
        },
        ConnectStage::ChannelOpening => match outcome {
            StageOutcome::Succeeded => (ConnectStage::Ready, None),
            StageOutcome::Unauthenticated => (
                ConnectStage::Failed(ConnectError::NotAuthenticated),
                None,
            ),
            StageOutcome::Failed(message) => (
                ConnectStage::Failed(ConnectError::Channel(message)),
                None,
            ),
        },
    }
}

/// A final stage is never left: once `Ready` or `Failed`, always so.
pub proof fn law_final_stage_stays(
    stage: ConnectStage,
    outcomes: Seq<StageOutcome>,
    kind: CredentialKind,
)
    requires
        stage.is_final(),
    ensures
        stage.after(outcomes, kind) == stage,
    decreases outcomes.len(),
{
    if outcomes.len() > 0 {
        law_final_stage_stays(stage, outcomes.drop_first(), kind);
    }
}

/// No step goes back or repeats a stage: every step from a stage that is not
/// final reaches a stage of higher rank.
pub proof fn law_no_retry(stage: ConnectStage, outcome: StageOutcome, kind: CredentialKind)
    requires
        !stage.is_final(),
    ensures
        stage.next(outcome, kind).rank() > stage.rank(),
{
}

/// A connection is `Ready` exactly when the first four outcomes, those of the
/// TCP connection, the handshake, authentication and the channel, are all
/// successes.
pub proof fn law_ready_iff_four_successes(outcomes: Seq<StageOutcome>, kind: CredentialKind)
    ensures
        ConnectStage::Connecting.after(outcomes, kind) is Ready <==> outcomes.len() >= 4
            && outcomes[0] is Succeeded && outcomes[1] is Succeeded && outcomes[2] is Succeeded
            && outcomes[3] is Succeeded,
{
    reveal_with_fuel(ConnectStage::after, 5);
    let start = ConnectStage::Connecting;
    if outcomes.len() >= 1 {
        let s1 = start.next(outcomes[0], kind);
        let rest1 = outcomes.drop_first();
        if s1.is_final() {
            law_final_stage_stays(s1, rest1, kind);
        } else if rest1.len() >= 1 {
            let s2 = s1.next(rest1[0], kind);
            let rest2 = rest1.drop_first();
            if s2.is_final() {
                law_final_stage_stays(s2, rest2, kind);
            } else if rest2.len() >= 1 {
                let s3 = s2.next(rest2[0], kind);
                let rest3 = rest2.drop_first();
                if s3.is_final() {
                    law_final_stage_stays(s3, rest3, kind);
                } else if rest3.len() >= 1 {
                    let s4 = s3.next(rest3[0], kind);
                    let rest4 = rest3.drop_first();
                    law_final_stage_stays(s4, rest4, kind);
                }
            }
        }
    }
}

} // verus!
