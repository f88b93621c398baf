//! The connection history: a log of connection attempts, oldest first, that
//! keeps the most recent hundred.

use crate::request::ConnectionDetails;
use crate::session_id::{format_uuid, is_random_id, random_uuid, uuid_text};
use vstd::prelude::*;
use vstd::string::StringExecFns;

verus! {

/// How many entries the history keeps.
pub const HISTORY_LIMIT: usize = 100;

/// One connection attempt.
#[derive(Debug, Clone, PartialEq, Eq)]
pub struct ConnectionLog {
    pub id: String,
    pub host: String,
    pub username: String,
    /// Seconds since the Unix epoch.
    pub timestamp: u64,
    pub status: String,
}

/// The last `limit` entries of a sequence, or all of it where it is shorter.
pub open spec fn most_recent<T>(entries: Seq<T>, limit: nat) -> Seq<T> {
    if entries.len() <= limit {
        entries
    } else {
        entries.skip(entries.len() - limit)
    }
}

impl ConnectionLog {
    /// Whether this entry records an attempt on `details` at `timestamp` with
    /// the given status, under the text of a random identifier.
    pub open spec fn records(
        self,
        details: ConnectionDetails,
        timestamp: u64,
        status: Seq<char>,
    ) -> bool {
        &&& exists|n: u128| is_random_id(n) && self.id@ == uuid_text(n)
        &&& self.host@ == details.host@
        &&& self.username@ == details.username@
        &&& self.timestamp == timestamp
        &&& self.status@ == status
    }
}

/// Drops the oldest entries until at most a hundred are left.
pub fn trim_history(history: &mut Vec<ConnectionLog>)
    ensures
        final(history)@ == most_recent(old(history)@, HISTORY_LIMIT as nat),
        final(history)@.len() <= HISTORY_LIMIT,
{
    while history.len() > HISTORY_LIMIT
        invariant
            history@.len() <= old(history)@.len(),
            old(history)@.len() > HISTORY_LIMIT ==> history@.len() >= HISTORY_LIMIT,
            old(history)@.len() <= HISTORY_LIMIT ==> history@.len() == old(history)@.len(),
            history@ == old(history)@.skip(old(history)@.len() - history@.len()),
        decreases history@.len(),
    {
        let _ = history.remove(0);
    }
}

/// Appends one attempt to the history, under a new random identifier, and
/// trims the history to its limit.
pub fn log_connection_attempt(
    history: &mut Vec<ConnectionLog>,
    details: &ConnectionDetails,
    timestamp: u64,
    status: &str,
)
    ensures
        exists|entry: ConnectionLog| #[trigger]
            entry.records(*details, timestamp, status@) && final(history)@ == most_recent(
                old(history)@.push(entry),
                HISTORY_LIMIT as nat,
            ),
        final(history)@.len() <= HISTORY_LIMIT,
{
    let n: u128 = random_uuid();
    let entry = ConnectionLog {
        id: format_uuid(n),
        host: details.host.clone(),
        username: details.username.clone(),
        timestamp,
        status: String::from_str(status),
    };
    assert(entry.records(*details, timestamp, status@));
    history.push(entry);
    trim_history(history);
}

/// The history as it is shown: newest entry first.
pub fn newest_first(history: Vec<ConnectionLog>) -> (shown: Vec<ConnectionLog>)
    ensures
        shown@ == history@.reverse(),
{
    let mut rest = history;
    let mut shown: Vec<ConnectionLog> = Vec::new();
    while rest.len() > 0
        invariant
            rest@.len() <= history@.len(),
            rest@ == history@.take(rest@.len() as int),
            shown@.len() + rest@.len() == history@.len(),
            forall|k: int|
                0 <= k < shown@.len() ==> shown@[k] == #[trigger] history@[history@.len() - 1 - k],
        decreases rest@.len(),
    {
        let entry = rest.pop().unwrap();
        shown.push(entry);
    }
    shown
}

} // verus!
