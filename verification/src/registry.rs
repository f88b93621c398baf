//! The session registry: which sessions are open, and what each operation on
//! a session identifier amounts to.

use crate::session_id::{format_uuid, is_random_id, parse_uuid, random_uuid, uuid_parse};
use crate::transfer::TransferError;
use dashmap::DashMap;
use std::collections::hash_map::RandomState;
use vstd::prelude::*;
use vstd::string::StringExecFns;

verus! {

/// `dashmap::DashMap`, which Verus takes as an opaque value: what it holds is
/// told by `registry_contents` alone.
#[verifier::external_type_specification]
#[verifier::external_body]
#[verifier::reject_recursive_types(K)]
#[verifier::reject_recursive_types(V)]
#[verifier::reject_recursive_types(S)]
pub struct ExDashMap<K, V, S>(DashMap<K, V, S>);

/// What the registry knows about an open session.
#[derive(Debug, Clone, Copy, PartialEq, Eq, Structural)]
pub struct SessionRecord {
    /// Whether the SFTP subsystem of the session has been created.
    pub sftp_ready: bool,
}

/// The entries that a `dashmap::DashMap` of session records holds: its keys
/// with the value stored under each.
pub uninterp spec fn registry_contents(map: DashMap<u128, SessionRecord, RandomState>) -> Map<
    u128,
    SessionRecord,
>;

/// The contents of a registry in which no session is open.
pub open spec fn no_sessions() -> Map<u128, SessionRecord> {
    Map::empty()
}

/// The record under a key, if there is one.
pub open spec fn lookup(contents: Map<u128, SessionRecord>, id: u128) -> Option<SessionRecord> {
    if contents.contains_key(id) {
        Some(contents[id])
    } else {
        None
    }
}

/// Calls `DashMap::new`: a map without entries.
#[verifier::external_body]
fn map_new() -> (created: DashMap<u128, SessionRecord, RandomState>)
    ensures
        registry_contents(created) == no_sessions(),
{
    DashMap::new()
}

/// Calls `DashMap::insert`: the entry is added or replaced, and the value
/// that stood under the key before is handed back. The map is borrowed
/// exclusively, so no other reference into it is alive during the call.
#[verifier::external_body]
fn map_insert(
    map: &mut DashMap<u128, SessionRecord, RandomState>,
    id: u128,
    record: SessionRecord,
) -> (previous: Option<SessionRecord>)
    ensures
        registry_contents(*final(map)) == registry_contents(*old(map)).insert(id, record),
        previous == lookup(registry_contents(*old(map)), id),
{
    map.insert(id, record)
}

/// Calls `DashMap::remove`: the entry under the key leaves the map and its
/// value is handed back; without such an entry nothing changes.
#[verifier::external_body]
fn map_remove(map: &mut DashMap<u128, SessionRecord, RandomState>, id: u128) -> (removed:
    Option<SessionRecord>)
    ensures
        registry_contents(*final(map)) == registry_contents(*old(map)).remove(id),
        removed == lookup(registry_contents(*old(map)), id),
{
    match map.remove(&id) {
        Some((_, record)) => Some(record),
        None => None,
    }
}

/// Calls `DashMap::get` and copies the value out of the guard it returns.
#[verifier::external_body]
fn map_get(map: &DashMap<u128, SessionRecord, RandomState>, id: u128) -> (found: Option<
    SessionRecord,
>)
    ensures
        found == lookup(registry_contents(*map), id),
{
    match map.get(&id) {
        Some(entry) => Some(*entry.value()),
        None => None,
    }
}

/// Why an operation on a session identifier was turned down.
#[derive(Debug, Clone, PartialEq, Eq)]
pub enum SessionError {
    /// The identifier is not in UUID notation; holds the parser's message.
    Malformed(String),
    /// No session is open under the identifier; holds the identifier as given.
    NotFound(String),
}

impl SessionError {
    /// The message of a terminal operation.
    pub open spec fn message_text(self) -> Seq<char> {
        match self {
            SessionError::Malformed(m) => m@,
            SessionError::NotFound(id) => "Session not found: "@ + id@,
        }
    }

    /// The message of a file system operation.
    pub open spec fn brief_text(self) -> Seq<char> {
        match self {
            SessionError::Malformed(m) => m@,
            SessionError::NotFound(_) => "Session not found"@,
        }
    }

    /// The error of a transfer that this error amounts to.
    pub open spec fn transfer_error(self) -> TransferError {
        match self {
            SessionError::Malformed(_) => TransferError::InvalidSessionId,
            SessionError::NotFound(_) => TransferError::SessionMissing,
        }
    }

    /// The message of a terminal operation.
    pub fn message(&self) -> (s: String)
        ensures
            s@ == self.message_text(),
    {
        match self {
            SessionError::Malformed(m) => m.clone(),
            SessionError::NotFound(id) => String::from_str("Session not found: ").concat(
                id.as_str(),
            ),
        }
    }

    /// The message of a file system operation.
    pub fn brief_message(&self) -> (s: String)
        ensures
            s@ == self.brief_text(),
    {
        match self {
            SessionError::Malformed(m) => m.clone(),
            SessionError::NotFound(_) => String::from_str("Session not found"),
        }
    }

    /// The error of a transfer that this error amounts to.
    pub fn into_transfer_error(self) -> (e: TransferError)
        ensures
            e == self.transfer_error(),
    {
        match self {
            SessionError::Malformed(_) => TransferError::InvalidSessionId,
            SessionError::NotFound(_) => TransferError::SessionMissing,
        }
    }
}

/// What a resize request amounts to.
#[derive(Debug, Clone, Copy, PartialEq, Eq, Structural)]
pub struct ResizePlan {
    /// The session whose pseudo-terminal is resized, if it is open.
    pub session: Option<u128>,
    /// Height that is requested and reported back.
    pub rows: u32,
    /// Width that is requested and reported back.
    pub cols: u32,
}

impl ResizePlan {
    /// What the caller of a resize is answered, given the message of the
    /// refusal if the request for the new size was refused: the refusal for
    /// an open session, the requested size otherwise. For a session that is
    /// not open no request is made and none can be refused.
    pub open spec fn reply_to(self, refusal: Option<String>) -> Result<(u32, u32), String> {
        match (self.session, refusal) {
            (Some(_), Some(message)) => Err(message),
            _ => Ok((self.rows, self.cols)),
        }
    }

    /// Decides what the caller of a resize is answered.
    pub fn reply(self, refusal: Option<String>) -> (r: Result<(u32, u32), String>)
        ensures
            r == self.reply_to(refusal),
    {
        match (self.session, refusal) {
            (Some(_), Some(message)) => Err(message),
            _ => Ok((self.rows, self.cols)),
        }
    }
}

/// What a file system operation has to do first.
#[derive(Debug, Clone, Copy, PartialEq, Eq, Structural)]
pub struct SftpPlan {
    /// The session that the operation runs on.
    pub session: u128,
    /// Whether the SFTP subsystem has to be created before the operation.
    pub create_subsystem: bool,
}

/// The set of open sessions, by identifier.
pub struct SessionRegistry {
    sessions: DashMap<u128, SessionRecord, RandomState>,
}

impl View for SessionRegistry {
    type V = Map<u128, SessionRecord>;

    closed spec fn view(&self) -> Map<u128, SessionRecord> {
        registry_contents(self.sessions)
    }
}

/// The session that an identifier text stands for in a registry: the
/// identifier it parses to, if a session is open under it.
pub open spec fn located(contents: Map<u128, SessionRecord>, text: Seq<char>) -> Option<u128> {
    match uuid_parse(text) {
        Some(id) => if contents.contains_key(id) {
            Some(id)
        } else {
            None
        },
        None => None,
    }
}

impl SessionRegistry {
    /// A registry without sessions.
    pub fn new() -> (registry: SessionRegistry)
        ensures
            registry@ == no_sessions(),
    {
        SessionRegistry { sessions: map_new() }
    }

    /// Enters a session under an identifier, in place of any that was there.
    pub fn insert(&mut self, id: u128, record: SessionRecord)
        ensures
            final(self)@ == old(self)@.insert(id, record),
    {
        let _ = map_insert(&mut self.sessions, id, record);
    }

    /// The record of a session, if it is open.
    pub fn get(&self, id: u128) -> (found: Option<SessionRecord>)
        ensures
            found == lookup(self@, id),
    {
        map_get(&self.sessions, id)
    }

    /// Takes a session out of the registry and hands back its record; without
    /// such a session nothing changes.
    pub fn remove(&mut self, id: u128) -> (removed: Option<SessionRecord>)
        ensures
            final(self)@ == old(self)@.remove(id),
            removed == lookup(old(self)@, id),
            removed is None ==> final(self)@ == old(self)@,
    {
        map_remove(&mut self.sessions, id)
    }

    /// Registers a newly connected session under a new random identifier and
    /// returns the identifier's text. The session's SFTP subsystem does not
    /// exist yet.
    pub fn open_session(&mut self) -> (r: (u128, String))
        ensures
            is_random_id(r.0),
            final(self)@ == old(self)@.insert(r.0, SessionRecord { sftp_ready: false }),
            located(final(self)@, r.1@) == Some(r.0),
    {
        let id: u128 = random_uuid();
        self.insert(id, SessionRecord { sftp_ready: false });
        (id, format_uuid(id))
    }

    /// Finds the open session that an identifier text stands for.
    ///
    /// Fails with `Malformed` exactly when the text is no identifier, and with
    /// `NotFound`, holding the text, exactly when it is one and no session is
    /// open under it.
    pub fn locate(&self, session_id: &str) -> (r: Result<u128, SessionError>)
        ensures
            match r {
                Ok(id) => located(self@, session_id@) == Some(id),
                Err(SessionError::Malformed(_)) => uuid_parse(session_id@) is None,
                Err(SessionError::NotFound(text)) => uuid_parse(session_id@) is Some && located(
                    self@,
                    session_id@,
                ) is None && text@ == session_id@,
            },
    {
        match parse_uuid(session_id) {
            Err(message) => Err(SessionError::Malformed(message)),
            Ok(id) => match self.get(id) {
                Some(_) => Ok(id),
                None => Err(SessionError::NotFound(String::from_str(session_id))),
            },
        }
    }

    /// Decides a resize request.
    ///
    /// A malformed identifier is an error. Otherwise the plan reports the
    /// requested size back unchanged, and names the session to resize only if
    /// it is open: resizing an unknown session does nothing.
    pub fn plan_resize(&self, session_id: &str, rows: u32, cols: u32) -> (r: Result<
        ResizePlan,
        SessionError,
    >)
        ensures
            match r {
                Ok(plan) => uuid_parse(session_id@) is Some && plan == (ResizePlan {
                    session: located(self@, session_id@),
                    rows,
                    cols,
                }),
                Err(e) => uuid_parse(session_id@) is None && e is Malformed,
            },
    {
        match parse_uuid(session_id) {
            Err(message) => Err(SessionError::Malformed(message)),
            Ok(id) => {
                let session = match self.get(id) {
                    Some(_) => Some(id),
                    None => None,
                };
                Ok(ResizePlan { session, rows, cols })
            },
        }
    }

    /// Closes a session: takes it out of the registry, so that no further
    /// operation finds it, and returns its identifier for the teardown of its
    /// channel.
    ///
    /// A malformed identifier is an error and changes nothing. Closing an
    /// identifier under which no session is open succeeds, returns `None` and
    /// changes nothing.
    pub fn close(&mut self, session_id: &str) -> (r: Result<Option<u128>, SessionError>)
        ensures
            match r {
                Ok(closed) => {
                    &&& uuid_parse(session_id@) matches Some(id)
                    &&& closed == located(old(self)@, session_id@)
                    &&& final(self)@ == old(self)@.remove(id)
                },
                Err(e) => uuid_parse(session_id@) is None && e is Malformed && final(self)@ == old(
                    self,
                )@,
            },
            r matches Ok(None) ==> final(self)@ == old(self)@,
    {
        match parse_uuid(session_id) {
            Err(message) => Err(SessionError::Malformed(message)),
            Ok(id) => match self.remove(id) {
                Some(_) => Ok(Some(id)),
                None => Ok(None),
            },
        }
    }

    /// Decides what a file system operation or a transfer has to do first:
    /// create the SFTP subsystem of the session, or nothing, where it exists.
    pub fn plan_sftp(&self, session_id: &str) -> (r: Result<SftpPlan, SessionError>)
        ensures
            match r {
                Ok(plan) => located(self@, session_id@) == Some(plan.session)
                    && plan.create_subsystem == needs_subsystem(self@, plan.session),
                Err(SessionError::Malformed(_)) => uuid_parse(session_id@) is None,
                Err(SessionError::NotFound(text)) => uuid_parse(session_id@) is Some && located(
                    self@,
                    session_id@,
                ) is None && text@ == session_id@,
            },
    {
        match parse_uuid(session_id) {
            Err(message) => Err(SessionError::Malformed(message)),
            Ok(id) => match self.get(id) {
                Some(record) => Ok(SftpPlan { session: id, create_subsystem: !record.sftp_ready }),
                None => Err(SessionError::NotFound(String::from_str(session_id))),
            },
        }
    }

    /// Records that the SFTP subsystem of a session has been created. Returns
    /// whether the session is open; for one that is not, nothing changes.
    pub fn sftp_created(&mut self, id: u128) -> (known: bool)
        ensures
            known == old(self)@.contains_key(id),
            final(self)@ == with_subsystem(old(self)@, id),
    {
        match self.get(id) {
            Some(_) => {
                self.insert(id, SessionRecord { sftp_ready: true });
                true
            },
            None => false,
        }
    }
}

/// What the registry holds once the SFTP subsystem of a session exists.
pub open spec fn with_subsystem(contents: Map<u128, SessionRecord>, id: u128) -> Map<
    u128,
    SessionRecord,
> {
    if contents.contains_key(id) {
        contents.insert(id, SessionRecord { sftp_ready: true })
    } else {
        contents
    }
}

/// Whether an operation on an open session has to create its SFTP subsystem.
pub open spec fn needs_subsystem(contents: Map<u128, SessionRecord>, id: u128) -> bool {
    contents.contains_key(id) && !contents[id].sftp_ready
}

/// A session that was opened is found under the text of its identifier, by
/// every operation, until it is closed.
pub proof fn law_opened_session_is_found(
    contents: Map<u128, SessionRecord>,
    id: u128,
    text: Seq<char>,
    record: SessionRecord,
)
    requires
        uuid_parse(text) == Some(id),
    ensures
        located(contents.insert(id, record), text) == Some(id),
        located(contents.insert(id, record).remove(id), text) is None,
{
}

/// Closing an identifier under which no session is open leaves the registry
/// as it was.
pub proof fn law_close_unknown_changes_nothing(contents: Map<u128, SessionRecord>, id: u128)
    requires
        !contents.contains_key(id),
    ensures
        contents.remove(id) == contents,
{
}

/// The SFTP subsystem of a session is created at most once: after it has been
/// created, no operation asks for it again, however often it is asked.
pub proof fn law_subsystem_created_once(contents: Map<u128, SessionRecord>, id: u128)
    ensures
        !needs_subsystem(with_subsystem(contents, id), id),
        with_subsystem(with_subsystem(contents, id), id) == with_subsystem(contents, id),
{
}

} // verus!
