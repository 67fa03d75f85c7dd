//! The registry of sessions, keyed by session id.
//!
//! The store gives each session record exactly one slot: inserting an
//! existing id is rejected, lookups hand out independent snapshots, and
//! replacing one session leaves every other session untouched.

use std::collections::HashMap;

use vstd::prelude::*;

use crate::errors::ServiceError;
use crate::session::DiagnosticSession;

verus! {

broadcast use vstd::std_specs::hash::group_hash_axioms;

/// In-memory registry mapping a session id to its record.
pub struct SessionStore {
    map: HashMap<u128, DiagnosticSession>,
}

impl View for SessionStore {
    type V = Map<u128, DiagnosticSession>;

    closed spec fn view(&self) -> Map<u128, DiagnosticSession> {
        self.map@
    }
}

impl SessionStore {
    /// Every stored record is well-formed and sits under its own id.
    pub open spec fn wf(&self) -> bool {
        forall|k: u128|
            self@.contains_key(k) ==> (#[trigger] self@[k])@.wf() && self@[k]@.id == k
    }

    /// An empty store.
    pub fn new() -> (r: Self)
        ensures
            r@ == Map::<u128, DiagnosticSession>::empty(),
            r.wf(),
    {
        SessionStore { map: HashMap::new() }
    }

    /// Adds a new session; rejected when its id is already present.
    pub fn insert(&mut self, s: DiagnosticSession) -> (r: Result<(), ServiceError>)
        requires
            old(self).wf(),
            s@.wf(),
        ensures
            r is Ok <==> !old(self)@.contains_key(s@.id),
            r is Ok ==> final(self)@ == old(self)@.insert(s@.id, s),
            r is Err ==> final(self)@ == old(self)@ && r == Err::<(), ServiceError>(
                ServiceError::DuplicateSession,
            ),
            final(self).wf(),
    {
        if self.map.contains_key(&s.id) {
            Err(ServiceError::DuplicateSession)
        } else {
            let key = s.id;
            proof {
                assert(s@.id == key);
            }
            self.map.insert(key, s);
            Ok(())
        }
    }

    /// An independent snapshot of the session with the given id.
    pub fn get(&self, session_id: u128) -> (r: Option<DiagnosticSession>)
        ensures
            match r {
                Some(s) => self@.contains_key(session_id) && s@ == self@[session_id]@ && (
                self.wf() ==> s@.wf()),
                None => !self@.contains_key(session_id),
            },
    {
        match self.map.get(&session_id) {
            Some(s) => Some(s.snapshot()),
            None => None,
        }
    }

    /// Replaces the record stored under the session's id; rejected when no
    /// session with that id exists. Every other session is untouched.
    pub fn replace(&mut self, s: DiagnosticSession) -> (r: Result<(), ServiceError>)
        requires
            old(self).wf(),
            s@.wf(),
        ensures
            r is Ok <==> old(self)@.contains_key(s@.id),
            r is Ok ==> final(self)@ == old(self)@.insert(s@.id, s),
            r is Err ==> final(self)@ == old(self)@ && r == Err::<(), ServiceError>(
                ServiceError::SessionNotFound,
            ),
            final(self).wf(),
    {
        if self.map.contains_key(&s.id) {
            let key = s.id;
            proof {
                assert(s@.id == key);
            }
            self.map.insert(key, s);
            Ok(())
        } else {
            Err(ServiceError::SessionNotFound)
        }
    }
}

/// Sessions are isolated: writing one session's slot leaves the record of
/// every other session exactly as it was.
pub proof fn lemma_store_write_isolated(
    m: Map<u128, DiagnosticSession>,
    id: u128,
    s: DiagnosticSession,
    other: u128,
)
    requires
        other != id,
    ensures
        m.insert(id, s).contains_key(other) == m.contains_key(other),
        m.contains_key(other) ==> m.insert(id, s)[other] == m[other],
{
}

} // verus!
