use vstd::prelude::*;

use crate::session::SessionState;

verus! {

/// The durable form of a session: the active issue's key and the instant its
/// timer started (seconds since the Unix epoch). Both are set or neither is.
#[derive(Debug, PartialEq, Eq)]
pub struct PersistedState {
    pub active_issue: Option<String>,
    pub activated_on: Option<i64>,
}

/// Why a stored record could not be restored.
#[derive(Debug, PartialEq, Eq)]
pub enum StateError {
    /// The record does not describe a session: one of its two fields is set
    /// without the other, or it could not be read at all.
    CorruptState,
}

/// The record that stores `s`.
pub open spec fn record_of(s: SessionState) -> PersistedState {
    match s {
        SessionState::Idle => PersistedState { active_issue: None, activated_on: None },
        SessionState::Active { key, since } => PersistedState {
            active_issue: Some(key),
            activated_on: Some(since),
        },
    }
}

/// Whether the record's two fields are set together or absent together.
pub open spec fn is_consistent(r: PersistedState) -> bool {
    r.active_issue is Some == r.activated_on is Some
}

/// The session that a record stores, or the corruption it shows.
pub open spec fn state_of(r: PersistedState) -> Result<SessionState, StateError> {
    if r.active_issue is Some && r.activated_on is Some {
        Ok(SessionState::Active { key: r.active_issue->0, since: r.activated_on->0 })
    } else if r.active_issue is None && r.activated_on is None {
        Ok(SessionState::Idle)
    } else {
        Err(StateError::CorruptState)
    }
}

/// The record to write for `state`.
pub fn save(state: &SessionState) -> (r: PersistedState)
    ensures
        r == record_of(*state),
        is_consistent(r),
{
    match state {
        SessionState::Idle => PersistedState { active_issue: None, activated_on: None },
        SessionState::Active { key, since } => PersistedState {
            active_issue: Some(key.clone()),
            activated_on: Some(*since),
        },
    }
}

/// Restores a session from what storage held: nothing when no record was
/// stored yet, the session when the record is consistent, and
/// `CorruptState` otherwise.
pub fn load(stored: Option<PersistedState>) -> (r: Result<Option<SessionState>, StateError>)
    ensures
        stored is None ==> r == Ok::<Option<SessionState>, StateError>(None),
        stored is Some ==> (r is Err <==> !is_consistent(stored->0)),
        stored is Some && !is_consistent(stored->0) ==> r == Err::<Option<SessionState>, StateError>(
            StateError::CorruptState,
        ),
        stored is Some && is_consistent(stored->0) ==> r == Ok::<Option<SessionState>, StateError>(
            Some(state_of(stored->0)->Ok_0),
        ),
{
    match stored {
        None => Ok(None),
        Some(record) => match (record.active_issue, record.activated_on) {
            (Some(key), Some(since)) => Ok(Some(SessionState::Active { key, since })),
            (None, None) => Ok(Some(SessionState::Idle)),
            _ => Err(StateError::CorruptState),
        },
    }
}

/// Saving a session and loading the record back gives the same session, for
/// an idle session and an active one alike.
pub proof fn lemma_save_load_round_trip(s: SessionState)
    ensures
        is_consistent(record_of(s)),
        state_of(record_of(s)) == Ok::<SessionState, StateError>(s),
{
}

/// A record with one field set and the other absent never loads.
pub proof fn lemma_half_record_is_corrupt(r: PersistedState)
    requires
        r.active_issue is Some != r.activated_on is Some,
    ensures
        state_of(r) == Err::<SessionState, StateError>(StateError::CorruptState),
{
}

} // verus!
