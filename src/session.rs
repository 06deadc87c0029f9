use vstd::prelude::*;

verus! {

/// The shortest interval, in seconds, that is worth a worklog entry.
pub const MIN_WORKLOG_SECONDS: i64 = 60;

/// A worklog entry to submit: time spent on `issue_key` from `started_at`
/// to `ended_at`, both in seconds since the Unix epoch.
#[derive(Debug, PartialEq, Eq)]
pub struct WorklogEntry {
    pub issue_key: String,
    pub started_at: i64,
    pub ended_at: i64,
}

impl WorklogEntry {
    /// The logged duration in whole seconds.
    pub fn seconds(&self) -> (r: i128)
        ensures
            r == self.ended_at - self.started_at,
    {
        self.ended_at as i128 - self.started_at as i128
    }
}

/// The activation state: no timer, or a timer on one issue since an instant
/// (seconds since the Unix epoch).
#[derive(Debug, PartialEq, Eq)]
pub enum SessionState {
    Idle,
    Active { key: String, since: i64 },
}

/// Whether an interval from `since` to `now` is long enough to be logged.
pub open spec fn worklog_due(since: i64, now: i64) -> bool {
    now - since >= MIN_WORKLOG_SECONDS
}

/// The worklog entry that ending the timer of `s` at `now` submits.
pub open spec fn pending_worklog(s: SessionState, now: i64) -> Option<WorklogEntry> {
    match s {
        SessionState::Idle => None,
        SessionState::Active { key, since } => if worklog_due(since, now) {
            Some(WorklogEntry { issue_key: key, started_at: since, ended_at: now })
        } else {
            None
        },
    }
}

/// The new state and the submitted entry of `deactivate` at `now`.
pub open spec fn deactivate_result(s: SessionState, now: i64) -> (SessionState, Option<WorklogEntry>) {
    (SessionState::Idle, pending_worklog(s, now))
}

/// The new state and the submitted entry of `activate(key)` at `now`: the
/// previous timer is ended first.
pub open spec fn activate_result(s: SessionState, key: String, now: i64) -> (SessionState, Option<WorklogEntry>) {
    (SessionState::Active { key, since: now }, pending_worklog(s, now))
}

impl SessionState {
    /// A session with no active timer.
    pub fn new() -> (r: SessionState)
        ensures
            r == SessionState::Idle,
    {
        SessionState::Idle
    }

    /// Starts the timer on `key` at `now`, ending and returning the worklog
    /// of any timer that was running.
    pub fn activate(&mut self, key: String, now: i64) -> (r: Option<WorklogEntry>)
        ensures
            (*final(self), r) == activate_result(*old(self), key, now),
    {
        let flushed = self.deactivate(now);
        *self = SessionState::Active { key, since: now };
        flushed
    }

    /// Ends the timer. Returns the worklog entry to submit when the timer ran
    /// for at least a minute; shorter intervals are dropped.
    pub fn deactivate(&mut self, now: i64) -> (r: Option<WorklogEntry>)
        ensures
            (*final(self), r) == deactivate_result(*old(self), now),
    {
        let r = match &*self {
            SessionState::Idle => None,
            SessionState::Active { key, since } => {
                if now as i128 - *since as i128 >= MIN_WORKLOG_SECONDS as i128 {
                    Some(WorklogEntry { issue_key: key.clone(), started_at: *since, ended_at: now })
                } else {
                    None
                }
            },
        };
        *self = SessionState::Idle;
        r
    }

    /// Ends the timer without logging anything.
    pub fn discard(&mut self)
        ensures
            *final(self) == SessionState::Idle,
    {
        *self = SessionState::Idle;
    }

    /// Seconds since activation, when a timer runs.
    pub fn elapsed_now(&self, now: i64) -> (r: Option<i128>)
        ensures
            r == (match *self {
                SessionState::Idle => None,
                SessionState::Active { key, since } => Some((now - since) as i128),
            }),
    {
        match self {
            SessionState::Idle => None,
            SessionState::Active { since, .. } => Some(now as i128 - *since as i128),
        }
    }

    /// The key of the issue being timed.
    pub fn active_key(&self) -> (r: Option<&String>)
        ensures
            r == (match *self {
                SessionState::Idle => None,
                SessionState::Active { key, since } => Some(&key),
            }),
    {
        match self {
            SessionState::Idle => None,
            SessionState::Active { key, .. } => Some(key),
        }
    }
}

/// Activating and then deactivating submits a worklog exactly when the
/// interval is a minute or more: 59 seconds submit nothing, 60 seconds do.
pub proof fn lemma_short_interval_not_logged(s: SessionState, key: String, t: i64, now: i64)
    ensures
        ({
            let activated = activate_result(s, key, t).0;
            let logged = deactivate_result(activated, now).1;
            &&& logged is None <==> now - t < 60
            &&& logged is Some ==> logged == Some(WorklogEntry { issue_key: key, started_at: t, ended_at: now })
        }),
{
}

/// Activating another issue while one is active behaves as deactivating and
/// then activating: the same single worklog for the previous issue, and the
/// same final state.
pub proof fn lemma_switch_flushes_previous(s: SessionState, key: String, now: i64)
    ensures
        ({
            let (idle, flushed) = deactivate_result(s, now);
            let (after, none) = activate_result(idle, key, now);
            &&& activate_result(s, key, now) == (after, flushed)
            &&& none is None
        }),
        s is Active && worklog_due(s->since, now) ==> activate_result(s, key, now).1 == Some(
            WorklogEntry { issue_key: s->key, started_at: s->since, ended_at: now },
        ),
{
}

} // verus!
