use vstd::prelude::*;

use crate::jira::{Issue, Jira};
use crate::search::{is_ranked_view, rank};
use crate::session::{activate_result, deactivate_result, SessionState, WorklogEntry};
use crate::store::{is_consistent, load, record_of, save, state_of, PersistedState, StateError};

verus! {

/// A discrete input from the user.
#[derive(Debug, PartialEq, Eq)]
pub enum Command {
    MoveDown,
    MoveUp,
    AppendChar(char),
    Backspace,
    ActivateSelected,
    SubmitWorklog,
    DiscardActive,
    CopyActiveSummary,
    Quit,
}

/// What a command asks of the world outside the controller: a worklog entry
/// to submit, a text for the clipboard, and whether the session must be
/// stored again.
#[derive(Debug, PartialEq, Eq)]
pub struct Outcome {
    pub worklog: Option<WorklogEntry>,
    pub clipboard: Option<String>,
    pub persist: bool,
}

/// Relies on `String::push`: appends one character.
#[verifier::external_body]
fn push_char(s: &mut String, c: char)
    ensures
        final(s)@ == old(s)@.push(c),
{
    s.push(c)
}

/// Relies on `String::pop`: removes and returns the last character, if any.
#[verifier::external_body]
fn pop_char(s: &mut String) -> (r: Option<char>)
    ensures
        old(s)@.len() == 0 ==> r is None && final(s)@ == old(s)@,
        old(s)@.len() > 0 ==> r == Some(old(s)@.last()) && final(s)@ == old(s)@.drop_last(),
{
    s.pop()
}

/// The first issue of `issues` whose key is `key`.
pub open spec fn find_key(issues: Seq<Issue>, key: Seq<char>) -> Option<Issue>
    decreases issues.len(),
{
    if issues.len() == 0 {
        None
    } else if issues[0].key@ == key {
        Some(issues[0])
    } else {
        find_key(issues.drop_first(), key)
    }
}

/// The text that names an issue in a merge request title.
pub open spec fn summary_line(key: Seq<char>, summary: Seq<char>) -> Seq<char> {
    "["@ + key + "] "@ + summary
}

/// The key of the issue on the highlighted row, if a row is highlighted.
pub open spec fn selected_key(filtered: Seq<Issue>, selected: Option<usize>) -> Option<String> {
    if selected is Some && selected->0 < filtered.len() {
        Some(filtered[selected->0 as int].key)
    } else {
        None
    }
}

/// The interactive session: the fetched issues, the search query and the
/// ranked view it selects, the highlighted row, and the activation state.
#[derive(Debug)]
pub struct App {
    pub jira: Jira,
    pub issues: Vec<Issue>,
    pub search_input: String,
    pub filtered_issues: Vec<Issue>,
    pub selected: Option<usize>,
    pub session: SessionState,
    pub exit: bool,
}

impl App {
    /// A session on `jira` with no issues, an empty query, the first row
    /// highlighted and no timer.
    pub fn new(jira: Jira) -> (r: App)
        ensures
            r.jira == jira,
            r.issues@.len() == 0,
            r.search_input@.len() == 0,
            r.filtered_issues@.len() == 0,
            r.selected == Some(0usize),
            r.session == SessionState::Idle,
            !r.exit,
    {
        App {
            jira,
            issues: Vec::new(),
            search_input: String::new(),
            filtered_issues: Vec::new(),
            selected: Some(0),
            session: SessionState::Idle,
            exit: false,
        }
    }

    /// Replaces the issue list wholesale and recomputes the view.
    pub fn set_issues(&mut self, issues: Vec<Issue>)
        ensures
            final(self).issues == issues,
            final(self).jira == old(self).jira,
            final(self).search_input == old(self).search_input,
            final(self).session == old(self).session,
            final(self).exit == old(self).exit,
            is_ranked_view(issues@, old(self).search_input@, final(self).filtered_issues@),
            final(self).selected == clamp_selection(old(self).selected, final(self).filtered_issues@.len()),
    {
        self.issues = issues;
        self.refresh_view();
    }

    /// Recomputes the ranked view from the issues and the query, and keeps
    /// the highlighted row inside it.
    pub fn refresh_view(&mut self)
        ensures
            final(self).issues == old(self).issues,
            final(self).jira == old(self).jira,
            final(self).search_input == old(self).search_input,
            final(self).session == old(self).session,
            final(self).exit == old(self).exit,
            is_ranked_view(old(self).issues@, old(self).search_input@, final(self).filtered_issues@),
            final(self).selected == clamp_selection(old(self).selected, final(self).filtered_issues@.len()),
    {
        self.filtered_issues = self.search_issues();
        let len = self.filtered_issues.len();
        self.selected = if len == 0 {
            None
        } else {
            match self.selected {
                Some(i) => if i < len { Some(i) } else { Some(len - 1) },
                None => Some(0),
            }
        };
    }

    /// The issues ranked by the current query.
    pub fn search_issues(&self) -> (r: Vec<Issue>)
        ensures
            is_ranked_view(self.issues@, self.search_input@, r@),
    {
        rank(&self.issues, self.search_input.as_str())
    }

    /// Moves the highlight one row down, staying on the last row.
    pub fn select_next(&mut self)
        ensures
            final(self).selected == next_selection(old(self).selected, old(self).filtered_issues@.len()),
            final(self).filtered_issues == old(self).filtered_issues,
            final(self).issues == old(self).issues,
            final(self).jira == old(self).jira,
            final(self).search_input == old(self).search_input,
            final(self).session == old(self).session,
            final(self).exit == old(self).exit,
    {
        let len = self.filtered_issues.len();
        self.selected = match self.selected {
            Some(i) => if i < len && i + 1 < len { Some(i + 1) } else if len == 0 { None } else { Some(len - 1) },
            None => if len == 0 { None } else { Some(0) },
        };
    }

    /// Moves the highlight one row up, staying on the first row.
    pub fn select_previous(&mut self)
        ensures
            final(self).selected == previous_selection(old(self).selected, old(self).filtered_issues@.len()),
            final(self).filtered_issues == old(self).filtered_issues,
            final(self).issues == old(self).issues,
            final(self).jira == old(self).jira,
            final(self).search_input == old(self).search_input,
            final(self).session == old(self).session,
            final(self).exit == old(self).exit,
    {
        let len = self.filtered_issues.len();
        self.selected = match self.selected {
            Some(i) => if len == 0 { None } else if i >= len { Some(len - 1) } else if i > 0 { Some(i - 1) } else { Some(0) },
            None => if len == 0 { None } else { Some(0) },
        };
    }

    /// Appends a character to the query and recomputes the view.
    pub fn add_char(&mut self, new_char: char)
        ensures
            final(self).search_input@ == old(self).search_input@.push(new_char),
            final(self).issues == old(self).issues,
            final(self).jira == old(self).jira,
            final(self).session == old(self).session,
            final(self).exit == old(self).exit,
            is_ranked_view(old(self).issues@, final(self).search_input@, final(self).filtered_issues@),
            final(self).selected == clamp_selection(old(self).selected, final(self).filtered_issues@.len()),
    {
        push_char(&mut self.search_input, new_char);
        self.refresh_view();
    }

    /// Removes the query's last character, if any, and recomputes the view.
    pub fn delete_char(&mut self)
        ensures
            final(self).search_input@ == (if old(self).search_input@.len() == 0 {
                old(self).search_input@
            } else {
                old(self).search_input@.drop_last()
            }),
            final(self).issues == old(self).issues,
            final(self).jira == old(self).jira,
            final(self).session == old(self).session,
            final(self).exit == old(self).exit,
            is_ranked_view(old(self).issues@, final(self).search_input@, final(self).filtered_issues@),
            final(self).selected == clamp_selection(old(self).selected, final(self).filtered_issues@.len()),
    {
        let _ = pop_char(&mut self.search_input);
        self.refresh_view();
    }

    /// Ends any running timer and starts one on the highlighted issue at
    /// `now`; with no highlighted issue nothing changes. Returns the worklog
    /// entry of the timer that was ended.
    pub fn activate_issue(&mut self, now: i64) -> (r: Option<WorklogEntry>)
        ensures
            selected_key(old(self).filtered_issues@, old(self).selected) is Some ==> (final(self).session, r)
                == activate_result(old(self).session, selected_key(old(self).filtered_issues@, old(self).selected)->0, now),
            selected_key(old(self).filtered_issues@, old(self).selected) is None ==> final(self).session == old(self).session
                && r is None,
            final(self).issues == old(self).issues,
            final(self).jira == old(self).jira,
            final(self).filtered_issues == old(self).filtered_issues,
            final(self).selected == old(self).selected,
            final(self).search_input == old(self).search_input,
            final(self).exit == old(self).exit,
    {
        match self.selected {
            Some(i) => {
                if i < self.filtered_issues.len() {
                    let key = self.filtered_issues[i].key.clone();
                    self.session.activate(key, now)
                } else {
                    None
                }
            },
            None => None,
        }
    }

    /// Ends the running timer at `now`; returns the worklog entry to submit.
    pub fn deactivate_issue(&mut self, now: i64) -> (r: Option<WorklogEntry>)
        ensures
            (final(self).session, r) == deactivate_result(old(self).session, now),
            final(self).issues == old(self).issues,
            final(self).jira == old(self).jira,
            final(self).filtered_issues == old(self).filtered_issues,
            final(self).selected == old(self).selected,
            final(self).search_input == old(self).search_input,
            final(self).exit == old(self).exit,
    {
        self.session.deactivate(now)
    }

    /// Drops the running timer without logging it.
    pub fn clear_state(&mut self)
        ensures
            final(self).session == SessionState::Idle,
            final(self).issues == old(self).issues,
            final(self).jira == old(self).jira,
            final(self).filtered_issues == old(self).filtered_issues,
            final(self).selected == old(self).selected,
            final(self).search_input == old(self).search_input,
            final(self).exit == old(self).exit,
    {
        self.session.discard();
    }

    /// Marks the session for shutdown; a running timer keeps running.
    pub fn exit(&mut self)
        ensures
            final(self).exit,
            final(self).session == old(self).session,
            final(self).issues == old(self).issues,
            final(self).jira == old(self).jira,
            final(self).filtered_issues == old(self).filtered_issues,
            final(self).selected == old(self).selected,
            final(self).search_input == old(self).search_input,
    {
        self.exit = true;
    }

    /// The fetched issue that the timer runs on.
    pub fn get_active_issue(&self) -> (r: Option<Issue>)
        ensures
            r == (match self.session {
                SessionState::Idle => None,
                SessionState::Active { key, since } => find_key(self.issues@, key@),
            }),
    {
        match self.session.active_key() {
            None => None,
            Some(key) => {
                let mut i: usize = 0;
                assert(self.issues@.subrange(0, self.issues@.len() as int) == self.issues@);
                while i < self.issues.len()
                    invariant
                        i <= self.issues@.len(),
                        self.session is Active,
                        key@ == self.session->key@,
                        find_key(self.issues@, key@) == find_key(self.issues@.subrange(i as int, self.issues@.len() as int), key@),
                    decreases self.issues@.len() - i,
                {
                    let ghost rest = self.issues@.subrange(i as int, self.issues@.len() as int);
                    assert(rest.drop_first() == self.issues@.subrange(i + 1, self.issues@.len() as int));
                    if self.issues[i].key == *key {
                        return Some(self.issues[i].duplicate());
                    }
                    i = i + 1;
                }
                None
            },
        }
    }

    /// "[KEY] summary" of the issue the timer runs on, for a merge request
    /// title; none when no timer runs or its issue is not among the fetched.
    pub fn copy_mr_title(&self) -> (r: Option<String>)
        ensures
            r is Some <==> self.get_active_issue_spec() is Some,
            r is Some ==> r->0@ == summary_line(
                self.get_active_issue_spec()->0.key@,
                self.get_active_issue_spec()->0.summary@,
            ),
    {
        match self.get_active_issue() {
            None => None,
            Some(issue) => {
                let mut text = String::from_str("[");
                text.append(issue.key.as_str());
                text.append("] ");
                text.append(issue.summary.as_str());
                Some(text)
            },
        }
    }

    /// The fetched issue that the timer runs on.
    pub open spec fn get_active_issue_spec(&self) -> Option<Issue> {
        match self.session {
            SessionState::Idle => None,
            SessionState::Active { key, since } => find_key(self.issues@, key@),
        }
    }

    /// The record that stores the current session.
    pub fn get_persisted_state(&self) -> (r: PersistedState)
        ensures
            r == record_of(self.session),
    {
        save(&self.session)
    }

    /// Restores the session from what storage held. With no record the
    /// session is kept; a corrupt record is reported and changes nothing.
    pub fn load_state(&mut self, stored: Option<PersistedState>) -> (r: Result<(), StateError>)
        ensures
            stored is None ==> r is Ok && final(self).session == old(self).session,
            stored is Some && !is_consistent(stored->0) ==> r == Err::<(), StateError>(StateError::CorruptState)
                && final(self).session == old(self).session,
            stored is Some && is_consistent(stored->0) ==> r is Ok && final(self).session == state_of(stored->0)->Ok_0,
            final(self).issues == old(self).issues,
            final(self).jira == old(self).jira,
            final(self).filtered_issues == old(self).filtered_issues,
            final(self).selected == old(self).selected,
            final(self).search_input == old(self).search_input,
            final(self).exit == old(self).exit,
    {
        match load(stored) {
            Ok(Some(session)) => {
                self.session = session;
                Ok(())
            },
            Ok(None) => Ok(()),
            Err(e) => Err(e),
        }
    }

    /// Applies one user command at the instant `now` and reports what the
    /// caller must do: submit a worklog entry, fill the clipboard, store the
    /// session again. The issue list never changes here.
    pub fn on_command(&mut self, cmd: Command, now: i64) -> (r: Outcome)
        ensures
            final(self).issues == old(self).issues,
            final(self).jira == old(self).jira,
            r.persist <==> (cmd is ActivateSelected || cmd is SubmitWorklog || cmd is DiscardActive),
            !(cmd is ActivateSelected || cmd is SubmitWorklog) ==> r.worklog is None,
            !(cmd is CopyActiveSummary) ==> r.clipboard is None,
            !(cmd is ActivateSelected || cmd is SubmitWorklog || cmd is DiscardActive) ==> final(self).session
                == old(self).session,
            !(cmd is AppendChar || cmd is Backspace) ==> final(self).search_input == old(self).search_input,
            final(self).exit <==> (old(self).exit || cmd is Quit),
            cmd is MoveDown ==> final(self).selected == next_selection(
                old(self).selected,
                old(self).filtered_issues@.len(),
            ),
            cmd is MoveUp ==> final(self).selected == previous_selection(
                old(self).selected,
                old(self).filtered_issues@.len(),
            ),
            cmd is AppendChar ==> final(self).search_input@ == old(self).search_input@.push(cmd->AppendChar_0),
            cmd is Backspace ==> final(self).search_input@ == (if old(self).search_input@.len() == 0 {
                old(self).search_input@
            } else {
                old(self).search_input@.drop_last()
            }),
            cmd is AppendChar || cmd is Backspace ==> is_ranked_view(
                old(self).issues@,
                final(self).search_input@,
                final(self).filtered_issues@,
            ),
            cmd is AppendChar || cmd is Backspace ==> final(self).selected == clamp_selection(
                old(self).selected,
                final(self).filtered_issues@.len(),
            ),
            !(cmd is AppendChar || cmd is Backspace) ==> final(self).filtered_issues == old(self).filtered_issues,
            !(cmd is AppendChar || cmd is Backspace || cmd is MoveDown || cmd is MoveUp) ==> final(self).selected
                == old(self).selected,
            cmd is ActivateSelected && selected_key(old(self).filtered_issues@, old(self).selected) is Some ==> (
            final(self).session, r.worklog) == activate_result(
                old(self).session,
                selected_key(old(self).filtered_issues@, old(self).selected)->0,
                now,
            ),
            cmd is ActivateSelected && selected_key(old(self).filtered_issues@, old(self).selected) is None ==> final(
            self).session == old(self).session && r.worklog is None,
            cmd is SubmitWorklog ==> (final(self).session, r.worklog) == deactivate_result(old(self).session, now),
            cmd is DiscardActive ==> final(self).session == SessionState::Idle,
            cmd is CopyActiveSummary ==> (r.clipboard is Some <==> old(self).get_active_issue_spec() is Some),
            cmd is CopyActiveSummary && r.clipboard is Some ==> r.clipboard->0@ == summary_line(
                old(self).get_active_issue_spec()->0.key@,
                old(self).get_active_issue_spec()->0.summary@,
            ),
    {
        match cmd {
            Command::MoveDown => {
                self.select_next();
                Outcome { worklog: None, clipboard: None, persist: false }
            },
            Command::MoveUp => {
                self.select_previous();
                Outcome { worklog: None, clipboard: None, persist: false }
            },
            Command::AppendChar(c) => {
                self.add_char(c);
                Outcome { worklog: None, clipboard: None, persist: false }
            },
            Command::Backspace => {
                self.delete_char();
                Outcome { worklog: None, clipboard: None, persist: false }
            },
            Command::ActivateSelected => {
                let worklog = self.activate_issue(now);
                Outcome { worklog, clipboard: None, persist: true }
            },
            Command::SubmitWorklog => {
                let worklog = self.deactivate_issue(now);
                Outcome { worklog, clipboard: None, persist: true }
            },
            Command::DiscardActive => {
                self.clear_state();
                Outcome { worklog: None, clipboard: None, persist: true }
            },
            Command::CopyActiveSummary => {
                let clipboard = self.copy_mr_title();
                Outcome { worklog: None, clipboard, persist: false }
            },
            Command::Quit => {
                self.exit();
                Outcome { worklog: None, clipboard: None, persist: false }
            },
        }
    }
}

/// The highlighted row kept inside a view of `len` rows.
pub open spec fn clamp_selection(selected: Option<usize>, len: nat) -> Option<usize> {
    if len == 0 {
        None
    } else if selected is Some && selected->0 < len {
        selected
    } else if selected is Some {
        Some((len - 1) as usize)
    } else {
        Some(0usize)
    }
}

/// The highlighted row after moving down in a view of `len` rows.
pub open spec fn next_selection(selected: Option<usize>, len: nat) -> Option<usize> {
    if len == 0 {
        None
    } else if selected is Some && selected->0 + 1 < len {
        Some((selected->0 + 1) as usize)
    } else if selected is Some {
        Some((len - 1) as usize)
    } else {
        Some(0usize)
    }
}

/// The highlighted row after moving up in a view of `len` rows.
pub open spec fn previous_selection(selected: Option<usize>, len: nat) -> Option<usize> {
    if len == 0 {
        None
    } else if selected is Some && selected->0 >= len {
        Some((len - 1) as usize)
    } else if selected is Some && selected->0 > 0 {
        Some((selected->0 - 1) as usize)
    } else {
        Some(0usize)
    }
}

} // verus!
