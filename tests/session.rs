use jiratrack::config::Config;
use jiratrack::controller::{App, Command};
use jiratrack::jira::{Issue, Jira};
use jiratrack::search::{rank, rank_by_scores, ranking_order};
use jiratrack::session::{SessionState, WorklogEntry};
use jiratrack::store::{load, save, PersistedState, StateError};

fn issue(key: &str, summary: &str) -> Issue {
    Issue {
        id: format!("id-{}", key),
        key: key.to_string(),
        summary: summary.to_string(),
        time_spent: "0h".to_string(),
        assignee: String::new(),
    }
}

fn keys(issues: &[Issue]) -> Vec<String> {
    issues.iter().map(|i| i.key.clone()).collect()
}

fn app_with(issues: Vec<Issue>) -> App {
    let jira = Jira::new(Config {
        atlassian_url: "https://example.atlassian.net".to_string(),
        user_email: "user@example.com".to_string(),
        user_api_token: "token".to_string(),
        project: "IMG".to_string(),
    });
    let mut app = App::new(jira);
    app.set_issues(issues);
    app
}

const T: i64 = 1_700_000_000;

#[test]
fn empty_query_keeps_input_order() {
    let issues = vec![issue("C", "zzz"), issue("A", "Fix login bug"), issue("B", "a much longer summary text")];
    assert_eq!(keys(&rank(&issues, "")), vec!["C", "A", "B"]);
    assert!(rank(&vec![], "").is_empty());
}

#[test]
fn login_query_keeps_only_matching_issue() {
    let issues = vec![issue("A", "Fix login bug"), issue("B", "Fix logout")];
    assert_eq!(keys(&rank(&issues, "login")), vec!["A"]);
}

#[test]
fn unmatched_query_gives_nothing() {
    let issues = vec![issue("A", "Fix login bug"), issue("B", "Fix logout")];
    assert!(rank(&issues, "qqq").is_empty());
}

#[test]
fn query_ignores_ascii_case() {
    let issues = vec![issue("A", "Fix Login bug")];
    assert_eq!(keys(&rank(&issues, "LOGIN")), vec!["A"]);
}

#[test]
fn equal_summaries_keep_input_order() {
    let issues = vec![issue("X", "Fix logout"), issue("Y", "Fix logout"), issue("Z", "Fix logout")];
    assert_eq!(keys(&rank(&issues, "fix")), vec!["X", "Y", "Z"]);
}

#[test]
fn ranking_by_scores_is_descending_and_stable() {
    let scores = vec![Some(3), None, Some(7), Some(3), Some(-1)];
    assert_eq!(ranking_order(&scores), vec![2, 0, 3, 4]);
    let issues = vec![issue("A", "a"), issue("B", "b"), issue("C", "c"), issue("D", "d"), issue("E", "e")];
    assert_eq!(keys(&rank_by_scores(&issues, &scores)), vec!["C", "A", "D", "E"]);
}

#[test]
fn deactivate_after_ninety_seconds_logs_once() {
    let mut s = SessionState::new();
    assert_eq!(s.activate("A".to_string(), T), None);
    let logged = s.deactivate(T + 90);
    assert_eq!(logged, Some(WorklogEntry { issue_key: "A".to_string(), started_at: T, ended_at: T + 90 }));
    assert_eq!(logged.unwrap().seconds(), 90);
    assert_eq!(s, SessionState::Idle);
    assert_eq!(s.deactivate(T + 200), None);
}

#[test]
fn discard_after_ninety_seconds_logs_nothing() {
    let mut s = SessionState::new();
    s.activate("A".to_string(), T);
    s.discard();
    assert_eq!(s, SessionState::Idle);
    assert_eq!(s.deactivate(T + 90), None);
}

#[test]
fn minute_boundary_decides_logging() {
    let mut s = SessionState::new();
    s.activate("A".to_string(), T);
    assert_eq!(s.deactivate(T + 59), None);
    s.activate("A".to_string(), T);
    assert!(s.deactivate(T + 60).is_some());
    s.activate("A".to_string(), T);
    assert_eq!(s.deactivate(T - 100), None);
}

#[test]
fn switching_issue_flushes_previous_once() {
    let mut s = SessionState::new();
    s.activate("A".to_string(), T);
    let flushed = s.activate("B".to_string(), T + 120);
    assert_eq!(flushed, Some(WorklogEntry { issue_key: "A".to_string(), started_at: T, ended_at: T + 120 }));
    assert_eq!(s, SessionState::Active { key: "B".to_string(), since: T + 120 });
}

#[test]
fn elapsed_only_while_active() {
    let mut s = SessionState::new();
    assert_eq!(s.elapsed_now(T), None);
    s.activate("A".to_string(), T);
    assert_eq!(s.elapsed_now(T + 42), Some(42));
    assert_eq!(s.active_key(), Some(&"A".to_string()));
}

#[test]
fn save_then_load_round_trips() {
    let idle = SessionState::Idle;
    assert_eq!(load(Some(save(&idle))), Ok(Some(SessionState::Idle)));
    let active = SessionState::Active { key: "IMG-1".to_string(), since: T };
    let record = save(&active);
    assert_eq!(record, PersistedState { active_issue: Some("IMG-1".to_string()), activated_on: Some(T) });
    assert_eq!(load(Some(record)), Ok(Some(active)));
}

#[test]
fn half_records_are_corrupt() {
    let key_only = PersistedState { active_issue: Some("A".to_string()), activated_on: None };
    assert_eq!(load(Some(key_only)), Err(StateError::CorruptState));
    let time_only = PersistedState { active_issue: None, activated_on: Some(T) };
    assert_eq!(load(Some(time_only)), Err(StateError::CorruptState));
    assert_eq!(load(None), Ok(None));
}

#[test]
fn test_filter_issues() {
    let mut app = app_with(vec![issue("A", "Fix login bug"), issue("B", "Fix logout")]);
    assert_eq!(keys(&app.search_issues()), vec!["A", "B"]);
    for c in "login".chars() {
        app.on_command(Command::AppendChar(c), T);
    }
    assert_eq!(keys(&app.search_issues()), vec!["A"]);
    assert_eq!(keys(&app.filtered_issues), vec!["A"]);
}

#[test]
fn test_persist_state() {
    let mut app = app_with(vec![issue("A", "Fix login bug")]);
    assert_eq!(app.get_persisted_state(), PersistedState { active_issue: None, activated_on: None });
    app.on_command(Command::ActivateSelected, T);
    assert_eq!(
        app.get_persisted_state(),
        PersistedState { active_issue: Some("A".to_string()), activated_on: Some(T) }
    );
}

#[test]
fn commands_drive_the_session() {
    let mut app = app_with(vec![issue("A", "Fix login bug"), issue("B", "Fix logout")]);
    assert_eq!(app.selected, Some(0));
    app.on_command(Command::MoveDown, T);
    app.on_command(Command::MoveDown, T);
    assert_eq!(app.selected, Some(1));
    let out = app.on_command(Command::ActivateSelected, T);
    assert!(out.persist);
    assert_eq!(out.worklog, None);
    let copied = app.on_command(Command::CopyActiveSummary, T + 5);
    assert_eq!(copied.clipboard, Some("[B] Fix logout".to_string()));
    app.on_command(Command::MoveUp, T + 10);
    app.on_command(Command::MoveUp, T + 10);
    assert_eq!(app.selected, Some(0));
    let out = app.on_command(Command::ActivateSelected, T + 100);
    assert_eq!(out.worklog, Some(WorklogEntry { issue_key: "B".to_string(), started_at: T, ended_at: T + 100 }));
    let out = app.on_command(Command::SubmitWorklog, T + 130);
    assert_eq!(out.worklog, None);
    assert_eq!(app.session, SessionState::Idle);
    assert_eq!(app.on_command(Command::CopyActiveSummary, T).clipboard, None);
    app.on_command(Command::Quit, T);
    assert!(app.exit);
}

#[test]
fn backspace_and_empty_view() {
    let mut app = app_with(vec![issue("A", "Fix login bug")]);
    app.on_command(Command::Backspace, T);
    assert_eq!(app.search_input, "");
    app.on_command(Command::AppendChar('q'), T);
    assert!(app.filtered_issues.is_empty());
    assert_eq!(app.selected, None);
    let out = app.on_command(Command::ActivateSelected, T);
    assert_eq!(out.worklog, None);
    assert_eq!(app.session, SessionState::Idle);
    app.on_command(Command::Backspace, T);
    assert_eq!(app.search_input, "");
    assert_eq!(app.selected, Some(0));
    app.on_command(Command::ActivateSelected, T);
    let out = app.on_command(Command::DiscardActive, T + 500);
    assert_eq!(out.worklog, None);
    assert_eq!(app.session, SessionState::Idle);
}

#[test]
fn load_state_rejects_corrupt_record_and_keeps_session() {
    let mut app = app_with(vec![issue("A", "Fix login bug")]);
    let bad = PersistedState { active_issue: Some("A".to_string()), activated_on: None };
    assert_eq!(app.load_state(Some(bad)), Err(StateError::CorruptState));
    assert_eq!(app.session, SessionState::Idle);
    let good = PersistedState { active_issue: Some("A".to_string()), activated_on: Some(T) };
    assert_eq!(app.load_state(Some(good)), Ok(()));
    assert_eq!(app.session, SessionState::Active { key: "A".to_string(), since: T });
    assert_eq!(app.get_active_issue().map(|i| i.key), Some("A".to_string()));
}

#[test]
fn session_commands_keep_highlight_and_view() {
    let mut app = app_with(vec![issue("A", "Fix login bug"), issue("B", "Fix logout")]);
    app.on_command(Command::MoveDown, T);
    app.on_command(Command::ActivateSelected, T);
    for cmd in [Command::CopyActiveSummary, Command::SubmitWorklog, Command::DiscardActive, Command::Quit] {
        app.on_command(cmd, T + 100);
        assert_eq!(app.selected, Some(1));
        assert_eq!(keys(&app.filtered_issues), vec!["A", "B"]);
        assert_eq!(app.search_input, "");
    }
}
