use vstd::prelude::*;
use vstd::utf8::encode_utf8;

use base64::Engine;

pub use crate::config::Config;
use crate::session::{WorklogEntry, MIN_WORKLOG_SECONDS};

verus! {

/// A snapshot of one tracker issue, as fetched.
#[derive(Debug)]
pub struct Issue {
    pub id: String,
    pub key: String,
    pub summary: String,
    pub time_spent: String,
    pub assignee: String,
}

impl Issue {
    /// A field-by-field copy of the issue.
    pub fn duplicate(&self) -> (r: Issue)
        ensures
            r == *self,
    {
        Issue {
            id: self.id.clone(),
            key: self.key.clone(),
            summary: self.summary.clone(),
            time_spent: self.time_spent.clone(),
            assignee: self.assignee.clone(),
        }
    }
}

/// The fields of an issue as the tracker's response holds them, each absent
/// where the response lacks it or holds no string there.
#[derive(Debug)]
pub struct IssueFields {
    pub id: Option<String>,
    pub key: Option<String>,
    pub summary: Option<String>,
    pub time_spent: Option<String>,
    pub assignee: Option<String>,
}

/// How a tracker operation failed.
#[derive(Debug, PartialEq, Eq)]
pub enum JiraError {
    /// The tracker could not be reached.
    Network,
    /// The credentials were rejected.
    Auth,
    /// The response did not have the expected shape.
    Malformed,
    /// No such issue.
    NotFound,
    /// The tracker refused the request.
    Rejected,
}

/// The HTTP method of a request.
#[derive(Debug, PartialEq, Eq)]
pub enum Method {
    Get,
    Post,
}

/// The JSON payload of a request.
#[derive(Debug, PartialEq, Eq)]
pub enum Body {
    /// A worklog entry: `{"started": <started_at in the local zone>,
    /// "timeSpentSeconds": <time_spent_seconds>}`, the instant in seconds
    /// since the Unix epoch.
    Worklog { started_at: i64, time_spent_seconds: u32 },
    /// An assignment: `{"accountId": <account_id>}`.
    Assignee { account_id: String },
}

/// A request to the tracker's REST API, for the HTTP client to send.
#[derive(Debug)]
pub struct Request {
    pub method: Method,
    pub url: String,
    pub authorization: String,
    pub query: Vec<(String, String)>,
    pub body: Option<Body>,
}

/// The tracker operations, which differ in how a refused request reads.
#[derive(Debug, PartialEq, Eq, Clone, Copy)]
pub enum Operation {
    FetchIssue,
    SearchIssues,
    LogTime,
    Assign,
}

/// The seconds that a worklog from `started_at` to `ended_at` reports: the
/// whole seconds between them, held to the range of `u32`.
pub open spec fn worklog_seconds(started_at: i64, ended_at: i64) -> u32 {
    let d = ended_at - started_at;
    if d < 0 {
        0
    } else if d > u32::MAX {
        u32::MAX
    } else {
        d as u32
    }
}

/// The account id by which the tracker means the calling user.
pub open spec fn current_user_account() -> Seq<char> {
    "-1"@
}

/// The character of the standard base64 alphabet for a six-bit value.
pub open spec fn base64_digit(v: int) -> char {
    if v < 26 {
        ((65 + v) as u8) as char
    } else if v < 52 {
        ((97 + v - 26) as u8) as char
    } else if v < 62 {
        ((48 + v - 52) as u8) as char
    } else if v == 62 {
        '+'
    } else {
        '/'
    }
}

/// Standard base64 of `b`: each three bytes become four characters, and a
/// last group of one or two bytes is padded with '='.
pub open spec fn base64_standard(b: Seq<u8>) -> Seq<char>
    decreases b.len(),
{
    if b.len() == 0 {
        Seq::empty()
    } else if b.len() == 1 {
        seq![base64_digit((b[0] as int) / 4), base64_digit(((b[0] as int) % 4) * 16), '=', '=']
    } else if b.len() == 2 {
        seq![
            base64_digit((b[0] as int) / 4),
            base64_digit(((b[0] as int) % 4) * 16 + (b[1] as int) / 16),
            base64_digit(((b[1] as int) % 16) * 4),
            '=',
        ]
    } else {
        seq![
            base64_digit((b[0] as int) / 4),
            base64_digit(((b[0] as int) % 4) * 16 + (b[1] as int) / 16),
            base64_digit(((b[1] as int) % 16) * 4 + (b[2] as int) / 64),
            base64_digit((b[2] as int) % 64),
        ] + base64_standard(b.subrange(3, b.len() as int))
    }
}

/// Relies on base64's `general_purpose::STANDARD.encode`: the standard
/// alphabet, with padding, over the string's UTF-8 bytes. Its size check
/// cannot fail for the length of a string held in memory.
#[verifier::external_body]
fn base64_encode(s: &str) -> (r: String)
    ensures
        r@ == base64_standard(encode_utf8(s@)),
{
    base64::engine::general_purpose::STANDARD.encode(s.as_bytes())
}

/// The value of a basic `Authorization` header for `user` and `password`.
pub open spec fn basic_auth(user: Seq<char>, password: Seq<char>) -> Seq<char> {
    "Basic "@ + base64_standard(encode_utf8(user + ":"@ + password))
}

/// The `Authorization` value for credentials whose base64 text is `encoded`.
pub fn basic_header(encoded: &str) -> (r: String)
    ensures
        r@ == "Basic "@ + encoded@,
{
    let mut header = String::from_str("Basic ");
    header.append(encoded);
    header
}

/// The value of a basic `Authorization` header for `user` and `password`.
pub fn create_basic_auth_header(user: &str, password: &str) -> (r: String)
    ensures
        r@ == basic_auth(user@, password@),
{
    let mut user_pass = String::from_str(user);
    user_pass.append(":");
    user_pass.append(password);
    let encoded = base64_encode(user_pass.as_str());
    basic_header(encoded.as_str())
}

/// The search that selects the open issues of the current sprint of `project`.
pub open spec fn sprint_jql(project: Seq<char>) -> Seq<char> {
    "sprint in openSprints() AND project = \""@ + project
        + "\" AND status != done AND status != archived"@
}

/// The fields that an issue search asks for.
pub open spec fn search_fields() -> Seq<char> {
    "id,summary,key,timetracking,assignee"@
}

/// A tracker client: where the tracker is and whose credentials to send.
#[derive(Debug)]
pub struct Jira {
    atlassian_url: String,
    user_email: String,
    user_api_token: String,
    project: String,
}

impl Jira {
    pub closed spec fn base_url(&self) -> Seq<char> {
        self.atlassian_url@
    }

    pub closed spec fn project_key(&self) -> Seq<char> {
        self.project@
    }

    pub closed spec fn authorization(&self) -> Seq<char> {
        basic_auth(self.user_email@, self.user_api_token@)
    }

    /// A client for the tracker and the user that `config` names.
    pub fn new(config: Config) -> (r: Jira)
        ensures
            r.base_url() == config.atlassian_url@,
            r.project_key() == config.project@,
            r.authorization() == basic_auth(config.user_email@, config.user_api_token@),
    {
        Jira {
            atlassian_url: config.atlassian_url,
            user_email: config.user_email,
            user_api_token: config.user_api_token,
            project: config.project,
        }
    }

    fn url(&self, path: &str) -> (r: String)
        ensures
            r@ == self.base_url() + path@,
    {
        let mut url = self.atlassian_url.clone();
        url.append(path);
        url
    }

    fn request(&self, method: Method, url: String) -> (r: Request)
        ensures
            r.method == method,
            r.url == url,
            r.authorization@ == self.authorization(),
            r.query@ == Seq::<(String, String)>::empty(),
            r.body is None,
    {
        let authorization = create_basic_auth_header(self.user_email.as_str(), self.user_api_token.as_str());
        Request { method, url, authorization, query: Vec::new(), body: None }
    }

    /// The request that fetches the issue `key`.
    pub fn get_issue(&self, key: &str) -> (r: Request)
        ensures
            r.method == Method::Get,
            r.url@ == self.base_url() + "/rest/api/3/issue/"@ + key@,
            r.authorization@ == self.authorization(),
            r.query@.len() == 0,
            r.body is None,
    {
        let mut url = self.url("/rest/api/3/issue/");
        url.append(key);
        self.request(Method::Get, url)
    }

    /// The request that submits `entry` as a worklog of its issue; none when
    /// the entry covers less than a minute, which is not worth logging.
    pub fn log_time(&self, entry: &WorklogEntry) -> (r: Option<Request>)
        ensures
            r is None <==> entry.ended_at - entry.started_at < MIN_WORKLOG_SECONDS,
            r is Some ==> ({
                let req = r->0;
                &&& req.method == Method::Post
                &&& req.url@ == self.base_url() + "/rest/api/3/issue/"@ + entry.issue_key@ + "/worklog"@
                &&& req.authorization@ == self.authorization()
                &&& req.query@.len() == 0
                &&& req.body == Some(
                    Body::Worklog {
                        started_at: entry.started_at,
                        time_spent_seconds: worklog_seconds(entry.started_at, entry.ended_at),
                    },
                )
            }),
    {
        let elapsed = entry.seconds();
        if elapsed < MIN_WORKLOG_SECONDS as i128 {
            return None;
        }
        let time_spent_seconds: u32 = if elapsed > u32::MAX as i128 {
            u32::MAX
        } else {
            elapsed as u32
        };
        let mut url = self.url("/rest/api/3/issue/");
        url.append(entry.issue_key.as_str());
        url.append("/worklog");
        let mut req = self.request(Method::Post, url);
        req.body = Some(Body::Worklog { started_at: entry.started_at, time_spent_seconds });
        Some(req)
    }

    /// The request that assigns the issue `issue_key` to the calling user.
    pub fn assign_to_current_user(&self, issue_key: &str) -> (r: Request)
        ensures
            r.method == Method::Post,
            r.url@ == self.base_url() + "/rest/api/3/issue/"@ + issue_key@ + "/assignee"@,
            r.authorization@ == self.authorization(),
            r.query@.len() == 0,
            r.body is Some && r.body->0 is Assignee && r.body->0->account_id@ == current_user_account(),
    {
        let mut url = self.url("/rest/api/3/issue/");
        url.append(issue_key);
        url.append("/assignee");
        let mut req = self.request(Method::Post, url);
        req.body = Some(Body::Assignee { account_id: String::from_str("-1") });
        req
    }

    /// The request that searches the issues that `jql` selects.
    fn get_issues_jql(&self, jql: &str) -> (r: Request)
        ensures
            r.method == Method::Get,
            r.url@ == self.base_url() + "/rest/api/3/search/jql"@,
            r.authorization@ == self.authorization(),
            r.query@.len() == 2,
            r.query@[0].0@ == "jql"@,
            r.query@[0].1@ == jql@,
            r.query@[1].0@ == "fields"@,
            r.query@[1].1@ == search_fields(),
            r.body is None,
    {
        let url = self.url("/rest/api/3/search/jql");
        let mut r = self.request(Method::Get, url);
        r.query.push((String::from_str("jql"), String::from_str(jql)));
        r.query.push((String::from_str("fields"), String::from_str("id,summary,key,timetracking,assignee")));
        r
    }

    /// The request that lists the open, unarchived issues of the current
    /// sprint of the configured project.
    pub fn get_current_sprint_issues(&self) -> (r: Request)
        ensures
            r.method == Method::Get,
            r.url@ == self.base_url() + "/rest/api/3/search/jql"@,
            r.authorization@ == self.authorization(),
            r.query@.len() == 2,
            r.query@[0].0@ == "jql"@,
            r.query@[0].1@ == sprint_jql(self.project_key()),
            r.query@[1].0@ == "fields"@,
            r.query@[1].1@ == search_fields(),
            r.body is None,
    {
        let mut jql = String::from_str("sprint in openSprints() AND project = \"");
        jql.append(self.project.as_str());
        jql.append("\" AND status != done AND status != archived");
        self.get_issues_jql(jql.as_str())
    }
}

/// Whether `fields` hold what an issue needs: its id, key and summary.
pub open spec fn is_complete(fields: IssueFields) -> bool {
    fields.id is Some && fields.key is Some && fields.summary is Some
}

/// Whether `issue` is what `fields` describe: a missing time spent reads as
/// "0h" and a missing assignee as empty.
pub open spec fn parsed_from(issue: Issue, fields: IssueFields) -> bool {
    &&& issue.id == fields.id->0
    &&& issue.key == fields.key->0
    &&& issue.summary == fields.summary->0
    &&& issue.time_spent@ == (if fields.time_spent is Some {
        fields.time_spent->0@
    } else {
        "0h"@
    })
    &&& issue.assignee@ == (if fields.assignee is Some {
        fields.assignee->0@
    } else {
        Seq::<char>::empty()
    })
}

/// The issue that `fields` describe. A missing time spent reads as "0h" and
/// a missing assignee as empty; without an id, a key or a summary the
/// response is malformed.
pub fn parse_issue(fields: IssueFields) -> (r: Result<Issue, JiraError>)
    ensures
        r is Err <==> !is_complete(fields),
        r is Err ==> r == Err::<Issue, JiraError>(JiraError::Malformed),
        r is Ok ==> parsed_from(r->Ok_0, fields),
{
    match (fields.id, fields.key, fields.summary) {
        (Some(id), Some(key), Some(summary)) => {
            let time_spent = match fields.time_spent {
                Some(t) => t,
                None => String::from_str("0h"),
            };
            let assignee = match fields.assignee {
                Some(a) => a,
                None => String::new(),
            };
            Ok(Issue { id, key, summary, time_spent, assignee })
        },
        _ => Err(JiraError::Malformed),
    }
}

/// The issues of a search response, in response order; malformed when any
/// one of them is.
pub fn parse_issues(items: Vec<IssueFields>) -> (r: Result<Vec<Issue>, JiraError>)
    ensures
        r is Err <==> exists|i: int| 0 <= i < items@.len() && !is_complete(items@[i]),
        r is Err ==> r == Err::<Vec<Issue>, JiraError>(JiraError::Malformed),
        r is Ok ==> r->Ok_0@.len() == items@.len() && forall|i: int|
            0 <= i < items@.len() ==> parsed_from(#[trigger] r->Ok_0@[i], items@[i]),
{
    let ghost input = items@;
    let mut pending = items;
    let mut issues: Vec<Issue> = Vec::new();
    let mut rest: Vec<IssueFields> = Vec::new();
    // reverse the items onto a stack, so that popping yields them in order
    while pending.len() > 0
        invariant
            rest@ + pending@.reverse() == input.reverse(),
        decreases pending@.len(),
    {
        let ghost before = pending@;
        let f = pending.pop().unwrap();
        proof {
            assert(before == pending@.push(f));
            assert(before.reverse() == seq![f] + pending@.reverse());
        }
        rest.push(f);
    }
    proof {
        assert(rest@ == input.reverse());
    }
    while rest.len() > 0
        invariant
            input == items@,
            rest@.len() + issues@.len() == input.len(),
            forall|i: int| 0 <= i < rest@.len() ==> rest@[i] == input[input.len() - 1 - i],
            forall|i: int| 0 <= i < issues@.len() ==> parsed_from(#[trigger] issues@[i], input[i]),
            forall|i: int| 0 <= i < issues@.len() ==> is_complete(#[trigger] input[i]),
        decreases rest@.len(),
    {
        let ghost at = issues@.len() as int;
        let f = rest.pop().unwrap();
        proof {
            assert(f == input[at]);
        }
        match parse_issue(f) {
            Ok(issue) => issues.push(issue),
            Err(e) => {
                proof {
                    assert(0 <= at < input.len() && !is_complete(input[at]));
                    assert(exists|i: int| 0 <= i < input.len() && !is_complete(input[i]));
                }
                return Err(e);
            },
        }
    }
    Ok(issues)
}

/// The failure that a refused request of `op` with HTTP status `status`
/// stands for: rejected credentials for 401 and 403; otherwise a missing
/// issue when fetching one, a search whose answer is unusable, and a refused
/// change for a worklog or an assignment.
pub open spec fn status_error(op: Operation, status: u16) -> JiraError {
    if status == 401 || status == 403 {
        JiraError::Auth
    } else {
        match op {
            Operation::FetchIssue => JiraError::NotFound,
            Operation::SearchIssues => JiraError::Malformed,
            Operation::LogTime => JiraError::Rejected,
            Operation::Assign => JiraError::Rejected,
        }
    }
}

pub fn classify_status(op: Operation, status: u16) -> (r: JiraError)
    ensures
        r == status_error(op, status),
{
    if status == 401 || status == 403 {
        JiraError::Auth
    } else {
        match op {
            Operation::FetchIssue => JiraError::NotFound,
            Operation::SearchIssues => JiraError::Malformed,
            Operation::LogTime => JiraError::Rejected,
            Operation::Assign => JiraError::Rejected,
        }
    }
}

} // verus!
