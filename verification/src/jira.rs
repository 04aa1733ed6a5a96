//! Jira: the settings and issue records of the dashboard, the requests the
//! client makes (URLs and Basic auth), how the API's issues become
//! summaries and details, and the text of Atlassian Document Format
//! descriptions.
//!
//! The HTTP calls and the JSON parsing are made by the caller, which hands
//! over the fields below.

use vstd::prelude::*;
use base64::Engine;
use crate::text::{clone_opt_string, join, join_strings, strings_view};
use crate::changesignore::clone_strings;
use crate::changes::keyed_map;
use crate::keyed::{find_key, put_keyed};

verus! {

/// Jira connection settings.
pub struct JiraSettings {
    pub base_url: String,
    pub email: String,
    pub default_jql: String,
}

/// An issue of a search result.
pub struct IssueSummary {
    pub key: String,
    pub summary: String,
    pub status: String,
    pub status_category: String,
    pub assignee: Option<String>,
    pub priority: String,
    pub updated: String,
}

/// The details of an issue.
pub struct IssueDetails {
    pub key: String,
    pub summary: String,
    pub description: Option<String>,
    pub status: String,
    pub status_category: String,
    pub resolution: Option<String>,
    pub issue_type: String,
    pub priority: String,
    pub assignee: Option<String>,
    pub reporter: Option<String>,
    pub created: String,
    pub updated: String,
    pub labels: Vec<String>,
    pub components: Vec<String>,
}

/// The issues of a search and their total.
pub struct SearchResult {
    pub issues: Vec<IssueSummary>,
    pub total: i32,
}

/// The authenticated user.
pub struct JiraCurrentUser {
    pub display_name: String,
    pub email_address: String,
    pub account_id: String,
}

/// A JSON value of an Atlassian Document Format tree, as far as its text
/// is read.
pub enum AdfValue {
    /// An array.
    Array(Vec<AdfValue>),
    /// An object: its `type` and `text` when they are strings, and its
    /// `content` when present.
    Object { node_type: Option<String>, text: Option<String>, content: Option<Box<AdfValue>> },
    /// Any other value.
    Other,
}

/// An issue description.
pub enum Description {
    /// A plain string.
    Text(String),
    /// An ADF document: its `content`, when present.
    Document(Option<AdfValue>),
    /// Absent, or any other value.
    Other,
}

/// The fields of an issue as the Jira API answers them.
pub struct JiraIssue {
    pub key: String,
    pub summary: String,
    pub description: Description,
    pub status: String,
    pub status_category: String,
    pub resolution: Option<String>,
    pub issue_type: String,
    pub priority: Option<String>,
    pub assignee: Option<String>,
    pub reporter: Option<String>,
    pub created: Option<String>,
    pub updated: String,
    pub labels: Option<Vec<String>>,
    pub components: Option<Vec<String>>,
}

/// The texts of the items of an ADF array that have one.
pub open spec fn adf_items_texts(items: Seq<AdfValue>) -> Seq<Seq<char>>
    decreases items,
{
    if items.len() == 0 {
        Seq::empty()
    } else {
        let rest = adf_items_texts(items.drop_last());
        match adf_text(items.last()) {
            Some(t) => rest.push(t),
            None => rest,
        }
    }
}

/// The text of an ADF value: a `text` node's text; else the texts found in
/// its content (or the items of an array) joined by newlines; none when
/// there are none.
pub open spec fn adf_text(v: AdfValue) -> Option<Seq<char>>
    decreases v,
{
    match v {
        AdfValue::Array(items) => {
            let parts = adf_items_texts(items@);
            if parts.len() == 0 {
                None
            } else {
                Some(join(parts, "\n"@))
            }
        },
        AdfValue::Object { node_type, text, content } => {
            if node_type matches Some(t) && t@ == "text"@ && text is Some {
                Some(text->0@)
            } else {
                match content {
                    Some(c) => adf_text(*c),
                    None => None,
                }
            }
        },
        AdfValue::Other => None,
    }
}

/// The text of an ADF value.
pub fn extract_text_from_adf(v: &AdfValue) -> (r: Option<String>)
    ensures
        match adf_text(*v) {
            Some(t) => r matches Some(s) && s@ == t,
            None => r is None,
        },
    decreases v,
{
    match v {
        AdfValue::Array(items) => {
            let mut parts: Vec<String> = Vec::new();
            let mut i: usize = 0;
            while i < items.len()
                invariant
                    i <= items@.len(),
                    *v == AdfValue::Array(*items),
                    strings_view(parts@) == adf_items_texts(items@.take(i as int)),
                decreases items@.len() - i,
            {
                let ghost pre = items@.take(i + 1);
                assert(pre.drop_last() =~= items@.take(i as int));
                assert(pre.last() == items@[i as int]);
                proof {
                    assert(decreases_to!(*v => (*v)->0));
                    assert((*v)->0 == *items);
                    assert(decreases_to!(*items => items@));
                    assert(decreases_to!(items@ => items@[i as int]));
                }
                match extract_text_from_adf(&items[i]) {
                    Some(t) => {
                        let ghost before = parts@;
                        parts.push(t);
                        assert(strings_view(parts@) =~= strings_view(before).push(parts@.last()@));
                    },
                    None => {},
                }
                i = i + 1;
            }
            assert(items@.take(i as int) =~= items@);
            if parts.len() == 0 {
                None
            } else {
                Some(join_strings(&parts, "\n"))
            }
        },
        AdfValue::Object { node_type, text, content } => {
            let is_text = match node_type {
                Some(t) => crate::text::same_text(t.as_str(), "text"),
                None => false,
            };
            if is_text {
                if let Some(s) = text {
                    return Some(s.clone());
                }
            }
            match content {
                Some(c) => extract_text_from_adf(&**c),
                None => None,
            }
        },
        AdfValue::Other => None,
    }
}

/// The text of a description.
pub open spec fn description_text(d: Description) -> Option<Seq<char>> {
    match d {
        Description::Text(s) => Some(s@),
        Description::Document(Some(c)) => adf_text(c),
        _ => None,
    }
}

/// The text of an issue description: a string as it is, an ADF document
/// by the text of its content.
pub fn extract_description_text(d: &Description) -> (r: Option<String>)
    ensures
        match description_text(*d) {
            Some(t) => r matches Some(s) && s@ == t,
            None => r is None,
        },
{
    match d {
        Description::Text(s) => Some(s.clone()),
        Description::Document(Some(c)) => extract_text_from_adf(c),
        _ => None,
    }
}

/// The summary of an issue of a search (priority "None" when absent).
pub fn issue_summary(i: &JiraIssue) -> (r: IssueSummary)
    ensures
        r.key == i.key,
        r.summary == i.summary,
        r.status == i.status,
        r.status_category == i.status_category,
        r.assignee == i.assignee,
        r.priority@ == (match i.priority {
            Some(p) => p@,
            None => "None"@,
        }),
        r.updated == i.updated,
{
    IssueSummary {
        key: i.key.clone(),
        summary: i.summary.clone(),
        status: i.status.clone(),
        status_category: i.status_category.clone(),
        assignee: clone_opt_string(&i.assignee),
        priority: match &i.priority {
            Some(p) => p.clone(),
            None => String::from_str("None"),
        },
        updated: i.updated.clone(),
    }
}

/// The number of issues of a search as a total (`len as i32`).
pub open spec fn count_as_i32(n: nat) -> i32 {
    n as i32
}

/// The result of a search: the issues summarized, and the total the API
/// gave (else the number of issues).
pub fn search_result(issues: &[JiraIssue], total: Option<i32>) -> (r: SearchResult)
    ensures
        r.issues@.len() == issues@.len(),
        forall|k: int|
            0 <= k < issues@.len() ==> (#[trigger] r.issues@[k]).key == issues@[k].key
                && r.issues@[k].summary == issues@[k].summary,
        r.total == (match total {
            Some(t) => t,
            None => issues@.len() as i32,
        }),
{
    let mut out: Vec<IssueSummary> = Vec::new();
    let mut k: usize = 0;
    while k < issues.len()
        invariant
            k <= issues@.len(),
            out@.len() == k,
            forall|q: int|
                0 <= q < k ==> (#[trigger] out@[q]).key == issues@[q].key && out@[q].summary
                    == issues@[q].summary,
        decreases issues@.len() - k,
    {
        out.push(issue_summary(&issues[k]));
        k = k + 1;
    }
    let total = match total {
        Some(t) => t,
        None => issues.len() as i32,
    };
    SearchResult { issues: out, total }
}

/// The details of an issue: the description's text, priority "None" and
/// creation "Unknown" when absent, no labels or components when absent.
pub fn issue_details(i: &JiraIssue) -> (r: IssueDetails)
    ensures
        r.key == i.key,
        r.summary == i.summary,
        match description_text(i.description) {
            Some(t) => r.description matches Some(s) && s@ == t,
            None => r.description is None,
        },
        r.status == i.status,
        r.status_category == i.status_category,
        r.resolution == i.resolution,
        r.issue_type == i.issue_type,
        r.priority@ == (match i.priority {
            Some(p) => p@,
            None => "None"@,
        }),
        r.assignee == i.assignee,
        r.reporter == i.reporter,
        r.created@ == (match i.created {
            Some(c) => c@,
            None => "Unknown"@,
        }),
        r.updated == i.updated,
        r.labels@ == (match i.labels {
            Some(l) => l@,
            None => Seq::empty(),
        }),
        r.components@ == (match i.components {
            Some(c) => c@,
            None => Seq::empty(),
        }),
{
    IssueDetails {
        key: i.key.clone(),
        summary: i.summary.clone(),
        description: extract_description_text(&i.description),
        status: i.status.clone(),
        status_category: i.status_category.clone(),
        resolution: clone_opt_string(&i.resolution),
        issue_type: i.issue_type.clone(),
        priority: match &i.priority {
            Some(p) => p.clone(),
            None => String::from_str("None"),
        },
        assignee: clone_opt_string(&i.assignee),
        reporter: clone_opt_string(&i.reporter),
        created: match &i.created {
            Some(c) => c.clone(),
            None => String::from_str("Unknown"),
        },
        updated: i.updated.clone(),
        labels: match &i.labels {
            Some(l) => clone_strings(l),
            None => Vec::new(),
        },
        components: match &i.components {
            Some(c) => clone_strings(c),
            None => Vec::new(),
        },
    }
}

/// A digit of the standard base64 alphabet (`A-Z`, `a-z`, `0-9`, `+`,
/// `/`) for a value below 64.
pub open spec fn base64_digit(v: int) -> char {
    if v < 26 {
        (65 + v) as char
    } else if v < 52 {
        (97 + v - 26) as char
    } else if v < 62 {
        (48 + v - 52) as char
    } else if v == 62 {
        '+'
    } else {
        '/'
    }
}

/// The standard base64 encoding of bytes: each group of three bytes as
/// four digits of six bits, most significant first; a last group of one
/// or two bytes padded with `=` to four characters.
pub open spec fn base64_bytes(b: Seq<u8>) -> Seq<char>
    decreases b.len(),
{
    if b.len() == 0 {
        Seq::empty()
    } else if b.len() == 1 {
        seq![base64_digit((b[0] as int) / 4), base64_digit(((b[0] as int) % 4) * 16), '=', '=']
    } else if b.len() == 2 {
        seq![
            base64_digit((b[0] as int) / 4),
            base64_digit(((b[0] as int) % 4) * 16 + (b[1] as int) / 16),
            base64_digit(((b[1] as int) % 16) * 4),
            '=',
        ]
    } else {
        seq![
            base64_digit((b[0] as int) / 4),
            base64_digit(((b[0] as int) % 4) * 16 + (b[1] as int) / 16),
            base64_digit(((b[1] as int) % 16) * 4 + (b[2] as int) / 64),
            base64_digit((b[2] as int) % 64),
        ] + base64_bytes(b.skip(3))
    }
}

/// The standard base64 encoding of the UTF-8 bytes of a text.
pub open spec fn base64_standard(text: Seq<char>) -> Seq<char> {
    base64_bytes(vstd::utf8::encode_utf8(text))
}

/// `base64::engine::general_purpose::STANDARD.encode` of the text's bytes:
/// standard alphabet, with padding.
#[verifier::external_body]
fn base64_encode(text: &str) -> (r: String)
    ensures
        r@ == base64_standard(text@),
{
    base64::engine::general_purpose::STANDARD.encode(text.as_bytes())
}

/// The Basic auth header value: `Basic ` and the base64 of
/// `<email>:<api token>`.
pub fn get_auth_header(email: &str, api_token: &str) -> (r: String)
    ensures
        r@ == "Basic "@ + base64_standard(email@ + ":"@ + api_token@),
{
    let credentials = String::from_str(email).concat(":").concat(api_token);
    let encoded = base64_encode(credentials.as_str());
    String::from_str("Basic ").concat(encoded.as_str())
}

/// The URL of the current user.
pub fn current_user_url(base_url: &str) -> (r: String)
    ensures
        r@ == base_url@ + "/rest/api/3/myself"@,
{
    String::from_str(base_url).concat("/rest/api/3/myself")
}

/// The URL of the JQL search.
pub fn search_url(base_url: &str) -> (r: String)
    ensures
        r@ == base_url@ + "/rest/api/3/search/jql"@,
{
    String::from_str(base_url).concat("/rest/api/3/search/jql")
}

/// The URL of an issue.
pub fn issue_url(base_url: &str, key: &str) -> (r: String)
    ensures
        r@ == base_url@ + "/rest/api/3/issue/"@ + key@,
{
    String::from_str(base_url).concat("/rest/api/3/issue/").concat(key)
}

/// The fields a search asks for.
pub fn search_fields() -> (r: &'static str)
    ensures
        r@ == "key,summary,status,updated,assignee,priority,issuetype"@,
{
    "key,summary,status,updated,assignee,priority,issuetype"
}

/// The error of an answer that is not a success (`status` as the HTTP
/// status is displayed).
pub fn api_error(status: &str, body: &str) -> (r: String)
    ensures
        r@ == "API error "@ + status@ + ": "@ + body@,
{
    String::from_str("API error ").concat(status).concat(": ").concat(body)
}

/// The result of the cached issues: the issues, with total 0 (the total is
/// not cached).
pub fn cached_search_result(issues: Vec<IssueSummary>) -> (r: SearchResult)
    ensures
        r.issues == issues,
        r.total == 0,
{
    SearchResult { issues, total: 0 }
}

/// The issue list of the REST endpoint for a search result.
pub fn jira_list_response(result: SearchResult, jql: String) -> (r: crate::chat::JiraListResponse)
    ensures
        r.issues@.len() == result.issues@.len(),
        forall|k: int|
            0 <= k < r.issues@.len() ==> {
                let a = #[trigger] r.issues@[k];
                let b = result.issues@[k];
                &&& a.key == b.key
                &&& a.summary == b.summary
                &&& a.status == b.status
                &&& a.status_category == b.status_category
                &&& a.assignee == b.assignee
                &&& a.priority == b.priority
                &&& a.updated == b.updated
            },
        r.total == result.total,
        r.jql == jql,
{
    let mut issues: Vec<crate::chat::JiraIssueSummary> = Vec::new();
    let mut k: usize = 0;
    while k < result.issues.len()
        invariant
            k <= result.issues@.len(),
            issues@.len() == k,
            forall|q: int|
                0 <= q < k ==> {
                    let a = #[trigger] issues@[q];
                    let b = result.issues@[q];
                    &&& a.key == b.key
                    &&& a.summary == b.summary
                    &&& a.status == b.status
                    &&& a.status_category == b.status_category
                    &&& a.assignee == b.assignee
                    &&& a.priority == b.priority
                    &&& a.updated == b.updated
                },
        decreases result.issues@.len() - k,
    {
        let b = &result.issues[k];
        issues.push(
            crate::chat::JiraIssueSummary {
                key: b.key.clone(),
                summary: b.summary.clone(),
                status: b.status.clone(),
                status_category: b.status_category.clone(),
                assignee: clone_opt_string(&b.assignee),
                priority: b.priority.clone(),
                updated: b.updated.clone(),
            },
        );
        k = k + 1;
    }
    crate::chat::JiraListResponse { issues, total: result.total, jql }
}

/// The issue details cache file of an issue key: `/` and `\\` replaced by
/// `_`, then `.json`, in the issue details directory.
pub fn get_issue_details_cache_path(details_dir: &str, key: &str, separator: char) -> (r: String)
    ensures
        r@ == crate::text::joined_path(
            details_dir@,
            crate::text::replace_all(crate::text::replace_all(key@, "/"@, "_"@), "\\"@, "_"@)
                + ".json"@,
            separator,
        ),
{
    let a = crate::text::replace_str(key, "/", "_");
    let b = crate::text::replace_str(a.as_str(), "\\", "_");
    let file = b.concat(".json");
    crate::text::join_path(details_dir, file.as_str(), separator)
}

/// The issues cache file in the config directory.
pub fn get_issues_cache_path(config_dir: &str, separator: char) -> (r: String)
    ensures
        r@ == crate::text::joined_path(config_dir@, "issues_cache.json"@, separator),
{
    crate::text::join_path(config_dir, "issues_cache.json", separator)
}

/// The issue details cache directory in the config directory.
pub fn get_issue_details_cache_dir(config_dir: &str, separator: char) -> (r: String)
    ensures
        r@ == crate::text::joined_path(config_dir@, "issue_details"@, separator),
{
    crate::text::join_path(config_dir, "issue_details", separator)
}

/// The in-memory cache of issue details, by issue key.
pub struct IssueCache {
    entries: Vec<(String, IssueDetails)>,
}

impl IssueCache {
    /// The cached details, by key.
    pub closed spec fn map(&self) -> Map<Seq<char>, IssueDetails> {
        keyed_map(self.entries@)
    }

    /// An empty cache.
    pub fn new() -> (r: IssueCache)
        ensures
            r.map() == Map::<Seq<char>, IssueDetails>::empty(),
    {
        let r = IssueCache { entries: Vec::new() };
        assert(r.map() =~= Map::<Seq<char>, IssueDetails>::empty());
        r
    }

    /// The cached details of an issue.
    pub fn get(&self, key: &str) -> (r: Option<&IssueDetails>)
        ensures
            match r {
                Some(d) => self.map().contains_key(key@) && self.map()[key@] == *d,
                None => !self.map().contains_key(key@),
            },
    {
        match find_key(&self.entries, key) {
            Some(i) => Some(&self.entries[i].1),
            None => None,
        }
    }

    /// Cache the details of an issue under its key, replacing earlier ones.
    pub fn insert(&mut self, key: String, details: IssueDetails)
        ensures
            final(self).map() == old(self).map().insert(key@, details),
    {
        let ghost k = key@;
        let mut old_entries = Vec::new();
        core::mem::swap(&mut old_entries, &mut self.entries);
        let ghost before = old_entries@;
        self.entries = put_keyed(old_entries, key, details);
        assert(keyed_map(self.entries@) =~= keyed_map(before).insert(k, details));
    }
}

/// What the cache answers after an insert: the inserted details for that
/// key, and for every other key what it answered before.
pub proof fn law_issue_cache_read_after_write(
    before: Map<Seq<char>, IssueDetails>,
    key: Seq<char>,
    details: IssueDetails,
    other: Seq<char>,
)
    ensures
        before.insert(key, details).contains_key(key) && before.insert(key, details)[key] == details,
        other != key ==> (before.insert(key, details).contains_key(other) == before.contains_key(other)),
        other != key && before.contains_key(other) ==> before.insert(key, details)[other] == before[other],
{
}

} // verus!
