//! What the local kanban endpoints compute: the API form of stored rows, issue search,
//! and the rows that create and update requests write.
use vstd::prelude::*;
use crate::json::{json_reading, read_json, str_eq};
use crate::kanban::{
    clone_opt, keep_unless_set, CreateKanbanIssue, CreateKanbanWorkspace, KanbanIssue,
    KanbanIssueAssignee, KanbanIssueComment, KanbanIssueCommentReaction, KanbanIssueFollower,
    KanbanIssueRelationship, KanbanIssueTag, KanbanOrganization, KanbanProject,
    KanbanProjectStatus, KanbanTag, KanbanWorkspace, Timestamp, UpdateKanbanIssue,
};
use crate::text::{contains, owned, seq_contains, to_lowercase, unicode_lowercase};

verus! {

// =============================================================================
// Trusted calls
// =============================================================================
/// The instant that `chrono::DateTime::parse_from_rfc3339` reads from a text, if any.
pub uninterp spec fn rfc3339_instant(text: Seq<char>) -> Option<Timestamp>;

/// `chrono::DateTime::parse_from_rfc3339`, taken as an instant (seconds and nanoseconds
/// since the epoch).
#[verifier::external_body]
fn parse_rfc3339(text: &str) -> (r: Option<Timestamp>)
    ensures
        r == rfc3339_instant(text@),
{
    chrono::DateTime::parse_from_rfc3339(text).ok().map(
        |d| Timestamp { secs: d.timestamp(), nanos: d.timestamp_subsec_nanos() },
    )
}

/// The text `chrono::DateTime::<Utc>::to_rfc3339` writes for an instant; `None` when
/// `chrono::DateTime::from_timestamp` has no date-time for it.
pub uninterp spec fn rfc3339_text(secs: i64, nanos: u32) -> Option<Seq<char>>;

/// An instant whose RFC 3339 text reads back as itself: its year is one of 0000 to 9999
/// (written with four digits), and its nanoseconds are below one second, or below two
/// seconds in the last second of a minute (a leap second, written as second 60).
pub open spec fn rfc3339_round_trips(t: Timestamp) -> bool {
    &&& -62167219200 <= t.secs <= 253402300799
    &&& (t.nanos < 1_000_000_000 || (t.nanos < 2_000_000_000 && t.secs % 60 == 59))
}

/// `chrono::DateTime::from_timestamp` followed by `to_rfc3339`. For an instant in the
/// years 0000 to 9999 whose nanoseconds `from_timestamp` accepts (below one second, or
/// below two in the 59th second of a minute), it gives a date-time, and `to_rfc3339`
/// writes the four-digit year, a leap second as second 60, the fraction in full and the
/// `+00:00` offset, which `parse_from_rfc3339` reads back as the instant.
#[verifier::external_body]
fn format_rfc3339(t: Timestamp) -> (r: Option<String>)
    ensures
        match r {
            Some(s) => rfc3339_text(t.secs, t.nanos) == Some(s@),
            None => rfc3339_text(t.secs, t.nanos) is None,
        },
        rfc3339_round_trips(t) ==> r is Some && rfc3339_instant(r->0@) == Some(t),
{
    chrono::DateTime::from_timestamp(t.secs, t.nanos).map(|d| d.to_rfc3339())
}

/// The UUID (as its 128-bit value) that `uuid::Uuid::parse_str` reads from a text, if any.
pub uninterp spec fn uuid_parse(text: Seq<char>) -> Option<u128>;

/// `uuid::Uuid::parse_str`, taken as the UUID's 128-bit value.
#[verifier::external_body]
fn parse_uuid(text: &str) -> (r: Option<u128>)
    ensures
        r == uuid_parse(text@),
{
    uuid::Uuid::parse_str(text).ok().map(|u| u.as_u128())
}

/// The UUID a text holds, or `fallback` when it holds none.
pub fn parse_uuid_or(text: &str, fallback: u128) -> (r: u128)
    ensures
        r == (match uuid_parse(text@) {
            Some(u) => u,
            None => fallback,
        }),
{
    match parse_uuid(text) {
        Some(u) => u,
        None => fallback,
    }
}

// =============================================================================
// API types
// =============================================================================
pub enum IssuePriority {
    Urgent,
    High,
    Medium,
    Low,
}

pub enum IssueRelationshipType {
    Blocking,
    HasDuplicate,
    Related,
}

/// The role a user has in an organization; the local store makes everyone an admin.
pub enum MemberRole {
    Admin,
}

pub struct Project {
    pub id: u128,
    pub organization_id: u128,
    pub name: String,
    pub color: String,
    pub sort_order: i32,
    pub created_at: Timestamp,
    pub updated_at: Timestamp,
}

/// An issue as the API shows it. `sort_order` and `parent_issue_sort_order` are the
/// stored integers (the API carries them as floating-point numbers) and
/// `extension_metadata` is JSON text.
pub struct Issue {
    pub id: u128,
    pub project_id: u128,
    pub issue_number: i32,
    pub simple_id: String,
    pub status_id: u128,
    pub title: String,
    pub description: Option<String>,
    pub priority: Option<IssuePriority>,
    pub start_date: Option<Timestamp>,
    pub target_date: Option<Timestamp>,
    pub completed_at: Option<Timestamp>,
    pub sort_order: i64,
    pub parent_issue_id: Option<u128>,
    pub parent_issue_sort_order: Option<i64>,
    pub extension_metadata: String,
    pub creator_user_id: Option<u128>,
    pub created_at: Timestamp,
    pub updated_at: Timestamp,
}

pub struct ProjectStatus {
    pub id: u128,
    pub project_id: u128,
    pub name: String,
    pub color: String,
    pub sort_order: i32,
    pub hidden: bool,
    pub created_at: Timestamp,
}

pub struct Tag {
    pub id: u128,
    pub project_id: u128,
    pub name: String,
    pub color: String,
}

pub struct IssueAssignee {
    pub id: u128,
    pub issue_id: u128,
    pub user_id: u128,
    pub assigned_at: Timestamp,
}

pub struct IssueTag {
    pub id: u128,
    pub issue_id: u128,
    pub tag_id: u128,
}

pub struct IssueRelationship {
    pub id: u128,
    pub issue_id: u128,
    pub related_issue_id: u128,
    pub relationship_type: IssueRelationshipType,
    pub created_at: Timestamp,
}

pub struct Workspace {
    pub id: u128,
    pub project_id: u128,
    pub owner_user_id: u128,
    pub issue_id: Option<u128>,
    pub local_workspace_id: Option<u128>,
    pub name: Option<String>,
    pub archived: bool,
    pub files_changed: Option<i32>,
    pub lines_added: Option<i32>,
    pub lines_removed: Option<i32>,
    pub created_at: Timestamp,
    pub updated_at: Timestamp,
}

pub struct IssueComment {
    pub id: u128,
    pub issue_id: u128,
    pub author_id: Option<u128>,
    pub parent_id: Option<u128>,
    pub message: String,
    pub created_at: Timestamp,
    pub updated_at: Timestamp,
}

pub struct IssueCommentReaction {
    pub id: u128,
    pub comment_id: u128,
    pub user_id: u128,
    pub emoji: String,
    pub created_at: Timestamp,
}

pub struct IssueFollower {
    pub id: u128,
    pub issue_id: u128,
    pub user_id: u128,
}

pub struct Organization {
    pub id: u128,
    pub name: String,
    pub slug: String,
    pub is_personal: bool,
    pub issue_prefix: String,
    pub created_at: Timestamp,
    pub updated_at: Timestamp,
}

pub struct OrganizationWithRole {
    pub id: u128,
    pub name: String,
    pub slug: String,
    pub is_personal: bool,
    pub issue_prefix: String,
    pub created_at: Timestamp,
    pub updated_at: Timestamp,
    pub user_role: MemberRole,
}

pub struct ListIssuesResponse {
    pub issues: Vec<Issue>,
    pub total_count: usize,
    pub limit: usize,
    pub offset: usize,
}

/// The filters of an issue search; each given filter must hold.
pub struct SearchIssuesRequest {
    pub project_id: u128,
    pub status_id: Option<u128>,
    pub status_ids: Option<Vec<u128>>,
    pub priority: Option<IssuePriority>,
    pub search: Option<String>,
    pub simple_id: Option<String>,
    pub parent_issue_id: Option<u128>,
}

/// A request to create an issue. `sort_order` and `parent_issue_sort_order` are the
/// requested numbers cast to integers; `extension_metadata` is JSON text.
pub struct CreateIssueRequest {
    pub project_id: u128,
    pub status_id: u128,
    pub title: String,
    pub description: Option<String>,
    pub priority: Option<IssuePriority>,
    pub start_date: Option<Timestamp>,
    pub target_date: Option<Timestamp>,
    pub completed_at: Option<Timestamp>,
    pub sort_order: i64,
    pub parent_issue_id: Option<u128>,
    pub parent_issue_sort_order: Option<i64>,
    pub extension_metadata: String,
}

/// A request to update an issue, in the same shape as its stored update.
pub struct UpdateIssueRequest {
    pub status_id: Option<u128>,
    pub title: Option<String>,
    pub description: Option<Option<String>>,
    pub priority: Option<Option<IssuePriority>>,
    pub start_date: Option<Option<Timestamp>>,
    pub target_date: Option<Option<Timestamp>>,
    pub completed_at: Option<Option<Timestamp>>,
    pub sort_order: Option<i64>,
    pub parent_issue_id: Option<Option<u128>>,
    pub parent_issue_sort_order: Option<Option<i64>>,
    pub extension_metadata: Option<String>,
}

pub struct UpdateProjectStatusRequest {
    pub name: Option<String>,
    pub color: Option<String>,
    pub sort_order: Option<i32>,
    pub hidden: Option<bool>,
}

pub struct UpdateTagRequest {
    pub name: Option<String>,
    pub color: Option<String>,
}

pub struct UpdateIssueCommentRequest {
    pub message: Option<String>,
    pub parent_id: Option<Option<u128>>,
}

pub struct UpdateIssueCommentReactionRequest {
    pub emoji: Option<String>,
}

/// The state of a pull request as stored locally.
pub enum MergeStatus {
    Open,
    Merged,
    Closed,
    Unknown,
}

/// The state of a pull request as the remote service knows it.
pub enum PullRequestStatus {
    Open,
    Merged,
    Closed,
}

// =============================================================================
// Priorities and relationship types
// =============================================================================
/// The stored text of a priority.
pub open spec fn priority_text(p: IssuePriority) -> Seq<char> {
    match p {
        IssuePriority::Urgent => "urgent"@,
        IssuePriority::High => "high"@,
        IssuePriority::Medium => "medium"@,
        IssuePriority::Low => "low"@,
    }
}

/// The priority a stored text names, if any.
pub open spec fn priority_of_text(t: Seq<char>) -> Option<IssuePriority> {
    if t == "urgent"@ {
        Some(IssuePriority::Urgent)
    } else if t == "high"@ {
        Some(IssuePriority::High)
    } else if t == "medium"@ {
        Some(IssuePriority::Medium)
    } else if t == "low"@ {
        Some(IssuePriority::Low)
    } else {
        None
    }
}

/// The stored text of a priority.
pub fn api_priority_to_string(p: &IssuePriority) -> (r: String)
    ensures
        r@ == priority_text(*p),
{
    match p {
        IssuePriority::Urgent => owned("urgent"),
        IssuePriority::High => owned("high"),
        IssuePriority::Medium => owned("medium"),
        IssuePriority::Low => owned("low"),
    }
}

/// The priority of a stored issue: its text when it names one, else none.
pub fn priority_from_string(t: &Option<String>) -> (r: Option<IssuePriority>)
    ensures
        r == (match *t {
            Some(s) => priority_of_text(s@),
            None => None,
        }),
{
    match t {
        Some(s) => {
            let s = s.as_str();
            if str_eq(s, "urgent") {
                Some(IssuePriority::Urgent)
            } else if str_eq(s, "high") {
                Some(IssuePriority::High)
            } else if str_eq(s, "medium") {
                Some(IssuePriority::Medium)
            } else if str_eq(s, "low") {
                Some(IssuePriority::Low)
            } else {
                None
            }
        },
        None => None,
    }
}

/// Storing a priority and reading it back gives the same priority.
pub proof fn law_priority_round_trip(p: IssuePriority)
    ensures
        priority_of_text(priority_text(p)) == Some(p),
{
    reveal_strlit("urgent");
    reveal_strlit("high");
    reveal_strlit("medium");
    reveal_strlit("low");
    assert("high"@.len() != "urgent"@.len());
    assert("medium"@[0] != "urgent"@[0]);
    assert("medium"@.len() != "high"@.len());
    assert("low"@.len() != "urgent"@.len());
    assert("low"@.len() != "high"@.len());
    assert("low"@.len() != "medium"@.len());
}

/// The stored text of a relationship type.
pub open spec fn relationship_text(t: IssueRelationshipType) -> Seq<char> {
    match t {
        IssueRelationshipType::Blocking => "blocking"@,
        IssueRelationshipType::HasDuplicate => "has_duplicate"@,
        IssueRelationshipType::Related => "related"@,
    }
}

/// The relationship type a stored text names; any unknown text reads as `Related`.
pub open spec fn relationship_of_text(t: Seq<char>) -> IssueRelationshipType {
    if t == "blocking"@ {
        IssueRelationshipType::Blocking
    } else if t == "has_duplicate"@ {
        IssueRelationshipType::HasDuplicate
    } else {
        IssueRelationshipType::Related
    }
}

/// The stored text of a relationship type.
pub fn relationship_type_to_string(t: &IssueRelationshipType) -> (r: String)
    ensures
        r@ == relationship_text(*t),
{
    match t {
        IssueRelationshipType::Blocking => owned("blocking"),
        IssueRelationshipType::HasDuplicate => owned("has_duplicate"),
        IssueRelationshipType::Related => owned("related"),
    }
}

/// The relationship type of a stored text.
pub fn relationship_type_from_string(t: &str) -> (r: IssueRelationshipType)
    ensures
        r == relationship_of_text(t@),
{
    if str_eq(t, "blocking") {
        IssueRelationshipType::Blocking
    } else if str_eq(t, "has_duplicate") {
        IssueRelationshipType::HasDuplicate
    } else {
        IssueRelationshipType::Related
    }
}

/// Storing a relationship type and reading it back gives the same type.
pub proof fn law_relationship_round_trip(t: IssueRelationshipType)
    ensures
        relationship_of_text(relationship_text(t)) == t,
{
    reveal_strlit("blocking");
    reveal_strlit("has_duplicate");
    reveal_strlit("related");
    assert("has_duplicate"@.len() != "blocking"@.len());
    assert("related"@.len() != "blocking"@.len());
    assert("related"@.len() != "has_duplicate"@.len());
}

/// The remote state of a pull request; `None` for one whose local state is unknown.
pub fn pr_status_for(m: &MergeStatus) -> (r: Option<PullRequestStatus>)
    ensures
        r == (match *m {
            MergeStatus::Open => Some(PullRequestStatus::Open),
            MergeStatus::Merged => Some(PullRequestStatus::Merged),
            MergeStatus::Closed => Some(PullRequestStatus::Closed),
            MergeStatus::Unknown => None,
        }),
{
    match m {
        MergeStatus::Open => Some(PullRequestStatus::Open),
        MergeStatus::Merged => Some(PullRequestStatus::Merged),
        MergeStatus::Closed => Some(PullRequestStatus::Closed),
        MergeStatus::Unknown => None,
    }
}

// =============================================================================
// Stored rows in API form
// =============================================================================
pub fn db_to_api_project(p: KanbanProject) -> (r: Project)
    ensures
        r == (Project {
            id: p.id,
            organization_id: p.organization_id,
            name: p.name,
            color: p.color,
            sort_order: p.sort_order as i32,
            created_at: p.created_at,
            updated_at: p.updated_at,
        }),
{
    Project {
        id: p.id,
        organization_id: p.organization_id,
        name: p.name,
        color: p.color,
        sort_order: p.sort_order as i32,
        created_at: p.created_at,
        updated_at: p.updated_at,
    }
}

/// The instant a stored date text holds, if it is RFC 3339.
pub open spec fn parsed_date(d: Option<String>) -> Option<Timestamp> {
    match d {
        Some(s) => rfc3339_instant(s@),
        None => None,
    }
}

fn parse_dt(d: &Option<String>) -> (r: Option<Timestamp>)
    ensures
        r == parsed_date(*d),
{
    match d {
        Some(s) => parse_rfc3339(s.as_str()),
        None => None,
    }
}

/// The metadata text shown for a stored text: the text when it is JSON, `{}` otherwise.
pub open spec fn shown_metadata(text: Seq<char>) -> Seq<char> {
    if json_reading(text) is Some {
        text
    } else {
        "{}"@
    }
}

/// `r` is the API form of the stored issue `i`: its priority text read as a priority,
/// its date texts read as instants, a missing number as 0, a missing simple id as empty,
/// metadata that is not JSON as `{}`, and every other field as stored.
pub open spec fn is_api_issue(r: Issue, i: KanbanIssue) -> bool {
    &&& r.id == i.id
    &&& r.project_id == i.project_id
    &&& r.issue_number == (match i.issue_number {
        Some(n) => n,
        None => 0i64,
    }) as i32
    &&& r.simple_id@ == (match i.simple_id {
        Some(s) => s@,
        None => Seq::<char>::empty(),
    })
    &&& r.status_id == i.status_id
    &&& r.title == i.title
    &&& r.description == i.description
    &&& r.priority == (match i.priority {
        Some(s) => priority_of_text(s@),
        None => None,
    })
    &&& r.start_date == parsed_date(i.start_date)
    &&& r.target_date == parsed_date(i.target_date)
    &&& r.completed_at == parsed_date(i.completed_at)
    &&& r.sort_order == i.sort_order
    &&& r.parent_issue_id == i.parent_issue_id
    &&& r.parent_issue_sort_order == i.parent_issue_sort_order
    &&& r.extension_metadata@ == shown_metadata(i.extension_metadata@)
    &&& r.creator_user_id == i.creator_user_id
    &&& r.created_at == i.created_at
    &&& r.updated_at == i.updated_at
}

/// A stored issue in API form: its priority text read as a priority, its date texts
/// read as instants, a missing number as 0, a missing simple id as empty, and metadata
/// that is not JSON as `{}`.
pub fn db_to_api_issue(i: KanbanIssue) -> (r: Issue)
    ensures
        is_api_issue(r, i),
        r.id == i.id,
        r.project_id == i.project_id,
        r.issue_number == (match i.issue_number {
            Some(n) => n,
            None => 0i64,
        }) as i32,
        r.simple_id@ == (match i.simple_id {
            Some(s) => s@,
            None => Seq::<char>::empty(),
        }),
        r.status_id == i.status_id,
        r.title == i.title,
        r.description == i.description,
        r.priority == (match i.priority {
            Some(s) => priority_of_text(s@),
            None => None,
        }),
        r.start_date == parsed_date(i.start_date),
        r.target_date == parsed_date(i.target_date),
        r.completed_at == parsed_date(i.completed_at),
        r.sort_order == i.sort_order,
        r.parent_issue_id == i.parent_issue_id,
        r.parent_issue_sort_order == i.parent_issue_sort_order,
        r.extension_metadata@ == shown_metadata(i.extension_metadata@),
        r.creator_user_id == i.creator_user_id,
        r.created_at == i.created_at,
        r.updated_at == i.updated_at,
{
    let priority = priority_from_string(&i.priority);
    let start_date = parse_dt(&i.start_date);
    let target_date = parse_dt(&i.target_date);
    let completed_at = parse_dt(&i.completed_at);
    let extension_metadata = if read_json(i.extension_metadata.as_str()).is_some() {
        i.extension_metadata
    } else {
        owned("{}")
    };
    let issue_number: i64 = match i.issue_number {
        Some(n) => n,
        None => 0,
    };
    Issue {
        id: i.id,
        project_id: i.project_id,
        issue_number: issue_number as i32,
        simple_id: match i.simple_id {
            Some(s) => s,
            None => String::new(),
        },
        status_id: i.status_id,
        title: i.title,
        description: i.description,
        priority,
        start_date,
        target_date,
        completed_at,
        sort_order: i.sort_order,
        parent_issue_id: i.parent_issue_id,
        parent_issue_sort_order: i.parent_issue_sort_order,
        extension_metadata,
        creator_user_id: i.creator_user_id,
        created_at: i.created_at,
        updated_at: i.updated_at,
    }
}

pub fn db_to_api_status(s: KanbanProjectStatus) -> (r: ProjectStatus)
    ensures
        r == (ProjectStatus {
            id: s.id,
            project_id: s.project_id,
            name: s.name,
            color: s.color,
            sort_order: s.sort_order as i32,
            hidden: s.hidden,
            created_at: s.created_at,
        }),
{
    ProjectStatus {
        id: s.id,
        project_id: s.project_id,
        name: s.name,
        color: s.color,
        sort_order: s.sort_order as i32,
        hidden: s.hidden,
        created_at: s.created_at,
    }
}

pub fn db_to_api_tag(t: KanbanTag) -> (r: Tag)
    ensures
        r == (Tag { id: t.id, project_id: t.project_id, name: t.name, color: t.color }),
{
    Tag { id: t.id, project_id: t.project_id, name: t.name, color: t.color }
}

pub fn db_to_api_assignee(a: KanbanIssueAssignee) -> (r: IssueAssignee)
    ensures
        r == (IssueAssignee {
            id: a.id,
            issue_id: a.issue_id,
            user_id: a.user_id,
            assigned_at: a.assigned_at,
        }),
{
    IssueAssignee { id: a.id, issue_id: a.issue_id, user_id: a.user_id, assigned_at: a.assigned_at }
}

pub fn db_to_api_issue_tag(t: KanbanIssueTag) -> (r: IssueTag)
    ensures
        r == (IssueTag { id: t.id, issue_id: t.issue_id, tag_id: t.tag_id }),
{
    IssueTag { id: t.id, issue_id: t.issue_id, tag_id: t.tag_id }
}

/// A stored relationship in API form; an unknown type text reads as `Related`.
pub fn db_to_api_relationship(r: KanbanIssueRelationship) -> (a: IssueRelationship)
    ensures
        a == (IssueRelationship {
            id: r.id,
            issue_id: r.issue_id,
            related_issue_id: r.related_issue_id,
            relationship_type: relationship_of_text(r.relationship_type@),
            created_at: r.created_at,
        }),
{
    IssueRelationship {
        id: r.id,
        issue_id: r.issue_id,
        related_issue_id: r.related_issue_id,
        relationship_type: relationship_type_from_string(r.relationship_type.as_str()),
        created_at: r.created_at,
    }
}

/// An optional count narrowed to `i32`.
pub open spec fn narrow(v: Option<i64>) -> Option<i32> {
    match v {
        Some(x) => Some(x as i32),
        None => None,
    }
}

fn narrow_exec(v: Option<i64>) -> (r: Option<i32>)
    ensures
        r == narrow(v),
{
    match v {
        Some(x) => Some(x as i32),
        None => None,
    }
}

pub fn db_to_api_workspace(w: KanbanWorkspace) -> (r: Workspace)
    ensures
        r == (Workspace {
            id: w.id,
            project_id: w.project_id,
            owner_user_id: w.owner_user_id,
            issue_id: w.issue_id,
            local_workspace_id: w.local_workspace_id,
            name: w.name,
            archived: w.archived,
            files_changed: narrow(w.files_changed),
            lines_added: narrow(w.lines_added),
            lines_removed: narrow(w.lines_removed),
            created_at: w.created_at,
            updated_at: w.updated_at,
        }),
{
    Workspace {
        id: w.id,
        project_id: w.project_id,
        owner_user_id: w.owner_user_id,
        issue_id: w.issue_id,
        local_workspace_id: w.local_workspace_id,
        name: w.name,
        archived: w.archived,
        files_changed: narrow_exec(w.files_changed),
        lines_added: narrow_exec(w.lines_added),
        lines_removed: narrow_exec(w.lines_removed),
        created_at: w.created_at,
        updated_at: w.updated_at,
    }
}

pub fn db_to_api_comment(c: KanbanIssueComment) -> (r: IssueComment)
    ensures
        r == (IssueComment {
            id: c.id,
            issue_id: c.issue_id,
            author_id: c.author_id,
            parent_id: c.parent_id,
            message: c.message,
            created_at: c.created_at,
            updated_at: c.updated_at,
        }),
{
    IssueComment {
        id: c.id,
        issue_id: c.issue_id,
        author_id: c.author_id,
        parent_id: c.parent_id,
        message: c.message,
        created_at: c.created_at,
        updated_at: c.updated_at,
    }
}

pub fn db_to_api_reaction(r: KanbanIssueCommentReaction) -> (a: IssueCommentReaction)
    ensures
        a == (IssueCommentReaction {
            id: r.id,
            comment_id: r.comment_id,
            user_id: r.user_id,
            emoji: r.emoji,
            created_at: r.created_at,
        }),
{
    IssueCommentReaction {
        id: r.id,
        comment_id: r.comment_id,
        user_id: r.user_id,
        emoji: r.emoji,
        created_at: r.created_at,
    }
}

pub fn db_to_api_follower(f: KanbanIssueFollower) -> (r: IssueFollower)
    ensures
        r == (IssueFollower { id: f.id, issue_id: f.issue_id, user_id: f.user_id }),
{
    IssueFollower { id: f.id, issue_id: f.issue_id, user_id: f.user_id }
}

pub fn db_to_api_organization(o: KanbanOrganization) -> (r: Organization)
    ensures
        r == (Organization {
            id: o.id,
            name: o.name,
            slug: o.slug,
            is_personal: o.is_personal,
            issue_prefix: o.issue_prefix,
            created_at: o.created_at,
            updated_at: o.updated_at,
        }),
{
    Organization {
        id: o.id,
        name: o.name,
        slug: o.slug,
        is_personal: o.is_personal,
        issue_prefix: o.issue_prefix,
        created_at: o.created_at,
        updated_at: o.updated_at,
    }
}

/// An organization in API form, with the admin role every local user has.
pub fn db_to_api_organization_with_role(o: KanbanOrganization) -> (r: OrganizationWithRole)
    ensures
        r == (OrganizationWithRole {
            id: o.id,
            name: o.name,
            slug: o.slug,
            is_personal: o.is_personal,
            issue_prefix: o.issue_prefix,
            created_at: o.created_at,
            updated_at: o.updated_at,
            user_role: MemberRole::Admin,
        }),
{
    OrganizationWithRole {
        id: o.id,
        name: o.name,
        slug: o.slug,
        is_personal: o.is_personal,
        issue_prefix: o.issue_prefix,
        created_at: o.created_at,
        updated_at: o.updated_at,
        user_role: MemberRole::Admin,
    }
}

/// A list response that holds every issue: the count and the limit are the number of
/// issues, the offset is 0.
pub fn list_issues_response(issues: Vec<Issue>) -> (r: ListIssuesResponse)
    ensures
        r.issues == issues,
        r.total_count == issues@.len(),
        r.limit == issues@.len(),
        r.offset == 0,
{
    let n: usize = issues.len();
    ListIssuesResponse { issues, total_count: n, limit: n, offset: 0 }
}

// =============================================================================
// Issue search
// =============================================================================
/// Whether a stored issue passes every filter of a search.
pub open spec fn issue_matches(r: KanbanIssue, q: SearchIssuesRequest) -> bool {
    &&& (q.status_id matches Some(s) ==> r.status_id == s)
    &&& (q.status_ids matches Some(ids) ==> ids@.contains(r.status_id))
    &&& (q.priority matches Some(p) ==> (r.priority matches Some(rp) && rp@ == priority_text(p)))
    &&& (q.search matches Some(s) ==> seq_contains(unicode_lowercase(r.title@), unicode_lowercase(s@)))
    &&& (q.simple_id matches Some(sid) ==> (r.simple_id matches Some(x) && x@ == sid@))
    &&& (q.parent_issue_id matches Some(pid) ==> r.parent_issue_id == Some(pid))
}

fn ids_contain(ids: &Vec<u128>, id: u128) -> (r: bool)
    ensures
        r == ids@.contains(id),
{
    let mut i: usize = 0;
    while i < ids.len()
        invariant
            i <= ids.len(),
            forall|j: int| 0 <= j < i ==> ids@[j] != id,
        decreases ids.len() - i,
    {
        if ids[i] == id {
            assert(ids@[i as int] == id);
            return true;
        }
        i = i + 1;
    }
    false
}

fn matches_search(r: &KanbanIssue, q: &SearchIssuesRequest, lowered: &Option<String>) -> (b: bool)
    requires
        match q.search {
            Some(s) => lowered matches Some(l) && l@ == unicode_lowercase(s@),
            None => lowered is None,
        },
    ensures
        b == issue_matches(*r, *q),
{
    if let Some(s) = q.status_id {
        if r.status_id != s {
            return false;
        }
    }
    if let Some(ids) = &q.status_ids {
        if !ids_contain(ids, r.status_id) {
            return false;
        }
    }
    if let Some(p) = &q.priority {
        let want = api_priority_to_string(p);
        match &r.priority {
            Some(rp) => {
                if !(*rp == want) {
                    return false;
                }
            },
            None => {
                return false;
            },
        }
    }
    if let Some(l) = lowered {
        let title = to_lowercase(r.title.as_str());
        if !contains(title.as_str(), l.as_str()) {
            return false;
        }
    }
    if let Some(sid) = &q.simple_id {
        match &r.simple_id {
            Some(x) => {
                if !(*x == *sid) {
                    return false;
                }
            },
            None => {
                return false;
            },
        }
    }
    if let Some(pid) = q.parent_issue_id {
        match r.parent_issue_id {
            Some(x) => {
                if x != pid {
                    return false;
                }
            },
            None => {
                return false;
            },
        }
    }
    true
}

/// The stored issues that pass every filter of the search, in their stored order.
pub fn filter_issues(rows: Vec<KanbanIssue>, q: &SearchIssuesRequest) -> (r: Vec<KanbanIssue>)
    ensures
        r@ == rows@.filter(|x: KanbanIssue| issue_matches(x, *q)),
{
    let lowered = match &q.search {
        Some(s) => Some(to_lowercase(s.as_str())),
        None => None,
    };
    let ghost pred = |x: KanbanIssue| issue_matches(x, *q);
    let mut out: Vec<KanbanIssue> = Vec::new();
    let ghost all = rows@;
    let total: usize = rows.len();
    let mut rest = rows;
    let mut i: usize = 0;
    assert(all.take(0).filter(pred) =~= Seq::<KanbanIssue>::empty()) by {
        reveal_with_fuel(Seq::<_>::filter, 1);
    }
    assert(all.subrange(0, all.len() as int) =~= all);
    while rest.len() > 0
        invariant
            i + rest@.len() == all.len(),
            all.len() == total,
            rest@ == all.subrange(i as int, all.len() as int),
            out@ == all.take(i as int).filter(pred),
            pred == (|x: KanbanIssue| issue_matches(x, *q)),
            match q.search {
                Some(s) => lowered matches Some(l) && l@ == unicode_lowercase(s@),
                None => lowered is None,
            },
        decreases rest.len(),
    {
        let x = rest.remove(0);
        assert(x == all[i as int]);
        let keep = matches_search(&x, q, &lowered);
        proof {
            reveal_with_fuel(Seq::<_>::filter, 1);
            assert(all.take(i + 1).drop_last() =~= all.take(i as int));
            assert(all.take(i + 1).last() == x);
        }
        if keep {
            out.push(x);
        }
        assert(rest@ =~= all.subrange(i + 1, all.len() as int));
        i = i + 1;
    }
    assert(all.take(i as int) =~= all);
    out
}

/// The answer to a search over a project's stored issues: the issues that pass every
/// filter, in stored order and in API form, with count and limit their number and
/// offset 0.
pub fn search_issues(rows: Vec<KanbanIssue>, q: &SearchIssuesRequest) -> (r: ListIssuesResponse)
    ensures
        ({
            let kept = rows@.filter(|x: KanbanIssue| issue_matches(x, *q));
            &&& r.issues@.len() == kept.len()
            &&& forall|k: int| 0 <= k < kept.len() ==> is_api_issue(#[trigger] r.issues@[k], kept[k])
            &&& r.total_count == kept.len()
            &&& r.limit == kept.len()
            &&& r.offset == 0
        }),
{
    let kept = filter_issues(rows, q);
    let ghost kv = kept@;
    let total: usize = kept.len();
    let mut issues: Vec<Issue> = Vec::new();
    let mut rest = kept;
    let mut i: usize = 0;
    assert(kv.subrange(0, kv.len() as int) =~= kv);
    while rest.len() > 0
        invariant
            i + rest@.len() == kv.len(),
            kv.len() == total,
            rest@ == kv.subrange(i as int, kv.len() as int),
            issues@.len() == i,
            forall|k: int| 0 <= k < i ==> is_api_issue(#[trigger] issues@[k], kv[k]),
        decreases rest.len(),
    {
        let x = rest.remove(0);
        assert(x == kv[i as int]);
        let a = db_to_api_issue(x);
        issues.push(a);
        assert(rest@ =~= kv.subrange(i + 1, kv.len() as int));
        i = i + 1;
    }
    list_issues_response(issues)
}

/// Every issue a search returns passes each filter that the search gives: the status,
/// one of the statuses, the priority, a title containing the text (case folded), the
/// simple id, and the parent issue.
pub proof fn law_search_results_pass_every_filter(rows: Seq<KanbanIssue>, q: SearchIssuesRequest, k: int)
    requires
        0 <= k < rows.filter(|x: KanbanIssue| issue_matches(x, q)).len(),
    ensures
        ({
            let r = rows.filter(|x: KanbanIssue| issue_matches(x, q))[k];
            &&& q.status_id matches Some(s) ==> r.status_id == s
            &&& q.status_ids matches Some(ids) ==> ids@.contains(r.status_id)
            &&& q.priority matches Some(p) ==> (r.priority matches Some(t) && t@ == priority_text(p))
            &&& q.search matches Some(text) ==> seq_contains(
                unicode_lowercase(r.title@),
                unicode_lowercase(text@),
            )
            &&& q.simple_id matches Some(sid) ==> (r.simple_id matches Some(x) && x@ == sid@)
            &&& q.parent_issue_id matches Some(p) ==> r.parent_issue_id == Some(p)
        }),
{
    rows.lemma_filter_pred(|x: KanbanIssue| issue_matches(x, q), k);
}

/// A stored issue that passes every filter the search gives is among the results.
pub proof fn law_search_keeps_every_passing_issue(rows: Seq<KanbanIssue>, q: SearchIssuesRequest, i: int)
    requires
        0 <= i < rows.len(),
        q.status_id matches Some(s) ==> rows[i].status_id == s,
        q.status_ids matches Some(ids) ==> ids@.contains(rows[i].status_id),
        q.priority matches Some(p) ==> (rows[i].priority matches Some(t) && t@ == priority_text(p)),
        q.search matches Some(text) ==> seq_contains(
            unicode_lowercase(rows[i].title@),
            unicode_lowercase(text@),
        ),
        q.simple_id matches Some(sid) ==> (rows[i].simple_id matches Some(x) && x@ == sid@),
        q.parent_issue_id matches Some(p) ==> rows[i].parent_issue_id == Some(p),
    ensures
        rows.filter(|x: KanbanIssue| issue_matches(x, q)).contains(rows[i]),
{
    rows.lemma_filter_contains(|x: KanbanIssue| issue_matches(x, q), i);
}

// =============================================================================
// Requests to stored rows
// =============================================================================
/// The stored text of an optional instant (`None` when it is absent or has no
/// RFC 3339 text).
pub open spec fn date_text(d: Option<Timestamp>) -> Option<Seq<char>> {
    match d {
        Some(t) => rfc3339_text(t.secs, t.nanos),
        None => None,
    }
}

pub open spec fn opt_str_view(s: Option<String>) -> Option<Seq<char>> {
    match s {
        Some(x) => Some(x@),
        None => None,
    }
}

fn dt_to_string(d: Option<Timestamp>) -> (r: Option<String>)
    ensures
        opt_str_view(r) == date_text(d),
        d matches Some(t) ==> rfc3339_round_trips(t) ==> parsed_date(r) == Some(t),
{
    match d {
        Some(t) => format_rfc3339(t),
        None => None,
    }
}

fn priority_to_stored(p: &Option<IssuePriority>) -> (r: Option<String>)
    ensures
        opt_str_view(r) == (match *p {
            Some(x) => Some(priority_text(x)),
            None => None,
        }),
{
    match p {
        Some(x) => Some(api_priority_to_string(x)),
        None => None,
    }
}

/// The stored fields of a new issue: priorities and dates as their texts, the sort
/// order and metadata as given, and no creator.
pub fn create_issue_data(req: CreateIssueRequest) -> (r: CreateKanbanIssue)
    ensures
        r.project_id == req.project_id,
        r.status_id == req.status_id,
        r.title == req.title,
        r.description == req.description,
        opt_str_view(r.priority) == (match req.priority {
            Some(x) => Some(priority_text(x)),
            None => None,
        }),
        opt_str_view(r.start_date) == date_text(req.start_date),
        opt_str_view(r.target_date) == date_text(req.target_date),
        opt_str_view(r.completed_at) == date_text(req.completed_at),
        r.sort_order == Some(req.sort_order),
        r.parent_issue_id == req.parent_issue_id,
        r.parent_issue_sort_order == req.parent_issue_sort_order,
        r.extension_metadata == Some(req.extension_metadata),
        r.creator_user_id is None,
        req.start_date matches Some(t) ==> rfc3339_round_trips(t) ==> parsed_date(r.start_date) == Some(t),
        req.target_date matches Some(t) ==> rfc3339_round_trips(t) ==> parsed_date(r.target_date)
            == Some(t),
        req.completed_at matches Some(t) ==> rfc3339_round_trips(t) ==> parsed_date(r.completed_at)
            == Some(t),
{
    let priority = priority_to_stored(&req.priority);
    CreateKanbanIssue {
        project_id: req.project_id,
        status_id: req.status_id,
        title: req.title,
        description: req.description,
        priority,
        start_date: dt_to_string(req.start_date),
        target_date: dt_to_string(req.target_date),
        completed_at: dt_to_string(req.completed_at),
        sort_order: Some(req.sort_order),
        parent_issue_id: req.parent_issue_id,
        parent_issue_sort_order: req.parent_issue_sort_order,
        extension_metadata: Some(req.extension_metadata),
        creator_user_id: None,
    }
}

/// The stored form of a nullable patch field.
pub open spec fn patch_view(p: Option<Option<String>>) -> Option<Option<Seq<char>>> {
    match p {
        Some(Some(x)) => Some(Some(x@)),
        Some(None) => Some(None),
        None => None,
    }
}

/// A date patch, read back: the instant each stored text holds.
pub open spec fn parsed_patch(p: Option<Option<String>>) -> Option<Option<Timestamp>> {
    match p {
        Some(d) => Some(parsed_date(d)),
        None => None,
    }
}

fn date_patch(p: Option<Option<Timestamp>>) -> (r: Option<Option<String>>)
    ensures
        patch_view(r) == (match p {
            Some(d) => Some(date_text(d)),
            None => None,
        }),
        p matches Some(Some(t)) ==> rfc3339_round_trips(t) ==> parsed_patch(r) == Some(Some(t)),
{
    match p {
        Some(d) => Some(dt_to_string(d)),
        None => None,
    }
}

/// The stored update of an issue update request: priorities and dates as their texts,
/// every other field as given.
pub fn update_issue_data(req: UpdateIssueRequest) -> (r: UpdateKanbanIssue)
    ensures
        r.status_id == req.status_id,
        r.title == req.title,
        r.description == req.description,
        patch_view(r.priority) == (match req.priority {
            Some(Some(x)) => Some(Some(priority_text(x))),
            Some(None) => Some(None),
            None => None,
        }),
        patch_view(r.start_date) == (match req.start_date {
            Some(d) => Some(date_text(d)),
            None => None,
        }),
        patch_view(r.target_date) == (match req.target_date {
            Some(d) => Some(date_text(d)),
            None => None,
        }),
        patch_view(r.completed_at) == (match req.completed_at {
            Some(d) => Some(date_text(d)),
            None => None,
        }),
        r.sort_order == req.sort_order,
        r.parent_issue_id == req.parent_issue_id,
        r.parent_issue_sort_order == req.parent_issue_sort_order,
        r.extension_metadata == req.extension_metadata,
        req.start_date matches Some(Some(t)) ==> rfc3339_round_trips(t) ==> parsed_patch(r.start_date)
            == Some(Some(t)),
        req.target_date matches Some(Some(t)) ==> rfc3339_round_trips(t) ==> parsed_patch(
            r.target_date,
        ) == Some(Some(t)),
        req.completed_at matches Some(Some(t)) ==> rfc3339_round_trips(t) ==> parsed_patch(
            r.completed_at,
        ) == Some(Some(t)),
{
    let priority = match &req.priority {
        Some(p) => Some(priority_to_stored(p)),
        None => None,
    };
    UpdateKanbanIssue {
        status_id: req.status_id,
        title: req.title,
        description: req.description,
        priority,
        start_date: date_patch(req.start_date),
        target_date: date_patch(req.target_date),
        completed_at: date_patch(req.completed_at),
        sort_order: req.sort_order,
        parent_issue_id: req.parent_issue_id,
        parent_issue_sort_order: req.parent_issue_sort_order,
        extension_metadata: req.extension_metadata,
    }
}

/// The status after an update: given fields replace stored ones; a missing sort order
/// keeps the stored one narrowed to `i32`.
pub fn update_project_status_values(existing: &KanbanProjectStatus, req: &UpdateProjectStatusRequest) -> (r: KanbanProjectStatus)
    ensures
        r.id == existing.id,
        r.project_id == existing.project_id,
        r.name == (match req.name {
            Some(n) => n,
            None => existing.name,
        }),
        r.color == (match req.color {
            Some(c) => c,
            None => existing.color,
        }),
        r.sort_order == (match req.sort_order {
            Some(s) => s,
            None => existing.sort_order as i32,
        }) as i64,
        r.hidden == (match req.hidden {
            Some(h) => h,
            None => existing.hidden,
        }),
        r.created_at == existing.created_at,
{
    let sort_order: i32 = match req.sort_order {
        Some(s) => s,
        None => existing.sort_order as i32,
    };
    KanbanProjectStatus {
        id: existing.id,
        project_id: existing.project_id,
        name: match &req.name {
            Some(n) => n.clone(),
            None => existing.name.clone(),
        },
        color: match &req.color {
            Some(c) => c.clone(),
            None => existing.color.clone(),
        },
        sort_order: sort_order as i64,
        hidden: match req.hidden {
            Some(h) => h,
            None => existing.hidden,
        },
        created_at: existing.created_at,
    }
}

/// The tag after an update: given fields replace stored ones.
pub fn update_tag_values(existing: &KanbanTag, req: &UpdateTagRequest) -> (r: KanbanTag)
    ensures
        r == (KanbanTag {
            name: match req.name {
                Some(n) => n,
                None => existing.name,
            },
            color: match req.color {
                Some(c) => c,
                None => existing.color,
            },
            ..*existing
        }),
{
    KanbanTag {
        id: existing.id,
        project_id: existing.project_id,
        name: match &req.name {
            Some(n) => n.clone(),
            None => existing.name.clone(),
        },
        color: match &req.color {
            Some(c) => c.clone(),
            None => existing.color.clone(),
        },
    }
}

/// The reaction after an update: a given emoji replaces the stored one.
pub fn update_reaction_values(existing: &KanbanIssueCommentReaction, req: &UpdateIssueCommentReactionRequest) -> (r: KanbanIssueCommentReaction)
    ensures
        r == (KanbanIssueCommentReaction {
            emoji: match req.emoji {
                Some(e) => e,
                None => existing.emoji,
            },
            ..*existing
        }),
{
    KanbanIssueCommentReaction {
        id: existing.id,
        comment_id: existing.comment_id,
        user_id: existing.user_id,
        emoji: match &req.emoji {
            Some(e) => e.clone(),
            None => existing.emoji.clone(),
        },
        created_at: existing.created_at,
    }
}

/// The comment after an update at time `now`: a given message replaces the stored one,
/// a given parent replaces the stored one (a null parent keeps it), and the update time
/// becomes `now`.
pub fn update_comment_values(existing: &KanbanIssueComment, req: &UpdateIssueCommentRequest, now: Timestamp) -> (r: KanbanIssueComment)
    ensures
        r == (KanbanIssueComment {
            message: match req.message {
                Some(m) => m,
                None => existing.message,
            },
            parent_id: keep_unless_set(req.parent_id, existing.parent_id),
            updated_at: now,
            ..*existing
        }),
{
    KanbanIssueComment {
        id: existing.id,
        issue_id: existing.issue_id,
        author_id: existing.author_id,
        parent_id: match req.parent_id {
            Some(Some(p)) => Some(p),
            _ => existing.parent_id,
        },
        message: match &req.message {
            Some(m) => m.clone(),
            None => existing.message.clone(),
        },
        created_at: existing.created_at,
        updated_at: now,
    }
}

/// The link a workspace gets to an issue: owned by the user whose id text is given
/// (the nil id when it is no UUID), not archived unless the workspace is, with no
/// change counts.
pub fn link_workspace_record(
    user_id: &str,
    project_id: u128,
    issue_id: u128,
    workspace_id: u128,
    name: &Option<String>,
    archived: bool,
) -> (r: CreateKanbanWorkspace)
    ensures
        r == (CreateKanbanWorkspace {
            project_id,
            owner_user_id: match uuid_parse(user_id@) {
                Some(u) => u,
                None => 0u128,
            },
            issue_id: Some(issue_id),
            local_workspace_id: Some(workspace_id),
            name: *name,
            archived,
            files_changed: None,
            lines_added: None,
            lines_removed: None,
        }),
{
    CreateKanbanWorkspace {
        project_id,
        owner_user_id: parse_uuid_or(user_id, 0),
        issue_id: Some(issue_id),
        local_workspace_id: Some(workspace_id),
        name: clone_opt(name),
        archived,
        files_changed: None,
        lines_added: None,
        lines_removed: None,
    }
}

} // verus!
