//! The rows of the local kanban store, and the values that creating and updating them
//! write. Ids are the 128-bit values of UUIDs; times are instants since the Unix epoch.
use vstd::prelude::*;
use crate::text::owned;

verus! {

/// An instant: whole seconds since the Unix epoch and the nanoseconds past them.
#[derive(Clone, Copy)]
pub struct Timestamp {
    pub secs: i64,
    pub nanos: u32,
}

/// The colour given to rows created without one.
pub open spec fn default_color() -> Seq<char> {
    "#6366f1"@
}

/// The colour a row is created with: the given one, or the default.
pub open spec fn color_or_default(c: Option<String>) -> Seq<char> {
    match c {
        Some(x) => x@,
        None => default_color(),
    }
}

/// A copy of an optional string.
pub fn clone_opt(s: &Option<String>) -> (r: Option<String>)
    ensures
        r == *s,
{
    match s {
        Some(x) => Some(x.clone()),
        None => None,
    }
}

fn resolve_color(c: &Option<String>) -> (r: String)
    ensures
        r@ == color_or_default(*c),
{
    match c {
        Some(x) => x.clone(),
        None => owned("#6366f1"),
    }
}

// =============================================================================
// Organizations
// =============================================================================
pub struct KanbanOrganization {
    pub id: u128,
    pub name: String,
    pub slug: String,
    pub is_personal: bool,
    pub issue_prefix: String,
    pub color: String,
    pub sort_order: i64,
    pub created_at: Timestamp,
    pub updated_at: Timestamp,
}

pub struct CreateKanbanOrganization {
    pub name: String,
    pub color: Option<String>,
}

impl CreateKanbanOrganization {
    /// The colour the organization is created with.
    pub fn insert_color(&self) -> (r: String)
        ensures
            r@ == color_or_default(self.color),
    {
        resolve_color(&self.color)
    }
}

/// The organization seeded into an empty store.
pub struct SeedOrganization {
    pub name: String,
    pub slug: String,
    pub is_personal: bool,
    pub issue_prefix: String,
    pub color: String,
    pub sort_order: i64,
}

impl KanbanOrganization {
    /// Whether the default organization must be seeded, given how many there are.
    pub fn needs_seed(count: i64) -> (r: bool)
        ensures
            r == (count == 0),
    {
        count == 0
    }

    /// The default organization: "Local", slug "local", personal, prefix "LOC".
    pub fn seed_default() -> (r: SeedOrganization)
        ensures
            r.name@ == "Local"@,
            r.slug@ == "local"@,
            r.is_personal,
            r.issue_prefix@ == "LOC"@,
            r.color@ == default_color(),
            r.sort_order == 0,
    {
        SeedOrganization {
            name: owned("Local"),
            slug: owned("local"),
            is_personal: true,
            issue_prefix: owned("LOC"),
            color: owned("#6366f1"),
            sort_order: 0,
        }
    }
}

/// The default organization's values: "Local", slug "local", personal, prefix "LOC",
/// the default colour, sort order 0.
pub open spec fn is_default_organization(o: SeedOrganization) -> bool {
    &&& o.name@ == "Local"@
    &&& o.slug@ == "local"@
    &&& o.is_personal
    &&& o.issue_prefix@ == "LOC"@
    &&& o.color@ == default_color()
    &&& o.sort_order == 0
}

/// How many organizations there are after seeding, given how many there were.
pub open spec fn count_after_seeding(count: int) -> int {
    if count == 0 {
        1
    } else {
        count
    }
}

/// The organization that seeding writes, given how many organizations are stored: the
/// default one when there are none, nothing otherwise.
pub fn seed_for_count(count: i64) -> (r: Option<SeedOrganization>)
    ensures
        r is Some <==> count == 0,
        r matches Some(o) ==> is_default_organization(o),
{
    if KanbanOrganization::needs_seed(count) {
        Some(KanbanOrganization::seed_default())
    } else {
        None
    }
}

/// Seeding a second time changes nothing: once seeded, a store holds an organization,
/// so seeding again writes no row.
pub proof fn law_seeding_twice_adds_nothing(count: int)
    requires
        count >= 0,
    ensures
        count_after_seeding(count) > 0,
        count_after_seeding(count_after_seeding(count)) == count_after_seeding(count),
{
}

// =============================================================================
// Projects
// =============================================================================
pub struct KanbanProject {
    pub id: u128,
    pub organization_id: u128,
    pub name: String,
    pub color: String,
    pub sort_order: i64,
    pub created_at: Timestamp,
    pub updated_at: Timestamp,
}

pub struct CreateKanbanProject {
    pub organization_id: u128,
    pub name: String,
    pub color: Option<String>,
}

pub struct UpdateKanbanProject {
    pub name: Option<String>,
    pub color: Option<String>,
    pub sort_order: Option<i64>,
}

impl CreateKanbanProject {
    /// The colour the project is created with.
    pub fn insert_color(&self) -> (r: String)
        ensures
            r@ == color_or_default(self.color),
    {
        resolve_color(&self.color)
    }
}

/// The project after an update: each given field replaces the stored one.
/// (`updated_at` is then set by the store.)
pub open spec fn project_after(p: KanbanProject, u: UpdateKanbanProject) -> KanbanProject {
    KanbanProject {
        name: match u.name {
            Some(n) => n,
            None => p.name,
        },
        color: match u.color {
            Some(c) => c,
            None => p.color,
        },
        sort_order: match u.sort_order {
            Some(s) => s,
            None => p.sort_order,
        },
        ..p
    }
}

impl KanbanProject {
    /// The row an update writes: given fields replace the stored ones.
    pub fn apply_update(&self, data: &UpdateKanbanProject) -> (r: KanbanProject)
        ensures
            r == project_after(*self, *data),
    {
        KanbanProject {
            id: self.id,
            organization_id: self.organization_id,
            name: match &data.name {
                Some(n) => n.clone(),
                None => self.name.clone(),
            },
            color: match &data.color {
                Some(c) => c.clone(),
                None => self.color.clone(),
            },
            sort_order: match data.sort_order {
                Some(s) => s,
                None => self.sort_order,
            },
            created_at: self.created_at,
            updated_at: self.updated_at,
        }
    }
}

// =============================================================================
// Project statuses
// =============================================================================
pub struct KanbanProjectStatus {
    pub id: u128,
    pub project_id: u128,
    pub name: String,
    pub color: String,
    pub sort_order: i64,
    pub hidden: bool,
    pub created_at: Timestamp,
}

pub struct CreateKanbanProjectStatus {
    pub project_id: u128,
    pub name: String,
    pub color: Option<String>,
    pub sort_order: i64,
    pub hidden: Option<bool>,
}

impl CreateKanbanProjectStatus {
    /// The colour the status is created with.
    pub fn insert_color(&self) -> (r: String)
        ensures
            r@ == color_or_default(self.color),
    {
        resolve_color(&self.color)
    }

    /// Whether the status is created hidden (not unless asked).
    pub fn insert_hidden(&self) -> (r: bool)
        ensures
            r == (self.hidden == Some(true)),
    {
        match self.hidden {
            Some(h) => h,
            None => false,
        }
    }
}

// =============================================================================
// Tags
// =============================================================================
pub struct KanbanTag {
    pub id: u128,
    pub project_id: u128,
    pub name: String,
    pub color: String,
}

pub struct CreateKanbanTag {
    pub project_id: u128,
    pub name: String,
    pub color: Option<String>,
}

impl CreateKanbanTag {
    /// The colour the tag is created with.
    pub fn insert_color(&self) -> (r: String)
        ensures
            r@ == color_or_default(self.color),
    {
        resolve_color(&self.color)
    }
}

// =============================================================================
// Issues
// =============================================================================
pub struct KanbanIssue {
    pub id: u128,
    pub project_id: u128,
    pub issue_number: Option<i64>,
    pub simple_id: Option<String>,
    pub status_id: u128,
    pub title: String,
    pub description: Option<String>,
    pub priority: Option<String>,
    pub start_date: Option<String>,
    pub target_date: Option<String>,
    pub completed_at: Option<String>,
    pub sort_order: i64,
    pub parent_issue_id: Option<u128>,
    pub parent_issue_sort_order: Option<i64>,
    /// The JSON text of the extension metadata.
    pub extension_metadata: String,
    pub creator_user_id: Option<u128>,
    pub created_at: Timestamp,
    pub updated_at: Timestamp,
}

/// The fields of a new issue. `extension_metadata` is JSON text.
pub struct CreateKanbanIssue {
    pub project_id: u128,
    pub status_id: u128,
    pub title: String,
    pub description: Option<String>,
    pub priority: Option<String>,
    pub start_date: Option<String>,
    pub target_date: Option<String>,
    pub completed_at: Option<String>,
    pub sort_order: Option<i64>,
    pub parent_issue_id: Option<u128>,
    pub parent_issue_sort_order: Option<i64>,
    pub extension_metadata: Option<String>,
    pub creator_user_id: Option<u128>,
}

/// The changes of an issue update. A field left `None` keeps its value, and so does a
/// nullable field given as `Some(None)`: an update never clears a field.
/// `extension_metadata` is JSON text.
pub struct UpdateKanbanIssue {
    pub status_id: Option<u128>,
    pub title: Option<String>,
    pub description: Option<Option<String>>,
    pub priority: Option<Option<String>>,
    pub start_date: Option<Option<String>>,
    pub target_date: Option<Option<String>>,
    pub completed_at: Option<Option<String>>,
    pub sort_order: Option<i64>,
    pub parent_issue_id: Option<Option<u128>>,
    pub parent_issue_sort_order: Option<Option<i64>>,
    pub extension_metadata: Option<String>,
}

impl CreateKanbanIssue {
    /// The sort order the issue is created with (0 unless given).
    pub fn insert_sort_order(&self) -> (r: i64)
        ensures
            r == (match self.sort_order {
                Some(s) => s,
                None => 0i64,
            }),
    {
        match self.sort_order {
            Some(s) => s,
            None => 0,
        }
    }

    /// The metadata text the issue is created with (`{}` unless given).
    pub fn insert_extension_metadata(&self) -> (r: String)
        ensures
            r@ == (match self.extension_metadata {
                Some(m) => m@,
                None => "{}"@,
            }),
    {
        match &self.extension_metadata {
            Some(m) => m.clone(),
            None => owned("{}"),
        }
    }
}

/// A nullable field after an update: a given value replaces the stored one, and
/// anything else (absent, or given as null) keeps it.
pub open spec fn keep_unless_set<T>(patch: Option<Option<T>>, stored: Option<T>) -> Option<T> {
    match patch {
        Some(Some(v)) => Some(v),
        _ => stored,
    }
}

fn merge_opt_string(patch: &Option<Option<String>>, stored: &Option<String>) -> (r: Option<String>)
    ensures
        r == keep_unless_set(*patch, *stored),
{
    match patch {
        Some(Some(v)) => Some(v.clone()),
        _ => clone_opt(stored),
    }
}

fn merge_opt_copy<T: Copy>(patch: Option<Option<T>>, stored: Option<T>) -> (r: Option<T>)
    ensures
        r == keep_unless_set(patch, stored),
{
    match patch {
        Some(Some(v)) => Some(v),
        _ => stored,
    }
}

/// The issue after an update. (`updated_at` is then set by the store.)
pub open spec fn issue_after(i: KanbanIssue, u: UpdateKanbanIssue) -> KanbanIssue {
    KanbanIssue {
        status_id: match u.status_id {
            Some(s) => s,
            None => i.status_id,
        },
        title: match u.title {
            Some(t) => t,
            None => i.title,
        },
        description: keep_unless_set(u.description, i.description),
        priority: keep_unless_set(u.priority, i.priority),
        start_date: keep_unless_set(u.start_date, i.start_date),
        target_date: keep_unless_set(u.target_date, i.target_date),
        completed_at: keep_unless_set(u.completed_at, i.completed_at),
        sort_order: match u.sort_order {
            Some(s) => s,
            None => i.sort_order,
        },
        parent_issue_id: keep_unless_set(u.parent_issue_id, i.parent_issue_id),
        parent_issue_sort_order: keep_unless_set(u.parent_issue_sort_order, i.parent_issue_sort_order),
        extension_metadata: match u.extension_metadata {
            Some(m) => m,
            None => i.extension_metadata,
        },
        ..i
    }
}

impl KanbanIssue {
    /// The row an update writes.
    pub fn apply_update(&self, data: &UpdateKanbanIssue) -> (r: KanbanIssue)
        ensures
            r == issue_after(*self, *data),
    {
        KanbanIssue {
            id: self.id,
            project_id: self.project_id,
            issue_number: self.issue_number,
            simple_id: clone_opt(&self.simple_id),
            status_id: match data.status_id {
                Some(s) => s,
                None => self.status_id,
            },
            title: match &data.title {
                Some(t) => t.clone(),
                None => self.title.clone(),
            },
            description: merge_opt_string(&data.description, &self.description),
            priority: merge_opt_string(&data.priority, &self.priority),
            start_date: merge_opt_string(&data.start_date, &self.start_date),
            target_date: merge_opt_string(&data.target_date, &self.target_date),
            completed_at: merge_opt_string(&data.completed_at, &self.completed_at),
            sort_order: match data.sort_order {
                Some(s) => s,
                None => self.sort_order,
            },
            parent_issue_id: merge_opt_copy(data.parent_issue_id, self.parent_issue_id),
            parent_issue_sort_order: merge_opt_copy(
                data.parent_issue_sort_order,
                self.parent_issue_sort_order,
            ),
            extension_metadata: match &data.extension_metadata {
                Some(m) => m.clone(),
                None => self.extension_metadata.clone(),
            },
            creator_user_id: self.creator_user_id,
            created_at: self.created_at,
            updated_at: self.updated_at,
        }
    }
}

/// An update that changes nothing.
pub open spec fn issue_update_is_empty(u: UpdateKanbanIssue) -> bool {
    &&& u.status_id is None
    &&& u.title is None
    &&& u.description is None
    &&& u.priority is None
    &&& u.start_date is None
    &&& u.target_date is None
    &&& u.completed_at is None
    &&& u.sort_order is None
    &&& u.parent_issue_id is None
    &&& u.parent_issue_sort_order is None
    &&& u.extension_metadata is None
}

/// An empty update leaves an issue as it is.
pub proof fn law_empty_issue_update_is_identity(i: KanbanIssue, u: UpdateKanbanIssue)
    requires
        issue_update_is_empty(u),
    ensures
        issue_after(i, u) == i,
{
}

/// Applying the same update twice gives what applying it once gives.
pub proof fn law_issue_update_idempotent(i: KanbanIssue, u: UpdateKanbanIssue)
    ensures
        issue_after(issue_after(i, u), u) == issue_after(i, u),
{
}

/// An update never clears a nullable field: one that was set stays set.
pub proof fn law_issue_update_never_clears(i: KanbanIssue, u: UpdateKanbanIssue)
    ensures
        i.description is Some ==> issue_after(i, u).description is Some,
        i.priority is Some ==> issue_after(i, u).priority is Some,
        i.start_date is Some ==> issue_after(i, u).start_date is Some,
        i.target_date is Some ==> issue_after(i, u).target_date is Some,
        i.completed_at is Some ==> issue_after(i, u).completed_at is Some,
        i.parent_issue_id is Some ==> issue_after(i, u).parent_issue_id is Some,
        i.parent_issue_sort_order is Some ==> issue_after(i, u).parent_issue_sort_order is Some,
{
}

/// The identity, project and creation fields of an issue are never changed by an update.
pub proof fn law_issue_update_keeps_identity(i: KanbanIssue, u: UpdateKanbanIssue)
    ensures
        issue_after(i, u).id == i.id,
        issue_after(i, u).project_id == i.project_id,
        issue_after(i, u).issue_number == i.issue_number,
        issue_after(i, u).simple_id == i.simple_id,
        issue_after(i, u).creator_user_id == i.creator_user_id,
        issue_after(i, u).created_at == i.created_at,
{
}

/// An issue update writes every value it gives: a given status, title, sort order or
/// metadata replaces the stored one, and a given non-null value of a nullable field
/// becomes that field's value.
pub proof fn law_issue_update_writes_given_values(i: KanbanIssue, u: UpdateKanbanIssue)
    ensures
        u.status_id matches Some(s) ==> issue_after(i, u).status_id == s,
        u.title matches Some(t) ==> issue_after(i, u).title == t,
        u.sort_order matches Some(o) ==> issue_after(i, u).sort_order == o,
        u.extension_metadata matches Some(m) ==> issue_after(i, u).extension_metadata == m,
        u.description matches Some(Some(d)) ==> issue_after(i, u).description == Some(d),
        u.priority matches Some(Some(p)) ==> issue_after(i, u).priority == Some(p),
        u.start_date matches Some(Some(d)) ==> issue_after(i, u).start_date == Some(d),
        u.target_date matches Some(Some(d)) ==> issue_after(i, u).target_date == Some(d),
        u.completed_at matches Some(Some(d)) ==> issue_after(i, u).completed_at == Some(d),
        u.parent_issue_id matches Some(Some(p)) ==> issue_after(i, u).parent_issue_id == Some(p),
        u.parent_issue_sort_order matches Some(Some(o)) ==> issue_after(i, u).parent_issue_sort_order
            == Some(o),
{
}

/// A project update writes every value it gives: a given name, colour or sort order
/// replaces the stored one; the id, organization and times stay.
pub proof fn law_project_update_writes_given_values(p: KanbanProject, u: UpdateKanbanProject)
    ensures
        u.name matches Some(n) ==> project_after(p, u).name == n,
        u.color matches Some(c) ==> project_after(p, u).color == c,
        u.sort_order matches Some(o) ==> project_after(p, u).sort_order == o,
        project_after(p, u).id == p.id,
        project_after(p, u).organization_id == p.organization_id,
        project_after(p, u).created_at == p.created_at,
{
}

/// Applying a project update twice gives what applying it once gives.
pub proof fn law_project_update_idempotent(p: KanbanProject, u: UpdateKanbanProject)
    ensures
        project_after(project_after(p, u), u) == project_after(p, u),
{
}

// =============================================================================
// Links and activity rows
// =============================================================================
pub struct KanbanIssueAssignee {
    pub id: u128,
    pub issue_id: u128,
    pub user_id: u128,
    pub assigned_at: Timestamp,
}

pub struct KanbanIssueTag {
    pub id: u128,
    pub issue_id: u128,
    pub tag_id: u128,
}

pub struct KanbanIssueRelationship {
    pub id: u128,
    pub issue_id: u128,
    pub related_issue_id: u128,
    pub relationship_type: String,
    pub created_at: Timestamp,
}

pub struct KanbanIssueComment {
    pub id: u128,
    pub issue_id: u128,
    pub author_id: Option<u128>,
    pub parent_id: Option<u128>,
    pub message: String,
    pub created_at: Timestamp,
    pub updated_at: Timestamp,
}

pub struct KanbanIssueFollower {
    pub id: u128,
    pub issue_id: u128,
    pub user_id: u128,
}

pub struct KanbanIssueCommentReaction {
    pub id: u128,
    pub comment_id: u128,
    pub user_id: u128,
    pub emoji: String,
    pub created_at: Timestamp,
}

pub struct KanbanWorkspace {
    pub id: u128,
    pub project_id: u128,
    pub owner_user_id: u128,
    pub issue_id: Option<u128>,
    pub local_workspace_id: Option<u128>,
    pub name: Option<String>,
    pub archived: bool,
    pub files_changed: Option<i64>,
    pub lines_added: Option<i64>,
    pub lines_removed: Option<i64>,
    pub created_at: Timestamp,
    pub updated_at: Timestamp,
}

/// The fields of a kanban workspace link to create or replace.
pub struct CreateKanbanWorkspace {
    pub project_id: u128,
    pub owner_user_id: u128,
    pub issue_id: Option<u128>,
    pub local_workspace_id: Option<u128>,
    pub name: Option<String>,
    pub archived: bool,
    pub files_changed: Option<i64>,
    pub lines_added: Option<i64>,
    pub lines_removed: Option<i64>,
}

} // verus!
