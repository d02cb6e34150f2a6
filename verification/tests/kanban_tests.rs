use vibe_kanban::kanban::{
    seed_for_count,
    CreateKanbanIssue, CreateKanbanOrganization, CreateKanbanProjectStatus, CreateKanbanTag,
    KanbanIssue, KanbanIssueAssignee, KanbanIssueComment, KanbanIssueCommentReaction,
    KanbanIssueFollower, KanbanIssueRelationship, KanbanIssueTag, KanbanOrganization, KanbanProject, KanbanProjectStatus, KanbanTag, KanbanWorkspace,
    Timestamp, UpdateKanbanIssue, UpdateKanbanProject,
};
use vibe_kanban::kanban_api::{
    api_priority_to_string, create_issue_data, db_to_api_assignee, db_to_api_comment,
    db_to_api_follower, db_to_api_issue, db_to_api_issue_tag, db_to_api_organization,
    db_to_api_organization_with_role, db_to_api_project, db_to_api_reaction, db_to_api_tag, db_to_api_relationship, db_to_api_status, db_to_api_workspace,
    link_workspace_record, list_issues_response, parse_uuid_or, pr_status_for,
    priority_from_string, relationship_type_from_string, relationship_type_to_string,
    filter_issues, search_issues, update_comment_values, update_issue_data, update_project_status_values,
    update_reaction_values, update_tag_values, CreateIssueRequest, IssuePriority,
    IssueRelationshipType, MemberRole, MergeStatus, PullRequestStatus, SearchIssuesRequest,
    UpdateIssueCommentReactionRequest, UpdateIssueCommentRequest, UpdateIssueRequest,
    UpdateProjectStatusRequest, UpdateTagRequest,
};

const T0: Timestamp = Timestamp { secs: 0, nanos: 0 };

fn issue(id: u128, title: &str) -> KanbanIssue {
    KanbanIssue {
        id,
        project_id: 1,
        issue_number: Some(7),
        simple_id: Some(format!("LOC-{}", id)),
        status_id: 10,
        title: title.to_string(),
        description: Some("desc".to_string()),
        priority: Some("high".to_string()),
        start_date: Some("2024-01-02T03:04:05Z".to_string()),
        target_date: None,
        completed_at: Some("not a date".to_string()),
        sort_order: 3,
        parent_issue_id: None,
        parent_issue_sort_order: None,
        extension_metadata: "{\"a\":1}".to_string(),
        creator_user_id: None,
        created_at: T0,
        updated_at: T0,
    }
}

fn empty_update() -> UpdateKanbanIssue {
    UpdateKanbanIssue {
        status_id: None,
        title: None,
        description: None,
        priority: None,
        start_date: None,
        target_date: None,
        completed_at: None,
        sort_order: None,
        parent_issue_id: None,
        parent_issue_sort_order: None,
        extension_metadata: None,
    }
}

fn search(project_id: u128) -> SearchIssuesRequest {
    SearchIssuesRequest {
        project_id,
        status_id: None,
        status_ids: None,
        priority: None,
        search: None,
        simple_id: None,
        parent_issue_id: None,
    }
}

#[test]
fn create_defaults() {
    let org = CreateKanbanOrganization { name: "o".to_string(), color: None };
    assert_eq!(org.insert_color(), "#6366f1");
    let tag = CreateKanbanTag { project_id: 1, name: "t".to_string(), color: Some("#fff".to_string()) };
    assert_eq!(tag.insert_color(), "#fff");
    let st = CreateKanbanProjectStatus { project_id: 1, name: "s".to_string(), color: None, sort_order: 2, hidden: None };
    assert_eq!(st.insert_color(), "#6366f1");
    assert!(!st.insert_hidden());
    let ci = CreateKanbanIssue {
        project_id: 1,
        status_id: 2,
        title: "x".to_string(),
        description: None,
        priority: None,
        start_date: None,
        target_date: None,
        completed_at: None,
        sort_order: None,
        parent_issue_id: None,
        parent_issue_sort_order: None,
        extension_metadata: None,
        creator_user_id: None,
    };
    assert_eq!(ci.insert_sort_order(), 0);
    assert_eq!(ci.insert_extension_metadata(), "{}");
}

#[test]
fn seed_only_when_empty() {
    assert!(KanbanOrganization::needs_seed(0));
    assert!(!KanbanOrganization::needs_seed(2));
    let s = KanbanOrganization::seed_default();
    assert_eq!((s.name.as_str(), s.slug.as_str(), s.issue_prefix.as_str(), s.color.as_str()), ("Local", "local", "LOC", "#6366f1"));
    assert!(s.is_personal);
    assert_eq!(s.sort_order, 0);
    let first = seed_for_count(0).expect("an empty store is seeded");
    assert_eq!((first.name.as_str(), first.slug.as_str()), ("Local", "local"));
    assert!(seed_for_count(1).is_none());
    assert!(seed_for_count(5).is_none());
}

#[test]
fn issue_update_merges_and_never_clears() {
    let i = issue(1, "Title");
    let mut u = empty_update();
    u.title = Some("New".to_string());
    u.description = Some(None);
    u.priority = Some(Some("low".to_string()));
    u.parent_issue_id = Some(Some(9));
    u.extension_metadata = Some("{}".to_string());
    let r = i.apply_update(&u);
    assert_eq!(r.title, "New");
    assert_eq!(r.description.as_deref(), Some("desc"));
    assert_eq!(r.priority.as_deref(), Some("low"));
    assert_eq!(r.parent_issue_id, Some(9));
    assert_eq!(r.extension_metadata, "{}");
    assert_eq!(r.sort_order, 3);
    // Applying it again changes nothing more.
    let r2 = r.apply_update(&u);
    assert_eq!(r2.title, r.title);
    assert_eq!(r2.description, r.description);
    // The empty update is the identity.
    let same = i.apply_update(&empty_update());
    assert_eq!(same.title, i.title);
    assert_eq!(same.completed_at, i.completed_at);
}

#[test]
fn project_update_merges() {
    let p = KanbanProject { id: 1, organization_id: 2, name: "p".to_string(), color: "#000".to_string(), sort_order: 4, created_at: T0, updated_at: T0 };
    let r = p.apply_update(&UpdateKanbanProject { name: None, color: Some("#111".to_string()), sort_order: Some(8) });
    assert_eq!((r.name.as_str(), r.color.as_str(), r.sort_order), ("p", "#111", 8));
    let api = db_to_api_project(r);
    assert_eq!(api.sort_order, 8);
}

#[test]
fn issue_in_api_form() {
    let api = db_to_api_issue(issue(4, "T"));
    assert_eq!(api.issue_number, 7);
    assert_eq!(api.simple_id, "LOC-4");
    assert!(matches!(api.priority, Some(IssuePriority::High)));
    let start = api.start_date.unwrap();
    assert_eq!((start.secs, start.nanos), (1704164645, 0));
    assert!(api.completed_at.is_none());
    assert_eq!(api.extension_metadata, "{\"a\":1}");
    let mut bad = issue(5, "T");
    bad.extension_metadata = "not json".to_string();
    bad.issue_number = None;
    bad.simple_id = None;
    bad.priority = Some("whenever".to_string());
    let api = db_to_api_issue(bad);
    assert_eq!(api.extension_metadata, "{}");
    assert_eq!(api.issue_number, 0);
    assert_eq!(api.simple_id, "");
    assert!(api.priority.is_none());
}

#[test]
fn priorities_and_relationships_round_trip() {
    for p in [IssuePriority::Urgent, IssuePriority::High, IssuePriority::Medium, IssuePriority::Low] {
        let s = api_priority_to_string(&p);
        let back = priority_from_string(&Some(s)).unwrap();
        assert_eq!(api_priority_to_string(&back), api_priority_to_string(&p));
    }
    assert_eq!(relationship_type_to_string(&IssueRelationshipType::HasDuplicate), "has_duplicate");
    assert!(matches!(relationship_type_from_string("blocking"), IssueRelationshipType::Blocking));
    assert!(matches!(relationship_type_from_string("other"), IssueRelationshipType::Related));
    let r = db_to_api_relationship(KanbanIssueRelationship { id: 1, issue_id: 2, related_issue_id: 3, relationship_type: "has_duplicate".to_string(), created_at: T0 });
    assert!(matches!(r.relationship_type, IssueRelationshipType::HasDuplicate));
}

#[test]
fn search_applies_every_filter() {
    let mut a = issue(1, "Fix Login Bug");
    a.priority = Some("urgent".to_string());
    let mut b = issue(2, "Write docs");
    b.status_id = 11;
    let c = issue(3, "LOGIN page");
    let rows = vec![a, b, c];
    let mut q = search(1);
    q.search = Some("login".to_string());
    let r = filter_issues(rows, &q);
    assert_eq!(r.iter().map(|i| i.id).collect::<Vec<_>>(), vec![1, 3]);
    let mut q2 = search(1);
    q2.priority = Some(IssuePriority::Urgent);
    let rows = vec![issue(1, "a"), { let mut x = issue(2, "b"); x.priority = Some("urgent".to_string()); x }];
    let r = filter_issues(rows, &q2);
    assert_eq!(r.iter().map(|i| i.id).collect::<Vec<_>>(), vec![2]);
    let mut q3 = search(1);
    q3.status_ids = Some(vec![11]);
    q3.simple_id = Some("LOC-2".to_string());
    let rows = vec![issue(1, "a"), { let mut x = issue(2, "b"); x.status_id = 11; x }];
    let r = filter_issues(rows, &q3);
    assert_eq!(r.len(), 1);
    assert_eq!(r[0].id, 2);
    let resp = list_issues_response(vec![db_to_api_issue(issue(9, "z"))]);
    assert_eq!((resp.total_count, resp.limit, resp.offset), (1, 1, 0));
}

#[test]
fn create_and_update_requests() {
    let req = CreateIssueRequest {
        project_id: 1,
        status_id: 2,
        title: "t".to_string(),
        description: None,
        priority: Some(IssuePriority::Medium),
        start_date: Some(Timestamp { secs: 1704164645, nanos: 0 }),
        target_date: None,
        completed_at: None,
        sort_order: 5,
        parent_issue_id: None,
        parent_issue_sort_order: Some(2),
        extension_metadata: "{}".to_string(),
    };
    let d = create_issue_data(req);
    assert_eq!(d.priority.as_deref(), Some("medium"));
    assert_eq!(d.start_date.as_deref(), Some("2024-01-02T03:04:05+00:00"));
    assert_eq!(d.sort_order, Some(5));
    assert!(d.creator_user_id.is_none());
    let u = update_issue_data(UpdateIssueRequest {
        status_id: None,
        title: None,
        description: None,
        priority: Some(None),
        start_date: Some(None),
        target_date: Some(Some(Timestamp { secs: 0, nanos: 0 })),
        completed_at: None,
        sort_order: None,
        parent_issue_id: None,
        parent_issue_sort_order: None,
        extension_metadata: None,
    });
    assert_eq!(u.priority, Some(None));
    assert_eq!(u.start_date, Some(None));
    assert_eq!(u.target_date, Some(Some("1970-01-01T00:00:00+00:00".to_string())));
}

#[test]
fn route_level_merges() {
    let st = KanbanProjectStatus { id: 1, project_id: 2, name: "s".to_string(), color: "#0".to_string(), sort_order: 4_294_967_297, hidden: false, created_at: T0 };
    let r = update_project_status_values(&st, &UpdateProjectStatusRequest { name: None, color: None, sort_order: None, hidden: Some(true) });
    assert_eq!(r.sort_order, 1);
    assert!(r.hidden);
    assert_eq!(db_to_api_status(r).sort_order, 1);
    let t = KanbanTag { id: 1, project_id: 2, name: "a".to_string(), color: "#1".to_string() };
    let r = update_tag_values(&t, &UpdateTagRequest { name: Some("b".to_string()), color: None });
    assert_eq!((r.name.as_str(), r.color.as_str()), ("b", "#1"));
    let re = KanbanIssueCommentReaction { id: 1, comment_id: 2, user_id: 3, emoji: ":)".to_string(), created_at: T0 };
    assert_eq!(update_reaction_values(&re, &UpdateIssueCommentReactionRequest { emoji: None }).emoji, ":)");
    let c = KanbanIssueComment { id: 1, issue_id: 2, author_id: None, parent_id: Some(5), message: "m".to_string(), created_at: T0, updated_at: T0 };
    let now = Timestamp { secs: 9, nanos: 1 };
    let r = update_comment_values(&c, &UpdateIssueCommentRequest { message: None, parent_id: Some(None) }, now);
    assert_eq!(r.parent_id, Some(5));
    assert_eq!(r.updated_at.secs, 9);
}

#[test]
fn workspace_links_and_conversions() {
    let rec = link_workspace_record("not-a-uuid", 1, 2, 3, &Some("w".to_string()), true);
    assert_eq!(rec.owner_user_id, 0);
    assert_eq!((rec.issue_id, rec.local_workspace_id), (Some(2), Some(3)));
    let rec = link_workspace_record("00000000-0000-0000-0000-00000000000a", 1, 2, 3, &None, false);
    assert_eq!(rec.owner_user_id, 10);
    assert_eq!(parse_uuid_or("nope", 77), 77);
    assert!(matches!(pr_status_for(&MergeStatus::Merged), Some(PullRequestStatus::Merged)));
    assert!(pr_status_for(&MergeStatus::Unknown).is_none());
    let w = KanbanWorkspace { id: 1, project_id: 2, owner_user_id: 3, issue_id: None, local_workspace_id: None, name: None, archived: false, files_changed: Some(4_294_967_301), lines_added: None, lines_removed: Some(2), created_at: T0, updated_at: T0 };
    let api = db_to_api_workspace(w);
    assert_eq!((api.files_changed, api.lines_removed), (Some(5), Some(2)));
    let o = KanbanOrganization { id: 1, name: "n".to_string(), slug: "s".to_string(), is_personal: true, issue_prefix: "P".to_string(), color: "#".to_string(), sort_order: 0, created_at: T0, updated_at: T0 };
    assert!(matches!(db_to_api_organization_with_role(o).user_role, MemberRole::Admin));
}

#[test]
fn plain_rows_keep_their_fields() {
    let at = Timestamp { secs: 5, nanos: 6 };
    let a = db_to_api_assignee(KanbanIssueAssignee { id: 1, issue_id: 2, user_id: 3, assigned_at: at });
    assert_eq!((a.id, a.issue_id, a.user_id, a.assigned_at.secs, a.assigned_at.nanos), (1, 2, 3, 5, 6));
    let t = db_to_api_issue_tag(KanbanIssueTag { id: 4, issue_id: 5, tag_id: 6 });
    assert_eq!((t.id, t.issue_id, t.tag_id), (4, 5, 6));
    let f = db_to_api_follower(KanbanIssueFollower { id: 7, issue_id: 8, user_id: 9 });
    assert_eq!((f.id, f.issue_id, f.user_id), (7, 8, 9));
    let tag = db_to_api_tag(KanbanTag { id: 1, project_id: 2, name: "bug".to_string(), color: "#f00".to_string() });
    assert_eq!((tag.id, tag.project_id, tag.name.as_str(), tag.color.as_str()), (1, 2, "bug", "#f00"));
    let c = db_to_api_comment(KanbanIssueComment { id: 1, issue_id: 2, author_id: Some(3), parent_id: None, message: "hi".to_string(), created_at: T0, updated_at: at });
    assert_eq!((c.author_id, c.parent_id, c.message.as_str(), c.updated_at.secs), (Some(3), None, "hi", 5));
    let r = db_to_api_reaction(KanbanIssueCommentReaction { id: 1, comment_id: 2, user_id: 3, emoji: "+1".to_string(), created_at: at });
    assert_eq!((r.comment_id, r.user_id, r.emoji.as_str(), r.created_at.nanos), (2, 3, "+1", 6));
    let o = db_to_api_organization(KanbanOrganization { id: 1, name: "Local".to_string(), slug: "local".to_string(), is_personal: true, issue_prefix: "LOC".to_string(), color: "#6366f1".to_string(), sort_order: 0, created_at: T0, updated_at: at });
    assert_eq!((o.name.as_str(), o.slug.as_str(), o.is_personal, o.issue_prefix.as_str()), ("Local", "local", true, "LOC"));
}

#[test]
fn search_answers_in_api_form() {
    let mut a = issue(1, "Fix Login Bug");
    a.priority = Some("urgent".to_string());
    let b = issue(2, "Write docs");
    let c = issue(3, "LOGIN page");
    let mut q = search(1);
    q.search = Some("login".to_string());
    let r = search_issues(vec![a, b, c], &q);
    assert_eq!((r.total_count, r.limit, r.offset), (2, 2, 0));
    assert_eq!(r.issues.iter().map(|i| i.id).collect::<Vec<_>>(), vec![1, 3]);
    assert!(matches!(r.issues[0].priority, Some(IssuePriority::Urgent)));
    assert_eq!(r.issues[1].simple_id, "LOC-3");
    assert_eq!(r.issues[0].start_date.map(|t| t.secs), Some(1704164645));
    let none = search_issues(vec![], &q);
    assert_eq!((none.issues.len(), none.total_count, none.limit, none.offset), (0, 0, 0, 0));
}

#[test]
fn stored_dates_read_back_as_the_same_instant() {
    let t = Timestamp { secs: 1_700_000_000, nanos: 123_456_000 };
    let data = create_issue_data(CreateIssueRequest {
        project_id: 1,
        status_id: 2,
        title: "t".to_string(),
        description: None,
        priority: None,
        start_date: Some(t),
        target_date: None,
        completed_at: None,
        sort_order: 0,
        parent_issue_id: None,
        parent_issue_sort_order: None,
        extension_metadata: "{}".to_string(),
    });
    let mut row = issue(1, "t");
    row.start_date = data.start_date.clone();
    let api = db_to_api_issue(row);
    let back = api.start_date.unwrap();
    assert_eq!((back.secs, back.nanos), (t.secs, t.nanos));
}

#[test]
fn leap_second_dates_read_back() {
    // 2016-12-31T23:59:60.5Z: the leap second at the end of 2016.
    let t = Timestamp { secs: 1_483_228_799, nanos: 1_500_000_000 };
    let data = create_issue_data(CreateIssueRequest {
        project_id: 1,
        status_id: 2,
        title: "t".to_string(),
        description: None,
        priority: None,
        start_date: None,
        target_date: Some(t),
        completed_at: None,
        sort_order: 0,
        parent_issue_id: None,
        parent_issue_sort_order: None,
        extension_metadata: "{}".to_string(),
    });
    assert_eq!(data.target_date.as_deref(), Some("2016-12-31T23:59:60.500+00:00"));
    let mut row = issue(1, "t");
    row.target_date = data.target_date.clone();
    let back = db_to_api_issue(row).target_date.unwrap();
    assert_eq!((back.secs, back.nanos), (t.secs, t.nanos));
}

#[test]
fn metadata_that_is_not_json_reads_as_empty_object() {
    let mut row = issue(1, "t");
    row.extension_metadata = "{not json".to_string();
    assert_eq!(db_to_api_issue(row).extension_metadata, "{}");
}
