use vibe_kanban::config::{
    config_path, credentials_path, env_config_path, join_path, prod_asset_dir_path,
    profiles_path, relay_host_credentials_path, resolve_asset_dir, resolve_log_level,
    resolve_string, server_signing_key_path, trusted_keys_path,
};
use vibe_kanban::file_ranker::{match_type_score, FileRanker, SearchMatchType, SearchResult};
use vibe_kanban::skills::{builtin_skills, get_skills, local_skill};
use vibe_kanban::text::{
    contains, first_line_of, is_blank, starts_with, trim_start_matches, trim_str,
    usize_to_decimal,
};
use vibe_kanban::workspace::{
    orphan_dirs, prepare_deletion_context, RepoWorkspaceInput, WorkspaceManager,
};

fn result(path: &str, mt: SearchMatchType) -> SearchResult {
    SearchResult { path: path.to_string(), is_file: true, match_type: mt }
}

#[test]
fn text_helpers() {
    assert!(contains("hello world", "o w"));
    assert!(contains("abc", ""));
    assert!(!contains("abc", "abcd"));
    assert!(starts_with("TurnEnd now", "TurnEnd"));
    assert!(!starts_with("Turn", "TurnEnd"));
    assert!(is_blank(" \t\u{3000}\n"));
    assert!(!is_blank(" x "));
    assert_eq!(trim_str("\u{a0} hi there \n"), "hi there");
    assert_eq!(trim_start_matches("# # Title", "# "), "Title");
    assert_eq!(trim_start_matches("Title", ""), "Title");
    assert_eq!(first_line_of("first\r\nsecond").as_deref(), Some("first"));
    assert_eq!(first_line_of("only\r").as_deref(), Some("only\r"));
    assert_eq!(first_line_of("\nx").as_deref(), Some(""));
    assert_eq!(first_line_of(""), None);
    assert_eq!(usize_to_decimal(0), "0");
    assert_eq!(usize_to_decimal(120), "120");
}

#[test]
fn builtin_and_local_skills() {
    let b = builtin_skills();
    assert_eq!(b.len(), 8);
    assert_eq!(b[0].id, "ask");
    assert_eq!(b[7].name, "Daves Vibe Mod");
    assert!(b.iter().all(|s| s.source.as_deref() == Some("built-in")));
    let s = local_skill("my_cool-skill", "md", Some("  # # Does things  \nmore".to_string())).unwrap();
    assert_eq!(s.id, "local:my_cool-skill");
    assert_eq!(s.name, "My cool skill");
    assert_eq!(s.description, "Does things");
    assert_eq!(s.source.as_deref(), Some("local"));
    let s = local_skill("x", "txt", None).unwrap();
    assert_eq!(s.description, "Skill: x");
    let s = local_skill("_a", "txt", Some(String::new())).unwrap();
    assert_eq!(s.name, "_a");
    assert_eq!(s.description, "Skill: _a");
    assert!(local_skill("x", "rs", Some("y".to_string())).is_none());
    let all = get_skills(vec![local_skill("z", "md", None).unwrap()]);
    assert_eq!(all.len(), 9);
    assert_eq!(all[8].id, "local:z");
}

#[test]
fn asset_and_config_paths() {
    assert_eq!(prod_asset_dir_path(), "/Users/lianghusile/dave/appData/daves-vibe-kanban");
    assert_eq!(config_path("/a"), "/a/config.json");
    assert_eq!(profiles_path("/a/"), "/a/profiles.json");
    assert_eq!(credentials_path(""), "credentials.json");
    assert_eq!(trusted_keys_path("d"), "d/trusted_ed25519_public_keys.json");
    assert_eq!(server_signing_key_path("d"), "d/server_ed25519_signing_key");
    assert_eq!(relay_host_credentials_path("d"), "d/relay_host_credentials.json");
    assert_eq!(join_path("x", "y"), "x/y");
    assert_eq!(join_path("x/", "y"), "x/y");
    assert_eq!(join_path("x", "/etc/y"), "/etc/y");
    let dir = "/data/app/";
    let files = [config_path(dir), credentials_path(dir), relay_host_credentials_path(dir)];
    assert_eq!(files[0], "/data/app/config.json");
    assert_eq!(std::path::Path::new(&files[0]).parent(), Some(std::path::Path::new("/data/app")));
    assert_ne!(files[1], files[2]);
    assert_eq!(resolve_asset_dir(Some("/e".to_string()), Some("/c".to_string())), "/e");
    assert_eq!(resolve_asset_dir(None, Some("/c".to_string())), "/c");
    assert_eq!(resolve_asset_dir(None, None), "/Users/lianghusile/dave/appData/daves-vibe-kanban");
    assert_eq!(env_config_path(None), "/Users/lianghusile/dave/appData/daves-vibe-kanban/daves_env_config.json");
    assert_eq!(env_config_path(Some("/p".to_string())), "/p");
}

#[test]
fn settings_prefer_config_then_environment() {
    assert_eq!(resolve_string(Some("c"), Some("e")).as_deref(), Some("c"));
    assert_eq!(resolve_string(Some(""), Some("e")).as_deref(), Some("e"));
    assert_eq!(resolve_string(None, Some("")), None);
    assert_eq!(resolve_string(None, None), None);
    assert_eq!(resolve_log_level(Some("debug")), "debug");
    assert_eq!(resolve_log_level(Some("")), "info");
    assert_eq!(resolve_log_level(None), "info");
}

#[test]
fn ranking_orders_by_match_kind() {
    assert_eq!(match_type_score(&SearchMatchType::FileName), 100);
    assert_eq!(match_type_score(&SearchMatchType::DirectoryName), 10);
    assert_eq!(match_type_score(&SearchMatchType::FullPath), 1);
    let ranked = FileRanker::new().rank_search_results(vec![
        result("a", SearchMatchType::FullPath),
        result("b", SearchMatchType::FileName),
        result("c", SearchMatchType::DirectoryName),
        result("d", SearchMatchType::FileName),
    ]);
    let paths: Vec<&str> = ranked.iter().map(|r| r.path.as_str()).collect();
    assert_eq!(paths, vec!["b", "d", "c", "a"]);
}

#[test]
fn workspace_management() {
    let input = RepoWorkspaceInput::new(42u32, "main".to_string());
    assert_eq!((input.repo, input.target_branch.as_str()), (42, "main"));
    let mgr = WorkspaceManager::new("db".to_string());
    let mw = mgr.load_managed_workspace(7u8);
    assert_eq!((mw.workspace, mw.db.as_str()), (7, "db"));
    assert_eq!(WorkspaceManager::<String>::get_workspace_base_dir(Some("/data")), "/data/vibe-kanban/workspaces");
    assert_eq!(WorkspaceManager::<String>::get_workspace_base_dir(None), "./vibe-kanban/workspaces");
    assert!(WorkspaceManager::<String>::cleanup_disabled(Some(true), false));
    assert!(WorkspaceManager::<String>::cleanup_disabled(None, true));
    assert!(!WorkspaceManager::<String>::cleanup_disabled(Some(false), false));
    let ctx = prepare_deletion_context(5, Some("/w".to_string()), vec![1, 2]);
    assert_eq!((ctx.workspace_id, ctx.workspace_dir.as_deref(), ctx.session_ids.len()), (5, Some("/w"), 2));
    let orphans = orphan_dirs(
        &vec!["/b/x".to_string(), "/b/y".to_string(), "/b/z".to_string()],
        &vec![Some("/b/y".to_string()), None],
    );
    assert_eq!(orphans, vec!["/b/x".to_string(), "/b/z".to_string()]);
}
