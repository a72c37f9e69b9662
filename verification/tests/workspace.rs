use codex_ws::workspace::{
    choose_editor, collect_workspace_entries, expand_home_path, expand_home_path_with,
    is_path_like, resolve_workspace_path, resolve_workspace_path_with, workspace_config_dir,
    workspace_manifest_path, workspace_template, WorkspaceEntry, WorkspaceError,
};

#[test]
fn workspace_manifest_path_uses_config_workspace_directory() {
    let path = workspace_manifest_path("/host/.codex-ws", "backend").expect("path should build");

    assert_eq!(path, "/host/.codex-ws/config/workspace/backend.yaml");
}

#[test]
fn resolve_workspace_path_maps_names_to_saved_manifest_paths() {
    let path = resolve_workspace_path("backend".to_owned(), "/host/.codex-ws")
        .expect("path should resolve");

    assert_eq!(path, "/host/.codex-ws/config/workspace/backend.yaml");
}

#[test]
fn resolve_workspace_path_keeps_path_like_values() {
    let path = resolve_workspace_path("/tmp/workspace.yaml".to_owned(), "/host/.codex-ws")
        .expect("path should resolve");

    assert_eq!(path, "/tmp/workspace.yaml");
}

#[test]
fn workspace_manifest_path_rejects_invalid_names() {
    assert_eq!(
        workspace_manifest_path("/r", "  "),
        Err(WorkspaceError::EmptyName)
    );
    assert_eq!(
        workspace_manifest_path("/r", ".."),
        Err(WorkspaceError::PathSeparators {
            name: "..".to_owned()
        })
    );
    assert_eq!(
        workspace_manifest_path("/r", "a\\b"),
        Err(WorkspaceError::PathSeparators {
            name: "a\\b".to_owned()
        })
    );
    assert_eq!(
        WorkspaceError::PathSeparators {
            name: "a/b".to_owned()
        }
        .message(),
        "workspace name 'a/b' cannot contain path separators"
    );
    assert_eq!(
        WorkspaceError::EmptyName.message(),
        "workspace name cannot be empty"
    );
}

#[test]
fn path_like_detection() {
    assert!(is_path_like("~"));
    assert!(is_path_like("a/b"));
    assert!(is_path_like("a\\b"));
    assert!(is_path_like("work.yaml"));
    assert!(is_path_like("a."));
    assert!(!is_path_like("backend"));
    assert!(!is_path_like(".hidden"));
    assert!(!is_path_like(".."));
    assert!(!is_path_like(""));
}

#[test]
fn expand_home_path_with_given_home() {
    let home = Some("/home/c".to_owned());
    assert_eq!(expand_home_path_with("~".to_owned(), home.clone()), "/home/c");
    assert_eq!(
        expand_home_path_with("~/x/y".to_owned(), home.clone()),
        "/home/c/x/y"
    );
    assert_eq!(expand_home_path_with("~x".to_owned(), home.clone()), "~x");
    assert_eq!(expand_home_path_with("/a/~/b".to_owned(), home), "/a/~/b");
    assert_eq!(expand_home_path_with("~/x".to_owned(), None), "~/x");
}

#[test]
fn expand_home_path_leaves_plain_paths() {
    assert_eq!(expand_home_path("/etc/hosts".to_owned()), "/etc/hosts");
    let expanded = expand_home_path("~/projects".to_owned());
    assert!(expanded == "~/projects" || expanded.ends_with("/projects"));
}

#[test]
fn resolve_workspace_path_with_expands_home() {
    assert_eq!(
        resolve_workspace_path_with("~/w.yaml".to_owned(), "/r", Some("/h".to_owned())),
        Ok("/h/w.yaml".to_owned())
    );
    assert_eq!(
        resolve_workspace_path_with(" ".to_owned(), "/r", Some("/h".to_owned())),
        Err(WorkspaceError::EmptyName)
    );
}

#[test]
fn workspace_config_dir_under_sessions_root() {
    assert_eq!(workspace_config_dir("/s"), "/s/config/workspace");
}

#[test]
fn workspace_template_names_the_workspace() {
    let template = workspace_template("backend");
    assert!(template.contains("name: backend\n"));
    assert!(template.starts_with("# Workspace manifest for codex-ws.\n"));
    assert!(template.contains("#   network: false\n"));
}

#[test]
fn choose_editor_prefers_visual_then_editor_then_vim() {
    assert_eq!(
        choose_editor(Some("code".to_owned()), Some("nano".to_owned())),
        "code"
    );
    assert_eq!(choose_editor(Some("  ".to_owned()), Some("nano".to_owned())), "nano");
    assert_eq!(choose_editor(None, Some("".to_owned())), "vim");
    assert_eq!(choose_editor(None, None), "vim");
}

#[test]
fn collect_workspace_entries_returns_sorted_yaml_files() {
    let entries = collect_workspace_entries(
        "/s/config/workspace",
        vec![
            "zeta.yaml".to_owned(),
            "alpha.yaml".to_owned(),
            "ignored.txt".to_owned(),
            ".yaml".to_owned(),
            "Beta.yaml".to_owned(),
            "a.b.yaml".to_owned(),
        ],
    );

    assert_eq!(
        entries
            .iter()
            .map(|entry| entry.name().to_owned())
            .collect::<Vec<_>>(),
        vec![
            "Beta".to_owned(),
            "a.b".to_owned(),
            "alpha".to_owned(),
            "zeta".to_owned()
        ]
    );
    assert_eq!(entries[3].path(), "/s/config/workspace/zeta.yaml");
}

#[test]
fn collect_workspace_entries_orders_by_code_point() {
    let entries = collect_workspace_entries(
        "/d",
        vec!["\u{e9}t\u{e9}.yaml".to_owned(), "ab.yaml".to_owned(), "a.yaml".to_owned()],
    );

    assert_eq!(
        entries,
        vec![
            WorkspaceEntry::new("a".to_owned(), "/d/a.yaml".to_owned()),
            WorkspaceEntry::new("ab".to_owned(), "/d/ab.yaml".to_owned()),
            WorkspaceEntry::new("\u{e9}t\u{e9}".to_owned(), "/d/\u{e9}t\u{e9}.yaml".to_owned()),
        ]
    );
}

#[test]
fn saved_workspace_is_resolved_and_listed_at_the_same_path() {
    let root = "/host/.codex-ws";
    let saved = workspace_manifest_path(root, "backend").expect("path should build");
    let resolved =
        resolve_workspace_path("backend".to_owned(), root).expect("path should resolve");
    assert_eq!(resolved, saved);

    let entries = collect_workspace_entries(&workspace_config_dir(root), vec!["backend.yaml".to_owned()]);
    assert_eq!(entries.len(), 1);
    assert_eq!(entries[0].name(), "backend");
    assert_eq!(entries[0].path(), saved);
}

#[test]
fn list_workspaces_returns_sorted_yaml_files() {
    let config_dir = workspace_config_dir("/host/.codex-ws");
    let entries = collect_workspace_entries(
        &config_dir,
        vec![
            "zeta.yaml".to_owned(),
            "alpha.yaml".to_owned(),
            "ignored.txt".to_owned(),
        ],
    );

    assert_eq!(
        entries,
        vec![
            WorkspaceEntry::new(
                "alpha".to_owned(),
                "/host/.codex-ws/config/workspace/alpha.yaml".to_owned()
            ),
            WorkspaceEntry::new(
                "zeta".to_owned(),
                "/host/.codex-ws/config/workspace/zeta.yaml".to_owned()
            ),
        ]
    );
}
