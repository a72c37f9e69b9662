use codex_ws::manifest::{
    first_duplicate_folder_name, validate_workspace_folders, FolderKind, ManifestError, RawRuntimeConfig, RawWorkspaceManifest,
    RuntimeConfig, SandboxConfig, WorkspaceManifest,
};
use codex_ws::runtime::{RuntimeLanguage, RuntimeSpecError, RuntimeTool};

fn empty_raw_runtime() -> RawRuntimeConfig {
    RawRuntimeConfig {
        image: None,
        apt: Vec::new(),
        setup: Vec::new(),
        tools: Vec::new(),
        languages: Vec::new(),
    }
}

fn raw_manifest(name: &str, folders: &[&str], network: Option<bool>) -> RawWorkspaceManifest {
    RawWorkspaceManifest {
        name: name.to_owned(),
        folders: folders.iter().map(|f| (*f).to_owned()).collect(),
        network,
        runtime: empty_raw_runtime(),
    }
}

fn single_folder_manifest(folder: &str) -> WorkspaceManifest {
    WorkspaceManifest::new(
        "workspace".to_owned(),
        vec![folder.to_owned()],
        SandboxConfig::default(),
    )
    .expect("manifest should be valid")
}

#[test]
fn parse_workspace_manifest_supports_multiple_folders_and_network() {
    let manifest = WorkspaceManifest::from_raw(raw_manifest(
        "workspace-name",
        &["/projects/backend", "/projects/frontend"],
        Some(true),
    ))
    .expect("manifest should parse");

    assert_eq!(manifest.name(), "workspace-name");
    assert_eq!(
        manifest.folders(),
        &["/projects/backend".to_owned(), "/projects/frontend".to_owned()]
    );
    assert!(manifest.sandbox().network());
}

#[test]
fn parse_workspace_manifest_supports_single_folder() {
    let manifest =
        WorkspaceManifest::from_raw(raw_manifest("single-project", &["/projects/backend"], None))
            .expect("manifest should parse");

    assert_eq!(manifest.name(), "single-project");
    assert_eq!(manifest.folders(), &["/projects/backend".to_owned()]);
    assert!(!manifest.sandbox().network());
}

#[test]
fn parse_workspace_manifest_rejects_empty_name() {
    let error = WorkspaceManifest::from_raw(raw_manifest(" ", &["/projects/backend"], None))
        .expect_err("blank name should fail");

    assert!(matches!(error, ManifestError::EmptyName));
}

#[test]
fn parse_workspace_manifest_rejects_empty_folders() {
    let error = WorkspaceManifest::from_raw(raw_manifest("empty-workspace", &[], None))
        .expect_err("empty folders should fail");

    assert!(matches!(error, ManifestError::NoFolders));
}

#[test]
fn validate_workspace_folders_accepts_existing_directories() {
    let manifest = single_folder_manifest("/tmp/workspace/project");

    validate_workspace_folders(&manifest, &vec![FolderKind::Directory])
        .expect("folder validation should pass");
}

#[test]
fn validate_workspace_folders_rejects_missing_paths() {
    let manifest = single_folder_manifest("/tmp/workspace/missing");

    let error = validate_workspace_folders(&manifest, &vec![FolderKind::Missing])
        .expect_err("missing folder should fail");

    assert!(matches!(
        error,
        ManifestError::FolderMissing { path } if path == "/tmp/workspace/missing"
    ));
}

#[test]
fn validate_workspace_folders_rejects_files() {
    let manifest = single_folder_manifest("/tmp/workspace/file.txt");

    let error = validate_workspace_folders(&manifest, &vec![FolderKind::NotDirectory])
        .expect_err("file path should fail");

    assert!(matches!(
        error,
        ManifestError::FolderNotDirectory { path } if path == "/tmp/workspace/file.txt"
    ));
}

#[test]
fn validate_workspace_folders_reports_first_bad_folder() {
    let manifest = WorkspaceManifest::new(
        "workspace".to_owned(),
        vec!["/a".to_owned(), "/b".to_owned(), "/c".to_owned()],
        SandboxConfig::default(),
    )
    .expect("manifest should be valid");

    let error = validate_workspace_folders(
        &manifest,
        &vec![FolderKind::Directory, FolderKind::NotDirectory, FolderKind::Missing],
    )
    .expect_err("second folder should fail");

    assert!(matches!(error, ManifestError::FolderNotDirectory { path } if path == "/b"));
}

#[test]
fn workspace_manifest_new_checks_name_before_folders() {
    let error = WorkspaceManifest::new("\t\n".to_owned(), Vec::new(), SandboxConfig::new(true))
        .expect_err("blank name should fail first");

    assert!(matches!(error, ManifestError::EmptyName));
}

#[test]
fn workspace_manifest_new_has_empty_runtime() {
    let manifest = single_folder_manifest("/projects/backend");

    assert_eq!(manifest.runtime(), &RuntimeConfig::default());
    assert_eq!(manifest.runtime().image(), None);
    assert!(manifest.runtime().environment_variables().is_empty());
}

#[test]
fn from_raw_trims_runtime_values_and_orders_environment() {
    let mut raw = raw_manifest("workspace", &["/projects/backend"], Some(false));
    raw.runtime = RawRuntimeConfig {
        image: Some("custom:latest".to_owned()),
        apt: vec![" ripgrep ".to_owned(), "jq".to_owned()],
        setup: vec![" make setup ".to_owned()],
        tools: vec![
            (RuntimeTool::Python, Some(" 3.12 ".to_owned())),
            (RuntimeTool::Node, None),
        ],
        languages: vec!["golang:1.25.1".to_owned()],
    };

    let manifest = WorkspaceManifest::from_raw(raw).expect("manifest should validate");
    let runtime = manifest.runtime();

    assert!(!manifest.sandbox().network());
    assert_eq!(runtime.image(), Some("custom:latest"));
    assert_eq!(runtime.apt_packages(), &["ripgrep".to_owned(), "jq".to_owned()]);
    assert_eq!(runtime.setup_commands(), &["make setup".to_owned()]);
    assert_eq!(runtime.tool_versions().len(), 1);
    assert_eq!(runtime.tool_versions()[0].version(), "3.12");
    assert_eq!(runtime.language_versions()[0].language(), RuntimeLanguage::Go);

    let assignments: Vec<String> = runtime
        .environment_variables()
        .iter()
        .map(|variable| variable.docker_assignment())
        .collect();
    assert_eq!(
        assignments,
        vec![
            "CODEX_ENV_GO_VERSION=1.25.1".to_owned(),
            "CODEX_WS_PYTHON_VERSION=3.12".to_owned(),
            "CODEX_WS_APT_PACKAGES=ripgrep jq".to_owned(),
            "CODEX_WS_SETUP_COMMANDS=make setup".to_owned(),
        ]
    );
}

#[test]
fn from_raw_reports_runtime_errors() {
    let mut raw = raw_manifest("workspace", &["/projects/backend"], None);
    raw.runtime.setup = vec!["  ".to_owned()];

    let error = WorkspaceManifest::from_raw(raw).expect_err("blank setup command should fail");

    assert!(matches!(
        error,
        ManifestError::Runtime(RuntimeSpecError::EmptySetupCommand)
    ));
}

#[test]
fn from_raw_reports_unsupported_language() {
    let mut raw = raw_manifest("workspace", &["/projects/backend"], None);
    raw.runtime.languages = vec!["cobol:85".to_owned()];

    let error = WorkspaceManifest::from_raw(raw).expect_err("unknown language should fail");

    assert!(matches!(
        error,
        ManifestError::Runtime(RuntimeSpecError::UnsupportedLanguage { language }) if language == "cobol"
    ));
}

#[test]
fn workspace_manifest_rejects_duplicate_folder_names() {
    let error = WorkspaceManifest::new(
        "workspace".to_owned(),
        vec!["/a/app".to_owned(), "/b/app".to_owned()],
        SandboxConfig::default(),
    )
    .expect_err("folders with the same name should fail");

    assert!(matches!(error, ManifestError::DuplicateFolderName { name } if name == "app"));
}

#[test]
fn duplicate_folder_names_ignore_trailing_separators_and_dots() {
    let error = WorkspaceManifest::new(
        "workspace".to_owned(),
        vec![
            "/x/api".to_owned(),
            "/a/web/".to_owned(),
            "/b/web/.".to_owned(),
            "/c/api".to_owned(),
        ],
        SandboxConfig::default(),
    )
    .expect_err("folders with the same name should fail");

    assert!(matches!(error, ManifestError::DuplicateFolderName { name } if name == "web"));
}

#[test]
fn distinct_folder_names_are_accepted() {
    let manifest = WorkspaceManifest::new(
        "workspace".to_owned(),
        vec!["/srv/app".to_owned(), "/srv/app-web".to_owned(), "/".to_owned(), "/".to_owned()],
        SandboxConfig::default(),
    )
    .expect("distinct folder names should be accepted");

    assert_eq!(manifest.folders().len(), 4);
}

#[test]
fn from_raw_checks_folder_names_before_runtime() {
    let mut raw = raw_manifest("workspace", &["/a/app", "/b/app"], None);
    raw.runtime.setup = vec!["  ".to_owned()];

    let error = WorkspaceManifest::from_raw(raw).expect_err("duplicate names should fail");

    assert!(matches!(error, ManifestError::DuplicateFolderName { name } if name == "app"));
}

#[test]
fn first_duplicate_folder_name_reports_first_repeat() {
    let folders = vec![
        "/a/one".to_owned(),
        "/a/two".to_owned(),
        "/b/two".to_owned(),
        "/b/one".to_owned(),
    ];

    assert_eq!(first_duplicate_folder_name(&folders), Some("two".to_owned()));
    assert_eq!(first_duplicate_folder_name(&vec!["/a/one".to_owned()]), None);
}
