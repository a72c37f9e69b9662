use codex_ws::app::{
    exit_code_is_success, image_version_is_current, needs_image_check, select_provider,
    trusted_workspace_config, RunConfig, RunError,
};
use codex_ws::cli::RunArgs;
use codex_ws::config::{ConfigError, UserConfig, CC_SWITCH_DB};
use codex_ws::docker::{DockerLaunchConfig, DEFAULT_CODEX_IMAGE, DEFAULT_CODEX_IMAGE_VERSION};
use codex_ws::manifest::{RuntimeConfig, SandboxConfig, WorkspaceManifest};
use codex_ws::provider::CodexProvider;
use codex_ws::workspace::WorkspaceError;

#[test]
fn select_provider_returns_matching_provider() {
    let provider = CodexProvider::new(
        "primary".to_owned(),
        "auth.json".to_owned(),
        "config.toml".to_owned(),
    );

    let selected = select_provider(vec![provider.clone()], "primary")
        .expect("provider should be selected");

    assert_eq!(selected, provider);
}

#[test]
fn select_provider_rejects_missing_provider() {
    let error = select_provider(Vec::new(), "missing")
        .expect_err("missing provider should fail")
        .message();

    assert_eq!(error, "Codex provider 'missing' was not found");
}

#[test]
fn select_provider_returns_first_of_duplicates() {
    let first = CodexProvider::new("p".to_owned(), "a1".to_owned(), "c1".to_owned());
    let second = CodexProvider::new("p".to_owned(), "a2".to_owned(), "c2".to_owned());
    let other = CodexProvider::new("q".to_owned(), "a0".to_owned(), "c0".to_owned());

    let selected = select_provider(vec![other, first.clone(), second], "p")
        .expect("provider should be selected");

    assert_eq!(selected, first);
}

#[test]
fn effective_docker_launch_config_uses_manifest_runtime_image() {
    let config = RunConfig::new(
        "primary".to_owned(),
        "/tmp/workspace.yaml".to_owned(),
        "/tmp/cc-switch.db".to_owned(),
        None,
        DockerLaunchConfig::new(DEFAULT_CODEX_IMAGE.to_owned(), "/host/.codex-ws".to_owned()),
    );
    let manifest = WorkspaceManifest::with_runtime(
        "workspace".to_owned(),
        vec!["/host/project".to_owned()],
        SandboxConfig::default(),
        RuntimeConfig::new(Some("rust-codex-ws:latest".to_owned())),
    )
    .expect("manifest should be valid");

    let launch_config = config.effective_docker_launch_config(&manifest);

    assert_eq!(launch_config.image(), "rust-codex-ws:latest");
}

#[test]
fn effective_docker_launch_config_prefers_cli_image_override() {
    let config = RunConfig::new(
        "primary".to_owned(),
        "/tmp/workspace.yaml".to_owned(),
        "/tmp/cc-switch.db".to_owned(),
        Some("cli-codex-ws:latest".to_owned()),
        DockerLaunchConfig::new(DEFAULT_CODEX_IMAGE.to_owned(), "/host/.codex-ws".to_owned()),
    );
    let manifest = WorkspaceManifest::with_runtime(
        "workspace".to_owned(),
        vec!["/host/project".to_owned()],
        SandboxConfig::default(),
        RuntimeConfig::new(Some("manifest-codex-ws:latest".to_owned())),
    )
    .expect("manifest should be valid");

    let launch_config = config.effective_docker_launch_config(&manifest);

    assert_eq!(launch_config.image(), "cli-codex-ws:latest");
}

#[test]
fn effective_docker_launch_config_keeps_default_image() {
    let config = RunConfig::new(
        "primary".to_owned(),
        "/tmp/workspace.yaml".to_owned(),
        "/tmp/cc-switch.db".to_owned(),
        None,
        DockerLaunchConfig::new(DEFAULT_CODEX_IMAGE.to_owned(), "/host/.codex-ws".to_owned()),
    );
    let manifest = WorkspaceManifest::new(
        "workspace".to_owned(),
        vec!["/host/project".to_owned()],
        SandboxConfig::default(),
    )
    .expect("manifest should be valid");

    let launch_config = config.effective_docker_launch_config(&manifest);

    assert_eq!(launch_config.image(), DEFAULT_CODEX_IMAGE);
    assert_eq!(launch_config.sessions_root(), "/host/.codex-ws");
}

#[test]
fn trusted_workspace_config_trusts_every_container_workspace_path() {
    let manifest = WorkspaceManifest::new(
        "workspace".to_owned(),
        vec!["/host/backend".to_owned(), "/host/frontend".to_owned()],
        SandboxConfig::default(),
    )
    .expect("manifest should be valid");

    let config = trusted_workspace_config("model = \"gpt-5.5\"\n", &manifest);

    assert!(config.contains("[projects.\"/workspace/1\"]\ntrust_level = \"trusted\""));
    assert!(config.contains("[projects.\"/workspace/2\"]\ntrust_level = \"trusted\""));
}

#[test]
fn trusted_workspace_config_matches_written_file_layout() {
    let manifest = WorkspaceManifest::new(
        "workspace".to_owned(),
        vec!["/host/project".to_owned()],
        SandboxConfig::default(),
    )
    .expect("manifest should be valid");

    assert_eq!(
        trusted_workspace_config("model = \"gpt-5.5\"\n  \n", &manifest),
        "model = \"gpt-5.5\"\n\n[projects.\"/workspace/1\"]\ntrust_level = \"trusted\"\n\n"
    );
}

#[test]
fn image_check_only_for_default_image() {
    assert!(needs_image_check(DEFAULT_CODEX_IMAGE));
    assert!(!needs_image_check("custom:latest"));
}

#[test]
fn image_version_is_current_trims_label() {
    let label = format!("{DEFAULT_CODEX_IMAGE_VERSION}\n");
    assert!(image_version_is_current(true, &label));
    assert!(!image_version_is_current(false, &label));
    assert!(!image_version_is_current(true, "3\n"));
    assert!(!image_version_is_current(true, ""));
}

#[test]
fn exit_code_success_only_for_zero() {
    assert!(exit_code_is_success(Some(0)));
    assert!(!exit_code_is_success(Some(1)));
    assert!(!exit_code_is_success(None));
}

fn run_args(workspace: &str) -> RunArgs {
    RunArgs {
        provider: "primary".to_owned(),
        workspace: workspace.to_owned(),
        sessions_root: None,
        config_db: None,
        image: None,
    }
}

#[test]
fn from_args_with_home_uses_home_defaults() {
    let config = RunConfig::from_args_with_home(
        run_args("backend"),
        &UserConfig::default(),
        Some("/home/alice".to_owned()),
    )
    .expect("run config should build");

    assert_eq!(config.provider_name(), "primary");
    assert_eq!(
        config.workspace_path(),
        "/home/alice/.codex-ws/config/workspace/backend.yaml"
    );
    assert_eq!(
        config.provider_database_path(),
        "/home/alice/.cc-switch/cc-switch.db"
    );
    assert_eq!(config.docker_launch_config().image(), DEFAULT_CODEX_IMAGE);
    assert_eq!(
        config.docker_launch_config().sessions_root(),
        "/home/alice/.codex-ws"
    );
    assert_eq!(config.image_override(), None);
}

#[test]
fn from_args_with_home_prefers_saved_database_then_cli_database() {
    let mut saved = UserConfig::default();
    saved
        .set_value(CC_SWITCH_DB, "/data/cc.db".to_owned())
        .expect("supported config should set");

    let from_saved =
        RunConfig::from_args_with_home(run_args("./w.yaml"), &saved, Some("/h".to_owned()))
            .expect("run config should build");
    assert_eq!(from_saved.provider_database_path(), "/data/cc.db");
    assert_eq!(from_saved.workspace_path(), "./w.yaml");

    let mut args = run_args("~/w.yaml");
    args.config_db = Some("~/other.db".to_owned());
    args.sessions_root = Some("~/state".to_owned());
    args.image = Some("img:1".to_owned());
    let from_cli = RunConfig::from_args_with_home(args, &saved, Some("/h".to_owned()))
        .expect("run config should build");
    assert_eq!(from_cli.provider_database_path(), "/h/other.db");
    assert_eq!(from_cli.workspace_path(), "/h/w.yaml");
    assert_eq!(from_cli.docker_launch_config().sessions_root(), "/h/state");
    assert_eq!(from_cli.image_override(), Some("img:1"));
}

#[test]
fn from_args_with_home_reports_missing_home_and_bad_names() {
    let missing = RunConfig::from_args_with_home(run_args("backend"), &UserConfig::default(), None)
        .expect_err("missing home should fail");
    assert!(matches!(
        missing,
        RunError::Config(ConfigError::MissingHomeDirectory)
    ));
    assert_eq!(missing.message(), "failed to resolve user home directory");

    let bad = RunConfig::from_args_with_home(
        run_args(".."),
        &UserConfig::default(),
        Some("/h".to_owned()),
    )
    .expect_err("bad name should fail");
    assert!(matches!(
        bad,
        RunError::Workspace(WorkspaceError::PathSeparators { ref name }) if name == ".."
    ));
}
