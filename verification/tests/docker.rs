use codex_ws::docker::{
    container_name, docker_run_args, folder_target, volume_args, CodexHome, DockerLaunchConfig,
};
use codex_ws::manifest::{RuntimeConfig, SandboxConfig, WorkspaceManifest};
use codex_ws::runtime::{RuntimeLanguageVersion, RuntimeTool, RuntimeToolVersion};

fn test_codex_home() -> CodexHome {
    CodexHome::new("/host/.codex-ws/workspace-name/codex-home".to_owned())
}

fn test_manifest(network: bool) -> WorkspaceManifest {
    WorkspaceManifest::new(
        "workspace-name".to_owned(),
        vec!["/projects/backend".to_owned(), "/projects/frontend".to_owned()],
        SandboxConfig::new(network),
    )
    .expect("manifest should be valid")
}

fn test_launch_config() -> DockerLaunchConfig {
    DockerLaunchConfig::new("codex-ws:test".to_owned(), "/host/.codex-ws".to_owned())
}

#[test]
fn docker_run_args_mounts_provider_workspace_and_sessions() {
    let args = docker_run_args(
        &test_codex_home(),
        &test_manifest(false),
        &test_launch_config(),
    )
    .expect("docker args should build");

    assert_eq!(
        args,
        vec![
            "run",
            "--rm",
            "-it",
            "--name",
            "codex-ws-workspace-name",
            "--network",
            "none",
            "-v",
            "/host/.codex-ws/workspace-name/codex-home:/root/.codex",
            "-v",
            "/host/.codex-ws/workspace-name/sessions:/root/.codex/sessions",
            "-v",
            "/projects/backend:/workspace/1",
            "-v",
            "/projects/frontend:/workspace/2",
            "--workdir",
            "/workspace/1",
            "codex-ws:test",
        ]
    );
}

#[test]
fn docker_run_args_omits_network_none_when_network_is_enabled() {
    let args = docker_run_args(
        &test_codex_home(),
        &test_manifest(true),
        &test_launch_config(),
    )
    .expect("docker args should build");

    assert!(!args.iter().any(|arg| arg == "--network"));
    assert!(!args.iter().any(|arg| arg == "none"));
}

#[test]
fn docker_run_args_passes_runtime_environment_variables() {
    let runtime =
        RuntimeLanguageVersion::parse("golang:1.25.1").expect("runtime spec should parse");
    let manifest = WorkspaceManifest::with_runtime(
        "workspace-name".to_owned(),
        vec!["/projects/backend".to_owned()],
        SandboxConfig::default(),
        RuntimeConfig::with_language_versions(None, vec![runtime]),
    )
    .expect("manifest should be valid");

    let args = docker_run_args(&test_codex_home(), &manifest, &test_launch_config())
        .expect("docker args should build");

    assert!(
        args.windows(2)
            .any(|window| window == ["-e", "CODEX_ENV_GO_VERSION=1.25.1"])
    );
}

#[test]
fn container_name_replaces_unsupported_characters() {
    assert_eq!(
        container_name("my workspace/main"),
        "codex-ws-my-workspace-main"
    );
}

#[test]
fn container_name_keeps_underscores_and_replaces_non_ascii() {
    assert_eq!(container_name("a_b-C9.\u{e9}"), "codex-ws-a_b-C9--");
    assert_eq!(container_name(""), "codex-ws-");
}

#[test]
fn docker_run_args_passes_setup_variables_after_versions() {
    let runtime = RuntimeConfig::with_setup(
        Some("custom:1".to_owned()),
        vec!["git".to_owned(), "curl".to_owned()],
        vec!["echo a".to_owned(), "echo b".to_owned()],
        vec![RuntimeToolVersion::new(RuntimeTool::Python, "3.13".to_owned())],
    );
    let manifest = WorkspaceManifest::with_runtime(
        "ws".to_owned(),
        vec!["/p".to_owned()],
        SandboxConfig::new(true),
        runtime,
    )
    .expect("manifest should be valid");

    let args = docker_run_args(&test_codex_home(), &manifest, &test_launch_config())
        .expect("docker args should build");

    assert_eq!(
        &args[4..11],
        &[
            "codex-ws-ws",
            "-e",
            "CODEX_WS_PYTHON_VERSION=3.13",
            "-e",
            "CODEX_WS_APT_PACKAGES=git curl",
            "-e",
            "CODEX_WS_SETUP_COMMANDS=echo a\necho b",
        ]
    );
}

#[test]
fn docker_run_args_mounts_every_folder_in_order() {
    let folders: Vec<String> = (0..11).map(|i| format!("/p/{i}")).collect();
    let manifest = WorkspaceManifest::new("w".to_owned(), folders, SandboxConfig::new(true))
        .expect("manifest should be valid");

    let args = docker_run_args(&test_codex_home(), &manifest, &test_launch_config())
        .expect("docker args should build");

    assert!(args.contains(&"/p/0:/workspace/1".to_owned()));
    assert!(args.contains(&"/p/10:/workspace/11".to_owned()));
    assert_eq!(args[args.len() - 2], "/workspace/1");
    assert_eq!(args[args.len() - 1], "codex-ws:test");
}

#[test]
fn docker_launch_config_paths_and_image() {
    let config = DockerLaunchConfig::new("img".to_owned(), "/root/state/".to_owned());

    assert_eq!(config.workspace_sessions_path("ws"), "/root/state/ws/sessions");
    assert_eq!(config.workspace_codex_home_path("ws"), "/root/state/ws/codex-home");
    let other = config.with_image("other".to_owned());
    assert_eq!(other.image(), "other");
    assert_eq!(other.sessions_root(), "/root/state/");
}

#[test]
fn docker_launch_config_absolute_workspace_name_replaces_root() {
    let config = DockerLaunchConfig::new("img".to_owned(), "/root/state".to_owned());

    assert_eq!(config.workspace_sessions_path("/abs"), "/abs/sessions");
}

#[test]
fn volume_args_marks_read_only_mounts() {
    assert_eq!(volume_args("/a", "/b", true), vec!["-v", "/a:/b:ro"]);
    assert_eq!(volume_args("/a", "/b", false), vec!["-v", "/a:/b"]);
}

#[test]
fn folder_target_counts_from_one() {
    assert_eq!(folder_target(0), "/workspace/1");
    assert_eq!(folder_target(99), "/workspace/100");
}

#[test]
fn codex_home_keeps_path() {
    assert_eq!(CodexHome::new("/h".to_owned()).path(), "/h");
}

#[test]
fn default_for_home_places_sessions_under_home() {
    let config = DockerLaunchConfig::default_for_home(Some("/home/dev".to_owned()));
    assert_eq!(config.image(), "ghcr.io/honahec/codex-multi-workspace:latest");
    assert_eq!(config.sessions_root(), "/home/dev/.codex-ws");

    let fallback = DockerLaunchConfig::default_for_home(None);
    assert_eq!(fallback.sessions_root(), ".codex-ws");
}

#[test]
fn workspace_provider_config_path_is_under_workspace_state() {
    let config = DockerLaunchConfig::new("image".to_owned(), "/host/.codex-ws".to_owned());
    assert_eq!(
        config.workspace_provider_config_path("backend"),
        "/host/.codex-ws/backend/provider-config"
    );
}

#[test]
fn default_launch_config_uses_default_image() {
    let config = DockerLaunchConfig::default();
    assert_eq!(config.image(), "ghcr.io/honahec/codex-multi-workspace:latest");
    assert!(config.sessions_root().ends_with(".codex-ws"));
}
