use codex_ws::runtime::{
    validate_apt_packages, validate_runtime_tool_versions, validate_setup_commands,
    validate_tool_entries, validate_tool_version, RuntimeEnvironmentVariable, RuntimeLanguage,
    RuntimeLanguageVersion, RuntimeSpecError, RuntimeTool, RuntimeToolVersion,
};

#[test]
fn validate_apt_packages_accepts_common_package_syntax() {
    let packages = validate_apt_packages(vec![
        " python3 ".to_owned(),
        "libssl-dev:amd64".to_owned(),
        "nodejs=22.0.0-1nodesource1".to_owned(),
    ])
    .expect("apt packages should validate");

    assert_eq!(
        packages,
        vec![
            "python3".to_owned(),
            "libssl-dev:amd64".to_owned(),
            "nodejs=22.0.0-1nodesource1".to_owned()
        ]
    );
}

#[test]
fn validate_apt_packages_rejects_shell_metacharacters() {
    let error = validate_apt_packages(vec!["python3;curl".to_owned()])
        .expect_err("shell metacharacters should fail");

    assert!(matches!(
        error,
        RuntimeSpecError::InvalidAptPackage { package } if package == "python3;curl"
    ));
}

#[test]
fn validate_setup_commands_rejects_empty_commands() {
    let error =
        validate_setup_commands(vec![" ".to_owned()]).expect_err("blank command should fail");

    assert_eq!(error, RuntimeSpecError::EmptySetupCommand);
}

#[test]
fn validate_tool_version_trims_versions() {
    let version = validate_tool_version(RuntimeTool::Python, Some(" 3.13 ".to_owned()))
        .expect("version should validate");

    assert_eq!(
        version,
        Some(RuntimeToolVersion::new(
            RuntimeTool::Python,
            "3.13".to_owned()
        ))
    );
}

#[test]
fn validate_tool_version_rejects_shell_metacharacters() {
    let error = validate_tool_version(RuntimeTool::Go, Some("1.24;curl".to_owned()))
        .expect_err("shell metacharacters should fail");

    assert!(matches!(
        error,
        RuntimeSpecError::InvalidToolVersion {
            tool: RuntimeTool::Go,
            version
        } if version == "1.24;curl"
    ));
}

#[test]
fn validate_runtime_tool_versions_accepts_matching_compiler_aliases() {
    let versions = validate_runtime_tool_versions(vec![
        RuntimeToolVersion::new(RuntimeTool::C, "20".to_owned()),
        RuntimeToolVersion::new(RuntimeTool::Cpp, "20".to_owned()),
    ])
    .expect("matching compiler aliases should validate");

    assert_eq!(versions.len(), 2);
}

#[test]
fn validate_runtime_tool_versions_rejects_conflicting_compiler_aliases() {
    let error = validate_runtime_tool_versions(vec![
        RuntimeToolVersion::new(RuntimeTool::C, "20".to_owned()),
        RuntimeToolVersion::new(RuntimeTool::Cpp, "21".to_owned()),
    ])
    .expect_err("conflicting compiler aliases should fail");

    assert!(matches!(
        error,
        RuntimeSpecError::ConflictingCompilerVersions { first, second }
            if first == "20" && second == "21"
    ));
}

#[test]
fn validate_apt_packages_rejects_blank_package_first() {
    let error = validate_apt_packages(vec![
        "git".to_owned(),
        "\t \n".to_owned(),
        "bad;pkg".to_owned(),
    ])
    .expect_err("blank package should fail");

    assert_eq!(error, RuntimeSpecError::EmptyAptPackage);
}

#[test]
fn validate_apt_packages_reports_first_invalid_package_trimmed() {
    let error = validate_apt_packages(vec![" a|b ".to_owned(), "c&d".to_owned()])
        .expect_err("invalid package should fail");

    assert_eq!(
        error,
        RuntimeSpecError::InvalidAptPackage {
            package: "a|b".to_owned()
        }
    );
}

#[test]
fn validate_apt_packages_rejects_non_ascii_letters() {
    let error = validate_apt_packages(vec!["caf\u{e9}".to_owned()])
        .expect_err("non-ASCII package should fail");

    assert!(matches!(error, RuntimeSpecError::InvalidAptPackage { .. }));
}

#[test]
fn validate_apt_packages_accepts_empty_list() {
    assert_eq!(validate_apt_packages(Vec::new()), Ok(Vec::new()));
}

#[test]
fn validate_setup_commands_trims_and_keeps_order() {
    let commands = validate_setup_commands(vec![
        "  echo one ".to_owned(),
        "\u{3000}echo two\u{2003}".to_owned(),
    ])
    .expect("commands should validate");

    assert_eq!(commands, vec!["echo one".to_owned(), "echo two".to_owned()]);
}

#[test]
fn validate_tool_version_accepts_missing_version() {
    assert_eq!(validate_tool_version(RuntimeTool::Rust, None), Ok(None));
}

#[test]
fn validate_tool_version_rejects_blank_version() {
    assert_eq!(
        validate_tool_version(RuntimeTool::Java, Some("   ".to_owned())),
        Err(RuntimeSpecError::EmptyToolVersion {
            tool: RuntimeTool::Java
        })
    );
}

#[test]
fn validate_tool_version_accepts_version_punctuation() {
    let version = validate_tool_version(RuntimeTool::Node, Some("lts/iron@22+b_1:x".to_owned()))
        .expect("version should validate")
        .expect("version should be present");

    assert_eq!(version.version(), "lts/iron@22+b_1:x");
    assert_eq!(version.tool(), RuntimeTool::Node);
}

#[test]
fn validate_runtime_tool_versions_ignores_non_compiler_tools() {
    let versions = validate_runtime_tool_versions(vec![
        RuntimeToolVersion::new(RuntimeTool::Python, "3.12".to_owned()),
        RuntimeToolVersion::new(RuntimeTool::Clang, "19".to_owned()),
        RuntimeToolVersion::new(RuntimeTool::Node, "22".to_owned()),
        RuntimeToolVersion::new(RuntimeTool::C, "19".to_owned()),
    ])
    .expect("only compiler versions must agree");

    assert_eq!(versions[2], RuntimeToolVersion::new(RuntimeTool::Node, "22".to_owned()));
}

#[test]
fn validate_runtime_tool_versions_reports_first_conflict() {
    let error = validate_runtime_tool_versions(vec![
        RuntimeToolVersion::new(RuntimeTool::Clang, "18".to_owned()),
        RuntimeToolVersion::new(RuntimeTool::Cpp, "18".to_owned()),
        RuntimeToolVersion::new(RuntimeTool::C, "19".to_owned()),
        RuntimeToolVersion::new(RuntimeTool::Cpp, "20".to_owned()),
    ])
    .expect_err("conflict should fail");

    assert_eq!(
        error,
        RuntimeSpecError::ConflictingCompilerVersions {
            first: "18".to_owned(),
            second: "19".to_owned()
        }
    );
}

#[test]
fn validate_tool_entries_keeps_present_versions_in_order() {
    let versions = validate_tool_entries(vec![
        (RuntimeTool::Python, Some(" 3.13".to_owned())),
        (RuntimeTool::Node, None),
        (RuntimeTool::Go, Some("1.25 ".to_owned())),
    ])
    .expect("entries should validate");

    assert_eq!(
        versions,
        vec![
            RuntimeToolVersion::new(RuntimeTool::Python, "3.13".to_owned()),
            RuntimeToolVersion::new(RuntimeTool::Go, "1.25".to_owned()),
        ]
    );
}

#[test]
fn validate_tool_entries_reports_first_bad_entry() {
    let error = validate_tool_entries(vec![
        (RuntimeTool::Zig, Some("0.14".to_owned())),
        (RuntimeTool::Bun, Some("1 2".to_owned())),
        (RuntimeTool::Deno, Some(" ".to_owned())),
    ])
    .expect_err("bad entry should fail");

    assert_eq!(
        error,
        RuntimeSpecError::InvalidToolVersion {
            tool: RuntimeTool::Bun,
            version: "1 2".to_owned()
        }
    );
}

#[test]
fn runtime_tool_names_and_environment_variables() {
    assert_eq!(RuntimeTool::Dotnet.name(), "dotnet");
    assert_eq!(RuntimeTool::Cpp.name(), "cpp");
    assert_eq!(RuntimeTool::Dotnet.environment_variable(), "CODEX_WS_DOTNET_VERSION");
    assert_eq!(RuntimeTool::C.environment_variable(), "CODEX_WS_C_VERSION");
    assert_eq!(RuntimeTool::Php.environment_variable(), "CODEX_WS_PHP_VERSION");
}

#[test]
fn runtime_tool_version_environment_variable_assignment() {
    let variable = RuntimeToolVersion::new(RuntimeTool::Ruby, "3.4".to_owned()).environment_variable();

    assert_eq!(variable.name(), "CODEX_WS_RUBY_VERSION");
    assert_eq!(variable.value(), "3.4");
    assert_eq!(variable.docker_assignment(), "CODEX_WS_RUBY_VERSION=3.4");
}

#[test]
fn runtime_environment_variable_assignment_keeps_equals_in_value() {
    let variable = RuntimeEnvironmentVariable::new("NAME", "a=b".to_owned());

    assert_eq!(variable.docker_assignment(), "NAME=a=b");
}

#[test]
fn language_version_parses_aliases() {
    let go = RuntimeLanguageVersion::parse("golang:1.25.1").expect("golang should parse");
    let node = RuntimeLanguageVersion::parse(" nodejs : 22 ").expect("nodejs should parse");

    assert_eq!(go.language(), RuntimeLanguage::Go);
    assert_eq!(go.version(), "1.25.1");
    assert_eq!(node.language(), RuntimeLanguage::Node);
    assert_eq!(node.version(), "22");
    assert_eq!(
        go.environment_variable().docker_assignment(),
        "CODEX_ENV_GO_VERSION=1.25.1"
    );
}

#[test]
fn language_version_splits_at_first_colon() {
    let python = RuntimeLanguageVersion::parse("python:3.12:slim").expect("python should parse");

    assert_eq!(python.version(), "3.12:slim");
}

#[test]
fn language_version_rejects_missing_colon() {
    assert_eq!(
        RuntimeLanguageVersion::parse("python3.12"),
        Err(RuntimeSpecError::InvalidLanguageSpec {
            spec: "python3.12".to_owned()
        })
    );
}

#[test]
fn language_version_rejects_unknown_language() {
    assert_eq!(
        RuntimeLanguageVersion::parse(" cobol :85"),
        Err(RuntimeSpecError::UnsupportedLanguage {
            language: "cobol".to_owned()
        })
    );
}

#[test]
fn language_version_rejects_empty_or_unsafe_version() {
    assert_eq!(
        RuntimeLanguageVersion::parse("rust: "),
        Err(RuntimeSpecError::InvalidLanguageSpec {
            spec: "rust: ".to_owned()
        })
    );
    assert_eq!(
        RuntimeLanguageVersion::parse("rust:1.80;ls"),
        Err(RuntimeSpecError::InvalidLanguageSpec {
            spec: "rust:1.80;ls".to_owned()
        })
    );
}
