//! Workspace runtime setup: apt packages, setup commands, declarative tool and
//! language versions, and the Docker environment variables that carry them to
//! the runtime entrypoint.

use vstd::prelude::*;
use vstd::string::*;

use crate::text::{
    is_ascii_alnum, is_ascii_alnum_char, str_equal, strings_view, to_owned_string, trim, trim_spec,
};

verus! {

/// Environment variable used by the runtime entrypoint for apt packages.
pub const CODEX_WS_APT_PACKAGES_ENV: &'static str = "CODEX_WS_APT_PACKAGES";

/// Environment variable used by the runtime entrypoint for setup commands.
pub const CODEX_WS_SETUP_COMMANDS_ENV: &'static str = "CODEX_WS_SETUP_COMMANDS";

/// Environment variable used by the runtime entrypoint for Python version selection.
pub const CODEX_WS_PYTHON_VERSION_ENV: &'static str = "CODEX_WS_PYTHON_VERSION";

/// Environment variable used by the runtime entrypoint for Node.js version selection.
pub const CODEX_WS_NODE_VERSION_ENV: &'static str = "CODEX_WS_NODE_VERSION";

/// Environment variable used by the runtime entrypoint for Go version selection.
pub const CODEX_WS_GO_VERSION_ENV: &'static str = "CODEX_WS_GO_VERSION";

/// Environment variable used by the runtime entrypoint for Rust version selection.
pub const CODEX_WS_RUST_VERSION_ENV: &'static str = "CODEX_WS_RUST_VERSION";

/// Environment variable used by the runtime entrypoint for Java version selection.
pub const CODEX_WS_JAVA_VERSION_ENV: &'static str = "CODEX_WS_JAVA_VERSION";

/// Environment variable used by the runtime entrypoint for Clang version selection.
pub const CODEX_WS_CLANG_VERSION_ENV: &'static str = "CODEX_WS_CLANG_VERSION";

/// Environment variable used by the runtime entrypoint for C compiler version selection.
pub const CODEX_WS_C_VERSION_ENV: &'static str = "CODEX_WS_C_VERSION";

/// Environment variable used by the runtime entrypoint for C++ compiler version selection.
pub const CODEX_WS_CPP_VERSION_ENV: &'static str = "CODEX_WS_CPP_VERSION";

/// Environment variable used by the runtime entrypoint for Ruby version selection.
pub const CODEX_WS_RUBY_VERSION_ENV: &'static str = "CODEX_WS_RUBY_VERSION";

/// Environment variable used by the runtime entrypoint for PHP version selection.
pub const CODEX_WS_PHP_VERSION_ENV: &'static str = "CODEX_WS_PHP_VERSION";

/// Environment variable used by the runtime entrypoint for Deno version selection.
pub const CODEX_WS_DENO_VERSION_ENV: &'static str = "CODEX_WS_DENO_VERSION";

/// Environment variable used by the runtime entrypoint for Bun version selection.
pub const CODEX_WS_BUN_VERSION_ENV: &'static str = "CODEX_WS_BUN_VERSION";

/// Environment variable used by the runtime entrypoint for Zig version selection.
pub const CODEX_WS_ZIG_VERSION_ENV: &'static str = "CODEX_WS_ZIG_VERSION";

/// Environment variable used by the runtime entrypoint for .NET version selection.
pub const CODEX_WS_DOTNET_VERSION_ENV: &'static str = "CODEX_WS_DOTNET_VERSION";

/// Environment variable read by Codex images for the Python version.
pub const CODEX_ENV_PYTHON_VERSION_ENV: &'static str = "CODEX_ENV_PYTHON_VERSION";

/// Environment variable read by Codex images for the Node.js version.
pub const CODEX_ENV_NODE_VERSION_ENV: &'static str = "CODEX_ENV_NODE_VERSION";

/// Environment variable read by Codex images for the Go version.
pub const CODEX_ENV_GO_VERSION_ENV: &'static str = "CODEX_ENV_GO_VERSION";

/// Environment variable read by Codex images for the Rust version.
pub const CODEX_ENV_RUST_VERSION_ENV: &'static str = "CODEX_ENV_RUST_VERSION";

/// Environment variable read by Codex images for the Swift version.
pub const CODEX_ENV_SWIFT_VERSION_ENV: &'static str = "CODEX_ENV_SWIFT_VERSION";

/// Environment variable read by Codex images for the Ruby version.
pub const CODEX_ENV_RUBY_VERSION_ENV: &'static str = "CODEX_ENV_RUBY_VERSION";

/// Environment variable read by Codex images for the PHP version.
pub const CODEX_ENV_PHP_VERSION_ENV: &'static str = "CODEX_ENV_PHP_VERSION";

/// Environment variable read by Codex images for the Java version.
pub const CODEX_ENV_JAVA_VERSION_ENV: &'static str = "CODEX_ENV_JAVA_VERSION";

/// Docker environment variable generated from a workspace runtime config.
#[derive(Debug, Clone, PartialEq, Eq)]
pub struct RuntimeEnvironmentVariable {
    name: &'static str,
    value: String,
}

/// Mathematical model of a [`RuntimeEnvironmentVariable`].
pub struct RuntimeEnvironmentVariableView {
    pub name: Seq<char>,
    pub value: Seq<char>,
}

impl View for RuntimeEnvironmentVariable {
    type V = RuntimeEnvironmentVariableView;

    closed spec fn view(&self) -> RuntimeEnvironmentVariableView {
        RuntimeEnvironmentVariableView { name: self.name@, value: self.value@ }
    }
}

/// The `NAME=value` text passed to `docker run -e`.
pub open spec fn docker_assignment_spec(v: RuntimeEnvironmentVariableView) -> Seq<char> {
    v.name + seq!['='] + v.value
}

impl RuntimeEnvironmentVariable {
    /// Create a runtime environment variable.
    pub fn new(name: &'static str, value: String) -> (r: Self)
        ensures
            r@.name == name@,
            r@.value == value@,
    {
        Self { name, value }
    }

    /// Return the environment variable name.
    pub fn name(&self) -> (r: &'static str)
        ensures
            r@ == self@.name,
    {
        self.name
    }

    /// Return the environment variable value.
    pub fn value(&self) -> (r: &str)
        ensures
            r@ == self@.value,
    {
        self.value.as_str()
    }

    /// Return the `NAME=value` form accepted by `docker run -e`.
    pub fn docker_assignment(&self) -> (r: String)
        ensures
            r@ == docker_assignment_spec(self@),
    {
        proof {
            reveal_strlit("=");
        }
        let mut out = String::from_str(self.name);
        out.append("=");
        out.append(self.value.as_str());
        out
    }
}

/// Characters allowed in an apt package entry.
pub open spec fn apt_package_char(c: char) -> bool {
    ||| is_ascii_alnum_char(c)
    ||| c == '+'
    ||| c == '-'
    ||| c == '.'
    ||| c == '_'
    ||| c == ':'
    ||| c == '='
    ||| c == '~'
}

/// Characters allowed in a declarative tool or language version.
pub open spec fn tool_version_char(c: char) -> bool {
    ||| is_ascii_alnum_char(c)
    ||| c == '+'
    ||| c == '-'
    ||| c == '.'
    ||| c == '_'
    ||| c == ':'
    ||| c == '/'
    ||| c == '@'
}

/// Every character of `s` may appear in an apt package entry.
pub open spec fn valid_apt_package_spec(s: Seq<char>) -> bool {
    forall|i: int| 0 <= i < s.len() ==> apt_package_char(#[trigger] s[i])
}

/// Every character of `s` may appear in a tool version.
pub open spec fn valid_tool_version_spec(s: Seq<char>) -> bool {
    forall|i: int| 0 <= i < s.len() ==> tool_version_char(#[trigger] s[i])
}

/// A raw apt entry is accepted: it is not blank and, trimmed, holds only allowed characters.
pub open spec fn apt_entry_ok(raw: Seq<char>) -> bool {
    trim_spec(raw).len() > 0 && valid_apt_package_spec(trim_spec(raw))
}

/// The error reported for a rejected raw apt entry.
pub open spec fn apt_entry_error(raw: Seq<char>, e: RuntimeSpecError) -> bool {
    if trim_spec(raw).len() == 0 {
        e == RuntimeSpecError::EmptyAptPackage
    } else {
        e matches RuntimeSpecError::InvalidAptPackage { package } && package@ == trim_spec(raw)
    }
}

/// A raw setup command is accepted: it is not blank.
pub open spec fn setup_entry_ok(raw: Seq<char>) -> bool {
    trim_spec(raw).len() > 0
}

/// Each entry of `v`, trimmed.
pub open spec fn trimmed_view(v: Seq<String>) -> Seq<Seq<char>> {
    Seq::new(v.len(), |i: int| trim_spec(v[i]@))
}

/// Every raw apt entry is accepted.
pub open spec fn apt_all_ok(packages: Seq<String>) -> bool {
    forall|i: int| 0 <= i < packages.len() ==> apt_entry_ok(#[trigger] packages[i]@)
}

/// `e` is the error for the first rejected raw apt entry.
pub open spec fn apt_stage_error(packages: Seq<String>, e: RuntimeSpecError) -> bool {
    exists|i: int|
        {
            &&& 0 <= i < packages.len()
            &&& !apt_entry_ok(#[trigger] packages[i]@)
            &&& forall|j: int| 0 <= j < i ==> apt_entry_ok(#[trigger] packages[j]@)
            &&& apt_entry_error(packages[i]@, e)
        }
}

/// Every raw setup command is accepted.
pub open spec fn setup_all_ok(commands: Seq<String>) -> bool {
    forall|i: int| 0 <= i < commands.len() ==> setup_entry_ok(#[trigger] commands[i]@)
}

fn is_valid_apt_package(package: &str) -> (r: bool)
    ensures
        r == valid_apt_package_spec(package@),
{
    let n = package.unicode_len();
    let mut i: usize = 0;
    while i < n
        invariant
            i <= n,
            n == package@.len(),
            forall|k: int| 0 <= k < i ==> apt_package_char(#[trigger] package@[k]),
        decreases n - i,
    {
        let c = package.get_char(i);
        if !(is_ascii_alnum(c) || c == '+' || c == '-' || c == '.' || c == '_' || c == ':' || c
            == '=' || c == '~') {
            assert(!apt_package_char(package@[i as int]));
            return false;
        }
        i = i + 1;
    }
    true
}

fn is_valid_tool_version(version: &str) -> (r: bool)
    ensures
        r == valid_tool_version_spec(version@),
{
    let n = version.unicode_len();
    let mut i: usize = 0;
    while i < n
        invariant
            i <= n,
            n == version@.len(),
            forall|k: int| 0 <= k < i ==> tool_version_char(#[trigger] version@[k]),
        decreases n - i,
    {
        let c = version.get_char(i);
        if !(is_ascii_alnum(c) || c == '+' || c == '-' || c == '.' || c == '_' || c == ':' || c
            == '/' || c == '@') {
            assert(!tool_version_char(version@[i as int]));
            return false;
        }
        i = i + 1;
    }
    true
}

/// Validate apt package names from a workspace manifest.
///
/// Returns the trimmed package names in input order, or the error for the first
/// entry that is blank ([`RuntimeSpecError::EmptyAptPackage`]) or holds a character
/// outside letters, digits and `+ - . _ : = ~` ([`RuntimeSpecError::InvalidAptPackage`]).
pub fn validate_apt_packages(packages: Vec<String>) -> (r: Result<Vec<String>, RuntimeSpecError>)
    ensures
        r is Ok <==> apt_all_ok(packages@),
        r matches Ok(v) ==> strings_view(v@) == trimmed_view(packages@),
        r matches Err(e) ==> apt_stage_error(packages@, e),
{
    let mut validated: Vec<String> = Vec::new();
    let mut i: usize = 0;
    while i < packages.len()
        invariant
            i <= packages@.len(),
            validated@.len() == i,
            forall|j: int| 0 <= j < i ==> apt_entry_ok(#[trigger] packages@[j]@),
            forall|j: int| 0 <= j < i ==> #[trigger] validated@[j]@ == trim_spec(packages@[j]@),
        decreases packages@.len() - i,
    {
        let package = trim(packages[i].as_str());
        if package.as_str().is_empty() {
            return Err(RuntimeSpecError::EmptyAptPackage);
        }
        if !is_valid_apt_package(package.as_str()) {
            return Err(RuntimeSpecError::InvalidAptPackage { package });
        }
        validated.push(package);
        i = i + 1;
    }
    assert(strings_view(validated@) =~= trimmed_view(packages@));
    Ok(validated)
}

/// Validate setup commands from a workspace manifest.
///
/// Returns the trimmed commands in input order, or
/// [`RuntimeSpecError::EmptySetupCommand`] when any command is blank.
pub fn validate_setup_commands(commands: Vec<String>) -> (r: Result<Vec<String>, RuntimeSpecError>)
    ensures
        r is Ok <==> setup_all_ok(commands@),
        r matches Ok(v) ==> strings_view(v@) == trimmed_view(commands@),
        r matches Err(e) ==> e == RuntimeSpecError::EmptySetupCommand,
{
    let mut validated: Vec<String> = Vec::new();
    let mut i: usize = 0;
    while i < commands.len()
        invariant
            i <= commands@.len(),
            validated@.len() == i,
            forall|j: int| 0 <= j < i ==> setup_entry_ok(#[trigger] commands@[j]@),
            forall|j: int| 0 <= j < i ==> #[trigger] validated@[j]@ == trim_spec(commands@[j]@),
        decreases commands@.len() - i,
    {
        let command = trim(commands[i].as_str());
        if command.as_str().is_empty() {
            return Err(RuntimeSpecError::EmptySetupCommand);
        }
        validated.push(command);
        i = i + 1;
    }
    assert(strings_view(validated@) =~= trimmed_view(commands@));
    Ok(validated)
}

/// Validate a runtime tool version from a workspace manifest.
///
/// No version gives `Ok(None)`; otherwise the version is trimmed and must be
/// non-empty and made of letters, digits and `+ - . _ : / @`.
pub fn validate_tool_version(tool: RuntimeTool, version: Option<String>) -> (r: Result<
    Option<RuntimeToolVersion>,
    RuntimeSpecError,
>)
    ensures
        match version {
            None => r matches Ok(None),
            Some(v) => {
                let t = trim_spec(v@);
                if t.len() == 0 {
                    r == Err::<Option<RuntimeToolVersion>, RuntimeSpecError>(
                        RuntimeSpecError::EmptyToolVersion { tool },
                    )
                } else if !valid_tool_version_spec(t) {
                    r matches Err(RuntimeSpecError::InvalidToolVersion { tool: bad_tool, version })
                        && bad_tool == tool && version@ == t
                } else {
                    r matches Ok(Some(tv)) && tv@ == (RuntimeToolVersionView { tool, version: t })
                }
            },
        },
{
    let version = match version {
        None => return Ok(None),
        Some(v) => v,
    };
    let version = trim(version.as_str());
    if version.as_str().is_empty() {
        return Err(RuntimeSpecError::EmptyToolVersion { tool });
    }
    if !is_valid_tool_version(version.as_str()) {
        return Err(RuntimeSpecError::InvalidToolVersion { tool, version });
    }
    Ok(Some(RuntimeToolVersion::new(tool, version)))
}

/// A raw `(tool, version)` entry is accepted: no version, or a non-blank version
/// that, trimmed, holds only allowed characters.
pub open spec fn tool_entry_ok(entry: (RuntimeTool, Option<String>)) -> bool {
    match entry.1 {
        None => true,
        Some(v) => trim_spec(v@).len() > 0 && valid_tool_version_spec(trim_spec(v@)),
    }
}

/// The error reported for a rejected raw `(tool, version)` entry.
pub open spec fn tool_entry_error(entry: (RuntimeTool, Option<String>), e: RuntimeSpecError) -> bool {
    match entry.1 {
        None => false,
        Some(v) => if trim_spec(v@).len() == 0 {
            e == RuntimeSpecError::EmptyToolVersion { tool: entry.0 }
        } else {
            e matches RuntimeSpecError::InvalidToolVersion { tool, version } && tool == entry.0
                && version@ == trim_spec(v@)
        },
    }
}

/// Every raw tool entry is accepted.
pub open spec fn tools_all_ok(entries: Seq<(RuntimeTool, Option<String>)>) -> bool {
    forall|i: int| 0 <= i < entries.len() ==> tool_entry_ok(#[trigger] entries[i])
}

/// `e` is the error for the first rejected raw tool entry.
pub open spec fn tools_stage_error(
    entries: Seq<(RuntimeTool, Option<String>)>,
    e: RuntimeSpecError,
) -> bool {
    exists|i: int|
        {
            &&& 0 <= i < entries.len()
            &&& !tool_entry_ok(#[trigger] entries[i])
            &&& forall|j: int| 0 <= j < i ==> tool_entry_ok(#[trigger] entries[j])
            &&& tool_entry_error(entries[i], e)
        }
}

/// The tool versions that raw entries request, in order, with versions trimmed.
pub open spec fn present_tool_versions(entries: Seq<(RuntimeTool, Option<String>)>) -> Seq<
    RuntimeToolVersionView,
>
    decreases entries.len(),
{
    if entries.len() == 0 {
        Seq::empty()
    } else {
        let rest = present_tool_versions(entries.drop_last());
        match entries.last().1 {
            Some(v) => rest.push(
                RuntimeToolVersionView { tool: entries.last().0, version: trim_spec(v@) },
            ),
            None => rest,
        }
    }
}

/// Validate the raw `(tool, version)` entries of a workspace manifest.
///
/// Returns the requested tool versions in order, trimmed, or the error for the
/// first rejected entry (see [`validate_tool_version`]).
pub fn validate_tool_entries(entries: Vec<(RuntimeTool, Option<String>)>) -> (r: Result<
    Vec<RuntimeToolVersion>,
    RuntimeSpecError,
>)
    ensures
        r is Ok <==> tools_all_ok(entries@),
        r matches Ok(v) ==> tool_versions_view(v@) == present_tool_versions(entries@),
        r matches Err(e) ==> tools_stage_error(entries@, e),
{
    let mut out: Vec<RuntimeToolVersion> = Vec::new();
    let mut i: usize = 0;
    while i < entries.len()
        invariant
            i <= entries@.len(),
            forall|j: int| 0 <= j < i ==> tool_entry_ok(#[trigger] entries@[j]),
            tool_versions_view(out@) == present_tool_versions(entries@.take(i as int)),
        decreases entries@.len() - i,
    {
        let tool = entries[i].0;
        let version = match &entries[i].1 {
            Some(v) => Some(v.clone()),
            None => None,
        };
        let ghost before = out@;
        assert(entries@.take(i + 1).drop_last() =~= entries@.take(i as int));
        assert(entries@.take(i + 1).last() == entries@[i as int]);
        match validate_tool_version(tool, version) {
            Ok(Some(tv)) => {
                out.push(tv);
                assert(tool_versions_view(out@) =~= tool_versions_view(before).push(tv@));
            },
            Ok(None) => {},
            Err(e) => {
                return Err(e);
            },
        }
        i = i + 1;
    }
    assert(entries@.take(entries@.len() as int) =~= entries@);
    Ok(out)
}

/// Whether the tool is one of the LLVM Clang compiler aliases (`clang`, `c`, `cpp`).
pub open spec fn uses_clang_spec(tool: RuntimeTool) -> bool {
    tool == RuntimeTool::Clang || tool == RuntimeTool::C || tool == RuntimeTool::Cpp
}

/// The models of a sequence of tool versions.
pub open spec fn tool_versions_view(v: Seq<RuntimeToolVersion>) -> Seq<RuntimeToolVersionView> {
    Seq::new(v.len(), |i: int| v[i]@)
}

/// Among the first `upto` entries, all Clang-alias entries request the same version.
pub open spec fn clang_views_agree(vs: Seq<RuntimeToolVersionView>, upto: int) -> bool {
    forall|a: int, b: int|
        0 <= a < b < upto && uses_clang_spec(vs[a].tool) && uses_clang_spec(vs[b].tool)
            ==> #[trigger] vs[a].version == #[trigger] vs[b].version
}

/// `e` reports the first Clang-alias entry whose version differs from an earlier one.
pub open spec fn clang_conflict_error(vs: Seq<RuntimeToolVersionView>, e: RuntimeSpecError) -> bool {
    exists|a: int, b: int|
        {
            &&& 0 <= a < b < vs.len()
            &&& uses_clang_spec(vs[a].tool)
            &&& uses_clang_spec(vs[b].tool)
            &&& #[trigger] vs[a].version != #[trigger] vs[b].version
            &&& clang_views_agree(vs, b)
            &&& e matches RuntimeSpecError::ConflictingCompilerVersions { first, second }
            &&& first@ == vs[a].version
            &&& second@ == vs[b].version
        }
}

/// Validate a set of requested runtime tool versions.
///
/// The versions are returned unchanged when every `c`, `cpp` and `clang` entry
/// requests the same version; otherwise the error names the version requested
/// before the first conflicting entry and the conflicting version.
pub fn validate_runtime_tool_versions(versions: Vec<RuntimeToolVersion>) -> (r: Result<
    Vec<RuntimeToolVersion>,
    RuntimeSpecError,
>)
    ensures
        r is Ok <==> clang_views_agree(tool_versions_view(versions@), versions@.len() as int),
        r matches Ok(v) ==> v@ == versions@,
        r matches Err(e) ==> clang_conflict_error(tool_versions_view(versions@), e),
{
    let mut last_clang: Option<usize> = None;
    let mut i: usize = 0;
    while i < versions.len()
        invariant
            i <= versions@.len(),
            clang_views_agree(tool_versions_view(versions@), i as int),
            match last_clang {
                None => forall|a: int| 0 <= a < i ==> !uses_clang_spec(#[trigger] versions@[a]@.tool),
                Some(k) => k < i && uses_clang_spec(versions@[k as int]@.tool) && forall|a: int|
                    0 <= a < i && uses_clang_spec(#[trigger] versions@[a]@.tool) ==> versions@[a]@.version
                        == versions@[k as int]@.version,
            },
        decreases versions@.len() - i,
    {
        let tool = versions[i].tool();
        if tool.uses_clang() {
            match last_clang {
                Some(k) => {
                    let existing = versions[k].version();
                    let current = versions[i].version();
                    if !str_equal(existing, current) {
                        proof {
                            let tv = tool_versions_view(versions@);
                            assert(tv[k as int] == versions@[k as int]@);
                            assert(tv[i as int] == versions@[i as int]@);
                            assert(tv[k as int].version != tv[i as int].version);
                            assert(!clang_views_agree(tv, versions@.len() as int));
                        }
                        return Err(
                            RuntimeSpecError::ConflictingCompilerVersions {
                                first: to_owned_string(existing),
                                second: to_owned_string(current),
                            },
                        );
                    }
                },
                None => {},
            }
            last_clang = Some(i);
        }
        i = i + 1;
    }
    Ok(versions)
}

/// Runtime tools that can be installed declaratively.
#[derive(Debug, Clone, Copy, PartialEq, Eq, Structural)]
pub enum RuntimeTool {
    /// Python installed with uv.
    Python,
    /// Node.js installed with mise.
    Node,
    /// Go installed with mise.
    Go,
    /// Rust installed with mise.
    Rust,
    /// Java installed with mise.
    Java,
    /// Clang installed with LLVM apt packages.
    Clang,
    /// C compiler installed with LLVM apt packages.
    C,
    /// C++ compiler installed with LLVM apt packages.
    Cpp,
    /// Ruby installed with mise.
    Ruby,
    /// PHP installed with mise.
    Php,
    /// Deno installed with mise.
    Deno,
    /// Bun installed with mise.
    Bun,
    /// Zig installed with mise.
    Zig,
    /// .NET SDK installed with mise.
    Dotnet,
}

/// The manifest field name of a tool.
pub open spec fn tool_name_spec(tool: RuntimeTool) -> Seq<char> {
    match tool {
        RuntimeTool::Python => "python"@,
        RuntimeTool::Node => "node"@,
        RuntimeTool::Go => "go"@,
        RuntimeTool::Rust => "rust"@,
        RuntimeTool::Java => "java"@,
        RuntimeTool::Clang => "clang"@,
        RuntimeTool::C => "c"@,
        RuntimeTool::Cpp => "cpp"@,
        RuntimeTool::Ruby => "ruby"@,
        RuntimeTool::Php => "php"@,
        RuntimeTool::Deno => "deno"@,
        RuntimeTool::Bun => "bun"@,
        RuntimeTool::Zig => "zig"@,
        RuntimeTool::Dotnet => "dotnet"@,
    }
}

/// The entrypoint environment variable that selects a tool's version.
pub open spec fn tool_env_spec(tool: RuntimeTool) -> Seq<char> {
    match tool {
        RuntimeTool::Python => CODEX_WS_PYTHON_VERSION_ENV@,
        RuntimeTool::Node => CODEX_WS_NODE_VERSION_ENV@,
        RuntimeTool::Go => CODEX_WS_GO_VERSION_ENV@,
        RuntimeTool::Rust => CODEX_WS_RUST_VERSION_ENV@,
        RuntimeTool::Java => CODEX_WS_JAVA_VERSION_ENV@,
        RuntimeTool::Clang => CODEX_WS_CLANG_VERSION_ENV@,
        RuntimeTool::C => CODEX_WS_C_VERSION_ENV@,
        RuntimeTool::Cpp => CODEX_WS_CPP_VERSION_ENV@,
        RuntimeTool::Ruby => CODEX_WS_RUBY_VERSION_ENV@,
        RuntimeTool::Php => CODEX_WS_PHP_VERSION_ENV@,
        RuntimeTool::Deno => CODEX_WS_DENO_VERSION_ENV@,
        RuntimeTool::Bun => CODEX_WS_BUN_VERSION_ENV@,
        RuntimeTool::Zig => CODEX_WS_ZIG_VERSION_ENV@,
        RuntimeTool::Dotnet => CODEX_WS_DOTNET_VERSION_ENV@,
    }
}

impl RuntimeTool {
    /// Return the manifest field name for this tool.
    pub fn name(self) -> (r: &'static str)
        ensures
            r@ == tool_name_spec(self),
    {
        match self {
            RuntimeTool::Python => "python",
            RuntimeTool::Node => "node",
            RuntimeTool::Go => "go",
            RuntimeTool::Rust => "rust",
            RuntimeTool::Java => "java",
            RuntimeTool::Clang => "clang",
            RuntimeTool::C => "c",
            RuntimeTool::Cpp => "cpp",
            RuntimeTool::Ruby => "ruby",
            RuntimeTool::Php => "php",
            RuntimeTool::Deno => "deno",
            RuntimeTool::Bun => "bun",
            RuntimeTool::Zig => "zig",
            RuntimeTool::Dotnet => "dotnet",
        }
    }

    /// Return the environment variable consumed by the runtime entrypoint.
    pub fn environment_variable(self) -> (r: &'static str)
        ensures
            r@ == tool_env_spec(self),
    {
        match self {
            RuntimeTool::Python => CODEX_WS_PYTHON_VERSION_ENV,
            RuntimeTool::Node => CODEX_WS_NODE_VERSION_ENV,
            RuntimeTool::Go => CODEX_WS_GO_VERSION_ENV,
            RuntimeTool::Rust => CODEX_WS_RUST_VERSION_ENV,
            RuntimeTool::Java => CODEX_WS_JAVA_VERSION_ENV,
            RuntimeTool::Clang => CODEX_WS_CLANG_VERSION_ENV,
            RuntimeTool::C => CODEX_WS_C_VERSION_ENV,
            RuntimeTool::Cpp => CODEX_WS_CPP_VERSION_ENV,
            RuntimeTool::Ruby => CODEX_WS_RUBY_VERSION_ENV,
            RuntimeTool::Php => CODEX_WS_PHP_VERSION_ENV,
            RuntimeTool::Deno => CODEX_WS_DENO_VERSION_ENV,
            RuntimeTool::Bun => CODEX_WS_BUN_VERSION_ENV,
            RuntimeTool::Zig => CODEX_WS_ZIG_VERSION_ENV,
            RuntimeTool::Dotnet => CODEX_WS_DOTNET_VERSION_ENV,
        }
    }

    fn uses_clang(self) -> (r: bool)
        ensures
            r == uses_clang_spec(self),
    {
        match self {
            RuntimeTool::Clang | RuntimeTool::C | RuntimeTool::Cpp => true,
            _ => false,
        }
    }
}

/// One declarative runtime tool version selected for a workspace.
#[derive(Debug, Clone, PartialEq, Eq)]
pub struct RuntimeToolVersion {
    tool: RuntimeTool,
    version: String,
}

/// Mathematical model of a [`RuntimeToolVersion`].
pub struct RuntimeToolVersionView {
    pub tool: RuntimeTool,
    pub version: Seq<char>,
}

impl View for RuntimeToolVersion {
    type V = RuntimeToolVersionView;

    closed spec fn view(&self) -> RuntimeToolVersionView {
        RuntimeToolVersionView { tool: self.tool, version: self.version@ }
    }
}

impl RuntimeToolVersion {
    /// Create a runtime tool version.
    pub fn new(tool: RuntimeTool, version: String) -> (r: Self)
        ensures
            r@ == (RuntimeToolVersionView { tool, version: version@ }),
    {
        Self { tool, version }
    }

    /// Return the requested runtime tool.
    pub fn tool(&self) -> (r: RuntimeTool)
        ensures
            r == self@.tool,
    {
        self.tool
    }

    /// Return the requested tool version.
    pub fn version(&self) -> (r: &str)
        ensures
            r@ == self@.version,
    {
        self.version.as_str()
    }

    /// Convert this runtime tool into a Docker environment variable.
    pub fn environment_variable(&self) -> (r: RuntimeEnvironmentVariable)
        ensures
            r@.name == tool_env_spec(self@.tool),
            r@.value == self@.version,
    {
        RuntimeEnvironmentVariable::new(self.tool.environment_variable(), self.version.clone())
    }
}

/// Languages whose version a Codex image selects through `CODEX_ENV_*` variables.
#[derive(Debug, Clone, Copy, PartialEq, Eq, Structural)]
pub enum RuntimeLanguage {
    /// Python (`python`).
    Python,
    /// Node.js (`node` or `nodejs`).
    Node,
    /// Go (`go` or `golang`).
    Go,
    /// Rust (`rust`).
    Rust,
    /// Swift (`swift`).
    Swift,
    /// Ruby (`ruby`).
    Ruby,
    /// PHP (`php`).
    Php,
    /// Java (`java`).
    Java,
}

/// The language a spec names, if it is a supported one.
pub open spec fn language_from_name_spec(name: Seq<char>) -> Option<RuntimeLanguage> {
    if name == "python"@ {
        Some(RuntimeLanguage::Python)
    } else if name == "node"@ || name == "nodejs"@ {
        Some(RuntimeLanguage::Node)
    } else if name == "go"@ || name == "golang"@ {
        Some(RuntimeLanguage::Go)
    } else if name == "rust"@ {
        Some(RuntimeLanguage::Rust)
    } else if name == "swift"@ {
        Some(RuntimeLanguage::Swift)
    } else if name == "ruby"@ {
        Some(RuntimeLanguage::Ruby)
    } else if name == "php"@ {
        Some(RuntimeLanguage::Php)
    } else if name == "java"@ {
        Some(RuntimeLanguage::Java)
    } else {
        None
    }
}

/// The `CODEX_ENV_*` variable that selects a language's version.
pub open spec fn language_env_spec(language: RuntimeLanguage) -> Seq<char> {
    match language {
        RuntimeLanguage::Python => CODEX_ENV_PYTHON_VERSION_ENV@,
        RuntimeLanguage::Node => CODEX_ENV_NODE_VERSION_ENV@,
        RuntimeLanguage::Go => CODEX_ENV_GO_VERSION_ENV@,
        RuntimeLanguage::Rust => CODEX_ENV_RUST_VERSION_ENV@,
        RuntimeLanguage::Swift => CODEX_ENV_SWIFT_VERSION_ENV@,
        RuntimeLanguage::Ruby => CODEX_ENV_RUBY_VERSION_ENV@,
        RuntimeLanguage::Php => CODEX_ENV_PHP_VERSION_ENV@,
        RuntimeLanguage::Java => CODEX_ENV_JAVA_VERSION_ENV@,
    }
}

impl RuntimeLanguage {
    /// The language named by `name`, if supported.
    pub fn from_name(name: &str) -> (r: Option<RuntimeLanguage>)
        ensures
            r == language_from_name_spec(name@),
    {
        if str_equal(name, "python") {
            Some(RuntimeLanguage::Python)
        } else if str_equal(name, "node") || str_equal(name, "nodejs") {
            Some(RuntimeLanguage::Node)
        } else if str_equal(name, "go") || str_equal(name, "golang") {
            Some(RuntimeLanguage::Go)
        } else if str_equal(name, "rust") {
            Some(RuntimeLanguage::Rust)
        } else if str_equal(name, "swift") {
            Some(RuntimeLanguage::Swift)
        } else if str_equal(name, "ruby") {
            Some(RuntimeLanguage::Ruby)
        } else if str_equal(name, "php") {
            Some(RuntimeLanguage::Php)
        } else if str_equal(name, "java") {
            Some(RuntimeLanguage::Java)
        } else {
            None
        }
    }

    /// The environment variable that selects this language's version.
    pub fn environment_variable(self) -> (r: &'static str)
        ensures
            r@ == language_env_spec(self),
    {
        match self {
            RuntimeLanguage::Python => CODEX_ENV_PYTHON_VERSION_ENV,
            RuntimeLanguage::Node => CODEX_ENV_NODE_VERSION_ENV,
            RuntimeLanguage::Go => CODEX_ENV_GO_VERSION_ENV,
            RuntimeLanguage::Rust => CODEX_ENV_RUST_VERSION_ENV,
            RuntimeLanguage::Swift => CODEX_ENV_SWIFT_VERSION_ENV,
            RuntimeLanguage::Ruby => CODEX_ENV_RUBY_VERSION_ENV,
            RuntimeLanguage::Php => CODEX_ENV_PHP_VERSION_ENV,
            RuntimeLanguage::Java => CODEX_ENV_JAVA_VERSION_ENV,
        }
    }
}

/// A `language:version` selection for a Codex image.
#[derive(Debug, Clone, PartialEq, Eq)]
pub struct RuntimeLanguageVersion {
    language: RuntimeLanguage,
    version: String,
}

/// Mathematical model of a [`RuntimeLanguageVersion`].
pub struct RuntimeLanguageVersionView {
    pub language: RuntimeLanguage,
    pub version: Seq<char>,
}

impl View for RuntimeLanguageVersion {
    type V = RuntimeLanguageVersionView;

    closed spec fn view(&self) -> RuntimeLanguageVersionView {
        RuntimeLanguageVersionView { language: self.language, version: self.version@ }
    }
}

/// The position of the first `c` in `s`, or `s.len()` when `c` does not occur.
pub open spec fn index_of_char(s: Seq<char>, c: char) -> int
    decreases s.len(),
{
    if s.len() == 0 {
        0
    } else if s[0] == c {
        0
    } else {
        1 + index_of_char(s.drop_first(), c)
    }
}

/// The language name of a `language:version` spec: the trimmed text before the first `:`.
pub open spec fn language_spec_name(s: Seq<char>) -> Seq<char> {
    trim_spec(s.subrange(0, index_of_char(s, ':')))
}

/// The version of a `language:version` spec: the trimmed text after the first `:`.
pub open spec fn language_spec_version(s: Seq<char>) -> Seq<char> {
    trim_spec(s.subrange(index_of_char(s, ':') + 1, s.len() as int))
}

/// A `language:version` spec is accepted.
pub open spec fn language_spec_ok(s: Seq<char>) -> bool {
    &&& s.contains(':')
    &&& language_from_name_spec(language_spec_name(s)) is Some
    &&& language_spec_version(s).len() > 0
    &&& valid_tool_version_spec(language_spec_version(s))
}

/// The selection an accepted `language:version` spec denotes.
pub open spec fn language_spec_value(s: Seq<char>) -> RuntimeLanguageVersionView {
    RuntimeLanguageVersionView {
        language: language_from_name_spec(language_spec_name(s))->0,
        version: language_spec_version(s),
    }
}

/// The error reported for a rejected `language:version` spec: an unknown language
/// is named as such; a missing `:` or a bad version rejects the whole spec.
pub open spec fn language_spec_error(s: Seq<char>, e: RuntimeSpecError) -> bool {
    if s.contains(':') && language_from_name_spec(language_spec_name(s)) is None {
        e matches RuntimeSpecError::UnsupportedLanguage { language } && language@
            == language_spec_name(s)
    } else {
        e matches RuntimeSpecError::InvalidLanguageSpec { spec } && spec@ == s
    }
}

proof fn lemma_index_of_char(s: Seq<char>, c: char, k: int)
    requires
        0 <= k <= s.len(),
        forall|j: int| 0 <= j < k ==> s[j] != c,
        k < s.len() ==> s[k] == c,
    ensures
        index_of_char(s, c) == k,
        (k < s.len()) == s.contains(c),
    decreases s.len(),
{
    if s.len() > 0 && k > 0 {
        assert forall|j: int| 0 <= j < k - 1 implies s.drop_first()[j] != c by {
            assert(s.drop_first()[j] == s[j + 1]);
        }
        lemma_index_of_char(s.drop_first(), c, k - 1);
        if s.drop_first().contains(c) {
            let j = choose|j: int| 0 <= j < s.drop_first().len() && s.drop_first()[j] == c;
            assert(s[j + 1] == c);
        }
        if s.contains(c) {
            let j = choose|j: int| 0 <= j < s.len() && s[j] == c;
            assert(j > 0);
            assert(s.drop_first()[j - 1] == c);
        }
    } else if k == 0 && s.len() > 0 {
        assert(s[0] == c);
    }
}

impl RuntimeLanguageVersion {
    /// Create a language version selection.
    pub fn new(language: RuntimeLanguage, version: String) -> (r: Self)
        ensures
            r@ == (RuntimeLanguageVersionView { language, version: version@ }),
    {
        Self { language, version }
    }

    /// Parse a `language:version` spec such as `golang:1.25.1`.
    ///
    /// The text before the first `:` names the language (`python`, `node`/`nodejs`,
    /// `go`/`golang`, `rust`, `swift`, `ruby`, `php`, `java`), and the text after it,
    /// trimmed, is the version, which must be non-empty and made of letters,
    /// digits and `+ - . _ : / @`.
    pub fn parse(spec: &str) -> (r: Result<RuntimeLanguageVersion, RuntimeSpecError>)
        ensures
            r is Ok <==> language_spec_ok(spec@),
            r matches Ok(v) ==> v@ == language_spec_value(spec@),
            r matches Err(e) ==> language_spec_error(spec@, e),
    {
        let n = spec.unicode_len();
        let mut k: usize = 0;
        while k < n
            invariant
                k <= n,
                n == spec@.len(),
                forall|j: int| 0 <= j < k ==> #[trigger] spec@[j] != ':',
            ensures
                k <= n,
                k < n ==> spec@[k as int] == ':',
                forall|j: int| 0 <= j < k ==> #[trigger] spec@[j] != ':',
            decreases n - k,
        {
            if spec.get_char(k) == ':' {
                break ;
            }
            k = k + 1;
        }
        proof {
            lemma_index_of_char(spec@, ':', k as int);
        }
        if k >= n {
            return Err(RuntimeSpecError::InvalidLanguageSpec { spec: to_owned_string(spec) });
        }
        let language_name = trim(spec.substring_char(0, k));
        let version = trim(spec.substring_char(k + 1, n));
        let language = match RuntimeLanguage::from_name(language_name.as_str()) {
            Some(l) => l,
            None => {
                return Err(RuntimeSpecError::UnsupportedLanguage { language: language_name });
            },
        };
        if version.as_str().is_empty() || !is_valid_tool_version(version.as_str()) {
            return Err(RuntimeSpecError::InvalidLanguageSpec { spec: to_owned_string(spec) });
        }
        Ok(RuntimeLanguageVersion::new(language, version))
    }

    /// Return the selected language.
    pub fn language(&self) -> (r: RuntimeLanguage)
        ensures
            r == self@.language,
    {
        self.language
    }

    /// Return the selected version.
    pub fn version(&self) -> (r: &str)
        ensures
            r@ == self@.version,
    {
        self.version.as_str()
    }

    /// Convert this selection into a Docker environment variable.
    pub fn environment_variable(&self) -> (r: RuntimeEnvironmentVariable)
        ensures
            r@.name == language_env_spec(self@.language),
            r@.value == self@.version,
    {
        RuntimeEnvironmentVariable::new(self.language.environment_variable(), self.version.clone())
    }
}

/// The models of a sequence of language version selections.
pub open spec fn language_versions_view(v: Seq<RuntimeLanguageVersion>) -> Seq<
    RuntimeLanguageVersionView,
> {
    Seq::new(v.len(), |i: int| v[i]@)
}

/// Every `language:version` spec is accepted.
pub open spec fn languages_all_ok(specs: Seq<String>) -> bool {
    forall|i: int| 0 <= i < specs.len() ==> language_spec_ok(#[trigger] specs[i]@)
}

/// `e` is the error for the first rejected `language:version` spec.
pub open spec fn languages_stage_error(specs: Seq<String>, e: RuntimeSpecError) -> bool {
    exists|i: int|
        {
            &&& 0 <= i < specs.len()
            &&& !language_spec_ok(#[trigger] specs[i]@)
            &&& forall|j: int| 0 <= j < i ==> language_spec_ok(#[trigger] specs[j]@)
            &&& language_spec_error(specs[i]@, e)
        }
}

/// The selections that accepted `language:version` specs denote.
pub open spec fn language_values(specs: Seq<String>) -> Seq<RuntimeLanguageVersionView> {
    Seq::new(specs.len(), |i: int| language_spec_value(specs[i]@))
}

/// Parse every `language:version` spec of a workspace manifest, in order.
pub fn parse_language_versions(specs: Vec<String>) -> (r: Result<
    Vec<RuntimeLanguageVersion>,
    RuntimeSpecError,
>)
    ensures
        r is Ok <==> languages_all_ok(specs@),
        r matches Ok(v) ==> language_versions_view(v@) == language_values(specs@),
        r matches Err(e) ==> languages_stage_error(specs@, e),
{
    let mut out: Vec<RuntimeLanguageVersion> = Vec::new();
    let mut i: usize = 0;
    while i < specs.len()
        invariant
            i <= specs@.len(),
            out@.len() == i,
            forall|j: int| 0 <= j < i ==> language_spec_ok(#[trigger] specs@[j]@),
            forall|j: int| 0 <= j < i ==> #[trigger] out@[j]@ == language_spec_value(specs@[j]@),
        decreases specs@.len() - i,
    {
        match RuntimeLanguageVersion::parse(specs[i].as_str()) {
            Ok(v) => out.push(v),
            Err(e) => return Err(e),
        }
        i = i + 1;
    }
    assert(language_versions_view(out@) =~= language_values(specs@));
    Ok(out)
}

/// Errors returned while parsing workspace runtime setup.
#[derive(Debug, PartialEq, Eq)]
pub enum RuntimeSpecError {
    /// An apt package entry was empty or only whitespace.
    EmptyAptPackage,
    /// An apt package entry contained characters that are unsafe for shell word splitting.
    InvalidAptPackage {
        /// Invalid package entry.
        package: String,
    },
    /// A setup command was empty or only whitespace.
    EmptySetupCommand,
    /// A declarative runtime tool version was empty or only whitespace.
    EmptyToolVersion {
        /// Tool with an empty version.
        tool: RuntimeTool,
    },
    /// A declarative runtime tool version contained unsafe characters.
    InvalidToolVersion {
        /// Tool with an invalid version.
        tool: RuntimeTool,
        /// Invalid version text.
        version: String,
    },
    /// Multiple C/C++ compiler aliases requested different Clang versions.
    ConflictingCompilerVersions {
        /// First configured compiler version.
        first: String,
        /// Conflicting compiler version.
        second: String,
    },
    /// A language spec was not `language:version` with a valid version.
    InvalidLanguageSpec {
        /// The rejected spec.
        spec: String,
    },
    /// A language spec named a language that no Codex image variable selects.
    UnsupportedLanguage {
        /// The rejected language name.
        language: String,
    },
}

/// The ASCII upper-case form of a character; other characters are unchanged.
pub open spec fn ascii_upper_char(c: char) -> char {
    if 'a' <= c <= 'z' {
        ((c as u32) - 32) as char
    } else {
        c
    }
}

/// The ASCII upper-case form of a string.
pub open spec fn ascii_upper(s: Seq<char>) -> Seq<char> {
    Seq::new(s.len(), |i: int| ascii_upper_char(s[i]))
}

/// Proof that the characters allowed in an apt package are exactly the ASCII
/// letters and digits and the characters `+ - . _ : = ~`.
pub proof fn lemma_apt_package_chars(c: char)
    ensures
        apt_package_char(c) <==> (is_ascii_alnum_char(c) || "+-._:=~"@.contains(c)),
{
    reveal_strlit("+-._:=~");
    let set = "+-._:=~"@;
    assert(set[0] == '+' && set[1] == '-' && set[2] == '.' && set[3] == '_' && set[4] == ':'
        && set[5] == '=' && set[6] == '~');
    if set.contains(c) {
        let k = choose|k: int| 0 <= k < set.len() && set[k] == c;
        assert(0 <= k < 7);
    }
}

/// Proof that the characters allowed in a tool version are exactly the ASCII
/// letters and digits and the characters `+ - . _ : / @`.
pub proof fn lemma_tool_version_chars(c: char)
    ensures
        tool_version_char(c) <==> (is_ascii_alnum_char(c) || "+-._:/@"@.contains(c)),
{
    reveal_strlit("+-._:/@");
    let set = "+-._:/@"@;
    assert(set[0] == '+' && set[1] == '-' && set[2] == '.' && set[3] == '_' && set[4] == ':'
        && set[5] == '/' && set[6] == '@');
    if set.contains(c) {
        let k = choose|k: int| 0 <= k < set.len() && set[k] == c;
        assert(0 <= k < 7);
    }
}

/// Proof that every declarative tool's variable is `CODEX_WS_`, the tool's
/// manifest field name in upper case, and `_VERSION`.
pub proof fn lemma_tool_env_names(tool: RuntimeTool)
    ensures
        tool_env_spec(tool) == "CODEX_WS_"@ + ascii_upper(tool_name_spec(tool)) + "_VERSION"@,
{
    reveal_strlit("CODEX_WS_");
    reveal_strlit("_VERSION");
    match tool {
        RuntimeTool::Python => {
            reveal_strlit("python");
            reveal_strlit("CODEX_WS_PYTHON_VERSION");
        },
        RuntimeTool::Node => {
            reveal_strlit("node");
            reveal_strlit("CODEX_WS_NODE_VERSION");
        },
        RuntimeTool::Go => {
            reveal_strlit("go");
            reveal_strlit("CODEX_WS_GO_VERSION");
        },
        RuntimeTool::Rust => {
            reveal_strlit("rust");
            reveal_strlit("CODEX_WS_RUST_VERSION");
        },
        RuntimeTool::Java => {
            reveal_strlit("java");
            reveal_strlit("CODEX_WS_JAVA_VERSION");
        },
        RuntimeTool::Clang => {
            reveal_strlit("clang");
            reveal_strlit("CODEX_WS_CLANG_VERSION");
        },
        RuntimeTool::C => {
            reveal_strlit("c");
            reveal_strlit("CODEX_WS_C_VERSION");
        },
        RuntimeTool::Cpp => {
            reveal_strlit("cpp");
            reveal_strlit("CODEX_WS_CPP_VERSION");
        },
        RuntimeTool::Ruby => {
            reveal_strlit("ruby");
            reveal_strlit("CODEX_WS_RUBY_VERSION");
        },
        RuntimeTool::Php => {
            reveal_strlit("php");
            reveal_strlit("CODEX_WS_PHP_VERSION");
        },
        RuntimeTool::Deno => {
            reveal_strlit("deno");
            reveal_strlit("CODEX_WS_DENO_VERSION");
        },
        RuntimeTool::Bun => {
            reveal_strlit("bun");
            reveal_strlit("CODEX_WS_BUN_VERSION");
        },
        RuntimeTool::Zig => {
            reveal_strlit("zig");
            reveal_strlit("CODEX_WS_ZIG_VERSION");
        },
        RuntimeTool::Dotnet => {
            reveal_strlit("dotnet");
            reveal_strlit("CODEX_WS_DOTNET_VERSION");
        },
    }
    assert(tool_env_spec(tool) =~= "CODEX_WS_"@ + ascii_upper(tool_name_spec(tool)) + "_VERSION"@);
}

/// Proof that a language spec's canonical name selects the variable `CODEX_ENV_`,
/// the name in upper case, and `_VERSION`.
pub proof fn lemma_language_env_names(name: Seq<char>)
    requires
        name == "python"@ || name == "node"@ || name == "go"@ || name == "rust"@ || name
            == "swift"@ || name == "ruby"@ || name == "php"@ || name == "java"@,
    ensures
        language_from_name_spec(name) is Some,
        language_env_spec(language_from_name_spec(name)->0) == "CODEX_ENV_"@ + ascii_upper(name)
            + "_VERSION"@,
{
    reveal_strlit("CODEX_ENV_");
    reveal_strlit("_VERSION");
    reveal_strlit("python");
    reveal_strlit("node");
    reveal_strlit("nodejs");
    reveal_strlit("go");
    reveal_strlit("golang");
    reveal_strlit("rust");
    reveal_strlit("swift");
    reveal_strlit("ruby");
    reveal_strlit("php");
    reveal_strlit("java");
    reveal_strlit("CODEX_ENV_PYTHON_VERSION");
    reveal_strlit("CODEX_ENV_NODE_VERSION");
    reveal_strlit("CODEX_ENV_GO_VERSION");
    reveal_strlit("CODEX_ENV_RUST_VERSION");
    reveal_strlit("CODEX_ENV_SWIFT_VERSION");
    reveal_strlit("CODEX_ENV_RUBY_VERSION");
    reveal_strlit("CODEX_ENV_PHP_VERSION");
    reveal_strlit("CODEX_ENV_JAVA_VERSION");
    assert(language_env_spec(language_from_name_spec(name)->0) =~= "CODEX_ENV_"@ + ascii_upper(
        name,
    ) + "_VERSION"@);
}

/// Proof that `nodejs` and `golang` name the same languages as `node` and `go`.
pub proof fn lemma_language_aliases()
    ensures
        language_from_name_spec("nodejs"@) == language_from_name_spec("node"@),
        language_from_name_spec("golang"@) == language_from_name_spec("go"@),
        language_from_name_spec("node"@) is Some,
        language_from_name_spec("go"@) is Some,
{
    reveal_strlit("python");
    reveal_strlit("node");
    reveal_strlit("nodejs");
    reveal_strlit("go");
    reveal_strlit("golang");
    assert("nodejs"@ != "python"@ && "nodejs"@ != "node"@) by {
        assert("nodejs"@[0] != "python"@[0]);
        assert("nodejs"@.len() != "node"@.len());
    }
    assert("node"@ != "python"@) by {
        assert("node"@.len() != "python"@.len());
    }
    assert("golang"@ != "python"@ && "golang"@ != "node"@ && "golang"@ != "nodejs"@ && "golang"@
        != "go"@) by {
        assert("golang"@[0] != "python"@[0]);
        assert("golang"@.len() != "node"@.len());
        assert("golang"@[0] != "nodejs"@[0]);
        assert("golang"@.len() != "go"@.len());
    }
    assert("go"@ != "python"@ && "go"@ != "node"@ && "go"@ != "nodejs"@) by {
        assert("go"@.len() != "python"@.len());
        assert("go"@.len() != "node"@.len());
        assert("go"@.len() != "nodejs"@.len());
    }
}

} // verus!
