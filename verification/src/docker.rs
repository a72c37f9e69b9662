//! Docker sandbox launch: host paths for a workspace's sessions, the container
//! name, and the `docker run` argument list.

use vstd::prelude::*;
use vstd::string::*;

use crate::manifest::{env_vars_view, runtime_env_spec, WorkspaceManifest, WorkspaceManifestView};
use crate::runtime::{docker_assignment_spec, RuntimeEnvironmentVariableView};
use crate::workspace::home_dir;
use crate::text::{
    decimal_spec, decimal_string, decimal_value, lemma_decimal_injective, lemma_decimal_reads_back, is_ascii_alnum, is_ascii_alnum_char, join_path, join_path_spec,
    opt_string_view, strings_view, to_owned_string,
};

verus! {

/// Container path of the Codex home directory.
pub const CONTAINER_CODEX_DIR: &'static str = "/root/.codex";

/// Container path of the Codex sessions directory.
pub const CONTAINER_SESSIONS_DIR: &'static str = "/root/.codex/sessions";

/// Container directory under which workspace folders are mounted.
pub const CONTAINER_WORKSPACE_ROOT: &'static str = "/workspace";

/// Default Codex CLI Docker image used for sandbox launches.
pub const DEFAULT_CODEX_IMAGE: &'static str = "ghcr.io/honahec/codex-multi-workspace:latest";

/// Version label expected on the default Codex workspace image.
pub const DEFAULT_CODEX_IMAGE_VERSION: &'static str = "4";

/// Runtime paths and image settings used to construct a Docker sandbox command.
#[derive(Debug, Clone, PartialEq, Eq)]
pub struct DockerLaunchConfig {
    image: String,
    sessions_root: String,
}

/// Mathematical model of a [`DockerLaunchConfig`].
pub struct DockerLaunchConfigView {
    pub image: Seq<char>,
    pub sessions_root: Seq<char>,
}

impl View for DockerLaunchConfig {
    type V = DockerLaunchConfigView;

    closed spec fn view(&self) -> DockerLaunchConfigView {
        DockerLaunchConfigView { image: self.image@, sessions_root: self.sessions_root@ }
    }
}

/// Host directory holding one workspace's state: `<sessions_root>/<workspace_name>`.
pub open spec fn workspace_state_path_spec(sessions_root: Seq<char>, workspace_name: Seq<char>) -> Seq<
    char,
> {
    join_path_spec(sessions_root, workspace_name)
}

/// Host sessions path of a workspace: `<sessions_root>/<workspace_name>/sessions`.
pub open spec fn workspace_sessions_path_spec(
    sessions_root: Seq<char>,
    workspace_name: Seq<char>,
) -> Seq<char> {
    join_path_spec(workspace_state_path_spec(sessions_root, workspace_name), "sessions"@)
}

/// Host Codex home path of a workspace: `<sessions_root>/<workspace_name>/codex-home`.
pub open spec fn workspace_codex_home_path_spec(
    sessions_root: Seq<char>,
    workspace_name: Seq<char>,
) -> Seq<char> {
    join_path_spec(workspace_state_path_spec(sessions_root, workspace_name), "codex-home"@)
}

/// Host directory under which each run writes its provider files:
/// `<sessions_root>/<workspace_name>/provider-config`.
pub open spec fn workspace_provider_config_path_spec(
    sessions_root: Seq<char>,
    workspace_name: Seq<char>,
) -> Seq<char> {
    join_path_spec(workspace_state_path_spec(sessions_root, workspace_name), "provider-config"@)
}

/// Default launch settings for a home directory: the default Codex image, and
/// sessions under `<home>/.codex-ws`, or under the relative `.codex-ws` when no
/// home is known.
pub open spec fn default_launch_spec(home: Option<Seq<char>>) -> DockerLaunchConfigView {
    DockerLaunchConfigView {
        image: DEFAULT_CODEX_IMAGE@,
        sessions_root: match home {
            Some(h) => join_path_spec(h, ".codex-ws"@),
            None => ".codex-ws"@,
        },
    }
}

impl DockerLaunchConfig {
    /// Create Docker launch configuration.
    pub fn new(image: String, sessions_root: String) -> (r: Self)
        ensures
            r@ == (DockerLaunchConfigView { image: image@, sessions_root: sessions_root@ }),
    {
        Self { image, sessions_root }
    }

    /// Default launch settings: the default Codex image, and sessions under
    /// `<home>/.codex-ws`, or under the relative `.codex-ws` when no home is known.
    pub fn default_for_home(home: Option<String>) -> (r: Self)
        ensures
            r@ == default_launch_spec(opt_string_view(home)),
    {
        let sessions_root = match home {
            Some(h) => join_path(h.as_str(), ".codex-ws"),
            None => to_owned_string(".codex-ws"),
        };
        Self { image: to_owned_string(DEFAULT_CODEX_IMAGE), sessions_root }
    }

    /// Return the Docker image.
    pub fn image(&self) -> (r: &str)
        ensures
            r@ == self@.image,
    {
        self.image.as_str()
    }

    /// Return a copy of this configuration with a different Docker image.
    pub fn with_image(&self, image: String) -> (r: Self)
        ensures
            r@ == (DockerLaunchConfigView { image: image@, sessions_root: self@.sessions_root }),
    {
        Self { image, sessions_root: to_owned_string(self.sessions_root.as_str()) }
    }

    /// Return the sessions root directory.
    pub fn sessions_root(&self) -> (r: &str)
        ensures
            r@ == self@.sessions_root,
    {
        self.sessions_root.as_str()
    }

    /// Return the host sessions path for one workspace, mounted as
    /// `/root/.codex/sessions` inside the sandbox.
    pub fn workspace_sessions_path(&self, workspace_name: &str) -> (r: String)
        ensures
            r@ == workspace_sessions_path_spec(self@.sessions_root, workspace_name@),
    {
        let state = join_path(self.sessions_root.as_str(), workspace_name);
        join_path(state.as_str(), "sessions")
    }

    /// Return the host directory under which each run of one workspace writes
    /// its provider files.
    pub fn workspace_provider_config_path(&self, workspace_name: &str) -> (r: String)
        ensures
            r@ == workspace_provider_config_path_spec(self@.sessions_root, workspace_name@),
    {
        let state = join_path(self.sessions_root.as_str(), workspace_name);
        join_path(state.as_str(), "provider-config")
    }

    /// Return the host Codex home path for one workspace.
    pub fn workspace_codex_home_path(&self, workspace_name: &str) -> (r: String)
        ensures
            r@ == workspace_codex_home_path_spec(self@.sessions_root, workspace_name@),
    {
        let state = join_path(self.sessions_root.as_str(), workspace_name);
        join_path(state.as_str(), "codex-home")
    }
}

impl Default for DockerLaunchConfig {
    /// Default launch settings under the user's home directory, as the operating
    /// system reports it (see [`DockerLaunchConfig::default_for_home`]).
    fn default() -> (r: Self)
        ensures
            exists|h: Option<Seq<char>>| r@ == default_launch_spec(h),
    {
        Self::default_for_home(home_dir())
    }
}

/// Errors returned while constructing Docker launch commands.
#[derive(Debug, PartialEq, Eq)]
pub enum DockerError {
    /// The workspace manifest did not contain any folders.
    NoWorkspaceFolders {
        /// Workspace name from the manifest.
        workspace_name: String,
    },
}

/// Codex home directory written on the host before launching Docker.
#[derive(Debug, Clone, PartialEq, Eq)]
pub struct CodexHome {
    path: String,
}

impl View for CodexHome {
    type V = Seq<char>;

    /// The host path of the Codex home directory.
    closed spec fn view(&self) -> Seq<char> {
        self.path@
    }
}

impl CodexHome {
    /// Create a Codex home directory mount.
    pub fn new(path: String) -> (r: Self)
        ensures
            r@ == path@,
    {
        Self { path }
    }

    /// Return the host Codex home path.
    pub fn path(&self) -> (r: &str)
        ensures
            r@ == self@,
    {
        self.path.as_str()
    }
}

/// A character kept as is in a container name.
pub open spec fn container_name_char(c: char) -> bool {
    is_ascii_alnum_char(c) || c == '-' || c == '_'
}

/// A workspace-name character as it appears in the container name.
pub open spec fn sanitize_char(c: char) -> char {
    if container_name_char(c) {
        c
    } else {
        '-'
    }
}

/// The Docker container name of a workspace: `codex-ws-` followed by the
/// workspace name with every character other than ASCII letters, digits, `-`
/// and `_` replaced by `-`.
pub open spec fn container_name_spec(workspace_name: Seq<char>) -> Seq<char> {
    "codex-ws-"@ + Seq::new(workspace_name.len(), |i: int| sanitize_char(workspace_name[i]))
}

/// The `-v` value mounting `source` at `target`.
pub open spec fn volume_spec(source: Seq<char>, target: Seq<char>, read_only: bool) -> Seq<char> {
    source + ":"@ + target + (if read_only {
        ":ro"@
    } else {
        Seq::empty()
    })
}

/// The container path of the workspace folder at `index`: `/workspace/<index + 1>`.
pub open spec fn folder_target_spec(index: nat) -> Seq<char> {
    CONTAINER_WORKSPACE_ROOT@ + "/"@ + decimal_spec(index + 1)
}

/// `-e NAME=value` for each environment variable, in order.
pub open spec fn env_args_spec(vars: Seq<RuntimeEnvironmentVariableView>) -> Seq<Seq<char>>
    decreases vars.len(),
{
    if vars.len() == 0 {
        Seq::empty()
    } else {
        env_args_spec(vars.drop_last()) + seq!["-e"@, docker_assignment_spec(vars.last())]
    }
}

/// `-v <folder>:/workspace/<i + 1>` for each workspace folder, in order.
pub open spec fn folder_args_spec(folders: Seq<Seq<char>>) -> Seq<Seq<char>>
    decreases folders.len(),
{
    if folders.len() == 0 {
        Seq::empty()
    } else {
        folder_args_spec(folders.drop_last()) + seq![
            "-v"@,
            volume_spec(folders.last(), folder_target_spec((folders.len() - 1) as nat), false),
        ]
    }
}

/// The leading `docker run` arguments: container lifecycle flags and the name.
pub open spec fn run_prefix_spec(workspace_name: Seq<char>) -> Seq<Seq<char>> {
    seq!["run"@, "--rm"@, "-it"@, "--name"@, container_name_spec(workspace_name)]
}

/// The network arguments: `--network none` when the sandbox has no network access.
pub open spec fn network_args_spec(network: bool) -> Seq<Seq<char>> {
    if network {
        Seq::empty()
    } else {
        seq!["--network"@, "none"@]
    }
}

/// The Codex home and sessions mounts.
pub open spec fn home_args_spec(
    codex_home: Seq<char>,
    m: WorkspaceManifestView,
    l: DockerLaunchConfigView,
) -> Seq<Seq<char>> {
    seq![
        "-v"@,
        volume_spec(codex_home, CONTAINER_CODEX_DIR@, false),
        "-v"@,
        volume_spec(
            workspace_sessions_path_spec(l.sessions_root, m.name),
            CONTAINER_SESSIONS_DIR@,
            false,
        ),
    ]
}

/// The trailing arguments: the working directory (the first folder's mount) and the image.
pub open spec fn run_suffix_spec(l: DockerLaunchConfigView) -> Seq<Seq<char>> {
    seq!["--workdir"@, folder_target_spec(0), l.image]
}

/// The full `docker run` argument list for a workspace.
pub open spec fn docker_args_spec(
    codex_home: Seq<char>,
    m: WorkspaceManifestView,
    l: DockerLaunchConfigView,
) -> Seq<Seq<char>> {
    run_prefix_spec(m.name) + network_args_spec(m.network) + env_args_spec(
        runtime_env_spec(m.runtime),
    ) + home_args_spec(codex_home, m, l) + folder_args_spec(m.folders) + run_suffix_spec(l)
}

proof fn lemma_strings_view_push(v: Seq<String>, x: String)
    ensures
        strings_view(v.push(x)) == strings_view(v).push(x@),
{
    assert(strings_view(v.push(x)) =~= strings_view(v).push(x@));
}

fn push_arg(args: &mut Vec<String>, arg: String)
    ensures
        strings_view(final(args)@) == strings_view(old(args)@).push(arg@),
{
    proof {
        lemma_strings_view_push(args@, arg);
    }
    args.push(arg);
}

fn push_literal(args: &mut Vec<String>, arg: &str)
    ensures
        strings_view(final(args)@) == strings_view(old(args)@).push(arg@),
{
    push_arg(args, String::from_str(arg));
}

/// The `-v` value mounting `source` at `target`, read-only when `read_only`.
fn volume_arg(source: &str, target: &str, read_only: bool) -> (r: String)
    ensures
        r@ == volume_spec(source@, target@, read_only),
{
    let mut out = String::from_str(source);
    out.append(":");
    out.append(target);
    if read_only {
        out.append(":ro");
    } else {
        assert(out@ + Seq::<char>::empty() =~= out@);
    }
    out
}

/// The two arguments `-v <source>:<target>[:ro]` that mount a host path.
pub fn volume_args(source: &str, target: &str, read_only: bool) -> (r: Vec<String>)
    ensures
        strings_view(r@) == seq!["-v"@, volume_spec(source@, target@, read_only)],
{
    let mut out: Vec<String> = Vec::new();
    push_literal(&mut out, "-v");
    push_arg(&mut out, volume_arg(source, target, read_only));
    assert(strings_view(out@) =~= seq!["-v"@, volume_spec(source@, target@, read_only)]);
    out
}

/// The container path of the workspace folder at `index`.
pub fn folder_target(index: usize) -> (r: String)
    requires
        index < usize::MAX,
    ensures
        r@ == folder_target_spec(index as nat),
{
    let mut out = String::from_str(CONTAINER_WORKSPACE_ROOT);
    out.append("/");
    let number = decimal_string(index + 1);
    out.append(number.as_str());
    out
}

/// The Docker container name for a workspace.
pub fn container_name(workspace_name: &str) -> (r: String)
    ensures
        r@ == container_name_spec(workspace_name@),
{
    let n = workspace_name.unicode_len();
    let mut name = String::from_str("codex-ws-");
    let mut i: usize = 0;
    while i < n
        invariant
            i <= n,
            n == workspace_name@.len(),
            name@ == "codex-ws-"@ + Seq::new(i as nat, |k: int| sanitize_char(workspace_name@[k])),
        decreases n - i,
    {
        let c = workspace_name.get_char(i);
        let ghost before = name@;
        if is_ascii_alnum(c) || c == '-' || c == '_' {
            let piece = workspace_name.substring_char(i, i + 1);
            assert(piece@ =~= seq![c]);
            name.append(piece);
            assert(name@ =~= before + seq![sanitize_char(workspace_name@[i as int])]);
        } else {
            name.append("-");
            proof {
                reveal_strlit("-");
            }
            assert("-"@ =~= seq!['-']);
            assert(name@ =~= before + seq![sanitize_char(workspace_name@[i as int])]);
        }
        assert(name@ == before + seq![sanitize_char(workspace_name@[i as int])]);
        assert(Seq::new((i + 1) as nat, |k: int| sanitize_char(workspace_name@[k])) =~= Seq::new(
            i as nat,
            |k: int| sanitize_char(workspace_name@[k]),
        ).push(sanitize_char(workspace_name@[i as int])));
        assert(name@ =~= "codex-ws-"@ + Seq::new((i + 1) as nat, |k: int| sanitize_char(workspace_name@[k])));
        i = i + 1;
    }
    name
}

/// Build the `docker run` arguments for launching a Codex workspace sandbox.
///
/// The container runs with `--rm -it` under [`container_name`]; a sandbox
/// without network access gets `--network none`; each runtime environment
/// variable is passed with `-e`; the Codex home and the workspace's sessions
/// directory are mounted; workspace folder `i` is mounted at `/workspace/<i + 1>`;
/// the working directory is `/workspace/1`, and the image comes last.
///
/// Fails with [`DockerError::NoWorkspaceFolders`] when the manifest has no folders.
pub fn docker_run_args(
    codex_home: &CodexHome,
    manifest: &WorkspaceManifest,
    launch_config: &DockerLaunchConfig,
) -> (r: Result<Vec<String>, DockerError>)
    ensures
        manifest@.folders.len() == 0 ==> (r matches Err(DockerError::NoWorkspaceFolders { workspace_name })
            && workspace_name@ == manifest@.name),
        manifest@.folders.len() > 0 ==> (r matches Ok(args) && strings_view(args@) == docker_args_spec(
            codex_home@,
            manifest@,
            launch_config@,
        )),
{
    let ghost m = manifest@;
    let ghost l = launch_config@;
    let folders = manifest.folders();
    if folders.len() == 0 {
        return Err(
            DockerError::NoWorkspaceFolders { workspace_name: to_owned_string(manifest.name()) },
        );
    }
    let mut args: Vec<String> = Vec::new();
    push_literal(&mut args, "run");
    push_literal(&mut args, "--rm");
    push_literal(&mut args, "-it");
    push_literal(&mut args, "--name");
    push_arg(&mut args, container_name(manifest.name()));
    assert(strings_view(args@) =~= run_prefix_spec(m.name));
    if !manifest.sandbox().network() {
        push_literal(&mut args, "--network");
        push_literal(&mut args, "none");
    }
    let ghost base = run_prefix_spec(m.name) + network_args_spec(m.network);
    assert(strings_view(args@) =~= base);

    let vars = manifest.runtime().environment_variables();
    let ghost vviews = env_vars_view(vars@);
    let mut i: usize = 0;
    while i < vars.len()
        invariant
            i <= vars@.len(),
            vviews == env_vars_view(vars@),
            strings_view(args@) == base + env_args_spec(vviews.take(i as int)),
        decreases vars@.len() - i,
    {
        push_literal(&mut args, "-e");
        push_arg(&mut args, vars[i].docker_assignment());
        proof {
            assert(vviews.take(i + 1).drop_last() =~= vviews.take(i as int));
            assert(vviews.take(i + 1).last() == vars@[i as int]@);
            assert(strings_view(args@) =~= base + env_args_spec(vviews.take(i + 1)));
        }
        i = i + 1;
    }
    assert(vviews.take(vars@.len() as int) =~= vviews);
    assert(vviews == runtime_env_spec(m.runtime));
    let ghost with_env = base + env_args_spec(runtime_env_spec(m.runtime));

    push_literal(&mut args, "-v");
    push_arg(&mut args, volume_arg(codex_home.path(), CONTAINER_CODEX_DIR, false));
    let sessions_path = launch_config.workspace_sessions_path(manifest.name());
    push_literal(&mut args, "-v");
    push_arg(&mut args, volume_arg(sessions_path.as_str(), CONTAINER_SESSIONS_DIR, false));
    let ghost with_home = with_env + home_args_spec(codex_home@, m, l);
    assert(strings_view(args@) =~= with_home);

    let ghost fviews = strings_view(folders@);
    let mut i: usize = 0;
    while i < folders.len()
        invariant
            i <= folders@.len(),
            fviews == strings_view(folders@),
            fviews == m.folders,
            strings_view(args@) == with_home + folder_args_spec(fviews.take(i as int)),
        decreases folders@.len() - i,
    {
        let target = folder_target(i);
        push_literal(&mut args, "-v");
        push_arg(&mut args, volume_arg(folders[i].as_str(), target.as_str(), false));
        proof {
            assert(fviews.take(i + 1).drop_last() =~= fviews.take(i as int));
            assert(fviews.take(i + 1).last() == folders@[i as int]@);
            assert(strings_view(args@) =~= with_home + folder_args_spec(fviews.take(i + 1)));
        }
        i = i + 1;
    }
    assert(fviews.take(folders@.len() as int) =~= fviews);

    push_literal(&mut args, "--workdir");
    push_arg(&mut args, folder_target(0));
    push_literal(&mut args, launch_config.image());
    assert(strings_view(args@) =~= docker_args_spec(codex_home@, m, l));
    Ok(args)
}

/// Proof that every argument of [`env_args_spec`] is `-e` or a `NAME=value` assignment.
pub proof fn lemma_env_args_shape(vars: Seq<RuntimeEnvironmentVariableView>)
    ensures
        env_args_spec(vars).len() == 2 * vars.len(),
        forall|i: int|
            0 <= i < env_args_spec(vars).len() ==> #[trigger] env_args_spec(vars)[i] == "-e"@
                || env_args_spec(vars)[i].contains('='),
    decreases vars.len(),
{
    reveal_strlit("=");
    if vars.len() > 0 {
        lemma_env_args_shape(vars.drop_last());
        let v = vars.last();
        let a = docker_assignment_spec(v);
        assert(a[v.name.len() as int] == '=');
        let prev = env_args_spec(vars.drop_last());
        assert forall|i: int| 0 <= i < env_args_spec(vars).len() implies #[trigger] env_args_spec(
            vars,
        )[i] == "-e"@ || env_args_spec(vars)[i].contains('=') by {
            if i < prev.len() {
                assert(env_args_spec(vars)[i] == prev[i]);
            } else if i == prev.len() + 1 {
                assert(env_args_spec(vars)[i] == a);
            }
        }
    }
}

/// Proof that [`folder_args_spec`] mounts folder `i` by the arguments at
/// positions `2 i` and `2 i + 1`.
#[verifier::spinoff_prover]
pub proof fn lemma_folder_args_shape(folders: Seq<Seq<char>>)
    ensures
        folder_args_spec(folders).len() == 2 * folders.len(),
        forall|i: int|
            0 <= i < folders.len() ==> #[trigger] folder_args_spec(folders)[2 * i] == "-v"@
                && folder_args_spec(folders)[2 * i + 1] == volume_spec(
                folders[i],
                folder_target_spec(i as nat),
                false,
            ),
    decreases folders.len(),
{
    if folders.len() > 0 {
        let rest = folders.drop_last();
        lemma_folder_args_shape(rest);
        let prev = folder_args_spec(rest);
        let last = volume_spec(folders.last(), folder_target_spec(rest.len()), false);
        assert(folder_args_spec(folders) == prev + seq!["-v"@, last]);
        assert forall|i: int| 0 <= i < folders.len() implies #[trigger] folder_args_spec(
            folders,
        )[2 * i] == "-v"@ && folder_args_spec(folders)[2 * i + 1] == volume_spec(
            folders[i],
            folder_target_spec(i as nat),
            false,
        ) by {
            if i < rest.len() {
                assert(folders[i] == rest[i]);
                assert(prev[2 * i] == "-v"@);
                assert(folder_args_spec(folders)[2 * i] == prev[2 * i]);
                assert(folder_args_spec(folders)[2 * i + 1] == prev[2 * i + 1]);
            } else {
                assert(i == rest.len());
                assert(folders[i] == folders.last());
                assert(folder_args_spec(folders)[2 * i] == "-v"@);
                assert(folder_args_spec(folders)[2 * i + 1] == last);
            }
        }
    }
}

/// Proof that every `-v` value contains the `:` that separates host and container paths.
pub proof fn lemma_volume_has_colon(source: Seq<char>, target: Seq<char>, read_only: bool)
    ensures
        volume_spec(source, target, read_only).contains(':'),
{
    reveal_strlit(":");
    assert(volume_spec(source, target, read_only)[source.len() as int] == ':');
}

/// Proof that every argument of [`folder_args_spec`] is `-v` or a mount value.
pub proof fn lemma_folder_args_elements(folders: Seq<Seq<char>>)
    ensures
        forall|k: int|
            0 <= k < folder_args_spec(folders).len() ==> #[trigger] folder_args_spec(folders)[k]
                == "-v"@ || folder_args_spec(folders)[k].contains(':'),
{
    lemma_folder_args_shape(folders);
    assert forall|k: int| 0 <= k < folder_args_spec(folders).len() implies #[trigger] folder_args_spec(
        folders,
    )[k] == "-v"@ || folder_args_spec(folders)[k].contains(':') by {
        let i = k / 2;
        assert(0 <= i < folders.len());
        assert(folder_args_spec(folders)[2 * i] == "-v"@);
        if k % 2 == 0 {
            assert(k == 2 * i);
        } else {
            assert(k == 2 * i + 1);
            lemma_volume_has_colon(folders[i], folder_target_spec(i as nat), false);
        }
    }
}

/// Proof that a sandbox without network access is launched with `--network none`,
/// right after the container name.
pub proof fn lemma_network_disabled_adds_network_none(
    codex_home: Seq<char>,
    m: WorkspaceManifestView,
    l: DockerLaunchConfigView,
)
    requires
        !m.network,
    ensures
        docker_args_spec(codex_home, m, l)[5] == "--network"@,
        docker_args_spec(codex_home, m, l)[6] == "none"@,
{
}

proof fn lemma_distinct_from_flags(x: Seq<char>)
    requires
        x.contains('=') || x.contains(':') || x.contains('/'),
    ensures
        x != "--network"@,
        x != "none"@,
{
    reveal_strlit("--network");
    reveal_strlit("none");
    if x == "--network"@ {
        assert(!"--network"@.contains('='));
        assert(!"--network"@.contains(':'));
        assert(!"--network"@.contains('/'));
    }
    if x == "none"@ {
        assert(!"none"@.contains('='));
        assert(!"none"@.contains(':'));
        assert(!"none"@.contains('/'));
    }
}

/// Proof that a sandbox with network access gets no `--network` or `none`
/// argument, unless the image itself is named so.
pub proof fn lemma_network_enabled_omits_network_none(
    codex_home: Seq<char>,
    m: WorkspaceManifestView,
    l: DockerLaunchConfigView,
)
    requires
        m.network,
        l.image != "--network"@,
        l.image != "none"@,
    ensures
        forall|i: int|
            0 <= i < docker_args_spec(codex_home, m, l).len() ==> #[trigger] docker_args_spec(
                codex_home,
                m,
                l,
            )[i] != "--network"@ && docker_args_spec(codex_home, m, l)[i] != "none"@,
{
    reveal_strlit("--network");
    reveal_strlit("none");
    reveal_strlit("run");
    reveal_strlit("--rm");
    reveal_strlit("-it");
    reveal_strlit("--name");
    reveal_strlit("-e");
    reveal_strlit("-v");
    reveal_strlit("--workdir");
    reveal_strlit("codex-ws-");
    reveal_strlit("/");
    let args = docker_args_spec(codex_home, m, l);
    let prefix = run_prefix_spec(m.name);
    let env = env_args_spec(runtime_env_spec(m.runtime));
    let home = home_args_spec(codex_home, m, l);
    let folders = folder_args_spec(m.folders);
    let suffix = run_suffix_spec(l);
    assert(network_args_spec(m.network) =~= Seq::<Seq<char>>::empty());
    assert(args =~= prefix + env + home + folders + suffix);
    lemma_env_args_shape(runtime_env_spec(m.runtime));
    lemma_folder_args_elements(m.folders);
    lemma_volume_has_colon(codex_home, CONTAINER_CODEX_DIR@, false);
    lemma_volume_has_colon(
        workspace_sessions_path_spec(l.sessions_root, m.name),
        CONTAINER_SESSIONS_DIR@,
        false,
    );
    assert(folder_target_spec(0)[CONTAINER_WORKSPACE_ROOT@.len() as int] == '/');
    lemma_distinct_from_flags(folder_target_spec(0));
    let name = container_name_spec(m.name);
    assert(name[0] == 'c');
    assert forall|i: int| 0 <= i < args.len() implies #[trigger] args[i] != "--network"@ && args[i]
        != "none"@ by {
        let x = args[i];
        let p0 = prefix.len() as int;
        let p1 = p0 + env.len();
        let p2 = p1 + home.len();
        let p3 = p2 + folders.len();
        if i < p0 {
            assert(x == prefix[i]);
            if i == 0 {
                assert(x == "run"@);
                assert(x.len() != "--network"@.len() && x.len() != "none"@.len());
            } else if i == 1 {
                assert(x == "--rm"@);
                assert(x.len() != "--network"@.len() && x[0] != "none"@[0]);
            } else if i == 2 {
                assert(x == "-it"@);
                assert(x.len() != "--network"@.len() && x.len() != "none"@.len());
            } else if i == 3 {
                assert(x == "--name"@);
                assert(x.len() != "--network"@.len() && x[0] != "none"@[0]);
            } else {
                assert(x == name);
                assert(x[0] != "--network"@[0]);
                assert(x[0] != "none"@[0]);
            }
            assert(x != "--network"@ && x != "none"@);
        } else if i < p1 {
            assert(x == env[i - p0]);
            if x != "-e"@ {
                lemma_distinct_from_flags(x);
            }
            assert(x != "--network"@ && x != "none"@);
        } else if i < p2 {
            assert(x == home[i - p1]);
            if i - p1 == 1 || i - p1 == 3 {
                lemma_distinct_from_flags(x);
            }
            assert(x != "--network"@ && x != "none"@);
        } else if i < p3 {
            assert(x == folders[i - p2]);
            if x != "-v"@ {
                lemma_distinct_from_flags(x);
            }
            assert(x != "--network"@ && x != "none"@);
        } else {
            assert(x == suffix[i - p3]);
            if i - p3 == 0 {
                assert(x == "--workdir"@);
                assert(x[2] != "--network"@[2] && x[0] != "none"@[0]);
            } else if i - p3 == 1 {
                assert(x == folder_target_spec(0));
            } else {
                assert(x == l.image);
            }
            assert(x != "--network"@ && x != "none"@);
        }
    }
}

/// Proof that every workspace folder `i` is mounted at `/workspace/<i + 1>`,
/// that the workspace's sessions directory is mounted at `/root/.codex/sessions`,
/// and that the working directory is the first folder's mount.
pub proof fn lemma_workspace_mounts(
    codex_home: Seq<char>,
    m: WorkspaceManifestView,
    l: DockerLaunchConfigView,
)
    ensures
        forall|i: int|
            #![trigger m.folders[i]]
            0 <= i < m.folders.len() ==> exists|j: int|
                0 <= j && j + 1 < docker_args_spec(codex_home, m, l).len() && #[trigger] docker_args_spec(
                    codex_home,
                    m,
                    l,
                )[j] == "-v"@ && docker_args_spec(codex_home, m, l)[j + 1] == volume_spec(
                    m.folders[i],
                    folder_target_spec(i as nat),
                    false,
                ),
        exists|j: int|
            0 <= j && j + 1 < docker_args_spec(codex_home, m, l).len() && #[trigger] docker_args_spec(
                codex_home,
                m,
                l,
            )[j] == "-v"@ && docker_args_spec(codex_home, m, l)[j + 1] == volume_spec(
                workspace_sessions_path_spec(l.sessions_root, m.name),
                CONTAINER_SESSIONS_DIR@,
                false,
            ),
        docker_args_spec(codex_home, m, l)[docker_args_spec(codex_home, m, l).len() - 2]
            == folder_target_spec(0),
        docker_args_spec(codex_home, m, l).last() == l.image,
{
    let args = docker_args_spec(codex_home, m, l);
    let before_home = run_prefix_spec(m.name) + network_args_spec(m.network) + env_args_spec(
        runtime_env_spec(m.runtime),
    );
    let home = home_args_spec(codex_home, m, l);
    let folders = folder_args_spec(m.folders);
    let suffix = run_suffix_spec(l);
    assert(args =~= before_home + home + folders + suffix);
    lemma_folder_args_shape(m.folders);
    let off: int = before_home.len() as int + home.len() as int;
    assert forall|i: int| #![trigger m.folders[i]] 0 <= i < m.folders.len() implies exists|j: int|
        0 <= j && j + 1 < args.len() && #[trigger] args[j] == "-v"@ && args[j + 1] == volume_spec(
            m.folders[i],
            folder_target_spec(i as nat),
            false,
        ) by {
        assert(folders[2 * i] == "-v"@);
        assert(args[off + 2 * i] == folders[2 * i]);
        assert(args[off + 2 * i + 1] == folders[2 * i + 1]);
    }
    let j: int = before_home.len() as int + 2;
    assert(args[j] == home[2]);
    assert(args[j + 1] == home[3]);
}

/// Proof that a container name starts with `codex-ws-` and holds only ASCII
/// letters, digits, `-` and `_`.
pub proof fn lemma_container_name_is_safe(workspace_name: Seq<char>)
    ensures
        container_name_spec(workspace_name).len() == 9 + workspace_name.len(),
        forall|k: int|
            0 <= k < container_name_spec(workspace_name).len() ==> container_name_char(
                #[trigger] container_name_spec(workspace_name)[k],
            ),
{
    reveal_strlit("codex-ws-");
    let name = container_name_spec(workspace_name);
    assert forall|k: int| 0 <= k < name.len() implies container_name_char(#[trigger] name[k]) by {
        if k >= 9 {
            assert(name[k] == sanitize_char(workspace_name[k - 9]));
        }
    }
}

/// Proof that distinct workspace folders get distinct container mount points:
/// the target of folder `i` is `/workspace/` followed by the numeral of `i + 1`.
pub proof fn lemma_folder_targets_distinct(i: nat, j: nat)
    requires
        i != j,
    ensures
        folder_target_spec(i) != folder_target_spec(j),
        decimal_value(folder_target_spec(i).subrange(11, folder_target_spec(i).len() as int)) == i
            + 1,
{
    reveal_strlit("/workspace");
    reveal_strlit("/");
    let head = CONTAINER_WORKSPACE_ROOT@ + "/"@;
    assert(head.len() == 11);
    let ti = folder_target_spec(i);
    let tj = folder_target_spec(j);
    assert(ti.subrange(11, ti.len() as int) =~= decimal_spec(i + 1));
    assert(tj.subrange(11, tj.len() as int) =~= decimal_spec(j + 1));
    lemma_decimal_reads_back(i + 1);
    lemma_decimal_injective(i + 1, j + 1);
    if ti == tj {
        assert(ti.subrange(11, ti.len() as int) == tj.subrange(11, tj.len() as int));
    }
}

} // verus!
