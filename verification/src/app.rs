//! Launch decisions for a workspace run: the run configuration derived from the
//! command line, the provider selection, the effective Docker image, the
//! generated Codex configuration, and the image freshness check.

use vstd::prelude::*;
use vstd::string::*;

use crate::cli::RunArgs;
use crate::config::{
    cc_switch_database_path_for_home, cc_switch_database_path_spec, state_root_for_home,
    state_root_spec, ConfigError, UserConfig,
};
use crate::docker::{
    folder_target, folder_target_spec, DockerLaunchConfig, DockerLaunchConfigView,
    DEFAULT_CODEX_IMAGE, DEFAULT_CODEX_IMAGE_VERSION,
};
use crate::manifest::WorkspaceManifest;
use crate::provider::{providers_view, CodexProvider, CodexProviderView};
use crate::text::{
    clone_opt_string, has_prefix, opt_string_view, str_equal, to_owned_string, trim, trim_end, trim_end_spec,
    trim_spec,
};
use crate::workspace::{
    expand_home_path_with, expand_home_spec, home_dir, resolve_workspace_path_with,
    resolve_workspace_spec, workspace_name_error, WorkspaceError,
};

verus! {

/// Errors that stop a workspace run before Docker starts.
#[derive(Debug)]
pub enum RunError {
    /// No Codex provider has the requested name.
    ProviderNotFound {
        /// The requested provider name.
        provider_name: String,
    },
    /// The `--workspace` value was not a valid workspace name.
    Workspace(WorkspaceError),
    /// A default location could not be resolved.
    Config(ConfigError),
}

impl RunError {
    /// The human-readable description of this error.
    pub fn message(&self) -> (r: String)
        ensures
            self matches RunError::ProviderNotFound { provider_name } ==> r@ == "Codex provider '"@
                + provider_name@ + "' was not found"@,
            self matches RunError::Workspace(WorkspaceError::EmptyName) ==> r@
                == "workspace name cannot be empty"@,
            self matches RunError::Workspace(WorkspaceError::PathSeparators { name }) ==> r@
                == "workspace name '"@ + name@ + "' cannot contain path separators"@,
            self matches RunError::Config(ConfigError::MissingHomeDirectory) ==> r@
                == "failed to resolve user home directory"@,
            self matches RunError::Config(ConfigError::UnsupportedConfigName { name, supported })
                ==> r@ == "unsupported config name '"@ + name@ + "'; supported config names: "@
                + supported@,
            self matches RunError::Config(ConfigError::Io(_)) ==> has_prefix(
                r@,
                "configuration file error: "@,
            ),
            self matches RunError::Config(ConfigError::Json(_)) ==> has_prefix(
                r@,
                "configuration JSON error: "@,
            ),
            self matches RunError::Config(ConfigError::InvalidSystemClock) ==> r@
                == "system clock is before the Unix epoch"@,
    {
        match self {
            RunError::ProviderNotFound { provider_name } => {
                let mut out = String::from_str("Codex provider '");
                out.append(provider_name.as_str());
                out.append("' was not found");
                out
            },
            RunError::Workspace(e) => e.message(),
            RunError::Config(e) => e.message(),
        }
    }
}

/// Run configuration derived from CLI arguments.
#[derive(Debug, Clone, PartialEq, Eq)]
pub struct RunConfig {
    provider_name: String,
    workspace_path: String,
    provider_database_path: String,
    image_override: Option<String>,
    docker_launch_config: DockerLaunchConfig,
}

/// Mathematical model of a [`RunConfig`].
pub struct RunConfigView {
    pub provider_name: Seq<char>,
    pub workspace_path: Seq<char>,
    pub provider_database_path: Seq<char>,
    pub image_override: Option<Seq<char>>,
    pub docker: DockerLaunchConfigView,
}

impl View for RunConfig {
    type V = RunConfigView;

    closed spec fn view(&self) -> RunConfigView {
        RunConfigView {
            provider_name: self.provider_name@,
            workspace_path: self.workspace_path@,
            provider_database_path: self.provider_database_path@,
            image_override: opt_string_view(self.image_override),
            docker: self.docker_launch_config@,
        }
    }
}

/// The state root of a run: `--sessions-root` with `~` expanded, else
/// `<home>/.codex-ws`; `None` when neither is available.
pub open spec fn run_sessions_root_spec(
    sessions_root: Option<Seq<char>>,
    home: Option<Seq<char>>,
) -> Option<Seq<char>> {
    match sessions_root {
        Some(r) => Some(expand_home_spec(r, home)),
        None => match home {
            Some(h) => Some(state_root_spec(h)),
            None => None,
        },
    }
}

/// The provider database of a run: `--config-db` with `~` expanded, else the
/// saved `cc-switch-db` value, else `<home>/.cc-switch/cc-switch.db`; `None`
/// when none of them is available.
pub open spec fn run_database_path_spec(
    config_db: Option<Seq<char>>,
    saved: Option<Seq<char>>,
    home: Option<Seq<char>>,
) -> Option<Seq<char>> {
    match config_db {
        Some(d) => Some(expand_home_spec(d, home)),
        None => match saved {
            Some(p) => Some(p),
            None => match home {
                Some(h) => Some(cc_switch_database_path_spec(h)),
                None => None,
            },
        },
    }
}

/// What [`RunConfig::from_args`] returns for the given arguments, saved
/// configuration and home directory.
pub open spec fn from_args_outcome(
    args: RunArgs,
    saved_db: Option<Seq<char>>,
    home: Option<Seq<char>>,
    r: Result<RunConfig, RunError>,
) -> bool {
    match run_sessions_root_spec(opt_string_view(args.sessions_root), home) {
        None => r matches Err(RunError::Config(ConfigError::MissingHomeDirectory)),
        Some(root) => match resolve_workspace_spec(args.workspace@, root, home) {
            None => r matches Err(RunError::Workspace(e)) && workspace_name_error(args.workspace@, e),
            Some(workspace_path) => match run_database_path_spec(
                opt_string_view(args.config_db),
                saved_db,
                home,
            ) {
                None => r matches Err(RunError::Config(ConfigError::MissingHomeDirectory)),
                Some(db) => r matches Ok(c) && c@ == (RunConfigView {
                    provider_name: args.provider@,
                    workspace_path,
                    provider_database_path: db,
                    image_override: opt_string_view(args.image),
                    docker: DockerLaunchConfigView {
                        image: DEFAULT_CODEX_IMAGE@,
                        sessions_root: root,
                    },
                }),
            },
        },
    }
}

/// The launch configuration for a manifest: the run's image override wins, then
/// the manifest's `runtime.image`, then the configured image.
pub open spec fn effective_launch_spec(
    run: RunConfigView,
    manifest_image: Option<Seq<char>>,
) -> DockerLaunchConfigView {
    match run.image_override {
        Some(i) => DockerLaunchConfigView { image: i, sessions_root: run.docker.sessions_root },
        None => match manifest_image {
            Some(i) => DockerLaunchConfigView { image: i, sessions_root: run.docker.sessions_root },
            None => run.docker,
        },
    }
}

impl RunConfig {
    /// Create run configuration.
    pub fn new(
        provider_name: String,
        workspace_path: String,
        provider_database_path: String,
        image_override: Option<String>,
        docker_launch_config: DockerLaunchConfig,
    ) -> (r: Self)
        ensures
            r@ == (RunConfigView {
                provider_name: provider_name@,
                workspace_path: workspace_path@,
                provider_database_path: provider_database_path@,
                image_override: opt_string_view(image_override),
                docker: docker_launch_config@,
            }),
    {
        Self {
            provider_name,
            workspace_path,
            provider_database_path,
            image_override,
            docker_launch_config,
        }
    }

    /// Build run configuration from parsed CLI arguments, the saved user
    /// configuration and a given home directory.
    pub fn from_args_with_home(args: RunArgs, saved: &UserConfig, home: Option<String>) -> (r:
        Result<Self, RunError>)
        ensures
            from_args_outcome(args, saved@.cc_switch_db, opt_string_view(home), r),
    {
        let ghost h = opt_string_view(home);
        let ghost args0 = args;
        let RunArgs { provider, workspace, sessions_root, config_db, image } = args;
        let root = match sessions_root {
            Some(r) => expand_home_path_with(r, clone_opt_string(&home)),
            None => match &home {
                Some(hd) => state_root_for_home(hd.as_str()),
                None => return Err(RunError::Config(ConfigError::MissingHomeDirectory)),
            },
        };
        assert(run_sessions_root_spec(opt_string_view(args0.sessions_root), h) == Some(root@));
        let workspace_path = match resolve_workspace_path_with(
            workspace,
            root.as_str(),
            clone_opt_string(&home),
        ) {
            Ok(p) => p,
            Err(e) => return Err(RunError::Workspace(e)),
        };
        let database = match config_db {
            Some(d) => expand_home_path_with(d, clone_opt_string(&home)),
            None => match saved.cc_switch_db() {
                Some(p) => to_owned_string(p),
                None => match &home {
                    Some(hd) => cc_switch_database_path_for_home(hd.as_str()),
                    None => return Err(RunError::Config(ConfigError::MissingHomeDirectory)),
                },
            },
        };
        Ok(
            Self::new(
                provider,
                workspace_path,
                database,
                image,
                DockerLaunchConfig::new(to_owned_string(DEFAULT_CODEX_IMAGE), root),
            ),
        )
    }

    /// Build run configuration from parsed CLI arguments and the saved user
    /// configuration, with shell-style home-directory paths expanded.
    ///
    /// Fails when a bare workspace name is invalid, or when a default location is
    /// needed and the home directory cannot be resolved.
    pub fn from_args(args: RunArgs, saved: &UserConfig) -> (r: Result<Self, RunError>)
        ensures
            exists|h: Option<Seq<char>>|
                from_args_outcome(args, saved@.cc_switch_db, h, r),
    {
        let home = home_dir();
        Self::from_args_with_home(args, saved, home)
    }

    /// Return the selected provider name.
    pub fn provider_name(&self) -> (r: &str)
        ensures
            r@ == self@.provider_name,
    {
        self.provider_name.as_str()
    }

    /// Return the workspace manifest path.
    pub fn workspace_path(&self) -> (r: &str)
        ensures
            r@ == self@.workspace_path,
    {
        self.workspace_path.as_str()
    }

    /// Return the provider database path.
    pub fn provider_database_path(&self) -> (r: &str)
        ensures
            r@ == self@.provider_database_path,
    {
        self.provider_database_path.as_str()
    }

    /// Return the CLI image override, if any.
    pub fn image_override(&self) -> (r: Option<&str>)
        ensures
            r is None <==> self@.image_override is None,
            r matches Some(s) ==> self@.image_override == Some(s@),
    {
        match &self.image_override {
            Some(s) => Some(s.as_str()),
            None => None,
        }
    }

    /// Return Docker launch settings.
    pub fn docker_launch_config(&self) -> (r: &DockerLaunchConfig)
        ensures
            r@ == self@.docker,
    {
        &self.docker_launch_config
    }

    /// The Docker launch settings for a manifest: the CLI image override wins,
    /// then the manifest's `runtime.image`, then the configured image.
    pub fn effective_docker_launch_config(&self, manifest: &WorkspaceManifest) -> (r:
        DockerLaunchConfig)
        ensures
            r@ == effective_launch_spec(self@, manifest@.runtime.image),
    {
        if let Some(image) = &self.image_override {
            return self.docker_launch_config.with_image(to_owned_string(image.as_str()));
        }
        if let Some(image) = manifest.runtime().image() {
            return self.docker_launch_config.with_image(to_owned_string(image));
        }
        self.docker_launch_config.with_image(to_owned_string(self.docker_launch_config.image()))
    }
}

/// Select the first provider with the given name.
///
/// Fails with [`RunError::ProviderNotFound`] when no provider has that name.
pub fn select_provider(providers: Vec<CodexProvider>, provider_name: &str) -> (r: Result<
    CodexProvider,
    RunError,
>)
    ensures
        r is Ok <==> exists|i: int|
            0 <= i < providers@.len() && (#[trigger] providers@[i])@.name == provider_name@,
        r matches Ok(p) ==> exists|i: int|
            {
                &&& 0 <= i < providers@.len()
                &&& (#[trigger] providers@[i])@.name == provider_name@
                &&& forall|j: int| 0 <= j < i ==> (#[trigger] providers@[j])@.name != provider_name@
                &&& p@ == providers@[i]@
            },
        r matches Err(e) ==> (e matches RunError::ProviderNotFound { provider_name: n } && n@
            == provider_name@),
{
    let ghost all = providers@;
    let mut remaining = providers;
    let mut i: usize = 0;
    while i < remaining.len()
        invariant
            all == providers@,
            remaining@ == all,
            i <= all.len(),
            forall|j: int| 0 <= j < i ==> (#[trigger] all[j])@.name != provider_name@,
        decreases all.len() - i,
    {
        if str_equal(remaining[i].name(), provider_name) {
            let p = remaining.remove(i);
            assert(p == all[i as int]);
            return Ok(p);
        }
        i = i + 1;
    }
    Err(RunError::ProviderNotFound { provider_name: to_owned_string(provider_name) })
}

/// The Codex project entry that marks the folder mounted at `index` as trusted.
pub open spec fn trust_block_spec(index: nat) -> Seq<char> {
    "[projects.\""@ + folder_target_spec(index) + "\"]\ntrust_level = \"trusted\"\n\n"@
}

/// Trust entries for the first `n` mounted folders, in order.
pub open spec fn trust_blocks_spec(n: nat) -> Seq<char>
    decreases n,
{
    if n == 0 {
        Seq::empty()
    } else {
        trust_blocks_spec((n - 1) as nat) + trust_block_spec((n - 1) as nat)
    }
}

/// The Codex configuration written for a run: the provider's configuration
/// without trailing whitespace, a blank line, then a trust entry per folder.
pub open spec fn trusted_config_spec(provider_config: Seq<char>, folder_count: nat) -> Seq<char> {
    trim_end_spec(provider_config) + "\n\n"@ + trust_blocks_spec(folder_count)
}

/// The provider's Codex configuration with every mounted workspace folder trusted.
pub fn trusted_workspace_config(provider_config_toml: &str, manifest: &WorkspaceManifest) -> (r:
    String)
    ensures
        r@ == trusted_config_spec(provider_config_toml@, manifest@.folders.len()),
{
    let n = manifest.folders().len();
    let mut config = trim_end(provider_config_toml);
    config.append("\n\n");
    let ghost head = config@;
    let mut i: usize = 0;
    while i < n
        invariant
            i <= n,
            head == trim_end_spec(provider_config_toml@) + "\n\n"@,
            config@ == head + trust_blocks_spec(i as nat),
        decreases n - i,
    {
        config.append("[projects.\"");
        let target = folder_target(i);
        config.append(target.as_str());
        config.append("\"]\ntrust_level = \"trusted\"\n\n");
        assert(config@ =~= head + trust_blocks_spec((i + 1) as nat));
        i = i + 1;
    }
    config
}

/// `t` occurs in `s` as a contiguous run.
pub open spec fn occurs_in(s: Seq<char>, t: Seq<char>) -> bool {
    exists|off: int|
        0 <= off && off + t.len() <= s.len() && #[trigger] s.subrange(off, off + t.len()) == t
}

proof fn lemma_occurs_in_append(a: Seq<char>, b: Seq<char>, t: Seq<char>)
    ensures
        occurs_in(a, t) ==> occurs_in(a + b, t),
        occurs_in(b, t) ==> occurs_in(a + b, t),
{
    if occurs_in(a, t) {
        let off = choose|off: int|
            0 <= off && off + t.len() <= a.len() && #[trigger] a.subrange(off, off + t.len()) == t;
        assert((a + b).subrange(off, off + t.len()) =~= a.subrange(off, off + t.len()));
    }
    if occurs_in(b, t) {
        let off = choose|off: int|
            0 <= off && off + t.len() <= b.len() && #[trigger] b.subrange(off, off + t.len()) == t;
        assert((a + b).subrange(a.len() + off, a.len() + off + t.len()) =~= b.subrange(
            off,
            off + t.len(),
        ));
    }
}

proof fn lemma_trust_blocks_contain(n: nat, index: nat)
    requires
        index < n,
    ensures
        occurs_in(trust_blocks_spec(n), trust_block_spec(index)),
    decreases n,
{
    let prev = trust_blocks_spec((n - 1) as nat);
    if index == n - 1 {
        assert(occurs_in(trust_block_spec(index), trust_block_spec(index))) by {
            let t = trust_block_spec(index);
            let off: int = 0;
            assert(t.subrange(off, off + t.len()) =~= t);
        }
        lemma_occurs_in_append(prev, trust_block_spec(index), trust_block_spec(index));
    } else {
        lemma_trust_blocks_contain((n - 1) as nat, index);
        lemma_occurs_in_append(prev, trust_block_spec((n - 1) as nat), trust_block_spec(index));
    }
}

/// Proof that the generated configuration trusts the container path of every
/// mounted workspace folder: `/workspace/<i + 1>` for each folder index `i`.
pub proof fn lemma_every_mounted_folder_is_trusted(
    provider_config: Seq<char>,
    folder_count: nat,
    index: nat,
)
    requires
        index < folder_count,
    ensures
        occurs_in(trusted_config_spec(provider_config, folder_count), trust_block_spec(index)),
{
    lemma_trust_blocks_contain(folder_count, index);
    lemma_occurs_in_append(
        trim_end_spec(provider_config) + "\n\n"@,
        trust_blocks_spec(folder_count),
        trust_block_spec(index),
    );
}

/// Whether launching with `image` first checks the image's version label: only
/// the default image is checked and refreshed.
pub fn needs_image_check(image: &str) -> (r: bool)
    ensures
        r == (image@ == DEFAULT_CODEX_IMAGE@),
{
    str_equal(image, DEFAULT_CODEX_IMAGE)
}

/// Whether a local image is current: `docker image inspect` succeeded and its
/// version label, trimmed, is the expected version.
pub fn image_version_is_current(inspect_succeeded: bool, label_output: &str) -> (r: bool)
    ensures
        r == (inspect_succeeded && trim_spec(label_output@) == DEFAULT_CODEX_IMAGE_VERSION@),
{
    if !inspect_succeeded {
        return false;
    }
    let label = trim(label_output);
    str_equal(label.as_str(), DEFAULT_CODEX_IMAGE_VERSION)
}

/// Whether a process exit code counts as success: only an exit code of zero does,
/// and a process ended by a signal (no code) does not.
pub fn exit_code_is_success(code: Option<i32>) -> (r: bool)
    ensures
        r == (code == Some(0i32)),
{
    match code {
        Some(c) => c == 0,
        None => false,
    }
}

/// Proof of the image precedence of a run: an image override is used whatever
/// the manifest says; without one, the manifest's image is used; without
/// either, the configured launch settings are kept. The sessions root never changes.
pub proof fn lemma_effective_image_precedence(run: RunConfigView, manifest_image: Option<Seq<char>>)
    ensures
        effective_launch_spec(run, manifest_image).sessions_root == run.docker.sessions_root,
        run.image_override matches Some(i) ==> effective_launch_spec(run, manifest_image).image
            == i,
        run.image_override is None ==> (manifest_image matches Some(m) ==> effective_launch_spec(
            run,
            manifest_image,
        ).image == m),
        run.image_override is None && manifest_image is None ==> effective_launch_spec(
            run,
            manifest_image,
        ) == run.docker,
{
}

/// Proof that a run configuration is consistent with its arguments: the
/// workspace is resolved under the same sessions root that the run mounts, the
/// command-line database and image are the ones used, and the image starts as the default.
pub proof fn lemma_run_config_follows_args(
    args: RunArgs,
    saved_db: Option<Seq<char>>,
    home: Option<Seq<char>>,
    r: Result<RunConfig, RunError>,
)
    requires
        from_args_outcome(args, saved_db, home, r),
    ensures
        r matches Ok(c) ==> Some(c@.workspace_path) == resolve_workspace_spec(
            args.workspace@,
            c@.docker.sessions_root,
            home,
        ),
        r matches Ok(c) ==> (args.sessions_root matches Some(root) ==> c@.docker.sessions_root
            == expand_home_spec(root@, home)),
        r matches Ok(c) ==> (args.config_db matches Some(d) ==> c@.provider_database_path
            == expand_home_spec(d@, home)),
        r matches Ok(c) ==> (args.config_db is None ==> (saved_db matches Some(p)
            ==> c@.provider_database_path == p)),
        r matches Ok(c) ==> c@.provider_name == args.provider@ && c@.image_override
            == opt_string_view(args.image) && c@.docker.image == DEFAULT_CODEX_IMAGE@,
{
}

} // verus!
