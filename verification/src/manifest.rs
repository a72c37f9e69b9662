//! Workspace manifests: the workspace name, its host folders, sandbox options and
//! runtime setup, validated from the raw values a manifest file holds.

use vstd::prelude::*;
use vstd::string::*;

use crate::runtime::{
    apt_all_ok, apt_stage_error, clang_conflict_error, clang_views_agree, docker_assignment_spec,
    language_env_spec, language_values, language_versions_view, languages_all_ok,
    languages_stage_error, parse_language_versions, present_tool_versions, setup_all_ok,
    tool_env_spec, tool_versions_view, tools_all_ok, tools_stage_error, trimmed_view,
    validate_apt_packages, validate_runtime_tool_versions, validate_setup_commands,
    validate_tool_entries, RuntimeEnvironmentVariable, RuntimeEnvironmentVariableView,
    RuntimeLanguageVersion, RuntimeLanguageVersionView, RuntimeSpecError, RuntimeTool,
    RuntimeToolVersion, RuntimeToolVersionView, CODEX_WS_APT_PACKAGES_ENV,
    CODEX_WS_SETUP_COMMANDS_ENV,
};
use crate::text::{
    is_blank, is_blank_spec, join_spec, join_strings, opt_string_view, path_file_name,
    path_file_name_spec, str_equal, strings_view, to_owned_string,
};

verus! {

/// Runtime setup requested by a workspace manifest.
#[derive(Debug, Clone, PartialEq, Eq)]
pub struct RuntimeConfig {
    image: Option<String>,
    apt_packages: Vec<String>,
    setup_commands: Vec<String>,
    tool_versions: Vec<RuntimeToolVersion>,
    language_versions: Vec<RuntimeLanguageVersion>,
}

/// Mathematical model of a [`RuntimeConfig`].
#[verifier::ext_equal]
pub struct RuntimeConfigView {
    pub image: Option<Seq<char>>,
    pub apt_packages: Seq<Seq<char>>,
    pub setup_commands: Seq<Seq<char>>,
    pub tool_versions: Seq<RuntimeToolVersionView>,
    pub language_versions: Seq<RuntimeLanguageVersionView>,
}

impl View for RuntimeConfig {
    type V = RuntimeConfigView;

    closed spec fn view(&self) -> RuntimeConfigView {
        RuntimeConfigView {
            image: opt_string_view(self.image),
            apt_packages: strings_view(self.apt_packages@),
            setup_commands: strings_view(self.setup_commands@),
            tool_versions: tool_versions_view(self.tool_versions@),
            language_versions: language_versions_view(self.language_versions@),
        }
    }
}

/// The runtime setup of a manifest without a `runtime` section.
pub open spec fn empty_runtime_view() -> RuntimeConfigView {
    RuntimeConfigView {
        image: None,
        apt_packages: Seq::empty(),
        setup_commands: Seq::empty(),
        tool_versions: Seq::empty(),
        language_versions: Seq::empty(),
    }
}

/// The environment variables that carry a runtime setup to the container, in
/// order: one per language version, one per tool version, then the apt packages
/// separated by spaces and the setup commands separated by newlines, each of the
/// last two only when non-empty.
pub open spec fn runtime_env_spec(rt: RuntimeConfigView) -> Seq<RuntimeEnvironmentVariableView> {
    Seq::new(
        rt.language_versions.len(),
        |i: int|
            RuntimeEnvironmentVariableView {
                name: language_env_spec(rt.language_versions[i].language),
                value: rt.language_versions[i].version,
            },
    ) + Seq::new(
        rt.tool_versions.len(),
        |i: int|
            RuntimeEnvironmentVariableView {
                name: tool_env_spec(rt.tool_versions[i].tool),
                value: rt.tool_versions[i].version,
            },
    ) + (if rt.apt_packages.len() > 0 {
        seq![
            RuntimeEnvironmentVariableView {
                name: CODEX_WS_APT_PACKAGES_ENV@,
                value: join_spec(rt.apt_packages, " "@),
            },
        ]
    } else {
        Seq::empty()
    }) + (if rt.setup_commands.len() > 0 {
        seq![
            RuntimeEnvironmentVariableView {
                name: CODEX_WS_SETUP_COMMANDS_ENV@,
                value: join_spec(rt.setup_commands, "\n"@),
            },
        ]
    } else {
        Seq::empty()
    })
}

/// The models of a sequence of environment variables.
pub open spec fn env_vars_view(v: Seq<RuntimeEnvironmentVariable>) -> Seq<
    RuntimeEnvironmentVariableView,
> {
    Seq::new(v.len(), |i: int| v[i]@)
}

/// Raw runtime values of a manifest, before validation.
pub struct RawRuntimeConfig {
    /// Optional Docker image for the workspace.
    pub image: Option<String>,
    /// Raw `runtime.apt` entries.
    pub apt: Vec<String>,
    /// Raw `runtime.setup` entries.
    pub setup: Vec<String>,
    /// Raw per-tool version fields, in manifest field order.
    pub tools: Vec<(RuntimeTool, Option<String>)>,
    /// Raw `language:version` specs.
    pub languages: Vec<String>,
}

/// Every stage of raw runtime validation accepts its input.
pub open spec fn raw_runtime_ok(raw: RawRuntimeConfig) -> bool {
    &&& apt_all_ok(raw.apt@)
    &&& setup_all_ok(raw.setup@)
    &&& tools_all_ok(raw.tools@)
    &&& clang_views_agree(
        present_tool_versions(raw.tools@),
        present_tool_versions(raw.tools@).len() as int,
    )
    &&& languages_all_ok(raw.languages@)
}

/// The runtime setup that accepted raw values denote.
pub open spec fn raw_runtime_value(raw: RawRuntimeConfig) -> RuntimeConfigView {
    RuntimeConfigView {
        image: opt_string_view(raw.image),
        apt_packages: trimmed_view(raw.apt@),
        setup_commands: trimmed_view(raw.setup@),
        tool_versions: present_tool_versions(raw.tools@),
        language_versions: language_values(raw.languages@),
    }
}

/// The error for rejected raw runtime values: the first failing stage, in the
/// order apt packages, setup commands, tool versions, compiler agreement, languages.
pub open spec fn raw_runtime_error(raw: RawRuntimeConfig, e: RuntimeSpecError) -> bool {
    if !apt_all_ok(raw.apt@) {
        apt_stage_error(raw.apt@, e)
    } else if !setup_all_ok(raw.setup@) {
        e == RuntimeSpecError::EmptySetupCommand
    } else if !tools_all_ok(raw.tools@) {
        tools_stage_error(raw.tools@, e)
    } else if !clang_views_agree(
        present_tool_versions(raw.tools@),
        present_tool_versions(raw.tools@).len() as int,
    ) {
        clang_conflict_error(present_tool_versions(raw.tools@), e)
    } else {
        languages_stage_error(raw.languages@, e)
    }
}

impl RuntimeConfig {
    /// Create a runtime configuration with an optional image and no other setup.
    pub fn new(image: Option<String>) -> (r: Self)
        ensures
            r@ == (RuntimeConfigView { image: opt_string_view(image), ..empty_runtime_view() }),
    {
        let r = Self {
            image,
            apt_packages: Vec::new(),
            setup_commands: Vec::new(),
            tool_versions: Vec::new(),
            language_versions: Vec::new(),
        };
        assert(r@ =~= (RuntimeConfigView { image: opt_string_view(image), ..empty_runtime_view() }));
        r
    }

    /// Create a runtime configuration with an optional image and language versions.
    pub fn with_language_versions(
        image: Option<String>,
        language_versions: Vec<RuntimeLanguageVersion>,
    ) -> (r: Self)
        ensures
            r@ == (RuntimeConfigView {
                image: opt_string_view(image),
                language_versions: language_versions_view(language_versions@),
                ..empty_runtime_view()
            }),
    {
        let r = Self {
            image,
            apt_packages: Vec::new(),
            setup_commands: Vec::new(),
            tool_versions: Vec::new(),
            language_versions,
        };
        assert(r@ =~= (RuntimeConfigView {
            image: opt_string_view(image),
            language_versions: language_versions_view(language_versions@),
            ..empty_runtime_view()
        }));
        r
    }

    /// Create a runtime configuration from already validated parts.
    pub fn with_setup(
        image: Option<String>,
        apt_packages: Vec<String>,
        setup_commands: Vec<String>,
        tool_versions: Vec<RuntimeToolVersion>,
    ) -> (r: Self)
        ensures
            r@ == (RuntimeConfigView {
                image: opt_string_view(image),
                apt_packages: strings_view(apt_packages@),
                setup_commands: strings_view(setup_commands@),
                tool_versions: tool_versions_view(tool_versions@),
                language_versions: Seq::empty(),
            }),
    {
        let r = Self {
            image,
            apt_packages,
            setup_commands,
            tool_versions,
            language_versions: Vec::new(),
        };
        assert(r@.language_versions =~= Seq::<RuntimeLanguageVersionView>::empty());
        r
    }

    /// Validate the raw runtime values of a manifest.
    ///
    /// Apt packages, setup commands and tool versions are trimmed and checked
    /// (see [`validate_apt_packages`], [`validate_setup_commands`],
    /// [`validate_tool_entries`]), the Clang aliases must agree
    /// ([`validate_runtime_tool_versions`]), and language specs must parse.
    pub fn from_raw(raw: RawRuntimeConfig) -> (r: Result<RuntimeConfig, RuntimeSpecError>)
        ensures
            r is Ok <==> raw_runtime_ok(raw),
            r matches Ok(rt) ==> rt@ == raw_runtime_value(raw),
            r matches Err(e) ==> raw_runtime_error(raw, e),
    {
        let ghost raw0 = raw;
        let RawRuntimeConfig { image, apt, setup, tools, languages } = raw;
        let apt_packages = match validate_apt_packages(apt) {
            Ok(v) => v,
            Err(e) => return Err(e),
        };
        let setup_commands = match validate_setup_commands(setup) {
            Ok(v) => v,
            Err(e) => return Err(e),
        };
        let requested = match validate_tool_entries(tools) {
            Ok(v) => v,
            Err(e) => return Err(e),
        };
        let ghost requested_view = tool_versions_view(requested@);
        let tool_versions = match validate_runtime_tool_versions(requested) {
            Ok(v) => v,
            Err(e) => return Err(e),
        };
        let language_versions = match parse_language_versions(languages) {
            Ok(v) => v,
            Err(e) => return Err(e),
        };
        let r = RuntimeConfig { image, apt_packages, setup_commands, tool_versions, language_versions };
        assert(r@ =~= raw_runtime_value(raw0));
        Ok(r)
    }

    /// Return the Docker image requested by the workspace, if any.
    pub fn image(&self) -> (r: Option<&str>)
        ensures
            r is None <==> self@.image is None,
            r matches Some(s) ==> self@.image == Some(s@),
    {
        match &self.image {
            Some(s) => Some(s.as_str()),
            None => None,
        }
    }

    /// Return the validated apt packages.
    pub fn apt_packages(&self) -> (r: &[String])
        ensures
            strings_view(r@) == self@.apt_packages,
    {
        self.apt_packages.as_slice()
    }

    /// Return the validated setup commands.
    pub fn setup_commands(&self) -> (r: &[String])
        ensures
            strings_view(r@) == self@.setup_commands,
    {
        self.setup_commands.as_slice()
    }

    /// Return the declarative tool versions.
    pub fn tool_versions(&self) -> (r: &[RuntimeToolVersion])
        ensures
            tool_versions_view(r@) == self@.tool_versions,
    {
        self.tool_versions.as_slice()
    }

    /// Return the language version selections.
    pub fn language_versions(&self) -> (r: &[RuntimeLanguageVersion])
        ensures
            language_versions_view(r@) == self@.language_versions,
    {
        self.language_versions.as_slice()
    }

    /// Return the Docker environment variables for this runtime setup.
    pub fn environment_variables(&self) -> (r: Vec<RuntimeEnvironmentVariable>)
        ensures
            env_vars_view(r@) == runtime_env_spec(self@),
    {
        let ghost rt = self@;
        let mut out: Vec<RuntimeEnvironmentVariable> = Vec::new();
        let mut i: usize = 0;
        while i < self.language_versions.len()
            invariant
                i <= self.language_versions@.len(),
                rt == self@,
                out@.len() == i,
                forall|j: int|
                    0 <= j < i ==> #[trigger] out@[j]@ == (RuntimeEnvironmentVariableView {
                        name: language_env_spec(rt.language_versions[j].language),
                        value: rt.language_versions[j].version,
                    }),
            decreases self.language_versions@.len() - i,
        {
            out.push(self.language_versions[i].environment_variable());
            i = i + 1;
        }
        let n_lang = out.len();
        let mut i: usize = 0;
        while i < self.tool_versions.len()
            invariant
                i <= self.tool_versions@.len(),
                rt == self@,
                n_lang == rt.language_versions.len(),
                out@.len() == n_lang + i,
                forall|j: int|
                    0 <= j < n_lang ==> #[trigger] out@[j]@ == (RuntimeEnvironmentVariableView {
                        name: language_env_spec(rt.language_versions[j].language),
                        value: rt.language_versions[j].version,
                    }),
                forall|j: int|
                    0 <= j < i ==> #[trigger] out@[n_lang + j]@ == (RuntimeEnvironmentVariableView {
                        name: tool_env_spec(rt.tool_versions[j].tool),
                        value: rt.tool_versions[j].version,
                    }),
            decreases self.tool_versions@.len() - i,
        {
            out.push(self.tool_versions[i].environment_variable());
            i = i + 1;
        }
        let ghost fixed = env_vars_view(out@);
        let n_fixed = out.len();
        proof {
            reveal_strlit(" ");
            reveal_strlit("\n");
        }
        if self.apt_packages.len() > 0 {
            let joined = join_strings(&self.apt_packages, " ");
            out.push(RuntimeEnvironmentVariable::new(CODEX_WS_APT_PACKAGES_ENV, joined));
        }
        let n_apt = out.len();
        if self.setup_commands.len() > 0 {
            let joined = join_strings(&self.setup_commands, "\n");
            out.push(RuntimeEnvironmentVariable::new(CODEX_WS_SETUP_COMMANDS_ENV, joined));
        }
        proof {
            let spec = runtime_env_spec(rt);
            assert(env_vars_view(out@).len() == spec.len());
            assert forall|j: int| 0 <= j < spec.len() implies env_vars_view(out@)[j] == spec[j] by {
                if j < n_lang {
                } else if j < n_fixed {
                    assert(out@[n_lang + (j - n_lang)]@ == spec[j]);
                } else if j < n_apt {
                } else {
                }
            }
            assert(env_vars_view(out@) =~= spec);
        }
        out
    }
}

impl Default for RuntimeConfig {
    fn default() -> (r: Self)
        ensures
            r@ == empty_runtime_view(),
    {
        let r = Self {
            image: None,
            apt_packages: Vec::new(),
            setup_commands: Vec::new(),
            tool_versions: Vec::new(),
            language_versions: Vec::new(),
        };
        assert(r@ =~= empty_runtime_view());
        r
    }
}

/// Sandbox options loaded from a workspace manifest.
#[derive(Debug, Clone, Copy, PartialEq, Eq, Structural)]
pub struct SandboxConfig {
    network: bool,
}

impl View for SandboxConfig {
    type V = bool;

    /// Whether sandbox network access is enabled.
    closed spec fn view(&self) -> bool {
        self.network
    }
}

impl SandboxConfig {
    /// Create a sandbox configuration.
    pub fn new(network: bool) -> (r: Self)
        ensures
            r@ == network,
    {
        Self { network }
    }

    /// Return whether sandbox network access is enabled.
    pub fn network(&self) -> (r: bool)
        ensures
            r == self@,
    {
        self.network
    }
}

impl Default for SandboxConfig {
    fn default() -> (r: Self)
        ensures
            !r@,
    {
        Self { network: false }
    }
}

/// Workspace manifest describing folders, sandbox options and runtime setup.
#[derive(Debug, Clone, PartialEq, Eq)]
pub struct WorkspaceManifest {
    name: String,
    folders: Vec<String>,
    sandbox: SandboxConfig,
    runtime: RuntimeConfig,
}

/// Mathematical model of a [`WorkspaceManifest`].
#[verifier::ext_equal]
pub struct WorkspaceManifestView {
    pub name: Seq<char>,
    pub folders: Seq<Seq<char>>,
    pub network: bool,
    pub runtime: RuntimeConfigView,
}

impl View for WorkspaceManifest {
    type V = WorkspaceManifestView;

    closed spec fn view(&self) -> WorkspaceManifestView {
        WorkspaceManifestView {
            name: self.name@,
            folders: strings_view(self.folders@),
            network: self.sandbox@,
            runtime: self.runtime@,
        }
    }
}

/// Raw values of a workspace manifest file, before validation.
pub struct RawWorkspaceManifest {
    /// Workspace name.
    pub name: String,
    /// Host folders.
    pub folders: Vec<String>,
    /// Whether the sandbox gets network access; absent means disabled.
    pub network: Option<bool>,
    /// Raw runtime setup.
    pub runtime: RawRuntimeConfig,
}

/// The host-side state of one workspace folder.
#[derive(Debug, Clone, Copy, PartialEq, Eq, Structural)]
pub enum FolderKind {
    /// The path exists and is a directory.
    Directory,
    /// The path exists and is not a directory.
    NotDirectory,
    /// The path does not exist.
    Missing,
}

/// The folder name (final path component) of each workspace folder.
pub open spec fn folder_names_spec(folders: Seq<Seq<char>>) -> Seq<Option<Seq<char>>> {
    Seq::new(folders.len(), |k: int| path_file_name_spec(folders[k]))
}

/// Folder `j` has a name that an earlier folder also has.
pub open spec fn repeats_earlier_name(names: Seq<Option<Seq<char>>>, j: int) -> bool {
    &&& names[j] is Some
    &&& exists|i: int| 0 <= i < j && #[trigger] names[i] == names[j]
}

/// Two workspace folders share their folder name.
pub open spec fn has_duplicate_folder_name(folders: Seq<Seq<char>>) -> bool {
    exists|j: int| 0 <= j < folders.len() && #[trigger] repeats_earlier_name(folder_names_spec(folders), j)
}

/// `name` is the folder name of the first folder that repeats an earlier folder's name.
pub open spec fn duplicate_folder_error(folders: Seq<Seq<char>>, name: Seq<char>) -> bool {
    exists|j: int|
        {
            &&& 0 <= j < folders.len()
            &&& #[trigger] repeats_earlier_name(folder_names_spec(folders), j)
            &&& forall|k: int| 0 <= k < j ==> !#[trigger] repeats_earlier_name(folder_names_spec(folders), k)
            &&& folder_names_spec(folders)[j] == Some(name)
        }
}

/// The folder name that the first folder repeating an earlier folder's name has,
/// or `None` when all folder names are distinct.
pub fn first_duplicate_folder_name(folders: &Vec<String>) -> (r: Option<String>)
    ensures
        r is None <==> !has_duplicate_folder_name(strings_view(folders@)),
        r matches Some(name) ==> duplicate_folder_error(strings_view(folders@), name@),
{
    let ghost fs = strings_view(folders@);
    let ghost names = folder_names_spec(fs);
    let mut computed: Vec<Option<String>> = Vec::new();
    let mut k: usize = 0;
    while k < folders.len()
        invariant
            k <= folders@.len(),
            fs == strings_view(folders@),
            names == folder_names_spec(fs),
            computed@.len() == k,
            forall|m: int| 0 <= m < k ==> #[trigger] opt_string_view(computed@[m]) == names[m],
        decreases folders@.len() - k,
    {
        computed.push(path_file_name(folders[k].as_str()));
        k = k + 1;
    }
    let mut j: usize = 0;
    while j < computed.len()
        invariant
            j <= computed@.len(),
            computed@.len() == fs.len(),
            fs == strings_view(folders@),
            names == folder_names_spec(fs),
            forall|m: int| 0 <= m < computed@.len() ==> #[trigger] opt_string_view(computed@[m]) == names[m],
            forall|m: int| 0 <= m < j ==> !#[trigger] repeats_earlier_name(names, m),
        decreases computed@.len() - j,
    {
        if let Some(nj) = &computed[j] {
            assert(opt_string_view(computed@[j as int]) == names[j as int]);
            let mut i: usize = 0;
            while i < j
                invariant
                    i <= j < computed@.len(),
                    computed@.len() == fs.len(),
                    names == folder_names_spec(fs),
                    forall|m: int| 0 <= m < computed@.len() ==> #[trigger] opt_string_view(computed@[m]) == names[m],
                    names[j as int] == Some(nj@),
                    fs == strings_view(folders@),
                    forall|m: int| 0 <= m < j ==> !#[trigger] repeats_earlier_name(names, m),
                    forall|m: int| 0 <= m < i ==> #[trigger] names[m] != names[j as int],
                decreases j - i,
            {
                assert(opt_string_view(computed@[i as int]) == names[i as int]);
                if let Some(ni) = &computed[i] {
                    if str_equal(ni.as_str(), nj.as_str()) {
                        assert(repeats_earlier_name(names, j as int));
                        assert(duplicate_folder_error(fs, nj@));
                        return Some(to_owned_string(nj.as_str()));
                    }
                }
                i = i + 1;
            }
            assert(!repeats_earlier_name(names, j as int));
        } else {
            assert(opt_string_view(computed@[j as int]) == names[j as int]);
        }
        j = j + 1;
    }
    assert(!has_duplicate_folder_name(fs));
    None
}

impl WorkspaceManifest {
    /// Create a workspace manifest without runtime setup.
    ///
    /// Fails with [`ManifestError::EmptyName`] when `name` is blank, otherwise
    /// with [`ManifestError::NoFolders`] when no folders are given, and otherwise
    /// with [`ManifestError::DuplicateFolderName`] when two folders have the same
    /// folder name.
    pub fn new(name: String, folders: Vec<String>, sandbox: SandboxConfig) -> (r: Result<
        Self,
        ManifestError,
    >)
        ensures
            is_blank_spec(name@) ==> r matches Err(ManifestError::EmptyName),
            !is_blank_spec(name@) && folders@.len() == 0 ==> r matches Err(ManifestError::NoFolders),
            !is_blank_spec(name@) && folders@.len() > 0 && has_duplicate_folder_name(
                strings_view(folders@),
            ) ==> (r matches Err(ManifestError::DuplicateFolderName { name: n })
                && duplicate_folder_error(strings_view(folders@), n@)),
            !is_blank_spec(name@) && folders@.len() > 0 && !has_duplicate_folder_name(
                strings_view(folders@),
            ) ==> (r matches Ok(m) && m@ == (
            WorkspaceManifestView {
                name: name@,
                folders: strings_view(folders@),
                network: sandbox@,
                runtime: empty_runtime_view(),
            })),
    {
        Self::with_runtime(name, folders, sandbox, RuntimeConfig::default())
    }

    /// Create a workspace manifest with runtime setup.
    ///
    /// Fails as [`WorkspaceManifest::new`] does.
    pub fn with_runtime(
        name: String,
        folders: Vec<String>,
        sandbox: SandboxConfig,
        runtime: RuntimeConfig,
    ) -> (r: Result<Self, ManifestError>)
        ensures
            is_blank_spec(name@) ==> r matches Err(ManifestError::EmptyName),
            !is_blank_spec(name@) && folders@.len() == 0 ==> r matches Err(ManifestError::NoFolders),
            !is_blank_spec(name@) && folders@.len() > 0 && has_duplicate_folder_name(
                strings_view(folders@),
            ) ==> (r matches Err(ManifestError::DuplicateFolderName { name: n })
                && duplicate_folder_error(strings_view(folders@), n@)),
            !is_blank_spec(name@) && folders@.len() > 0 && !has_duplicate_folder_name(
                strings_view(folders@),
            ) ==> (r matches Ok(m) && m@ == (
            WorkspaceManifestView {
                name: name@,
                folders: strings_view(folders@),
                network: sandbox@,
                runtime: runtime@,
            })),
    {
        if is_blank(name.as_str()) {
            return Err(ManifestError::EmptyName);
        }
        if folders.len() == 0 {
            return Err(ManifestError::NoFolders);
        }
        if let Some(duplicate) = first_duplicate_folder_name(&folders) {
            return Err(ManifestError::DuplicateFolderName { name: duplicate });
        }
        Ok(Self { name, folders, sandbox, runtime })
    }

    /// Validate the raw values of a manifest file.
    ///
    /// The name and folders are checked as by [`WorkspaceManifest::new`], then the
    /// runtime setup as by [`RuntimeConfig::from_raw`], whose error is reported as
    /// [`ManifestError::Runtime`].
    pub fn from_raw(raw: RawWorkspaceManifest) -> (r: Result<Self, ManifestError>)
        ensures
            is_blank_spec(raw.name@) ==> r matches Err(ManifestError::EmptyName),
            !is_blank_spec(raw.name@) && raw.folders@.len() == 0 ==> r matches Err(
                ManifestError::NoFolders,
            ),
            !is_blank_spec(raw.name@) && raw.folders@.len() > 0 && has_duplicate_folder_name(
                strings_view(raw.folders@),
            ) ==> (r matches Err(ManifestError::DuplicateFolderName { name: n })
                && duplicate_folder_error(strings_view(raw.folders@), n@)),
            !is_blank_spec(raw.name@) && raw.folders@.len() > 0 && !has_duplicate_folder_name(
                strings_view(raw.folders@),
            ) && !raw_runtime_ok(raw.runtime) ==> (r matches Err(ManifestError::Runtime(e))
                && raw_runtime_error(raw.runtime, e)),
            !is_blank_spec(raw.name@) && raw.folders@.len() > 0 && !has_duplicate_folder_name(
                strings_view(raw.folders@),
            ) && raw_runtime_ok(raw.runtime) ==> (r matches Ok(m) && m@ == (WorkspaceManifestView {
                name: raw.name@,
                folders: strings_view(raw.folders@),
                network: match raw.network {
                    Some(b) => b,
                    None => false,
                },
                runtime: raw_runtime_value(raw.runtime),
            })),
    {
        let RawWorkspaceManifest { name, folders, network, runtime } = raw;
        if is_blank(name.as_str()) {
            return Err(ManifestError::EmptyName);
        }
        if folders.len() == 0 {
            return Err(ManifestError::NoFolders);
        }
        if let Some(duplicate) = first_duplicate_folder_name(&folders) {
            return Err(ManifestError::DuplicateFolderName { name: duplicate });
        }
        let runtime = match RuntimeConfig::from_raw(runtime) {
            Ok(rt) => rt,
            Err(e) => return Err(ManifestError::Runtime(e)),
        };
        let network = match network {
            Some(b) => b,
            None => false,
        };
        Ok(Self { name, folders, sandbox: SandboxConfig::new(network), runtime })
    }

    /// Return the workspace name.
    pub fn name(&self) -> (r: &str)
        ensures
            r@ == self@.name,
    {
        self.name.as_str()
    }

    /// Return workspace folders.
    pub fn folders(&self) -> (r: &[String])
        ensures
            strings_view(r@) == self@.folders,
    {
        self.folders.as_slice()
    }

    /// Return sandbox runtime options.
    pub fn sandbox(&self) -> (r: &SandboxConfig)
        ensures
            r@ == self@.network,
    {
        &self.sandbox
    }

    /// Return the runtime setup.
    pub fn runtime(&self) -> (r: &RuntimeConfig)
        ensures
            r@ == self@.runtime,
    {
        &self.runtime
    }
}

/// The first folder that is not a directory, reported by its state: `Missing`
/// folders as [`ManifestError::FolderMissing`], others as
/// [`ManifestError::FolderNotDirectory`].
pub open spec fn folder_error(folders: Seq<Seq<char>>, kinds: Seq<FolderKind>, e: ManifestError) -> bool {
    exists|i: int|
        {
            &&& 0 <= i < kinds.len()
            &&& #[trigger] kinds[i] != FolderKind::Directory
            &&& forall|j: int| 0 <= j < i ==> #[trigger] kinds[j] == FolderKind::Directory
            &&& kinds[i] == FolderKind::Missing ==> (e matches ManifestError::FolderMissing { path }
                && path@ == folders[i])
            &&& kinds[i] == FolderKind::NotDirectory ==> (
            e matches ManifestError::FolderNotDirectory { path } && path@ == folders[i])
        }
}

/// Validate that every workspace folder exists and is a directory.
///
/// `kinds[i]` is the host-side state of `manifest.folders()[i]`.
pub fn validate_workspace_folders(manifest: &WorkspaceManifest, kinds: &Vec<FolderKind>) -> (r:
    Result<(), ManifestError>)
    requires
        kinds@.len() == manifest@.folders.len(),
    ensures
        r is Ok <==> forall|i: int| 0 <= i < kinds@.len() ==> #[trigger] kinds@[i] == FolderKind::Directory,
        r matches Err(e) ==> folder_error(manifest@.folders, kinds@, e),
{
    let folders = manifest.folders();
    let mut i: usize = 0;
    while i < kinds.len()
        invariant
            i <= kinds@.len(),
            kinds@.len() == folders@.len(),
            strings_view(folders@) == manifest@.folders,
            forall|j: int| 0 <= j < i ==> #[trigger] kinds@[j] == FolderKind::Directory,
        decreases kinds@.len() - i,
    {
        match kinds[i] {
            FolderKind::Directory => {},
            FolderKind::Missing => {
                let e = ManifestError::FolderMissing { path: to_owned_string(folders[i].as_str()) };
                assert(folder_error(manifest@.folders, kinds@, e)) by {
                    assert(strings_view(folders@)[i as int] == folders@[i as int]@);
                };
                return Err(e);
            },
            FolderKind::NotDirectory => {
                let e = ManifestError::FolderNotDirectory {
                    path: to_owned_string(folders[i].as_str()),
                };
                assert(folder_error(manifest@.folders, kinds@, e)) by {
                    assert(strings_view(folders@)[i as int] == folders@[i as int]@);
                };
                return Err(e);
            },
        }
        i = i + 1;
    }
    Ok(())
}

/// Errors returned while loading or validating workspace manifests.
#[derive(Debug)]
pub enum ManifestError {
    /// The manifest file could not be read.
    Read {
        /// Manifest path that failed to read.
        path: String,
        /// Underlying I/O error.
        source: std::io::Error,
    },
    /// The manifest YAML could not be parsed.
    Yaml(serde_yaml::Error),
    /// The workspace name was empty or only whitespace.
    EmptyName,
    /// The workspace did not include any folders.
    NoFolders,
    /// Two workspace folders have the same folder name (final path component).
    DuplicateFolderName {
        /// The shared folder name.
        name: String,
    },
    /// A workspace folder path does not exist.
    FolderMissing {
        /// Missing workspace folder path.
        path: String,
    },
    /// A workspace folder path exists but is not a directory.
    FolderNotDirectory {
        /// Non-directory workspace folder path.
        path: String,
    },
    /// The runtime setup was invalid.
    Runtime(RuntimeSpecError),
}

} // verus!
