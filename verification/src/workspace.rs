//! Saved workspace manifests: where they live, how a `--workspace` value
//! resolves to a manifest path, home-directory expansion, and the sorted
//! listing of saved workspaces.

use vstd::prelude::*;
use vstd::seq_lib::to_multiset_insert;
use vstd::string::*;

use crate::text::{
    contains_char, ends_with, has_prefix, has_suffix, is_blank, is_blank_spec, join_path,
    join_path_spec, opt_string_view, starts_with, str_equal, to_owned_string,
};

verus! {

/// Saved workspace manifest entry.
#[derive(Debug, Clone, PartialEq, Eq)]
pub struct WorkspaceEntry {
    name: String,
    path: String,
}

/// Mathematical model of a [`WorkspaceEntry`].
pub struct WorkspaceEntryView {
    pub name: Seq<char>,
    pub path: Seq<char>,
}

impl View for WorkspaceEntry {
    type V = WorkspaceEntryView;

    closed spec fn view(&self) -> WorkspaceEntryView {
        WorkspaceEntryView { name: self.name@, path: self.path@ }
    }
}

impl WorkspaceEntry {
    /// Create a saved workspace manifest entry.
    pub fn new(name: String, path: String) -> (r: Self)
        ensures
            r@ == (WorkspaceEntryView { name: name@, path: path@ }),
    {
        Self { name, path }
    }

    /// Return the workspace name.
    pub fn name(&self) -> (r: &str)
        ensures
            r@ == self@.name,
    {
        self.name.as_str()
    }

    /// Return the manifest path.
    pub fn path(&self) -> (r: &str)
        ensures
            r@ == self@.path,
    {
        self.path.as_str()
    }
}

/// Errors about saved workspace names.
#[derive(Debug, PartialEq, Eq)]
pub enum WorkspaceError {
    /// The workspace name was empty or only whitespace.
    EmptyName,
    /// The workspace name contained a path separator or was `..`.
    PathSeparators {
        /// The rejected workspace name.
        name: String,
    },
}

impl WorkspaceError {
    /// The human-readable description of this error.
    pub fn message(&self) -> (r: String)
        ensures
            match self {
                WorkspaceError::EmptyName => r@ == "workspace name cannot be empty"@,
                WorkspaceError::PathSeparators { name } => r@ == "workspace name '"@ + name@
                    + "' cannot contain path separators"@,
            },
    {
        match self {
            WorkspaceError::EmptyName => String::from_str("workspace name cannot be empty"),
            WorkspaceError::PathSeparators { name } => {
                let mut out = String::from_str("workspace name '");
                out.append(name.as_str());
                out.append("' cannot contain path separators");
                out
            },
        }
    }
}

/// A workspace name is accepted: not blank, not `..`, and without `/` or `\`.
pub open spec fn valid_workspace_name_spec(name: Seq<char>) -> bool {
    !is_blank_spec(name) && name != ".."@ && !name.contains('/') && !name.contains('\\')
}

/// The error reported for a rejected workspace name.
pub open spec fn workspace_name_error(name: Seq<char>, e: WorkspaceError) -> bool {
    if is_blank_spec(name) {
        e == WorkspaceError::EmptyName
    } else {
        e matches WorkspaceError::PathSeparators { name: n } && n@ == name
    }
}

/// Directory containing saved workspace manifests: `<sessions_root>/config/workspace`.
pub open spec fn workspace_config_dir_spec(sessions_root: Seq<char>) -> Seq<char> {
    join_path_spec(join_path_spec(sessions_root, "config"@), "workspace"@)
}

/// Saved manifest path of a workspace: `<sessions_root>/config/workspace/<name>.yaml`.
pub open spec fn workspace_manifest_path_spec(sessions_root: Seq<char>, name: Seq<char>) -> Seq<char> {
    join_path_spec(workspace_config_dir_spec(sessions_root), name + ".yaml"@)
}

/// A file name that a path parser gives an extension: it has a `.` after its
/// first character and is not `..`.
pub open spec fn has_extension_spec(s: Seq<char>) -> bool {
    s != ".."@ && exists|i: int| 1 <= i < s.len() && s[i] == '.'
}

/// A `--workspace` value that names a path rather than a saved workspace:
/// it contains `/` or `\`, is `~`, or has an extension.
pub open spec fn is_path_like_spec(s: Seq<char>) -> bool {
    s.contains('/') || s.contains('\\') || s == "~"@ || has_extension_spec(s)
}

/// `path` with a leading `~` or `~/` replaced by the home directory, when there is one.
pub open spec fn expand_home_spec(path: Seq<char>, home: Option<Seq<char>>) -> Seq<char> {
    if path == "~"@ {
        match home {
            Some(h) => h,
            None => path,
        }
    } else if has_prefix(path, "~/"@) {
        match home {
            Some(h) => join_path_spec(h, path.subrange(2, path.len() as int)),
            None => path,
        }
    } else {
        path
    }
}

/// The manifest path a `--workspace` value resolves to, or `None` for an invalid
/// workspace name.
pub open spec fn resolve_workspace_spec(
    workspace: Seq<char>,
    sessions_root: Seq<char>,
    home: Option<Seq<char>>,
) -> Option<Seq<char>> {
    if is_path_like_spec(workspace) {
        Some(expand_home_spec(workspace, home))
    } else if valid_workspace_name_spec(workspace) {
        Some(workspace_manifest_path_spec(sessions_root, workspace))
    } else {
        None
    }
}

/// The user's home directory, from `directories::BaseDirs`.
///
/// Calls `directories::BaseDirs::new()` and reads `home_dir()`, as a `String`;
/// none when the crate finds no home directory or the path is not valid UTF-8.
/// Nothing is stated of the result: it comes from the environment and the
/// machine's user database.
#[verifier::external_body]
pub(crate) fn home_dir() -> Option<String> {
    let dirs = directories::BaseDirs::new()?;
    dirs.home_dir().to_path_buf().into_os_string().into_string().ok()
}

/// Return the saved workspace manifest directory.
pub fn workspace_config_dir(sessions_root: &str) -> (r: String)
    ensures
        r@ == workspace_config_dir_spec(sessions_root@),
{
    let config = join_path(sessions_root, "config");
    join_path(config.as_str(), "workspace")
}

fn validate_workspace_name(workspace_name: &str) -> (r: Result<(), WorkspaceError>)
    ensures
        r is Ok <==> valid_workspace_name_spec(workspace_name@),
        r matches Err(e) ==> workspace_name_error(workspace_name@, e),
{
    if is_blank(workspace_name) {
        return Err(WorkspaceError::EmptyName);
    }
    if str_equal(workspace_name, "..") || contains_char(workspace_name, '/') || contains_char(
        workspace_name,
        '\\',
    ) {
        return Err(WorkspaceError::PathSeparators { name: to_owned_string(workspace_name) });
    }
    Ok(())
}

/// Return the manifest path for a saved workspace name.
///
/// Fails when the name is blank ([`WorkspaceError::EmptyName`]) or is `..` or
/// contains `/` or `\` ([`WorkspaceError::PathSeparators`]).
pub fn workspace_manifest_path(sessions_root: &str, workspace_name: &str) -> (r: Result<
    String,
    WorkspaceError,
>)
    ensures
        r is Ok <==> valid_workspace_name_spec(workspace_name@),
        r matches Ok(p) ==> p@ == workspace_manifest_path_spec(sessions_root@, workspace_name@),
        r matches Err(e) ==> workspace_name_error(workspace_name@, e),
{
    validate_workspace_name(workspace_name)?;
    let dir = workspace_config_dir(sessions_root);
    let mut file_name = String::from_str(workspace_name);
    file_name.append(".yaml");
    Ok(join_path(dir.as_str(), file_name.as_str()))
}

fn has_extension(s: &str) -> (r: bool)
    ensures
        r == has_extension_spec(s@),
{
    if str_equal(s, "..") {
        return false;
    }
    let n = s.unicode_len();
    let mut i: usize = 1;
    while i < n
        invariant
            1 <= i,
            n == s@.len(),
            s@ != ".."@,
            forall|k: int| 1 <= k < i ==> s@[k] != '.',
        decreases n - i,
    {
        if s.get_char(i) == '.' {
            assert(s@[i as int] == '.');
            return true;
        }
        i = i + 1;
    }
    false
}

/// Whether a `--workspace` value names a path rather than a saved workspace.
pub fn is_path_like(path: &str) -> (r: bool)
    ensures
        r == is_path_like_spec(path@),
{
    contains_char(path, '/') || contains_char(path, '\\') || str_equal(path, "~") || has_extension(
        path,
    )
}

/// Expand a leading `~` in a path against a given home directory.
pub fn expand_home_path_with(path: String, home: Option<String>) -> (r: String)
    ensures
        r@ == expand_home_spec(path@, opt_string_view(home)),
{
    if str_equal(path.as_str(), "~") {
        return match home {
            Some(h) => h,
            None => path,
        };
    }
    if starts_with(path.as_str(), "~/") {
        match home {
            Some(h) => {
                proof {
                    reveal_strlit("~/");
                }
                let n = path.as_str().unicode_len();
                let rest = path.as_str().substring_char(2, n);
                return join_path(h.as_str(), rest);
            },
            None => {
                return path;
            },
        }
    }
    path
}

/// Expand a leading `~` in a path against the user's home directory.
///
/// Paths that are neither `~` nor start with `~/` are returned unchanged; so is
/// every path when the home directory cannot be resolved.
pub fn expand_home_path(path: String) -> (r: String)
    ensures
        exists|h: Option<Seq<char>>| r@ == expand_home_spec(path@, h),
        path@ != "~"@ && !has_prefix(path@, "~/"@) ==> r@ == path@,
{
    let home = home_dir();
    expand_home_path_with(path, home)
}

/// Resolve a `run --workspace` value to a manifest path, given the home directory.
pub fn resolve_workspace_path_with(
    workspace: String,
    sessions_root: &str,
    home: Option<String>,
) -> (r: Result<String, WorkspaceError>)
    ensures
        r is Ok <==> resolve_workspace_spec(workspace@, sessions_root@, opt_string_view(home)) is Some,
        r matches Ok(p) ==> Some(p@) == resolve_workspace_spec(
            workspace@,
            sessions_root@,
            opt_string_view(home),
        ),
        r matches Err(e) ==> workspace_name_error(workspace@, e),
{
    if is_path_like(workspace.as_str()) {
        return Ok(expand_home_path_with(workspace, home));
    }
    workspace_manifest_path(sessions_root, workspace.as_str())
}

/// Resolve a `run --workspace` value to a manifest path.
///
/// Path-like values are returned with `~` expanded; bare names resolve to
/// `<sessions_root>/config/workspace/<name>.yaml`.
pub fn resolve_workspace_path(workspace: String, sessions_root: &str) -> (r: Result<
    String,
    WorkspaceError,
>)
    ensures
        exists|h: Option<Seq<char>>|
            {
                &&& r is Ok <==> resolve_workspace_spec(workspace@, sessions_root@, h) is Some
                &&& r matches Ok(p) ==> Some(p@) == resolve_workspace_spec(
                    workspace@,
                    sessions_root@,
                    h,
                )
            },
        !is_path_like_spec(workspace@) ==> (r matches Ok(p) ==> p@ == workspace_manifest_path_spec(
            sessions_root@,
            workspace@,
        )),
        r matches Err(e) ==> workspace_name_error(workspace@, e),
{
    let home = home_dir();
    resolve_workspace_path_with(workspace, sessions_root, home)
}

/// The manifest text written for a new saved workspace.
pub open spec fn workspace_template_spec(workspace_name: Seq<char>) -> Seq<char> {
    "# Workspace manifest for codex-ws.\n# Replace the folder examples with absolute host paths.\nname: "@
        + workspace_name
        + "\nfolders:\n  - /absolute/path/to/project\n\n# The container has network access by default so Codex can reach the model provider.\n# Advanced offline-only configuration:\n# sandbox:\n#   network: false\n\n# Optional runtime setup for the lightweight Ubuntu image.\n# runtime:\n#   apt:\n#     - python3\n#     - python3-pip\n#   setup:\n#     - python3 -m pip install --user maturin\n"@
}

/// The manifest template for a new saved workspace.
pub fn workspace_template(workspace_name: &str) -> (r: String)
    ensures
        r@ == workspace_template_spec(workspace_name@),
{
    let mut out = String::from_str(
        "# Workspace manifest for codex-ws.\n# Replace the folder examples with absolute host paths.\nname: ",
    );
    out.append(workspace_name);
    out.append(
        "\nfolders:\n  - /absolute/path/to/project\n\n# The container has network access by default so Codex can reach the model provider.\n# Advanced offline-only configuration:\n# sandbox:\n#   network: false\n\n# Optional runtime setup for the lightweight Ubuntu image.\n# runtime:\n#   apt:\n#     - python3\n#     - python3-pip\n#   setup:\n#     - python3 -m pip install --user maturin\n",
    );
    out
}

/// The editor used to open a new manifest: `$VISUAL`, else `$EDITOR`, each only
/// when not blank, else `vim`.
pub open spec fn choose_editor_spec(visual: Option<Seq<char>>, editor: Option<Seq<char>>) -> Seq<
    char,
> {
    if visual matches Some(v) && !is_blank_spec(v) {
        visual->0
    } else if editor matches Some(e) && !is_blank_spec(e) {
        editor->0
    } else {
        "vim"@
    }
}

/// Choose the editor from the `VISUAL` and `EDITOR` environment values.
pub fn choose_editor(visual: Option<String>, editor: Option<String>) -> (r: String)
    ensures
        r@ == choose_editor_spec(opt_string_view(visual), opt_string_view(editor)),
{
    if let Some(v) = visual {
        if !is_blank(v.as_str()) {
            return v;
        }
    }
    if let Some(e) = editor {
        if !is_blank(e.as_str()) {
            return e;
        }
    }
    String::from_str("vim")
}

/// Lexicographic order on character sequences (code-point order, which is the
/// byte order of their UTF-8 encodings).
pub open spec fn lex_le(a: Seq<char>, b: Seq<char>) -> bool
    decreases a.len(),
{
    if a.len() == 0 {
        true
    } else if b.len() == 0 {
        false
    } else if a[0] != b[0] {
        (a[0] as int) < (b[0] as int)
    } else {
        lex_le(a.drop_first(), b.drop_first())
    }
}

/// Proof that lexicographic order is total.
pub proof fn lemma_lex_le_total(a: Seq<char>, b: Seq<char>)
    ensures
        lex_le(a, b) || lex_le(b, a),
    decreases a.len(),
{
    if a.len() > 0 && b.len() > 0 && a[0] == b[0] {
        lemma_lex_le_total(a.drop_first(), b.drop_first());
    } else if a.len() > 0 && b.len() > 0 {
        assert((a[0] as int) != (b[0] as int));
    }
}

/// Proof that lexicographic order is transitive.
pub proof fn lemma_lex_le_transitive(a: Seq<char>, b: Seq<char>, c: Seq<char>)
    requires
        lex_le(a, b),
        lex_le(b, c),
    ensures
        lex_le(a, c),
    decreases a.len(),
{
    if a.len() > 0 && b.len() > 0 && c.len() > 0 && a[0] == b[0] && b[0] == c[0] {
        lemma_lex_le_transitive(a.drop_first(), b.drop_first(), c.drop_first());
    }
}

proof fn lemma_lex_le_skip(a: Seq<char>, b: Seq<char>, i: int)
    requires
        0 <= i <= a.len(),
        i <= b.len(),
        forall|k: int| 0 <= k < i ==> a[k] == b[k],
    ensures
        lex_le(a, b) == lex_le(a.skip(i), b.skip(i)),
    decreases i,
{
    if i > 0 {
        assert forall|k: int| 0 <= k < i - 1 implies a.drop_first()[k] == b.drop_first()[k] by {
            assert(a.drop_first()[k] == a[k + 1]);
        }
        lemma_lex_le_skip(a.drop_first(), b.drop_first(), i - 1);
        assert(a.drop_first().skip(i - 1) =~= a.skip(i));
        assert(b.drop_first().skip(i - 1) =~= b.skip(i));
    } else {
        assert(a.skip(0) =~= a);
        assert(b.skip(0) =~= b);
    }
}

fn str_lex_le(a: &str, b: &str) -> (r: bool)
    ensures
        r == lex_le(a@, b@),
{
    let n = a.unicode_len();
    let m = b.unicode_len();
    let mut i: usize = 0;
    while i < n && i < m
        invariant
            i <= n,
            i <= m,
            n == a@.len(),
            m == b@.len(),
            forall|k: int| 0 <= k < i ==> a@[k] == b@[k],
        decreases n - i,
    {
        let ca = a.get_char(i);
        let cb = b.get_char(i);
        if ca != cb {
            proof {
                lemma_lex_le_skip(a@, b@, i as int);
                assert(a@.skip(i as int)[0] == ca);
                assert(b@.skip(i as int)[0] == cb);
            }
            return (ca as u32) < (cb as u32);
        }
        i = i + 1;
    }
    proof {
        lemma_lex_le_skip(a@, b@, i as int);
    }
    i == n
}

/// A file name of a saved manifest: it ends in `.yaml` after a non-empty stem.
pub open spec fn is_manifest_file_name(f: Seq<char>) -> bool {
    f.len() > 5 && has_suffix(f, ".yaml"@)
}

/// The saved-workspace entry for a manifest file in `config_dir`.
pub open spec fn manifest_entry_spec(config_dir: Seq<char>, f: Seq<char>) -> WorkspaceEntryView {
    WorkspaceEntryView { name: f.subrange(0, f.len() - 5), path: join_path_spec(config_dir, f) }
}

/// The entries for the manifest files among `file_names`, in input order.
pub open spec fn manifest_entries_spec(config_dir: Seq<char>, file_names: Seq<String>) -> Seq<
    WorkspaceEntryView,
>
    decreases file_names.len(),
{
    if file_names.len() == 0 {
        Seq::empty()
    } else {
        let rest = manifest_entries_spec(config_dir, file_names.drop_last());
        if is_manifest_file_name(file_names.last()@) {
            rest.push(manifest_entry_spec(config_dir, file_names.last()@))
        } else {
            rest
        }
    }
}

/// The models of a sequence of workspace entries.
pub open spec fn entries_view(v: Seq<WorkspaceEntry>) -> Seq<WorkspaceEntryView> {
    Seq::new(v.len(), |i: int| v[i]@)
}

/// Entries in non-decreasing order of name.
pub open spec fn sorted_by_name(v: Seq<WorkspaceEntryView>) -> bool {
    forall|i: int, j: int| 0 <= i < j < v.len() ==> lex_le(#[trigger] v[i].name, #[trigger] v[j].name)
}

/// Insert `entry` into `sorted` after every entry whose name is not greater.
fn insert_sorted(sorted: &mut Vec<WorkspaceEntry>, entry: WorkspaceEntry)
    requires
        sorted_by_name(entries_view(old(sorted)@)),
    ensures
        sorted_by_name(entries_view(final(sorted)@)),
        entries_view(final(sorted)@).to_multiset() == entries_view(old(sorted)@).to_multiset().insert(
            entry@,
        ),
{
    let ghost before = entries_view(sorted@);
    let mut p: usize = 0;
    while p < sorted.len()
        invariant
            p <= sorted@.len(),
            before == entries_view(sorted@),
            forall|k: int| 0 <= k < p ==> lex_le(#[trigger] before[k].name, entry@.name),
        ensures
            p <= sorted@.len(),
            forall|k: int| 0 <= k < p ==> lex_le(#[trigger] before[k].name, entry@.name),
            p < sorted@.len() ==> !lex_le(before[p as int].name, entry@.name),
        decreases sorted@.len() - p,
    {
        if !str_lex_le(sorted[p].name(), entry.name()) {
            break ;
        }
        p = p + 1;
    }
    let ghost ev = entry@;
    sorted.insert(p, entry);
    proof {
        let after = entries_view(sorted@);
        assert(after =~= before.insert(p as int, ev));
        to_multiset_insert(before, p as int, ev);
        assert forall|i: int, j: int| 0 <= i < j < after.len() implies lex_le(
            #[trigger] after[i].name,
            #[trigger] after[j].name,
        ) by {
            if j < p {
            } else if j == p {
                assert(after[i] == before[i]);
            } else if i == p {
                lemma_lex_le_total(before[p as int].name, ev.name);
                if j - 1 > p {
                    lemma_lex_le_transitive(ev.name, before[p as int].name, before[j - 1].name);
                }
            } else if i < p {
                assert(after[j] == before[j - 1]);
            } else {
                assert(after[i] == before[i - 1]);
                assert(after[j] == before[j - 1]);
            }
        }
    }
}

/// The saved-workspace entries for the file names found in `config_dir`.
///
/// Keeps the files named `<stem>.yaml` with a non-empty stem, names each entry
/// by its stem, and returns the entries sorted by name.
pub fn collect_workspace_entries(config_dir: &str, file_names: Vec<String>) -> (r: Vec<
    WorkspaceEntry,
>)
    ensures
        sorted_by_name(entries_view(r@)),
        entries_view(r@).to_multiset() == manifest_entries_spec(
            config_dir@,
            file_names@,
        ).to_multiset(),
{
    let mut out: Vec<WorkspaceEntry> = Vec::new();
    let mut i: usize = 0;
    assert(entries_view(out@) =~= manifest_entries_spec(config_dir@, file_names@.take(0)));
    while i < file_names.len()
        invariant
            i <= file_names@.len(),
            sorted_by_name(entries_view(out@)),
            entries_view(out@).to_multiset() == manifest_entries_spec(
                config_dir@,
                file_names@.take(i as int),
            ).to_multiset(),
        decreases file_names@.len() - i,
    {
        let f = file_names[i].as_str();
        proof {
            assert(file_names@.take(i + 1).drop_last() =~= file_names@.take(i as int));
            assert(file_names@.take(i + 1).last() == file_names@[i as int]);
        }
        let n = f.unicode_len();
        if n > 5 && ends_with(f, ".yaml") {
            let name = String::from_str(f.substring_char(0, n - 5));
            let path = join_path(config_dir, f);
            let entry = WorkspaceEntry::new(name, path);
            let ghost ev = entry@;
            insert_sorted(&mut out, entry);
            proof {
                let spec_prev = manifest_entries_spec(config_dir@, file_names@.take(i as int));
                vstd::seq_lib::to_multiset_build(spec_prev, ev);
            }
        }
        i = i + 1;
    }
    assert(file_names@.take(file_names@.len() as int) =~= file_names@);
    out
}

/// A workspace saved under a valid name that does not look like a path is the
/// manifest that `run --workspace <name>` resolves to.
pub proof fn lemma_saved_workspace_is_resolved(
    name: Seq<char>,
    sessions_root: Seq<char>,
    home: Option<Seq<char>>,
)
    requires
        valid_workspace_name_spec(name),
        !is_path_like_spec(name),
    ensures
        resolve_workspace_spec(name, sessions_root, home) == Some(
            workspace_manifest_path_spec(sessions_root, name),
        ),
{
}

/// The manifest saved for a valid workspace name is listed under that name,
/// with the path it was saved at.
pub proof fn lemma_saved_workspace_is_listed(name: Seq<char>, sessions_root: Seq<char>)
    requires
        valid_workspace_name_spec(name),
    ensures
        is_manifest_file_name(name + ".yaml"@),
        manifest_entry_spec(workspace_config_dir_spec(sessions_root), name + ".yaml"@) == (
        WorkspaceEntryView {
            name: name,
            path: workspace_manifest_path_spec(sessions_root, name),
        }),
{
    reveal_strlit(".yaml");
    let f = name + ".yaml"@;
    assert(name.len() > 0);
    assert(f.subrange(f.len() - 5, f.len() as int) =~= ".yaml"@);
    assert(f.subrange(0, f.len() - 5) =~= name);
}

} // verus!
