//! Codex provider configuration: the providers that the local configuration
//! database holds for Codex, built from its rows in row order.

use vstd::prelude::*;

verus! {

/// Codex provider configuration loaded from the local configuration database.
#[derive(Debug, Clone, PartialEq, Eq)]
pub struct CodexProvider {
    name: String,
    auth: String,
    config: String,
}

/// Mathematical model of a [`CodexProvider`].
pub struct CodexProviderView {
    pub name: Seq<char>,
    pub auth: Seq<char>,
    pub config: Seq<char>,
}

impl View for CodexProvider {
    type V = CodexProviderView;

    closed spec fn view(&self) -> CodexProviderView {
        CodexProviderView { name: self.name@, auth: self.auth@, config: self.config@ }
    }
}

impl CodexProvider {
    /// Create a Codex provider configuration.
    pub fn new(name: String, auth: String, config: String) -> (r: Self)
        ensures
            r@ == (CodexProviderView { name: name@, auth: auth@, config: config@ }),
    {
        Self { name, auth, config }
    }

    /// Return the provider name.
    pub fn name(&self) -> (r: &str)
        ensures
            r@ == self@.name,
    {
        self.name.as_str()
    }

    /// Return the provider auth payload.
    pub fn auth(&self) -> (r: &str)
        ensures
            r@ == self@.auth,
    {
        self.auth.as_str()
    }

    /// Return the provider config payload.
    pub fn config(&self) -> (r: &str)
        ensures
            r@ == self@.config,
    {
        self.config.as_str()
    }
}

/// The `config.auth` and `config.config` payloads of a provider's settings JSON.
pub struct ProviderSettings {
    /// Auth payload for the Codex CLI.
    pub auth: String,
    /// Runtime configuration payload for the Codex CLI.
    pub config: String,
}

/// One Codex provider row: its name and its parsed settings, or the JSON error.
pub struct ProviderRow {
    /// Provider name.
    pub name: String,
    /// Parsed settings JSON.
    pub settings: Result<ProviderSettings, serde_json::Error>,
}

/// Errors returned while loading Codex provider configuration.
#[derive(Debug)]
pub enum ProviderError {
    /// The configuration database could not be opened or queried.
    Database(rusqlite::Error),
    /// The provider settings JSON did not match the expected shape.
    SettingsJson {
        /// Provider name associated with the invalid settings payload.
        provider_name: String,
        /// JSON parsing error returned by `serde_json`.
        source: serde_json::Error,
    },
}

/// The provider that a row with valid settings denotes.
pub open spec fn row_provider(row: ProviderRow) -> CodexProviderView {
    match row.settings {
        Ok(s) => CodexProviderView { name: row.name@, auth: s.auth@, config: s.config@ },
        Err(_) => CodexProviderView { name: row.name@, auth: Seq::empty(), config: Seq::empty() },
    }
}

/// The models of a sequence of providers.
pub open spec fn providers_view(v: Seq<CodexProvider>) -> Seq<CodexProviderView> {
    Seq::new(v.len(), |i: int| v[i]@)
}

/// Every row's settings parsed.
pub open spec fn rows_ok(rows: Seq<ProviderRow>) -> bool {
    forall|i: int| 0 <= i < rows.len() ==> (#[trigger] rows[i]).settings is Ok
}

/// Build the providers of Codex rows, preserving row order.
///
/// Fails with [`ProviderError::SettingsJson`] naming the first row whose
/// settings JSON did not parse, and carrying that row's JSON error.
pub fn codex_providers_from_rows(rows: Vec<ProviderRow>) -> (r: Result<
    Vec<CodexProvider>,
    ProviderError,
>)
    ensures
        r is Ok <==> rows_ok(rows@),
        r matches Ok(v) ==> providers_view(v@) == Seq::new(
            rows@.len(),
            |i: int| row_provider(rows@[i]),
        ),
        r matches Err(e) ==> exists|i: int|
            {
                &&& 0 <= i < rows@.len()
                &&& (#[trigger] rows@[i]).settings is Err
                &&& forall|j: int| 0 <= j < i ==> (#[trigger] rows@[j]).settings is Ok
                &&& e matches ProviderError::SettingsJson { provider_name, source }
                &&& provider_name@ == rows@[i].name@
                &&& rows@[i].settings == Err::<ProviderSettings, serde_json::Error>(source)
            },
{
    let ghost all = rows@;
    let total = rows.len();
    assert(all.len() == total);
    let mut remaining = rows;
    let mut providers: Vec<CodexProvider> = Vec::new();
    let mut k: usize = 0;
    while remaining.len() > 0
        invariant
            all == rows@,
            all.len() <= usize::MAX,
            k + remaining@.len() == all.len(),
            remaining@ == all.skip(k as int),
            providers@.len() == k,
            forall|j: int| 0 <= j < k ==> (#[trigger] all[j]).settings is Ok,
            forall|j: int| 0 <= j < k ==> #[trigger] providers@[j]@ == row_provider(all[j]),
        decreases remaining@.len(),
    {
        let row = remaining.remove(0);
        assert(row == all[k as int]);
        assert(remaining@ =~= all.skip(k + 1));
        let ProviderRow { name, settings } = row;
        match settings {
            Ok(s) => {
                providers.push(CodexProvider::new(name, s.auth, s.config));
            },
            Err(source) => {
                return Err(ProviderError::SettingsJson { provider_name: name, source });
            },
        }
        k = k + 1;
    }
    assert(providers_view(providers@) =~= Seq::new(all.len(), |i: int| row_provider(all[i])));
    Ok(providers)
}

} // verus!
