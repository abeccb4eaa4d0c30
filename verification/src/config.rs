use vstd::prelude::*;
use crate::text::{
    chars_of, chars_eq_str, concat_str, is_configured, check_configured, lower, lower_chars, trim,
    trim_chars, string_of_chars,
};

verus! {

// ----------------------------------------------------------------------
// Provider selection
// ----------------------------------------------------------------------

/// The web-search backends the agent can be configured to use.
#[derive(Clone, Copy, Debug, PartialEq, Eq, Structural)]
pub enum WebSearchProvider {
    Brave,
    Google,
    Serper,
    Tavily,
}

/// The provider-selection value after trimming and ASCII lowercasing,
/// as the selection is matched case-insensitively.
pub open spec fn normalized_selection(s: Seq<char>) -> Seq<char> {
    lower(trim(s))
}

impl WebSearchProvider {
    /// The human-readable name of the backend, as it appears in
    /// configuration errors and search failure diagnostics.
    pub fn display_name(&self) -> (r: &'static str)
        ensures
            r@ == self.spec_display_name(),
    {
        match self {
            WebSearchProvider::Brave => "Brave",
            WebSearchProvider::Google => "Google",
            WebSearchProvider::Serper => "Serper",
            WebSearchProvider::Tavily => "Tavily",
        }
    }

    pub open spec fn spec_display_name(self) -> Seq<char> {
        match self {
            WebSearchProvider::Brave => "Brave"@,
            WebSearchProvider::Google => "Google"@,
            WebSearchProvider::Serper => "Serper"@,
            WebSearchProvider::Tavily => "Tavily"@,
        }
    }

    /// The names of the environment variables that must be configured
    /// for this backend.
    pub fn required_env_vars(&self) -> (r: Vec<&'static str>)
        ensures
            r.deep_view() == self.spec_required_env_vars(),
    {
        let r: Vec<&'static str> = match self {
            WebSearchProvider::Brave => vec!["BRAVE_API_KEY"],
            WebSearchProvider::Google => vec!["GOOGLE_API_KEY", "GOOGLE_SEARCH_ENGINE_ID"],
            WebSearchProvider::Serper => vec!["SERPER_API_KEY"],
            WebSearchProvider::Tavily => vec!["TAVILY_API_KEY"],
        };
        assert(r.deep_view() =~= self.spec_required_env_vars());
        r
    }

    pub open spec fn spec_required_env_vars(self) -> Seq<Seq<char>> {
        match self {
            WebSearchProvider::Brave => seq!["BRAVE_API_KEY"@],
            WebSearchProvider::Google => seq!["GOOGLE_API_KEY"@, "GOOGLE_SEARCH_ENGINE_ID"@],
            WebSearchProvider::Serper => seq!["SERPER_API_KEY"@],
            WebSearchProvider::Tavily => seq!["TAVILY_API_KEY"@],
        }
    }

    /// The provider selected by a configuration value, matched after
    /// trimming and lowercasing; `None` for an unrecognized value.
    pub open spec fn spec_from_selection(sel: Seq<char>) -> Option<WebSearchProvider> {
        let n = normalized_selection(sel);
        if n == "brave"@ {
            Some(WebSearchProvider::Brave)
        } else if n == "google"@ {
            Some(WebSearchProvider::Google)
        } else if n == "serper"@ {
            Some(WebSearchProvider::Serper)
        } else if n == "tavily"@ {
            Some(WebSearchProvider::Tavily)
        } else {
            None
        }
    }

    /// Resolves a provider-selection value to a provider.
    pub fn from_selection(sel: &str) -> (r: Option<WebSearchProvider>)
        ensures
            r == Self::spec_from_selection(sel@),
    {
        let cs = chars_of(sel);
        let t = trim_chars(&cs);
        let n = lower_chars(&t);
        if chars_eq_str(&n, "brave") {
            Some(WebSearchProvider::Brave)
        } else if chars_eq_str(&n, "google") {
            Some(WebSearchProvider::Google)
        } else if chars_eq_str(&n, "serper") {
            Some(WebSearchProvider::Serper)
        } else if chars_eq_str(&n, "tavily") {
            Some(WebSearchProvider::Tavily)
        } else {
            None
        }
    }
}

// ----------------------------------------------------------------------
// The environment values the agent is constructed from
// ----------------------------------------------------------------------

/// A snapshot of the configuration values the agent reads once at
/// construction.  Each field is `None` where the variable is unset.
pub struct EnvSnapshot {
    pub aggo_llm_model: Option<String>,
    pub llm_model: Option<String>,
    pub web_search_provider: Option<String>,
    pub golem_ollama_base_url: Option<String>,
    pub brave_api_key: Option<String>,
    pub google_api_key: Option<String>,
    pub google_search_engine_id: Option<String>,
    pub serper_api_key: Option<String>,
    pub tavily_api_key: Option<String>,
}

impl EnvSnapshot {
    /// The model name after the fallback chain: the component-specific
    /// variable first, then the generic one; `None` when neither is set.
    pub open spec fn spec_model(self) -> Option<Seq<char>> {
        match self.aggo_llm_model {
            Some(m) => Some(m@),
            None => match self.llm_model {
                Some(m) => Some(m@),
                None => None,
            },
        }
    }

    /// The provider-selection value, defaulting when the variable is unset.
    pub open spec fn spec_selection(self) -> Seq<char> {
        match self.web_search_provider {
            Some(s) => s@,
            None => "brave"@,
        }
    }

    /// The configured value of the credential variable with the given name,
    /// `None` where it is unset.
    pub open spec fn spec_credential(self, name: Seq<char>) -> Option<Seq<char>> {
        if name == "BRAVE_API_KEY"@ {
            spec_opt_view(self.brave_api_key)
        } else if name == "GOOGLE_API_KEY"@ {
            spec_opt_view(self.google_api_key)
        } else if name == "GOOGLE_SEARCH_ENGINE_ID"@ {
            spec_opt_view(self.google_search_engine_id)
        } else if name == "SERPER_API_KEY"@ {
            spec_opt_view(self.serper_api_key)
        } else if name == "TAVILY_API_KEY"@ {
            spec_opt_view(self.tavily_api_key)
        } else {
            None
        }
    }
}

pub open spec fn spec_opt_view(o: Option<String>) -> Option<Seq<char>> {
    match o {
        Some(s) => Some(s@),
        None => None,
    }
}

// ----------------------------------------------------------------------
// Error messages of the fatal configuration class
// ----------------------------------------------------------------------

/// The message raised when no usable model name is configured.
pub open spec fn model_error_message() -> Seq<char> {
    "LLM_MODEL env var not configured. Check the component env in golem.yaml."@
}

/// The message raised for an unrecognized provider selection.
pub open spec fn unsupported_provider_message(normalized: Seq<char>) -> Seq<char> {
    "Unsupported WEB_SEARCH_PROVIDER="@ + normalized
        + ". Supported: brave|google|serper|tavily"@
}

/// The message raised for a missing or placeholder credential.
pub open spec fn credential_error_message(name: Seq<char>, display: Seq<char>) -> Seq<char> {
    name + " env var not configured (required for "@ + display
        + " web search). Check the component env in golem.yaml."@
}

/// Whether every credential the provider requires is present and
/// configured in the snapshot.
pub open spec fn all_credentials_ok(provider: WebSearchProvider, snap: EnvSnapshot) -> bool {
    forall|i: int|
        0 <= i < provider.spec_required_env_vars().len() ==> credential_ok(
            snap.spec_credential(#[trigger] provider.spec_required_env_vars()[i]),
        )
}

pub open spec fn credential_ok(v: Option<Seq<char>>) -> bool {
    match v {
        Some(s) => is_configured(s),
        None => false,
    }
}

/// The index of the first credential the provider requires that is
/// missing or a placeholder.
pub open spec fn first_bad_credential(provider: WebSearchProvider, snap: EnvSnapshot) -> int {
    choose|i: int|
        0 <= i < provider.spec_required_env_vars().len() && !credential_ok(
            snap.spec_credential(#[trigger] provider.spec_required_env_vars()[i]),
        ) && forall|k: int|
            0 <= k < i ==> credential_ok(
                snap.spec_credential(#[trigger] provider.spec_required_env_vars()[k]),
            )
}

// ----------------------------------------------------------------------
// The agent configuration
// ----------------------------------------------------------------------

/// The immutable configuration of one agent instance, together with the
/// environment values surfaced in language-model failure diagnostics.
#[derive(Debug)]
pub struct ResearchAgentImpl {
    pub model: String,
    pub web_search_provider: WebSearchProvider,
    pub brave_api_key: Option<String>,
    pub diag_aggo_llm_model: Option<String>,
    pub diag_llm_model: Option<String>,
    pub diag_ollama_base_url: Option<String>,
}

/// The outcome that agent construction owes for a given snapshot:
/// the resolved model and provider, or the fatal configuration error.
pub open spec fn spec_construction(snap: EnvSnapshot) -> Result<
    (Seq<char>, WebSearchProvider),
    Seq<char>,
> {
    if !(snap.spec_model() matches Some(m) && is_configured(m)) {
        Err(model_error_message())
    } else {
        match WebSearchProvider::spec_from_selection(snap.spec_selection()) {
            None => Err(
                unsupported_provider_message(normalized_selection(snap.spec_selection())),
            ),
            Some(provider) => {
                if !all_credentials_ok(provider, snap) {
                    let i = first_bad_credential(provider, snap);
                    Err(
                        credential_error_message(
                            provider.spec_required_env_vars()[i],
                            provider.spec_display_name(),
                        ),
                    )
                } else {
                    Ok((snap.spec_model()->0, provider))
                }
            },
        }
    }
}

impl ResearchAgentImpl {
    /// Builds the agent from a configuration snapshot, failing fast on an
    /// unset, blank or placeholder model name, an unrecognized provider
    /// selection, or a missing or placeholder credential, in that order.
    pub fn from_snapshot(snap: EnvSnapshot) -> (r: Result<ResearchAgentImpl, String>)
        ensures
            match spec_construction(snap) {
                Ok((model, provider)) => {
                    &&& r matches Ok(agent)
                    &&& agent.model@ == model
                    &&& agent.web_search_provider == provider
                    &&& spec_opt_view(agent.brave_api_key) == spec_opt_view(snap.brave_api_key)
                    &&& spec_opt_view(agent.diag_aggo_llm_model) == spec_opt_view(
                        snap.aggo_llm_model,
                    )
                    &&& spec_opt_view(agent.diag_llm_model) == spec_opt_view(snap.llm_model)
                    &&& spec_opt_view(agent.diag_ollama_base_url) == spec_opt_view(
                        snap.golem_ollama_base_url,
                    )
                },
                Err(msg) => r matches Err(m) && m@ == msg,
            },
    {
        let model: String = match snap.aggo_llm_model {
            Some(ref m) => m.clone(),
            None => match snap.llm_model {
                Some(ref m) => m.clone(),
                None => {
                    return Err(
                        "LLM_MODEL env var not configured. Check the component env in golem.yaml.".to_owned(),
                    );
                },
            },
        };
        assert(snap.spec_model() == Some(model@));
        if !check_configured(model.as_str()) {
            return Err(
                "LLM_MODEL env var not configured. Check the component env in golem.yaml.".to_owned(),
            );
        }
        let selection: String = match snap.web_search_provider {
            Some(ref s) => s.clone(),
            None => "brave".to_owned(),
        };
        assert(selection@ == snap.spec_selection());
        let provider = match WebSearchProvider::from_selection(selection.as_str()) {
            Some(p) => p,
            None => {
                let cs = chars_of(selection.as_str());
                let t = trim_chars(&cs);
                let n = lower_chars(&t);
                let ns = string_of_chars(&n);
                let head = concat_str("Unsupported WEB_SEARCH_PROVIDER=", ns.as_str());
                let msg = concat_str(head.as_str(), ". Supported: brave|google|serper|tavily");
                return Err(msg);
            },
        };
        let names = provider.required_env_vars();
        let mut i: usize = 0;
        while i < names.len()
            invariant
                names.deep_view() == provider.spec_required_env_vars(),
                i <= names.len(),
                snap.spec_model() == Some(model@),
                is_configured(model@),
                WebSearchProvider::spec_from_selection(snap.spec_selection()) == Some(provider),
                forall|k: int|
                    0 <= k < i ==> credential_ok(
                        snap.spec_credential(#[trigger] provider.spec_required_env_vars()[k]),
                    ),
            decreases names.len() - i,
        {
            let name: &str = names[i];
            let value = lookup_credential(&snap, name);
            let ok = match value {
                Some(v) => check_configured(v.as_str()),
                None => false,
            };
            if !ok {
                assert(!credential_ok(snap.spec_credential(name@)));
                assert(!all_credentials_ok(provider, snap));
                proof {
                    let j = first_bad_credential(provider, snap);
                    assert(0 <= (i as int) < provider.spec_required_env_vars().len()
                        && !credential_ok(
                        snap.spec_credential(provider.spec_required_env_vars()[i as int]),
                    ) && forall|k: int|
                        0 <= k < i ==> credential_ok(
                            snap.spec_credential(
                                #[trigger] provider.spec_required_env_vars()[k],
                            ),
                        ));
                    assert(0 <= j < provider.spec_required_env_vars().len() && !credential_ok(
                        snap.spec_credential(provider.spec_required_env_vars()[j]),
                    ) && forall|k: int|
                        0 <= k < j ==> credential_ok(
                            snap.spec_credential(
                                #[trigger] provider.spec_required_env_vars()[k],
                            ),
                        ));
                    if j < i {
                        assert(credential_ok(
                            snap.spec_credential(provider.spec_required_env_vars()[j]),
                        ));
                    }
                    if i < j {
                        assert(credential_ok(
                            snap.spec_credential(provider.spec_required_env_vars()[i as int]),
                        ));
                    }
                    assert(j == i as int);
                }
                let head = concat_str(name, " env var not configured (required for ");
                let mid = concat_str(head.as_str(), provider.display_name());
                let msg = concat_str(
                    mid.as_str(),
                    " web search). Check the component env in golem.yaml.",
                );
                assert(name@ == provider.spec_required_env_vars()[i as int]);
                assert(msg@ =~= credential_error_message(
                    provider.spec_required_env_vars()[i as int],
                    provider.spec_display_name(),
                ));
                return Err(msg);
            }
            i = i + 1;
        }
        assert(all_credentials_ok(provider, snap));
        Ok(
            ResearchAgentImpl {
                model,
                web_search_provider: provider,
                brave_api_key: snap.brave_api_key,
                diag_aggo_llm_model: snap.aggo_llm_model,
                diag_llm_model: snap.llm_model,
                diag_ollama_base_url: snap.golem_ollama_base_url,
            },
        )
    }
}

/// The snapshot value of the credential variable with the given name.
fn lookup_credential<'a>(snap: &'a EnvSnapshot, name: &str) -> (r: Option<&'a String>)
    ensures
        spec_opt_ref_view(r) == snap.spec_credential(name@),
{
    let cs = chars_of(name);
    if chars_eq_str(&cs, "BRAVE_API_KEY") {
        snap.brave_api_key.as_ref()
    } else if chars_eq_str(&cs, "GOOGLE_API_KEY") {
        snap.google_api_key.as_ref()
    } else if chars_eq_str(&cs, "GOOGLE_SEARCH_ENGINE_ID") {
        snap.google_search_engine_id.as_ref()
    } else if chars_eq_str(&cs, "SERPER_API_KEY") {
        snap.serper_api_key.as_ref()
    } else if chars_eq_str(&cs, "TAVILY_API_KEY") {
        snap.tavily_api_key.as_ref()
    } else {
        None
    }
}

pub open spec fn spec_opt_ref_view(o: Option<&String>) -> Option<Seq<char>> {
    match o {
        Some(s) => Some(s@),
        None => None,
    }
}

} // verus!
