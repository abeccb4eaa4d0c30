use aggo_agent::config::{EnvSnapshot, ResearchAgentImpl, WebSearchProvider};

fn full_snapshot() -> EnvSnapshot {
    EnvSnapshot {
        aggo_llm_model: Some("llama3".to_string()),
        llm_model: Some("gpt-4o".to_string()),
        web_search_provider: Some("brave".to_string()),
        golem_ollama_base_url: None,
        brave_api_key: Some("bk".to_string()),
        google_api_key: Some("gk".to_string()),
        google_search_engine_id: Some("gid".to_string()),
        serper_api_key: Some("sk".to_string()),
        tavily_api_key: Some("tk".to_string()),
    }
}

#[test]
fn provider_from_selection_matches_known_names() {
    assert_eq!(
        WebSearchProvider::from_selection("brave"),
        Some(WebSearchProvider::Brave)
    );
    assert_eq!(
        WebSearchProvider::from_selection("google"),
        Some(WebSearchProvider::Google)
    );
    assert_eq!(
        WebSearchProvider::from_selection("serper"),
        Some(WebSearchProvider::Serper)
    );
    assert_eq!(
        WebSearchProvider::from_selection("tavily"),
        Some(WebSearchProvider::Tavily)
    );
}

#[test]
fn provider_from_selection_trims_and_lowercases() {
    assert_eq!(
        WebSearchProvider::from_selection("  TAVILY \n"),
        Some(WebSearchProvider::Tavily)
    );
    assert_eq!(
        WebSearchProvider::from_selection("Brave"),
        Some(WebSearchProvider::Brave)
    );
}

#[test]
fn provider_from_selection_rejects_unknown() {
    assert_eq!(WebSearchProvider::from_selection("bing"), None);
    assert_eq!(WebSearchProvider::from_selection(""), None);
}

#[test]
fn display_names() {
    assert_eq!(WebSearchProvider::Brave.display_name(), "Brave");
    assert_eq!(WebSearchProvider::Google.display_name(), "Google");
    assert_eq!(WebSearchProvider::Serper.display_name(), "Serper");
    assert_eq!(WebSearchProvider::Tavily.display_name(), "Tavily");
}

#[test]
fn required_env_vars_per_provider() {
    assert_eq!(
        WebSearchProvider::Brave.required_env_vars(),
        vec!["BRAVE_API_KEY"]
    );
    assert_eq!(
        WebSearchProvider::Google.required_env_vars(),
        vec!["GOOGLE_API_KEY", "GOOGLE_SEARCH_ENGINE_ID"]
    );
    assert_eq!(
        WebSearchProvider::Serper.required_env_vars(),
        vec!["SERPER_API_KEY"]
    );
    assert_eq!(
        WebSearchProvider::Tavily.required_env_vars(),
        vec!["TAVILY_API_KEY"]
    );
}

#[test]
fn construction_prefers_component_model_variable() {
    let agent = ResearchAgentImpl::from_snapshot(full_snapshot()).unwrap();
    assert_eq!(agent.model, "llama3");
    assert_eq!(agent.web_search_provider, WebSearchProvider::Brave);
}

#[test]
fn construction_falls_back_to_generic_model_variable() {
    let mut snap = full_snapshot();
    snap.aggo_llm_model = None;
    let agent = ResearchAgentImpl::from_snapshot(snap).unwrap();
    assert_eq!(agent.model, "gpt-4o");
}

#[test]
fn construction_fails_when_no_model_variable_is_set() {
    let mut snap = full_snapshot();
    snap.aggo_llm_model = None;
    snap.llm_model = None;
    let err = ResearchAgentImpl::from_snapshot(snap).unwrap_err();
    assert_eq!(
        err,
        "LLM_MODEL env var not configured. Check the component env in golem.yaml."
    );
}

#[test]
fn construction_fails_on_placeholder_model() {
    let mut snap = full_snapshot();
    snap.aggo_llm_model = Some("changeme".to_string());
    let err = ResearchAgentImpl::from_snapshot(snap).unwrap_err();
    assert_eq!(
        err,
        "LLM_MODEL env var not configured. Check the component env in golem.yaml."
    );
}

#[test]
fn construction_fails_on_blank_or_padded_placeholder_model() {
    let mut snap = full_snapshot();
    snap.aggo_llm_model = Some("   ".to_string());
    let err = ResearchAgentImpl::from_snapshot(snap).unwrap_err();
    assert_eq!(
        err,
        "LLM_MODEL env var not configured. Check the component env in golem.yaml."
    );

    let mut snap = full_snapshot();
    snap.aggo_llm_model = Some("  changeme ".to_string());
    assert!(ResearchAgentImpl::from_snapshot(snap).is_err());
}

#[test]
fn construction_fails_on_unrecognized_provider() {
    let mut snap = full_snapshot();
    snap.web_search_provider = Some("bing".to_string());
    let err = ResearchAgentImpl::from_snapshot(snap).unwrap_err();
    assert_eq!(
        err,
        "Unsupported WEB_SEARCH_PROVIDER=bing. Supported: brave|google|serper|tavily"
    );
}

#[test]
fn construction_defaults_to_brave_when_provider_unset() {
    let mut snap = full_snapshot();
    snap.web_search_provider = None;
    snap.brave_api_key = None;
    let err = ResearchAgentImpl::from_snapshot(snap).unwrap_err();
    assert_eq!(
        err,
        "BRAVE_API_KEY env var not configured (required for Brave web search). Check the component env in golem.yaml."
    );
}

#[test]
fn construction_fails_on_missing_credential() {
    let mut snap = full_snapshot();
    snap.web_search_provider = Some("serper".to_string());
    snap.serper_api_key = None;
    let err = ResearchAgentImpl::from_snapshot(snap).unwrap_err();
    assert_eq!(
        err,
        "SERPER_API_KEY env var not configured (required for Serper web search). Check the component env in golem.yaml."
    );
}

#[test]
fn construction_fails_on_second_missing_credential() {
    let mut snap = full_snapshot();
    snap.web_search_provider = Some("google".to_string());
    snap.google_search_engine_id = Some("changeme".to_string());
    let err = ResearchAgentImpl::from_snapshot(snap).unwrap_err();
    assert_eq!(
        err,
        "GOOGLE_SEARCH_ENGINE_ID env var not configured (required for Google web search). Check the component env in golem.yaml."
    );
}

#[test]
fn construction_keeps_diagnostic_environment() {
    let mut snap = full_snapshot();
    snap.golem_ollama_base_url = Some("http://localhost:11434".to_string());
    let agent = ResearchAgentImpl::from_snapshot(snap).unwrap();
    assert_eq!(agent.diag_aggo_llm_model.as_deref(), Some("llama3"));
    assert_eq!(agent.diag_llm_model.as_deref(), Some("gpt-4o"));
    assert_eq!(
        agent.diag_ollama_base_url.as_deref(),
        Some("http://localhost:11434")
    );
    assert_eq!(agent.brave_api_key.as_deref(), Some("bk"));
}
