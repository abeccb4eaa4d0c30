use aggo_agent::config::WebSearchProvider;
use aggo_agent::search::{build_page_failure, build_start_failure, SearchFailure};

#[test]
fn start_failure_names_provider_query_and_error() {
    let f = SearchFailure {
        display: "invalid query".to_string(),
        debug: "InvalidQuery".to_string(),
    };
    let msg = build_start_failure(WebSearchProvider::Tavily, "storm \"cells\"", &f);
    assert_eq!(
        msg,
        "Failed to start web search (provider: Tavily, query: \"storm \\\"cells\\\"\"). Display: invalid query. Debug: InvalidQuery"
    );
}

#[test]
fn page_failure_names_page_of_three() {
    let f = SearchFailure {
        display: "rate limited".to_string(),
        debug: "RateLimited(30)".to_string(),
    };
    let msg = build_page_failure(2, WebSearchProvider::Google, "tides", &f);
    assert_eq!(
        msg,
        "Failed to retrieve web search page 2/3 (provider: Google, query: \"tides\"). Display: rate limited. Debug: RateLimited(30)"
    );
}
