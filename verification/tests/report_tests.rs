use aggo_agent::report::{
    build_llm_failure, build_prompt, finish_report, results_to_json, ContentItem, LlmFailure,
};
use aggo_agent::search::aggregate_search;
use aggo_agent::SearchResult;

fn result(url: &str, title: &str, snippet: &str) -> SearchResult {
    SearchResult {
        url: url.to_string(),
        title: title.to_string(),
        snippet: snippet.to_string(),
    }
}

#[test]
fn empty_results_serialize_to_empty_array() {
    assert_eq!(results_to_json(&Vec::new()), "[]");
}

#[test]
fn one_result_serializes_with_escapes() {
    let rs = vec![result("https://a.x", "A\"B", "line1\nline2")];
    assert_eq!(
        results_to_json(&rs),
        "[{\"url\":\"https://a.x\",\"title\":\"A\\\"B\",\"snippet\":\"line1\\nline2\"}]"
    );
}

#[test]
fn control_characters_serialize_as_unicode_escapes() {
    let rs = vec![result("u", "t", "a\u{1}b\u{1f}c")];
    assert_eq!(
        results_to_json(&rs),
        "[{\"url\":\"u\",\"title\":\"t\",\"snippet\":\"a\\u0001b\\u001fc\"}]"
    );
}

#[test]
fn several_results_are_comma_separated_in_order() {
    let rs = vec![result("u1", "t1", "s1"), result("u2", "t2", "s2")];
    assert_eq!(
        results_to_json(&rs),
        "[{\"url\":\"u1\",\"title\":\"t1\",\"snippet\":\"s1\"},{\"url\":\"u2\",\"title\":\"t2\",\"snippet\":\"s2\"}]"
    );
}

#[test]
fn serialized_results_satisfy_the_reference_parser() {
    let rs = vec![result(
        "https://a.x/?q=1&r=2",
        "quotes \" and \\ bars",
        "multi\nline \u{e9}\u{1F600}\u{7}",
    )];
    let text = results_to_json(&rs);
    let parsed: serde_json::Value = serde_json::from_str(&text).unwrap();
    let arr = parsed.as_array().unwrap();
    assert_eq!(arr.len(), 1);
    assert_eq!(arr[0]["url"], "https://a.x/?q=1&r=2");
    assert_eq!(arr[0]["title"], "quotes \" and \\ bars");
    assert_eq!(arr[0]["snippet"], "multi\nline \u{e9}\u{1F600}\u{7}");
}

#[test]
fn prompt_embeds_topic_and_serialized_results() {
    let rs = vec![result("https://a.x", "A", "intro")];
    let prompt = build_prompt("quantum computing", &rs);
    let expected = format!(
        "I'm writing a report on the topic \"{}\",\n\
         Your job is to be a research-assistant and provide me an initial overview on the topic so I can dive into it in more detail.\n\
         At the bottom are top search results from a search engine in json format. Use your own knowledge and the snippets from the search results to create the overview.\n\
         Also include the best links to look into to learn more about the topic. Prioritize objective and reliable sources.\n\
         \n\
         Search results: {}",
        "quantum computing",
        "[{\"url\":\"https://a.x\",\"title\":\"A\",\"snippet\":\"intro\"}]"
    );
    assert_eq!(prompt, expected);
}

#[test]
fn successful_search_passes_through_aggregation() {
    let rs = vec![result("u", "t", "s")];
    let out = aggregate_search(Ok(rs));
    assert_eq!(out.len(), 1);
    assert_eq!(out[0].title, "t");
}

#[test]
fn failed_search_degrades_to_annotated_placeholder() {
    let out = aggregate_search(Err("rate limited".to_string()));
    assert_eq!(out.len(), 1);
    assert_eq!(out[0].url, "");
    assert_eq!(out[0].title, "search-failed");
    assert_eq!(out[0].snippet, "Web search failed: rate limited");
}

#[test]
fn failed_search_prompt_carries_the_failure_object() {
    let results = aggregate_search(Err("backend down".to_string()));
    let prompt = build_prompt("storms", &results);
    assert!(prompt.contains(
        "[{\"url\":\"\",\"title\":\"search-failed\",\"snippet\":\"Web search failed: backend down\"}]"
    ));
}

#[test]
fn finished_report_wraps_the_answer() {
    let parts = vec![ContentItem::Text(
        "Quantum computing uses qubits.".to_string(),
    )];
    let report = finish_report("quantum computing", &parts);
    assert!(report.starts_with(
        "Finished research for topic quantum computing:\nQuantum computing uses qubits."
    ));
    assert_eq!(
        report,
        "Finished research for topic quantum computing:\nQuantum computing uses qubits."
    );
}

#[test]
fn report_joins_texts_and_ignores_other_parts() {
    let parts = vec![
        ContentItem::Text("first".to_string()),
        ContentItem::Other,
        ContentItem::Text("second".to_string()),
    ];
    assert_eq!(
        finish_report("t", &parts),
        "Finished research for topic t:\nfirst\nsecond"
    );
}

#[test]
fn report_of_no_text_parts_is_just_the_envelope() {
    let parts = vec![ContentItem::Other];
    assert_eq!(finish_report("t", &parts), "Finished research for topic t:\n");
}

#[test]
fn llm_failure_report_names_model_environment_and_error() {
    let f = LlmFailure {
        display: "connection refused".to_string(),
        debug: "Error { kind: Connect }".to_string(),
    };
    let report = build_llm_failure(
        "llama3",
        &Some("llama3".to_string()),
        &None,
        &Some("http://localhost:11434".to_string()),
        &f,
    );
    assert_eq!(
        report,
        "LLM call failed (model: \"llama3\", env AGGO_LLM_MODEL: Some(\"llama3\"), env LLM_MODEL: None, GOLEM_OLLAMA_BASE_URL: Some(\"http://localhost:11434\")). Display: connection refused. Debug: Error { kind: Connect }\n\nHint: for Ollama, ensure the model exists locally (e.g. `ollama pull llama3`) and that GOLEM_OLLAMA_BASE_URL points to the right server."
    );
    assert!(!report.is_empty());
}
