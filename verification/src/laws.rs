use vstd::prelude::*;
use crate::SearchResultV;
use crate::config::{
    EnvSnapshot, WebSearchProvider, model_error_message, normalized_selection, spec_construction,
    unsupported_provider_message,
};
use crate::json::{JsonSpec, sp_parse};
use crate::report::{sp_prompt, sp_result_json, sp_results_inner, sp_results_json};
use crate::search::{
    sp_brave_outcome, sp_item, sp_items, sp_lookup, sp_opt_str, sp_status_success,
    synthetic_result,
};
use crate::text::{
    contains_seq, is_configured, lemma_trim_end_at, lemma_trim_start_at, trim, trim_start,
};

verus! {

/// A failed search degrades to a prompt that embeds the JSON array of
/// exactly one object, whose title is "search-failed" and whose snippet
/// holds the failure description.
pub proof fn lemma_failed_search_prompt(topic: Seq<char>, err: Seq<char>)
    ensures
        contains_seq(
            sp_prompt(topic, seq![synthetic_result(err)]),
            sp_results_json(seq![synthetic_result(err)]),
        ),
        sp_results_json(seq![synthetic_result(err)]) == "["@ + sp_result_json(
            synthetic_result(err),
        ) + "]"@,
        synthetic_result(err).title == "search-failed"@,
        synthetic_result(err).snippet == "Web search failed: "@ + err,
        synthetic_result(err).url == Seq::<char>::empty(),
{
    let rs = seq![synthetic_result(err)];
    let json = sp_results_json(rs);
    assert(sp_results_inner(rs) == sp_result_json(rs[0]));
    let p1 = "I'm writing a report on the topic \""@;
    let p2 =
        "\",\nYour job is to be a research-assistant and provide me an initial overview on the topic so I can dive into it in more detail.\nAt the bottom are top search results from a search engine in json format. Use your own knowledge and the snippets from the search results to create the overview.\nAlso include the best links to look into to learn more about the topic. Prioritize objective and reliable sources.\n\nSearch results: "@;
    let head = p1 + topic + p2;
    let h = sp_prompt(topic, rs);
    assert(h =~= head + json);
    let i = head.len() as int;
    assert(h.subrange(i, i + json.len()) =~= json);
    assert(contains_seq(h, json));
}

/// A result item whose URL is absent, or blank after trimming, is
/// excluded from the adapter's output.
pub proof fn lemma_item_without_url_dropped(fields: Seq<(Seq<char>, JsonSpec)>)
    requires
        match sp_opt_str(fields, "url"@) {
            Some(None) => true,
            Some(Some(u)) => trim(u).len() == 0,
            None => false,
        },
        sp_opt_str(fields, "title"@) is Some,
        sp_opt_str(fields, "description"@) is Some,
    ensures
        sp_item(JsonSpec::Obj(fields)) == Some(None::<SearchResultV>),
{
}

/// A kept item with no title gets the placeholder title, and one with
/// no snippet an empty snippet.
pub proof fn lemma_item_defaults(fields: Seq<(Seq<char>, JsonSpec)>, u: Seq<char>)
    requires
        sp_opt_str(fields, "url"@) == Some(Some(u)),
        trim(u).len() > 0,
        sp_opt_str(fields, "title"@) == Some(None::<Seq<char>>),
        sp_opt_str(fields, "description"@) == Some(None::<Seq<char>>),
    ensures
        sp_item(JsonSpec::Obj(fields)) == Some(
            Some(SearchResultV { url: u, title: "(no title)"@, snippet: Seq::empty() }),
        ),
{
}

/// An excluded item leaves the results of the remaining items unchanged.
pub proof fn lemma_dropped_item_excluded(items: Seq<JsonSpec>, k: int)
    requires
        0 <= k < items.len(),
        sp_item(items[k]) == Some(None::<SearchResultV>),
    ensures
        sp_items(items, k) == sp_items(items, k + 1),
{
}

/// A successful response without a results section yields the empty
/// result sequence, not an error.
pub proof fn lemma_no_results_section(
    status: u16,
    body: Seq<char>,
    fields: Seq<(Seq<char>, JsonSpec)>,
)
    requires
        sp_status_success(status),
        sp_parse(body) == Some(JsonSpec::Obj(fields)),
        sp_lookup(fields, "web"@, 0) is None || sp_lookup(fields, "web"@, 0) == Some(
            JsonSpec::Null,
        ),
    ensures
        sp_brave_outcome(status, body) == Ok::<Seq<SearchResultV>, Seq<char>>(Seq::empty()),
{
}

/// Construction fails when no model-name variable is set at all.
pub proof fn lemma_missing_model_fails(snap: EnvSnapshot)
    requires
        snap.aggo_llm_model is None,
        snap.llm_model is None,
    ensures
        spec_construction(snap) == Err::<(Seq<char>, WebSearchProvider), Seq<char>>(
            model_error_message(),
        ),
{
}

/// Construction fails on an unrecognized provider selection, naming the
/// normalized value, before any research call can exist.
pub proof fn lemma_unrecognized_provider_fails(snap: EnvSnapshot)
    requires
        snap.spec_model() matches Some(m) && is_configured(m),
        WebSearchProvider::spec_from_selection(snap.spec_selection()) is None,
    ensures
        spec_construction(snap) == Err::<(Seq<char>, WebSearchProvider), Seq<char>>(
            unsupported_provider_message(normalized_selection(snap.spec_selection())),
        ),
{
}

/// Construction fails when the resolved model name is the placeholder
/// sentinel.
pub proof fn lemma_placeholder_model_fails(snap: EnvSnapshot)
    requires
        snap.spec_model() == Some("changeme"@),
    ensures
        spec_construction(snap) == Err::<(Seq<char>, WebSearchProvider), Seq<char>>(
            model_error_message(),
        ),
{
    reveal_strlit("changeme");
    let s = "changeme"@;
    lemma_trim_start_at(s, 0);
    assert(trim_start(s) =~= s);
    lemma_trim_end_at(s, s.len() as int);
    assert(trim(s) =~= s);
    assert(!is_configured(s));
}

} // verus!
