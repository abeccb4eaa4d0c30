use vstd::prelude::*;
use vstd::string::StringExecFns;
use golem_rust::golem_ai::golem::llm::llm;
use crate::SearchResult;
use crate::SearchResultV;
use crate::config::{ResearchAgentImpl, spec_opt_view};
use crate::json::{sp_quote, quote_into};
use crate::search::{aggregate_search, search_web_for_topic};

verus! {

// ----------------------------------------------------------------------
// Serializing results for the prompt
// ----------------------------------------------------------------------

/// The JSON object denoting one search result.
pub open spec fn sp_result_json(r: SearchResultV) -> Seq<char> {
    "{\"url\":"@ + sp_quote(r.url) + ",\"title\":"@ + sp_quote(r.title) + ",\"snippet\":"@
        + sp_quote(r.snippet) + "}"@
}

/// The comma-separated object list of a result array.
pub open spec fn sp_results_inner(rs: Seq<SearchResultV>) -> Seq<char>
    decreases rs.len(),
{
    if rs.len() == 0 {
        Seq::empty()
    } else if rs.len() == 1 {
        sp_result_json(rs[0])
    } else {
        sp_result_json(rs[0]) + ","@ + sp_results_inner(rs.drop_first())
    }
}

/// The JSON array denoting a sequence of search results.
pub open spec fn sp_results_json(rs: Seq<SearchResultV>) -> Seq<char> {
    "["@ + sp_results_inner(rs) + "]"@
}

pub proof fn lemma_results_inner_snoc(rs: Seq<SearchResultV>, x: SearchResultV)
    ensures
        sp_results_inner(rs.push(x)) == if rs.len() == 0 {
            sp_result_json(x)
        } else {
            sp_results_inner(rs) + ","@ + sp_result_json(x)
        },
    decreases rs.len(),
{
    if rs.len() == 0 {
        assert(rs.push(x).len() == 1);
        assert(rs.push(x)[0] == x);
    } else if rs.len() == 1 {
        assert(rs.push(x)[0] == rs[0]);
        assert(rs.push(x).drop_first() =~= seq![x]);
        assert(sp_results_inner(seq![x]) == sp_result_json(x));
    } else {
        assert(rs.push(x)[0] == rs[0]);
        assert(rs.push(x).drop_first() =~= rs.drop_first().push(x));
        lemma_results_inner_snoc(rs.drop_first(), x);
        assert(sp_results_inner(rs.push(x)) == sp_result_json(rs[0]) + ","@ + (sp_results_inner(
            rs.drop_first(),
        ) + ","@ + sp_result_json(x)));
        assert(sp_result_json(rs[0]) + ","@ + (sp_results_inner(rs.drop_first()) + ","@
            + sp_result_json(x)) =~= (sp_result_json(rs[0]) + ","@ + sp_results_inner(
            rs.drop_first(),
        )) + ","@ + sp_result_json(x));
    }
}

fn result_json_into(out: &mut String, r: &SearchResult)
    ensures
        final(out)@ == old(out)@ + sp_result_json(r.deep_view()),
{
    out.append("{\"url\":");
    quote_into(out, r.url.as_str());
    out.append(",\"title\":");
    quote_into(out, r.title.as_str());
    out.append(",\"snippet\":");
    quote_into(out, r.snippet.as_str());
    out.append("}");
    assert(out@ =~= old(out)@ + sp_result_json(r.deep_view()));
}

/// Serializes the aggregated results to the JSON array the prompt embeds.
pub fn results_to_json(rs: &Vec<SearchResult>) -> (r: String)
    ensures
        r@ == sp_results_json(rs.deep_view()),
{
    let mut out: String = "[".to_owned();
    let mut i: usize = 0;
    while i < rs.len()
        invariant
            i <= rs@.len(),
            rs.deep_view().len() == rs@.len(),
            out@ == "["@ + sp_results_inner(rs.deep_view().subrange(0, i as int)),
        decreases rs@.len() - i,
    {
        let ghost dv = rs.deep_view();
        if i > 0 {
            out.append(",");
        }
        result_json_into(&mut out, &rs[i]);
        proof {
            lemma_results_inner_snoc(dv.subrange(0, i as int), dv[i as int]);
            assert(dv.subrange(0, i as int).push(dv[i as int]) =~= dv.subrange(0, i + 1 as int));
        }
        i = i + 1;
        assert(out@ =~= "["@ + sp_results_inner(rs.deep_view().subrange(0, i as int)));
    }
    out.append("]");
    proof {
        assert(rs.deep_view().subrange(0, rs.deep_view().len() as int) =~= rs.deep_view());
        assert(out@ =~= sp_results_json(rs.deep_view()));
    }
    out
}

// ----------------------------------------------------------------------
// The prompt
// ----------------------------------------------------------------------

/// The fixed template around the topic and the serialized results.
pub open spec fn sp_prompt(topic: Seq<char>, rs: Seq<SearchResultV>) -> Seq<char> {
    "I'm writing a report on the topic \""@ + topic
        + "\",\nYour job is to be a research-assistant and provide me an initial overview on the topic so I can dive into it in more detail.\nAt the bottom are top search results from a search engine in json format. Use your own knowledge and the snippets from the search results to create the overview.\nAlso include the best links to look into to learn more about the topic. Prioritize objective and reliable sources.\n\nSearch results: "@
        + sp_results_json(rs)
}

/// Builds the instruction handed to the model from the topic and the
/// aggregated search results.
pub fn build_prompt(topic: &str, rs: &Vec<SearchResult>) -> (r: String)
    ensures
        r@ == sp_prompt(topic@, rs.deep_view()),
{
    let mut out: String = "I'm writing a report on the topic \"".to_owned();
    out.append(topic);
    out.append(
        "\",\nYour job is to be a research-assistant and provide me an initial overview on the topic so I can dive into it in more detail.\nAt the bottom are top search results from a search engine in json format. Use your own knowledge and the snippets from the search results to create the overview.\nAlso include the best links to look into to learn more about the topic. Prioritize objective and reliable sources.\n\nSearch results: ",
    );
    let json = results_to_json(rs);
    out.append(json.as_str());
    assert(out@ =~= sp_prompt(topic@, rs.deep_view()));
    out
}

// ----------------------------------------------------------------------
// The conversation with the model
// ----------------------------------------------------------------------

/// The role a conversation message carries.
pub enum LlmRole {
    User,
    Assistant,
    System,
    Tool,
}

/// One part of the model's answer: a text, or content of another kind.
pub enum ContentItem {
    Text(String),
    Other,
}

/// The mathematical shape of an answer part.
pub ghost enum ContentItemV {
    Text(Seq<char>),
    Other,
}

impl View for ContentItem {
    type V = ContentItemV;

    open spec fn view(&self) -> ContentItemV {
        match self {
            ContentItem::Text(t) => ContentItemV::Text(t@),
            ContentItem::Other => ContentItemV::Other,
        }
    }
}

impl DeepView for ContentItem {
    type V = ContentItemV;

    open spec fn deep_view(&self) -> ContentItemV {
        self.view()
    }
}

/// How the model call failed, in the transport's own words.
pub struct LlmFailure {
    pub display: String,
    pub debug: String,
}

#[verifier::external_type_specification]
#[verifier::external_body]
pub struct ExLlmRole(llm::Role);

#[verifier::external_type_specification]
#[verifier::external_body]
pub struct ExLlmConfig(llm::Config);

/// Relies on golem's llm `config` record: a configuration carrying only
/// the given model name, every other tunable unset.
#[verifier::external_body]
fn make_llm_config(model: &str) -> llm::Config {
    llm::Config { model: model.to_string(), temperature: None, max_tokens: None,
        stop_sequences: None, tools: None, tool_choice: None, provider_options: None }
}

/// Relies on golem's llm `role` enum: maps our role to it, arm by arm.
#[verifier::external_body]
fn to_role(role: LlmRole) -> llm::Role {
    match role {
        LlmRole::User => llm::Role::User,
        LlmRole::Assistant => llm::Role::Assistant,
        LlmRole::System => llm::Role::System,
        LlmRole::Tool => llm::Role::Tool,
    }
}

/// Relies on golem's llm `send` import: a conversation of one message.
/// On success the response's content parts are handed over, texts as
/// texts, anything else marked other; on failure, the error's two
/// renderings.  Nothing is assumed of the model's answer.
#[verifier::external_body]
fn llm_send(role: llm::Role, name: Option<String>, content: String, config: llm::Config) -> (r:
    Result<Vec<ContentItem>, LlmFailure>) {
    let events = vec![llm::Event::Message(llm::Message { role, name,
        content: vec![llm::ContentPart::Text(content)] })];
    match llm::send(&events, &config) {
        Ok(resp) => Ok(resp.content.into_iter().map(|p| match p {
            llm::ContentPart::Text(t) => ContentItem::Text(t),
            _ => ContentItem::Other }).collect()),
        Err(e) => Err(LlmFailure { display: format!("{}", e), debug: format!("{:?}", e) }),
    }
}

// ----------------------------------------------------------------------
// The final report
// ----------------------------------------------------------------------

/// The texts among the answer parts at `k` onward.
pub open spec fn sp_texts(parts: Seq<ContentItemV>, k: int) -> Seq<Seq<char>>
    decreases parts.len() - k,
{
    if k < 0 || k >= parts.len() {
        Seq::empty()
    } else {
        match parts[k] {
            ContentItemV::Text(t) => seq![t] + sp_texts(parts, k + 1),
            ContentItemV::Other => sp_texts(parts, k + 1),
        }
    }
}

/// The texts at `k` onward joined with newlines.
pub open spec fn sp_join(ts: Seq<Seq<char>>, k: int) -> Seq<char>
    decreases ts.len() - k,
{
    if k < 0 || k >= ts.len() {
        Seq::empty()
    } else if k == ts.len() - 1 {
        ts[k]
    } else {
        ts[k] + "\n"@ + sp_join(ts, k + 1)
    }
}

/// The envelope around a successful answer.
pub open spec fn sp_final_report(topic: Seq<char>, parts: Seq<ContentItemV>) -> Seq<char> {
    "Finished research for topic "@ + topic + ":\n"@ + sp_join(sp_texts(parts, 0), 0)
}

fn ex_texts(parts: &Vec<ContentItem>, k: usize) -> (r: Vec<String>)
    requires
        k <= parts@.len(),
    ensures
        r.deep_view() == sp_texts(parts.deep_view(), k as int),
    decreases parts@.len() - k,
{
    if k >= parts.len() {
        let out: Vec<String> = Vec::new();
        assert(out.deep_view() =~= Seq::<Seq<char>>::empty());
        out
    } else {
        let rest = ex_texts(parts, k + 1);
        match &parts[k] {
            ContentItem::Text(t) => {
                let ghost rest0 = rest.deep_view();
                let mut out = rest;
                out.insert(0, t.clone());
                assert(out.deep_view() =~= seq![t@] + rest0);
                out
            },
            ContentItem::Other => rest,
        }
    }
}

fn ex_join(ts: &Vec<String>, k: usize) -> (r: String)
    requires
        k <= ts@.len(),
    ensures
        r@ == sp_join(ts.deep_view(), k as int),
    decreases ts@.len() - k,
{
    if k >= ts.len() {
        String::new()
    } else if k == ts.len() - 1 {
        ts[k].clone()
    } else {
        let mut out = ts[k].clone();
        out.append("\n");
        let rest = ex_join(ts, k + 1);
        out.append(rest.as_str());
        assert(out@ =~= sp_join(ts.deep_view(), k as int));
        out
    }
}

/// Wraps the textual parts of the model's answer, joined with newlines,
/// in the final report envelope.
pub fn finish_report(topic: &str, parts: &Vec<ContentItem>) -> (r: String)
    ensures
        r@ == sp_final_report(topic@, parts.deep_view()),
{
    let texts = ex_texts(parts, 0);
    let joined = ex_join(&texts, 0);
    let mut out: String = "Finished research for topic ".to_owned();
    out.append(topic);
    out.append(":\n");
    out.append(joined.as_str());
    assert(out@ =~= sp_final_report(topic@, parts.deep_view()));
    out
}

// ----------------------------------------------------------------------
// The diagnostic for a failed model call
// ----------------------------------------------------------------------

/// An optional value as the diagnostic renders it.
pub open spec fn sp_opt_rendered(o: Option<Seq<char>>) -> Seq<char> {
    match o {
        None => "None"@,
        Some(s) => "Some("@ + sp_quote(s) + ")"@,
    }
}

/// The text returned when the model call fails: the configured model,
/// the model-name environment values, the alternate-backend base URL,
/// the failure's two renderings, and a remediation hint.
pub open spec fn sp_llm_failure_report(
    model: Seq<char>,
    aggo: Option<Seq<char>>,
    llm_model: Option<Seq<char>>,
    ollama: Option<Seq<char>>,
    display: Seq<char>,
    debug: Seq<char>,
) -> Seq<char> {
    "LLM call failed (model: "@ + sp_quote(model) + ", env AGGO_LLM_MODEL: "@ + sp_opt_rendered(
        aggo,
    ) + ", env LLM_MODEL: "@ + sp_opt_rendered(llm_model) + ", GOLEM_OLLAMA_BASE_URL: "@
        + sp_opt_rendered(ollama) + "). Display: "@ + display + ". Debug: "@ + debug
        + "\n\nHint: for Ollama, ensure the model exists locally (e.g. `ollama pull "@ + model
        + "`) and that GOLEM_OLLAMA_BASE_URL points to the right server."@
}

fn opt_rendered_into(out: &mut String, o: &Option<String>)
    ensures
        final(out)@ == old(out)@ + sp_opt_rendered(spec_opt_view(*o)),
{
    match o {
        None => {
            out.append("None");
        },
        Some(s) => {
            out.append("Some(");
            quote_into(out, s.as_str());
            out.append(")");
        },
    }
    assert(out@ =~= old(out)@ + sp_opt_rendered(spec_opt_view(*o)));
}

pub fn build_llm_failure(
    model: &str,
    aggo: &Option<String>,
    llm_model: &Option<String>,
    ollama: &Option<String>,
    f: &LlmFailure,
) -> (r: String)
    ensures
        r@ == sp_llm_failure_report(
            model@,
            spec_opt_view(*aggo),
            spec_opt_view(*llm_model),
            spec_opt_view(*ollama),
            f.display@,
            f.debug@,
        ),
{
    let mut out: String = "LLM call failed (model: ".to_owned();
    quote_into(&mut out, model);
    out.append(", env AGGO_LLM_MODEL: ");
    opt_rendered_into(&mut out, aggo);
    out.append(", env LLM_MODEL: ");
    opt_rendered_into(&mut out, llm_model);
    out.append(", GOLEM_OLLAMA_BASE_URL: ");
    opt_rendered_into(&mut out, ollama);
    out.append("). Display: ");
    out.append(f.display.as_str());
    out.append(". Debug: ");
    out.append(f.debug.as_str());
    out.append("\n\nHint: for Ollama, ensure the model exists locally (e.g. `ollama pull ");
    out.append(model);
    out.append("`) and that GOLEM_OLLAMA_BASE_URL points to the right server.");
    assert(out@ =~= sp_llm_failure_report(
        model@,
        spec_opt_view(*aggo),
        spec_opt_view(*llm_model),
        spec_opt_view(*ollama),
        f.display@,
        f.debug@,
    ));
    out
}

// ----------------------------------------------------------------------
// The orchestrator
// ----------------------------------------------------------------------

impl ResearchAgentImpl {
    /// Researches a topic: searches the configured backend, degrades a
    /// search failure to an annotated placeholder, asks the model for a
    /// report over the prompt, and degrades a model failure to a
    /// diagnostic text.  Always returns a non-empty report.
    pub fn research(&self, topic: String) -> (r: String)
        ensures
            r@.len() > 0,
            (exists|parts: Seq<ContentItemV>| r@ == #[trigger] sp_final_report(topic@, parts))
                || (exists|d: Seq<char>, g: Seq<char>|
                r@ == #[trigger] sp_llm_failure_report(
                    self.model@,
                    spec_opt_view(self.diag_aggo_llm_model),
                    spec_opt_view(self.diag_llm_model),
                    spec_opt_view(self.diag_ollama_base_url),
                    d,
                    g,
                )),
    {
        let outcome = search_web_for_topic(
            self.web_search_provider,
            topic.as_str(),
            &self.brave_api_key,
        );
        let results = aggregate_search(outcome);
        let prompt = build_prompt(topic.as_str(), &results);
        let config = make_llm_config(self.model.as_str());
        let role = to_role(LlmRole::Assistant);
        match llm_send(role, Some("research-agent".to_owned()), prompt, config) {
            Ok(parts) => {
                let r = finish_report(topic.as_str(), &parts);
                proof {
                    reveal_strlit("Finished research for topic ");
                }
                r
            },
            Err(f) => {
                let r = build_llm_failure(
                    self.model.as_str(),
                    &self.diag_aggo_llm_model,
                    &self.diag_llm_model,
                    &self.diag_ollama_base_url,
                    &f,
                );
                proof {
                    reveal_strlit("LLM call failed (model: ");
                }
                r
            },
        }
    }
}

} // verus!
