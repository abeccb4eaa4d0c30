use vstd::prelude::*;
use vstd::string::StringExecFns;
use golem_rust::golem_ai::golem::web_search::types;
use golem_rust::golem_ai::golem::web_search::web_search;
use crate::SearchResult;
use crate::SearchResultV;
use crate::config::WebSearchProvider;
use crate::json::{
    JsonValue, JsonSpec, jv_view, jv_view_seq, jv_view_fields, sp_parse, parse_json, sp_quote,
    quote_into,
};
use crate::text::{
    chars_of, concat_str, dec_digits, is_configured, check_configured, push_char, trim,
    trim_chars, u32_dec,
};

verus! {

// ----------------------------------------------------------------------
// Views of parsed JSON, by index
// ----------------------------------------------------------------------

pub proof fn lemma_view_seq_index(s: Seq<JsonValue>)
    ensures
        jv_view_seq(s).len() == s.len(),
        forall|k: int| 0 <= k < s.len() ==> jv_view_seq(s)[k] == jv_view(s[k]),
    decreases s.len(),
{
    if s.len() > 0 {
        lemma_view_seq_index(s.drop_first());
        assert forall|k: int| 0 <= k < s.len() implies jv_view_seq(s)[k] == jv_view(s[k]) by {
            if k > 0 {
                assert(jv_view_seq(s)[k] == jv_view_seq(s.drop_first())[k - 1]);
                assert(s.drop_first()[k - 1] == s[k]);
            }
        }
    }
}

pub proof fn lemma_view_fields_index(s: Seq<(String, JsonValue)>)
    ensures
        jv_view_fields(s).len() == s.len(),
        forall|k: int|
            0 <= k < s.len() ==> jv_view_fields(s)[k] == (s[k].0@, jv_view(s[k].1)),
    decreases s.len(),
{
    if s.len() > 0 {
        lemma_view_fields_index(s.drop_first());
        assert forall|k: int|
            0 <= k < s.len() implies jv_view_fields(s)[k] == (s[k].0@, jv_view(s[k].1)) by {
            if k > 0 {
                assert(jv_view_fields(s)[k] == jv_view_fields(s.drop_first())[k - 1]);
                assert(s.drop_first()[k - 1] == s[k]);
            }
        }
    }
}

// ----------------------------------------------------------------------
// Reading the provider's result structure
// ----------------------------------------------------------------------

/// The value under the first field with the given key.
pub open spec fn sp_lookup(fields: Seq<(Seq<char>, JsonSpec)>, key: Seq<char>, k: int) -> Option<
    JsonSpec,
>
    decreases fields.len() - k,
{
    if k < 0 || k >= fields.len() {
        None
    } else if fields[k].0 == key {
        Some(fields[k].1)
    } else {
        sp_lookup(fields, key, k + 1)
    }
}

/// An optional string field: absent or null is a valid absence, a string
/// is its value, anything else refuses the whole response.
pub open spec fn sp_opt_str(fields: Seq<(Seq<char>, JsonSpec)>, key: Seq<char>) -> Option<
    Option<Seq<char>>,
> {
    match sp_lookup(fields, key, 0) {
        None => Some(None),
        Some(JsonSpec::Null) => Some(None),
        Some(JsonSpec::Str(s)) => Some(Some(s)),
        Some(_) => None,
    }
}

/// What one candidate item contributes: `None` refuses the response,
/// `Some(None)` drops the item, `Some(Some(r))` keeps a result.
/// An item without a URL, or whose URL is blank, is dropped; a missing
/// title falls back to a placeholder and a missing snippet to empty.
pub open spec fn sp_item(v: JsonSpec) -> Option<Option<SearchResultV>> {
    match v {
        JsonSpec::Obj(fields) => match (
            sp_opt_str(fields, "url"@),
            sp_opt_str(fields, "title"@),
            sp_opt_str(fields, "description"@),
        ) {
            (Some(url), Some(title), Some(desc)) => match url {
                None => Some(None),
                Some(u) => {
                    if trim(u).len() == 0 {
                        Some(None)
                    } else {
                        Some(
                            Some(
                                SearchResultV {
                                    url: u,
                                    title: match title {
                                        Some(t) => t,
                                        None => "(no title)"@,
                                    },
                                    snippet: match desc {
                                        Some(d) => d,
                                        None => Seq::empty(),
                                    },
                                },
                            ),
                        )
                    }
                },
            },
            _ => None,
        },
        _ => None,
    }
}

/// The results kept from the items at `k` onward.
pub open spec fn sp_items(items: Seq<JsonSpec>, k: int) -> Option<Seq<SearchResultV>>
    decreases items.len() - k,
{
    if k < 0 || k >= items.len() {
        Some(Seq::empty())
    } else {
        match sp_item(items[k]) {
            None => None,
            Some(None) => sp_items(items, k + 1),
            Some(Some(r)) => match sp_items(items, k + 1) {
                Some(rest) => Some(seq![r] + rest),
                None => None,
            },
        }
    }
}

/// The results of a whole response document: a missing or null results
/// section is a valid empty result, a malformed one refuses the response.
pub open spec fn sp_brave_results(doc: JsonSpec) -> Option<Seq<SearchResultV>> {
    match doc {
        JsonSpec::Obj(fields) => match sp_lookup(fields, "web"@, 0) {
            None => Some(Seq::empty()),
            Some(JsonSpec::Null) => Some(Seq::empty()),
            Some(JsonSpec::Obj(wf)) => match sp_lookup(wf, "results"@, 0) {
                Some(JsonSpec::Arr(items)) => sp_items(items, 0),
                _ => None,
            },
            Some(_) => None,
        },
        _ => None,
    }
}

fn ex_lookup<'a>(fields: &'a Vec<(String, JsonValue)>, key: &str, k: usize) -> (r: Option<
    &'a JsonValue,
>)
    requires
        k <= fields@.len(),
    ensures
        match r {
            None => sp_lookup(jv_view_fields(fields@), key@, k as int) is None,
            Some(jv) => sp_lookup(jv_view_fields(fields@), key@, k as int) == Some(jv_view(*jv)),
        },
    decreases fields@.len() - k,
{
    proof {
        lemma_view_fields_index(fields@);
    }
    if k >= fields.len() {
        None
    } else {
        let cs = chars_of(fields[k].0.as_str());
        if crate::text::chars_eq_str(&cs, key) {
            Some(&fields[k].1)
        } else {
            ex_lookup(fields, key, k + 1)
        }
    }
}

fn ex_opt_str(fields: &Vec<(String, JsonValue)>, key: &str) -> (r: Option<Option<String>>)
    ensures
        match r {
            None => sp_opt_str(jv_view_fields(fields@), key@) is None,
            Some(None) => sp_opt_str(jv_view_fields(fields@), key@) == Some(
                None::<Seq<char>>,
            ),
            Some(Some(s)) => sp_opt_str(jv_view_fields(fields@), key@) == Some(Some(s@)),
        },
{
    match ex_lookup(fields, key, 0) {
        None => Some(None),
        Some(jv) => match jv {
            JsonValue::Null => Some(None),
            JsonValue::Str(s) => Some(Some(s.clone())),
            _ => None,
        },
    }
}

fn ex_item(v: &JsonValue) -> (r: Option<Option<SearchResult>>)
    ensures
        match r {
            None => sp_item(jv_view(*v)) is None,
            Some(None) => sp_item(jv_view(*v)) == Some(None::<SearchResultV>),
            Some(Some(sr)) => sp_item(jv_view(*v)) == Some(Some(sr.deep_view())),
        },
{
    match v {
        JsonValue::Obj(fields) => {
            let url = ex_opt_str(fields, "url");
            let title = ex_opt_str(fields, "title");
            let desc = ex_opt_str(fields, "description");
            match (url, title, desc) {
                (Some(url), Some(title), Some(desc)) => match url {
                    None => Some(None),
                    Some(u) => {
                        let ucs = chars_of(u.as_str());
                        let ut = trim_chars(&ucs);
                        if ut.len() == 0 {
                            Some(None)
                        } else {
                            let title_s: String = match title {
                                Some(t) => t,
                                None => "(no title)".to_owned(),
                            };
                            let desc_s: String = match desc {
                                Some(d) => d,
                                None => String::new(),
                            };
                            Some(Some(SearchResult { url: u, title: title_s, snippet: desc_s }))
                        }
                    },
                },
                _ => None,
            }
        },
        _ => None,
    }
}

fn ex_items(items: &Vec<JsonValue>, k: usize) -> (r: Option<Vec<SearchResult>>)
    requires
        k <= items@.len(),
    ensures
        match r {
            None => sp_items(jv_view_seq(items@), k as int) is None,
            Some(v) => sp_items(jv_view_seq(items@), k as int) == Some(v.deep_view()),
        },
    decreases items@.len() - k,
{
    proof {
        lemma_view_seq_index(items@);
    }
    if k >= items.len() {
        let out: Vec<SearchResult> = Vec::new();
        assert(out.deep_view() =~= Seq::<SearchResultV>::empty());
        Some(out)
    } else {
        match ex_item(&items[k]) {
            None => None,
            Some(None) => ex_items(items, k + 1),
            Some(Some(sr)) => match ex_items(items, k + 1) {
                Some(rest) => {
                    let ghost rest0 = rest.deep_view();
                    let ghost srv = sr.deep_view();
                    let mut out = rest;
                    out.insert(0, sr);
                    assert(out.deep_view() =~= seq![srv] + rest0);
                    Some(out)
                },
                None => None,
            },
        }
    }
}

/// Extracts the normalized results from a parsed response document.
fn brave_extract(doc: &JsonValue) -> (r: Option<Vec<SearchResult>>)
    ensures
        match r {
            None => sp_brave_results(jv_view(*doc)) is None,
            Some(v) => sp_brave_results(jv_view(*doc)) == Some(v.deep_view()),
        },
{
    match doc {
        JsonValue::Obj(fields) => match ex_lookup(fields, "web", 0) {
            None => {
                let out: Vec<SearchResult> = Vec::new();
                assert(out.deep_view() =~= Seq::<SearchResultV>::empty());
                Some(out)
            },
            Some(w) => match w {
                JsonValue::Null => {
                    let out: Vec<SearchResult> = Vec::new();
                    assert(out.deep_view() =~= Seq::<SearchResultV>::empty());
                    Some(out)
                },
                JsonValue::Obj(wf) => match ex_lookup(wf, "results", 0) {
                    Some(rv) => match rv {
                        JsonValue::Arr(items) => ex_items(items, 0),
                        _ => None,
                    },
                    None => None,
                },
                _ => None,
            },
        },
        _ => None,
    }
}

// ----------------------------------------------------------------------
// The direct-HTTP adapter's response handling
// ----------------------------------------------------------------------

/// Whether an HTTP status reports success.
pub open spec fn sp_status_success(status: u16) -> bool {
    200 <= status < 300
}

/// A body cut down for a diagnostic message.
pub open spec fn sp_truncated(s: Seq<char>) -> Seq<char> {
    if s.len() <= 2000 {
        s
    } else {
        s.subrange(0, 2000) + "...<truncated>"@
    }
}

pub open spec fn brave_status_message(status: u16, body: Seq<char>) -> Seq<char> {
    "Brave HTTP error status="@ + dec_digits(status as nat) + " body="@ + sp_truncated(body)
}

/// The parse-failure error: what went wrong, then the truncated body,
/// as the status error carries it.
pub open spec fn brave_parse_error_message(reason: Seq<char>, body: Seq<char>) -> Seq<char> {
    "Failed to parse Brave JSON: "@ + reason + " body="@ + sp_truncated(body)
}

/// The description when the body is not well-formed JSON at all.
pub open spec fn invalid_json_reason() -> Seq<char> {
    "invalid JSON document"@
}

/// The description when the body is JSON but not the expected nested
/// result structure.
pub open spec fn bad_structure_reason() -> Seq<char> {
    "unexpected result structure"@
}

/// What handling a response of the direct-HTTP backend owes: the error
/// carrying status and truncated body on failure status, the error
/// naming what went wrong and the body on a body that cannot be read,
/// and the extracted results otherwise.
pub open spec fn sp_brave_outcome(status: u16, body: Seq<char>) -> Result<
    Seq<SearchResultV>,
    Seq<char>,
> {
    if !sp_status_success(status) {
        Err(brave_status_message(status, body))
    } else {
        match sp_parse(body) {
            None => Err(brave_parse_error_message(invalid_json_reason(), body)),
            Some(doc) => match sp_brave_results(doc) {
                None => Err(brave_parse_error_message(bad_structure_reason(), body)),
                Some(rs) => Ok(rs),
            },
        }
    }
}

fn truncate_chars(s: &str) -> (r: String)
    ensures
        r@ == sp_truncated(s@),
{
    let cs = chars_of(s);
    if cs.len() <= 2000 {
        let r = s.to_owned();
        assert(r@ =~= sp_truncated(s@));
        r
    } else {
        let mut out = String::new();
        let mut i: usize = 0;
        while i < 2000
            invariant
                cs@ == s@,
                s@.len() > 2000,
                i <= 2000,
                out@ == s@.subrange(0, i as int),
            decreases 2000 - i,
        {
            push_char(&mut out, cs[i]);
            i = i + 1;
            assert(out@ =~= s@.subrange(0, i as int));
        }
        out.append("...<truncated>");
        assert(out@ =~= sp_truncated(s@));
        out
    }
}

/// Turns a status code and body of the direct-HTTP backend into the
/// adapter's outcome.
pub fn brave_handle_response(status: u16, body: &str) -> (r: Result<Vec<SearchResult>, String>)
    ensures
        match sp_brave_outcome(status, body@) {
            Ok(rs) => r matches Ok(v) && v.deep_view() == rs,
            Err(m) => r matches Err(e) && e@ == m,
        },
{
    if !(200 <= status && status < 300) {
        let num = u32_dec(status as u32);
        let head = concat_str("Brave HTTP error status=", num.as_str());
        let mid = concat_str(head.as_str(), " body=");
        let trunc = truncate_chars(body);
        let msg = concat_str(mid.as_str(), trunc.as_str());
        assert(msg@ =~= brave_status_message(status, body@));
        return Err(msg);
    }
    match parse_json(body) {
        Some(doc) => match brave_extract(&doc) {
            Some(v) => Ok(v),
            None => {
                let trunc = truncate_chars(body);
                let head = concat_str("Failed to parse Brave JSON: ", "unexpected result structure");
                let mid = concat_str(head.as_str(), " body=");
                let msg = concat_str(mid.as_str(), trunc.as_str());
                assert(msg@ =~= brave_parse_error_message(bad_structure_reason(), body@));
                Err(msg)
            },
        },
        None => {
            let trunc = truncate_chars(body);
            let head = concat_str("Failed to parse Brave JSON: ", "invalid JSON document");
            let mid = concat_str(head.as_str(), " body=");
            let msg = concat_str(mid.as_str(), trunc.as_str());
            assert(msg@ =~= brave_parse_error_message(invalid_json_reason(), body@));
            Err(msg)
        },
    }
}

} // verus!

verus! {

// ----------------------------------------------------------------------
// The transports the adapters call
// ----------------------------------------------------------------------

/// How a search transport call failed, in the transport's own words.
pub struct SearchFailure {
    pub display: String,
    pub debug: String,
}

/// The normalized parameters every session-based adapter opens its
/// session with.
pub struct SessionParams {
    pub query: String,
    pub language: Option<String>,
    pub safe_search_off: bool,
    pub max_results: Option<u32>,
    pub advanced_answer: Option<bool>,
}

/// The fixed parameter set for a topic: English, safe search off, ten
/// results a page, advanced answers requested, no filtering.
pub fn normalized_params(topic: &str) -> (p: SessionParams)
    ensures
        p.query@ == topic@,
        p.language matches Some(l) && l@ == "lang_en"@,
        p.safe_search_off,
        p.max_results == Some(10u32),
        p.advanced_answer == Some(true),
{
    SessionParams {
        query: topic.to_owned(),
        language: Some("lang_en".to_owned()),
        safe_search_off: true,
        max_results: Some(10),
        advanced_answer: Some(true),
    }
}

#[verifier::external_type_specification]
#[verifier::external_body]
pub struct ExSearchSession(web_search::SearchSession);

/// Relies on golem's web-search `start-search` import: opens a search
/// session with the given parameters.  Nothing is assumed of the
/// backend's answer.
#[verifier::external_body]
fn start_search_session(p: SessionParams) -> (r: Result<web_search::SearchSession, SearchFailure>)
{
    let params = web_search::SearchParams {
        query: p.query, language: p.language, max_results: p.max_results,
        safe_search: if p.safe_search_off { Some(types::SafeSearchLevel::Off) } else { None },
        advanced_answer: p.advanced_answer, region: None, time_range: None,
        include_domains: None, exclude_domains: None, include_images: None, include_html: None,
    };
    web_search::start_search(&params)
        .map_err(|e| SearchFailure { display: format!("{}", e), debug: format!("{:?}", e) })
}

/// Relies on golem's web-search `search-session.next-page` import: hands
/// the page's items over, keeping the url, title and snippet of each.
/// Nothing is assumed of the backend's answer.
#[verifier::external_body]
fn session_next_page(s: &web_search::SearchSession) -> (r: Result<Vec<SearchResult>, SearchFailure>)
{
    match s.next_page() {
        Ok(items) => Ok(items
            .into_iter()
            .map(|i| SearchResult { url: i.url, title: i.title, snippet: i.snippet })
            .collect()),
        Err(e) => Err(SearchFailure { display: format!("{}", e), debug: format!("{:?}", e) }),
    }
}

/// How the direct-HTTP transport failed: sending the request, or
/// reading the response body.
pub enum BraveHttpFailure {
    Send(String),
    Read(String),
}

/// Relies on golem-wasi-http's blocking client: one GET against the
/// backend's search endpoint, with the topic as the query, a count of
/// ten, English, safe search off, uncompressed transfer, and the
/// credential header.  Nothing is assumed of the network's answer.
#[verifier::external_body]
fn brave_get(token: &str, topic: &str) -> (r: Result<(u16, String), BraveHttpFailure>)
{
    let resp = golem_wasi_http::Client::new()
        .get("https://api.search.brave.com/res/v1/web/search")
        .header("Accept", "application/json")
        .header("Accept-Encoding", "identity")
        .header("X-Subscription-Token", token)
        .query(&[("q", topic), ("count", "10"), ("offset", "0"), ("search_lang", "en"),
            ("safesearch", "off")])
        .send()
        .map_err(|e| BraveHttpFailure::Send(e.to_string()))?;
    let status = resp.status().as_u16();
    let body = resp.text().map_err(|e| BraveHttpFailure::Read(e.to_string()))?;
    Ok((status, body))
}

// ----------------------------------------------------------------------
// Failure messages of the adapters
// ----------------------------------------------------------------------

pub open spec fn start_failure_message(
    provider: WebSearchProvider,
    topic: Seq<char>,
    display: Seq<char>,
    debug: Seq<char>,
) -> Seq<char> {
    "Failed to start web search (provider: "@ + provider.spec_display_name() + ", query: "@
        + sp_quote(topic) + "). Display: "@ + display + ". Debug: "@ + debug
}

pub open spec fn page_failure_message(
    page: nat,
    provider: WebSearchProvider,
    topic: Seq<char>,
    display: Seq<char>,
    debug: Seq<char>,
) -> Seq<char> {
    "Failed to retrieve web search page "@ + dec_digits(page) + "/3 (provider: "@
        + provider.spec_display_name() + ", query: "@ + sp_quote(topic) + "). Display: "@
        + display + ". Debug: "@ + debug
}

pub fn build_start_failure(provider: WebSearchProvider, topic: &str, f: &SearchFailure) -> (r:
    String)
    ensures
        r@ == start_failure_message(provider, topic@, f.display@, f.debug@),
{
    let mut out: String = "Failed to start web search (provider: ".to_owned();
    out.append(provider.display_name());
    out.append(", query: ");
    quote_into(&mut out, topic);
    out.append("). Display: ");
    out.append(f.display.as_str());
    out.append(". Debug: ");
    out.append(f.debug.as_str());
    assert(out@ =~= start_failure_message(provider, topic@, f.display@, f.debug@));
    out
}

pub fn build_page_failure(page: u32, provider: WebSearchProvider, topic: &str, f: &SearchFailure)
    -> (r: String)
    ensures
        r@ == page_failure_message(page as nat, provider, topic@, f.display@, f.debug@),
{
    let mut out: String = "Failed to retrieve web search page ".to_owned();
    let num = u32_dec(page);
    out.append(num.as_str());
    out.append("/3 (provider: ");
    out.append(provider.display_name());
    out.append(", query: ");
    quote_into(&mut out, topic);
    out.append("). Display: ");
    out.append(f.display.as_str());
    out.append(". Debug: ");
    out.append(f.debug.as_str());
    assert(out@ =~= page_failure_message(page as nat, provider, topic@, f.display@, f.debug@));
    out
}

// ----------------------------------------------------------------------
// The adapters
// ----------------------------------------------------------------------

proof fn lemma_flatten_push(s: Seq<Seq<SearchResultV>>, x: Seq<SearchResultV>)
    ensures
        s.push(x).flatten() == s.flatten() + x,
    decreases s.len(),
{
    if s.len() == 0 {
        assert(s.push(x)[0] == x);
        assert(s.push(x).drop_first() =~= Seq::<Seq<SearchResultV>>::empty());
        assert(s.push(x).flatten() == x + Seq::<Seq<SearchResultV>>::empty().flatten());
        assert(x + Seq::<SearchResultV>::empty() =~= x);
        assert(s.flatten() + x =~= x);
    } else {
        assert(s.push(x)[0] == s[0]);
        assert(s.push(x).drop_first() =~= s.drop_first().push(x));
        lemma_flatten_push(s.drop_first(), x);
        assert(s.push(x).flatten() == s[0] + (s.drop_first().flatten() + x));
        assert(s[0] + (s.drop_first().flatten() + x) =~= (s[0] + s.drop_first().flatten()) + x);
    }
}

/// Whether a credential value is present and configured.
pub open spec fn key_ok(k: Option<String>) -> bool {
    match k {
        Some(s) => is_configured(s@),
        None => false,
    }
}

/// Every vector of results that handling some response can produce.
pub open spec fn brave_search_ok(v: Seq<SearchResultV>) -> bool {
    exists|status: u16, body: Seq<char>| #[trigger] sp_brave_outcome(status, body) == Ok::<
        Seq<SearchResultV>,
        Seq<char>,
    >(v)
}

/// Every error the direct-HTTP adapter can report: a missing credential
/// aside, either the transport failed or the response was refused.
pub open spec fn brave_search_err(m: Seq<char>) -> bool {
    ||| (exists|status: u16, body: Seq<char>| #[trigger] sp_brave_outcome(status, body)
        == Err::<Seq<SearchResultV>, Seq<char>>(m))
    ||| (exists|d: Seq<char>| m == #[trigger] ("Brave HTTP request failed: "@ + d))
    ||| (exists|d: Seq<char>| m == #[trigger] ("Failed to read Brave response body: "@ + d))
}

/// The direct-HTTP adapter: checks the credential, issues the request
/// through the trusted transport, and turns the response into the
/// adapter's outcome.
pub fn brave_search(brave_key: &Option<String>, topic: &str) -> (r: Result<
    Vec<SearchResult>,
    String,
>)
    ensures
        !key_ok(*brave_key) ==> (r matches Err(m) && m@ == "BRAVE_API_KEY env var not configured"@),
        key_ok(*brave_key) ==> match r {
            Ok(v) => brave_search_ok(v.deep_view()),
            Err(m) => brave_search_err(m@),
        },
{
    match brave_key {
        Some(t) => {
            if !check_configured(t.as_str()) {
                return Err("BRAVE_API_KEY env var not configured".to_owned());
            }
            match brave_get(t.as_str(), topic) {
                Ok((status, body)) => {
                    let res = brave_handle_response(status, body.as_str());
                    proof {
                        match res {
                            Ok(ref v) => {
                                assert(sp_brave_outcome(status, body@) == Ok::<
                                    Seq<SearchResultV>,
                                    Seq<char>,
                                >(v.deep_view()));
                            },
                            Err(ref m) => {
                                assert(sp_brave_outcome(status, body@) == Err::<
                                    Seq<SearchResultV>,
                                    Seq<char>,
                                >(m@));
                            },
                        }
                    }
                    res
                },
                Err(f) => match f {
                    BraveHttpFailure::Send(d) => {
                        let msg = concat_str("Brave HTTP request failed: ", d.as_str());
                        Err(msg)
                    },
                    BraveHttpFailure::Read(d) => {
                        let msg = concat_str("Failed to read Brave response body: ", d.as_str());
                        Err(msg)
                    },
                },
            }
        },
        None => Err("BRAVE_API_KEY env var not configured".to_owned()),
    }
}

/// Every success of a session-based adapter: the flattened items of
/// exactly three retrieved pages.
pub open spec fn session_search_ok(v: Seq<SearchResultV>) -> bool {
    exists|pages: Seq<Seq<SearchResultV>>|
        pages.len() == 3 && v == #[trigger] pages.flatten()
}

/// Every error of a session-based adapter: the session could not be
/// opened, or one of the three pages failed and the whole call with it.
pub open spec fn session_search_err(
    provider: WebSearchProvider,
    topic: Seq<char>,
    m: Seq<char>,
) -> bool {
    ||| (exists|d: Seq<char>, g: Seq<char>| m == #[trigger] start_failure_message(
        provider,
        topic,
        d,
        g,
    ))
    ||| (exists|p: nat, d: Seq<char>, g: Seq<char>|
        1 <= p <= 3 && m == #[trigger] page_failure_message(p, provider, topic, d, g))
}

/// A session-based adapter: opens a session with the normalized
/// parameters and drains exactly three pages, failing the whole call on
/// the first page that fails.
pub fn session_search(provider: WebSearchProvider, topic: &str) -> (r: Result<
    Vec<SearchResult>,
    String,
>)
    ensures
        r matches Ok(v) ==> session_search_ok(v.deep_view()),
        r matches Err(m) ==> session_search_err(provider, topic@, m@),
{
    let params = normalized_params(topic);
    let session = match start_search_session(params) {
        Ok(s) => s,
        Err(f) => {
            let m = build_start_failure(provider, topic, &f);
            return Err(m);
        },
    };
    let mut content: Vec<SearchResult> = Vec::new();
    let ghost mut pages: Seq<Seq<SearchResultV>> = Seq::empty();
    let mut page_index: usize = 0;
    while page_index < 3
        invariant
            page_index <= 3,
            pages.len() == page_index,
            content.deep_view() == pages.flatten(),
        decreases 3 - page_index,
    {
        match session_next_page(&session) {
            Ok(page) => {
                let ghost pv = page.deep_view();
                let ghost content0 = content.deep_view();
                let mut page_m = page;
                content.append(&mut page_m);
                proof {
                    assert(content.deep_view() =~= content0 + pv);
                    lemma_flatten_push(pages, pv);
                    pages = pages.push(pv);
                }
            },
            Err(f) => {
                let m = build_page_failure((page_index + 1) as u32, provider, topic, &f);
                return Err(m);
            },
        }
        page_index = page_index + 1;
    }
    assert(pages.len() == 3 && content.deep_view() == pages.flatten());
    Ok(content)
}

/// Dispatches a topic search to the configured provider's adapter.
pub fn search_web_for_topic(
    provider: WebSearchProvider,
    topic: &str,
    brave_key: &Option<String>,
) -> (r: Result<Vec<SearchResult>, String>)
    ensures
        provider is Brave ==> {
            &&& !key_ok(*brave_key) ==> (r matches Err(m) && m@
                == "BRAVE_API_KEY env var not configured"@)
            &&& key_ok(*brave_key) ==> match r {
                Ok(v) => brave_search_ok(v.deep_view()),
                Err(m) => brave_search_err(m@),
            }
        },
        !(provider is Brave) ==> {
            &&& r matches Ok(v) ==> session_search_ok(v.deep_view())
            &&& r matches Err(m) ==> session_search_err(provider, topic@, m@)
        },
{
    if provider == WebSearchProvider::Brave {
        brave_search(brave_key, topic)
    } else {
        session_search(provider, topic)
    }
}

// ----------------------------------------------------------------------
// The aggregator: search never blocks research
// ----------------------------------------------------------------------

/// The annotated placeholder a failed search degrades to.
pub open spec fn synthetic_result(err: Seq<char>) -> SearchResultV {
    SearchResultV {
        url: Seq::empty(),
        title: "search-failed"@,
        snippet: "Web search failed: "@ + err,
    }
}

/// Absorbs an adapter failure: a successful search passes through, a
/// failed one becomes a single placeholder result naming the failure.
pub fn aggregate_search(outcome: Result<Vec<SearchResult>, String>) -> (r: Vec<SearchResult>)
    ensures
        outcome matches Ok(v) ==> r == v,
        outcome matches Err(e) ==> r.deep_view() == seq![synthetic_result(e@)],
{
    match outcome {
        Ok(v) => v,
        Err(e) => {
            let mut snippet: String = "Web search failed: ".to_owned();
            snippet.append(e.as_str());
            let sr = SearchResult {
                url: String::new(),
                title: "search-failed".to_owned(),
                snippet,
            };
            let mut out: Vec<SearchResult> = Vec::new();
            out.push(sr);
            assert(out.deep_view() =~= seq![synthetic_result(e@)]);
            out
        },
    }
}

} // verus!
