pub mod config;
pub mod json;
pub mod laws;
pub mod report;
pub mod search;
pub mod text;

use vstd::prelude::*;

verus! {

/// A normalized web-search result, in the common shape every provider
/// adapter produces.
#[derive(Debug)]
pub struct SearchResult {
    pub url: String,
    pub title: String,
    pub snippet: String,
}

/// The mathematical shape of a search result.
pub ghost struct SearchResultV {
    pub url: Seq<char>,
    pub title: Seq<char>,
    pub snippet: Seq<char>,
}

impl View for SearchResult {
    type V = SearchResultV;

    open spec fn view(&self) -> SearchResultV {
        SearchResultV { url: self.url@, title: self.title@, snippet: self.snippet@ }
    }
}

impl DeepView for SearchResult {
    type V = SearchResultV;

    open spec fn deep_view(&self) -> SearchResultV {
        self.view()
    }
}

/// The agent surface the hosting runtime drives: construction from the
/// process environment, and one research operation per request.
pub trait ResearchAgent: Sized {
    fn new() -> Self;

    fn research(&self, topic: String) -> String;
}

} // verus!
