//! The normalised search result and the error kinds of an engine call.
use vstd::prelude::*;

verus! {

/// One search hit, as every engine reports it.
#[derive(Debug, Clone)]
pub struct SearchResult {
    pub title: String,
    pub url: String,
    pub description: String,
    /// The engines that reported this hit.
    pub engines: Vec<String>,
}

/// The mathematical value of a [`SearchResult`].
pub struct SearchResultView {
    pub title: Seq<char>,
    pub url: Seq<char>,
    pub description: Seq<char>,
    pub engines: Seq<Seq<char>>,
}

impl View for SearchResult {
    type V = SearchResultView;

    open spec fn view(&self) -> SearchResultView {
        SearchResultView {
            title: self.title@,
            url: self.url@,
            description: self.description@,
            engines: self.engines@.map_values(|e: String| e@),
        }
    }
}

/// The views of a sequence of results.
pub open spec fn views(v: Seq<SearchResult>) -> Seq<SearchResultView> {
    v.map_values(|r: SearchResult| r@)
}

/// The view of an optional result.
pub open spec fn opt_view(o: Option<SearchResult>) -> Option<SearchResultView> {
    match o {
        Some(r) => Some(r@),
        None => None,
    }
}

/// The result reported by a single engine.
pub open spec fn single(title: Seq<char>, url: Seq<char>, description: Seq<char>, engine: Seq<char>) -> SearchResultView {
    SearchResultView { title, url, description, engines: seq![engine] }
}

impl SearchResult {
    /// A result reported by the one engine `engine`.
    pub fn new(title: String, url: String, description: String, engine: &str) -> (r: SearchResult)
        ensures
            r@ == single(title@, url@, description@, engine@),
    {
        let mut engines: Vec<String> = Vec::new();
        engines.push(engine.to_owned());
        let r = SearchResult { title, url, description, engines };
        proof {
            assert(r@.engines =~= seq![engine@]);
        }
        r
    }
}

/// Why an engine call produced no results.
#[derive(PartialEq, Eq, Structural, Debug, Clone, Copy)]
pub enum EngineError {
    /// A selector of the engine's configuration is not valid.
    ConfigurationError,
    /// The transport failed to fetch the page.
    RequestError,
    /// The engine reported that nothing matched the query.
    EmptyResultSet,
    /// Any other failure, such as a header that cannot be built.
    UnexpectedError,
}

} // verus!
