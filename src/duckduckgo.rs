//! DuckDuckGo's HTML endpoint: two offset parameters from the second page
//! on, and result URLs shown without their scheme.
use vstd::prelude::*;
use crate::dom::{valid_selector, ItemParts, ItemPartsView};
use crate::parser::{outcome_view, page_outcome, EngineKind, ResultParser, SelectorSet};
use crate::request::{
    form_content_type, header_views, identity, identity_headers, privacy_signal, push_header,
};
use crate::result::{opt_view, single, EngineError, SearchResult, SearchResultView};
use crate::text::{clean, clean_description, decimal, push_decimal, push_str, string_of, trim, trimmed};

verus! {

/// The search URL for `query` and the zero-based `page`.
pub open spec fn duckduckgo_url(query: Seq<char>, page: nat) -> Seq<char> {
    if page == 0 {
        "https://html.duckduckgo.com/html/?q="@ + query + "&s=&dc=&v=1&o=json&api=/d.js"@
    } else {
        "https://html.duckduckgo.com/html/?q="@ + query + "&s="@ + decimal(30 * page) + "&dc="@
            + decimal(30 * page + 1) + "&v=1&o=json&api=/d.js"@
    }
}

/// The request headers.
pub open spec fn duckduckgo_headers(user_agent: Seq<char>, accept_language: Seq<char>) -> Seq<(Seq<char>, Seq<char>)> {
    identity_headers("https://html.duckduckgo.com"@, user_agent, accept_language)
        .push(form_content_type())
        .push(privacy_signal())
}

/// The result made of one item: the shown URL gets an `https://` scheme.
pub open spec fn duckduckgo_item(p: ItemPartsView) -> Option<SearchResultView> {
    Some(single(
        trimmed(p.title.inner_html),
        "https://"@ + trimmed(p.link.inner_html),
        clean_description(p.description.inner_html),
        "duckduckgo"@,
    ))
}

/// Scrapes results from DuckDuckGo.
pub struct DuckDuckGo {
    parser: ResultParser,
}

/// The selectors, by role.
pub open spec fn duckduckgo_selectors() -> SelectorSet {
    SelectorSet {
        no_results: ".no-results"@,
        item: ".results>.result"@,
        title: ".result__title>.result__a"@,
        link: ".result__url"@,
        description: ".result__snippet"@,
    }
}

impl View for DuckDuckGo {
    type V = SelectorSet;

    /// The engine's selector texts.
    closed spec fn view(&self) -> SelectorSet {
        self.parser@
    }
}

impl DuckDuckGo {
    /// The engine always uses its own selectors.
    #[verifier::type_invariant]
    spec fn selectors_fixed(&self) -> bool {
        self.parser@ == duckduckgo_selectors()
    }
}

impl DuckDuckGo {
    /// Creates the engine with its selectors.
    pub fn new() -> (r: Result<DuckDuckGo, EngineError>)
        ensures
            r is Ok <==> (valid_selector(".no-results"@) && valid_selector(".results>.result"@)
                && valid_selector(".result__title>.result__a"@) && valid_selector(".result__url"@)
                && valid_selector(".result__snippet"@)),
            r is Err ==> r == Err::<DuckDuckGo, EngineError>(EngineError::ConfigurationError),
            r matches Ok(e) ==> e@ == duckduckgo_selectors(),
    {
        match ResultParser::new(
            ".no-results",
            ".results>.result",
            ".result__title>.result__a",
            ".result__url",
            ".result__snippet",
        ) {
            Ok(parser) => Ok(DuckDuckGo { parser }),
            Err(e) => Err(e),
        }
    }

    /// The search URL for `query` and the zero-based `page`.
    pub fn search_url(query: &str, page: u32) -> (r: String)
        ensures
            r@ == duckduckgo_url(query@, page as nat),
    {
        let mut u: Vec<char> = Vec::new();
        push_str(&mut u, "https://html.duckduckgo.com/html/?q=");
        push_str(&mut u, query);
        if page == 0 {
            push_str(&mut u, "&s=&dc=&v=1&o=json&api=/d.js");
        } else {
            push_str(&mut u, "&s=");
            push_decimal(&mut u, 30 * (page as u64));
            push_str(&mut u, "&dc=");
            push_decimal(&mut u, 30 * (page as u64) + 1);
            push_str(&mut u, "&v=1&o=json&api=/d.js");
        }
        string_of(&u)
    }

    /// The request headers; DuckDuckGo ignores the safe-search level.
    pub fn request_headers(user_agent: &str, accept_language: &str, _safe_search: u8) -> (r: Vec<(String, String)>)
        ensures
            header_views(r@) == duckduckgo_headers(user_agent@, accept_language@),
    {
        let mut h = identity("https://html.duckduckgo.com", user_agent, accept_language);
        push_header(&mut h, "Content-Type", "application/x-www-form-urlencoded".to_owned());
        push_header(&mut h, "Sec-GPC", "1".to_owned());
        h
    }

    /// The result made of one item: the shown URL gets an `https://` scheme.
    pub fn map_item(p: &ItemParts) -> (r: Option<SearchResult>)
        ensures
            opt_view(r) == duckduckgo_item(p@),
    {
        let mut u: Vec<char> = Vec::new();
        push_str(&mut u, "https://");
        push_str(&mut u, trim(p.link.inner_html.as_str()).as_str());
        Some(SearchResult::new(
            trim(p.title.inner_html.as_str()),
            string_of(&u),
            clean(p.description.inner_html.as_str()),
            "duckduckgo",
        ))
    }

    /// The results of a fetched page.
    pub fn results_from_html(&self, html: &str) -> (r: Result<Vec<SearchResult>, EngineError>)
        ensures
            outcome_view(r) == page_outcome(EngineKind::DuckDuckGo, duckduckgo_selectors(), html@),
    {
        proof {
            use_type_invariant(self);
        }
        self.parser.extract(EngineKind::DuckDuckGo, html)
    }
}

} // verus!
