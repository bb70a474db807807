//! Brave: the page number as offset, the safe-search level in a cookie.
use vstd::prelude::*;
use crate::dom::{opt_node, valid_selector, ItemParts, ItemPartsView, Node, NodeView};
use crate::parser::{outcome_view, page_outcome, EngineKind, ResultParser, SelectorSet};
use crate::request::{
    form_content_type, header_views, identity, identity_headers, privacy_signal, push_header,
};
use crate::result::{opt_view, single, EngineError, SearchResult, SearchResultView};
use crate::text::{
    clean, clean_description, contains, decimal, push_decimal, push_str, str_contains, string_of,
    trim, trimmed,
};

verus! {

/// The search URL for `query` and the zero-based `page`.
pub open spec fn brave_url(query: Seq<char>, page: nat) -> Seq<char> {
    "https://search.brave.com/search?q="@ + query + "&offset="@ + decimal(page)
}

/// The safe-search level: `off`, `moderate`, or `strict` for 2 and above.
pub open spec fn brave_level(safe_search: u8) -> Seq<char> {
    if safe_search == 0 {
        "off"@
    } else if safe_search == 1 {
        "moderate"@
    } else {
        "strict"@
    }
}

/// The request headers.
pub open spec fn brave_headers(user_agent: Seq<char>, accept_language: Seq<char>, safe_search: u8) -> Seq<(Seq<char>, Seq<char>)> {
    identity_headers("https://search.brave.com"@, user_agent, accept_language)
        .push(form_content_type())
        .push(privacy_signal())
        .push(("Cookie"@, "safe_search="@ + brave_level(safe_search)))
}

/// Brave signals an empty page by a heading that says so.
pub open spec fn brave_no_results(first: Option<NodeView>) -> bool {
    match first {
        Some(n) => contains(n.inner_html, "Not many great matches came back for your search"@),
        None => false,
    }
}

/// The result made of one item; an item whose link has no `href` gives none.
pub open spec fn brave_item(p: ItemPartsView) -> Option<SearchResultView> {
    match p.link.href {
        Some(h) => Some(single(trimmed(p.title.text), trimmed(h), clean_description(p.description.inner_html), "brave"@)),
        None => None,
    }
}

/// Scrapes results from Brave Search.
pub struct Brave {
    parser: ResultParser,
}

/// The selectors, by role.
pub open spec fn brave_selectors() -> SelectorSet {
    SelectorSet {
        no_results: "#results h4"@,
        item: "#results [data-pos]"@,
        title: "a > .url"@,
        link: "a"@,
        description: ".snippet-description"@,
    }
}

impl View for Brave {
    type V = SelectorSet;

    /// The engine's selector texts.
    closed spec fn view(&self) -> SelectorSet {
        self.parser@
    }
}

impl Brave {
    /// The engine always uses its own selectors.
    #[verifier::type_invariant]
    spec fn selectors_fixed(&self) -> bool {
        self.parser@ == brave_selectors()
    }
}

impl Brave {
    /// Creates the engine with its selectors.
    pub fn new() -> (r: Result<Brave, EngineError>)
        ensures
            r is Ok <==> (valid_selector("#results h4"@) && valid_selector("#results [data-pos]"@)
                && valid_selector("a > .url"@) && valid_selector("a"@) && valid_selector(".snippet-description"@)),
            r is Err ==> r == Err::<Brave, EngineError>(EngineError::ConfigurationError),
            r matches Ok(e) ==> e@ == brave_selectors(),
    {
        match ResultParser::new("#results h4", "#results [data-pos]", "a > .url", "a", ".snippet-description") {
            Ok(parser) => Ok(Brave { parser }),
            Err(e) => Err(e),
        }
    }

    /// The search URL for `query` and the zero-based `page`.
    pub fn search_url(query: &str, page: u32) -> (r: String)
        ensures
            r@ == brave_url(query@, page as nat),
    {
        let mut u: Vec<char> = Vec::new();
        push_str(&mut u, "https://search.brave.com/search?q=");
        push_str(&mut u, query);
        push_str(&mut u, "&offset=");
        push_decimal(&mut u, page as u64);
        string_of(&u)
    }

    /// The safe-search level's name.
    pub fn safe_search_level(safe_search: u8) -> (r: String)
        ensures
            r@ == brave_level(safe_search),
    {
        if safe_search == 0 {
            "off".to_owned()
        } else if safe_search == 1 {
            "moderate".to_owned()
        } else {
            "strict".to_owned()
        }
    }

    /// The request headers.
    pub fn request_headers(user_agent: &str, accept_language: &str, safe_search: u8) -> (r: Vec<(String, String)>)
        ensures
            header_views(r@) == brave_headers(user_agent@, accept_language@, safe_search),
    {
        let mut h = identity("https://search.brave.com", user_agent, accept_language);
        push_header(&mut h, "Content-Type", "application/x-www-form-urlencoded".to_owned());
        push_header(&mut h, "Sec-GPC", "1".to_owned());
        let mut cookie: Vec<char> = Vec::new();
        push_str(&mut cookie, "safe_search=");
        push_str(&mut cookie, Brave::safe_search_level(safe_search).as_str());
        push_header(&mut h, "Cookie", string_of(&cookie));
        h
    }

    /// Whether the first no-results match signals an empty page.
    pub fn is_no_results(first: &Option<Node>) -> (r: bool)
        ensures
            r == brave_no_results(opt_node(*first)),
    {
        match first {
            Some(n) => str_contains(n.inner_html.as_str(), "Not many great matches came back for your search"),
            None => false,
        }
    }

    /// The result made of one item; an item whose link has no `href` gives none.
    pub fn map_item(p: &ItemParts) -> (r: Option<SearchResult>)
        ensures
            opt_view(r) == brave_item(p@),
    {
        match &p.link.href {
            Some(h) => Some(SearchResult::new(
                trim(p.title.text.as_str()),
                trim(h.as_str()),
                clean(p.description.inner_html.as_str()),
                "brave",
            )),
            None => None,
        }
    }

    /// The results of a fetched page.
    pub fn results_from_html(&self, html: &str) -> (r: Result<Vec<SearchResult>, EngineError>)
        ensures
            outcome_view(r) == page_outcome(EngineKind::Brave, brave_selectors(), html@),
    {
        proof {
            use_type_invariant(self);
        }
        self.parser.extract(EngineKind::Brave, html)
    }
}

} // verus!
