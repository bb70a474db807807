//! Bing: offset pagination with a form marker, a fixed cookie of feature
//! flags, and click-tracking links that are decoded to their destination.
use vstd::prelude::*;
use crate::dom::{opt_node, valid_selector, ItemParts, ItemPartsView, Node, NodeView};
use crate::link::{decode_url, decoded_link, tracking_prefix};
use crate::parser::{outcome_view, page_outcome, EngineKind, ResultParser, SelectorSet};
use crate::request::{header_views, identity, identity_headers, push_header};
use crate::result::{opt_view, single, EngineError, SearchResult, SearchResultView};
use crate::text::{
    clean, clean_description, contains, decimal, has_prefix, push_decimal, push_str, starts_with,
    str_contains, string_of, trim, trimmed,
};

verus! {

/// The search URL for `query` and the zero-based `page`.
pub open spec fn bing_url(query: Seq<char>, page: nat) -> Seq<char> {
    let base = "https://www.bing.com/search?q="@ + query + "&pq="@ + query;
    if page == 0 {
        base
    } else if page == 1 {
        base + "&first="@ + decimal(10 * page + 1) + "&FORM=PERE"@
    } else {
        base + "&first="@ + decimal(10 * page + 1) + "&FORM=PERE"@ + decimal((page - 1) as nat)
    }
}

/// The cookie of feature flags sent with every request.
pub open spec fn bing_cookie() -> Seq<char> {
    "_C_ETH=1; _EDGE_V=1; _Rwho=u=d; bngps=s=0; _UR=QS=4; ANIMIA=FRE=1; BCP=AD=0&AL=0&SM=0; bngps=s=0; SRCHD=AF=NOFORM; "@
}

/// The request headers.
pub open spec fn bing_headers(user_agent: Seq<char>, accept_language: Seq<char>) -> Seq<(Seq<char>, Seq<char>)> {
    identity_headers("https://www.bing.com"@, user_agent, accept_language).push(("Cookie"@, bing_cookie()))
}

/// Bing signals an empty page by a no-results element of the result class.
pub open spec fn bing_no_results(first: Option<NodeView>) -> bool {
    match first {
        Some(n) => match n.class {
            Some(c) => contains(c, "b_algo"@),
            None => false,
        },
        None => false,
    }
}

/// The destination of a result link: tracking links are decoded.
pub open spec fn bing_link(href: Seq<char>) -> Seq<char> {
    if has_prefix(href, tracking_prefix()) {
        decoded_link(href)
    } else {
        href
    }
}

/// The result made of one item; an item whose link has no `href` gives none.
pub open spec fn bing_item(p: ItemPartsView) -> Option<SearchResultView> {
    match p.link.href {
        Some(h) => Some(single(trimmed(p.title.inner_html), bing_link(h), clean_description(p.description.inner_html), "bing"@)),
        None => None,
    }
}

/// Scrapes results from Bing.
pub struct Bing {
    parser: ResultParser,
}

/// The selectors, by role.
pub open spec fn bing_selectors() -> SelectorSet {
    SelectorSet {
        no_results: "#b_results"@,
        item: "li.b_algo"@,
        title: "h2 > a"@,
        link: "div > a"@,
        description: "div > p"@,
    }
}

impl View for Bing {
    type V = SelectorSet;

    /// The engine's selector texts.
    closed spec fn view(&self) -> SelectorSet {
        self.parser@
    }
}

impl Bing {
    /// The engine always uses its own selectors.
    #[verifier::type_invariant]
    spec fn selectors_fixed(&self) -> bool {
        self.parser@ == bing_selectors()
    }
}

impl Bing {
    /// Creates the engine with its selectors.
    pub fn new() -> (r: Result<Bing, EngineError>)
        ensures
            r is Ok <==> (valid_selector("#b_results"@) && valid_selector("li.b_algo"@)
                && valid_selector("h2 > a"@) && valid_selector("div > a"@) && valid_selector("div > p"@)),
            r is Err ==> r == Err::<Bing, EngineError>(EngineError::ConfigurationError),
            r matches Ok(e) ==> e@ == bing_selectors(),
    {
        match ResultParser::new("#b_results", "li.b_algo", "h2 > a", "div > a", "div > p") {
            Ok(parser) => Ok(Bing { parser }),
            Err(e) => Err(e),
        }
    }

    /// The search URL for `query` and the zero-based `page`.
    pub fn search_url(query: &str, page: u32) -> (r: String)
        ensures
            r@ == bing_url(query@, page as nat),
    {
        let mut u: Vec<char> = Vec::new();
        push_str(&mut u, "https://www.bing.com/search?q=");
        push_str(&mut u, query);
        push_str(&mut u, "&pq=");
        push_str(&mut u, query);
        if page >= 1 {
            push_str(&mut u, "&first=");
            push_decimal(&mut u, 10 * (page as u64) + 1);
            push_str(&mut u, "&FORM=PERE");
            if page >= 2 {
                push_decimal(&mut u, (page - 1) as u64);
            }
        }
        string_of(&u)
    }

    /// The request headers; Bing ignores the safe-search level.
    pub fn request_headers(user_agent: &str, accept_language: &str, _safe_search: u8) -> (r: Vec<(String, String)>)
        ensures
            header_views(r@) == bing_headers(user_agent@, accept_language@),
    {
        let mut h = identity("https://www.bing.com", user_agent, accept_language);
        push_header(
            &mut h,
            "Cookie",
            "_C_ETH=1; _EDGE_V=1; _Rwho=u=d; bngps=s=0; _UR=QS=4; ANIMIA=FRE=1; BCP=AD=0&AL=0&SM=0; bngps=s=0; SRCHD=AF=NOFORM; ".to_owned(),
        );
        h
    }

    /// Whether the first no-results match signals an empty page.
    pub fn is_no_results(first: &Option<Node>) -> (r: bool)
        ensures
            r == bing_no_results(opt_node(*first)),
    {
        match first {
            Some(n) => match &n.class {
                Some(c) => str_contains(c.as_str(), "b_algo"),
                None => false,
            },
            None => false,
        }
    }

    /// The destination of a result link: tracking links are decoded.
    pub fn result_link(href: &str) -> (r: String)
        ensures
            r@ == bing_link(href@),
    {
        if starts_with(href, "https://www.bing.com/ck/a?") {
            decode_url(href)
        } else {
            href.to_owned()
        }
    }

    /// The result made of one item; an item whose link has no `href` gives none.
    pub fn map_item(p: &ItemParts) -> (r: Option<SearchResult>)
        ensures
            opt_view(r) == bing_item(p@),
    {
        match &p.link.href {
            Some(h) => Some(SearchResult::new(
                trim(p.title.inner_html.as_str()),
                Bing::result_link(h.as_str()),
                clean(p.description.inner_html.as_str()),
                "bing",
            )),
            None => None,
        }
    }

    /// The results of a fetched page.
    pub fn results_from_html(&self, html: &str) -> (r: Result<Vec<SearchResult>, EngineError>)
        ensures
            outcome_view(r) == page_outcome(EngineKind::Bing, bing_selectors(), html@),
    {
        proof {
            use_type_invariant(self);
        }
        self.parser.extract(EngineKind::Bing, html)
    }
}

} // verus!
