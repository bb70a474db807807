//! LibreX: a result offset of ten per page, and the preferences, safe
//! search among them, in a comma-joined cookie.
use vstd::prelude::*;
use crate::dom::{valid_selector, ItemParts, ItemPartsView};
use crate::parser::{outcome_view, page_outcome, EngineKind, ResultParser, SelectorSet};
use crate::request::{
    form_content_type, header_views, identity, identity_headers, privacy_signal, push_header,
};
use crate::result::{opt_view, single, EngineError, SearchResult, SearchResultView};
use crate::text::{clean, clean_description, decimal, push_decimal, push_str, string_of, trim, trimmed};

verus! {

/// The search URL for `query` and the zero-based `page`.
pub open spec fn librex_url(query: Seq<char>, page: nat) -> Seq<char> {
    "https://search.ahwx.org/search.php?q="@ + query + "&p="@ + decimal(10 * page) + "&t=10"@
}

/// The safe-search setting: `off` for level 0, `on` otherwise.
pub open spec fn librex_level(safe_search: u8) -> Seq<char> {
    if safe_search == 0 {
        "off"@
    } else {
        "on"@
    }
}

/// The preferences cookie.
pub open spec fn librex_cookie(safe_search: u8) -> Seq<char> {
    "preferences=theme=amoled, disable_special=on, disable_frontends=on, language=en, number_of_results=20, safe_search="@
        + librex_level(safe_search) + ", save=1"@
}

/// The request headers.
pub open spec fn librex_headers(user_agent: Seq<char>, accept_language: Seq<char>, safe_search: u8) -> Seq<(Seq<char>, Seq<char>)> {
    identity_headers("https://search.ahwx.org"@, user_agent, accept_language)
        .push(form_content_type())
        .push(privacy_signal())
        .push(("Cookie"@, librex_cookie(safe_search)))
}

/// The result made of one item; an item whose link has no `href` gives none.
pub open spec fn librex_item(p: ItemPartsView) -> Option<SearchResultView> {
    match p.link.href {
        Some(h) => Some(single(trimmed(p.title.inner_html), h, clean_description(p.description.inner_html), "librex"@)),
        None => None,
    }
}

/// Scrapes results from a LibreX instance.
pub struct LibreX {
    parser: ResultParser,
}

/// The selectors, by role.
pub open spec fn librex_selectors() -> SelectorSet {
    SelectorSet {
        no_results: ".text-result-container>p"@,
        item: ".text-result-container>.text-result-wrapper"@,
        title: "a>h2"@,
        link: "a"@,
        description: "span"@,
    }
}

impl View for LibreX {
    type V = SelectorSet;

    /// The engine's selector texts.
    closed spec fn view(&self) -> SelectorSet {
        self.parser@
    }
}

impl LibreX {
    /// The engine always uses its own selectors.
    #[verifier::type_invariant]
    spec fn selectors_fixed(&self) -> bool {
        self.parser@ == librex_selectors()
    }
}

impl LibreX {
    /// Creates the engine with its selectors.
    pub fn new() -> (r: Result<LibreX, EngineError>)
        ensures
            r is Ok <==> (valid_selector(".text-result-container>p"@)
                && valid_selector(".text-result-container>.text-result-wrapper"@)
                && valid_selector("a>h2"@) && valid_selector("a"@) && valid_selector("span"@)),
            r is Err ==> r == Err::<LibreX, EngineError>(EngineError::ConfigurationError),
            r matches Ok(e) ==> e@ == librex_selectors(),
    {
        match ResultParser::new(
            ".text-result-container>p",
            ".text-result-container>.text-result-wrapper",
            "a>h2",
            "a",
            "span",
        ) {
            Ok(parser) => Ok(LibreX { parser }),
            Err(e) => Err(e),
        }
    }

    /// The search URL for `query` and the zero-based `page`.
    pub fn search_url(query: &str, page: u32) -> (r: String)
        ensures
            r@ == librex_url(query@, page as nat),
    {
        let mut u: Vec<char> = Vec::new();
        push_str(&mut u, "https://search.ahwx.org/search.php?q=");
        push_str(&mut u, query);
        push_str(&mut u, "&p=");
        push_decimal(&mut u, 10 * (page as u64));
        push_str(&mut u, "&t=10");
        string_of(&u)
    }

    /// The preferences cookie.
    pub fn cookie(safe_search: u8) -> (r: String)
        ensures
            r@ == librex_cookie(safe_search),
    {
        let mut c: Vec<char> = Vec::new();
        push_str(
            &mut c,
            "preferences=theme=amoled, disable_special=on, disable_frontends=on, language=en, number_of_results=20, safe_search=",
        );
        if safe_search == 0 {
            push_str(&mut c, "off");
        } else {
            push_str(&mut c, "on");
        }
        push_str(&mut c, ", save=1");
        string_of(&c)
    }

    /// The request headers.
    pub fn request_headers(user_agent: &str, accept_language: &str, safe_search: u8) -> (r: Vec<(String, String)>)
        ensures
            header_views(r@) == librex_headers(user_agent@, accept_language@, safe_search),
    {
        let mut h = identity("https://search.ahwx.org", user_agent, accept_language);
        push_header(&mut h, "Content-Type", "application/x-www-form-urlencoded".to_owned());
        push_header(&mut h, "Sec-GPC", "1".to_owned());
        push_header(&mut h, "Cookie", LibreX::cookie(safe_search));
        h
    }

    /// The result made of one item; an item whose link has no `href` gives none.
    pub fn map_item(p: &ItemParts) -> (r: Option<SearchResult>)
        ensures
            opt_view(r) == librex_item(p@),
    {
        match &p.link.href {
            Some(h) => Some(SearchResult::new(
                trim(p.title.inner_html.as_str()),
                h.clone(),
                clean(p.description.inner_html.as_str()),
                "librex",
            )),
            None => None,
        }
    }

    /// The results of a fetched page.
    pub fn results_from_html(&self, html: &str) -> (r: Result<Vec<SearchResult>, EngineError>)
        ensures
            outcome_view(r) == page_outcome(EngineKind::LibreX, librex_selectors(), html@),
    {
        proof {
            use_type_invariant(self);
        }
        self.parser.extract(EngineKind::LibreX, html)
    }
}

} // verus!
