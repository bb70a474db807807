//! Startpage: the page-index scheme (`page` is one-based upstream), with the
//! preferences in a structured cookie whose fields are joined by `N1N` and
//! whose names and values are separated by `EEE`.
use vstd::prelude::*;
use crate::dom::{valid_selector, ItemParts, ItemPartsView};
use crate::parser::{outcome_view, page_outcome, EngineKind, ResultParser, SelectorSet};
use crate::request::{header_views, identity, identity_headers, privacy_signal, push_header};
use crate::result::{opt_view, single, EngineError, SearchResult, SearchResultView};
use crate::text::{clean, clean_description, decimal, push_decimal, push_str, string_of, trim, trimmed};

verus! {

/// The search URL for `query` and the zero-based `page`.
pub open spec fn startpage_url(query: Seq<char>, page: nat) -> Seq<char> {
    if page == 0 {
        "https://www.startpage.com/sp/search?query="@ + query + "&abp=1&t=device&lui=english&cat=web"@
    } else {
        "https://www.startpage.com/sp/search?lui=english&language=english&query="@ + query
            + "&cat=web&t=device&segment=startpage.udog&page="@ + decimal(page + 1)
    }
}

/// The family filter switch: disabled (`1`) for level 0, enabled (`0`) otherwise.
pub open spec fn startpage_level(safe_search: u8) -> Seq<char> {
    if safe_search == 0 {
        "1"@
    } else {
        "0"@
    }
}

/// The preferences cookie.
pub open spec fn startpage_cookie(safe_search: u8) -> Seq<char> {
    "preferences=date_timeEEEworldN1Ndisable_family_filterEEE"@ + startpage_level(safe_search)
        + "N1Ndisable_open_in_new_windowEEE1N1Nenable_post_methodEEE0N1Nenable_proxy_safety_suggestEEE0N1Nenable_stay_controlEEE0N1Ninstant_answersEEE0N1Nlang_homepageEEEs%2Fdevice%2FenN1NlanguageEEEenglishN1Nlanguage_uiEEEenglishN1Nnum_of_resultsEEE20N1Nsearch_results_regionEEEallN1NsuggestionsEEE0N1Nwt_unitEEEcelsius"@
}

/// The request headers.
pub open spec fn startpage_headers(user_agent: Seq<char>, accept_language: Seq<char>, safe_search: u8) -> Seq<(Seq<char>, Seq<char>)> {
    identity_headers("https://www.startpage.com"@, user_agent, accept_language)
        .push(privacy_signal())
        .push(("Cookie"@, startpage_cookie(safe_search)))
}

/// The result made of one item; an item whose link has no `href` gives none.
pub open spec fn startpage_item(p: ItemPartsView) -> Option<SearchResultView> {
    match p.link.href {
        Some(h) => Some(single(trimmed(p.title.inner_html), h, clean_description(p.description.inner_html), "startpage"@)),
        None => None,
    }
}

/// Scrapes results from Startpage.
pub struct Startpage {
    parser: ResultParser,
}

/// The selectors, by role.
pub open spec fn startpage_selectors() -> SelectorSet {
    SelectorSet {
        no_results: ".no-results"@,
        item: ".w-gl>.result"@,
        title: ".result-title>h2"@,
        link: ".result-title"@,
        description: ".description"@,
    }
}

impl View for Startpage {
    type V = SelectorSet;

    /// The engine's selector texts.
    closed spec fn view(&self) -> SelectorSet {
        self.parser@
    }
}

impl Startpage {
    /// The engine always uses its own selectors.
    #[verifier::type_invariant]
    spec fn selectors_fixed(&self) -> bool {
        self.parser@ == startpage_selectors()
    }
}

impl Startpage {
    /// Creates the engine with its selectors.
    pub fn new() -> (r: Result<Startpage, EngineError>)
        ensures
            r is Ok <==> (valid_selector(".no-results"@) && valid_selector(".w-gl>.result"@)
                && valid_selector(".result-title>h2"@) && valid_selector(".result-title"@)
                && valid_selector(".description"@)),
            r is Err ==> r == Err::<Startpage, EngineError>(EngineError::ConfigurationError),
            r matches Ok(e) ==> e@ == startpage_selectors(),
    {
        match ResultParser::new(".no-results", ".w-gl>.result", ".result-title>h2", ".result-title", ".description") {
            Ok(parser) => Ok(Startpage { parser }),
            Err(e) => Err(e),
        }
    }

    /// The search URL for `query` and the zero-based `page`.
    pub fn search_url(query: &str, page: u32) -> (r: String)
        ensures
            r@ == startpage_url(query@, page as nat),
    {
        let mut u: Vec<char> = Vec::new();
        if page == 0 {
            push_str(&mut u, "https://www.startpage.com/sp/search?query=");
            push_str(&mut u, query);
            push_str(&mut u, "&abp=1&t=device&lui=english&cat=web");
        } else {
            push_str(&mut u, "https://www.startpage.com/sp/search?lui=english&language=english&query=");
            push_str(&mut u, query);
            push_str(&mut u, "&cat=web&t=device&segment=startpage.udog&page=");
            push_decimal(&mut u, page as u64 + 1);
        }
        string_of(&u)
    }

    /// The preferences cookie.
    pub fn cookie(safe_search: u8) -> (r: String)
        ensures
            r@ == startpage_cookie(safe_search),
    {
        let mut c: Vec<char> = Vec::new();
        push_str(&mut c, "preferences=date_timeEEEworldN1Ndisable_family_filterEEE");
        if safe_search == 0 {
            push_str(&mut c, "1");
        } else {
            push_str(&mut c, "0");
        }
        push_str(
            &mut c,
            "N1Ndisable_open_in_new_windowEEE1N1Nenable_post_methodEEE0N1Nenable_proxy_safety_suggestEEE0N1Nenable_stay_controlEEE0N1Ninstant_answersEEE0N1Nlang_homepageEEEs%2Fdevice%2FenN1NlanguageEEEenglishN1Nlanguage_uiEEEenglishN1Nnum_of_resultsEEE20N1Nsearch_results_regionEEEallN1NsuggestionsEEE0N1Nwt_unitEEEcelsius",
        );
        string_of(&c)
    }

    /// The request headers.
    pub fn request_headers(user_agent: &str, accept_language: &str, safe_search: u8) -> (r: Vec<(String, String)>)
        ensures
            header_views(r@) == startpage_headers(user_agent@, accept_language@, safe_search),
    {
        let mut h = identity("https://www.startpage.com", user_agent, accept_language);
        push_header(&mut h, "Sec-GPC", "1".to_owned());
        push_header(&mut h, "Cookie", Startpage::cookie(safe_search));
        h
    }

    /// The result made of one item; an item whose link has no `href` gives none.
    pub fn map_item(p: &ItemParts) -> (r: Option<SearchResult>)
        ensures
            opt_view(r) == startpage_item(p@),
    {
        match &p.link.href {
            Some(h) => Some(SearchResult::new(
                trim(p.title.inner_html.as_str()),
                h.clone(),
                clean(p.description.inner_html.as_str()),
                "startpage",
            )),
            None => None,
        }
    }

    /// The results of a fetched page.
    pub fn results_from_html(&self, html: &str) -> (r: Result<Vec<SearchResult>, EngineError>)
        ensures
            outcome_view(r) == page_outcome(EngineKind::Startpage, startpage_selectors(), html@),
    {
        proof {
            use_type_invariant(self);
        }
        self.parser.extract(EngineKind::Startpage, html)
    }
}

} // verus!
