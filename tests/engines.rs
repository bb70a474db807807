use search_engines::bing::Bing;
use search_engines::brave::Brave;
use search_engines::dom::{complete, ItemParts, Node, Page};
use search_engines::duckduckgo::DuckDuckGo;
use search_engines::librex::LibreX;
use search_engines::link::decode_url;
use search_engines::parser::{collect_results, settle, EngineKind, ResultParser};
use search_engines::result::{EngineError, SearchResult};
use search_engines::startpage::Startpage;
use search_engines::text::clean;

fn node(inner_html: &str, text: &str, href: Option<&str>, class: Option<&str>) -> Node {
    Node {
        inner_html: inner_html.to_string(),
        text: text.to_string(),
        href: href.map(|h| h.to_string()),
        class: class.map(|c| c.to_string()),
    }
}

fn parts(title: Node, link: Node, description: Node) -> ItemParts {
    ItemParts { title, link, description }
}

fn header<'a>(h: &'a [(String, String)], name: &str) -> Option<&'a str> {
    h.iter().find(|(k, _)| k == name).map(|(_, v)| v.as_str())
}

fn triple(r: &SearchResult) -> (&str, &str, &str) {
    (r.title.as_str(), r.url.as_str(), r.description.as_str())
}

#[test]
fn duckduckgo_first_page_url() {
    let url = DuckDuckGo::search_url("rust", 0);
    assert!(url.contains("q=rust&s=&dc=&v=1&o=json&api=/d.js"));
    assert_eq!(url, "https://html.duckduckgo.com/html/?q=rust&s=&dc=&v=1&o=json&api=/d.js");
}

#[test]
fn duckduckgo_later_page_url() {
    assert_eq!(
        DuckDuckGo::search_url("rust", 2),
        "https://html.duckduckgo.com/html/?q=rust&s=60&dc=61&v=1&o=json&api=/d.js"
    );
}

#[test]
fn duckduckgo_fixture_result() {
    let engine = DuckDuckGo::new().unwrap();
    let html = r#"<html><body><div class="results"><div class="result">
        <h2 class="result__title"><a class="result__a"> Example </a></h2>
        <a class="result__url"> example.com/x </a>
        <a class="result__snippet">An example page</a>
        </div></div></body></html>"#;
    let r = engine.results_from_html(html).unwrap();
    assert_eq!(r.len(), 1);
    assert_eq!(triple(&r[0]), ("Example", "https://example.com/x", "An example page"));
    assert_eq!(r[0].engines, vec!["duckduckgo".to_string()]);
}

#[test]
fn duckduckgo_no_results_wins_over_items() {
    let engine = DuckDuckGo::new().unwrap();
    let html = r#"<html><body><div class="no-results">No results.</div>
        <div class="results"><div class="result">
        <h2 class="result__title"><a class="result__a">T</a></h2>
        <a class="result__url">example.com</a><a class="result__snippet">S</a>
        </div></div></body></html>"#;
    assert_eq!(engine.results_from_html(html).unwrap_err(), EngineError::EmptyResultSet);
}

#[test]
fn empty_page_gives_empty_list() {
    let html = "<html><body><p>nothing here</p></body></html>";
    assert!(Bing::new().unwrap().results_from_html(html).unwrap().is_empty());
    assert!(Brave::new().unwrap().results_from_html(html).unwrap().is_empty());
    assert!(DuckDuckGo::new().unwrap().results_from_html(html).unwrap().is_empty());
    assert!(LibreX::new().unwrap().results_from_html(html).unwrap().is_empty());
    assert!(Startpage::new().unwrap().results_from_html(html).unwrap().is_empty());
}

#[test]
fn incomplete_item_is_skipped() {
    let engine = DuckDuckGo::new().unwrap();
    let html = r#"<html><body><div class="results">
        <div class="result"><h2 class="result__title"><a class="result__a">A</a></h2>
        <a class="result__url">a.com</a></div>
        <div class="result"><h2 class="result__title"><a class="result__a">B</a></h2>
        <a class="result__url">b.com</a><a class="result__snippet">b</a></div>
        </div></body></html>"#;
    let r = engine.results_from_html(html).unwrap();
    assert_eq!(r.len(), 1);
    assert_eq!(triple(&r[0]), ("B", "https://b.com", "b"));
}

#[test]
fn bing_tracking_link_decodes() {
    let link = "https://www.bing.com/ck/a?!&&p=abc&u=a1aHR0cHM6Ly9leGFtcGxlLmNvbQ&ntb=1";
    assert_eq!(decode_url(link), "https://example.com");
    assert_eq!(Bing::result_link(link), "https://example.com");
}

#[test]
fn bing_link_without_payload_is_unchanged() {
    let link = "https://www.bing.com/ck/a?!&&p=abc&ntb=1";
    assert_eq!(decode_url(link), link);
    assert_eq!(Bing::result_link("https://example.org/&u=a1aHR0cHM6Ly9leGFtcGxlLmNvbQ"),
        "https://example.org/&u=a1aHR0cHM6Ly9leGFtcGxlLmNvbQ");
}

#[test]
fn bing_malformed_payload_is_unchanged() {
    let link = "https://www.bing.com/ck/a?!&u=a1!!!&ntb=1";
    assert_eq!(decode_url(link), link);
    let link = "https://www.bing.com/ck/a?!&u=a1_w&ntb=1";
    assert_eq!(decode_url(link), link);
}

#[test]
fn bing_marker_followed_by_ampersand_is_passed_over() {
    let link = "https://www.bing.com/ck/a?&u=a1&x=1&u=a1aHR0cHM6Ly9leGFtcGxlLmNvbQ";
    assert_eq!(decode_url(link), "https://example.com");
}

#[test]
fn bing_fixture_result() {
    let engine = Bing::new().unwrap();
    let html = r#"<html><body><ol id="b_results"><li class="b_algo">
        <h2><a href="https://www.bing.com/ck/a?!&amp;&amp;p=1&amp;u=a1aHR0cHM6Ly9leGFtcGxlLmNvbQ&amp;ntb=1">Example</a></h2>
        <div><a href="https://example.com">example.com</a></div>
        <div><p><span class="news_dt">Jan 1, 2024</span>&nbsp;·&nbsp;About examples</p></div>
        </li></ol></body></html>"#;
    let r = engine.results_from_html(html).unwrap();
    assert_eq!(r.len(), 1);
    assert_eq!(r[0].title, "Example");
    assert_eq!(r[0].url, "https://example.com");
    assert_eq!(r[0].engines, vec!["bing".to_string()]);
}

#[test]
fn bing_no_results_needs_result_class() {
    let engine = Bing::new().unwrap();
    let empty = r#"<html><body><ol id="b_results" class="b_algo"></ol></body></html>"#;
    assert_eq!(engine.results_from_html(empty).unwrap_err(), EngineError::EmptyResultSet);
    let other = r#"<html><body><ol id="b_results" class="b_other"></ol></body></html>"#;
    assert!(engine.results_from_html(other).unwrap().is_empty());
}

#[test]
fn bing_urls() {
    assert_eq!(Bing::search_url("rust", 0), "https://www.bing.com/search?q=rust&pq=rust");
    assert_eq!(Bing::search_url("rust", 1), "https://www.bing.com/search?q=rust&pq=rust&first=11&FORM=PERE");
    assert_eq!(Bing::search_url("rust", 3), "https://www.bing.com/search?q=rust&pq=rust&first=31&FORM=PERE2");
}

#[test]
fn bing_largest_page_does_not_overflow() {
    assert_eq!(
        Bing::search_url("q", u32::MAX),
        "https://www.bing.com/search?q=q&pq=q&first=42949672951&FORM=PERE4294967294"
    );
}

#[test]
fn bing_headers() {
    let h = Bing::request_headers("ua", "en-US", 2);
    assert_eq!(h.len(), 5);
    assert_eq!(header(&h, "User-Agent"), Some("ua"));
    assert_eq!(header(&h, "Accept-Language"), Some("en-US"));
    assert_eq!(header(&h, "Referer"), Some("https://www.bing.com/"));
    assert_eq!(header(&h, "Origin"), Some("https://www.bing.com"));
    assert_eq!(
        header(&h, "Cookie"),
        Some("_C_ETH=1; _EDGE_V=1; _Rwho=u=d; bngps=s=0; _UR=QS=4; ANIMIA=FRE=1; BCP=AD=0&AL=0&SM=0; bngps=s=0; SRCHD=AF=NOFORM; ")
    );
}

#[test]
fn brave_safe_search_cookie() {
    assert_eq!(header(&Brave::request_headers("ua", "en", 0), "Cookie"), Some("safe_search=off"));
    assert_eq!(header(&Brave::request_headers("ua", "en", 1), "Cookie"), Some("safe_search=moderate"));
    assert_eq!(header(&Brave::request_headers("ua", "en", 2), "Cookie"), Some("safe_search=strict"));
    assert_eq!(header(&Brave::request_headers("ua", "en", 255), "Cookie"), Some("safe_search=strict"));
}

#[test]
fn brave_url_and_headers() {
    assert_eq!(Brave::search_url("rust lang", 4), "https://search.brave.com/search?q=rust lang&offset=4");
    let h = Brave::request_headers("ua", "en", 0);
    assert_eq!(h.len(), 7);
    assert_eq!(header(&h, "Content-Type"), Some("application/x-www-form-urlencoded"));
    assert_eq!(header(&h, "Sec-GPC"), Some("1"));
    assert_eq!(header(&h, "Referer"), Some("https://search.brave.com/"));
}

#[test]
fn brave_fixture_and_no_results() {
    let engine = Brave::new().unwrap();
    let html = r#"<html><body><div id="results"><div data-pos="0">
        <a href=" https://example.com/a "><div class="url">Ex<b>ample</b> </div></a>
        <div class="snippet-description">Desc</div></div></div></body></html>"#;
    let r = engine.results_from_html(html).unwrap();
    assert_eq!(r.len(), 1);
    assert_eq!(triple(&r[0]), ("Example", "https://example.com/a", "Desc"));
    let empty = r#"<html><body><div id="results"><h4>Not many great matches came back for your search</h4></div></body></html>"#;
    assert_eq!(engine.results_from_html(empty).unwrap_err(), EngineError::EmptyResultSet);
    let heading = r#"<html><body><div id="results"><h4>Other heading</h4></div></body></html>"#;
    assert!(engine.results_from_html(heading).unwrap().is_empty());
}

#[test]
fn librex_url_and_cookie() {
    assert_eq!(LibreX::search_url("rust", 3), "https://search.ahwx.org/search.php?q=rust&p=30&t=10");
    assert_eq!(
        LibreX::cookie(0),
        "preferences=theme=amoled, disable_special=on, disable_frontends=on, language=en, number_of_results=20, safe_search=off, save=1"
    );
    assert!(LibreX::cookie(1).contains("safe_search=on, save=1"));
    let h = LibreX::request_headers("ua", "en", 2);
    assert_eq!(h.len(), 7);
    assert_eq!(header(&h, "Cookie"), Some(LibreX::cookie(2).as_str()));
}

#[test]
fn librex_fixture() {
    let engine = LibreX::new().unwrap();
    let html = r#"<html><body><div class="text-result-container">
        <div class="text-result-wrapper"><a href="https://example.com/l"><h2> Lib </h2></a><span> text </span></div>
        <div class="text-result-wrapper"><a><h2>No link</h2></a><span>x</span></div>
        </div></body></html>"#;
    let r = engine.results_from_html(html).unwrap();
    assert_eq!(r.len(), 1);
    assert_eq!(triple(&r[0]), ("Lib", "https://example.com/l", "text"));
    let empty = r#"<html><body><div class="text-result-container"><p>No results</p></div></body></html>"#;
    assert_eq!(engine.results_from_html(empty).unwrap_err(), EngineError::EmptyResultSet);
}

#[test]
fn startpage_urls_and_cookie() {
    assert_eq!(
        Startpage::search_url("rust", 0),
        "https://www.startpage.com/sp/search?query=rust&abp=1&t=device&lui=english&cat=web"
    );
    assert_eq!(
        Startpage::search_url("rust", 1),
        "https://www.startpage.com/sp/search?lui=english&language=english&query=rust&cat=web&t=device&segment=startpage.udog&page=2"
    );
    assert!(Startpage::cookie(0).starts_with("preferences=date_timeEEEworldN1Ndisable_family_filterEEE1N1N"));
    assert!(Startpage::cookie(1).starts_with("preferences=date_timeEEEworldN1Ndisable_family_filterEEE0N1N"));
    assert!(Startpage::cookie(1).ends_with("N1Nwt_unitEEEcelsius"));
    assert_eq!(Startpage::cookie(1).split("N1N").count(), 14);
    let h = Startpage::request_headers("ua", "en", 0);
    assert_eq!(h.len(), 6);
    assert_eq!(header(&h, "Content-Type"), None);
}

#[test]
fn startpage_fixture() {
    let engine = Startpage::new().unwrap();
    let html = r#"<html><body><div class="w-gl"><div class="result">
        <a class="result-title" href="https://example.com/s"><h2>Start</h2></a>
        <p class="description">About it</p></div></div></body></html>"#;
    let r = engine.results_from_html(html).unwrap();
    assert_eq!(r.len(), 1);
    assert_eq!(triple(&r[0]), ("Start", "https://example.com/s", "About it"));
    assert_eq!(r[0].engines, vec!["startpage".to_string()]);
}

#[test]
fn url_is_same_for_same_inputs() {
    assert_eq!(Bing::search_url("a", 5), Bing::search_url("a", 5));
    assert_eq!(Brave::search_url("a", 5), Brave::search_url("a", 5));
    assert_eq!(DuckDuckGo::search_url("a", 5), DuckDuckGo::search_url("a", 5));
    assert_eq!(LibreX::search_url("a", 5), LibreX::search_url("a", 5));
    assert_eq!(Startpage::search_url("a", 5), Startpage::search_url("a", 5));
}

#[test]
fn description_cleanup() {
    assert_eq!(clean("<span class=\"news_dt\">Jan 1</span>&nbsp;\u{b7}&nbsp;Text"), "&nbsp;Text");
    assert_eq!(clean("<span>Jan 1</span> Text "), "Text");
    assert_eq!(clean("  plain text  "), "plain text");
    assert_eq!(clean("text <span>x</span>"), "text <span>x</span>");
    assert_eq!(clean("<span unclosed"), "<span unclosed");
}

#[test]
fn description_cleanup_twice_is_once() {
    let once = clean("<span>d</span>&nbsp;\u{b7} body");
    assert_eq!(clean(&once), once);
}

#[test]
fn invalid_selector_is_configuration_error() {
    let r = ResultParser::new("[[", "a", "b", "c", "d");
    assert!(matches!(r, Err(EngineError::ConfigurationError)));
    assert!(ResultParser::new("a", "b", "c", "d", "e").is_ok());
}

#[test]
fn collect_keeps_order_and_skips() {
    let items = vec![
        Some(parts(node(" One ", "", None, None), node("", "", Some("https://1.example"), None), node("d1", "", None, None))),
        None,
        Some(parts(node("Two", "", None, None), node("", "", None, None), node("d2", "", None, None))),
        Some(parts(node("Three", "", None, None), node("", "", Some("https://3.example"), None), node(" d3 ", "", None, None))),
    ];
    let r = collect_results(EngineKind::LibreX, &items);
    assert_eq!(r.len(), 2);
    assert_eq!(triple(&r[0]), ("One", "https://1.example", "d1"));
    assert_eq!(triple(&r[1]), ("Three", "https://3.example", "d3"));
    assert_eq!(r[1].engines, vec!["librex".to_string()]);
}

#[test]
fn settle_prefers_no_results() {
    let items = vec![Some(parts(node("T", "", None, None), node("x.com", "", None, None), node("d", "", None, None)))];
    let first = Some(node("", "", None, None));
    assert_eq!(settle(EngineKind::DuckDuckGo, &first, &items).unwrap_err(), EngineError::EmptyResultSet);
    let r = settle(EngineKind::DuckDuckGo, &None, &items).unwrap();
    assert_eq!(triple(&r[0]), ("T", "https://x.com", "d"));
    let brave_first = Some(node("Something else", "", None, None));
    assert!(settle(EngineKind::Brave, &brave_first, &Vec::new()).unwrap().is_empty());
}

#[test]
fn bing_map_item_decodes_and_cleans() {
    let p = parts(
        node(" Title ", "", None, None),
        node("", "", Some("https://www.bing.com/ck/a?!&u=a1aHR0cHM6Ly9leGFtcGxlLmNvbQ&n=1"), None),
        node("<span class=\"d\">Mar 3</span>&nbsp;\u{b7} Body", "", None, None),
    );
    let r = Bing::map_item(&p).unwrap();
    assert_eq!(triple(&r), ("Title", "https://example.com", "Body"));
    let q = parts(node("T", "", None, None), node("", "", None, None), node("", "", None, None));
    assert!(Bing::map_item(&q).is_none());
}

#[test]
fn brave_map_item_uses_text() {
    let p = parts(
        node("<b>Bold</b> title", " Bold title ", None, None),
        node("", "", Some(" https://b.example "), None),
        node("desc", "", None, None),
    );
    let r = Brave::map_item(&p).unwrap();
    assert_eq!(triple(&r), ("Bold title", "https://b.example", "desc"));
}

#[test]
fn no_results_predicates() {
    let classed = Some(node("", "", None, Some("x b_algo y")));
    assert!(Bing::is_no_results(&classed));
    assert!(!Bing::is_no_results(&Some(node("", "", None, None))));
    assert!(!Bing::is_no_results(&None));
    assert!(Brave::is_no_results(&Some(node(
        "Sorry. Not many great matches came back for your search.", "", None, None
    ))));
    assert!(!Brave::is_no_results(&None));
}

#[test]
fn span_across_line_break_is_kept() {
    assert_eq!(clean("<span>a\nb</span> x"), "<span>a\nb</span> x");
    assert_eq!(clean("<span\n>a</span> x"), "<span\n>a</span> x");
    assert_eq!(clean("<span>a</span>\n x"), "x");
}

#[test]
fn unicode_white_space_is_trimmed() {
    assert_eq!(clean("\u{a0} x y\u{3000}\n"), "x y");
    assert_eq!(clean("\t\r\n"), "");
}

#[test]
fn parser_reads_page_by_role() {
    let parser = ResultParser::new(".none", ".item", ".t", ".l", ".d").unwrap();
    let page = Page::parse(
        r#"<html><body><div class="none">empty</div>
        <div class="item"><b class="t">T1</b><a class="l" href="h1">L1</a><i class="d">D1</i></div>
        <div class="item"><b class="t">T2</b><i class="d">D2</i></div></body></html>"#,
    );
    let first = parser.detect_no_results(&page).unwrap();
    assert_eq!(first.inner_html, "empty");
    let items = parser.item_parts(&page);
    assert_eq!(items.len(), 2);
    let p = items[0].as_ref().unwrap();
    assert_eq!(p.title.inner_html, "T1");
    assert_eq!(p.link.href.as_deref(), Some("h1"));
    assert_eq!(p.link.class.as_deref(), Some("l"));
    assert_eq!(p.description.text, "D1");
    assert!(items[1].is_none());
    let quiet = Page::parse("<html><body><p>x</p></body></html>");
    assert!(parser.detect_no_results(&quiet).is_none());
    assert!(parser.item_parts(&quiet).is_empty());
}

#[test]
fn complete_needs_all_three_children() {
    let n = |s: &str| Some(node(s, "", None, None));
    let p = complete(n("t"), n("l"), n("d")).unwrap();
    assert_eq!(p.title.inner_html, "t");
    assert_eq!(p.link.inner_html, "l");
    assert_eq!(p.description.inner_html, "d");
    assert!(complete(None, n("l"), n("d")).is_none());
    assert!(complete(n("t"), None, n("d")).is_none());
    assert!(complete(n("t"), n("l"), None).is_none());
}
