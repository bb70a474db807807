//! The HTML document and CSS selectors of `scraper`, and the plain values
//! that the engines read from matched elements.
use vstd::prelude::*;
use scraper::{ElementRef, Html, Selector};

verus! {

#[verifier::external_type_specification]
#[verifier::external_body]
pub struct ExHtml(Html);

#[verifier::external_type_specification]
#[verifier::external_body]
pub struct ExSelector(Selector);

#[verifier::external_type_specification]
#[verifier::external_body]
pub struct ExElementRef<'a>(ElementRef<'a>);

/// Whether `scraper::Selector::parse` accepts `s`.
pub uninterp spec fn valid_selector(s: Seq<char>) -> bool;

/// Relies on `scraper::Selector::parse`, whose success depends on the text alone.
#[verifier::external_body]
fn compile_selector(s: &str) -> (r: Option<Selector>)
    ensures
        r is Some <==> valid_selector(s@),
{
    Selector::parse(s).ok()
}

/// Relies on `scraper::Html::parse_document`, which accepts any text.
#[verifier::external_body]
fn parse_document(html: &str) -> (r: Html) {
    Html::parse_document(html)
}

/// A parsed page, together with the text it was parsed from. Only
/// [`Page::parse`] makes one, so the document is always the parse of the text.
pub struct Page {
    doc: Html,
    text: String,
}

impl View for Page {
    type V = Seq<char>;

    /// The text the page was parsed from.
    closed spec fn view(&self) -> Seq<char> {
        self.text@
    }
}

impl Page {
    /// Parses `html` into a page.
    pub fn parse(html: &str) -> (r: Page)
        ensures
            r@ == html@,
    {
        Page { doc: parse_document(html), text: html.to_owned() }
    }
}

/// A compiled selector, together with its text. Only [`CompiledSelector::compile`]
/// makes one, so the selector is always the compilation of the text.
pub struct CompiledSelector {
    sel: Selector,
    text: String,
}

impl View for CompiledSelector {
    type V = Seq<char>;

    /// The selector's text.
    closed spec fn view(&self) -> Seq<char> {
        self.text@
    }
}

impl CompiledSelector {
    /// Compiles `s`; `None` where it is not a valid selector.
    pub fn compile(s: &str) -> (r: Option<CompiledSelector>)
        ensures
            r is Some <==> valid_selector(s@),
            r matches Some(c) ==> c@ == s@,
    {
        match compile_selector(s) {
            Some(sel) => Some(CompiledSelector { sel, text: s.to_owned() }),
            None => None,
        }
    }
}

/// What [`read_node`] makes of the first element of the page `page` that
/// matches the selector `sel`, if any (`Html::select`, first item).
pub uninterp spec fn first_match(page: Seq<char>, sel: Seq<char>) -> Option<NodeView>;

/// For each element of the page `page` that matches `item`, in the order
/// `Html::select` yields them, what [`first_child`] reads for each of the
/// three child selectors.
pub uninterp spec fn item_children(
    page: Seq<char>,
    item: Seq<char>,
    title: Seq<char>,
    link: Seq<char>,
    description: Seq<char>,
) -> Seq<Children>;

/// The first matches of the title, link and description selectors inside one
/// result item, each `None` where its selector matches nothing there.
pub type Children = (Option<NodeView>, Option<NodeView>, Option<NodeView>);

/// The view of a container's child matches.
pub open spec fn children_view(c: (Option<Node>, Option<Node>, Option<Node>)) -> Children {
    (opt_node(c.0), opt_node(c.1), opt_node(c.2))
}

/// The views of the child matches of a sequence of containers.
pub open spec fn children_views(s: Seq<(Option<Node>, Option<Node>, Option<Node>)>) -> Seq<Children> {
    s.map_values(|c: (Option<Node>, Option<Node>, Option<Node>)| children_view(c))
}

/// Relies on `scraper::Html::select`: the first matching element, read by
/// [`read_node`]. The document and the selector are the parses of `page@` and
/// `sel@`, so the result depends on those texts alone.
#[verifier::external_body]
pub(crate) fn first_node(page: &Page, sel: &CompiledSelector) -> (r: Option<Node>)
    ensures
        opt_node(r) == first_match(page@, sel@),
{
    page.doc.select(&sel.sel).next().map(|e| read_node(&e))
}

/// Relies on `scraper::Html::select`: every matching element, with the first
/// match of each child selector inside it read by [`first_child`]. The
/// document and the selectors are the parses of the texts, so the result
/// depends on those texts alone.
#[verifier::external_body]
pub(crate) fn item_nodes(
    page: &Page,
    item: &CompiledSelector,
    title: &CompiledSelector,
    link: &CompiledSelector,
    description: &CompiledSelector,
) -> (r: Vec<(Option<Node>, Option<Node>, Option<Node>)>)
    ensures
        children_views(r@) == item_children(page@, item@, title@, link@, description@),
{
    page.doc.select(&item.sel).map(
        |c| (first_child(&c, title), first_child(&c, link), first_child(&c, description)),
    ).collect()
}

/// Relies on `scraper::ElementRef::select`: the first descendant that matches.
#[verifier::external_body]
fn select_first<'a>(e: &ElementRef<'a>, sel: &Selector) -> (r: Option<ElementRef<'a>>) {
    e.select(sel).next()
}

/// What the first descendant of `c` that matches `sel` holds, if any.
pub(crate) fn first_child(c: &ElementRef, sel: &CompiledSelector) -> (r: Option<Node>) {
    match select_first(c, &sel.sel) {
        Some(e) => Some(read_node(&e)),
        None => None,
    }
}

/// An item is complete when all three of its child selectors matched.
pub open spec fn complete_spec(c: Children) -> Option<ItemPartsView> {
    match c {
        (Some(title), Some(link), Some(description)) => Some(ItemPartsView { title, link, description }),
        _ => None,
    }
}

/// The three child elements of a result item, or `None` where any of them is
/// missing.
pub fn complete(title: Option<Node>, link: Option<Node>, description: Option<Node>) -> (r: Option<ItemParts>)
    ensures
        opt_parts(r) == complete_spec((opt_node(title), opt_node(link), opt_node(description))),
        r is Some <==> (title is Some && link is Some && description is Some),
{
    match (title, link, description) {
        (Some(title), Some(link), Some(description)) => Some(ItemParts { title, link, description }),
        _ => None,
    }
}

/// Relies on `scraper::ElementRef::inner_html`.
#[verifier::external_body]
fn inner_html_of(e: &ElementRef) -> (r: String) {
    e.inner_html()
}

/// Relies on `scraper::ElementRef::text`: the element's text nodes, joined.
#[verifier::external_body]
fn text_of(e: &ElementRef) -> (r: String) {
    e.text().collect()
}

/// Relies on `scraper::ElementRef::attr`: the value of the named attribute.
#[verifier::external_body]
fn attr_of(e: &ElementRef, name: &str) -> (r: Option<String>) {
    e.attr(name).map(|v| v.to_string())
}

/// What the engines read from a matched element.
#[derive(Debug, Clone)]
pub struct Node {
    /// The element's inner markup.
    pub inner_html: String,
    /// The element's text, without markup.
    pub text: String,
    /// The `href` attribute, if present.
    pub href: Option<String>,
    /// The `class` attribute, if present.
    pub class: Option<String>,
}

/// The mathematical value of a [`Node`].
pub struct NodeView {
    pub inner_html: Seq<char>,
    pub text: Seq<char>,
    pub href: Option<Seq<char>>,
    pub class: Option<Seq<char>>,
}

/// The view of an optional string.
pub open spec fn opt_str(o: Option<String>) -> Option<Seq<char>> {
    match o {
        Some(s) => Some(s@),
        None => None,
    }
}

impl View for Node {
    type V = NodeView;

    open spec fn view(&self) -> NodeView {
        NodeView {
            inner_html: self.inner_html@,
            text: self.text@,
            href: opt_str(self.href),
            class: opt_str(self.class),
        }
    }
}

/// The view of an optional node.
pub open spec fn opt_node(o: Option<Node>) -> Option<NodeView> {
    match o {
        Some(n) => Some(n@),
        None => None,
    }
}

/// Reads what the engines need from a matched element.
pub(crate) fn read_node(e: &ElementRef) -> (r: Node) {
    Node {
        inner_html: inner_html_of(e),
        text: text_of(e),
        href: attr_of(e, "href"),
        class: attr_of(e, "class"),
    }
}

/// The view of an optional item.
pub open spec fn opt_parts(o: Option<ItemParts>) -> Option<ItemPartsView> {
    match o {
        Some(p) => Some(p@),
        None => None,
    }
}

/// The views of a sequence of optional items.
pub open spec fn parts_views(s: Seq<Option<ItemParts>>) -> Seq<Option<ItemPartsView>> {
    s.map_values(|o: Option<ItemParts>| opt_parts(o))
}

/// The title, link and description elements found inside one result item.
#[derive(Debug, Clone)]
pub struct ItemParts {
    pub title: Node,
    pub link: Node,
    pub description: Node,
}

/// The mathematical value of an [`ItemParts`].
pub struct ItemPartsView {
    pub title: NodeView,
    pub link: NodeView,
    pub description: NodeView,
}

impl View for ItemParts {
    type V = ItemPartsView;

    open spec fn view(&self) -> ItemPartsView {
        ItemPartsView { title: self.title@, link: self.link@, description: self.description@ }
    }
}

} // verus!
