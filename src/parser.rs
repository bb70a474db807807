//! The selector-driven result parser shared by all engines: it finds the
//! no-results marker and, inside each result item, the title, link and
//! description elements, and hands each complete item to the engine's mapping.
use vstd::prelude::*;
use crate::dom::{
    complete, complete_spec, children_views, first_match, first_node, item_children, item_nodes, Children, opt_node, parts_views, valid_selector,
    CompiledSelector, ItemParts, ItemPartsView, Node, NodeView, Page,
};
use crate::result::{opt_view, views, EngineError, SearchResult, SearchResultView};
use crate::{bing, brave, duckduckgo, librex, startpage};

verus! {

/// The engines that this library scrapes.
#[derive(PartialEq, Eq, Structural, Clone, Copy, Debug)]
pub enum EngineKind {
    Bing,
    Brave,
    DuckDuckGo,
    LibreX,
    Startpage,
}

/// Whether the first no-results match signals that the engine found nothing.
pub open spec fn no_results_spec(kind: EngineKind, first: Option<NodeView>) -> bool {
    match kind {
        EngineKind::Bing => bing::bing_no_results(first),
        EngineKind::Brave => brave::brave_no_results(first),
        _ => first is Some,
    }
}

/// The result that an engine makes of one complete item, if any.
pub open spec fn item_spec(kind: EngineKind, p: ItemPartsView) -> Option<SearchResultView> {
    match kind {
        EngineKind::Bing => bing::bing_item(p),
        EngineKind::Brave => brave::brave_item(p),
        EngineKind::DuckDuckGo => duckduckgo::duckduckgo_item(p),
        EngineKind::LibreX => librex::librex_item(p),
        EngineKind::Startpage => startpage::startpage_item(p),
    }
}

/// The results made of a sequence of items, in order: an incomplete item
/// (`None`) and an item that the engine's mapping rejects give nothing.
pub open spec fn results_of(items: Seq<Option<ItemPartsView>>, kind: EngineKind) -> Seq<SearchResultView>
    decreases items.len(),
{
    if items.len() == 0 {
        Seq::empty()
    } else {
        let prev = results_of(items.drop_last(), kind);
        match items.last() {
            Some(p) => match item_spec(kind, p) {
                Some(r) => prev.push(r),
                None => prev,
            },
            None => prev,
        }
    }
}

/// What a page yields: the empty-result error where the no-results signal
/// holds, whatever items are present; the items' results otherwise.
pub open spec fn outcome(kind: EngineKind, first: Option<NodeView>, items: Seq<Option<ItemPartsView>>) -> Result<Seq<SearchResultView>, EngineError> {
    if no_results_spec(kind, first) {
        Err(EngineError::EmptyResultSet)
    } else {
        Ok(results_of(items, kind))
    }
}

/// The view of an engine call's result.
pub open spec fn outcome_view(r: Result<Vec<SearchResult>, EngineError>) -> Result<Seq<SearchResultView>, EngineError> {
    match r {
        Ok(v) => Ok(views(v@)),
        Err(e) => Err(e),
    }
}

/// Whether the first no-results match signals that the engine found nothing.
pub fn is_no_results(kind: EngineKind, first: &Option<Node>) -> (r: bool)
    ensures
        r == no_results_spec(kind, opt_node(*first)),
{
    match kind {
        EngineKind::Bing => bing::Bing::is_no_results(first),
        EngineKind::Brave => brave::Brave::is_no_results(first),
        _ => first.is_some(),
    }
}

/// The result that an engine makes of one complete item, if any.
pub fn map_item(kind: EngineKind, p: &ItemParts) -> (r: Option<SearchResult>)
    ensures
        opt_view(r) == item_spec(kind, p@),
{
    match kind {
        EngineKind::Bing => bing::Bing::map_item(p),
        EngineKind::Brave => brave::Brave::map_item(p),
        EngineKind::DuckDuckGo => duckduckgo::DuckDuckGo::map_item(p),
        EngineKind::LibreX => librex::LibreX::map_item(p),
        EngineKind::Startpage => startpage::Startpage::map_item(p),
    }
}

/// The results of the complete items, in order.
pub fn collect_results(kind: EngineKind, items: &Vec<Option<ItemParts>>) -> (r: Vec<SearchResult>)
    ensures
        views(r@) == results_of(parts_views(items@), kind),
{
    let mut out: Vec<SearchResult> = Vec::new();
    let mut i: usize = 0;
    while i < items.len()
        invariant
            i <= items.len(),
            views(out@) == results_of(parts_views(items@.subrange(0, i as int)), kind),
        decreases items.len() - i,
    {
        proof {
            assert(parts_views(items@.subrange(0, i + 1)).drop_last() =~= parts_views(
                items@.subrange(0, i as int),
            ));
            assert(parts_views(items@.subrange(0, i + 1)).last() == crate::dom::opt_parts(items@[i as int]));
        }
        match &items[i] {
            Some(p) => match map_item(kind, p) {
                Some(res) => {
                    let ghost before = out@;
                    out.push(res);
                    proof {
                        assert(views(out@) =~= views(before).push(res@));
                    }
                },
                None => {},
            },
            None => {},
        }
        i = i + 1;
    }
    proof {
        assert(items@.subrange(0, i as int) =~= items@);
    }
    out
}

/// Decides a page: the empty-result error where the no-results signal holds,
/// even when result items are present too; the items' results otherwise.
pub fn settle(kind: EngineKind, first: &Option<Node>, items: &Vec<Option<ItemParts>>) -> (r: Result<Vec<SearchResult>, EngineError>)
    ensures
        outcome_view(r) == outcome(kind, opt_node(*first), parts_views(items@)),
{
    if is_no_results(kind, first) {
        Err(EngineError::EmptyResultSet)
    } else {
        Ok(collect_results(kind, items))
    }
}

/// `idx` picks, for each result, the item it was made from: the positions
/// are strictly increasing, so the results come from distinct items in their
/// order, and each picked item is complete and maps to its result.
pub open spec fn made_from(items: Seq<Option<ItemPartsView>>, kind: EngineKind, res: Seq<SearchResultView>, idx: Seq<int>) -> bool {
    &&& idx.len() == res.len()
    &&& forall|k: int| 0 <= k < idx.len() ==> 0 <= #[trigger] idx[k] < items.len()
    &&& forall|k: int| 0 <= k < idx.len() ==> items[#[trigger] idx[k]] is Some
    &&& forall|k: int| 0 <= k < idx.len() ==> item_spec(kind, items[#[trigger] idx[k]]->0) == Some(res[k])
    &&& forall|k1: int, k2: int| 0 <= k1 < k2 < idx.len() ==> #[trigger] idx[k1] < #[trigger] idx[k2]
}

/// Extraction never makes more results than there are items; the results
/// come from distinct items, in the items' order, and each is the engine's
/// mapping of a complete item: an item with a missing title, link or
/// description never yields a result.
pub proof fn lemma_results_from_items(items: Seq<Option<ItemPartsView>>, kind: EngineKind) -> (idx: Seq<int>)
    ensures
        results_of(items, kind).len() <= items.len(),
        made_from(items, kind, results_of(items, kind), idx),
    decreases items.len(),
{
    if items.len() == 0 {
        Seq::empty()
    } else {
        let prev = items.drop_last();
        let pidx = lemma_results_from_items(prev, kind);
        let j = items.len() - 1;
        let grows = match items.last() {
            Some(p) => item_spec(kind, p) is Some,
            None => false,
        };
        let idx = if grows { pidx.push(j) } else { pidx };
        let res = results_of(items, kind);
        assert forall|k: int| 0 <= k < pidx.len() implies items[#[trigger] pidx[k]] == prev[pidx[k]] by {}
        assert(made_from(items, kind, res, idx));
        idx
    }
}

/// The number of complete items.
pub open spec fn complete_count(items: Seq<Option<ItemPartsView>>) -> nat
    decreases items.len(),
{
    if items.len() == 0 {
        0
    } else {
        complete_count(items.drop_last()) + if items.last() is Some { 1nat } else { 0nat }
    }
}

/// DuckDuckGo keeps every complete item: it yields exactly one result per
/// complete item.
pub proof fn lemma_duckduckgo_keeps_complete(items: Seq<Option<ItemPartsView>>)
    ensures
        results_of(items, EngineKind::DuckDuckGo).len() == complete_count(items),
    decreases items.len(),
{
    if items.len() > 0 {
        lemma_duckduckgo_keeps_complete(items.drop_last());
    }
}

/// The texts of an engine's five selectors, by role.
pub struct SelectorSet {
    pub no_results: Seq<char>,
    pub item: Seq<char>,
    pub title: Seq<char>,
    pub link: Seq<char>,
    pub description: Seq<char>,
}

/// What the page `html` yields for an engine with the selectors `s`.
pub open spec fn page_outcome(kind: EngineKind, s: SelectorSet, html: Seq<char>) -> Result<Seq<SearchResultView>, EngineError> {
    outcome(
        kind,
        first_match(html, s.no_results),
        item_children(html, s.item, s.title, s.link, s.description).map_values(|c: Children| complete_spec(c)),
    )
}

/// The five selectors of an engine: the no-results marker, the result item,
/// and the title, link and description inside an item.
pub struct ResultParser {
    no_results: CompiledSelector,
    results: CompiledSelector,
    title: CompiledSelector,
    link: CompiledSelector,
    description: CompiledSelector,
}

impl View for ResultParser {
    type V = SelectorSet;

    closed spec fn view(&self) -> SelectorSet {
        SelectorSet {
            no_results: self.no_results@,
            item: self.results@,
            title: self.title@,
            link: self.link@,
            description: self.description@,
        }
    }
}

impl ResultParser {
    /// Compiles the five selectors; fails where any of them is not valid.
    pub fn new(no_results: &str, results: &str, title: &str, link: &str, description: &str) -> (r: Result<ResultParser, EngineError>)
        ensures
            r is Ok <==> (valid_selector(no_results@) && valid_selector(results@) && valid_selector(title@)
                && valid_selector(link@) && valid_selector(description@)),
            r is Err ==> r == Err::<ResultParser, EngineError>(EngineError::ConfigurationError),
            r matches Ok(p) ==> p@ == (SelectorSet {
                no_results: no_results@,
                item: results@,
                title: title@,
                link: link@,
                description: description@,
            }),
    {
        let a = CompiledSelector::compile(no_results);
        let b = CompiledSelector::compile(results);
        let c = CompiledSelector::compile(title);
        let d = CompiledSelector::compile(link);
        let e = CompiledSelector::compile(description);
        match (a, b, c, d, e) {
            (Some(no_results), Some(results), Some(title), Some(link), Some(description)) =>
                Ok(ResultParser { no_results, results, title, link, description }),
            _ => Err(EngineError::ConfigurationError),
        }
    }

    /// The first element of the page that matches the no-results selector, if any.
    pub fn detect_no_results(&self, page: &Page) -> (r: Option<Node>)
        ensures
            opt_node(r) == first_match(page@, self@.no_results),
    {
        first_node(page, &self.no_results)
    }

    /// One entry per result item of the page: its title, link and
    /// description elements, or `None` where any of the three is missing.
    pub fn item_parts(&self, page: &Page) -> (r: Vec<Option<ItemParts>>)
        ensures
            parts_views(r@) == item_children(page@, self@.item, self@.title, self@.link, self@.description)
                .map_values(|c: Children| complete_spec(c)),
    {
        let mut rest = item_nodes(page, &self.results, &self.title, &self.link, &self.description);
        let ghost cv = children_views(rest@);
        let ghost n = rest@.len();
        let mut out: Vec<Option<ItemParts>> = Vec::new();
        while rest.len() > 0
            invariant
                rest@.len() <= n == cv.len(),
                children_views(rest@) =~= cv.subrange(n - rest@.len(), n as int),
                parts_views(out@) =~= cv.subrange(0, n - rest@.len()).map_values(|c: Children| complete_spec(c)),
            decreases rest.len(),
        {
            let ghost i = n - rest@.len();
            let ghost old_rest = rest@;
            let (t, l, d) = rest.remove(0);
            proof {
                assert(children_views(old_rest)[0] == cv[i]);
                assert(rest@ =~= old_rest.drop_first());
                assert(children_views(rest@) =~= children_views(old_rest).drop_first());
                assert(cv.subrange(i, n as int).drop_first() =~= cv.subrange(i + 1, n as int));
            }
            let ghost before = out@;
            out.push(complete(t, l, d));
            proof {
                assert(parts_views(out@) =~= parts_views(before).push(complete_spec(cv[i])));
                assert(cv.subrange(0, i + 1).map_values(|c: Children| complete_spec(c)) =~= cv.subrange(
                    0,
                    i,
                ).map_values(|c: Children| complete_spec(c)).push(complete_spec(cv[i])));
            }
        }
        out
    }

    /// The results of a page of markup for the engine `kind`: the empty-result
    /// error where the no-results signal holds, the items' results otherwise.
    pub fn extract(&self, kind: EngineKind, html: &str) -> (r: Result<Vec<SearchResult>, EngineError>)
        ensures
            outcome_view(r) == page_outcome(kind, self@, html@),
    {
        let page = Page::parse(html);
        let first = self.detect_no_results(&page);
        let items = self.item_parts(&page);
        settle(kind, &first, &items)
    }
}

} // verus!
