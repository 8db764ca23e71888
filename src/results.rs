use vstd::prelude::*;

verus! {

/// One search result: the rendered text of a matched anchor and its target.
#[derive(Debug, Clone, PartialEq, Eq)]
pub struct SearchResult {
    pub title: String,
    pub link: String,
}

impl View for SearchResult {
    type V = (Seq<char>, Seq<char>);

    open spec fn view(&self) -> (Seq<char>, Seq<char>) {
        (self.title@, self.link@)
    }
}

/// An element matched by the result selector, before defaults are applied.
#[derive(Debug, Clone, PartialEq, Eq)]
pub struct ElementMatch {
    /// The element's text content, markup stripped and entities decoded.
    pub text: String,
    /// The element's `href` attribute, if it has one.
    pub href: Option<String>,
}

impl View for ElementMatch {
    type V = (Seq<char>, Option<Seq<char>>);

    open spec fn view(&self) -> (Seq<char>, Option<Seq<char>>) {
        (self.text@, match self.href {
            Some(h) => Some(h@),
            None => None,
        })
    }
}

/// The structural selector for result links: anchors that are direct children
/// of a level-3 heading.
pub open spec fn result_selector() -> Seq<char> {
    "h3 > a"@
}

/// Whether `selector` parses as a CSS selector group.
pub uninterp spec fn selector_parses(selector: Seq<char>) -> bool;

/// The elements of the HTML document `html` that the CSS selector `selector`
/// matches, in the order scraper yields them (the order in which parsing
/// created the nodes).
pub uninterp spec fn selector_matches(html: Seq<char>, selector: Seq<char>) -> Seq<
    (Seq<char>, Option<Seq<char>>),
>;

pub open spec fn matches_view(ms: Seq<ElementMatch>) -> Seq<(Seq<char>, Option<Seq<char>>)> {
    ms.map_values(|m: ElementMatch| m@)
}

pub open spec fn results_view(rs: Seq<SearchResult>) -> Seq<(Seq<char>, Seq<char>)> {
    rs.map_values(|r: SearchResult| r@)
}

/// A link attribute, or the empty text where the attribute is absent.
pub open spec fn link_or_empty(href: Option<Seq<char>>) -> Seq<char> {
    match href {
        Some(h) => h,
        None => Seq::empty(),
    }
}

/// The result that a matched element stands for.
pub open spec fn result_of_match(m: (Seq<char>, Option<Seq<char>>)) -> (Seq<char>, Seq<char>) {
    (m.0, link_or_empty(m.1))
}

/// The results that a sequence of matched elements stands for, in the same order.
pub open spec fn results_of_matches(ms: Seq<(Seq<char>, Option<Seq<char>>)>) -> Seq<
    (Seq<char>, Seq<char>),
> {
    ms.map_values(|m: (Seq<char>, Option<Seq<char>>)| result_of_match(m))
}

/// Relies on scraper's `Selector::parse` (whether it fails depends on the
/// selector text alone), and on `Html::parse_document`, `Html::select`,
/// `ElementRef::text` and `Element::attr` (parsing HTML never fails; the
/// matches depend on the two texts alone).
#[verifier::external_body]
fn select_elements(html: &str, selector: &str) -> (r: Option<Vec<ElementMatch>>)
    ensures
        r is Some <==> selector_parses(selector@),
        r matches Some(ms) ==> matches_view(ms@) == selector_matches(html@, selector@),
{
    let sel = scraper::Selector::parse(selector).ok()?;
    let doc = scraper::Html::parse_document(html);
    let found = doc.select(&sel).map(
        |e| ElementMatch {
            text: e.text().collect::<String>(),
            href: e.value().attr("href").map(|h| h.to_string()),
        },
    ).collect();
    Some(found)
}

/// Turns matched elements into results, one for one and in order; a missing
/// link becomes the empty text.
pub fn results_from_matches(matches: &Vec<ElementMatch>) -> (r: Vec<SearchResult>)
    ensures
        results_view(r@) == results_of_matches(matches_view(matches@)),
{
    let ghost all = matches_view(matches@);
    let mut out: Vec<SearchResult> = Vec::new();
    let mut i: usize = 0;
    while i < matches.len()
        invariant
            0 <= i <= matches@.len(),
            all == matches_view(matches@),
            results_view(out@) == results_of_matches(all.subrange(0, i as int)),
        decreases matches@.len() - i,
    {
        let m = &matches[i];
        let link = match &m.href {
            Some(h) => h.clone(),
            None => String::new(),
        };
        out.push(SearchResult { title: m.text.clone(), link });
        i = i + 1;
        assert(results_of_matches(all.subrange(0, i as int)) =~= results_of_matches(
            all.subrange(0, i - 1),
        ).push(result_of_match(all[i - 1])));
        assert(results_view(out@) =~= results_of_matches(all.subrange(0, i as int)));
    }
    assert(all.subrange(0, matches@.len() as int) =~= all);
    out
}

/// Why results could not be extracted.
#[derive(Debug, Clone, Copy, PartialEq, Eq)]
pub enum ExtractError {
    /// The result selector itself does not parse: a configuration fault.
    InvalidSelector,
}

/// Extracts the search results from an HTML page: one result per anchor under a
/// level-3 heading, in the order scraper yields them. Malformed HTML yields
/// fewer or no matches, never an error: the only error is a result selector
/// that does not parse, whatever the page.
pub fn extract(html: &str) -> (r: Result<Vec<SearchResult>, ExtractError>)
    ensures
        selector_parses(result_selector()) ==> r is Ok && results_view(r->Ok_0@)
            == results_of_matches(selector_matches(html@, result_selector())),
        !selector_parses(result_selector()) ==> r == Err::<Vec<SearchResult>, ExtractError>(
            ExtractError::InvalidSelector,
        ),
{
    match select_elements(html, "h3 > a") {
        Some(ms) => Ok(results_from_matches(&ms)),
        None => Err(ExtractError::InvalidSelector),
    }
}

/// Extraction yields exactly one result per matched element, in the same
/// order: each title is the element's text and each link its `href`, or empty.
pub proof fn lemma_one_result_per_match(ms: Seq<(Seq<char>, Option<Seq<char>>)>)
    ensures
        results_of_matches(ms).len() == ms.len(),
        forall|i: int|
            0 <= i < ms.len() ==> #[trigger] results_of_matches(ms)[i] == (
            ms[i].0,
            link_or_empty(ms[i].1),
        ),
        ms.len() == 0 ==> results_of_matches(ms) == Seq::<(Seq<char>, Seq<char>)>::empty(),
{
    if ms.len() == 0 {
        assert(results_of_matches(ms) =~= Seq::<(Seq<char>, Seq<char>)>::empty());
    }
}

} // verus!
