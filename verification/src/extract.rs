//! Extraction of text from an HTML page with the `tl` parser: the inner text
//! of the elements that a query selector, a class name or an id picks out.
use vstd::prelude::*;
use vstd::string::*;

verus! {

/// Whether `tl`'s query-selector grammar accepts `selector`
/// (`tl::parse_query_selector` returns `Some`).
pub uninterp spec fn accepts_query_selector(selector: Seq<char>) -> bool;

/// The inner texts, in document order, of the elements of the page `html`
/// that the query selector `selector` matches, as `tl` finds them.
pub uninterp spec fn selector_inner_texts(html: Seq<char>, selector: Seq<char>) -> Seq<Seq<char>>;

/// The inner texts, in document order, of the elements of the page `html`
/// whose class list holds `class`, as `tl` finds them.
pub uninterp spec fn class_inner_texts(html: Seq<char>, class: Seq<char>) -> Seq<Seq<char>>;

/// The inner text of the element of the page `html` whose id is `id`, as
/// `tl` finds it; `None` where no element has that id.
pub uninterp spec fn id_inner_text(html: Seq<char>, id: Seq<char>) -> Option<Seq<char>>;

/// Whether the page `html` is short enough for `tl::parse`: its UTF-8
/// encoding takes at most `u32::MAX` bytes.
pub open spec fn page_fits(html: Seq<char>) -> bool {
    vstd::utf8::encode_utf8(html).len() <= u32::MAX
}

/// Whether the page `html` is short enough for `tl::parse`.
pub fn page_fits_parser(html: &str) -> (r: bool)
    ensures
        r == page_fits(html@),
{
    html.as_bytes().len() <= (u32::MAX as usize)
}

/// Calls `tl::parse_query_selector`. Trusted: the result tells whether the
/// selector parses, named by `accepts_query_selector`; the grammar is `tl`'s
/// and is not stated.
#[verifier::external_body]
pub(crate) fn is_query_selector(selector: &str) -> (r: bool)
    ensures
        r == accepts_query_selector(selector@),
{
    tl::parse_query_selector(selector).is_some()
}

/// Parses `html` with `tl::parse` (default options), runs
/// `VDom::query_selector` and takes `Node::inner_text` of each match.
/// Trusted: `tl::parse` fails only on input over `u32::MAX` bytes, which the
/// precondition rules out; `query_selector` returns `None` exactly where
/// `tl::parse_query_selector` does; the texts are named by
/// `selector_inner_texts`. How `tl` parses and matches is not stated.
#[verifier::external_body]
fn query_selector_texts(html: &str, selector: &str) -> (r: Option<Vec<String>>)
    requires
        page_fits(html@),
    ensures
        r is Some <==> accepts_query_selector(selector@),
        r matches Some(v) ==> v.deep_view() == selector_inner_texts(html@, selector@),
{
    let dom = tl::parse(html, tl::ParserOptions::default()).unwrap();
    let parser = dom.parser();
    let mut texts = Vec::new();
    for handle in dom.query_selector(selector)? {
        texts.push(handle.get(parser).unwrap().inner_text(parser).to_string());
    }
    Some(texts)
}

/// Parses `html` with `tl::parse` (default options), runs
/// `VDom::get_elements_by_class_name` and takes `Node::inner_text` of each
/// element. Trusted: `tl::parse` fails only on input over `u32::MAX` bytes,
/// which the precondition rules out; the texts are named by
/// `class_inner_texts`.
#[verifier::external_body]
fn class_name_texts(html: &str, class: &str) -> (r: Vec<String>)
    requires
        page_fits(html@),
    ensures
        r.deep_view() == class_inner_texts(html@, class@),
{
    let dom = tl::parse(html, tl::ParserOptions::default()).unwrap();
    let parser = dom.parser();
    let mut texts = Vec::new();
    for handle in dom.get_elements_by_class_name(class) {
        texts.push(handle.get(parser).unwrap().inner_text(parser).to_string());
    }
    texts
}

/// Parses `html` with `tl::parse` (default options), runs
/// `VDom::get_element_by_id` and takes `Node::inner_text` of the element.
/// Trusted: `tl::parse` fails only on input over `u32::MAX` bytes, which the
/// precondition rules out; the text is named by `id_inner_text`.
#[verifier::external_body]
fn element_by_id_text(html: &str, id: &str) -> (r: Option<String>)
    requires
        page_fits(html@),
    ensures
        r.deep_view() == id_inner_text(html@, id@),
{
    let dom = tl::parse(html, tl::ParserOptions::default()).unwrap();
    let parser = dom.parser();
    let handle = dom.get_element_by_id(id.as_bytes())?;
    Some(handle.get(parser).unwrap().inner_text(parser).to_string())
}

/// The inner texts of the elements of `data` that `tag_selector` matches.
pub fn parse_html_tag_content(data: String, tag_selector: String) -> (r: Vec<String>)
    requires
        page_fits(data@),
        accepts_query_selector(tag_selector@),
    ensures
        r.deep_view() == selector_inner_texts(data@, tag_selector@),
{
    match query_selector_texts(data.as_str(), tag_selector.as_str()) {
        Some(texts) => texts,
        None => {
            assert(false);
            Vec::new()
        },
    }
}

/// The inner texts of the elements of `data` of class `class_selector`.
pub fn parse_css_class_content(data: String, class_selector: &str) -> (r: Vec<String>)
    requires
        page_fits(data@),
    ensures
        r.deep_view() == class_inner_texts(data@, class_selector@),
{
    class_name_texts(data.as_str(), class_selector)
}

/// The inner text of the element of `data` with the id `id`, as a list of
/// at most one item.
pub fn parse_id_content(data: String, id: String) -> (r: Vec<String>)
    requires
        page_fits(data@),
    ensures
        r.deep_view() == (match id_inner_text(data@, id@) {
            Some(t) => seq![t],
            None => Seq::empty(),
        }),
{
    let mut nodes: Vec<String> = Vec::new();
    if let Some(text) = element_by_id_text(data.as_str(), id.as_str()) {
        nodes.push(text);
    }
    assert(nodes.deep_view() =~= (match id_inner_text(data@, id@) {
        Some(t) => seq![t],
        None => Seq::empty(),
    }));
    nodes
}

} // verus!
