//! The scraping run: the configuration of the websites, the jobs that a run
//! performs for each website, and what a fetched page turns into (the text
//! extracted from it and the save of that text).
use vstd::prelude::*;
use vstd::string::*;

use crate::extract::{
    accepts_query_selector, class_inner_texts, id_inner_text, is_query_selector, page_fits,
    parse_css_class_content, parse_html_tag_content, parse_id_content, selector_inner_texts,
};
use crate::save_content::{is_save_outcome, save_by_extension, SaveError, SavePlan};
use crate::text::str_eq;

verus! {

/// The configuration file: the websites to scrape.
#[derive(Clone, Debug, PartialEq)]
pub struct WebConfigData {
    pub websites: Vec<WebConfig>,
}

/// One website of the configuration.
#[derive(Clone, Debug, PartialEq)]
pub struct WebConfig {
    /// Short identifier of the website.
    pub id: String,
    /// Display name.
    pub name: String,
    /// File, under the data folder, that receives the scraped content; its
    /// extension (`txt` or `csv`) selects the format.
    pub save_file: String,
    /// How to scrape: `html-tag`, `css-class` or `id`.
    pub scraping: String,
    /// The tag selector, class name or id to scrape.
    pub scraping_target: String,
    /// The pages to scrape.
    pub urls: Vec<String>,
}

/// How the content of a page is picked out.
#[derive(Clone, Copy, Debug, PartialEq, Eq, Structural)]
pub enum ScrapingMethod {
    /// The elements that a tag (query) selector matches.
    HtmlTag,
    /// The elements of a CSS class.
    CssClass,
    /// The element with a given id.
    Id,
}

/// The name of the `html-tag` method.
pub open spec fn html_tag_name() -> Seq<char> {
    seq!['h', 't', 'm', 'l', '-', 't', 'a', 'g']
}

/// The name of the `css-class` method.
pub open spec fn css_class_name() -> Seq<char> {
    seq!['c', 's', 's', '-', 'c', 'l', 'a', 's', 's']
}

/// The name of the `id` method.
pub open spec fn id_name() -> Seq<char> {
    seq!['i', 'd']
}

/// The method that the configuration value `scraping` names, if any.
pub open spec fn method_named(scraping: Seq<char>) -> Option<ScrapingMethod> {
    if scraping == html_tag_name() {
        Some(ScrapingMethod::HtmlTag)
    } else if scraping == css_class_name() {
        Some(ScrapingMethod::CssClass)
    } else if scraping == id_name() {
        Some(ScrapingMethod::Id)
    } else {
        None
    }
}

/// The method that the configuration value `scraping` names: `html-tag`,
/// `css-class` or `id`; `None` for anything else.
pub fn scraping_method(scraping: &str) -> (r: Option<ScrapingMethod>)
    ensures
        r == method_named(scraping@),
{
    proof {
        reveal_strlit("html-tag");
        reveal_strlit("css-class");
        reveal_strlit("id");
        assert("html-tag"@ =~= html_tag_name());
        assert("css-class"@ =~= css_class_name());
        assert("id"@ =~= id_name());
    }
    if str_eq(scraping, "html-tag") {
        Some(ScrapingMethod::HtmlTag)
    } else if str_eq(scraping, "css-class") {
        Some(ScrapingMethod::CssClass)
    } else if str_eq(scraping, "id") {
        Some(ScrapingMethod::Id)
    } else {
        None
    }
}

/// One page to scrape: where it is, what to pick out of it and where to
/// save what was picked.
#[derive(Clone, Debug)]
pub struct ScrapeJob {
    pub url: String,
    pub save_file: String,
    pub selector: String,
    pub method: ScrapingMethod,
}

/// `job` scrapes `url` with `method` and `selector`, saving to `save_file`.
pub open spec fn is_job(
    job: ScrapeJob,
    url: Seq<char>,
    save_file: Seq<char>,
    selector: Seq<char>,
    method: ScrapingMethod,
) -> bool {
    &&& job.url@ == url
    &&& job.save_file@ == save_file
    &&& job.selector@ == selector
    &&& job.method == method
}

/// `jobs` scrape each of `urls` in order, all with `method` and `selector`
/// and saving to `save_file`.
pub open spec fn are_jobs_for(
    jobs: Seq<ScrapeJob>,
    urls: Seq<String>,
    save_file: Seq<char>,
    selector: Seq<char>,
    method: ScrapingMethod,
) -> bool {
    &&& jobs.len() == urls.len()
    &&& forall|i: int|
        0 <= i < jobs.len() ==> is_job(#[trigger] jobs[i], urls[i]@, save_file, selector, method)
}

fn jobs_for_urls(
    urls: &Vec<String>,
    save_file: &String,
    selector: &str,
    method: ScrapingMethod,
) -> (r: Vec<ScrapeJob>)
    ensures
        are_jobs_for(r@, urls@, save_file@, selector@, method),
{
    let mut jobs: Vec<ScrapeJob> = Vec::new();
    for i in 0..urls.len()
        invariant
            jobs@.len() == i,
            forall|j: int|
                0 <= j < i ==> is_job(#[trigger] jobs@[j], urls@[j]@, save_file@, selector@, method),
    {
        jobs.push(
            ScrapeJob {
                url: urls[i].clone(),
                save_file: save_file.clone(),
                selector: String::from_str(selector),
                method,
            },
        );
    }
    jobs
}

/// The jobs that scraping `website` performs, one per url in order, with the
/// website's method and target; none where `scraping` names no method.
pub fn scrap_website(website: &WebConfig) -> (r: Vec<ScrapeJob>)
    ensures
        r@.len() == (if method_named(website.scraping@) is Some {
            website.urls@.len()
        } else {
            0
        }),
        forall|j: int|
            0 <= j < r@.len() ==> {
                &&& Some(#[trigger] r@[j].method) == method_named(website.scraping@)
                &&& r@[j].url@ == website.urls@[j]@
                &&& r@[j].save_file@ == website.save_file@
                &&& r@[j].selector@ == website.scraping_target@
            },
        match method_named(website.scraping@) {
            Some(m) => are_jobs_for(
                r@,
                website.urls@,
                website.save_file@,
                website.scraping_target@,
                m,
            ),
            None => r@.len() == 0,
        },
{
    proof {
        if let Some(m) = method_named(website.scraping@) {
            lemma_jobs_for_fields(
                Seq::empty(),
                website.urls@,
                website.save_file@,
                website.scraping_target@,
                m,
            );
        }
    }
    match scraping_method(website.scraping.as_str()) {
        Some(m) => jobs_for_urls(
            &website.urls,
            &website.save_file,
            website.scraping_target.as_str(),
            m,
        ),
        None => Vec::new(),
    }
}

/// The jobs that scraping `website` for the element with the id `id`
/// performs, one per url in order.
pub fn download_website_by_id(website: &WebConfig, id: &str) -> (r: Vec<ScrapeJob>)
    ensures
        are_jobs_for(r@, website.urls@, website.save_file@, id@, ScrapingMethod::Id),
        r@.len() == website.urls@.len(),
        forall|j: int|
            0 <= j < r@.len() ==> {
                &&& #[trigger] r@[j].method == ScrapingMethod::Id
                &&& r@[j].url@ == website.urls@[j]@
                &&& r@[j].save_file@ == website.save_file@
                &&& r@[j].selector@ == id@
            },
{
    jobs_for_urls(&website.urls, &website.save_file, id, ScrapingMethod::Id)
}

/// The configuration values name the methods one to one: `html-tag` picks
/// by tag selector, `css-class` by class, `id` by id, and no other value
/// names a method.
pub proof fn lemma_method_names(scraping: Seq<char>)
    ensures
        method_named(html_tag_name()) == Some(ScrapingMethod::HtmlTag),
        method_named(css_class_name()) == Some(ScrapingMethod::CssClass),
        method_named(id_name()) == Some(ScrapingMethod::Id),
        method_named(scraping) == Some(ScrapingMethod::HtmlTag) ==> scraping == html_tag_name(),
        method_named(scraping) == Some(ScrapingMethod::CssClass) ==> scraping
            == css_class_name(),
        method_named(scraping) == Some(ScrapingMethod::Id) ==> scraping == id_name(),
{
    assert(html_tag_name() != css_class_name()) by {
        assert(html_tag_name().len() != css_class_name().len());
    }
    assert(html_tag_name() != id_name()) by {
        assert(html_tag_name().len() != id_name().len());
    }
    assert(css_class_name() != id_name()) by {
        assert(css_class_name().len() != id_name().len());
    }
}

/// Jobs for a list of urls are one per url in order, and each carries the
/// given method, selector and save file unchanged, whatever they are.
pub proof fn lemma_jobs_for_fields(
    jobs: Seq<ScrapeJob>,
    urls: Seq<String>,
    save_file: Seq<char>,
    selector: Seq<char>,
    method: ScrapingMethod,
)
    ensures
        are_jobs_for(jobs, urls, save_file, selector, method) ==> {
            &&& jobs.len() == urls.len()
            &&& forall|j: int|
                0 <= j < jobs.len() ==> {
                    &&& (#[trigger] jobs[j]).method == method
                    &&& jobs[j].url@ == urls[j]@
                    &&& jobs[j].save_file@ == save_file
                    &&& jobs[j].selector@ == selector
                }
        },
{
}

/// The number of workers that a run starts on a machine with
/// `logical_cores` logical cores: two per core.
pub fn worker_count(logical_cores: usize) -> (r: usize)
    requires
        logical_cores * 2 <= usize::MAX,
    ensures
        r == logical_cores * 2,
{
    logical_cores * 2
}

/// What a fetched page turns into.
#[derive(Debug)]
pub enum PageOutcome {
    /// The tag selector is not one that the query language accepts.
    SelectorRejected,
    /// The texts picked out of the page (possibly none), and their save.
    Extracted { nodes: Vec<String>, save: Result<SavePlan, SaveError> },
}

/// The texts that `method` picks out of `html` with `selector`; `None` where
/// the selector is refused.
pub open spec fn extracted_texts(
    method: ScrapingMethod,
    html: Seq<char>,
    selector: Seq<char>,
) -> Option<Seq<Seq<char>>> {
    match method {
        ScrapingMethod::HtmlTag => if accepts_query_selector(selector) {
            Some(selector_inner_texts(html, selector))
        } else {
            None
        },
        ScrapingMethod::CssClass => Some(class_inner_texts(html, selector)),
        ScrapingMethod::Id => Some(
            match id_inner_text(html, selector) {
                Some(t) => seq![t],
                None => Seq::empty(),
            },
        ),
    }
}

/// `r` is what the page `html` turns into when scraped with `method` and
/// `selector` and saved to `save_file`.
pub open spec fn is_page_outcome(
    r: PageOutcome,
    method: ScrapingMethod,
    html: Seq<char>,
    save_file: Seq<char>,
    selector: Seq<char>,
) -> bool {
    match extracted_texts(method, html, selector) {
        None => r is SelectorRejected,
        Some(texts) => r matches PageOutcome::Extracted { nodes, save } && nodes.deep_view()
            == texts && is_save_outcome(save, texts, save_file, selector),
    }
}

/// What a page turns into saves exactly the texts extracted from it, for
/// every method: the saved items are the reported nodes, none dropped or
/// added.
pub proof fn lemma_page_saves_its_nodes(
    r: PageOutcome,
    method: ScrapingMethod,
    html: Seq<char>,
    save_file: Seq<char>,
    selector: Seq<char>,
)
    requires
        is_page_outcome(r, method, html, save_file, selector),
    ensures
        r matches PageOutcome::Extracted { nodes, save } ==> is_save_outcome(
            save,
            nodes.deep_view(),
            save_file,
            selector,
        ),
        method == ScrapingMethod::Id ==> (r matches PageOutcome::Extracted { nodes, .. }
            && nodes@.len() == (if id_inner_text(html, selector) is Some {
            1int
        } else {
            0int
        })),
        method != ScrapingMethod::HtmlTag ==> r is Extracted,
{
    if method == ScrapingMethod::Id {
        if let PageOutcome::Extracted { nodes, .. } = r {
            assert(nodes@.len() == nodes.deep_view().len());
        }
    }
}

fn save_nodes(nodes: Vec<String>, save_file: &str, selector: &str) -> (r: PageOutcome)
    ensures
        r matches PageOutcome::Extracted { nodes: n, save } && n.deep_view() == nodes.deep_view()
            && is_save_outcome(save, nodes.deep_view(), save_file@, selector@),
{
    let copy = nodes.clone();
    proof {
        assert(copy.deep_view() =~= nodes.deep_view());
    }
    let save = save_by_extension(copy, save_file, selector);
    PageOutcome::Extracted { nodes, save }
}

/// The texts that the tag selector `tag_selector` picks out of the fetched
/// page `html`, and their save to `save_file`; a selector that the query
/// language refuses is reported. The page must fit the parser (see
/// `page_fits_parser`).
pub fn parse_html_tag_and_save_content(
    html: String,
    save_file: String,
    tag_selector: &str,
) -> (r: PageOutcome)
    requires
        page_fits(html@),
    ensures
        is_page_outcome(r, ScrapingMethod::HtmlTag, html@, save_file@, tag_selector@),
        r matches PageOutcome::Extracted { nodes, save } ==> is_save_outcome(
            save,
            nodes.deep_view(),
            save_file@,
            tag_selector@,
        ),
{
    if !is_query_selector(tag_selector) {
        return PageOutcome::SelectorRejected;
    }
    let nodes = parse_html_tag_content(html, String::from_str(tag_selector));
    save_nodes(nodes, save_file.as_str(), tag_selector)
}

/// The texts of the elements of class `class_selector` in the fetched page
/// `html`, and their save to `save_file`.
pub fn parse_css_class_and_save_content(
    html: String,
    save_file: String,
    class_selector: &str,
) -> (r: PageOutcome)
    requires
        page_fits(html@),
    ensures
        is_page_outcome(r, ScrapingMethod::CssClass, html@, save_file@, class_selector@),
        r matches PageOutcome::Extracted { nodes, save } ==> is_save_outcome(
            save,
            nodes.deep_view(),
            save_file@,
            class_selector@,
        ),
{
    let nodes = parse_css_class_content(html, class_selector);
    save_nodes(nodes, save_file.as_str(), class_selector)
}

/// The text of the element with the id `id` in the fetched page `html` (as a
/// list of at most one item), and its save to `save_file`.
pub fn parse_id_and_save_content(html: String, save_file: String, id: String) -> (r: PageOutcome)
    requires
        page_fits(html@),
    ensures
        is_page_outcome(r, ScrapingMethod::Id, html@, save_file@, id@),
        r matches PageOutcome::Extracted { nodes, save } ==> is_save_outcome(
            save,
            nodes.deep_view(),
            save_file@,
            id@,
        ),
{
    let nodes = parse_id_content(html, id.clone());
    save_nodes(nodes, save_file.as_str(), id.as_str())
}

/// What the page `html`, fetched for `job`, turns into.
pub fn scrape_page(job: &ScrapeJob, html: String) -> (r: PageOutcome)
    requires
        page_fits(html@),
    ensures
        is_page_outcome(r, job.method, html@, job.save_file@, job.selector@),
        r matches PageOutcome::Extracted { nodes, save } ==> is_save_outcome(
            save,
            nodes.deep_view(),
            job.save_file@,
            job.selector@,
        ),
{
    match job.method {
        ScrapingMethod::HtmlTag => parse_html_tag_and_save_content(
            html,
            job.save_file.clone(),
            job.selector.as_str(),
        ),
        ScrapingMethod::CssClass => parse_css_class_and_save_content(
            html,
            job.save_file.clone(),
            job.selector.as_str(),
        ),
        ScrapingMethod::Id => parse_id_and_save_content(
            html,
            job.save_file.clone(),
            job.selector.clone(),
        ),
    }
}

} // verus!
