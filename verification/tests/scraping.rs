use lrnscraper::extract::page_fits_parser;
use lrnscraper::run::{
    download_website_by_id, parse_css_class_and_save_content, parse_html_tag_and_save_content,
    parse_id_and_save_content, scrap_website, scrape_page, scraping_method, worker_count,
    PageOutcome, ScrapeJob, ScrapingMethod, WebConfig, WebConfigData,
};
use lrnscraper::save_content::{SaveError, SavePlan};
use lrnscraper::utils::get_scraper_option;

fn website(scraping: &str, target: &str, save_file: &str, urls: &[&str]) -> WebConfig {
    WebConfig {
        id: "app".to_string(),
        name: "Apple website".to_string(),
        save_file: save_file.to_string(),
        scraping: scraping.to_string(),
        scraping_target: target.to_string(),
        urls: urls.iter().map(|s| s.to_string()).collect(),
    }
}

const PAGE: &str = "<html><body><h2>Hello</h2><div class=\"menu top\">Home</div>\
<h2>World <b>again</b></h2><div class=\"menu\">About</div><p id=\"main\">Main text</p></body></html>";

#[test]
fn scraping_methods_by_name() {
    assert_eq!(scraping_method("html-tag"), Some(ScrapingMethod::HtmlTag));
    assert_eq!(scraping_method("css-class"), Some(ScrapingMethod::CssClass));
    assert_eq!(scraping_method("id"), Some(ScrapingMethod::Id));
    assert_eq!(scraping_method("xpath"), None);
    assert_eq!(scraping_method("Html-Tag"), None);
}

#[test]
fn every_offered_option_is_a_method() {
    let options = get_scraper_option();
    let methods: Vec<_> = options.iter().map(|o| scraping_method(o)).collect();
    assert_eq!(
        methods,
        vec![Some(ScrapingMethod::HtmlTag), Some(ScrapingMethod::CssClass), Some(ScrapingMethod::Id)]
    );
}

#[test]
fn one_job_per_url_in_order() {
    let site = website("html-tag", "h2", "Wikipedia.txt", &["https://a.example/", "https://b.example/"]);
    let jobs = scrap_website(&site);
    assert_eq!(jobs.len(), 2);
    assert_eq!(jobs[0].url, "https://a.example/");
    assert_eq!(jobs[1].url, "https://b.example/");
    for job in &jobs {
        assert_eq!(job.save_file, "Wikipedia.txt");
        assert_eq!(job.selector, "h2");
        assert_eq!(job.method, ScrapingMethod::HtmlTag);
    }
}

#[test]
fn readme_configuration_jobs() {
    let data = WebConfigData {
        websites: vec![
            website("id", "globalnav-menubutton-link-search", "Apple.csv", &["https://www.apple.com/fr/"]),
            website("html-tag", "h2", "Wikipedia.txt", &["https://fr.wikipedia.org/wiki/Wikipédia:Accueil_principal"]),
        ],
    };
    let first = scrap_website(&data.websites[0]);
    assert_eq!(first.len(), 1);
    assert_eq!(first[0].method, ScrapingMethod::Id);
    assert_eq!(first[0].selector, "globalnav-menubutton-link-search");
    assert_eq!(first[0].save_file, "Apple.csv");
    let second = scrap_website(&data.websites[1]);
    assert_eq!(second[0].url, "https://fr.wikipedia.org/wiki/Wikipédia:Accueil_principal");
    assert_eq!(second[0].method, ScrapingMethod::HtmlTag);
}

#[test]
fn unknown_method_scrapes_nothing() {
    let site = website("xpath", "//h2", "out.txt", &["https://a.example/"]);
    assert!(scrap_website(&site).is_empty());
}

#[test]
fn id_jobs_use_the_given_id() {
    let site = website("html-tag", "h2", "out.csv", &["https://a.example/", "https://b.example/"]);
    let jobs = download_website_by_id(&site, "main");
    assert_eq!(jobs.len(), 2);
    for (job, url) in jobs.iter().zip(["https://a.example/", "https://b.example/"]) {
        assert_eq!(job.url, url);
        assert_eq!(job.selector, "main");
        assert_eq!(job.save_file, "out.csv");
        assert_eq!(job.method, ScrapingMethod::Id);
    }
}

#[test]
fn tag_selector_texts_and_text_save() {
    match parse_html_tag_and_save_content(PAGE.to_string(), "out.txt".to_string(), "h2") {
        PageOutcome::Extracted { nodes, save } => {
            assert_eq!(nodes, vec!["Hello", "World again"]);
            match save {
                Ok(SavePlan::AppendLines { path, lines }) => {
                    assert_eq!(path, "data/out.txt");
                    assert_eq!(lines, vec!["Hello\n", "World again\n"]);
                }
                other => panic!("unexpected save {:?}", other),
            }
        }
        other => panic!("unexpected outcome {:?}", other),
    }
}

#[test]
fn tag_selector_without_match_extracts_nothing() {
    match parse_html_tag_and_save_content(PAGE.to_string(), "out.csv".to_string(), "h3") {
        PageOutcome::Extracted { nodes, save } => {
            assert!(nodes.is_empty());
            match save {
                Ok(SavePlan::WriteFile { bytes, .. }) => assert_eq!(bytes, b"h3\n".to_vec()),
                other => panic!("unexpected save {:?}", other),
            }
        }
        other => panic!("unexpected outcome {:?}", other),
    }
}

#[test]
fn rejected_selector() {
    assert!(matches!(
        parse_html_tag_and_save_content(PAGE.to_string(), "out.txt".to_string(), ""),
        PageOutcome::SelectorRejected
    ));
}

#[test]
fn class_texts_and_csv_save() {
    match parse_css_class_and_save_content(PAGE.to_string(), "menu.csv".to_string(), "menu") {
        PageOutcome::Extracted { nodes, save } => {
            assert_eq!(nodes, vec!["Home", "About"]);
            match save {
                Ok(SavePlan::WriteFile { path, bytes }) => {
                    assert_eq!(path, "data/menu.csv");
                    assert_eq!(String::from_utf8(bytes).unwrap(), "menu\nHome\nAbout\n");
                }
                other => panic!("unexpected save {:?}", other),
            }
        }
        other => panic!("unexpected outcome {:?}", other),
    }
}

#[test]
fn id_text_found_and_missing() {
    match parse_id_and_save_content(PAGE.to_string(), "id.txt".to_string(), "main".to_string()) {
        PageOutcome::Extracted { nodes, .. } => assert_eq!(nodes, vec!["Main text"]),
        other => panic!("unexpected outcome {:?}", other),
    }
    match parse_id_and_save_content(PAGE.to_string(), "id.txt".to_string(), "nope".to_string()) {
        PageOutcome::Extracted { nodes, .. } => assert!(nodes.is_empty()),
        other => panic!("unexpected outcome {:?}", other),
    }
}

#[test]
fn unsupported_save_file_is_refused_after_extraction() {
    match parse_html_tag_and_save_content(PAGE.to_string(), "out.json".to_string(), "h2") {
        PageOutcome::Extracted { nodes, save } => {
            assert_eq!(nodes.len(), 2);
            assert!(matches!(save, Err(SaveError::UnsupportedExtension)));
        }
        other => panic!("unexpected outcome {:?}", other),
    }
}

#[test]
fn scrape_page_follows_the_job_method() {
    let job = ScrapeJob {
        url: "https://a.example/".to_string(),
        save_file: "x.txt".to_string(),
        selector: "menu".to_string(),
        method: ScrapingMethod::CssClass,
    };
    match scrape_page(&job, PAGE.to_string()) {
        PageOutcome::Extracted { nodes, .. } => assert_eq!(nodes, vec!["Home", "About"]),
        other => panic!("unexpected outcome {:?}", other),
    }
}

#[test]
fn ordinary_pages_fit_the_parser() {
    assert!(page_fits_parser(PAGE));
    assert!(page_fits_parser(""));
}

#[test]
fn two_workers_per_core() {
    assert_eq!(worker_count(4), 8);
    assert_eq!(worker_count(0), 0);
}
