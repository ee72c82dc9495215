//! Verified core of the lrnscraper web scraper: the command line, the
//! configuration model, the scraping plan, the extraction of page content,
//! the save plans for text and CSV files, and the counter protocol of the
//! worker pool.
pub mod cli;
pub mod extract;
pub mod run;
pub mod save_content;
pub mod text;
pub mod thread_pool;
pub mod utils;
