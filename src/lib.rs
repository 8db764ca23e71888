//! Search-result scraping: extraction of result links from HTML, a retry and
//! back-off state machine for the request loop, dork lists and tabular export.

pub mod results;
pub mod scrape;
pub mod export;
pub mod dorks;
