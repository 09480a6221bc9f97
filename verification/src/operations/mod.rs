//! Web operations: the pure parts of browsing a page in headless Chrome, and
//! of reading a search engine's results page.

pub mod browser;
pub mod search;
