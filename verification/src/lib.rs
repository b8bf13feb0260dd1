//! Engine of a forum archiver: the decisions of a crawl that walks a forum's
//! index, its thread lists and its reply pages through a browsing session
//! that somebody else drives.

pub mod config;
pub mod envelope;
pub mod links;
pub mod pager;
pub mod revealer;
pub mod run;
pub mod scraping;
pub mod session;
pub mod structures;
pub mod text;
pub mod walks;
pub mod writer;
