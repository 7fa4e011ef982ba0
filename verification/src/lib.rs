//! News alert bot for Västtrafik: the rules by which the news archive is read,
//! compared with what was posted last, and turned into posts.

pub mod bot;
pub mod config;
pub mod error;
pub mod link;
pub mod news;
pub mod post;
pub mod scrape;
pub mod text;
