//! What is read out of an HTML document with CSS selectors.
//!
//! Parsing HTML and matching selectors is the work of the `scraper` crate.
//! Nothing here is proved of it: the two functions that call it say only that
//! what they return depends on their arguments alone. What they return has a
//! name each, `scraped_blocks` and `scraped_text`, by which the rest of the
//! library speaks of it.
//!
//! Matches come in the order in which the parsed tree holds its nodes. That
//! is the order of the document, but for nodes that the parser moves, as it
//! does out of tables.

use crate::error::ParseError;
use scraper::{Html, Selector};
use vstd::prelude::*;

verus! {

/// The most characters that a page may have to be parsed.
///
/// The parser keeps text in buffers of at most `u32::MAX` bytes, which grow
/// by powers of two, and stops the program where one would grow beyond
/// that. No buffer gets more than four bytes for each character of the page:
/// a character takes at most four bytes, and what the parser puts in the
/// place of a character takes no more. So a page of this many characters
/// keeps every buffer within 2^30 bytes.
pub const MAX_PAGE_CHARS: usize = 0x0fff_ffff;

/// What was found of one news block: the text of each element in it that
/// matched the heading selector and of each that matched the introduction
/// selector, in the order of the parsed tree, and the value of its link
/// attribute.
#[derive(Debug)]
pub struct NewsBlock {
    pub headings: Vec<String>,
    pub introductions: Vec<String>,
    pub href: Option<String>,
}

/// What a `NewsBlock` holds, as sequences of characters.
pub struct NewsBlockView {
    pub headings: Seq<Seq<char>>,
    pub introductions: Seq<Seq<char>>,
    pub href: Option<Seq<char>>,
}

/// The texts that the strings of `texts` hold.
pub open spec fn texts_view(texts: Seq<String>) -> Seq<Seq<char>> {
    texts.map_values(|text: String| text@)
}

/// The text that `text` holds, if there is one.
pub open spec fn optional_view(text: Option<String>) -> Option<Seq<char>> {
    match text {
        Some(text) => Some(text@),
        None => None,
    }
}

impl View for NewsBlock {
    type V = NewsBlockView;

    open spec fn view(&self) -> NewsBlockView {
        NewsBlockView {
            headings: texts_view(self.headings@),
            introductions: texts_view(self.introductions@),
            href: optional_view(self.href),
        }
    }
}

/// What the blocks of `blocks` hold.
pub open spec fn blocks_view(blocks: Seq<NewsBlock>) -> Seq<NewsBlockView> {
    blocks.map_values(|block: NewsBlock| block@)
}

/// What `found` holds, if it holds blocks.
pub open spec fn found_blocks_view(found: Option<Vec<NewsBlock>>) -> Option<Seq<NewsBlockView>> {
    match found {
        Some(blocks) => Some(blocks_view(blocks@)),
        None => None,
    }
}

/// What `found` holds, if it holds texts.
pub open spec fn found_texts_view(found: Option<Vec<String>>) -> Option<Seq<Seq<char>>> {
    match found {
        Some(texts) => Some(texts_view(texts@)),
        None => None,
    }
}

/// The news blocks of the HTML document `page`: one for each element that
/// matches the selector `blocks`, in the order of the parsed tree, with the
/// text of its descendants that match `heading` and `introduction` and the
/// value of its attribute `link`. `None` where one of the three is no CSS
/// selector.
pub uninterp spec fn scraped_blocks(
    page: Seq<char>,
    blocks: Seq<char>,
    heading: Seq<char>,
    introduction: Seq<char>,
    link: Seq<char>,
) -> Option<Seq<NewsBlockView>>;

/// The text of each element of the HTML document `page` that matches the
/// selector `elements`, in the order of the parsed tree: the text nodes
/// below the element, one after the other, without markup and with
/// character references read. `None` where `elements` is no CSS selector.
pub uninterp spec fn scraped_text(page: Seq<char>, elements: Seq<char>) -> Option<Seq<Seq<char>>>;

/// Parses `page` with `scraper::Html::parse_document` and the three selectors
/// with `scraper::Selector::parse`, then walks `Html::select` for the blocks
/// and, in each block, `ElementRef::select`, `ElementRef::text` and
/// `ElementRef::attr`. Trusted: what comes back is a function of the five
/// texts alone. A page too long for the parser's buffers is left out.
#[verifier::external_body]
fn scrape_blocks(
    page: &str,
    blocks: &str,
    heading: &str,
    introduction: &str,
    link: &str,
) -> (found: Option<Vec<NewsBlock>>)
    requires
        page@.len() <= MAX_PAGE_CHARS,
    ensures
        found_blocks_view(found) == scraped_blocks(page@, blocks@, heading@, introduction@, link@),
{
    let blocks = Selector::parse(blocks).ok()?;
    let heading = Selector::parse(heading).ok()?;
    let introduction = Selector::parse(introduction).ok()?;
    let document = Html::parse_document(page);
    let found = document.select(&blocks).map(|block| NewsBlock {
        headings: block.select(&heading).map(|element| element.text().collect()).collect(),
        introductions: block.select(&introduction).map(|element| element.text().collect()).collect(),
        href: block.attr(link).map(String::from),
    });
    Some(found.collect())
}

/// Parses `page` with `scraper::Html::parse_document` and `elements` with
/// `scraper::Selector::parse`, then collects `ElementRef::text` of each
/// element that `Html::select` gives. Trusted: what comes back is a function
/// of the two texts alone. A page too long for the parser's buffers is left
/// out.
#[verifier::external_body]
fn scrape_text(page: &str, elements: &str) -> (found: Option<Vec<String>>)
    requires
        page@.len() <= MAX_PAGE_CHARS,
    ensures
        found_texts_view(found) == scraped_text(page@, elements@),
{
    let elements = Selector::parse(elements).ok()?;
    let document = Html::parse_document(page);
    Some(document.select(&elements).map(|element| element.text().collect()).collect())
}

/// The news blocks of the HTML document `page`, found with the given
/// selectors and the name of the link attribute: `PageTooLong` for a page of
/// more than `MAX_PAGE_CHARS` characters, else `InvalidSelector` where one
/// of the three is no CSS selector, else the blocks.
pub open spec fn selected_blocks(
    page: Seq<char>,
    blocks: Seq<char>,
    heading: Seq<char>,
    introduction: Seq<char>,
    link: Seq<char>,
) -> Result<Seq<NewsBlockView>, ParseError> {
    if page.len() > MAX_PAGE_CHARS {
        Err(ParseError::PageTooLong)
    } else {
        match scraped_blocks(page, blocks, heading, introduction, link) {
            Some(found) => Ok(found),
            None => Err(ParseError::InvalidSelector),
        }
    }
}

/// The text of each element of the HTML document `page` that the selector
/// `elements` matches: `PageTooLong` for a page of more than
/// `MAX_PAGE_CHARS` characters, else `InvalidSelector` where `elements` is
/// no CSS selector, else the texts.
pub open spec fn selected_text(page: Seq<char>, elements: Seq<char>) -> Result<
    Seq<Seq<char>>,
    ParseError,
> {
    if page.len() > MAX_PAGE_CHARS {
        Err(ParseError::PageTooLong)
    } else {
        match scraped_text(page, elements) {
            Some(found) => Ok(found),
            None => Err(ParseError::InvalidSelector),
        }
    }
}

/// What `found` holds, if it holds blocks.
pub open spec fn blocks_result_view(found: Result<Vec<NewsBlock>, ParseError>) -> Result<
    Seq<NewsBlockView>,
    ParseError,
> {
    match found {
        Ok(blocks) => Ok(blocks_view(blocks@)),
        Err(e) => Err(e),
    }
}

/// What `found` holds, if it holds texts.
pub open spec fn texts_result_view(found: Result<Vec<String>, ParseError>) -> Result<
    Seq<Seq<char>>,
    ParseError,
> {
    match found {
        Ok(texts) => Ok(texts_view(texts@)),
        Err(e) => Err(e),
    }
}

/// The news blocks of the HTML document `page`, found with the given
/// selectors and the name of the link attribute.
pub fn select_blocks(
    page: &str,
    blocks: &str,
    heading: &str,
    introduction: &str,
    link: &str,
) -> (found: Result<Vec<NewsBlock>, ParseError>)
    ensures
        blocks_result_view(found) == selected_blocks(
            page@,
            blocks@,
            heading@,
            introduction@,
            link@,
        ),
{
    if page.unicode_len() > MAX_PAGE_CHARS {
        return Err(ParseError::PageTooLong);
    }
    match scrape_blocks(page, blocks, heading, introduction, link) {
        Some(found) => Ok(found),
        None => Err(ParseError::InvalidSelector),
    }
}

/// The text of each element of the HTML document `page` that the selector
/// `elements` matches.
pub fn select_text(page: &str, elements: &str) -> (found: Result<Vec<String>, ParseError>)
    ensures
        texts_result_view(found) == selected_text(page@, elements@),
{
    if page.unicode_len() > MAX_PAGE_CHARS {
        return Err(ParseError::PageTooLong);
    }
    match scrape_text(page, elements) {
        Some(found) => Ok(found),
        None => Err(ParseError::InvalidSelector),
    }
}

} // verus!
