//! Why a page or a status could not be read.

use vstd::prelude::*;

verus! {

/// Why nothing could be read out of a page or a status.
#[derive(Debug, Clone, Copy, PartialEq, Eq, Structural)]
pub enum ParseError {
    /// The page has no news list, or the list has no links.
    NoNewsBlocks,
    /// A news block has no heading.
    NoTitle,
    /// A news block has no introduction.
    NoBody,
    /// A news block has no link attribute.
    NoHref,
    /// The list of news is empty.
    NoNews,
    /// A posted status has no paragraph.
    NoParagraph,
    /// A selector is no CSS selector.
    InvalidSelector,
    /// The page or status is longer than can be parsed.
    PageTooLong,
}

impl ParseError {
    /// The message of each error.
    pub open spec fn text(self) -> Seq<char> {
        match self {
            ParseError::NoNewsBlocks => "No news blocks found"@,
            ParseError::NoTitle => "No news title found"@,
            ParseError::NoBody => "No news body found"@,
            ParseError::NoHref => "No href found"@,
            ParseError::NoNews => "No news found"@,
            ParseError::NoParagraph => "No paragraph found"@,
            ParseError::InvalidSelector => "Invalid selector"@,
            ParseError::PageTooLong => "Page too long"@,
        }
    }

    /// A message that says what is missing.
    pub fn message(&self) -> (message: &'static str)
        ensures
            message@ == self.text(),
    {
        match self {
            ParseError::NoNewsBlocks => "No news blocks found",
            ParseError::NoTitle => "No news title found",
            ParseError::NoBody => "No news body found",
            ParseError::NoHref => "No href found",
            ParseError::NoNews => "No news found",
            ParseError::NoParagraph => "No paragraph found",
            ParseError::InvalidSelector => "Invalid selector",
            ParseError::PageTooLong => "Page too long",
        }
    }
}

} // verus!
