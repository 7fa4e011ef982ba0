//! What is sent to the account, and how the title of a posted status is
//! read back.

use crate::error::ParseError;
use crate::scrape::{select_text, selected_text, texts_view};
use elefren::status_builder::NewStatus;
use elefren::StatusBuilder;
use vstd::prelude::*;
use vstd::string::*;

verus! {

/// A status as `elefren` sends it.
#[verifier::external_type_specification]
#[verifier::external_body]
pub struct ExNewStatus(elefren::status_builder::NewStatus);

/// Why `elefren` could not do something.
#[verifier::external_type_specification]
#[verifier::external_body]
pub struct ExError(elefren::Error);

/// Content type of every post.
pub const CONTENT_TYPE: &'static str = "text/html";

/// Selects the paragraphs of a status.
pub const PARAGRAPH: &'static str = "p";

/// Who may see a status.
#[derive(Debug, Clone, Copy, PartialEq, Eq, Structural)]
pub enum Visibility {
    /// Only those it mentions
    Direct,
    /// Only followers
    Private,
    /// Everyone, but not on public timelines
    Unlisted,
    /// Everyone
    Public,
}

/// The language of a status.
#[derive(Debug, Clone, Copy, PartialEq, Eq, Structural)]
pub enum Language {
    /// Swedish (sv)
    Swedish,
}

/// Why a status cannot be posted.
#[derive(Debug, Clone, Copy, PartialEq, Eq, Structural)]
pub enum TootError {
    /// The status could not be built.
    Build,
}

/// A status to post.
#[derive(Debug)]
pub struct Toot {
    pub status: String,
    pub visibility: Visibility,
    pub language: Language,
    pub content_type: String,
}

/// What a `Toot` holds.
pub struct TootView {
    pub status: Seq<char>,
    pub visibility: Visibility,
    pub language: Language,
    pub content_type: Seq<char>,
}

impl View for Toot {
    type V = TootView;

    open spec fn view(&self) -> TootView {
        TootView {
            status: self.status@,
            visibility: self.visibility,
            language: self.language,
            content_type: self.content_type@,
        }
    }
}

/// The status posted for the text `status`: public, in Swedish, as HTML.
pub open spec fn toot_of(status: Seq<char>) -> TootView {
    TootView {
        status,
        visibility: Visibility::Public,
        language: Language::Swedish,
        content_type: CONTENT_TYPE@,
    }
}

/// The title of a status with the given paragraphs: the first of them.
pub open spec fn paragraphs_title(paragraphs: Seq<Seq<char>>) -> Result<Seq<char>, ParseError> {
    if paragraphs.len() == 0 {
        Err(ParseError::NoParagraph)
    } else {
        Ok(paragraphs[0])
    }
}

/// The title of a status with the rendered content `content`: the text of
/// its first paragraph, where the content can be parsed.
pub open spec fn content_title(content: Seq<char>) -> Result<Seq<char>, ParseError> {
    match selected_text(content, PARAGRAPH@) {
        Err(e) => Err(e),
        Ok(paragraphs) => paragraphs_title(paragraphs),
    }
}

/// What `result` holds, if it holds a title.
pub open spec fn title_result_view(result: Result<String, ParseError>) -> Result<
    Seq<char>,
    ParseError,
> {
    match result {
        Ok(title) => Ok(title@),
        Err(e) => Err(e),
    }
}

/// The status to post for the text `status_msg`.
pub fn toot(status_msg: String) -> (status: Toot)
    ensures
        status@ == toot_of(status_msg@),
{
    Toot {
        status: status_msg,
        visibility: Visibility::Public,
        language: Language::Swedish,
        content_type: String::from_str(CONTENT_TYPE),
    }
}

/// The status that `elefren` builds for `toot`: one with the text, the
/// visibility, the language and the content type of `toot`, and with nothing
/// else set.
pub uninterp spec fn built_status(toot: TootView) -> NewStatus;

/// Hands `toot` to `elefren::StatusBuilder`, field by field, and calls
/// `StatusBuilder::build`. Trusted: the status is built, as `build` fails
/// only where neither a text nor media were handed to the builder, and which
/// status is built depends on the four fields of `toot` alone.
#[verifier::external_body]
fn build_status(toot: &Toot) -> (made: Result<NewStatus, elefren::Error>)
    ensures
        made is Ok,
        made->Ok_0 == built_status(toot@),
{
    let visibility = match toot.visibility {
        Visibility::Direct => elefren::status_builder::Visibility::Direct,
        Visibility::Private => elefren::status_builder::Visibility::Private,
        Visibility::Unlisted => elefren::status_builder::Visibility::Unlisted,
        Visibility::Public => elefren::status_builder::Visibility::Public,
    };
    let language = match toot.language {
        Language::Swedish => elefren::Language::Swe,
    };
    let mut builder = StatusBuilder::new();
    builder.status(toot.status.as_str()).content_type(toot.content_type.as_str());
    builder.visibility(visibility).language(language).build()
}

/// What is sent, once the status was built: the status, or the news that it
/// could not be built.
pub fn built(status: Result<NewStatus, elefren::Error>) -> (sent: Result<NewStatus, TootError>)
    ensures
        match status {
            Ok(status) => sent == Ok::<NewStatus, TootError>(status),
            Err(_) => sent == Err::<NewStatus, TootError>(TootError::Build),
        },
{
    match status {
        Ok(status) => Ok(status),
        Err(_) => Err(TootError::Build),
    }
}

impl Toot {
    /// This status as `elefren` sends it: the status that `elefren` builds
    /// for the text, the visibility, the language and the content type of
    /// this one.
    pub fn build(&self) -> (sent: Result<NewStatus, TootError>)
        ensures
            sent == Ok::<NewStatus, TootError>(built_status(self@)),
    {
        built(build_status(self))
    }
}

/// The title of a status with the given paragraphs.
pub fn first_paragraph(paragraphs: &Vec<String>) -> (title: Result<String, ParseError>)
    ensures
        title_result_view(title) == paragraphs_title(texts_view(paragraphs@)),
{
    if paragraphs.len() == 0 {
        return Err(ParseError::NoParagraph);
    }
    Ok(paragraphs[0].clone())
}

/// The title of a posted status, given its rendered content.
pub fn posted_title(content: &str) -> (title: Result<String, ParseError>)
    ensures
        title_result_view(title) == content_title(content@),
{
    match select_text(content, PARAGRAPH) {
        Ok(paragraphs) => first_paragraph(&paragraphs),
        Err(e) => Err(e),
    }
}

} // verus!
