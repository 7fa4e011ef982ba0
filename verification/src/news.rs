//! News items: how they are read out of the archive page and what is posted
//! for them.

use crate::error::ParseError;
use crate::link::{resolve, resolved};
use crate::scrape::{
    blocks_result_view, blocks_view, select_blocks, selected_blocks, NewsBlock, NewsBlockView,
    MAX_PAGE_CHARS,
};
use crate::text::{trim, trimmed};
use vstd::prelude::*;
use vstd::string::*;

verus! {

/// Origin of the site.
pub const BASE: &'static str = "https://www.vasttrafik.se";

/// Path of the page that lists the news, newest first.
pub const ARKIV: &'static str = "/om-vasttrafik/nyhetsarkiv/";

/// Selects the news blocks of the archive page: the links directly inside
/// the news list.
pub const NEWS_BLOCKS: &'static str = "#news-list > a";

/// Selects the heading inside a news block.
pub const NEWS_HEADING: &'static str = ".news-list-page__news-heading";

/// Selects the introduction inside a news block.
pub const NEWS_INTRODUCTION: &'static str = ".news-list-page__news-introduction";

/// The attribute of a news block that holds the path of the article.
pub const NEWS_LINK: &'static str = "href";

/// One article of the news archive.
#[derive(Debug)]
pub struct News {
    pub title: String,
    pub body: String,
    pub url: String,
}

/// What a `News` holds, as sequences of characters.
pub struct NewsView {
    pub title: Seq<char>,
    pub body: Seq<char>,
    pub url: Seq<char>,
}

impl View for News {
    type V = NewsView;

    open spec fn view(&self) -> NewsView {
        NewsView { title: self.title@, body: self.body@, url: self.url@ }
    }
}

impl Clone for News {
    fn clone(&self) -> (copy: News)
        ensures
            copy@ == self@,
    {
        News { title: self.title.clone(), body: self.body.clone(), url: self.url.clone() }
    }
}

/// What the items of `items` hold.
pub open spec fn news_view(items: Seq<News>) -> Seq<NewsView> {
    items.map_values(|item: News| item@)
}

/// The text posted for an item: the title, an empty line, the body, and on a
/// line of its own the link to the article.
pub open spec fn post_text(item: NewsView) -> Seq<char> {
    item.title + "\n\n"@ + item.body + "\nLäs mer: "@ + item.url
}

/// The title of a news block: its first heading without the white space
/// around it.
pub open spec fn block_title(block: NewsBlockView) -> Result<Seq<char>, ParseError> {
    if block.headings.len() == 0 {
        Err(ParseError::NoTitle)
    } else {
        Ok(trimmed(block.headings[0]))
    }
}

/// The body of a news block: its first introduction without the white space
/// around it.
pub open spec fn block_body(block: NewsBlockView) -> Result<Seq<char>, ParseError> {
    if block.introductions.len() == 0 {
        Err(ParseError::NoBody)
    } else {
        Ok(trimmed(block.introductions[0]))
    }
}

/// The address of the article of a news block: what the block's link stands
/// for on the site.
pub open spec fn block_url(block: NewsBlockView) -> Result<Seq<char>, ParseError> {
    match block.href {
        None => Err(ParseError::NoHref),
        Some(href) => Ok(resolved(BASE@, href)),
    }
}

/// The item of a news block, or what the block lacks: the heading before the
/// introduction, the introduction before the link.
pub open spec fn block_news(block: NewsBlockView) -> Result<NewsView, ParseError> {
    match (block_title(block), block_body(block), block_url(block)) {
        (Err(e), _, _) => Err(e),
        (Ok(_), Err(e), _) => Err(e),
        (Ok(_), Ok(_), Err(e)) => Err(e),
        (Ok(title), Ok(body), Ok(url)) => Ok(NewsView { title, body, url }),
    }
}

/// Whether every block has a heading, an introduction and a link.
pub open spec fn complete(blocks: Seq<NewsBlockView>) -> bool {
    forall|i: int| 0 <= i < blocks.len() ==> (#[trigger] block_news(blocks[i])) is Ok
}

/// Whether `blocks[i]` is the first block that lacks something.
pub open spec fn first_incomplete(blocks: Seq<NewsBlockView>, i: int) -> bool {
    0 <= i < blocks.len() && block_news(blocks[i]) is Err && complete(blocks.subrange(0, i))
}

/// The news of a page with the given blocks: one item for each block, in the
/// order of the blocks. An error where there is no block, and where a block
/// lacks something: then what the first such block lacks.
pub open spec fn blocks_news(blocks: Seq<NewsBlockView>) -> Result<Seq<NewsView>, ParseError> {
    if blocks.len() == 0 {
        Err(ParseError::NoNewsBlocks)
    } else if complete(blocks) {
        Ok(blocks.map_values(|block: NewsBlockView| block_news(block)->Ok_0))
    } else {
        Err(block_news(blocks[choose|i: int| first_incomplete(blocks, i)])->Err_0)
    }
}

/// The news blocks of the archive page `page`, or why the page cannot be
/// parsed.
pub open spec fn page_blocks(page: Seq<char>) -> Result<Seq<NewsBlockView>, ParseError> {
    selected_blocks(page, NEWS_BLOCKS@, NEWS_HEADING@, NEWS_INTRODUCTION@, NEWS_LINK@)
}

/// The news of the archive page `page`: what its blocks give, where the page
/// can be parsed.
pub open spec fn page_news(page: Seq<char>) -> Result<Seq<NewsView>, ParseError> {
    match page_blocks(page) {
        Err(e) => Err(e),
        Ok(blocks) => blocks_news(blocks),
    }
}

/// The first of the items, which is the newest.
pub open spec fn first_news(items: Seq<NewsView>) -> Result<NewsView, ParseError> {
    if items.len() == 0 {
        Err(ParseError::NoNews)
    } else {
        Ok(items[0])
    }
}

/// The newest item of the archive page `page`.
pub open spec fn page_latest(page: Seq<char>) -> Result<NewsView, ParseError> {
    match page_news(page) {
        Err(e) => Err(e),
        Ok(items) => first_news(items),
    }
}

/// What `result` holds, if it holds a text.
pub open spec fn text_result_view(result: Result<String, ParseError>) -> Result<
    Seq<char>,
    ParseError,
> {
    match result {
        Ok(text) => Ok(text@),
        Err(e) => Err(e),
    }
}

/// What `result` holds, if it holds an item.
pub open spec fn item_result_view(result: Result<News, ParseError>) -> Result<
    NewsView,
    ParseError,
> {
    match result {
        Ok(item) => Ok(item@),
        Err(e) => Err(e),
    }
}

/// What `result` holds, if it holds items.
pub open spec fn news_result_view(result: Result<Vec<News>, ParseError>) -> Result<
    Seq<NewsView>,
    ParseError,
> {
    match result {
        Ok(items) => Ok(news_view(items@)),
        Err(e) => Err(e),
    }
}

/// Only one block is the first that lacks something.
pub proof fn lemma_first_incomplete_unique(blocks: Seq<NewsBlockView>, i: int)
    requires
        first_incomplete(blocks, i),
    ensures
        !complete(blocks),
        (choose|j: int| first_incomplete(blocks, j)) == i,
{
    let j = choose|j: int| first_incomplete(blocks, j);
    if j < i {
        assert(blocks.subrange(0, i)[j] == blocks[j]);
    }
    if i < j {
        assert(blocks.subrange(0, j)[i] == blocks[i]);
    }
}

/// Where a block lacks something, one block is the first to do so: the one
/// returned, at or after `from`, before which no block lacks anything.
pub proof fn lemma_first_incomplete_exists(blocks: Seq<NewsBlockView>, from: int) -> (i: int)
    requires
        !complete(blocks),
        0 <= from <= blocks.len(),
        complete(blocks.subrange(0, from)),
    ensures
        from <= i,
        first_incomplete(blocks, i),
    decreases blocks.len() - from,
{
    if from == blocks.len() {
        assert(blocks.subrange(0, from) == blocks);
        from
    } else if block_news(blocks[from]) is Err {
        from
    } else {
        assert forall|j: int| 0 <= j < from + 1 implies (#[trigger] block_news(
            blocks.subrange(0, from + 1)[j],
        )) is Ok by {
            if j < from {
                assert(blocks.subrange(0, from)[j] == blocks[j]);
            }
        }
        lemma_first_incomplete_exists(blocks, from + 1)
    }
}

/// What a page gives for want of something is never `NoNews`, `NoParagraph`
/// or anything but what its blocks lack.
pub proof fn lemma_blocks_errors(blocks: Seq<NewsBlockView>)
    ensures
        blocks_news(blocks) matches Err(e) ==> e == ParseError::NoNewsBlocks || e
            == ParseError::NoTitle || e == ParseError::NoBody || e == ParseError::NoHref,
{
    if blocks.len() > 0 && !complete(blocks) {
        assert(blocks.subrange(0, 0) == Seq::<NewsBlockView>::empty());
        let i = lemma_first_incomplete_exists(blocks, 0);
        lemma_first_incomplete_unique(blocks, i);
    }
}

/// A page with at least one news block, each with its heading, its
/// introduction and its link, gives exactly one item for each block, in the
/// order of the blocks.
pub proof fn lemma_complete_page_gives_every_item(page: Seq<char>, blocks: Seq<NewsBlockView>)
    requires
        page_blocks(page) == Ok::<Seq<NewsBlockView>, ParseError>(blocks),
        blocks.len() >= 1,
        complete(blocks),
    ensures
        page_news(page) matches Ok(news) && news.len() == blocks.len() && forall|i: int|
            0 <= i < blocks.len() ==> block_news(blocks[i]) == Ok::<NewsView, ParseError>(
                #[trigger] news[i],
            ),
{
}

/// A page never gives an empty list of news: a page without news blocks
/// fails with `NoNewsBlocks`, and so the newest item is never missing for
/// want of news.
pub proof fn lemma_no_news_is_an_error(page: Seq<char>)
    ensures
        page_news(page) matches Ok(news) ==> news.len() >= 1,
        page_blocks(page) matches Ok(blocks) && blocks.len() == 0 ==> page_news(page) == Err::<
            Seq<NewsView>,
            ParseError,
        >(ParseError::NoNewsBlocks),
        page_latest(page) != Err::<NewsView, ParseError>(ParseError::NoNews),
{
    if let Ok(blocks) = page_blocks(page) {
        lemma_blocks_errors(blocks);
    }
}

/// A page gives `PageTooLong` exactly if it has more than `MAX_PAGE_CHARS`
/// characters, whatever it holds.
pub proof fn lemma_page_too_long(page: Seq<char>)
    ensures
        page.len() > MAX_PAGE_CHARS <==> page_news(page) == Err::<Seq<NewsView>, ParseError>(
            ParseError::PageTooLong,
        ),
        page.len() > MAX_PAGE_CHARS <==> page_latest(page) == Err::<NewsView, ParseError>(
            ParseError::PageTooLong,
        ),
{
    if let Ok(blocks) = page_blocks(page) {
        lemma_blocks_errors(blocks);
    }
}

/// A page with a news block that lacks something gives no news but the
/// error that names what the first such block lacks: `NoTitle` for the
/// heading; `NoBody` for the introduction, where the heading is there;
/// `NoHref` for the link, where both are there.
pub proof fn lemma_missing_piece_is_named(page: Seq<char>, blocks: Seq<NewsBlockView>, i: int)
    requires
        page_blocks(page) == Ok::<Seq<NewsBlockView>, ParseError>(blocks),
        first_incomplete(blocks, i),
    ensures
        page_news(page) == Err::<Seq<NewsView>, ParseError>(
            if blocks[i].headings.len() == 0 {
                ParseError::NoTitle
            } else if blocks[i].introductions.len() == 0 {
                ParseError::NoBody
            } else {
                ParseError::NoHref
            },
        ),
        blocks[i].headings.len() == 0 || blocks[i].introductions.len() == 0 || blocks[i].href
            is None,
{
    lemma_first_incomplete_unique(blocks, i);
}

/// A block lacks nothing exactly if it has a heading, an introduction and a
/// link, and a page with a block that lacks something gives no news.
pub proof fn lemma_incomplete_page_fails(page: Seq<char>, blocks: Seq<NewsBlockView>, i: int)
    requires
        page_blocks(page) == Ok::<Seq<NewsBlockView>, ParseError>(blocks),
        0 <= i < blocks.len(),
    ensures
        block_news(blocks[i]) is Ok <==> blocks[i].headings.len() > 0
            && blocks[i].introductions.len() > 0 && blocks[i].href is Some,
        block_news(blocks[i]) is Err ==> page_news(page) is Err,
{
}

/// Address of the archive page.
pub fn archive_url() -> (url: String)
    ensures
        url@ == BASE@ + ARKIV@,
{
    String::from_str(BASE).concat(ARKIV)
}

/// Get the link to the news page
pub fn get_news_page(news_block: &NewsBlock) -> (url: Result<String, ParseError>)
    ensures
        text_result_view(url) == block_url(news_block@),
{
    match &news_block.href {
        Some(href) => Ok(resolve(BASE, href.as_str())),
        None => Err(ParseError::NoHref),
    }
}

/// Parses out the title of the news block
pub fn parse_news_title(news_block: &NewsBlock) -> (title: Result<String, ParseError>)
    ensures
        text_result_view(title) == block_title(news_block@),
{
    if news_block.headings.len() == 0 {
        return Err(ParseError::NoTitle);
    }
    Ok(trim(news_block.headings[0].as_str()))
}

/// Parses out the body of the news block
pub fn parse_news_body(news_block: &NewsBlock) -> (body: Result<String, ParseError>)
    ensures
        text_result_view(body) == block_body(news_block@),
{
    if news_block.introductions.len() == 0 {
        return Err(ParseError::NoBody);
    }
    Ok(trim(news_block.introductions[0].as_str()))
}

impl News {
    /// The item of a news block.
    pub fn from_block(news_block: &NewsBlock) -> (item: Result<News, ParseError>)
        ensures
            item_result_view(item) == block_news(news_block@),
    {
        let title = match parse_news_title(news_block) {
            Ok(title) => title,
            Err(e) => return Err(e),
        };
        let body = match parse_news_body(news_block) {
            Ok(body) => body,
            Err(e) => return Err(e),
        };
        let url = match get_news_page(news_block) {
            Ok(url) => url,
            Err(e) => return Err(e),
        };
        Ok(News { title, body, url })
    }

    /// The text posted for this item.
    pub fn to_string(&self) -> (text: String)
        ensures
            text@ == post_text(self@),
    {
        let mut text = self.title.clone();
        text.append("\n\n");
        text.append(self.body.as_str());
        text.append("\nLäs mer: ");
        text.append(self.url.as_str());
        text
    }
}

/// The news of a page with the given blocks, in the order of the blocks.
pub fn blocks_to_news(news_blocks: &Vec<NewsBlock>) -> (news: Result<Vec<News>, ParseError>)
    ensures
        news_result_view(news) == blocks_news(blocks_view(news_blocks@)),
{
    if news_blocks.len() == 0 {
        return Err(ParseError::NoNewsBlocks);
    }
    let ghost blocks = blocks_view(news_blocks@);
    let mut news: Vec<News> = Vec::new();
    let mut i: usize = 0;
    while i < news_blocks.len()
        invariant
            i <= news_blocks.len(),
            blocks == blocks_view(news_blocks@),
            news@.len() == i,
            forall|j: int| 0 <= j < i ==> block_news(blocks[j]) == Ok::<NewsView, ParseError>(#[trigger] news@[j]@),
        decreases news_blocks.len() - i,
    {
        match News::from_block(&news_blocks[i]) {
            Ok(item) => {
                news.push(item);
            },
            Err(e) => {
                proof {
                    assert(blocks[i as int] == news_blocks@[i as int]@);
                    assert forall|j: int| 0 <= j < i implies (#[trigger] block_news(
                        blocks.subrange(0, i as int)[j],
                    )) is Ok by {
                        assert(block_news(blocks[j]) == Ok::<NewsView, ParseError>(news@[j]@));
                    }
                    lemma_first_incomplete_unique(blocks, i as int);
                }
                return Err(e);
            },
        }
        i = i + 1;
    }
    proof {
        assert forall|j: int| 0 <= j < blocks.len() implies (#[trigger] block_news(
            blocks[j],
        )) is Ok by {
            assert(block_news(blocks[j]) == Ok::<NewsView, ParseError>(news@[j]@));
        }
        assert(news_view(news@) =~= blocks.map_values(
            |block: NewsBlockView| block_news(block)->Ok_0,
        ));
    }
    Ok(news)
}

/// The first of the items, which is the newest.
pub fn newest(news: &Vec<News>) -> (item: Result<News, ParseError>)
    ensures
        item_result_view(item) == first_news(news_view(news@)),
{
    if news.len() == 0 {
        return Err(ParseError::NoNews);
    }
    Ok(news[0].clone())
}

/// The news blocks of the archive page `page`, of which there is at least
/// one: `NoNewsBlocks` where the page can be parsed and has none.
pub open spec fn page_news_blocks(page: Seq<char>) -> Result<Seq<NewsBlockView>, ParseError> {
    match page_blocks(page) {
        Ok(blocks) => if blocks.len() == 0 {
            Err(ParseError::NoNewsBlocks)
        } else {
            Ok(blocks)
        },
        Err(e) => Err(e),
    }
}

/// Parses out the news blocks
pub fn parse_news_blocks(html: &str) -> (news_blocks: Result<Vec<NewsBlock>, ParseError>)
    ensures
        blocks_result_view(news_blocks) == page_news_blocks(html@),
{
    match select_blocks(html, NEWS_BLOCKS, NEWS_HEADING, NEWS_INTRODUCTION, NEWS_LINK) {
        Ok(news_blocks) => {
            if news_blocks.len() == 0 {
                return Err(ParseError::NoNewsBlocks);
            }
            Ok(news_blocks)
        },
        Err(e) => Err(e),
    }
}

/// The news of the archive page, newest first, given the page's HTML.
pub fn fetch(page: &str) -> (news: Result<Vec<News>, ParseError>)
    ensures
        news_result_view(news) == page_news(page@),
{
    match parse_news_blocks(page) {
        Ok(news_blocks) => blocks_to_news(&news_blocks),
        Err(e) => Err(e),
    }
}

/// The newest item of the archive page, given the page's HTML.
pub fn latest(page: &str) -> (item: Result<News, ParseError>)
    ensures
        item_result_view(item) == page_latest(page@),
{
    match fetch(page) {
        Ok(news) => newest(&news),
        Err(e) => Err(e),
    }
}

} // verus!
