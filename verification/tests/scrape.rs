use vasttrafik_news::error::ParseError;
use vasttrafik_news::scrape::{select_blocks, select_text, MAX_PAGE_CHARS};

const PAGE: &str = "<html><body><ul>\
    <li data-to=\"/one\"><b class=\"t\">One</b><i>first</i><i>1st</i></li>\
    <li><b class=\"t\">Two</b><b class=\"t\">Zwei</b></li>\
    </ul><p>Outside <em>the</em> list</p></body></html>";

#[test]
fn select_blocks_finds_what_the_selectors_name() {
    let found = select_blocks(PAGE, "ul > li", ".t", "i", "data-to").unwrap();
    assert_eq!(found.len(), 2);
    assert_eq!(found[0].headings, vec!["One".to_string()]);
    assert_eq!(found[0].introductions, vec!["first".to_string(), "1st".to_string()]);
    assert_eq!(found[0].href, Some("/one".to_string()));
    assert_eq!(found[1].headings, vec!["Two".to_string(), "Zwei".to_string()]);
    assert!(found[1].introductions.is_empty());
    assert_eq!(found[1].href, None);
}

#[test]
fn select_blocks_without_match_finds_nothing() {
    assert!(select_blocks(PAGE, "ol > li", ".t", "i", "data-to").unwrap().is_empty());
    assert!(select_blocks("", "ul > li", ".t", "i", "data-to").unwrap().is_empty());
}

#[test]
fn select_blocks_looks_below_the_block_only() {
    let found = select_blocks(PAGE, "li", "li", "ul", "class").unwrap();
    assert_eq!(found.len(), 2);
    assert!(found[0].headings.is_empty());
    assert!(found[0].introductions.is_empty());
    assert_eq!(found[0].href, None);
}

#[test]
fn select_blocks_refuses_what_is_no_selector() {
    assert_eq!(select_blocks(PAGE, "<<<", ".t", "i", "x").unwrap_err(), ParseError::InvalidSelector);
    assert_eq!(select_blocks(PAGE, "li", "b >", "i", "x").unwrap_err(), ParseError::InvalidSelector);
    assert_eq!(select_blocks(PAGE, "li", ".t", "", "x").unwrap_err(), ParseError::InvalidSelector);
}

#[test]
fn select_text_gives_the_text_of_each_match() {
    assert_eq!(select_text(PAGE, "p"), Ok(vec!["Outside the list".to_string()]));
    assert_eq!(
        select_text(PAGE, "b.t"),
        Ok(vec!["One".to_string(), "Two".to_string(), "Zwei".to_string()])
    );
    assert_eq!(
        select_text(PAGE, "li"),
        Ok(vec!["Onefirst1st".to_string(), "TwoZwei".to_string()])
    );
    assert_eq!(select_text(PAGE, "table"), Ok(Vec::new()));
}

#[test]
fn select_text_reads_character_references() {
    assert_eq!(
        select_text("<p>A &amp; B</p><p>&lt;b&gt;</p>", "p"),
        Ok(vec!["A & B".to_string(), "<b>".to_string()])
    );
}

#[test]
fn select_text_refuses_what_is_no_selector() {
    assert_eq!(select_text(PAGE, "p["), Err(ParseError::InvalidSelector));
}

#[test]
fn the_longest_page_has_two_to_the_28_characters_less_one() {
    assert_eq!(MAX_PAGE_CHARS, 268_435_455);
}

#[test]
fn select_refuses_a_page_of_too_many_characters() {
    let page = " ".repeat(MAX_PAGE_CHARS + 1);
    assert_eq!(select_blocks(&page, "li", ".t", "i", "x").unwrap_err(), ParseError::PageTooLong);
    assert_eq!(select_text(&page, "p"), Err(ParseError::PageTooLong));
}

#[test]
fn a_page_too_long_is_refused_before_its_selectors_are_read() {
    let page = "<p>".repeat(0x0600_0000);
    assert_eq!(select_blocks(&page, "<<<", ".t", "i", "x").unwrap_err(), ParseError::PageTooLong);
    assert_eq!(select_text(&page, "p["), Err(ParseError::PageTooLong));
}
