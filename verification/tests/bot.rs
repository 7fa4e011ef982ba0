use vasttrafik_news::bot::{Action, Bot, BotError, Event, Observation, Stage, POLL_SECONDS};
use vasttrafik_news::config::{Config, Credentials};
use vasttrafik_news::error::ParseError;
use vasttrafik_news::news::News;
use vasttrafik_news::post::{Language, Visibility};

fn config(last_status_id: &str) -> Config {
    let mastodon = Credentials {
        base: "https://mastodon.example".to_string(),
        client_id: "id".to_string(),
        client_secret: "secret".to_string(),
        redirect: "urn:ietf:wg:oauth:2.0:oob".to_string(),
        token: "token".to_string(),
    };
    Config::new(mastodon, last_status_id.to_string())
}

fn item(title: &str) -> News {
    News {
        title: title.to_string(),
        body: format!("About {}", title),
        url: format!("https://www.vasttrafik.se/news/{}/", title),
    }
}

fn text_of(title: &str) -> String {
    format!("{}\n\nAbout {}\nLäs mer: https://www.vasttrafik.se/news/{}/", title, title, title)
}

fn page(titles: &[&str]) -> Event {
    let mut html = String::from("<html><body><div id=\"news-list\">");
    for title in titles {
        html.push_str(&format!(
            "<a href=\"/news/{}/\"><h2 class=\"news-list-page__news-heading\"> {} </h2>\
             <p class=\"news-list-page__news-introduction\"> About {} </p></a>",
            title, title, title
        ));
    }
    html.push_str("</div></body></html>");
    Event::Page { html }
}

fn status(title: &str) -> Event {
    Event::Status {
        content: format!("<p>{}</p><p>About it<br>Läs mer: https://www.vasttrafik.se/</p>", title),
    }
}

fn posted(id: &str) -> Event {
    Event::Posted { id: id.to_string() }
}

fn archive(titles: &[&str]) -> Observation {
    Observation::Archive { news: Ok(titles.iter().map(|title| item(title)).collect()) }
}

fn polling(last_status_id: &str, latest: &str) -> Bot {
    Bot { config: config(last_status_id), stage: Stage::PollFetch { latest: item(latest) } }
}

fn posts(action: &Action, title: &str) -> bool {
    match action {
        Action::Post { toot } => {
            toot.status == text_of(title)
                && toot.visibility == Visibility::Public
                && toot.language == Language::Swedish
                && toot.content_type == "text/html"
        }
        _ => false,
    }
}

fn fetches_status(action: &Action, wanted: &str) -> bool {
    matches!(action, Action::FetchStatus { id } if id == wanted)
}

fn sleeps(action: &Action) -> bool {
    matches!(action, Action::Sleep { seconds: 600 })
}

fn stops(action: &Action, wanted: BotError) -> bool {
    matches!(action, Action::Stop { error } if *error == wanted)
}

#[test]
fn the_wait_is_ten_minutes() {
    assert_eq!(POLL_SECONDS, 600);
}

#[test]
fn the_bot_starts_by_verifying_its_credentials() {
    let (bot, action) = Bot::start(config("7"));
    assert!(matches!(action, Action::VerifyCredentials));
    assert!(matches!(bot.stage, Stage::Verifying));
    assert_eq!(bot.config().get_last_status_id(), "7");
}

#[test]
fn an_account_without_statuses_gets_every_item_oldest_first() {
    let (bot, _) = Bot::start(config(""));
    let (bot, action) = bot.step(Event::Account { statuses_count: 0 });
    assert!(matches!(action, Action::FetchArchive));
    assert!(matches!(bot.stage, Stage::BackfillFetch));

    let (bot, action) = bot.step(page(&["C", "B", "A"]));
    assert!(posts(&action, "A"));
    assert_eq!(bot.config.get_last_status_id(), "");
    let (bot, action) = bot.step(posted("101"));
    assert!(matches!(action, Action::Save));
    assert_eq!(bot.config.get_last_status_id(), "101");

    let (bot, action) = bot.step(Event::Saved);
    assert!(posts(&action, "B"));
    let (bot, action) = bot.step(posted("102"));
    assert!(matches!(action, Action::Save));
    assert_eq!(bot.config.get_last_status_id(), "102");

    let (bot, action) = bot.step(Event::Saved);
    assert!(posts(&action, "C"));
    let (bot, action) = bot.step(posted("103"));
    assert!(matches!(action, Action::Save));
    assert_eq!(bot.config.get_last_status_id(), "103");

    let (bot, action) = bot.step(Event::Saved);
    assert!(fetches_status(&action, "103"));
    assert!(matches!(bot.stage, Stage::ResumeStatus));
    assert_eq!(bot.config.get_last_status_id(), "103");
}

#[test]
fn after_catching_up_nothing_is_posted_twice() {
    let bot = Bot {
        config: config("103"),
        stage: Stage::BackfillSave { pending: Vec::new() },
    };
    let (bot, action) = bot.step(Event::Saved);
    assert!(fetches_status(&action, "103"));
    let (bot, action) = bot.step(status("C"));
    assert!(matches!(action, Action::FetchArchive));
    let (bot, action) = bot.step(page(&["C", "B", "A"]));
    assert!(matches!(action, Action::FetchArchive));
    assert!(matches!(&bot.stage, Stage::PollFetch { latest } if latest.title == "C"));
    let (bot, action) = bot.step(page(&["C", "B", "A"]));
    assert!(sleeps(&action));
    assert_eq!(bot.config.get_last_status_id(), "103");
}

#[test]
fn catching_up_on_one_item() {
    let bot = Bot { config: config(""), stage: Stage::BackfillFetch };
    let (bot, action) = bot.step(page(&["A"]));
    assert!(posts(&action, "A"));
    let (bot, action) = bot.step(posted("1"));
    assert!(matches!(action, Action::Save));
    let (bot, action) = bot.step(Event::Saved);
    assert!(fetches_status(&action, "1"));
    assert!(matches!(bot.stage, Stage::ResumeStatus));
}

#[test]
fn catching_up_on_nothing_goes_on_to_the_last_status() {
    let bot = Bot { config: config("9"), stage: Stage::BackfillFetch };
    let (bot, action) = bot.decide(Observation::Archive { news: Ok(Vec::new()) });
    assert!(fetches_status(&action, "9"));
    assert!(matches!(bot.stage, Stage::ResumeStatus));
}

#[test]
fn an_account_with_statuses_is_asked_for_the_last_one() {
    let (bot, _) = Bot::start(config("41"));
    let (bot, action) = bot.step(Event::Account { statuses_count: 1 });
    assert!(fetches_status(&action, "41"));
    assert!(matches!(bot.stage, Stage::ResumeStatus));
}

#[test]
fn the_same_title_as_the_last_status_is_not_posted() {
    let (bot, _) = Bot::start(config("41"));
    let (bot, action) = bot.step(Event::Account { statuses_count: 12 });
    assert!(fetches_status(&action, "41"));
    let (bot, action) = bot.step(status("Delay on line 3"));
    assert!(matches!(action, Action::FetchArchive));
    assert!(matches!(&bot.stage, Stage::ResumeFetch { title } if title == "Delay on line 3"));
    let (bot, action) = bot.step(page(&["Delay on line 3", "Older"]));
    assert!(matches!(action, Action::FetchArchive));
    assert!(matches!(&bot.stage, Stage::PollFetch { latest } if latest.title == "Delay on line 3"));
    assert_eq!(bot.config.get_last_status_id(), "41");
    let (bot, action) = bot.step(page(&["Delay on line 3", "Older"]));
    assert!(sleeps(&action));
    assert_eq!(bot.config.get_last_status_id(), "41");
}

#[test]
fn the_title_of_the_last_status_is_its_text() {
    let (bot, _) = Bot::start(config("41"));
    let (bot, _) = bot.step(Event::Account { statuses_count: 3 });
    let (bot, action) =
        bot.step(Event::Status { content: "<p>A &amp; B</p><p>text</p>".to_string() });
    assert!(matches!(action, Action::FetchArchive));
    assert!(matches!(&bot.stage, Stage::ResumeFetch { title } if title == "A & B"));
    let html = "<div id=\"news-list\"><a href=\"/ab\">\
                <h2 class=\"news-list-page__news-heading\">A &amp; B</h2>\
                <p class=\"news-list-page__news-introduction\">text</p></a></div>";
    let (bot, action) = bot.step(Event::Page { html: html.to_string() });
    assert!(matches!(action, Action::FetchArchive));
    assert!(matches!(&bot.stage, Stage::PollFetch { latest } if latest.title == "A & B"));
    assert_eq!(bot.config.get_last_status_id(), "41");
}

#[test]
fn another_title_than_the_last_status_is_posted_once() {
    let (bot, _) = Bot::start(config("41"));
    let (bot, _) = bot.step(Event::Account { statuses_count: 12 });
    let (bot, _) = bot.step(status("Delay on line 3"));
    let (bot, action) = bot.step(page(&["New route opens", "Delay on line 3"]));
    assert!(posts(&action, "New route opens"));
    assert!(matches!(&bot.stage, Stage::ResumePost { latest } if latest.title == "New route opens"));
    assert_eq!(bot.config.get_last_status_id(), "41");
    let (bot, action) = bot.step(posted("42"));
    assert!(matches!(action, Action::Save));
    assert_eq!(bot.config.get_last_status_id(), "42");
    let (bot, action) = bot.step(Event::Saved);
    assert!(matches!(action, Action::FetchArchive));
    let (bot, action) = bot.step(page(&["New route opens", "Delay on line 3"]));
    assert!(sleeps(&action));
    assert_eq!(bot.config.get_last_status_id(), "42");
    assert!(matches!(&bot.stage, Stage::Sleeping { latest } if latest.title == "New route opens"));
}

#[test]
fn a_new_title_between_two_looks_is_posted_once() {
    let bot = polling("7", "X");
    let (bot, action) = bot.step(page(&["X"]));
    assert!(sleeps(&action));
    let (bot, action) = bot.step(Event::Slept);
    assert!(matches!(action, Action::FetchArchive));

    let (bot, action) = bot.step(page(&["Y", "X"]));
    assert!(posts(&action, "Y"));
    assert!(matches!(&bot.stage, Stage::PollPost { latest } if latest.title == "Y"));
    let (bot, action) = bot.step(posted("8"));
    assert!(matches!(action, Action::Save));
    assert_eq!(bot.config.get_last_status_id(), "8");
    let (bot, action) = bot.step(Event::Saved);
    assert!(sleeps(&action));
    assert!(matches!(&bot.stage, Stage::Sleeping { latest } if latest.title == "Y"));

    let (bot, action) = bot.step(Event::Slept);
    assert!(matches!(action, Action::FetchArchive));
    assert!(matches!(&bot.stage, Stage::PollFetch { latest } if latest.title == "Y"));
    let (bot, action) = bot.step(page(&["Y", "X"]));
    assert!(sleeps(&action));
    assert_eq!(bot.config.get_last_status_id(), "8");
}

#[test]
fn two_looks_at_an_unchanged_page_post_nothing() {
    let bot = polling("7", "X");
    let (bot, action) = bot.decide(archive(&["X", "W"]));
    assert!(sleeps(&action));
    assert_eq!(bot.config.get_last_status_id(), "7");
    let (bot, action) = bot.decide(Observation::Slept);
    assert!(matches!(action, Action::FetchArchive));
    let (bot, action) = bot.decide(archive(&["X", "W"]));
    assert!(sleeps(&action));
    assert_eq!(bot.config.get_last_status_id(), "7");
    assert!(matches!(&bot.stage, Stage::Sleeping { latest } if latest.title == "X"));
}

#[test]
fn only_the_title_is_compared() {
    let bot = polling("7", "X");
    let mut changed = item("X");
    changed.body = "Another body".to_string();
    changed.url = "https://www.vasttrafik.se/another/".to_string();
    let (bot, action) = bot.decide(Observation::Archive { news: Ok(vec![changed]) });
    assert!(sleeps(&action));
    assert!(matches!(&bot.stage, Stage::Sleeping { latest } if latest.body == "About X"));
}

#[test]
fn a_page_that_cannot_be_read_stops_the_bot() {
    let empty = "<html><body><div id=\"news-list\"></div></body></html>";
    let (bot, action) = polling("7", "X").step(Event::Page { html: empty.to_string() });
    assert!(stops(&action, BotError::Parse(ParseError::NoNewsBlocks)));
    assert!(matches!(bot.stage, Stage::Failed));
    assert_eq!(bot.config.get_last_status_id(), "7");

    let no_title = "<div id=\"news-list\"><a href=\"/x\"></a></div>";
    let bot = Bot { config: config(""), stage: Stage::BackfillFetch };
    let (_, action) = bot.step(Event::Page { html: no_title.to_string() });
    assert!(stops(&action, BotError::Parse(ParseError::NoTitle)));

    let bot = Bot { config: config(""), stage: Stage::ResumeFetch { title: "X".to_string() } };
    let (_, action) = bot.decide(Observation::Archive { news: Err(ParseError::NoHref) });
    assert!(stops(&action, BotError::Parse(ParseError::NoHref)));
}

#[test]
fn an_empty_list_of_news_stops_the_bot() {
    let (_, action) = polling("7", "X").decide(Observation::Archive { news: Ok(Vec::new()) });
    assert!(stops(&action, BotError::Parse(ParseError::NoNews)));
    let bot = Bot { config: config("7"), stage: Stage::ResumeFetch { title: "X".to_string() } };
    let (_, action) = bot.decide(Observation::Archive { news: Ok(Vec::new()) });
    assert!(stops(&action, BotError::Parse(ParseError::NoNews)));
}

#[test]
fn a_status_without_paragraph_stops_the_bot() {
    let bot = Bot { config: config("41"), stage: Stage::ResumeStatus };
    let (bot, action) = bot.step(Event::Status { content: "no paragraph".to_string() });
    assert!(stops(&action, BotError::Parse(ParseError::NoParagraph)));
    assert!(matches!(bot.stage, Stage::Failed));
}

#[test]
fn an_event_out_of_turn_stops_the_bot() {
    let (bot, _) = Bot::start(config("7"));
    let (bot, action) = bot.step(Event::Saved);
    assert!(stops(&action, BotError::UnexpectedEvent));
    assert!(matches!(bot.stage, Stage::Failed));
    let (bot, action) = bot.step(Event::Account { statuses_count: 0 });
    assert!(stops(&action, BotError::UnexpectedEvent));
    assert!(matches!(bot.stage, Stage::Failed));

    let (_, action) = polling("7", "X").step(posted("8"));
    assert!(stops(&action, BotError::UnexpectedEvent));
    let (_, action) = polling("7", "X").step(Event::Slept);
    assert!(stops(&action, BotError::UnexpectedEvent));
    let bot = Bot { config: config("7"), stage: Stage::Sleeping { latest: item("X") } };
    let (bot, action) = bot.step(page(&["Y"]));
    assert!(stops(&action, BotError::UnexpectedEvent));
    assert_eq!(bot.config.get_last_status_id(), "7");
}

#[test]
fn a_page_of_too_many_characters_stops_the_bot() {
    let html = "a".repeat(0x1000_0000);
    let (bot, action) = polling("7", "X").step(Event::Page { html });
    assert!(stops(&action, BotError::Parse(ParseError::PageTooLong)));
    assert!(matches!(bot.stage, Stage::Failed));
    assert_eq!(bot.config.get_last_status_id(), "7");
}
