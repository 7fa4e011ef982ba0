//! The bot: what it does next, given what it is waiting for and what
//! happened.
//!
//! The bot itself performs nothing. It hands out an `Action`; whoever runs it
//! performs the action and hands back the `Event` that came of it. A failed
//! action is not handed back: it ends the run.

use crate::config::{Config, ConfigView};
use crate::error::ParseError;
use crate::news::{
    fetch, first_news, news_result_view, news_view, newest, page_news, post_text, News, NewsView,
};
use crate::post::{content_title, posted_title, title_result_view, toot, toot_of, Toot, TootView};
use vstd::prelude::*;
use vstd::string::*;

verus! {

/// Seconds between two looks at the archive page.
pub const POLL_SECONDS: u64 = 600;

/// Why the bot stopped.
#[derive(Debug, Clone, Copy, PartialEq, Eq, Structural)]
pub enum BotError {
    /// A page or a status could not be read.
    Parse(ParseError),
    /// The event is none that the bot was waiting for.
    UnexpectedEvent,
}

impl BotError {
    /// The message of each error.
    pub open spec fn text(self) -> Seq<char> {
        match self {
            BotError::Parse(e) => e.text(),
            BotError::UnexpectedEvent => "Unexpected event"@,
        }
    }

    /// A message that says why the bot stopped.
    pub fn message(&self) -> (message: &'static str)
        ensures
            message@ == self.text(),
    {
        match self {
            BotError::Parse(e) => e.message(),
            BotError::UnexpectedEvent => "Unexpected event",
        }
    }
}

/// What the bot asks for.
#[derive(Debug)]
pub enum Action {
    /// Ask the account how many statuses it has.
    VerifyCredentials,
    /// Download the archive page.
    FetchArchive,
    /// Get the status with this id from the account.
    FetchStatus { id: String },
    /// Post this status.
    Post { toot: Toot },
    /// Write the bot's config to disk.
    Save,
    /// Wait.
    Sleep { seconds: u64 },
    /// Give up.
    Stop { error: BotError },
}

/// What an `Action` holds.
pub enum ActionView {
    VerifyCredentials,
    FetchArchive,
    FetchStatus { id: Seq<char> },
    Post { toot: TootView },
    Save,
    Sleep { seconds: u64 },
    Stop { error: BotError },
}

impl View for Action {
    type V = ActionView;

    open spec fn view(&self) -> ActionView {
        match self {
            Action::VerifyCredentials => ActionView::VerifyCredentials,
            Action::FetchArchive => ActionView::FetchArchive,
            Action::FetchStatus { id } => ActionView::FetchStatus { id: id@ },
            Action::Post { toot } => ActionView::Post { toot: toot@ },
            Action::Save => ActionView::Save,
            Action::Sleep { seconds } => ActionView::Sleep { seconds: *seconds },
            Action::Stop { error } => ActionView::Stop { error: *error },
        }
    }
}

/// What came of an action.
#[derive(Debug)]
pub enum Event {
    /// The credentials hold; the account has this many statuses.
    Account { statuses_count: u64 },
    /// The archive page was downloaded.
    Page { html: String },
    /// The status was found; this is its rendered content.
    Status { content: String },
    /// The status was posted under this id.
    Posted { id: String },
    /// The config is on disk.
    Saved,
    /// The wait is over.
    Slept,
}

/// What the bot learns from an event.
#[derive(Debug)]
pub enum Observation {
    /// The account has this many statuses.
    Account { statuses_count: u64 },
    /// The news of the archive page, newest first.
    Archive { news: Result<Vec<News>, ParseError> },
    /// The title of the status posted last.
    LastTitle { title: Result<String, ParseError> },
    /// The status was posted under this id.
    Posted { id: String },
    /// The config is on disk.
    Saved,
    /// The wait is over.
    Slept,
}

/// What an `Observation` holds.
pub enum ObservationView {
    Account { statuses_count: u64 },
    Archive { news: Result<Seq<NewsView>, ParseError> },
    LastTitle { title: Result<Seq<char>, ParseError> },
    Posted { id: Seq<char> },
    Saved,
    Slept,
}

impl View for Observation {
    type V = ObservationView;

    open spec fn view(&self) -> ObservationView {
        match self {
            Observation::Account { statuses_count } => ObservationView::Account {
                statuses_count: *statuses_count,
            },
            Observation::Archive { news } => ObservationView::Archive {
                news: news_result_view(*news),
            },
            Observation::LastTitle { title } => ObservationView::LastTitle {
                title: title_result_view(*title),
            },
            Observation::Posted { id } => ObservationView::Posted { id: id@ },
            Observation::Saved => ObservationView::Saved,
            Observation::Slept => ObservationView::Slept,
        }
    }
}

/// What the bot is waiting for.
#[derive(Debug)]
pub enum Stage {
    /// For the account's number of statuses.
    Verifying,
    /// For the archive page, to post all of it.
    BackfillFetch,
    /// For the id of the post of the last of `pending`, the oldest.
    BackfillPost { pending: Vec<News> },
    /// For the config to be on disk; `pending` is still to post.
    BackfillSave { pending: Vec<News> },
    /// For the status posted last.
    ResumeStatus,
    /// For the archive page, to compare its newest item with `title`.
    ResumeFetch { title: String },
    /// For the id of the post of `latest`.
    ResumePost { latest: News },
    /// For the config to be on disk.
    ResumeSave { latest: News },
    /// For the archive page, to compare its newest item with `latest`.
    PollFetch { latest: News },
    /// For the id of the post of `latest`.
    PollPost { latest: News },
    /// For the config to be on disk.
    PollSave { latest: News },
    /// For the wait to be over.
    Sleeping { latest: News },
    /// For nothing: the bot has stopped.
    Failed,
}

/// What a `Stage` holds.
pub enum StageView {
    Verifying,
    BackfillFetch,
    BackfillPost { pending: Seq<NewsView> },
    BackfillSave { pending: Seq<NewsView> },
    ResumeStatus,
    ResumeFetch { title: Seq<char> },
    ResumePost { latest: NewsView },
    ResumeSave { latest: NewsView },
    PollFetch { latest: NewsView },
    PollPost { latest: NewsView },
    PollSave { latest: NewsView },
    Sleeping { latest: NewsView },
    Failed,
}

impl View for Stage {
    type V = StageView;

    open spec fn view(&self) -> StageView {
        match self {
            Stage::Verifying => StageView::Verifying,
            Stage::BackfillFetch => StageView::BackfillFetch,
            Stage::BackfillPost { pending } => StageView::BackfillPost {
                pending: news_view(pending@),
            },
            Stage::BackfillSave { pending } => StageView::BackfillSave {
                pending: news_view(pending@),
            },
            Stage::ResumeStatus => StageView::ResumeStatus,
            Stage::ResumeFetch { title } => StageView::ResumeFetch { title: title@ },
            Stage::ResumePost { latest } => StageView::ResumePost { latest: latest@ },
            Stage::ResumeSave { latest } => StageView::ResumeSave { latest: latest@ },
            Stage::PollFetch { latest } => StageView::PollFetch { latest: latest@ },
            Stage::PollPost { latest } => StageView::PollPost { latest: latest@ },
            Stage::PollSave { latest } => StageView::PollSave { latest: latest@ },
            Stage::Sleeping { latest } => StageView::Sleeping { latest: latest@ },
            Stage::Failed => StageView::Failed,
        }
    }
}

/// The bot: its config and what it is waiting for.
#[derive(Debug)]
pub struct Bot {
    pub config: Config,
    pub stage: Stage,
}

/// What a `Bot` holds.
pub struct BotView {
    pub config: ConfigView,
    pub stage: StageView,
}

impl View for Bot {
    type V = BotView;

    open spec fn view(&self) -> BotView {
        BotView { config: self.config@, stage: self.stage@ }
    }
}

/// What the bot learns from `event`: of a page its news, of a status its
/// title.
pub open spec fn observed(event: Event) -> ObservationView {
    match event {
        Event::Account { statuses_count } => ObservationView::Account { statuses_count },
        Event::Page { html } => ObservationView::Archive { news: page_news(html@) },
        Event::Status { content } => ObservationView::LastTitle { title: content_title(content@) },
        Event::Posted { id } => ObservationView::Posted { id: id@ },
        Event::Saved => ObservationView::Saved,
        Event::Slept => ObservationView::Slept,
    }
}

/// The post for `item`.
pub open spec fn post(item: NewsView) -> ActionView {
    ActionView::Post { toot: toot_of(post_text(item)) }
}

/// The bot gives up.
pub open spec fn stop(config: ConfigView, error: BotError) -> (BotView, ActionView) {
    (BotView { config, stage: StageView::Failed }, ActionView::Stop { error })
}

/// Catching up, with `pending` still to post, newest first: the oldest is
/// posted next. With nothing left, the bot looks up the status it posted
/// last.
pub open spec fn backfill(config: ConfigView, pending: Seq<NewsView>) -> (BotView, ActionView) {
    if pending.len() == 0 {
        resume(config)
    } else {
        (BotView { config, stage: StageView::BackfillPost { pending } }, post(pending.last()))
    }
}

/// The bot looks up the status it posted last.
pub open spec fn resume(config: ConfigView) -> (BotView, ActionView) {
    (
        BotView { config, stage: StageView::ResumeStatus },
        ActionView::FetchStatus { id: config.last_status_id },
    )
}

/// The bot downloads the archive page, to compare its newest item with
/// `latest`.
pub open spec fn poll(config: ConfigView, latest: NewsView) -> (BotView, ActionView) {
    (BotView { config, stage: StageView::PollFetch { latest } }, ActionView::FetchArchive)
}

/// The bot waits until it looks again.
pub open spec fn sleep(config: ConfigView, latest: NewsView) -> (BotView, ActionView) {
    (
        BotView { config, stage: StageView::Sleeping { latest } },
        ActionView::Sleep { seconds: POLL_SECONDS },
    )
}

/// The id of a new post is noted and goes to disk before anything else
/// happens.
pub open spec fn save(config: ConfigView, id: Seq<char>, stage: StageView) -> (
    BotView,
    ActionView,
) {
    (BotView { config: config.posted(id), stage }, ActionView::Save)
}

/// The bot after `seen`, and what it asks for.
///
/// - With an account that has no status, the bot catches up: it downloads
///   the archive page and posts every item, the oldest first.
/// - Then, or at once where the account has statuses, it looks up the status
///   it posted last and downloads the archive page. It posts the newest item
///   if that item's title is not the title of the status.
/// - From then on it downloads the archive page again and again, with a wait
///   after each look. It posts the newest item whenever that item's title is
///   not the title of the newest item it saw before.
/// - After each post the new id is noted and saved.
/// - A page or status that cannot be read, and an event that the bot was not
///   waiting for, stop it.
pub open spec fn next(bot: BotView, seen: ObservationView) -> (BotView, ActionView) {
    let config = bot.config;
    match (bot.stage, seen) {
        (StageView::Verifying, ObservationView::Account { statuses_count }) => {
            if statuses_count == 0 {
                (BotView { config, stage: StageView::BackfillFetch }, ActionView::FetchArchive)
            } else {
                resume(config)
            }
        },
        (StageView::BackfillFetch, ObservationView::Archive { news: Ok(news) }) => backfill(
            config,
            news,
        ),
        (StageView::BackfillFetch, ObservationView::Archive { news: Err(e) }) => stop(
            config,
            BotError::Parse(e),
        ),
        (StageView::BackfillPost { pending }, ObservationView::Posted { id }) => save(
            config,
            id,
            StageView::BackfillSave {
                pending: if pending.len() == 0 {
                    pending
                } else {
                    pending.drop_last()
                },
            },
        ),
        (StageView::BackfillSave { pending }, ObservationView::Saved) => backfill(config, pending),
        (StageView::ResumeStatus, ObservationView::LastTitle { title: Ok(title) }) => (
            BotView { config, stage: StageView::ResumeFetch { title } },
            ActionView::FetchArchive,
        ),
        (StageView::ResumeStatus, ObservationView::LastTitle { title: Err(e) }) => stop(
            config,
            BotError::Parse(e),
        ),
        (StageView::ResumeFetch { title }, ObservationView::Archive { news: Ok(news) }) => {
            match first_news(news) {
                Ok(latest) => if latest.title != title {
                    (BotView { config, stage: StageView::ResumePost { latest } }, post(latest))
                } else {
                    poll(config, latest)
                },
                Err(e) => stop(config, BotError::Parse(e)),
            }
        },
        (StageView::ResumeFetch { title }, ObservationView::Archive { news: Err(e) }) => stop(
            config,
            BotError::Parse(e),
        ),
        (StageView::ResumePost { latest }, ObservationView::Posted { id }) => save(
            config,
            id,
            StageView::ResumeSave { latest },
        ),
        (StageView::ResumeSave { latest }, ObservationView::Saved) => poll(config, latest),
        (StageView::PollFetch { latest }, ObservationView::Archive { news: Ok(news) }) => {
            match first_news(news) {
                Ok(found) => if latest.title != found.title {
                    (
                        BotView { config, stage: StageView::PollPost { latest: found } },
                        post(found),
                    )
                } else {
                    sleep(config, latest)
                },
                Err(e) => stop(config, BotError::Parse(e)),
            }
        },
        (StageView::PollFetch { latest }, ObservationView::Archive { news: Err(e) }) => stop(
            config,
            BotError::Parse(e),
        ),
        (StageView::PollPost { latest }, ObservationView::Posted { id }) => save(
            config,
            id,
            StageView::PollSave { latest },
        ),
        (StageView::PollSave { latest }, ObservationView::Saved) => sleep(config, latest),
        (StageView::Sleeping { latest }, ObservationView::Slept) => poll(config, latest),
        _ => stop(config, BotError::UnexpectedEvent),
    }
}

/// Whether the bot waits for a post only where it asked for one: while it
/// catches up, the item on its way is the last of those still to post.
pub open spec fn consistent(bot: BotView) -> bool {
    bot.stage matches StageView::BackfillPost { pending } ==> pending.len() > 0
}

/// The bot is consistent at its start and stays so, whatever happens, and
/// whenever it asks for a post it waits for that post to come back: for the
/// post of the last of the pending items while it catches up, for the post
/// of the newest item after that.
pub proof fn lemma_bot_stays_consistent(bot: BotView, seen: ObservationView)
    ensures
        consistent(BotView { config: bot.config, stage: StageView::Verifying }),
        consistent(next(bot, seen).0),
        next(bot, seen).1 matches ActionView::Post { toot } ==> match next(bot, seen).0.stage {
            StageView::BackfillPost { pending } => pending.len() > 0 && toot == toot_of(
                post_text(pending.last()),
            ),
            StageView::ResumePost { latest } => toot == toot_of(post_text(latest)),
            StageView::PollPost { latest } => toot == toot_of(post_text(latest)),
            _ => false,
        },
{
}

/// The bot after one look at the archive page in the steady state, if a
/// post it made on that look got the id `id`: either nothing was new and the
/// bot waits, or the newest item was posted, its id saved, and the bot
/// waits.
pub open spec fn looked(bot: BotView, news: Seq<NewsView>, id: Seq<char>) -> (BotView, ActionView) {
    let first = next(bot, ObservationView::Archive { news: Ok(news) });
    if first.1 is Post {
        next(next(first.0, ObservationView::Posted { id }).0, ObservationView::Saved)
    } else {
        first
    }
}

/// Two looks in a row at an archive page whose newest item keeps its title:
/// whatever the first look did, the second posts nothing and leaves the
/// config, and with it the id of the last post, as it was. The bot does not
/// forget what it saw either.
pub proof fn lemma_second_look_posts_nothing(
    bot: BotView,
    first: Seq<NewsView>,
    id: Seq<char>,
    second: Seq<NewsView>,
)
    requires
        bot.stage is PollFetch,
        first.len() > 0,
        second.len() > 0,
        first[0].title == second[0].title,
    ensures
        ({
            let rested = looked(bot, first, id);
            let woken = next(rested.0, ObservationView::Slept);
            let again = next(woken.0, ObservationView::Archive { news: Ok(second) });
            &&& rested.1 == ActionView::Sleep { seconds: POLL_SECONDS }
            &&& rested.0.stage matches StageView::Sleeping { latest } && latest.title
                == first[0].title
            &&& woken.1 == ActionView::FetchArchive
            &&& again.1 == ActionView::Sleep { seconds: POLL_SECONDS }
            &&& again.0 == rested.0
        }),
{
}

/// The id of a post is noted and saved at once: when a post comes back with
/// its id, the config holds that id and the next action is to save it.
pub proof fn lemma_post_is_saved(bot: BotView, id: Seq<char>)
    requires
        bot.stage is BackfillPost || bot.stage is ResumePost || bot.stage is PollPost,
    ensures
        ({
            let saved = next(bot, ObservationView::Posted { id });
            &&& saved.1 == ActionView::Save
            &&& saved.0.config == bot.config.posted(id)
            &&& saved.0.stage is BackfillSave || saved.0.stage is ResumeSave
                || saved.0.stage is PollSave
        }),
{
}

/// Nothing but a post that came back changes the config, and a post only
/// the id of the last status.
pub proof fn lemma_config_changes_with_posts_only(bot: BotView, seen: ObservationView)
    ensures
        !(seen is Posted) ==> next(bot, seen).0.config == bot.config,
        next(bot, seen).0.config.mastodon == bot.config.mastodon,
{
}

/// The bot posts an item only after it saw the archive page or saved the id
/// of the post before, and never while it waits for a post of its own to
/// come back.
pub proof fn lemma_posts_follow_pages_and_saves(bot: BotView, seen: ObservationView)
    requires
        next(bot, seen).1 is Post,
    ensures
        seen is Archive || seen is Saved,
        seen is Saved ==> bot.stage is BackfillSave,
        next(bot, seen).0.stage is BackfillPost || next(bot, seen).0.stage is ResumePost || next(
            bot,
            seen,
        ).0.stage is PollPost,
{
}

/// The bot after it learnt of `seen`, one after the other, and the actions
/// that it asked for on the way.
pub open spec fn run(bot: BotView, seen: Seq<ObservationView>) -> (BotView, Seq<ActionView>)
    decreases seen.len(),
{
    if seen.len() == 0 {
        (bot, Seq::empty())
    } else {
        let first = next(bot, seen.first());
        let rest = run(first.0, seen.drop_first());
        (rest.0, seq![first.1] + rest.1)
    }
}

/// What the bot learns while it catches up, if its posts get the ids of
/// `ids`: each post comes back with its id, then the config is saved.
pub open spec fn posts_and_saves(ids: Seq<Seq<char>>) -> Seq<ObservationView> {
    Seq::new(
        2 * ids.len(),
        |k: int|
            if k % 2 == 0 {
                ObservationView::Posted { id: ids[k / 2] }
            } else {
                ObservationView::Saved
            },
    )
}

/// What the bot asks for while it catches up on `pending`, newest first,
/// once the oldest is on its way: to save each id, then to post the item
/// that is next in age, and after the last to get the status posted last.
pub open spec fn saves_and_posts(pending: Seq<NewsView>, ids: Seq<Seq<char>>) -> Seq<ActionView> {
    Seq::new(
        2 * ids.len(),
        |k: int|
            if k % 2 == 0 {
                ActionView::Save
            } else if k / 2 + 1 < pending.len() {
                post(pending[pending.len() - 2 - k / 2])
            } else {
                ActionView::FetchStatus { id: ids.last() }
            },
    )
}

/// An account without statuses makes the bot download the archive page, and
/// the page's news make it post the oldest item first.
pub proof fn lemma_catch_up_starts_with_oldest(config: ConfigView, news: Seq<NewsView>)
    requires
        news.len() > 0,
    ensures
        ({
            let start = BotView { config, stage: StageView::Verifying };
            let asked = next(start, ObservationView::Account { statuses_count: 0 });
            let began = next(asked.0, ObservationView::Archive { news: Ok(news) });
            &&& asked.1 == ActionView::FetchArchive
            &&& began.1 == post(news.last())
            &&& began.0 == (BotView { config, stage: StageView::BackfillPost { pending: news } })
        }),
{
}

/// Catching up posts every item once, from the oldest to the newest, and
/// saves the id of each post before the next: with the oldest of `pending`
/// on its way and `ids` the ids that the posts get, the bot asks in turn to
/// save an id and to post the item next in age. In the end the config holds
/// the id of the newest item's post, and the bot asks for that status.
pub proof fn lemma_catch_up_posts_all(bot: BotView, pending: Seq<NewsView>, ids: Seq<Seq<char>>)
    requires
        bot.stage == (StageView::BackfillPost { pending }),
        pending.len() == ids.len(),
        ids.len() >= 1,
    ensures
        run(bot, posts_and_saves(ids)) == (
            BotView { config: bot.config.posted(ids.last()), stage: StageView::ResumeStatus },
            saves_and_posts(pending, ids),
        ),
    decreases ids.len(),
{
    let seen = posts_and_saves(ids);
    let saved = next(bot, seen[0]);
    let on = next(saved.0, seen[1]);
    let rest = seen.drop_first().drop_first();
    assert(seen.drop_first().first() == seen[1]);
    let mid = run(saved.0, seen.drop_first());
    assert(run(bot, seen) == (mid.0, seq![saved.1] + mid.1));
    assert(mid == (run(on.0, rest).0, seq![on.1] + run(on.0, rest).1));
    assert(run(bot, seen).1 == seq![saved.1] + (seq![on.1] + run(on.0, rest).1));
    if ids.len() == 1 {
        assert(rest.len() == 0);
        assert(run(bot, seen).1 =~= saves_and_posts(pending, ids));
    } else {
        assert(rest =~= posts_and_saves(ids.drop_first()));
        lemma_catch_up_posts_all(on.0, pending.drop_last(), ids.drop_first());
        assert(ids.drop_first().last() == ids.last());
        assert(run(bot, seen).1 =~= saves_and_posts(pending, ids)) by {
            let tail = saves_and_posts(pending.drop_last(), ids.drop_first());
            assert forall|k: int| 2 <= k < 2 * ids.len() implies #[trigger] saves_and_posts(
                pending,
                ids,
            )[k] == tail[k - 2] by {
                assert((k - 2) % 2 == k % 2);
                assert((k - 2) / 2 == k / 2 - 1);
            }
        }
    }
}

/// What the bot learns from `event`.
pub fn observe(event: Event) -> (seen: Observation)
    ensures
        seen@ == observed(event),
{
    match event {
        Event::Account { statuses_count } => Observation::Account { statuses_count },
        Event::Page { html } => Observation::Archive { news: fetch(html.as_str()) },
        Event::Status { content } => Observation::LastTitle {
            title: posted_title(content.as_str()),
        },
        Event::Posted { id } => Observation::Posted { id },
        Event::Saved => Observation::Saved,
        Event::Slept => Observation::Slept,
    }
}

/// The post for `item`.
fn post_action(item: &News) -> (action: Action)
    ensures
        action@ == post(item@),
{
    Action::Post { toot: toot(item.to_string()) }
}

/// The bot gives up.
fn stopped(config: Config, error: BotError) -> (turn: (Bot, Action))
    ensures
        (turn.0@, turn.1@) == stop(config@, error),
{
    (Bot { config, stage: Stage::Failed }, Action::Stop { error })
}

/// The bot looks up the status it posted last.
fn resuming(config: Config) -> (turn: (Bot, Action))
    ensures
        (turn.0@, turn.1@) == resume(config@),
{
    let id = config.get_last_status_id();
    (Bot { config, stage: Stage::ResumeStatus }, Action::FetchStatus { id })
}

/// Catching up, with `pending` still to post.
fn backfilling(config: Config, pending: Vec<News>) -> (turn: (Bot, Action))
    ensures
        (turn.0@, turn.1@) == backfill(config@, news_view(pending@)),
{
    if pending.len() == 0 {
        return resuming(config);
    }
    let action = post_action(&pending[pending.len() - 1]);
    (Bot { config, stage: Stage::BackfillPost { pending } }, action)
}

/// The id of a new post is noted, and goes to disk next.
fn saving(config: Config, id: String, stage: Stage) -> (turn: (Bot, Action))
    ensures
        (turn.0@, turn.1@) == save(config@, id@, stage@),
{
    let mut config = config;
    config.set_last_status_id(id);
    (Bot { config, stage }, Action::Save)
}

impl Bot {
    /// The bot at its start, and its first action: to ask the account how
    /// many statuses it has.
    pub fn start(config: Config) -> (turn: (Bot, Action))
        ensures
            turn.0@ == (BotView { config: config@, stage: StageView::Verifying }),
            turn.1@ == ActionView::VerifyCredentials,
    {
        (Bot { config, stage: Stage::Verifying }, Action::VerifyCredentials)
    }

    /// The bot's config: what `Action::Save` asks to write.
    pub fn config(&self) -> (config: &Config)
        ensures
            config@ == self@.config,
    {
        &self.config
    }

    /// The bot after `seen`, and what it asks for.
    pub fn decide(self, seen: Observation) -> (turn: (Bot, Action))
        ensures
            (turn.0@, turn.1@) == next(self@, seen@),
    {
        let Bot { config, stage } = self;
        match (stage, seen) {
            (Stage::Verifying, Observation::Account { statuses_count }) => {
                if statuses_count == 0 {
                    (Bot { config, stage: Stage::BackfillFetch }, Action::FetchArchive)
                } else {
                    resuming(config)
                }
            },
            (Stage::BackfillFetch, Observation::Archive { news: Ok(news) }) => backfilling(
                config,
                news,
            ),
            (Stage::BackfillFetch, Observation::Archive { news: Err(e) }) => stopped(
                config,
                BotError::Parse(e),
            ),
            (Stage::BackfillPost { pending }, Observation::Posted { id }) => {
                let mut pending = pending;
                let ghost before = pending@;
                pending.pop();
                proof {
                    if before.len() > 0 {
                        assert(news_view(pending@) =~= news_view(before).drop_last());
                    }
                }
                saving(config, id, Stage::BackfillSave { pending })
            },
            (Stage::BackfillSave { pending }, Observation::Saved) => backfilling(config, pending),
            (Stage::ResumeStatus, Observation::LastTitle { title: Ok(title) }) => (
                Bot { config, stage: Stage::ResumeFetch { title } },
                Action::FetchArchive,
            ),
            (Stage::ResumeStatus, Observation::LastTitle { title: Err(e) }) => stopped(
                config,
                BotError::Parse(e),
            ),
            (Stage::ResumeFetch { title }, Observation::Archive { news: Ok(news) }) => {
                match newest(&news) {
                    Ok(latest) => if !(latest.title == title) {
                        let action = post_action(&latest);
                        (Bot { config, stage: Stage::ResumePost { latest } }, action)
                    } else {
                        (Bot { config, stage: Stage::PollFetch { latest } }, Action::FetchArchive)
                    },
                    Err(e) => stopped(config, BotError::Parse(e)),
                }
            },
            (Stage::ResumeFetch { title }, Observation::Archive { news: Err(e) }) => stopped(
                config,
                BotError::Parse(e),
            ),
            (Stage::ResumePost { latest }, Observation::Posted { id }) => saving(
                config,
                id,
                Stage::ResumeSave { latest },
            ),
            (Stage::ResumeSave { latest }, Observation::Saved) => (
                Bot { config, stage: Stage::PollFetch { latest } },
                Action::FetchArchive,
            ),
            (Stage::PollFetch { latest }, Observation::Archive { news: Ok(news) }) => {
                match newest(&news) {
                    Ok(found) => if !(latest.title == found.title) {
                        let action = post_action(&found);
                        (Bot { config, stage: Stage::PollPost { latest: found } }, action)
                    } else {
                        (
                            Bot { config, stage: Stage::Sleeping { latest } },
                            Action::Sleep { seconds: POLL_SECONDS },
                        )
                    },
                    Err(e) => stopped(config, BotError::Parse(e)),
                }
            },
            (Stage::PollFetch { latest }, Observation::Archive { news: Err(e) }) => stopped(
                config,
                BotError::Parse(e),
            ),
            (Stage::PollPost { latest }, Observation::Posted { id }) => saving(
                config,
                id,
                Stage::PollSave { latest },
            ),
            (Stage::PollSave { latest }, Observation::Saved) => (
                Bot { config, stage: Stage::Sleeping { latest } },
                Action::Sleep { seconds: POLL_SECONDS },
            ),
            (Stage::Sleeping { latest }, Observation::Slept) => (
                Bot { config, stage: Stage::PollFetch { latest } },
                Action::FetchArchive,
            ),
            _ => stopped(config, BotError::UnexpectedEvent),
        }
    }

    /// The bot after `event`, and what it asks for.
    pub fn step(self, event: Event) -> (turn: (Bot, Action))
        ensures
            (turn.0@, turn.1@) == next(self@, observed(event)),
    {
        let seen = observe(event);
        self.decide(seen)
    }
}

} // verus!
