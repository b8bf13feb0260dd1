//! The forum tree extractor. A run logs in, lists the forums of the index,
//! walks the thread-list pages of each forum and then, thread by thread, the
//! reply pages, revealing every reply. The extractor makes the decisions: it
//! hands out one command at a time and takes the event that answers it.
//! Whoever drives the browsing session carries the commands out.

use crate::envelope::{extract_payload, payload_or_empty};
use crate::links::{
    collect_entities, entities_of, links_view, names_view, starter_name, starter_of,
    unknown_poster, unknown_poster_name, RawLink, RawLinkView,
};
use crate::pager::{pager_start, pager_step, Pager, PagerMove, PagerPhase};
use crate::revealer::{
    reveal_start, reveal_step, Report, RevealMove, RevealPhase, Revealer, POLL_INTERVAL_SECS,
};
use crate::structures::{
    entities_view, forums_view, posts_view, threads_view, BaseEntity, BaseEntityView, Forum,
    ForumThread, ForumView, Post, PostView, ScrapeOpts, ScrapeOptsView, ThreadView,
};
use crate::session::NEXT_TIMEOUT_SECS;
use crate::text::{is_blank, str_is_blank};
use vstd::prelude::*;
use vstd::string::StringExecFns;

verus! {

/// Which links of a page are asked for.
#[derive(Clone, Copy, Debug, PartialEq, Eq, Structural)]
pub enum LinkKind {
    /// The links to forums and sub-forums on the index.
    Forum,
    /// The links to threads on a thread-list page.
    Thread,
}

/// What the extractor wants done in the browsing session.
#[derive(Debug, Clone, PartialEq, Eq)]
pub enum Command {
    /// Go to this locator and wait until the page has loaded.
    Navigate(String),
    /// Fill the login form with these credentials, submit it and wait for
    /// the navigation that follows.
    Login { username: String, password: String },
    /// Read the links of this kind off the current page: of each its
    /// locator and its text. Answered by `Links`, or by `Failed` where the
    /// page has none.
    ReadLinks(LinkKind),
    /// Read the poster names off the current page. Answered by `Names`, or
    /// by `Failed` where the page has none.
    ReadPosterNames,
    /// Find the quote controls of the current page. Answered by `Count`, or
    /// by `Failed` where the page has none.
    FindQuotes,
    /// Find the scratch field. Answered by `Done` or `Failed`.
    FindScratch,
    /// Empty the scratch field.
    ClearScratch,
    /// Activate the quote control at this place among those found.
    ClickQuote(usize),
    /// Wait until the page has loaded.
    WaitForLoad,
    /// Read the value of the scratch field. Answered by `Value`.
    ReadScratch,
    /// Let this many seconds pass.
    Sleep(u64),
    /// Read the locator of the current page. Answered by `Url`.
    ReadUrl,
    /// Find the control that leads to the next page, and give the search
    /// up after this many seconds. Answered by `Done` where there is one and
    /// by `Failed` where none has shown up by then.
    FindNext(u64),
    /// Activate the control that leads to the next page.
    ClickNext,
    /// Nothing more: the run is complete.
    Finish,
    /// Nothing more: the run has failed.
    Abort,
}

/// The view of [`Command`].
#[verifier::ext_equal]
pub enum CommandView {
    Navigate(Seq<char>),
    Login { username: Seq<char>, password: Seq<char> },
    ReadLinks(LinkKind),
    ReadPosterNames,
    FindQuotes,
    FindScratch,
    ClearScratch,
    ClickQuote(usize),
    WaitForLoad,
    ReadScratch,
    Sleep(u64),
    ReadUrl,
    FindNext(u64),
    ClickNext,
    Finish,
    Abort,
}

impl View for Command {
    type V = CommandView;

    open spec fn view(&self) -> CommandView {
        match self {
            Command::Navigate(url) => CommandView::Navigate(url@),
            Command::Login { username, password } => CommandView::Login {
                username: username@,
                password: password@,
            },
            Command::ReadLinks(kind) => CommandView::ReadLinks(*kind),
            Command::ReadPosterNames => CommandView::ReadPosterNames,
            Command::FindQuotes => CommandView::FindQuotes,
            Command::FindScratch => CommandView::FindScratch,
            Command::ClearScratch => CommandView::ClearScratch,
            Command::ClickQuote(at) => CommandView::ClickQuote(*at),
            Command::WaitForLoad => CommandView::WaitForLoad,
            Command::ReadScratch => CommandView::ReadScratch,
            Command::Sleep(seconds) => CommandView::Sleep(*seconds),
            Command::ReadUrl => CommandView::ReadUrl,
            Command::FindNext(seconds) => CommandView::FindNext(*seconds),
            Command::ClickNext => CommandView::ClickNext,
            Command::Finish => CommandView::Finish,
            Command::Abort => CommandView::Abort,
        }
    }
}

/// What came of a command.
#[derive(Debug, Clone, PartialEq, Eq)]
pub enum Event {
    /// It was carried out and there is nothing to tell.
    Done,
    /// It could not be carried out, or what it looked for is not there; the
    /// text says what went wrong.
    Failed(String),
    /// The links that were read.
    Links(Vec<RawLink>),
    /// The poster names that were found, each with its text where that
    /// could be read.
    Names(Vec<Option<String>>),
    /// How many controls were found.
    Count(usize),
    /// The value of the scratch field, if it has one.
    Value(Option<String>),
    /// The locator of the current page.
    Url(String),
}

/// The view of [`Event`].
#[verifier::ext_equal]
pub enum EventView {
    Done,
    Failed(Seq<char>),
    Links(Seq<RawLinkView>),
    Names(Seq<Option<Seq<char>>>),
    Count(usize),
    Value(Option<Seq<char>>),
    Url(Seq<char>),
}

impl View for Event {
    type V = EventView;

    open spec fn view(&self) -> EventView {
        match self {
            Event::Done => EventView::Done,
            Event::Failed(why) => EventView::Failed(why@),
            Event::Links(links) => EventView::Links(links_view(links@)),
            Event::Names(names) => EventView::Names(names_view(names@)),
            Event::Count(n) => EventView::Count(*n),
            Event::Value(value) => EventView::Value(value.deep_view()),
            Event::Url(url) => EventView::Url(url@),
        }
    }
}

/// Why a run failed.
#[derive(Debug, Clone, PartialEq, Eq)]
pub enum ScrapeError {
    /// A page could not be reached, or did not finish loading.
    Navigation(String),
    /// The login form could not be filled or submitted.
    Login(String),
    /// A control could not be activated.
    Interaction(String),
    /// A page series has more pages than can be counted.
    PageLimit,
    /// An event came that does not answer the command before it.
    Protocol,
    /// The result was asked for before the run was over.
    Unfinished,
}

/// The view of [`ScrapeError`].
#[verifier::ext_equal]
pub enum ScrapeErrorView {
    Navigation(Seq<char>),
    Login(Seq<char>),
    Interaction(Seq<char>),
    PageLimit,
    Protocol,
    Unfinished,
}

impl View for ScrapeError {
    type V = ScrapeErrorView;

    open spec fn view(&self) -> ScrapeErrorView {
        match self {
            ScrapeError::Navigation(why) => ScrapeErrorView::Navigation(why@),
            ScrapeError::Login(why) => ScrapeErrorView::Login(why@),
            ScrapeError::Interaction(why) => ScrapeErrorView::Interaction(why@),
            ScrapeError::PageLimit => ScrapeErrorView::PageLimit,
            ScrapeError::Protocol => ScrapeErrorView::Protocol,
            ScrapeError::Unfinished => ScrapeErrorView::Unfinished,
        }
    }
}

/// What the extractor is waiting to hear about.
#[derive(Clone, Copy, Debug, PartialEq, Eq, Structural)]
pub enum Stage {
    /// The way to the login page.
    OpeningLogin,
    /// The login.
    SigningIn,
    /// The way to the forum index.
    OpeningIndex,
    /// The forum links of the index.
    ListingForums,
    /// The way to a forum.
    OpeningForum,
    /// The thread links of a thread-list page.
    ListingThreads,
    /// A move towards the next thread-list page.
    TurningThreadPage,
    /// The way to a thread.
    OpeningThread,
    /// The poster names of a thread's landing page.
    ReadingStarter,
    /// The poster names of a reply page.
    ReadingPosters,
    /// The quote controls of a reply page.
    FindingQuotes,
    /// The scratch field, for the next reply.
    FindingScratch,
    /// A move of the reveal of a reply.
    Revealing,
    /// The locator of the page on which a reply was revealed.
    ReadingUrl,
    /// A move towards the next reply page.
    TurningReplyPage,
    /// Nothing: the run is complete.
    Finished,
    /// Nothing: the run has failed.
    Failed,
}

/// The view of [`Scraper`]: all that a run knows at one moment.
#[verifier::ext_equal]
pub struct ScraperView {
    pub opts: ScrapeOptsView,
    pub stage: Stage,
    /// The forums of the index, as far as their links were good.
    pub pending_forums: Seq<BaseEntityView>,
    /// The forums that are complete; they are the first of the pending
    /// ones.
    pub forums: Seq<ForumView>,
    /// The forum that is being worked on.
    pub forum_base: BaseEntityView,
    /// The threads that the thread-list pages of this forum have shown so
    /// far.
    pub pending_threads: Seq<BaseEntityView>,
    /// The threads of this forum that are complete.
    pub threads: Seq<ThreadView>,
    /// The thread that is being worked on.
    pub thread_base: BaseEntityView,
    /// The name of its starter.
    pub poster_name: Seq<char>,
    /// Its replies so far.
    pub replies: Seq<PostView>,
    /// The walk through the current page series.
    pub pager: Pager,
    /// How many quote controls the current reply page has.
    pub quotes: usize,
    /// The place of the control whose reply is being revealed.
    pub quote: usize,
    /// The reveal of that reply.
    pub revealer: Revealer,
    /// What was captured of that reply.
    pub body: Seq<char>,
    /// Why the run failed, if it did.
    pub error: Option<ScrapeErrorView>,
}

/// An entity without locator and title.
pub open spec fn no_entity() -> BaseEntityView {
    BaseEntityView { url: Seq::empty(), title: Seq::empty() }
}

/// The locator of the login page.
pub open spec fn login_url(opts: ScrapeOptsView) -> Seq<char> {
    opts.baseurl + "/login"@
}

/// The locator of the forum index.
pub open spec fn index_url(opts: ScrapeOptsView) -> Seq<char> {
    opts.baseurl + opts.forumbase
}

/// The run at its start, and its first command: nothing is known yet, and
/// the login page is to be opened.
pub open spec fn scrape_start(opts: ScrapeOptsView) -> (ScraperView, CommandView) {
    (
        ScraperView {
            opts,
            stage: Stage::OpeningLogin,
            pending_forums: Seq::empty(),
            forums: Seq::empty(),
            forum_base: no_entity(),
            pending_threads: Seq::empty(),
            threads: Seq::empty(),
            thread_base: no_entity(),
            poster_name: Seq::empty(),
            replies: Seq::empty(),
            pager: pager_start().0,
            quotes: 0,
            quote: 0,
            revealer: reveal_start().0,
            body: Seq::empty(),
            error: None,
        },
        CommandView::Navigate(login_url(opts)),
    )
}

/// The run fails for this reason.
pub open spec fn fail_with(s: ScraperView, error: ScrapeErrorView) -> (ScraperView, CommandView) {
    (ScraperView { stage: Stage::Failed, error: Some(error), ..s }, CommandView::Abort)
}

/// On to the next forum that is pending, or to the end where every forum
/// is complete.
pub open spec fn next_forum(s: ScraperView) -> (ScraperView, CommandView) {
    if s.forums.len() < s.pending_forums.len() {
        let base = s.pending_forums[s.forums.len() as int];
        (
            ScraperView {
                stage: Stage::OpeningForum,
                forum_base: base,
                pending_threads: Seq::empty(),
                threads: Seq::empty(),
                ..s
            },
            CommandView::Navigate(base.url),
        )
    } else {
        (ScraperView { stage: Stage::Finished, ..s }, CommandView::Finish)
    }
}

/// The forum that was worked on is complete: it joins the forums with the
/// threads that were gathered, and the next forum has its turn.
pub open spec fn close_forum(s: ScraperView) -> (ScraperView, CommandView) {
    next_forum(
        ScraperView {
            forums: s.forums.push(ForumView { base: s.forum_base, threads: s.threads }),
            forum_base: no_entity(),
            pending_threads: Seq::empty(),
            threads: Seq::empty(),
            ..s
        },
    )
}

/// On to the next thread of the forum that is pending, or to the end of the
/// forum where every thread is complete.
pub open spec fn next_thread(s: ScraperView) -> (ScraperView, CommandView) {
    if s.threads.len() < s.pending_threads.len() {
        let base = s.pending_threads[s.threads.len() as int];
        (
            ScraperView { stage: Stage::OpeningThread, thread_base: base, ..s },
            CommandView::Navigate(base.url),
        )
    } else {
        close_forum(s)
    }
}

/// The thread that was worked on is complete: it joins the threads of its
/// forum with its starter and its replies, and the next thread has its
/// turn.
pub open spec fn close_thread(s: ScraperView) -> (ScraperView, CommandView) {
    next_thread(
        ScraperView {
            threads: s.threads.push(
                ThreadView {
                    base: s.thread_base,
                    poster_name: s.poster_name,
                    replies: s.replies,
                },
            ),
            thread_base: no_entity(),
            poster_name: Seq::empty(),
            replies: Seq::empty(),
            ..s
        },
    )
}

/// The extraction of the page that is now current begins: on a reply page
/// with its poster names, on a thread-list page with its thread links.
pub open spec fn begin_page(s: ScraperView, replies: bool) -> (ScraperView, CommandView) {
    if replies {
        (ScraperView { stage: Stage::ReadingPosters, ..s }, CommandView::ReadPosterNames)
    } else {
        (
            ScraperView { stage: Stage::ListingThreads, ..s },
            CommandView::ReadLinks(LinkKind::Thread),
        )
    }
}

/// A page series begins, with its first page.
pub open spec fn open_series(s: ScraperView, replies: bool) -> (ScraperView, CommandView) {
    begin_page(ScraperView { pager: pager_start().0, ..s }, replies)
}

/// The stage in which a page of the series is turned.
pub open spec fn turning_stage(replies: bool) -> Stage {
    if replies {
        Stage::TurningReplyPage
    } else {
        Stage::TurningThreadPage
    }
}

/// The pagination driver hears how its last move went, and the run follows
/// its next move. At the end of the reply pages the thread is complete; at
/// the end of the thread-list pages the threads have their turn. Where the
/// driver gives the series up, the run fails with `error`.
pub open spec fn turn_page(s: ScraperView, ok: bool, replies: bool, error: ScrapeErrorView) -> (
    ScraperView,
    CommandView,
) {
    let (pager, next) = pager_step(s.pager, ok);
    let t = ScraperView { pager, stage: turning_stage(replies), ..s };
    match next {
        PagerMove::Extract(_) => begin_page(t, replies),
        PagerMove::FindNext => (t, CommandView::FindNext(NEXT_TIMEOUT_SECS)),
        PagerMove::ClickNext => (t, CommandView::ClickNext),
        PagerMove::WaitForLoad => (t, CommandView::WaitForLoad),
        PagerMove::Stop => if replies {
            close_thread(t)
        } else {
            next_thread(t)
        },
        PagerMove::Fail => fail_with(t, error),
    }
}

/// Why the run fails where a page cannot be turned: the control could not
/// be activated, the page did not load, or the pages cannot be counted any
/// further.
pub open spec fn turning_error(pager: Pager, event: EventView) -> ScrapeErrorView {
    match event {
        EventView::Failed(why) => if pager.phase == PagerPhase::Clicking {
            ScrapeErrorView::Interaction(why)
        } else {
            ScrapeErrorView::Navigation(why)
        },
        _ => ScrapeErrorView::PageLimit,
    }
}

/// On to the next quote control of the page, or to the next page where
/// every control has had its turn.
pub open spec fn next_quote(s: ScraperView) -> (ScraperView, CommandView) {
    if s.quote < s.quotes {
        (ScraperView { stage: Stage::FindingScratch, ..s }, CommandView::FindScratch)
    } else {
        turn_page(s, true, true, ScrapeErrorView::Protocol)
    }
}

/// What an event tells the revealer, if it tells it anything.
pub open spec fn report_of(event: EventView) -> Option<Report> {
    match event {
        EventView::Done => Some(Report::Done),
        EventView::Failed(_) => Some(Report::Failed),
        EventView::Value(Some(value)) => Some(
            if is_blank(value) {
                Report::Blank
            } else {
                Report::Filled
            },
        ),
        EventView::Value(None) => Some(Report::Blank),
        _ => None,
    }
}

/// Why the run fails where a reply cannot be revealed.
pub open spec fn reveal_error(revealer: Revealer, event: EventView) -> ScrapeErrorView {
    match event {
        EventView::Failed(why) => if revealer.phase == RevealPhase::Triggering {
            ScrapeErrorView::Interaction(why)
        } else if revealer.phase == RevealPhase::Settling {
            ScrapeErrorView::Navigation(why)
        } else {
            ScrapeErrorView::Protocol
        },
        _ => ScrapeErrorView::Protocol,
    }
}

/// The body that is kept after an event of a reveal: the payload of the
/// value that a read found filled; otherwise what was kept before.
pub open spec fn body_after(body: Seq<char>, event: EventView) -> Seq<char> {
    match event {
        EventView::Value(Some(value)) => if is_blank(value) {
            body
        } else {
            payload_or_empty(value)
        },
        _ => body,
    }
}

/// The revealer hears what came of its last move, and the run follows its
/// next move. At the end of the reveal the locator of the page is asked
/// for.
pub open spec fn reveal_turn(s: ScraperView, event: EventView) -> (ScraperView, CommandView) {
    match report_of(event) {
        None => fail_with(s, ScrapeErrorView::Protocol),
        Some(report) => {
            let (revealer, next) = reveal_step(s.revealer, report);
            let t = ScraperView { revealer, body: body_after(s.body, event), ..s };
            match next {
                RevealMove::ClearScratch => (t, CommandView::ClearScratch),
                RevealMove::ClickQuote => (t, CommandView::ClickQuote(s.quote)),
                RevealMove::WaitForLoad => (t, CommandView::WaitForLoad),
                RevealMove::ReadScratch => (t, CommandView::ReadScratch),
                RevealMove::Sleep => (t, CommandView::Sleep(POLL_INTERVAL_SECS)),
                RevealMove::Yield => (
                    ScraperView { stage: Stage::ReadingUrl, ..t },
                    CommandView::ReadUrl,
                ),
                RevealMove::Fail => fail_with(t, reveal_error(s.revealer, event)),
            }
        },
    }
}

/// The post that stands for a reply revealed on the page at `url`, as the
/// next reply of its thread.
pub open spec fn new_post(s: ScraperView, url: Seq<char>) -> PostView {
    PostView {
        url,
        poster_name: Seq::empty(),
        bbcode: s.body,
        post_sequence: s.replies.len() as u64,
    }
}

/// The run after an event, and its next command.
pub open spec fn scrape_step(s: ScraperView, event: EventView) -> (ScraperView, CommandView) {
    match s.stage {
        Stage::OpeningLogin => match event {
            EventView::Done => (
                ScraperView { stage: Stage::SigningIn, ..s },
                CommandView::Login { username: s.opts.username, password: s.opts.password },
            ),
            EventView::Failed(why) => fail_with(s, ScrapeErrorView::Navigation(why)),
            _ => fail_with(s, ScrapeErrorView::Protocol),
        },
        Stage::SigningIn => match event {
            EventView::Done => (
                ScraperView { stage: Stage::OpeningIndex, ..s },
                CommandView::Navigate(index_url(s.opts)),
            ),
            EventView::Failed(why) => fail_with(s, ScrapeErrorView::Login(why)),
            _ => fail_with(s, ScrapeErrorView::Protocol),
        },
        Stage::OpeningIndex => match event {
            EventView::Done => (
                ScraperView { stage: Stage::ListingForums, ..s },
                CommandView::ReadLinks(LinkKind::Forum),
            ),
            EventView::Failed(why) => fail_with(s, ScrapeErrorView::Navigation(why)),
            _ => fail_with(s, ScrapeErrorView::Protocol),
        },
        Stage::ListingForums => match event {
            EventView::Links(links) => next_forum(
                ScraperView { pending_forums: entities_of(links), forums: Seq::empty(), ..s },
            ),
            EventView::Failed(_) => next_forum(
                ScraperView { pending_forums: Seq::empty(), forums: Seq::empty(), ..s },
            ),
            _ => fail_with(s, ScrapeErrorView::Protocol),
        },
        Stage::OpeningForum => match event {
            EventView::Done => open_series(s, false),
            EventView::Failed(why) => fail_with(s, ScrapeErrorView::Navigation(why)),
            _ => fail_with(s, ScrapeErrorView::Protocol),
        },
        Stage::ListingThreads => match event {
            EventView::Links(links) => turn_page(
                ScraperView { pending_threads: s.pending_threads + entities_of(links), ..s },
                true,
                false,
                ScrapeErrorView::Protocol,
            ),
            EventView::Failed(_) => turn_page(s, true, false, ScrapeErrorView::Protocol),
            _ => fail_with(s, ScrapeErrorView::Protocol),
        },
        Stage::TurningThreadPage => match event {
            EventView::Done => turn_page(s, true, false, turning_error(s.pager, event)),
            EventView::Failed(_) => turn_page(s, false, false, turning_error(s.pager, event)),
            _ => fail_with(s, ScrapeErrorView::Protocol),
        },
        Stage::OpeningThread => match event {
            EventView::Done => (
                ScraperView { stage: Stage::ReadingStarter, ..s },
                CommandView::ReadPosterNames,
            ),
            EventView::Failed(why) => fail_with(s, ScrapeErrorView::Navigation(why)),
            _ => fail_with(s, ScrapeErrorView::Protocol),
        },
        Stage::ReadingStarter => match event {
            EventView::Names(names) => open_series(
                ScraperView { poster_name: starter_of(names), replies: Seq::empty(), ..s },
                true,
            ),
            EventView::Failed(_) => open_series(
                ScraperView { poster_name: unknown_poster(), replies: Seq::empty(), ..s },
                true,
            ),
            _ => fail_with(s, ScrapeErrorView::Protocol),
        },
        Stage::ReadingPosters => match event {
            EventView::Names(_) | EventView::Failed(_) => (
                ScraperView { stage: Stage::FindingQuotes, ..s },
                CommandView::FindQuotes,
            ),
            _ => fail_with(s, ScrapeErrorView::Protocol),
        },
        Stage::FindingQuotes => match event {
            EventView::Count(n) => next_quote(ScraperView { quotes: n, quote: 0, ..s }),
            EventView::Failed(_) => next_quote(ScraperView { quotes: 0, quote: 0, ..s }),
            _ => fail_with(s, ScrapeErrorView::Protocol),
        },
        Stage::FindingScratch => match event {
            EventView::Done => (
                ScraperView {
                    stage: Stage::Revealing,
                    revealer: reveal_start().0,
                    body: Seq::empty(),
                    ..s
                },
                CommandView::ClearScratch,
            ),
            EventView::Failed(_) => turn_page(s, true, true, ScrapeErrorView::Protocol),
            _ => fail_with(s, ScrapeErrorView::Protocol),
        },
        Stage::Revealing => reveal_turn(s, event),
        Stage::ReadingUrl => match event {
            EventView::Url(url) => next_quote(
                ScraperView {
                    replies: s.replies.push(new_post(s, url)),
                    body: Seq::empty(),
                    quote: if s.quote < s.quotes {
                        (s.quote + 1) as usize
                    } else {
                        s.quote
                    },
                    ..s
                },
            ),
            _ => fail_with(s, ScrapeErrorView::Protocol),
        },
        Stage::TurningReplyPage => match event {
            EventView::Done => turn_page(s, true, true, turning_error(s.pager, event)),
            EventView::Failed(_) => turn_page(s, false, true, turning_error(s.pager, event)),
            _ => fail_with(s, ScrapeErrorView::Protocol),
        },
        Stage::Finished => (s, CommandView::Finish),
        Stage::Failed => (s, CommandView::Abort),
    }
}

/// What a run has to show when it is asked for its result: the forums if
/// it is complete, its error if it failed, and `Unfinished` before that.
pub open spec fn outcome(s: ScraperView) -> Result<Seq<ForumView>, ScrapeErrorView> {
    match s.stage {
        Stage::Finished => Ok(s.forums),
        Stage::Failed => match s.error {
            Some(error) => Err(error),
            None => Err(ScrapeErrorView::Protocol),
        },
        _ => Err(ScrapeErrorView::Unfinished),
    }
}

/// A run of the extractor: what it has gathered and what it is waiting for.
pub struct Scraper {
    opts: ScrapeOpts,
    stage: Stage,
    pending_forums: Vec<BaseEntity>,
    forums: Vec<Forum>,
    forum_base: BaseEntity,
    pending_threads: Vec<BaseEntity>,
    threads: Vec<ForumThread>,
    thread_base: BaseEntity,
    poster_name: String,
    replies: Vec<Post>,
    pager: Pager,
    quotes: usize,
    quote: usize,
    revealer: Revealer,
    body: String,
    error: Option<ScrapeError>,
}

impl View for Scraper {
    type V = ScraperView;

    closed spec fn view(&self) -> ScraperView {
        ScraperView {
            opts: self.opts@,
            stage: self.stage,
            pending_forums: entities_view(self.pending_forums@),
            forums: forums_view(self.forums@),
            forum_base: self.forum_base@,
            pending_threads: entities_view(self.pending_threads@),
            threads: threads_view(self.threads@),
            thread_base: self.thread_base@,
            poster_name: self.poster_name@,
            replies: posts_view(self.replies@),
            pager: self.pager,
            quotes: self.quotes,
            quote: self.quote,
            revealer: self.revealer,
            body: self.body@,
            error: match self.error {
                Some(error) => Some(error@),
                None => None,
            },
        }
    }
}

/// Begins a run: returns the extractor in its first state and the first
/// command, which opens the login page.
pub fn scrape(opts: ScrapeOpts) -> (begun: (Scraper, Command))
    ensures
        begun.0@ == scrape_start(opts@).0,
        begun.1@ == scrape_start(opts@).1,
{
    let mut url = opts.baseurl.clone();
    url.append("/login");
    let run = Scraper {
        opts,
        stage: Stage::OpeningLogin,
        pending_forums: Vec::new(),
        forums: Vec::new(),
        forum_base: BaseEntity::default(),
        pending_threads: Vec::new(),
        threads: Vec::new(),
        thread_base: BaseEntity::default(),
        poster_name: String::new(),
        replies: Vec::new(),
        pager: Pager::start().0,
        quotes: 0,
        quote: 0,
        revealer: Revealer::start().0,
        body: String::new(),
        error: None,
    };
    assert(run@ =~~= scrape_start(opts@).0);
    (run, Command::Navigate(url))
}

impl Scraper {
    /// What the extractor is waiting to hear about.
    pub fn stage(&self) -> (stage: Stage)
        ensures
            stage == self@.stage,
    {
        self.stage
    }

    /// Tells whether the run is over, complete or failed.
    pub fn is_over(&self) -> (over: bool)
        ensures
            over == (self@.stage == Stage::Finished || self@.stage == Stage::Failed),
    {
        match self.stage {
            Stage::Finished => true,
            Stage::Failed => true,
            _ => false,
        }
    }

    fn fail_with(self, error: ScrapeError) -> (next: (Scraper, Command))
        ensures
            next.0@ == fail_with(self@, error@).0,
            next.1@ == fail_with(self@, error@).1,
    {
        let mut s = self;
        s.stage = Stage::Failed;
        s.error = Some(error);
        assert(s@ =~~= fail_with(self@, error@).0);
        (s, Command::Abort)
    }

    fn next_forum(self) -> (next: (Scraper, Command))
        ensures
            next.0@ == next_forum(self@).0,
            next.1@ == next_forum(self@).1,
    {
        let mut s = self;
        let done: usize = s.forums.len();
        if done < s.pending_forums.len() {
            let base = s.pending_forums[done].duplicate();
            let url = base.url.clone();
            s.stage = Stage::OpeningForum;
            s.forum_base = base;
            s.pending_threads = Vec::new();
            s.threads = Vec::new();
            assert(s@ =~~= next_forum(self@).0);
            (s, Command::Navigate(url))
        } else {
            s.stage = Stage::Finished;
            assert(s@ =~~= next_forum(self@).0);
            (s, Command::Finish)
        }
    }

    fn close_forum(self) -> (next: (Scraper, Command))
        ensures
            next.0@ == close_forum(self@).0,
            next.1@ == close_forum(self@).1,
    {
        let mut s = self;
        let mut threads: Vec<ForumThread> = Vec::new();
        core::mem::swap(&mut threads, &mut s.threads);
        let mut base = BaseEntity::default();
        core::mem::swap(&mut base, &mut s.forum_base);
        let forum = Forum { base, threads };
        s.forums.push(forum);
        s.pending_threads = Vec::new();
        assert(forum@ == ForumView { base: self@.forum_base, threads: self@.threads });
        assert(forums_view(s.forums@) =~= forums_view(self.forums@).push(forum@));
        assert(s@ =~~= ScraperView {
            forums: self@.forums.push(
                ForumView { base: self@.forum_base, threads: self@.threads },
            ),
            forum_base: no_entity(),
            pending_threads: Seq::empty(),
            threads: Seq::empty(),
            ..self@
        });
        s.next_forum()
    }

    fn next_thread(self) -> (next: (Scraper, Command))
        ensures
            next.0@ == next_thread(self@).0,
            next.1@ == next_thread(self@).1,
    {
        let mut s = self;
        let done: usize = s.threads.len();
        if done < s.pending_threads.len() {
            let base = s.pending_threads[done].duplicate();
            let url = base.url.clone();
            s.stage = Stage::OpeningThread;
            s.thread_base = base;
            assert(s@ =~~= next_thread(self@).0);
            (s, Command::Navigate(url))
        } else {
            s.close_forum()
        }
    }

    fn close_thread(self) -> (next: (Scraper, Command))
        ensures
            next.0@ == close_thread(self@).0,
            next.1@ == close_thread(self@).1,
    {
        let mut s = self;
        let mut replies: Vec<Post> = Vec::new();
        core::mem::swap(&mut replies, &mut s.replies);
        let mut base = BaseEntity::default();
        core::mem::swap(&mut base, &mut s.thread_base);
        let mut poster_name = String::new();
        core::mem::swap(&mut poster_name, &mut s.poster_name);
        let thread = ForumThread { base, poster_name, replies };
        s.threads.push(thread);
        assert(thread@ == ThreadView {
            base: self@.thread_base,
            poster_name: self@.poster_name,
            replies: self@.replies,
        });
        assert(threads_view(s.threads@) =~= threads_view(self.threads@).push(thread@));
        assert(s@ =~~= ScraperView {
            threads: self@.threads.push(
                ThreadView {
                    base: self@.thread_base,
                    poster_name: self@.poster_name,
                    replies: self@.replies,
                },
            ),
            thread_base: no_entity(),
            poster_name: Seq::empty(),
            replies: Seq::empty(),
            ..self@
        });
        s.next_thread()
    }

    fn begin_page(self, replies: bool) -> (next: (Scraper, Command))
        ensures
            next.0@ == begin_page(self@, replies).0,
            next.1@ == begin_page(self@, replies).1,
    {
        let mut s = self;
        if replies {
            s.stage = Stage::ReadingPosters;
            assert(s@ =~~= begin_page(self@, replies).0);
            (s, Command::ReadPosterNames)
        } else {
            s.stage = Stage::ListingThreads;
            assert(s@ =~~= begin_page(self@, replies).0);
            (s, Command::ReadLinks(LinkKind::Thread))
        }
    }

    fn open_series(self, replies: bool) -> (next: (Scraper, Command))
        ensures
            next.0@ == open_series(self@, replies).0,
            next.1@ == open_series(self@, replies).1,
    {
        let mut s = self;
        s.pager = Pager::start().0;
        assert(s@ =~~= ScraperView { pager: pager_start().0, ..self@ });
        s.begin_page(replies)
    }

    fn turn_page(self, ok: bool, replies: bool, error: ScrapeError) -> (next: (Scraper, Command))
        ensures
            next.0@ == turn_page(self@, ok, replies, error@).0,
            next.1@ == turn_page(self@, ok, replies, error@).1,
    {
        let mut s = self;
        let (pager, next) = s.pager.step(ok);
        s.pager = pager;
        s.stage = if replies {
            Stage::TurningReplyPage
        } else {
            Stage::TurningThreadPage
        };
        assert(s@ =~~= ScraperView { pager, stage: turning_stage(replies), ..self@ });
        match next {
            PagerMove::Extract(_) => s.begin_page(replies),
            PagerMove::FindNext => (s, Command::FindNext(NEXT_TIMEOUT_SECS)),
            PagerMove::ClickNext => (s, Command::ClickNext),
            PagerMove::WaitForLoad => (s, Command::WaitForLoad),
            PagerMove::Stop => if replies {
                s.close_thread()
            } else {
                s.next_thread()
            },
            PagerMove::Fail => s.fail_with(error),
        }
    }

    fn next_quote(self) -> (next: (Scraper, Command))
        ensures
            next.0@ == next_quote(self@).0,
            next.1@ == next_quote(self@).1,
    {
        if self.quote < self.quotes {
            let mut s = self;
            s.stage = Stage::FindingScratch;
            assert(s@ =~~= next_quote(self@).0);
            (s, Command::FindScratch)
        } else {
            self.turn_page(true, true, ScrapeError::Protocol)
        }
    }

    fn reveal_turn(self, event: Event) -> (next: (Scraper, Command))
        ensures
            next.0@ == reveal_turn(self@, event@).0,
            next.1@ == reveal_turn(self@, event@).1,
    {
        let mut s = self;
        let before: Revealer = s.revealer;
        let mut error = ScrapeError::Protocol;
        let report = match event {
            Event::Done => Report::Done,
            Event::Failed(why) => {
                if before.phase == RevealPhase::Triggering {
                    error = ScrapeError::Interaction(why);
                } else if before.phase == RevealPhase::Settling {
                    error = ScrapeError::Navigation(why);
                }
                Report::Failed
            },
            Event::Value(Some(value)) => {
                if str_is_blank(value.as_str()) {
                    Report::Blank
                } else {
                    s.body = extract_payload(value.as_str());
                    Report::Filled
                }
            },
            Event::Value(None) => Report::Blank,
            _ => {
                return s.fail_with(ScrapeError::Protocol);
            },
        };
        assert(report_of(event@) == Some(report));
        assert(error@ == reveal_error(before, event@));
        let (revealer, next) = before.step(report);
        s.revealer = revealer;
        assert(s@ =~~= ScraperView {
            revealer,
            body: body_after(self@.body, event@),
            ..self@
        });
        match next {
            RevealMove::ClearScratch => (s, Command::ClearScratch),
            RevealMove::ClickQuote => {
                let at: usize = s.quote;
                (s, Command::ClickQuote(at))
            },
            RevealMove::WaitForLoad => (s, Command::WaitForLoad),
            RevealMove::ReadScratch => (s, Command::ReadScratch),
            RevealMove::Sleep => (s, Command::Sleep(POLL_INTERVAL_SECS)),
            RevealMove::Yield => {
                let ghost t = s@;
                s.stage = Stage::ReadingUrl;
                assert(s@ =~~= ScraperView { stage: Stage::ReadingUrl, ..t });
                (s, Command::ReadUrl)
            },
            RevealMove::Fail => s.fail_with(error),
        }
    }

    fn on_opening_login(self, event: Event) -> (next: (Scraper, Command))
        requires
            self@.stage == Stage::OpeningLogin,
        ensures
            next.0@ == scrape_step(self@, event@).0,
            next.1@ == scrape_step(self@, event@).1,
    {
        match event {
            Event::Done => {
                let mut s = self;
                s.stage = Stage::SigningIn;
                let username = s.opts.username.clone();
                let password = s.opts.password.clone();
                assert(s@ =~~= ScraperView { stage: Stage::SigningIn, ..self@ });
                (s, Command::Login { username, password })
            },
            Event::Failed(why) => self.fail_with(ScrapeError::Navigation(why)),
            _ => self.fail_with(ScrapeError::Protocol),
        }
    }

    fn on_signing_in(self, event: Event) -> (next: (Scraper, Command))
        requires
            self@.stage == Stage::SigningIn,
        ensures
            next.0@ == scrape_step(self@, event@).0,
            next.1@ == scrape_step(self@, event@).1,
    {
        match event {
            Event::Done => {
                let mut s = self;
                s.stage = Stage::OpeningIndex;
                let mut url = s.opts.baseurl.clone();
                url.append(s.opts.forumbase.as_str());
                assert(s@ =~~= ScraperView { stage: Stage::OpeningIndex, ..self@ });
                (s, Command::Navigate(url))
            },
            Event::Failed(why) => self.fail_with(ScrapeError::Login(why)),
            _ => self.fail_with(ScrapeError::Protocol),
        }
    }

    fn on_opening_index(self, event: Event) -> (next: (Scraper, Command))
        requires
            self@.stage == Stage::OpeningIndex,
        ensures
            next.0@ == scrape_step(self@, event@).0,
            next.1@ == scrape_step(self@, event@).1,
    {
        match event {
            Event::Done => {
                let mut s = self;
                s.stage = Stage::ListingForums;
                assert(s@ =~~= ScraperView { stage: Stage::ListingForums, ..self@ });
                (s, Command::ReadLinks(LinkKind::Forum))
            },
            Event::Failed(why) => self.fail_with(ScrapeError::Navigation(why)),
            _ => self.fail_with(ScrapeError::Protocol),
        }
    }

    fn on_listing_forums(self, event: Event) -> (next: (Scraper, Command))
        requires
            self@.stage == Stage::ListingForums,
        ensures
            next.0@ == scrape_step(self@, event@).0,
            next.1@ == scrape_step(self@, event@).1,
    {
        match event {
            Event::Links(links) => {
                let mut s = self;
                s.pending_forums = collect_entities(&links);
                s.forums = Vec::new();
                assert(s@ =~~= ScraperView {
                    pending_forums: entities_of(links_view(links@)),
                    forums: Seq::empty(),
                    ..self@
                });
                s.next_forum()
            },
            Event::Failed(_) => {
                let mut s = self;
                s.pending_forums = Vec::new();
                s.forums = Vec::new();
                assert(s@ =~~= ScraperView {
                    pending_forums: Seq::empty(),
                    forums: Seq::empty(),
                    ..self@
                });
                s.next_forum()
            },
            _ => self.fail_with(ScrapeError::Protocol),
        }
    }

    fn on_opening_forum(self, event: Event) -> (next: (Scraper, Command))
        requires
            self@.stage == Stage::OpeningForum,
        ensures
            next.0@ == scrape_step(self@, event@).0,
            next.1@ == scrape_step(self@, event@).1,
    {
        match event {
            Event::Done => self.open_series(false),
            Event::Failed(why) => self.fail_with(ScrapeError::Navigation(why)),
            _ => self.fail_with(ScrapeError::Protocol),
        }
    }

    fn on_listing_threads(self, event: Event) -> (next: (Scraper, Command))
        requires
            self@.stage == Stage::ListingThreads,
        ensures
            next.0@ == scrape_step(self@, event@).0,
            next.1@ == scrape_step(self@, event@).1,
    {
        match event {
            Event::Links(links) => {
                let mut s = self;
                let mut found = collect_entities(&links);
                s.pending_threads.append(&mut found);
                assert(s@ =~~= ScraperView {
                    pending_threads: self@.pending_threads + entities_of(links_view(links@)),
                    ..self@
                });
                s.turn_page(true, false, ScrapeError::Protocol)
            },
            Event::Failed(_) => self.turn_page(true, false, ScrapeError::Protocol),
            _ => self.fail_with(ScrapeError::Protocol),
        }
    }

    fn on_turning_thread_page(self, event: Event) -> (next: (Scraper, Command))
        requires
            self@.stage == Stage::TurningThreadPage,
        ensures
            next.0@ == scrape_step(self@, event@).0,
            next.1@ == scrape_step(self@, event@).1,
    {
        match event {
            Event::Done => self.turn_page(true, false, ScrapeError::PageLimit),
            Event::Failed(why) => {
                let error = if self.pager.phase == PagerPhase::Clicking {
                    ScrapeError::Interaction(why)
                } else {
                    ScrapeError::Navigation(why)
                };
                self.turn_page(false, false, error)
            },
            _ => self.fail_with(ScrapeError::Protocol),
        }
    }

    fn on_opening_thread(self, event: Event) -> (next: (Scraper, Command))
        requires
            self@.stage == Stage::OpeningThread,
        ensures
            next.0@ == scrape_step(self@, event@).0,
            next.1@ == scrape_step(self@, event@).1,
    {
        match event {
            Event::Done => {
                let mut s = self;
                s.stage = Stage::ReadingStarter;
                assert(s@ =~~= ScraperView { stage: Stage::ReadingStarter, ..self@ });
                (s, Command::ReadPosterNames)
            },
            Event::Failed(why) => self.fail_with(ScrapeError::Navigation(why)),
            _ => self.fail_with(ScrapeError::Protocol),
        }
    }

    fn on_reading_starter(self, event: Event) -> (next: (Scraper, Command))
        requires
            self@.stage == Stage::ReadingStarter,
        ensures
            next.0@ == scrape_step(self@, event@).0,
            next.1@ == scrape_step(self@, event@).1,
    {
        match event {
            Event::Names(names) => {
                let mut s = self;
                s.poster_name = starter_name(&names);
                s.replies = Vec::new();
                assert(s@ =~~= ScraperView {
                    poster_name: starter_of(names_view(names@)),
                    replies: Seq::empty(),
                    ..self@
                });
                s.open_series(true)
            },
            Event::Failed(_) => {
                let mut s = self;
                s.poster_name = unknown_poster_name();
                s.replies = Vec::new();
                assert(s@ =~~= ScraperView {
                    poster_name: unknown_poster(),
                    replies: Seq::empty(),
                    ..self@
                });
                s.open_series(true)
            },
            _ => self.fail_with(ScrapeError::Protocol),
        }
    }

    fn on_reading_posters(self, event: Event) -> (next: (Scraper, Command))
        requires
            self@.stage == Stage::ReadingPosters,
        ensures
            next.0@ == scrape_step(self@, event@).0,
            next.1@ == scrape_step(self@, event@).1,
    {
        match event {
            Event::Names(_) | Event::Failed(_) => {
                let mut s = self;
                s.stage = Stage::FindingQuotes;
                assert(s@ =~~= ScraperView { stage: Stage::FindingQuotes, ..self@ });
                (s, Command::FindQuotes)
            },
            _ => self.fail_with(ScrapeError::Protocol),
        }
    }

    fn on_finding_quotes(self, event: Event) -> (next: (Scraper, Command))
        requires
            self@.stage == Stage::FindingQuotes,
        ensures
            next.0@ == scrape_step(self@, event@).0,
            next.1@ == scrape_step(self@, event@).1,
    {
        match event {
            Event::Count(n) => {
                let mut s = self;
                s.quotes = n;
                s.quote = 0;
                assert(s@ =~~= ScraperView { quotes: n, quote: 0, ..self@ });
                s.next_quote()
            },
            Event::Failed(_) => {
                let mut s = self;
                s.quotes = 0;
                s.quote = 0;
                assert(s@ =~~= ScraperView { quotes: 0, quote: 0, ..self@ });
                s.next_quote()
            },
            _ => self.fail_with(ScrapeError::Protocol),
        }
    }

    fn on_finding_scratch(self, event: Event) -> (next: (Scraper, Command))
        requires
            self@.stage == Stage::FindingScratch,
        ensures
            next.0@ == scrape_step(self@, event@).0,
            next.1@ == scrape_step(self@, event@).1,
    {
        match event {
            Event::Done => {
                let mut s = self;
                s.stage = Stage::Revealing;
                s.revealer = Revealer::start().0;
                s.body = String::new();
                assert(s@ =~~= ScraperView {
                    stage: Stage::Revealing,
                    revealer: reveal_start().0,
                    body: Seq::empty(),
                    ..self@
                });
                (s, Command::ClearScratch)
            },
            Event::Failed(_) => self.turn_page(true, true, ScrapeError::Protocol),
            _ => self.fail_with(ScrapeError::Protocol),
        }
    }

    fn on_reading_url(self, event: Event) -> (next: (Scraper, Command))
        requires
            self@.stage == Stage::ReadingUrl,
        ensures
            next.0@ == scrape_step(self@, event@).0,
            next.1@ == scrape_step(self@, event@).1,
    {
        match event {
            Event::Url(url) => {
                let mut s = self;
                let mut bbcode = String::new();
                core::mem::swap(&mut bbcode, &mut s.body);
                let post = Post {
                    url,
                    poster_name: String::new(),
                    bbcode,
                    post_sequence: s.replies.len() as u64,
                };
                assert(post@ =~~= new_post(self@, url@));
                s.replies.push(post);
                if s.quote < s.quotes {
                    s.quote = s.quote + 1;
                }
                assert(s@ =~~= ScraperView {
                    replies: self@.replies.push(new_post(self@, url@)),
                    body: Seq::empty(),
                    quote: if self@.quote < self@.quotes {
                        (self@.quote + 1) as usize
                    } else {
                        self@.quote
                    },
                    ..self@
                });
                s.next_quote()
            },
            _ => self.fail_with(ScrapeError::Protocol),
        }
    }

    fn on_turning_reply_page(self, event: Event) -> (next: (Scraper, Command))
        requires
            self@.stage == Stage::TurningReplyPage,
        ensures
            next.0@ == scrape_step(self@, event@).0,
            next.1@ == scrape_step(self@, event@).1,
    {
        match event {
            Event::Done => self.turn_page(true, true, ScrapeError::PageLimit),
            Event::Failed(why) => {
                let error = if self.pager.phase == PagerPhase::Clicking {
                    ScrapeError::Interaction(why)
                } else {
                    ScrapeError::Navigation(why)
                };
                self.turn_page(false, true, error)
            },
            _ => self.fail_with(ScrapeError::Protocol),
        }
    }

    /// Takes the event that answers the last command and returns the run
    /// in its next state with the next command.
    pub fn step(self, event: Event) -> (next: (Scraper, Command))
        ensures
            next.0@ == scrape_step(self@, event@).0,
            next.1@ == scrape_step(self@, event@).1,
    {
        match self.stage {
            Stage::OpeningLogin => self.on_opening_login(event),
            Stage::SigningIn => self.on_signing_in(event),
            Stage::OpeningIndex => self.on_opening_index(event),
            Stage::ListingForums => self.on_listing_forums(event),
            Stage::OpeningForum => self.on_opening_forum(event),
            Stage::ListingThreads => self.on_listing_threads(event),
            Stage::TurningThreadPage => self.on_turning_thread_page(event),
            Stage::OpeningThread => self.on_opening_thread(event),
            Stage::ReadingStarter => self.on_reading_starter(event),
            Stage::ReadingPosters => self.on_reading_posters(event),
            Stage::FindingQuotes => self.on_finding_quotes(event),
            Stage::FindingScratch => self.on_finding_scratch(event),
            Stage::Revealing => self.reveal_turn(event),
            Stage::ReadingUrl => self.on_reading_url(event),
            Stage::TurningReplyPage => self.on_turning_reply_page(event),
            Stage::Finished => (self, Command::Finish),
            Stage::Failed => (self, Command::Abort),
        }
    }

    /// Ends the run and hands out its result: the forums where the run is
    /// complete, the reason where it failed, and `Unfinished` where it is
    /// still under way.
    pub fn finish(self) -> (result: Result<Vec<Forum>, ScrapeError>)
        ensures
            match result {
                Ok(forums) => outcome(self@) == Ok::<Seq<ForumView>, ScrapeErrorView>(
                    forums_view(forums@),
                ),
                Err(error) => outcome(self@) == Err::<Seq<ForumView>, ScrapeErrorView>(error@),
            },
    {
        match self.stage {
            Stage::Finished => Ok(self.forums),
            Stage::Failed => match self.error {
                Some(error) => Err(error),
                None => Err(ScrapeError::Protocol),
            },
            _ => Err(ScrapeError::Unfinished),
        }
    }
}

} // verus!
