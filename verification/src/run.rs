//! Whole runs of the extractor, and what holds of them whatever the
//! browsing session answers.

use crate::links::{all_named, entities_of, lemma_entities_named, named, RawLinkView};
use crate::pager::{pager_step, Pager, PagerMove, PagerPhase};
use crate::revealer::{
    reveal_step, Report, RevealMove, RevealPhase, POLL_INTERVAL_SECS, POLL_LIMIT,
};
use crate::scraping::{
    body_after, close_forum, close_thread, fail_with, index_url, login_url, new_post,
    next_forum, next_quote, next_thread, no_entity, outcome, report_of, reveal_turn,
    scrape_start, scrape_step, turn_page, turning_error, turning_stage, CommandView, EventView,
    LinkKind, ScrapeErrorView, ScraperView, Stage,
};
use crate::session::NEXT_TIMEOUT_SECS;
use crate::structures::{ForumView, PostView, ScrapeOptsView, ThreadView};
use vstd::prelude::*;

verus! {

/// The run after a series of events, from the state `s`.
pub open spec fn run_from(s: ScraperView, events: Seq<EventView>) -> ScraperView
    decreases events.len(),
{
    if events.len() == 0 {
        s
    } else {
        scrape_step(run_from(s, events.drop_last()), events.last()).0
    }
}

/// One more event is one more step.
pub proof fn lemma_run_push(s: ScraperView, events: Seq<EventView>, event: EventView)
    ensures
        run_from(s, events.push(event)) == scrape_step(run_from(s, events), event).0,
{
    assert(events.push(event).drop_last() =~= events);
}

/// A run over two series of events, one after the other, is the run over
/// the second from where the run over the first has come.
pub proof fn lemma_run_concat(s: ScraperView, a: Seq<EventView>, b: Seq<EventView>)
    ensures
        run_from(s, a + b) == run_from(run_from(s, a), b),
    decreases b.len(),
{
    if b.len() == 0 {
        assert(a + b =~= a);
    } else {
        lemma_run_concat(s, a, b.drop_last());
        assert((a + b).drop_last() =~= a + b.drop_last());
        assert((a + b).last() == b.last());
    }
}

/// The run after a series of events, from the start.
pub open spec fn scrape_run(opts: ScrapeOptsView, events: Seq<EventView>) -> ScraperView {
    run_from(scrape_start(opts).0, events)
}

/// Whether each reply carries its place among the replies as its number.
pub open spec fn numbered(replies: Seq<PostView>) -> bool {
    forall|i: int| 0 <= i < replies.len() ==> (#[trigger] replies[i]).post_sequence == i as u64
}

/// Whether a thread has a locator and a title, and numbered replies.
pub open spec fn thread_sound(thread: ThreadView) -> bool {
    named(thread.base) && numbered(thread.replies)
}

/// Whether a forum has a locator and a title, and only sound threads.
pub open spec fn forum_sound(forum: ForumView) -> bool {
    &&& named(forum.base)
    &&& forall|j: int| 0 <= j < forum.threads.len() ==> thread_sound(#[trigger] forum.threads[j])
}

/// Whether a tree has only sound forums.
pub open spec fn tree_sound(forums: Seq<ForumView>) -> bool {
    forall|i: int| 0 <= i < forums.len() ==> forum_sound(#[trigger] forums[i])
}

/// Whether the run is at work on a forum in this stage.
pub open spec fn in_forum(stage: Stage) -> bool {
    match stage {
        Stage::OpeningLogin | Stage::SigningIn | Stage::OpeningIndex | Stage::ListingForums
        | Stage::Finished | Stage::Failed => false,
        _ => true,
    }
}

/// Whether the run is at work on a thread in this stage.
pub open spec fn in_thread(stage: Stage) -> bool {
    match stage {
        Stage::OpeningThread | Stage::ReadingStarter | Stage::ReadingPosters
        | Stage::FindingQuotes | Stage::FindingScratch | Stage::Revealing | Stage::ReadingUrl
        | Stage::TurningReplyPage => true,
        _ => false,
    }
}

/// Whether a page is being extracted in this stage.
pub open spec fn extracting(stage: Stage) -> bool {
    match stage {
        Stage::ListingThreads | Stage::ReadingPosters | Stage::FindingQuotes
        | Stage::FindingScratch | Stage::Revealing | Stage::ReadingUrl => true,
        _ => false,
    }
}

/// Whether a page is being turned in this stage.
pub open spec fn turning(stage: Stage) -> bool {
    stage == Stage::TurningThreadPage || stage == Stage::TurningReplyPage
}

/// What holds of the tree of a run at every moment. The forums that are
/// complete are the first of those that the index showed, in their order,
/// and the forum at work is the next of them; likewise the threads of the
/// forum at work. Everything in the tree has a locator and a title, the
/// replies of each thread are numbered from 0, no reveal reads the scratch
/// field more than `POLL_LIMIT` times, and a reveal holds a body only if
/// one of its own reads has found the field filled.
pub open spec fn settled(s: ScraperView) -> bool {
    &&& all_named(s.pending_forums)
    &&& s.forums.len() <= s.pending_forums.len()
    &&& forall|i: int|
        0 <= i < s.forums.len() ==> (#[trigger] s.forums[i]).base == s.pending_forums[i]
    &&& tree_sound(s.forums)
    &&& all_named(s.pending_threads)
    &&& s.threads.len() <= s.pending_threads.len()
    &&& forall|j: int|
        0 <= j < s.threads.len() ==> (#[trigger] s.threads[j]).base == s.pending_threads[j]
    &&& forall|j: int| 0 <= j < s.threads.len() ==> thread_sound(#[trigger] s.threads[j])
    &&& numbered(s.replies)
    &&& s.revealer.attempts <= POLL_LIMIT
    &&& s.pager.page >= 1
    &&& in_forum(s.stage) ==> s.forums.len() < s.pending_forums.len() && s.forum_base
        == s.pending_forums[s.forums.len() as int]
    &&& in_thread(s.stage) ==> s.threads.len() < s.pending_threads.len() && s.thread_base
        == s.pending_threads[s.threads.len() as int]
    &&& s.stage == Stage::Finished ==> s.forums.len() == s.pending_forums.len()
    &&& s.stage == Stage::Failed ==> s.error is Some
    &&& (s.stage == Stage::Revealing || s.stage == Stage::ReadingUrl) && !s.revealer.captured
        ==> s.body.len() == 0
}

/// Whether the pagination driver and the revealer are where the stage of
/// the run says: the driver waits for an extraction while a page is
/// extracted, and for a move towards the next page while a page is turned;
/// the revealer is at work while a reply is revealed.
pub open spec fn aligned(s: ScraperView) -> bool {
    &&& extracting(s.stage) ==> s.pager.phase == PagerPhase::Extracting
    &&& turning(s.stage) ==> s.pager.phase == PagerPhase::Seeking || s.pager.phase
        == PagerPhase::Clicking || s.pager.phase == PagerPhase::Loading
    &&& s.stage == Stage::Revealing ==> s.revealer.phase != RevealPhase::Done && s.revealer.phase
        != RevealPhase::Failed
}

/// Replies are held only while a thread is at work, or after a failure.
pub open spec fn tidy(s: ScraperView) -> bool {
    !in_thread(s.stage) && s.stage != Stage::Failed ==> s.replies.len() == 0
}

/// What holds of a run at every moment: its tree is settled, the
/// pagination driver is aligned with its stage, and it is tidy.
pub open spec fn coherent(s: ScraperView) -> bool {
    settled(s) && aligned(s) && tidy(s)
}

/// A failure leaves the tree as it is.
proof fn lemma_fail_settled(s: ScraperView, error: ScrapeErrorView)
    requires
        settled(s),
    ensures
        settled(fail_with(s, error).0),
{
}

/// The choice of the next forum keeps the tree settled.
proof fn lemma_next_forum_settled(s: ScraperView)
    requires
        settled(ScraperView { stage: Stage::ListingForums, ..s }),
    ensures
        settled(next_forum(s).0),
{
}

/// A forum that is complete joins the tree, and the tree stays settled.
proof fn lemma_close_forum_settled(s: ScraperView)
    requires
        settled(s),
        in_forum(s.stage),
        s.threads.len() == s.pending_threads.len(),
    ensures
        settled(close_forum(s).0),
{
    let forum = ForumView { base: s.forum_base, threads: s.threads };
    let t = ScraperView {
        forums: s.forums.push(forum),
        forum_base: no_entity(),
        pending_threads: Seq::empty(),
        threads: Seq::empty(),
        ..s
    };
    assert(named(s.pending_forums[s.forums.len() as int]));
    assert(forum_sound(forum));
    assert(settled(ScraperView { stage: Stage::ListingForums, ..t }));
    lemma_next_forum_settled(t);
}

/// The choice of the next thread keeps the tree settled.
proof fn lemma_next_thread_settled(s: ScraperView)
    requires
        settled(ScraperView { stage: Stage::OpeningForum, ..s }),
        in_forum(s.stage),
        s.replies.len() == 0,
    ensures
        settled(next_thread(s).0),
{
    if s.threads.len() < s.pending_threads.len() {
    } else {
        lemma_close_forum_settled(ScraperView { stage: Stage::OpeningForum, ..s });
        assert(close_forum(ScraperView { stage: Stage::OpeningForum, ..s }).0 == close_forum(
            s,
        ).0);
    }
}

/// A thread that is complete joins its forum, and the tree stays settled.
proof fn lemma_close_thread_settled(s: ScraperView)
    requires
        settled(s),
        in_thread(s.stage),
    ensures
        settled(close_thread(s).0),
{
    let thread = ThreadView {
        base: s.thread_base,
        poster_name: s.poster_name,
        replies: s.replies,
    };
    let t = ScraperView {
        threads: s.threads.push(thread),
        thread_base: no_entity(),
        poster_name: Seq::empty(),
        replies: Seq::empty(),
        ..s
    };
    assert(named(s.pending_threads[s.threads.len() as int]));
    assert(thread_sound(thread));
    assert(settled(ScraperView { stage: Stage::OpeningForum, ..t }));
    lemma_next_thread_settled(t);
}

/// Whatever the pagination driver decides keeps the tree settled.
proof fn lemma_turn_page_settled(s: ScraperView, ok: bool, replies: bool, error: ScrapeErrorView)
    requires
        settled(s),
        if replies {
            in_thread(s.stage)
        } else {
            in_forum(s.stage) && !in_thread(s.stage) && s.replies.len() == 0
        },
    ensures
        settled(turn_page(s, ok, replies, error).0),
{
    let (pager, next) = pager_step(s.pager, ok);
    let t = ScraperView { pager, stage: turning_stage(replies), ..s };
    assert(settled(t));
    match next {
        PagerMove::Stop => {
            if replies {
                lemma_close_thread_settled(t);
            } else {
                lemma_next_thread_settled(t);
            }
        },
        PagerMove::Fail => {
            lemma_fail_settled(t, error);
        },
        _ => {},
    }
}

/// The choice of the next quote control keeps the tree settled.
proof fn lemma_next_quote_settled(s: ScraperView)
    requires
        settled(s),
        in_thread(s.stage),
    ensures
        settled(next_quote(s).0),
{
    if s.quote < s.quotes {
    } else {
        lemma_turn_page_settled(s, true, true, ScrapeErrorView::Protocol);
    }
}

/// Whatever the revealer decides keeps the tree settled.
proof fn lemma_reveal_turn_settled(s: ScraperView, event: EventView)
    requires
        settled(s),
        aligned(s),
        s.stage == Stage::Revealing,
    ensures
        settled(reveal_turn(s, event).0),
{
    match report_of(event) {
        None => {},
        Some(report) => {
            let (revealer, next) = reveal_step(s.revealer, report);
            let t = ScraperView { revealer, body: body_after(s.body, event), ..s };
            if next != RevealMove::Fail {
                assert(settled(t));
            }
        },
    }
}

/// A step keeps the pagination driver and the revealer aligned with the
/// stage.
proof fn lemma_step_aligned(s: ScraperView, event: EventView)
    requires
        aligned(s),
    ensures
        aligned(scrape_step(s, event).0),
{
}

/// A step keeps a run coherent.
pub proof fn lemma_step_coherent(s: ScraperView, event: EventView)
    requires
        coherent(s),
    ensures
        coherent(scrape_step(s, event).0),
{
    lemma_step_aligned(s, event);
    lemma_step_settled(s, event);
}

/// A step keeps the tree settled and the run tidy.
proof fn lemma_step_settled(s: ScraperView, event: EventView)
    requires
        settled(s),
        aligned(s),
        tidy(s),
    ensures
        settled(scrape_step(s, event).0),
        tidy(scrape_step(s, event).0),
{
    match s.stage {
        Stage::ListingForums => match event {
            EventView::Links(links) => {
                lemma_entities_named(links);
                let t = ScraperView {
                    pending_forums: entities_of(links),
                    forums: Seq::empty(),
                    ..s
                };
                assert(settled(ScraperView { stage: Stage::ListingForums, ..t }));
                lemma_next_forum_settled(t);
            },
            EventView::Failed(_) => {
                let t = ScraperView { pending_forums: Seq::empty(), forums: Seq::empty(), ..s };
                assert(settled(ScraperView { stage: Stage::ListingForums, ..t }));
                lemma_next_forum_settled(t);
            },
            _ => {},
        },
        Stage::ListingThreads => match event {
            EventView::Links(links) => {
                lemma_entities_named(links);
                let t = ScraperView {
                    pending_threads: s.pending_threads + entities_of(links),
                    ..s
                };
                assert(settled(t));
                lemma_turn_page_settled(t, true, false, ScrapeErrorView::Protocol);
                lemma_turn_page_tidy(t, true, false, ScrapeErrorView::Protocol);
            },
            EventView::Failed(_) => {
                lemma_turn_page_settled(s, true, false, ScrapeErrorView::Protocol);
                lemma_turn_page_tidy(s, true, false, ScrapeErrorView::Protocol);
            },
            _ => {},
        },
        Stage::TurningThreadPage => match event {
            EventView::Done => {
                lemma_turn_page_settled(s, true, false, turning_error(s.pager, event));
                lemma_turn_page_tidy(s, true, false, turning_error(s.pager, event));
            },
            EventView::Failed(_) => {
                lemma_turn_page_settled(s, false, false, turning_error(s.pager, event));
                lemma_turn_page_tidy(s, false, false, turning_error(s.pager, event));
            },
            _ => {},
        },
        Stage::FindingQuotes => match event {
            EventView::Count(n) => {
                let t = ScraperView { quotes: n, quote: 0, ..s };
                lemma_next_quote_settled(t);
                lemma_turn_page_tidy(t, true, true, ScrapeErrorView::Protocol);
            },
            EventView::Failed(_) => {
                let t = ScraperView { quotes: 0, quote: 0, ..s };
                lemma_next_quote_settled(t);
                lemma_turn_page_tidy(t, true, true, ScrapeErrorView::Protocol);
            },
            _ => {},
        },
        Stage::FindingScratch => match event {
            EventView::Failed(_) => {
                lemma_turn_page_settled(s, true, true, ScrapeErrorView::Protocol);
                lemma_turn_page_tidy(s, true, true, ScrapeErrorView::Protocol);
            },
            _ => {},
        },
        Stage::Revealing => {
            lemma_reveal_turn_settled(s, event);
        },
        Stage::ReadingUrl => match event {
            EventView::Url(url) => {
                let t = ScraperView {
                    replies: s.replies.push(new_post(s, url)),
                    body: Seq::empty(),
                    quote: if s.quote < s.quotes {
                        (s.quote + 1) as usize
                    } else {
                        s.quote
                    },
                    ..s
                };
                assert(numbered(t.replies));
                lemma_next_quote_settled(t);
                lemma_turn_page_tidy(t, true, true, ScrapeErrorView::Protocol);
            },
            _ => {},
        },
        Stage::TurningReplyPage => match event {
            EventView::Done => {
                lemma_turn_page_settled(s, true, true, turning_error(s.pager, event));
                lemma_turn_page_tidy(s, true, true, turning_error(s.pager, event));
            },
            EventView::Failed(_) => {
                lemma_turn_page_settled(s, false, true, turning_error(s.pager, event));
                lemma_turn_page_tidy(s, false, true, turning_error(s.pager, event));
            },
            _ => {},
        },
        _ => {},
    }
}

/// Whatever the pagination driver decides keeps the run tidy.
proof fn lemma_turn_page_tidy(s: ScraperView, ok: bool, replies: bool, error: ScrapeErrorView)
    requires
        tidy(s),
        !replies ==> s.replies.len() == 0,
    ensures
        tidy(turn_page(s, ok, replies, error).0),
{
}

/// Coherence lasts: a run that is coherent stays so whatever the browsing
/// session answers.
pub proof fn lemma_run_from_coherent(s: ScraperView, events: Seq<EventView>)
    requires
        coherent(s),
    ensures
        coherent(run_from(s, events)),
    decreases events.len(),
{
    if events.len() > 0 {
        lemma_run_from_coherent(s, events.drop_last());
        lemma_step_coherent(run_from(s, events.drop_last()), events.last());
    }
}

/// Whatever the browsing session answers, the run is coherent at every
/// moment.
pub proof fn lemma_run_coherent(opts: ScrapeOptsView, events: Seq<EventView>)
    ensures
        coherent(scrape_run(opts, events)),
{
    lemma_run_from_coherent(scrape_start(opts).0, events);
}

/// What a complete run hands out. There is exactly one forum for each link
/// of the index that has a locator and a title, in the order of the links;
/// every forum and every thread has a locator and a title that are not
/// empty; and the replies of every thread are numbered from 0 in the order
/// in which they were revealed.
pub proof fn lemma_complete_tree(opts: ScrapeOptsView, events: Seq<EventView>)
    requires
        scrape_run(opts, events).stage == Stage::Finished,
    ensures
        ({
            let s = scrape_run(opts, events);
            &&& outcome(s) == Ok::<Seq<ForumView>, ScrapeErrorView>(s.forums)
            &&& s.forums.len() == s.pending_forums.len()
            &&& forall|i: int|
                0 <= i < s.forums.len() ==> (#[trigger] s.forums[i]).base == s.pending_forums[i]
            &&& tree_sound(s.forums)
        }),
{
    lemma_run_coherent(opts, events);
}

/// A run that has failed says why.
pub proof fn lemma_failed_run_has_error(opts: ScrapeOptsView, events: Seq<EventView>)
    requires
        scrape_run(opts, events).stage == Stage::Failed,
    ensures
        scrape_run(opts, events).error is Some,
        outcome(scrape_run(opts, events)) == Err::<Seq<ForumView>, ScrapeErrorView>(
            scrape_run(opts, events).error.unwrap(),
        ),
{
    lemma_run_coherent(opts, events);
}

/// The forums of a run are those of the index: the links that have a
/// locator and a title, each once, in their order.
pub proof fn lemma_forums_from_index(s: ScraperView, links: Seq<RawLinkView>)
    requires
        s.stage == Stage::ListingForums,
    ensures
        scrape_step(s, EventView::Links(links)).0.pending_forums == entities_of(links),
        scrape_step(s, EventView::Links(links)).0.forums.len() == 0,
{
}

/// The pages of a forum's thread list add up: the threads of a page come
/// after those of the pages before it and replace none of them; then the
/// control that leads on is looked for.
pub proof fn lemma_thread_pages_accumulate(s: ScraperView, links: Seq<RawLinkView>)
    requires
        coherent(s),
        s.stage == Stage::ListingThreads,
    ensures
        scrape_step(s, EventView::Links(links)).0.pending_threads == s.pending_threads
            + entities_of(links),
        scrape_step(s, EventView::Links(links)).0.threads == s.threads,
        scrape_step(s, EventView::Links(links)).0.stage == Stage::TurningThreadPage,
        scrape_step(s, EventView::Links(links)).1 == CommandView::FindNext(NEXT_TIMEOUT_SECS),
{
}

/// Every reply that is revealed becomes a post, the last of its thread so
/// far: none is lost and the order is kept.
pub proof fn lemma_reply_recorded(s: ScraperView, url: Seq<char>)
    requires
        coherent(s),
        s.stage == Stage::ReadingUrl,
    ensures
        scrape_step(s, EventView::Url(url)).0.replies == s.replies.push(new_post(s, url)),
        new_post(s, url).url == url,
        new_post(s, url).bbcode == s.body,
        new_post(s, url).post_sequence == s.replies.len() as u64,
{
}

/// A reply whose reveal never found the field filled is recorded with an
/// empty body: nothing that an earlier reveal captured is handed on.
pub proof fn lemma_nothing_stale(s: ScraperView, url: Seq<char>)
    requires
        coherent(s),
        s.stage == Stage::ReadingUrl,
        !s.revealer.captured,
    ensures
        new_post(s, url).bbcode.len() == 0,
{
}

/// While a page is turned the run does what the pagination driver
/// decides: a page is extracted exactly when the driver asks for it, and
/// the series ends exactly when the driver stops.
pub proof fn lemma_turn_follows_pager(s: ScraperView, event: EventView)
    requires
        coherent(s),
        turning(s.stage),
        event is Done || event is Failed,
    ensures
        ({
            let replies = s.stage == Stage::TurningReplyPage;
            let (pager, next) = pager_step(s.pager, event is Done);
            let (t, command) = scrape_step(s, event);
            match next {
                PagerMove::Extract(_) => t.pager == pager && t.stage == (if replies {
                    Stage::ReadingPosters
                } else {
                    Stage::ListingThreads
                }) && command == (if replies {
                    CommandView::ReadPosterNames
                } else {
                    CommandView::ReadLinks(LinkKind::Thread)
                }),
                PagerMove::FindNext => false,
                PagerMove::ClickNext => t.pager == pager && t.stage == s.stage && command
                    == CommandView::ClickNext,
                PagerMove::WaitForLoad => t.pager == pager && t.stage == s.stage && command
                    == CommandView::WaitForLoad,
                PagerMove::Stop => !turning(t.stage) && !extracting(t.stage),
                PagerMove::Fail => t.stage == Stage::Failed && command == CommandView::Abort,
            }
        }),
{
}

/// In a reveal the run does what the revealer decides: its state is the
/// revealer's next state, and its command carries the revealer's move out.
pub proof fn lemma_reveal_follows_revealer(s: ScraperView, event: EventView, report: Report)
    requires
        s.stage == Stage::Revealing,
        report_of(event) == Some(report),
    ensures
        scrape_step(s, event).0.revealer == reveal_step(s.revealer, report).0,
        scrape_step(s, event).1 == (match reveal_step(s.revealer, report).1 {
            RevealMove::ClearScratch => CommandView::ClearScratch,
            RevealMove::ClickQuote => CommandView::ClickQuote(s.quote),
            RevealMove::WaitForLoad => CommandView::WaitForLoad,
            RevealMove::ReadScratch => CommandView::ReadScratch,
            RevealMove::Sleep => CommandView::Sleep(POLL_INTERVAL_SECS),
            RevealMove::Yield => CommandView::ReadUrl,
            RevealMove::Fail => CommandView::Abort,
        }),
{
}

/// A run begins with the login: the login page is opened, the credentials
/// are handed over, the index is opened, and only then are the forum links
/// read.
pub proof fn lemma_login_comes_first(opts: ScrapeOptsView)
    ensures
        ({
            let (s0, c0) = scrape_start(opts);
            let (s1, c1) = scrape_step(s0, EventView::Done);
            let (s2, c2) = scrape_step(s1, EventView::Done);
            let (s3, c3) = scrape_step(s2, EventView::Done);
            &&& c0 == CommandView::Navigate(login_url(opts))
            &&& c1 == CommandView::Login { username: opts.username, password: opts.password }
            &&& c2 == CommandView::Navigate(index_url(opts))
            &&& c3 == CommandView::ReadLinks(LinkKind::Forum)
            &&& s3.stage == Stage::ListingForums
        }),
{
}

/// A page that cannot be reached ends the run: wherever the run is on its
/// way to a page, the failure is handed out as it came and nothing more is
/// asked for.
pub proof fn lemma_navigation_failure_is_fatal(s: ScraperView, why: Seq<char>)
    requires
        s.stage == Stage::OpeningLogin || s.stage == Stage::OpeningIndex || s.stage
            == Stage::OpeningForum || s.stage == Stage::OpeningThread,
    ensures
        scrape_step(s, EventView::Failed(why)).1 == CommandView::Abort,
        outcome(scrape_step(s, EventView::Failed(why)).0) == Err::<
            Seq<ForumView>,
            ScrapeErrorView,
        >(ScrapeErrorView::Navigation(why)),
{
}

/// A login that fails ends the run.
pub proof fn lemma_login_failure_is_fatal(s: ScraperView, why: Seq<char>)
    requires
        s.stage == Stage::SigningIn,
    ensures
        scrape_step(s, EventView::Failed(why)).1 == CommandView::Abort,
        outcome(scrape_step(s, EventView::Failed(why)).0) == Err::<
            Seq<ForumView>,
            ScrapeErrorView,
        >(ScrapeErrorView::Login(why)),
{
}

/// A quote control that cannot be activated, and a page that does not
/// settle after it, end the run.
pub proof fn lemma_reveal_failure_is_fatal(s: ScraperView, why: Seq<char>)
    requires
        s.stage == Stage::Revealing,
        s.revealer.phase == RevealPhase::Triggering || s.revealer.phase == RevealPhase::Settling,
    ensures
        scrape_step(s, EventView::Failed(why)).1 == CommandView::Abort,
        outcome(scrape_step(s, EventView::Failed(why)).0) == Err::<
            Seq<ForumView>,
            ScrapeErrorView,
        >(
            if s.revealer.phase == RevealPhase::Triggering {
                ScrapeErrorView::Interaction(why)
            } else {
                ScrapeErrorView::Navigation(why)
            },
        ),
{
}

/// A page without a scratch field loses the replies that are not revealed
/// yet and nothing else: the posts of the thread stay as they are, the run
/// goes on, and the control that leads on is looked for.
pub proof fn lemma_missing_scratch_skips_page(s: ScraperView, why: Seq<char>)
    requires
        coherent(s),
        s.stage == Stage::FindingScratch,
    ensures
        scrape_step(s, EventView::Failed(why)).0 == (ScraperView {
            stage: Stage::TurningReplyPage,
            pager: Pager { page: s.pager.page, phase: PagerPhase::Seeking },
            ..s
        }),
        scrape_step(s, EventView::Failed(why)).1 == CommandView::FindNext(NEXT_TIMEOUT_SECS),
{
}

/// A thread-list page without links adds no thread and ends nothing.
pub proof fn lemma_empty_list_page_is_no_failure(s: ScraperView, why: Seq<char>)
    requires
        coherent(s),
        s.stage == Stage::ListingThreads,
    ensures
        scrape_step(s, EventView::Failed(why)).0 == (ScraperView {
            stage: Stage::TurningThreadPage,
            pager: Pager { page: s.pager.page, phase: PagerPhase::Seeking },
            ..s
        }),
        scrape_step(s, EventView::Failed(why)).1 == CommandView::FindNext(NEXT_TIMEOUT_SECS),
{
}

/// A run that is over stays over: it takes any event, changes nothing and
/// asks for nothing more.
pub proof fn lemma_over_stays_over(s: ScraperView, event: EventView)
    requires
        s.stage == Stage::Finished || s.stage == Stage::Failed,
    ensures
        scrape_step(s, event).0 == s,
        scrape_step(s, event).1 == (if s.stage == Stage::Finished {
            CommandView::Finish
        } else {
            CommandView::Abort
        }),
{
}

} // verus!
