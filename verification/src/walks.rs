//! What a run makes of a session that answers as it should. A site is
//! described by what its pages show; the events of the walk through it are
//! written down; and the run over these events is proved to end, complete,
//! with the tree of the site: the forums in the order of their links, in
//! each the threads of all its thread-list pages, and in each thread the
//! replies of all its pages as posts, one for each quote control.

use crate::envelope::payload_or_empty;
use crate::links::{entities_of, lemma_entities_of_concat, starter_of, RawLinkView};
use crate::pager::{Pager, PagerPhase};
use crate::revealer::{RevealPhase, Revealer, POLL_LIMIT};
use crate::run::{in_forum, lemma_run_concat, lemma_run_push, run_from, scrape_run};
use crate::scraping::{
    next_forum, next_thread, no_entity, outcome, scrape_start, EventView, ScrapeErrorView,
    ScraperView, Stage,
};
use crate::structures::{BaseEntityView, ForumView, PostView, ScrapeOptsView, ThreadView};
use crate::text::is_blank;
use vstd::prelude::*;

verus! {

/// A reply as a page shows it: how many reads find the scratch field still
/// blank after its quote control is activated, the text that the field
/// shows from then on, and the locator of the page.
pub struct Shown {
    pub blanks: nat,
    pub raw: Seq<char>,
    pub url: Seq<char>,
}

/// Whether the text of a reply shows before the revealer gives up.
pub open spec fn shows_in_time(shown: Shown) -> bool {
    shown.blanks < POLL_LIMIT
}

/// The events of `k` reads that find the scratch field without a value,
/// each with the pause that follows it.
pub open spec fn wait_events(k: nat) -> Seq<EventView>
    decreases k,
{
    if k == 0 {
        Seq::empty()
    } else {
        wait_events((k - 1) as nat) + seq![EventView::Value(None), EventView::Done]
    }
}

/// The events of the reads of the scratch field in the reveal of a reply:
/// the reads that find it blank, a pause after each, and the read that
/// finds the text; or, where the text does not show in time, `POLL_LIMIT`
/// reads that find it blank, a pause after each but the last.
pub open spec fn read_events(shown: Shown) -> Seq<EventView> {
    if shows_in_time(shown) {
        wait_events(shown.blanks) + seq![EventView::Value(Some(shown.raw))]
    } else {
        wait_events((POLL_LIMIT - 1) as nat) + seq![EventView::Value(None)]
    }
}

/// The events of the reveal of a reply: the scratch field is found and
/// cleared, the control activated, the page settled, the field read until
/// the text shows or the attempts are used up, the field cleared again, and
/// the locator of the page read.
pub open spec fn reveal_events(shown: Shown) -> Seq<EventView> {
    seq![EventView::Done, EventView::Done, EventView::Done, EventView::Done] + read_events(
        shown,
    ) + seq![EventView::Done, EventView::Url(shown.url)]
}

/// The events of the reveals of the replies of a page, in their order.
pub open spec fn page_events(replies: Seq<Shown>) -> Seq<EventView>
    decreases replies.len(),
{
    if replies.len() == 0 {
        Seq::empty()
    } else {
        page_events(replies.drop_last()) + reveal_events(replies.last())
    }
}

/// The body that is recorded for a reply: the payload of its text where
/// the text shows in time, and nothing where the revealer gives up.
pub open spec fn body_of(shown: Shown) -> Seq<char> {
    if shows_in_time(shown) {
        payload_or_empty(shown.raw)
    } else {
        Seq::empty()
    }
}

/// The post that a reply becomes when it is the reply number `at` of its
/// thread.
pub open spec fn post_of(shown: Shown, at: nat) -> PostView {
    PostView {
        url: shown.url,
        poster_name: Seq::empty(),
        bbcode: body_of(shown),
        post_sequence: at as u64,
    }
}

/// The posts that the replies of a page become when `before` replies of
/// their thread came before them.
pub open spec fn posts_of(replies: Seq<Shown>, before: nat) -> Seq<PostView> {
    Seq::new(replies.len(), |i: int| post_of(replies[i], (before + i) as nat))
}

/// Whether the text of every reply is more than whitespace.
pub open spec fn all_filled(replies: Seq<Shown>) -> bool {
    forall|i: int| 0 <= i < replies.len() ==> !is_blank((#[trigger] replies[i]).raw)
}

/// The revealer at the end of the reveal of a reply: it has read the field
/// once more than it found it blank and has captured, or it has read it
/// `POLL_LIMIT` times and has not.
pub open spec fn revealed(shown: Shown) -> Revealer {
    Revealer {
        phase: RevealPhase::Done,
        attempts: if shows_in_time(shown) {
            (shown.blanks + 1) as u32
        } else {
            POLL_LIMIT
        },
        captured: shows_in_time(shown),
    }
}

/// Where a run stands on a page after the first of its `count` replies are
/// revealed: the replies have become posts of the thread, and the next
/// quote control has its turn, or, after the last, the next page.
pub open spec fn after_replies(s: ScraperView, replies: Seq<Shown>, count: usize) -> ScraperView {
    let done = replies.len();
    ScraperView {
        stage: if done < count {
            Stage::FindingScratch
        } else {
            Stage::TurningReplyPage
        },
        pager: if done < count {
            s.pager
        } else {
            Pager { page: s.pager.page, phase: PagerPhase::Seeking }
        },
        replies: s.replies + posts_of(replies, s.replies.len()),
        quotes: count,
        quote: done as usize,
        revealer: if done == 0 {
            s.revealer
        } else {
            revealed(replies.last())
        },
        body: if done == 0 {
            s.body
        } else {
            Seq::empty()
        },
        ..s
    }
}

/// While the scratch field is found blank and attempts are left, the
/// revealer reads on: after `k` such reads and their pauses it has read `k`
/// times more and is reading again; nothing else has changed.
pub proof fn lemma_waited(s: ScraperView, k: nat)
    requires
        s.stage == Stage::Revealing,
        s.revealer.phase == RevealPhase::Polling,
        s.revealer.attempts + k <= POLL_LIMIT,
    ensures
        run_from(s, wait_events(k)) == (ScraperView {
            revealer: Revealer {
                phase: RevealPhase::Polling,
                attempts: (s.revealer.attempts + k) as u32,
                captured: s.revealer.captured,
            },
            ..s
        }),
    decreases k,
{
    if k > 0 {
        lemma_waited(s, (k - 1) as nat);
        let mid = run_from(s, wait_events((k - 1) as nat));
        let e0 = Seq::<EventView>::empty();
        let e1 = e0.push(EventView::Value(None));
        let e2 = e1.push(EventView::Done);
        assert(e2 =~= seq![EventView::Value(None), EventView::Done]);
        lemma_run_concat(s, wait_events((k - 1) as nat), e2);
        lemma_run_push(mid, e0, EventView::Value(None));
        let m1 = run_from(mid, e1);
        assert(m1.stage == Stage::Revealing && m1.revealer.phase == RevealPhase::Waiting);
        lemma_run_push(mid, e1, EventView::Done);
    }
}

/// The reads of a reveal end with the field about to be cleared: the text
/// is captured where it shows in time, and nothing is where it does not.
pub proof fn lemma_read(s: ScraperView, shown: Shown)
    requires
        s.stage == Stage::Revealing,
        s.revealer == (Revealer { phase: RevealPhase::Polling, attempts: 1, captured: false }),
        s.body.len() == 0,
        !is_blank(shown.raw),
    ensures
        run_from(s, read_events(shown)) == (ScraperView {
            revealer: Revealer {
                phase: RevealPhase::Tidying,
                attempts: revealed(shown).attempts,
                captured: shows_in_time(shown),
            },
            body: body_of(shown),
            ..s
        }),
{
    if shows_in_time(shown) {
        let last = Seq::<EventView>::empty().push(EventView::Value(Some(shown.raw)));
        assert(read_events(shown) =~= wait_events(shown.blanks) + last);
        lemma_run_concat(s, wait_events(shown.blanks), last);
        lemma_waited(s, shown.blanks);
        lemma_run_push(
            run_from(s, wait_events(shown.blanks)),
            Seq::empty(),
            EventView::Value(Some(shown.raw)),
        );
    } else {
        let k = (POLL_LIMIT - 1) as nat;
        let last = Seq::<EventView>::empty().push(EventView::Value(None));
        assert(read_events(shown) =~= wait_events(k) + last);
        lemma_run_concat(s, wait_events(k), last);
        lemma_waited(s, k);
        lemma_run_push(run_from(s, wait_events(k)), Seq::empty(), EventView::Value(None));
        assert(s.body =~= Seq::empty());
    }
}

/// One reply becomes one post, the last of its thread so far, whether its
/// text shows at once, after a while or never; its body is the payload of
/// the text, or empty where the text did not show in time, and its locator
/// is that of the page. The scratch field is read once more than it is
/// found blank, and `POLL_LIMIT` times at most.
#[verifier::rlimit(40)]
pub proof fn lemma_reply_becomes_post(s: ScraperView, shown: Shown)
    requires
        s.stage == Stage::FindingScratch,
        s.pager.phase == PagerPhase::Extracting,
        s.quote < s.quotes,
        !is_blank(shown.raw),
    ensures
        run_from(s, reveal_events(shown)) == (ScraperView {
            stage: if s.quote + 1 < s.quotes {
                Stage::FindingScratch
            } else {
                Stage::TurningReplyPage
            },
            pager: if s.quote + 1 < s.quotes {
                s.pager
            } else {
                Pager { page: s.pager.page, phase: PagerPhase::Seeking }
            },
            replies: s.replies.push(post_of(shown, s.replies.len())),
            quote: (s.quote + 1) as usize,
            revealer: revealed(shown),
            body: Seq::empty(),
            ..s
        }),
{
    let e0 = Seq::<EventView>::empty();
    let e1 = e0.push(EventView::Done);
    let e2 = e1.push(EventView::Done);
    let e3 = e2.push(EventView::Done);
    let e4 = e3.push(EventView::Done);
    let f1 = e0.push(EventView::Done);
    let f2 = f1.push(EventView::Url(shown.url));
    assert(reveal_events(shown) =~= e4 + (read_events(shown) + f2));
    lemma_run_concat(s, e4, read_events(shown) + f2);
    lemma_run_push(s, e0, EventView::Done);
    let s1 = run_from(s, e1);
    assert(s1.stage == Stage::Revealing && s1.revealer.phase == RevealPhase::Clearing);
    lemma_run_push(s, e1, EventView::Done);
    let s2 = run_from(s, e2);
    assert(s2.stage == Stage::Revealing && s2.revealer.phase == RevealPhase::Triggering);
    lemma_run_push(s, e2, EventView::Done);
    let s3 = run_from(s, e3);
    assert(s3.stage == Stage::Revealing && s3.revealer.phase == RevealPhase::Settling);
    lemma_run_push(s, e3, EventView::Done);
    let s4 = run_from(s, e4);
    assert(s4 == ScraperView {
        stage: Stage::Revealing,
        revealer: Revealer { phase: RevealPhase::Polling, attempts: 1, captured: false },
        body: Seq::empty(),
        ..s
    });
    lemma_run_concat(s4, read_events(shown), f2);
    lemma_read(s4, shown);
    let s5 = run_from(s4, read_events(shown));
    lemma_run_push(s5, e0, EventView::Done);
    let s6 = run_from(s5, f1);
    assert(s6.stage == Stage::ReadingUrl && s6.revealer == revealed(shown));
    assert(s6.replies == s.replies && s6.quote == s.quote && s6.quotes == s.quotes);
    assert(s6.body == body_of(shown));
    lemma_run_push(s5, f1, EventView::Url(shown.url));
}

/// The replies of a page become posts, one for each quote control and in
/// the order of the controls: after the controls are counted and every
/// reply has shown up at its first read, the thread has exactly these posts
/// more, numbered on from those it had, and the next page has its turn.
#[verifier::rlimit(40)]
pub proof fn lemma_page_becomes_posts(s: ScraperView, replies: Seq<Shown>, count: usize)
    requires
        s.stage == Stage::FindingQuotes,
        s.pager.phase == PagerPhase::Extracting,
        replies.len() <= count,
        all_filled(replies),
    ensures
        run_from(s, seq![EventView::Count(count)] + page_events(replies)) == after_replies(
            s,
            replies,
            count,
        ),
    decreases replies.len(),
{
    let first = seq![EventView::Count(count)];
    if replies.len() == 0 {
        assert(first + page_events(replies) =~= Seq::<EventView>::empty().push(
            EventView::Count(count),
        ));
        lemma_run_push(s, Seq::empty(), EventView::Count(count));
        assert(s.replies + posts_of(replies, s.replies.len()) =~= s.replies);
        assert(run_from(s, first + page_events(replies)) =~~= after_replies(s, replies, count));
    } else {
        let front = replies.drop_last();
        let last = replies.last();
        assert forall|i: int| 0 <= i < front.len() implies !is_blank((#[trigger] front[i]).raw) by {
            assert(front[i] == replies[i]);
        }
        lemma_page_becomes_posts(s, front, count);
        let mid = after_replies(s, front, count);
        assert(first + page_events(replies) =~= (first + page_events(front)) + reveal_events(
            last,
        ));
        lemma_run_concat(s, first + page_events(front), reveal_events(last));
        lemma_reply_becomes_post(mid, last);
        let end = run_from(mid, reveal_events(last));
        assert(mid.replies.push(post_of(last, mid.replies.len())) =~= s.replies + posts_of(
            replies,
            s.replies.len(),
        )) by {
            let a = mid.replies.push(post_of(last, mid.replies.len()));
            let b = s.replies + posts_of(replies, s.replies.len());
            assert(a.len() == b.len());
            assert forall|i: int| 0 <= i < a.len() implies a[i] == b[i] by {
                if i < s.replies.len() {
                } else if i < mid.replies.len() {
                    assert(front[i - s.replies.len()] == replies[i - s.replies.len()]);
                } else {
                }
            }
        }
        assert(end =~~= after_replies(s, replies, count));
    }
}

/// The links of a series of pages, page after page.
pub open spec fn all_links(pages: Seq<Seq<RawLinkView>>) -> Seq<RawLinkView>
    decreases pages.len(),
{
    if pages.len() == 0 {
        Seq::empty()
    } else {
        all_links(pages.drop_last()) + pages.last()
    }
}

/// The events of thread-list pages that all lead on: the links of each are
/// read, the control that leads on is found and activated, and the next
/// page loads.
pub open spec fn turned_events(pages: Seq<Seq<RawLinkView>>) -> Seq<EventView>
    decreases pages.len(),
{
    if pages.len() == 0 {
        Seq::empty()
    } else {
        turned_events(pages.drop_last()) + seq![
            EventView::Links(pages.last()),
            EventView::Done,
            EventView::Done,
            EventView::Done,
        ]
    }
}

/// Thread-list pages add up. After pages that all lead on, the threads
/// that wait for their turn are those that waited before and then those of
/// the pages, page after page and, on a page, link after link; the page
/// counter has gone on by the number of the pages, and the next page is
/// about to be read.
#[verifier::rlimit(40)]
pub proof fn lemma_list_pages_add_up(s: ScraperView, pages: Seq<Seq<RawLinkView>>)
    requires
        s.stage == Stage::ListingThreads,
        s.pager.phase == PagerPhase::Extracting,
        s.pager.page + pages.len() <= u32::MAX,
    ensures
        run_from(s, turned_events(pages)) == (ScraperView {
            pending_threads: s.pending_threads + entities_of(all_links(pages)),
            pager: Pager {
                page: (s.pager.page + pages.len()) as u32,
                phase: PagerPhase::Extracting,
            },
            ..s
        }),
    decreases pages.len(),
{
    if pages.len() == 0 {
        assert(s.pending_threads + entities_of(all_links(pages)) =~= s.pending_threads);
        assert(run_from(s, turned_events(pages)) =~~= ScraperView {
            pending_threads: s.pending_threads + entities_of(all_links(pages)),
            pager: Pager {
                page: (s.pager.page + pages.len()) as u32,
                phase: PagerPhase::Extracting,
            },
            ..s
        });
    } else {
        let front = pages.drop_last();
        let last = pages.last();
        lemma_list_pages_add_up(s, front);
        let mid = run_from(s, turned_events(front));
        let e0 = Seq::<EventView>::empty();
        let e1 = e0.push(EventView::Links(last));
        let e2 = e1.push(EventView::Done);
        let e3 = e2.push(EventView::Done);
        let e4 = e3.push(EventView::Done);
        assert(e4 =~= seq![
            EventView::Links(last),
            EventView::Done,
            EventView::Done,
            EventView::Done,
        ]);
        lemma_run_concat(s, turned_events(front), e4);
        lemma_run_push(mid, e0, EventView::Links(last));
        let m1 = run_from(mid, e1);
        assert(m1.stage == Stage::TurningThreadPage && m1.pager.phase == PagerPhase::Seeking);
        lemma_run_push(mid, e1, EventView::Done);
        let m2 = run_from(mid, e2);
        assert(m2.stage == Stage::TurningThreadPage && m2.pager.phase == PagerPhase::Clicking);
        lemma_run_push(mid, e2, EventView::Done);
        let m3 = run_from(mid, e3);
        assert(m3.stage == Stage::TurningThreadPage && m3.pager.phase == PagerPhase::Loading);
        lemma_run_push(mid, e3, EventView::Done);
        let m4 = run_from(mid, e4);
        lemma_entities_of_concat(all_links(front), last);
        assert(m4.pending_threads =~= s.pending_threads + entities_of(all_links(pages)));
        assert(m4 =~~= ScraperView {
            pending_threads: s.pending_threads + entities_of(all_links(pages)),
            pager: Pager {
                page: (s.pager.page + pages.len()) as u32,
                phase: PagerPhase::Extracting,
            },
            ..s
        });
    }
}

/// The last thread-list page ends the series: once its links are read and
/// no control leads on, the threads of the forum are those of all the
/// pages, and the first of them has its turn, or the forum is complete
/// where it has none.
pub proof fn lemma_list_ends(s: ScraperView, links: Seq<RawLinkView>, why: Seq<char>)
    requires
        s.stage == Stage::ListingThreads,
        s.pager.phase == PagerPhase::Extracting,
    ensures
        run_from(s, seq![EventView::Links(links), EventView::Failed(why)]) == next_thread(
            ScraperView {
                pending_threads: s.pending_threads + entities_of(links),
                pager: Pager { page: s.pager.page, phase: PagerPhase::Finished },
                stage: Stage::TurningThreadPage,
                ..s
            },
        ).0,
{
    let e0 = Seq::<EventView>::empty();
    let e1 = e0.push(EventView::Links(links));
    let e2 = e1.push(EventView::Failed(why));
    assert(e2 =~= seq![EventView::Links(links), EventView::Failed(why)]);
    lemma_run_push(s, e0, EventView::Links(links));
    let s1 = run_from(s, e1);
    assert(s1.stage == Stage::TurningThreadPage && s1.pager.phase == PagerPhase::Seeking);
    lemma_run_push(s, e1, EventView::Failed(why));
}

/// A reply page as the session shows it: its poster names, and its replies
/// in the order of their quote controls.
pub struct PageShown {
    pub posters: Seq<Option<Seq<char>>>,
    pub replies: Seq<Shown>,
}

/// Whether a page can be walked as it is shown: its quote controls can be
/// counted, and every reply shows more than whitespace.
pub open spec fn page_fits(page: PageShown) -> bool {
    page.replies.len() <= usize::MAX && all_filled(page.replies)
}

/// Whether every page of a list can be walked as it is shown.
pub open spec fn pages_fit(pages: Seq<PageShown>) -> bool {
    forall|i: int| 0 <= i < pages.len() ==> page_fits(#[trigger] pages[i])
}

/// The events of the extraction of a reply page: its poster names are
/// read, its quote controls counted, and its replies revealed one by one.
pub open spec fn extraction_events(page: PageShown) -> Seq<EventView> {
    seq![EventView::Names(page.posters), EventView::Count(page.replies.len() as usize)]
        + page_events(page.replies)
}

/// The events of reply pages that all lead on: each is extracted, the
/// control that leads on is found and activated, and the next page loads.
pub open spec fn turned_page_events(pages: Seq<PageShown>) -> Seq<EventView>
    decreases pages.len(),
{
    if pages.len() == 0 {
        Seq::empty()
    } else {
        turned_page_events(pages.drop_last()) + extraction_events(pages.last()) + seq![
            EventView::Done,
            EventView::Done,
            EventView::Done,
        ]
    }
}

/// The posts that the replies of a series of pages become, page after
/// page, when `before` replies of their thread came before them.
pub open spec fn thread_posts(pages: Seq<PageShown>, before: nat) -> Seq<PostView>
    decreases pages.len(),
{
    if pages.len() == 0 {
        Seq::empty()
    } else {
        let front = thread_posts(pages.drop_last(), before);
        front + posts_of(pages.last().replies, before + front.len())
    }
}

/// A reply page is extracted: its replies have become posts of the thread,
/// in the order of their quote controls, and the control that leads on is
/// looked for.
pub proof fn lemma_reply_page_extracted(s: ScraperView, page: PageShown)
    requires
        s.stage == Stage::ReadingPosters,
        s.pager.phase == PagerPhase::Extracting,
        page_fits(page),
    ensures
        run_from(s, extraction_events(page)) == after_replies(
            s,
            page.replies,
            page.replies.len() as usize,
        ),
{
    let count = page.replies.len() as usize;
    let e1 = Seq::<EventView>::empty().push(EventView::Names(page.posters));
    let rest = seq![EventView::Count(count)] + page_events(page.replies);
    assert(extraction_events(page) =~= e1 + rest);
    lemma_run_concat(s, e1, rest);
    lemma_run_push(s, Seq::empty(), EventView::Names(page.posters));
    let s1 = run_from(s, e1);
    assert(s1 == ScraperView { stage: Stage::FindingQuotes, ..s });
    lemma_page_becomes_posts(s1, page.replies, count);
    assert(after_replies(s1, page.replies, count) =~~= after_replies(s, page.replies, count));
}

/// A reply page that leads on is extracted and turned: its replies have
/// become posts of the thread, the page counter has gone on by one, and the
/// next page is about to be extracted.
pub proof fn lemma_reply_page_turned(s: ScraperView, page: PageShown)
    requires
        s.stage == Stage::ReadingPosters,
        s.pager.phase == PagerPhase::Extracting,
        s.pager.page < u32::MAX,
        page_fits(page),
    ensures
        run_from(
            s,
            extraction_events(page) + seq![EventView::Done, EventView::Done, EventView::Done],
        ) == (ScraperView {
            stage: Stage::ReadingPosters,
            pager: Pager { page: (s.pager.page + 1) as u32, phase: PagerPhase::Extracting },
            ..after_replies(s, page.replies, page.replies.len() as usize)
        }),
{
    let e0 = Seq::<EventView>::empty();
    let e1 = e0.push(EventView::Done);
    let e2 = e1.push(EventView::Done);
    let e3 = e2.push(EventView::Done);
    assert(e3 =~= seq![EventView::Done, EventView::Done, EventView::Done]);
    lemma_run_concat(s, extraction_events(page), e3);
    lemma_reply_page_extracted(s, page);
    let x = run_from(s, extraction_events(page));
    assert(x.stage == Stage::TurningReplyPage && x.pager == Pager {
        page: s.pager.page,
        phase: PagerPhase::Seeking,
    });
    lemma_run_push(x, e0, EventView::Done);
    let x1 = run_from(x, e1);
    assert(x1 == ScraperView {
        pager: Pager { page: s.pager.page, phase: PagerPhase::Clicking },
        ..x
    });
    lemma_run_push(x, e1, EventView::Done);
    let x2 = run_from(x, e2);
    assert(x2 == ScraperView {
        pager: Pager { page: s.pager.page, phase: PagerPhase::Loading },
        ..x
    });
    lemma_run_push(x, e2, EventView::Done);
}

/// Reply pages add up. After pages that all lead on, the thread has the
/// posts of all of them, page after page, numbered on from those it had;
/// the page counter has gone on by the number of the pages, and the next
/// page is about to be extracted.
pub proof fn lemma_reply_pages_add_up(s: ScraperView, pages: Seq<PageShown>)
    requires
        s.stage == Stage::ReadingPosters,
        s.pager.phase == PagerPhase::Extracting,
        s.pager.page + pages.len() <= u32::MAX,
        pages_fit(pages),
    ensures
        ({
            let t = run_from(s, turned_page_events(pages));
            t == ScraperView {
                replies: s.replies + thread_posts(pages, s.replies.len()),
                pager: Pager {
                    page: (s.pager.page + pages.len()) as u32,
                    phase: PagerPhase::Extracting,
                },
                quotes: t.quotes,
                quote: t.quote,
                revealer: t.revealer,
                body: t.body,
                ..s
            }
        }),
    decreases pages.len(),
{
    let t = run_from(s, turned_page_events(pages));
    if pages.len() == 0 {
        assert(s.replies + thread_posts(pages, s.replies.len()) =~= s.replies);
    } else {
        let front = pages.drop_last();
        let last = pages.last();
        assert forall|i: int| 0 <= i < front.len() implies page_fits(#[trigger] front[i]) by {
            assert(front[i] == pages[i]);
        }
        lemma_reply_pages_add_up(s, front);
        let mid = run_from(s, turned_page_events(front));
        let turn = seq![EventView::Done, EventView::Done, EventView::Done];
        assert(turned_page_events(pages) =~= turned_page_events(front) + (extraction_events(last)
            + turn));
        lemma_run_concat(s, turned_page_events(front), extraction_events(last) + turn);
        lemma_reply_page_turned(mid, last);
        assert(t.replies == mid.replies + posts_of(last.replies, mid.replies.len()));
        assert(mid.replies == s.replies + thread_posts(front, s.replies.len()));
        assert(t.replies =~= s.replies + thread_posts(pages, s.replies.len()));
    }
    assert(t =~~= ScraperView {
        replies: s.replies + thread_posts(pages, s.replies.len()),
        pager: Pager {
            page: (s.pager.page + pages.len()) as u32,
            phase: PagerPhase::Extracting,
        },
        quotes: t.quotes,
        quote: t.quote,
        revealer: t.revealer,
        body: t.body,
        ..s
    });
}

/// A thread as the session shows it: the poster names of its landing page
/// and its reply pages.
pub struct ThreadShown {
    pub landing: Seq<Option<Seq<char>>>,
    pub pages: Seq<PageShown>,
}

/// Whether a thread can be walked as it is shown: it has a page, its pages
/// can be counted, and each of them can be walked.
pub open spec fn thread_fits(thread: ThreadShown) -> bool {
    1 <= thread.pages.len() <= u32::MAX && pages_fit(thread.pages)
}

/// The events of the walk through a thread: it is opened, the poster names
/// of its landing page are read, its pages are extracted one after the
/// other, and on the last no control leads on.
pub open spec fn thread_events(thread: ThreadShown, why: Seq<char>) -> Seq<EventView> {
    seq![EventView::Done, EventView::Names(thread.landing)] + turned_page_events(
        thread.pages.drop_last(),
    ) + extraction_events(thread.pages.last()) + seq![EventView::Failed(why)]
}

/// The thread of the tree that a thread of the site becomes: its starter is
/// the first poster of the landing page, and its posts are the replies of
/// all its pages, page after page, numbered from 0.
pub open spec fn thread_tree(base: BaseEntityView, thread: ThreadShown) -> ThreadView {
    ThreadView {
        base,
        poster_name: starter_of(thread.landing),
        replies: thread_posts(thread.pages, 0),
    }
}

/// What counts of a run between two threads and between two forums: its
/// stage, what it was given, and the tree as far as it has grown. What
/// the pagination driver and the revealer have left behind counts no
/// longer.
pub struct Outline {
    pub stage: Stage,
    pub opts: ScrapeOptsView,
    pub pending_forums: Seq<BaseEntityView>,
    pub forums: Seq<ForumView>,
    pub forum_base: BaseEntityView,
    pub pending_threads: Seq<BaseEntityView>,
    pub threads: Seq<ThreadView>,
    pub thread_base: BaseEntityView,
}

/// The outline of a run.
pub open spec fn outline(s: ScraperView) -> Outline {
    Outline {
        stage: s.stage,
        opts: s.opts,
        pending_forums: s.pending_forums,
        forums: s.forums,
        forum_base: if in_forum(s.stage) {
            s.forum_base
        } else {
            no_entity()
        },
        pending_threads: s.pending_threads,
        threads: s.threads,
        thread_base: if s.stage == Stage::OpeningThread {
            s.thread_base
        } else {
            no_entity()
        },
    }
}

/// Whether two runs have the same tree and were given the same.
pub open spec fn alike(a: ScraperView, b: ScraperView) -> bool {
    &&& a.opts == b.opts
    &&& a.pending_forums == b.pending_forums
    &&& a.forums == b.forums
    &&& a.forum_base == b.forum_base
    &&& a.pending_threads == b.pending_threads
    &&& a.threads == b.threads
}

/// A thread is walked: it has joined the threads of its forum with its
/// starter and with the replies of all its pages, and the next thread has
/// its turn.
#[verifier::rlimit(40)]
pub proof fn lemma_thread_walked(s: ScraperView, thread: ThreadShown, why: Seq<char>)
    requires
        s.stage == Stage::OpeningThread,
        thread_fits(thread),
    ensures
        outline(run_from(s, thread_events(thread, why))) == outline(
            next_thread(
                ScraperView {
                    threads: s.threads.push(thread_tree(s.thread_base, thread)),
                    ..s
                },
            ).0,
        ),
        alike(
            run_from(s, thread_events(thread, why)),
            next_thread(
                ScraperView {
                    threads: s.threads.push(thread_tree(s.thread_base, thread)),
                    ..s
                },
            ).0,
        ),
{
    let front = thread.pages.drop_last();
    let last = thread.pages.last();
    let e0 = Seq::<EventView>::empty();
    let e1 = e0.push(EventView::Done);
    let e2 = e1.push(EventView::Names(thread.landing));
    let end = Seq::<EventView>::empty().push(EventView::Failed(why));
    assert(thread_events(thread, why) =~= e2 + (turned_page_events(front) + (extraction_events(
        last,
    ) + end)));
    lemma_run_push(s, e0, EventView::Done);
    let s1 = run_from(s, e1);
    assert(s1.stage == Stage::ReadingStarter);
    lemma_run_push(s, e1, EventView::Names(thread.landing));
    let s2 = run_from(s, e2);
    assert(s2.stage == Stage::ReadingPosters && s2.pager == Pager {
        page: 1,
        phase: PagerPhase::Extracting,
    });
    lemma_run_concat(s, e2, turned_page_events(front) + (extraction_events(last) + end));
    lemma_run_concat(s2, turned_page_events(front), extraction_events(last) + end);
    assert forall|i: int| 0 <= i < front.len() implies page_fits(#[trigger] front[i]) by {
        assert(front[i] == thread.pages[i]);
    }
    lemma_reply_pages_add_up(s2, front);
    let s3 = run_from(s2, turned_page_events(front));
    lemma_run_concat(s3, extraction_events(last), end);
    assert(page_fits(last));
    lemma_reply_page_extracted(s3, last);
    let s4 = run_from(s3, extraction_events(last));
    assert(s4.replies =~= thread_posts(thread.pages, 0)) by {
        assert(s2.replies.len() == 0);
        assert(s3.replies =~= thread_posts(front, 0));
    }
    lemma_run_push(s4, Seq::empty(), EventView::Failed(why));
    let s5 = run_from(s4, end);
    let walked = ScraperView { threads: s.threads.push(thread_tree(s.thread_base, thread)), ..s };
    let closed = ScraperView {
        threads: s4.threads.push(
            ThreadView {
                base: s4.thread_base,
                poster_name: s4.poster_name,
                replies: s4.replies,
            },
        ),
        thread_base: no_entity(),
        poster_name: Seq::empty(),
        replies: Seq::empty(),
        pager: Pager { page: s4.pager.page, phase: PagerPhase::Finished },
        stage: Stage::TurningReplyPage,
        ..s4
    };
    assert(s5 == next_thread(closed).0);
    assert(alike(closed, walked));
    lemma_next_thread_alike(closed, walked);
}

/// Which thread has its turn next, and what follows where none has,
/// depends on the tree alone.
pub proof fn lemma_next_thread_alike(a: ScraperView, b: ScraperView)
    requires
        alike(a, b),
    ensures
        outline(next_thread(a).0) == outline(next_thread(b).0),
        alike(next_thread(a).0, next_thread(b).0),
{
}

/// Which forum has its turn next depends on the tree alone.
pub proof fn lemma_next_forum_alike(a: ScraperView, b: ScraperView)
    requires
        alike(a, b),
    ensures
        outline(next_forum(a).0) == outline(next_forum(b).0),
        alike(next_forum(a).0, next_forum(b).0),
{
}

/// The events of the walks through the threads of a forum, one after the
/// other.
pub open spec fn threads_events(threads: Seq<ThreadShown>, why: Seq<char>) -> Seq<EventView>
    decreases threads.len(),
{
    if threads.len() == 0 {
        Seq::empty()
    } else {
        threads_events(threads.drop_last(), why) + thread_events(threads.last(), why)
    }
}

/// Whether every thread of a list can be walked as it is shown.
pub open spec fn threads_fit(threads: Seq<ThreadShown>) -> bool {
    forall|j: int| 0 <= j < threads.len() ==> thread_fits(#[trigger] threads[j])
}

/// The threads of the tree that the threads of a forum become, each under
/// the entity of its link.
pub open spec fn thread_trees(bases: Seq<BaseEntityView>, threads: Seq<ThreadShown>) -> Seq<
    ThreadView,
> {
    Seq::new(threads.len(), |j: int| thread_tree(bases[j], threads[j]))
}

/// The threads of a forum are walked in the order of their links: each has
/// joined the threads of the forum, and what follows the last of them has
/// its turn.
#[verifier::rlimit(40)]
pub proof fn lemma_threads_walked(x: ScraperView, threads: Seq<ThreadShown>, why: Seq<char>)
    requires
        x.threads.len() + threads.len() <= x.pending_threads.len(),
        threads_fit(threads),
    ensures
        outline(run_from(next_thread(x).0, threads_events(threads, why))) == outline(
            next_thread(
                ScraperView {
                    threads: x.threads + thread_trees(
                        x.pending_threads.skip(x.threads.len() as int),
                        threads,
                    ),
                    ..x
                },
            ).0,
        ),
        alike(
            run_from(next_thread(x).0, threads_events(threads, why)),
            next_thread(
                ScraperView {
                    threads: x.threads + thread_trees(
                        x.pending_threads.skip(x.threads.len() as int),
                        threads,
                    ),
                    ..x
                },
            ).0,
        ),
    decreases threads.len(),
{
    let bases = x.pending_threads.skip(x.threads.len() as int);
    let start = next_thread(x).0;
    if threads.len() == 0 {
        assert(x.threads + thread_trees(bases, threads) =~= x.threads);
    } else {
        let front = threads.drop_last();
        let last = threads.last();
        assert forall|j: int| 0 <= j < front.len() implies thread_fits(#[trigger] front[j]) by {
            assert(front[j] == threads[j]);
        }
        lemma_threads_walked(x, front, why);
        lemma_run_concat(start, threads_events(front, why), thread_events(last, why));
        let mid = run_from(start, threads_events(front, why));
        let xf = ScraperView { threads: x.threads + thread_trees(bases, front), ..x };
        assert(outline(mid) == outline(next_thread(xf).0));
        assert(mid.stage == Stage::OpeningThread);
        assert(mid.thread_base == bases[front.len() as int]);
        lemma_thread_walked(mid, last, why);
        let walked = ScraperView {
            threads: mid.threads.push(thread_tree(mid.thread_base, last)),
            ..mid
        };
        let all = ScraperView { threads: x.threads + thread_trees(bases, threads), ..x };
        assert(walked.threads =~= all.threads) by {
            assert(mid.threads == x.threads + thread_trees(bases, front));
            assert forall|j: int| 0 <= j < front.len() implies thread_trees(bases, front)[j]
                == thread_trees(bases, threads)[j] by {
                assert(front[j] == threads[j]);
            }
        }
        assert(alike(walked, all));
        lemma_next_thread_alike(walked, all);
    }
}

/// A forum as the session shows it: the links of its thread-list pages,
/// page after page, and its threads, one for each link that has a locator
/// and a title.
pub struct ForumShown {
    pub lists: Seq<Seq<RawLinkView>>,
    pub threads: Seq<ThreadShown>,
}

/// Whether a forum can be walked as it is shown: it has a thread-list page,
/// its pages can be counted, there is a thread for each link that stands
/// for one, and each thread can be walked.
pub open spec fn forum_fits(forum: ForumShown) -> bool {
    &&& 1 <= forum.lists.len() <= u32::MAX
    &&& forum.threads.len() == entities_of(all_links(forum.lists)).len()
    &&& threads_fit(forum.threads)
}

/// The events of the walk through a forum: it is opened, its thread-list
/// pages are read one after the other until no control leads on, and its
/// threads are walked in the order of their links.
pub open spec fn forum_events(forum: ForumShown, why: Seq<char>) -> Seq<EventView> {
    seq![EventView::Done] + turned_events(forum.lists.drop_last()) + seq![
        EventView::Links(forum.lists.last()),
        EventView::Failed(why),
    ] + threads_events(forum.threads, why)
}

/// The forum of the tree that a forum of the site becomes: its threads are
/// those of all its thread-list pages, in the order of the pages and, on a
/// page, of the links.
pub open spec fn forum_tree(base: BaseEntityView, forum: ForumShown) -> ForumView {
    ForumView { base, threads: thread_trees(entities_of(all_links(forum.lists)), forum.threads) }
}

/// A forum is walked: it has joined the forums with all its threads, and
/// the next forum has its turn.
#[verifier::rlimit(40)]
pub proof fn lemma_forum_walked(s: ScraperView, forum: ForumShown, why: Seq<char>)
    requires
        s.stage == Stage::OpeningForum,
        s.pending_threads.len() == 0,
        s.threads.len() == 0,
        forum_fits(forum),
    ensures
        outline(run_from(s, forum_events(forum, why))) == outline(
            next_forum(
                ScraperView {
                    forums: s.forums.push(forum_tree(s.forum_base, forum)),
                    forum_base: no_entity(),
                    ..s
                },
            ).0,
        ),
        alike(
            run_from(s, forum_events(forum, why)),
            next_forum(
                ScraperView {
                    forums: s.forums.push(forum_tree(s.forum_base, forum)),
                    forum_base: no_entity(),
                    ..s
                },
            ).0,
        ),
{
    let front = forum.lists.drop_last();
    let last = forum.lists.last();
    let e1 = Seq::<EventView>::empty().push(EventView::Done);
    let end = seq![EventView::Links(last), EventView::Failed(why)];
    let rest = threads_events(forum.threads, why);
    assert(forum_events(forum, why) =~= e1 + (turned_events(front) + (end + rest)));
    lemma_run_concat(s, e1, turned_events(front) + (end + rest));
    lemma_run_push(s, Seq::empty(), EventView::Done);
    let s1 = run_from(s, e1);
    assert(s1 == ScraperView {
        pager: Pager { page: 1, phase: PagerPhase::Extracting },
        stage: Stage::ListingThreads,
        ..s
    });
    lemma_run_concat(s1, turned_events(front), end + rest);
    lemma_list_pages_add_up(s1, front);
    let s2 = run_from(s1, turned_events(front));
    lemma_run_concat(s2, end, rest);
    lemma_list_ends(s2, last, why);
    let y = ScraperView {
        pending_threads: s2.pending_threads + entities_of(last),
        pager: Pager { page: s2.pager.page, phase: PagerPhase::Finished },
        stage: Stage::TurningThreadPage,
        ..s2
    };
    let bases = entities_of(all_links(forum.lists));
    lemma_entities_of_concat(all_links(front), last);
    assert(y.pending_threads =~= bases);
    lemma_threads_walked(y, forum.threads, why);
    assert(y.pending_threads.skip(0) =~= bases);
    let z = ScraperView {
        threads: y.threads + thread_trees(y.pending_threads.skip(0), forum.threads),
        ..y
    };
    assert(z.threads =~= thread_trees(bases, forum.threads));
    let closed = ScraperView {
        forums: z.forums.push(ForumView { base: z.forum_base, threads: z.threads }),
        forum_base: no_entity(),
        pending_threads: Seq::empty(),
        threads: Seq::empty(),
        ..z
    };
    assert(next_thread(z).0 == next_forum(closed).0);
    let walked = ScraperView {
        forums: s.forums.push(forum_tree(s.forum_base, forum)),
        forum_base: no_entity(),
        ..s
    };
    assert(s.pending_threads =~= Seq::empty());
    assert(s.threads =~= Seq::empty());
    assert(alike(closed, walked));
    lemma_next_forum_alike(closed, walked);
}

/// The events of the walks through the forums of a site, one after the
/// other.
pub open spec fn forums_events(forums: Seq<ForumShown>, why: Seq<char>) -> Seq<EventView>
    decreases forums.len(),
{
    if forums.len() == 0 {
        Seq::empty()
    } else {
        forums_events(forums.drop_last(), why) + forum_events(forums.last(), why)
    }
}

/// Whether every forum of a list can be walked as it is shown.
pub open spec fn forums_fit(forums: Seq<ForumShown>) -> bool {
    forall|i: int| 0 <= i < forums.len() ==> forum_fits(#[trigger] forums[i])
}

/// The forums of the tree that the forums of a site become, each under the
/// entity of its link.
pub open spec fn forum_trees(bases: Seq<BaseEntityView>, forums: Seq<ForumShown>) -> Seq<
    ForumView,
> {
    Seq::new(forums.len(), |i: int| forum_tree(bases[i], forums[i]))
}

/// The forums of a site are walked in the order of their links: each has
/// joined the forums of the run, and what follows the last of them has its
/// turn.
#[verifier::rlimit(40)]
pub proof fn lemma_forums_walked(x: ScraperView, forums: Seq<ForumShown>, why: Seq<char>)
    requires
        x.forums.len() + forums.len() <= x.pending_forums.len(),
        x.pending_threads.len() == 0,
        x.threads.len() == 0,
        x.forum_base == no_entity(),
        forums_fit(forums),
    ensures
        outline(run_from(next_forum(x).0, forums_events(forums, why))) == outline(
            next_forum(
                ScraperView {
                    forums: x.forums + forum_trees(
                        x.pending_forums.skip(x.forums.len() as int),
                        forums,
                    ),
                    ..x
                },
            ).0,
        ),
        alike(
            run_from(next_forum(x).0, forums_events(forums, why)),
            next_forum(
                ScraperView {
                    forums: x.forums + forum_trees(
                        x.pending_forums.skip(x.forums.len() as int),
                        forums,
                    ),
                    ..x
                },
            ).0,
        ),
    decreases forums.len(),
{
    let bases = x.pending_forums.skip(x.forums.len() as int);
    let start = next_forum(x).0;
    if forums.len() == 0 {
        assert(x.forums + forum_trees(bases, forums) =~= x.forums);
    } else {
        let front = forums.drop_last();
        let last = forums.last();
        assert forall|i: int| 0 <= i < front.len() implies forum_fits(#[trigger] front[i]) by {
            assert(front[i] == forums[i]);
        }
        lemma_forums_walked(x, front, why);
        lemma_run_concat(start, forums_events(front, why), forum_events(last, why));
        let mid = run_from(start, forums_events(front, why));
        let xf = ScraperView { forums: x.forums + forum_trees(bases, front), ..x };
        assert(outline(mid) == outline(next_forum(xf).0));
        assert(alike(mid, next_forum(xf).0));
        assert(mid.stage == Stage::OpeningForum);
        assert(mid.forum_base == bases[front.len() as int]);
        lemma_forum_walked(mid, last, why);
        let walked = ScraperView {
            forums: mid.forums.push(forum_tree(mid.forum_base, last)),
            forum_base: no_entity(),
            ..mid
        };
        let all = ScraperView { forums: x.forums + forum_trees(bases, forums), ..x };
        assert(walked.forums =~= all.forums) by {
            assert(mid.forums == x.forums + forum_trees(bases, front));
            assert forall|i: int| 0 <= i < front.len() implies forum_trees(bases, front)[i]
                == forum_trees(bases, forums)[i] by {
                assert(front[i] == forums[i]);
            }
        }
        assert(x.pending_threads =~= Seq::empty());
        assert(x.threads =~= Seq::empty());
        assert(alike(walked, all));
        lemma_next_forum_alike(walked, all);
    }
}

/// A site as the session shows it: the links of its index, and its forums,
/// one for each link that has a locator and a title.
pub struct SiteShown {
    pub links: Seq<RawLinkView>,
    pub forums: Seq<ForumShown>,
}

/// Whether a site can be walked as it is shown: there is a forum for each
/// link of the index that stands for one, and each forum can be walked.
pub open spec fn site_fits(site: SiteShown) -> bool {
    site.forums.len() == entities_of(site.links).len() && forums_fit(site.forums)
}

/// The events of the walk through a site: the login page is opened, the
/// login succeeds, the index is opened and its forum links are read, and
/// the forums are walked in the order of their links.
pub open spec fn site_events(site: SiteShown, why: Seq<char>) -> Seq<EventView> {
    seq![EventView::Done, EventView::Done, EventView::Done, EventView::Links(site.links)]
        + forums_events(site.forums, why)
}

/// The tree of a site: a forum for each link of the index that has a
/// locator and a title, in the order of the links, each with its threads
/// and each thread with its replies.
pub open spec fn site_tree(site: SiteShown) -> Seq<ForumView> {
    forum_trees(entities_of(site.links), site.forums)
}

/// A session that answers as it should gives the tree of its site. The run
/// over the events of the walk through a site is complete at the end, and
/// what it hands out is the tree of the site: the forums in the order of
/// their links, in each the threads of all its thread-list pages, page
/// after page, and in each thread the replies of all its pages in the order
/// of their quote controls.
pub proof fn lemma_site_walked(opts: ScrapeOptsView, site: SiteShown, why: Seq<char>)
    requires
        site_fits(site),
    ensures
        scrape_run(opts, site_events(site, why)).stage == Stage::Finished,
        scrape_run(opts, site_events(site, why)).forums == site_tree(site),
        outcome(scrape_run(opts, site_events(site, why))) == Ok::<
            Seq<ForumView>,
            ScrapeErrorView,
        >(site_tree(site)),
{
    let s = scrape_start(opts).0;
    let e0 = Seq::<EventView>::empty();
    let e1 = e0.push(EventView::Done);
    let e2 = e1.push(EventView::Done);
    let e3 = e2.push(EventView::Done);
    let e4 = e3.push(EventView::Links(site.links));
    let rest = forums_events(site.forums, why);
    assert(site_events(site, why) =~= e4 + rest);
    lemma_run_concat(s, e4, rest);
    lemma_run_push(s, e0, EventView::Done);
    let s1 = run_from(s, e1);
    assert(s1.stage == Stage::SigningIn);
    lemma_run_push(s, e1, EventView::Done);
    let s2 = run_from(s, e2);
    assert(s2.stage == Stage::OpeningIndex);
    lemma_run_push(s, e2, EventView::Done);
    let s3 = run_from(s, e3);
    assert(s3 == ScraperView { stage: Stage::ListingForums, ..s });
    lemma_run_push(s, e3, EventView::Links(site.links));
    let bases = entities_of(site.links);
    let x = ScraperView { pending_forums: bases, forums: Seq::empty(), ..s3 };
    assert(run_from(s, e4) == next_forum(x).0);
    lemma_forums_walked(x, site.forums, why);
    assert(bases.skip(0) =~= bases);
    assert(x.forums + forum_trees(bases.skip(0), site.forums) =~= site_tree(site));
}

} // verus!
