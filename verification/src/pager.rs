//! The pagination driver. A page series is walked by repeating four things:
//! extract the current page, look for the control that leads to the next
//! page, activate it, wait for the page to load. The driver decides what
//! comes next; somebody else does it and reports how it went.

use vstd::prelude::*;

verus! {

/// What the driver is waiting to hear about.
#[derive(Clone, Copy, Debug, PartialEq, Eq, Structural)]
pub enum PagerPhase {
    /// The extraction of the current page.
    Extracting,
    /// The search for the control that leads to the next page.
    Seeking,
    /// The activation of that control.
    Clicking,
    /// The load of the page it leads to.
    Loading,
    /// Nothing: the series has ended with its last page.
    Finished,
    /// Nothing: the series was given up.
    Failed,
}

/// The state of a walk through one page series.
#[derive(Clone, Copy, Debug, PartialEq, Eq, Structural)]
pub struct Pager {
    /// The number of the current page, counted from 1.
    pub page: u32,
    pub phase: PagerPhase,
}

/// What the driver wants done next.
#[derive(Clone, Copy, Debug, PartialEq, Eq, Structural)]
pub enum PagerMove {
    /// Extract the page that is now current; it has this number.
    Extract(u32),
    /// Look for the control that leads to the next page.
    FindNext,
    /// Activate that control.
    ClickNext,
    /// Wait for the page to finish loading.
    WaitForLoad,
    /// The series is complete.
    Stop,
    /// The series is given up.
    Fail,
}

/// The driver at the start of a series, and its first move: page 1 is
/// current and is extracted, with no control to activate before.
pub open spec fn pager_start() -> (Pager, PagerMove) {
    (Pager { page: 1, phase: PagerPhase::Extracting }, PagerMove::Extract(1))
}

/// The driver after it hears how its last move went, and its next move.
/// `ok` says that the move succeeded; for the search of the control it says
/// that there is one.
pub open spec fn pager_step(p: Pager, ok: bool) -> (Pager, PagerMove) {
    match p.phase {
        PagerPhase::Extracting => if ok {
            (Pager { page: p.page, phase: PagerPhase::Seeking }, PagerMove::FindNext)
        } else {
            (Pager { page: p.page, phase: PagerPhase::Failed }, PagerMove::Fail)
        },
        PagerPhase::Seeking => if ok {
            (Pager { page: p.page, phase: PagerPhase::Clicking }, PagerMove::ClickNext)
        } else {
            (Pager { page: p.page, phase: PagerPhase::Finished }, PagerMove::Stop)
        },
        PagerPhase::Clicking => if ok {
            (Pager { page: p.page, phase: PagerPhase::Loading }, PagerMove::WaitForLoad)
        } else {
            (Pager { page: p.page, phase: PagerPhase::Failed }, PagerMove::Fail)
        },
        PagerPhase::Loading => if ok && p.page < u32::MAX {
            (
                Pager { page: (p.page + 1) as u32, phase: PagerPhase::Extracting },
                PagerMove::Extract((p.page + 1) as u32),
            )
        } else {
            (Pager { page: p.page, phase: PagerPhase::Failed }, PagerMove::Fail)
        },
        PagerPhase::Finished => (p, PagerMove::Stop),
        PagerPhase::Failed => (p, PagerMove::Fail),
    }
}

/// Whether the driver still has something to wait for.
pub open spec fn pager_live(p: Pager) -> bool {
    p.phase != PagerPhase::Finished && p.phase != PagerPhase::Failed
}

/// The driver after a series of reports, from the start.
pub open spec fn pager_run(reports: Seq<bool>) -> Pager
    decreases reports.len(),
{
    if reports.len() == 0 {
        pager_start().0
    } else {
        pager_step(pager_run(reports.drop_last()), reports.last()).0
    }
}

/// The moves of the driver over a series of reports: the first move, then
/// one for each report.
pub open spec fn pager_moves(reports: Seq<bool>) -> Seq<PagerMove>
    decreases reports.len(),
{
    if reports.len() == 0 {
        seq![pager_start().1]
    } else {
        pager_moves(reports.drop_last()).push(
            pager_step(pager_run(reports.drop_last()), reports.last()).1,
        )
    }
}

/// The page numbers that a list of moves asks to extract, in order.
pub open spec fn pages_asked(moves: Seq<PagerMove>) -> Seq<u32>
    decreases moves.len(),
{
    if moves.len() == 0 {
        Seq::empty()
    } else {
        match moves.last() {
            PagerMove::Extract(n) => pages_asked(moves.drop_last()).push(n),
            _ => pages_asked(moves.drop_last()),
        }
    }
}

/// The numbers from 1 to `n`.
pub open spec fn first_pages(n: nat) -> Seq<u32> {
    Seq::new(n, |i: int| (i + 1) as u32)
}

/// The driver stops exactly when it is told that a page has no control that
/// leads on; told that there is one, it goes on.
pub proof fn lemma_stops_when_no_next(p: Pager, ok: bool)
    requires
        pager_live(p),
    ensures
        pager_step(p, ok).1 == PagerMove::Stop <==> p.phase == PagerPhase::Seeking && !ok,
        pager_step(p, ok).0.phase == PagerPhase::Finished <==> p.phase == PagerPhase::Seeking
            && !ok,
        p.phase == PagerPhase::Seeking && ok ==> pager_step(p, ok).1 == PagerMove::ClickNext,
{
}

/// The driver gives a series up exactly when an extraction, an activation
/// or a load fails, or when the page counter can count no further.
pub proof fn lemma_fails_when_told(p: Pager, ok: bool)
    requires
        pager_live(p),
    ensures
        pager_step(p, ok).1 == PagerMove::Fail <==> (p.phase != PagerPhase::Seeking && !ok) || (
        p.phase == PagerPhase::Loading && p.page == u32::MAX),
{
}

/// Once a series has ended, it stays ended.
pub proof fn lemma_ended_stays(p: Pager, ok: bool)
    requires
        !pager_live(p),
    ensures
        pager_step(p, ok).0 == p,
        pager_step(p, ok).1 == (if p.phase == PagerPhase::Finished {
            PagerMove::Stop
        } else {
            PagerMove::Fail
        }),
{
}

/// Whatever is reported, the pages that the driver asks to extract are
/// page 1, page 2 and so on up to the current page: each once, in
/// increasing order, none left out.
pub proof fn lemma_pages_in_order(reports: Seq<bool>)
    ensures
        pager_run(reports).page >= 1,
        pages_asked(pager_moves(reports)) == first_pages(pager_run(reports).page as nat),
    decreases reports.len(),
{
    if reports.len() == 0 {
        let moves = pager_moves(reports);
        assert(moves.drop_last() =~= Seq::empty());
        assert(pages_asked(moves.drop_last()) =~= Seq::empty());
        assert(pages_asked(moves) =~= first_pages(1));
    } else {
        let before = reports.drop_last();
        lemma_pages_in_order(before);
        let p = pager_run(before);
        let (q, m) = pager_step(p, reports.last());
        let moves = pager_moves(reports);
        assert(moves.drop_last() =~= pager_moves(before));
        assert(moves.last() == m);
        match m {
            PagerMove::Extract(n) => {
                assert(first_pages(p.page as nat).push(n) =~= first_pages(q.page as nat));
            },
            _ => {},
        }
    }
}

/// Where a series that is under way stands after `k` reports.
pub open spec fn phase_after(k: nat) -> PagerPhase {
    if k % 4 == 0 {
        PagerPhase::Extracting
    } else if k % 4 == 1 {
        PagerPhase::Seeking
    } else if k % 4 == 2 {
        PagerPhase::Clicking
    } else {
        PagerPhase::Loading
    }
}

/// As long as a series is under way, nothing but success has been reported,
/// and the number of reports tells where the driver stands: four reports to
/// a page. So a series cannot go on for ever without turning pages, and it
/// ends when the page counter is used up at the latest.
pub proof fn lemma_live_progress(reports: Seq<bool>)
    requires
        pager_live(pager_run(reports)),
    ensures
        pager_run(reports).page == reports.len() / 4 + 1,
        pager_run(reports).phase == phase_after(reports.len()),
        forall|i: int| 0 <= i < reports.len() ==> #[trigger] reports[i],
        reports.len() < 4 * u32::MAX,
    decreases reports.len(),
{
    if reports.len() > 0 {
        let before = reports.drop_last();
        let p = pager_run(before);
        if !pager_live(p) {
            lemma_ended_stays(p, reports.last());
        }
        lemma_live_progress(before);
        assert forall|i: int| 0 <= i < reports.len() implies #[trigger] reports[i] by {
            if i < before.len() {
                assert(before[i] == reports[i]);
            }
        }
    }
}

/// The reports of `k` pages that all lead on: each is extracted, has the
/// control, and the control leads to a page that loads.
pub open spec fn turned_reports(k: nat) -> Seq<bool> {
    Seq::new(4 * k, |i: int| true)
}

/// The reports of a series of `n` pages on which nothing goes wrong: all
/// pages but the last lead on; the last is extracted and has no control.
pub open spec fn series_reports(n: nat) -> Seq<bool> {
    turned_reports((n - 1) as nat) + seq![true, false]
}

/// After `k` pages that were extracted and all led on to a page that
/// loaded, the driver is at page `k + 1` and has asked to extract it.
pub proof fn lemma_turned_pages(k: nat)
    requires
        k < u32::MAX,
    ensures
        pager_run(turned_reports(k)) == (Pager {
            page: (k + 1) as u32,
            phase: PagerPhase::Extracting,
        }),
    decreases k,
{
    if k > 0 {
        lemma_turned_pages((k - 1) as nat);
        let r4 = turned_reports(k);
        let r3 = r4.drop_last();
        let r2 = r3.drop_last();
        let r1 = r2.drop_last();
        let r0 = r1.drop_last();
        assert(r0 =~= turned_reports((k - 1) as nat));
        assert(r1.last() && r2.last() && r3.last() && r4.last());
        assert(pager_run(r1).phase == PagerPhase::Seeking);
        assert(pager_run(r2).phase == PagerPhase::Clicking);
        assert(pager_run(r3).phase == PagerPhase::Loading);
    }
}

/// A series of `n` pages on which nothing goes wrong is walked from page 1
/// to page `n`: each page is extracted exactly once, in order, and the walk
/// ends, complete, when page `n` shows no control that leads on.
pub proof fn lemma_series_walked(n: nat)
    requires
        1 <= n <= u32::MAX,
    ensures
        ({
            let reports = series_reports(n);
            &&& pager_run(reports) == (Pager { page: n as u32, phase: PagerPhase::Finished })
            &&& pages_asked(pager_moves(reports)) == first_pages(n)
            &&& pager_moves(reports).last() == PagerMove::Stop
            &&& pager_live(pager_run(reports.drop_last()))
        }),
{
    let turned = turned_reports((n - 1) as nat);
    let reports = series_reports(n);
    lemma_turned_pages((n - 1) as nat);
    let r1 = reports.drop_last();
    assert(r1 =~= turned + seq![true]);
    assert(r1.drop_last() =~= turned);
    assert(r1.last());
    assert(!reports.last());
    assert(pager_run(r1).phase == PagerPhase::Seeking);
    lemma_pages_in_order(reports);
}

impl Pager {
    /// Starts a series: page 1 is current, and the first move is to extract
    /// it.
    pub fn start() -> (begun: (Pager, PagerMove))
        ensures
            begun == pager_start(),
    {
        (Pager { page: 1, phase: PagerPhase::Extracting }, PagerMove::Extract(1))
    }

    /// Takes the report on the last move and decides the next one. `ok`
    /// says that the move succeeded; for the search of the control that
    /// leads on, that there is one.
    pub fn step(self, ok: bool) -> (next: (Pager, PagerMove))
        ensures
            next == pager_step(self, ok),
    {
        match self.phase {
            PagerPhase::Extracting => if ok {
                (Pager { page: self.page, phase: PagerPhase::Seeking }, PagerMove::FindNext)
            } else {
                (Pager { page: self.page, phase: PagerPhase::Failed }, PagerMove::Fail)
            },
            PagerPhase::Seeking => if ok {
                (Pager { page: self.page, phase: PagerPhase::Clicking }, PagerMove::ClickNext)
            } else {
                (Pager { page: self.page, phase: PagerPhase::Finished }, PagerMove::Stop)
            },
            PagerPhase::Clicking => if ok {
                (Pager { page: self.page, phase: PagerPhase::Loading }, PagerMove::WaitForLoad)
            } else {
                (Pager { page: self.page, phase: PagerPhase::Failed }, PagerMove::Fail)
            },
            PagerPhase::Loading => if ok && self.page < u32::MAX {
                let page: u32 = self.page + 1;
                (Pager { page, phase: PagerPhase::Extracting }, PagerMove::Extract(page))
            } else {
                (Pager { page: self.page, phase: PagerPhase::Failed }, PagerMove::Fail)
            },
            PagerPhase::Finished => (self, PagerMove::Stop),
            PagerPhase::Failed => (self, PagerMove::Fail),
        }
    }

    /// Tells whether the series is still under way.
    pub fn is_live(&self) -> (live: bool)
        ensures
            live == pager_live(*self),
    {
        match self.phase {
            PagerPhase::Finished => false,
            PagerPhase::Failed => false,
            _ => true,
        }
    }
}

} // verus!
