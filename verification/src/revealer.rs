//! The reply revealer. The raw text of a reply is not on the page: it shows
//! up in a scratch field some time after the reply's quote control is
//! activated. The revealer clears the field, activates the control, waits
//! for the page to settle and then reads the field again and again, a second
//! apart, until it holds something or the attempts are used up; then it
//! clears the field once more. It decides each move; somebody else makes it
//! and reports what came of it.

use vstd::prelude::*;

verus! {

/// How many times the scratch field is read at most for one reply.
pub const POLL_LIMIT: u32 = 30;

/// How many seconds pass between two reads of the scratch field.
pub const POLL_INTERVAL_SECS: u64 = 1;

/// What the revealer is waiting to hear about.
#[derive(Clone, Copy, Debug, PartialEq, Eq, Structural)]
pub enum RevealPhase {
    /// The clearing of the scratch field before the control is activated.
    Clearing,
    /// The activation of the quote control.
    Triggering,
    /// The settling of the page.
    Settling,
    /// A read of the scratch field.
    Polling,
    /// The pause before the next read.
    Waiting,
    /// The clearing of the scratch field after the last read.
    Tidying,
    /// Nothing: the reply is revealed, or given up as empty.
    Done,
    /// Nothing: the reveal failed.
    Failed,
}

/// The state of the reveal of one reply.
#[derive(Clone, Copy, Debug, PartialEq, Eq, Structural)]
pub struct Revealer {
    pub phase: RevealPhase,
    /// How many times the scratch field has been read so far.
    pub attempts: u32,
    /// Whether a read has found the field filled.
    pub captured: bool,
}

/// What came of a move.
#[derive(Clone, Copy, Debug, PartialEq, Eq, Structural)]
pub enum Report {
    /// It was made.
    Done,
    /// It could not be made.
    Failed,
    /// The scratch field was read and holds nothing but whitespace, or has
    /// no value at all.
    Blank,
    /// The scratch field was read and holds more than whitespace.
    Filled,
}

/// What the revealer wants done next.
#[derive(Clone, Copy, Debug, PartialEq, Eq, Structural)]
pub enum RevealMove {
    /// Empty the scratch field.
    ClearScratch,
    /// Activate the quote control of the reply.
    ClickQuote,
    /// Wait for the page to settle.
    WaitForLoad,
    /// Read the scratch field.
    ReadScratch,
    /// Let `POLL_INTERVAL_SECS` seconds pass.
    Sleep,
    /// The reveal is over: the text that was captured, if any, is the
    /// reply.
    Yield,
    /// The reveal failed.
    Fail,
}

/// The revealer at the start, and its first move: the scratch field is
/// cleared before anything else.
pub open spec fn reveal_start() -> (Revealer, RevealMove) {
    (
        Revealer { phase: RevealPhase::Clearing, attempts: 0, captured: false },
        RevealMove::ClearScratch,
    )
}

/// The failed revealer that comes of `r`.
pub open spec fn reveal_failed(r: Revealer) -> (Revealer, RevealMove) {
    (
        Revealer { phase: RevealPhase::Failed, attempts: r.attempts, captured: r.captured },
        RevealMove::Fail,
    )
}

/// One more read of the scratch field if the attempts allow it; the
/// clearing that ends the reveal if they are used up.
pub open spec fn reveal_poll(r: Revealer) -> (Revealer, RevealMove) {
    if r.attempts < POLL_LIMIT {
        (
            Revealer {
                phase: RevealPhase::Polling,
                attempts: (r.attempts + 1) as u32,
                captured: r.captured,
            },
            RevealMove::ReadScratch,
        )
    } else {
        (
            Revealer { phase: RevealPhase::Tidying, attempts: r.attempts, captured: r.captured },
            RevealMove::ClearScratch,
        )
    }
}

/// The revealer after it hears what came of its last move, and its next
/// move. That the field could not be cleared is no failure; that the
/// control could not be activated, or the page did not settle, is one.
pub open spec fn reveal_step(r: Revealer, report: Report) -> (Revealer, RevealMove) {
    match r.phase {
        RevealPhase::Clearing => match report {
            Report::Done | Report::Failed => (
                Revealer {
                    phase: RevealPhase::Triggering,
                    attempts: r.attempts,
                    captured: r.captured,
                },
                RevealMove::ClickQuote,
            ),
            _ => reveal_failed(r),
        },
        RevealPhase::Triggering => match report {
            Report::Done => (
                Revealer {
                    phase: RevealPhase::Settling,
                    attempts: r.attempts,
                    captured: r.captured,
                },
                RevealMove::WaitForLoad,
            ),
            _ => reveal_failed(r),
        },
        RevealPhase::Settling => match report {
            Report::Done => reveal_poll(r),
            _ => reveal_failed(r),
        },
        RevealPhase::Polling => match report {
            Report::Filled => (
                Revealer { phase: RevealPhase::Tidying, attempts: r.attempts, captured: true },
                RevealMove::ClearScratch,
            ),
            Report::Blank => if r.attempts < POLL_LIMIT {
                (
                    Revealer {
                        phase: RevealPhase::Waiting,
                        attempts: r.attempts,
                        captured: r.captured,
                    },
                    RevealMove::Sleep,
                )
            } else {
                (
                    Revealer {
                        phase: RevealPhase::Tidying,
                        attempts: r.attempts,
                        captured: r.captured,
                    },
                    RevealMove::ClearScratch,
                )
            },
            _ => reveal_failed(r),
        },
        RevealPhase::Waiting => match report {
            Report::Done => reveal_poll(r),
            _ => reveal_failed(r),
        },
        RevealPhase::Tidying => match report {
            Report::Done | Report::Failed => (
                Revealer { phase: RevealPhase::Done, attempts: r.attempts, captured: r.captured },
                RevealMove::Yield,
            ),
            _ => reveal_failed(r),
        },
        RevealPhase::Done => (r, RevealMove::Yield),
        RevealPhase::Failed => (r, RevealMove::Fail),
    }
}

/// The revealer after a series of reports, from the start.
pub open spec fn reveal_run(reports: Seq<Report>) -> Revealer
    decreases reports.len(),
{
    if reports.len() == 0 {
        reveal_start().0
    } else {
        reveal_step(reveal_run(reports.drop_last()), reports.last()).0
    }
}

/// The moves of the revealer over a series of reports: the first move, then
/// one for each report.
pub open spec fn reveal_moves(reports: Seq<Report>) -> Seq<RevealMove>
    decreases reports.len(),
{
    if reports.len() == 0 {
        seq![reveal_start().1]
    } else {
        reveal_moves(reports.drop_last()).push(
            reveal_step(reveal_run(reports.drop_last()), reports.last()).1,
        )
    }
}

/// How many of the moves are reads of the scratch field.
pub open spec fn reads_in(moves: Seq<RevealMove>) -> nat
    decreases moves.len(),
{
    if moves.len() == 0 {
        0
    } else if moves.last() == RevealMove::ReadScratch {
        reads_in(moves.drop_last()) + 1
    } else {
        reads_in(moves.drop_last())
    }
}

/// The reports of a reveal up to its `k`-th read of the field, where every
/// read finds the field blank: the clearing, the activation, the settling
/// and the first read, then a pause and a read for each further read.
pub open spec fn blank_reads(k: nat) -> Seq<Report>
    decreases k,
{
    if k <= 1 {
        seq![Report::Done, Report::Done, Report::Done, Report::Blank]
    } else {
        blank_reads((k - 1) as nat) + seq![Report::Done, Report::Blank]
    }
}

/// Whatever is reported, the scratch field is read no more than
/// `POLL_LIMIT` times for one reply, and the revealer counts the reads.
pub proof fn lemma_reads_bounded(reports: Seq<Report>)
    ensures
        reads_in(reveal_moves(reports)) == reveal_run(reports).attempts,
        reveal_run(reports).attempts <= POLL_LIMIT,
    decreases reports.len(),
{
    let moves = reveal_moves(reports);
    if reports.len() == 0 {
        assert(moves.drop_last() =~= Seq::empty());
        assert(reads_in(moves.drop_last()) == 0);
    } else {
        lemma_reads_bounded(reports.drop_last());
        assert(moves.drop_last() =~= reveal_moves(reports.drop_last()));
    }
}

/// The move that the revealer is waiting to hear about in a phase.
pub open spec fn move_awaited(phase: RevealPhase) -> RevealMove {
    match phase {
        RevealPhase::Clearing => RevealMove::ClearScratch,
        RevealPhase::Triggering => RevealMove::ClickQuote,
        RevealPhase::Settling => RevealMove::WaitForLoad,
        RevealPhase::Polling => RevealMove::ReadScratch,
        RevealPhase::Waiting => RevealMove::Sleep,
        RevealPhase::Tidying => RevealMove::ClearScratch,
        RevealPhase::Done => RevealMove::Yield,
        RevealPhase::Failed => RevealMove::Fail,
    }
}

/// The last move is the one that the phase waits for, and the phase tells
/// how far the reveal has come: the clearing, the activation and the
/// settling are the first three moves, in this order, and nothing is read
/// before them.
pub proof fn lemma_awaited_move(reports: Seq<Report>)
    ensures
        reveal_moves(reports).len() == reports.len() + 1,
        reveal_moves(reports).last() == move_awaited(reveal_run(reports).phase),
        match reveal_run(reports).phase {
            RevealPhase::Clearing => reports.len() == 0,
            RevealPhase::Triggering => reports.len() == 1,
            RevealPhase::Settling => reports.len() == 2,
            RevealPhase::Polling | RevealPhase::Waiting | RevealPhase::Tidying => reports.len()
                >= 3,
            RevealPhase::Done => reports.len() >= 4,
            RevealPhase::Failed => reports.len() >= 1,
        },
    decreases reports.len(),
{
    if reports.len() > 0 {
        lemma_awaited_move(reports.drop_last());
    }
}

/// The move at a place is the last move of the reveal up to that place.
pub proof fn lemma_move_at(reports: Seq<Report>, i: int)
    requires
        0 <= i <= reports.len(),
    ensures
        reveal_moves(reports).len() == reports.len() + 1,
        reveal_moves(reports)[i] == reveal_moves(reports.take(i)).last(),
        reveal_moves(reports)[i] == move_awaited(reveal_run(reports.take(i)).phase),
    decreases reports.len(),
{
    lemma_awaited_move(reports);
    lemma_awaited_move(reports.take(i));
    if i == reports.len() {
        assert(reports.take(i) =~= reports);
    } else {
        lemma_move_at(reports.drop_last(), i);
        assert(reports.drop_last().take(i) =~= reports.take(i));
    }
}

/// The field is cleared before the control is activated: the activation is
/// the second move and no other, and the first move is the clearing.
pub proof fn lemma_cleared_before_click(reports: Seq<Report>, i: int)
    requires
        0 <= i <= reports.len(),
        reveal_moves(reports)[i] == RevealMove::ClickQuote,
    ensures
        i == 1,
        reveal_moves(reports)[0] == RevealMove::ClearScratch,
{
    lemma_move_at(reports, i);
    lemma_awaited_move(reports.take(i));
    lemma_move_at(reports, 0);
    lemma_awaited_move(reports.take(0));
}

/// The field is read only after it was cleared and the control activated.
pub proof fn lemma_read_after_click(reports: Seq<Report>, i: int)
    requires
        0 <= i <= reports.len(),
        reveal_moves(reports)[i] == RevealMove::ReadScratch,
    ensures
        i >= 3,
        reveal_moves(reports)[0] == RevealMove::ClearScratch,
        reveal_moves(reports)[1] == RevealMove::ClickQuote,
        reveal_moves(reports)[2] == RevealMove::WaitForLoad,
{
    lemma_move_at(reports, i);
    lemma_awaited_move(reports.take(i));
    let upto = reports.take(i);
    assert(upto.take(2) =~= reports.take(2));
    if reveal_run(reports.take(2)).phase == RevealPhase::Failed {
        lemma_failed_stays(upto, 2);
    }
    lemma_first_moves(reports);
}

/// A reveal that has gone beyond its first two reports without failing has
/// begun with the clearing, the activation and the wait, in this order.
pub proof fn lemma_first_moves(reports: Seq<Report>)
    requires
        reports.len() >= 2,
        reveal_run(reports.take(2)).phase != RevealPhase::Failed,
    ensures
        reveal_moves(reports)[0] == RevealMove::ClearScratch,
        reveal_moves(reports)[1] == RevealMove::ClickQuote,
        reveal_moves(reports)[2] == RevealMove::WaitForLoad,
{
    lemma_move_at(reports, 0);
    lemma_move_at(reports, 1);
    lemma_move_at(reports, 2);
    let r2 = reports.take(2);
    let r1 = reports.take(1);
    let r0 = reports.take(0);
    assert(r2.drop_last() =~= r1);
    assert(r1.drop_last() =~= r0);
    lemma_awaited_move(r0);
    lemma_awaited_move(r1);
    lemma_awaited_move(r2);
}

/// Two reads of the field are a pause apart: every read but the first
/// comes right after a pause, and every pause right after a read.
pub proof fn lemma_paused_between_reads(reports: Seq<Report>, i: int)
    requires
        0 <= i <= reports.len(),
    ensures
        reveal_moves(reports)[i] == RevealMove::ReadScratch && i > 3 ==> reveal_moves(
            reports,
        )[i - 1] == RevealMove::Sleep,
        reveal_moves(reports)[i] == RevealMove::ReadScratch && i <= 3 ==> i == 3,
        reveal_moves(reports)[i] == RevealMove::Sleep ==> i >= 4 && reveal_moves(reports)[i - 1]
            == RevealMove::ReadScratch,
{
    lemma_move_at(reports, i);
    lemma_awaited_move(reports.take(i));
    if i >= 1 {
        lemma_move_at(reports, i - 1);
        lemma_awaited_move(reports.take(i - 1));
        assert(reports.take(i).drop_last() =~= reports.take(i - 1));
    }
}

/// Once a reveal has failed, it stays failed.
pub proof fn lemma_failed_stays(reports: Seq<Report>, i: int)
    requires
        0 <= i <= reports.len(),
        reveal_run(reports.take(i)).phase == RevealPhase::Failed,
    ensures
        reveal_run(reports).phase == RevealPhase::Failed,
    decreases reports.len(),
{
    if i == reports.len() {
        assert(reports.take(i) =~= reports);
    } else {
        assert(reports.drop_last().take(i) =~= reports.take(i));
        lemma_failed_stays(reports.drop_last(), i);
    }
}

/// Once the field is cleared for the second time, the reveal only ends.
pub proof fn lemma_ends_after_tidying(reports: Seq<Report>, i: int)
    requires
        0 <= i <= reports.len(),
        reveal_run(reports.take(i)).phase == RevealPhase::Tidying || reveal_run(
            reports.take(i),
        ).phase == RevealPhase::Done,
    ensures
        reveal_run(reports).phase == RevealPhase::Tidying || reveal_run(reports).phase
            == RevealPhase::Done || reveal_run(reports).phase == RevealPhase::Failed,
        i < reports.len() ==> reveal_run(reports).phase != RevealPhase::Tidying,
    decreases reports.len(),
{
    if i == reports.len() {
        assert(reports.take(i) =~= reports);
    } else {
        assert(reports.drop_last().take(i) =~= reports.take(i));
        lemma_ends_after_tidying(reports.drop_last(), i);
    }
}

/// After the field is cleared for the second time nothing is read and
/// nothing activated any more: every later move ends the reveal. So what a
/// reveal leaves in the field is never what the next one reads.
pub proof fn lemma_nothing_after_tidying(reports: Seq<Report>, i: int, j: int)
    requires
        0 < i < j <= reports.len(),
        reveal_moves(reports)[i] == RevealMove::ClearScratch,
    ensures
        reveal_moves(reports)[j] == RevealMove::Yield || reveal_moves(reports)[j]
            == RevealMove::Fail,
{
    lemma_move_at(reports, i);
    lemma_awaited_move(reports.take(i));
    lemma_move_at(reports, j);
    let upto = reports.take(j);
    assert(upto.take(i) =~= reports.take(i));
    lemma_ends_after_tidying(upto, i);
}

/// A reveal ends well only after the field is cleared again: the move
/// before the first `Yield` is that clearing.
pub proof fn lemma_cleared_before_yield(reports: Seq<Report>, i: int)
    requires
        0 <= i <= reports.len(),
        reveal_moves(reports)[i] == RevealMove::Yield,
    ensures
        i >= 4,
        reveal_moves(reports)[i - 1] == RevealMove::ClearScratch || reveal_moves(reports)[i - 1]
            == RevealMove::Yield,
{
    lemma_move_at(reports, i);
    lemma_awaited_move(reports.take(i));
    lemma_move_at(reports, i - 1);
    assert(reports.take(i).drop_last() =~= reports.take(i - 1));
}

/// The revealer gives up after `POLL_LIMIT` reads and not before: while
/// the field is found blank, each read but the last is followed by a pause
/// and another read; after the last the field is cleared, nothing is
/// captured, and the reveal ends.
pub proof fn lemma_gives_up(k: nat)
    requires
        1 <= k <= POLL_LIMIT,
    ensures
        reveal_run(blank_reads(k)) == (Revealer {
            phase: if k < POLL_LIMIT {
                RevealPhase::Waiting
            } else {
                RevealPhase::Tidying
            },
            attempts: k as u32,
            captured: false,
        }),
        reveal_moves(blank_reads(k)).last() == (if k < POLL_LIMIT {
            RevealMove::Sleep
        } else {
            RevealMove::ClearScratch
        }),
        k == POLL_LIMIT ==> reveal_step(reveal_run(blank_reads(k)), Report::Done) == (
            Revealer { phase: RevealPhase::Done, attempts: POLL_LIMIT, captured: false },
            RevealMove::Yield,
        ),
    decreases k,
{
    if k == 1 {
        let r3 = blank_reads(1);
        let r2 = r3.drop_last();
        let r1 = r2.drop_last();
        let r0 = r1.drop_last();
        assert(r0.drop_last() =~= Seq::empty());
        assert(r0.last() == Report::Done && r1.last() == Report::Done && r2.last()
            == Report::Done);
        assert(reveal_run(r0.drop_last()) == reveal_start().0);
        assert(reveal_run(r0).phase == RevealPhase::Triggering);
        assert(reveal_run(r1).phase == RevealPhase::Settling);
        assert(reveal_run(r2) == Revealer {
            phase: RevealPhase::Polling,
            attempts: 1,
            captured: false,
        });
        assert(r3.last() == Report::Blank);
    } else {
        lemma_gives_up((k - 1) as nat);
        let s2 = blank_reads(k);
        let s1 = s2.drop_last();
        assert(s1.drop_last() =~= blank_reads((k - 1) as nat));
        assert(s1.last() == Report::Done);
        assert(s2.last() == Report::Blank);
        assert(reveal_run(s1) == Revealer {
            phase: RevealPhase::Polling,
            attempts: k as u32,
            captured: false,
        });
    }
}

impl Revealer {
    /// Starts the reveal of a reply: the first move is to clear the scratch
    /// field.
    pub fn start() -> (begun: (Revealer, RevealMove))
        ensures
            begun == reveal_start(),
    {
        (
            Revealer { phase: RevealPhase::Clearing, attempts: 0, captured: false },
            RevealMove::ClearScratch,
        )
    }

    fn failed(self) -> (next: (Revealer, RevealMove))
        ensures
            next == reveal_failed(self),
    {
        (
            Revealer {
                phase: RevealPhase::Failed,
                attempts: self.attempts,
                captured: self.captured,
            },
            RevealMove::Fail,
        )
    }

    fn poll(self) -> (next: (Revealer, RevealMove))
        ensures
            next == reveal_poll(self),
    {
        if self.attempts < POLL_LIMIT {
            (
                Revealer {
                    phase: RevealPhase::Polling,
                    attempts: self.attempts + 1,
                    captured: self.captured,
                },
                RevealMove::ReadScratch,
            )
        } else {
            (
                Revealer {
                    phase: RevealPhase::Tidying,
                    attempts: self.attempts,
                    captured: self.captured,
                },
                RevealMove::ClearScratch,
            )
        }
    }

    /// Takes the report on the last move and decides the next one.
    pub fn step(self, report: Report) -> (next: (Revealer, RevealMove))
        ensures
            next == reveal_step(self, report),
    {
        match self.phase {
            RevealPhase::Clearing => match report {
                Report::Done | Report::Failed => (
                    Revealer {
                        phase: RevealPhase::Triggering,
                        attempts: self.attempts,
                        captured: self.captured,
                    },
                    RevealMove::ClickQuote,
                ),
                _ => self.failed(),
            },
            RevealPhase::Triggering => match report {
                Report::Done => (
                    Revealer {
                        phase: RevealPhase::Settling,
                        attempts: self.attempts,
                        captured: self.captured,
                    },
                    RevealMove::WaitForLoad,
                ),
                _ => self.failed(),
            },
            RevealPhase::Settling => match report {
                Report::Done => self.poll(),
                _ => self.failed(),
            },
            RevealPhase::Polling => match report {
                Report::Filled => (
                    Revealer {
                        phase: RevealPhase::Tidying,
                        attempts: self.attempts,
                        captured: true,
                    },
                    RevealMove::ClearScratch,
                ),
                Report::Blank => if self.attempts < POLL_LIMIT {
                    (
                        Revealer {
                            phase: RevealPhase::Waiting,
                            attempts: self.attempts,
                            captured: self.captured,
                        },
                        RevealMove::Sleep,
                    )
                } else {
                    (
                        Revealer {
                            phase: RevealPhase::Tidying,
                            attempts: self.attempts,
                            captured: self.captured,
                        },
                        RevealMove::ClearScratch,
                    )
                },
                _ => self.failed(),
            },
            RevealPhase::Waiting => match report {
                Report::Done => self.poll(),
                _ => self.failed(),
            },
            RevealPhase::Tidying => match report {
                Report::Done | Report::Failed => (
                    Revealer {
                        phase: RevealPhase::Done,
                        attempts: self.attempts,
                        captured: self.captured,
                    },
                    RevealMove::Yield,
                ),
                _ => self.failed(),
            },
            RevealPhase::Done => (self, RevealMove::Yield),
            RevealPhase::Failed => (self, RevealMove::Fail),
        }
    }
}

} // verus!
