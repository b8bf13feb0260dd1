use forum_scraper::revealer::{
    Report, RevealMove, RevealPhase, Revealer, POLL_INTERVAL_SECS, POLL_LIMIT,
};

fn play(filled_at: Option<u32>) -> (Revealer, Vec<RevealMove>) {
    let (mut revealer, first) = Revealer::start();
    let mut moves = vec![first];
    let mut reads = 0;
    loop {
        let report = match *moves.last().unwrap() {
            RevealMove::ReadScratch => {
                reads += 1;
                if Some(reads) == filled_at {
                    Report::Filled
                } else {
                    Report::Blank
                }
            }
            RevealMove::Yield | RevealMove::Fail => break,
            _ => Report::Done,
        };
        let (next, step) = revealer.step(report);
        revealer = next;
        moves.push(step);
    }
    (revealer, moves)
}

fn count(moves: &[RevealMove], what: RevealMove) -> usize {
    moves.iter().filter(|step| **step == what).count()
}

#[test]
fn the_limits_of_a_reveal() {
    assert_eq!(POLL_LIMIT, 30);
    assert_eq!(POLL_INTERVAL_SECS, 1);
}

#[test]
fn a_reply_that_shows_up_at_once() {
    let (revealer, moves) = play(Some(1));
    assert_eq!(
        moves,
        vec![
            RevealMove::ClearScratch,
            RevealMove::ClickQuote,
            RevealMove::WaitForLoad,
            RevealMove::ReadScratch,
            RevealMove::ClearScratch,
            RevealMove::Yield,
        ]
    );
    assert_eq!(revealer, Revealer { phase: RevealPhase::Done, attempts: 1, captured: true });
}

#[test]
fn a_reply_that_shows_up_at_the_third_read() {
    let (revealer, moves) = play(Some(3));
    assert_eq!(
        moves,
        vec![
            RevealMove::ClearScratch,
            RevealMove::ClickQuote,
            RevealMove::WaitForLoad,
            RevealMove::ReadScratch,
            RevealMove::Sleep,
            RevealMove::ReadScratch,
            RevealMove::Sleep,
            RevealMove::ReadScratch,
            RevealMove::ClearScratch,
            RevealMove::Yield,
        ]
    );
    assert_eq!(revealer, Revealer { phase: RevealPhase::Done, attempts: 3, captured: true });
}

#[test]
fn a_reply_that_shows_up_at_the_last_read() {
    let (revealer, moves) = play(Some(30));
    assert_eq!(count(&moves, RevealMove::ReadScratch), 30);
    assert_eq!(count(&moves, RevealMove::Sleep), 29);
    assert_eq!(revealer, Revealer { phase: RevealPhase::Done, attempts: 30, captured: true });
}

#[test]
fn a_reply_that_never_shows_up_is_given_up_after_thirty_reads() {
    let (revealer, moves) = play(None);
    assert_eq!(count(&moves, RevealMove::ReadScratch), 30);
    assert_eq!(count(&moves, RevealMove::Sleep), 29);
    assert_eq!(count(&moves, RevealMove::ClearScratch), 2);
    assert_eq!(moves[moves.len() - 2], RevealMove::ClearScratch);
    assert_eq!(moves[moves.len() - 1], RevealMove::Yield);
    assert_eq!(revealer, Revealer { phase: RevealPhase::Done, attempts: 30, captured: false });
}

#[test]
fn a_reply_that_would_show_up_too_late_is_not_waited_for() {
    let (revealer, moves) = play(Some(31));
    assert_eq!(count(&moves, RevealMove::ReadScratch), 30);
    assert!(!revealer.captured);
}

#[test]
fn a_field_that_cannot_be_cleared_does_not_stop_the_reveal() {
    let (revealer, _) = Revealer::start();
    let (revealer, step) = revealer.step(Report::Failed);
    assert_eq!(step, RevealMove::ClickQuote);
    assert_eq!(revealer.phase, RevealPhase::Triggering);
    let tidying = Revealer { phase: RevealPhase::Tidying, attempts: 2, captured: true };
    assert_eq!(
        tidying.step(Report::Failed),
        (Revealer { phase: RevealPhase::Done, attempts: 2, captured: true }, RevealMove::Yield)
    );
}

#[test]
fn a_control_that_cannot_be_activated_fails_the_reveal() {
    let (revealer, _) = Revealer::start();
    let (revealer, _) = revealer.step(Report::Done);
    let (revealer, step) = revealer.step(Report::Failed);
    assert_eq!(step, RevealMove::Fail);
    assert_eq!(revealer.phase, RevealPhase::Failed);
    assert_eq!(revealer.step(Report::Done).1, RevealMove::Fail);
}

#[test]
fn a_page_that_does_not_settle_fails_the_reveal() {
    let (revealer, _) = Revealer::start();
    let (revealer, _) = revealer.step(Report::Done);
    let (revealer, step) = revealer.step(Report::Done);
    assert_eq!(step, RevealMove::WaitForLoad);
    assert_eq!(revealer.step(Report::Failed).1, RevealMove::Fail);
}

#[test]
fn a_report_that_does_not_fit_fails_the_reveal() {
    let (start, _) = Revealer::start();
    assert_eq!(start.step(Report::Filled).1, RevealMove::Fail);
    let polling = Revealer { phase: RevealPhase::Polling, attempts: 1, captured: false };
    assert_eq!(polling.step(Report::Done).1, RevealMove::Fail);
    assert_eq!(polling.step(Report::Failed).1, RevealMove::Fail);
    let waiting = Revealer { phase: RevealPhase::Waiting, attempts: 1, captured: false };
    assert_eq!(waiting.step(Report::Blank).1, RevealMove::Fail);
}
