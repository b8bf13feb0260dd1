use forum_scraper::pager::{Pager, PagerMove, PagerPhase};

fn walk(pages: u32) -> (Pager, Vec<PagerMove>) {
    let (mut pager, first) = Pager::start();
    let mut moves = vec![first];
    let mut current = 1;
    loop {
        let last = *moves.last().unwrap();
        let ok = match last {
            PagerMove::Extract(_) => true,
            PagerMove::FindNext => current < pages,
            PagerMove::ClickNext => {
                current += 1;
                true
            }
            PagerMove::WaitForLoad => true,
            PagerMove::Stop | PagerMove::Fail => break,
        };
        let (next, step) = pager.step(ok);
        pager = next;
        moves.push(step);
    }
    (pager, moves)
}

fn extracted(moves: &[PagerMove]) -> Vec<u32> {
    let mut pages = Vec::new();
    for step in moves {
        if let PagerMove::Extract(n) = step {
            pages.push(*n);
        }
    }
    pages
}

#[test]
fn a_series_starts_with_page_one() {
    let (pager, first) = Pager::start();
    assert_eq!(pager, Pager { page: 1, phase: PagerPhase::Extracting });
    assert_eq!(first, PagerMove::Extract(1));
    assert!(pager.is_live());
}

#[test]
fn a_single_page_is_extracted_once_and_the_series_stops() {
    let (pager, moves) = walk(1);
    assert_eq!(moves, vec![PagerMove::Extract(1), PagerMove::FindNext, PagerMove::Stop]);
    assert_eq!(pager, Pager { page: 1, phase: PagerPhase::Finished });
    assert!(!pager.is_live());
}

#[test]
fn three_pages_are_extracted_in_order() {
    let (pager, moves) = walk(3);
    assert_eq!(
        moves,
        vec![
            PagerMove::Extract(1),
            PagerMove::FindNext,
            PagerMove::ClickNext,
            PagerMove::WaitForLoad,
            PagerMove::Extract(2),
            PagerMove::FindNext,
            PagerMove::ClickNext,
            PagerMove::WaitForLoad,
            PagerMove::Extract(3),
            PagerMove::FindNext,
            PagerMove::Stop,
        ]
    );
    assert_eq!(pager, Pager { page: 3, phase: PagerPhase::Finished });
}

#[test]
fn each_page_of_a_long_series_is_extracted_exactly_once() {
    let (pager, moves) = walk(250);
    assert_eq!(extracted(&moves), (1..=250).collect::<Vec<u32>>());
    assert_eq!(pager.page, 250);
    assert_eq!(moves.len(), 4 * 249 + 3);
}

#[test]
fn a_failed_extraction_gives_the_series_up() {
    let (pager, _) = Pager::start();
    let (pager, step) = pager.step(false);
    assert_eq!(step, PagerMove::Fail);
    assert_eq!(pager, Pager { page: 1, phase: PagerPhase::Failed });
}

#[test]
fn a_failed_click_or_load_gives_the_series_up() {
    let (pager, _) = Pager::start();
    let (pager, _) = pager.step(true);
    let (clicking, step) = pager.step(true);
    assert_eq!(step, PagerMove::ClickNext);
    assert_eq!(clicking.step(false).1, PagerMove::Fail);
    let (loading, step) = clicking.step(true);
    assert_eq!(step, PagerMove::WaitForLoad);
    assert_eq!(
        loading.step(false),
        (Pager { page: 1, phase: PagerPhase::Failed }, PagerMove::Fail)
    );
}

#[test]
fn an_ended_series_stays_ended() {
    let done = Pager { page: 4, phase: PagerPhase::Finished };
    assert_eq!(done.step(true), (done, PagerMove::Stop));
    assert_eq!(done.step(false), (done, PagerMove::Stop));
    let failed = Pager { page: 4, phase: PagerPhase::Failed };
    assert_eq!(failed.step(true), (failed, PagerMove::Fail));
    assert_eq!(failed.step(false), (failed, PagerMove::Fail));
}

#[test]
fn the_page_counter_does_not_wrap() {
    let last = Pager { page: u32::MAX, phase: PagerPhase::Loading };
    assert_eq!(
        last.step(true),
        (Pager { page: u32::MAX, phase: PagerPhase::Failed }, PagerMove::Fail)
    );
    let before = Pager { page: u32::MAX - 1, phase: PagerPhase::Loading };
    assert_eq!(
        before.step(true),
        (Pager { page: u32::MAX, phase: PagerPhase::Extracting }, PagerMove::Extract(u32::MAX))
    );
}
