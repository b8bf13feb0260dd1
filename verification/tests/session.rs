use forum_scraper::scraping::LinkKind;
use forum_scraper::session::{
    links_selector, DEFAULT_TIMEOUT_SECS, FORUM_LINKS, NEXT_TIMEOUT_SECS, THREAD_LINKS,
};

#[test]
fn each_kind_of_link_has_its_selector() {
    assert_eq!(links_selector(LinkKind::Forum), FORUM_LINKS);
    assert_eq!(links_selector(LinkKind::Thread), THREAD_LINKS);
    assert_eq!(links_selector(LinkKind::Forum), "a[class*='forum-name'], a[class*='subforum-']");
    assert_eq!(links_selector(LinkKind::Thread), "a[class*='thread-subject']");
}

#[test]
fn the_waits_of_a_session() {
    assert_eq!(DEFAULT_TIMEOUT_SECS, 60);
    assert_eq!(NEXT_TIMEOUT_SECS, 30);
}
