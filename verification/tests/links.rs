use forum_scraper::links::{collect_entities, starter_name, unknown_poster_name, RawLink};
use forum_scraper::structures::BaseEntity;

fn link(href: Option<&str>, title: Option<&str>) -> RawLink {
    RawLink { href: href.map(|s| s.to_string()), title: title.map(|s| s.to_string()) }
}

fn entity(url: &str, title: &str) -> BaseEntity {
    BaseEntity { url: url.to_string(), title: title.to_string() }
}

#[test]
fn a_link_without_a_title_is_dropped() {
    let links = vec![
        link(Some("/f/1"), Some("General")),
        link(Some("/f/2"), None),
        link(Some("/f/3"), Some("")),
        link(Some("/f/4"), Some("Help")),
    ];
    assert_eq!(collect_entities(&links), vec![entity("/f/1", "General"), entity("/f/4", "Help")]);
}

#[test]
fn a_link_without_a_locator_is_dropped() {
    let links = vec![
        link(None, Some("General")),
        link(Some(""), Some("Empty")),
        link(None, None),
        link(Some("/f/4"), Some("Help")),
    ];
    assert_eq!(collect_entities(&links), vec![entity("/f/4", "Help")]);
}

#[test]
fn every_valid_link_gives_one_entity_in_order() {
    let links = vec![
        link(Some("/t/3"), Some("c")),
        link(Some("/t/1"), Some("a")),
        link(Some("/t/1"), Some("a")),
        link(Some("/t/2"), Some(" ")),
    ];
    assert_eq!(
        collect_entities(&links),
        vec![entity("/t/3", "c"), entity("/t/1", "a"), entity("/t/1", "a"), entity("/t/2", " ")]
    );
}

#[test]
fn no_links_no_entities() {
    assert_eq!(collect_entities(&Vec::new()), Vec::<BaseEntity>::new());
}

#[test]
fn no_poster_names_give_the_placeholder() {
    assert_eq!(starter_name(&Vec::new()), "UNKNOWN POSTER");
    assert_eq!(unknown_poster_name(), "UNKNOWN POSTER");
}

#[test]
fn the_first_poster_name_is_the_starter() {
    assert_eq!(starter_name(&vec![Some("alice".to_string())]), "alice");
    assert_eq!(
        starter_name(&vec![Some("bob".to_string()), Some("alice".to_string()), None]),
        "bob"
    );
    assert_eq!(starter_name(&vec![Some(String::new()), Some("alice".to_string())]), "");
}

#[test]
fn an_unreadable_first_poster_name_gives_the_placeholder() {
    assert_eq!(starter_name(&vec![None, Some("alice".to_string())]), "UNKNOWN POSTER");
}
