use forum_scraper::structures::{BaseEntity, Forum, ForumThread};
use forum_scraper::writer::{forum_file_name, write_forum, write_forums_to_files};

fn forum(url: &str, title: &str) -> Forum {
    Forum {
        base: BaseEntity { url: url.to_string(), title: title.to_string() },
        threads: Vec::new(),
    }
}

#[test]
fn a_plain_title_is_its_own_file_name() {
    assert_eq!(forum_file_name("General Discussion"), "General Discussion");
    assert_eq!(forum_file_name(""), "");
    assert_eq!(forum_file_name("Q&A: tips/tricks"), "Q&A: tips/tricks");
}

#[test]
fn the_marker_is_taken_out_of_a_title() {
    assert_eq!(forum_file_name("a[^A-Za-z0-9 ]b"), "ab");
    assert_eq!(forum_file_name("[^A-Za-z0-9 ]"), "");
    assert_eq!(forum_file_name("[^A-Za-z0-9 ][^A-Za-z0-9 ]x[^A-Za-z0-9 ]"), "x");
    assert_eq!(forum_file_name("[^A-Za-z0-9 "), "[^A-Za-z0-9 ");
    assert_eq!(forum_file_name("[[^A-Za-z0-9 ]]"), "[]");
}

#[test]
fn file_names_agree_with_replace() {
    let titles = [
        "",
        "plain",
        "[^A-Za-z0-9 ]",
        "x[^A-Za-z0-9 ]y[^A-Za-z0-9 ]z",
        "[^A-Za-z0-9 ",
        "[^A-Za-z0-9]",
        "[^[^A-Za-z0-9 ]A-Za-z0-9 ]",
        "héllo [^A-Za-z0-9 ] wörld",
    ];
    for title in titles {
        assert_eq!(forum_file_name(title), title.replace("[^A-Za-z0-9 ]", ""), "title {:?}", title);
    }
}

#[test]
fn a_forum_goes_whole_into_its_file() {
    let mut f = forum("/f/1", "News[^A-Za-z0-9 ]");
    f.threads.push(ForumThread {
        base: BaseEntity { url: "/t/1".to_string(), title: "Hello".to_string() },
        poster_name: "alice".to_string(),
        replies: Vec::new(),
    });
    let file = write_forum(f.clone());
    assert_eq!(file.name, "News");
    assert_eq!(file.forum, f);
}

#[test]
fn one_file_for_each_forum_in_order() {
    let forums = vec![forum("/f/1", "One"), forum("/f/2", "Two"), forum("/f/3", "One")];
    let files = write_forums_to_files(forums.clone());
    assert_eq!(files.len(), 3);
    for (file, f) in files.iter().zip(forums.iter()) {
        assert_eq!(file.name, f.base.title);
        assert_eq!(&file.forum, f);
    }
    assert_eq!(write_forums_to_files(Vec::new()), Vec::new());
}
