use forum_scraper::structures::{BaseEntity, Forum, ForumThread, Post, ScrapeOpts};

#[test]
fn defaults_are_empty() {
    assert_eq!(
        ScrapeOpts::default(),
        ScrapeOpts {
            headless: false,
            baseurl: String::new(),
            username: String::new(),
            password: String::new(),
            forumbase: String::new(),
        }
    );
    assert_eq!(BaseEntity::default(), BaseEntity { url: String::new(), title: String::new() });
    assert_eq!(
        Post::default(),
        Post {
            url: String::new(),
            poster_name: String::new(),
            bbcode: String::new(),
            post_sequence: 0,
        }
    );
    assert_eq!(
        ForumThread::default(),
        ForumThread {
            base: BaseEntity::default(),
            poster_name: String::new(),
            replies: Vec::new(),
        }
    );
    assert_eq!(Forum::default(), Forum { base: BaseEntity::default(), threads: Vec::new() });
}

#[test]
fn a_duplicate_is_equal_to_what_it_was_made_of() {
    let entity = BaseEntity { url: "/f/1".to_string(), title: "Général".to_string() };
    let copy = entity.duplicate();
    assert_eq!(copy, entity);
    assert_eq!(copy.url, "/f/1");
    assert_eq!(copy.title, "Général");
}
