use forum_scraper::links::RawLink;
use forum_scraper::scraping::{scrape, Command, Event, LinkKind, ScrapeError, Scraper, Stage};
use forum_scraper::structures::{BaseEntity, Forum, ForumThread, Post, ScrapeOpts};

/// A reply as the site holds it: what the scratch field shows once the
/// quote control is activated, and at which read it shows up.
#[derive(Clone)]
struct SiteReply {
    raw: String,
    shows_at: u32,
    absent_before: bool,
}

#[derive(Clone, Default)]
struct ReplyPage {
    posters: Vec<Option<String>>,
    replies: Vec<SiteReply>,
    no_scratch: bool,
}

#[derive(Clone)]
struct SiteThread {
    link: RawLink,
    pages: Vec<ReplyPage>,
}

#[derive(Clone)]
struct SiteForum {
    link: RawLink,
    pages: Vec<Vec<SiteThread>>,
}

#[derive(Clone, Copy, PartialEq, Debug)]
enum Place {
    Nowhere,
    Login,
    Index,
    Forum(usize, usize),
    Thread(usize, usize, usize, usize),
}

/// A browsing session over a site that exists only in memory.
struct Session {
    forums: Vec<SiteForum>,
    place: Place,
    logged_in: bool,
    scratch: String,
    revealing: Option<usize>,
    reads: u32,
    slept: u64,
    log: Vec<Command>,
    broken: Option<Command>,
}

fn link(href: &str, title: &str) -> RawLink {
    RawLink { href: Some(href.to_string()), title: Some(title.to_string()) }
}

fn reply(raw: &str) -> SiteReply {
    SiteReply { raw: raw.to_string(), shows_at: 1, absent_before: false }
}

fn opts() -> ScrapeOpts {
    ScrapeOpts {
        headless: true,
        baseurl: "https://forum.example".to_string(),
        username: "archivist".to_string(),
        password: "SECRET-REDACTED".to_string(),
        forumbase: "/forums".to_string(),
    }
}

impl Session {
    fn new(forums: Vec<SiteForum>) -> Session {
        Session {
            forums,
            place: Place::Nowhere,
            logged_in: false,
            scratch: String::new(),
            revealing: None,
            reads: 0,
            slept: 0,
            log: Vec::new(),
            broken: None,
        }
    }

    fn find(&self, url: &str) -> Option<Place> {
        if url == "https://forum.example/login" {
            return Some(Place::Login);
        }
        if url == "https://forum.example/forums" {
            return Some(Place::Index);
        }
        for (f, forum) in self.forums.iter().enumerate() {
            if forum.link.href.as_deref() == Some(url) {
                return Some(Place::Forum(f, 0));
            }
            for (p, page) in forum.pages.iter().enumerate() {
                for (t, thread) in page.iter().enumerate() {
                    if thread.link.href.as_deref() == Some(url) {
                        return Some(Place::Thread(f, p, t, 0));
                    }
                }
            }
        }
        None
    }

    fn reply_page(&self) -> Option<&ReplyPage> {
        match self.place {
            Place::Thread(f, p, t, r) => self.forums[f].pages[p][t].pages.get(r),
            _ => None,
        }
    }

    fn url(&self) -> String {
        match self.place {
            Place::Nowhere => "about:blank".to_string(),
            Place::Login => "https://forum.example/login".to_string(),
            Place::Index => "https://forum.example/forums".to_string(),
            Place::Forum(f, p) => {
                format!("{}?page={}", self.forums[f].link.href.clone().unwrap(), p + 1)
            }
            Place::Thread(f, p, t, r) => {
                format!("{}?page={}", self.forums[f].pages[p][t].link.href.clone().unwrap(), r + 1)
            }
        }
    }

    fn has_next(&self) -> bool {
        match self.place {
            Place::Forum(f, p) => p + 1 < self.forums[f].pages.len(),
            Place::Thread(f, p, t, r) => r + 1 < self.forums[f].pages[p][t].pages.len(),
            _ => false,
        }
    }

    fn perform(&mut self, command: &Command) -> Event {
        self.log.push(command.clone());
        if self.broken.as_ref() == Some(command) {
            return Event::Failed("broken".to_string());
        }
        match command {
            Command::Navigate(url) => match self.find(url) {
                Some(place) => {
                    self.place = place;
                    Event::Done
                }
                None => Event::Failed(format!("no such page: {}", url)),
            },
            Command::Login { username, password } => {
                if self.place == Place::Login
                    && username == "archivist"
                    && password == "SECRET-REDACTED"
                {
                    self.logged_in = true;
                    Event::Done
                } else {
                    Event::Failed("login refused".to_string())
                }
            }
            Command::ReadLinks(LinkKind::Forum) => {
                assert_eq!(self.place, Place::Index);
                assert!(self.logged_in);
                Event::Links(self.forums.iter().map(|forum| forum.link.clone()).collect())
            }
            Command::ReadLinks(LinkKind::Thread) => match self.place {
                Place::Forum(f, p) => match self.forums[f].pages.get(p) {
                    Some(page) if !page.is_empty() => {
                        Event::Links(page.iter().map(|thread| thread.link.clone()).collect())
                    }
                    _ => Event::Failed("no thread links".to_string()),
                },
                _ => panic!("thread links asked for at {:?}", self.place),
            },
            Command::ReadPosterNames => match self.reply_page() {
                Some(page) => Event::Names(page.posters.clone()),
                None => Event::Failed("no poster names".to_string()),
            },
            Command::FindQuotes => match self.reply_page() {
                Some(page) => Event::Count(page.replies.len()),
                None => Event::Failed("no quote controls".to_string()),
            },
            Command::FindScratch => match self.reply_page() {
                Some(page) if !page.no_scratch => Event::Done,
                _ => Event::Failed("no scratch field".to_string()),
            },
            Command::ClearScratch => {
                self.scratch.clear();
                self.revealing = None;
                Event::Done
            }
            Command::ClickQuote(at) => {
                self.revealing = Some(*at);
                self.reads = 0;
                Event::Done
            }
            Command::WaitForLoad => Event::Done,
            Command::ReadScratch => {
                self.reads += 1;
                if let Some(at) = self.revealing {
                    let shown = self.reply_page().unwrap().replies[at].clone();
                    if self.reads >= shown.shows_at {
                        self.scratch = shown.raw;
                    } else if shown.absent_before {
                        return Event::Value(None);
                    }
                }
                Event::Value(Some(self.scratch.clone()))
            }
            Command::Sleep(seconds) => {
                self.slept += seconds;
                Event::Done
            }
            Command::ReadUrl => Event::Url(self.url()),
            Command::FindNext(seconds) => {
                assert_eq!(*seconds, 30);
                if self.has_next() {
                    Event::Done
                } else {
                    Event::Failed("no next page".to_string())
                }
            }
            Command::ClickNext => {
                self.place = match self.place {
                    Place::Forum(f, p) => Place::Forum(f, p + 1),
                    Place::Thread(f, p, t, r) => Place::Thread(f, p, t, r + 1),
                    other => other,
                };
                Event::Done
            }
            Command::Finish | Command::Abort => panic!("nothing to perform"),
        }
    }
}

fn run(session: &mut Session) -> Result<Vec<Forum>, ScrapeError> {
    let (mut scraper, mut command): (Scraper, Command) = scrape(opts());
    let mut steps = 0;
    while command != Command::Finish && command != Command::Abort {
        let event = session.perform(&command);
        let (next, then) = scraper.step(event);
        scraper = next;
        command = then;
        steps += 1;
        assert!(steps < 100_000, "the run does not end");
    }
    assert!(scraper.is_over());
    scraper.finish()
}

fn thread(href: &str, title: &str, pages: Vec<ReplyPage>) -> SiteThread {
    SiteThread { link: link(href, title), pages }
}

fn page(posters: &[&str], replies: &[&str]) -> ReplyPage {
    ReplyPage {
        posters: posters.iter().map(|name| Some(name.to_string())).collect(),
        replies: replies.iter().map(|raw| reply(raw)).collect(),
        no_scratch: false,
    }
}

fn two_forums() -> Vec<SiteForum> {
    vec![
        SiteForum {
            link: link("/f/general", "General"),
            pages: vec![
                vec![
                    thread("/t/1", "First", vec![page(&["alice"], &[])]),
                    thread("/t/2", "Second", vec![page(&["bob"], &[])]),
                ],
                vec![thread("/t/3", "Third", vec![page(&[], &[])])],
            ],
        },
        SiteForum { link: link("/f/empty", "Empty"), pages: vec![Vec::new()] },
    ]
}

fn entity(url: &str, title: &str) -> BaseEntity {
    BaseEntity { url: url.to_string(), title: title.to_string() }
}

fn bare_thread(url: &str, title: &str, poster: &str) -> ForumThread {
    ForumThread { base: entity(url, title), poster_name: poster.to_string(), replies: Vec::new() }
}

#[test]
fn the_first_command_opens_the_login_page() {
    let (scraper, command) = scrape(opts());
    assert_eq!(command, Command::Navigate("https://forum.example/login".to_string()));
    assert_eq!(scraper.stage(), Stage::OpeningLogin);
    assert!(!scraper.is_over());
}

#[test]
fn the_login_and_the_index_come_before_anything_else() {
    let (scraper, _) = scrape(opts());
    let (scraper, command) = scraper.step(Event::Done);
    assert_eq!(
        command,
        Command::Login {
            username: "archivist".to_string(),
            password: "SECRET-REDACTED".to_string()
        }
    );
    let (scraper, command) = scraper.step(Event::Done);
    assert_eq!(command, Command::Navigate("https://forum.example/forums".to_string()));
    let (scraper, command) = scraper.step(Event::Done);
    assert_eq!(command, Command::ReadLinks(LinkKind::Forum));
    assert_eq!(scraper.stage(), Stage::ListingForums);
}

#[test]
fn two_forums_three_threads_over_two_pages() {
    let mut session = Session::new(two_forums());
    let forums = run(&mut session).unwrap();
    assert_eq!(
        forums,
        vec![
            Forum {
                base: entity("/f/general", "General"),
                threads: vec![
                    bare_thread("/t/1", "First", "alice"),
                    bare_thread("/t/2", "Second", "bob"),
                    bare_thread("/t/3", "Third", "UNKNOWN POSTER"),
                ],
            },
            Forum { base: entity("/f/empty", "Empty"), threads: Vec::new() },
        ]
    );
}

#[test]
fn each_thread_list_page_is_read_once() {
    let mut session = Session::new(two_forums());
    run(&mut session).unwrap();
    let reads = session
        .log
        .iter()
        .filter(|command| **command == Command::ReadLinks(LinkKind::Thread))
        .count();
    assert_eq!(reads, 3);
    let forum_reads = session
        .log
        .iter()
        .filter(|command| **command == Command::ReadLinks(LinkKind::Forum))
        .count();
    assert_eq!(forum_reads, 1);
}

#[test]
fn two_quote_controls_on_one_page_give_two_posts_in_order() {
    let site = vec![SiteForum {
        link: link("/f/general", "General"),
        pages: vec![vec![thread(
            "/t/1",
            "First",
            vec![page(
                &["alice", "bob"],
                &["[quote=@11]first reply[/quote]", "  [quote=@12]\nsecond reply\n[/quote]  "],
            )],
        )]],
    }];
    let mut session = Session::new(site);
    let forums = run(&mut session).unwrap();
    assert_eq!(forums.len(), 1);
    assert_eq!(forums[0].threads.len(), 1);
    assert_eq!(forums[0].threads[0].poster_name, "alice");
    assert_eq!(
        forums[0].threads[0].replies,
        vec![
            Post {
                url: "/t/1?page=1".to_string(),
                poster_name: String::new(),
                bbcode: "first reply".to_string(),
                post_sequence: 0,
            },
            Post {
                url: "/t/1?page=1".to_string(),
                poster_name: String::new(),
                bbcode: "second reply".to_string(),
                post_sequence: 1,
            },
        ]
    );
}

#[test]
fn replies_of_later_pages_follow_those_of_earlier_pages() {
    let site = vec![SiteForum {
        link: link("/f/general", "General"),
        pages: vec![vec![thread(
            "/t/1",
            "First",
            vec![
                page(&["alice"], &["[quote=@1]a[/quote]", "[quote=@2]b[/quote]"]),
                page(&["carol"], &[]),
                page(&["dave"], &["[quote=@3]c[/quote]"]),
            ],
        )]],
    }];
    let mut session = Session::new(site);
    let forums = run(&mut session).unwrap();
    let replies = &forums[0].threads[0].replies;
    let seen: Vec<(String, String, u64)> = replies
        .iter()
        .map(|post| (post.url.clone(), post.bbcode.clone(), post.post_sequence))
        .collect();
    assert_eq!(
        seen,
        vec![
            ("/t/1?page=1".to_string(), "a".to_string(), 0),
            ("/t/1?page=1".to_string(), "b".to_string(), 1),
            ("/t/1?page=3".to_string(), "c".to_string(), 2),
        ]
    );
}

#[test]
fn degenerate_links_leave_no_forum_and_no_thread() {
    let mut site = two_forums();
    site.insert(
        1,
        SiteForum {
            link: RawLink { href: Some("/f/nameless".to_string()), title: None },
            pages: vec![Vec::new()],
        },
    );
    site.push(SiteForum {
        link: RawLink { href: None, title: Some("Nowhere".to_string()) },
        pages: vec![Vec::new()],
    });
    site[0].pages[0].insert(
        1,
        SiteThread {
            link: RawLink { href: Some("/t/blank".to_string()), title: Some(String::new()) },
            pages: vec![page(&[], &[])],
        },
    );
    let mut session = Session::new(site);
    let forums = run(&mut session).unwrap();
    assert_eq!(forums.len(), 2);
    assert_eq!(forums[0].base, entity("/f/general", "General"));
    assert_eq!(forums[1].base, entity("/f/empty", "Empty"));
    let titles: Vec<&str> =
        forums[0].threads.iter().map(|thread| thread.base.title.as_str()).collect();
    assert_eq!(titles, vec!["First", "Second", "Third"]);
    assert!(!session.log.contains(&Command::Navigate("/t/blank".to_string())));
    assert!(!session.log.contains(&Command::Navigate("/f/nameless".to_string())));
}

#[test]
fn an_index_without_forums_gives_an_empty_result() {
    let mut session = Session::new(Vec::new());
    assert_eq!(run(&mut session), Ok(Vec::new()));
}

#[test]
fn a_reply_that_is_no_envelope_gives_an_empty_body() {
    let site = vec![SiteForum {
        link: link("/f/g", "G"),
        pages: vec![vec![thread("/t/1", "T", vec![page(&["a"], &["just some text"])])]],
    }];
    let mut session = Session::new(site);
    let forums = run(&mut session).unwrap();
    assert_eq!(forums[0].threads[0].replies.len(), 1);
    assert_eq!(forums[0].threads[0].replies[0].bbcode, "");
}

#[test]
fn a_slow_reply_is_waited_for() {
    let mut slow = reply("[quote=@5]late[/quote]");
    slow.shows_at = 7;
    let mut only = page(&["a"], &[]);
    only.replies.push(slow);
    let site = vec![SiteForum {
        link: link("/f/g", "G"),
        pages: vec![vec![thread("/t/1", "T", vec![only])]],
    }];
    let mut session = Session::new(site);
    let forums = run(&mut session).unwrap();
    assert_eq!(forums[0].threads[0].replies[0].bbcode, "late");
    assert_eq!(session.slept, 6);
    let reads = session.log.iter().filter(|c| **c == Command::ReadScratch).count();
    assert_eq!(reads, 7);
}

#[test]
fn a_field_without_a_value_counts_as_blank() {
    let mut slow = reply("[quote=@5]late[/quote]");
    slow.shows_at = 3;
    slow.absent_before = true;
    let mut only = page(&["a"], &[]);
    only.replies.push(slow);
    let site = vec![SiteForum {
        link: link("/f/g", "G"),
        pages: vec![vec![thread("/t/1", "T", vec![only])]],
    }];
    let mut session = Session::new(site);
    let forums = run(&mut session).unwrap();
    assert_eq!(forums[0].threads[0].replies[0].bbcode, "late");
    assert_eq!(session.slept, 2);
}

#[test]
fn a_reply_of_nothing_but_whitespace_is_waited_for_and_given_up() {
    let site = vec![SiteForum {
        link: link("/f/g", "G"),
        pages: vec![vec![thread("/t/1", "T", vec![page(&["a"], &[" \n\t "])])]],
    }];
    let mut session = Session::new(site);
    let forums = run(&mut session).unwrap();
    assert_eq!(forums[0].threads[0].replies.len(), 1);
    assert_eq!(forums[0].threads[0].replies[0].bbcode, "");
    let reads = session.log.iter().filter(|c| **c == Command::ReadScratch).count();
    assert_eq!(reads, 30);
    assert_eq!(session.slept, 29);
}

#[test]
fn a_reply_that_never_shows_up_is_recorded_empty_after_thirty_reads() {
    let mut never = reply("[quote=@5]never[/quote]");
    never.shows_at = u32::MAX;
    let mut only = page(&["a"], &[]);
    only.replies.push(never);
    only.replies.push(reply("[quote=@6]next[/quote]"));
    let site = vec![SiteForum {
        link: link("/f/g", "G"),
        pages: vec![vec![thread("/t/1", "T", vec![only])]],
    }];
    let mut session = Session::new(site);
    let forums = run(&mut session).unwrap();
    let bodies: Vec<&str> =
        forums[0].threads[0].replies.iter().map(|post| post.bbcode.as_str()).collect();
    assert_eq!(bodies, vec!["", "next"]);
    let reads = session.log.iter().filter(|c| **c == Command::ReadScratch).count();
    assert_eq!(reads, 31);
    assert_eq!(session.slept, 29);
}

#[test]
fn the_scratch_field_is_cleared_around_every_reveal() {
    let site = vec![SiteForum {
        link: link("/f/g", "G"),
        pages: vec![vec![thread(
            "/t/1",
            "T",
            vec![page(&["a"], &["[quote=@1]one[/quote]", "[quote=@2]two[/quote]"])],
        )]],
    }];
    let mut session = Session::new(site);
    run(&mut session).unwrap();
    let log = &session.log;
    for (at, command) in log.iter().enumerate() {
        if let Command::ClickQuote(_) = command {
            assert_eq!(log[at - 1], Command::ClearScratch);
            assert_eq!(log[at - 2], Command::FindScratch);
        }
        if *command == Command::ReadUrl {
            assert_eq!(log[at - 1], Command::ClearScratch);
            assert_eq!(log[at - 2], Command::ReadScratch);
        }
    }
    let clicks: Vec<&Command> =
        log.iter().filter(|c| matches!(c, Command::ClickQuote(_))).collect();
    assert_eq!(clicks, vec![&Command::ClickQuote(0), &Command::ClickQuote(1)]);
}

#[test]
fn a_page_without_scratch_field_loses_its_remaining_replies_only() {
    let mut first = page(&["a"], &["[quote=@1]one[/quote]", "[quote=@2]two[/quote]"]);
    first.no_scratch = true;
    let second = page(&["b"], &["[quote=@3]three[/quote]"]);
    let site = vec![SiteForum {
        link: link("/f/g", "G"),
        pages: vec![vec![thread("/t/1", "T", vec![first, second])]],
    }];
    let mut session = Session::new(site);
    let forums = run(&mut session).unwrap();
    let bodies: Vec<&str> =
        forums[0].threads[0].replies.iter().map(|post| post.bbcode.as_str()).collect();
    assert_eq!(bodies, vec!["three"]);
    let lookups = session.log.iter().filter(|c| **c == Command::FindScratch).count();
    assert_eq!(lookups, 2);
}

#[test]
fn a_failed_navigation_aborts_the_run() {
    let mut site = two_forums();
    site[0].pages[1][0].link.href = Some("/t/gone".to_string());
    let mut session = Session::new(site);
    session.broken = Some(Command::Navigate("/t/gone".to_string()));
    assert_eq!(run(&mut session), Err(ScrapeError::Navigation("broken".to_string())));
}

#[test]
fn a_failed_login_aborts_the_run() {
    let mut session = Session::new(two_forums());
    session.broken = Some(Command::Login {
        username: "archivist".to_string(),
        password: "SECRET-REDACTED".to_string(),
    });
    assert_eq!(run(&mut session), Err(ScrapeError::Login("broken".to_string())));
    assert_eq!(session.log.len(), 2);
}

#[test]
fn a_login_page_that_cannot_be_reached_aborts_the_run() {
    let mut session = Session::new(two_forums());
    session.broken = Some(Command::Navigate("https://forum.example/login".to_string()));
    assert_eq!(run(&mut session), Err(ScrapeError::Navigation("broken".to_string())));
}

#[test]
fn a_next_control_that_cannot_be_activated_aborts_the_run() {
    let mut session = Session::new(two_forums());
    session.broken = Some(Command::ClickNext);
    assert_eq!(run(&mut session), Err(ScrapeError::Interaction("broken".to_string())));
}

#[test]
fn a_quote_control_that_cannot_be_activated_aborts_the_run() {
    let site = vec![SiteForum {
        link: link("/f/g", "G"),
        pages: vec![vec![thread("/t/1", "T", vec![page(&["a"], &["[quote=@1]one[/quote]"])])]],
    }];
    let mut session = Session::new(site);
    session.broken = Some(Command::ClickQuote(0));
    assert_eq!(run(&mut session), Err(ScrapeError::Interaction("broken".to_string())));
}

#[test]
fn a_page_that_does_not_load_aborts_the_run() {
    let mut session = Session::new(two_forums());
    session.broken = Some(Command::WaitForLoad);
    assert_eq!(run(&mut session), Err(ScrapeError::Navigation("broken".to_string())));
}

#[test]
fn a_scratch_field_that_cannot_be_cleared_is_no_failure() {
    let site = vec![SiteForum {
        link: link("/f/g", "G"),
        pages: vec![vec![thread("/t/1", "T", vec![page(&["a"], &["[quote=@1]one[/quote]"])])]],
    }];
    let mut session = Session::new(site);
    session.broken = Some(Command::ClearScratch);
    let forums = run(&mut session).unwrap();
    assert_eq!(forums[0].threads[0].replies[0].bbcode, "one");
}

#[test]
fn an_event_that_does_not_answer_the_command_aborts_the_run() {
    let (scraper, _) = scrape(opts());
    let (scraper, command) = scraper.step(Event::Count(3));
    assert_eq!(command, Command::Abort);
    assert_eq!(scraper.stage(), Stage::Failed);
    assert_eq!(scraper.finish(), Err(ScrapeError::Protocol));
}

#[test]
fn a_run_that_is_over_stays_over() {
    let mut session = Session::new(Vec::new());
    let (mut scraper, mut command) = scrape(opts());
    while command != Command::Finish {
        let event = session.perform(&command);
        let (next, then) = scraper.step(event);
        scraper = next;
        command = then;
    }
    let (scraper, command) = scraper.step(Event::Done);
    assert_eq!(command, Command::Finish);
    let (scraper, command) = scraper.step(Event::Failed("late".to_string()));
    assert_eq!(command, Command::Finish);
    assert_eq!(scraper.finish(), Ok(Vec::new()));
}

#[test]
fn a_result_asked_for_too_early_is_unfinished() {
    let (scraper, _) = scrape(opts());
    assert_eq!(scraper.finish(), Err(ScrapeError::Unfinished));
    let (scraper, _) = scrape(opts());
    let (scraper, _) = scraper.step(Event::Done);
    assert_eq!(scraper.finish(), Err(ScrapeError::Unfinished));
}
