//! The forum tree: forums own their threads, threads own their posts. Each
//! type has a view that holds its strings as sequences of characters and its
//! lists as sequences of views.

use vstd::prelude::*;

verus! {

/// What a run needs to know before it starts.
#[derive(Debug, Clone, PartialEq, Eq)]
pub struct ScrapeOpts {
    pub headless: bool,
    pub baseurl: String,
    pub username: String,
    pub password: String,
    pub forumbase: String,
}

/// The view of [`ScrapeOpts`].
#[verifier::ext_equal]
pub struct ScrapeOptsView {
    pub headless: bool,
    pub baseurl: Seq<char>,
    pub username: Seq<char>,
    pub password: Seq<char>,
    pub forumbase: Seq<char>,
}

impl View for ScrapeOpts {
    type V = ScrapeOptsView;

    open spec fn view(&self) -> ScrapeOptsView {
        ScrapeOptsView {
            headless: self.headless,
            baseurl: self.baseurl@,
            username: self.username@,
            password: self.password@,
            forumbase: self.forumbase@,
        }
    }
}

impl Default for ScrapeOpts {
    fn default() -> (opts: ScrapeOpts)
        ensures
            !opts.headless,
            opts.baseurl@.len() == 0,
            opts.username@.len() == 0,
            opts.password@.len() == 0,
            opts.forumbase@.len() == 0,
    {
        ScrapeOpts {
            headless: false,
            baseurl: String::new(),
            username: String::new(),
            password: String::new(),
            forumbase: String::new(),
        }
    }
}

/// What a forum and a thread have in common: where it is and what it is
/// called.
#[derive(Debug, Clone, PartialEq, Eq)]
pub struct BaseEntity {
    pub url: String,
    pub title: String,
}

/// The view of [`BaseEntity`].
#[verifier::ext_equal]
pub struct BaseEntityView {
    pub url: Seq<char>,
    pub title: Seq<char>,
}

impl View for BaseEntity {
    type V = BaseEntityView;

    open spec fn view(&self) -> BaseEntityView {
        BaseEntityView { url: self.url@, title: self.title@ }
    }
}

impl Default for BaseEntity {
    fn default() -> (entity: BaseEntity)
        ensures
            entity@ == (BaseEntityView { url: Seq::empty(), title: Seq::empty() }),
    {
        BaseEntity { url: String::new(), title: String::new() }
    }
}

impl BaseEntity {
    /// A copy of this entity.
    pub fn duplicate(&self) -> (copy: BaseEntity)
        ensures
            copy@ == self@,
    {
        BaseEntity { url: self.url.clone(), title: self.title.clone() }
    }
}

/// One reply of a thread.
#[derive(Debug, Clone, PartialEq, Eq)]
pub struct Post {
    /// The page of the thread on which the reply was captured.
    pub url: String,
    pub poster_name: String,
    /// The raw markup of the reply.
    pub bbcode: String,
    /// The place of the reply among the replies of its thread, counted
    /// from 0.
    pub post_sequence: u64,
}

/// The view of [`Post`].
#[verifier::ext_equal]
pub struct PostView {
    pub url: Seq<char>,
    pub poster_name: Seq<char>,
    pub bbcode: Seq<char>,
    pub post_sequence: u64,
}

impl View for Post {
    type V = PostView;

    open spec fn view(&self) -> PostView {
        PostView {
            url: self.url@,
            poster_name: self.poster_name@,
            bbcode: self.bbcode@,
            post_sequence: self.post_sequence,
        }
    }
}

impl Default for Post {
    fn default() -> (post: Post)
        ensures
            post.url@.len() == 0,
            post.poster_name@.len() == 0,
            post.bbcode@.len() == 0,
            post.post_sequence == 0,
    {
        Post {
            url: String::new(),
            poster_name: String::new(),
            bbcode: String::new(),
            post_sequence: 0,
        }
    }
}

/// The views of a list of posts.
pub open spec fn posts_view(posts: Seq<Post>) -> Seq<PostView> {
    posts.map_values(|p: Post| p@)
}

/// A thread of a forum, with the name of the one who started it and its
/// replies in the order in which their pages were visited.
#[derive(Debug, Clone, PartialEq, Eq)]
pub struct ForumThread {
    pub base: BaseEntity,
    pub poster_name: String,
    pub replies: Vec<Post>,
}

/// The view of [`ForumThread`].
#[verifier::ext_equal]
pub struct ThreadView {
    pub base: BaseEntityView,
    pub poster_name: Seq<char>,
    pub replies: Seq<PostView>,
}

impl View for ForumThread {
    type V = ThreadView;

    open spec fn view(&self) -> ThreadView {
        ThreadView {
            base: self.base@,
            poster_name: self.poster_name@,
            replies: posts_view(self.replies@),
        }
    }
}

impl Default for ForumThread {
    fn default() -> (thread: ForumThread)
        ensures
            thread.base.url@.len() == 0,
            thread.base.title@.len() == 0,
            thread.poster_name@.len() == 0,
            thread.replies@.len() == 0,
    {
        ForumThread { base: BaseEntity::default(), poster_name: String::new(), replies: Vec::new() }
    }
}

/// The views of a list of threads.
pub open spec fn threads_view(threads: Seq<ForumThread>) -> Seq<ThreadView> {
    threads.map_values(|t: ForumThread| t@)
}

/// A forum with its threads, in the order of the pages that list them and,
/// on a page, of their links.
#[derive(Debug, Clone, PartialEq, Eq)]
pub struct Forum {
    pub base: BaseEntity,
    pub threads: Vec<ForumThread>,
}

/// The view of [`Forum`].
#[verifier::ext_equal]
pub struct ForumView {
    pub base: BaseEntityView,
    pub threads: Seq<ThreadView>,
}

impl View for Forum {
    type V = ForumView;

    open spec fn view(&self) -> ForumView {
        ForumView { base: self.base@, threads: threads_view(self.threads@) }
    }
}

impl Default for Forum {
    fn default() -> (forum: Forum)
        ensures
            forum.base.url@.len() == 0,
            forum.base.title@.len() == 0,
            forum.threads@.len() == 0,
    {
        Forum { base: BaseEntity::default(), threads: Vec::new() }
    }
}

/// The views of a list of forums.
pub open spec fn forums_view(forums: Seq<Forum>) -> Seq<ForumView> {
    forums.map_values(|f: Forum| f@)
}

/// The views of a list of entities.
pub open spec fn entities_view(entities: Seq<BaseEntity>) -> Seq<BaseEntityView> {
    entities.map_values(|e: BaseEntity| e@)
}

} // verus!
