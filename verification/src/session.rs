//! What the one who drives the browsing session has to know to carry the
//! commands out: where the things are on a page, as CSS selectors, and how
//! long to wait for them.

use crate::scraping::LinkKind;
use vstd::prelude::*;

verus! {

/// How many seconds a search on a page may take, unless said otherwise.
pub const DEFAULT_TIMEOUT_SECS: u64 = 60;

/// How many seconds the search for the control that leads to the next page
/// may take.
pub const NEXT_TIMEOUT_SECS: u64 = 30;

/// The field for the user name on the login page.
pub const USERNAME_FIELD: &'static str = "[name=username]";

/// The field for the password on the login page.
pub const PASSWORD_FIELD: &'static str = "input[type='password']";

/// The control that submits the login form.
pub const LOGIN_BUTTON: &'static str = "input[type='submit'][value='Login']";

/// The links to forums and sub-forums on the index.
pub const FORUM_LINKS: &'static str = "a[class*='forum-name'], a[class*='subforum-']";

/// The links to threads on a thread-list page.
pub const THREAD_LINKS: &'static str = "a[class*='thread-subject']";

/// The poster names on a page of a thread.
pub const POSTER_NAMES: &'static str = "a[class*='element_username']";

/// The quote controls on a page of a thread.
pub const QUOTE_CONTROLS: &'static str = "div[class*='iconf-quote-right']";

/// The scratch field.
pub const SCRATCH_FIELD: &'static str = "textarea[id='content']";

/// The control that leads to the next page.
pub const NEXT_CONTROL: &'static str = "input[class='right']";

/// The attribute of a link that holds its locator.
pub const LOCATOR_ATTRIBUTE: &'static str = "href";

/// The attribute of the scratch field that holds its text.
pub const VALUE_ATTRIBUTE: &'static str = "value";

/// Where the links of a kind are.
pub fn links_selector(kind: LinkKind) -> (selector: &'static str)
    ensures
        selector@ == (match kind {
            LinkKind::Forum => FORUM_LINKS@,
            LinkKind::Thread => THREAD_LINKS@,
        }),
{
    match kind {
        LinkKind::Forum => FORUM_LINKS,
        LinkKind::Thread => THREAD_LINKS,
    }
}

} // verus!
