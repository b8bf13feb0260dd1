//! The output plan: one file for each forum, named after the forum.

use crate::structures::{Forum, ForumView};
use crate::text::{chars_of, has_at, stands_at};
use vstd::prelude::*;
use vstd::string::StringExecFns;

verus! {

/// The text that is taken out of a title wherever it occurs.
pub open spec fn marker() -> Seq<char> {
    seq!['[', '^', 'A', '-', 'Z', 'a', '-', 'z', '0', '-', '9', ' ', ']']
}

/// `s` without the occurrences of `pat`, found from left to right; what an
/// occurrence covers is not searched again.
pub open spec fn without(s: Seq<char>, pat: Seq<char>) -> Seq<char>
    decreases s.len(),
{
    if pat.len() == 0 || s.len() < pat.len() {
        s
    } else if has_at(s, 0, pat) {
        without(s.skip(pat.len() as int), pat)
    } else {
        seq![s[0]] + without(s.skip(1), pat)
    }
}

/// The name of the file that holds the forum with this title: the title
/// without the occurrences of the marker.
pub open spec fn file_name(title: Seq<char>) -> Seq<char> {
    without(title, marker())
}

/// A text in which `pat` does not occur stays as it is.
pub proof fn lemma_without_keeps(s: Seq<char>, pat: Seq<char>)
    requires
        forall|i: int| !has_at(s, i, pat),
    ensures
        without(s, pat) == s,
    decreases s.len(),
{
    if pat.len() == 0 || s.len() < pat.len() {
    } else {
        let rest = s.skip(1);
        assert forall|i: int| !has_at(rest, i, pat) by {
            if has_at(rest, i, pat) {
                assert(rest.subrange(i, i + pat.len()) =~= s.subrange(i + 1, i + 1 + pat.len()));
                assert(has_at(s, i + 1, pat));
            }
        }
        lemma_without_keeps(rest, pat);
        assert(seq![s[0]] + rest =~= s);
    }
}

/// What `without` leaves is never longer than what it was given.
pub proof fn lemma_without_len(s: Seq<char>, pat: Seq<char>)
    ensures
        without(s, pat).len() <= s.len(),
    decreases s.len(),
{
    if pat.len() == 0 || s.len() < pat.len() {
    } else if has_at(s, 0, pat) {
        lemma_without_len(s.skip(pat.len() as int), pat);
    } else {
        lemma_without_len(s.skip(1), pat);
    }
}

/// The name of the file for the forum with this title.
pub fn forum_file_name(title: &str) -> (name: String)
    ensures
        name@ == file_name(title@),
{
    let chars = chars_of(title);
    let pat: Vec<char> = vec!['[', '^', 'A', '-', 'Z', 'a', '-', 'z', '0', '-', '9', ' ', ']'];
    assert(pat@ =~= marker());
    let n: usize = chars.len();
    let m: usize = pat.len();
    let mut name = String::new();
    let mut start: usize = 0;
    let mut i: usize = 0;
    assert(chars@.skip(0) =~= chars@);
    assert(name@ + chars@.subrange(0, 0) + without(chars@, pat@) =~= without(chars@, pat@));
    while n - i >= m
        invariant
            chars@ == title@,
            n == chars@.len(),
            m == pat@.len(),
            m == 13,
            start <= i <= n,
            without(chars@, pat@) == name@ + chars@.subrange(start as int, i as int) + without(
                chars@.skip(i as int),
                pat@,
            ),
        decreases n - i,
    {
        let ghost rest = chars@.skip(i as int);
        let ghost kept = chars@.subrange(start as int, i as int);
        assert(rest.subrange(0, m as int) =~= chars@.subrange(i as int, i + m));
        if stands_at(&chars, i, &pat) {
            name.append(title.substring_char(start, i));
            assert(rest.skip(m as int) =~= chars@.skip(i + m));
            i += m;
            start = i;
            assert(chars@.subrange(start as int, i as int) =~= Seq::empty());
            assert(name@ + chars@.subrange(start as int, i as int) =~= name@);
        } else {
            assert(rest.skip(1) =~= chars@.skip(i + 1));
            assert(kept + seq![rest[0]] =~= chars@.subrange(start as int, i + 1));
            assert(name@ + kept + (seq![rest[0]] + without(rest.skip(1), pat@)) =~= name@ + (kept
                + seq![rest[0]]) + without(rest.skip(1), pat@));
            i += 1;
        }
    }
    name.append(title.substring_char(start, n));
    assert(chars@.subrange(start as int, i as int) + chars@.skip(i as int) =~= chars@.subrange(
        start as int,
        n as int,
    ));
    name
}

/// A forum together with the name of the file that is to hold it.
#[derive(Debug, Clone, PartialEq, Eq)]
pub struct ForumFile {
    pub name: String,
    pub forum: Forum,
}

/// The view of [`ForumFile`].
#[verifier::ext_equal]
pub struct ForumFileView {
    pub name: Seq<char>,
    pub forum: ForumView,
}

impl View for ForumFile {
    type V = ForumFileView;

    open spec fn view(&self) -> ForumFileView {
        ForumFileView { name: self.name@, forum: self.forum@ }
    }
}

/// The file that is planned for a forum.
pub open spec fn planned(forum: ForumView) -> ForumFileView {
    ForumFileView { name: file_name(forum.base.title), forum }
}

/// The views of a list of files.
pub open spec fn files_view(files: Seq<ForumFile>) -> Seq<ForumFileView> {
    files.map_values(|f: ForumFile| f@)
}

/// Plans the file of one forum: the forum goes, whole, into a file named
/// after its title.
pub fn write_forum(forum: Forum) -> (file: ForumFile)
    ensures
        file@ == planned(forum@),
{
    let name = forum_file_name(forum.base.title.as_str());
    ForumFile { name, forum }
}

/// Plans the files of a run: one for each forum, in the order of the
/// forums.
pub fn write_forums_to_files(forums: Vec<Forum>) -> (files: Vec<ForumFile>)
    ensures
        files@.len() == forums@.len(),
        forall|i: int| 0 <= i < forums@.len() ==> (#[trigger] files@[i])@ == planned(forums@[i]@),
{
    let mut files: Vec<ForumFile> = Vec::new();
    for forum in it: forums
        invariant
            files@.len() == it.index(),
            forall|i: int|
                0 <= i < files@.len() ==> (#[trigger] files@[i])@ == planned(it.seq()[i]@),
    {
        files.push(write_forum(forum));
    }
    files
}

} // verus!
