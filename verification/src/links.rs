//! From what a page shows to what the tree holds: which links become forums
//! and threads, and who counts as the starter of a thread.

use crate::structures::{entities_view, BaseEntity, BaseEntityView};
use vstd::prelude::*;

verus! {

/// A link as it was read off a page: the locator it points to, if it has
/// one, and its text, if that could be read.
#[derive(Debug, Clone, PartialEq, Eq)]
pub struct RawLink {
    pub href: Option<String>,
    pub title: Option<String>,
}

/// The view of [`RawLink`].
#[verifier::ext_equal]
pub struct RawLinkView {
    pub href: Option<Seq<char>>,
    pub title: Option<Seq<char>>,
}

impl View for RawLink {
    type V = RawLinkView;

    open spec fn view(&self) -> RawLinkView {
        RawLinkView { href: self.href.deep_view(), title: self.title.deep_view() }
    }
}

/// The views of a list of links.
pub open spec fn links_view(links: Seq<RawLink>) -> Seq<RawLinkView> {
    links.map_values(|l: RawLink| l@)
}

/// The entity that a link stands for: it needs a locator and a title, and
/// neither may be empty.
pub open spec fn link_entity(link: RawLinkView) -> Option<BaseEntityView> {
    match (link.href, link.title) {
        (Some(url), Some(title)) => if url.len() > 0 && title.len() > 0 {
            Some(BaseEntityView { url, title })
        } else {
            None
        },
        _ => None,
    }
}

/// The entities of a list of links: one for each link that stands for one,
/// in the order of the links.
pub open spec fn entities_of(links: Seq<RawLinkView>) -> Seq<BaseEntityView>
    decreases links.len(),
{
    if links.len() == 0 {
        Seq::empty()
    } else {
        let before = entities_of(links.drop_last());
        match link_entity(links.last()) {
            Some(entity) => before.push(entity),
            None => before,
        }
    }
}

/// Whether an entity has a locator and a title that are not empty.
pub open spec fn named(entity: BaseEntityView) -> bool {
    entity.url.len() > 0 && entity.title.len() > 0
}

/// Whether every entity of a list has a locator and a title that are not
/// empty.
pub open spec fn all_named(entities: Seq<BaseEntityView>) -> bool {
    forall|i: int| 0 <= i < entities.len() ==> named(#[trigger] entities[i])
}

/// One link alone gives one entity if it stands for one, and none if not.
pub proof fn lemma_entities_of_one(link: RawLinkView)
    ensures
        entities_of(seq![link]) == match link_entity(link) {
            Some(entity) => seq![entity],
            None => Seq::empty(),
        },
{
    let one = seq![link];
    assert(one.drop_last() =~= Seq::empty());
    assert(entities_of(one.drop_last()) =~= Seq::empty());
    assert(one.last() == link);
    match link_entity(link) {
        Some(entity) => {
            assert(Seq::<BaseEntityView>::empty().push(entity) =~= seq![entity]);
        },
        None => {},
    }
}

/// The entities of two lists of links, one after the other, are the
/// entities of the first and then those of the second.
pub proof fn lemma_entities_of_concat(a: Seq<RawLinkView>, b: Seq<RawLinkView>)
    ensures
        entities_of(a + b) == entities_of(a) + entities_of(b),
    decreases b.len(),
{
    if b.len() == 0 {
        assert(a + b =~= a);
        assert(entities_of(a) + entities_of(b) =~= entities_of(a));
    } else {
        lemma_entities_of_concat(a, b.drop_last());
        assert((a + b).drop_last() =~= a + b.drop_last());
        assert((a + b).last() == b.last());
        match link_entity(b.last()) {
            Some(entity) => {
                assert((entities_of(a) + entities_of(b.drop_last())).push(entity) =~= entities_of(
                    a,
                ) + entities_of(b.drop_last()).push(entity));
            },
            None => {},
        }
    }
}

/// A link that lacks its locator or its title, or has an empty one, leaves
/// no trace: the entities are those of the list without it.
pub proof fn lemma_degenerate_link_dropped(links: Seq<RawLinkView>, i: int)
    requires
        0 <= i < links.len(),
        link_entity(links[i]) is None,
    ensures
        entities_of(links) == entities_of(links.remove(i)),
{
    let a = links.subrange(0, i);
    let b = links.subrange(i + 1, links.len() as int);
    let one = seq![links[i]];
    assert(links =~= a + one + b);
    assert(links.remove(i) =~= a + b);
    lemma_entities_of_concat(a + one, b);
    lemma_entities_of_concat(a, one);
    lemma_entities_of_one(links[i]);
    lemma_entities_of_concat(a, b);
    assert(entities_of(a) + Seq::<BaseEntityView>::empty() =~= entities_of(a));
}

/// Where every link stands for an entity, each gives exactly one, at its
/// own place.
pub proof fn lemma_valid_links_kept(links: Seq<RawLinkView>)
    requires
        forall|i: int| 0 <= i < links.len() ==> link_entity(#[trigger] links[i]) is Some,
    ensures
        entities_of(links).len() == links.len(),
        forall|i: int|
            0 <= i < links.len() ==> link_entity(links[i]) == Some(
                #[trigger] entities_of(links)[i],
            ),
    decreases links.len(),
{
    if links.len() > 0 {
        let front = links.drop_last();
        assert forall|i: int| 0 <= i < front.len() implies link_entity(#[trigger] front[i])
            is Some by {
            assert(front[i] == links[i]);
        }
        lemma_valid_links_kept(front);
        assert(link_entity(links.last()) is Some);
        assert forall|i: int| 0 <= i < links.len() implies link_entity(links[i]) == Some(
            #[trigger] entities_of(links)[i],
        ) by {
            if i < front.len() {
                assert(front[i] == links[i]);
                assert(entities_of(links)[i] == entities_of(front)[i]);
            }
        }
    }
}

/// No more entities than links.
pub proof fn lemma_entities_of_len(links: Seq<RawLinkView>)
    ensures
        entities_of(links).len() <= links.len(),
    decreases links.len(),
{
    if links.len() > 0 {
        lemma_entities_of_len(links.drop_last());
    }
}

/// Every entity that comes of a link has a locator and a title that are not
/// empty.
pub proof fn lemma_entities_named(links: Seq<RawLinkView>)
    ensures
        all_named(entities_of(links)),
    decreases links.len(),
{
    if links.len() > 0 {
        lemma_entities_named(links.drop_last());
    }
}

/// Turns the links of a page into entities. A link without a locator or
/// without a title, or with an empty one, is left out; every other link
/// gives one entity, and the entities keep the order of the links.
pub fn collect_entities(links: &Vec<RawLink>) -> (entities: Vec<BaseEntity>)
    ensures
        entities_view(entities@) == entities_of(links_view(links@)),
{
    let mut entities: Vec<BaseEntity> = Vec::new();
    let n: usize = links.len();
    let mut i: usize = 0;
    assert(links_view(links@).take(0) =~= Seq::empty());
    while i < n
        invariant
            n == links@.len(),
            i <= n,
            entities_view(entities@) == entities_of(links_view(links@).take(i as int)),
        decreases n - i,
    {
        let ghost before = entities_view(entities@);
        let ghost seen = links_view(links@).take(i as int + 1);
        assert(seen.drop_last() =~= links_view(links@).take(i as int));
        assert(seen.last() == links@[i as int]@);
        let link = &links[i];
        match (&link.href, &link.title) {
            (Some(url), Some(title)) => {
                if url.as_str().unicode_len() > 0 && title.as_str().unicode_len() > 0 {
                    let entity = BaseEntity { url: url.clone(), title: title.clone() };
                    entities.push(entity);
                    assert(entities_view(entities@) =~= before.push(entity@));
                }
            },
            _ => {},
        }
        i += 1;
    }
    assert(links_view(links@).take(n as int) =~= links_view(links@));
    entities
}

/// The name that stands for a poster whose name is not to be had.
pub open spec fn unknown_poster() -> Seq<char> {
    "UNKNOWN POSTER"@
}

/// The name of the starter of a thread, given the poster names on its
/// landing page as far as they could be read: the first one, or the
/// placeholder where the page has none or the first could not be read.
pub open spec fn starter_of(names: Seq<Option<Seq<char>>>) -> Seq<char> {
    if names.len() > 0 && names[0] is Some {
        names[0].unwrap()
    } else {
        unknown_poster()
    }
}

/// The views of a list of names.
pub open spec fn names_view(names: Seq<Option<String>>) -> Seq<Option<Seq<char>>> {
    names.map_values(|n: Option<String>| n.deep_view())
}

/// The placeholder name.
pub fn unknown_poster_name() -> (name: String)
    ensures
        name@ == unknown_poster(),
{
    String::from_str("UNKNOWN POSTER")
}

/// Picks the starter's name from the poster names of a thread's landing
/// page: the first of them, or `UNKNOWN POSTER` where the page shows none
/// or the first could not be read.
pub fn starter_name(names: &Vec<Option<String>>) -> (name: String)
    ensures
        name@ == starter_of(names_view(names@)),
        names@.len() == 0 ==> name@ == unknown_poster(),
        names@.len() > 0 && names@[0] is Some ==> name@ == names@[0].unwrap()@,
{
    if names.len() > 0 {
        match &names[0] {
            Some(first) => first.clone(),
            None => unknown_poster_name(),
        }
    } else {
        unknown_poster_name()
    }
}

} // verus!
