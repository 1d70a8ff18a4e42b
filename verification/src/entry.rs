//! Stored credentials and lists of them.

use vstd::prelude::*;
use crate::text::{contains, empty_is_substring, is_substring, whole_is_substring};

verus! {

/// One stored credential.
#[derive(Debug)]
pub struct Entry {
    /// Assigned by the store; never changes while the entry lives.
    pub id: i64,
    pub title: String,
    pub username: String,
    pub password: String,
}

/// What an [`Entry`] holds, as mathematical values.
pub ghost struct EntryView {
    pub id: int,
    pub title: Seq<char>,
    pub username: Seq<char>,
    pub password: Seq<char>,
}

impl View for Entry {
    type V = EntryView;

    open spec fn view(&self) -> EntryView {
        EntryView {
            id: self.id as int,
            title: self.title@,
            username: self.username@,
            password: self.password@,
        }
    }
}

impl Clone for Entry {
    fn clone(&self) -> (r: Self)
        ensures
            r@ == self@,
    {
        Entry {
            id: self.id,
            title: self.title.clone(),
            username: self.username.clone(),
            password: self.password.clone(),
        }
    }
}

/// The views of a list of entries, in the same order.
pub open spec fn views(entries: Seq<Entry>) -> Seq<EntryView> {
    entries.map_values(|e: Entry| e@)
}

/// The test that a search for `text` puts to an entry: its title holds `text`.
pub open spec fn title_holds(text: Seq<char>) -> spec_fn(EntryView) -> bool {
    |e: EntryView| is_substring(text, e.title)
}

/// The entries whose title holds `text`, in the order they had.
pub open spec fn matching(entries: Seq<EntryView>, text: Seq<char>) -> Seq<EntryView> {
    entries.filter(title_holds(text))
}

/// The test that keeps every entry but the one with this id.
pub open spec fn other_than(id: int) -> spec_fn(EntryView) -> bool {
    |e: EntryView| e.id != id
}

/// The entries without the one that has this id, in the order they had.
pub open spec fn without_id(entries: Seq<EntryView>, id: int) -> Seq<EntryView> {
    entries.filter(other_than(id))
}

/// Ids rise strictly from each entry to the next, so none occurs twice.
pub open spec fn ascending(entries: Seq<EntryView>) -> bool {
    forall|i: int, j: int| 0 <= i < j < entries.len() ==> entries[i].id < entries[j].id
}

/// What holds of every list that the store hands out: ids rise strictly and
/// no title is empty.
pub open spec fn well_formed(entries: Seq<EntryView>) -> bool {
    &&& ascending(entries)
    &&& forall|i: int| 0 <= i < entries.len() ==> (#[trigger] entries[i]).title.len() > 0
}

proof fn views_push(entries: Seq<Entry>, e: Entry)
    ensures
        views(entries.push(e)) == views(entries).push(e@),
{
    assert(views(entries.push(e)) =~= views(entries).push(e@));
}

/// Copies out the entries whose title holds `text`.
pub fn filter_entries(entries: &Vec<Entry>, text: &str) -> (r: Vec<Entry>)
    ensures
        views(r@) == matching(views(entries@), text@),
{
    let mut out: Vec<Entry> = Vec::new();
    let mut i: usize = 0;
    proof {
        assert(views(entries@.take(0)) =~= Seq::<EntryView>::empty());
        assert(views(out@) =~= Seq::<EntryView>::empty());
        Seq::<EntryView>::empty().lemma_filter_len(title_holds(text@));
        assert(matching(Seq::<EntryView>::empty(), text@) =~= Seq::<EntryView>::empty());
    }
    while i < entries.len()
        invariant
            i <= entries.len(),
            views(out@) == matching(views(entries@.take(i as int)), text@),
        decreases entries.len() - i,
    {
        let e = &entries[i];
        proof {
            assert(entries@.take(i + 1) =~= entries@.take(i as int).push(*e));
            views_push(entries@.take(i as int), *e);
            views(entries@.take(i as int)).lemma_filter_push(e@, title_holds(text@));
        }
        if contains(e.title.as_str(), text) {
            let copy = e.clone();
            proof {
                views_push(out@, copy);
            }
            out.push(copy);
        }
        i = i + 1;
    }
    proof {
        assert(entries@.take(entries.len() as int) =~= entries@);
    }
    out
}

/// Copies out every entry but the one with this id.
pub fn remove_entry(entries: &Vec<Entry>, id: i64) -> (r: Vec<Entry>)
    ensures
        views(r@) == without_id(views(entries@), id as int),
{
    let mut out: Vec<Entry> = Vec::new();
    let mut i: usize = 0;
    proof {
        assert(views(entries@.take(0)) =~= Seq::<EntryView>::empty());
        assert(views(out@) =~= Seq::<EntryView>::empty());
        Seq::<EntryView>::empty().lemma_filter_len(other_than(id as int));
        assert(without_id(Seq::<EntryView>::empty(), id as int) =~= Seq::<EntryView>::empty());
    }
    while i < entries.len()
        invariant
            i <= entries.len(),
            views(out@) == without_id(views(entries@.take(i as int)), id as int),
        decreases entries.len() - i,
    {
        let e = &entries[i];
        proof {
            assert(entries@.take(i + 1) =~= entries@.take(i as int).push(*e));
            views_push(entries@.take(i as int), *e);
            views(entries@.take(i as int)).lemma_filter_push(e@, other_than(id as int));
        }
        if e.id != id {
            let copy = e.clone();
            proof {
                views_push(out@, copy);
            }
            out.push(copy);
        }
        i = i + 1;
    }
    proof {
        assert(entries@.take(entries.len() as int) =~= entries@);
    }
    out
}

/// A search for the empty text keeps every entry.
pub proof fn empty_search_keeps_all(entries: Seq<EntryView>)
    ensures
        matching(entries, Seq::<char>::empty()) == entries,
    decreases entries.len(),
{
    let none = Seq::<char>::empty();
    if entries.len() == 0 {
        entries.lemma_filter_len(title_holds(none));
        assert(matching(entries, none) =~= entries);
    } else {
        let front = entries.drop_last();
        empty_search_keeps_all(front);
        empty_is_substring(entries.last().title);
        front.lemma_filter_push(entries.last(), title_holds(none));
        assert(front.push(entries.last()) =~= entries);
    }
}

/// A search for the exact title of one of the entries finds that entry.
pub proof fn title_search_finds_entry(entries: Seq<EntryView>, i: int)
    requires
        0 <= i < entries.len(),
    ensures
        matching(entries, entries[i].title).contains(entries[i]),
{
    whole_is_substring(entries[i].title);
    entries.lemma_filter_contains(title_holds(entries[i].title), i);
}

/// Taking an id out of a list leaves no entry with that id, keeps every other
/// entry, and, where ids do not repeat, shortens the list by at most one.
pub proof fn without_id_removes(entries: Seq<EntryView>, id: int)
    ensures
        forall|k: int| 0 <= k < without_id(entries, id).len() ==> (#[trigger] without_id(entries, id)[k]).id != id,
        forall|k: int| 0 <= k < entries.len() && entries[k].id != id ==> without_id(entries, id).contains(#[trigger] entries[k]),
        without_id(entries, id).len() <= entries.len(),
{
    let kept = without_id(entries, id);
    entries.lemma_filter_len(other_than(id));
    assert forall|k: int| 0 <= k < kept.len() implies (#[trigger] kept[k]).id != id by {
        entries.lemma_filter_pred(other_than(id), k);
    }
    assert forall|k: int| 0 <= k < entries.len() && entries[k].id != id implies kept.contains(#[trigger] entries[k]) by {
        entries.lemma_filter_contains(other_than(id), k);
    }
}

/// Taking out an id that no entry has changes nothing.
pub proof fn without_absent_id(entries: Seq<EntryView>, id: int)
    requires
        forall|k: int| 0 <= k < entries.len() ==> (#[trigger] entries[k]).id != id,
    ensures
        without_id(entries, id) == entries,
    decreases entries.len(),
{
    if entries.len() == 0 {
        entries.lemma_filter_len(other_than(id));
        assert(without_id(entries, id) =~= entries);
    } else {
        let front = entries.drop_last();
        without_absent_id(front, id);
        front.lemma_filter_push(entries.last(), other_than(id));
        assert(front.push(entries.last()) =~= entries);
    }
}

/// Taking an id out twice is the same as taking it out once.
pub proof fn without_id_twice(entries: Seq<EntryView>, id: int)
    ensures
        without_id(without_id(entries, id), id) == without_id(entries, id),
{
    without_id_removes(entries, id);
    without_absent_id(without_id(entries, id), id);
}

/// Where no other entry has the id of entry `k`, taking that id out makes
/// the list shorter by exactly one.
pub proof fn without_id_drops_one(entries: Seq<EntryView>, k: int)
    requires
        0 <= k < entries.len(),
        forall|j: int| 0 <= j < entries.len() && j != k ==> (#[trigger] entries[j]).id != entries[k].id,
    ensures
        without_id(entries, entries[k].id).len() == entries.len() - 1,
    decreases entries.len(),
{
    let id = entries[k].id;
    let front = entries.drop_last();
    let last = entries.last();
    front.lemma_filter_push(last, other_than(id));
    assert(front.push(last) =~= entries);
    if k == entries.len() - 1 {
        assert forall|j: int| 0 <= j < front.len() implies (#[trigger] front[j]).id != id by {
            assert(front[j] == entries[j]);
        }
        without_absent_id(front, id);
    } else {
        assert(front[k] == entries[k]);
        assert forall|j: int| 0 <= j < front.len() && j != k implies (#[trigger] front[j]).id
            != front[k].id by {
            assert(front[j] == entries[j]);
        }
        without_id_drops_one(front, k);
        assert(last == entries[entries.len() - 1]);
    }
}

/// Where no other entry has the id of entry `k`, taking that id out removes
/// that entry and leaves the others as they stood.
pub proof fn without_id_takes_entry(entries: Seq<EntryView>, k: int)
    requires
        0 <= k < entries.len(),
        forall|j: int| 0 <= j < entries.len() && j != k ==> (#[trigger] entries[j]).id != entries[k].id,
    ensures
        without_id(entries, entries[k].id) == entries.subrange(0, k) + entries.subrange(
            k + 1,
            entries.len() as int,
        ),
    decreases entries.len(),
{
    let id = entries[k].id;
    let n = entries.len() as int;
    let front = entries.drop_last();
    let last = entries.last();
    front.lemma_filter_push(last, other_than(id));
    assert(front.push(last) =~= entries);
    if k == n - 1 {
        assert forall|j: int| 0 <= j < front.len() implies (#[trigger] front[j]).id != id by {
            assert(front[j] == entries[j]);
        }
        without_absent_id(front, id);
        assert(front =~= entries.subrange(0, k) + entries.subrange(k + 1, n));
    } else {
        assert(front[k] == entries[k]);
        assert forall|j: int| 0 <= j < front.len() && j != k implies (#[trigger] front[j]).id
            != front[k].id by {
            assert(front[j] == entries[j]);
        }
        without_id_takes_entry(front, k);
        assert(last == entries[n - 1]);
        let kept = front.subrange(0, k) + front.subrange(k + 1, n - 1);
        assert(kept.push(last) =~= entries.subrange(0, k) + entries.subrange(k + 1, n));
    }
}

/// Where ids rise strictly, no two entries share an id.
pub proof fn ascending_ids_differ(entries: Seq<EntryView>, k: int)
    requires
        ascending(entries),
        0 <= k < entries.len(),
    ensures
        forall|j: int| 0 <= j < entries.len() && j != k ==> (#[trigger] entries[j]).id != entries[k].id,
{
    assert forall|j: int| 0 <= j < entries.len() && j != k implies (#[trigger] entries[j]).id
        != entries[k].id by {
        if j < k {
            assert(entries[j].id < entries[k].id);
        } else {
            assert(entries[k].id < entries[j].id);
        }
    }
}

} // verus!
