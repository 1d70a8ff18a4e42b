//! What holds of the session whatever is typed.

use vstd::prelude::*;
use crate::entry::{
    ascending, ascending_ids_differ, empty_search_keeps_all, matching, title_holds, without_id,
    without_id_drops_one, without_id_removes, EntryView,
};
use crate::session::{
    answers, clear_draft, commit_request, consistent, put_password, put_title, put_username,
    request_of, step, with_entries, with_mode, InputMode, Key, ReplyView,
    RequestView, SessionView,
};
use crate::store::StoreError;
use crate::text::{apply_edits, Edit};

verus! {

/// The key that makes an edit.
pub open spec fn key_of(e: Edit) -> Key {
    match e {
        Edit::Put(c) => Key::Char(c),
        Edit::Erase => Key::Backspace,
    }
}

/// The keys that make a run of edits.
pub open spec fn typed(edits: Seq<Edit>) -> Seq<Key> {
    edits.map_values(|e: Edit| key_of(e))
}

/// The session after a run of keys none of which asks anything of the store.
pub open spec fn run(s: SessionView, keys: Seq<Key>) -> SessionView
    decreases keys.len(),
{
    if keys.len() == 0 {
        s
    } else {
        step(run(s, keys.drop_last()), keys.last(), ReplyView::Nothing)
    }
}

/// Whether the mode is one of the three in which a field of the draft is
/// typed into.
pub open spec fn edits_draft(mode: InputMode) -> bool {
    mode == InputMode::Title || mode == InputMode::Username || mode == InputMode::Password
}

/// The session with `text` in the field that `mode` types into.
pub open spec fn with_field(s: SessionView, text: Seq<char>) -> SessionView {
    match s.mode {
        InputMode::Title => put_title(s, text),
        InputMode::Username => put_username(s, text),
        InputMode::Password => put_password(s, text),
        _ => s,
    }
}

/// The field that `s.mode` types into.
pub open spec fn field(s: SessionView) -> Seq<char> {
    match s.mode {
        InputMode::Title => s.new_title,
        InputMode::Username => s.new_username,
        InputMode::Password => s.new_password,
        _ => Seq::empty(),
    }
}

/// While a field of the draft is typed into, characters and backspaces ask
/// nothing of the store, and after any run of them the field holds the edits
/// applied in order, and nothing else in the session has changed.
pub proof fn typing_accumulates(s: SessionView, edits: Seq<Edit>)
    requires
        edits_draft(s.mode),
    ensures
        run(s, typed(edits)) == with_field(s, apply_edits(field(s), edits)),
        forall|e: Edit| request_of(run(s, typed(edits)), #[trigger] key_of(e)) == RequestView::Nothing,
    decreases edits.len(),
{
    if edits.len() == 0 {
        assert(typed(edits).len() == 0);
    } else {
        let front = edits.drop_last();
        typing_accumulates(s, front);
        assert(typed(edits).drop_last() =~= typed(front));
        assert(typed(edits).last() == key_of(edits.last()));
    }
}

/// While the search text is typed into, characters and backspaces ask
/// nothing of the store, and after any run of them the search text holds the
/// edits applied in order, with the list on display derived from it; mode
/// and entries stay.
pub proof fn search_typing_accumulates(s: SessionView, edits: Seq<Edit>)
    requires
        s.mode == InputMode::Search,
        consistent(s),
    ensures
        run(s, typed(edits)).search_text == apply_edits(s.search_text, edits),
        run(s, typed(edits)).search_list == matching(s.passwords, apply_edits(s.search_text, edits)),
        run(s, typed(edits)).passwords == s.passwords,
        run(s, typed(edits)).mode == InputMode::Search,
        consistent(run(s, typed(edits))),
        forall|e: Edit| request_of(run(s, typed(edits)), #[trigger] key_of(e)) == RequestView::Nothing,
    decreases edits.len(),
{
    if edits.len() == 0 {
        assert(typed(edits).len() == 0);
    } else {
        let front = edits.drop_last();
        search_typing_accumulates(s, front);
        assert(typed(edits).drop_last() =~= typed(front));
        assert(typed(edits).last() == key_of(edits.last()));
        step_keeps_consistency(run(s, typed(front)), key_of(edits.last()), ReplyView::Nothing);
    }
}

/// Cancel while a draft is typed or awaits confirmation asks nothing of the
/// store, returns to `Normal` and empties the draft; the entries stay.
pub proof fn cancel_discards_draft(s: SessionView, reply: ReplyView)
    requires
        edits_draft(s.mode) || s.mode == InputMode::Submit,
    ensures
        request_of(s, Key::Esc) == RequestView::Nothing,
        step(s, Key::Esc, reply) == with_mode(clear_draft(s), InputMode::Normal),
        step(s, Key::Esc, reply).passwords == s.passwords,
{
}

/// Cancel leads to `Normal` from every mode, and keeps the search text.
pub proof fn cancel_reaches_normal(s: SessionView, reply: ReplyView)
    requires
        s.mode != InputMode::Normal,
    ensures
        request_of(s, Key::Esc) == RequestView::Nothing,
        step(s, Key::Esc, reply).mode == InputMode::Normal,
        step(s, Key::Esc, reply).search_text == s.search_text,
        step(s, Key::Esc, reply).passwords == s.passwords,
{
}

/// Starting a new entry, typing into it and cancelling asks nothing of the
/// store and ends where it began, but for an empty draft.
pub proof fn insert_then_cancel_is_idle(s: SessionView, edits: Seq<Edit>)
    requires
        s.mode == InputMode::Normal,
    ensures
        request_of(s, Key::Insert) == RequestView::Nothing,
        request_of(run(step(s, Key::Insert, ReplyView::Nothing), typed(edits)), Key::Esc)
            == RequestView::Nothing,
        step(
            run(step(s, Key::Insert, ReplyView::Nothing), typed(edits)),
            Key::Esc,
            ReplyView::Nothing,
        ) == clear_draft(s),
{
    let started = step(s, Key::Insert, ReplyView::Nothing);
    typing_accumulates(started, edits);
}

/// Confirming a draft asks for exactly one change: an insert where the
/// draft is new, an update of its entry where it came from one.
pub proof fn commit_is_insert_or_update(s: SessionView)
    requires
        s.mode == InputMode::Submit,
    ensures
        request_of(s, Key::Enter) == commit_request(s),
        s.edit_id.is_none() <==> request_of(s, Key::Enter) is Insert,
        s.edit_id.is_some() <==> request_of(s, Key::Enter) is Update,
{
}

/// A confirmed draft that the store took leaves `Normal` mode, an empty
/// draft and the entries that the store handed back. One that the store
/// refused, as it does an empty title, leaves the session as it was, draft
/// included.
pub proof fn commit_keeps_draft_on_failure(s: SessionView, reply: ReplyView)
    requires
        s.mode == InputMode::Submit,
        answers(request_of(s, Key::Enter), reply),
    ensures
        s.new_title.len() == 0 ==> step(s, Key::Enter, reply) == s,
        reply is Failed ==> step(s, Key::Enter, reply) == s,
        reply matches ReplyView::Loaded(entries) ==> step(s, Key::Enter, reply) == with_mode(
            clear_draft(with_entries(s, entries)),
            InputMode::Normal,
        ),
{
}

/// With an empty search text the list on display is the whole list.
pub proof fn empty_search_shows_all(s: SessionView)
    requires
        consistent(s),
        s.search_text.len() == 0,
    ensures
        s.search_list == s.passwords,
{
    assert(s.search_text =~= Seq::<char>::empty());
    empty_search_keeps_all(s.passwords);
}

/// Once the store has removed the selected entry, no entry of the session
/// has its id, and a second request for that id, which the store answers as
/// missing, leaves the entries as the store holds them.
pub proof fn delete_removes_selected(s: SessionView, again: Seq<EntryView>)
    requires
        s.mode == InputMode::List,
        consistent(s),
        s.selected.is_some(),
    ensures
        request_of(s, Key::Char('d')) == (RequestView::Delete {
            id: s.search_list[s.selected.unwrap() as int].id,
        }),
        forall|k: int|
            0 <= k < step(s, Key::Char('d'), ReplyView::Done).passwords.len() ==> (#[trigger] step(
                s,
                Key::Char('d'),
                ReplyView::Done,
            ).passwords[k]).id != s.search_list[s.selected.unwrap() as int].id,
        step(s, Key::Char('d'), ReplyView::Missing(again)).passwords == again,
        step(s, Key::Char('d'), ReplyView::Failed(StoreError::IOError)) == s,
{
    let id = s.search_list[s.selected.unwrap() as int].id;
    without_id_removes(s.passwords, id);
    assert(step(s, Key::Char('d'), ReplyView::Done).passwords == without_id(s.passwords, id));
}

/// Every step keeps the list on display derived from the entries and the
/// search text, and the selection within it.
pub proof fn step_keeps_consistency(s: SessionView, key: Key, reply: ReplyView)
    requires
        consistent(s),
    ensures
        consistent(step(s, key, reply)),
{
}

/// Where the ids of the entries rise strictly, as they do in every list
/// that the store hands out, removing the selected entry leaves exactly one
/// entry fewer.
pub proof fn delete_shrinks_by_one(s: SessionView)
    requires
        s.mode == InputMode::List,
        consistent(s),
        ascending(s.passwords),
        s.selected.is_some(),
    ensures
        step(s, Key::Char('d'), ReplyView::Done).passwords.len() == s.passwords.len() - 1,
{
    let i = s.selected.unwrap() as int;
    let chosen = s.search_list[i];
    assert(s.search_list.contains(chosen));
    s.passwords.lemma_filter_contains_rev(title_holds(s.search_text), chosen);
    let k = choose|k: int| 0 <= k < s.passwords.len() && s.passwords[k] == chosen;
    ascending_ids_differ(s.passwords, k);
    without_id_drops_one(s.passwords, k);
}

} // verus!
