use passmng::entry::{filter_entries, remove_entry, Entry};
use passmng::session::{needs_reload, reply_after, InputMode, Key, PassMng, Reply, Request};
use passmng::store::StoreError;
use passmng::text::{contains, edit_buffer, Edit};

fn entry(id: i64, title: &str, username: &str, password: &str) -> Entry {
    Entry {
        id,
        title: title.to_string(),
        username: username.to_string(),
        password: password.to_string(),
    }
}

fn sample() -> Vec<Entry> {
    vec![
        entry(1, "Email", "me@x.com", "s3cr3t"),
        entry(2, "Bank", "me", "1234"),
        entry(5, "Mail server", "root", "toor"),
    ]
}

fn press(state: &mut PassMng, keys: &[Key]) {
    for k in keys {
        state.advance(*k, Reply::Nothing);
    }
}

fn type_text(state: &mut PassMng, text: &str) {
    for c in text.chars() {
        state.advance(Key::Char(c), Reply::Nothing);
    }
}

fn titles(entries: &Vec<Entry>) -> Vec<&str> {
    entries.iter().map(|e| e.title.as_str()).collect()
}

fn listing(entries: Vec<Entry>) -> PassMng {
    let mut state = PassMng::new();
    state.advance(Key::Char('l'), Reply::Loaded(entries));
    state
}

#[test]
fn new_session_is_blank() {
    let state = PassMng::new();
    assert_eq!(state.mode(), InputMode::Normal);
    assert_eq!(state.selected(), None);
    assert_eq!(state.passwords().len(), 0);
    assert_eq!(state.search_list().len(), 0);
    assert_eq!(state.search_text(), "");
    assert_eq!(state.new_title(), "");
    assert_eq!(state.new_username(), "");
    assert_eq!(state.new_password(), "");
    assert_eq!(state.edit_id(), None);
}

#[test]
fn change_mode_touches_only_the_mode() {
    let mut state = PassMng::new();
    press(&mut state, &[Key::Insert]);
    type_text(&mut state, "abc");
    state.change_mode(InputMode::Password);
    assert_eq!(state.mode(), InputMode::Password);
    assert_eq!(state.new_title(), "abc");
}

#[test]
fn clear_fields_empties_the_draft() {
    let mut state = listing(sample());
    press(&mut state, &[Key::Char('e')]);
    assert_eq!(state.edit_id(), Some(1));
    state.clear_fields();
    assert_eq!(state.new_title(), "");
    assert_eq!(state.new_username(), "");
    assert_eq!(state.new_password(), "");
    assert_eq!(state.edit_id(), None);
    assert_eq!(state.mode(), InputMode::Title);
    assert_eq!(state.passwords().len(), 3);
}

#[test]
fn edits_apply_in_order() {
    let mut buf = String::from("ab");
    for e in [Edit::Put('c'), Edit::Erase, Edit::Erase, Edit::Put('d'), Edit::Put('e')] {
        edit_buffer(&mut buf, e);
    }
    assert_eq!(buf, "ade");
}

#[test]
fn erase_on_empty_buffer_is_a_no_op() {
    let mut buf = String::new();
    edit_buffer(&mut buf, Edit::Erase);
    edit_buffer(&mut buf, Edit::Erase);
    assert_eq!(buf, "");
    edit_buffer(&mut buf, Edit::Put('x'));
    edit_buffer(&mut buf, Edit::Erase);
    edit_buffer(&mut buf, Edit::Erase);
    assert_eq!(buf, "");
}

#[test]
fn erase_removes_a_whole_character() {
    let mut buf = String::from("n\u{e9}");
    edit_buffer(&mut buf, Edit::Erase);
    assert_eq!(buf, "n");
}

#[test]
fn typing_goes_into_the_field_of_the_mode() {
    let mut state = PassMng::new();
    press(&mut state, &[Key::Insert]);
    assert_eq!(state.mode(), InputMode::Title);
    press(&mut state, &[Key::Backspace]);
    type_text(&mut state, "Emaik");
    press(&mut state, &[Key::Backspace, Key::Char('l'), Key::Tab]);
    assert_eq!(state.mode(), InputMode::Username);
    type_text(&mut state, "me");
    press(&mut state, &[Key::Tab]);
    assert_eq!(state.mode(), InputMode::Password);
    type_text(&mut state, "pwq");
    press(&mut state, &[Key::Backspace, Key::Tab]);
    assert_eq!(state.mode(), InputMode::Submit);
    type_text(&mut state, "ignored");
    assert_eq!(state.new_title(), "Email");
    assert_eq!(state.new_username(), "me");
    assert_eq!(state.new_password(), "pw");
}

#[test]
fn fields_are_walked_forwards_and_backwards() {
    let mut state = PassMng::new();
    press(&mut state, &[Key::Insert, Key::BackTab]);
    assert_eq!(state.mode(), InputMode::Title);
    press(&mut state, &[Key::Tab, Key::Tab, Key::Tab, Key::Tab]);
    assert_eq!(state.mode(), InputMode::Submit);
    press(&mut state, &[Key::BackTab]);
    assert_eq!(state.mode(), InputMode::Password);
    press(&mut state, &[Key::BackTab]);
    assert_eq!(state.mode(), InputMode::Username);
    press(&mut state, &[Key::BackTab]);
    assert_eq!(state.mode(), InputMode::Title);
}

#[test]
fn cancel_returns_to_normal_and_clears_the_draft() {
    for tabs in 0..4 {
        let mut state = PassMng::new();
        press(&mut state, &[Key::Insert]);
        type_text(&mut state, "x");
        for _ in 0..tabs {
            press(&mut state, &[Key::Tab]);
            type_text(&mut state, "y");
        }
        assert!(matches!(state.request(Key::Esc), Request::Nothing));
        press(&mut state, &[Key::Esc]);
        assert_eq!(state.mode(), InputMode::Normal);
        assert_eq!(state.new_title(), "");
        assert_eq!(state.new_username(), "");
        assert_eq!(state.new_password(), "");
        assert_eq!(state.edit_id(), None);
    }
}

#[test]
fn insert_key_clears_a_stale_draft() {
    let mut state = listing(sample());
    press(&mut state, &[Key::Char('e'), Key::Tab]);
    state.change_mode(InputMode::Normal);
    assert_eq!(state.new_title(), "Email");
    press(&mut state, &[Key::Insert]);
    assert_eq!(state.mode(), InputMode::Title);
    assert_eq!(state.new_title(), "");
    assert_eq!(state.edit_id(), None);
}

#[test]
fn normal_mode_shortcuts() {
    let mut state = PassMng::new();
    assert!(matches!(state.request(Key::Char('q')), Request::Quit));
    assert!(matches!(state.request(Key::Char('l')), Request::LoadAll));
    assert!(matches!(state.request(Key::Char('s')), Request::Nothing));
    assert!(matches!(state.request(Key::Insert), Request::Nothing));
    press(&mut state, &[Key::Char('x'), Key::Other, Key::Tab, Key::Enter]);
    assert_eq!(state.mode(), InputMode::Normal);
    press(&mut state, &[Key::Char('s')]);
    assert_eq!(state.mode(), InputMode::Search);
}

#[test]
fn list_key_needs_the_entries() {
    let mut state = PassMng::new();
    state.advance(Key::Char('l'), Reply::Failed(StoreError::IOError));
    assert_eq!(state.mode(), InputMode::Normal);
    state.advance(Key::Char('l'), Reply::Loaded(sample()));
    assert_eq!(state.mode(), InputMode::List);
    assert_eq!(titles(state.passwords()), vec!["Email", "Bank", "Mail server"]);
    assert_eq!(state.selected(), Some(0));
    press(&mut state, &[Key::Esc]);
    assert_eq!(state.mode(), InputMode::Normal);
    assert_eq!(state.passwords().len(), 3);
}

#[test]
fn empty_search_shows_every_entry() {
    let state = listing(sample());
    assert_eq!(state.search_text(), "");
    assert_eq!(titles(state.search_list()), vec!["Email", "Bank", "Mail server"]);
    assert_eq!(titles(&filter_entries(&sample(), "")), vec!["Email", "Bank", "Mail server"]);
}

#[test]
fn search_for_a_title_finds_its_entry() {
    assert_eq!(titles(&filter_entries(&sample(), "Bank")), vec!["Bank"]);
    assert_eq!(titles(&filter_entries(&sample(), "Mail server")), vec!["Mail server"]);
    assert_eq!(titles(&filter_entries(&sample(), "ail")), vec!["Email", "Mail server"]);
    assert_eq!(filter_entries(&sample(), "bank").len(), 0);
}

#[test]
fn search_text_filters_the_list_and_survives_cancel() {
    let mut state = listing(sample());
    press(&mut state, &[Key::Down, Key::Down, Key::Esc, Key::Char('s')]);
    assert_eq!(state.selected(), Some(2));
    type_text(&mut state, "ailx");
    assert_eq!(state.search_list().len(), 0);
    assert_eq!(state.selected(), None);
    press(&mut state, &[Key::Backspace]);
    assert_eq!(state.search_text(), "ail");
    assert_eq!(titles(state.search_list()), vec!["Email", "Mail server"]);
    assert_eq!(state.selected(), Some(0));
    assert_eq!(state.passwords().len(), 3);
    press(&mut state, &[Key::Esc]);
    assert_eq!(state.mode(), InputMode::Normal);
    assert_eq!(state.search_text(), "ail");
    assert_eq!(state.search_list().len(), 2);
}

#[test]
fn substring_search() {
    assert!(contains("hello", ""));
    assert!(contains("", ""));
    assert!(!contains("", "a"));
    assert!(contains("hello", "hello"));
    assert!(contains("hello", "ell"));
    assert!(contains("hello", "lo"));
    assert!(!contains("hello", "hellos"));
    assert!(!contains("hello", "elo"));
    assert!(contains("h\u{e9}llo", "\u{e9}ll"));
}

#[test]
fn selection_moves_within_the_list() {
    let mut state = listing(sample());
    press(&mut state, &[Key::Up]);
    assert_eq!(state.selected(), Some(0));
    press(&mut state, &[Key::Down, Key::Down]);
    assert_eq!(state.selected(), Some(2));
    press(&mut state, &[Key::Down]);
    assert_eq!(state.selected(), Some(2));
    press(&mut state, &[Key::Up]);
    assert_eq!(state.selected(), Some(1));
}

#[test]
fn list_actions_ask_for_the_selected_entry() {
    let mut state = listing(sample());
    press(&mut state, &[Key::Down]);
    match state.request(Key::Char('u')) {
        Request::Copy { text } => assert_eq!(text, "me"),
        other => panic!("{:?}", other),
    }
    match state.request(Key::Char('p')) {
        Request::Copy { text } => assert_eq!(text, "1234"),
        other => panic!("{:?}", other),
    }
    match state.request(Key::Char('d')) {
        Request::Delete { id } => assert_eq!(id, 2),
        other => panic!("{:?}", other),
    }
    assert!(matches!(state.request(Key::Char('e')), Request::Nothing));
    let empty = listing(vec![]);
    assert!(matches!(empty.request(Key::Char('d')), Request::Nothing));
}

#[test]
fn delete_removes_from_the_list_and_clamps_the_selection() {
    let mut state = listing(sample());
    press(&mut state, &[Key::Down, Key::Down]);
    state.advance(Key::Char('d'), Reply::Done);
    assert_eq!(titles(state.passwords()), vec!["Email", "Bank"]);
    assert_eq!(titles(state.search_list()), vec!["Email", "Bank"]);
    assert_eq!(state.selected(), Some(1));
    assert_eq!(state.mode(), InputMode::List);
    state.advance(Key::Char('d'), Reply::Failed(StoreError::IOError));
    assert_eq!(state.passwords().len(), 2);
    state.advance(Key::Char('d'), Reply::Missing(vec![entry(1, "Email", "me@x.com", "s3cr3t")]));
    assert_eq!(titles(state.passwords()), vec!["Email"]);
    assert_eq!(state.selected(), Some(0));
    state.advance(Key::Char('d'), Reply::Done);
    assert_eq!(state.passwords().len(), 0);
    assert_eq!(state.selected(), None);
}

#[test]
fn remove_entry_takes_out_one_id() {
    assert_eq!(titles(&remove_entry(&sample(), 2)), vec!["Email", "Mail server"]);
    assert_eq!(remove_entry(&sample(), 3).len(), 3);
    assert_eq!(remove_entry(&vec![], 1).len(), 0);
}

#[test]
fn edit_fills_the_draft_and_commits_an_update() {
    let mut state = listing(sample());
    press(&mut state, &[Key::Down, Key::Char('e')]);
    assert_eq!(state.mode(), InputMode::Title);
    assert_eq!(state.new_title(), "Bank");
    assert_eq!(state.new_username(), "me");
    assert_eq!(state.new_password(), "1234");
    assert_eq!(state.edit_id(), Some(2));
    type_text(&mut state, "!");
    press(&mut state, &[Key::Tab, Key::Tab, Key::Tab]);
    match state.request(Key::Enter) {
        Request::Update { id, title, username, password } => {
            assert_eq!((id, title.as_str(), username.as_str(), password.as_str()), (2, "Bank!", "me", "1234"));
        }
        other => panic!("{:?}", other),
    }
}

#[test]
fn commit_of_a_new_draft_is_an_insert() {
    let mut state = PassMng::new();
    press(&mut state, &[Key::Insert]);
    type_text(&mut state, "t");
    press(&mut state, &[Key::Tab]);
    type_text(&mut state, "u");
    press(&mut state, &[Key::Tab]);
    type_text(&mut state, "p");
    press(&mut state, &[Key::Tab]);
    match state.request(Key::Enter) {
        Request::Insert { title, username, password } => {
            assert_eq!((title.as_str(), username.as_str(), password.as_str()), ("t", "u", "p"));
        }
        other => panic!("{:?}", other),
    }
    state.advance(Key::Enter, Reply::Failed(StoreError::IOError));
    assert_eq!(state.mode(), InputMode::Submit);
    assert_eq!(state.new_title(), "t");
    state.advance(Key::Enter, Reply::Loaded(vec![entry(1, "t", "u", "p")]));
    assert_eq!(state.mode(), InputMode::Normal);
    assert_eq!(state.new_title(), "");
    assert_eq!(state.new_username(), "");
    assert_eq!(state.new_password(), "");
    assert_eq!(titles(state.passwords()), vec!["t"]);
}

#[test]
fn commit_for_a_vanished_entry_refreshes_and_keeps_the_draft() {
    let mut state = listing(sample());
    press(&mut state, &[Key::Char('e'), Key::Tab, Key::Tab, Key::Tab]);
    state.advance(Key::Enter, Reply::Missing(vec![entry(2, "Bank", "me", "1234")]));
    assert_eq!(state.mode(), InputMode::Submit);
    assert_eq!(state.new_title(), "Email");
    assert_eq!(titles(state.passwords()), vec!["Bank"]);
}

fn insert_request(title: &str) -> Request {
    Request::Insert {
        title: title.to_string(),
        username: "u".to_string(),
        password: "p".to_string(),
    }
}

fn update_request(id: i64) -> Request {
    Request::Update {
        id,
        title: "t".to_string(),
        username: "u".to_string(),
        password: "p".to_string(),
    }
}

#[test]
fn entries_are_read_anew_when_the_store_changed_or_lacked_the_id() {
    let taken: Result<(), StoreError> = Ok(());
    let missing: Result<(), StoreError> = Err(StoreError::NotFoundError);
    let refused: Result<(), StoreError> = Err(StoreError::ValidationError);
    let broken: Result<(), StoreError> = Err(StoreError::IOError);
    for idle in [Request::Nothing, Request::Quit, Request::Copy { text: "x".to_string() }] {
        assert!(!needs_reload(&idle, &taken));
        assert!(!needs_reload(&idle, &missing));
        assert!(!needs_reload(&idle, &broken));
    }
    assert!(needs_reload(&Request::LoadAll, &taken));
    assert!(needs_reload(&insert_request("t"), &taken));
    assert!(!needs_reload(&insert_request(""), &refused));
    assert!(!needs_reload(&insert_request("t"), &broken));
    assert!(needs_reload(&update_request(1), &taken));
    assert!(needs_reload(&update_request(1), &missing));
    assert!(!needs_reload(&update_request(1), &refused));
    assert!(!needs_reload(&update_request(1), &broken));
    assert!(!needs_reload(&Request::Delete { id: 1 }, &taken));
    assert!(needs_reload(&Request::Delete { id: 1 }, &missing));
    assert!(!needs_reload(&Request::Delete { id: 1 }, &broken));
}

#[test]
fn replies_follow_the_store() {
    let missing: Result<(), StoreError> = Err(StoreError::NotFoundError);
    let read = || Some(Ok(vec![entry(1, "a", "u", "p")]));
    let read_failed = || Some(Err(StoreError::IOError));

    assert!(matches!(reply_after(&Request::Nothing, Ok(()), read()), Reply::Nothing));
    assert!(matches!(reply_after(&Request::Quit, missing, None), Reply::Nothing));
    let copy = Request::Copy { text: "x".to_string() };
    assert!(matches!(reply_after(&copy, Ok(()), None), Reply::Nothing));

    for request in [Request::LoadAll, insert_request("t"), update_request(1)] {
        match reply_after(&request, Ok(()), read()) {
            Reply::Loaded(v) => assert_eq!(titles(&v), vec!["a"]),
            other => panic!("{:?}", other),
        }
        assert!(matches!(
            reply_after(&request, Ok(()), read_failed()),
            Reply::Failed(StoreError::IOError)
        ));
        assert!(matches!(reply_after(&request, Ok(()), None), Reply::Done));
        assert!(matches!(
            reply_after(&request, Err(StoreError::AuthError), read()),
            Reply::Failed(StoreError::AuthError)
        ));
    }
    assert!(matches!(
        reply_after(&insert_request(""), Err(StoreError::ValidationError), None),
        Reply::Failed(StoreError::ValidationError)
    ));

    match reply_after(&update_request(9), missing, read()) {
        Reply::Missing(v) => assert_eq!(titles(&v), vec!["a"]),
        other => panic!("{:?}", other),
    }
    assert!(matches!(
        reply_after(&update_request(9), missing, read_failed()),
        Reply::Failed(StoreError::IOError)
    ));
    assert!(matches!(
        reply_after(&update_request(9), missing, None),
        Reply::Failed(StoreError::NotFoundError)
    ));

    let delete = Request::Delete { id: 1 };
    assert!(matches!(reply_after(&delete, Ok(()), None), Reply::Done));
    assert!(matches!(reply_after(&delete, Ok(()), read()), Reply::Done));
    match reply_after(&delete, missing, read()) {
        Reply::Missing(v) => assert_eq!(v.len(), 1),
        other => panic!("{:?}", other),
    }
    assert!(matches!(
        reply_after(&delete, Err(StoreError::IOError), None),
        Reply::Failed(StoreError::IOError)
    ));
}
