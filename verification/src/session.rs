//! The session: which mode the user is in, what has been typed so far, the
//! entries as last loaded, and what each key does to all of that.

use vstd::prelude::*;
use crate::entry::{
    empty_search_keeps_all, filter_entries, matching, remove_entry, views, well_formed, without_id,
    Entry, EntryView,
};
use crate::store::{Database, StoreError};
use crate::text::{apply_edit, edit_buffer, Edit};

verus! {

/// The step of the dialogue that the user is in. Exactly one field is
/// typed into at any time, and this says which.
#[derive(Clone, Copy, Debug, PartialEq, Eq, Structural)]
pub enum InputMode {
    Normal,
    Title,
    Username,
    Password,
    Submit,
    Search,
    List,
}

/// A key press, as far as the session tells keys apart.
#[derive(Clone, Copy, Debug, PartialEq, Eq, Structural)]
pub enum Key {
    /// A printable character. In `Normal` mode `s`, `l` and `q` are the
    /// shortcuts for search, list and quit; in `List` mode `u`, `p`, `d`
    /// and `e` act on the selected entry.
    Char(char),
    Backspace,
    /// Next field.
    Tab,
    /// Previous field.
    BackTab,
    /// Confirm.
    Enter,
    /// Cancel.
    Esc,
    /// Start a new entry.
    Insert,
    Up,
    Down,
    /// Any other key; it does nothing.
    Other,
}

/// What the session asks of the outside world for one key.
#[derive(Debug)]
pub enum Request {
    Nothing,
    /// Leave the program.
    Quit,
    /// Load every entry from the store.
    LoadAll,
    /// Store a new entry.
    Insert { title: String, username: String, password: String },
    /// Replace the fields of the entry with this id.
    Update { id: i64, title: String, username: String, password: String },
    /// Remove the entry with this id.
    Delete { id: i64 },
    /// Put this text on the clipboard.
    Copy { text: String },
}

pub ghost enum RequestView {
    Nothing,
    Quit,
    LoadAll,
    Insert { title: Seq<char>, username: Seq<char>, password: Seq<char> },
    Update { id: int, title: Seq<char>, username: Seq<char>, password: Seq<char> },
    Delete { id: int },
    Copy { text: Seq<char> },
}

impl View for Request {
    type V = RequestView;

    open spec fn view(&self) -> RequestView {
        match *self {
            Request::Nothing => RequestView::Nothing,
            Request::Quit => RequestView::Quit,
            Request::LoadAll => RequestView::LoadAll,
            Request::Insert { title, username, password } => RequestView::Insert {
                title: title@,
                username: username@,
                password: password@,
            },
            Request::Update { id, title, username, password } => RequestView::Update {
                id: id as int,
                title: title@,
                username: username@,
                password: password@,
            },
            Request::Delete { id } => RequestView::Delete { id: id as int },
            Request::Copy { text } => RequestView::Copy { text: text@ },
        }
    }
}

/// What came back from the store for a request.
#[derive(Debug)]
pub enum Reply {
    /// Nothing was asked of the store.
    Nothing,
    /// The request was carried out and the entries were not read anew, as
    /// after a delete.
    Done,
    /// The request was carried out; these are the entries after it.
    Loaded(Vec<Entry>),
    /// No entry had the id; these are the entries as they are now.
    Missing(Vec<Entry>),
    /// The request failed and the store is as it was.
    Failed(StoreError),
}

pub ghost enum ReplyView {
    Nothing,
    Done,
    Loaded(Seq<EntryView>),
    Missing(Seq<EntryView>),
    Failed(StoreError),
}

impl View for Reply {
    type V = ReplyView;

    open spec fn view(&self) -> ReplyView {
        match *self {
            Reply::Nothing => ReplyView::Nothing,
            Reply::Done => ReplyView::Done,
            Reply::Loaded(entries) => ReplyView::Loaded(views(entries@)),
            Reply::Missing(entries) => ReplyView::Missing(views(entries@)),
            Reply::Failed(e) => ReplyView::Failed(e),
        }
    }
}

/// The session as mathematical values.
pub ghost struct SessionView {
    pub mode: InputMode,
    /// The selected line of `search_list`.
    pub selected: Option<usize>,
    /// Every entry, as last loaded from the store.
    pub passwords: Seq<EntryView>,
    pub search_text: Seq<char>,
    /// The entries on display: those of `passwords` that `search_text` finds.
    pub search_list: Seq<EntryView>,
    pub new_title: Seq<char>,
    pub new_username: Seq<char>,
    pub new_password: Seq<char>,
    /// The id of the entry that the draft will replace; `None` for a new entry.
    pub edit_id: Option<int>,
}

/// The selection brought into a list of `len` lines: none in an empty list,
/// the first line where nothing was selected, the last line where the
/// selection lay beyond it.
pub open spec fn clamp(selected: Option<usize>, len: nat) -> Option<usize> {
    if len == 0 {
        None
    } else {
        match selected {
            None => Some(0usize),
            Some(i) => if i < len {
                Some(i)
            } else {
                Some((len - 1) as usize)
            },
        }
    }
}

/// The list on display is derived from the entries and the search text, and
/// the selection lies within it.
pub open spec fn consistent(s: SessionView) -> bool {
    &&& s.search_list == matching(s.passwords, s.search_text)
    &&& s.selected == clamp(s.selected, s.search_list.len())
}

/// The session at start: `Normal` mode, nothing typed, nothing loaded.
pub open spec fn initial() -> SessionView {
    SessionView {
        mode: InputMode::Normal,
        selected: None,
        passwords: Seq::empty(),
        search_text: Seq::empty(),
        search_list: Seq::empty(),
        new_title: Seq::empty(),
        new_username: Seq::empty(),
        new_password: Seq::empty(),
        edit_id: None,
    }
}

pub open spec fn with_mode(s: SessionView, mode: InputMode) -> SessionView {
    SessionView { mode, ..s }
}

/// The session with an empty draft.
pub open spec fn clear_draft(s: SessionView) -> SessionView {
    SessionView {
        new_title: Seq::empty(),
        new_username: Seq::empty(),
        new_password: Seq::empty(),
        edit_id: None,
        ..s
    }
}

/// The session after the entries were replaced: the list on display is
/// derived anew and the selection brought into it.
pub open spec fn with_entries(s: SessionView, entries: Seq<EntryView>) -> SessionView {
    let shown = matching(entries, s.search_text);
    SessionView {
        passwords: entries,
        search_list: shown,
        selected: clamp(s.selected, shown.len()),
        ..s
    }
}

/// The session after the search text was replaced.
pub open spec fn with_search(s: SessionView, text: Seq<char>) -> SessionView {
    let shown = matching(s.passwords, text);
    SessionView { search_text: text, search_list: shown, selected: clamp(s.selected, shown.len()), ..s }
}

/// The session with the draft filled from an entry that is to be edited.
pub open spec fn with_draft_of(s: SessionView, e: EntryView) -> SessionView {
    SessionView {
        new_title: e.title,
        new_username: e.username,
        new_password: e.password,
        edit_id: Some(e.id),
        ..s
    }
}

/// What the draft asks of the store when it is confirmed: an update where it
/// came from an existing entry, an insert where it did not.
pub open spec fn commit_request(s: SessionView) -> RequestView {
    match s.edit_id {
        None => RequestView::Insert {
            title: s.new_title,
            username: s.new_username,
            password: s.new_password,
        },
        Some(id) => RequestView::Update {
            id,
            title: s.new_title,
            username: s.new_username,
            password: s.new_password,
        },
    }
}

/// What the session asks of the outside world when `key` is pressed.
pub open spec fn request_of(s: SessionView, key: Key) -> RequestView {
    match s.mode {
        InputMode::Normal => match key {
            Key::Char(c) => if c == 'q' {
                RequestView::Quit
            } else if c == 'l' {
                RequestView::LoadAll
            } else {
                RequestView::Nothing
            },
            _ => RequestView::Nothing,
        },
        InputMode::Submit => match key {
            Key::Enter => commit_request(s),
            _ => RequestView::Nothing,
        },
        InputMode::List => match (key, s.selected) {
            (Key::Char(c), Some(i)) => if i >= s.search_list.len() {
                RequestView::Nothing
            } else if c == 'u' {
                RequestView::Copy { text: s.search_list[i as int].username }
            } else if c == 'p' {
                RequestView::Copy { text: s.search_list[i as int].password }
            } else if c == 'd' {
                RequestView::Delete { id: s.search_list[i as int].id }
            } else {
                RequestView::Nothing
            },
            _ => RequestView::Nothing,
        },
        _ => RequestView::Nothing,
    }
}

/// One of the three text fields of the draft after `key`.
pub open spec fn field_step(
    s: SessionView,
    key: Key,
    field: Seq<char>,
    put: spec_fn(SessionView, Seq<char>) -> SessionView,
    next: Option<InputMode>,
    prev: Option<InputMode>,
) -> SessionView {
    match key {
        Key::Esc => with_mode(clear_draft(s), InputMode::Normal),
        Key::Char(c) => put(s, apply_edit(field, Edit::Put(c))),
        Key::Backspace => put(s, apply_edit(field, Edit::Erase)),
        Key::Tab => match next {
            Some(m) => with_mode(s, m),
            None => s,
        },
        Key::BackTab => match prev {
            Some(m) => with_mode(s, m),
            None => s,
        },
        _ => s,
    }
}

pub open spec fn put_title(s: SessionView, text: Seq<char>) -> SessionView {
    SessionView { new_title: text, ..s }
}

pub open spec fn put_username(s: SessionView, text: Seq<char>) -> SessionView {
    SessionView { new_username: text, ..s }
}

pub open spec fn put_password(s: SessionView, text: Seq<char>) -> SessionView {
    SessionView { new_password: text, ..s }
}

/// The session after `key`, given what the store replied to the request
/// that the key made (`ReplyView::Nothing` where it made none).
pub open spec fn step(s: SessionView, key: Key, reply: ReplyView) -> SessionView {
    match s.mode {
        InputMode::Normal => match key {
            Key::Char(c) => if c == 's' {
                with_mode(s, InputMode::Search)
            } else if c == 'l' {
                match reply {
                    ReplyView::Loaded(entries) => with_mode(with_entries(s, entries), InputMode::List),
                    _ => s,
                }
            } else {
                s
            },
            Key::Insert => with_mode(clear_draft(s), InputMode::Title),
            _ => s,
        },
        InputMode::Title => field_step(
            s,
            key,
            s.new_title,
            |t: SessionView, text: Seq<char>| put_title(t, text),
            Some(InputMode::Username),
            None,
        ),
        InputMode::Username => field_step(
            s,
            key,
            s.new_username,
            |t: SessionView, text: Seq<char>| put_username(t, text),
            Some(InputMode::Password),
            Some(InputMode::Title),
        ),
        InputMode::Password => field_step(
            s,
            key,
            s.new_password,
            |t: SessionView, text: Seq<char>| put_password(t, text),
            Some(InputMode::Submit),
            Some(InputMode::Username),
        ),
        InputMode::Submit => match key {
            Key::Esc => with_mode(clear_draft(s), InputMode::Normal),
            Key::BackTab => with_mode(s, InputMode::Password),
            Key::Enter => match reply {
                ReplyView::Loaded(entries) => with_mode(
                    clear_draft(with_entries(s, entries)),
                    InputMode::Normal,
                ),
                ReplyView::Missing(entries) => with_entries(s, entries),
                _ => s,
            },
            _ => s,
        },
        InputMode::Search => match key {
            Key::Esc => with_mode(s, InputMode::Normal),
            Key::Char(c) => with_search(s, apply_edit(s.search_text, Edit::Put(c))),
            Key::Backspace => with_search(s, apply_edit(s.search_text, Edit::Erase)),
            _ => s,
        },
        InputMode::List => match key {
            Key::Esc => with_mode(s, InputMode::Normal),
            Key::Up => match s.selected {
                Some(i) => if i > 0 {
                    SessionView { selected: Some((i - 1) as usize), ..s }
                } else {
                    s
                },
                None => s,
            },
            Key::Down => match s.selected {
                Some(i) => if i + 1 < s.search_list.len() {
                    SessionView { selected: Some((i + 1) as usize), ..s }
                } else {
                    s
                },
                None => s,
            },
            Key::Char(c) => match s.selected {
                Some(i) => if i >= s.search_list.len() {
                    s
                } else if c == 'd' {
                    match reply {
                        ReplyView::Done => with_entries(
                            s,
                            without_id(s.passwords, s.search_list[i as int].id),
                        ),
                        ReplyView::Missing(entries) => with_entries(s, entries),
                        _ => s,
                    }
                } else if c == 'e' {
                    with_mode(with_draft_of(s, s.search_list[i as int]), InputMode::Title)
                } else {
                    s
                },
                None => s,
            },
            _ => s,
        },
    }
}

/// The entries, the search text, the list on display and the selection.
/// The last two always follow from the first two.
struct Listing {
    passwords: Vec<Entry>,
    search_text: String,
    search_list: Vec<Entry>,
    selected: Option<usize>,
}

impl Listing {
    #[verifier::type_invariant]
    spec fn inv(self) -> bool {
        &&& views(self.search_list@) == matching(views(self.passwords@), self.search_text@)
        &&& self.selected == clamp(self.selected, self.search_list@.len())
    }

    /// The listing of `passwords` under `search_text`, with `selected`
    /// brought into the list on display.
    fn build(passwords: Vec<Entry>, search_text: String, selected: Option<usize>) -> (r: Listing)
        ensures
            r.passwords == passwords,
            r.search_text == search_text,
            views(r.search_list@) == matching(views(passwords@), search_text@),
            r.selected == clamp(selected, r.search_list@.len()),
    {
        let search_list = filter_entries(&passwords, search_text.as_str());
        let selected = clamp_selection(selected, search_list.len());
        Listing { passwords, search_text, search_list, selected }
    }
}

/// The session.
pub struct PassMng {
    mode: InputMode,
    listing: Listing,
    new_title: String,
    new_username: String,
    new_password: String,
    edit_id: Option<i64>,
}

impl View for PassMng {
    type V = SessionView;

    closed spec fn view(&self) -> SessionView {
        SessionView {
            mode: self.mode,
            selected: self.listing.selected,
            passwords: views(self.listing.passwords@),
            search_text: self.listing.search_text@,
            search_list: views(self.listing.search_list@),
            new_title: self.new_title@,
            new_username: self.new_username@,
            new_password: self.new_password@,
            edit_id: match self.edit_id {
                Some(id) => Some(id as int),
                None => None,
            },
        }
    }
}

fn clamp_selection(selected: Option<usize>, len: usize) -> (r: Option<usize>)
    ensures
        r == clamp(selected, len as nat),
{
    if len == 0 {
        None
    } else {
        match selected {
            None => Some(0),
            Some(i) => if i < len {
                Some(i)
            } else {
                Some(len - 1)
            },
        }
    }
}

impl PassMng {
    /// A fresh session: `Normal` mode, nothing typed, nothing loaded.
    pub fn new() -> (r: Self)
        ensures
            r@ == initial(),
    {
        proof {
            empty_search_keeps_all(Seq::<EntryView>::empty());
        }
        let listing = Listing::build(Vec::new(), String::new(), None);
        let r = PassMng {
            mode: InputMode::Normal,
            listing,
            new_title: String::new(),
            new_username: String::new(),
            new_password: String::new(),
            edit_id: None,
        };
        proof {
            assert(r@.passwords =~= Seq::<EntryView>::empty());
            assert(r@.search_list =~= Seq::<EntryView>::empty());
        }
        r
    }

    /// Moves to `mode` and touches nothing else.
    pub fn change_mode(&mut self, mode: InputMode)
        ensures
            final(self)@ == with_mode(old(self)@, mode),
    {
        self.mode = mode
    }

    /// Empties the draft and touches nothing else.
    pub fn clear_fields(&mut self)
        ensures
            final(self)@ == clear_draft(old(self)@),
    {
        self.new_title.clear();
        self.new_username.clear();
        self.new_password.clear();
        self.edit_id = None;
    }

    pub fn mode(&self) -> (r: InputMode)
        ensures
            r == self@.mode,
    {
        self.mode
    }

    /// The selected line of the list on display.
    pub fn selected(&self) -> (r: Option<usize>)
        ensures
            r == self@.selected,
            r == clamp(r, self@.search_list.len()),
    {
        proof {
            use_type_invariant(&self.listing);
        }
        self.listing.selected
    }

    /// Every entry, as last loaded.
    pub fn passwords(&self) -> (r: &Vec<Entry>)
        ensures
            views(r@) == self@.passwords,
    {
        &self.listing.passwords
    }

    /// The entries on display: those whose title holds the search text.
    pub fn search_list(&self) -> (r: &Vec<Entry>)
        ensures
            views(r@) == self@.search_list,
            views(r@) == matching(self@.passwords, self@.search_text),
    {
        proof {
            use_type_invariant(&self.listing);
        }
        &self.listing.search_list
    }

    pub fn search_text(&self) -> (r: &str)
        ensures
            r@ == self@.search_text,
    {
        self.listing.search_text.as_str()
    }

    pub fn new_title(&self) -> (r: &str)
        ensures
            r@ == self@.new_title,
    {
        self.new_title.as_str()
    }

    pub fn new_username(&self) -> (r: &str)
        ensures
            r@ == self@.new_username,
    {
        self.new_username.as_str()
    }

    pub fn new_password(&self) -> (r: &str)
        ensures
            r@ == self@.new_password,
    {
        self.new_password.as_str()
    }

    /// The id of the entry that the draft will replace, if any.
    pub fn edit_id(&self) -> (r: Option<i64>)
        ensures
            match r {
                Some(id) => self@.edit_id == Some(id as int),
                None => self@.edit_id.is_none(),
            },
    {
        self.edit_id
    }

    /// Replaces the entries, derives the list on display anew and brings
    /// the selection into it.
    fn set_entries(&mut self, entries: Vec<Entry>)
        ensures
            final(self)@ == with_entries(old(self)@, views(entries@)),
    {
        let text = self.listing.search_text.clone();
        let selected = self.listing.selected;
        self.listing = Listing::build(entries, text, selected);
    }

    /// Applies one edit to the search text, derives the list on display
    /// anew and brings the selection into it.
    fn edit_search(&mut self, e: Edit)
        ensures
            final(self)@ == with_search(old(self)@, apply_edit(old(self)@.search_text, e)),
    {
        let mut spare = Listing::build(Vec::new(), String::new(), None);
        proof {
            use_type_invariant(&self.listing);
            use_type_invariant(&spare);
        }
        std::mem::swap(&mut self.listing, &mut spare);
        let Listing { passwords, search_text, search_list: _, selected } = spare;
        let mut text = search_text;
        edit_buffer(&mut text, e);
        self.listing = Listing::build(passwords, text, selected);
    }

    /// What the outside world is asked to do for `key`. The session itself
    /// does not change until the reply is handed to `advance`.
    pub fn request(&self, key: Key) -> (r: Request)
        ensures
            r@ == request_of(self@, key),
    {
        match self.mode {
            InputMode::Normal => match key {
                Key::Char(c) => if c == 'q' {
                    Request::Quit
                } else if c == 'l' {
                    Request::LoadAll
                } else {
                    Request::Nothing
                },
                _ => Request::Nothing,
            },
            InputMode::Submit => match key {
                Key::Enter => match self.edit_id {
                    None => Request::Insert {
                        title: self.new_title.clone(),
                        username: self.new_username.clone(),
                        password: self.new_password.clone(),
                    },
                    Some(id) => Request::Update {
                        id,
                        title: self.new_title.clone(),
                        username: self.new_username.clone(),
                        password: self.new_password.clone(),
                    },
                },
                _ => Request::Nothing,
            },
            InputMode::List => match (key, self.listing.selected) {
                (Key::Char(c), Some(i)) => if i >= self.listing.search_list.len() {
                    Request::Nothing
                } else if c == 'u' {
                    Request::Copy { text: self.listing.search_list[i].username.clone() }
                } else if c == 'p' {
                    Request::Copy { text: self.listing.search_list[i].password.clone() }
                } else if c == 'd' {
                    Request::Delete { id: self.listing.search_list[i].id }
                } else {
                    Request::Nothing
                },
                _ => Request::Nothing,
            },
            _ => Request::Nothing,
        }
    }

    /// Takes the session one key further, given the store's reply to the
    /// request that the key made.
    pub fn advance(&mut self, key: Key, reply: Reply)
        ensures
            final(self)@ == step(old(self)@, key, reply@),
            consistent(final(self)@),
    {
        proof {
            use_type_invariant(&self.listing);
        }
        match self.mode {
            InputMode::Normal => match key {
                Key::Char(c) => if c == 's' {
                    self.mode = InputMode::Search;
                } else if c == 'l' {
                    match reply {
                        Reply::Loaded(entries) => {
                            self.set_entries(entries);
                            self.mode = InputMode::List;
                        },
                        _ => {},
                    }
                },
                Key::Insert => {
                    self.clear_fields();
                    self.mode = InputMode::Title;
                },
                _ => {},
            },
            InputMode::Title => match key {
                Key::Esc => {
                    self.clear_fields();
                    self.mode = InputMode::Normal;
                },
                Key::Char(c) => edit_buffer(&mut self.new_title, Edit::Put(c)),
                Key::Backspace => edit_buffer(&mut self.new_title, Edit::Erase),
                Key::Tab => {
                    self.mode = InputMode::Username;
                },
                _ => {},
            },
            InputMode::Username => match key {
                Key::Esc => {
                    self.clear_fields();
                    self.mode = InputMode::Normal;
                },
                Key::Char(c) => edit_buffer(&mut self.new_username, Edit::Put(c)),
                Key::Backspace => edit_buffer(&mut self.new_username, Edit::Erase),
                Key::Tab => {
                    self.mode = InputMode::Password;
                },
                Key::BackTab => {
                    self.mode = InputMode::Title;
                },
                _ => {},
            },
            InputMode::Password => match key {
                Key::Esc => {
                    self.clear_fields();
                    self.mode = InputMode::Normal;
                },
                Key::Char(c) => edit_buffer(&mut self.new_password, Edit::Put(c)),
                Key::Backspace => edit_buffer(&mut self.new_password, Edit::Erase),
                Key::Tab => {
                    self.mode = InputMode::Submit;
                },
                Key::BackTab => {
                    self.mode = InputMode::Username;
                },
                _ => {},
            },
            InputMode::Submit => match key {
                Key::Esc => {
                    self.clear_fields();
                    self.mode = InputMode::Normal;
                },
                Key::BackTab => {
                    self.mode = InputMode::Password;
                },
                Key::Enter => match reply {
                    Reply::Loaded(entries) => {
                        self.set_entries(entries);
                        self.clear_fields();
                        self.mode = InputMode::Normal;
                    },
                    Reply::Missing(entries) => {
                        self.set_entries(entries);
                    },
                    _ => {},
                },
                _ => {},
            },
            InputMode::Search => match key {
                Key::Esc => {
                    self.mode = InputMode::Normal;
                },
                Key::Char(c) => self.edit_search(Edit::Put(c)),
                Key::Backspace => self.edit_search(Edit::Erase),
                _ => {},
            },
            InputMode::List => match key {
                Key::Esc => {
                    self.mode = InputMode::Normal;
                },
                Key::Up => match self.listing.selected {
                    Some(i) => if i > 0 {
                        self.listing.selected = Some(i - 1);
                    },
                    None => {},
                },
                Key::Down => match self.listing.selected {
                    Some(i) => if i < self.listing.search_list.len() && i + 1 < self.listing.search_list.len() {
                        self.listing.selected = Some(i + 1);
                    },
                    None => {},
                },
                Key::Char(c) => match self.listing.selected {
                    Some(i) => if i >= self.listing.search_list.len() {
                    } else if c == 'd' {
                        match reply {
                            Reply::Done => {
                                let id = self.listing.search_list[i].id;
                                let rest = remove_entry(&self.listing.passwords, id);
                                self.set_entries(rest);
                            },
                            Reply::Missing(entries) => {
                                self.set_entries(entries);
                            },
                            _ => {},
                        }
                    } else if c == 'e' {
                        let e = self.listing.search_list[i].clone();
                        self.new_title = e.title;
                        self.new_username = e.username;
                        self.new_password = e.password;
                        self.edit_id = Some(e.id);
                        self.mode = InputMode::Title;
                    },
                    None => {},
                },
                _ => {},
            },
        }
    }
}

/// Whether `reply` is one that the store can give to `request`. A request
/// that needs no store gets `Nothing`. An empty title is answered with
/// `ValidationError` and nothing else is. Lists that the store hands out
/// are well formed, and what fails otherwise is the file or the passphrase.
pub open spec fn answers(request: RequestView, reply: ReplyView) -> bool {
    match request {
        RequestView::Nothing => reply is Nothing,
        RequestView::Quit => reply is Nothing,
        RequestView::Copy { .. } => reply is Nothing,
        RequestView::LoadAll => match reply {
            ReplyView::Loaded(entries) => well_formed(entries),
            ReplyView::Failed(e) => !e.recoverable(),
            _ => false,
        },
        RequestView::Insert { title, .. } => if title.len() == 0 {
            reply == ReplyView::Failed(StoreError::ValidationError)
        } else {
            match reply {
                ReplyView::Loaded(entries) => well_formed(entries),
                ReplyView::Failed(e) => !e.recoverable(),
                _ => false,
            }
        },
        RequestView::Update { title, .. } => if title.len() == 0 {
            reply == ReplyView::Failed(StoreError::ValidationError)
        } else {
            match reply {
                ReplyView::Loaded(entries) => well_formed(entries),
                ReplyView::Missing(entries) => well_formed(entries),
                ReplyView::Failed(e) => !e.recoverable(),
                _ => false,
            }
        },
        RequestView::Delete { .. } => match reply {
            ReplyView::Done => true,
            ReplyView::Missing(entries) => well_formed(entries),
            ReplyView::Failed(e) => !e.recoverable(),
            _ => false,
        },
    }
}

/// The error that a reply carries, if it carries one.
pub open spec fn failure_of(reply: ReplyView) -> Option<StoreError> {
    match reply {
        ReplyView::Failed(e) => Some(e),
        _ => None,
    }
}

/// Whether the request is one for the store.
pub open spec fn asks_store(request: RequestView) -> bool {
    !(request is Nothing || request is Quit || request is Copy)
}

/// Whether the entries are read anew once the request's own call on the
/// store has ended in `outcome`: after an insert or an update that the store
/// took, after a call for an id that the store did not have, and for a plain
/// load, which has no call of its own and counts as taken. Not after a
/// delete that the store took, nor after any other failure.
pub open spec fn reload_of(request: RequestView, outcome: Result<(), StoreError>) -> bool {
    asks_store(request) && match outcome {
        Ok(()) => !(request is Delete),
        Err(e) => e == StoreError::NotFoundError,
    }
}

/// The reply to a request whose own call on the store ended in `outcome`
/// and after which the entries, where they were read anew, came back as
/// `reloaded`:
/// - `Nothing` where the request is none for the store;
/// - `Done` after a delete that the store took;
/// - `Loaded` after another request that the store took, with the entries
///   as read;
/// - `Missing` after a call for an id that the store did not have, with
///   the entries as read;
/// - `Failed` with the error of the read where the read failed, and with
///   the error of the call after every other failure.
pub open spec fn reply_of(
    request: RequestView,
    outcome: Result<(), StoreError>,
    reloaded: Option<Result<Seq<EntryView>, StoreError>>,
) -> ReplyView {
    if !asks_store(request) {
        ReplyView::Nothing
    } else {
        match outcome {
            Ok(()) => if request is Delete {
                ReplyView::Done
            } else {
                match reloaded {
                    Some(Ok(entries)) => ReplyView::Loaded(entries),
                    Some(Err(e)) => ReplyView::Failed(e),
                    None => ReplyView::Done,
                }
            },
            Err(e) => if e == StoreError::NotFoundError {
                match reloaded {
                    Some(Ok(entries)) => ReplyView::Missing(entries),
                    Some(Err(read)) => ReplyView::Failed(read),
                    None => ReplyView::Failed(e),
                }
            } else {
                ReplyView::Failed(e)
            },
        }
    }
}

/// What a read of the entries gave, as mathematical values.
pub open spec fn reloaded_view(reloaded: Option<Result<Vec<Entry>, StoreError>>) -> Option<
    Result<Seq<EntryView>, StoreError>,
> {
    match reloaded {
        None => None,
        Some(Ok(entries)) => Some(Ok(views(entries@))),
        Some(Err(e)) => Some(Err(e)),
    }
}

/// Whether the entries are to be read anew after the request's own call on
/// the store ended in `outcome`.
pub fn needs_reload(request: &Request, outcome: &Result<(), StoreError>) -> (r: bool)
    ensures
        r == reload_of(request@, *outcome),
{
    match request {
        Request::Nothing => false,
        Request::Quit => false,
        Request::Copy { .. } => false,
        Request::Delete { .. } => match outcome {
            Err(StoreError::NotFoundError) => true,
            _ => false,
        },
        _ => match outcome {
            Ok(()) => true,
            Err(StoreError::NotFoundError) => true,
            Err(_) => false,
        },
    }
}

/// The reply to a request, given how its own call on the store ended and
/// what a read of the entries gave, where there was one.
pub fn reply_after(
    request: &Request,
    outcome: Result<(), StoreError>,
    reloaded: Option<Result<Vec<Entry>, StoreError>>,
) -> (r: Reply)
    ensures
        r@ == reply_of(request@, outcome, reloaded_view(reloaded)),
{
    match request {
        Request::Nothing => Reply::Nothing,
        Request::Quit => Reply::Nothing,
        Request::Copy { .. } => Reply::Nothing,
        _ => match outcome {
            Ok(()) => match request {
                Request::Delete { .. } => Reply::Done,
                _ => match reloaded {
                    Some(Ok(entries)) => Reply::Loaded(entries),
                    Some(Err(e)) => Reply::Failed(e),
                    None => Reply::Done,
                },
            },
            Err(StoreError::NotFoundError) => match reloaded {
                Some(Ok(entries)) => Reply::Missing(entries),
                Some(Err(read)) => Reply::Failed(read),
                None => Reply::Failed(StoreError::NotFoundError),
            },
            Err(e) => Reply::Failed(e),
        },
    }
}

/// Carries a request out on the store: makes the request's own call, reads
/// the entries anew where `reload_of` says so, and replies as `reply_of`
/// says for what the store returned.
pub fn perform(db: &Database, request: &Request) -> (r: Reply)
    ensures
        answers(request@, r@),
        exists|outcome: Result<(), StoreError>, reloaded: Option<Result<Seq<EntryView>, StoreError>>|
            #![trigger reply_of(request@, outcome, reloaded)]
            r@ == reply_of(request@, outcome, reloaded) && reloaded.is_some() == reload_of(
                request@,
                outcome,
            ),
{
    let outcome: Result<(), StoreError> = match request {
        Request::Insert { title, username, password } => {
            match db.insert(title.as_str(), username.as_str(), password.as_str()) {
                Ok(_) => Ok(()),
                Err(e) => Err(e),
            }
        },
        Request::Update { id, title, username, password } => {
            db.update(*id, title.as_str(), username.as_str(), password.as_str())
        },
        Request::Delete { id } => db.delete(*id),
        _ => Ok(()),
    };
    let reloaded = if needs_reload(request, &outcome) {
        Some(db.load_all())
    } else {
        None
    };
    let ghost ended = outcome;
    let ghost read = reloaded_view(reloaded);
    let r = reply_after(request, outcome, reloaded);
    proof {
        assert(r@ == reply_of(request@, ended, read) && read.is_some() == reload_of(
            request@,
            ended,
        ));
    }
    r
}

/// Handles one key against the store: asks the store for what the key
/// requests and takes the session one step further with the reply. Returns
/// the request, for what is left to the caller (`Quit`, `Copy`), and the
/// store's error where the request failed. The reply is the one that
/// `reply_of` gives for what the store returned.
pub fn handle_key(state: &mut PassMng, db: &Database, key: Key) -> (r: (Request, Option<StoreError>))
    ensures
        consistent(final(state)@),
        r.0@ == request_of(old(state)@, key),
        exists|outcome: Result<(), StoreError>, reloaded: Option<Result<Seq<EntryView>, StoreError>>|
            #![trigger reply_of(r.0@, outcome, reloaded)]
            {
                let reply = reply_of(r.0@, outcome, reloaded);
                &&& reloaded.is_some() == reload_of(r.0@, outcome)
                &&& answers(r.0@, reply)
                &&& final(state)@ == step(old(state)@, key, reply)
                &&& r.1 == failure_of(reply)
            },
{
    let request = state.request(key);
    let reply = perform(db, &request);
    let failure = match &reply {
        Reply::Failed(e) => Some(*e),
        _ => None,
    };
    let ghost answer = reply@;
    state.advance(key, reply);
    proof {
        let (outcome, reloaded) = choose|
            outcome: Result<(), StoreError>,
            reloaded: Option<Result<Seq<EntryView>, StoreError>>,
        |
            #![trigger reply_of(request@, outcome, reloaded)]
            answer == reply_of(request@, outcome, reloaded) && reloaded.is_some() == reload_of(
                request@,
                outcome,
            );
        let reply = reply_of(request@, outcome, reloaded);
        assert(reloaded.is_some() == reload_of(request@, outcome) && answers(request@, reply)
            && final(state)@ == step(old(state)@, key, reply) && failure == failure_of(reply));
    }
    (request, failure)
}

} // verus!
