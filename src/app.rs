//! The interface's model and how gateway events change it. Slow gateway work is not done here: the
//! controller answers with a `Command` that the caller carries out, and the
//! outcome comes back as an event.

use vstd::prelude::*;
use crate::config::Config;
use crate::keyed::KeyedVec;
use crate::order::{chats_sorted, sort_chats};
use crate::text::{decimal, push_decimal, push_text, text_of};
use crate::theme::Theme;
use crate::types::{Chat, Message, WhatsAppEvent};
use vstd::seq_lib::to_multiset_len;

verus! {

broadcast use vstd::seq_lib::group_to_multiset_ensures;

#[derive(Debug, Clone, Copy, PartialEq, Eq, Structural)]
pub enum AppState {
    Authenticating,
    Ready,
    Disconnected,
}

/// The pane that receives keys.
#[derive(Debug, Clone, Copy, PartialEq, Eq, Structural)]
pub enum FocusedWidget {
    ChatList,
    MessageView,
    Input,
}

/// Which chats the list shows.
#[derive(Debug, Clone, Copy, PartialEq, Eq, Structural)]
pub enum ChatListView {
    /// Chats that are not archived.
    Normal,
    /// Archived chats only.
    Archived,
}

/// A rectangle of terminal cells.
#[derive(Debug, Clone, Copy, PartialEq, Eq, Structural)]
pub struct Rect {
    pub x: u16,
    pub y: u16,
    pub width: u16,
    pub height: u16,
}

/// Work that the controller asks its caller to carry out.
#[derive(Debug, Clone, PartialEq)]
pub enum Command {
    Nothing,
    /// Fetch the chat list in the background and post the outcome.
    LoadChats,
    /// Fetch the latest messages of this chat in the background and post the outcome.
    LoadMessages(String),
    /// Send this text to this chat and report the outcome with `finish_send`.
    SendMessage { chat_id: String, text: String },
    /// Leave the program.
    Quit,
}

/// How many messages one fetch asks for.
pub const MESSAGE_PAGE: usize = 50;

/// Seconds between two refreshes of the open chat.
pub const REFRESH_INTERVAL_SECS: u64 = 30;

pub open spec fn connecting_status() -> Seq<char> {
    "Connecting to WhatsApp..."@
}

pub open spec fn qr_status() -> Seq<char> {
    "Scan QR code to authenticate"@
}

pub open spec fn authenticated_status() -> Seq<char> {
    "Authenticated! Loading chats..."@
}

pub open spec fn syncing_status() -> Seq<char> {
    "Syncing chats... First sync after login can take 3-5 minutes with many contacts"@
}

pub open spec fn disconnected_status() -> Seq<char> {
    "Disconnected. Reconnecting\u{2026}"@
}

pub open spec fn chats_loaded_status(n: nat) -> Seq<char> {
    "Ready \u{2014} "@ + decimal(n) + " chats loaded"@
}

pub open spec fn messages_status(name: Seq<char>, n: nat) -> Seq<char> {
    name + " \u{2014} "@ + decimal(n) + " messages"@
}

pub open spec fn cached_status(name: Seq<char>, n: nat) -> Seq<char> {
    messages_status(name, n) + " (cached)"@
}

pub open spec fn loading_status(name: Seq<char>) -> Seq<char> {
    "Loading "@ + name + " messages\u{2026}"@
}

pub open spec fn error_status(msg: Seq<char>) -> Seq<char> {
    "\u{26a0}\u{fe0f}  "@ + msg
}

/// `k` is the first position of a chat with identifier `id`.
pub open spec fn first_with_id(s: Seq<Chat>, id: Seq<char>, k: int) -> bool {
    &&& 0 <= k < s.len()
    &&& s[k].id@ == id
    &&& forall|j: int| 0 <= j < k ==> s[j].id@ != id
}

pub open spec fn has_chat(s: Seq<Chat>, id: Seq<char>) -> bool {
    exists|k: int| first_with_id(s, id, k)
}

pub open spec fn chat_index(s: Seq<Chat>, id: Seq<char>) -> int {
    choose|k: int| first_with_id(s, id, k)
}

/// A chat after a message arrived in it.
pub open spec fn chat_after_message(c: Chat, m: Message) -> Chat {
    Chat {
        last_message: Some(m.body),
        timestamp: m.timestamp,
        unread_count: if m.from_me || c.unread_count == u32::MAX {
            c.unread_count
        } else {
            (c.unread_count + 1) as u32
        },
        ..c
    }
}

/// The chat list after a message arrived, before it is put in order again.
pub open spec fn chats_after_message(s: Seq<Chat>, m: Message) -> Seq<Chat> {
    if has_chat(s, m.chat_id@) {
        let k = chat_index(s, m.chat_id@);
        s.update(k, chat_after_message(s[k], m))
    } else {
        s
    }
}

/// The chat list after an update of one chat, before it is put in order again.
pub open spec fn chats_after_update(s: Seq<Chat>, c: Chat) -> Seq<Chat> {
    if has_chat(s, c.id@) {
        s.update(chat_index(s, c.id@), c)
    } else {
        s.push(c)
    }
}

/// The messages held for `id`, or none.
pub open spec fn buffer_or_empty(b: Map<Seq<char>, Vec<Message>>, id: Seq<char>) -> Seq<Message> {
    if b.contains_key(id) {
        b[id]@
    } else {
        Seq::empty()
    }
}

pub proof fn lemma_first_unique(s: Seq<Chat>, id: Seq<char>, k: int)
    requires
        first_with_id(s, id, k),
    ensures
        has_chat(s, id),
        chat_index(s, id) == k,
{
    let c = chat_index(s, id);
    assert(first_with_id(s, id, c));
    if c < k {
        assert(s[c].id@ != id);
    } else if c > k {
        assert(s[k].id@ != id);
    }
}

/// Finds the first chat with identifier `id`.
pub fn find_chat(chats: &Vec<Chat>, id: &String) -> (r: Option<usize>)
    ensures
        r matches Some(k) ==> first_with_id(chats@, id@, k as int) && chat_index(chats@, id@) == k,
        r is None ==> !has_chat(chats@, id@) && forall|j: int| 0 <= j < chats@.len() ==> chats@[j].id@ != id@,
{
    let mut k: usize = 0;
    while k < chats.len()
        invariant
            k <= chats@.len(),
            forall|j: int| 0 <= j < k ==> chats@[j].id@ != id@,
        decreases chats@.len() - k,
    {
        if chats[k].id == *id {
            proof {
                lemma_first_unique(chats@, id@, k as int);
            }
            return Some(k);
        }
        k = k + 1;
    }
    None
}

/// The model the interface shows: what has been seen of the gateway, and
/// the state of each pane.
pub struct App {
    pub theme: Theme,
    pub state: AppState,
    /// Kept newest first, ties by identifier.
    pub chats: Vec<Chat>,
    pub current_chat_id: Option<String>,
    /// Messages of each chat that has been loaded, by chat identifier.
    pub messages: KeyedVec<Vec<Message>>,
    pub focused: FocusedWidget,
    pub chat_list_view: ChatListView,
    /// Index of the selected chat in `chats`.
    pub selected: Option<usize>,
    /// First row of the chat list that is on screen.
    pub chat_list_scroll: usize,
    /// Where the chat list was last drawn, for mouse hit-testing.
    pub chat_list_area: Rect,
    /// Lines of the message pane scrolled by hand; zero follows the newest.
    pub message_scroll: u16,
    pub input_buffer: String,
    pub qr_code: Option<String>,
    pub status_message: String,
}

/// A selection that points into a list of `len` chats (or at the first row).
pub open spec fn selection_ok(sel: Option<usize>, len: nat) -> bool {
    sel matches Some(i) ==> (i == 0 || i < len)
}

/// The selection points at one of `len` chats.
pub open spec fn points_at_chat(sel: Option<usize>, len: nat) -> bool {
    sel is Some && sel.unwrap() < len
}

/// What gateway events never change: the panes' own state.
pub open spec fn panes_kept(a: App, b: App) -> bool {
    &&& b.theme == a.theme
    &&& b.current_chat_id == a.current_chat_id
    &&& b.focused == a.focused
    &&& b.chat_list_view == a.chat_list_view
    &&& b.chat_list_scroll == a.chat_list_scroll
    &&& b.chat_list_area == a.chat_list_area
    &&& b.message_scroll == a.message_scroll
    &&& b.input_buffer == a.input_buffer
}

/// Chats, selection and message buffers are unchanged.
pub open spec fn mirror_kept(a: App, b: App) -> bool {
    &&& b.chats == a.chats
    &&& b.selected == a.selected
    &&& b.messages == a.messages
}

/// After a re-sort, the selection points at a chat with the identifier of the
/// chat it pointed at before.
pub open spec fn selection_follows(a: App, b: App) -> bool {
    &&& points_at_chat(a.selected, a.chats@.len()) ==> (points_at_chat(b.selected, b.chats@.len())
        && b.chats@[b.selected.unwrap() as int].id@ == a.chats@[a.selected.unwrap() as int].id@)
    &&& !points_at_chat(a.selected, a.chats@.len()) ==> b.selected == a.selected
}

/// `id` is the identifier of the open chat.
pub open spec fn is_current(a: App, id: Seq<char>) -> bool {
    a.current_chat_id is Some && a.current_chat_id.unwrap()@ == id
}

/// The selection after the chat list was replaced by `len` chats.
pub open spec fn selection_after_load(sel: Option<usize>, len: nat) -> Option<usize> {
    if sel is None {
        if len > 0 { Some(0usize) } else { None }
    } else if selection_ok(sel, len) {
        sel
    } else {
        Some(0usize)
    }
}

/// The chat is listed in this view.
pub open spec fn in_view(c: Chat, v: ChatListView) -> bool {
    match v {
        ChatListView::Normal => !c.archived,
        ChatListView::Archived => c.archived,
    }
}

/// The chats that a view lists, in list order.
pub open spec fn visible_chats(s: Seq<Chat>, v: ChatListView) -> Seq<Chat>
    decreases s.len(),
{
    if s.len() == 0 {
        Seq::empty()
    } else {
        let r = visible_chats(s.drop_last(), v);
        if in_view(s.last(), v) {
            r.push(s.last())
        } else {
            r
        }
    }
}

pub open spec fn sat_sub(a: int, b: int) -> int {
    if a >= b { a - b } else { 0 }
}

pub proof fn lemma_visible_len(s: Seq<Chat>, v: ChatListView)
    ensures
        visible_chats(s, v).len() <= s.len(),
    decreases s.len(),
{
    if s.len() > 0 {
        lemma_visible_len(s.drop_last(), v);
    }
}

/// The chats a view lists from a prefix of `s` come first in what it lists from `s`.
pub proof fn lemma_visible_prefix(s: Seq<Chat>, v: ChatListView, n: int)
    requires
        0 <= n <= s.len(),
    ensures
        visible_chats(s.take(n), v).len() <= visible_chats(s, v).len(),
        forall|k: int| 0 <= k < visible_chats(s.take(n), v).len() ==> #[trigger] visible_chats(s, v)[k]
            == visible_chats(s.take(n), v)[k],
    decreases s.len(),
{
    if n == s.len() {
        assert(s.take(n) =~= s);
    } else {
        lemma_visible_prefix(s.drop_last(), v, n);
        assert(s.drop_last().take(n) =~= s.take(n));
    }
}

impl App {
    pub open spec fn wf(&self) -> bool {
        &&& chats_sorted(self.chats@)
        &&& self.messages.wf()
        &&& selection_ok(self.selected, self.chats@.len())
    }

    pub fn new(_config: Config) -> (r: App)
        ensures
            r.wf(),
            r.theme == crate::theme::terminal_theme(),
            r.state == AppState::Authenticating,
            r.chats@.len() == 0,
            r.current_chat_id is None,
            r.messages@ == Map::<Seq<char>, Vec<Message>>::empty(),
            r.focused == FocusedWidget::ChatList,
            r.chat_list_view == ChatListView::Normal,
            r.selected is None,
            r.chat_list_scroll == 0,
            r.chat_list_area == (Rect { x: 0, y: 0, width: 0, height: 0 }),
            r.message_scroll == 0,
            r.input_buffer@.len() == 0,
            r.qr_code is None,
            r.status_message@ == connecting_status(),
    {
        App {
            theme: Theme::terminal(),
            state: AppState::Authenticating,
            chats: Vec::new(),
            current_chat_id: None,
            messages: KeyedVec::new(),
            focused: FocusedWidget::ChatList,
            chat_list_view: ChatListView::Normal,
            selected: None,
            chat_list_scroll: 0,
            chat_list_area: Rect { x: 0, y: 0, width: 0, height: 0 },
            message_scroll: 0,
            input_buffer: String::new(),
            qr_code: None,
            status_message: text_of("Connecting to WhatsApp..."),
        }
    }

    /// The identifier of the selected chat, if the selection points at one.
    fn selected_chat_id(&self) -> (r: Option<String>)
        ensures
            points_at_chat(self.selected, self.chats@.len()) ==> (r is Some && r.unwrap()@
                == self.chats@[self.selected.unwrap() as int].id@),
            !points_at_chat(self.selected, self.chats@.len()) ==> r is None,
    {
        match self.selected {
            Some(i) => {
                if i < self.chats.len() {
                    Some(self.chats[i].id.clone())
                } else {
                    None
                }
            },
            None => None,
        }
    }

    /// Puts the chats in order again; the selection then points at the
    /// first chat with identifier `keep`, where one is given.
    fn resort_keeping(&mut self, keep: Option<String>)
        requires
            keep matches Some(x) ==> exists|i: int| 0 <= i < old(self).chats@.len() && old(self).chats@[i].id@ == x@,
            selection_ok(old(self).selected, old(self).chats@.len()),
        ensures
            chats_sorted(final(self).chats@),
            final(self).chats@.to_multiset() == old(self).chats@.to_multiset(),
            keep matches Some(x) ==> (final(self).selected matches Some(j) && j < final(self).chats@.len()
                && final(self).chats@[j as int].id@ == x@),
            keep is None ==> final(self).selected == old(self).selected,
            selection_ok(final(self).selected, final(self).chats@.len()),
            final(self).theme == old(self).theme,
            final(self).state == old(self).state,
            final(self).current_chat_id == old(self).current_chat_id,
            final(self).messages == old(self).messages,
            final(self).focused == old(self).focused,
            final(self).chat_list_view == old(self).chat_list_view,
            final(self).chat_list_scroll == old(self).chat_list_scroll,
            final(self).chat_list_area == old(self).chat_list_area,
            final(self).message_scroll == old(self).message_scroll,
            final(self).input_buffer == old(self).input_buffer,
            final(self).qr_code == old(self).qr_code,
            final(self).status_message == old(self).status_message,
    {
        let mut taken: Vec<Chat> = Vec::new();
        std::mem::swap(&mut taken, &mut self.chats);
        let ghost before = taken@;
        self.chats = sort_chats(taken);
        proof {
            to_multiset_len(before);
            to_multiset_len(self.chats@);
        }
        match keep {
            Some(x) => {
                proof {
                    let i = choose|i: int| 0 <= i < before.len() && before[i].id@ == x@;
                    assert(before.to_multiset().count(before[i]) > 0);
                    assert(self.chats@.contains(before[i]));
                    let j = choose|j: int| 0 <= j < self.chats@.len() && self.chats@[j] == before[i];
                    assert(self.chats@[j].id@ == x@);
                }
                let found = find_chat(&self.chats, &x);
                match found {
                    Some(j) => {
                        self.selected = Some(j);
                    },
                    None => {},
                }
            },
            None => {},
        }
    }
}


impl App {
    /// Applies one event of the event bus to the model. The returned command
    /// names the background work the event calls for.
    pub fn handle_whatsapp_event(&mut self, event: WhatsAppEvent) -> (cmd: Command)
        requires
            old(self).wf(),
        ensures
            final(self).wf(),
            panes_kept(*old(self), *final(self)),
            cmd == (match event {
                WhatsAppEvent::Ready => Command::LoadChats,
                _ => Command::Nothing,
            }),
            match event {
                WhatsAppEvent::QRCode(q) => {
                    &&& mirror_kept(*old(self), *final(self))
                    &&& final(self).state == old(self).state
                    &&& final(self).qr_code == Some(q)
                    &&& final(self).status_message@ == qr_status()
                },
                WhatsAppEvent::Authenticated => {
                    &&& mirror_kept(*old(self), *final(self))
                    &&& final(self).state == old(self).state
                    &&& final(self).qr_code is None
                    &&& final(self).status_message@ == authenticated_status()
                },
                WhatsAppEvent::Ready => {
                    &&& mirror_kept(*old(self), *final(self))
                    &&& final(self).state == AppState::Ready
                    &&& final(self).qr_code is None
                    &&& final(self).status_message@ == syncing_status()
                },
                WhatsAppEvent::ChatsLoaded(cs) => {
                    &&& final(self).chats@.to_multiset() == cs@.to_multiset()
                    &&& final(self).selected == selection_after_load(old(self).selected, cs@.len())
                    &&& final(self).messages == old(self).messages
                    &&& final(self).state == AppState::Ready
                    &&& final(self).qr_code == old(self).qr_code
                    &&& final(self).status_message@ == chats_loaded_status(cs@.len())
                },
                WhatsAppEvent::MessageReceived(m) => {
                    &&& final(self).chats@.to_multiset() == chats_after_message(old(self).chats@, m).to_multiset()
                    &&& selection_follows(*old(self), *final(self))
                    &&& final(self).messages@ == old(self).messages@.insert(m.chat_id@, final(self).messages@[m.chat_id@])
                    &&& final(self).messages@[m.chat_id@]@ == buffer_or_empty(old(self).messages@, m.chat_id@).push(m)
                    &&& final(self).state == old(self).state
                    &&& final(self).qr_code == old(self).qr_code
                    &&& final(self).status_message == old(self).status_message
                },
                WhatsAppEvent::ChatUpdated(c) => {
                    &&& final(self).chats@.to_multiset() == chats_after_update(old(self).chats@, c).to_multiset()
                    &&& selection_follows(*old(self), *final(self))
                    &&& final(self).messages == old(self).messages
                    &&& final(self).state == old(self).state
                    &&& final(self).qr_code == old(self).qr_code
                    &&& final(self).status_message == old(self).status_message
                },
                WhatsAppEvent::MessagesLoaded(cid, ms) => {
                    &&& final(self).chats == old(self).chats
                    &&& final(self).selected == old(self).selected
                    &&& final(self).messages@ == old(self).messages@.insert(cid@, ms)
                    &&& final(self).state == old(self).state
                    &&& final(self).qr_code == old(self).qr_code
                    &&& (is_current(*old(self), cid@) && has_chat(old(self).chats@, cid@)) ==> final(self).status_message@
                        == messages_status(old(self).chats@[chat_index(old(self).chats@, cid@)].name@, ms@.len())
                    &&& !(is_current(*old(self), cid@) && has_chat(old(self).chats@, cid@)) ==> final(self).status_message
                        == old(self).status_message
                },
                WhatsAppEvent::Disconnected => {
                    &&& mirror_kept(*old(self), *final(self))
                    &&& final(self).state == AppState::Disconnected
                    &&& final(self).qr_code == old(self).qr_code
                    &&& final(self).status_message@ == disconnected_status()
                },
                WhatsAppEvent::Error(e) => {
                    &&& mirror_kept(*old(self), *final(self))
                    &&& final(self).state == old(self).state
                    &&& final(self).qr_code == old(self).qr_code
                    &&& final(self).status_message@ == error_status(e@)
                },
            },
    {
        match event {
            WhatsAppEvent::QRCode(q) => {
                self.qr_code = Some(q);
                self.status_message = text_of("Scan QR code to authenticate");
                Command::Nothing
            },
            WhatsAppEvent::Authenticated => {
                self.qr_code = None;
                self.status_message = text_of("Authenticated! Loading chats...");
                Command::Nothing
            },
            WhatsAppEvent::Ready => {
                self.state = AppState::Ready;
                self.qr_code = None;
                self.status_message = text_of(
                    "Syncing chats... First sync after login can take 3-5 minutes with many contacts",
                );
                Command::LoadChats
            },
            WhatsAppEvent::ChatsLoaded(cs) => {
                self.on_chats_loaded(cs);
                Command::Nothing
            },
            WhatsAppEvent::MessageReceived(m) => {
                self.on_message_received(m);
                Command::Nothing
            },
            WhatsAppEvent::ChatUpdated(c) => {
                self.on_chat_updated(c);
                Command::Nothing
            },
            WhatsAppEvent::MessagesLoaded(cid, ms) => {
                self.on_messages_loaded(cid, ms);
                Command::Nothing
            },
            WhatsAppEvent::Disconnected => {
                self.state = AppState::Disconnected;
                self.status_message = text_of("Disconnected. Reconnecting\u{2026}");
                Command::Nothing
            },
            WhatsAppEvent::Error(e) => {
                let mut s = text_of("\u{26a0}\u{fe0f}  ");
                push_text(&mut s, e.as_str());
                self.status_message = s;
                Command::Nothing
            },
        }
    }

    fn on_chats_loaded(&mut self, cs: Vec<Chat>)
        requires
            old(self).wf(),
        ensures
            final(self).wf(),
            panes_kept(*old(self), *final(self)),
            final(self).chats@.to_multiset() == cs@.to_multiset(),
            final(self).selected == selection_after_load(old(self).selected, cs@.len()),
            final(self).messages == old(self).messages,
            final(self).state == AppState::Ready,
            final(self).qr_code == old(self).qr_code,
            final(self).status_message@ == chats_loaded_status(cs@.len()),
    {
        let ghost input = cs@;
        self.chats = sort_chats(cs);
        proof {
            to_multiset_len(input);
            to_multiset_len(self.chats@);
        }
        let n = self.chats.len();
        match self.selected {
            None => {
                if n > 0 {
                    self.selected = Some(0);
                }
            },
            Some(i) => {
                if !(i == 0 || i < n) {
                    self.selected = Some(0);
                }
            },
        }
        let mut s = text_of("Ready \u{2014} ");
        push_decimal(&mut s, n as u64);
        push_text(&mut s, " chats loaded");
        self.status_message = s;
        self.state = AppState::Ready;
    }

    fn on_message_received(&mut self, m: Message)
        requires
            old(self).wf(),
        ensures
            final(self).wf(),
            panes_kept(*old(self), *final(self)),
            final(self).chats@.to_multiset() == chats_after_message(old(self).chats@, m).to_multiset(),
            selection_follows(*old(self), *final(self)),
            final(self).messages@ == old(self).messages@.insert(m.chat_id@, final(self).messages@[m.chat_id@]),
            final(self).messages@[m.chat_id@]@ == buffer_or_empty(old(self).messages@, m.chat_id@).push(m),
            final(self).state == old(self).state,
            final(self).qr_code == old(self).qr_code,
            final(self).status_message == old(self).status_message,
    {
        let keep = self.selected_chat_id();
        let ghost sel_before = self.chats@;
        match find_chat(&self.chats, &m.chat_id) {
            Some(k) => {
                let c = &self.chats[k];
                let unread = if m.from_me || c.unread_count == u32::MAX {
                    c.unread_count
                } else {
                    c.unread_count + 1
                };
                let updated = Chat {
                    id: c.id.clone(),
                    name: c.name.clone(),
                    is_group: c.is_group,
                    unread_count: unread,
                    archived: c.archived,
                    timestamp: m.timestamp,
                    last_message: Some(m.body.clone()),
                };
                self.chats.set(k, updated);
            },
            None => {},
        }
        proof {
            if points_at_chat(self.selected, sel_before.len()) {
                let i = self.selected.unwrap() as int;
                assert(self.chats@[i].id@ == sel_before[i].id@);
            }
        }
        self.resort_keeping(keep);
        let cid = m.chat_id.clone();
        let prior = self.messages.remove(&cid);
        let mut buf = match prior {
            Some(b) => b,
            None => Vec::new(),
        };
        buf.push(m);
        self.messages.insert(cid, buf);
        proof {
            assert(final(self).messages@ =~= old(self).messages@.insert(m.chat_id@, final(self).messages@[m.chat_id@]));
        }
    }

    fn on_chat_updated(&mut self, c: Chat)
        requires
            old(self).wf(),
        ensures
            final(self).wf(),
            panes_kept(*old(self), *final(self)),
            final(self).chats@.to_multiset() == chats_after_update(old(self).chats@, c).to_multiset(),
            selection_follows(*old(self), *final(self)),
            final(self).messages == old(self).messages,
            final(self).state == old(self).state,
            final(self).qr_code == old(self).qr_code,
            final(self).status_message == old(self).status_message,
    {
        let keep = self.selected_chat_id();
        let ghost before = self.chats@;
        match find_chat(&self.chats, &c.id) {
            Some(k) => {
                self.chats.set(k, c);
            },
            None => {
                self.chats.push(c);
            },
        }
        proof {
            if points_at_chat(self.selected, before.len()) {
                let i = self.selected.unwrap() as int;
                assert(self.chats@[i].id@ == before[i].id@);
            }
        }
        self.resort_keeping(keep);
    }

    fn on_messages_loaded(&mut self, cid: String, ms: Vec<Message>)
        requires
            old(self).wf(),
        ensures
            final(self).wf(),
            panes_kept(*old(self), *final(self)),
            final(self).chats == old(self).chats,
            final(self).selected == old(self).selected,
            final(self).messages@ == old(self).messages@.insert(cid@, ms),
            final(self).state == old(self).state,
            final(self).qr_code == old(self).qr_code,
            (is_current(*old(self), cid@) && has_chat(old(self).chats@, cid@)) ==> final(self).status_message@
                == messages_status(old(self).chats@[chat_index(old(self).chats@, cid@)].name@, ms@.len()),
            !(is_current(*old(self), cid@) && has_chat(old(self).chats@, cid@)) ==> final(self).status_message
                == old(self).status_message,
    {
        let n = ms.len();
        let is_cur = match &self.current_chat_id {
            Some(cur) => *cur == cid,
            None => false,
        };
        if is_cur {
            match find_chat(&self.chats, &cid) {
                Some(k) => {
                    let mut s = self.chats[k].name.clone();
                    push_text(&mut s, " \u{2014} ");
                    push_decimal(&mut s, n as u64);
                    push_text(&mut s, " messages");
                    self.status_message = s;
                },
                None => {},
            }
        }
        self.messages.insert(cid, ms);
    }
}


pub fn chat_in_view(c: &Chat, v: ChatListView) -> (r: bool)
    ensures
        r == in_view(*c, v),
{
    match v {
        ChatListView::Normal => !c.archived,
        ChatListView::Archived => c.archived,
    }
}

/// The event that a finished chat-list request posts.
pub fn chats_load_outcome(outcome: Result<Vec<Chat>, String>) -> (r: WhatsAppEvent)
    ensures
        outcome matches Ok(cs) ==> r == WhatsAppEvent::ChatsLoaded(cs),
        outcome matches Err(e) ==> r is Error && r->Error_0@ == "Failed to load chats: "@ + e@
            + ". Try restarting the app."@,
{
    match outcome {
        Ok(cs) => WhatsAppEvent::ChatsLoaded(cs),
        Err(e) => {
            let mut s = text_of("Failed to load chats: ");
            push_text(&mut s, e.as_str());
            push_text(&mut s, ". Try restarting the app.");
            WhatsAppEvent::Error(s)
        },
    }
}

/// The event that a finished message request for `chat_id` posts.
pub fn messages_load_outcome(chat_id: String, outcome: Result<Vec<Message>, String>) -> (r: WhatsAppEvent)
    ensures
        outcome matches Ok(ms) ==> r == WhatsAppEvent::MessagesLoaded(chat_id, ms),
        outcome matches Err(e) ==> r is Error && r->Error_0@ == "Failed to load messages: "@ + e@,
{
    match outcome {
        Ok(ms) => WhatsAppEvent::MessagesLoaded(chat_id, ms),
        Err(e) => {
            let mut s = text_of("Failed to load messages: ");
            push_text(&mut s, e.as_str());
            WhatsAppEvent::Error(s)
        },
    }
}

impl App {
    /// The chat whose messages the periodic refresh fetches: the open one.
    pub fn refresh_current_chat_messages(&self) -> (r: Option<String>)
        ensures
            r is Some == self.current_chat_id is Some,
            r is Some ==> r.unwrap()@ == self.current_chat_id.unwrap()@,
    {
        match &self.current_chat_id {
            Some(c) => Some(c.clone()),
            None => None,
        }
    }

    /// Takes the outcome of a refresh of `chat_id`: fetched messages replace
    /// what was held for it; a failure changes nothing.
    pub fn finish_refresh(&mut self, chat_id: String, outcome: Result<Vec<Message>, String>)
        requires
            old(self).wf(),
        ensures
            final(self).wf(),
            outcome is Err ==> *final(self) == *old(self),
            outcome is Ok ==> *final(self) == (App { messages: final(self).messages, ..*old(self) })
                && final(self).messages@ == old(self).messages@.insert(chat_id@, outcome->Ok_0),
    {
        match outcome {
            Ok(ms) => {
                self.messages.insert(chat_id, ms);
            },
            Err(_) => {},
        }
    }
}

} // verus!
