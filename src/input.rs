//! Keyboard and mouse input: focus, selection moves, the composer, and
//! clicks in the chat list.

use vstd::prelude::*;
use crate::app::{
    buffer_or_empty, cached_status, chat_in_view, chat_index, find_chat, lemma_visible_len, lemma_visible_prefix,
    loading_status, sat_sub,
    visible_chats, App, ChatListView, Command, FocusedWidget, Rect,
};
use crate::clock::unix_now;
use crate::text::{pop_char, push_char, push_decimal, push_signed_decimal, push_text, signed_decimal, text_of};
use crate::types::{Chat, Message};

verus! {

/// A key as the controller sees it.
#[derive(Debug, Clone, Copy, PartialEq, Eq, Structural)]
pub enum KeyCode {
    Up,
    Down,
    Tab,
    Enter,
    Backspace,
    Esc,
    Char(char),
    Other,
}

#[derive(Debug, Clone, Copy, PartialEq, Eq, Structural)]
pub enum MouseKind {
    LeftDown,
    ScrollUp,
    ScrollDown,
    Other,
}

/// A mouse event at a terminal cell.
#[derive(Debug, Clone, Copy, PartialEq, Eq, Structural)]
pub struct MouseInput {
    pub kind: MouseKind,
    pub column: u16,
    pub row: u16,
}

/// Terminal input.
#[derive(Debug, Clone, Copy, PartialEq, Eq, Structural)]
pub enum InputEvent {
    /// A key; `press` is false for release and repeat reports.
    Key { code: KeyCode, ctrl: bool, press: bool },
    Mouse(MouseInput),
    Other,
}

pub open spec fn next_focus(f: FocusedWidget) -> FocusedWidget {
    match f {
        FocusedWidget::ChatList => FocusedWidget::MessageView,
        FocusedWidget::MessageView => FocusedWidget::Input,
        FocusedWidget::Input => FocusedWidget::ChatList,
    }
}

pub open spec fn toggle_view(v: ChatListView) -> ChatListView {
    match v {
        ChatListView::Normal => ChatListView::Archived,
        ChatListView::Archived => ChatListView::Normal,
    }
}

pub open spec fn is_down_key(code: KeyCode) -> bool {
    code == KeyCode::Down || code == KeyCode::Char('j')
}

pub open spec fn is_up_key(code: KeyCode) -> bool {
    code == KeyCode::Up || code == KeyCode::Char('k')
}

/// Where a move key takes the selection in a list of `len` chats.
pub open spec fn move_target(sel: Option<usize>, len: nat, down: bool) -> int {
    match sel {
        Some(i) => if down {
            if i >= sat_sub(len as int, 1) { i as int } else { i + 1 }
        } else {
            sat_sub(i as int, 1)
        },
        None => 0,
    }
}

/// The list's scroll offset after the selection moved to `t`, keeping it on screen.
pub open spec fn scroll_after_move(a: App, t: int, down: bool) -> int {
    if down {
        let vh = sat_sub(a.chat_list_area.height as int, 2);
        if t >= a.chat_list_scroll + vh { sat_sub(t, sat_sub(vh, 1)) } else { a.chat_list_scroll as int }
    } else {
        if t < a.chat_list_scroll { t } else { a.chat_list_scroll as int }
    }
}

/// The open chat, its status line and its unread count after chat `i` was
/// chosen; `cmd` asks for its messages where none are held.
pub open spec fn load_effect(a: App, b: App, i: int, cmd: Command) -> bool {
    if 0 <= i < a.chats@.len() {
        let c = a.chats@[i];
        &&& b.current_chat_id is Some && b.current_chat_id.unwrap()@ == c.id@
        &&& b.chats@ == a.chats@.update(i, Chat { unread_count: 0, ..c })
        &&& if a.messages@.contains_key(c.id@) {
            &&& b.status_message@ == cached_status(c.name@, a.messages@[c.id@]@.len())
            &&& cmd == Command::Nothing
        } else {
            &&& b.status_message@ == loading_status(c.name@)
            &&& cmd is LoadMessages && cmd->LoadMessages_0@ == c.id@
        }
    } else {
        &&& b.current_chat_id == a.current_chat_id
        &&& b.chats == a.chats
        &&& b.status_message == a.status_message
        &&& cmd == Command::Nothing
    }
}

/// `b` is `a` after chat `i` was selected from the list: input cleared,
/// message pane back at the newest, and its messages loaded.
pub open spec fn selected_effect(a: App, b: App, i: int, scroll: int, cmd: Command) -> bool {
    &&& b == App {
        chats: b.chats,
        current_chat_id: b.current_chat_id,
        status_message: b.status_message,
        input_buffer: b.input_buffer,
        selected: Some(i as usize),
        chat_list_scroll: scroll as usize,
        message_scroll: 0,
        ..a
    }
    &&& b.input_buffer@.len() == 0
    &&& load_effect(a, b, i, cmd)
}

/// Effect of a move key in the chat list.
pub open spec fn chat_list_key_post(a: App, b: App, down: bool, cmd: Command) -> bool {
    let t = move_target(a.selected, a.chats@.len(), down);
    if a.selected == Some(t as usize) {
        b == a && cmd == Command::Nothing
    } else {
        selected_effect(a, b, t, scroll_after_move(a, t, down), cmd)
    }
}

/// `b` is `a` after the input was sent to the open chat at time `now`: the
/// open chat's buffer gains a local echo, and `cmd` asks for the send.
pub open spec fn sent_at(a: App, b: App, now: i64, cmd: Command) -> bool {
    let cid = a.current_chat_id.unwrap()@;
    let buf = b.messages@[cid]@;
    &&& b == App { messages: b.messages, ..a }
    &&& b.messages.wf()
    &&& b.messages@ == a.messages@.insert(cid, b.messages@[cid])
    &&& buf.len() > 0
    &&& buf.drop_last() == buffer_or_empty(a.messages@, cid)
    &&& buf.last().id@ == "temp_"@ + signed_decimal(now as int)
    &&& buf.last().chat_id@ == cid
    &&& buf.last().body@ == a.input_buffer@
    &&& buf.last().timestamp == now
    &&& buf.last().from_me
    &&& !buf.last().has_media
    &&& buf.last().media_type is None
    &&& buf.last().sender is None
    &&& cmd is SendMessage
    &&& cmd->chat_id@ == cid
    &&& cmd->text@ == a.input_buffer@
}

/// Effect of a key on the input field.
pub open spec fn input_key_post(a: App, b: App, code: KeyCode, cmd: Command) -> bool {
    match code {
        KeyCode::Enter => if a.input_buffer@.len() == 0 || a.current_chat_id is None {
            b == a && cmd == Command::Nothing
        } else {
            exists|now: i64| sent_at(a, b, now, cmd)
        },
        KeyCode::Char(c) => {
            &&& b == App { input_buffer: b.input_buffer, ..a }
            &&& b.input_buffer@ == a.input_buffer@.push(c)
            &&& cmd == Command::Nothing
        },
        KeyCode::Backspace => if a.input_buffer@.len() == 0 {
            b == App { focused: FocusedWidget::ChatList, ..a } && cmd == Command::Nothing
        } else {
            &&& b == App { input_buffer: b.input_buffer, ..a }
            &&& b.input_buffer@ == a.input_buffer@.drop_last()
            &&& cmd == Command::Nothing
        },
        KeyCode::Esc => if a.input_buffer@.len() == 0 {
            b == App { focused: FocusedWidget::ChatList, ..a } && cmd == Command::Nothing
        } else {
            &&& b == App { input_buffer: b.input_buffer, ..a }
            &&& b.input_buffer@.len() == 0
            &&& cmd == Command::Nothing
        },
        _ => b == a && cmd == Command::Nothing,
    }
}

pub open spec fn scrolled_messages(s: u16, down: bool) -> u16 {
    if down {
        if s == u16::MAX { s } else { (s + 1) as u16 }
    } else {
        if s == 0 { s } else { (s - 1) as u16 }
    }
}

/// Effect of a key, routed by focus.
pub open spec fn key_post(a: App, b: App, code: KeyCode, cmd: Command) -> bool {
    if code == KeyCode::Tab {
        b == after_tab(a) && cmd == Command::Nothing
    } else {
        match a.focused {
            FocusedWidget::ChatList => if is_down_key(code) || is_up_key(code) {
                chat_list_key_post(a, b, is_down_key(code), cmd)
            } else {
                input_key_post(App { focused: FocusedWidget::Input, ..a }, b, code, cmd)
            },
            FocusedWidget::MessageView => if code == KeyCode::Up || code == KeyCode::Down {
                b == App { message_scroll: scrolled_messages(a.message_scroll, code == KeyCode::Down), ..a }
                    && cmd == Command::Nothing
            } else {
                input_key_post(App { focused: FocusedWidget::Input, ..a }, b, code, cmd)
            },
            FocusedWidget::Input => input_key_post(a, b, code, cmd),
        }
    }
}

/// The model after a Tab press.
pub open spec fn after_tab(a: App) -> App {
    App { focused: next_focus(a.focused), ..a }
}

/// The model after the "Archived Messages" row was activated.
pub open spec fn after_header(a: App) -> App {
    App {
        chat_list_view: toggle_view(a.chat_list_view),
        chat_list_scroll: 0,
        selected: Some(0usize),
        focused: FocusedWidget::ChatList,
        ..a
    }
}

pub open spec fn inside(r: Rect, x: u16, y: u16) -> bool {
    &&& r.x <= x < r.x + r.width
    &&& r.y <= y < r.y + r.height
}

/// The list row under screen line `y`: row 0 is the "Archived Messages" entry.
pub open spec fn clicked_row(a: App, y: u16) -> int {
    a.chat_list_scroll + sat_sub(y as int, a.chat_list_area.y + 1)
}

/// Effect of a mouse event.
pub open spec fn mouse_post(a: App, b: App, m: MouseInput, cmd: Command) -> bool {
    match m.kind {
        MouseKind::LeftDown => if !inside(a.chat_list_area, m.column, m.row) {
            b == a && cmd == Command::Nothing
        } else {
            let row = clicked_row(a, m.row);
            let shown = visible_chats(a.chats@, a.chat_list_view);
            if row == 0 {
                b == after_header(a) && cmd == Command::Nothing
            } else if row - 1 < shown.len() {
                let abs = chat_index(a.chats@, shown[row - 1].id@);
                selected_effect(App { focused: FocusedWidget::ChatList, ..a }, b, abs, a.chat_list_scroll as int, cmd)
            } else {
                b == a && cmd == Command::Nothing
            }
        },
        MouseKind::ScrollDown => {
            let top = sat_sub(a.chats@.len() as int, 1);
            &&& b == App {
                chat_list_scroll: (if a.chat_list_scroll + 1 <= top { a.chat_list_scroll + 1 } else { top }) as usize,
                ..a
            }
            &&& cmd == Command::Nothing
        },
        MouseKind::ScrollUp => {
            b == App { chat_list_scroll: sat_sub(a.chat_list_scroll as int, 1) as usize, ..a }
                && cmd == Command::Nothing
        },
        MouseKind::Other => b == a && cmd == Command::Nothing,
    }
}

/// Effect of any terminal input. Ctrl-C asks to quit.
pub open spec fn input_post(a: App, b: App, e: InputEvent, cmd: Command) -> bool {
    match e {
        InputEvent::Key { code, ctrl, press } => if !press {
            b == a && cmd == Command::Nothing
        } else if ctrl && code == KeyCode::Char('c') {
            b == a && cmd == Command::Quit
        } else {
            key_post(a, b, code, cmd)
        },
        InputEvent::Mouse(m) => mouse_post(a, b, m, cmd),
        InputEvent::Other => b == a && cmd == Command::Nothing,
    }
}

/// Three Tab presses bring focus, and the whole model, back to where they
/// started: focus cycles through the three panes.
pub proof fn lemma_tab_cycle(a: App, b: App, c: App, d: App, c1: Command, c2: Command, c3: Command)
    requires
        key_post(a, b, KeyCode::Tab, c1),
        key_post(b, c, KeyCode::Tab, c2),
        key_post(c, d, KeyCode::Tab, c3),
    ensures
        d == a,
        b.focused != a.focused,
        c.focused != a.focused,
{
}

/// Activating the "Archived Messages" row twice shows the view it started
/// from, scrolled to the top, with the first row selected.
pub proof fn lemma_archive_toggle_twice(a: App)
    ensures
        after_header(after_header(a)).chat_list_view == a.chat_list_view,
        after_header(a).chat_list_view != a.chat_list_view,
        after_header(after_header(a)).selected == Some(0usize),
        after_header(after_header(a)).chat_list_scroll == 0,
        after_header(after_header(a)) == (App { chat_list_scroll: 0, selected: Some(0usize), focused: FocusedWidget::ChatList, ..a }),
{
}

/// Up with the first chat selected, and Down with the last one selected,
/// change nothing.
pub proof fn lemma_moves_at_ends(a: App, b: App, cmd: Command)
    ensures
        a.selected == Some(0usize) && chat_list_key_post(a, b, false, cmd) ==> b == a && cmd == Command::Nothing,
        a.selected is Some && a.selected.unwrap() + 1 == a.chats@.len() && chat_list_key_post(a, b, true, cmd)
            ==> b == a && cmd == Command::Nothing,
{
}

/// On an empty input field Backspace and Esc give the focus back to the chat
/// list, and Enter does nothing; on a non-empty one Esc clears the text and
/// keeps the focus.
pub proof fn lemma_input_edges(a: App, b: App, cmd: Command)
    ensures
        a.input_buffer@.len() == 0 && input_key_post(a, b, KeyCode::Backspace, cmd) ==> b.focused
            == FocusedWidget::ChatList && b.focused != FocusedWidget::Input,
        a.input_buffer@.len() == 0 && input_key_post(a, b, KeyCode::Esc, cmd) ==> b.focused
            == FocusedWidget::ChatList && b.focused != FocusedWidget::Input,
        a.input_buffer@.len() > 0 && input_key_post(a, b, KeyCode::Esc, cmd) ==> b.input_buffer@.len() == 0
            && b.focused == a.focused,
        a.input_buffer@.len() == 0 && input_key_post(a, b, KeyCode::Enter, cmd) ==> b == a && cmd == Command::Nothing,
{
}

fn is_down_exec(code: KeyCode) -> (r: bool)
    ensures
        r == is_down_key(code),
{
    code == KeyCode::Down || code == KeyCode::Char('j')
}

fn is_up_exec(code: KeyCode) -> (r: bool)
    ensures
        r == is_up_key(code),
{
    code == KeyCode::Up || code == KeyCode::Char('k')
}

impl App {
    /// Applies one terminal input to the model.
    pub fn handle_event(&mut self, event: InputEvent) -> (cmd: Command)
        requires
            old(self).wf(),
        ensures
            final(self).wf(),
            input_post(*old(self), *final(self), event, cmd),
    {
        match event {
            InputEvent::Key { code, ctrl, press } => {
                if !press {
                    Command::Nothing
                } else if ctrl && code == KeyCode::Char('c') {
                    Command::Quit
                } else {
                    self.handle_key(code)
                }
            },
            InputEvent::Mouse(m) => self.handle_mouse(m),
            InputEvent::Other => Command::Nothing,
        }
    }

    /// Routes a key by focus; Tab cycles the focus from any pane.
    pub fn handle_key(&mut self, code: KeyCode) -> (cmd: Command)
        requires
            old(self).wf(),
        ensures
            final(self).wf(),
            key_post(*old(self), *final(self), code, cmd),
    {
        if code == KeyCode::Tab {
            self.focused = match self.focused {
                FocusedWidget::ChatList => FocusedWidget::MessageView,
                FocusedWidget::MessageView => FocusedWidget::Input,
                FocusedWidget::Input => FocusedWidget::ChatList,
            };
            return Command::Nothing;
        }
        match self.focused {
            FocusedWidget::ChatList => {
                if is_down_exec(code) || is_up_exec(code) {
                    self.handle_chat_list_key(code)
                } else {
                    self.focused = FocusedWidget::Input;
                    self.handle_input_key(code)
                }
            },
            FocusedWidget::MessageView => {
                if code == KeyCode::Up || code == KeyCode::Down {
                    self.handle_message_scroll(code);
                    Command::Nothing
                } else {
                    self.focused = FocusedWidget::Input;
                    self.handle_input_key(code)
                }
            },
            FocusedWidget::Input => self.handle_input_key(code),
        }
    }

    /// Up and Down scroll the message pane by one line.
    pub fn handle_message_scroll(&mut self, code: KeyCode)
        ensures
            code == KeyCode::Down ==> *final(self) == (App { message_scroll: scrolled_messages(old(self).message_scroll, true), ..*old(self) }),
            code == KeyCode::Up ==> *final(self) == (App { message_scroll: scrolled_messages(old(self).message_scroll, false), ..*old(self) }),
            code != KeyCode::Down && code != KeyCode::Up ==> *final(self) == *old(self),
    {
        match code {
            KeyCode::Down => {
                self.message_scroll = self.message_scroll.saturating_add(1);
            },
            KeyCode::Up => {
                self.message_scroll = self.message_scroll.saturating_sub(1);
            },
            _ => {},
        }
    }

    /// Up/Down (or k/j) move the selection by one chat, within the list.
    pub fn handle_chat_list_key(&mut self, code: KeyCode) -> (cmd: Command)
        requires
            old(self).wf(),
        ensures
            final(self).wf(),
            is_down_key(code) ==> chat_list_key_post(*old(self), *final(self), true, cmd),
            is_up_key(code) ==> chat_list_key_post(*old(self), *final(self), false, cmd),
            !is_down_key(code) && !is_up_key(code) ==> *final(self) == *old(self) && cmd == Command::Nothing,
    {
        let down = is_down_exec(code);
        if !down && !is_up_exec(code) {
            return Command::Nothing;
        }
        let len = self.chats.len();
        let last: usize = if len >= 1 { len - 1 } else { 0 };
        let t: usize = match self.selected {
            Some(i) => if down {
                if i >= last { i } else { i + 1 }
            } else {
                if i == 0 { 0 } else { i - 1 }
            },
            None => 0,
        };
        let same = match self.selected {
            Some(i) => i == t,
            None => false,
        };
        if same {
            return Command::Nothing;
        }
        let scroll = self.chat_list_scroll;
        let new_scroll: usize = if down {
            let h = self.chat_list_area.height;
            let vh: usize = if h >= 2 { (h - 2) as usize } else { 0 };
            if t >= scroll && t - scroll >= vh {
                let back: usize = if vh >= 1 { vh - 1 } else { 0 };
                if t >= back { t - back } else { 0 }
            } else {
                scroll
            }
        } else {
            if t < scroll { t } else { scroll }
        };
        self.selected = Some(t);
        self.chat_list_scroll = new_scroll;
        self.input_buffer = String::new();
        self.message_scroll = 0;
        self.load_chat_messages_background(t)
    }

    /// Opens chat `chat_index`: it becomes the current chat and is marked
    /// read, and where its messages are not held yet the returned command asks
    /// for them.
    pub fn load_chat_messages_background(&mut self, chat_index: usize) -> (cmd: Command)
        requires
            old(self).wf(),
        ensures
            final(self).wf(),
            *final(self) == (App {
                chats: final(self).chats,
                current_chat_id: final(self).current_chat_id,
                status_message: final(self).status_message,
                ..*old(self)
            }),
            load_effect(*old(self), *final(self), chat_index as int, cmd),
            chat_index < old(self).chats@.len() ==> final(self).chats@[chat_index as int].unread_count == 0,
    {
        if chat_index >= self.chats.len() {
            return Command::Nothing;
        }
        let id = self.chats[chat_index].id.clone();
        let name = self.chats[chat_index].name.clone();
        self.current_chat_id = Some(id.clone());
        let cached: Option<usize> = match self.messages.get(&id) {
            Some(b) => Some(b.len()),
            None => None,
        };
        let cmd = match cached {
            Some(n) => {
                let mut s = name.clone();
                push_text(&mut s, " \u{2014} ");
                push_decimal(&mut s, n as u64);
                push_text(&mut s, " messages");
                push_text(&mut s, " (cached)");
                self.status_message = s;
                Command::Nothing
            },
            None => {
                let mut s = text_of("Loading ");
                push_text(&mut s, name.as_str());
                push_text(&mut s, " messages\u{2026}");
                self.status_message = s;
                Command::LoadMessages(id)
            },
        };
        let ghost before = self.chats@;
        let c = &self.chats[chat_index];
        let read = Chat {
            id: c.id.clone(),
            name: c.name.clone(),
            is_group: c.is_group,
            unread_count: 0,
            archived: c.archived,
            timestamp: c.timestamp,
            last_message: crate::types::copy_text(&c.last_message),
        };
        self.chats.set(chat_index, read);
        proof {
            assert forall|k: int| 0 <= k < self.chats@.len() implies self.chats@[k].timestamp == before[k].timestamp
                && self.chats@[k].id@ == before[k].id@ by {};
            assert forall|k: int| 0 <= k < self.chats@.len() - 1 implies #[trigger] crate::order::precedes(self.chats@[k], self.chats@[k + 1]) by {
                assert(crate::order::precedes(before[k], before[k + 1]));
            };
        }
        cmd
    }

    /// A key on the input field: characters are typed, Backspace and Esc edit
    /// or, on an empty field, give the focus back to the chat list, and Enter
    /// sends.
    pub fn handle_input_key(&mut self, code: KeyCode) -> (cmd: Command)
        requires
            old(self).wf(),
        ensures
            final(self).wf(),
            input_key_post(*old(self), *final(self), code, cmd),
    {
        let empty = self.input_buffer.as_str().is_empty();
        match code {
            KeyCode::Enter => {
                if !empty {
                    return self.send_current_message();
                }
            },
            KeyCode::Char(c) => {
                push_char(&mut self.input_buffer, c);
            },
            KeyCode::Backspace => {
                if empty {
                    self.focused = FocusedWidget::ChatList;
                } else {
                    let _ = pop_char(&mut self.input_buffer);
                }
            },
            KeyCode::Esc => {
                if empty {
                    self.focused = FocusedWidget::ChatList;
                } else {
                    self.input_buffer = String::new();
                }
            },
            _ => {},
        }
        Command::Nothing
    }

    /// Sends the input to the open chat, stamped with the current time.
    pub fn send_current_message(&mut self) -> (cmd: Command)
        requires
            old(self).wf(),
        ensures
            final(self).wf(),
            old(self).current_chat_id is None ==> *final(self) == *old(self) && cmd == Command::Nothing,
            old(self).current_chat_id is Some ==> exists|now: i64| sent_at(*old(self), *final(self), now, cmd),
    {
        if self.current_chat_id.is_none() {
            return Command::Nothing;
        }
        let now = unix_now();
        self.begin_send_at(now)
    }

    /// Sends the input to the open chat at time `now`: a local echo with a
    /// `temp_` identifier joins the chat's messages at once, and the returned
    /// command asks for the send. The input stays until `finish_send`.
    pub fn begin_send_at(&mut self, now: i64) -> (cmd: Command)
        requires
            old(self).wf(),
            old(self).current_chat_id is Some,
        ensures
            final(self).wf(),
            sent_at(*old(self), *final(self), now, cmd),
    {
        let cid = match &self.current_chat_id {
            Some(c) => c.clone(),
            None => String::new(),
        };
        let text = self.input_buffer.clone();
        let mut id = text_of("temp_");
        push_signed_decimal(&mut id, now);
        let echo = Message {
            id,
            chat_id: cid.clone(),
            body: text.clone(),
            timestamp: now,
            from_me: true,
            has_media: false,
            media_type: None,
            sender: None,
        };
        let prior = self.messages.remove(&cid);
        let mut buf = match prior {
            Some(b) => b,
            None => Vec::new(),
        };
        buf.push(echo);
        self.messages.insert(cid.clone(), buf);
        proof {
            let k = old(self).current_chat_id.unwrap()@;
            assert(self.messages@ =~= old(self).messages@.insert(k, self.messages@[k]));
            assert(self.messages@[k]@.drop_last() =~= buffer_or_empty(old(self).messages@, k));
        }
        Command::SendMessage { chat_id: cid, text }
    }

    /// Takes the outcome of a send: on success the input is cleared, on
    /// failure the status line says why and the input stays for a retry.
    pub fn finish_send(&mut self, outcome: Result<(), String>)
        requires
            old(self).wf(),
        ensures
            final(self).wf(),
            outcome is Ok ==> *final(self) == (App { input_buffer: final(self).input_buffer, ..*old(self) })
                && final(self).input_buffer@.len() == 0,
            outcome is Err ==> *final(self) == (App { status_message: final(self).status_message, ..*old(self) })
                && final(self).status_message@ == "Error sending message: "@ + outcome->Err_0@,
    {
        match outcome {
            Ok(()) => {
                self.input_buffer = String::new();
            },
            Err(e) => {
                let mut s = text_of("Error sending message: ");
                push_text(&mut s, e.as_str());
                self.status_message = s;
            },
        }
    }

    /// Index in `chats` of the chat at position `idx` of the current view.
    fn nth_visible(&self, idx: usize) -> (r: Option<usize>)
        ensures
            r matches Some(p) ==> p < self.chats@.len() && idx < visible_chats(self.chats@, self.chat_list_view).len()
                && self.chats@[p as int] == visible_chats(self.chats@, self.chat_list_view)[idx as int],
            r is None ==> idx >= visible_chats(self.chats@, self.chat_list_view).len(),
    {
        let v = self.chat_list_view;
        let mut cnt: usize = 0;
        let mut i: usize = 0;
        proof {
            assert(self.chats@.take(0) =~= Seq::<Chat>::empty());
        }
        while i < self.chats.len()
            invariant
                i <= self.chats@.len(),
                v == self.chat_list_view,
                cnt == visible_chats(self.chats@.take(i as int), v).len(),
                cnt <= idx,
            decreases self.chats@.len() - i,
        {
            proof {
                assert(self.chats@.take(i + 1).drop_last() =~= self.chats@.take(i as int));
                lemma_visible_len(self.chats@.take(i as int), v);
            }
            if chat_in_view(&self.chats[i], v) {
                if cnt == idx {
                    proof {
                        lemma_visible_prefix(self.chats@, v, i + 1);
                    }
                    return Some(i);
                }
                cnt = cnt + 1;
            }
            i = i + 1;
        }
        proof {
            assert(self.chats@.take(i as int) =~= self.chats@);
        }
        None
    }

    /// Activates the "Archived Messages" row: the other view is shown from its
    /// top, with the first row selected.
    pub fn activate_archive_header(&mut self)
        requires
            old(self).wf(),
        ensures
            final(self).wf(),
            *final(self) == after_header(*old(self)),
    {
        self.chat_list_view = match self.chat_list_view {
            ChatListView::Normal => ChatListView::Archived,
            ChatListView::Archived => ChatListView::Normal,
        };
        self.chat_list_scroll = 0;
        self.selected = Some(0);
        self.focused = FocusedWidget::ChatList;
    }

    /// A click in the chat list selects the row under it; the wheel scrolls
    /// the list.
    pub fn handle_mouse(&mut self, m: MouseInput) -> (cmd: Command)
        requires
            old(self).wf(),
        ensures
            final(self).wf(),
            mouse_post(*old(self), *final(self), m, cmd),
    {
        match m.kind {
            MouseKind::LeftDown => {
                let area = self.chat_list_area;
                let x = m.column as u32;
                let y = m.row as u32;
                if !(x >= area.x as u32 && x < area.x as u32 + area.width as u32 && y >= area.y as u32 && y
                    < area.y as u32 + area.height as u32) {
                    return Command::Nothing;
                }
                let top = area.y as u32 + 1;
                let rel: usize = if y >= top { (y - top) as usize } else { 0 };
                if rel > usize::MAX - self.chat_list_scroll {
                    proof {
                        lemma_visible_len(self.chats@, self.chat_list_view);
                        assert(self.chats@.len() == self.chats.len());
                        assert(rel as int == sat_sub(m.row as int, self.chat_list_area.y + 1));
                        assert(clicked_row(*old(self), m.row) > usize::MAX);
                    }
                    return Command::Nothing;
                }
                let row = self.chat_list_scroll + rel;
                if row == 0 {
                    self.activate_archive_header();
                    return Command::Nothing;
                }
                match self.nth_visible(row - 1) {
                    Some(p) => {
                        let id = self.chats[p].id.clone();
                        match find_chat(&self.chats, &id) {
                            Some(abs) => {
                                self.selected = Some(abs);
                                self.focused = FocusedWidget::ChatList;
                                self.input_buffer = String::new();
                                self.message_scroll = 0;
                                self.load_chat_messages_background(abs)
                            },
                            None => Command::Nothing,
                        }
                    },
                    None => Command::Nothing,
                }
            },
            MouseKind::ScrollDown => {
                let len = self.chats.len();
                let top: usize = if len >= 1 { len - 1 } else { 0 };
                self.chat_list_scroll = if self.chat_list_scroll < top { self.chat_list_scroll + 1 } else { top };
                Command::Nothing
            },
            MouseKind::ScrollUp => {
                self.chat_list_scroll = if self.chat_list_scroll >= 1 { self.chat_list_scroll - 1 } else { 0 };
                Command::Nothing
            },
            MouseKind::Other => Command::Nothing,
        }
    }
}

} // verus!
