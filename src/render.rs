//! What each pane shows, computed from the model. Drawing the result on a
//! terminal is left to the caller; only the chat list's cached area and its
//! scroll clamp are written back.

use vstd::prelude::*;
use crate::app::{
    chat_index, has_chat, in_view, points_at_chat, sat_sub, visible_chats, chat_in_view, find_chat, App,
    AppState, ChatListView, FocusedWidget, Rect,
};
use crate::clock::{clock_of, clock_text};
use crate::text::{decimal, push_decimal, push_text, text_of};
use crate::types::{Chat, Message};

verus! {

/// Which of the three screens is shown.
#[derive(Debug, Clone, Copy, PartialEq, Eq, Structural)]
pub enum Screen {
    /// The QR code to scan, while authenticating.
    Qr,
    /// A wait notice with the status line.
    Loading,
    /// Chat list, messages, composer and status bar.
    Main,
}

pub open spec fn screen_of(a: App) -> Screen {
    if a.state == AppState::Authenticating && a.qr_code is Some {
        Screen::Qr
    } else if a.state != AppState::Ready || a.chats@.len() == 0 {
        Screen::Loading
    } else {
        Screen::Main
    }
}

/// The rows of the chat list that are on screen.
pub struct ChatListFrame {
    pub rows: Vec<String>,
    /// Position in `rows` of the selected chat, when it is on screen.
    pub highlighted: Option<usize>,
    pub focused: bool,
}

/// One message as a line: `time sender: body`.
pub struct MessageLine {
    pub time: String,
    pub sender: String,
    pub from_me: bool,
    pub body: String,
}

/// What the message pane shows.
pub struct MessagePane {
    pub title: String,
    /// A single line shown in place of messages, when there are none to show.
    pub notice: Option<String>,
    pub lines: Vec<MessageLine>,
    /// First line on screen.
    pub scroll: usize,
    pub focused: bool,
}

/// Rows of the list inside its border.
pub open spec fn list_height(area: Rect) -> int {
    sat_sub(area.height as int, 2)
}

/// Number of list rows: the "Archived Messages" entry and the chats of the view.
pub open spec fn row_count(a: App) -> int {
    visible_chats(a.chats@, a.chat_list_view).len() + 1int
}

/// The scroll offset, clamped so that the window is as full as it can be.
pub open spec fn clamped_scroll(a: App, area: Rect) -> int {
    let top = sat_sub(row_count(a), list_height(area));
    if a.chat_list_scroll > top { top } else { a.chat_list_scroll as int }
}

pub open spec fn window_end(a: App, area: Rect) -> int {
    let e = clamped_scroll(a, area) + list_height(area);
    if e < row_count(a) { e } else { row_count(a) }
}

/// The model after the chat list was drawn in `area`.
pub open spec fn after_list_render(a: App, area: Rect) -> App {
    App { chat_list_area: area, chat_list_scroll: clamped_scroll(a, area) as usize, ..a }
}

pub open spec fn archived_count(a: App) -> nat {
    visible_chats(a.chats@, ChatListView::Archived).len()
}

pub open spec fn header_text(a: App) -> Seq<char> {
    let n = archived_count(a);
    if a.chat_list_view == ChatListView::Archived {
        if n > 0 {
            "\u{1f4c2} Archived Messages ("@ + decimal(n) + ") - Viewing"@
        } else {
            "\u{1f4c2} Archived Messages - Viewing (empty)"@
        }
    } else {
        if n > 0 {
            "\u{1f4c1} Archived Messages ("@ + decimal(n) + ")"@
        } else {
            "\u{1f4c1} Archived Messages"@
        }
    }
}

/// A chat's row: its name, and its unread count where there is one.
pub open spec fn chat_label(c: Chat) -> Seq<char> {
    if c.unread_count > 0 {
        c.name@ + " ("@ + decimal(c.unread_count as nat) + ")"@
    } else {
        c.name@
    }
}

pub open spec fn row_text(a: App, r: int) -> Seq<char> {
    if r == 0 {
        header_text(a)
    } else {
        chat_label(visible_chats(a.chats@, a.chat_list_view)[r - 1])
    }
}

/// The list row of the selected chat, where the view lists it.
pub open spec fn selected_row(a: App) -> Option<int> {
    if points_at_chat(a.selected, a.chats@.len()) && in_view(a.chats@[a.selected.unwrap() as int], a.chat_list_view) {
        Some(1int + visible_chats(a.chats@.take(a.selected.unwrap() as int), a.chat_list_view).len())
    } else {
        None
    }
}

pub open spec fn highlight_in_window(a: App, area: Rect) -> Option<usize> {
    match selected_row(a) {
        Some(r) => if clamped_scroll(a, area) <= r < window_end(a, area) {
            Some((r - clamped_scroll(a, area)) as usize)
        } else {
            None
        },
        None => None,
    }
}

/// `f` is the chat list of `a` drawn in `area`.
pub open spec fn list_frame_ok(f: ChatListFrame, a: App, area: Rect) -> bool {
    let s = clamped_scroll(a, area);
    &&& f.rows@.len() == window_end(a, area) - s
    &&& forall|k: int| 0 <= k < f.rows@.len() ==> #[trigger] f.rows@[k]@ == row_text(a, s + k)
    &&& f.highlighted == highlight_in_window(a, area)
    &&& f.focused == (a.focused == FocusedWidget::ChatList)
}

/// Drawing the chat list twice in the same area shows the same rows and
/// leaves the model as the first drawing left it.
pub proof fn lemma_chat_list_render_stable(a: App, area: Rect, f: ChatListFrame)
    ensures
        after_list_render(after_list_render(a, area), area) == after_list_render(a, area),
        list_frame_ok(f, after_list_render(a, area), area) == list_frame_ok(f, a, area),
{
    let b = after_list_render(a, area);
    assert(row_count(b) == row_count(a));
    assert(clamped_scroll(b, area) == clamped_scroll(a, area));
    assert(selected_row(b) == selected_row(a));
    assert forall|r: int| row_text(b, r) == row_text(a, r) by {
        assert(header_text(b) == header_text(a));
    };
}

pub open spec fn time_ok(t: Seq<char>, ts: i64) -> bool {
    &&& (-62135596800 <= ts <= 253402300799 ==> t == clock_text(ts as int))
    &&& (t == clock_text(ts as int) || t.len() == 0)
}

pub open spec fn sender_text(m: Message) -> Seq<char> {
    if m.from_me {
        "Me"@
    } else if m.sender is Some {
        m.sender.unwrap()@
    } else {
        "User"@
    }
}

pub open spec fn body_text(m: Message) -> Seq<char> {
    if m.has_media {
        "[Media: "@ + (if m.media_type is Some { m.media_type.unwrap()@ } else { "unknown"@ }) + "]"@
    } else {
        m.body@
    }
}

pub open spec fn line_ok(l: MessageLine, m: Message) -> bool {
    &&& time_ok(l.time@, m.timestamp)
    &&& l.sender@ == sender_text(m)
    &&& l.from_me == m.from_me
    &&& l.body@ == body_text(m)
}

pub open spec fn pane_title(a: App) -> Seq<char> {
    if a.current_chat_id is Some && has_chat(a.chats@, a.current_chat_id.unwrap()@) {
        " "@ + a.chats@[chat_index(a.chats@, a.current_chat_id.unwrap()@)].name@ + " "@
    } else {
        " Messages "@
    }
}

/// First line on screen: the hand-set offset, or else the newest lines.
pub open spec fn pane_scroll(manual: u16, lines: int, height: u16) -> int {
    let avail = sat_sub(height as int, 2);
    if manual > 0 {
        manual as int
    } else if lines > avail {
        lines - avail
    } else {
        0
    }
}

/// `p` is the message pane of `a` drawn in `area`.
pub open spec fn pane_ok(p: MessagePane, a: App, area: Rect) -> bool {
    &&& p.title@ == pane_title(a)
    &&& p.focused == (a.focused == FocusedWidget::MessageView)
    &&& if a.current_chat_id is None {
        &&& p.notice is Some && p.notice.unwrap()@ == "Select a chat to view messages"@
        &&& p.lines@.len() == 0
        &&& p.scroll == pane_scroll(a.message_scroll, 1, area.height)
    } else if !a.messages@.contains_key(a.current_chat_id.unwrap()@) {
        &&& p.notice is Some && p.notice.unwrap()@ == "Loading messages..."@
        &&& p.lines@.len() == 0
        &&& p.scroll == pane_scroll(a.message_scroll, 1, area.height)
    } else {
        let buf = a.messages@[a.current_chat_id.unwrap()@]@;
        &&& p.notice is None
        &&& p.lines@.len() == buf.len()
        &&& forall|k: int| 0 <= k < buf.len() ==> line_ok(#[trigger] p.lines@[k], buf[k])
        &&& p.scroll == pane_scroll(a.message_scroll, buf.len() as int, area.height)
    }
}

/// Number of chats among the first `i` that view `v` lists.
pub fn count_visible(chats: &Vec<Chat>, v: ChatListView, i: usize) -> (r: usize)
    requires
        i <= chats@.len(),
    ensures
        r == visible_chats(chats@.take(i as int), v).len(),
{
    let mut cnt: usize = 0;
    let mut j: usize = 0;
    proof {
        assert(chats@.take(0) =~= Seq::<Chat>::empty());
    }
    while j < i
        invariant
            j <= i,
            i <= chats@.len(),
            cnt == visible_chats(chats@.take(j as int), v).len(),
            cnt <= j,
        decreases i - j,
    {
        proof {
            assert(chats@.take(j + 1).drop_last() =~= chats@.take(j as int));
        }
        if chat_in_view(&chats[j], v) {
            cnt = cnt + 1;
        }
        j = j + 1;
    }
    cnt
}

/// Positions in `chats` of the chats that view `v` lists, in order.
fn visible_indices(chats: &Vec<Chat>, v: ChatListView) -> (r: Vec<usize>)
    ensures
        r@.len() == visible_chats(chats@, v).len(),
        forall|k: int| 0 <= k < r@.len() ==> #[trigger] r@[k] < chats@.len(),
        forall|k: int| 0 <= k < r@.len() ==> chats@[r@[k] as int] == #[trigger] visible_chats(chats@, v)[k],
{
    let mut out: Vec<usize> = Vec::new();
    let mut j: usize = 0;
    proof {
        assert(chats@.take(0) =~= Seq::<Chat>::empty());
    }
    while j < chats.len()
        invariant
            j <= chats@.len(),
            out@.len() == visible_chats(chats@.take(j as int), v).len(),
            forall|k: int| 0 <= k < out@.len() ==> #[trigger] out@[k] < j,
            forall|k: int| 0 <= k < out@.len() ==> chats@[out@[k] as int] == #[trigger] visible_chats(chats@.take(j as int), v)[k],
        decreases chats@.len() - j,
    {
        let ghost before = visible_chats(chats@.take(j as int), v);
        proof {
            assert(chats@.take(j + 1).drop_last() =~= chats@.take(j as int));
            assert(chats@.take(j + 1).last() == chats@[j as int]);
        }
        if chat_in_view(&chats[j], v) {
            out.push(j);
            proof {
                let after = visible_chats(chats@.take(j + 1), v);
                assert(after == before.push(chats@[j as int]));
                assert forall|k: int| 0 <= k < out@.len() implies chats@[out@[k] as int] == #[trigger] after[k] by {
                    if k < out@.len() - 1 {
                        assert(before[k] == after[k]);
                    }
                };
            }
        } else {
            proof {
                assert(visible_chats(chats@.take(j + 1), v) == before);
            }
        }
        j = j + 1;
    }
    proof {
        assert(chats@.take(j as int) =~= chats@);
    }
    out
}

fn label_of(c: &Chat) -> (r: String)
    ensures
        r@ == chat_label(*c),
{
    let mut s = c.name.clone();
    if c.unread_count > 0 {
        push_text(&mut s, " (");
        push_decimal(&mut s, c.unread_count as u64);
        push_text(&mut s, ")");
    }
    s
}

fn sender_of(m: &Message) -> (r: String)
    ensures
        r@ == sender_text(*m),
{
    if m.from_me {
        text_of("Me")
    } else {
        match &m.sender {
            Some(s) => s.clone(),
            None => text_of("User"),
        }
    }
}

fn body_of(m: &Message) -> (r: String)
    ensures
        r@ == body_text(*m),
{
    if m.has_media {
        let mut s = text_of("[Media: ");
        match &m.media_type {
            Some(t) => push_text(&mut s, t.as_str()),
            None => push_text(&mut s, "unknown"),
        }
        push_text(&mut s, "]");
        s
    } else {
        m.body.clone()
    }
}

fn scroll_of(manual: u16, lines: usize, height: u16) -> (r: usize)
    ensures
        r == pane_scroll(manual, lines as int, height),
{
    let avail: usize = if height >= 2 { (height - 2) as usize } else { 0 };
    if manual > 0 {
        manual as usize
    } else if lines > avail {
        lines - avail
    } else {
        0
    }
}

impl App {
    /// The screen that the model calls for.
    pub fn render(&self) -> (r: Screen)
        ensures
            r == screen_of(*self),
    {
        if self.state == AppState::Authenticating && self.qr_code.is_some() {
            Screen::Qr
        } else if self.state != AppState::Ready || self.chats.len() == 0 {
            Screen::Loading
        } else {
            Screen::Main
        }
    }

    fn header_row(&self) -> (r: String)
        ensures
            r@ == header_text(*self),
    {
        let n = count_visible(&self.chats, ChatListView::Archived, self.chats.len());
        proof {
            assert(self.chats@.take(self.chats@.len() as int) =~= self.chats@);
        }
        match self.chat_list_view {
            ChatListView::Archived => {
                if n > 0 {
                    let mut s = text_of("\u{1f4c2} Archived Messages (");
                    push_decimal(&mut s, n as u64);
                    push_text(&mut s, ") - Viewing");
                    s
                } else {
                    text_of("\u{1f4c2} Archived Messages - Viewing (empty)")
                }
            },
            ChatListView::Normal => {
                if n > 0 {
                    let mut s = text_of("\u{1f4c1} Archived Messages (");
                    push_decimal(&mut s, n as u64);
                    push_text(&mut s, ")");
                    s
                } else {
                    text_of("\u{1f4c1} Archived Messages")
                }
            },
        }
    }

    /// The list row of the selected chat, where the view lists it.
    fn selected_row_exec(&self) -> (r: Option<u128>)
        ensures
            r is Some == selected_row(*self) is Some,
            r is Some ==> r.unwrap() as int == selected_row(*self).unwrap(),
    {
        match self.selected {
            Some(i) => {
                if i < self.chats.len() && chat_in_view(&self.chats[i], self.chat_list_view) {
                    Some(count_visible(&self.chats, self.chat_list_view, i) as u128 + 1)
                } else {
                    None
                }
            },
            None => None,
        }
    }

    /// Draws the chat list in `area`: remembers the area for mouse hits,
    /// clamps the scroll offset, and returns the rows on screen.
    pub fn render_chat_list(&mut self, area: Rect) -> (r: ChatListFrame)
        requires
            old(self).wf(),
        ensures
            final(self).wf(),
            *final(self) == after_list_render(*old(self), area),
            list_frame_ok(r, *old(self), area),
    {
        let ghost a = *self;
        let idx = visible_indices(&self.chats, self.chat_list_view);
        assert(a.chats@ == self.chats@ && a.chat_list_view == self.chat_list_view);

        let n: u128 = idx.len() as u128 + 1;
        let h: u128 = if area.height >= 2 { (area.height - 2) as u128 } else { 0 };
        let top: u128 = if n >= h { n - h } else { 0 };
        let scroll: u128 = if self.chat_list_scroll as u128 > top { top } else { self.chat_list_scroll as u128 };
        let end: u128 = if scroll + h < n { scroll + h } else { n };
        assert(scroll as int == clamped_scroll(a, area));
        assert(end as int == window_end(a, area));
        let sel = self.selected_row_exec();
        let highlighted: Option<usize> = match sel {
            Some(r) => if scroll <= r && r < end { Some((r - scroll) as usize) } else { None },
            None => None,
        };
        let mut rows: Vec<String> = Vec::new();
        let mut r: u128 = scroll;
        while r < end
            invariant
                scroll <= r <= end,
                end <= n,
                n == idx@.len() + 1,
                a == *self,
                idx@.len() == visible_chats(a.chats@, a.chat_list_view).len(),
                forall|k: int| 0 <= k < idx@.len() ==> #[trigger] idx@[k] < a.chats@.len(),
                forall|k: int| 0 <= k < idx@.len() ==> a.chats@[idx@[k] as int]
                    == #[trigger] visible_chats(a.chats@, a.chat_list_view)[k],
                rows@.len() == r - scroll,
                forall|k: int| 0 <= k < rows@.len() ==> #[trigger] rows@[k]@ == row_text(a, scroll + k),
            decreases end - r,
        {
            if r == 0 {
                let t = self.header_row();
                rows.push(t);
            } else {
                let p = idx[(r - 1) as usize];
                let t = label_of(&self.chats[p]);
                rows.push(t);
            }
            r = r + 1;
        }
        self.chat_list_area = area;
        self.chat_list_scroll = scroll as usize;
        ChatListFrame { rows, highlighted, focused: self.focused == FocusedWidget::ChatList }
    }

    fn pane_title_exec(&self) -> (r: String)
        ensures
            r@ == pane_title(*self),
    {
        match &self.current_chat_id {
            Some(cur) => match find_chat(&self.chats, cur) {
                Some(k) => {
                    let mut s = text_of(" ");
                    push_text(&mut s, self.chats[k].name.as_str());
                    push_text(&mut s, " ");
                    s
                },
                None => text_of(" Messages "),
            },
            None => text_of(" Messages "),
        }
    }

    /// Draws the message pane in `area`: the open chat's messages as lines,
    /// with the scroll offset to show.
    pub fn render_messages(&self, area: Rect) -> (r: MessagePane)
        requires
            self.wf(),
        ensures
            pane_ok(r, *self, area),
    {
        let title = self.pane_title_exec();
        let focused = self.focused == FocusedWidget::MessageView;
        let cur = match &self.current_chat_id {
            Some(c) => c,
            None => {
                return MessagePane {
                    title,
                    notice: Some(text_of("Select a chat to view messages")),
                    lines: Vec::new(),
                    scroll: scroll_of(self.message_scroll, 1, area.height),
                    focused,
                };
            },
        };
        let buf = match self.messages.get(cur) {
            Some(b) => b,
            None => {
                return MessagePane {
                    title,
                    notice: Some(text_of("Loading messages...")),
                    lines: Vec::new(),
                    scroll: scroll_of(self.message_scroll, 1, area.height),
                    focused,
                };
            },
        };
        let mut lines: Vec<MessageLine> = Vec::new();
        let mut k: usize = 0;
        while k < buf.len()
            invariant
                k <= buf@.len(),
                lines@.len() == k,
                forall|j: int| 0 <= j < k ==> line_ok(#[trigger] lines@[j], buf@[j]),
            decreases buf@.len() - k,
        {
            let m = &buf[k];
            let line = MessageLine {
                time: clock_of(m.timestamp),
                sender: sender_of(m),
                from_me: m.from_me,
                body: body_of(m),
            };
            lines.push(line);
            k = k + 1;
        }
        let n = lines.len();
        MessagePane { title, notice: None, lines, scroll: scroll_of(self.message_scroll, n, area.height), focused }
    }
}

} // verus!
