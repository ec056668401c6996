use zaptui::app::{chats_load_outcome, messages_load_outcome, App, AppState, ChatListView, Command, FocusedWidget, Rect};
use zaptui::input::{InputEvent, KeyCode, MouseInput, MouseKind};
use zaptui::config::Config;
use zaptui::types::{Chat, Message, WhatsAppEvent};

fn chat(id: &str, name: &str, ts: i64) -> Chat {
    Chat {
        id: id.to_string(),
        name: name.to_string(),
        is_group: false,
        unread_count: 0,
        archived: false,
        timestamp: ts,
        last_message: None,
    }
}

fn msg(id: &str, chat_id: &str, body: &str, ts: i64, from_me: bool) -> Message {
    Message {
        id: id.to_string(),
        chat_id: chat_id.to_string(),
        body: body.to_string(),
        timestamp: ts,
        from_me,
        has_media: false,
        media_type: None,
        sender: None,
    }
}

fn key(code: KeyCode) -> InputEvent {
    InputEvent::Key { code, ctrl: false, press: true }
}

fn loaded(chats: Vec<Chat>) -> App {
    let mut app = App::new(Config::default());
    app.handle_whatsapp_event(WhatsAppEvent::Ready);
    app.handle_whatsapp_event(WhatsAppEvent::ChatsLoaded(chats));
    app
}

fn ids(app: &App) -> Vec<String> {
    app.chats.iter().map(|c| c.id.clone()).collect()
}

fn is_sorted(app: &App) -> bool {
    app.chats.windows(2).all(|w| w[0].timestamp > w[1].timestamp || (w[0].timestamp == w[1].timestamp && w[0].id <= w[1].id))
}

#[test]
fn new_app_starts_authenticating() {
    let app = App::new(Config::default());
    assert_eq!(app.state, AppState::Authenticating);
    assert_eq!(app.status_message, "Connecting to WhatsApp...");
    assert_eq!(app.focused, FocusedWidget::ChatList);
    assert_eq!(app.chat_list_view, ChatListView::Normal);
    assert!(app.selected.is_none());
    assert!(app.chats.is_empty());
}

#[test]
fn chats_sorted_newest_first_ties_by_id() {
    let app = loaded(vec![chat("c", "C", 5), chat("b", "B", 9), chat("a", "A", 5), chat("d", "D", 7)]);
    assert_eq!(ids(&app), vec!["b", "d", "a", "c"]);
    assert!(is_sorted(&app));
}

#[test]
fn sorted_after_every_event() {
    let mut app = loaded(vec![chat("x", "X", 1), chat("y", "Y", 2), chat("z", "Z", 3)]);
    assert!(is_sorted(&app));
    app.handle_whatsapp_event(WhatsAppEvent::MessageReceived(msg("1", "x", "hey", 10, false)));
    assert!(is_sorted(&app));
    assert_eq!(ids(&app), vec!["x", "z", "y"]);
    app.handle_whatsapp_event(WhatsAppEvent::ChatUpdated(chat("w", "W", 5)));
    assert!(is_sorted(&app));
    assert_eq!(ids(&app), vec!["x", "w", "z", "y"]);
    app.handle_whatsapp_event(WhatsAppEvent::ChatUpdated(chat("y", "Y2", 20)));
    assert!(is_sorted(&app));
    assert_eq!(ids(&app), vec!["y", "x", "w", "z"]);
    assert_eq!(app.chats[0].name, "Y2");
}

#[test]
fn unread_counts_only_incoming() {
    let mut app = loaded(vec![chat("x", "X", 1)]);
    app.handle_whatsapp_event(WhatsAppEvent::MessageReceived(msg("1", "x", "a", 2, false)));
    app.handle_whatsapp_event(WhatsAppEvent::MessageReceived(msg("2", "x", "b", 3, true)));
    app.handle_whatsapp_event(WhatsAppEvent::MessageReceived(msg("3", "x", "c", 4, false)));
    assert_eq!(app.chats[0].unread_count, 2);
    assert_eq!(app.chats[0].last_message.as_deref(), Some("c"));
}

#[test]
fn unread_count_saturates() {
    let mut c = chat("x", "X", 1);
    c.unread_count = u32::MAX;
    let mut app = loaded(vec![c]);
    app.handle_whatsapp_event(WhatsAppEvent::MessageReceived(msg("1", "x", "a", 2, false)));
    assert_eq!(app.chats[0].unread_count, u32::MAX);
}

#[test]
fn selection_follows_chat_across_resort() {
    let mut app = loaded(vec![chat("x", "X", 3), chat("y", "Y", 2), chat("z", "Z", 1)]);
    app.handle_event(key(KeyCode::Down));
    assert_eq!(app.chats[app.selected.unwrap()].id, "y");
    app.handle_whatsapp_event(WhatsAppEvent::MessageReceived(msg("1", "z", "up", 9, false)));
    assert_eq!(ids(&app), vec!["z", "x", "y"]);
    assert_eq!(app.chats[app.selected.unwrap()].id, "y");
    app.handle_whatsapp_event(WhatsAppEvent::MessageReceived(msg("2", "y", "me", 10, false)));
    assert_eq!(app.selected, Some(0));
    assert_eq!(app.chats[0].id, "y");
}

#[test]
fn message_for_unknown_chat_gets_a_buffer() {
    let mut app = loaded(vec![chat("x", "X", 3)]);
    app.handle_whatsapp_event(WhatsAppEvent::MessageReceived(msg("1", "ghost", "boo", 9, false)));
    assert_eq!(ids(&app), vec!["x"]);
    assert_eq!(app.messages.get(&"ghost".to_string()).unwrap().len(), 1);
}

#[test]
fn messages_loaded_replaces_buffer_exactly() {
    let mut app = loaded(vec![chat("x", "X", 3)]);
    app.handle_whatsapp_event(WhatsAppEvent::MessageReceived(msg("old", "x", "a", 4, false)));
    let fresh = vec![msg("n1", "x", "one", 1, false), msg("n2", "x", "two", 2, true)];
    app.handle_whatsapp_event(WhatsAppEvent::MessagesLoaded("x".to_string(), fresh.clone()));
    assert_eq!(app.messages.get(&"x".to_string()).unwrap(), &fresh);
    // Not the open chat: the status line stays.
    assert_eq!(app.status_message, "Ready \u{2014} 1 chats loaded");
}

#[test]
fn messages_loaded_for_open_chat_sets_status() {
    let mut app = loaded(vec![chat("x", "Xavier", 3)]);
    let cmd = app.load_chat_messages_background(0);
    assert_eq!(cmd, Command::LoadMessages("x".to_string()));
    let fresh = vec![msg("n1", "x", "one", 1, false), msg("n2", "x", "two", 2, true)];
    app.handle_whatsapp_event(WhatsAppEvent::MessagesLoaded("x".to_string(), fresh));
    assert_eq!(app.status_message, "Xavier \u{2014} 2 messages");
}

#[test]
fn load_marks_read_and_uses_cache() {
    let mut c = chat("x", "Xavier", 3);
    c.unread_count = 4;
    let mut app = loaded(vec![c]);
    app.handle_whatsapp_event(WhatsAppEvent::MessageReceived(msg("1", "x", "hi", 4, false)));
    assert_eq!(app.chats[0].unread_count, 5);
    let cmd = app.load_chat_messages_background(0);
    assert_eq!(cmd, Command::Nothing);
    assert_eq!(app.chats[0].unread_count, 0);
    assert_eq!(app.status_message, "Xavier \u{2014} 1 messages (cached)");
    assert_eq!(app.current_chat_id.as_deref(), Some("x"));
    // Out of range: nothing happens.
    assert_eq!(app.load_chat_messages_background(9), Command::Nothing);
}

#[test]
fn status_lines_for_each_event() {
    let mut app = App::new(Config::default());
    app.handle_whatsapp_event(WhatsAppEvent::Authenticated);
    assert_eq!(app.status_message, "Authenticated! Loading chats...");
    app.handle_whatsapp_event(WhatsAppEvent::Ready);
    assert_eq!(app.state, AppState::Ready);
    assert!(app.status_message.starts_with("Syncing chats..."));
    app.handle_whatsapp_event(WhatsAppEvent::Disconnected);
    assert_eq!(app.state, AppState::Disconnected);
    assert_eq!(app.status_message, "Disconnected. Reconnecting\u{2026}");
    app.handle_whatsapp_event(WhatsAppEvent::Error("boom".to_string()));
    assert_eq!(app.status_message, "\u{26a0}\u{fe0f}  boom");
    app.handle_whatsapp_event(WhatsAppEvent::ChatsLoaded(vec![]));
    assert_eq!(app.state, AppState::Ready);
    assert!(app.selected.is_none());
    assert_eq!(app.status_message, "Ready \u{2014} 0 chats loaded");
}

#[test]
fn background_outcomes() {
    match chats_load_outcome(Err("offline".to_string())) {
        WhatsAppEvent::Error(e) => assert_eq!(e, "Failed to load chats: offline. Try restarting the app."),
        other => panic!("unexpected {:?}", other),
    }
    match chats_load_outcome(Ok(vec![chat("x", "X", 1)])) {
        WhatsAppEvent::ChatsLoaded(cs) => assert_eq!(cs.len(), 1),
        other => panic!("unexpected {:?}", other),
    }
    match messages_load_outcome("x".to_string(), Err("slow".to_string())) {
        WhatsAppEvent::Error(e) => assert_eq!(e, "Failed to load messages: slow"),
        other => panic!("unexpected {:?}", other),
    }
    match messages_load_outcome("x".to_string(), Ok(vec![])) {
        WhatsAppEvent::MessagesLoaded(id, ms) => {
            assert_eq!(id, "x");
            assert!(ms.is_empty());
        },
        other => panic!("unexpected {:?}", other),
    }
}

#[test]
fn three_tabs_return_focus_four_do_not() {
    let mut app = App::new(Config::default());
    app.handle_event(key(KeyCode::Tab));
    assert_eq!(app.focused, FocusedWidget::MessageView);
    app.handle_event(key(KeyCode::Tab));
    assert_eq!(app.focused, FocusedWidget::Input);
    app.handle_event(key(KeyCode::Tab));
    assert_eq!(app.focused, FocusedWidget::ChatList);
    app.handle_event(key(KeyCode::Tab));
    assert_eq!(app.focused, FocusedWidget::MessageView);
}

#[test]
fn up_at_top_and_down_at_bottom_do_nothing() {
    let mut app = loaded(vec![chat("x", "X", 3), chat("y", "Y", 2)]);
    app.input_buffer = "draft".to_string();
    assert_eq!(app.handle_event(key(KeyCode::Up)), Command::Nothing);
    assert_eq!(app.selected, Some(0));
    assert_eq!(app.input_buffer, "draft");
    assert!(app.current_chat_id.is_none());
    app.handle_event(key(KeyCode::Char('j')));
    assert_eq!(app.selected, Some(1));
    assert_eq!(app.input_buffer, "");
    app.input_buffer = "draft".to_string();
    assert_eq!(app.handle_event(key(KeyCode::Down)), Command::Nothing);
    assert_eq!(app.selected, Some(1));
    assert_eq!(app.input_buffer, "draft");
    app.handle_event(key(KeyCode::Char('k')));
    assert_eq!(app.selected, Some(0));
}

#[test]
fn down_scrolls_list_to_keep_selection_visible() {
    let chats: Vec<Chat> = (0..10).map(|i| chat(&format!("c{}", i), "N", 100 - i)).collect();
    let mut app = loaded(chats);
    app.chat_list_area = Rect { x: 0, y: 0, width: 20, height: 5 };
    for _ in 0..4 {
        app.handle_event(key(KeyCode::Down));
    }
    assert_eq!(app.selected, Some(4));
    assert_eq!(app.chat_list_scroll, 2);
    for _ in 0..4 {
        app.handle_event(key(KeyCode::Up));
    }
    assert_eq!(app.selected, Some(0));
    assert_eq!(app.chat_list_scroll, 0);
}

#[test]
fn input_edges() {
    let mut app = loaded(vec![chat("x", "X", 3)]);
    app.focused = FocusedWidget::Input;
    app.handle_event(key(KeyCode::Backspace));
    assert_eq!(app.focused, FocusedWidget::ChatList);
    app.focused = FocusedWidget::Input;
    app.handle_event(key(KeyCode::Esc));
    assert_eq!(app.focused, FocusedWidget::ChatList);
    app.focused = FocusedWidget::Input;
    app.handle_event(key(KeyCode::Char('a')));
    app.handle_event(key(KeyCode::Char('b')));
    app.handle_event(key(KeyCode::Backspace));
    assert_eq!(app.input_buffer, "a");
    app.handle_event(key(KeyCode::Esc));
    assert_eq!(app.input_buffer, "");
    assert_eq!(app.focused, FocusedWidget::Input);
}

#[test]
fn enter_on_empty_input_does_nothing() {
    let mut app = loaded(vec![chat("x", "X", 3)]);
    app.load_chat_messages_background(0);
    app.focused = FocusedWidget::Input;
    let before = app.messages.get(&"x".to_string()).map(|b| b.len());
    assert_eq!(app.handle_event(key(KeyCode::Enter)), Command::Nothing);
    assert_eq!(app.messages.get(&"x".to_string()).map(|b| b.len()), before);
    assert_eq!(app.focused, FocusedWidget::Input);
}

#[test]
fn enter_without_open_chat_does_nothing() {
    let mut app = loaded(vec![chat("x", "X", 3)]);
    app.focused = FocusedWidget::Input;
    app.input_buffer = "hello".to_string();
    assert_eq!(app.handle_event(key(KeyCode::Enter)), Command::Nothing);
    assert_eq!(app.input_buffer, "hello");
}

#[test]
fn begin_send_at_builds_echo() {
    let mut app = loaded(vec![chat("x", "X", 3)]);
    app.load_chat_messages_background(0);
    app.input_buffer = "hey".to_string();
    let cmd = app.begin_send_at(-42);
    assert_eq!(cmd, Command::SendMessage { chat_id: "x".to_string(), text: "hey".to_string() });
    let echo = app.messages.get(&"x".to_string()).unwrap().last().unwrap().clone();
    assert_eq!(echo.id, "temp_-42");
    assert_eq!(echo.timestamp, -42);
    assert!(echo.from_me && !echo.has_media && echo.sender.is_none());
    assert_eq!(app.input_buffer, "hey");
}

#[test]
fn ctrl_c_quits_and_releases_are_ignored() {
    let mut app = App::new(Config::default());
    let quit = app.handle_event(InputEvent::Key { code: KeyCode::Char('c'), ctrl: true, press: true });
    assert_eq!(quit, Command::Quit);
    let rel = app.handle_event(InputEvent::Key { code: KeyCode::Char('c'), ctrl: false, press: false });
    assert_eq!(rel, Command::Nothing);
    assert_eq!(app.input_buffer, "");
}

#[test]
fn typing_in_chat_list_focuses_input() {
    let mut app = loaded(vec![chat("x", "X", 3)]);
    app.handle_event(key(KeyCode::Char('h')));
    assert_eq!(app.focused, FocusedWidget::Input);
    assert_eq!(app.input_buffer, "h");
}

#[test]
fn message_view_scrolls() {
    let mut app = loaded(vec![chat("x", "X", 3)]);
    app.focused = FocusedWidget::MessageView;
    app.handle_event(key(KeyCode::Up));
    assert_eq!(app.message_scroll, 0);
    app.handle_event(key(KeyCode::Down));
    app.handle_event(key(KeyCode::Down));
    assert_eq!(app.message_scroll, 2);
    app.message_scroll = u16::MAX;
    app.handle_event(key(KeyCode::Down));
    assert_eq!(app.message_scroll, u16::MAX);
    app.handle_event(key(KeyCode::Char('z')));
    assert_eq!(app.focused, FocusedWidget::Input);
    assert_eq!(app.input_buffer, "z");
}

#[test]
fn mouse_click_selects_and_wheel_scrolls() {
    let mut arch = chat("q", "Q", 8);
    arch.archived = true;
    let mut app = loaded(vec![chat("x", "X", 9), arch, chat("y", "Y", 7)]);
    app.chat_list_area = Rect { x: 5, y: 2, width: 20, height: 8 };
    // Outside the list: nothing.
    let miss = InputEvent::Mouse(MouseInput { kind: MouseKind::LeftDown, column: 1, row: 4 });
    assert_eq!(app.handle_event(miss), Command::Nothing);
    // Row 2 of the Normal view is "Y" (row 0 is the archive entry, row 1 is "X").
    let hit = InputEvent::Mouse(MouseInput { kind: MouseKind::LeftDown, column: 6, row: 5 });
    let cmd = app.handle_event(hit);
    assert_eq!(cmd, Command::LoadMessages("y".to_string()));
    assert_eq!(app.selected, Some(2));
    assert_eq!(app.current_chat_id.as_deref(), Some("y"));
    // Below the last row: nothing.
    let empty = InputEvent::Mouse(MouseInput { kind: MouseKind::LeftDown, column: 6, row: 8 });
    assert_eq!(app.handle_event(empty), Command::Nothing);
    let down = InputEvent::Mouse(MouseInput { kind: MouseKind::ScrollDown, column: 0, row: 0 });
    for _ in 0..5 {
        app.handle_event(down);
    }
    assert_eq!(app.chat_list_scroll, 2);
    let up = InputEvent::Mouse(MouseInput { kind: MouseKind::ScrollUp, column: 0, row: 0 });
    app.handle_event(up);
    app.handle_event(up);
    app.handle_event(up);
    assert_eq!(app.chat_list_scroll, 0);
}

#[test]
fn archive_header_twice_restores_view() {
    let mut app = loaded(vec![chat("x", "X", 9), chat("y", "Y", 7)]);
    app.handle_event(key(KeyCode::Down));
    app.chat_list_scroll = 1;
    app.activate_archive_header();
    assert_eq!(app.chat_list_view, ChatListView::Archived);
    app.activate_archive_header();
    assert_eq!(app.chat_list_view, ChatListView::Normal);
    assert_eq!(app.selected, Some(0));
    assert_eq!(app.chat_list_scroll, 0);
}

#[test]
fn refresh_replaces_open_chat_buffer() {
    let mut app = loaded(vec![chat("x", "X", 9)]);
    assert!(app.refresh_current_chat_messages().is_none());
    app.load_chat_messages_background(0);
    let id = app.refresh_current_chat_messages().unwrap();
    assert_eq!(id, "x");
    app.finish_refresh(id.clone(), Ok(vec![msg("1", "x", "a", 1, false)]));
    assert_eq!(app.messages.get(&id).unwrap().len(), 1);
    app.finish_refresh(id.clone(), Err("nope".to_string()));
    assert_eq!(app.messages.get(&id).unwrap().len(), 1);
}
