use zaptui::app::{App, AppState, ChatListView, Command, FocusedWidget, Rect};
use zaptui::input::{InputEvent, KeyCode, MouseInput, MouseKind};
use zaptui::config::Config;
use zaptui::gateway::{ClientError, PendingRequests};
use zaptui::render::Screen;
use zaptui::types::{Chat, Message, WhatsAppEvent};
use zaptui::app::messages_load_outcome;

fn chat(id: &str, name: &str, ts: i64) -> Chat {
    Chat {
        id: id.to_string(),
        name: name.to_string(),
        is_group: false,
        unread_count: 0,
        archived: false,
        timestamp: ts,
        last_message: None,
    }
}

fn key(code: KeyCode) -> InputEvent {
    InputEvent::Key { code, ctrl: false, press: true }
}

fn ids(app: &App) -> Vec<String> {
    app.chats.iter().map(|c| c.id.clone()).collect()
}

fn cold_start() -> App {
    let mut app = App::new(Config::default());
    app.handle_whatsapp_event(WhatsAppEvent::QRCode("2@xxx".to_string()));
    assert_eq!(app.render(), Screen::Qr);
    assert_eq!(app.qr_code.as_deref(), Some("2@xxx"));
    assert_eq!(app.status_message, "Scan QR code to authenticate");
    app.handle_whatsapp_event(WhatsAppEvent::Authenticated);
    assert!(app.qr_code.is_none());
    assert_eq!(app.state, AppState::Authenticating);
    let cmd = app.handle_whatsapp_event(WhatsAppEvent::Ready);
    assert_eq!(cmd, Command::LoadChats);
    app.handle_whatsapp_event(WhatsAppEvent::ChatsLoaded(vec![
        chat("a@c.us", "Alice", 100),
        chat("b@c.us", "Bob", 200),
    ]));
    app
}

fn incoming(app: &mut App) {
    app.handle_whatsapp_event(WhatsAppEvent::MessageReceived(Message {
        id: "m1".to_string(),
        chat_id: "a@c.us".to_string(),
        body: "hi".to_string(),
        timestamp: 300,
        from_me: false,
        has_media: false,
        media_type: None,
        sender: None,
    }));
}

#[test]
fn cold_start_happy_auth() {
    let app = cold_start();
    assert_eq!(app.state, AppState::Ready);
    assert_eq!(ids(&app), vec!["b@c.us", "a@c.us"]);
    assert_eq!(app.selected, Some(0));
    assert_eq!(app.status_message, "Ready \u{2014} 2 chats loaded");
    assert_eq!(app.render(), Screen::Main);
}

#[test]
fn incoming_message_resorts() {
    let mut app = cold_start();
    incoming(&mut app);
    assert_eq!(ids(&app), vec!["a@c.us", "b@c.us"]);
    let sel = app.selected.unwrap();
    assert_eq!(app.chats[sel].id, "b@c.us");
    assert_eq!(app.chats[0].unread_count, 1);
    assert_eq!(app.chats[0].last_message.as_deref(), Some("hi"));
    assert_eq!(app.chats[0].timestamp, 300);
    let buf = app.messages.get(&"a@c.us".to_string()).unwrap();
    assert_eq!(buf.len(), 1);
    assert_eq!(buf[0].id, "m1");
}

#[test]
fn selection_marks_read() {
    let mut app = cold_start();
    incoming(&mut app);
    // Bob is selected and last in the list: moving to Alice is a move up.
    let cmd = app.handle_event(key(KeyCode::Up));
    assert_eq!(app.selected, Some(0));
    assert_eq!(app.chats[0].unread_count, 0);
    assert_eq!(app.current_chat_id.as_deref(), Some("a@c.us"));
    // The incoming message already started Alice's buffer, so it is shown
    // from the cache and no fetch is needed.
    assert_eq!(cmd, Command::Nothing);
    assert_eq!(app.status_message, "Alice \u{2014} 1 messages (cached)");
}

#[test]
fn selecting_an_unloaded_chat_requests_its_messages() {
    let mut app = cold_start();
    let cmd = app.handle_event(key(KeyCode::Down));
    assert_eq!(app.selected, Some(1));
    assert_eq!(app.current_chat_id.as_deref(), Some("a@c.us"));
    assert_eq!(cmd, Command::LoadMessages("a@c.us".to_string()));
    assert_eq!(app.status_message, "Loading Alice messages\u{2026}");
}

fn with_alice_open() -> App {
    let mut app = cold_start();
    incoming(&mut app);
    app.handle_event(key(KeyCode::Up));
    app
}

#[test]
fn send_optimistic_echo_success() {
    let mut app = with_alice_open();
    app.handle_event(key(KeyCode::Char('y')));
    assert_eq!(app.focused, FocusedWidget::Input);
    app.handle_event(key(KeyCode::Char('o')));
    let cmd = app.handle_event(key(KeyCode::Enter));
    assert_eq!(cmd, Command::SendMessage { chat_id: "a@c.us".to_string(), text: "yo".to_string() });
    let buf = app.messages.get(&"a@c.us".to_string()).unwrap();
    let echo = buf.last().unwrap();
    assert!(echo.id.starts_with("temp_"));
    assert!(echo.from_me);
    assert_eq!(echo.body, "yo");
    assert_eq!(echo.chat_id, "a@c.us");
    assert_eq!(echo.id, format!("temp_{}", echo.timestamp));
    app.finish_send(Ok(()));
    assert_eq!(app.input_buffer, "");
}

#[test]
fn send_optimistic_echo_failure() {
    let mut app = with_alice_open();
    app.handle_event(key(KeyCode::Char('y')));
    app.handle_event(key(KeyCode::Char('o')));
    app.handle_event(key(KeyCode::Enter));
    app.finish_send(Err("gateway down".to_string()));
    assert!(app.status_message.contains("Error sending message:"));
    assert_eq!(app.status_message, "Error sending message: gateway down");
    assert_eq!(app.input_buffer, "yo");
    let buf = app.messages.get(&"a@c.us".to_string()).unwrap();
    assert_eq!(buf.last().unwrap().body, "yo");
}

#[test]
fn archive_toggle() {
    let mut app = cold_start();
    let mut arch = chat("arch@c.us", "Old", 50);
    arch.archived = true;
    app.handle_whatsapp_event(WhatsAppEvent::ChatUpdated(arch));
    let area = Rect { x: 0, y: 0, width: 30, height: 10 };
    let frame = app.render_chat_list(area);
    assert_eq!(frame.rows, vec!["\u{1f4c1} Archived Messages (1)", "Bob", "Alice"]);
    let click = InputEvent::Mouse(MouseInput { kind: MouseKind::LeftDown, column: 2, row: 1 });
    app.handle_event(click);
    assert_eq!(app.chat_list_view, ChatListView::Archived);
    assert_eq!(app.selected, Some(0));
    assert_eq!(app.chat_list_scroll, 0);
    let frame = app.render_chat_list(area);
    assert_eq!(frame.rows, vec!["\u{1f4c2} Archived Messages (1) - Viewing", "Old"]);
    app.handle_event(click);
    assert_eq!(app.chat_list_view, ChatListView::Normal);
    assert_eq!(app.selected, Some(0));
}

#[test]
fn timeout_reports_and_retry_requests_again() {
    let mut pending: PendingRequests<u32> = PendingRequests::new();
    let id = pending.register(7);
    assert!(pending.contains(&id));
    // The reply never comes: the time runs out and the entry goes.
    assert_eq!(pending.complete(&id), Some(7));
    assert!(!pending.contains(&id));
    // A late reply finds no sink and is dropped.
    assert!(pending.sink(&id).is_none());

    let mut app = cold_start();
    app.handle_whatsapp_event(WhatsAppEvent::ChatUpdated(chat("c@c.us", "Carol", 150)));
    let c = app.chats.iter().position(|c| c.id == "c@c.us").unwrap();
    let cmd = app.load_chat_messages_background(c);
    assert_eq!(cmd, Command::LoadMessages("c@c.us".to_string()));
    let err = ClientError::Timeout(30).message();
    let ev = messages_load_outcome("c@c.us".to_string(), Err(err));
    app.handle_whatsapp_event(ev);
    assert_eq!(app.status_message, "\u{26a0}\u{fe0f}  Failed to load messages: Request timed out after 30s");
    assert!(app.status_message.starts_with("\u{26a0}\u{fe0f}  Failed to load messages: "));
    let c = app.chats.iter().position(|c| c.id == "c@c.us").unwrap();
    let again = app.load_chat_messages_background(c);
    assert_eq!(again, Command::LoadMessages("c@c.us".to_string()));
}
