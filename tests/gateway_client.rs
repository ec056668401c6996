use zaptui::gateway::{decode_media, reply_outcome, ClientError, PendingRequests, Request};
use zaptui::types::WhatsAppResponse;

#[test]
fn methods_and_timeouts() {
    assert_eq!(Request::GetChats.method(), "getChats");
    assert_eq!(Request::GetChats.timeout_secs(), 120);
    let m = Request::GetMessages { chat_id: "x".to_string(), limit: 50 };
    assert_eq!(m.method(), "getMessages");
    assert_eq!(m.timeout_secs(), 30);
    let s = Request::SendMessage { chat_id: "x".to_string(), text: "t".to_string() };
    assert_eq!(s.method(), "sendMessage");
    let d = Request::DownloadMedia { message_id: "m".to_string() };
    assert_eq!(d.method(), "downloadMedia");
    assert_eq!(d.timeout_secs(), 30);
}

#[test]
fn replies_error_wins() {
    assert_eq!(reply_outcome(Some(1), Some("bad".to_string())), Err(ClientError::Service("bad".to_string())));
    assert_eq!(reply_outcome(Some(1), None), Ok(1));
    assert_eq!(reply_outcome::<i32>(None, None), Err(ClientError::NoResult));
}

#[test]
fn response_frames() {
    let ok = WhatsAppResponse { id: "1".to_string(), result: Some(serde_json::Value::Bool(true)), error: None };
    assert_eq!(ok.into_result().unwrap(), serde_json::Value::Bool(true));
    let bad = WhatsAppResponse { id: "2".to_string(), result: None, error: Some("no".to_string()) };
    assert_eq!(bad.into_result().unwrap_err(), ClientError::Service("no".to_string()));
    let none = WhatsAppResponse { id: "3".to_string(), result: None, error: None };
    assert_eq!(none.into_result().unwrap_err(), ClientError::NoResult);
}

#[test]
fn error_messages() {
    assert_eq!(ClientError::Service("x".to_string()).message(), "WhatsApp service error: x");
    assert_eq!(ClientError::NoResult.message(), "No result in response");
    assert_eq!(ClientError::Timeout(120).message(), "Request timed out after 120s");
    assert_eq!(ClientError::ChannelClosed.message(), "Response channel closed");
    assert_eq!(ClientError::MediaNotText.message(), "Media data not a string");
    assert_eq!(ClientError::MediaDecode.message(), "Failed to decode base64 media");
}

#[test]
fn pending_lifecycle() {
    let mut p: PendingRequests<&str> = PendingRequests::new();
    let a = p.register("first");
    let b = p.register("second");
    assert_ne!(a, b);
    assert_eq!(a.len(), 36);
    assert_eq!(p.sink(&a), Some(&"first"));
    assert_eq!(p.complete(&b), Some("second"));
    assert!(p.contains(&a));
    assert!(!p.contains(&b));
    assert_eq!(p.complete(&b), None);
    p.register_as("fixed".to_string(), "third");
    p.register_as("fixed".to_string(), "fourth");
    assert_eq!(p.sink(&"fixed".to_string()), Some(&"fourth"));
}

#[test]
fn media_payloads() {
    assert_eq!(decode_media(Some("aGk=".to_string())), Ok(b"hi".to_vec()));
    assert_eq!(decode_media(Some("!!".to_string())), Err(ClientError::MediaDecode));
    assert_eq!(decode_media(None), Err(ClientError::MediaNotText));
}
