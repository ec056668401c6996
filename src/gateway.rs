//! Bookkeeping of the gateway client: which calls exist and how long each may
//! take, the table of requests awaiting a reply, and how a reply or a media
//! payload is read. The socket itself is driven by the caller.

use vstd::prelude::*;
use crate::keyed::KeyedVec;
use crate::text::{push_decimal, push_text, text_of, decimal};

verus! {

/// Seconds a request may wait for its reply.
pub const DEFAULT_TIMEOUT_SECS: u64 = 30;

/// Seconds the chat list may take: the first sync after login can take minutes.
pub const CHATS_TIMEOUT_SECS: u64 = 120;

/// A call that the gateway offers.
#[derive(Debug, Clone, PartialEq)]
pub enum Request {
    GetChats,
    GetMessages { chat_id: String, limit: usize },
    SendMessage { chat_id: String, text: String },
    DownloadMedia { message_id: String },
}

pub open spec fn method_name(r: Request) -> Seq<char> {
    match r {
        Request::GetChats => "getChats"@,
        Request::GetMessages { .. } => "getMessages"@,
        Request::SendMessage { .. } => "sendMessage"@,
        Request::DownloadMedia { .. } => "downloadMedia"@,
    }
}

impl Request {
    /// The method name on the wire.
    pub fn method(&self) -> (r: String)
        ensures
            r@ == method_name(*self),
    {
        match self {
            Request::GetChats => text_of("getChats"),
            Request::GetMessages { .. } => text_of("getMessages"),
            Request::SendMessage { .. } => text_of("sendMessage"),
            Request::DownloadMedia { .. } => text_of("downloadMedia"),
        }
    }

    /// How long the reply may take.
    pub fn timeout_secs(&self) -> (r: u64)
        ensures
            r == (if *self is GetChats { CHATS_TIMEOUT_SECS } else { DEFAULT_TIMEOUT_SECS }),
    {
        match self {
            Request::GetChats => CHATS_TIMEOUT_SECS,
            _ => DEFAULT_TIMEOUT_SECS,
        }
    }
}

/// Why a gateway call failed.
#[derive(Debug, Clone, PartialEq)]
pub enum ClientError {
    /// The gateway answered with an error.
    Service(String),
    /// The reply held neither a result nor an error.
    NoResult,
    /// No reply came within this many seconds.
    Timeout(u64),
    /// The connection closed before the reply came.
    ChannelClosed,
    /// Downloaded media was not text.
    MediaNotText,
    /// Downloaded media was not valid base64.
    MediaDecode,
}

pub open spec fn error_text(e: ClientError) -> Seq<char> {
    match e {
        ClientError::Service(m) => "WhatsApp service error: "@ + m@,
        ClientError::NoResult => "No result in response"@,
        ClientError::Timeout(n) => "Request timed out after "@ + decimal(n as nat) + "s"@,
        ClientError::ChannelClosed => "Response channel closed"@,
        ClientError::MediaNotText => "Media data not a string"@,
        ClientError::MediaDecode => "Failed to decode base64 media"@,
    }
}

impl ClientError {
    /// The error as a line of text.
    pub fn message(&self) -> (r: String)
        ensures
            r@ == error_text(*self),
    {
        match self {
            ClientError::Service(m) => {
                let mut s = text_of("WhatsApp service error: ");
                push_text(&mut s, m.as_str());
                s
            },
            ClientError::NoResult => text_of("No result in response"),
            ClientError::Timeout(n) => {
                let mut s = text_of("Request timed out after ");
                push_decimal(&mut s, *n);
                push_text(&mut s, "s");
                s
            },
            ClientError::ChannelClosed => text_of("Response channel closed"),
            ClientError::MediaNotText => text_of("Media data not a string"),
            ClientError::MediaDecode => text_of("Failed to decode base64 media"),
        }
    }
}

/// What a reply carries: a result, or an error; an error wins where both
/// are present, and a reply with neither fails.
pub fn reply_outcome<V>(result: Option<V>, error: Option<String>) -> (r: Result<V, ClientError>)
    ensures
        error matches Some(e) ==> r == Err::<V, ClientError>(ClientError::Service(e)),
        error is None && result is Some ==> r == Ok::<V, ClientError>(result.unwrap()),
        error is None && result is None ==> r == Err::<V, ClientError>(ClientError::NoResult),
{
    match error {
        Some(e) => Err(ClientError::Service(e)),
        None => match result {
            Some(v) => Ok(v),
            None => Err(ClientError::NoResult),
        },
    }
}

/// Relies on `uuid::Uuid::new_v4` and its text form: a random identifier for
/// a request. Nothing is promised of its value.
#[verifier::external_body]
fn fresh_request_id() -> (r: String) {
    uuid::Uuid::new_v4().to_string()
}

/// Requests awaiting a reply, each with the sink its reply goes to, by id.
pub struct PendingRequests<T> {
    entries: KeyedVec<T>,
}

impl<T> View for PendingRequests<T> {
    type V = Map<Seq<char>, T>;

    closed spec fn view(&self) -> Map<Seq<char>, T> {
        self.entries@
    }
}

impl<T> PendingRequests<T> {
    pub closed spec fn wf(&self) -> bool {
        self.entries.wf()
    }

    pub fn new() -> (r: Self)
        ensures
            r.wf(),
            r@ == Map::<Seq<char>, T>::empty(),
    {
        PendingRequests { entries: KeyedVec::new() }
    }

    /// Registers a request under a fresh id, before it is sent.
    pub fn register(&mut self, sink: T) -> (id: String)
        requires
            old(self).wf(),
        ensures
            final(self).wf(),
            final(self)@ == old(self)@.insert(id@, sink),
    {
        let id = fresh_request_id();
        self.register_as(id.clone(), sink);
        id
    }

    /// Registers a request under `id`.
    pub fn register_as(&mut self, id: String, sink: T)
        requires
            old(self).wf(),
        ensures
            final(self).wf(),
            final(self)@ == old(self)@.insert(id@, sink),
    {
        self.entries.insert(id, sink);
    }

    /// The sink of the request with this id, to deliver its reply; a reply
    /// whose id is not registered (a late one) has none and is dropped.
    pub fn sink(&self, id: &String) -> (r: Option<&T>)
        requires
            self.wf(),
        ensures
            r is Some == self@.contains_key(id@),
            r matches Some(s) ==> *s == self@[id@],
    {
        self.entries.get(id)
    }

    pub fn contains(&self, id: &String) -> (r: bool)
        requires
            self.wf(),
        ensures
            r == self@.contains_key(id@),
    {
        self.entries.contains_key(id)
    }

    /// Removes the request once its reply was taken or its time ran out.
    pub fn complete(&mut self, id: &String) -> (r: Option<T>)
        requires
            old(self).wf(),
        ensures
            final(self).wf(),
            final(self)@ == old(self)@.remove(id@),
            r is Some == old(self)@.contains_key(id@),
            r matches Some(s) ==> s == old(self)@[id@],
    {
        self.entries.remove(id)
    }
}

/// A request is in the table from its registration until it is completed,
/// whatever other requests come and go in between, and not after; the others
/// are left as they were.
pub proof fn lemma_pending_lifetime<T>(
    m: Map<Seq<char>, T>,
    id: Seq<char>,
    sink: T,
    other: Seq<char>,
    other_sink: T,
)
    requires
        other != id,
    ensures
        m.insert(id, sink).contains_key(id),
        m.insert(id, sink).insert(other, other_sink).contains_key(id),
        m.insert(id, sink).remove(other).contains_key(id),
        m.insert(id, sink).insert(other, other_sink)[id] == sink,
        !m.insert(id, sink).remove(id).contains_key(id),
        m.insert(id, sink).remove(id).remove(other) == m.remove(id).remove(other),
{
    assert(m.insert(id, sink).remove(id).remove(other) =~= m.remove(id).remove(other));
}

/// The bytes that a standard base64 text encodes, or none where it is not valid.
pub uninterp spec fn base64_decoded(s: Seq<char>) -> Option<Seq<u8>>;

/// Relies on base64's `STANDARD` engine and `Engine::decode`: the bytes the
/// text encodes, or an error where it is not valid standard base64.
#[verifier::external_body]
fn decode_base64(s: &str) -> (r: Option<Vec<u8>>)
    ensures
        r is Some == base64_decoded(s@) is Some,
        r is Some ==> r.unwrap()@ == base64_decoded(s@).unwrap(),
{
    base64::Engine::decode(&base64::engine::general_purpose::STANDARD, s).ok()
}

/// Reads a downloaded media payload: it must be text holding base64.
pub fn decode_media(payload: Option<String>) -> (r: Result<Vec<u8>, ClientError>)
    ensures
        payload is None ==> r == Err::<Vec<u8>, ClientError>(ClientError::MediaNotText),
        payload is Some && base64_decoded(payload.unwrap()@) is None ==> r == Err::<Vec<u8>, ClientError>(
            ClientError::MediaDecode,
        ),
        payload is Some && base64_decoded(payload.unwrap()@) is Some ==> r is Ok && r->Ok_0@ == base64_decoded(
            payload.unwrap()@,
        ).unwrap(),
{
    match payload {
        None => Err(ClientError::MediaNotText),
        Some(t) => match decode_base64(t.as_str()) {
            Some(bytes) => Ok(bytes),
            None => Err(ClientError::MediaDecode),
        },
    }
}

} // verus!
