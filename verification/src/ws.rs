//! WebSocket API. Requires `http.enabled` and `http.allow_websocket`.
use vstd::prelude::*;

use crate::http::Header;
use crate::tcp::ErrorKind;
use crate::types::{host_outcome, ConnReply, ErrorReply, SkillError};

pub mod ws_message;

verus! {

/// Text message (UTF-8).
pub const WS_MESSAGE_TEXT: &'static str = "text";
/// Binary message.
pub const WS_MESSAGE_BINARY: &'static str = "binary";
/// Close frame.
pub const WS_MESSAGE_CLOSE: &'static str = "close";

/// Payload delivered to the skill's WebSocket callback.
#[derive(Debug, Clone, Default)]
pub struct WsEvent {
    pub conn_id: String,
    pub data: Vec<u8>,
    /// `"text"`, `"binary"`, or `"close"`.
    pub message_type: String,
    pub close_code: u32,
    pub close_text: String,
    pub error_kind: ErrorKind,
    pub error_msg: String,
}

/// Request for `ws_connect`.
#[derive(Debug, Clone)]
pub struct WsConnectRequest {
    pub url: String,
    pub headers: Vec<Header>,
    pub timeout_ms: i64,
    pub callback: String,
    pub insecure: bool,
}

/// Request for `ws_send`.
#[derive(Debug, Clone)]
pub struct WsSendRequest {
    pub conn_id: String,
    pub data: Vec<u8>,
    pub message_type: String,
}

/// Request for `ws_close`.
#[derive(Debug, Clone)]
pub struct WsCloseRequest {
    pub conn_id: String,
    pub code: u32,
    pub reason: String,
}

pub open spec fn is_ws_connect_request(q: WsConnectRequest, url: Seq<char>, headers: Vec<Header>, timeout_ms: i64, callback: Seq<char>, insecure: bool) -> bool {
    q.url@ == url && q.headers == headers && q.timeout_ms == timeout_ms && q.callback@ == callback
        && q.insecure == insecure
}

/// Dial a WebSocket connection and return its ID. Requires `http.enabled`
/// and `http.allow_websocket`.
pub fn ws_connect<F: FnOnce(WsConnectRequest) -> Result<ConnReply, SkillError>>(
    url: &str,
    headers: Vec<Header>,
    timeout_ms: i64,
    callback: &str,
    insecure: bool,
    host: F,
) -> (r: Result<String, SkillError>)
    requires
        forall|q: WsConnectRequest| is_ws_connect_request(q, url@, headers, timeout_ms, callback@, insecure)
            ==> #[trigger] call_requires(host, (q,)),
    ensures
        exists|q: WsConnectRequest, reply: Result<ConnReply, SkillError>|
            is_ws_connect_request(q, url@, headers, timeout_ms, callback@, insecure)
            && #[trigger] call_ensures(host, (q,), reply)
            && r == host_outcome(reply, |x: ConnReply| x.error, |x: ConnReply| x.conn_id),
{
    let req = WsConnectRequest { url: url.to_owned(), headers, timeout_ms, callback: callback.to_owned(), insecure };
    let resp = host(req)?;
    if !resp.error.as_str().is_empty() {
        return Err(SkillError(resp.error));
    }
    Ok(resp.conn_id)
}

/// Send a message over an existing WebSocket connection.
pub fn ws_send<F: FnOnce(WsSendRequest) -> Result<ErrorReply, SkillError>>(conn_id: &str, data: Vec<u8>, message_type: &str, host: F) -> (r: Result<(), SkillError>)
    requires
        forall|q: WsSendRequest| q.conn_id@ == conn_id@ && q.data@ == data@ && q.message_type@ == message_type@
            ==> #[trigger] call_requires(host, (q,)),
    ensures
        exists|q: WsSendRequest, reply: Result<ErrorReply, SkillError>|
            q.conn_id@ == conn_id@ && q.data@ == data@ && q.message_type@ == message_type@
            && #[trigger] call_ensures(host, (q,), reply)
            && r == host_outcome(reply, |x: ErrorReply| x.error, |x: ErrorReply| ()),
{
    let req = WsSendRequest { conn_id: conn_id.to_owned(), data, message_type: message_type.to_owned() };
    let resp = host(req)?;
    if !resp.error.as_str().is_empty() {
        return Err(SkillError(resp.error));
    }
    Ok(())
}

/// Send a Close frame and remove the connection.
pub fn ws_close<F: FnOnce(WsCloseRequest) -> Result<ErrorReply, SkillError>>(conn_id: &str, code: u32, reason: &str, host: F) -> (r: Result<(), SkillError>)
    requires
        forall|q: WsCloseRequest| q.conn_id@ == conn_id@ && q.code == code && q.reason@ == reason@
            ==> #[trigger] call_requires(host, (q,)),
    ensures
        exists|q: WsCloseRequest, reply: Result<ErrorReply, SkillError>|
            q.conn_id@ == conn_id@ && q.code == code && q.reason@ == reason@
            && #[trigger] call_ensures(host, (q,), reply)
            && r == host_outcome(reply, |x: ErrorReply| x.error, |x: ErrorReply| ()),
{
    let req = WsCloseRequest { conn_id: conn_id.to_owned(), code, reason: reason.to_owned() };
    let resp = host(req)?;
    if !resp.error.as_str().is_empty() {
        return Err(SkillError(resp.error));
    }
    Ok(())
}

} // verus!
