//! TCP / TLS connection API. Requires `tcp.enabled`.
use vstd::prelude::*;

use crate::types::{
    error_or, host_outcome, skill_error_text, ConnReply, ErrorReply, SkillError, TcpRequestOptions,
    TcpRequestResult,
};

verus! {

/// Classifies a TCP connection error.
#[derive(Debug, Clone, Copy, PartialEq, Eq, Structural)]
pub enum ErrorKind {
    /// Data event — no error.
    NoError,
    /// Remote peer closed the connection gracefully.
    Eof,
    /// Connection reset by peer.
    Reset,
    /// Read deadline exceeded.
    Timeout,
    /// TLS handshake or record-layer error.
    Tls,
    /// Generic I/O error.
    Io,
}

impl Default for ErrorKind {
    fn default() -> (k: ErrorKind)
        ensures
            k == ErrorKind::NoError,
    {
        ErrorKind::NoError
    }
}

/// Payload delivered to the skill's TCP read callback.
#[derive(Debug, Clone, Default)]
pub struct ConnEvent {
    pub conn_id: String,
    pub data: Vec<u8>,
    pub error_kind: ErrorKind,
    pub error_msg: String,
}

/// Options for [`tcp_connect`].
#[derive(Debug, Clone, Default)]
pub struct TcpConnectOptions {
    /// Host:port to connect to (required).
    pub addr: String,
    /// Callback method name called with [`ConnEvent`] on reads. `""` = drain silently.
    pub callback: String,
    /// Use TLS encryption.
    pub tls: bool,
    /// Skip TLS certificate verification (dev only).
    pub insecure: bool,
    /// Override TLS SNI hostname.
    pub server_name: String,
    /// Dial timeout in milliseconds. `0` = 30 s default.
    pub timeout_ms: i64,
}

/// Request for `tcp_set_callback`.
#[derive(Debug, Clone)]
pub struct TcpSetCallbackRequest {
    pub conn_id: String,
    pub callback: String,
}

/// Request for `tcp_write`.
#[derive(Debug, Clone)]
pub struct TcpWriteRequest {
    pub conn_id: String,
    pub data: Vec<u8>,
}

/// Request for `tcp_close`.
#[derive(Debug, Clone)]
pub struct TcpCloseRequest {
    pub conn_id: String,
}

/// The message of a failed host call for operation `op`: the operation's
/// name, `": "`, and the text the transport error shows.
pub open spec fn transport_failure_text(op: Seq<char>, e: SkillError) -> Seq<char> {
    op + ": "@ + skill_error_text(e.0@)
}

/// `r` is what a connection-opening call for `op` gives for `reply`.
pub open spec fn conn_id_outcome(r: Result<String, SkillError>, reply: Result<ConnReply, SkillError>, op: Seq<char>) -> bool {
    match reply {
        Err(e) => r matches Err(f) && f.0@ == transport_failure_text(op, e),
        Ok(x) => r == error_or(x.error, x.conn_id),
    }
}

/// `r` is what a connection call for `op` with no result gives for `reply`.
pub open spec fn unit_outcome(r: Result<(), SkillError>, reply: Result<ErrorReply, SkillError>, op: Seq<char>) -> bool {
    match reply {
        Err(e) => r matches Err(f) && f.0@ == transport_failure_text(op, e),
        Ok(x) => r == error_or(x.error, ()),
    }
}

fn failure(op: &str, e: &SkillError) -> (f: SkillError)
    ensures
        f.0@ == transport_failure_text(op@, *e),
{
    let mut s = String::from_str(op);
    s.append(": ");
    let shown = e.display();
    s.append(shown.as_str());
    SkillError(s)
}

fn extract_conn_id(result: Result<ConnReply, SkillError>, op: &str) -> (r: Result<String, SkillError>)
    ensures
        conn_id_outcome(r, result, op@),
{
    match result {
        Err(e) => Err(failure(op, &e)),
        Ok(r) => {
            if !r.error.as_str().is_empty() {
                Err(SkillError(r.error))
            } else {
                Ok(r.conn_id)
            }
        },
    }
}

fn extract_error(result: Result<ErrorReply, SkillError>, op: &str) -> (r: Result<(), SkillError>)
    ensures
        unit_outcome(r, result, op@),
{
    match result {
        Err(e) => Err(failure(op, &e)),
        Ok(r) => {
            if !r.error.as_str().is_empty() {
                Err(SkillError(r.error))
            } else {
                Ok(())
            }
        },
    }
}

/// Perform a synchronous TCP request: connect, send, read, close. Requires `tcp.enabled`.
pub fn tcp_request<F: FnOnce(&TcpRequestOptions) -> Result<TcpRequestResult, SkillError>>(opts: &TcpRequestOptions, host: F) -> (r: Result<TcpRequestResult, SkillError>)
    requires
        call_requires(host, (opts,)),
    ensures
        exists|reply: Result<TcpRequestResult, SkillError>|
            #[trigger] call_ensures(host, (opts,), reply)
            && r == host_outcome(reply, |x: TcpRequestResult| x.error, |x: TcpRequestResult| x),
{
    let resp = host(opts)?;
    if !resp.error.as_str().is_empty() {
        return Err(SkillError(resp.error));
    }
    Ok(resp)
}

/// Dial a TCP connection (plain or TLS) and return its ID. Requires `tcp.enabled`.
pub fn tcp_connect<F: FnOnce(TcpConnectOptions) -> Result<ConnReply, SkillError>>(opts: TcpConnectOptions, host: F) -> (r: Result<String, SkillError>)
    requires
        call_requires(host, (opts,)),
    ensures
        exists|reply: Result<ConnReply, SkillError>|
            #[trigger] call_ensures(host, (opts,), reply) && conn_id_outcome(r, reply, "tcp_connect"@),
{
    extract_conn_id(host(opts), "tcp_connect")
}

/// Update the read callback for an existing connection.
pub fn tcp_set_callback<F: FnOnce(TcpSetCallbackRequest) -> Result<ErrorReply, SkillError>>(conn_id: &str, callback: &str, host: F) -> (r: Result<(), SkillError>)
    requires
        forall|q: TcpSetCallbackRequest| q.conn_id@ == conn_id@ && q.callback@ == callback@
            ==> #[trigger] call_requires(host, (q,)),
    ensures
        exists|q: TcpSetCallbackRequest, reply: Result<ErrorReply, SkillError>|
            q.conn_id@ == conn_id@ && q.callback@ == callback@
            && #[trigger] call_ensures(host, (q,), reply)
            && unit_outcome(r, reply, "tcp_set_callback"@),
{
    let req = TcpSetCallbackRequest { conn_id: conn_id.to_owned(), callback: callback.to_owned() };
    extract_error(host(req), "tcp_set_callback")
}

/// Send data over an existing connection.
pub fn tcp_write<F: FnOnce(TcpWriteRequest) -> Result<ErrorReply, SkillError>>(conn_id: &str, data: Vec<u8>, host: F) -> (r: Result<(), SkillError>)
    requires
        forall|q: TcpWriteRequest| q.conn_id@ == conn_id@ && q.data@ == data@ ==> #[trigger] call_requires(host, (q,)),
    ensures
        exists|q: TcpWriteRequest, reply: Result<ErrorReply, SkillError>|
            q.conn_id@ == conn_id@ && q.data@ == data@
            && #[trigger] call_ensures(host, (q,), reply)
            && unit_outcome(r, reply, "tcp_write"@),
{
    let req = TcpWriteRequest { conn_id: conn_id.to_owned(), data };
    extract_error(host(req), "tcp_write")
}

/// Close the connection. Idempotent.
pub fn tcp_close<F: FnOnce(TcpCloseRequest) -> Result<ErrorReply, SkillError>>(conn_id: &str, host: F) -> (r: Result<(), SkillError>)
    requires
        forall|q: TcpCloseRequest| q.conn_id@ == conn_id@ ==> #[trigger] call_requires(host, (q,)),
    ensures
        exists|q: TcpCloseRequest, reply: Result<ErrorReply, SkillError>|
            q.conn_id@ == conn_id@
            && #[trigger] call_ensures(host, (q,), reply)
            && unit_outcome(r, reply, "tcp_close"@),
{
    let req = TcpCloseRequest { conn_id: conn_id.to_owned() };
    extract_error(host(req), "tcp_close")
}

/// A connection call whose transport fails reports the operation's name,
/// `": abi error: "` and the transport's message; a reply with error text
/// fails with exactly that text; any other reply succeeds, with the
/// connection ID the host gave.
pub proof fn law_connection_outcomes(r: Result<String, SkillError>, reply: Result<ConnReply, SkillError>, op: Seq<char>)
    requires
        conn_id_outcome(r, reply, op),
    ensures
        reply matches Err(e) ==> (r matches Err(f) && f.0@ == op + ": abi error: "@ + e.0@),
        reply matches Ok(x) ==> (x.error@.len() != 0 ==> r == Err::<String, SkillError>(SkillError(x.error))),
        reply matches Ok(x) ==> (x.error@.len() == 0 ==> r == Ok::<String, SkillError>(x.conn_id)),
{
    reveal_strlit(": ");
    reveal_strlit("abi error: ");
    reveal_strlit(": abi error: ");
    assert(": "@ + "abi error: "@ =~= ": abi error: "@);
    if let Err(e) = reply {
        assert(op + ": "@ + ("abi error: "@ + e.0@) =~= op + ": abi error: "@ + e.0@);
    }
}

/// The same for the connection calls that give no value.
pub proof fn law_unit_connection_outcomes(r: Result<(), SkillError>, reply: Result<ErrorReply, SkillError>, op: Seq<char>)
    requires
        unit_outcome(r, reply, op),
    ensures
        reply matches Err(e) ==> (r matches Err(f) && f.0@ == op + ": abi error: "@ + e.0@),
        reply matches Ok(x) ==> (x.error@.len() != 0 ==> r == Err::<(), SkillError>(SkillError(x.error))),
        reply matches Ok(x) ==> (x.error@.len() == 0 ==> r == Ok::<(), SkillError>(())),
{
    reveal_strlit(": ");
    reveal_strlit("abi error: ");
    reveal_strlit(": abi error: ");
    assert(": "@ + "abi error: "@ =~= ": abi error: "@);
    if let Err(e) = reply {
        assert(op + ": "@ + ("abi error: "@ + e.0@) =~= op + ": abi error: "@ + e.0@);
    }
}

} // verus!
