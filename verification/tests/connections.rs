use luminarys_sdk::http::Header;
use luminarys_sdk::tcp::{
    tcp_close, tcp_connect, tcp_request, tcp_set_callback, tcp_write, ErrorKind, TcpCloseRequest,
    TcpConnectOptions, TcpSetCallbackRequest, TcpWriteRequest,
};
use luminarys_sdk::types::{ConnReply, ErrorReply, SkillError, TcpRequestOptions, TcpRequestResult};
use luminarys_sdk::ws::{
    ws_close, ws_connect, ws_message, ws_send, WsCloseRequest, WsConnectRequest, WsSendRequest,
    WS_MESSAGE_BINARY, WS_MESSAGE_CLOSE, WS_MESSAGE_TEXT,
};

fn no_error() -> Result<ErrorReply, SkillError> {
    Ok(ErrorReply { error: String::new() })
}

#[test]
fn skill_error_shows_abi_prefix() {
    assert_eq!(SkillError("boom".into()).display(), "abi error: boom");
    assert_eq!(SkillError(String::new()).display(), "abi error: ");
}

#[test]
fn tcp_request_returns_data_or_error() {
    let opts = TcpRequestOptions { addr: "h:1".into(), data: b"ping".to_vec(), tls: true, ..Default::default() };
    let r = tcp_request(&opts, |q: &TcpRequestOptions| {
        assert_eq!(q.addr, "h:1");
        assert_eq!(q.data, b"ping".to_vec());
        assert!(q.tls);
        Ok(TcpRequestResult { data: b"pong".to_vec(), error: String::new() })
    })
    .unwrap();
    assert_eq!(r.data, b"pong".to_vec());
    let e = tcp_request(&opts, |_q: &TcpRequestOptions| {
        Ok(TcpRequestResult { data: vec![], error: "refused".into() })
    });
    assert_eq!(e.unwrap_err().0, "refused");
    let e = tcp_request(&opts, |_q: &TcpRequestOptions| Err(SkillError("io".into())));
    assert_eq!(e.unwrap_err().0, "io");
}

#[test]
fn tcp_connect_returns_conn_id() {
    let opts = TcpConnectOptions { addr: "db:5432".into(), callback: "on_data".into(), ..Default::default() };
    let id = tcp_connect(opts, |q: TcpConnectOptions| {
        assert_eq!(q.addr, "db:5432");
        assert_eq!(q.callback, "on_data");
        Ok(ConnReply { conn_id: "c-1".into(), error: String::new() })
    })
    .unwrap();
    assert_eq!(id, "c-1");
}

#[test]
fn tcp_connect_reply_error_is_kept_as_is() {
    let e = tcp_connect(TcpConnectOptions::default(), |_q: TcpConnectOptions| {
        Ok(ConnReply { conn_id: String::new(), error: "dial timeout".into() })
    });
    assert_eq!(e.unwrap_err().0, "dial timeout");
}

#[test]
fn tcp_connect_transport_error_names_the_operation() {
    let e = tcp_connect(TcpConnectOptions::default(), |_q: TcpConnectOptions| Err(SkillError("x".into())));
    assert_eq!(e.unwrap_err().0, "tcp_connect: abi error: x");
}

#[test]
fn tcp_set_callback_write_close() {
    assert!(tcp_set_callback("c-1", "cb", |q: TcpSetCallbackRequest| {
        assert_eq!((q.conn_id.as_str(), q.callback.as_str()), ("c-1", "cb"));
        no_error()
    })
    .is_ok());
    assert!(tcp_write("c-1", vec![7, 8], |q: TcpWriteRequest| {
        assert_eq!((q.conn_id.as_str(), q.data.as_slice()), ("c-1", &[7u8, 8][..]));
        no_error()
    })
    .is_ok());
    assert!(tcp_close("c-1", |q: TcpCloseRequest| {
        assert_eq!(q.conn_id, "c-1");
        no_error()
    })
    .is_ok());
}

#[test]
fn tcp_unit_calls_report_errors() {
    let e = tcp_write("c-9", vec![], |_q: TcpWriteRequest| Ok(ErrorReply { error: "unknown conn".into() }));
    assert_eq!(e.unwrap_err().0, "unknown conn");
    let e = tcp_write("c-9", vec![], |_q: TcpWriteRequest| Err(SkillError("gone".into())));
    assert_eq!(e.unwrap_err().0, "tcp_write: abi error: gone");
    let e = tcp_set_callback("c", "", |_q: TcpSetCallbackRequest| Err(SkillError("e".into())));
    assert_eq!(e.unwrap_err().0, "tcp_set_callback: abi error: e");
    let e = tcp_close("c", |_q: TcpCloseRequest| Err(SkillError("e".into())));
    assert_eq!(e.unwrap_err().0, "tcp_close: abi error: e");
    let e = tcp_close("c", |_q: TcpCloseRequest| Ok(ErrorReply { error: "closed".into() }));
    assert_eq!(e.unwrap_err().0, "closed");
}

#[test]
fn error_kind_defaults_to_no_error() {
    assert_eq!(ErrorKind::default(), ErrorKind::NoError);
    assert_ne!(ErrorKind::Eof, ErrorKind::Reset);
}

#[test]
fn ws_message_names() {
    assert_eq!((WS_MESSAGE_TEXT, WS_MESSAGE_BINARY, WS_MESSAGE_CLOSE), ("text", "binary", "close"));
    assert_eq!((ws_message::TEXT, ws_message::BINARY, ws_message::CLOSE), ("text", "binary", "close"));
}

#[test]
fn ws_connect_sends_request() {
    let headers = vec![Header::new("Authorization", "Bearer t")];
    let id = ws_connect("wss://h/s", headers, 5000, "on_ws", true, |q: WsConnectRequest| {
        assert_eq!(q.url, "wss://h/s");
        assert_eq!(q.headers.len(), 1);
        assert_eq!(q.headers[0].value, "Bearer t");
        assert_eq!((q.timeout_ms, q.callback.as_str(), q.insecure), (5000, "on_ws", true));
        Ok(ConnReply { conn_id: "ws-1".into(), error: String::new() })
    })
    .unwrap();
    assert_eq!(id, "ws-1");
    let e = ws_connect("wss://h", vec![], 0, "", false, |_q: WsConnectRequest| {
        Ok(ConnReply { conn_id: String::new(), error: "handshake".into() })
    });
    assert_eq!(e.unwrap_err().0, "handshake");
    let e = ws_connect("wss://h", vec![], 0, "", false, |_q: WsConnectRequest| Err(SkillError("t".into())));
    assert_eq!(e.unwrap_err().0, "t");
}

#[test]
fn ws_send_and_close() {
    assert!(ws_send("ws-1", b"hi".to_vec(), WS_MESSAGE_TEXT, |q: WsSendRequest| {
        assert_eq!((q.conn_id.as_str(), q.data.as_slice(), q.message_type.as_str()), ("ws-1", &b"hi"[..], "text"));
        no_error()
    })
    .is_ok());
    let e = ws_send("ws-1", vec![], WS_MESSAGE_BINARY, |_q: WsSendRequest| Ok(ErrorReply { error: "closed".into() }));
    assert_eq!(e.unwrap_err().0, "closed");
    assert!(ws_close("ws-1", 1000, "bye", |q: WsCloseRequest| {
        assert_eq!((q.conn_id.as_str(), q.code, q.reason.as_str()), ("ws-1", 1000, "bye"));
        no_error()
    })
    .is_ok());
    let e = ws_close("ws-1", 1000, "", |_q: WsCloseRequest| Err(SkillError("gone".into())));
    assert_eq!(e.unwrap_err().0, "gone");
}
