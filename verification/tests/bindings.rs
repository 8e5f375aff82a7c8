use arnelify_native::bindings::{
    http1_add_header, http1_create, http1_destroy, http1_end, http1_logger, http1_on,
    http1_push_bytes, http1_push_file, http1_push_json, http1_set_code, http1_set_compression,
    http1_set_headers, http1_start, http1_stop, http1_try_create, http2_create, http2_end,
    http2_on, http2_push_bytes, http2_set_code, http3_create, http3_set_code, ws_try_create,
    ws_close, ws_create, ws_on, ws_push, ws_push_bytes, ws_push_json, wt_create, wt_push, Runtime,
};
use arnelify_native::servers::ServerCall;
use arnelify_native::service::{attachment_flag, payload_len};
use arnelify_native::streams::StreamCall;
use arnelify_native::json::JsonValue;

const HTTP1_OPTS: &str = "{\"allow_empty_files\": true, \"block_size_kb\": 64, \"charset\": \"utf-8\", \
    \"compression\": true, \"keep_alive\": 30, \"keep_extensions\": true, \"max_fields\": 60, \
    \"max_fields_size_total_mb\": 1, \"max_files\": 3, \"max_files_size_total_mb\": 60, \
    \"max_file_size_mb\": 60, \"port\": 4433, \"storage_path\": \"/var/www/storage\", \"thread_limit\": 4}";

const HTTP2_OPTS: &str = "{\"allow_empty_files\": true, \"block_size_kb\": 64, \"cert_pem\": \"certs/cert.pem\", \
    \"charset\": \"utf-8\", \"compression\": true, \"keep_alive\": 30, \"keep_extensions\": true, \
    \"key_pem\": \"certs/key.pem\", \"max_fields\": 60, \"max_fields_size_total_mb\": 1, \"max_files\": 3, \
    \"max_files_size_total_mb\": 60, \"max_file_size_mb\": 60, \"port\": 4433, \
    \"storage_path\": \"/var/www/storage\", \"thread_limit\": 4}";

const WS_OPTS: &str = "{\"block_size_kb\": 64, \"compression\": true, \"handshake_timeout\": 30, \
    \"max_message_size_kb\": 64, \"ping_timeout\": 30, \"port\": 4433, \"send_timeout\": 30, \"thread_limit\": 4}";

const WT_OPTS: &str = "{\"block_size_kb\": 64, \"cert_pem\": \"certs/cert.pem\", \"compression\": true, \
    \"handshake_timeout\": 30, \"key_pem\": \"certs/key.pem\", \"max_message_size_kb\": 60, \
    \"ping_timeout\": 30, \"port\": 4433, \"send_timeout\": 30, \"thread_limit\": 4}";

fn created(r: (i32, Option<String>)) -> i32 {
    assert_eq!(r.1, None);
    assert!(r.0 > 0);
    r.0
}

#[test]
fn create_hands_out_increasing_ids() {
    let mut rt = Runtime::new();
    assert_eq!(created(http1_create(&mut rt, HTTP1_OPTS.as_bytes())), 1);
    assert_eq!(created(http1_create(&mut rt, HTTP1_OPTS.as_bytes())), 2);
    http1_destroy(&mut rt, 1);
    assert!(rt.http1.server(1).is_none());
    assert!(rt.http1.server(2).is_some());
    assert_eq!(created(http1_create(&mut rt, HTTP1_OPTS.as_bytes())), 3);
    // Each kind of server counts on its own.
    assert_eq!(created(http2_create(&mut rt, HTTP2_OPTS.as_bytes())), 1);
    assert_eq!(created(http3_create(&mut rt, HTTP2_OPTS.as_bytes())), 1);
    assert_eq!(created(ws_create(&mut rt, WS_OPTS.as_bytes())), 1);
    assert_eq!(created(wt_create(&mut rt, WT_OPTS.as_bytes())), 1);
    let e = rt.http2.server(1).unwrap();
    assert_eq!(e.opts.cert_pem, "certs/cert.pem");
    assert_eq!(e.opts.port, 4433);
}

#[test]
fn create_refuses_bad_text() {
    let mut rt = Runtime::new();
    assert_eq!(
        http1_create(&mut rt, &[0xff, 0xfe]),
        (0, Some("[Arnelify Server]: Rust FFI error in http1_create: Invalid UTF-8 in 'c_opts'.".to_string()))
    );
    assert_eq!(
        ws_create(&mut rt, b"{not json"),
        (0, Some("[Arnelify Server]: Rust FFI error in ws_create: Invalid JSON in 'c_opts'.".to_string()))
    );
    assert_eq!(rt.http1.servers.last_id(), 0);
    assert_eq!(created(http1_create(&mut rt, HTTP1_OPTS.as_bytes())), 1);
}

#[test]
fn create_aborts_on_unreadable_option() {
    let mut rt = Runtime::new();
    let text = HTTP1_OPTS.replace("\"port\": 4433", "\"port\": 70000");
    assert_eq!(
        http1_try_create(&mut rt, text.as_bytes()),
        Err("[Arnelify Server]: Rust FFI error: 'port' out of u16 range.: TryFromIntError(())".to_string())
    );
    assert!(rt.http1.server(1).is_none());
    assert_eq!(
        http1_try_create(&mut rt, b"[]"),
        Err("[Arnelify Server]: Rust FFI error: 'allow_empty_files' missing or not a bool.".to_string())
    );
    let ws_text = WS_OPTS.replace("\"port\": 4433", "\"port\": 65536");
    assert_eq!(
        ws_try_create(&mut rt, ws_text.as_bytes()),
        Err("[Arnelify Server]: Rust FFI error: 'port' out of u16 range.: TryFromIntError(())".to_string())
    );
    assert_eq!(rt.ws.servers.last_id(), 0);
    // Text that is not JSON is reported, not fatal.
    assert_eq!(
        http1_try_create(&mut rt, b"nope"),
        Ok((0, Some("[Arnelify Server]: Rust FFI error in http1_create: Invalid JSON in 'c_opts'.".to_string())))
    );
    assert_eq!(http1_try_create(&mut rt, HTTP1_OPTS.as_bytes()), Ok((1, None)));
}

#[test]
fn server_calls_are_recorded() {
    let mut rt = Runtime::new();
    let id = created(http1_create(&mut rt, HTTP1_OPTS.as_bytes()));
    http1_logger(&mut rt, id, 11);
    assert_eq!(http1_on(&mut rt, id, b"/", 22), None);
    assert_eq!(http1_on(&mut rt, id, b"/", 33), None);
    http1_start(&mut rt, id);
    http1_stop(&mut rt, id);
    // Calls on a server that does not exist are ignored.
    http1_start(&mut rt, 99);
    assert_eq!(http1_on(&mut rt, 99, b"/x", 1), None);
    assert_eq!(
        http1_on(&mut rt, id, &[0xc3], 1),
        Some("[Arnelify Server]: Rust FFI error in http1_on: Invalid UTF-8 in 'c_path'.".to_string())
    );
    let e = rt.http1.server(id).unwrap();
    assert_eq!(e.calls.len(), 5);
    assert!(matches!(e.calls[0], ServerCall::Logger { callback: 11 }));
    assert!(matches!(&e.calls[1], ServerCall::On { path, callback: 22 } if path == "/"));
    assert!(matches!(e.calls[3], ServerCall::Start));
    assert!(matches!(e.calls[4], ServerCall::Stop));
    assert_eq!(e.handler_for("/"), Some(33));
    assert_eq!(e.handler_for("/other"), None);
    assert_eq!(rt.http1.logger(id), Some(11));
}

#[test]
fn stream_bindings_are_silent_before_any_request() {
    let mut rt = Runtime::new();
    assert_eq!(http1_set_code(&mut rt, 1, 404), None);
    assert_eq!(http1_end(&mut rt, 5), None);
    assert_eq!(ws_close(&mut rt, 1), None);
}

#[test]
fn request_round_records_stream_calls() {
    let mut rt = Runtime::new();
    let id = created(http1_create(&mut rt, HTTP1_OPTS.as_bytes()));
    assert_eq!(http1_on(&mut rt, id, b"/", 7), None);
    assert_eq!(rt.http1.dispatch(id, "/nope"), None);
    let (cb, sid) = rt.http1.dispatch(id, "/").unwrap();
    assert_eq!((cb, sid), (7, 1));

    assert_eq!(http1_set_code(&mut rt, sid, 404), None);
    assert_eq!(http1_add_header(&mut rt, sid, b"Content-Type", b"text/plain"), None);
    assert_eq!(
        http1_add_header(&mut rt, sid, b"X", &[0x80]),
        Some("[Arnelify Server]: Rust FFI error in http1_add_header: Invalid UTF-8 in 'c_value'.".to_string())
    );
    assert_eq!(http1_set_compression(&mut rt, sid, b""), None);
    assert_eq!(http1_set_compression(&mut rt, sid, b"br"), None);
    assert_eq!(http1_push_bytes(&mut rt, sid, b"hi", 1), None);
    assert_eq!(http1_push_file(&mut rt, sid, b"/tmp/a.txt", 0), None);
    assert_eq!(http1_push_json(&mut rt, sid, b"{\"ok\": true}", 2), None);
    assert_eq!(
        http1_push_json(&mut rt, sid, b"{\"ok\": ", 0),
        Some("[Arnelify Server]: Rust FFI error in http1_push_json: Invalid JSON in 'c_json'.".to_string())
    );
    assert_eq!(http1_set_headers(&mut rt, sid, b"[{\"a\": 1}, {\"b\": \"x\"}]"), None);
    assert_eq!(
        http1_set_headers(&mut rt, sid, b"{\"a\": 1}"),
        Some("[Arnelify Server]: Rust FFI error in http1_set_headers: Invalid JSON in 'c_headers'.".to_string())
    );
    assert_eq!(http1_end(&mut rt, sid), None);
    assert_eq!(
        http1_end(&mut rt, sid + 1),
        Some("[Arnelify Server]: Rust FFI error in http1_end: No stream found.".to_string())
    );

    let stream = rt.http1.finish_request(sid).unwrap();
    let c = &stream.calls;
    assert_eq!(c.len(), 9);
    assert!(matches!(c[0], StreamCall::SetCode { code: 404 }));
    assert!(matches!(&c[1], StreamCall::AddHeader { key, value } if key == "Content-Type" && value == "text/plain"));
    assert!(matches!(c[2], StreamCall::SetCompression { compression: None }));
    assert!(matches!(&c[3], StreamCall::SetCompression { compression: Some(s) } if s == "br"));
    assert!(matches!(&c[4], StreamCall::PushBytes { bytes, is_attachment: true } if bytes == b"hi"));
    assert!(matches!(&c[5], StreamCall::PushFile { path, is_attachment: false } if path == "/tmp/a.txt"));
    assert!(matches!(&c[6], StreamCall::PushJson { json: JsonValue::Object(_), is_attachment: false }));
    assert!(matches!(&c[7], StreamCall::SetHeaders { headers } if headers.len() == 2 && headers[1].1 == "x"));
    assert!(matches!(c[8], StreamCall::End));

    // The stream is gone once the request is over.
    assert_eq!(
        http1_set_code(&mut rt, sid, 200),
        Some("[Arnelify Server]: Rust FFI error in http1_set_code: No stream found.".to_string())
    );
    assert!(rt.http1.finish_request(sid).is_none());
}

#[test]
fn status_code_keeps_low_bits() {
    let mut rt = Runtime::new();
    let sid = rt.http3.begin_request();
    assert_eq!(http3_set_code(&mut rt, sid, 65536 + 200), None);
    assert_eq!(http3_set_code(&mut rt, sid, -1), None);
    let s = rt.http3.finish_request(sid).unwrap();
    assert!(matches!(s.calls[0], StreamCall::SetCode { code: 200 }));
    assert!(matches!(s.calls[1], StreamCall::SetCode { code: 65535 }));
}

#[test]
fn websocket_stream_calls() {
    let mut rt = Runtime::new();
    let id = created(ws_create(&mut rt, WS_OPTS.as_bytes()));
    assert_eq!(ws_on(&mut rt, id, b"connect", 5), None);
    let (cb, sid) = rt.ws.dispatch(id, "connect").unwrap();
    assert_eq!(cb, 5);
    assert_eq!(ws_push(&mut rt, sid, b"{\"a\": [1, 2]}", b"\x00\x01"), None);
    assert_eq!(ws_push_bytes(&mut rt, sid, b""), None);
    assert_eq!(ws_push_json(&mut rt, sid, b"null"), None);
    assert_eq!(
        ws_push_json(&mut rt, sid, &[0xff]),
        Some("[Arnelify Server]: Rust FFI error in ws_push_json: Invalid UTF-8 in 'c_json'.".to_string())
    );
    assert_eq!(ws_close(&mut rt, sid), None);
    let s = rt.ws.finish_request(sid).unwrap();
    assert_eq!(s.calls.len(), 4);
    assert!(matches!(&s.calls[0], StreamCall::Push { json: JsonValue::Object(_), bytes } if bytes == &vec![0u8, 1u8]));
    assert!(matches!(&s.calls[1], StreamCall::SendBytes { bytes } if bytes.is_empty()));
    assert!(matches!(&s.calls[2], StreamCall::SendJson { json: JsonValue::Null }));
    assert!(matches!(s.calls[3], StreamCall::Close));
    assert_eq!(
        wt_push(&mut rt, 1, b"{}", b""),
        None,
        "no WebTransport request was ever handled"
    );
}

#[test]
fn stream_ids_count_per_kind() {
    let mut rt = Runtime::new();
    assert_eq!(rt.http1.begin_request(), 1);
    assert_eq!(rt.http1.begin_request(), 2);
    assert_eq!(rt.ws.begin_request(), 1);
}

#[test]
fn c_buffers_and_flags() {
    assert_eq!(payload_len(true, 10), 0);
    assert_eq!(payload_len(false, 0), 0);
    assert_eq!(payload_len(false, -5), 0);
    assert_eq!(payload_len(false, 12), 12);
    assert!(attachment_flag(1));
    assert!(!attachment_flag(0));
    assert!(!attachment_flag(2));
}

#[test]
fn http2_handler_scenario() {
    // A handler that answers 200 with a body, as in the HTTP/2 example.
    let mut rt = Runtime::new();
    let id = created(http2_create(&mut rt, HTTP2_OPTS.as_bytes()));
    assert_eq!(http2_on(&mut rt, id, b"/", 9), None);
    let (cb, sid) = rt.http2.dispatch(id, "/").unwrap();
    assert_eq!((cb, sid), (9, 1));
    assert_eq!(http2_set_code(&mut rt, sid, 200), None);
    assert_eq!(http2_push_bytes(&mut rt, sid, b"{\"ok\":1}", 0), None);
    assert_eq!(http2_end(&mut rt, sid), None);
    let s = rt.http2.finish_request(sid).unwrap();
    assert_eq!(s.calls.len(), 3);
    assert!(matches!(s.calls[0], StreamCall::SetCode { code: 200 }));
    assert!(matches!(&s.calls[1], StreamCall::PushBytes { bytes, is_attachment: false } if bytes == b"{\"ok\":1}"));
    assert!(matches!(s.calls[2], StreamCall::End));
    assert!(rt.http2.finish_request(sid).is_none());
    // The next request gets the next stream id.
    assert_eq!(rt.http2.dispatch(id, "/").unwrap().1, 2);
}
