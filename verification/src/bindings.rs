//! The C bindings of the server library, one function per exported symbol,
//! over a [`Runtime`] that holds the state that they share.
//!
//! A binding that takes a C string receives the bytes before its NUL; one
//! that takes a C buffer receives the bytes that [`payload_len`] says to
//! read from it; a C callback is received as its address. A binding that
//! reports a problem returns the line to print.
use vstd::prelude::*;
use crate::config::{Http1Opts, Http2Opts, Http3Opts, WebSocketOpts, WebTransportOpts};
use crate::servers::{ServerCall, ServerCallModel, ServersModel};
use crate::service::{
    add_header_call, attachment_flag, c_flag, create_effect, decode_add_header, decode_on,
    decode_push, decode_push_file, decode_push_json, decode_send_json, decode_set_compression,
    decode_set_headers, bytes_to_vec, destroy_effect, on_call, on_topic_call, push_call,
    push_file_call, push_json_call, send_json_call, server_effect, set_compression_call,
    set_headers_call, status_code, stream_effect, text_of, create_stop, Service, ServiceModel,
};
use crate::streams::{CallModel, StreamCall, StreamsModel};

verus! {

/// The state shared by the bindings: for each kind of server, its servers
/// and the streams of their requests.
pub struct Runtime {
    pub http1: Service<Http1Opts>,
    pub http2: Service<Http2Opts>,
    pub ws: Service<WebSocketOpts>,
    pub http3: Service<Http3Opts>,
    pub wt: Service<WebTransportOpts>,
}

/// Only the http1 part of the runtime may differ.
pub open spec fn only_http1_changed(new: Runtime, old: Runtime) -> bool {
    new.http2 == old.http2
    && new.ws == old.ws
    && new.http3 == old.http3
    && new.wt == old.wt
}

/// Only the http2 part of the runtime may differ.
pub open spec fn only_http2_changed(new: Runtime, old: Runtime) -> bool {
    new.http1 == old.http1
    && new.ws == old.ws
    && new.http3 == old.http3
    && new.wt == old.wt
}

/// Only the ws part of the runtime may differ.
pub open spec fn only_ws_changed(new: Runtime, old: Runtime) -> bool {
    new.http1 == old.http1
    && new.http2 == old.http2
    && new.http3 == old.http3
    && new.wt == old.wt
}

/// Only the http3 part of the runtime may differ.
pub open spec fn only_http3_changed(new: Runtime, old: Runtime) -> bool {
    new.http1 == old.http1
    && new.http2 == old.http2
    && new.ws == old.ws
    && new.wt == old.wt
}

/// Only the wt part of the runtime may differ.
pub open spec fn only_wt_changed(new: Runtime, old: Runtime) -> bool {
    new.http1 == old.http1
    && new.http2 == old.http2
    && new.ws == old.ws
    && new.http3 == old.http3
}

/// No server created yet.
pub open spec fn no_servers<O>() -> ServersModel<O> {
    ServersModel { last_id: 0, entries: Map::empty() }
}

/// No request handled yet; the first stream id is 1.
pub open spec fn no_streams() -> StreamsModel {
    StreamsModel { opened: false, next_id: 1, calls: Map::empty() }
}

impl Runtime {
    /// Every server table of the runtime is well formed: each registered id
    /// lies in `1..=last_id` of its table.
    pub open spec fn wf(self) -> bool {
        &&& self.http1.model().servers.wf()
        &&& self.http2.model().servers.wf()
        &&& self.ws.model().servers.wf()
        &&& self.http3.model().servers.wf()
        &&& self.wt.model().servers.wf()
    }

    /// No servers and no streams of any kind.
    pub fn new() -> (r: Runtime)
        ensures
            r.http1.model() == (ServiceModel::<Http1Opts> { servers: no_servers(), streams: no_streams() }),
            r.http2.model() == (ServiceModel::<Http2Opts> { servers: no_servers(), streams: no_streams() }),
            r.ws.model() == (ServiceModel::<WebSocketOpts> { servers: no_servers(), streams: no_streams() }),
            r.http3.model() == (ServiceModel::<Http3Opts> { servers: no_servers(), streams: no_streams() }),
            r.wt.model() == (ServiceModel::<WebTransportOpts> { servers: no_servers(), streams: no_streams() }),
            r.wf(),
    {
        Runtime {
            http1: Service::new(),
            http2: Service::new(),
            ws: Service::new(),
            http3: Service::new(),
            wt: Service::new(),
        }
    }
}

/// The server tables of `rt` are well formed (their type invariant).
fn tables_well_formed(rt: &Runtime)
    ensures
        rt.wf(),
{
    proof {
        use_type_invariant(&rt.http1.servers);
        use_type_invariant(&rt.http2.servers);
        use_type_invariant(&rt.ws.servers);
        use_type_invariant(&rt.http3.servers);
        use_type_invariant(&rt.wt.servers);
        rt.http1.servers.lemma_model_wf();
        rt.http2.servers.lemma_model_wf();
        rt.ws.servers.lemma_model_wf();
        rt.http3.servers.lemma_model_wf();
        rt.wt.servers.lemma_model_wf();
    }
}

// ----- HTTP/1.1 -----

/// `http1_add_header`: adds a header to the response of a stream.
pub fn http1_add_header(rt: &mut Runtime, c_stream_id: i32, c_key: &[u8], c_value: &[u8]) -> (r: Option<String>)
    ensures
        final(rt).wf(),
        (final(rt).http1.model(), text_of(r)) == stream_effect(
            old(rt).http1.model(),
            "http1_add_header"@,
            c_stream_id,
            add_header_call(c_key@, c_value@),
        ),
        only_http1_changed(*final(rt), *old(rt)),
{
    let call = decode_add_header(c_key, c_value);
    let r = rt.http1.stream_op("http1_add_header", c_stream_id, call);
    tables_well_formed(rt);
    r
}

/// `http1_create`: creates a HTTP/1.1 server from the JSON options `c_opts`;
/// returns its id (0 when the text is not JSON) and the line to print. The
/// inputs on which the process stops ([`create_stop`]) are left out: see
/// [`http1_try_create`].
pub fn http1_create(rt: &mut Runtime, c_opts: &[u8]) -> (r: (i32, Option<String>))
    requires
        create_stop(old(rt).http1.model(), c_opts@) is None,
    ensures
        final(rt).wf(),
        create_effect(old(rt).http1.model(), final(rt).http1.model(), "http1_create"@, c_opts@, r),
        only_http1_changed(*final(rt), *old(rt)),
        final(rt).http1.model().servers.wf(),
{
    let r = rt.http1.create("http1_create", c_opts);
    tables_well_formed(rt);
    r
}

/// `http1_create`, or the line with which it stops the process (nothing is
/// changed then).
pub fn http1_try_create(rt: &mut Runtime, c_opts: &[u8]) -> (r: Result<(i32, Option<String>), String>)
    ensures
        final(rt).wf(),
        match r {
            Ok(reply) => create_stop(old(rt).http1.model(), c_opts@) is None
                && create_effect(old(rt).http1.model(), final(rt).http1.model(), "http1_create"@, c_opts@, reply)
                && final(rt).http1.model().servers.wf(),
            Err(line) => create_stop(old(rt).http1.model(), c_opts@) == Some(line@) && *final(rt) == *old(rt),
        },
        only_http1_changed(*final(rt), *old(rt)),
{
    let r = match rt.http1.create_stop_line(c_opts) {
        Some(line) => Err(line),
        None => Ok(http1_create(rt, c_opts)),
    };
    tables_well_formed(rt);
    r
}

/// `http1_destroy`: forgets server `c_id`.
pub fn http1_destroy(rt: &mut Runtime, c_id: i32)
    ensures
        final(rt).wf(),
        final(rt).http1.model() == destroy_effect(old(rt).http1.model(), c_id),
        only_http1_changed(*final(rt), *old(rt)),
{
    rt.http1.destroy(c_id);
    tables_well_formed(rt);
}

/// `http1_end`: ends the response of a stream.
pub fn http1_end(rt: &mut Runtime, c_stream_id: i32) -> (r: Option<String>)
    ensures
        final(rt).wf(),
        (final(rt).http1.model(), text_of(r)) == stream_effect(
            old(rt).http1.model(),
            "http1_end"@,
            c_stream_id,
            Ok::<CallModel, Seq<char>>(CallModel::End),
        ),
        only_http1_changed(*final(rt), *old(rt)),
{
    let call = Ok(StreamCall::End);
    let r = rt.http1.stream_op("http1_end", c_stream_id, call);
    tables_well_formed(rt);
    r
}

/// `http1_logger`: gives server `c_id` the C logging function at address `c_cb`.
pub fn http1_logger(rt: &mut Runtime, c_id: i32, c_cb: usize)
    ensures
        final(rt).wf(),
        (final(rt).http1.model(), None::<Seq<char>>) == server_effect(old(rt).http1.model(), "http1_logger"@, c_id, Ok::<ServerCallModel, Seq<char>>(ServerCallModel::Logger(c_cb))),
        only_http1_changed(*final(rt), *old(rt)),
{
    let r = rt.http1.server_op("http1_logger", c_id, Ok(ServerCall::Logger { callback: c_cb }));
    assert(r is None);
    tables_well_formed(rt);
}

/// `http1_on`: routes requests for path `c_path` of server `c_id` to the C handler at address `c_cb`.
pub fn http1_on(rt: &mut Runtime, c_id: i32, c_path: &[u8], c_cb: usize) -> (r: Option<String>)
    ensures
        final(rt).wf(),
        (final(rt).http1.model(), text_of(r)) == server_effect(old(rt).http1.model(), "http1_on"@, c_id, on_call(c_path@, c_cb)),
        only_http1_changed(*final(rt), *old(rt)),
{
    let call = decode_on(c_path, "c_path", c_cb);
    let r = rt.http1.server_op("http1_on", c_id, call);
    tables_well_formed(rt);
    r
}

/// `http1_push_bytes`: sends bytes as the body of a response (as an attachment when `c_is_attachment` is 1).
pub fn http1_push_bytes(rt: &mut Runtime, c_stream_id: i32, c_bytes: &[u8], c_is_attachment: i32) -> (r: Option<String>)
    ensures
        final(rt).wf(),
        (final(rt).http1.model(), text_of(r)) == stream_effect(
            old(rt).http1.model(),
            "http1_push_bytes"@,
            c_stream_id,
            Ok::<CallModel, Seq<char>>(CallModel::PushBytes(c_bytes@, c_flag(c_is_attachment))),
        ),
        only_http1_changed(*final(rt), *old(rt)),
{
    let call = Ok(StreamCall::PushBytes { bytes: bytes_to_vec(c_bytes), is_attachment: attachment_flag(c_is_attachment) });
    let r = rt.http1.stream_op("http1_push_bytes", c_stream_id, call);
    tables_well_formed(rt);
    r
}

/// `http1_push_file`: sends a file as the body of a response.
pub fn http1_push_file(rt: &mut Runtime, c_stream_id: i32, c_file_path: &[u8], c_is_attachment: i32) -> (r: Option<String>)
    ensures
        final(rt).wf(),
        (final(rt).http1.model(), text_of(r)) == stream_effect(
            old(rt).http1.model(),
            "http1_push_file"@,
            c_stream_id,
            push_file_call(c_file_path@, c_is_attachment),
        ),
        only_http1_changed(*final(rt), *old(rt)),
{
    let call = decode_push_file(c_file_path, c_is_attachment);
    let r = rt.http1.stream_op("http1_push_file", c_stream_id, call);
    tables_well_formed(rt);
    r
}

/// `http1_push_json`: sends a JSON document as the body of a response.
pub fn http1_push_json(rt: &mut Runtime, c_stream_id: i32, c_json: &[u8], c_is_attachment: i32) -> (r: Option<String>)
    ensures
        final(rt).wf(),
        (final(rt).http1.model(), text_of(r)) == stream_effect(
            old(rt).http1.model(),
            "http1_push_json"@,
            c_stream_id,
            push_json_call(c_json@, c_is_attachment),
        ),
        only_http1_changed(*final(rt), *old(rt)),
{
    let call = decode_push_json(c_json, c_is_attachment);
    let r = rt.http1.stream_op("http1_push_json", c_stream_id, call);
    tables_well_formed(rt);
    r
}

/// `http1_set_code`: sets the status code of a response (the low 16 bits of `c_code`).
pub fn http1_set_code(rt: &mut Runtime, c_stream_id: i32, c_code: i32) -> (r: Option<String>)
    ensures
        final(rt).wf(),
        (final(rt).http1.model(), text_of(r)) == stream_effect(
            old(rt).http1.model(),
            "http1_set_code"@,
            c_stream_id,
            Ok::<CallModel, Seq<char>>(CallModel::SetCode(status_code(c_code))),
        ),
        only_http1_changed(*final(rt), *old(rt)),
{
    let call = Ok(StreamCall::SetCode { code: c_code as u16 });
    let r = rt.http1.stream_op("http1_set_code", c_stream_id, call);
    tables_well_formed(rt);
    r
}

/// `http1_set_compression`: sets the compression of a response (none for an empty text).
pub fn http1_set_compression(rt: &mut Runtime, c_stream_id: i32, c_compression: &[u8]) -> (r: Option<String>)
    ensures
        final(rt).wf(),
        (final(rt).http1.model(), text_of(r)) == stream_effect(
            old(rt).http1.model(),
            "http1_set_compression"@,
            c_stream_id,
            set_compression_call(c_compression@),
        ),
        only_http1_changed(*final(rt), *old(rt)),
{
    let call = decode_set_compression(c_compression);
    let r = rt.http1.stream_op("http1_set_compression", c_stream_id, call);
    tables_well_formed(rt);
    r
}

/// `http1_set_headers`: replaces the headers of a response by those of a JSON array.
pub fn http1_set_headers(rt: &mut Runtime, c_stream_id: i32, c_headers: &[u8]) -> (r: Option<String>)
    ensures
        final(rt).wf(),
        (final(rt).http1.model(), text_of(r)) == stream_effect(
            old(rt).http1.model(),
            "http1_set_headers"@,
            c_stream_id,
            set_headers_call(c_headers@),
        ),
        only_http1_changed(*final(rt), *old(rt)),
{
    let call = decode_set_headers(c_headers);
    let r = rt.http1.stream_op("http1_set_headers", c_stream_id, call);
    tables_well_formed(rt);
    r
}

/// `http1_start`: starts server `c_id`.
pub fn http1_start(rt: &mut Runtime, c_id: i32)
    ensures
        final(rt).wf(),
        (final(rt).http1.model(), None::<Seq<char>>) == server_effect(old(rt).http1.model(), "http1_start"@, c_id, Ok::<ServerCallModel, Seq<char>>(ServerCallModel::Start)),
        only_http1_changed(*final(rt), *old(rt)),
{
    let r = rt.http1.server_op("http1_start", c_id, Ok(ServerCall::Start));
    assert(r is None);
    tables_well_formed(rt);
}

/// `http1_stop`: stops server `c_id`.
pub fn http1_stop(rt: &mut Runtime, c_id: i32)
    ensures
        final(rt).wf(),
        (final(rt).http1.model(), None::<Seq<char>>) == server_effect(old(rt).http1.model(), "http1_stop"@, c_id, Ok::<ServerCallModel, Seq<char>>(ServerCallModel::Stop)),
        only_http1_changed(*final(rt), *old(rt)),
{
    let r = rt.http1.server_op("http1_stop", c_id, Ok(ServerCall::Stop));
    assert(r is None);
    tables_well_formed(rt);
}

// ----- HTTP/2 -----

/// `http2_add_header`: adds a header to the response of a stream.
pub fn http2_add_header(rt: &mut Runtime, c_stream_id: i32, c_key: &[u8], c_value: &[u8]) -> (r: Option<String>)
    ensures
        final(rt).wf(),
        (final(rt).http2.model(), text_of(r)) == stream_effect(
            old(rt).http2.model(),
            "http2_add_header"@,
            c_stream_id,
            add_header_call(c_key@, c_value@),
        ),
        only_http2_changed(*final(rt), *old(rt)),
{
    let call = decode_add_header(c_key, c_value);
    let r = rt.http2.stream_op("http2_add_header", c_stream_id, call);
    tables_well_formed(rt);
    r
}

/// `http2_create`: creates a HTTP/2 server from the JSON options `c_opts`;
/// returns its id (0 when the text is not JSON) and the line to print. The
/// inputs on which the process stops ([`create_stop`]) are left out: see
/// [`http2_try_create`].
pub fn http2_create(rt: &mut Runtime, c_opts: &[u8]) -> (r: (i32, Option<String>))
    requires
        create_stop(old(rt).http2.model(), c_opts@) is None,
    ensures
        final(rt).wf(),
        create_effect(old(rt).http2.model(), final(rt).http2.model(), "http2_create"@, c_opts@, r),
        only_http2_changed(*final(rt), *old(rt)),
        final(rt).http2.model().servers.wf(),
{
    let r = rt.http2.create("http2_create", c_opts);
    tables_well_formed(rt);
    r
}

/// `http2_create`, or the line with which it stops the process (nothing is
/// changed then).
pub fn http2_try_create(rt: &mut Runtime, c_opts: &[u8]) -> (r: Result<(i32, Option<String>), String>)
    ensures
        final(rt).wf(),
        match r {
            Ok(reply) => create_stop(old(rt).http2.model(), c_opts@) is None
                && create_effect(old(rt).http2.model(), final(rt).http2.model(), "http2_create"@, c_opts@, reply)
                && final(rt).http2.model().servers.wf(),
            Err(line) => create_stop(old(rt).http2.model(), c_opts@) == Some(line@) && *final(rt) == *old(rt),
        },
        only_http2_changed(*final(rt), *old(rt)),
{
    let r = match rt.http2.create_stop_line(c_opts) {
        Some(line) => Err(line),
        None => Ok(http2_create(rt, c_opts)),
    };
    tables_well_formed(rt);
    r
}

/// `http2_destroy`: forgets server `c_id`.
pub fn http2_destroy(rt: &mut Runtime, c_id: i32)
    ensures
        final(rt).wf(),
        final(rt).http2.model() == destroy_effect(old(rt).http2.model(), c_id),
        only_http2_changed(*final(rt), *old(rt)),
{
    rt.http2.destroy(c_id);
    tables_well_formed(rt);
}

/// `http2_end`: ends the response of a stream.
pub fn http2_end(rt: &mut Runtime, c_stream_id: i32) -> (r: Option<String>)
    ensures
        final(rt).wf(),
        (final(rt).http2.model(), text_of(r)) == stream_effect(
            old(rt).http2.model(),
            "http2_end"@,
            c_stream_id,
            Ok::<CallModel, Seq<char>>(CallModel::End),
        ),
        only_http2_changed(*final(rt), *old(rt)),
{
    let call = Ok(StreamCall::End);
    let r = rt.http2.stream_op("http2_end", c_stream_id, call);
    tables_well_formed(rt);
    r
}

/// `http2_logger`: gives server `c_id` the C logging function at address `c_cb`.
pub fn http2_logger(rt: &mut Runtime, c_id: i32, c_cb: usize)
    ensures
        final(rt).wf(),
        (final(rt).http2.model(), None::<Seq<char>>) == server_effect(old(rt).http2.model(), "http2_logger"@, c_id, Ok::<ServerCallModel, Seq<char>>(ServerCallModel::Logger(c_cb))),
        only_http2_changed(*final(rt), *old(rt)),
{
    let r = rt.http2.server_op("http2_logger", c_id, Ok(ServerCall::Logger { callback: c_cb }));
    assert(r is None);
    tables_well_formed(rt);
}

/// `http2_on`: routes requests for path `c_path` of server `c_id` to the C handler at address `c_cb`.
pub fn http2_on(rt: &mut Runtime, c_id: i32, c_path: &[u8], c_cb: usize) -> (r: Option<String>)
    ensures
        final(rt).wf(),
        (final(rt).http2.model(), text_of(r)) == server_effect(old(rt).http2.model(), "http2_on"@, c_id, on_call(c_path@, c_cb)),
        only_http2_changed(*final(rt), *old(rt)),
{
    let call = decode_on(c_path, "c_path", c_cb);
    let r = rt.http2.server_op("http2_on", c_id, call);
    tables_well_formed(rt);
    r
}

/// `http2_push_bytes`: sends bytes as the body of a response (as an attachment when `c_is_attachment` is 1).
pub fn http2_push_bytes(rt: &mut Runtime, c_stream_id: i32, c_bytes: &[u8], c_is_attachment: i32) -> (r: Option<String>)
    ensures
        final(rt).wf(),
        (final(rt).http2.model(), text_of(r)) == stream_effect(
            old(rt).http2.model(),
            "http2_push_bytes"@,
            c_stream_id,
            Ok::<CallModel, Seq<char>>(CallModel::PushBytes(c_bytes@, c_flag(c_is_attachment))),
        ),
        only_http2_changed(*final(rt), *old(rt)),
{
    let call = Ok(StreamCall::PushBytes { bytes: bytes_to_vec(c_bytes), is_attachment: attachment_flag(c_is_attachment) });
    let r = rt.http2.stream_op("http2_push_bytes", c_stream_id, call);
    tables_well_formed(rt);
    r
}

/// `http2_push_file`: sends a file as the body of a response.
pub fn http2_push_file(rt: &mut Runtime, c_stream_id: i32, c_file_path: &[u8], c_is_attachment: i32) -> (r: Option<String>)
    ensures
        final(rt).wf(),
        (final(rt).http2.model(), text_of(r)) == stream_effect(
            old(rt).http2.model(),
            "http2_push_file"@,
            c_stream_id,
            push_file_call(c_file_path@, c_is_attachment),
        ),
        only_http2_changed(*final(rt), *old(rt)),
{
    let call = decode_push_file(c_file_path, c_is_attachment);
    let r = rt.http2.stream_op("http2_push_file", c_stream_id, call);
    tables_well_formed(rt);
    r
}

/// `http2_push_json`: sends a JSON document as the body of a response.
pub fn http2_push_json(rt: &mut Runtime, c_stream_id: i32, c_json: &[u8], c_is_attachment: i32) -> (r: Option<String>)
    ensures
        final(rt).wf(),
        (final(rt).http2.model(), text_of(r)) == stream_effect(
            old(rt).http2.model(),
            "http2_push_json"@,
            c_stream_id,
            push_json_call(c_json@, c_is_attachment),
        ),
        only_http2_changed(*final(rt), *old(rt)),
{
    let call = decode_push_json(c_json, c_is_attachment);
    let r = rt.http2.stream_op("http2_push_json", c_stream_id, call);
    tables_well_formed(rt);
    r
}

/// `http2_set_code`: sets the status code of a response (the low 16 bits of `c_code`).
pub fn http2_set_code(rt: &mut Runtime, c_stream_id: i32, c_code: i32) -> (r: Option<String>)
    ensures
        final(rt).wf(),
        (final(rt).http2.model(), text_of(r)) == stream_effect(
            old(rt).http2.model(),
            "http2_set_code"@,
            c_stream_id,
            Ok::<CallModel, Seq<char>>(CallModel::SetCode(status_code(c_code))),
        ),
        only_http2_changed(*final(rt), *old(rt)),
{
    let call = Ok(StreamCall::SetCode { code: c_code as u16 });
    let r = rt.http2.stream_op("http2_set_code", c_stream_id, call);
    tables_well_formed(rt);
    r
}

/// `http2_set_compression`: sets the compression of a response (none for an empty text).
pub fn http2_set_compression(rt: &mut Runtime, c_stream_id: i32, c_compression: &[u8]) -> (r: Option<String>)
    ensures
        final(rt).wf(),
        (final(rt).http2.model(), text_of(r)) == stream_effect(
            old(rt).http2.model(),
            "http2_set_compression"@,
            c_stream_id,
            set_compression_call(c_compression@),
        ),
        only_http2_changed(*final(rt), *old(rt)),
{
    let call = decode_set_compression(c_compression);
    let r = rt.http2.stream_op("http2_set_compression", c_stream_id, call);
    tables_well_formed(rt);
    r
}

/// `http2_set_headers`: replaces the headers of a response by those of a JSON array.
pub fn http2_set_headers(rt: &mut Runtime, c_stream_id: i32, c_headers: &[u8]) -> (r: Option<String>)
    ensures
        final(rt).wf(),
        (final(rt).http2.model(), text_of(r)) == stream_effect(
            old(rt).http2.model(),
            "http2_set_headers"@,
            c_stream_id,
            set_headers_call(c_headers@),
        ),
        only_http2_changed(*final(rt), *old(rt)),
{
    let call = decode_set_headers(c_headers);
    let r = rt.http2.stream_op("http2_set_headers", c_stream_id, call);
    tables_well_formed(rt);
    r
}

/// `http2_start`: starts server `c_id`.
pub fn http2_start(rt: &mut Runtime, c_id: i32)
    ensures
        final(rt).wf(),
        (final(rt).http2.model(), None::<Seq<char>>) == server_effect(old(rt).http2.model(), "http2_start"@, c_id, Ok::<ServerCallModel, Seq<char>>(ServerCallModel::Start)),
        only_http2_changed(*final(rt), *old(rt)),
{
    let r = rt.http2.server_op("http2_start", c_id, Ok(ServerCall::Start));
    assert(r is None);
    tables_well_formed(rt);
}

/// `http2_stop`: stops server `c_id`.
pub fn http2_stop(rt: &mut Runtime, c_id: i32)
    ensures
        final(rt).wf(),
        (final(rt).http2.model(), None::<Seq<char>>) == server_effect(old(rt).http2.model(), "http2_stop"@, c_id, Ok::<ServerCallModel, Seq<char>>(ServerCallModel::Stop)),
        only_http2_changed(*final(rt), *old(rt)),
{
    let r = rt.http2.server_op("http2_stop", c_id, Ok(ServerCall::Stop));
    assert(r is None);
    tables_well_formed(rt);
}

// ----- WebSocket -----

/// `ws_close`: closes a stream.
pub fn ws_close(rt: &mut Runtime, c_stream_id: i32) -> (r: Option<String>)
    ensures
        final(rt).wf(),
        (final(rt).ws.model(), text_of(r)) == stream_effect(
            old(rt).ws.model(),
            "ws_close"@,
            c_stream_id,
            Ok::<CallModel, Seq<char>>(CallModel::Close),
        ),
        only_ws_changed(*final(rt), *old(rt)),
{
    let call = Ok(StreamCall::Close);
    let r = rt.ws.stream_op("ws_close", c_stream_id, call);
    tables_well_formed(rt);
    r
}

/// `ws_create`: creates a WebSocket server from the JSON options `c_opts`;
/// returns its id (0 when the text is not JSON) and the line to print. The
/// inputs on which the process stops ([`create_stop`]) are left out: see
/// [`ws_try_create`].
pub fn ws_create(rt: &mut Runtime, c_opts: &[u8]) -> (r: (i32, Option<String>))
    requires
        create_stop(old(rt).ws.model(), c_opts@) is None,
    ensures
        final(rt).wf(),
        create_effect(old(rt).ws.model(), final(rt).ws.model(), "ws_create"@, c_opts@, r),
        only_ws_changed(*final(rt), *old(rt)),
        final(rt).ws.model().servers.wf(),
{
    let r = rt.ws.create("ws_create", c_opts);
    tables_well_formed(rt);
    r
}

/// `ws_create`, or the line with which it stops the process (nothing is
/// changed then).
pub fn ws_try_create(rt: &mut Runtime, c_opts: &[u8]) -> (r: Result<(i32, Option<String>), String>)
    ensures
        final(rt).wf(),
        match r {
            Ok(reply) => create_stop(old(rt).ws.model(), c_opts@) is None
                && create_effect(old(rt).ws.model(), final(rt).ws.model(), "ws_create"@, c_opts@, reply)
                && final(rt).ws.model().servers.wf(),
            Err(line) => create_stop(old(rt).ws.model(), c_opts@) == Some(line@) && *final(rt) == *old(rt),
        },
        only_ws_changed(*final(rt), *old(rt)),
{
    let r = match rt.ws.create_stop_line(c_opts) {
        Some(line) => Err(line),
        None => Ok(ws_create(rt, c_opts)),
    };
    tables_well_formed(rt);
    r
}

/// `ws_destroy`: forgets server `c_id`.
pub fn ws_destroy(rt: &mut Runtime, c_id: i32)
    ensures
        final(rt).wf(),
        final(rt).ws.model() == destroy_effect(old(rt).ws.model(), c_id),
        only_ws_changed(*final(rt), *old(rt)),
{
    rt.ws.destroy(c_id);
    tables_well_formed(rt);
}

/// `ws_logger`: gives server `c_id` the C logging function at address `c_cb`.
pub fn ws_logger(rt: &mut Runtime, c_id: i32, c_cb: usize)
    ensures
        final(rt).wf(),
        (final(rt).ws.model(), None::<Seq<char>>) == server_effect(old(rt).ws.model(), "ws_logger"@, c_id, Ok::<ServerCallModel, Seq<char>>(ServerCallModel::Logger(c_cb))),
        only_ws_changed(*final(rt), *old(rt)),
{
    let r = rt.ws.server_op("ws_logger", c_id, Ok(ServerCall::Logger { callback: c_cb }));
    assert(r is None);
    tables_well_formed(rt);
}

/// `ws_on`: routes messages on topic `c_topic` of server `c_id` to the C handler at address `c_cb`.
pub fn ws_on(rt: &mut Runtime, c_id: i32, c_topic: &[u8], c_cb: usize) -> (r: Option<String>)
    ensures
        final(rt).wf(),
        (final(rt).ws.model(), text_of(r)) == server_effect(old(rt).ws.model(), "ws_on"@, c_id, on_topic_call(c_topic@, c_cb)),
        only_ws_changed(*final(rt), *old(rt)),
{
    let call = decode_on(c_topic, "c_topic", c_cb);
    let r = rt.ws.server_op("ws_on", c_id, call);
    tables_well_formed(rt);
    r
}

/// `ws_push`: sends a JSON document and bytes.
pub fn ws_push(rt: &mut Runtime, c_stream_id: i32, c_json: &[u8], c_bytes: &[u8]) -> (r: Option<String>)
    ensures
        final(rt).wf(),
        (final(rt).ws.model(), text_of(r)) == stream_effect(
            old(rt).ws.model(),
            "ws_push"@,
            c_stream_id,
            push_call(c_json@, c_bytes@),
        ),
        only_ws_changed(*final(rt), *old(rt)),
{
    let call = decode_push(c_json, c_bytes);
    let r = rt.ws.stream_op("ws_push", c_stream_id, call);
    tables_well_formed(rt);
    r
}

/// `ws_push_bytes`: sends bytes.
pub fn ws_push_bytes(rt: &mut Runtime, c_stream_id: i32, c_bytes: &[u8]) -> (r: Option<String>)
    ensures
        final(rt).wf(),
        (final(rt).ws.model(), text_of(r)) == stream_effect(
            old(rt).ws.model(),
            "ws_push_bytes"@,
            c_stream_id,
            Ok::<CallModel, Seq<char>>(CallModel::SendBytes(c_bytes@)),
        ),
        only_ws_changed(*final(rt), *old(rt)),
{
    let call = Ok(StreamCall::SendBytes { bytes: bytes_to_vec(c_bytes) });
    let r = rt.ws.stream_op("ws_push_bytes", c_stream_id, call);
    tables_well_formed(rt);
    r
}

/// `ws_push_json`: sends a JSON document.
pub fn ws_push_json(rt: &mut Runtime, c_stream_id: i32, c_json: &[u8]) -> (r: Option<String>)
    ensures
        final(rt).wf(),
        (final(rt).ws.model(), text_of(r)) == stream_effect(
            old(rt).ws.model(),
            "ws_push_json"@,
            c_stream_id,
            send_json_call(c_json@),
        ),
        only_ws_changed(*final(rt), *old(rt)),
{
    let call = decode_send_json(c_json);
    let r = rt.ws.stream_op("ws_push_json", c_stream_id, call);
    tables_well_formed(rt);
    r
}

/// `ws_start`: starts server `c_id`.
pub fn ws_start(rt: &mut Runtime, c_id: i32)
    ensures
        final(rt).wf(),
        (final(rt).ws.model(), None::<Seq<char>>) == server_effect(old(rt).ws.model(), "ws_start"@, c_id, Ok::<ServerCallModel, Seq<char>>(ServerCallModel::Start)),
        only_ws_changed(*final(rt), *old(rt)),
{
    let r = rt.ws.server_op("ws_start", c_id, Ok(ServerCall::Start));
    assert(r is None);
    tables_well_formed(rt);
}

/// `ws_stop`: stops server `c_id`.
pub fn ws_stop(rt: &mut Runtime, c_id: i32)
    ensures
        final(rt).wf(),
        (final(rt).ws.model(), None::<Seq<char>>) == server_effect(old(rt).ws.model(), "ws_stop"@, c_id, Ok::<ServerCallModel, Seq<char>>(ServerCallModel::Stop)),
        only_ws_changed(*final(rt), *old(rt)),
{
    let r = rt.ws.server_op("ws_stop", c_id, Ok(ServerCall::Stop));
    assert(r is None);
    tables_well_formed(rt);
}

// ----- HTTP/3 -----

/// `http3_add_header`: adds a header to the response of a stream.
pub fn http3_add_header(rt: &mut Runtime, c_stream_id: i32, c_key: &[u8], c_value: &[u8]) -> (r: Option<String>)
    ensures
        final(rt).wf(),
        (final(rt).http3.model(), text_of(r)) == stream_effect(
            old(rt).http3.model(),
            "http3_add_header"@,
            c_stream_id,
            add_header_call(c_key@, c_value@),
        ),
        only_http3_changed(*final(rt), *old(rt)),
{
    let call = decode_add_header(c_key, c_value);
    let r = rt.http3.stream_op("http3_add_header", c_stream_id, call);
    tables_well_formed(rt);
    r
}

/// `http3_create`: creates a HTTP/3 server from the JSON options `c_opts`;
/// returns its id (0 when the text is not JSON) and the line to print. The
/// inputs on which the process stops ([`create_stop`]) are left out: see
/// [`http3_try_create`].
pub fn http3_create(rt: &mut Runtime, c_opts: &[u8]) -> (r: (i32, Option<String>))
    requires
        create_stop(old(rt).http3.model(), c_opts@) is None,
    ensures
        final(rt).wf(),
        create_effect(old(rt).http3.model(), final(rt).http3.model(), "http3_create"@, c_opts@, r),
        only_http3_changed(*final(rt), *old(rt)),
        final(rt).http3.model().servers.wf(),
{
    let r = rt.http3.create("http3_create", c_opts);
    tables_well_formed(rt);
    r
}

/// `http3_create`, or the line with which it stops the process (nothing is
/// changed then).
pub fn http3_try_create(rt: &mut Runtime, c_opts: &[u8]) -> (r: Result<(i32, Option<String>), String>)
    ensures
        final(rt).wf(),
        match r {
            Ok(reply) => create_stop(old(rt).http3.model(), c_opts@) is None
                && create_effect(old(rt).http3.model(), final(rt).http3.model(), "http3_create"@, c_opts@, reply)
                && final(rt).http3.model().servers.wf(),
            Err(line) => create_stop(old(rt).http3.model(), c_opts@) == Some(line@) && *final(rt) == *old(rt),
        },
        only_http3_changed(*final(rt), *old(rt)),
{
    let r = match rt.http3.create_stop_line(c_opts) {
        Some(line) => Err(line),
        None => Ok(http3_create(rt, c_opts)),
    };
    tables_well_formed(rt);
    r
}

/// `http3_destroy`: forgets server `c_id`.
pub fn http3_destroy(rt: &mut Runtime, c_id: i32)
    ensures
        final(rt).wf(),
        final(rt).http3.model() == destroy_effect(old(rt).http3.model(), c_id),
        only_http3_changed(*final(rt), *old(rt)),
{
    rt.http3.destroy(c_id);
    tables_well_formed(rt);
}

/// `http3_end`: ends the response of a stream.
pub fn http3_end(rt: &mut Runtime, c_stream_id: i32) -> (r: Option<String>)
    ensures
        final(rt).wf(),
        (final(rt).http3.model(), text_of(r)) == stream_effect(
            old(rt).http3.model(),
            "http3_end"@,
            c_stream_id,
            Ok::<CallModel, Seq<char>>(CallModel::End),
        ),
        only_http3_changed(*final(rt), *old(rt)),
{
    let call = Ok(StreamCall::End);
    let r = rt.http3.stream_op("http3_end", c_stream_id, call);
    tables_well_formed(rt);
    r
}

/// `http3_logger`: gives server `c_id` the C logging function at address `c_cb`.
pub fn http3_logger(rt: &mut Runtime, c_id: i32, c_cb: usize)
    ensures
        final(rt).wf(),
        (final(rt).http3.model(), None::<Seq<char>>) == server_effect(old(rt).http3.model(), "http3_logger"@, c_id, Ok::<ServerCallModel, Seq<char>>(ServerCallModel::Logger(c_cb))),
        only_http3_changed(*final(rt), *old(rt)),
{
    let r = rt.http3.server_op("http3_logger", c_id, Ok(ServerCall::Logger { callback: c_cb }));
    assert(r is None);
    tables_well_formed(rt);
}

/// `http3_on`: routes requests for path `c_path` of server `c_id` to the C handler at address `c_cb`.
pub fn http3_on(rt: &mut Runtime, c_id: i32, c_path: &[u8], c_cb: usize) -> (r: Option<String>)
    ensures
        final(rt).wf(),
        (final(rt).http3.model(), text_of(r)) == server_effect(old(rt).http3.model(), "http3_on"@, c_id, on_call(c_path@, c_cb)),
        only_http3_changed(*final(rt), *old(rt)),
{
    let call = decode_on(c_path, "c_path", c_cb);
    let r = rt.http3.server_op("http3_on", c_id, call);
    tables_well_formed(rt);
    r
}

/// `http3_push_bytes`: sends bytes as the body of a response (as an attachment when `c_is_attachment` is 1).
pub fn http3_push_bytes(rt: &mut Runtime, c_stream_id: i32, c_bytes: &[u8], c_is_attachment: i32) -> (r: Option<String>)
    ensures
        final(rt).wf(),
        (final(rt).http3.model(), text_of(r)) == stream_effect(
            old(rt).http3.model(),
            "http3_push_bytes"@,
            c_stream_id,
            Ok::<CallModel, Seq<char>>(CallModel::PushBytes(c_bytes@, c_flag(c_is_attachment))),
        ),
        only_http3_changed(*final(rt), *old(rt)),
{
    let call = Ok(StreamCall::PushBytes { bytes: bytes_to_vec(c_bytes), is_attachment: attachment_flag(c_is_attachment) });
    let r = rt.http3.stream_op("http3_push_bytes", c_stream_id, call);
    tables_well_formed(rt);
    r
}

/// `http3_push_file`: sends a file as the body of a response.
pub fn http3_push_file(rt: &mut Runtime, c_stream_id: i32, c_file_path: &[u8], c_is_attachment: i32) -> (r: Option<String>)
    ensures
        final(rt).wf(),
        (final(rt).http3.model(), text_of(r)) == stream_effect(
            old(rt).http3.model(),
            "http3_push_file"@,
            c_stream_id,
            push_file_call(c_file_path@, c_is_attachment),
        ),
        only_http3_changed(*final(rt), *old(rt)),
{
    let call = decode_push_file(c_file_path, c_is_attachment);
    let r = rt.http3.stream_op("http3_push_file", c_stream_id, call);
    tables_well_formed(rt);
    r
}

/// `http3_push_json`: sends a JSON document as the body of a response.
pub fn http3_push_json(rt: &mut Runtime, c_stream_id: i32, c_json: &[u8], c_is_attachment: i32) -> (r: Option<String>)
    ensures
        final(rt).wf(),
        (final(rt).http3.model(), text_of(r)) == stream_effect(
            old(rt).http3.model(),
            "http3_push_json"@,
            c_stream_id,
            push_json_call(c_json@, c_is_attachment),
        ),
        only_http3_changed(*final(rt), *old(rt)),
{
    let call = decode_push_json(c_json, c_is_attachment);
    let r = rt.http3.stream_op("http3_push_json", c_stream_id, call);
    tables_well_formed(rt);
    r
}

/// `http3_set_code`: sets the status code of a response (the low 16 bits of `c_code`).
pub fn http3_set_code(rt: &mut Runtime, c_stream_id: i32, c_code: i32) -> (r: Option<String>)
    ensures
        final(rt).wf(),
        (final(rt).http3.model(), text_of(r)) == stream_effect(
            old(rt).http3.model(),
            "http3_set_code"@,
            c_stream_id,
            Ok::<CallModel, Seq<char>>(CallModel::SetCode(status_code(c_code))),
        ),
        only_http3_changed(*final(rt), *old(rt)),
{
    let call = Ok(StreamCall::SetCode { code: c_code as u16 });
    let r = rt.http3.stream_op("http3_set_code", c_stream_id, call);
    tables_well_formed(rt);
    r
}

/// `http3_set_compression`: sets the compression of a response (none for an empty text).
pub fn http3_set_compression(rt: &mut Runtime, c_stream_id: i32, c_compression: &[u8]) -> (r: Option<String>)
    ensures
        final(rt).wf(),
        (final(rt).http3.model(), text_of(r)) == stream_effect(
            old(rt).http3.model(),
            "http3_set_compression"@,
            c_stream_id,
            set_compression_call(c_compression@),
        ),
        only_http3_changed(*final(rt), *old(rt)),
{
    let call = decode_set_compression(c_compression);
    let r = rt.http3.stream_op("http3_set_compression", c_stream_id, call);
    tables_well_formed(rt);
    r
}

/// `http3_set_headers`: replaces the headers of a response by those of a JSON array.
pub fn http3_set_headers(rt: &mut Runtime, c_stream_id: i32, c_headers: &[u8]) -> (r: Option<String>)
    ensures
        final(rt).wf(),
        (final(rt).http3.model(), text_of(r)) == stream_effect(
            old(rt).http3.model(),
            "http3_set_headers"@,
            c_stream_id,
            set_headers_call(c_headers@),
        ),
        only_http3_changed(*final(rt), *old(rt)),
{
    let call = decode_set_headers(c_headers);
    let r = rt.http3.stream_op("http3_set_headers", c_stream_id, call);
    tables_well_formed(rt);
    r
}

/// `http3_start`: starts server `c_id`.
pub fn http3_start(rt: &mut Runtime, c_id: i32)
    ensures
        final(rt).wf(),
        (final(rt).http3.model(), None::<Seq<char>>) == server_effect(old(rt).http3.model(), "http3_start"@, c_id, Ok::<ServerCallModel, Seq<char>>(ServerCallModel::Start)),
        only_http3_changed(*final(rt), *old(rt)),
{
    let r = rt.http3.server_op("http3_start", c_id, Ok(ServerCall::Start));
    assert(r is None);
    tables_well_formed(rt);
}

/// `http3_stop`: stops server `c_id`.
pub fn http3_stop(rt: &mut Runtime, c_id: i32)
    ensures
        final(rt).wf(),
        (final(rt).http3.model(), None::<Seq<char>>) == server_effect(old(rt).http3.model(), "http3_stop"@, c_id, Ok::<ServerCallModel, Seq<char>>(ServerCallModel::Stop)),
        only_http3_changed(*final(rt), *old(rt)),
{
    let r = rt.http3.server_op("http3_stop", c_id, Ok(ServerCall::Stop));
    assert(r is None);
    tables_well_formed(rt);
}

// ----- WebTransport -----

/// `wt_close`: closes a stream.
pub fn wt_close(rt: &mut Runtime, c_stream_id: i32) -> (r: Option<String>)
    ensures
        final(rt).wf(),
        (final(rt).wt.model(), text_of(r)) == stream_effect(
            old(rt).wt.model(),
            "wt_close"@,
            c_stream_id,
            Ok::<CallModel, Seq<char>>(CallModel::Close),
        ),
        only_wt_changed(*final(rt), *old(rt)),
{
    let call = Ok(StreamCall::Close);
    let r = rt.wt.stream_op("wt_close", c_stream_id, call);
    tables_well_formed(rt);
    r
}

/// `wt_create`: creates a WebTransport server from the JSON options `c_opts`;
/// returns its id (0 when the text is not JSON) and the line to print. The
/// inputs on which the process stops ([`create_stop`]) are left out: see
/// [`wt_try_create`].
pub fn wt_create(rt: &mut Runtime, c_opts: &[u8]) -> (r: (i32, Option<String>))
    requires
        create_stop(old(rt).wt.model(), c_opts@) is None,
    ensures
        final(rt).wf(),
        create_effect(old(rt).wt.model(), final(rt).wt.model(), "wt_create"@, c_opts@, r),
        only_wt_changed(*final(rt), *old(rt)),
        final(rt).wt.model().servers.wf(),
{
    let r = rt.wt.create("wt_create", c_opts);
    tables_well_formed(rt);
    r
}

/// `wt_create`, or the line with which it stops the process (nothing is
/// changed then).
pub fn wt_try_create(rt: &mut Runtime, c_opts: &[u8]) -> (r: Result<(i32, Option<String>), String>)
    ensures
        final(rt).wf(),
        match r {
            Ok(reply) => create_stop(old(rt).wt.model(), c_opts@) is None
                && create_effect(old(rt).wt.model(), final(rt).wt.model(), "wt_create"@, c_opts@, reply)
                && final(rt).wt.model().servers.wf(),
            Err(line) => create_stop(old(rt).wt.model(), c_opts@) == Some(line@) && *final(rt) == *old(rt),
        },
        only_wt_changed(*final(rt), *old(rt)),
{
    let r = match rt.wt.create_stop_line(c_opts) {
        Some(line) => Err(line),
        None => Ok(wt_create(rt, c_opts)),
    };
    tables_well_formed(rt);
    r
}

/// `wt_destroy`: forgets server `c_id`.
pub fn wt_destroy(rt: &mut Runtime, c_id: i32)
    ensures
        final(rt).wf(),
        final(rt).wt.model() == destroy_effect(old(rt).wt.model(), c_id),
        only_wt_changed(*final(rt), *old(rt)),
{
    rt.wt.destroy(c_id);
    tables_well_formed(rt);
}

/// `wt_logger`: gives server `c_id` the C logging function at address `c_cb`.
pub fn wt_logger(rt: &mut Runtime, c_id: i32, c_cb: usize)
    ensures
        final(rt).wf(),
        (final(rt).wt.model(), None::<Seq<char>>) == server_effect(old(rt).wt.model(), "wt_logger"@, c_id, Ok::<ServerCallModel, Seq<char>>(ServerCallModel::Logger(c_cb))),
        only_wt_changed(*final(rt), *old(rt)),
{
    let r = rt.wt.server_op("wt_logger", c_id, Ok(ServerCall::Logger { callback: c_cb }));
    assert(r is None);
    tables_well_formed(rt);
}

/// `wt_on`: routes messages on topic `c_topic` of server `c_id` to the C handler at address `c_cb`.
pub fn wt_on(rt: &mut Runtime, c_id: i32, c_topic: &[u8], c_cb: usize) -> (r: Option<String>)
    ensures
        final(rt).wf(),
        (final(rt).wt.model(), text_of(r)) == server_effect(old(rt).wt.model(), "wt_on"@, c_id, on_topic_call(c_topic@, c_cb)),
        only_wt_changed(*final(rt), *old(rt)),
{
    let call = decode_on(c_topic, "c_topic", c_cb);
    let r = rt.wt.server_op("wt_on", c_id, call);
    tables_well_formed(rt);
    r
}

/// `wt_push`: sends a JSON document and bytes.
pub fn wt_push(rt: &mut Runtime, c_stream_id: i32, c_json: &[u8], c_bytes: &[u8]) -> (r: Option<String>)
    ensures
        final(rt).wf(),
        (final(rt).wt.model(), text_of(r)) == stream_effect(
            old(rt).wt.model(),
            "wt_push"@,
            c_stream_id,
            push_call(c_json@, c_bytes@),
        ),
        only_wt_changed(*final(rt), *old(rt)),
{
    let call = decode_push(c_json, c_bytes);
    let r = rt.wt.stream_op("wt_push", c_stream_id, call);
    tables_well_formed(rt);
    r
}

/// `wt_push_bytes`: sends bytes.
pub fn wt_push_bytes(rt: &mut Runtime, c_stream_id: i32, c_bytes: &[u8]) -> (r: Option<String>)
    ensures
        final(rt).wf(),
        (final(rt).wt.model(), text_of(r)) == stream_effect(
            old(rt).wt.model(),
            "wt_push_bytes"@,
            c_stream_id,
            Ok::<CallModel, Seq<char>>(CallModel::SendBytes(c_bytes@)),
        ),
        only_wt_changed(*final(rt), *old(rt)),
{
    let call = Ok(StreamCall::SendBytes { bytes: bytes_to_vec(c_bytes) });
    let r = rt.wt.stream_op("wt_push_bytes", c_stream_id, call);
    tables_well_formed(rt);
    r
}

/// `wt_push_json`: sends a JSON document.
pub fn wt_push_json(rt: &mut Runtime, c_stream_id: i32, c_json: &[u8]) -> (r: Option<String>)
    ensures
        final(rt).wf(),
        (final(rt).wt.model(), text_of(r)) == stream_effect(
            old(rt).wt.model(),
            "wt_push_json"@,
            c_stream_id,
            send_json_call(c_json@),
        ),
        only_wt_changed(*final(rt), *old(rt)),
{
    let call = decode_send_json(c_json);
    let r = rt.wt.stream_op("wt_push_json", c_stream_id, call);
    tables_well_formed(rt);
    r
}

/// `wt_start`: starts server `c_id`.
pub fn wt_start(rt: &mut Runtime, c_id: i32)
    ensures
        final(rt).wf(),
        (final(rt).wt.model(), None::<Seq<char>>) == server_effect(old(rt).wt.model(), "wt_start"@, c_id, Ok::<ServerCallModel, Seq<char>>(ServerCallModel::Start)),
        only_wt_changed(*final(rt), *old(rt)),
{
    let r = rt.wt.server_op("wt_start", c_id, Ok(ServerCall::Start));
    assert(r is None);
    tables_well_formed(rt);
}

/// `wt_stop`: stops server `c_id`.
pub fn wt_stop(rt: &mut Runtime, c_id: i32)
    ensures
        final(rt).wf(),
        (final(rt).wt.model(), None::<Seq<char>>) == server_effect(old(rt).wt.model(), "wt_stop"@, c_id, Ok::<ServerCallModel, Seq<char>>(ServerCallModel::Stop)),
        only_wt_changed(*final(rt), *old(rt)),
{
    let r = rt.wt.server_op("wt_stop", c_id, Ok(ServerCall::Stop));
    assert(r is None);
    tables_well_formed(rt);
}

} // verus!
