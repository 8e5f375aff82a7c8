//! The bindings of one kind of server: the servers created through them,
//! the streams of the requests being handled, and what every binding does
//! with its arguments.
//!
//! A binding reports a problem by a diagnostic line (`None` when there is
//! none to print). The C strings a binding receives are handed over as the
//! bytes before their terminating NUL.
use vstd::prelude::*;
use vstd::string::*;
use crate::config::ServerOptions;
use crate::headers::{headers_from_json, headers_of};
use crate::json::{parse_json, parsed_json, JsonValue};
use crate::servers::{
    add_model, handler_of, logger_of, remove_model, server_call_model, Endpoint, ServerCall,
    ServerCallModel, Servers, ServersModel,
};
use crate::streams::{
    begin_model, finish_model, record_call, CallModel, Stream, StreamCall,
    StreamTable, StreamsModel,
};
use crate::text::{c_text, decode_c_string, ffi_error, ffi_error_text, invalid_json_detail, invalid_utf8_detail};

verus! {

/// What a [`Service`] holds.
pub struct ServiceModel<O> {
    pub servers: ServersModel<O>,
    pub streams: StreamsModel,
}

/// The servers of one kind and the streams of their requests.
pub struct Service<O> {
    pub servers: Servers<O>,
    pub streams: StreamTable,
}

/// The text of an optional diagnostic line.
pub open spec fn text_of(r: Option<String>) -> Option<Seq<char>> {
    match r {
        Some(s) => Some(s@),
        None => None,
    }
}

/// `Invalid UTF-8 in '<param>'`
pub open spec fn utf8_problem(param: Seq<char>) -> Seq<char> {
    "Invalid UTF-8 in '"@ + param + "'"@
}

/// `Invalid JSON in '<param>'`
pub open spec fn json_problem(param: Seq<char>) -> Seq<char> {
    "Invalid JSON in '"@ + param + "'"@
}

/// A text argument: its text, or the problem reported for it.
pub open spec fn text_arg(bytes: Seq<u8>, param: Seq<char>) -> Result<Seq<char>, Seq<char>> {
    match c_text(bytes) {
        Some(t) => Ok(t),
        None => Err(utf8_problem(param)),
    }
}

/// A JSON argument: its document, or the problem reported for it.
pub open spec fn json_arg(bytes: Seq<u8>, param: Seq<char>) -> Result<JsonValue, Seq<char>> {
    match c_text(bytes) {
        Some(t) => match parsed_json(t) {
            Some(v) => Ok(v),
            None => Err(json_problem(param)),
        },
        None => Err(utf8_problem(param)),
    }
}

/// The model of a decoded call, or of the problem that stopped the decoding.
pub open spec fn decoded_model(r: Result<StreamCall, String>) -> Result<CallModel, Seq<char>> {
    match r {
        Ok(c) => Ok(c.model()),
        Err(d) => Err(d@),
    }
}

/// The model of a decoded server call, or of the problem that stopped the decoding.
pub open spec fn decoded_server_model(r: Result<ServerCall, String>) -> Result<ServerCallModel, Seq<char>> {
    match r {
        Ok(c) => Ok(c.model()),
        Err(d) => Err(d@),
    }
}

/// The flag that a C `int` stands for: only 1 is true.
pub open spec fn c_flag(c: i32) -> bool {
    c == 1
}

/// The C `int` flag as a `bool`: only 1 is true.
pub fn attachment_flag(c: i32) -> (r: bool)
    ensures
        r == c_flag(c),
{
    c == 1
}

/// How many bytes to read from a C buffer: none when the pointer is null or
/// the length is not positive, else the length.
pub open spec fn payload_length(is_null: bool, len: i32) -> int {
    if is_null || len <= 0 {
        0
    } else {
        len as int
    }
}

/// How many bytes to read from a C buffer.
pub fn payload_len(is_null: bool, len: i32) -> (r: usize)
    ensures
        r == payload_length(is_null, len),
{
    if is_null || len <= 0 {
        0
    } else {
        len as usize
    }
}

/// The status code that a C `int` code stands for: its low 16 bits.
pub open spec fn status_code(c: i32) -> u16 {
    c as u16
}

/// Decodes a text argument.
pub fn decode_text_arg(bytes: &[u8], param: &str) -> (r: Result<String, String>)
    ensures
        r matches Ok(s) ==> text_arg(bytes@, param@) == Ok::<Seq<char>, Seq<char>>(s@),
        r matches Err(d) ==> text_arg(bytes@, param@) == Err::<Seq<char>, Seq<char>>(d@),
{
    match decode_c_string(bytes) {
        Some(s) => Ok(s),
        None => Err(invalid_utf8_detail(param)),
    }
}

/// Decodes a JSON argument.
pub fn decode_json_arg(bytes: &[u8], param: &str) -> (r: Result<JsonValue, String>)
    ensures
        r matches Ok(v) ==> json_arg(bytes@, param@) == Ok::<JsonValue, Seq<char>>(v),
        r matches Err(d) ==> json_arg(bytes@, param@) == Err::<JsonValue, Seq<char>>(d@),
{
    match decode_c_string(bytes) {
        Some(s) => match parse_json(s.as_str()) {
            Some(v) => Ok(v),
            None => Err(invalid_json_detail(param)),
        },
        None => Err(invalid_utf8_detail(param)),
    }
}

/// `add_header(key, value)`: the key is decoded first.
pub open spec fn add_header_call(key: Seq<u8>, value: Seq<u8>) -> Result<CallModel, Seq<char>> {
    match text_arg(key, "c_key"@) {
        Err(d) => Err(d),
        Ok(k) => match text_arg(value, "c_value"@) {
            Err(d) => Err(d),
            Ok(v) => Ok(CallModel::AddHeader(k, v)),
        },
    }
}

pub fn decode_add_header(key: &[u8], value: &[u8]) -> (r: Result<StreamCall, String>)
    ensures
        decoded_model(r) == add_header_call(key@, value@),
{
    let key = decode_text_arg(key, "c_key")?;
    let value = decode_text_arg(value, "c_value")?;
    Ok(StreamCall::AddHeader { key, value })
}

/// `push_file(path, is_attachment)`
pub open spec fn push_file_call(path: Seq<u8>, flag: i32) -> Result<CallModel, Seq<char>> {
    match text_arg(path, "c_file_path"@) {
        Err(d) => Err(d),
        Ok(p) => Ok(CallModel::PushFile(p, c_flag(flag))),
    }
}

pub fn decode_push_file(path: &[u8], flag: i32) -> (r: Result<StreamCall, String>)
    ensures
        decoded_model(r) == push_file_call(path@, flag),
{
    let path = decode_text_arg(path, "c_file_path")?;
    Ok(StreamCall::PushFile { path, is_attachment: attachment_flag(flag) })
}

/// `push_json(json, is_attachment)`
pub open spec fn push_json_call(json: Seq<u8>, flag: i32) -> Result<CallModel, Seq<char>> {
    match json_arg(json, "c_json"@) {
        Err(d) => Err(d),
        Ok(v) => Ok(CallModel::PushJson(v, c_flag(flag))),
    }
}

pub fn decode_push_json(json: &[u8], flag: i32) -> (r: Result<StreamCall, String>)
    ensures
        decoded_model(r) == push_json_call(json@, flag),
{
    let json = decode_json_arg(json, "c_json")?;
    Ok(StreamCall::PushJson { json, is_attachment: attachment_flag(flag) })
}

/// `set_compression(..)`: an empty text means no compression.
pub open spec fn set_compression_call(text: Seq<u8>) -> Result<CallModel, Seq<char>> {
    match text_arg(text, "c_compression"@) {
        Err(d) => Err(d),
        Ok(t) => Ok(CallModel::SetCompression(if t.len() > 0 { Some(t) } else { None })),
    }
}

pub fn decode_set_compression(text: &[u8]) -> (r: Result<StreamCall, String>)
    ensures
        decoded_model(r) == set_compression_call(text@),
{
    let text = decode_text_arg(text, "c_compression")?;
    if text.as_str().is_empty() {
        Ok(StreamCall::SetCompression { compression: None })
    } else {
        Ok(StreamCall::SetCompression { compression: Some(text) })
    }
}

/// `set_headers(..)`: the argument must be a JSON array.
pub open spec fn set_headers_call(json: Seq<u8>) -> Result<CallModel, Seq<char>> {
    match json_arg(json, "c_headers"@) {
        Err(d) => Err(d),
        Ok(JsonValue::Array(items)) => Ok(CallModel::SetHeaders(headers_of(items@))),
        Ok(_) => Err(json_problem("c_headers"@)),
    }
}

pub fn decode_set_headers(json: &[u8]) -> (r: Result<StreamCall, String>)
    ensures
        decoded_model(r) == set_headers_call(json@),
{
    let doc = decode_json_arg(json, "c_headers")?;
    match doc {
        JsonValue::Array(items) => {
            let headers = headers_from_json(&items);
            Ok(StreamCall::SetHeaders { headers })
        },
        _ => Err(invalid_json_detail("c_headers")),
    }
}

/// `push(json, bytes)` of a WebSocket or WebTransport stream.
pub open spec fn push_call(json: Seq<u8>, bytes: Seq<u8>) -> Result<CallModel, Seq<char>> {
    match json_arg(json, "c_json"@) {
        Err(d) => Err(d),
        Ok(v) => Ok(CallModel::Push(v, bytes)),
    }
}

pub fn decode_push(json: &[u8], bytes: &[u8]) -> (r: Result<StreamCall, String>)
    ensures
        decoded_model(r) == push_call(json@, bytes@),
{
    let json = decode_json_arg(json, "c_json")?;
    Ok(StreamCall::Push { json, bytes: bytes_to_vec(bytes) })
}

/// `push_json(json)` of a WebSocket or WebTransport stream.
pub open spec fn send_json_call(json: Seq<u8>) -> Result<CallModel, Seq<char>> {
    match json_arg(json, "c_json"@) {
        Err(d) => Err(d),
        Ok(v) => Ok(CallModel::SendJson(v)),
    }
}

pub fn decode_send_json(json: &[u8]) -> (r: Result<StreamCall, String>)
    ensures
        decoded_model(r) == send_json_call(json@),
{
    let json = decode_json_arg(json, "c_json")?;
    Ok(StreamCall::SendJson { json })
}

/// `on(path, handler)`
pub open spec fn on_call(path: Seq<u8>, callback: usize) -> Result<ServerCallModel, Seq<char>> {
    match text_arg(path, "c_path"@) {
        Err(d) => Err(d),
        Ok(p) => Ok(ServerCallModel::On(p, callback)),
    }
}

/// `on(topic, handler)` of a WebSocket or WebTransport server.
pub open spec fn on_topic_call(topic: Seq<u8>, callback: usize) -> Result<ServerCallModel, Seq<char>> {
    match text_arg(topic, "c_topic"@) {
        Err(d) => Err(d),
        Ok(p) => Ok(ServerCallModel::On(p, callback)),
    }
}

pub fn decode_on(path: &[u8], param: &str, callback: usize) -> (r: Result<ServerCall, String>)
    ensures
        match text_arg(path@, param@) {
            Err(d) => decoded_server_model(r) == Err::<ServerCallModel, Seq<char>>(d),
            Ok(p) => decoded_server_model(r) == Ok::<ServerCallModel, Seq<char>>(ServerCallModel::On(p, callback)),
        },
{
    let path = decode_text_arg(path, param)?;
    Ok(ServerCall::On { path, callback })
}

/// A copy of a byte buffer.
pub fn bytes_to_vec(bytes: &[u8]) -> (r: Vec<u8>)
    ensures
        r@ == bytes@,
{
    let mut v: Vec<u8> = Vec::new();
    let mut i: usize = 0;
    while i < bytes.len()
        invariant
            i <= bytes@.len(),
            v@ == bytes@.take(i as int),
        decreases bytes@.len() - i,
    {
        v.push(bytes[i]);
        i = i + 1;
        assert(v@ =~= bytes@.take(i as int));
    }
    assert(bytes@.take(bytes@.len() as int) =~= bytes@);
    v
}

/// What a stream binding does: nothing before the first request was
/// registered; "No stream found" for an unknown stream; otherwise the
/// problem of its arguments, or the call made on the stream.
pub open spec fn stream_effect<O>(
    m: ServiceModel<O>,
    func: Seq<char>,
    id: i32,
    call: Result<CallModel, Seq<char>>,
) -> (ServiceModel<O>, Option<Seq<char>>) {
    if !m.streams.opened {
        (m, None)
    } else if !m.streams.calls.contains_key(id) {
        (m, Some(ffi_error_text(func, "No stream found"@)))
    } else {
        match call {
            Ok(c) => (ServiceModel { streams: record_call(m.streams, id, c), ..m }, None),
            Err(d) => (m, Some(ffi_error_text(func, d))),
        }
    }
}

/// What a server binding does: the problem of its arguments, or the call
/// made on the server (nothing when there is no server `id`).
pub open spec fn server_effect<O>(
    m: ServiceModel<O>,
    func: Seq<char>,
    id: i32,
    call: Result<ServerCallModel, Seq<char>>,
) -> (ServiceModel<O>, Option<Seq<char>>) {
    match call {
        Ok(c) => (ServiceModel { servers: server_call_model(m.servers, id, c), ..m }, None),
        Err(d) => (m, Some(ffi_error_text(func, d))),
    }
}

/// What `*_destroy` does.
pub open spec fn destroy_effect<O>(m: ServiceModel<O>, id: i32) -> ServiceModel<O> {
    ServiceModel { servers: remove_model(m.servers, id), ..m }
}

/// The message of an integer overflow.
pub open spec fn overflow_text() -> Seq<char> {
    "attempt to add with overflow"@
}

/// The line with which `*_create` stops the process, if it does: when the
/// text is a JSON document and either the id counter would overflow or a
/// member of the options cannot be read.
pub open spec fn create_stop<O: ServerOptions>(m: ServiceModel<O>, bytes: Seq<u8>) -> Option<Seq<char>> {
    match json_arg(bytes, "c_opts"@) {
        Err(_) => None,
        Ok(doc) => if m.servers.last_id == i32::MAX {
            Some(overflow_text())
        } else {
            match O::options_problem(doc) {
                Some((key, p)) => Some(crate::options::option_error_text(key, p)),
                None => None,
            }
        },
    }
}

/// What `*_create` does when it does not stop the process: a text that is
/// not UTF-8 or not JSON is reported and 0 returned, with nothing changed;
/// otherwise a server whose options are those of the document is registered
/// under the next id, which is returned.
pub open spec fn create_effect<O: ServerOptions>(
    old: ServiceModel<O>,
    new: ServiceModel<O>,
    func: Seq<char>,
    c_opts: Seq<u8>,
    r: (i32, Option<String>),
) -> bool {
    match json_arg(c_opts, "c_opts"@) {
        Err(d) => {
            &&& r.0 == 0
            &&& text_of(r.1) == Some(ffi_error_text(func, d))
            &&& new == old
        },
        Ok(doc) => {
            let o = new.servers.entries[r.0].opts;
            &&& r.1 is None
            &&& r.0 == old.servers.last_id + 1
            &&& o.options_read_from(doc)
            &&& new == (ServiceModel { servers: add_model(old.servers, o), ..old })
        },
    }
}

impl<O: ServerOptions> Service<O> {
    pub open spec fn model(self) -> ServiceModel<O> {
        ServiceModel { servers: self.servers.model(), streams: self.streams@ }
    }

    /// No servers and no streams.
    pub fn new() -> (r: Service<O>)
        ensures
            r.model().servers == (ServersModel::<O> { last_id: 0, entries: Map::empty() }),
            r.model().streams == (StreamsModel { opened: false, next_id: 1, calls: Map::empty() }),
    {
        Service { servers: Servers::new(), streams: StreamTable::new() }
    }

    /// The line with which `*_create` would stop the process on `c_opts`
    /// (see [`create_stop`]).
    pub fn create_stop_line(&self, c_opts: &[u8]) -> (r: Option<String>)
        ensures
            text_of(r) == create_stop(self.model(), c_opts@),
    {
        let doc = match decode_json_arg(c_opts, "c_opts") {
            Ok(doc) => doc,
            Err(_) => {
                return None;
            },
        };
        if self.servers.last_id() == i32::MAX {
            return Some(String::from_str("attempt to add with overflow"));
        }
        match O::read_options(&doc) {
            Ok(_) => None,
            Err(e) => Some(e.message()),
        }
    }

    /// `*_create`: reads the options from the JSON text `c_opts` and creates
    /// a server with them under the next id. The inputs on which the process
    /// stops are left out.
    pub fn create(&mut self, func: &str, c_opts: &[u8]) -> (r: (i32, Option<String>))
        requires
            create_stop(old(self).model(), c_opts@) is None,
        ensures
            create_effect(old(self).model(), final(self).model(), func@, c_opts@, r),
            final(self).model().servers.wf(),
    {
        proof {
            use_type_invariant(&self.servers);
            self.servers.lemma_model_wf();
        }
        let doc = match decode_json_arg(c_opts, "c_opts") {
            Ok(doc) => doc,
            Err(d) => {
                return (0, Some(ffi_error(func, d.as_str())));
            },
        };
        let opts = match O::read_options(&doc) {
            Ok(opts) => opts,
            Err(_) => {
                return (0, None);
            },
        };
        let id = self.servers.add(opts);
        (id, None)
    }

    /// `*_destroy`: forgets server `id`, if there is one.
    pub fn destroy(&mut self, id: i32)
        ensures
            final(self).model() == destroy_effect(old(self).model(), id),
    {
        self.servers.remove(id);
    }

    /// Makes a decoded call on server `id`, or reports why its arguments
    /// could not be decoded.
    pub fn server_op(&mut self, func: &str, id: i32, call: Result<ServerCall, String>) -> (r: Option<String>)
        ensures
            (final(self).model(), text_of(r)) == server_effect(old(self).model(), func@, id, decoded_server_model(call)),
    {
        match call {
            Ok(c) => {
                self.servers.record(id, c);
                None
            },
            Err(d) => Some(ffi_error(func, d.as_str())),
        }
    }

    /// Makes a decoded call on stream `id`, or reports why it cannot.
    pub fn stream_op(&mut self, func: &str, id: i32, call: Result<StreamCall, String>) -> (r: Option<String>)
        ensures
            (final(self).model(), text_of(r)) == stream_effect(old(self).model(), func@, id, decoded_model(call)),
    {
        match self.streams.lookup(id) {
            None => None,
            Some(false) => Some(ffi_error(func, "No stream found")),
            Some(true) => match call {
                Ok(c) => {
                    self.streams.record(id, c);
                    None
                },
                Err(d) => Some(ffi_error(func, d.as_str())),
            },
        }
    }

    /// Registers the stream of a request that the engine hands to a handler
    /// and returns the stream id that the C handler receives.
    pub fn begin_request(&mut self) -> (id: i32)
        ensures
            id == old(self).model().streams.next_id,
            final(self).model() == (ServiceModel { streams: begin_model(old(self).model().streams), ..old(self).model() }),
    {
        self.streams.begin()
    }

    /// Unregisters the stream of a request once the C handler has returned,
    /// and hands back the calls made on it.
    pub fn finish_request(&mut self, id: i32) -> (r: Option<Stream>)
        ensures
            final(self).model() == (ServiceModel { streams: finish_model(old(self).model().streams, id), ..old(self).model() }),
            r is Some <==> old(self).model().streams.calls.contains_key(id),
            r matches Some(s) ==> s@ == old(self).model().streams.calls[id],
    {
        self.streams.finish(id)
    }

    /// The C logging function of server `id`, if it has one.
    pub fn logger(&self, id: i32) -> (r: Option<usize>)
        ensures
            r == (if self.model().servers.entries.contains_key(id) {
                logger_of(self.model().servers.entries[id].calls)
            } else {
                None
            }),
    {
        match self.servers.get(id) {
            Some(e) => e.logger(),
            None => None,
        }
    }

    /// Starts handling a request that the engine received for `path` on
    /// server `id`: when the server has a C handler for the path, registers
    /// the request's stream and gives the handler and the stream id; else
    /// changes nothing.
    pub fn dispatch(&mut self, id: i32, path: &str) -> (r: Option<(usize, i32)>)
        ensures
            ({
                let m = old(self).model();
                let h = if m.servers.entries.contains_key(id) {
                    handler_of(m.servers.entries[id].calls, path@)
                } else {
                    None
                };
                match h {
                    Some(cb) => r == Some((cb, m.streams.next_id)) && final(self).model() == (ServiceModel {
                        streams: begin_model(m.streams),
                        ..m
                    }),
                    None => r is None && final(self).model() == m,
                }
            }),
    {
        let handler = match self.servers.get(id) {
            Some(e) => e.handler_for(path),
            None => None,
        };
        match handler {
            Some(cb) => {
                let stream_id = self.streams.begin();
                Some((cb, stream_id))
            },
            None => None,
        }
    }

    /// The server with id `id`.
    pub fn server(&self, id: i32) -> (r: Option<&Endpoint<O>>)
        ensures
            r is Some <==> self.model().servers.entries.contains_key(id),
            r matches Some(e) ==> e.model() == self.model().servers.entries[id],
    {
        self.servers.get(id)
    }
}

/// What the body-sending calls record. A `push_file` call is refused exactly
/// when its path is not UTF-8, a `push_json` call exactly when its text is
/// not UTF-8 or not JSON; otherwise the call records the decoded path, or
/// the parsed document, and as attachment flag whether the C flag is 1.
/// Bytes pushed as a body are flagged the same way.
pub proof fn law_push_calls_record_their_arguments(path: Seq<u8>, json: Seq<u8>, flag: i32)
    ensures
        push_file_call(path, flag) is Ok <==> c_text(path) is Some,
        c_text(path) matches Some(p) ==> push_file_call(path, flag) == Ok::<CallModel, Seq<char>>(
            CallModel::PushFile(p, flag == 1),
        ),
        push_json_call(json, flag) is Ok <==> (c_text(json) matches Some(t) && parsed_json(t) is Some),
        c_text(json) matches Some(t) ==> (parsed_json(t) matches Some(doc) ==> push_json_call(json, flag)
            == Ok::<CallModel, Seq<char>>(CallModel::PushJson(doc, flag == 1))),
        c_flag(flag) <==> flag == 1,
{
}

/// The other calls of a stream record their decoded arguments: a header's
/// key and value, and a compression, which is none exactly when the text is
/// empty. Each is refused exactly when one of its texts is not UTF-8.
pub proof fn law_text_calls_record_their_arguments(key: Seq<u8>, value: Seq<u8>, text: Seq<u8>)
    ensures
        add_header_call(key, value) is Ok <==> (c_text(key) is Some && c_text(value) is Some),
        (c_text(key) is Some && c_text(value) is Some) ==> add_header_call(key, value)
            == Ok::<CallModel, Seq<char>>(CallModel::AddHeader(c_text(key)->0, c_text(value)->0)),
        set_compression_call(text) is Ok <==> c_text(text) is Some,
        c_text(text) matches Some(t) ==> (set_compression_call(text) == Ok::<CallModel, Seq<char>>(
            CallModel::SetCompression(if t.len() == 0 { None } else { Some(t) }),
        )),
{
}

/// The status code of a C `int` is its value modulo 2^16, which is the
/// value itself for any code from 0 to 65535.
pub proof fn law_status_code_is_low_bits(c: i32)
    ensures
        status_code(c) as int == (c as int) % 65536,
        0 <= c <= 65535 ==> status_code(c) as int == c as int,
{
    assert((c as u16) as int == (c as int) % 65536) by (bit_vector);
}

} // verus!
