//! The table of in-flight streams of one kind of server.
//!
//! While a request handler runs, its stream is registered under a fresh
//! stream id, which the C side uses to act on the stream. A [`Stream`] holds
//! the calls made on it, in order; the server engine carries them out.
use vstd::prelude::*;
use crate::headers::header_texts;
use crate::json::JsonValue;

verus! {

broadcast use vstd::std_specs::hash::group_hash_axioms;

/// A call made on a stream through the bindings.
#[derive(Debug)]
pub enum StreamCall {
    /// `add_header(key, value)`
    AddHeader { key: String, value: String },
    /// `end()`
    End,
    /// `push_bytes(bytes, is_attachment)`
    PushBytes { bytes: Vec<u8>, is_attachment: bool },
    /// `push_file(path, is_attachment)`
    PushFile { path: String, is_attachment: bool },
    /// `push_json(json, is_attachment)`
    PushJson { json: JsonValue, is_attachment: bool },
    /// `set_code(code)`
    SetCode { code: u16 },
    /// `set_compression(compression)`
    SetCompression { compression: Option<String> },
    /// `set_headers(headers)`
    SetHeaders { headers: Vec<(String, String)> },
    /// `close()` of a WebSocket or WebTransport stream
    Close,
    /// `push(json, bytes)` of a WebSocket or WebTransport stream
    Push { json: JsonValue, bytes: Vec<u8> },
    /// `push_bytes(bytes)` of a WebSocket or WebTransport stream
    SendBytes { bytes: Vec<u8> },
    /// `push_json(json)` of a WebSocket or WebTransport stream
    SendJson { json: JsonValue },
}

/// A stream call with its texts and byte strings as sequences.
pub enum CallModel {
    AddHeader(Seq<char>, Seq<char>),
    End,
    PushBytes(Seq<u8>, bool),
    PushFile(Seq<char>, bool),
    PushJson(JsonValue, bool),
    SetCode(u16),
    SetCompression(Option<Seq<char>>),
    SetHeaders(Seq<(Seq<char>, Seq<char>)>),
    Close,
    Push(JsonValue, Seq<u8>),
    SendBytes(Seq<u8>),
    SendJson(JsonValue),
}

impl StreamCall {
    pub open spec fn model(self) -> CallModel {
        match self {
            StreamCall::AddHeader { key, value } => CallModel::AddHeader(key@, value@),
            StreamCall::End => CallModel::End,
            StreamCall::PushBytes { bytes, is_attachment } => CallModel::PushBytes(bytes@, is_attachment),
            StreamCall::PushFile { path, is_attachment } => CallModel::PushFile(path@, is_attachment),
            StreamCall::PushJson { json, is_attachment } => CallModel::PushJson(json, is_attachment),
            StreamCall::SetCode { code } => CallModel::SetCode(code),
            StreamCall::SetCompression { compression } => CallModel::SetCompression(
                match compression {
                    Some(s) => Some(s@),
                    None => None,
                },
            ),
            StreamCall::SetHeaders { headers } => CallModel::SetHeaders(header_texts(headers@)),
            StreamCall::Close => CallModel::Close,
            StreamCall::Push { json, bytes } => CallModel::Push(json, bytes@),
            StreamCall::SendBytes { bytes } => CallModel::SendBytes(bytes@),
            StreamCall::SendJson { json } => CallModel::SendJson(json),
        }
    }
}

/// The calls made on one stream, oldest first.
#[derive(Debug)]
pub struct Stream {
    pub calls: Vec<StreamCall>,
}

impl View for Stream {
    type V = Seq<CallModel>;

    open spec fn view(&self) -> Seq<CallModel> {
        self.calls@.map_values(|c: StreamCall| c.model())
    }
}

/// What a [`StreamTable`] holds.
#[verifier::ext_equal]
pub struct StreamsModel {
    /// Has a stream ever been registered? Before that, the bindings ignore
    /// stream ids silently.
    pub opened: bool,
    /// The id that the next registered stream gets.
    pub next_id: i32,
    /// The calls made on each registered stream.
    pub calls: Map<i32, Seq<CallModel>>,
}

/// The streams of the requests that are being handled.
pub struct StreamTable {
    opened: bool,
    next_id: i32,
    entries: std::collections::HashMap<i32, Stream>,
}

impl View for StreamTable {
    type V = StreamsModel;

    closed spec fn view(&self) -> StreamsModel {
        StreamsModel {
            opened: self.opened,
            next_id: self.next_id,
            calls: Map::new(|k: i32| self.entries@.contains_key(k), |k: i32| self.entries@[k]@),
        }
    }
}

/// The id that follows `id` (stream ids are handed out by a wrapping counter).
pub open spec fn following_id(id: i32) -> i32 {
    if id == i32::MAX {
        i32::MIN
    } else {
        (id + 1) as i32
    }
}

/// The table after `call` has been made on stream `id` (when the table has
/// been opened and holds the stream).
pub open spec fn record_call(s: StreamsModel, id: i32, call: CallModel) -> StreamsModel {
    if s.opened && s.calls.contains_key(id) {
        StreamsModel { calls: s.calls.insert(id, s.calls[id].push(call)), ..s }
    } else {
        s
    }
}

/// The table once a request has registered a new, empty stream.
pub open spec fn begin_model(s: StreamsModel) -> StreamsModel {
    StreamsModel {
        opened: true,
        next_id: following_id(s.next_id),
        calls: s.calls.insert(s.next_id, Seq::empty()),
    }
}

/// The table once the stream `id` has been unregistered.
pub open spec fn finish_model(s: StreamsModel, id: i32) -> StreamsModel {
    StreamsModel { calls: s.calls.remove(id), ..s }
}

impl StreamTable {
    /// An empty table that has never held a stream; the first id is 1.
    pub fn new() -> (r: StreamTable)
        ensures
            r@ == (StreamsModel { opened: false, next_id: 1, calls: Map::empty() }),
    {
        let r = StreamTable { opened: false, next_id: 1, entries: std::collections::HashMap::new() };
        assert(r@.calls =~= Map::empty());
        r
    }

    /// Is stream `id` registered? `None` when no stream was ever registered.
    pub fn lookup(&self, id: i32) -> (r: Option<bool>)
        ensures
            r is None <==> !self@.opened,
            r matches Some(b) ==> b == self@.calls.contains_key(id),
    {
        if !self.opened {
            None
        } else {
            Some(self.entries.contains_key(&id))
        }
    }

    /// Makes `call` on stream `id`, if the table holds it.
    pub fn record(&mut self, id: i32, call: StreamCall)
        ensures
            final(self)@ == record_call(old(self)@, id, call.model()),
    {
        if self.opened {
            match self.entries.remove(&id) {
                Some(mut stream) => {
                    let ghost before = stream@;
                    stream.calls.push(call);
                    assert(stream@ =~= before.push(call.model()));
                    self.entries.insert(id, stream);
                    assert(self@.calls =~= old(self)@.calls.insert(id, old(self)@.calls[id].push(call.model())));
                },
                None => {
                    assert(self@.calls =~= old(self)@.calls);
                },
            }
        }
    }

    /// Registers a new, empty stream for a request and returns its id
    /// (the counter wraps around, as an atomic `fetch_add` does).
    pub fn begin(&mut self) -> (id: i32)
        ensures
            id == old(self)@.next_id,
            final(self)@ == begin_model(old(self)@),
    {
        let id = self.next_id;
        self.next_id = if self.next_id == i32::MAX {
            i32::MIN
        } else {
            self.next_id + 1
        };
        self.opened = true;
        let stream = Stream { calls: Vec::new() };
        assert(stream@ =~= Seq::<CallModel>::empty());
        self.entries.insert(id, stream);
        assert(self@.calls =~= old(self)@.calls.insert(id, Seq::empty()));
        id
    }

    /// Unregisters stream `id` once its request has been handled, and hands
    /// back the stream.
    pub fn finish(&mut self, id: i32) -> (r: Option<Stream>)
        ensures
            final(self)@ == finish_model(old(self)@, id),
            r is Some <==> old(self)@.calls.contains_key(id),
            r matches Some(s) ==> s@ == old(self)@.calls[id],
    {
        let r = self.entries.remove(&id);
        assert(self@.calls =~= old(self)@.calls.remove(id));
        r
    }
}

} // verus!
