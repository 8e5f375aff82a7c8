//! The table of created servers of one kind.
//!
//! `*_create` registers a server under the next id of a counter that starts
//! at 0 (so the first id is 1); the other bindings name a server by that id
//! and do nothing when no server has it. An [`Endpoint`] holds the options a
//! server was created with and the calls made on it, in order; the server
//! engine carries them out.
use vstd::prelude::*;

verus! {

broadcast use vstd::std_specs::hash::group_hash_axioms;

/// A call made on a server through the bindings.
#[derive(Debug)]
pub enum ServerCall {
    /// `logger(..)`, with the address of the C logging function.
    Logger { callback: usize },
    /// `on(path, ..)`, with the address of the C request handler.
    On { path: String, callback: usize },
    /// `start()`
    Start,
    /// `stop()`
    Stop,
}

/// A server call with its texts as sequences.
pub enum ServerCallModel {
    Logger(usize),
    On(Seq<char>, usize),
    Start,
    Stop,
}

impl ServerCall {
    pub open spec fn model(self) -> ServerCallModel {
        match self {
            ServerCall::Logger { callback } => ServerCallModel::Logger(callback),
            ServerCall::On { path, callback } => ServerCallModel::On(path@, callback),
            ServerCall::Start => ServerCallModel::Start,
            ServerCall::Stop => ServerCallModel::Stop,
        }
    }
}

/// A created server: its options and the calls made on it, oldest first.
#[derive(Debug)]
pub struct Endpoint<O> {
    pub opts: O,
    pub calls: Vec<ServerCall>,
}

/// What an [`Endpoint`] holds.
pub struct EndpointModel<O> {
    pub opts: O,
    pub calls: Seq<ServerCallModel>,
}

impl<O> Endpoint<O> {
    pub open spec fn model(self) -> EndpointModel<O> {
        EndpointModel { opts: self.opts, calls: self.calls@.map_values(|c: ServerCall| c.model()) }
    }
}

/// The C handler that the last `on` call for `path` gave, if any (a later
/// `on` for the same path replaces an earlier one).
pub open spec fn handler_of(calls: Seq<ServerCallModel>, path: Seq<char>) -> Option<usize>
    decreases calls.len(),
{
    if calls.len() == 0 {
        None
    } else {
        match calls.last() {
            ServerCallModel::On(p, cb) if p == path => Some(cb),
            _ => handler_of(calls.drop_last(), path),
        }
    }
}

/// The C logging function that the last `logger` call gave, if any.
pub open spec fn logger_of(calls: Seq<ServerCallModel>) -> Option<usize>
    decreases calls.len(),
{
    if calls.len() == 0 {
        None
    } else {
        match calls.last() {
            ServerCallModel::Logger(cb) => Some(cb),
            _ => logger_of(calls.drop_last()),
        }
    }
}

impl<O> Endpoint<O> {
    /// The C handler for requests on `path` (the one given last).
    pub fn handler_for(&self, path: &str) -> (r: Option<usize>)
        ensures
            r == handler_of(self.model().calls, path@),
    {
        let ghost calls = self.model().calls;
        let mut i: usize = self.calls.len();
        assert(calls.take(i as int) =~= calls);
        while i > 0
            invariant
                i <= self.calls@.len(),
                calls == self.model().calls,
                handler_of(calls, path@) == handler_of(calls.take(i as int), path@),
            decreases i,
        {
            let ghost prefix = calls.take(i as int);
            assert(prefix.drop_last() =~= calls.take(i - 1));
            assert(prefix.last() == self.calls@[i - 1].model());
            match &self.calls[i - 1] {
                ServerCall::On { path: p, callback } => {
                    if crate::json::text_eq(p.as_str(), path) {
                        return Some(*callback);
                    }
                },
                _ => {},
            }
            i = i - 1;
        }
        None
    }

    /// The C logging function (the one given last).
    pub fn logger(&self) -> (r: Option<usize>)
        ensures
            r == logger_of(self.model().calls),
    {
        let ghost calls = self.model().calls;
        let mut i: usize = self.calls.len();
        assert(calls.take(i as int) =~= calls);
        while i > 0
            invariant
                i <= self.calls@.len(),
                calls == self.model().calls,
                logger_of(calls) == logger_of(calls.take(i as int)),
            decreases i,
        {
            let ghost prefix = calls.take(i as int);
            assert(prefix.drop_last() =~= calls.take(i - 1));
            assert(prefix.last() == self.calls@[i - 1].model());
            match &self.calls[i - 1] {
                ServerCall::Logger { callback } => {
                    return Some(*callback);
                },
                _ => {},
            }
            i = i - 1;
        }
        None
    }
}

/// What a [`Servers`] table holds.
#[verifier::ext_equal]
pub struct ServersModel<O> {
    /// The last id handed out (0 before the first server is created).
    pub last_id: i32,
    pub entries: Map<i32, EndpointModel<O>>,
}

impl<O> ServersModel<O> {
    /// Every registered id has been handed out: it lies in `1..=last_id`.
    pub open spec fn wf(self) -> bool {
        &&& 0 <= self.last_id
        &&& forall|k: i32| #[trigger] self.entries.contains_key(k) ==> 1 <= k <= self.last_id
    }
}

/// The table after a server with options `opts` has been created.
pub open spec fn add_model<O>(s: ServersModel<O>, opts: O) -> ServersModel<O> {
    ServersModel {
        last_id: (s.last_id + 1) as i32,
        entries: s.entries.insert(
            (s.last_id + 1) as i32,
            EndpointModel { opts, calls: Seq::empty() },
        ),
    }
}

/// The table after server `id` has been destroyed.
pub open spec fn remove_model<O>(s: ServersModel<O>, id: i32) -> ServersModel<O> {
    ServersModel { entries: s.entries.remove(id), ..s }
}

/// The table after `call` has been made on server `id` (if it exists).
pub open spec fn server_call_model<O>(s: ServersModel<O>, id: i32, call: ServerCallModel) -> ServersModel<O> {
    if s.entries.contains_key(id) {
        ServersModel {
            entries: s.entries.insert(
                id,
                EndpointModel { opts: s.entries[id].opts, calls: s.entries[id].calls.push(call) },
            ),
            ..s
        }
    } else {
        s
    }
}

/// The created servers of one kind.
pub struct Servers<O> {
    last_id: i32,
    entries: std::collections::HashMap<i32, Endpoint<O>>,
}

impl<O> Servers<O> {
    #[verifier::type_invariant]
    pub(crate) closed spec fn ids_handed_out(self) -> bool {
        &&& 0 <= self.last_id
        &&& forall|k: i32| #[trigger] self.entries@.contains_key(k) ==> 1 <= k <= self.last_id
    }

    /// The table's invariant is [`ServersModel::wf`] of its model.
    pub(crate) proof fn lemma_model_wf(self)
        requires
            self.ids_handed_out(),
        ensures
            self.model().wf(),
    {
    }

    pub closed spec fn model(self) -> ServersModel<O> {
        ServersModel {
            last_id: self.last_id,
            entries: Map::new(|k: i32| self.entries@.contains_key(k), |k: i32| self.entries@[k].model()),
        }
    }

    /// An empty table.
    pub fn new() -> (r: Servers<O>)
        ensures
            r.model() == (ServersModel::<O> { last_id: 0, entries: Map::empty() }),
            r.model().wf(),
    {
        let r = Servers { last_id: 0, entries: std::collections::HashMap::new() };
        assert(r.model().entries =~= Map::empty());
        r
    }

    /// The last id handed out.
    pub fn last_id(&self) -> (r: i32)
        ensures
            r == self.model().last_id,
            self.model().wf(),
    {
        proof {
            use_type_invariant(self);
        }
        self.last_id
    }

    /// The server with id `id`.
    pub fn get(&self, id: i32) -> (r: Option<&Endpoint<O>>)
        ensures
            r is Some <==> self.model().entries.contains_key(id),
            r matches Some(e) ==> e.model() == self.model().entries[id],
    {
        self.entries.get(&id)
    }

    /// Registers a server under the next id and returns that id.
    pub fn add(&mut self, opts: O) -> (id: i32)
        requires
            old(self).model().last_id < i32::MAX,
        ensures
            id == old(self).model().last_id + 1,
            final(self).model() == add_model(old(self).model(), opts),
            final(self).model().wf(),
    {
        proof {
            use_type_invariant(&*self);
        }
        let id = self.last_id + 1;
        let endpoint = Endpoint { opts, calls: Vec::new() };
        assert(endpoint.model().calls =~= Seq::<ServerCallModel>::empty());
        let mut entries = std::collections::HashMap::new();
        std::mem::swap(&mut entries, &mut self.entries);
        entries.insert(id, endpoint);
        self.last_id = id;
        self.entries = entries;
        assert(self.model().entries =~= add_model(old(self).model(), opts).entries);
        proof {
            use_type_invariant(&*self);
        }
        id
    }

    /// Unregisters server `id`, if there is one.
    pub fn remove(&mut self, id: i32)
        ensures
            final(self).model() == remove_model(old(self).model(), id),
            final(self).model().wf(),
    {
        proof {
            use_type_invariant(&*self);
        }
        let mut entries = std::collections::HashMap::new();
        std::mem::swap(&mut entries, &mut self.entries);
        entries.remove(&id);
        self.entries = entries;
        assert(self.model().entries =~= old(self).model().entries.remove(id));
        proof {
            use_type_invariant(&*self);
        }
    }

    /// Makes `call` on server `id`, if there is one.
    pub fn record(&mut self, id: i32, call: ServerCall)
        ensures
            final(self).model() == server_call_model(old(self).model(), id, call.model()),
            final(self).model().wf(),
    {
        proof {
            use_type_invariant(&*self);
        }
        let mut entries = std::collections::HashMap::new();
        std::mem::swap(&mut entries, &mut self.entries);
        match entries.remove(&id) {
            Some(mut endpoint) => {
                let ghost before = endpoint.model();
                endpoint.calls.push(call);
                assert(endpoint.model().calls =~= before.calls.push(call.model()));
                entries.insert(id, endpoint);
                self.entries = entries;
                assert(self.model().entries =~= server_call_model(old(self).model(), id, call.model()).entries);
            },
            None => {
                self.entries = entries;
                assert(self.model().entries =~= old(self).model().entries);
            },
        }
        proof {
            use_type_invariant(&*self);
        }
    }
}

/// Does call `c` register a route for `path`?
pub open spec fn routes(c: ServerCallModel, path: Seq<char>) -> bool {
    c matches ServerCallModel::On(p, _) && p == path
}

/// Routing, one call at a time: before any route nothing handles a path; a
/// route for `p` serves `p` from then on; a route for another path, a
/// logger, a start or a stop leaves the handler of `p` as it was, so an
/// earlier route for `p` is not hidden by routes for other paths.
pub proof fn law_routes_one_call(calls: Seq<ServerCallModel>, p: Seq<char>, q: Seq<char>, cb: usize)
    ensures
        handler_of(Seq::<ServerCallModel>::empty(), p) is None,
        handler_of(calls.push(ServerCallModel::On(p, cb)), p) == Some(cb),
        q != p ==> handler_of(calls.push(ServerCallModel::On(q, cb)), p) == handler_of(calls, p),
        handler_of(calls.push(ServerCallModel::Logger(cb)), p) == handler_of(calls, p),
        handler_of(calls.push(ServerCallModel::Start), p) == handler_of(calls, p),
        handler_of(calls.push(ServerCallModel::Stop), p) == handler_of(calls, p),
{
    assert(calls.push(ServerCallModel::On(p, cb)).drop_last() =~= calls);
    assert(calls.push(ServerCallModel::On(q, cb)).drop_last() =~= calls);
    assert(calls.push(ServerCallModel::Logger(cb)).drop_last() =~= calls);
    assert(calls.push(ServerCallModel::Start).drop_last() =~= calls);
    assert(calls.push(ServerCallModel::Stop).drop_last() =~= calls);
}

/// The handler of a path is the callback of the last route registered for
/// it, whatever came after: there is none exactly when no call routes the
/// path, and otherwise some call `On(path, cb)` is followed by no other
/// route for the path.
pub proof fn law_handler_is_last_route(calls: Seq<ServerCallModel>, path: Seq<char>)
    ensures
        handler_of(calls, path) is None <==> forall|i: int| 0 <= i < calls.len() ==> !routes(#[trigger] calls[i], path),
        handler_of(calls, path) matches Some(cb) ==> exists|i: int|
            0 <= i < calls.len() && #[trigger] calls[i] == ServerCallModel::On(path, cb)
                && forall|j: int| i < j < calls.len() ==> !routes(#[trigger] calls[j], path),
    decreases calls.len(),
{
    if calls.len() > 0 {
        let rest = calls.drop_last();
        law_handler_is_last_route(rest, path);
        let n = calls.len() - 1;
        assert(forall|i: int| 0 <= i < n ==> calls[i] == rest[i]);
        if routes(calls.last(), path) {
            match calls.last() {
                ServerCallModel::On(p, cb) => {
                    assert(calls[n] == ServerCallModel::On(path, cb));
                },
                _ => {},
            }
        } else {
            if handler_of(rest, path) is None {
                assert forall|i: int| 0 <= i < calls.len() implies !routes(#[trigger] calls[i], path) by {
                    if i < n {
                        assert(calls[i] == rest[i]);
                    }
                }
            } else {
                let cb = handler_of(rest, path)->0;
                let i = choose|i: int|
                    0 <= i < rest.len() && #[trigger] rest[i] == ServerCallModel::On(path, cb)
                        && forall|j: int| i < j < rest.len() ==> !routes(#[trigger] rest[j], path);
                assert(calls[i] == ServerCallModel::On(path, cb));
                assert forall|j: int| i < j < calls.len() implies !routes(#[trigger] calls[j], path) by {
                    if j < n {
                        assert(calls[j] == rest[j]);
                    }
                }
                assert(routes(calls[i], path));
            }
        }
    }
}

/// Logging, one call at a time: before any logger there is none; the logger
/// given last replaces any earlier one; a route, a start or a stop leaves
/// the logger as it was.
pub proof fn law_logger_one_call(calls: Seq<ServerCallModel>, p: Seq<char>, cb: usize)
    ensures
        logger_of(Seq::<ServerCallModel>::empty()) is None,
        logger_of(calls.push(ServerCallModel::Logger(cb))) == Some(cb),
        logger_of(calls.push(ServerCallModel::On(p, cb))) == logger_of(calls),
        logger_of(calls.push(ServerCallModel::Start)) == logger_of(calls),
        logger_of(calls.push(ServerCallModel::Stop)) == logger_of(calls),
{
    assert(calls.push(ServerCallModel::Logger(cb)).drop_last() =~= calls);
    assert(calls.push(ServerCallModel::On(p, cb)).drop_last() =~= calls);
    assert(calls.push(ServerCallModel::Start).drop_last() =~= calls);
    assert(calls.push(ServerCallModel::Stop).drop_last() =~= calls);
}

/// The logger of a server is the callback of the last logger call: there is
/// none exactly when no call gives one, and otherwise some call `Logger(cb)`
/// is followed by no other logger call.
pub proof fn law_logger_is_last_given(calls: Seq<ServerCallModel>)
    ensures
        logger_of(calls) is None <==> forall|i: int| 0 <= i < calls.len() ==> !(#[trigger] calls[i] is Logger),
        logger_of(calls) matches Some(cb) ==> exists|i: int|
            0 <= i < calls.len() && #[trigger] calls[i] == ServerCallModel::Logger(cb)
                && forall|j: int| i < j < calls.len() ==> !(#[trigger] calls[j] is Logger),
    decreases calls.len(),
{
    if calls.len() > 0 {
        let rest = calls.drop_last();
        law_logger_is_last_given(rest);
        let n = calls.len() - 1;
        assert(forall|i: int| 0 <= i < n ==> calls[i] == rest[i]);
        if calls.last() is Logger {
            match calls.last() {
                ServerCallModel::Logger(cb) => {
                    assert(calls[n] == ServerCallModel::Logger(cb));
                },
                _ => {},
            }
        } else {
            if logger_of(rest) is None {
                assert forall|i: int| 0 <= i < calls.len() implies !(#[trigger] calls[i] is Logger) by {
                    if i < n {
                        assert(calls[i] == rest[i]);
                    }
                }
            } else {
                let cb = logger_of(rest)->0;
                let i = choose|i: int|
                    0 <= i < rest.len() && #[trigger] rest[i] == ServerCallModel::Logger(cb)
                        && forall|j: int| i < j < rest.len() ==> !(#[trigger] rest[j] is Logger);
                assert(calls[i] == ServerCallModel::Logger(cb));
                assert forall|j: int| i < j < calls.len() implies !(#[trigger] calls[j] is Logger) by {
                    if j < n {
                        assert(calls[j] == rest[j]);
                    }
                }
            }
        }
    }
}

} // verus!
