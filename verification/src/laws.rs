//! Properties of the bindings that hold across calls.
use vstd::prelude::*;
use crate::servers::{add_model, remove_model, server_call_model, ServerCallModel, ServersModel};
use crate::config::ServerOptions;
use crate::service::{create_effect, destroy_effect, server_effect, stream_effect, ServiceModel};
use crate::streams::{begin_model, finish_model, following_id, record_call, CallModel, StreamsModel};
use crate::text::ffi_error_text;

verus! {

/// A server is created under an id that no server has: the next one of the
/// counter, which every registered id is below. Creating keeps the table
/// well formed.
pub proof fn law_created_id_is_fresh<O>(m: ServersModel<O>, opts: O)
    requires
        m.wf(),
        m.last_id < i32::MAX,
    ensures
        !m.entries.contains_key((m.last_id + 1) as i32),
        forall|k: i32| m.entries.contains_key(k) ==> k < add_model(m, opts).last_id,
        add_model(m, opts).wf(),
        add_model(m, opts).entries.dom() == m.entries.dom().insert((m.last_id + 1) as i32),
{
    assert(add_model(m, opts).entries.dom() =~= m.entries.dom().insert((m.last_id + 1) as i32));
}

/// Ids are never handed out twice: two servers created one after the other
/// get ids that differ by one, and the second is not the first.
pub proof fn law_ids_increase<O>(m: ServersModel<O>, a: O, b: O)
    requires
        m.wf(),
        m.last_id < i32::MAX - 1,
    ensures
        add_model(add_model(m, a), b).last_id == add_model(m, a).last_id + 1,
        add_model(add_model(m, a), b).entries.contains_key(add_model(m, a).last_id),
        add_model(add_model(m, a), b).entries[add_model(m, a).last_id].opts == a,
        add_model(add_model(m, a), b).entries[add_model(add_model(m, a), b).last_id].opts == b,
{
}

/// Destroying the server just created gives back the servers there were
/// before (only the id counter has moved on).
pub proof fn law_destroy_undoes_create<O>(m: ServersModel<O>, opts: O)
    requires
        m.wf(),
        m.last_id < i32::MAX,
    ensures
        remove_model(add_model(m, opts), (m.last_id + 1) as i32).entries == m.entries,
        remove_model(add_model(m, opts), (m.last_id + 1) as i32).last_id == m.last_id + 1,
{
    assert(remove_model(add_model(m, opts), (m.last_id + 1) as i32).entries =~= m.entries);
}

/// Destroying a server and making a call on a server keep the table well formed.
pub proof fn law_server_table_stays_well_formed<O>(m: ServersModel<O>, id: i32, call: ServerCallModel)
    requires
        m.wf(),
    ensures
        remove_model(m, id).wf(),
        server_call_model(m, id, call).wf(),
{
}

/// A binding that names a server that does not exist changes nothing and
/// reports nothing.
pub proof fn law_unknown_server_untouched<O>(
    m: ServiceModel<O>,
    func: Seq<char>,
    id: i32,
    call: ServerCallModel,
)
    requires
        !m.servers.entries.contains_key(id),
    ensures
        server_effect(m, func, id, Ok(call)) == (m, None::<Seq<char>>),
        destroy_effect(m, id) == m,
{
    assert(destroy_effect(m, id).servers =~= m.servers);
}

/// A call on one server leaves every other server as it was, and appends
/// the call to the calls of that server, keeping its options.
pub proof fn law_server_calls_append<O>(m: ServersModel<O>, id: i32, call: ServerCallModel, k: i32)
    requires
        m.entries.contains_key(id),
    ensures
        server_call_model(m, id, call).entries[id].calls == m.entries[id].calls.push(call),
        server_call_model(m, id, call).entries[id].opts == m.entries[id].opts,
        k != id ==> server_call_model(m, id, call).entries.contains_key(k) == m.entries.contains_key(k),
        k != id ==> server_call_model(m, id, call).entries[k] == m.entries[k],
{
}

/// Before any request has been handled, the stream bindings are silent and
/// change nothing.
pub proof fn law_streams_silent_before_first_request<O>(
    m: ServiceModel<O>,
    func: Seq<char>,
    id: i32,
    call: Result<CallModel, Seq<char>>,
)
    requires
        !m.streams.opened,
    ensures
        stream_effect(m, func, id, call) == (m, None::<Seq<char>>),
{
}

/// Once a request has been handled, a stream binding that names an unknown
/// stream changes nothing and reports "No stream found", whatever its
/// arguments.
pub proof fn law_unknown_stream_reported<O>(
    m: ServiceModel<O>,
    func: Seq<char>,
    id: i32,
    call: Result<CallModel, Seq<char>>,
)
    requires
        m.streams.opened,
        !m.streams.calls.contains_key(id),
    ensures
        stream_effect(m, func, id, call) == (m, Some(ffi_error_text(func, "No stream found"@))),
{
}

/// A stream binding whose arguments cannot be decoded changes nothing; it
/// reports the problem when the stream exists.
pub proof fn law_rejected_arguments_change_nothing<O>(
    m: ServiceModel<O>,
    func: Seq<char>,
    id: i32,
    problem: Seq<char>,
)
    requires
        m.streams.opened,
        m.streams.calls.contains_key(id),
    ensures
        stream_effect(m, func, id, Err(problem)) == (m, Some(ffi_error_text(func, problem))),
{
}

/// A call on one stream appends it to that stream's calls and leaves every
/// other stream as it was.
pub proof fn law_stream_calls_append(s: StreamsModel, id: i32, call: CallModel, k: i32)
    requires
        s.opened,
        s.calls.contains_key(id),
    ensures
        record_call(s, id, call).calls[id] == s.calls[id].push(call),
        record_call(s, id, call).calls.dom() == s.calls.dom(),
        k != id ==> record_call(s, id, call).calls[k] == s.calls[k],
        record_call(s, id, call).next_id == s.next_id,
{
    assert(record_call(s, id, call).calls.dom() =~= s.calls.dom());
}

/// A request registers its stream under the next stream id, with no calls
/// yet; when it is over, the table of streams is as it was before (only the
/// stream counter has moved on), provided that id was free.
pub proof fn law_request_round_restores_streams(s: StreamsModel)
    requires
        !s.calls.contains_key(s.next_id),
    ensures
        begin_model(s).calls[s.next_id] == Seq::<CallModel>::empty(),
        finish_model(begin_model(s), s.next_id).calls == s.calls,
        finish_model(begin_model(s), s.next_id).next_id == following_id(s.next_id),
        finish_model(begin_model(s), s.next_id).opened,
{
    assert(finish_model(begin_model(s), s.next_id).calls =~= s.calls);
}

/// The calls made on a request's stream while its handler runs are what the
/// stream holds when the request is over: beginning a request, making a
/// call on it and finishing it hands back exactly that call.
pub proof fn law_request_hands_back_its_calls(s: StreamsModel, call: CallModel)
    ensures
        finish_model(record_call(begin_model(s), s.next_id, call), s.next_id).calls
            == s.calls.remove(s.next_id),
        record_call(begin_model(s), s.next_id, call).calls[s.next_id] == seq![call],
{
    assert(finish_model(record_call(begin_model(s), s.next_id, call), s.next_id).calls
        =~= s.calls.remove(s.next_id));
    assert(Seq::<CallModel>::empty().push(call) =~= seq![call]);
}

/// One binding call, or one step of a request, as it acts on the state of
/// one kind of server. Each binding's contract says its effect is the one
/// given here by [`apply`]:
/// - `Create`: a `*_create` that registered a server with these options;
/// - `Refused`: a `*_create` whose text was not JSON (nothing changes);
/// - `Destroy`, `Server`, `Stream`: `*_destroy`, a server binding, a stream
///   binding, with the function name, the id and the decoded call;
/// - `Begin`: a request handed to a handler (its stream is registered);
/// - `Finish`: the handler of the request with that stream id has returned.
pub enum Step<O> {
    Create(O),
    Refused,
    Destroy(i32),
    Server(Seq<char>, i32, Result<ServerCallModel, Seq<char>>),
    Stream(Seq<char>, i32, Result<CallModel, Seq<char>>),
    Begin,
    Finish(i32),
}

/// The state after one step.
pub open spec fn apply<O>(m: ServiceModel<O>, step: Step<O>) -> ServiceModel<O> {
    match step {
        Step::Create(o) => ServiceModel { servers: add_model(m.servers, o), ..m },
        Step::Refused => m,
        Step::Destroy(id) => destroy_effect(m, id),
        Step::Server(func, id, call) => server_effect(m, func, id, call).0,
        Step::Stream(func, id, call) => stream_effect(m, func, id, call).0,
        Step::Begin => ServiceModel { streams: begin_model(m.streams), ..m },
        Step::Finish(id) => ServiceModel { streams: finish_model(m.streams, id), ..m },
    }
}

/// The state after a sequence of steps, oldest first.
pub open spec fn run<O>(m: ServiceModel<O>, steps: Seq<Step<O>>) -> ServiceModel<O>
    decreases steps.len(),
{
    if steps.len() == 0 {
        m
    } else {
        apply(run(m, steps.drop_last()), steps.last())
    }
}

/// How many servers the steps create.
pub open spec fn creates<O>(steps: Seq<Step<O>>) -> nat
    decreases steps.len(),
{
    if steps.len() == 0 {
        0
    } else {
        creates(steps.drop_last()) + if steps.last() is Create {
            1nat
        } else {
            0nat
        }
    }
}

/// How many requests the steps hand to handlers.
pub open spec fn begins<O>(steps: Seq<Step<O>>) -> nat
    decreases steps.len(),
{
    if steps.len() == 0 {
        0
    } else {
        begins(steps.drop_last()) + if steps.last() is Begin {
            1nat
        } else {
            0nat
        }
    }
}

/// The calls that the steps make on stream `id`, in order (those whose
/// arguments were decoded).
pub open spec fn calls_to<O>(steps: Seq<Step<O>>, id: i32) -> Seq<CallModel>
    decreases steps.len(),
{
    if steps.len() == 0 {
        seq![]
    } else {
        match steps.last() {
            Step::Stream(_, i, Ok(c)) if i == id => calls_to(steps.drop_last(), id).push(c),
            _ => calls_to(steps.drop_last(), id),
        }
    }
}

/// The steps are calls that a handler makes while it runs: no request is
/// handed over and none is finished among them.
pub open spec fn handler_calls<O>(steps: Seq<Step<O>>) -> bool {
    forall|i: int| 0 <= i < steps.len() ==> !(#[trigger] steps[i] is Begin) && !(steps[i] is Finish)
}

/// Over any steps (short of overflowing the id counter), the server table
/// stays well formed and its counter moves on by one per server created.
pub proof fn lemma_run_servers<O>(m: ServiceModel<O>, steps: Seq<Step<O>>)
    requires
        m.servers.wf(),
        m.servers.last_id + creates(steps) <= i32::MAX,
    ensures
        run(m, steps).servers.wf(),
        run(m, steps).servers.last_id == m.servers.last_id + creates(steps),
    decreases steps.len(),
{
    if steps.len() > 0 {
        lemma_run_servers(m, steps.drop_last());
        let p = run(m, steps.drop_last());
        match steps.last() {
            Step::Create(o) => {
                law_created_id_is_fresh(p.servers, o);
            },
            Step::Destroy(id) => {
                law_server_table_stays_well_formed(p.servers, id, ServerCallModel::Start);
            },
            Step::Server(func, id, call) => {
                match call {
                    Ok(c) => law_server_table_stays_well_formed(p.servers, id, c),
                    Err(_) => {},
                }
            },
            _ => {},
        }
    }
}

/// Server ids are positive, grow, and are never handed out twice: of two
/// servers created one after the other, with any steps before and between
/// (destroys, refused creates, other calls), the second gets a larger id,
/// one more exactly when no server was created in between, and neither id
/// is held by a server at the moment it is handed out.
pub proof fn law_created_ids_grow<O>(
    m: ServiceModel<O>,
    before: Seq<Step<O>>,
    a: O,
    between: Seq<Step<O>>,
    b: O,
)
    requires
        m.servers.wf(),
        m.servers.last_id + creates(before) + creates(between) + 2 <= i32::MAX,
    ensures
        ({
            let m1 = run(m, before);
            let id_a = m1.servers.last_id + 1;
            let m2 = run(apply(m1, Step::Create(a)), between);
            let id_b = m2.servers.last_id + 1;
            &&& 0 < id_a < id_b
            &&& (id_b == id_a + 1 <==> creates(between) == 0)
            &&& !m1.servers.entries.contains_key(id_a as i32)
            &&& !m2.servers.entries.contains_key(id_b as i32)
        }),
{
    lemma_run_servers(m, before);
    let m1 = run(m, before);
    law_created_id_is_fresh(m1.servers, a);
    let m1a = apply(m1, Step::Create(a));
    lemma_run_servers(m1a, between);
    let m2 = run(m1a, between);
    law_created_id_is_fresh(m2.servers, b);
}

/// Over any steps (short of overflowing), the stream counter moves on by
/// one per request handed to a handler.
pub proof fn lemma_run_stream_ids<O>(m: ServiceModel<O>, steps: Seq<Step<O>>)
    requires
        1 <= m.streams.next_id,
        m.streams.next_id + begins(steps) <= i32::MAX,
    ensures
        run(m, steps).streams.next_id == m.streams.next_id + begins(steps),
    decreases steps.len(),
{
    if steps.len() > 0 {
        lemma_run_stream_ids(m, steps.drop_last());
    }
}

/// Stream ids of requests differ: starting from a runtime that has handled
/// no request (the next stream id is 1), the first request gets id 1 and a
/// later request gets a larger id (as long as fewer than `i32::MAX`
/// requests are handled).
pub proof fn law_stream_ids_differ<O>(m: ServiceModel<O>, before: Seq<Step<O>>, between: Seq<Step<O>>)
    requires
        m.streams.next_id == 1,
        begins(before) + begins(between) + 2 <= i32::MAX,
    ensures
        ({
            let m1 = run(m, before);
            let sid1 = m1.streams.next_id;
            let sid2 = run(apply(m1, Step::Begin), between).streams.next_id;
            &&& sid1 == 1 + begins(before)
            &&& 1 <= sid1 < sid2
            &&& sid2 == sid1 + 1 + begins(between)
        }),
{
    lemma_run_stream_ids(m, before);
    let m1 = run(m, before);
    let m1b = apply(m1, Step::Begin);
    assert(m1b.streams.next_id == m1.streams.next_id + 1);
    lemma_run_stream_ids(m1b, between);
}

/// While a handler runs, its calls act on the registered streams: every
/// stream stays registered, and each gets the calls made on it appended in
/// order; no stream is added or removed.
pub proof fn lemma_handler_steps<O>(m: ServiceModel<O>, steps: Seq<Step<O>>)
    requires
        m.streams.opened,
        handler_calls(steps),
    ensures
        run(m, steps).streams.opened,
        run(m, steps).streams.next_id == m.streams.next_id,
        run(m, steps).streams.calls.dom() == m.streams.calls.dom(),
        forall|k: i32| #[trigger] m.streams.calls.contains_key(k)
            ==> run(m, steps).streams.calls[k] == m.streams.calls[k] + calls_to(steps, k),
    decreases steps.len(),
{
    if steps.len() == 0 {
        assert forall|k: i32| #[trigger] m.streams.calls.contains_key(k)
            implies m.streams.calls[k] == m.streams.calls[k] + calls_to(steps, k) by {
            assert(m.streams.calls[k] + Seq::<CallModel>::empty() =~= m.streams.calls[k]);
        }
    } else {
        let prefix = steps.drop_last();
        assert forall|i: int| 0 <= i < prefix.len() implies !(#[trigger] prefix[i] is Begin) && !(prefix[i] is Finish) by {
            assert(prefix[i] == steps[i]);
        }
        lemma_handler_steps(m, prefix);
        let p = run(m, prefix);
        let last = steps.last();
        assert(!(steps[steps.len() - 1] is Begin) && !(steps[steps.len() - 1] is Finish));
        match last {
            Step::Stream(func, id, call) => {
                match call {
                    Ok(c) => {
                        if p.streams.calls.contains_key(id) {
                            law_stream_calls_append(p.streams, id, c, id);
                        }
                        assert forall|k: i32| #[trigger] m.streams.calls.contains_key(k)
                            implies run(m, steps).streams.calls[k] == m.streams.calls[k] + calls_to(steps, k) by {
                            if k == id {
                                assert(m.streams.calls[k] + calls_to(prefix, k).push(c)
                                    =~= (m.streams.calls[k] + calls_to(prefix, k)).push(c));
                            } else if p.streams.calls.contains_key(id) {
                                law_stream_calls_append(p.streams, id, c, k);
                            }
                        }
                        assert(run(m, steps).streams.calls.dom() =~= m.streams.calls.dom());
                    },
                    Err(_) => {},
                }
            },
            _ => {},
        }
    }
}

/// A handler run: the engine hands a request to a handler, whose stream
/// gets the next stream id; while the handler runs, its calls on that id
/// act on that stream, and the other streams get the calls made on them;
/// when the handler returns, the stream leaves the table, which then holds
/// the streams it held before.
pub proof fn law_handler_round<O>(m: ServiceModel<O>, steps: Seq<Step<O>>)
    requires
        !m.streams.calls.contains_key(m.streams.next_id),
        handler_calls(steps),
    ensures
        ({
            let sid = m.streams.next_id;
            let during = run(apply(m, Step::Begin), steps);
            let after = apply(during, Step::Finish(sid));
            &&& during.streams.calls.contains_key(sid)
            &&& during.streams.calls[sid] == calls_to(steps, sid)
            &&& forall|k: i32| k != sid && #[trigger] m.streams.calls.contains_key(k)
                ==> during.streams.calls[k] == m.streams.calls[k] + calls_to(steps, k)
            &&& !after.streams.calls.contains_key(sid)
            &&& after.streams.calls.dom() == m.streams.calls.dom()
        }),
{
    let sid = m.streams.next_id;
    let b = apply(m, Step::Begin);
    assert(b.streams.calls.contains_key(sid));
    lemma_handler_steps(b, steps);
    let during = run(b, steps);
    assert(Seq::<CallModel>::empty() + calls_to(steps, sid) =~= calls_to(steps, sid));
    assert forall|k: i32| k != sid && #[trigger] m.streams.calls.contains_key(k)
        implies during.streams.calls[k] == m.streams.calls[k] + calls_to(steps, k) by {
        assert(b.streams.calls.contains_key(k));
        assert(b.streams.calls[k] == m.streams.calls[k]);
    }
    let after = apply(during, Step::Finish(sid));
    assert(after.streams.calls.dom() =~= m.streams.calls.dom());
}

/// What a `*_create` binding did is one step: `Create` with the options of
/// the server it registered, or `Refused`; in the first case the id it
/// returns is positive and is the one that [`law_created_ids_grow`]
/// speaks of; 0 means that nothing was created.
pub proof fn law_create_is_a_step<O: ServerOptions>(
    old: ServiceModel<O>,
    new: ServiceModel<O>,
    func: Seq<char>,
    c_opts: Seq<u8>,
    r: (i32, Option<String>),
)
    requires
        old.servers.wf(),
        create_effect(old, new, func, c_opts, r),
    ensures
        r.0 == 0 ==> new == apply(old, Step::<O>::Refused),
        r.0 != 0 ==> new == apply(old, Step::Create(new.servers.entries[r.0].opts))
            && 0 < r.0 == old.servers.last_id + 1,
{
}

} // verus!
