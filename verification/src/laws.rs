//! Properties of the library that relate several of its functions, or the
//! client to the task server.
use vstd::prelude::*;
use vstd::std_specs::cmp::PartialOrdIs;
use crate::janus_tasks_client::{
    collection_start, flow_of, ClientError, create_session_step_outcome, is_session_request, role_of, Aggregator, CreateSessionAction,
    CreateSessionFlow, CreateSessionStage, JanusTasksClient, SessionReply, STATUS_OK,
};
use crate::hpke::{fetched, HpkeKeypairView};
use crate::messages::{CreateTrainingSessionRequest, Role, StartRoundRequest, TrainingSessionId};
use crate::outside::{base64url_decoded, base64url_encoded, u16_be_bytes, u16_from_be};
use crate::provisioner::{
    create_outcome, end_outcome, session_from_request, start_outcome, task_for_session, ProvisionError, TaskParameters,
    TrainingSession, TIME_PRECISION,
};

verus! {

/// Decoding the two bytes that encoding a session identifier appends gives
/// back the identifier, whatever came before them.
pub proof fn lemma_session_id_codec_roundtrip(id: TrainingSessionId, prefix: Seq<u8>)
    ensures
        ({
            let bytes = prefix + u16_be_bytes(id.0);
            &&& bytes.len() == prefix.len() + 2
            &&& u16_from_be(bytes[prefix.len() as int], bytes[prefix.len() as int + 1]) == id.0
        }),
{
    let v = id.0;
    let bytes = prefix + u16_be_bytes(v);
    assert(bytes[prefix.len() as int] == (v / 256) as u8);
    assert(bytes[prefix.len() as int + 1] == (v % 256) as u8);
    assert(((v / 256) as u8) * 256 + ((v % 256) as u8) == v) by (nonlinear_arith);
}

/// One call on a key registry: a fetch of some key pair (as
/// `HpkeConfigRegistry::fetch_keypair` and `get_random_keypair` state it), or a
/// call that leaves the registry as it is.
pub open spec fn registry_step(before: Map<u8, HpkeKeypairView>, after: Map<u8, HpkeKeypairView>) -> bool {
    before == after || exists|id: u8, kp: HpkeKeypairView| #[trigger] fetched(before, id, kp, after)
}

/// Each state of `states` follows from the one before by a call on the registry.
pub open spec fn registry_steps(states: Seq<Map<u8, HpkeKeypairView>>) -> bool {
    forall|i: int| 0 <= i < states.len() - 1 ==> #[trigger] registry_step(states[i], states[i + 1])
}

/// Once a registry holds a key pair for `id`, it keeps that same key pair
/// through any calls that follow.
pub proof fn lemma_keypair_never_changes(states: Seq<Map<u8, HpkeKeypairView>>, id: u8, j: int)
    requires
        registry_steps(states),
        0 <= j < states.len(),
        states[0].contains_key(id),
    ensures
        states[j].contains_key(id),
        states[j][id] == states[0][id],
    decreases j,
{
    if j > 0 {
        let i = j - 1;
        lemma_keypair_never_changes(states, id, i);
        assert(registry_step(states[i], states[i + 1]));
    }
}

/// A registry hands out the same key pair for `id` at every fetch: the key
/// pair `second` that a fetch of `id` at step `b` hands out is the key pair
/// `first` that an earlier fetch of `id`, at step `a`, handed out, whatever
/// calls came between.
pub proof fn lemma_fetch_is_memoized(
    states: Seq<Map<u8, HpkeKeypairView>>,
    id: u8,
    a: int,
    b: int,
    first: HpkeKeypairView,
    second: HpkeKeypairView,
)
    requires
        registry_steps(states),
        0 <= a < b,
        b + 1 < states.len(),
        fetched(states[a], id, first, states[a + 1]),
        fetched(states[b], id, second, states[b + 1]),
    ensures
        second == first,
{
    let later = states.subrange(a + 1, b + 1);
    assert forall|i: int| 0 <= i < later.len() - 1 implies #[trigger] registry_step(later[i], later[i + 1]) by {
        assert(registry_step(states[a + 1 + i], states[a + 1 + i + 1]));
    }
    lemma_keypair_never_changes(later, id, b - a - 1);
}

/// The task server's calls keep its key registry going by registry steps:
/// answering a request to create or to end a session fetches at most one key
/// pair and changes no other.
pub proof fn lemma_answers_are_registry_steps(
    before: Map<u16, TrainingSession>,
    keys_before: Map<u8, HpkeKeypairView>,
    event: SessionEvent,
    after: Map<u16, TrainingSession>,
    keys_after: Map<u8, HpkeKeypairView>,
)
    requires
        answered(before, keys_before, event, after, keys_after),
    ensures
        registry_step(keys_before, keys_after),
{
    if let SessionEvent::Create { request, result } = event {
        let (fresh_id, key_id) = choose|fresh_id: u16, key_id: u8|
            create_outcome(before, keys_before, request, fresh_id, key_id, result, after, keys_after);
        if result is Ok {
            assert(fetched(keys_before, key_id, keys_after[key_id], keys_after));
        }
    }
}

/// A request for a session identifier that is in use is refused with
/// `SessionExists`, and changes neither the sessions nor the key registry.
pub proof fn lemma_taken_id_is_refused(
    before: Map<u16, TrainingSession>,
    keys_before: Map<u8, HpkeKeypairView>,
    request: CreateTrainingSessionRequest,
    fresh_id: u16,
    key_id: u8,
    result: Result<TrainingSessionId, ProvisionError>,
    after: Map<u16, TrainingSession>,
    keys_after: Map<u8, HpkeKeypairView>,
)
    requires
        create_outcome(before, keys_before, request, fresh_id, key_id, result, after, keys_after),
        request.training_session_id matches Some(id) && before.contains_key(id.0),
    ensures
        result == Err::<TrainingSessionId, ProvisionError>(
            ProvisionError::SessionExists(request.training_session_id->0),
        ),
        after == before,
        keys_after == keys_before,
{
}

/// A session that was created can start rounds: a request to start a round
/// of it with a 32-byte task identifier yields the task with that identifier,
/// the session's aggregators, role and verify key, and its VDAF.
pub proof fn lemma_created_session_starts_rounds(
    before: Map<u16, TrainingSession>,
    keys_before: Map<u8, HpkeKeypairView>,
    request: CreateTrainingSessionRequest,
    fresh_id: u16,
    key_id: u8,
    created: Result<TrainingSessionId, ProvisionError>,
    after: Map<u16, TrainingSession>,
    keys_after: Map<u8, HpkeKeypairView>,
    round: StartRoundRequest,
    now: u64,
    started: Result<TaskParameters, ProvisionError>,
)
    requires
        create_outcome(before, keys_before, request, fresh_id, key_id, created, after, keys_after),
        created is Ok,
        round.training_session_id == created->Ok_0,
        base64url_decoded(round.task_id_encoded@) matches Ok(bytes) && bytes.len() == 32,
        start_outcome(after, round, now, started),
    ensures
        started matches Ok(t) && {
            &&& t.task_id.0@ == base64url_decoded(round.task_id_encoded@)->Ok_0
            &&& t.aggregator_endpoints@[0]@ == request.leader_endpoint@
            &&& t.aggregator_endpoints@[1]@ == request.helper_endpoint@
            &&& t.role == request.role
            &&& Ok::<Seq<u8>, Seq<char>>(t.vdaf_verify_keys@[0]@) == base64url_decoded(request.verify_key_encoded@)
            &&& t.hpke_keys@[0]@ == keys_after[key_id]
            &&& t.vdaf == crate::provisioner::vdaf_for(request.noise_parameter, request.num_gradient_entries)
            &&& t.vdaf.noise() == request.noise_parameter
            &&& t.vdaf.length() == request.num_gradient_entries
            &&& t.aggregator_auth_tokens@.len() == 1
            &&& t.aggregator_auth_tokens@[0]@ == request.leader_auth_token_encoded@
        },
{
}

/// The verify key that the client draws reaches the aggregator unchanged:
/// an aggregator that accepts the client's request to create a session holds
/// the session with that verify key, the role that the client gave it, and
/// the client's tokens and collector configuration. The aggregator refuses the
/// request only where the requested identifier is in use.
pub proof fn lemma_verify_key_reaches_aggregator(
    client: JanusTasksClient,
    flow: CreateSessionFlow,
    key: Seq<u8>,
    to: Aggregator,
    id: Option<TrainingSessionId>,
    request: CreateTrainingSessionRequest,
    before: Map<u16, TrainingSession>,
    keys_before: Map<u8, HpkeKeypairView>,
    fresh_id: u16,
    key_id: u8,
    result: Result<TrainingSessionId, ProvisionError>,
    after: Map<u16, TrainingSession>,
    keys_after: Map<u8, HpkeKeypairView>,
)
    requires
        base64url_decoded(flow.spec_verify_key_encoded()) == Ok::<Seq<u8>, Seq<char>>(key),
        is_session_request(client, flow, to, id, request),
        create_outcome(before, keys_before, request, fresh_id, key_id, result, after, keys_after),
    ensures
        result is Err ==> (id matches Some(i) && before.contains_key(i.0)),
        result matches Ok(i) ==> {
            &&& after[i.0].verify_key@ == key
            &&& after[i.0].role == role_of(to)
            &&& after[i.0].collector_hpke_config@ == client.spec_hpke_keypair().config
            &&& after[i.0].collector_auth_token@ == flow.spec_collector_auth_token_encoded()
            &&& after[i.0].leader_auth_token@ == flow.spec_leader_auth_token_encoded()
        },
{
}

/// The task identifier that the client puts into its request to start a
/// round is the one the aggregator provisions the task under, for any session
/// that the aggregator holds.
pub proof fn lemma_task_id_reaches_aggregator(
    task_id: Seq<u8>,
    round: StartRoundRequest,
    sessions: Map<u16, TrainingSession>,
    now: u64,
    started: Result<TaskParameters, ProvisionError>,
)
    requires
        task_id.len() == 32,
        base64url_decoded(round.task_id_encoded@) == Ok::<Seq<u8>, Seq<char>>(task_id),
        sessions.contains_key(round.training_session_id.0),
        start_outcome(sessions, round, now, started),
    ensures
        started matches Ok(t) && t.task_id.0@ == task_id,
{
}

/// A session that the client creates on both aggregators gets the
/// identifier that the leader picked: the helper is asked to create the
/// session under the leader's identifier, and that identifier is the outcome
/// once the helper has confirmed it. (The second step is only taken where the
/// first one left the creation unfinished.)
pub proof fn lemma_session_id_is_leaders(
    client: JanusTasksClient,
    f0: CreateSessionFlow,
    leader_reply: SessionReply,
    f1: CreateSessionFlow,
    a1: CreateSessionAction,
    helper_reply: SessionReply,
    f2: CreateSessionFlow,
    a2: CreateSessionAction,
)
    requires
        f0.spec_stage() == CreateSessionStage::AwaitingLeader,
        create_session_step_outcome(client, f0, leader_reply, f1, a1),
        f1.spec_stage() !is Finished,
        create_session_step_outcome(client, f1, helper_reply, f2, a2),
        a2 matches CreateSessionAction::Done(r) && r is Ok,
    ensures
        leader_reply matches SessionReply::Answered { status, response } && status == STATUS_OK && response
            is Some,
        ({
            let leader_id = leader_reply->response->0.training_session_id;
            &&& a1 matches CreateSessionAction::Send { to, request } && to == Aggregator::Helper
                && request.training_session_id == Some(leader_id)
            &&& a2 == CreateSessionAction::Done(Ok::<TrainingSessionId, crate::janus_tasks_client::ClientError>(leader_id))
        }),
        helper_reply matches SessionReply::Answered { status, response } && status == STATUS_OK && response
            is Some,
{
}

/// A creation of a session ends with success only on answers from both
/// aggregators: a step that reports success took a `200 OK` answer holding a
/// response from the helper, which was asked after the leader, and reports the
/// leader's identifier. A request that got no answer ends the creation with
/// `Unreachable`, naming the aggregator that was asked, in either stage.
pub proof fn lemma_success_needs_both_answers(
    client: JanusTasksClient,
    before: CreateSessionFlow,
    reply: SessionReply,
    after: CreateSessionFlow,
    action: CreateSessionAction,
)
    requires
        before.spec_stage() !is Finished,
        create_session_step_outcome(client, before, reply, after, action),
    ensures
        (action is Done && action->Done_0 is Ok) ==> {
            &&& before.spec_stage() is AwaitingHelper
            &&& action->Done_0->Ok_0 == before.spec_stage()->leader_id
            &&& reply is Answered
            &&& reply->status == STATUS_OK
            &&& reply->response is Some
        },
        reply is Unreachable ==> after.spec_stage() is Finished && action == CreateSessionAction::Done(
            Err::<TrainingSessionId, ClientError>(
                ClientError::Unreachable(
                    if before.spec_stage() is AwaitingLeader {
                        Aggregator::Leader
                    } else {
                        Aggregator::Helper
                    },
                ),
            ),
        ),
{
}

/// The task of a round carries the session's noise parameter unchanged, with
/// its width, and sums vectors of the session's number of gradient entries.
pub proof fn lemma_task_vdaf_is_sessions(
    sessions: Map<u16, TrainingSession>,
    round: StartRoundRequest,
    now: u64,
    started: Result<TaskParameters, ProvisionError>,
)
    requires
        start_outcome(sessions, round, now, started),
        started is Ok,
    ensures
        sessions.contains_key(round.training_session_id.0),
        started->Ok_0.vdaf.noise() == sessions[round.training_session_id.0].noise_parameter,
        started->Ok_0.vdaf.length() == sessions[round.training_session_id.0].num_gradient_entries,
{
}

/// Whatever the session's role, the task of a round accepts from the leader
/// exactly the session's leader token; the collector's token is accepted by
/// the leader's task alone.
pub proof fn lemma_task_tokens_are_sessions(
    sessions: Map<u16, TrainingSession>,
    round: StartRoundRequest,
    now: u64,
    started: Result<TaskParameters, ProvisionError>,
)
    requires
        start_outcome(sessions, round, now, started),
        started is Ok,
    ensures
        sessions.contains_key(round.training_session_id.0),
        started->Ok_0.aggregator_auth_tokens@.len() == 1,
        started->Ok_0.aggregator_auth_tokens@[0]@ == sessions[round.training_session_id.0].leader_auth_token@,
        sessions[round.training_session_id.0].role == Role::Leader ==> started->Ok_0.collector_auth_tokens@.len() == 1
            && started->Ok_0.collector_auth_tokens@[0]@ == sessions[round.training_session_id.0].collector_auth_token@,
        sessions[round.training_session_id.0].role != Role::Leader ==> started->Ok_0.collector_auth_tokens@.len() == 0,
{
}

/// The collector authenticates with a token that the leader's task accepts:
/// where the leader created a session from the client's request and started
/// a round of it, the task's collector tokens are exactly the text that the
/// client presents when it collects.
pub proof fn lemma_collector_token_is_accepted(
    client: JanusTasksClient,
    flow: CreateSessionFlow,
    request: CreateTrainingSessionRequest,
    before: Map<u16, TrainingSession>,
    keys_before: Map<u8, HpkeKeypairView>,
    fresh_id: u16,
    key_id: u8,
    created: Result<TrainingSessionId, ProvisionError>,
    after: Map<u16, TrainingSession>,
    keys_after: Map<u8, HpkeKeypairView>,
    round: StartRoundRequest,
    now: u64,
    started: Result<TaskParameters, ProvisionError>,
)
    requires
        flow_of(client, flow),
        is_session_request(client, flow, Aggregator::Leader, None, request),
        create_outcome(before, keys_before, request, fresh_id, key_id, created, after, keys_after),
        created is Ok,
        round.training_session_id == created->Ok_0,
        start_outcome(after, round, now, started),
        started is Ok,
    ensures
        started->Ok_0.collector_auth_tokens@.len() == 1,
        started->Ok_0.collector_auth_tokens@[0]@ == base64url_encoded(client.spec_collector_auth_token()),
{
}

/// Converting a number into a session identifier and back gives the number.
pub proof fn lemma_session_id_u16_roundtrip(v: u16)
    ensures
        <u16 as vstd::std_specs::convert::FromSpec<TrainingSessionId>>::from_spec(
            <TrainingSessionId as vstd::std_specs::convert::FromSpec<u16>>::from_spec(v),
        ) == v,
{
}

/// Session identifiers are ordered as their numbers: one is below another,
/// or at most another, exactly when its number is.
pub proof fn lemma_session_id_order(a: TrainingSessionId, b: TrainingSessionId)
    ensures
        a.is_lt(&b) <==> a.0 < b.0,
        a.is_le(&b) <==> a.0 <= b.0,
        a.is_gt(&b) <==> a.0 > b.0,
        a.is_ge(&b) <==> a.0 >= b.0,
{
}

/// The interval that is collected at time `now` starts at a multiple of
/// [`TIME_PRECISION`], at least five periods before `now`, and contains `now`.
pub proof fn lemma_collection_interval_covers_now(now: u64)
    requires
        now >= 5 * TIME_PRECISION,
    ensures
        collection_start(now) % (TIME_PRECISION as int) == 0,
        collection_start(now) + 5 * TIME_PRECISION <= now,
        now < collection_start(now) + 15 * TIME_PRECISION,
{
    let p = TIME_PRECISION as int;
    let q = (now as int) / p;
    assert(q * p <= now < q * p + p) by (nonlinear_arith)
        requires
            p == 3600,
            q == (now as int) / p,
            now >= 0,
    ;
    assert((q * p - 5 * p) % p == 0) by (nonlinear_arith)
        requires
            p == 3600,
    ;
}

/// A request that a task server answered: the creation of a session from
/// `request`, or the end of the session `id`, with the answer it gave
/// (`result`, `outcome`).
pub enum SessionEvent {
    Create { request: CreateTrainingSessionRequest, result: Result<TrainingSessionId, ProvisionError> },
    End { id: TrainingSessionId, outcome: Result<(), ProvisionError> },
}

/// The task server went from the sessions `before` and the key pairs
/// `keys_before` to `after` and `keys_after` by answering `event` as
/// `TaskProvisioner::handle_create_session` and
/// `TaskProvisioner::handle_end_session` state.
pub open spec fn answered(
    before: Map<u16, TrainingSession>,
    keys_before: Map<u8, HpkeKeypairView>,
    event: SessionEvent,
    after: Map<u16, TrainingSession>,
    keys_after: Map<u8, HpkeKeypairView>,
) -> bool {
    match event {
        SessionEvent::Create { request, result } => exists|fresh_id: u16, key_id: u8|
            create_outcome(before, keys_before, request, fresh_id, key_id, result, after, keys_after),
        SessionEvent::End { id, outcome } => end_outcome(before, id, outcome, after) && keys_after == keys_before,
    }
}

/// `event` is a creation that was answered with the identifier `id`.
pub open spec fn created_as(event: SessionEvent, id: u16) -> bool {
    match event {
        SessionEvent::Create { result, .. } => result matches Ok(t) && t.0 == id,
        SessionEvent::End { .. } => false,
    }
}

/// `event` is an end of the session `id` that succeeded.
pub open spec fn ended(event: SessionEvent, id: u16) -> bool {
    match event {
        SessionEvent::Create { .. } => false,
        SessionEvent::End { id: t, outcome } => outcome is Ok && t.0 == id,
    }
}

/// Some creation among `events` was answered with `id`, and no end of the
/// session `id` succeeded after it.
pub open spec fn session_open(events: Seq<SessionEvent>, id: u16) -> bool {
    exists|i: int|
        0 <= i < events.len() && #[trigger] created_as(events[i], id) && forall|k: int|
            i < k < events.len() ==> !#[trigger] ended(events[k], id)
}

/// Each of `events` took the task server from one state to the next.
pub open spec fn answered_in_turn(
    events: Seq<SessionEvent>,
    sessions: Seq<Map<u16, TrainingSession>>,
    keys: Seq<Map<u8, HpkeKeypairView>>,
) -> bool {
    &&& sessions.len() == events.len() + 1
    &&& keys.len() == events.len() + 1
    &&& forall|i: int|
        0 <= i < events.len() ==> #[trigger] answered(sessions[i], keys[i], events[i], sessions[i + 1], keys[i + 1])
}

/// A task server that started without sessions, as `TaskProvisioner::new`
/// leaves it, and then answered `events` in turn, holds the session `id`
/// exactly when some creation was answered with `id` and no end of that
/// session succeeded since.
pub proof fn lemma_sessions_are_those_created(
    events: Seq<SessionEvent>,
    sessions: Seq<Map<u16, TrainingSession>>,
    keys: Seq<Map<u8, HpkeKeypairView>>,
    id: u16,
)
    requires
        answered_in_turn(events, sessions, keys),
        sessions[0] == Map::<u16, TrainingSession>::empty(),
    ensures
        sessions.last().contains_key(id) <==> session_open(events, id),
    decreases events.len(),
{
    let n = events.len();
    if n == 0 {
        assert(!sessions.last().contains_key(id));
    } else {
        let pre = events.drop_last();
        assert(answered_in_turn(pre, sessions.drop_last(), keys.drop_last())) by {
            assert forall|i: int| 0 <= i < pre.len() implies #[trigger] answered(
                sessions.drop_last()[i],
                keys.drop_last()[i],
                pre[i],
                sessions.drop_last()[i + 1],
                keys.drop_last()[i + 1],
            ) by {
                assert(answered(sessions[i], keys[i], events[i], sessions[i + 1], keys[i + 1]));
            }
        }
        lemma_sessions_are_those_created(pre, sessions.drop_last(), keys.drop_last(), id);
        let before = sessions[n - 1];
        let after = sessions[n as int];
        let last = events[n - 1];
        assert(answered(before, keys[n - 1], last, after, keys[n as int]));
        assert(sessions.drop_last().last() == before);
        // The last event changes nothing for `id` unless it created or ended it.
        if created_as(last, id) {
            assert(forall|k: int| n - 1 < k < n ==> !#[trigger] ended(events[k], id));
            assert(session_open(events, id));
            assert(after.contains_key(id));
        } else if ended(last, id) {
            assert(!after.contains_key(id));
            if session_open(events, id) {
                let i = choose|i: int|
                    0 <= i < events.len() && #[trigger] created_as(events[i], id) && forall|k: int|
                        i < k < events.len() ==> !#[trigger] ended(events[k], id);
                assert(i != n - 1);
                assert(!ended(events[n - 1], id));
            }
        } else {
            assert(after.contains_key(id) <==> before.contains_key(id));
            if session_open(events, id) {
                let i = choose|i: int|
                    0 <= i < events.len() && #[trigger] created_as(events[i], id) && forall|k: int|
                        i < k < events.len() ==> !#[trigger] ended(events[k], id);
                assert(i < n - 1);
                assert(pre[i] == events[i]);
                assert forall|k: int| i < k < pre.len() implies !#[trigger] ended(pre[k], id) by {
                    assert(pre[k] == events[k]);
                }
                assert(session_open(pre, id));
            }
            if session_open(pre, id) {
                let i = choose|i: int|
                    0 <= i < pre.len() && #[trigger] created_as(pre[i], id) && forall|k: int|
                        i < k < pre.len() ==> !#[trigger] ended(pre[k], id);
                assert(created_as(events[i], id));
                assert forall|k: int| i < k < events.len() implies !#[trigger] ended(events[k], id) by {
                    if k < n - 1 {
                        assert(pre[k] == events[k]);
                    }
                }
                assert(session_open(events, id));
            }
        }
    }
}

/// On a task server that started without sessions and then answered
/// `events` in turn, a request to start a round of a session is refused as
/// naming no session exactly when no creation was answered with its
/// identifier, or the session was ended since.
pub proof fn lemma_round_refused_iff_no_session(
    events: Seq<SessionEvent>,
    sessions: Seq<Map<u16, TrainingSession>>,
    keys: Seq<Map<u8, HpkeKeypairView>>,
    round: StartRoundRequest,
    now: u64,
    started: Result<TaskParameters, ProvisionError>,
)
    requires
        answered_in_turn(events, sessions, keys),
        sessions[0] == Map::<u16, TrainingSession>::empty(),
        start_outcome(sessions.last(), round, now, started),
    ensures
        started == Err::<TaskParameters, ProvisionError>(ProvisionError::NoSuchSession(round.training_session_id))
            <==> !session_open(events, round.training_session_id.0),
{
    lemma_sessions_are_those_created(events, sessions, keys, round.training_session_id.0);
}

} // verus!
