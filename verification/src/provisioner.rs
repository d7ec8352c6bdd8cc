//! The task server's bookkeeping of training sessions: creating a session on
//! request, and turning a request to start a round into the parameters of the
//! DAP task that the aggregator provisions.
use vstd::prelude::*;
use crate::fixed::{Fixed16, Fixed32, Fixed64, FixedAny};
use crate::hpke::{fetched, is_registry_keypair, HpkeConfig, HpkeConfigRegistry, HpkeKeypair, HpkeKeypairView};
use crate::messages::{decimal, CreateTrainingSessionRequest, Role, StartRoundRequest, TaskId, TrainingSessionId};
use crate::outside::{
    base64url_decode, base64url_decoded, janus_decode_task_id, random_u16, random_u8, task_id_decode_error,
};

verus! {

broadcast use vstd::std_specs::hash::group_hash_axioms;

/// The granularity of report timestamps, in seconds.
pub const TIME_PRECISION: u64 = 3600;
/// How long a provisioned task stays valid, in seconds.
pub const TASK_LIFETIME: u64 = 600;
/// How often a batch of a provisioned task may be queried.
pub const MAX_BATCH_QUERY_COUNT: u64 = 10;
/// The smallest number of reports in a batch of a provisioned task.
pub const MIN_BATCH_SIZE: u64 = 2;
/// The clock skew that a provisioned task tolerates, in seconds.
pub const TOLERABLE_CLOCK_SKEW: u64 = 1000;

/// A training session that this aggregator takes part in.
#[derive(Debug)]
pub struct TrainingSession {
    // endpoints
    pub leader_endpoint: String,
    pub helper_endpoint: String,
    //
    pub role: Role,
    pub num_gradient_entries: usize,
    // needs to be the same for both aggregators (section 4.2 of ppm-draft)
    pub verify_key: Vec<u8>,
    pub collector_hpke_config: HpkeConfig,
    // auth tokens: the bytes of these texts
    pub collector_auth_token: String,
    pub leader_auth_token: String,
    // my hpke config & key
    pub hpke_config_and_key: HpkeKeypair,
    // noise param
    pub noise_parameter: FixedAny,
}

/// The session that a [`CreateTrainingSessionRequest`] describes, with the
/// decoded verify key and this aggregator's key pair.
pub open spec fn session_from_request(
    s: TrainingSession,
    request: CreateTrainingSessionRequest,
    verify_key: Seq<u8>,
    keypair: HpkeKeypairView,
) -> bool {
    &&& s.leader_endpoint@ == request.leader_endpoint@
    &&& s.helper_endpoint@ == request.helper_endpoint@
    &&& s.role == request.role
    &&& s.num_gradient_entries == request.num_gradient_entries
    &&& s.verify_key@ == verify_key
    &&& s.collector_hpke_config@ == request.collector_hpke_config@
    &&& s.collector_auth_token@ == request.collector_auth_token_encoded@
    &&& s.leader_auth_token@ == request.leader_auth_token_encoded@
    &&& s.hpke_config_and_key@ == keypair
    &&& s.noise_parameter == request.noise_parameter
}

/// The ways in which the task server refuses a request.
#[derive(Clone, Debug, PartialEq, Eq)]
pub enum ProvisionError {
    /// A session with the requested identifier exists already.
    SessionExists(TrainingSessionId),
    /// The verify key is not valid unpadded base64url.
    InvalidVerifyKey,
    /// There is no session with the given identifier.
    NoSuchSession(TrainingSessionId),
    /// The task identifier is not valid unpadded base64url; the text of the
    /// decoder's error.
    InvalidTaskIdEncoding(String),
    /// The task identifier does not have 32 bytes; the text of the codec's
    /// error.
    InvalidTaskId(String),
}

/// The text with which the task server answers a refused request.
pub open spec fn error_message(e: ProvisionError) -> Seq<char> {
    match e {
        ProvisionError::SessionExists(id) => "There already exists a training session with id "@ + decimal(
            id.0 as nat,
        ) + "."@,
        ProvisionError::InvalidVerifyKey => "invalid base64url content in \"verifyKey\""@,
        ProvisionError::NoSuchSession(id) => "There is no training session with id "@ + decimal(id.0 as nat),
        ProvisionError::InvalidTaskIdEncoding(m) => m@,
        ProvisionError::InvalidTaskId(m) => m@,
    }
}

impl ProvisionError {
    /// The text with which the task server answers the refused request.
    pub fn message(&self) -> (r: String)
        ensures
            r@ == error_message(*self),
    {
        match self {
            ProvisionError::SessionExists(id) => {
                let mut m = String::from_str("There already exists a training session with id ");
                let n = id.to_string();
                m.append(n.as_str());
                m.append(".");
                m
            },
            ProvisionError::InvalidVerifyKey => String::from_str("invalid base64url content in \"verifyKey\""),
            ProvisionError::NoSuchSession(id) => {
                let mut m = String::from_str("There is no training session with id ");
                let n = id.to_string();
                m.append(n.as_str());
                m
            },
            ProvisionError::InvalidTaskIdEncoding(m) => m.clone(),
            ProvisionError::InvalidTaskId(m) => m.clone(),
        }
    }
}

/// The HTTP status `400 Bad Request`, with which the task server answers a
/// refused request.
pub const STATUS_BAD_REQUEST: u16 = 400;

/// The HTTP status and the text with which the task server answers a refused
/// request.
pub fn refusal_answer(e: &ProvisionError) -> (r: (u16, String))
    ensures
        r.0 == STATUS_BAD_REQUEST,
        r.1@ == error_message(*e),
{
    (STATUS_BAD_REQUEST, e.message())
}

/// The kind of queries that a provisioned task answers.
#[derive(Clone, Copy, Debug, PartialEq, Eq, Structural)]
pub enum QueryType {
    TimeInterval,
}

/// The VDAF of a provisioned task: a bounded-L2 sum of fixed-point vectors of
/// the given length and width, with the given noise parameter.
#[derive(Clone, Copy, Debug, PartialEq, Eq, Structural)]
#[allow(inconsistent_fields)]
pub enum VdafInstance {
    Prio3Aes128FixedPoint16BitBoundedL2VecSum { length: usize, noise_param: Fixed16 },
    Prio3Aes128FixedPoint32BitBoundedL2VecSum { length: usize, noise_param: Fixed32 },
    Prio3Aes128FixedPoint64BitBoundedL2VecSum { length: usize, noise_param: Fixed64 },
}

impl VdafInstance {
    /// The noise parameter that the VDAF carries, with its width.
    pub open spec fn noise(&self) -> FixedAny {
        match *self {
            VdafInstance::Prio3Aes128FixedPoint16BitBoundedL2VecSum { noise_param, .. } => FixedAny::Fixed16(noise_param),
            VdafInstance::Prio3Aes128FixedPoint32BitBoundedL2VecSum { noise_param, .. } => FixedAny::Fixed32(noise_param),
            VdafInstance::Prio3Aes128FixedPoint64BitBoundedL2VecSum { noise_param, .. } => FixedAny::Fixed64(noise_param),
        }
    }

    /// The number of gradient entries that the VDAF sums.
    pub open spec fn length(&self) -> usize {
        match *self {
            VdafInstance::Prio3Aes128FixedPoint16BitBoundedL2VecSum { length, .. } => length,
            VdafInstance::Prio3Aes128FixedPoint32BitBoundedL2VecSum { length, .. } => length,
            VdafInstance::Prio3Aes128FixedPoint64BitBoundedL2VecSum { length, .. } => length,
        }
    }
}

/// The VDAF for gradients of `length` entries, of the width of `noise`.
pub open spec fn vdaf_for(noise: FixedAny, length: usize) -> VdafInstance {
    match noise {
        FixedAny::Fixed16(n) => VdafInstance::Prio3Aes128FixedPoint16BitBoundedL2VecSum { length, noise_param: n },
        FixedAny::Fixed32(n) => VdafInstance::Prio3Aes128FixedPoint32BitBoundedL2VecSum { length, noise_param: n },
        FixedAny::Fixed64(n) => VdafInstance::Prio3Aes128FixedPoint64BitBoundedL2VecSum { length, noise_param: n },
    }
}

/// The parameters of a DAP task to provision.
#[derive(Debug)]
pub struct TaskParameters {
    pub task_id: TaskId,
    pub aggregator_endpoints: Vec<String>,
    pub query_type: QueryType,
    pub vdaf: VdafInstance,
    pub role: Role,
    pub vdaf_verify_keys: Vec<Vec<u8>>,
    pub max_batch_query_count: u64,
    /// seconds since the epoch
    pub task_expiration: u64,
    pub report_expiry_age: Option<u64>,
    pub min_batch_size: u64,
    pub time_precision: u64,
    pub tolerable_clock_skew: u64,
    pub collector_hpke_config: HpkeConfig,
    pub aggregator_auth_tokens: Vec<String>,
    pub collector_auth_tokens: Vec<String>,
    pub hpke_keys: Vec<HpkeKeypair>,
}

/// The task of a round of `session` with the identifier `task_id`, started at
/// `now` (seconds since the epoch).
pub open spec fn task_for_session(t: TaskParameters, session: TrainingSession, task_id: Seq<u8>, now: u64) -> bool {
    &&& t.task_id.0@ == task_id
    &&& t.aggregator_endpoints@.len() == 2
    &&& t.aggregator_endpoints@[0]@ == session.leader_endpoint@
    &&& t.aggregator_endpoints@[1]@ == session.helper_endpoint@
    &&& t.query_type == QueryType::TimeInterval
    &&& t.vdaf == vdaf_for(session.noise_parameter, session.num_gradient_entries)
    &&& t.role == session.role
    &&& t.vdaf_verify_keys@.len() == 1
    &&& t.vdaf_verify_keys@[0]@ == session.verify_key@
    &&& t.max_batch_query_count == MAX_BATCH_QUERY_COUNT
    &&& t.task_expiration == now + TASK_LIFETIME
    &&& t.report_expiry_age is None
    &&& t.min_batch_size == MIN_BATCH_SIZE
    &&& t.time_precision == TIME_PRECISION
    &&& t.tolerable_clock_skew == TOLERABLE_CLOCK_SKEW
    &&& t.collector_hpke_config@ == session.collector_hpke_config@
    &&& t.aggregator_auth_tokens@.len() == 1
    &&& t.aggregator_auth_tokens@[0]@ == session.leader_auth_token@
    &&& (if session.role == Role::Leader {
        t.collector_auth_tokens@.len() == 1 && t.collector_auth_tokens@[0]@ == session.collector_auth_token@
    } else {
        t.collector_auth_tokens@.len() == 0
    })
    &&& t.hpke_keys@.len() == 1
    &&& t.hpke_keys@[0]@ == session.hpke_config_and_key@
}

/// The identifier of the session that `request` creates, where `fresh_id` is
/// the number drawn for a request that names none.
pub open spec fn chosen_id(request: CreateTrainingSessionRequest, fresh_id: u16) -> u16 {
    match request.training_session_id {
        Some(id) => id.0,
        None => fresh_id,
    }
}

/// What creating a session from `request` does: `before` and `after` are the
/// sessions, `keys_before` and `keys_after` the key registry, `fresh_id` the
/// number drawn for a request without identifier, `key_id` the configuration
/// identifier drawn for the session's key pair.
pub open spec fn create_outcome(
    before: Map<u16, TrainingSession>,
    keys_before: Map<u8, HpkeKeypairView>,
    request: CreateTrainingSessionRequest,
    fresh_id: u16,
    key_id: u8,
    result: Result<TrainingSessionId, ProvisionError>,
    after: Map<u16, TrainingSession>,
    keys_after: Map<u8, HpkeKeypairView>,
) -> bool {
    if request.training_session_id is Some && before.contains_key((request.training_session_id->0).0) {
        &&& result == Err::<TrainingSessionId, ProvisionError>(
            ProvisionError::SessionExists(request.training_session_id->0),
        )
        &&& after == before
        &&& keys_after == keys_before
    } else if base64url_decoded(request.verify_key_encoded@) is Err {
        &&& result == Err::<TrainingSessionId, ProvisionError>(ProvisionError::InvalidVerifyKey)
        &&& after == before
        &&& keys_after == keys_before
    } else {
        let id = chosen_id(request, fresh_id);
        &&& result == Ok::<TrainingSessionId, ProvisionError>(TrainingSessionId(id))
        &&& fetched(keys_before, key_id, keys_after[key_id], keys_after)
        &&& after.dom() == before.dom().insert(id)
        &&& forall|k: u16| k != id && #[trigger] before.contains_key(k) ==> after[k] == before[k]
        &&& session_from_request(
            after[id],
            request,
            base64url_decoded(request.verify_key_encoded@)->Ok_0,
            keys_after[key_id],
        )
    }
}

/// What starting a round does with `request` at time `now`, given the
/// sessions: it refuses an unknown session and a malformed task identifier,
/// and otherwise describes the task to provision.
pub open spec fn start_outcome(
    sessions: Map<u16, TrainingSession>,
    request: StartRoundRequest,
    now: u64,
    result: Result<TaskParameters, ProvisionError>,
) -> bool {
    let id = request.training_session_id;
    let decoded = base64url_decoded(request.task_id_encoded@);
    if !sessions.contains_key(id.0) {
        result == Err::<TaskParameters, ProvisionError>(ProvisionError::NoSuchSession(id))
    } else if decoded is Err {
        result matches Err(ProvisionError::InvalidTaskIdEncoding(m)) && decoded == Err::<Seq<u8>, Seq<char>>(m@)
    } else if decoded->Ok_0.len() != 32 {
        result matches Err(ProvisionError::InvalidTaskId(m)) && m@ == task_id_decode_error(decoded->Ok_0.len())
    } else {
        result matches Ok(t) && task_for_session(t, sessions[id.0], decoded->Ok_0, now)
    }
}

/// What ending the session `id` does: a session that exists is removed with
/// all that it holds; an identifier that names no session is refused.
pub open spec fn end_outcome(
    before: Map<u16, TrainingSession>,
    id: TrainingSessionId,
    result: Result<(), ProvisionError>,
    after: Map<u16, TrainingSession>,
) -> bool {
    if before.contains_key(id.0) {
        &&& result == Ok::<(), ProvisionError>(())
        &&& after == before.remove(id.0)
    } else {
        &&& result == Err::<(), ProvisionError>(ProvisionError::NoSuchSession(id))
        &&& after == before
    }
}

/// The training sessions of a task server and the key registry that it
/// draws its HPKE key pairs from.
pub struct TaskProvisioner {
    training_sessions: std::collections::HashMap<u16, TrainingSession>,
    keyring: HpkeConfigRegistry,
}

impl TaskProvisioner {
    /// The sessions, by identifier.
    pub closed spec fn sessions(&self) -> Map<u16, TrainingSession> {
        self.training_sessions@
    }

    /// The key registry's key pairs, by configuration identifier.
    pub closed spec fn keyring(&self) -> Map<u8, HpkeKeypairView> {
        self.keyring@
    }

    /// The key registry holds each key pair under its own identifier.
    pub open spec fn wf(&self) -> bool {
        forall|id: u8| #[trigger] self.keyring().contains_key(id) ==> is_registry_keypair(id, self.keyring()[id])
    }

    proof fn lemma_wf(&self)
        ensures
            self.wf() <==> self.keyring.wf(),
    {
        if self.wf() {
            assert forall|id: u8| #[trigger] self.keyring@.contains_key(id) implies is_registry_keypair(
                id,
                self.keyring@[id],
            ) by {
                assert(self.keyring().contains_key(id));
            }
        }
        if self.keyring.wf() {
            assert forall|id: u8| #[trigger] self.keyring().contains_key(id) implies is_registry_keypair(
                id,
                self.keyring()[id],
            ) by {
                assert(self.keyring@.contains_key(id));
            }
        }
    }

    /// A task server without sessions and without keys.
    pub fn new() -> (r: TaskProvisioner)
        ensures
            r.wf(),
            r.sessions() == Map::<u16, TrainingSession>::empty(),
            r.keyring() == Map::<u8, HpkeKeypairView>::empty(),
    {
        let r = TaskProvisioner {
            training_sessions: std::collections::HashMap::new(),
            keyring: HpkeConfigRegistry::new(),
        };
        proof {
            r.lemma_wf();
        }
        r
    }

    /// Creates a training session as `request` describes: under the requested
    /// identifier, which must not be in use, or else under a random one; with
    /// the decoded verify key and a key pair of the registry.
    pub fn handle_create_session(&mut self, request: CreateTrainingSessionRequest) -> (r: Result<
        TrainingSessionId,
        ProvisionError,
    >)
        requires
            old(self).wf(),
        ensures
            final(self).wf(),
            exists|fresh_id: u16, key_id: u8|
                create_outcome(
                    old(self).sessions(),
                    old(self).keyring(),
                    request,
                    fresh_id,
                    key_id,
                    r,
                    final(self).sessions(),
                    final(self).keyring(),
                ),
    {
        let fresh_id = random_u16();
        let key_id = random_u8();
        self.create_session_with(request, fresh_id, key_id)
    }

    /// Creates a training session as `request` describes, taking `fresh_id` as
    /// the identifier where the request names none, and the registry's key
    /// pair with the identifier `key_id`.
    pub fn create_session_with(&mut self, request: CreateTrainingSessionRequest, fresh_id: u16, key_id: u8) -> (r:
        Result<TrainingSessionId, ProvisionError>)
        requires
            old(self).wf(),
        ensures
            final(self).wf(),
            create_outcome(
                old(self).sessions(),
                old(self).keyring(),
                request,
                fresh_id,
                key_id,
                r,
                final(self).sessions(),
                final(self).keyring(),
            ),
    {
        proof {
            self.lemma_wf();
        }
        let id: u16 = match request.training_session_id {
            Some(id) => {
                if self.training_sessions.contains_key(&id.0) {
                    return Err(ProvisionError::SessionExists(id));
                }
                id.0
            },
            None => fresh_id,
        };
        let verify_key = match base64url_decode(request.verify_key_encoded.as_str()) {
            Ok(v) => v,
            Err(_) => {
                return Err(ProvisionError::InvalidVerifyKey);
            },
        };
        let hpke_config_and_key = self.keyring.fetch_keypair(key_id);
        let session = TrainingSession {
            leader_endpoint: request.leader_endpoint,
            helper_endpoint: request.helper_endpoint,
            role: request.role,
            num_gradient_entries: request.num_gradient_entries,
            verify_key,
            collector_hpke_config: request.collector_hpke_config,
            collector_auth_token: request.collector_auth_token_encoded,
            leader_auth_token: request.leader_auth_token_encoded,
            hpke_config_and_key,
            noise_parameter: request.noise_parameter,
        };
        self.training_sessions.insert(id, session);
        proof {
            self.lemma_wf();
        }
        Ok(TrainingSessionId(id))
    }
}

impl TaskProvisioner {
    /// Ends the training session `id`: the session and the data that it holds
    /// (its verify key, tokens and configurations) are deleted. The key
    /// registry is left as it is.
    pub fn handle_end_session(&mut self, id: TrainingSessionId) -> (r: Result<(), ProvisionError>)
        requires
            old(self).wf(),
        ensures
            final(self).wf(),
            final(self).keyring() == old(self).keyring(),
            end_outcome(old(self).sessions(), id, r, final(self).sessions()),
    {
        proof {
            self.lemma_wf();
        }
        let ghost before = self.training_sessions@;
        let removed = self.training_sessions.remove(&id.0);
        proof {
            self.lemma_wf();
        }
        let r: Result<(), ProvisionError> = match removed {
            Some(_) => Ok(()),
            None => Err(ProvisionError::NoSuchSession(id)),
        };
        proof {
            if removed is None {
                assert(before.remove(id.0) =~= before);
            }
        }
        r
    }

    /// Describes the DAP task that starts a round of the session that
    /// `request` names, at time `now` (seconds since the epoch): the task has
    /// the request's identifier, the session's aggregators, VDAF, role, keys and
    /// tokens, and expires ten minutes after `now`. The collector's token is
    /// handed to the leader only.
    pub fn handle_start_round(&self, request: StartRoundRequest, now: u64) -> (r: Result<
        TaskParameters,
        ProvisionError,
    >)
        requires
            now + TASK_LIFETIME <= u64::MAX,
        ensures
            start_outcome(self.sessions(), request, now, r),
    {
        let id = request.training_session_id;
        let session = match self.training_sessions.get(&id.0) {
            Some(s) => s,
            None => {
                return Err(ProvisionError::NoSuchSession(id));
            },
        };
        let task_id_bytes = match base64url_decode(request.task_id_encoded.as_str()) {
            Ok(b) => b,
            Err(m) => {
                return Err(ProvisionError::InvalidTaskIdEncoding(m));
            },
        };
        let task_id = match janus_decode_task_id(task_id_bytes.as_slice()) {
            Ok(t) => t,
            Err(m) => {
                return Err(ProvisionError::InvalidTaskId(m));
            },
        };
        let deadline = now + TASK_LIFETIME;
        let mut collector_auth_tokens: Vec<String> = Vec::new();
        if session.role == Role::Leader {
            collector_auth_tokens.push(session.collector_auth_token.clone());
        }
        let vdaf = match session.noise_parameter {
            FixedAny::Fixed16(noise) => VdafInstance::Prio3Aes128FixedPoint16BitBoundedL2VecSum {
                length: session.num_gradient_entries,
                noise_param: noise,
            },
            FixedAny::Fixed32(noise) => VdafInstance::Prio3Aes128FixedPoint32BitBoundedL2VecSum {
                length: session.num_gradient_entries,
                noise_param: noise,
            },
            FixedAny::Fixed64(noise) => VdafInstance::Prio3Aes128FixedPoint64BitBoundedL2VecSum {
                length: session.num_gradient_entries,
                noise_param: noise,
            },
        };
        let mut aggregator_endpoints: Vec<String> = Vec::new();
        aggregator_endpoints.push(session.leader_endpoint.clone());
        aggregator_endpoints.push(session.helper_endpoint.clone());
        let mut vdaf_verify_keys: Vec<Vec<u8>> = Vec::new();
        let verify_key = session.verify_key.clone();
        assert(verify_key@ =~= session.verify_key@);
        vdaf_verify_keys.push(verify_key);
        let mut aggregator_auth_tokens: Vec<String> = Vec::new();
        aggregator_auth_tokens.push(session.leader_auth_token.clone());
        let mut hpke_keys: Vec<HpkeKeypair> = Vec::new();
        hpke_keys.push(session.hpke_config_and_key.clone());
        Ok(TaskParameters {
            task_id,
            aggregator_endpoints,
            query_type: QueryType::TimeInterval,
            vdaf,
            role: session.role,
            vdaf_verify_keys,
            max_batch_query_count: MAX_BATCH_QUERY_COUNT,
            task_expiration: deadline,
            report_expiry_age: None,
            min_batch_size: MIN_BATCH_SIZE,
            time_precision: TIME_PRECISION,
            tolerable_clock_skew: TOLERABLE_CLOCK_SKEW,
            collector_hpke_config: session.collector_hpke_config.clone(),
            aggregator_auth_tokens,
            collector_auth_tokens,
            hpke_keys,
        })
    }
}

} // verus!
