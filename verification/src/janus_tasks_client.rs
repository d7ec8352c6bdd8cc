//! The decisions of the client that sets up training sessions and rounds on
//! both aggregators: which requests to send to which aggregator, and what the
//! answers mean. Sending the requests and reading the answers is left to the
//! caller, which feeds each answer back.
use vstd::prelude::*;
use crate::hpke::{generate_keypair, is_standard_suite, HpkeKeypair, HpkeKeypairView};
use crate::messages::{
    CreateTrainingSessionRequest, CreateTrainingSessionResponse, GetVdafParameterRequest, Locations,
    MainLocations, Role, StartRoundRequest, TaskId, TrainingSessionId, VdafParameter,
};
use crate::outside::{
    base64url_decoded, base64url_encode, base64url_encoded, new_http_client, random_bytes_16, random_task_id,
    random_u8,
};
pub use crate::provisioner::TIME_PRECISION;

verus! {

/// The length in bytes of the VDAF verify key of a training session.
pub const VERIFY_KEY_LENGTH: usize = 16;

/// The HTTP status `200 OK`.
pub const STATUS_OK: u16 = 200;

/// One of the two aggregators.
#[derive(Clone, Copy, Debug, PartialEq, Eq, Structural)]
pub enum Aggregator {
    Leader,
    Helper,
}

/// The ways in which a request of the client fails.
#[derive(Clone, Copy, Debug, PartialEq, Eq, Structural)]
pub enum ClientError {
    /// The request could not be sent to the aggregator, or no answer came back.
    Unreachable(Aggregator),
    /// The aggregator answered with a status other than `200 OK`.
    Rejected { by: Aggregator, status: u16 },
    /// The aggregator's answer did not hold the expected response.
    MalformedResponse(Aggregator),
    /// Not both aggregators ended the session; their statuses.
    SessionNotEnded { leader_status: u16, helper_status: u16 },
    /// Not both aggregators started the round; their statuses.
    RoundNotStarted { leader_status: u16, helper_status: u16 },
    /// The aggregators named different main locations.
    DifferentMainLocations,
    /// Not both aggregators named their main locations.
    MainLocationsUnavailable,
}

/// A client of the task servers of both aggregators, with the credentials and
/// parameters that it hands to them.
pub struct JanusTasksClient {
    http_client: reqwest::Client,
    location: Locations,
    hpke_keypair: HpkeKeypair,
    leader_auth_token: Vec<u8>,
    collector_auth_token: Vec<u8>,
    vdaf_parameter: VdafParameter,
}

impl JanusTasksClient {
    /// The addresses of the aggregators.
    pub closed spec fn spec_location(&self) -> Locations {
        self.location
    }

    /// The collector's key pair.
    pub closed spec fn spec_hpke_keypair(&self) -> HpkeKeypairView {
        self.hpke_keypair@
    }

    /// The token that authenticates the leader to the helper.
    pub closed spec fn spec_leader_auth_token(&self) -> Seq<u8> {
        self.leader_auth_token@
    }

    /// The token that authenticates the collector to the leader.
    pub closed spec fn spec_collector_auth_token(&self) -> Seq<u8> {
        self.collector_auth_token@
    }

    /// The HTTP client that the client sends its requests with.
    pub closed spec fn spec_http_client(&self) -> reqwest::Client {
        self.http_client
    }

    /// The aggregation parameters.
    pub closed spec fn spec_vdaf_parameter(&self) -> VdafParameter {
        self.vdaf_parameter
    }

    /// A client of the aggregators at `location` with the given aggregation
    /// parameters, the token that authenticates the leader to the helper, the
    /// token that authenticates the collector to the leader, and the
    /// collector's key pair.
    pub fn from_parts(
        location: Locations,
        vdaf_parameter: VdafParameter,
        leader_auth_token: Vec<u8>,
        collector_auth_token: Vec<u8>,
        hpke_keypair: HpkeKeypair,
    ) -> (r: JanusTasksClient)
        ensures
            r.spec_location() == location,
            r.spec_vdaf_parameter() == vdaf_parameter,
            r.spec_leader_auth_token() == leader_auth_token@,
            r.spec_collector_auth_token() == collector_auth_token@,
            r.spec_hpke_keypair() == hpke_keypair@,
    {
        JanusTasksClient {
            http_client: new_http_client(),
            location,
            hpke_keypair,
            leader_auth_token,
            collector_auth_token,
            vdaf_parameter,
        }
    }

    /// A client with random authentication tokens of 16 bytes and a fresh
    /// collector key pair with a random configuration identifier.
    pub fn new(location: Locations, vdaf_parameter: VdafParameter) -> (r: JanusTasksClient)
        ensures
            r.spec_location() == location,
            r.spec_vdaf_parameter() == vdaf_parameter,
            r.spec_leader_auth_token().len() == 16,
            r.spec_collector_auth_token().len() == 16,
            is_standard_suite(r.spec_hpke_keypair().config),
    {
        let leader_auth_token = random_bytes_16();
        let collector_auth_token = random_bytes_16();
        let hpke_id = random_u8();
        let hpke_keypair = generate_keypair(hpke_id);
        JanusTasksClient::from_parts(location, vdaf_parameter, leader_auth_token, collector_auth_token, hpke_keypair)
    }

    /// The HTTP client to send the requests with: the client's own, the one it
    /// was made with.
    pub fn http_client(&self) -> (r: &reqwest::Client)
        ensures
            *r == self.spec_http_client(),
    {
        &self.http_client
    }

    /// The addresses of the aggregators.
    pub fn location(&self) -> (r: &Locations)
        ensures
            *r == self.spec_location(),
    {
        &self.location
    }

    /// The collector's key pair.
    pub fn hpke_keypair(&self) -> (r: &HpkeKeypair)
        ensures
            r@ == self.spec_hpke_keypair(),
    {
        &self.hpke_keypair
    }

    /// The token that authenticates the collector to the leader.
    pub fn collector_auth_token(&self) -> (r: &Vec<u8>)
        ensures
            r@ == self.spec_collector_auth_token(),
    {
        &self.collector_auth_token
    }

    /// The token with which the collector authenticates to the leader when it
    /// collects: the text that the aggregators are given as the collector's
    /// token, the unpadded base64url encoding of the token's bytes.
    pub fn collector_auth_token_encoded(&self) -> (r: String)
        ensures
            r@ == base64url_encoded(self.spec_collector_auth_token()),
    {
        base64url_encode(self.collector_auth_token.as_slice())
    }

    /// The aggregation parameters.
    pub fn vdaf_parameter(&self) -> (r: VdafParameter)
        ensures
            r == self.spec_vdaf_parameter(),
    {
        self.vdaf_parameter
    }
}

/// Where the creation of a training session stands.
#[derive(Clone, Copy, Debug, PartialEq, Eq, Structural)]
pub enum CreateSessionStage {
    /// The leader has been asked to create the session.
    AwaitingLeader,
    /// The leader created the session `leader_id`; the helper has been asked
    /// to create the session under the same identifier.
    AwaitingHelper { leader_id: TrainingSessionId },
    /// The outcome is known.
    Finished,
}

/// What came back for a request to create a session.
#[derive(Debug)]
pub enum SessionReply {
    /// The request could not be sent, or no answer came back.
    Unreachable,
    /// The answer's HTTP status and, where its body holds one, the response.
    Answered { status: u16, response: Option<CreateTrainingSessionResponse> },
}

/// What to do next while creating a session.
#[derive(Debug)]
pub enum CreateSessionAction {
    /// Send `request` to the task server of the aggregator `to`.
    Send { to: Aggregator, request: CreateTrainingSessionRequest },
    /// The creation is over, with this outcome.
    Done(Result<TrainingSessionId, ClientError>),
}

/// The creation of a training session on both aggregators: the leader is
/// asked first and picks the identifier; the helper is then asked to create
/// the session under that identifier. Both get the same verify key.
pub struct CreateSessionFlow {
    verify_key_encoded: String,
    collector_auth_token_encoded: String,
    leader_auth_token_encoded: String,
    stage: CreateSessionStage,
}

impl CreateSessionFlow {
    /// The verify key of the session, in unpadded base64url.
    pub closed spec fn spec_verify_key_encoded(&self) -> Seq<char> {
        self.verify_key_encoded@
    }

    /// The collector's token, in unpadded base64url.
    pub closed spec fn spec_collector_auth_token_encoded(&self) -> Seq<char> {
        self.collector_auth_token_encoded@
    }

    /// The leader's token, in unpadded base64url.
    pub closed spec fn spec_leader_auth_token_encoded(&self) -> Seq<char> {
        self.leader_auth_token_encoded@
    }

    /// Where the creation stands.
    pub closed spec fn spec_stage(&self) -> CreateSessionStage {
        self.stage
    }

    /// Where the creation stands.
    pub fn stage(&self) -> (r: CreateSessionStage)
        ensures
            r == self.spec_stage(),
    {
        self.stage
    }
}

/// The role that the aggregator `to` takes.
pub open spec fn role_of(to: Aggregator) -> Role {
    match to {
        Aggregator::Leader => Role::Leader,
        Aggregator::Helper => Role::Helper,
    }
}

/// `flow` belongs to `client`: it carries the encodings of the client's tokens.
pub open spec fn flow_of(client: JanusTasksClient, flow: CreateSessionFlow) -> bool {
    &&& flow.spec_collector_auth_token_encoded() == base64url_encoded(client.spec_collector_auth_token())
    &&& flow.spec_leader_auth_token_encoded() == base64url_encoded(client.spec_leader_auth_token())
}

/// `r` is the request of `flow` that asks the aggregator `to` to create the
/// session, under the identifier `id` if there is one.
pub open spec fn is_session_request(
    client: JanusTasksClient,
    flow: CreateSessionFlow,
    to: Aggregator,
    id: Option<TrainingSessionId>,
    r: CreateTrainingSessionRequest,
) -> bool {
    &&& r.training_session_id == id
    &&& r.leader_endpoint@ == client.spec_location().external_leader_main@
    &&& r.helper_endpoint@ == client.spec_location().external_helper_main@
    &&& r.role == role_of(to)
    &&& r.num_gradient_entries == client.spec_vdaf_parameter().gradient_len
    &&& r.verify_key_encoded@ == flow.spec_verify_key_encoded()
    &&& r.collector_hpke_config@ == client.spec_hpke_keypair().config
    &&& r.collector_auth_token_encoded@ == flow.spec_collector_auth_token_encoded()
    &&& r.leader_auth_token_encoded@ == flow.spec_leader_auth_token_encoded()
    &&& r.noise_parameter == client.spec_vdaf_parameter().noise_parameter
}

/// The next stage and action after `reply` came back from the aggregator that
/// was asked last.
pub open spec fn create_session_step_outcome(
    client: JanusTasksClient,
    before: CreateSessionFlow,
    reply: SessionReply,
    after: CreateSessionFlow,
    action: CreateSessionAction,
) -> bool {
    let asked = if before.spec_stage() is AwaitingLeader { Aggregator::Leader } else { Aggregator::Helper };
    &&& after.spec_verify_key_encoded() == before.spec_verify_key_encoded()
    &&& after.spec_collector_auth_token_encoded() == before.spec_collector_auth_token_encoded()
    &&& after.spec_leader_auth_token_encoded() == before.spec_leader_auth_token_encoded()
    &&& match reply {
        SessionReply::Unreachable => {
            &&& after.spec_stage() == CreateSessionStage::Finished
            &&& action matches CreateSessionAction::Done(r) && r == Err::<TrainingSessionId, ClientError>(
                ClientError::Unreachable(asked),
            )
        },
        SessionReply::Answered { status, response } => if status != STATUS_OK {
            &&& after.spec_stage() == CreateSessionStage::Finished
            &&& action matches CreateSessionAction::Done(r) && r == Err::<TrainingSessionId, ClientError>(
                ClientError::Rejected { by: asked, status },
            )
        } else if response is None {
            &&& after.spec_stage() == CreateSessionStage::Finished
            &&& action matches CreateSessionAction::Done(r) && r == Err::<TrainingSessionId, ClientError>(
                ClientError::MalformedResponse(asked),
            )
        } else if before.spec_stage() is AwaitingLeader {
            let id = response->0.training_session_id;
            &&& after.spec_stage() == CreateSessionStage::AwaitingHelper { leader_id: id }
            &&& action matches CreateSessionAction::Send { to, request } && to == Aggregator::Helper
                && is_session_request(client, after, Aggregator::Helper, Some(id), request)
        } else {
            &&& after.spec_stage() == CreateSessionStage::Finished
            &&& action matches CreateSessionAction::Done(r) && r == Ok::<TrainingSessionId, ClientError>(
                before.spec_stage()->leader_id,
            )
        },
    }
}

/// `reply`, from the helper, does not name an identifier other than `leader_id`.
pub open spec fn helper_confirms(leader_id: TrainingSessionId, reply: SessionReply) -> bool {
    reply matches SessionReply::Answered { status, response } ==> (status == STATUS_OK && response is Some
        ==> response->0.training_session_id == leader_id)
}

impl JanusTasksClient {
    /// The request of `flow` to the aggregator `to`.
    fn session_request(&self, flow: &CreateSessionFlow, to: Aggregator, id: Option<TrainingSessionId>) -> (r:
        CreateTrainingSessionRequest)
        ensures
            is_session_request(*self, *flow, to, id, r),
    {
        CreateTrainingSessionRequest {
            training_session_id: id,
            leader_endpoint: self.location.external_leader_main.clone(),
            helper_endpoint: self.location.external_helper_main.clone(),
            role: match to {
                Aggregator::Leader => Role::Leader,
                Aggregator::Helper => Role::Helper,
            },
            num_gradient_entries: self.vdaf_parameter.gradient_len,
            verify_key_encoded: flow.verify_key_encoded.clone(),
            collector_hpke_config: self.hpke_keypair.config.clone(),
            collector_auth_token_encoded: flow.collector_auth_token_encoded.clone(),
            leader_auth_token_encoded: flow.leader_auth_token_encoded.clone(),
            noise_parameter: self.vdaf_parameter.noise_parameter,
        }
    }

    /// Starts creating a training session with the verify key `verify_key`:
    /// the leader is asked first, without an identifier.
    pub fn begin_create_session_with(&self, verify_key: &[u8]) -> (r: (CreateSessionFlow, CreateSessionAction))
        ensures
            flow_of(*self, r.0),
            r.0.spec_stage() == CreateSessionStage::AwaitingLeader,
            r.0.spec_verify_key_encoded() == base64url_encoded(verify_key@),
            base64url_decoded(r.0.spec_verify_key_encoded()) == Ok::<Seq<u8>, Seq<char>>(verify_key@),
            r.1 matches CreateSessionAction::Send { to, request } && to == Aggregator::Leader
                && is_session_request(*self, r.0, Aggregator::Leader, None, request),
    {
        let flow = CreateSessionFlow {
            verify_key_encoded: base64url_encode(verify_key),
            collector_auth_token_encoded: base64url_encode(self.collector_auth_token.as_slice()),
            leader_auth_token_encoded: base64url_encode(self.leader_auth_token.as_slice()),
            stage: CreateSessionStage::AwaitingLeader,
        };
        let request = self.session_request(&flow, Aggregator::Leader, None);
        (flow, CreateSessionAction::Send { to: Aggregator::Leader, request })
    }

    /// Starts creating a training session with a random verify key of
    /// [`VERIFY_KEY_LENGTH`] bytes: the leader is asked first, without an
    /// identifier.
    pub fn begin_create_session(&self) -> (r: (CreateSessionFlow, CreateSessionAction))
        ensures
            flow_of(*self, r.0),
            r.0.spec_stage() == CreateSessionStage::AwaitingLeader,
            exists|key: Seq<u8>|
                key.len() == VERIFY_KEY_LENGTH && #[trigger] base64url_decoded(r.0.spec_verify_key_encoded())
                    == Ok::<Seq<u8>, Seq<char>>(key),
            r.1 matches CreateSessionAction::Send { to, request } && to == Aggregator::Leader
                && is_session_request(*self, r.0, Aggregator::Leader, None, request),
    {
        let verify_key = random_bytes_16();
        self.begin_create_session_with(verify_key.as_slice())
    }

    /// Takes the next step of creating a session after `reply` came back from
    /// the aggregator that was asked last. The helper must confirm the
    /// identifier that the leader picked.
    pub fn create_session_step(&self, flow: &mut CreateSessionFlow, reply: SessionReply) -> (r:
        CreateSessionAction)
        requires
            old(flow).spec_stage() !is Finished,
            old(flow).spec_stage() is AwaitingHelper ==> helper_confirms(old(flow).spec_stage()->leader_id, reply),
        ensures
            create_session_step_outcome(*self, *old(flow), reply, *final(flow), r),
    {
        let asked = match flow.stage {
            CreateSessionStage::AwaitingLeader => Aggregator::Leader,
            _ => Aggregator::Helper,
        };
        match reply {
            SessionReply::Unreachable => {
                flow.stage = CreateSessionStage::Finished;
                CreateSessionAction::Done(Err(ClientError::Unreachable(asked)))
            },
            SessionReply::Answered { status, response } => {
                if status != STATUS_OK {
                    flow.stage = CreateSessionStage::Finished;
                    return CreateSessionAction::Done(Err(ClientError::Rejected { by: asked, status }));
                }
                match response {
                    None => {
                        flow.stage = CreateSessionStage::Finished;
                        CreateSessionAction::Done(Err(ClientError::MalformedResponse(asked)))
                    },
                    Some(resp) => {
                        match flow.stage {
                            CreateSessionStage::AwaitingHelper { leader_id } => {
                                flow.stage = CreateSessionStage::Finished;
                                CreateSessionAction::Done(Ok(leader_id))
                            },
                            _ => {
                                let id = resp.training_session_id;
                                flow.stage = CreateSessionStage::AwaitingHelper { leader_id: id };
                                let request = self.session_request(flow, Aggregator::Helper, Some(id));
                                CreateSessionAction::Send { to: Aggregator::Helper, request }
                            },
                        }
                    },
                }
            },
        }
    }
}

/// Whether both aggregators ended the session, given the HTTP statuses of
/// their answers to the request to end it.
pub fn session_ended(leader_status: u16, helper_status: u16) -> (r: Result<(), ClientError>)
    ensures
        leader_status == STATUS_OK && helper_status == STATUS_OK ==> r == Ok::<(), ClientError>(()),
        !(leader_status == STATUS_OK && helper_status == STATUS_OK) ==> r == Err::<(), ClientError>(
            ClientError::SessionNotEnded { leader_status, helper_status },
        ),
{
    if leader_status == STATUS_OK && helper_status == STATUS_OK {
        Ok(())
    } else {
        Err(ClientError::SessionNotEnded { leader_status, helper_status })
    }
}

/// The request to start a round of the session `training_session_id` as the
/// task `task_id`.
pub fn start_round_request(training_session_id: TrainingSessionId, task_id: &TaskId) -> (r: StartRoundRequest)
    ensures
        r.training_session_id == training_session_id,
        r.task_id_encoded@ == base64url_encoded(task_id.0@),
        base64url_decoded(r.task_id_encoded@) == Ok::<Seq<u8>, Seq<char>>(task_id.0@),
{
    StartRoundRequest { training_session_id, task_id_encoded: base64url_encode(&task_id.0) }
}

/// Draws a random task identifier for a new round of the session
/// `training_session_id`, and the request to start the round as that task.
pub fn begin_start_round(training_session_id: TrainingSessionId) -> (r: (TaskId, StartRoundRequest))
    ensures
        r.1.training_session_id == training_session_id,
        r.1.task_id_encoded@ == base64url_encoded(r.0.0@),
        base64url_decoded(r.1.task_id_encoded@) == Ok::<Seq<u8>, Seq<char>>(r.0.0@),
{
    let task_id = random_task_id();
    let request = start_round_request(training_session_id, &task_id);
    (task_id, request)
}

/// Whether both aggregators started the round as the task `task_id`, given
/// the HTTP statuses of their answers: the task identifier if they did.
pub fn round_started(task_id: TaskId, leader_status: u16, helper_status: u16) -> (r: Result<TaskId, ClientError>)
    ensures
        leader_status == STATUS_OK && helper_status == STATUS_OK ==> (r matches Ok(t) && t.0@ == task_id.0@),
        !(leader_status == STATUS_OK && helper_status == STATUS_OK) ==> (r matches Err(e) && e
            == (ClientError::RoundNotStarted { leader_status, helper_status })),
{
    if leader_status == STATUS_OK && helper_status == STATUS_OK {
        Ok(task_id)
    } else {
        Err(ClientError::RoundNotStarted { leader_status, helper_status })
    }
}

/// The request for the aggregation parameters of the task `task_id`.
pub fn vdaf_parameter_request(task_id: &TaskId) -> (r: GetVdafParameterRequest)
    ensures
        r.task_id_encoded@ == base64url_encoded(task_id.0@),
        base64url_decoded(r.task_id_encoded@) == Ok::<Seq<u8>, Seq<char>>(task_id.0@),
{
    GetVdafParameterRequest { task_id_encoded: base64url_encode(&task_id.0) }
}

/// The main locations that both aggregators name, given what each named
/// (`None` where the request failed or the answer did not hold locations).
pub fn agree_on_main_locations(leader: Option<MainLocations>, helper: Option<MainLocations>) -> (r: Result<
    MainLocations,
    ClientError,
>)
    ensures
        (leader is None || helper is None) ==> (r matches Err(e) && e == ClientError::MainLocationsUnavailable),
        leader matches Some(a) ==> helper matches Some(b) ==> (
        if a.external_leader@ == b.external_leader@ && a.external_helper@ == b.external_helper@ {
            (r matches Ok(m) && m.external_leader@ == a.external_leader@ && m.external_helper@ == a.external_helper@)
        } else {
            (r matches Err(e) && e == ClientError::DifferentMainLocations)
        }),
{
    match (leader, helper) {
        (Some(a), Some(b)) => {
            if a.external_leader == b.external_leader && a.external_helper == b.external_helper {
                Ok(a)
            } else {
                Err(ClientError::DifferentMainLocations)
            }
        },
        _ => Err(ClientError::MainLocationsUnavailable),
    }
}

/// The start (seconds since the epoch) of the interval of reports that is
/// collected at time `now`: `now` rounded down to [`TIME_PRECISION`], less five
/// times [`TIME_PRECISION`].
pub open spec fn collection_start(now: u64) -> int {
    (now / TIME_PRECISION) * TIME_PRECISION - 5 * TIME_PRECISION
}

/// The interval of reports to collect at time `now` (seconds since the
/// epoch), as its start and its duration: fifteen times [`TIME_PRECISION`]
/// starting five times [`TIME_PRECISION`] before `now` rounded down to
/// [`TIME_PRECISION`].
pub fn collection_interval(now: u64) -> (r: (u64, u64))
    requires
        now >= 5 * TIME_PRECISION,
    ensures
        r.0 == collection_start(now),
        r.1 == 15 * TIME_PRECISION,
{
    let rounded_start = (now / TIME_PRECISION) * TIME_PRECISION;
    assert(rounded_start >= 5 * TIME_PRECISION) by (nonlinear_arith)
        requires
            rounded_start == (now / 3600) * 3600,
            now >= 5 * 3600,
    ;
    (rounded_start - TIME_PRECISION * 5, TIME_PRECISION * 15)
}

} // verus!
