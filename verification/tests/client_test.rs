use dpsa4fl_janus_tasks::janus_tasks_client::{
    agree_on_main_locations, collection_interval, round_started, session_ended, start_round_request,
    vdaf_parameter_request, Aggregator, ClientError, CreateSessionAction, CreateSessionStage, JanusTasksClient,
    SessionReply,
};
use dpsa4fl_janus_tasks::fixed::{Fixed16, FixedAny};
use dpsa4fl_janus_tasks::messages::{
    CreateTrainingSessionResponse, Locations, MainLocations, Role, TaskId, TrainingSessionId, VdafParameter,
};
use dpsa4fl_janus_tasks::hpke::generate_keypair;
use dpsa4fl_janus_tasks::provisioner::TaskProvisioner;

fn locations() -> Locations {
    Locations {
        internal_leader: "http://leader-internal/".to_string(),
        internal_helper: "http://helper-internal/".to_string(),
        external_leader_tasks: "http://leader:9981/".to_string(),
        external_helper_tasks: "http://helper:9982/".to_string(),
        external_leader_main: "http://leader:9991/".to_string(),
        external_helper_main: "http://helper:9992/".to_string(),
    }
}

fn client() -> JanusTasksClient {
    JanusTasksClient::new(
        locations(),
        VdafParameter { gradient_len: 10, noise_parameter: FixedAny::Fixed16(Fixed16 { bits: 100 }) },
    )
}

fn answered(status: u16, id: Option<u16>) -> SessionReply {
    SessionReply::Answered {
        status,
        response: id.map(|i| CreateTrainingSessionResponse { training_session_id: TrainingSessionId(i) }),
    }
}

#[test]
fn client_from_parts_keeps_its_parts() {
    let keypair = generate_keypair(42);
    let public_key = keypair.config.public_key.clone();
    let c = JanusTasksClient::from_parts(
        locations(),
        VdafParameter { gradient_len: 7, noise_parameter: FixedAny::Fixed16(Fixed16 { bits: 3 }) },
        vec![1, 2, 3],
        vec![4, 5, 6],
        keypair,
    );
    assert_eq!(c.collector_auth_token(), &vec![4u8, 5, 6]);
    assert_eq!(c.collector_auth_token_encoded(), "BAUG");
    assert_eq!(c.hpke_keypair().config.id, 42);
    assert_eq!(c.hpke_keypair().config.public_key, public_key);
    assert_eq!(c.vdaf_parameter().gradient_len, 7);
    let (_, action) = c.begin_create_session_with(&[0, 1, 2, 3]);
    match action {
        CreateSessionAction::Send { request, .. } => {
            assert_eq!(request.leader_auth_token_encoded, "AQID");
            assert_eq!(request.collector_auth_token_encoded, "BAUG");
            assert_eq!(request.collector_hpke_config.id, 42);
        }
        other => panic!("unexpected {other:?}"),
    }
}

#[test]
fn new_client_has_random_credentials() {
    let c = client();
    assert_eq!(c.collector_auth_token().len(), 16);
    assert_eq!(c.hpke_keypair().config.kem_id, 0x0020);
    assert_eq!(c.vdaf_parameter().gradient_len, 10);
    assert_eq!(c.location().external_leader_main, "http://leader:9991/");
}

#[test]
fn create_session_asks_leader_then_helper() {
    let c = client();
    let (mut flow, action) = c.begin_create_session_with(&[0, 1, 2, 3]);
    let leader_request = match action {
        CreateSessionAction::Send { to: Aggregator::Leader, request } => request,
        other => panic!("unexpected {other:?}"),
    };
    assert_eq!(leader_request.training_session_id, None);
    assert_eq!(leader_request.role, Role::Leader);
    assert_eq!(leader_request.verify_key_encoded, "AAECAw");
    assert_eq!(leader_request.leader_endpoint, "http://leader:9991/");
    assert_eq!(leader_request.helper_endpoint, "http://helper:9992/");
    assert_eq!(leader_request.num_gradient_entries, 10);
    assert_eq!(flow.stage(), CreateSessionStage::AwaitingLeader);

    let action = c.create_session_step(&mut flow, answered(200, Some(41)));
    let helper_request = match action {
        CreateSessionAction::Send { to: Aggregator::Helper, request } => request,
        other => panic!("unexpected {other:?}"),
    };
    assert_eq!(helper_request.training_session_id, Some(TrainingSessionId(41)));
    assert_eq!(helper_request.role, Role::Helper);
    assert_eq!(helper_request.verify_key_encoded, leader_request.verify_key_encoded);
    assert_eq!(helper_request.collector_auth_token_encoded, leader_request.collector_auth_token_encoded);
    assert_eq!(helper_request.leader_auth_token_encoded, leader_request.leader_auth_token_encoded);
    assert_eq!(flow.stage(), CreateSessionStage::AwaitingHelper { leader_id: TrainingSessionId(41) });

    match c.create_session_step(&mut flow, answered(200, Some(41))) {
        CreateSessionAction::Done(r) => assert_eq!(r, Ok(TrainingSessionId(41))),
        other => panic!("unexpected {other:?}"),
    }
    assert_eq!(flow.stage(), CreateSessionStage::Finished);
}

#[test]
fn create_session_stops_on_errors() {
    let c = client();
    let (mut flow, _) = c.begin_create_session();
    match c.create_session_step(&mut flow, answered(400, None)) {
        CreateSessionAction::Done(r) => {
            assert_eq!(r, Err(ClientError::Rejected { by: Aggregator::Leader, status: 400 }))
        },
        other => panic!("unexpected {other:?}"),
    }
    let (mut flow, _) = c.begin_create_session();
    match c.create_session_step(&mut flow, SessionReply::Unreachable) {
        CreateSessionAction::Done(r) => assert_eq!(r, Err(ClientError::Unreachable(Aggregator::Leader))),
        other => panic!("unexpected {other:?}"),
    }
    let (mut flow, _) = c.begin_create_session();
    let _ = c.create_session_step(&mut flow, answered(200, Some(3)));
    match c.create_session_step(&mut flow, answered(200, None)) {
        CreateSessionAction::Done(r) => assert_eq!(r, Err(ClientError::MalformedResponse(Aggregator::Helper))),
        other => panic!("unexpected {other:?}"),
    }
    let (mut flow, _) = c.begin_create_session();
    let _ = c.create_session_step(&mut flow, answered(200, Some(3)));
    match c.create_session_step(&mut flow, answered(500, None)) {
        CreateSessionAction::Done(r) => {
            assert_eq!(r, Err(ClientError::Rejected { by: Aggregator::Helper, status: 500 }))
        },
        other => panic!("unexpected {other:?}"),
    }
}

#[test]
fn verify_key_reaches_both_aggregators() {
    let c = client();
    let key = [9u8, 8, 7, 6, 5, 4, 3, 2, 1, 0, 1, 2, 3, 4, 5, 6];
    let (mut flow, action) = c.begin_create_session_with(&key);
    let CreateSessionAction::Send { request, .. } = action else { panic!("no request") };
    let mut leader = TaskProvisioner::new();
    let id = leader.create_session_with(request, 77, 1).unwrap();
    let CreateSessionAction::Send { request, .. } =
        c.create_session_step(&mut flow, answered(200, Some(id.0)))
    else {
        panic!("no helper request")
    };
    let mut helper = TaskProvisioner::new();
    assert_eq!(helper.create_session_with(request, 12, 2), Ok(id));

    let (task_id, round) = dpsa4fl_janus_tasks::janus_tasks_client::begin_start_round(id);
    let lt = leader.handle_start_round(round.clone(), 5000).unwrap();
    let ht = helper.handle_start_round(round.clone(), 5000).unwrap();
    assert_eq!(lt.vdaf_verify_keys, vec![key.to_vec()]);
    assert_eq!(ht.vdaf_verify_keys, vec![key.to_vec()]);
    assert_eq!(lt.task_id.0, task_id.0);
    assert_eq!(ht.task_id.0, task_id.0);
    assert_eq!(lt.collector_auth_tokens.len(), 1);
    assert!(ht.collector_auth_tokens.is_empty());
}

#[test]
fn end_and_start_need_both_aggregators() {
    assert_eq!(session_ended(200, 200), Ok(()));
    assert_eq!(
        session_ended(200, 404),
        Err(ClientError::SessionNotEnded { leader_status: 200, helper_status: 404 })
    );
    let t = TaskId([5u8; 32]);
    assert_eq!(round_started(t, 200, 200).unwrap().0, [5u8; 32]);
    assert_eq!(
        round_started(t, 500, 200).unwrap_err(),
        ClientError::RoundNotStarted { leader_status: 500, helper_status: 200 }
    );
}

#[test]
fn task_ids_travel_in_unpadded_base64url() {
    let t = TaskId([0u8; 32]);
    let r = start_round_request(TrainingSessionId(3), &t);
    assert_eq!(r.task_id_encoded, "AAAAAAAAAAAAAAAAAAAAAAAAAAAAAAAAAAAAAAAAAAA");
    assert_eq!(r.training_session_id, TrainingSessionId(3));
    let t = TaskId([0xffu8; 32]);
    assert_eq!(vdaf_parameter_request(&t).task_id_encoded, "__________________________________________8");
}

#[test]
fn main_locations_must_agree() {
    let m = |a: &str, b: &str| MainLocations { external_leader: a.to_string(), external_helper: b.to_string() };
    let r = agree_on_main_locations(Some(m("a", "b")), Some(m("a", "b"))).unwrap();
    assert_eq!(r.external_leader, "a");
    assert_eq!(r.external_helper, "b");
    assert_eq!(
        agree_on_main_locations(Some(m("a", "b")), Some(m("a", "c"))).unwrap_err(),
        ClientError::DifferentMainLocations
    );
    assert_eq!(
        agree_on_main_locations(None, Some(m("a", "b"))).unwrap_err(),
        ClientError::MainLocationsUnavailable
    );
}

#[test]
fn collection_interval_around_now() {
    assert_eq!(collection_interval(1_700_000_123), (1_699_981_200, 54_000));
    assert_eq!(collection_interval(18_000), (0, 54_000));
    let (start, duration) = collection_interval(1_700_000_123);
    assert_eq!(start % 3600, 0);
    assert!(start + 5 * 3600 <= 1_700_000_123 && 1_700_000_123 < start + duration);
}

#[test]
fn collector_token_is_accepted_by_leader_task() {
    let c = client();
    let (_flow, action) = c.begin_create_session();
    let CreateSessionAction::Send { request, .. } = action else { panic!("no request") };
    let mut leader = TaskProvisioner::new();
    let id = leader.create_session_with(request, 5, 1).unwrap();
    let (_task_id, round) = dpsa4fl_janus_tasks::janus_tasks_client::begin_start_round(id);
    let t = leader.handle_start_round(round.clone(), 100).unwrap();
    assert_eq!(t.collector_auth_tokens, vec![c.collector_auth_token_encoded()]);
    assert_eq!(c.collector_auth_token_encoded().len(), 22);
}
