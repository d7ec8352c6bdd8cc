use dpsa4fl_janus_tasks::fixed::{Fixed32, Fixed64, FixedAny};
use dpsa4fl_janus_tasks::hpke::{generate_keypair, HpkeConfig};
use dpsa4fl_janus_tasks::messages::{CreateTrainingSessionRequest, Role, StartRoundRequest, TrainingSessionId};
use dpsa4fl_janus_tasks::provisioner::{ProvisionError, QueryType, TaskProvisioner, VdafInstance};

fn collector_config() -> HpkeConfig {
    generate_keypair(9).config
}

fn request(id: Option<u16>, role: Role, verify_key_encoded: &str) -> CreateTrainingSessionRequest {
    CreateTrainingSessionRequest {
        training_session_id: id.map(TrainingSessionId),
        leader_endpoint: "http://leader:9991/".to_string(),
        helper_endpoint: "http://helper:9992/".to_string(),
        role,
        num_gradient_entries: 100,
        verify_key_encoded: verify_key_encoded.to_string(),
        collector_hpke_config: collector_config(),
        collector_auth_token_encoded: "Y29sbGVjdG9y".to_string(),
        leader_auth_token_encoded: "bGVhZGVy".to_string(),
        noise_parameter: FixedAny::Fixed32(Fixed32 { bits: 1 << 20 }),
    }
}

// 32 bytes 0, 1, ..., 31 in unpadded base64url
const TASK_ID_0_TO_31: &str = "AAECAwQFBgcICQoLDA0ODxAREhMUFRYXGBkaGxwdHh8";

fn start(id: u16, task_id_encoded: &str) -> StartRoundRequest {
    StartRoundRequest { training_session_id: TrainingSessionId(id), task_id_encoded: task_id_encoded.to_string() }
}

#[test]
fn create_session_with_requested_id() {
    let mut p = TaskProvisioner::new();
    let r = p.create_session_with(request(Some(7), Role::Helper, "AAECAw"), 55, 3);
    assert_eq!(r, Ok(TrainingSessionId(7)));
}

#[test]
fn create_session_without_id_takes_the_drawn_one() {
    let mut p = TaskProvisioner::new();
    let r = p.create_session_with(request(None, Role::Leader, "AAECAw"), 55, 3);
    assert_eq!(r, Ok(TrainingSessionId(55)));
    let r = p.handle_create_session(request(None, Role::Leader, "AAECAw"));
    assert!(r.is_ok());
}

#[test]
fn create_session_refuses_taken_id() {
    let mut p = TaskProvisioner::new();
    assert_eq!(p.create_session_with(request(Some(7), Role::Helper, "AAECAw"), 1, 1), Ok(TrainingSessionId(7)));
    let err = p.create_session_with(request(Some(7), Role::Helper, "AAECAw"), 1, 1).unwrap_err();
    assert_eq!(err, ProvisionError::SessionExists(TrainingSessionId(7)));
    assert_eq!(err.message(), "There already exists a training session with id 7.");
}

#[test]
fn create_session_refuses_bad_verify_key() {
    let mut p = TaskProvisioner::new();
    let err = p.create_session_with(request(Some(8), Role::Helper, "not base64!"), 1, 1).unwrap_err();
    assert_eq!(err, ProvisionError::InvalidVerifyKey);
    assert_eq!(err.message(), "invalid base64url content in \"verifyKey\"");
    // nothing was stored: the identifier is still free
    assert_eq!(p.create_session_with(request(Some(8), Role::Helper, "AAECAw"), 1, 1), Ok(TrainingSessionId(8)));
}

#[test]
fn start_round_of_unknown_session_is_refused() {
    let p = TaskProvisioner::new();
    let err = p.handle_start_round(start(12, TASK_ID_0_TO_31), 1000).unwrap_err();
    assert_eq!(err, ProvisionError::NoSuchSession(TrainingSessionId(12)));
    assert_eq!(err.message(), "There is no training session with id 12");
}

#[test]
fn start_round_refuses_bad_task_ids() {
    let mut p = TaskProvisioner::new();
    p.create_session_with(request(Some(1), Role::Leader, "AAECAw"), 0, 0).unwrap();
    let err = p.handle_start_round(start(1, "%%%"), 1000).unwrap_err();
    assert_eq!(err, ProvisionError::InvalidTaskIdEncoding("Invalid symbol 37, offset 0.".to_string()));
    assert_eq!(err.message(), "Invalid symbol 37, offset 0.");
    let err = p.handle_start_round(start(1, "AAECAw"), 1000).unwrap_err();
    assert_eq!(err, ProvisionError::InvalidTaskId("I/O error".to_string()));
    assert_eq!(err.message(), "I/O error");
}

#[test]
fn start_round_refuses_overlong_task_id() {
    let mut p = TaskProvisioner::new();
    p.create_session_with(request(Some(1), Role::Leader, "AAECAw"), 0, 0).unwrap();
    // 33 bytes 0, 1, ..., 32
    let err = p.handle_start_round(start(1, "AAECAwQFBgcICQoLDA0ODxAREhMUFRYXGBkaGxwdHh8g"), 1000).unwrap_err();
    assert_eq!(err.message(), "1 bytes left in buffer after decoding value");
}

#[test]
fn end_session_removes_the_session() {
    let mut p = TaskProvisioner::new();
    p.create_session_with(request(Some(4), Role::Leader, "AAECAw"), 0, 0).unwrap();
    assert!(p.handle_start_round(start(4, TASK_ID_0_TO_31), 0).is_ok());
    assert_eq!(p.handle_end_session(TrainingSessionId(4)), Ok(()));
    let err = p.handle_start_round(start(4, TASK_ID_0_TO_31), 0).unwrap_err();
    assert_eq!(err, ProvisionError::NoSuchSession(TrainingSessionId(4)));
    // the identifier is free again
    assert_eq!(p.create_session_with(request(Some(4), Role::Leader, "AAECAw"), 0, 0), Ok(TrainingSessionId(4)));
}

#[test]
fn end_of_unknown_session_is_refused() {
    let mut p = TaskProvisioner::new();
    p.create_session_with(request(Some(4), Role::Leader, "AAECAw"), 0, 0).unwrap();
    let err = p.handle_end_session(TrainingSessionId(5)).unwrap_err();
    assert_eq!(err, ProvisionError::NoSuchSession(TrainingSessionId(5)));
    assert_eq!(err.message(), "There is no training session with id 5");
    // the other session is untouched
    assert!(p.handle_start_round(start(4, TASK_ID_0_TO_31), 0).is_ok());
    assert_eq!(p.handle_end_session(TrainingSessionId(4)), Ok(()));
    assert!(p.handle_end_session(TrainingSessionId(4)).is_err());
}

#[test]
fn fresh_provisioner_refuses_rounds_until_a_session_is_created() {
    let mut p = TaskProvisioner::new();
    for id in [0u16, 1, 7, 65535] {
        assert_eq!(
            p.handle_start_round(start(id, TASK_ID_0_TO_31), 0).unwrap_err(),
            ProvisionError::NoSuchSession(TrainingSessionId(id))
        );
    }
    assert!(p.create_session_with(request(Some(7), Role::Leader, "not base64!"), 0, 0).is_err());
    assert!(p.handle_start_round(start(7, TASK_ID_0_TO_31), 0).is_err());
    p.create_session_with(request(Some(7), Role::Leader, "AAECAw"), 0, 0).unwrap();
    assert!(p.handle_start_round(start(7, TASK_ID_0_TO_31), 0).is_ok());
    assert!(p.handle_start_round(start(1, TASK_ID_0_TO_31), 0).is_err());
}

#[test]
fn start_round_of_leader_session() {
    let mut p = TaskProvisioner::new();
    let r = request(Some(1), Role::Leader, "AAECAw");
    let collector_public_key = r.collector_hpke_config.public_key.clone();
    p.create_session_with(r, 0, 5).unwrap();
    let t = p.handle_start_round(start(1, TASK_ID_0_TO_31), 1_000_000).unwrap();
    let expected_id: Vec<u8> = (0u8..32).collect();
    assert_eq!(t.task_id.0.to_vec(), expected_id);
    assert_eq!(t.aggregator_endpoints, vec!["http://leader:9991/".to_string(), "http://helper:9992/".to_string()]);
    assert_eq!(t.query_type, QueryType::TimeInterval);
    assert_eq!(
        t.vdaf,
        VdafInstance::Prio3Aes128FixedPoint32BitBoundedL2VecSum { length: 100, noise_param: Fixed32 { bits: 1 << 20 } }
    );
    assert_eq!(t.role, Role::Leader);
    assert_eq!(t.vdaf_verify_keys, vec![vec![0u8, 1, 2, 3]]);
    assert_eq!(t.max_batch_query_count, 10);
    assert_eq!(t.task_expiration, 1_000_600);
    assert_eq!(t.report_expiry_age, None);
    assert_eq!(t.min_batch_size, 2);
    assert_eq!(t.time_precision, 3600);
    assert_eq!(t.tolerable_clock_skew, 1000);
    assert_eq!(t.collector_hpke_config.public_key, collector_public_key);
    assert_eq!(t.collector_hpke_config.id, 9);
    assert_eq!(t.aggregator_auth_tokens, vec!["bGVhZGVy".to_string()]);
    assert_eq!(t.collector_auth_tokens, vec!["Y29sbGVjdG9y".to_string()]);
    assert_eq!(t.hpke_keys.len(), 1);
    assert_eq!(t.hpke_keys[0].config.id, 5);
}

#[test]
fn start_round_of_helper_session_has_no_collector_token() {
    let mut p = TaskProvisioner::new();
    let mut r = request(Some(2), Role::Helper, "AAECAw");
    r.noise_parameter = FixedAny::Fixed64(Fixed64 { bits: -3 });
    p.create_session_with(r, 0, 5).unwrap();
    let t = p.handle_start_round(start(2, TASK_ID_0_TO_31), 0).unwrap();
    assert_eq!(t.role, Role::Helper);
    assert!(t.collector_auth_tokens.is_empty());
    assert_eq!(t.task_expiration, 600);
    assert_eq!(
        t.vdaf,
        VdafInstance::Prio3Aes128FixedPoint64BitBoundedL2VecSum { length: 100, noise_param: Fixed64 { bits: -3 } }
    );
}

#[test]
fn sessions_share_the_registry_keys() {
    let mut p = TaskProvisioner::new();
    p.create_session_with(request(Some(1), Role::Leader, "AAECAw"), 0, 5).unwrap();
    p.create_session_with(request(Some(2), Role::Leader, "AAECAw"), 0, 5).unwrap();
    let t1 = p.handle_start_round(start(1, TASK_ID_0_TO_31), 0).unwrap();
    let t2 = p.handle_start_round(start(2, TASK_ID_0_TO_31), 0).unwrap();
    assert_eq!(t1.hpke_keys[0].private_key, t2.hpke_keys[0].private_key);
}
