use dpsa4fl_janus_tasks::hpke::{
    generate_keypair, HpkeConfigRegistry, AEAD_AES128_GCM, KDF_HKDF_SHA256, KEM_X25519_HKDF_SHA256,
};

#[test]
fn generated_keypair_has_id_and_standard_suite() {
    let kp = generate_keypair(17);
    assert_eq!(kp.config.id, 17);
    assert_eq!(kp.config.kem_id, KEM_X25519_HKDF_SHA256);
    assert_eq!(kp.config.kdf_id, KDF_HKDF_SHA256);
    assert_eq!(kp.config.aead_id, AEAD_AES128_GCM);
    assert_eq!(kp.config.public_key.len(), 32);
    assert_eq!(kp.private_key.len(), 32);
}

#[test]
fn registry_fetch_is_memoized() {
    let mut registry = HpkeConfigRegistry::new();
    let a = registry.fetch_keypair(3);
    let b = registry.fetch_keypair(3);
    assert_eq!(a.config.id, 3);
    assert_eq!(a.config.public_key, b.config.public_key);
    assert_eq!(a.private_key, b.private_key);
    let c = registry.fetch_keypair(4);
    assert_eq!(c.config.id, 4);
    assert_ne!(c.private_key, a.private_key);
}

#[test]
fn random_keypair_is_kept() {
    let mut registry = HpkeConfigRegistry::new();
    let a = registry.get_random_keypair();
    let b = registry.fetch_keypair(a.config.id);
    assert_eq!(a.private_key, b.private_key);
    assert_eq!(a.config.public_key, b.config.public_key);
}

#[test]
fn registry_holds_one_keypair_per_id() {
    let mut registry = HpkeConfigRegistry::new();
    let first: Vec<Vec<u8>> = (0..=255u8).map(|i| registry.fetch_keypair(i).private_key).collect();
    for i in 0..=255u8 {
        let kp = registry.fetch_keypair(i);
        assert_eq!(kp.config.id, i);
        assert_eq!(kp.private_key, first[i as usize]);
    }
}
