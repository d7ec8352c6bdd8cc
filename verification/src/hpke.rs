//! HPKE configurations and key pairs, and the registry that hands out one key
//! pair per configuration identifier.
use vstd::prelude::*;
use crate::outside::{janus_generate_keypair, random_u8};

verus! {

broadcast use vstd::std_specs::hash::group_hash_axioms;

/// The KEM identifier of DHKEM(X25519, HKDF-SHA256).
pub const KEM_X25519_HKDF_SHA256: u16 = 0x0020;
/// The KDF identifier of HKDF-SHA256.
pub const KDF_HKDF_SHA256: u16 = 0x0001;
/// The AEAD identifier of AES-128-GCM.
pub const AEAD_AES128_GCM: u16 = 0x0001;

/// The mathematical content of an [`HpkeConfig`].
pub struct HpkeConfigView {
    pub id: u8,
    pub kem_id: u16,
    pub kdf_id: u16,
    pub aead_id: u16,
    pub public_key: Seq<u8>,
}

/// DAP protocol message representing an HPKE configuration: an identifier,
/// the three algorithm identifiers, and the public key.
#[derive(Debug)]
pub struct HpkeConfig {
    pub id: u8,
    pub kem_id: u16,
    pub kdf_id: u16,
    pub aead_id: u16,
    pub public_key: Vec<u8>,
}

impl View for HpkeConfig {
    type V = HpkeConfigView;

    open spec fn view(&self) -> HpkeConfigView {
        HpkeConfigView {
            id: self.id,
            kem_id: self.kem_id,
            kdf_id: self.kdf_id,
            aead_id: self.aead_id,
            public_key: self.public_key@,
        }
    }
}

impl Clone for HpkeConfig {
    fn clone(&self) -> (r: Self)
        ensures
            r@ == self@,
    {
        let public_key = self.public_key.clone();
        assert(public_key@ =~= self.public_key@);
        HpkeConfig {
            id: self.id,
            kem_id: self.kem_id,
            kdf_id: self.kdf_id,
            aead_id: self.aead_id,
            public_key,
        }
    }
}

/// The mathematical content of an [`HpkeKeypair`].
pub struct HpkeKeypairView {
    pub config: HpkeConfigView,
    pub private_key: Seq<u8>,
}

/// An HPKE configuration and its corresponding private key.
#[derive(Debug)]
pub struct HpkeKeypair {
    pub config: HpkeConfig,
    pub private_key: Vec<u8>,
}

impl View for HpkeKeypair {
    type V = HpkeKeypairView;

    open spec fn view(&self) -> HpkeKeypairView {
        HpkeKeypairView { config: self.config@, private_key: self.private_key@ }
    }
}

impl Clone for HpkeKeypair {
    fn clone(&self) -> (r: Self)
        ensures
            r@ == self@,
    {
        let private_key = self.private_key.clone();
        assert(private_key@ =~= self.private_key@);
        HpkeKeypair { config: self.config.clone(), private_key }
    }
}

/// The algorithms that the registry generates its key pairs with, which are
/// required by section 6 of draft-ietf-ppm-dap-02 and so broadly compatible
/// with other DAP implementations.
pub open spec fn is_standard_suite(config: HpkeConfigView) -> bool {
    &&& config.kem_id == KEM_X25519_HKDF_SHA256
    &&& config.kdf_id == KDF_HKDF_SHA256
    &&& config.aead_id == AEAD_AES128_GCM
}

/// A key pair that the registry may hold under the configuration identifier `id`.
pub open spec fn is_registry_keypair(id: u8, keypair: HpkeKeypairView) -> bool {
    &&& keypair.config.id == id
    &&& is_standard_suite(keypair.config)
}

/// Generates a fresh key pair with the configuration identifier `id` and the
/// standard algorithms.
pub fn generate_keypair(id: u8) -> (r: HpkeKeypair)
    ensures
        is_registry_keypair(id, r@),
{
    let generated = janus_generate_keypair(id, KEM_X25519_HKDF_SHA256, KDF_HKDF_SHA256, AEAD_AES128_GCM);
    generated.unwrap()
}

/// What fetching the key pair `id` from a registry whose key pairs were
/// `before` does: the result is the key pair that the registry holds under
/// `id` afterwards, which is the one it held before if there was one, and
/// otherwise a new one added to it.
pub open spec fn fetched(
    before: Map<u8, HpkeKeypairView>,
    id: u8,
    result: HpkeKeypairView,
    after: Map<u8, HpkeKeypairView>,
) -> bool {
    &&& after.contains_key(id)
    &&& result == after[id]
    &&& before.contains_key(id) ==> after == before
    &&& !before.contains_key(id) ==> after == before.insert(id, result) && is_registry_keypair(id, result)
}

/// This registry lazily generates up to 256 HPKE key pairs, one with each possible
/// configuration identifier.
pub struct HpkeConfigRegistry {
    keypairs: std::collections::HashMap<u8, HpkeKeypair>,
}

impl View for HpkeConfigRegistry {
    type V = Map<u8, HpkeKeypairView>;

    closed spec fn view(&self) -> Map<u8, HpkeKeypairView> {
        self.keypairs@.map_values(|kp: HpkeKeypair| kp@)
    }
}

impl Default for HpkeConfigRegistry {
    fn default() -> (r: HpkeConfigRegistry)
        ensures
            r.wf(),
            r@ == Map::<u8, HpkeKeypairView>::empty(),
    {
        let r = HpkeConfigRegistry { keypairs: std::collections::HashMap::new() };
        assert(r@ =~= Map::<u8, HpkeKeypairView>::empty());
        r
    }
}

impl HpkeConfigRegistry {
    /// Each key pair is stored under its own configuration identifier and uses
    /// the standard algorithms.
    pub open spec fn wf(&self) -> bool {
        forall|id: u8| #[trigger] self@.contains_key(id) ==> is_registry_keypair(id, self@[id])
    }

    /// The registry holds at most 256 key pairs, one for each configuration
    /// identifier.
    pub proof fn lemma_at_most_256_keypairs(&self)
        ensures
            self@.dom().finite(),
            self@.dom().len() <= 256,
    {
        let d = self@.dom();
        assert(d =~= self.keypairs@.dom());
        assert(self.keypairs@.dom().finite());
        let f = |x: u8| x as int;
        let r = vstd::set_lib::set_int_range(0, 256);
        vstd::set_lib::lemma_int_range(0, 256);
        assert(vstd::relations::injective_on(f, d));
        vstd::set_lib::lemma_map_size(d, d.map(f), f);
        assert(d.map(f).subset_of(r));
        vstd::set_lib::lemma_len_subset(d.map(f), r);
    }

    /// An empty registry.
    pub fn new() -> (r: HpkeConfigRegistry)
        ensures
            r.wf(),
            r@ == Map::<u8, HpkeKeypairView>::empty(),
    {
        HpkeConfigRegistry::default()
    }

    /// Get the keypair associated with a given ID: the one generated earlier,
    /// or, on the first request for this ID, a newly generated one that is
    /// kept for later requests.
    pub fn fetch_keypair(&mut self, id: u8) -> (r: HpkeKeypair)
        requires
            old(self).wf(),
        ensures
            final(self).wf(),
            fetched(old(self)@, id, r@, final(self)@),
    {
        match self.keypairs.get(&id) {
            Some(kp) => {
                assert(self.keypairs@.contains_key(id));
                let r = kp.clone();
                r
            },
            None => {
                let kp = generate_keypair(id);
                let r = kp.clone();
                let ghost before = self@;
                self.keypairs.insert(id, kp);
                assert(self@ =~= before.insert(id, r@));
                r
            },
        }
    }

    /// Choose a random configuration identifier, and then get the keypair
    /// associated with that ID.
    pub fn get_random_keypair(&mut self) -> (r: HpkeKeypair)
        requires
            old(self).wf(),
        ensures
            final(self).wf(),
            exists|id: u8| #[trigger] fetched(old(self)@, id, r@, final(self)@),
    {
        let id = random_u8();
        self.fetch_keypair(id)
    }
}

} // verus!
