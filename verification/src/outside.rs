//! The calls that this library makes into other crates and into parts of std
//! that vstd does not describe. Every item here is trusted: its contract is
//! taken from the called code's source or documentation, not proved.
use vstd::prelude::*;
use prio::codec::{Decode, Encode};
use std::io::Cursor;

verus! {

/// The error type of the `prio` codec.
#[verifier::external_type_specification]
#[verifier::external_body]
pub struct ExCodecError(prio::codec::CodecError);

/// The two bytes of `v` in network byte order (most significant first).
pub open spec fn u16_be_bytes(v: u16) -> Seq<u8> {
    seq![(v / 256) as u8, (v % 256) as u8]
}

/// The number whose network byte order representation is `hi, lo`.
pub open spec fn u16_from_be(hi: u8, lo: u8) -> u16 {
    (hi * 256 + lo) as u16
}

/// Calls `<u16 as prio::codec::Encode>::encode`, which appends the two bytes of
/// `value`, most significant first, and always returns `Ok`.
#[verifier::external_body]
pub(crate) fn prio_encode_u16(value: u16, bytes: &mut Vec<u8>) -> (r: Result<(), prio::codec::CodecError>)
    ensures
        r is Ok,
        final(bytes)@ == old(bytes)@ + u16_be_bytes(value),
{
    value.encode(bytes)
}

/// Calls `<u16 as prio::codec::Decode>::decode` on a cursor placed at `pos`
/// in `bytes`. The call reads two bytes in network byte order; it fails when
/// fewer than two bytes remain. On success the new cursor position is returned
/// beside the value.
#[verifier::external_body]
pub(crate) fn prio_decode_u16(bytes: &[u8], pos: usize) -> (r: Result<(u16, usize), prio::codec::CodecError>)
    ensures
        r is Ok <==> pos + 2 <= bytes@.len(),
        r is Ok ==> r->Ok_0.0 == u16_from_be(bytes@[pos as int], bytes@[pos + 1]),
        r is Ok ==> r->Ok_0.1 == pos + 2,
{
    let mut cursor = Cursor::new(bytes);
    cursor.set_position(pos as u64);
    match u16::decode(&mut cursor) {
        Ok(v) => Ok((v, cursor.position() as usize)),
        Err(e) => Err(e),
    }
}

/// Calls std's `String::push`, which appends one character.
#[verifier::external_body]
pub(crate) fn push_char(s: &mut String, c: char)
    ensures
        final(s)@ == old(s)@.push(c),
{
    s.push(c)
}

} // verus!

verus! {

/// The error type of HPKE operations in `janus_core`.
#[verifier::external_type_specification]
#[verifier::external_body]
pub struct ExHpkeError(janus_core::hpke::Error);

/// Calls `janus_core::hpke::HpkeKeypair::generate`. Its source generates a key
/// pair for the KEMs P-256 (0x0010), X25519 (0x0020) and X-Wing (0x647a) and
/// fails for every other KEM; the configuration it returns carries the given
/// identifier and algorithm identifiers. The keys themselves are random, and
/// nothing is stated of them.
#[verifier::external_body]
pub(crate) fn janus_generate_keypair(id: u8, kem_id: u16, kdf_id: u16, aead_id: u16) -> (r: Result<
    crate::hpke::HpkeKeypair,
    janus_core::hpke::Error,
>)
    ensures
        r is Ok <==> (kem_id == 0x0010 || kem_id == 0x0020 || kem_id == 0x647a),
        r is Ok ==> r->Ok_0.config.id == id && r->Ok_0.config.kem_id == kem_id,
        r is Ok ==> r->Ok_0.config.kdf_id == kdf_id && r->Ok_0.config.aead_id == aead_id,
{
    let kp = janus_core::hpke::HpkeKeypair::generate(id.into(), kem_id.into(), kdf_id.into(), aead_id.into())?;
    let c = kp.config();
    Ok(crate::hpke::HpkeKeypair {
        config: crate::hpke::HpkeConfig {
            id: u8::from(*c.id()),
            kem_id: u16::from(*c.kem_id()),
            kdf_id: u16::from(*c.kdf_id()),
            aead_id: u16::from(*c.aead_id()),
            public_key: c.public_key().as_ref().to_vec(),
        },
        private_key: kp.private_key().as_ref().to_vec(),
    })
}

/// Calls `rand::random::<u8>()`; the value is random.
#[verifier::external_body]
pub(crate) fn random_u8() -> u8 {
    rand::random::<u8>()
}

} // verus!

verus! {

/// The character of the base64url alphabet (RFC 4648, section 5) for the
/// six-bit value `v`.
pub open spec fn base64url_char(v: nat) -> char {
    if v < 26 {
        ((65 + v) as u8) as char
    } else if v < 52 {
        ((71 + v) as u8) as char
    } else if v < 62 {
        ((v - 4) as u8) as char
    } else if v == 62 {
        '-'
    } else {
        '_'
    }
}

/// The unpadded base64url encoding of `bytes` (RFC 4648, section 5, without
/// padding): each group of three bytes becomes four characters, and a last
/// group of one or two bytes becomes two or three characters, its unused
/// low bits zero.
pub open spec fn base64url_encoded(bytes: Seq<u8>) -> Seq<char>
    decreases bytes.len(),
{
    if bytes.len() == 0 {
        seq![]
    } else {
        let a = bytes[0] as nat;
        let b = if bytes.len() > 1 { bytes[1] as nat } else { 0 };
        let c = if bytes.len() > 2 { bytes[2] as nat } else { 0 };
        let group = seq![
            base64url_char(a / 4),
            base64url_char((a % 4) * 16 + b / 16),
            base64url_char((b % 16) * 4 + c / 64),
            base64url_char(c % 64),
        ];
        if bytes.len() < 3 {
            group.take(bytes.len() + 1 as int)
        } else {
            group + base64url_encoded(bytes.subrange(3, bytes.len() as int))
        }
    }
}

/// What the `base64` crate's `URL_SAFE_NO_PAD` engine makes of `text`: the
/// bytes that it decodes, or the text (its `Display`) of the error with which
/// it refuses the text.
pub uninterp spec fn base64url_decoded(text: Seq<char>) -> Result<Seq<u8>, Seq<char>>;

/// Calls `base64::engine::general_purpose::URL_SAFE_NO_PAD.encode`, which
/// writes the unpadded base64url encoding of `bytes`. The engine's decoder,
/// which requires no padding and no trailing bits, accepts what the encoder
/// writes and gives back the bytes.
#[verifier::external_body]
pub(crate) fn base64url_encode(bytes: &[u8]) -> (r: String)
    ensures
        r@ == base64url_encoded(bytes@),
        base64url_decoded(r@) is Ok && base64url_decoded(r@)->Ok_0 == bytes@,
{
    base64::Engine::encode(&base64::engine::general_purpose::URL_SAFE_NO_PAD, bytes)
}

/// Calls `base64::engine::general_purpose::URL_SAFE_NO_PAD.decode` on the
/// bytes of `text`; where it fails, the error (a `base64::DecodeError`) is
/// handed back as its text.
#[verifier::external_body]
pub(crate) fn base64url_decode(text: &str) -> (r: Result<Vec<u8>, String>)
    ensures
        r is Ok <==> base64url_decoded(text@) is Ok,
        r matches Ok(v) ==> base64url_decoded(text@)->Ok_0 == v@,
        r matches Err(m) ==> base64url_decoded(text@)->Err_0 == m@,
{
    match base64::Engine::decode(&base64::engine::general_purpose::URL_SAFE_NO_PAD, text) {
        Ok(v) => Ok(v),
        Err(e) => Err(e.to_string()),
    }
}

/// The text of the `prio` codec error with which a task identifier is refused
/// that has `len` bytes (other than 32): reading 32 bytes from fewer fails
/// with an I/O error, and bytes beyond the 32 are reported as left over.
pub open spec fn task_id_decode_error(len: nat) -> Seq<char> {
    if len < 32 {
        "I/O error"@
    } else {
        crate::messages::decimal((len - 32) as nat) + " bytes left in buffer after decoding value"@
    }
}

/// Calls `<janus_messages::TaskId as prio::codec::Decode>::get_decoded`. Its
/// source reads exactly 32 bytes with `read_exact`, which fails with
/// `CodecError::Io` when fewer are given, and then fails with
/// `CodecError::BytesLeftOver` when bytes are left over; so it succeeds exactly
/// on inputs of 32 bytes, which become the identifier. The error is handed
/// back as its text (its `Display`, which the source gives by `thiserror`).
#[verifier::external_body]
pub(crate) fn janus_decode_task_id(bytes: &[u8]) -> (r: Result<crate::messages::TaskId, String>)
    ensures
        r is Ok <==> bytes@.len() == 32,
        r matches Ok(t) ==> t.0@ == bytes@,
        r matches Err(m) ==> m@ == task_id_decode_error(bytes@.len()),
{
    match <janus_messages::TaskId as prio::codec::Decode>::get_decoded(bytes) {
        Ok(t) => Ok(crate::messages::TaskId(*t.as_ref())),
        Err(e) => Err(e.to_string()),
    }
}

/// Calls `rand::random::<janus_messages::TaskId>()`: 32 random bytes.
#[verifier::external_body]
pub(crate) fn random_task_id() -> crate::messages::TaskId {
    let t: janus_messages::TaskId = rand::random();
    crate::messages::TaskId(*t.as_ref())
}

/// Calls `rand::random::<[u8; 16]>()` and returns the 16 random bytes.
#[verifier::external_body]
pub(crate) fn random_bytes_16() -> (r: Vec<u8>)
    ensures
        r@.len() == 16,
{
    rand::random::<[u8; 16]>().to_vec()
}

/// Calls `rand::random::<u16>()`; the value is random.
#[verifier::external_body]
pub(crate) fn random_u16() -> u16 {
    rand::random::<u16>()
}

} // verus!

verus! {

/// The HTTP client of `reqwest`, carried through unopened.
#[verifier::external_type_specification]
#[verifier::external_body]
pub struct ExReqwestClient(reqwest::Client);

/// Calls `reqwest::Client::new()`.
#[verifier::external_body]
pub(crate) fn new_http_client() -> reqwest::Client {
    reqwest::Client::new()
}

} // verus!
