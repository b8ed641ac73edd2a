use vstd::prelude::*;
use vstd::slice::slice_to_vec;
use vstd::string::StringExecFns;

use crate::crypto::{hmac_sha1, spec_hmac_sha1};
use crate::ctr::{ctr_xor, spec_ctr_xor};
use crate::dh::{shared_secret, spec_shared_secret};
use crate::config::ServiceConfig;
use crate::error::DiscoveryError;

verus! {

/// The credential value a successful pairing delivers: the only artifact that
/// outlives the handshake.
#[derive(Debug)]
pub struct Credentials {
    pub username: String,
    pub auth_data: Vec<u8>,
}

/// The identifier of the only encryption algorithm the pairing accepts.
pub open spec fn spec_algorithm() -> Seq<char> {
    "aes-128-ctr"@
}

/// The 8 big-endian bytes of a 64-bit value.
pub open spec fn spec_be64(x: u64) -> Seq<u8> {
    seq![
        ((x >> 56) & 0xff) as u8,
        ((x >> 48) & 0xff) as u8,
        ((x >> 40) & 0xff) as u8,
        ((x >> 32) & 0xff) as u8,
        ((x >> 24) & 0xff) as u8,
        ((x >> 16) & 0xff) as u8,
        ((x >> 8) & 0xff) as u8,
        (x & 0xff) as u8,
    ]
}

fn be64(x: u64) -> (r: Vec<u8>)
    ensures
        r@ == spec_be64(x),
{
    proof {
        assert(((x >> 56) & 0xff) <= 0xff) by (bit_vector);
        assert(((x >> 48) & 0xff) <= 0xff) by (bit_vector);
        assert(((x >> 40) & 0xff) <= 0xff) by (bit_vector);
        assert(((x >> 32) & 0xff) <= 0xff) by (bit_vector);
        assert(((x >> 24) & 0xff) <= 0xff) by (bit_vector);
        assert(((x >> 16) & 0xff) <= 0xff) by (bit_vector);
        assert(((x >> 8) & 0xff) <= 0xff) by (bit_vector);
        assert((x & 0xff) <= 0xff) by (bit_vector);
    }
    let mut v: Vec<u8> = Vec::new();
    v.push(((x >> 56) & 0xff) as u8);
    v.push(((x >> 48) & 0xff) as u8);
    v.push(((x >> 40) & 0xff) as u8);
    v.push(((x >> 32) & 0xff) as u8);
    v.push(((x >> 24) & 0xff) as u8);
    v.push(((x >> 16) & 0xff) as u8);
    v.push(((x >> 8) & 0xff) as u8);
    v.push((x & 0xff) as u8);
    proof {
        assert(v@ =~= spec_be64(x));
    }
    v
}

/// The label mixed in when deriving the encryption key.
pub open spec fn spec_label_encryption() -> Seq<u8> {
    seq![101u8, 110u8, 99u8, 114u8, 121u8, 112u8, 116u8, 105u8, 111u8, 110u8]
}

/// The label mixed in when deriving the checksum key.
pub open spec fn spec_label_checksum() -> Seq<u8> {
    seq![99u8, 104u8, 101u8, 99u8, 107u8, 115u8, 117u8, 109u8]
}

/// The secret both sides of one pairing attempt agree on, as a 64-bit value.
pub open spec fn spec_pair_secret(private: u64, peer_public: u64) -> u64 {
    spec_shared_secret(private, peer_public) as u64
}

/// The base key: the shared secret keyed-hashed with the device identifier,
/// so that derived keys are bound to the device being paired.
pub open spec fn spec_base_key(secret: u64, device_id: Seq<u8>) -> Seq<u8> {
    spec_hmac_sha1(spec_be64(secret), device_id)
}

/// The 16-byte encryption key derived for one pairing attempt.
pub open spec fn spec_enc_key(secret: u64, device_id: Seq<u8>) -> Seq<u8> {
    spec_hmac_sha1(spec_base_key(secret, device_id), spec_label_encryption()).take(16)
}

/// The 20-byte authentication key derived for one pairing attempt.
pub open spec fn spec_mac_key(secret: u64, device_id: Seq<u8>) -> Seq<u8> {
    spec_hmac_sha1(spec_base_key(secret, device_id), spec_label_checksum())
}

/// Derives the encryption key and the authentication key from the shared
/// secret and the device identifier: keyed-hash expansion, split into the
/// two keys.
pub fn derive_keys(secret: u64, device_id: &[u8]) -> (r: (Vec<u8>, Vec<u8>))
    ensures
        r.0@ == spec_enc_key(secret, device_id@),
        r.0@.len() == 16,
        r.1@ == spec_mac_key(secret, device_id@),
        r.1@.len() == 20,
{
    let secret_bytes = be64(secret);
    let base_key = hmac_sha1(secret_bytes.as_slice(), device_id);

    let label_enc: [u8; 10] = [101u8, 110u8, 99u8, 114u8, 121u8, 112u8, 116u8, 105u8, 111u8,
        110u8];
    proof {
        assert(label_enc@ =~= spec_label_encryption());
    }
    let mut enc_key = hmac_sha1(base_key.as_slice(), label_enc.as_slice());
    enc_key.truncate(16);
    proof {
        assert(enc_key@ =~= spec_enc_key(secret, device_id@));
    }

    let label_ck: [u8; 8] = [99u8, 104u8, 101u8, 99u8, 107u8, 115u8, 117u8, 109u8];
    proof {
        assert(label_ck@ =~= spec_label_checksum());
    }
    let mac_key = hmac_sha1(base_key.as_slice(), label_ck.as_slice());
    (enc_key, mac_key)
}

/// One peer's pairing submission: its public key, the algorithm it used, the
/// encrypted credential blob with its authentication tag, and the cleartext
/// length of the checksum field inside the plaintext.
pub struct PairingRequest {
    pub username: String,
    pub algorithm: String,
    pub client_public: u64,
    pub nonce: Vec<u8>,
    pub ciphertext: Vec<u8>,
    pub tag: Vec<u8>,
    pub checksum_len: usize,
}

impl PairingRequest {
    /// The size and length fields a blob must satisfy before any
    /// cryptographic work is done on it.
    pub open spec fn spec_sizes_ok(&self) -> bool {
        &&& self.nonce@.len() == 12
        &&& self.checksum_len <= 20
        &&& self.checksum_len <= self.ciphertext@.len()
        &&& self.ciphertext@.len() < 0x1000_0000
    }
}

/// The plaintext a request decrypts to under the keys derived for it.
pub open spec fn spec_request_plaintext(
    device_id: Seq<u8>,
    session_private: u64,
    req: PairingRequest,
) -> Seq<u8> {
    let secret = spec_pair_secret(session_private, req.client_public);
    spec_ctr_xor(spec_enc_key(secret, device_id), req.nonce@, req.ciphertext@)
}

/// What `process_pairing` returns for a given request: each outcome, if and
/// only if its condition, in the order the checks run.
pub open spec fn spec_pairing_post(
    device_id: Seq<u8>,
    session_private: u64,
    req: PairingRequest,
    r: Result<Credentials, DiscoveryError>,
) -> bool {
    let secret = spec_pair_secret(session_private, req.client_public);
    let mk = spec_mac_key(secret, device_id);
    let pt = spec_request_plaintext(device_id, session_private, req);
    let n = req.checksum_len as int;
    let payload = pt.skip(n);
    if req.algorithm@ != spec_algorithm() {
        r matches Err(DiscoveryError::ParamsError(p)) && p@ == "algorithm"@
    } else if !req.spec_sizes_ok() {
        r matches Err(DiscoveryError::ParamsError(p)) && p@ == "blob"@
    } else if req.tag@ != spec_hmac_sha1(mk, req.ciphertext@) {
        r matches Err(DiscoveryError::HmacError(t)) && t@ == req.tag@
    } else if pt.take(n) != spec_hmac_sha1(mk, payload).take(n) {
        r matches Err(DiscoveryError::HmacError(t)) && t@ == pt.take(n)
    } else {
        r matches Ok(c) && c.username@ == req.username@ && c.auth_data@ == payload
    }
}

/// Runs one pairing attempt: agree on the shared secret, derive the keys,
/// verify the authentication tag, and only then decrypt and check the
/// checksum — never decrypt before verifying.
///
/// Success is owed exactly to the well-formed requests whose tag matches the
/// recomputed tag and whose checksum field matches the recomputed checksum;
/// every rejection names the failing check.
pub fn process_pairing(
    device_id: &[u8],
    session_private: u64,
    req: &PairingRequest,
) -> (r: Result<Credentials, DiscoveryError>)
    ensures
        spec_pairing_post(device_id@, session_private, *req, r),
{
    if !(req.algorithm == String::from_str("aes-128-ctr")) {
        return Err(DiscoveryError::ParamsError(String::from_str("algorithm")));
    }
    if !(req.nonce.len() == 12 && req.checksum_len <= 20 && req.checksum_len
        <= req.ciphertext.len() && req.ciphertext.len() < 0x1000_0000) {
        return Err(DiscoveryError::ParamsError(String::from_str("blob")));
    }
    let secret = shared_secret(session_private, req.client_public);
    proof {
        assert(secret == spec_pair_secret(session_private, req.client_public));
    }
    let keys = derive_keys(secret, device_id);
    let enc_key = keys.0;
    let mac_key = keys.1;

    let expected_tag = hmac_sha1(mac_key.as_slice(), req.ciphertext.as_slice());
    if !(expected_tag == req.tag) {
        return Err(DiscoveryError::HmacError(slice_to_vec(req.tag.as_slice())));
    }
    proof {
        assert(req.tag@ =~= expected_tag@);
    }

    let mut plaintext = ctr_xor(enc_key.as_slice(), req.nonce.as_slice(), req.ciphertext.as_slice());
    let payload = plaintext.split_off(req.checksum_len);
    // plaintext now holds only the checksum field
    let mut expected_ck = hmac_sha1(mac_key.as_slice(), payload.as_slice());
    expected_ck.truncate(req.checksum_len);
    if !(expected_ck == plaintext) {
        return Err(DiscoveryError::HmacError(plaintext));
    }
    proof {
        assert(plaintext@ =~= expected_ck@);
    }
    Ok(Credentials { username: req.username.clone(), auth_data: payload })
}

/// What `seal_credentials` builds: the request's fields in terms of the keys
/// derived on the peer's side.
pub open spec fn spec_seal_post(
    device_id: Seq<u8>,
    peer_private: u64,
    device_public: u64,
    username: Seq<char>,
    nonce: Seq<u8>,
    checksum_len: usize,
    payload: Seq<u8>,
    req: PairingRequest,
) -> bool {
    let secret = spec_pair_secret(peer_private, device_public);
    let ek = spec_enc_key(secret, device_id);
    let mk = spec_mac_key(secret, device_id);
    let pt = spec_hmac_sha1(mk, payload).take(checksum_len as int) + payload;
    &&& req.username@ == username
    &&& req.algorithm@ == spec_algorithm()
    &&& req.client_public == crate::dh::spec_public_key(peer_private) as u64
    &&& req.nonce@ == nonce
    &&& req.ciphertext@ == spec_ctr_xor(ek, nonce, pt)
    &&& req.tag@ == spec_hmac_sha1(mk, spec_ctr_xor(ek, nonce, pt))
    &&& req.checksum_len == checksum_len
}

/// Builds the peer's side of the pairing: encrypts `payload` under the keys
/// derived from the peer's own private exponent and the device's public key,
/// prefixing the plaintext with a `checksum_len`-byte checksum and tagging
/// the ciphertext.
pub fn seal_credentials(
    device_id: &[u8],
    peer_private: u64,
    device_public: u64,
    username: &str,
    nonce: &[u8],
    checksum_len: usize,
    payload: &[u8],
) -> (req: PairingRequest)
    requires
        nonce@.len() == 12,
        checksum_len <= 20,
        payload@.len() + 20 < 0x1000_0000,
    ensures
        spec_seal_post(
            device_id@,
            peer_private,
            device_public,
            username@,
            nonce@,
            checksum_len,
            payload@,
            req,
        ),
{
    let secret = shared_secret(peer_private, device_public);
    let keys = derive_keys(secret, device_id);
    let enc_key = keys.0;
    let mac_key = keys.1;

    let mut plaintext = hmac_sha1(mac_key.as_slice(), payload);
    plaintext.truncate(checksum_len);
    let mut rest = slice_to_vec(payload);
    plaintext.append(&mut rest);

    let ciphertext = ctr_xor(enc_key.as_slice(), nonce, plaintext.as_slice());
    let tag = hmac_sha1(mac_key.as_slice(), ciphertext.as_slice());

    PairingRequest {
        username: String::from_str(username),
        algorithm: String::from_str("aes-128-ctr"),
        client_public: crate::dh::public_key(peer_private),
        nonce: slice_to_vec(nonce),
        ciphertext,
        tag,
        checksum_len,
    }
}

/// Verify-then-decrypt: a well-formed request whose authentication tag does
/// not match the tag recomputed under the derived authentication key is
/// rejected as an authentication failure, and no decryption output of it is
/// ever returned.
pub proof fn lemma_verify_before_decrypt(
    device_id: Seq<u8>,
    session_private: u64,
    req: PairingRequest,
    r: Result<Credentials, DiscoveryError>,
)
    requires
        spec_pairing_post(device_id, session_private, req, r),
        req.algorithm@ == spec_algorithm(),
        req.spec_sizes_ok(),
        req.tag@ != spec_hmac_sha1(
            spec_mac_key(spec_pair_secret(session_private, req.client_public), device_id),
            req.ciphertext@,
        ),
    ensures
        r matches Err(DiscoveryError::HmacError(t)) && t@ == req.tag@,
{
}

/// Round trip: a request sealed by the peer against the device's public key
/// is accepted by the device's side of the pairing, and decrypts to exactly
/// the payload the peer encrypted.
pub proof fn lemma_pairing_round_trip(
    device_id: Seq<u8>,
    device_private: u64,
    peer_private: u64,
    username: Seq<char>,
    nonce: Seq<u8>,
    checksum_len: usize,
    payload: Seq<u8>,
    req: PairingRequest,
    r: Result<Credentials, DiscoveryError>,
)
    requires
        nonce.len() == 12,
        checksum_len <= 20,
        payload.len() + 20 < 0x1000_0000,
        spec_seal_post(
            device_id,
            peer_private,
            crate::dh::spec_public_key(device_private) as u64,
            username,
            nonce,
            checksum_len,
            payload,
            req,
        ),
        spec_pairing_post(device_id, device_private, req, r),
    ensures
        r matches Ok(c) && c.username@ == username && c.auth_data@ == payload,
{
    let device_public = crate::dh::spec_public_key(device_private) as u64;
    crate::dh::lemma_shared_secret_agreement(device_private, peer_private);
    let secret_peer = spec_pair_secret(peer_private, device_public);
    let secret_dev = spec_pair_secret(device_private, req.client_public);
    assert(secret_dev == secret_peer);
    let ek = spec_enc_key(secret_peer, device_id);
    let mk = spec_mac_key(secret_peer, device_id);
    let n = checksum_len as int;
    let sealed_pt = spec_hmac_sha1(mk, payload).take(n) + payload;
    crate::ctr::lemma_ctr_xor_involution(ek, nonce, sealed_pt);
    let pt = spec_request_plaintext(device_id, device_private, req);
    assert(pt == sealed_pt);
    assert(pt.take(n) =~= spec_hmac_sha1(mk, payload).take(n));
    assert(pt.skip(n) =~= payload);
    assert(req.spec_sizes_ok());
}

/// What the device answers to any peer's info request: its announced
/// metadata, the listener's bound port, the protocol version, and a freshly
/// minted public key for this request. Nothing is mutated; the request may
/// be repeated and run concurrently.
pub struct InfoResponse {
    pub name: String,
    pub device_id: String,
    pub client_id: String,
    pub device_type_code: u8,
    pub is_group: bool,
    pub version: String,
    pub public_key: u64,
    pub port: u16,
}

/// Builds the info response for one request from the announced
/// configuration, the listener's bound port, and this request's fresh
/// session public key.
pub fn info_response(config: &ServiceConfig, port: u16, session_public: u64) -> (r: InfoResponse)
    ensures
        r.name@ == config.name@,
        r.device_id@ == config.device_id@,
        r.client_id@ == config.client_id@,
        r.device_type_code == crate::config::spec_device_type_code(config.device_type),
        r.is_group == config.is_group,
        r.version@ == "1.0"@,
        r.public_key == session_public,
        r.port == port,
{
    InfoResponse {
        name: config.name.clone(),
        device_id: config.device_id.clone(),
        client_id: config.client_id.clone(),
        device_type_code: config.device_type.code(),
        is_group: config.is_group,
        version: String::from_str("1.0"),
        public_key: session_public,
        port,
    }
}

} // verus!
