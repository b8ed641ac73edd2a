use spotipi::config::Builder;
use spotipi::dh::{public_key, shared_secret};
use spotipi::error::{DiscoveryError, Error, ErrorKind};
use spotipi::events::{DiscoveryEvent, EventMerge};
use spotipi::handshake::{
    derive_keys, info_response, process_pairing, seal_credentials, PairingRequest,
};

use aes::cipher::{BlockEncrypt, KeyInit};
use hmac::Mac;

fn device_pair() -> (u64, u64) {
    // the device's ephemeral exponent and the peer's
    (0x1234_5678_9abc_def0, 0x0fed_cba9_8765_4321)
}

#[test]
fn shared_secret_agrees_on_both_sides() {
    let (a, b) = device_pair();
    let secret_one = shared_secret(a, public_key(b));
    let secret_two = shared_secret(b, public_key(a));
    assert_eq!(secret_one, secret_two);
}

#[test]
fn shared_secret_small_exponents_exact() {
    // generator 2: public key of 3 is 8, and 2^15 = 32768 stays far below the modulus
    assert_eq!(public_key(3), 8);
    assert_eq!(shared_secret(5, public_key(3)), 32768);
    assert_eq!(shared_secret(3, public_key(5)), 32768);
}

fn sealed_request(payload: &[u8]) -> (Vec<u8>, u64, PairingRequest) {
    let (device_private, peer_private) = device_pair();
    let device_id = b"test-device-id".to_vec();
    let nonce = [7u8; 12];
    let req = seal_credentials(
        &device_id,
        peer_private,
        public_key(device_private),
        "alice",
        &nonce,
        20,
        payload,
    );
    (device_id, device_private, req)
}

#[test]
fn pairing_round_trip_delivers_payload() {
    let payload = b"credential-blob-payload";
    let (device_id, device_private, req) = sealed_request(payload);
    let creds = process_pairing(&device_id, device_private, &req).expect("pairing should succeed");
    assert_eq!(creds.username, "alice");
    assert_eq!(creds.auth_data, payload.to_vec());
}

#[test]
fn tampered_tag_is_rejected() {
    let payload = b"credential-blob-payload";
    let (device_id, device_private, mut req) = sealed_request(payload);
    req.tag[3] ^= 0x01;
    match process_pairing(&device_id, device_private, &req) {
        Err(DiscoveryError::HmacError(t)) => assert_eq!(t, req.tag),
        other => panic!("expected an authentication failure, got {:?}", other.is_ok()),
    }
}

#[test]
fn tampered_ciphertext_is_rejected_before_decryption() {
    let payload = b"credential-blob-payload";
    let (device_id, device_private, mut req) = sealed_request(payload);
    let last = req.ciphertext.len() - 1;
    req.ciphertext[last] ^= 0x80;
    match process_pairing(&device_id, device_private, &req) {
        Err(DiscoveryError::HmacError(_)) => {},
        other => panic!("expected an authentication failure, got {:?}", other.is_ok()),
    }
}

#[test]
fn every_single_bit_flip_of_the_tag_is_rejected() {
    let payload = b"short";
    let (device_id, device_private, req) = sealed_request(payload);
    for byte in 0..req.tag.len() {
        for bit in 0..8 {
            let mut tampered = PairingRequest {
                username: req.username.clone(),
                algorithm: req.algorithm.clone(),
                client_public: req.client_public,
                nonce: req.nonce.clone(),
                ciphertext: req.ciphertext.clone(),
                tag: req.tag.clone(),
                checksum_len: req.checksum_len,
            };
            tampered.tag[byte] ^= 1u8 << bit;
            assert!(process_pairing(&device_id, device_private, &tampered).is_err());
        }
    }
}

#[test]
fn wrong_algorithm_is_rejected_as_params_error() {
    let payload = b"credential-blob-payload";
    let (device_id, device_private, mut req) = sealed_request(payload);
    req.algorithm = "aes-256-gcm".to_owned();
    match process_pairing(&device_id, device_private, &req) {
        Err(DiscoveryError::ParamsError(p)) => assert_eq!(p, "algorithm"),
        other => panic!("expected a parameter rejection, got {:?}", other.is_ok()),
    }
}

#[test]
fn malformed_nonce_is_rejected_as_params_error() {
    let payload = b"credential-blob-payload";
    let (device_id, device_private, mut req) = sealed_request(payload);
    req.nonce.pop();
    match process_pairing(&device_id, device_private, &req) {
        Err(DiscoveryError::ParamsError(p)) => assert_eq!(p, "blob"),
        other => panic!("expected a parameter rejection, got {:?}", other.is_ok()),
    }
}

#[test]
fn corrupted_checksum_is_rejected_after_tag_passes() {
    // build a request whose tag is valid for a ciphertext that decrypts to a
    // plaintext with a broken checksum field
    let (device_private, peer_private) = device_pair();
    let device_id = b"test-device-id".to_vec();
    let nonce = [9u8; 12];
    let payload = b"payload-bytes";
    let mut req = seal_credentials(
        &device_id,
        peer_private,
        public_key(device_private),
        "alice",
        &nonce,
        20,
        payload,
    );
    // flip a bit inside the encrypted checksum field, then re-tag the
    // ciphertext with the true authentication key so the tag check passes
    req.ciphertext[0] ^= 0x01;
    let secret = shared_secret(peer_private, public_key(device_private));
    let (_enc_key, mac_key) = derive_keys(secret, &device_id);
    req.tag = hmac_sha1_direct(&mac_key, &req.ciphertext);
    match process_pairing(&device_id, device_private, &req) {
        Err(DiscoveryError::HmacError(_)) => {},
        other => panic!("expected a checksum rejection, got {:?}", other.is_ok()),
    }
}

/// HMAC-SHA1 computed with the outside crates directly, to hold the library
/// to the real primitive.
fn hmac_sha1_direct(key: &[u8], msg: &[u8]) -> Vec<u8> {
    let mut mac = <hmac::Hmac<sha1::Sha1> as hmac::Mac>::new_from_slice(key).unwrap();
    mac.update(msg);
    mac.finalize().into_bytes().to_vec()
}

/// AES-128 counter-mode keystream computed with the outside crate directly.
fn ctr_xor_direct(key: &[u8], nonce: &[u8], data: &[u8]) -> Vec<u8> {
    let cipher = aes::Aes128::new_from_slice(key).unwrap();
    let mut out = Vec::new();
    for (i, b) in data.iter().enumerate() {
        let counter = (i / 16) as u32;
        let mut block = [0u8; 16];
        block[..12].copy_from_slice(nonce);
        block[12..].copy_from_slice(&counter.to_be_bytes());
        let mut ga = aes::cipher::generic_array::GenericArray::clone_from_slice(&block);
        cipher.encrypt_block(&mut ga);
        out.push(b ^ ga[i % 16]);
    }
    out
}

#[test]
fn pairing_interoperates_with_directly_computed_blob() {
    // the peer's side built here with the outside crates alone; if the
    // library's trusted primitives returned anything but real HMAC-SHA1 and
    // AES-128, this cross-implementation pairing would fail
    let (device_private, peer_private) = device_pair();
    let device_id = b"test-device-id".to_vec();
    let nonce = [3u8; 12];
    let payload = b"independent payload";
    let checksum_len = 12usize;

    let secret = shared_secret(peer_private, public_key(device_private));
    let base_key = hmac_sha1_direct(&secret.to_be_bytes(), &device_id);
    let enc_key = hmac_sha1_direct(&base_key, b"encryption")[..16].to_vec();
    let mac_key = hmac_sha1_direct(&base_key, b"checksum");

    let mut plaintext = hmac_sha1_direct(&mac_key, payload)[..checksum_len].to_vec();
    plaintext.extend_from_slice(payload);
    let ciphertext = ctr_xor_direct(&enc_key, &nonce, &plaintext);
    let tag = hmac_sha1_direct(&mac_key, &ciphertext);

    let req = PairingRequest {
        username: "bob".to_owned(),
        algorithm: "aes-128-ctr".to_owned(),
        client_public: public_key(peer_private),
        nonce: nonce.to_vec(),
        ciphertext,
        tag,
        checksum_len,
    };
    let creds = process_pairing(&device_id, device_private, &req).expect("pairing should succeed");
    assert_eq!(creds.username, "bob");
    assert_eq!(creds.auth_data, payload.to_vec());
}

#[test]
fn launch_scenario_info_then_tampered_then_valid_pairing() {
    // launch with name "TestDevice" and port 0; the listener reports its
    // bound port once bound
    let builder = Builder::new("test-device-id", "client-1").name("TestDevice").port(0);
    let bound_port = 40123u16;
    let (device_private, peer_private) = device_pair();

    // info request: the response carries the configured name and the bound port
    let info = info_response(&builder.server_config, bound_port, public_key(device_private));
    assert_eq!(info.name, "TestDevice");
    assert_eq!(info.port, bound_port);
    assert_eq!(info.version, "1.0");

    let mut merge = EventMerge::new();

    // a pairing request with a tampered tag: a per-request rejection of kind
    // invalid argument, and the stream stays open
    let device_id = b"test-device-id".to_vec();
    let nonce = [1u8; 12];
    let payload = b"the plaintext credentials";
    let mut tampered = seal_credentials(
        &device_id,
        peer_private,
        info.public_key,
        "alice",
        &nonce,
        20,
        payload,
    );
    tampered.tag[0] ^= 0x10;
    let err = process_pairing(&device_id, device_private, &tampered).unwrap_err();
    let classified: Error = err.into();
    assert_eq!(classified.kind, ErrorKind::InvalidArgument);
    // a per-request rejection is not fed into the stream; it stays live

    // a correctly constructed request: exactly one credentials event whose
    // payload matches the plaintext that was encrypted
    let good = seal_credentials(
        &device_id,
        peer_private,
        info.public_key,
        "alice",
        &nonce,
        20,
        payload,
    );
    let creds = process_pairing(&device_id, device_private, &good).unwrap();
    let delivered = merge.on_event(DiscoveryEvent::Credentials(creds));
    let delivered = delivered.expect("the stream should deliver the credentials");
    assert_eq!(delivered.auth_data, payload.to_vec());
    assert_eq!(delivered.username, "alice");
}
