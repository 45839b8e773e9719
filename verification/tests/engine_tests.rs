//! End-to-end tests with real keys and signatures: keyring loading,
//! signature verification with its error classes, early termination of the
//! slot search, and run aggregation.

use graph_data::keyring::{load_public_keys, KeyFile, Keyring, KeyringError};
use graph_data::report::{aggregate, outcome_of_search, Outcome, RunResult};
use graph_data::search::{FetchOutcome, SlotSearch};
use graph_data::signature::{verify_signature, VerifyError};

use pgp::composed::message::Message;
use pgp::composed::{KeyType, SecretKeyParamsBuilder, SignedPublicKey, SignedSecretKey};
use pgp::crypto::HashAlgorithm;
use pgp::ser::Serialize;
use pgp::types::SecretKeyTrait;
use pgp::Deserializable;

fn make_key(uid: &str) -> (SignedSecretKey, SignedPublicKey) {
    let mut builder = SecretKeyParamsBuilder::default();
    builder
        .key_type(KeyType::EdDSA)
        .can_sign(true)
        .can_create_certificates(true)
        .primary_user_id(uid.to_string());
    let params = builder.build().expect("key params");
    let secret = params.generate().expect("key generation");
    let signed_secret = secret.sign(String::new).expect("secret self-sign");
    let public = signed_secret
        .public_key()
        .sign(&signed_secret, String::new)
        .expect("public self-sign");
    public.verify().expect("generated key must self-verify");
    (signed_secret, public)
}

fn armored(key: &SignedPublicKey) -> Vec<u8> {
    key.to_armored_bytes(None).expect("armor")
}

fn keyring_of(keys: &[&SignedPublicKey]) -> Keyring {
    let files: Vec<KeyFile> = keys
        .iter()
        .enumerate()
        .map(|(i, k)| KeyFile { name: format!("key-{}.asc", i), data: armored(k) })
        .collect();
    load_public_keys(&files).expect("keyring must load")
}

fn signed_payload(sk: &SignedSecretKey, content: &str) -> Vec<u8> {
    let msg = Message::new_literal("signature", content);
    let signed = msg
        .sign(sk, String::new, HashAlgorithm::SHA2_256)
        .expect("signing");
    signed.to_bytes().expect("serialize message")
}

fn signed_artifact(sk: &SignedSecretKey, digest: &str) -> Vec<u8> {
    let json = format!(
        "{{\"critical\":{{\"image\":{{\"docker-manifest-digest\":\"{}\"}}}}}}",
        digest
    );
    signed_payload(sk, &json)
}

#[test]
fn keyring_loads_one_valid_key() {
    let (_, public) = make_key("one <one@example.com>");
    let files = vec![KeyFile { name: "one.asc".to_string(), data: armored(&public) }];
    let keyring = load_public_keys(&files).expect("load");
    assert_eq!(keyring.len(), 1);
}

#[test]
fn corrupt_key_file_fails_the_whole_load() {
    // One corrupt file is fatal, regardless of the valid keys around it.
    let (_, public) = make_key("two <two@example.com>");
    let files = vec![
        KeyFile { name: "good.asc".to_string(), data: armored(&public) },
        KeyFile { name: "bad.asc".to_string(), data: b"not a key at all".to_vec() },
    ];
    let err = match load_public_keys(&files) {
        Err(e) => e,
        Ok(_) => panic!("the load must fail"),
    };
    assert!(matches!(err, KeyringError::KeyParse { path } if path == "bad.asc"));
}

fn base64_of(data: &[u8]) -> String {
    let alphabet = b"ABCDEFGHIJKLMNOPQRSTUVWXYZabcdefghijklmnopqrstuvwxyz0123456789+/";
    let mut out = String::new();
    for chunk in data.chunks(3) {
        let b1 = *chunk.get(1).unwrap_or(&0);
        let b2 = *chunk.get(2).unwrap_or(&0);
        let n = ((chunk[0] as u32) << 16) | ((b1 as u32) << 8) | b2 as u32;
        out.push(alphabet[(n >> 18) as usize & 63] as char);
        out.push(alphabet[(n >> 12) as usize & 63] as char);
        out.push(if chunk.len() > 1 { alphabet[(n >> 6) as usize & 63] as char } else { '=' });
        out.push(if chunk.len() > 2 { alphabet[n as usize & 63] as char } else { '=' });
    }
    out
}

fn armored_block(packets: &[u8]) -> Vec<u8> {
    format!(
        "-----BEGIN PGP PUBLIC KEY BLOCK-----\n\n{}\n-----END PGP PUBLIC KEY BLOCK-----\n",
        base64_of(packets)
    )
    .into_bytes()
}

#[test]
fn legacy_version_key_is_rejected_at_parse() {
    // A version-3 key packet parses in pgp, but its key-id computation is
    // not total (here the RSA modulus is a single byte): the loader must
    // class such a file as a parse failure instead of admitting the key.
    let mut body: Vec<u8> = vec![3];
    body.extend_from_slice(&[0, 0, 0, 0]);
    body.extend_from_slice(&[0, 0]);
    body.push(1);
    body.extend_from_slice(&[0, 8, 0xff]);
    body.extend_from_slice(&[0, 3, 3]);
    let mut packet: Vec<u8> = vec![0x98, body.len() as u8];
    packet.extend_from_slice(&body);
    let data = armored_block(&packet);
    // pgp itself accepts this armored blob as a public key.
    assert!(
        pgp::composed::signed_key::SignedPublicKey::from_armor_single(
            std::io::Cursor::new(data.as_slice())
        )
        .is_ok()
    );
    let files = vec![KeyFile { name: "v3.asc".to_string(), data }];
    let err = match load_public_keys(&files) {
        Err(e) => e,
        Ok(_) => panic!("the load must fail"),
    };
    assert!(matches!(err, KeyringError::KeyParse { path } if path == "v3.asc"));
}

#[test]
fn key_failing_self_check_is_invalid_not_a_parse_error() {
    // A key whose binding signature was made by a different key parses
    // fine but fails self-verification: KeyInvalid, distinct from KeyParse.
    let (sk_a, _) = make_key("a <a@example.com>");
    let (sk_b, _) = make_key("b <b@example.com>");
    let forged = sk_a
        .public_key()
        .sign(&sk_b, String::new)
        .expect("cross-sign");
    let files = vec![KeyFile { name: "forged.asc".to_string(), data: armored(&forged) }];
    let err = match load_public_keys(&files) {
        Err(e) => e,
        Ok(_) => panic!("the load must fail"),
    };
    assert!(matches!(err, KeyringError::KeyInvalid { path } if path == "forged.asc"));
}

#[test]
fn valid_signature_with_expected_digest_verifies() {
    let (sk, pk) = make_key("sig <sig@example.com>");
    let keyring = keyring_of(&[&pk]);
    let body = signed_artifact(&sk, "sha256:abcd");
    let r = verify_signature(&keyring, &body, &"sha256:abcd".to_string());
    assert!(r.is_ok());
}

#[test]
fn any_key_in_the_ring_can_vouch() {
    // The scan tries every key in order; a signature by the second key
    // still verifies.
    let (_, pk_a) = make_key("first <first@example.com>");
    let (sk_b, pk_b) = make_key("second <second@example.com>");
    let keyring = keyring_of(&[&pk_a, &pk_b]);
    assert_eq!(keyring.len(), 2);
    let body = signed_artifact(&sk_b, "sha256:abcd");
    assert!(verify_signature(&keyring, &body, &"sha256:abcd".to_string()).is_ok());
}

#[test]
fn digest_mismatch_is_distinct_from_absence() {
    // A cryptographically valid signature for another digest is a
    // DigestMismatch carrying the found digest — not Malformed, not a
    // missing-signature class.
    let (sk, pk) = make_key("mis <mis@example.com>");
    let keyring = keyring_of(&[&pk]);
    let body = signed_artifact(&sk, "sha256:other");
    let err = verify_signature(&keyring, &body, &"sha256:abcd".to_string()).unwrap_err();
    assert!(matches!(err, VerifyError::DigestMismatch { found } if found == "sha256:other"));
}

#[test]
fn unknown_key_gives_no_matching_key() {
    let (sk, _) = make_key("signer <signer@example.com>");
    let (_, other) = make_key("other <other@example.com>");
    let keyring = keyring_of(&[&other]);
    let body = signed_artifact(&sk, "sha256:abcd");
    let err = verify_signature(&keyring, &body, &"sha256:abcd".to_string()).unwrap_err();
    assert!(matches!(err, VerifyError::NoMatchingKey));
}

#[test]
fn garbage_bytes_are_malformed() {
    let (_, pk) = make_key("g <g@example.com>");
    let keyring = keyring_of(&[&pk]);
    let err = verify_signature(&keyring, &b"garbage".to_vec(), &"sha256:abcd".to_string())
        .unwrap_err();
    assert!(matches!(err, VerifyError::Malformed));
}

#[test]
fn non_json_payload_is_malformed() {
    let (sk, pk) = make_key("nj <nj@example.com>");
    let keyring = keyring_of(&[&pk]);
    let body = signed_payload(&sk, "this is not json");
    let err = verify_signature(&keyring, &body, &"sha256:abcd".to_string()).unwrap_err();
    assert!(matches!(err, VerifyError::Malformed));
}

#[test]
fn missing_digest_field_is_malformed() {
    let (sk, pk) = make_key("md <md@example.com>");
    let keyring = keyring_of(&[&pk]);
    let body = signed_payload(&sk, "{\"critical\":{\"image\":{}}}");
    let err = verify_signature(&keyring, &body, &"sha256:abcd".to_string()).unwrap_err();
    assert!(matches!(err, VerifyError::Malformed));
}

fn encrypted_literal() -> Message {
    let mut rng = rand::thread_rng();
    let s2k = pgp::types::StringToKey::new_default(&mut rng);
    Message::new_literal("signature", "x")
        .encrypt_with_password(
            &mut rng,
            s2k,
            pgp::crypto::SymmetricKeyAlgorithm::AES128,
            || "password".to_string(),
        )
        .expect("encrypt")
}

#[test]
fn signed_message_without_readable_payload_is_empty() {
    // A validly signed message whose inner data carries no literal payload
    // is EmptyMessage, distinct from Malformed.
    let (sk, pk) = make_key("em <em@example.com>");
    let keyring = keyring_of(&[&pk]);
    let signed = encrypted_literal()
        .sign(&sk, String::new, HashAlgorithm::SHA2_256)
        .expect("signing");
    let body = signed.to_bytes().expect("serialize");
    let err = verify_signature(&keyring, &body, &"sha256:abcd".to_string()).unwrap_err();
    assert!(matches!(err, VerifyError::EmptyMessage));
}

#[test]
fn unsigned_artifact_is_malformed() {
    // A literal message that embeds the right digest but carries no
    // signature at all must not verify: it is not a signed message.
    let (_, pk) = make_key("ul <ul@example.com>");
    let keyring = keyring_of(&[&pk]);
    let json = "{\"critical\":{\"image\":{\"docker-manifest-digest\":\"sha256:abcd\"}}}";
    let body = Message::new_literal("signature", json).to_bytes().expect("serialize");
    let err = verify_signature(&keyring, &body, &"sha256:abcd".to_string()).unwrap_err();
    assert!(matches!(err, VerifyError::Malformed));
}

#[test]
fn bare_encrypted_artifact_is_malformed() {
    // An encrypted message without a signature is no signed artifact.
    let (_, pk) = make_key("be <be@example.com>");
    let keyring = keyring_of(&[&pk]);
    let body = encrypted_literal().to_bytes().expect("serialize");
    let err = verify_signature(&keyring, &body, &"sha256:abcd".to_string()).unwrap_err();
    assert!(matches!(err, VerifyError::Malformed));
}

#[test]
fn unframed_artifacts_are_malformed() {
    // Packet streams without explicit framing are rejected before they
    // reach the pgp parser: an old-format indeterminate-length packet and
    // a new-format partial-length packet.
    let (_, pk) = make_key("uf <uf@example.com>");
    let keyring = keyring_of(&[&pk]);
    let indeterminate = vec![0xb7u8];
    let err = verify_signature(&keyring, &indeterminate, &"sha256:abcd".to_string()).unwrap_err();
    assert!(matches!(err, VerifyError::Malformed));
    let partial = vec![0xcbu8, 0xe1, 0x00, 0x00];
    let err = verify_signature(&keyring, &partial, &"sha256:abcd".to_string()).unwrap_err();
    assert!(matches!(err, VerifyError::Malformed));
}

/// A store holding valid signatures at chosen (digest, slot) pairs; it
/// records every fetch it serves.
struct FakeStore {
    entries: Vec<(String, u64, Vec<u8>)>,
    log: Vec<(String, u64)>,
}

impl FakeStore {
    fn fetch(&mut self, digest: &str, slot: u64) -> FetchOutcome {
        self.log.push((digest.to_string(), slot));
        for (d, s, body) in &self.entries {
            if d == digest && *s == slot {
                return FetchOutcome::Fetched { body: body.clone() };
            }
        }
        FetchOutcome::NotFound
    }
}

fn search_release(
    keyring: &Keyring,
    store: &mut FakeStore,
    digest: &str,
    max_slots: u64,
) -> SlotSearch {
    let mut search = SlotSearch::new(digest.to_string(), max_slots);
    while !search.is_done() {
        let slot = search.current_slot();
        let outcome = store.fetch(digest, slot);
        search.step(keyring, outcome);
    }
    search
}

#[test]
fn early_termination_after_slot_three_verifies() {
    // Once slot 3 verifies, slots 4..=max are never fetched.
    let (sk, pk) = make_key("early <early@example.com>");
    let keyring = keyring_of(&[&pk]);
    let mut store = FakeStore {
        entries: vec![("sha256:abcd".to_string(), 3, signed_artifact(&sk, "sha256:abcd"))],
        log: Vec::new(),
    };
    let search = search_release(&keyring, &mut store, "sha256:abcd", 10);
    assert!(search.was_verified());
    let slots: Vec<u64> = store.log.iter().map(|(_, s)| *s).collect();
    assert_eq!(slots, vec![1, 2, 3]);
}

#[test]
fn run_aggregates_every_release_outcome() {
    // A verifies at slot 1, B exhausts, C verifies at slot 2: the run fails
    // with only B's detail, yet A and C were searched to completion.
    let (sk, pk) = make_key("agg <agg@example.com>");
    let keyring = keyring_of(&[&pk]);
    let mut store = FakeStore {
        entries: vec![
            ("sha256:aa".to_string(), 1, signed_artifact(&sk, "sha256:aa")),
            ("sha256:cc".to_string(), 2, signed_artifact(&sk, "sha256:cc")),
        ],
        log: Vec::new(),
    };
    let plan = vec![("1.0.0", "sha256:aa"), ("2.0.0", "sha256:bb"), ("3.0.0", "sha256:cc")];
    let mut outcomes = Vec::new();
    for (version, digest) in &plan {
        let search = search_release(&keyring, &mut store, digest, 2);
        outcomes.push(outcome_of_search(search, version.to_string()));
    }
    match aggregate(outcomes) {
        RunResult::Failed { failed } => {
            assert_eq!(failed.len(), 1);
            assert_eq!(failed[0].version, "2.0.0");
            match &failed[0].outcome {
                Outcome::Exhausted { failures } => assert_eq!(failures.len(), 2),
                Outcome::Verified => panic!("failed release cannot be verified"),
            }
        },
        RunResult::AllVerified => panic!("the run must fail"),
    }
    // Every release was searched: A once, B twice, C twice.
    let fetched: Vec<(String, u64)> = store.log.clone();
    assert_eq!(
        fetched,
        vec![
            ("sha256:aa".to_string(), 1),
            ("sha256:bb".to_string(), 1),
            ("sha256:bb".to_string(), 2),
            ("sha256:cc".to_string(), 1),
            ("sha256:cc".to_string(), 2),
        ]
    );
}
