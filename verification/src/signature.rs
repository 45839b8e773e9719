//! The signature verifier: parses a fetched artifact as a signed message,
//! scans the keyring for a key that validates it, decodes the signed JSON
//! payload and cross-checks the embedded digest against the expected one.
//! Pure computation over the provided bytes; no I/O happens here.
//!
//! Untrusted store bytes only reach the pgp parser after the verified
//! framing check of `crate::framing`, which rules out the one input class
//! on which that parser aborts the process, and only artifacts that are
//! signed messages proper are accepted: pgp's `Message::verify` waves
//! through messages that carry no signature at all, so unsigned, compressed
//! and encrypted artifacts are classed as malformed here instead of being
//! handed to it.

use vstd::prelude::*;

use crate::framing::{check_packet_framing, framed_packets, MESSAGE_PACKET_LIMIT};
use crate::keyring::{v4_key, Keyring};
use pgp::composed::message::Message;
use pgp::composed::signed_key::SignedPublicKey;
use pgp::Deserializable;

verus! {

#[verifier::external_type_specification]
#[verifier::external_body]
pub struct ExMessage(Message);

/// Holds of the `Message` values that `parse_message` hands out: the
/// message is pgp's `Message::Signed` variant, so a signature packet is
/// present and verifying or reading it never decompresses and re-parses
/// nested data.
pub uninterp spec fn signed_message(m: Message) -> bool;

/// What `parse_message` yields on `bytes`: `None` when the bytes are not a
/// well-formed message or the message carries no signature. The outcome
/// depends on the bytes alone.
pub uninterp spec fn parsed_message(bytes: Seq<u8>) -> Option<Message>;

/// Relies on pgp's `Message::from_bytes` to parse the artifact. Only a
/// `Message::Signed` result is kept: a literal, compressed or encrypted
/// top-level message is no signed artifact (and pgp's `Message::verify`
/// would accept the unsigned ones without checking anything). The framing
/// precondition keeps the bytes away from the parser's zero-length
/// assertion, and its packet cap bounds the parser's recursion.
#[verifier::external_body]
fn parse_message(bytes: &Vec<u8>) -> (r: Option<Message>)
    requires
        framed_packets(bytes@, MESSAGE_PACKET_LIMIT as nat),
    ensures
        (match parsed_message(bytes@) {
            Some(m) => r matches Some(m2) && m2 == m && signed_message(m),
            None => r is None,
        }),
{
    match Message::from_bytes(std::io::Cursor::new(bytes.as_slice())) {
        Ok(m @ Message::Signed { .. }) => Some(m),
        Ok(_) => None,
        Err(_) => None,
    }
}

/// Whether `key` validates the signature of `m`; pgp's `Message::verify` is
/// a pure check, so the outcome depends on the message and the key alone.
/// For a signed message it verifies the signature packet against the key;
/// the precondition keeps out the variants it would wave through unchecked,
/// and the one (compressed) whose verification re-parses undecompressed
/// bytes.
pub uninterp spec fn message_accepted_by(m: Message, key: SignedPublicKey) -> bool;

/// Relies on pgp's `Message::verify` for the signature check against one
/// key. The key precondition matters: checking a signature evaluates the
/// key's id, which pgp computes totally only for version-4 keys — the only
/// shape the keyring admits.
#[verifier::external_body]
fn message_verified_by(m: &Message, key: &SignedPublicKey) -> (r: bool)
    requires
        signed_message(*m),
        v4_key(*key),
    ensures
        r == message_accepted_by(*m, *key),
{
    m.verify(key).is_ok()
}

/// The payload carried by `m`: `Err` when pgp cannot read it, `Ok(None)`
/// when the message carries no literal data. Depends on the message alone.
pub uninterp spec fn message_content(m: Message) -> Result<Option<Seq<u8>>, ()>;

/// Relies on pgp's `Message::get_content` to read the signed payload; for a
/// signed message this walks the parsed structure without decompressing
/// anything.
#[verifier::external_body]
fn read_message_content(m: &Message) -> (r: Result<Option<Vec<u8>>, ()>)
    requires
        signed_message(*m),
    ensures
        (match message_content(*m) {
            Result::Ok(Some(c)) => r matches Ok(Some(v)) && v@ == c,
            Result::Ok(None) => r matches Ok(o) && o is None,
            Result::Err(_) => r is Err,
        }),
{
    match m.get_content() {
        Ok(c) => Ok(c),
        Err(_) => Err(()),
    }
}

/// The string at JSON pointer `pointer` in the value encoded by `bytes`:
/// `None` when the bytes are not JSON, the pointer misses, or the value
/// there is not a string. Depends on the arguments alone.
pub uninterp spec fn json_string_at(bytes: Seq<u8>, pointer: Seq<char>) -> Option<Seq<char>>;

/// Relies on serde_json: `from_slice` decodes `bytes`, `Value::pointer`
/// walks to `pointer`, and `Value::as_str` reads the string found there.
#[verifier::external_body]
fn read_json_string(bytes: &Vec<u8>, pointer: &str) -> (r: Option<String>)
    ensures
        (match json_string_at(bytes@, pointer@) {
            Some(d) => r matches Some(s) && s@ == d,
            None => r is None,
        }),
{
    let value: serde_json::Value = match serde_json::from_slice(bytes.as_slice()) {
        Ok(v) => v,
        Err(_) => return None,
    };
    match value.pointer(pointer) {
        Some(d) => match d.as_str() {
            Some(s) => Some(s.to_string()),
            None => None,
        },
        None => None,
    }
}

/// Where the signed metadata keeps the digest: nested under
/// `critical.image.docker-manifest-digest`, per the store convention.
pub open spec fn json_digest(bytes: Seq<u8>) -> Option<Seq<char>> {
    json_string_at(bytes, "/critical/image/docker-manifest-digest"@)
}

#[derive(Debug)]
pub enum VerifyError {
    /// The artifact is not framed as a signed message, its payload cannot
    /// be read as JSON, or the digest field is missing.
    Malformed,
    /// No key in the keyring validates the message's signature.
    NoMatchingKey,
    /// The message carries no payload at all.
    EmptyMessage,
    /// The signature is cryptographically valid but vouches for a different
    /// digest: a more severe failure class than a missing signature.
    DigestMismatch { found: String },
}

/// Whether some key of the keyring validates the message, scanned in order.
pub open spec fn keyring_accepts(keys: Seq<SignedPublicKey>, m: Message) -> bool {
    exists|i: int| 0 <= i < keys.len() && message_accepted_by(m, keys[i])
}

/// The whole verification decision, as a relation between the inputs and the
/// result `r`: exactly one error class fits any given artifact, and `Ok`
/// means a validated signature whose embedded digest equals the expected
/// one. An artifact framed with streamed (partial) packet lengths is classed
/// `Malformed` by the leading framing condition — a deliberate restriction
/// to explicit lengths, slightly wider than the unsafe input class it
/// excludes; signature stores serve explicitly framed artifacts.
pub open spec fn verify_result_matches(
    keys: Seq<SignedPublicKey>,
    bytes: Seq<u8>,
    expected: Seq<char>,
    r: Result<(), VerifyError>,
) -> bool {
    if !framed_packets(bytes, MESSAGE_PACKET_LIMIT as nat) {
        r matches Err(e) && e is Malformed
    } else {
        match parsed_message(bytes) {
            None => r matches Err(e) && e is Malformed,
            Some(m) => if !keyring_accepts(keys, m) {
                r matches Err(e) && e is NoMatchingKey
            } else {
                match message_content(m) {
                    Result::Err(_) => r matches Err(e) && e is Malformed,
                    Result::Ok(None) => r matches Err(e) && e is EmptyMessage,
                    Result::Ok(Some(c)) => match json_digest(c) {
                        None => r matches Err(e) && e is Malformed,
                        Some(d) => if d == expected {
                            r is Ok
                        } else {
                            r matches Err(e) && e matches VerifyError::DigestMismatch { found }
                                && found@ == d
                        },
                    },
                }
            },
        }
    }
}

/// The success case of the decision above: a well-framed, signed message
/// that some key validates, whose payload holds exactly the expected
/// digest.
pub open spec fn verify_ok(keys: Seq<SignedPublicKey>, bytes: Seq<u8>, expected: Seq<char>) -> bool {
    &&& framed_packets(bytes, MESSAGE_PACKET_LIMIT as nat)
    &&& parsed_message(bytes) matches Some(m)
    &&& keyring_accepts(keys, m)
    &&& message_content(m) matches Result::Ok(Some(c))
    &&& json_digest(c) matches Some(d)
    &&& d == expected
}

/// First-match-wins scan of the keyring.
fn any_key_accepts(keyring: &Keyring, m: &Message) -> (r: bool)
    requires
        signed_message(*m),
    ensures
        r == keyring_accepts(keyring@, *m),
{
    proof {
        use_type_invariant(keyring);
    }
    let n: usize = keyring.len();
    let mut i: usize = 0;
    while i < n
        invariant
            0 <= i <= n,
            n == keyring@.len(),
            keyring.wf(),
            signed_message(*m),
            forall|j: int| 0 <= j < i ==> !message_accepted_by(*m, keyring@[j]),
        decreases n - i,
    {
        if message_verified_by(m, keyring.get(i)) {
            assert(message_accepted_by(*m, keyring@[i as int]));
            return true;
        }
        i = i + 1;
    }
    false
}

/// Verifies one fetched signature artifact against the keyring and checks
/// that the digest embedded in its signed payload equals `expected_digest`.
pub fn verify_signature(public_keys: &Keyring, body: &Vec<u8>, expected_digest: &String) -> (r:
    Result<(), VerifyError>)
    ensures
        verify_result_matches(public_keys@, body@, expected_digest@, r),
        r is Ok <==> verify_ok(public_keys@, body@, expected_digest@),
{
    if !check_packet_framing(body, MESSAGE_PACKET_LIMIT) {
        return Err(VerifyError::Malformed);
    }
    let m = match parse_message(body) {
        Some(m) => m,
        None => {
            return Err(VerifyError::Malformed);
        },
    };
    if !any_key_accepts(public_keys, &m) {
        return Err(VerifyError::NoMatchingKey);
    }
    let content = match read_message_content(&m) {
        Ok(Some(c)) => c,
        Ok(None) => {
            return Err(VerifyError::EmptyMessage);
        },
        Err(_) => {
            return Err(VerifyError::Malformed);
        },
    };
    let digest = match read_json_string(&content, "/critical/image/docker-manifest-digest") {
        Some(d) => d,
        None => {
            return Err(VerifyError::Malformed);
        },
    };
    if digest == *expected_digest {
        Ok(())
    } else {
        Err(VerifyError::DigestMismatch { found: digest })
    }
}

} // verus!
