//! The trust keyring: an ordered, immutable collection of public keys,
//! loaded from the contents of armored public-key files. A parse failure or
//! a failed key self-check on any file is fatal for the whole load; a corrupt
//! trust anchor must abort the run rather than silently reduce trust.
//!
//! Each file is decoded from its armor first, and the decoded packet bytes
//! pass the verified framing check of `crate::framing` before they reach
//! pgp's packet parser, which aborts the process on one class of unframed
//! input.

use vstd::prelude::*;

use crate::framing::{check_packet_framing, framed_packets, KEY_PACKET_LIMIT};
use pgp::composed::signed_key::SignedPublicKey;
use pgp::Deserializable;

verus! {

#[verifier::external_type_specification]
#[verifier::external_body]
pub struct ExSignedPublicKey(SignedPublicKey);

/// What pgp's armor decoding yields on `bytes`: the decoded binary payload
/// of the first armored block, or `None` when the armor is unreadable (bad
/// header, bad base64, checksum mismatch). The outcome depends on the bytes
/// alone.
pub uninterp spec fn armor_decoded(bytes: Seq<u8>) -> Option<Seq<u8>>;

/// Relies on pgp's `armor::Dearmor` to decode one armored block: the header
/// is read once, then the body is drained, which also checks the trailing
/// checksum. The armor type and headers are dropped.
#[verifier::external_body]
fn dearmor_block(bytes: &Vec<u8>) -> (r: Option<Vec<u8>>)
    ensures
        (match armor_decoded(bytes@) {
            Some(d) => r matches Some(v) && v@ == d,
            None => r is None,
        }),
{
    let mut dearmor = pgp::armor::Dearmor::new(std::io::Cursor::new(bytes.as_slice()));
    if dearmor.read_header().is_err() {
        return None;
    }
    let mut decoded = Vec::new();
    match std::io::Read::read_to_end(&mut dearmor, &mut decoded) {
        Ok(_) => Some(decoded),
        Err(_) => None,
    }
}

/// Holds of every key that `parse_key_packets` hands out: the primary key
/// and all public subkeys are version-4 keys. pgp's key-id computation is
/// total only for that shape — for version-2/3 keys it aborts the process
/// unless the parameters are RSA with a modulus of at least eight bytes —
/// and signature checks evaluate key ids, so older key shapes never enter
/// the keyring.
pub uninterp spec fn v4_key(k: SignedPublicKey) -> bool;

/// What `parse_key_packets` yields on the decoded packet bytes: `None`
/// when they are not one version-4 public key. The outcome depends on the
/// bytes alone.
pub uninterp spec fn parsed_key(bytes: Seq<u8>) -> Option<SignedPublicKey>;

/// Relies on pgp's `SignedPublicKey::from_bytes` to read one public key
/// from decoded packet bytes; only a key whose primary and subkeys are all
/// version 4 is kept. The framing precondition keeps the bytes away from
/// the packet parser's zero-length assertion.
#[verifier::external_body]
fn parse_key_packets(bytes: &Vec<u8>) -> (r: Option<SignedPublicKey>)
    requires
        framed_packets(bytes@, KEY_PACKET_LIMIT as nat),
    ensures
        (match parsed_key(bytes@) {
            Some(k) => r matches Some(k2) && k2 == k && v4_key(k),
            None => r is None,
        }),
{
    let key = match SignedPublicKey::from_bytes(std::io::Cursor::new(bytes.as_slice())) {
        Ok(key) => key,
        Err(_) => return None,
    };
    match key.primary_key.version() {
        pgp::types::KeyVersion::V4 => {},
        _ => return None,
    }
    for subkey in &key.public_subkeys {
        match subkey.key.version() {
            pgp::types::KeyVersion::V4 => {},
            _ => return None,
        }
    }
    Some(key)
}

/// Whether a key passes its self-verification; pgp's `SignedPublicKey::verify`
/// checks the key's own binding signatures, so the outcome depends on the key
/// alone.
pub uninterp spec fn key_self_consistent(k: SignedPublicKey) -> bool;

/// Relies on pgp's `SignedPublicKey::verify` for the key self-check: pure
/// signature arithmetic over the key's own packets. The precondition keeps
/// out the legacy key shapes whose key-id computation pgp does not have.
#[verifier::external_body]
fn key_passes_self_check(k: &SignedPublicKey) -> (r: bool)
    requires
        v4_key(*k),
    ensures
        r == key_self_consistent(*k),
{
    k.verify().is_ok()
}

/// The contents of one public-key file, together with the path it was read
/// from; the path only labels errors.
pub struct KeyFile {
    pub name: String,
    pub data: Vec<u8>,
}

#[derive(Debug)]
pub enum KeyringError {
    /// A file does not decode and parse as one armored public-key block.
    KeyParse { path: String },
    /// A parsed key fails its self-verification.
    KeyInvalid { path: String },
}

/// A key file parses when its armor decodes, the decoded bytes are framed
/// packets, and pgp reads one public key out of them.
pub open spec fn key_file_parses(data: Seq<u8>) -> bool {
    &&& armor_decoded(data) matches Some(p)
    &&& framed_packets(p, KEY_PACKET_LIMIT as nat)
    &&& parsed_key(p) matches Some(k)
}

/// The key a parseable file holds.
pub open spec fn key_of_file(data: Seq<u8>) -> SignedPublicKey
    recommends
        key_file_parses(data),
{
    parsed_key(armor_decoded(data)->0)->0
}

/// A key blob is acceptable when it parses and the parsed key passes its
/// self-check.
pub open spec fn key_blob_ok(data: Seq<u8>) -> bool {
    key_file_parses(data) && key_self_consistent(key_of_file(data))
}

/// An ordered collection of public keys, immutable after load.
pub struct Keyring {
    keys: Vec<SignedPublicKey>,
}

impl View for Keyring {
    type V = Seq<SignedPublicKey>;

    closed spec fn view(&self) -> Seq<SignedPublicKey> {
        self.keys@
    }
}

impl Keyring {
    /// Every key of a keyring is a version-4 key: the only sources of keys
    /// are `load_public_keys` and `new`, and `parse_key_packets` admits no
    /// other shape.
    #[verifier::type_invariant]
    pub open spec fn wf(self) -> bool {
        forall|i: int| 0 <= i < self@.len() ==> v4_key(#[trigger] self@[i])
    }

    /// A keyring with no keys at all: nothing verifies against it.
    pub fn new() -> (r: Keyring)
        ensures
            r@.len() == 0,
    {
        Keyring { keys: Vec::new() }
    }

    pub fn len(&self) -> (r: usize)
        ensures
            r == self@.len(),
    {
        self.keys.len()
    }

    pub fn get(&self, i: usize) -> (r: &SignedPublicKey)
        requires
            i < self@.len(),
        ensures
            *r == self@[i as int],
    {
        &self.keys[i]
    }
}

/// Builds the keyring from the public-key files of a directory. Every file
/// must hold one armored key that passes its self-check; the first file that
/// does not decides the error, and its path labels it.
pub fn load_public_keys(files: &Vec<KeyFile>) -> (r: Result<Keyring, KeyringError>)
    ensures
        r is Ok <==> (forall|i: int| 0 <= i < files@.len() ==> key_blob_ok(#[trigger] files@[i].data@)),
        r matches Ok(kr) ==> {
            &&& kr@.len() == files@.len()
            &&& forall|i: int|
                0 <= i < files@.len() ==> kr@[i] == key_of_file(#[trigger] files@[i].data@)
        },
        r matches Err(e) ==> exists|i: int|
            {
                &&& 0 <= i < files@.len()
                &&& forall|j: int| 0 <= j < i ==> key_blob_ok(#[trigger] files@[j].data@)
                &&& match e {
                    KeyringError::KeyParse { path } => {
                        &&& !key_file_parses(#[trigger] files@[i].data@)
                        &&& path@ == files@[i].name@
                    },
                    KeyringError::KeyInvalid { path } => {
                        &&& key_file_parses(#[trigger] files@[i].data@)
                        &&& !key_self_consistent(key_of_file(files@[i].data@))
                        &&& path@ == files@[i].name@
                    },
                }
            },
{
    let mut keys: Vec<SignedPublicKey> = Vec::new();
    let mut idx: usize = 0;
    while idx < files.len()
        invariant
            0 <= idx <= files@.len(),
            keys@.len() == idx,
            forall|j: int| 0 <= j < idx ==> key_blob_ok(#[trigger] files@[j].data@),
            forall|j: int| 0 <= j < idx ==> keys@[j] == key_of_file(#[trigger] files@[j].data@),
            forall|j: int| 0 <= j < idx ==> v4_key(#[trigger] keys@[j]),
        decreases files@.len() - idx,
    {
        let file = &files[idx];
        let packets = match dearmor_block(&file.data) {
            Some(p) => p,
            None => {
                return Err(KeyringError::KeyParse { path: file.name.clone() });
            },
        };
        if !check_packet_framing(&packets, KEY_PACKET_LIMIT) {
            return Err(KeyringError::KeyParse { path: file.name.clone() });
        }
        match parse_key_packets(&packets) {
            None => {
                return Err(KeyringError::KeyParse { path: file.name.clone() });
            },
            Some(key) => {
                if !key_passes_self_check(&key) {
                    return Err(KeyringError::KeyInvalid { path: file.name.clone() });
                }
                keys.push(key);
            },
        }
        idx = idx + 1;
    }
    Ok(Keyring { keys })
}

} // verus!
