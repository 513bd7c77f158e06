//! Key handling and hashing, delegated to stellar-base. Each function here
//! turns plain values into plain values; the contracts name the results so
//! the rest of the library can reason about them exactly.

use vstd::prelude::*;
use vstd::string::*;

verus! {

/// The ed25519 public key derived from a strkey secret seed (`S...`), or
/// nothing when the seed does not decode.
pub uninterp spec fn seed_public_key(seed: Seq<char>) -> Option<Seq<u8>>;

/// The RFC 8032 ed25519 signature over `msg` by the key pair of `seed`.
pub uninterp spec fn ed25519_sig(seed: Seq<char>, msg: Seq<u8>) -> Seq<u8>;

/// The SHA-256 digest of `data`.
pub uninterp spec fn sha256_of(data: Seq<u8>) -> Seq<u8>;

/// The 32 ed25519 key bytes of a strkey account id (`G...`), or nothing
/// when the string does not decode.
pub uninterp spec fn account_id_bytes(account: Seq<char>) -> Option<Seq<u8>>;

/// A secret seed is valid exactly when a public key can be derived from it.
pub open spec fn seed_valid(seed: Seq<char>) -> bool {
    seed_public_key(seed) is Some
}

/// Relies on stellar_base::crypto::DalekKeyPair::from_secret_seed and
/// DalekKeyPair::public_key: the seed decodes (strkey base32 + checksum)
/// to an ed25519 key pair whose 32-byte public key depends on the seed
/// alone; decoding fails exactly when the seed is malformed.
#[verifier::external_body]
pub(crate) fn derive_public_key(seed: &str) -> (r: Option<Vec<u8>>)
    ensures
        match r {
            Some(pk) => seed_public_key(seed@) == Some(pk@) && pk@.len() == 32,
            None => !seed_valid(seed@),
        },
{
    match stellar_base::crypto::DalekKeyPair::from_secret_seed(seed) {
        Ok(kp) => Some(kp.public_key().as_bytes().to_vec()),
        Err(_) => None,
    }
}

/// Relies on stellar_base::crypto::DalekKeyPair::from_secret_seed and
/// DalekKeyPair::sign: ed25519 signing per RFC 8032 is deterministic in
/// the key and the message and yields a 64-byte signature; it succeeds
/// exactly when the seed decodes.
#[verifier::external_body]
pub(crate) fn sign_with_seed(seed: &str, msg: &Vec<u8>) -> (r: Option<Vec<u8>>)
    ensures
        match r {
            Some(sig) => seed_valid(seed@) && sig@ == ed25519_sig(seed@, msg@) && sig@.len()
                == 64,
            None => !seed_valid(seed@),
        },
{
    match stellar_base::crypto::DalekKeyPair::from_secret_seed(seed) {
        Ok(kp) => Some(kp.sign(msg).to_bytes().to_vec()),
        Err(_) => None,
    }
}

/// Relies on stellar_base::crypto::hash: the SHA-256 digest of the input,
/// 32 bytes, a function of the input alone.
#[verifier::external_body]
pub(crate) fn sha256(data: &Vec<u8>) -> (r: Vec<u8>)
    ensures
        r@ == sha256_of(data@),
        r@.len() == 32,
{
    stellar_base::crypto::hash(data)
}

/// Relies on stellar_base::crypto::PublicKey::from_account_id: strkey
/// decoding of a `G...` account id into its 32 ed25519 key bytes, a
/// function of the string alone; it fails exactly when the string is
/// malformed.
#[verifier::external_body]
pub(crate) fn decode_account_id(account: &str) -> (r: Option<Vec<u8>>)
    ensures
        match r {
            Some(pk) => account_id_bytes(account@) == Some(pk@) && pk@.len() == 32,
            None => account_id_bytes(account@) is None,
        },
{
    match stellar_base::crypto::PublicKey::from_account_id(account) {
        Ok(pk) => Some(pk.as_bytes().to_vec()),
        Err(_) => None,
    }
}

/// The network id that domain-separates signatures: the SHA-256 digest of
/// the network passphrase.
pub fn network_id_of_passphrase(passphrase: &str) -> (r: Vec<u8>)
    ensures
        r@ == sha256_of(passphrase.spec_bytes()),
        r@.len() == 32,
{
    let bytes = passphrase.as_bytes_vec();
    sha256(&bytes)
}

/// The test network's id: the digest of its well-known passphrase.
pub fn testnet_network_id() -> (r: Vec<u8>)
    ensures
        r@ == sha256_of("Test SDF Network ; September 2015".spec_bytes()),
        r@.len() == 32,
{
    network_id_of_passphrase("Test SDF Network ; September 2015")
}

} // verus!
