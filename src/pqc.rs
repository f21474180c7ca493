//! Post-quantum key generation and signing provided by outside crates.
use pqcrypto_falcon::falcon512;
use pqcrypto_kyber::kyber512;
use pqcrypto_traits::kem::{PublicKey as _, SecretKey as _};
use pqcrypto_traits::sign::{DetachedSignature as _, PublicKey as _, SecretKey as _};
use vstd::prelude::*;

verus! {

/// Length of an encoded Falcon-512 public key.
pub const FALCON_PUBLIC_KEY_LEN: usize = 897;

/// Length of an encoded Falcon-512 secret key.
pub const FALCON_SECRET_KEY_LEN: usize = 1281;

/// Largest length of a Falcon-512 detached signature.
pub const FALCON_MAX_SIGNATURE_LEN: usize = 752;

/// Length of an encoded Kyber-512 public key.
pub const KYBER_PUBLIC_KEY_LEN: usize = 800;

/// Length of an encoded Kyber-512 secret key.
pub const KYBER_SECRET_KEY_LEN: usize = 1632;

#[verifier::external_type_specification]
#[verifier::external_body]
pub struct ExFalconSecretKey(falcon512::SecretKey);

/// Relies on `falcon512::keypair`: a fresh random signing keypair, returned as its
/// fixed-size public and secret key encodings.
#[verifier::external_body]
pub(crate) fn falcon_keypair() -> (r: (Vec<u8>, Vec<u8>))
    ensures
        r.0@.len() == FALCON_PUBLIC_KEY_LEN,
        r.1@.len() == FALCON_SECRET_KEY_LEN,
{
    let (pk, sk) = falcon512::keypair();
    (pk.as_bytes().to_vec(), sk.as_bytes().to_vec())
}

/// Relies on `falcon512::SecretKey::from_bytes`: it accepts exactly the secret key
/// length and refuses every other length.
#[verifier::external_body]
pub(crate) fn parse_falcon_secret(bytes: &[u8]) -> (r: Option<falcon512::SecretKey>)
    ensures
        r.is_some() == (bytes@.len() == FALCON_SECRET_KEY_LEN),
{
    falcon512::SecretKey::from_bytes(bytes).ok()
}

/// Relies on `falcon512::detached_sign`: a randomized detached signature over `msg`,
/// at most `FALCON_MAX_SIGNATURE_LEN` bytes.
#[verifier::external_body]
pub(crate) fn falcon_sign(msg: &[u8], sk: &falcon512::SecretKey) -> (r: Vec<u8>)
    ensures
        r@.len() <= FALCON_MAX_SIGNATURE_LEN,
{
    falcon512::detached_sign(msg, sk).as_bytes().to_vec()
}

/// Relies on `kyber512::keypair`: a fresh random key-exchange keypair, returned as
/// its fixed-size public and secret key encodings.
#[verifier::external_body]
pub(crate) fn kyber_keypair() -> (r: (Vec<u8>, Vec<u8>))
    ensures
        r.0@.len() == KYBER_PUBLIC_KEY_LEN,
        r.1@.len() == KYBER_SECRET_KEY_LEN,
{
    let (pk, sk) = kyber512::keypair();
    (pk.as_bytes().to_vec(), sk.as_bytes().to_vec())
}

} // verus!
