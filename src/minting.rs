//! The minting policy and the construction of signed post-quantum key bundles.
use crate::digest::{hex_of, sha3_256, sha3_256_of, to_hex};
use crate::pqc::{
    falcon_keypair, falcon_sign, kyber_keypair, parse_falcon_secret, FALCON_MAX_SIGNATURE_LEN,
    FALCON_PUBLIC_KEY_LEN, FALCON_SECRET_KEY_LEN, KYBER_PUBLIC_KEY_LEN, KYBER_SECRET_KEY_LEN,
};
use crate::stats::{min_entropy_above, min_entropy_exceeds};
use vstd::prelude::*;

verus! {

/// Default cadence: a mint is considered at every tenth extraction.
pub const MINT_CADENCE: u64 = 10;

/// Default quality gate in half-bits of min-entropy (6.5 bits).
pub const MINT_QUALITY_HALF_BITS: u32 = 13;

/// Number of leading public-key bytes that name a bundle.
pub const KEY_PREFIX_LEN: usize = 4;

/// When minting fires after an extraction.
#[derive(Clone, Copy)]
pub struct MintPolicy {
    /// A mint is considered when the extraction count is a multiple of this; zero
    /// turns the cadence gate off entirely.
    pub cadence: u64,
    /// The triggering sample's min-entropy must exceed half this many bits.
    pub quality_half_bits: u32,
    /// Whether the minting subsystem is enabled.
    pub enabled: bool,
}

/// All three gates hold for extraction number `count` triggered by `sample`.
pub open spec fn mint_due(p: MintPolicy, count: nat, sample: Seq<u8>) -> bool {
    &&& p.cadence > 0
    &&& count % (p.cadence as nat) == 0
    &&& min_entropy_above(sample, p.quality_half_bits as nat)
    &&& p.enabled
}

impl MintPolicy {
    /// Cadence of ten extractions, a 6.5-bit quality gate, minting enabled.
    pub fn standard() -> (r: Self)
        ensures
            r.cadence == MINT_CADENCE,
            r.quality_half_bits == MINT_QUALITY_HALF_BITS,
            r.enabled,
    {
        MintPolicy { cadence: MINT_CADENCE, quality_half_bits: MINT_QUALITY_HALF_BITS, enabled: true }
    }

    /// Evaluates the cadence, quality and enabled gates.
    pub fn should_mint(&self, count: u64, sample: &[u8]) -> (r: bool)
        ensures
            r == mint_due(*self, count as nat, sample@),
    {
        if !self.enabled || self.cadence == 0 || count % self.cadence != 0 {
            return false;
        }
        min_entropy_exceeds(sample, self.quality_half_bits)
    }
}

/// The long-lived signing keypair.
pub struct IdentityKeys {
    public: Vec<u8>,
    secret: Vec<u8>,
}

impl IdentityKeys {
    /// Encoded public key.
    pub closed spec fn public_view(&self) -> Seq<u8> {
        self.public@
    }

    /// Encoded secret key.
    pub closed spec fn secret_view(&self) -> Seq<u8> {
        self.secret@
    }

    /// A fresh random keypair.
    pub fn generate() -> (r: Self)
        ensures
            r.public_view().len() == FALCON_PUBLIC_KEY_LEN,
            r.secret_view().len() == FALCON_SECRET_KEY_LEN,
    {
        let (public, secret) = falcon_keypair();
        IdentityKeys { public, secret }
    }

    /// A keypair from its encodings, taken as they are.
    pub fn from_parts(public: Vec<u8>, secret: Vec<u8>) -> (r: Self)
        ensures
            r.public_view() == public@,
            r.secret_view() == secret@,
    {
        IdentityKeys { public, secret }
    }

    /// The encoded public key.
    pub fn public_key(&self) -> (r: Vec<u8>)
        ensures
            r@ == self.public_view(),
    {
        self.public.clone()
    }
}

/// A freshly minted key-exchange keypair with its signed binding context.
pub struct PqcBundle {
    /// Who asked for the bundle.
    pub requester: String,
    /// When it was minted.
    pub timestamp: u64,
    /// The exchange public key.
    pub exchange_public_key: Vec<u8>,
    /// Digest of the pool state followed by the exchange public key; this is what
    /// the signature covers.
    pub context: [u8; 32],
    /// Hexadecimal exchange public key.
    pub exchange_public_key_hex: String,
    /// Hexadecimal exchange secret key.
    pub exchange_secret_key_hex: String,
    /// Hexadecimal detached signature over `context`.
    pub signature_hex: String,
    /// Hexadecimal identity public key that verifies the signature.
    pub signer_public_key_hex: String,
    /// Hexadecimal leading bytes of the exchange public key, used to name the bundle.
    pub key_prefix_hex: String,
}

/// Why no bundle was minted.
#[derive(PartialEq, Eq, Structural, Clone, Copy, Debug)]
pub enum MintError {
    /// Minting is disabled.
    Offline,
    /// The identity secret key could not be parsed.
    KeyRejected,
}

/// `b` is a bundle minted over `pool` for `requester` at `timestamp`, signed by the
/// identity whose public key is `signer`.
pub open spec fn bundle_ok(
    b: PqcBundle,
    pool: Seq<u8>,
    signer: Seq<u8>,
    requester: Seq<char>,
    timestamp: u64,
) -> bool {
    &&& b.requester@ == requester
    &&& b.timestamp == timestamp
    &&& b.exchange_public_key@.len() == KYBER_PUBLIC_KEY_LEN
    &&& b.context@ == sha3_256_of(pool + b.exchange_public_key@)
    &&& b.exchange_public_key_hex@ == hex_of(b.exchange_public_key@)
    &&& exists|sk: Seq<u8>|
        sk.len() == KYBER_SECRET_KEY_LEN && b.exchange_secret_key_hex@ == #[trigger] hex_of(sk)
    &&& exists|sig: Seq<u8>|
        sig.len() <= FALCON_MAX_SIGNATURE_LEN && b.signature_hex@ == #[trigger] hex_of(sig)
    &&& b.signer_public_key_hex@ == hex_of(signer)
    &&& b.key_prefix_hex@ == hex_of(b.exchange_public_key@.take(KEY_PREFIX_LEN as int))
}

/// Mints a bundle over the pool state: a fresh exchange keypair, the context digest of
/// the pool followed by the exchange public key, and the identity's detached signature
/// over that context.
pub fn mint_bundle(
    enabled: bool,
    identity: &IdentityKeys,
    pool: &[u8; 32],
    requester: String,
    timestamp: u64,
) -> (r: Result<PqcBundle, MintError>)
    ensures
        !enabled ==> r == Err::<PqcBundle, MintError>(MintError::Offline),
        enabled && identity.secret_view().len() != FALCON_SECRET_KEY_LEN ==> r == Err::<
            PqcBundle,
            MintError,
        >(MintError::KeyRejected),
        enabled && identity.secret_view().len() == FALCON_SECRET_KEY_LEN ==> (r matches Ok(b)
            && bundle_ok(b, pool@, identity.public_view(), requester@, timestamp)),
{
    if !enabled {
        return Err(MintError::Offline);
    }
    let (exchange_public, exchange_secret) = kyber_keypair();
    let mut context_input: Vec<u8> = Vec::new();
    context_input.extend_from_slice(pool.as_slice());
    context_input.extend_from_slice(exchange_public.as_slice());
    assert(context_input@ =~= pool@ + exchange_public@);
    let context = sha3_256(context_input.as_slice());
    let secret = match parse_falcon_secret(identity.secret.as_slice()) {
        Some(s) => s,
        None => {
            return Err(MintError::KeyRejected);
        },
    };
    let signature = falcon_sign(context.as_slice(), &secret);
    let mut prefix: Vec<u8> = Vec::new();
    let mut i: usize = 0;
    while i < KEY_PREFIX_LEN
        invariant
            i <= KEY_PREFIX_LEN,
            exchange_public@.len() == KYBER_PUBLIC_KEY_LEN,
            prefix@ == exchange_public@.take(i as int),
        decreases KEY_PREFIX_LEN - i,
    {
        prefix.push(exchange_public[i]);
        i += 1;
        assert(prefix@ =~= exchange_public@.take(i as int));
    }
    let exchange_public_key_hex = to_hex(exchange_public.as_slice());
    let exchange_secret_key_hex = to_hex(exchange_secret.as_slice());
    let signature_hex = to_hex(signature.as_slice());
    let signer_public_key_hex = to_hex(identity.public.as_slice());
    let key_prefix_hex = to_hex(prefix.as_slice());
    let bundle = PqcBundle {
        requester,
        timestamp,
        exchange_public_key: exchange_public,
        context,
        exchange_public_key_hex,
        exchange_secret_key_hex,
        signature_hex,
        signer_public_key_hex,
        key_prefix_hex,
    };
    assert(bundle.exchange_secret_key_hex@ == hex_of(exchange_secret@));
    assert(bundle.signature_hex@ == hex_of(signature@));
    Ok(bundle)
}

} // verus!
