use chaos_magnet::coordinator::{Coordinator, DISPLAY_CAPACITY};
use chaos_magnet::minting::{IdentityKeys, MintError, MintPolicy, PqcBundle};
use pqcrypto_falcon::falcon512;
use pqcrypto_traits::sign::{DetachedSignature as _, PublicKey as _};
use sha2::Digest;

fn uniform_sample() -> Vec<u8> {
    (0..200u32).map(|i| i as u8).collect()
}

fn sha3_of(parts: &[&[u8]]) -> [u8; 32] {
    let mut h = sha3::Sha3_256::new();
    for p in parts {
        h.update(p);
    }
    h.finalize().into()
}

fn coordinator() -> Coordinator {
    Coordinator::new(IdentityKeys::generate(), MintPolicy::standard())
}

fn signature_verifies(bundle: &PqcBundle, identity_public: &[u8]) -> bool {
    let sig_bytes = hex::decode(&bundle.signature_hex).unwrap();
    let sig = falcon512::DetachedSignature::from_bytes(&sig_bytes).unwrap();
    let pk = falcon512::PublicKey::from_bytes(identity_public).unwrap();
    falcon512::verify_detached_signature(&sig, &bundle.context, &pk).is_ok()
}

#[test]
fn degenerate_sample_is_dropped() {
    let mut c = coordinator();
    let before_pool = c.pool_state();
    let out = c.ingest("SYS", &[0u8; 200], 5);
    assert!(!out.accepted);
    assert!(out.extracted.is_none());
    assert!(out.minted.is_none());
    assert_eq!(c.pool_state(), before_pool);
    assert_eq!(c.extraction().accumulated_bytes(), 0);
    assert_eq!(c.sequence_id(), 0);
    assert!(c.display_bytes().is_empty());
}

#[test]
fn healthy_sample_fires_one_extraction() {
    let mut c = coordinator();
    let data = uniform_sample();
    let prior = c.pool_state();
    let out = c.ingest("TRNG", &data, 9);
    assert!(out.accepted);
    let extracted = out.extracted.expect("one extraction");
    assert!(out.minted.is_none());
    assert_eq!(c.pool_state(), sha3_of(&[&prior, b"TRNG", &extracted]));
    assert_eq!(c.display_bytes(), extracted.to_vec());
    assert_eq!(c.sequence_id(), 1);
    assert_eq!(c.total_bytes(), 32);
}

#[test]
fn display_history_evicts_beyond_capacity() {
    let mut c = coordinator();
    let data = uniform_sample();
    let mut all: Vec<u8> = Vec::new();
    for t in 0..33u64 {
        let out = c.ingest("TRNG", &data, t);
        all.extend_from_slice(&out.extracted.unwrap());
    }
    let shown = c.display_bytes();
    assert_eq!(shown.len(), DISPLAY_CAPACITY);
    assert_eq!(shown, all[all.len() - DISPLAY_CAPACITY..].to_vec());
}

#[test]
fn cadence_extraction_with_quality_mints_a_verifiable_bundle() {
    let mut c = coordinator();
    let identity_public = c.identity_public_key();
    let data = uniform_sample();
    let mut bundles = Vec::new();
    for t in 0..10u64 {
        let out = c.ingest("TRNG", &data, 1000 + t);
        if let Some(m) = out.minted {
            bundles.push((t, m));
        }
    }
    assert_eq!(bundles.len(), 1);
    let (t, minted) = bundles.pop().unwrap();
    assert_eq!(t, 9);
    let bundle = minted.expect("identity key parses");
    assert_eq!(bundle.requester, "RUST_AUTO");
    assert_eq!(bundle.timestamp, 1009);
    let pool = c.pool_state();
    assert_eq!(bundle.context, sha3_of(&[&pool, &bundle.exchange_public_key]));
    assert_eq!(bundle.exchange_public_key_hex, hex::encode(&bundle.exchange_public_key));
    assert_eq!(bundle.key_prefix_hex, hex::encode(&bundle.exchange_public_key[..4]));
    assert_eq!(bundle.signer_public_key_hex, hex::encode(&identity_public));
    assert!(signature_verifies(&bundle, &identity_public));
}

#[test]
fn cadence_extraction_below_quality_mints_nothing() {
    let mut c = coordinator();
    let data: Vec<u8> = (0..200).map(|i| (i % 67) as u8).collect();
    for t in 0..10u64 {
        let out = c.ingest("AUDIO", &data, t);
        assert!(out.accepted);
        assert!(out.extracted.is_some());
        assert!(out.minted.is_none());
    }
    assert_eq!(c.sequence_id(), 10);
}

#[test]
fn disabled_minting_mints_nothing() {
    let mut c = coordinator();
    c.set_minting_enabled(false);
    let data = uniform_sample();
    for t in 0..10u64 {
        assert!(c.ingest("TRNG", &data, t).minted.is_none());
    }
    assert!(matches!(c.mint_pqc_bundle(None, 1), Err(MintError::Offline)));
}

#[test]
fn manual_mint_signs_the_current_pool() {
    let mut c = coordinator();
    c.ingest("TRNG", &uniform_sample(), 3);
    let identity_public = c.identity_public_key();
    let bundle = c.mint_pqc_bundle(None, 42).unwrap();
    assert_eq!(bundle.requester, "LOCAL");
    assert_eq!(bundle.timestamp, 42);
    assert_eq!(bundle.context, sha3_of(&[&c.pool_state(), &bundle.exchange_public_key]));
    assert!(signature_verifies(&bundle, &identity_public));
    let named = c.mint_pqc_bundle(Some("alice".to_string()), 43).unwrap();
    assert_eq!(named.requester, "alice");
    assert_eq!(named.exchange_secret_key_hex.len(), 2 * 1632);
}

#[test]
fn unparsable_identity_key_aborts_mint() {
    let keys = IdentityKeys::from_parts(vec![1u8; 897], vec![2u8; 10]);
    let mut c = Coordinator::new(keys, MintPolicy::standard());
    assert!(matches!(c.mint_pqc_bundle(None, 1), Err(MintError::KeyRejected)));
    let data = uniform_sample();
    let mut results = Vec::new();
    for t in 0..10u64 {
        if let Some(m) = c.ingest("TRNG", &data, t).minted {
            results.push(m);
        }
    }
    assert_eq!(results.len(), 1);
    assert!(matches!(results[0], Err(MintError::KeyRejected)));
}

#[test]
fn policy_gates() {
    let p = MintPolicy::standard();
    let good: Vec<u8> = (0..200u32).map(|i| i as u8).collect();
    assert!(p.should_mint(10, &good));
    assert!(p.should_mint(20, &good));
    assert!(!p.should_mint(11, &good));
    let off = MintPolicy { enabled: false, ..p };
    assert!(!off.should_mint(10, &good));
    let never = MintPolicy { cadence: 0, ..p };
    assert!(!never.should_mint(0, &good));
}
