//! The single-writer coordinator: runs each incoming sample through the health
//! checks, the extraction pool, the mixing pool, the display history and the
//! minting policy.
use crate::extraction::{
    extraction_output, feed_fires, fed, ExtractionPool, ExtractionView, EXTRACTED_LEN,
};
use crate::health::{healthy, passes_health_checks};
use crate::history::{keep_last, BoundedHistory};
use crate::minting::{bundle_ok, mint_bundle, mint_due, IdentityKeys, MintError, MintPolicy, PqcBundle};
use crate::mixing::{mix_chain, mix_step, zero_pool, MixingPool};
use crate::pqc::FALCON_SECRET_KEY_LEN;
use vstd::prelude::*;

verus! {

/// Capacity of the display history of whitened bytes.
pub const DISPLAY_CAPACITY: usize = 1024;

/// Requester recorded on bundles minted by the policy.
pub const AUTO_REQUESTER: &'static str = "RUST_AUTO";

/// Requester recorded on manual mints that name none.
pub const DEFAULT_REQUESTER: &'static str = "LOCAL";

/// What a coordinator holds, as plain values.
pub struct CoordinatorView {
    pub extraction: ExtractionView,
    pub pool: Seq<u8>,
    pub display: Seq<u8>,
    /// Every extraction event mixed so far: source tag and extracted bytes.
    pub events: Seq<(Seq<char>, Seq<u8>)>,
    /// When the policy mints after an extraction.
    pub policy: MintPolicy,
    /// Encoded identity public key.
    pub identity_public: Seq<u8>,
    /// Length of the encoded identity secret key.
    pub identity_secret_len: nat,
}

/// State after a healthy sample `data` from `tag` arrives at time `now`.
pub open spec fn ingested(v: CoordinatorView, tag: Seq<char>, data: Seq<u8>, now: nat) -> CoordinatorView {
    let ex = fed(v.extraction, data, now);
    if feed_fires(v.extraction, data) {
        let out = extraction_output(v.extraction.pending + data, v.extraction.count);
        CoordinatorView {
            extraction: ex,
            pool: mix_step(v.pool, tag, out),
            display: keep_last(v.display + out, DISPLAY_CAPACITY as nat),
            events: v.events.push((tag, out)),
            ..v
        }
    } else {
        CoordinatorView { extraction: ex, ..v }
    }
}

/// What one sample produced.
pub struct IngestOutcome {
    /// The sample passed the health checks.
    pub accepted: bool,
    /// Output of the extraction that the sample fired, if any.
    pub extracted: Option<[u8; 32]>,
    /// Result of the mint that the extraction triggered, if any.
    pub minted: Option<Result<PqcBundle, MintError>>,
}

/// Owns all mutable conditioning state; every sample passes through `ingest`.
pub struct Coordinator {
    extraction: ExtractionPool,
    mixing: MixingPool,
    display: BoundedHistory<u8>,
    identity: IdentityKeys,
    policy: MintPolicy,
    events: Ghost<Seq<(Seq<char>, Seq<u8>)>>,
}

impl View for Coordinator {
    type V = CoordinatorView;

    closed spec fn view(&self) -> CoordinatorView {
        CoordinatorView {
            extraction: self.extraction@,
            pool: self.mixing@,
            display: self.display@,
            events: self.events@,
            policy: self.policy,
            identity_public: self.identity.public_view(),
            identity_secret_len: self.identity.secret_view().len(),
        }
    }
}

proof fn lemma_chain_push(pool: Seq<u8>, events: Seq<(Seq<char>, Seq<u8>)>, e: (Seq<char>, Seq<u8>))
    ensures
        mix_chain(pool, events.push(e)) == mix_step(mix_chain(pool, events), e.0, e.1),
{
    assert(events.push(e).drop_last() =~= events);
}

impl Coordinator {
    /// The pool is the hash chain of every extraction event since creation, one
    /// event per extraction, and the buffers respect their bounds.
    pub closed spec fn wf(&self) -> bool {
        &&& self.extraction.wf()
        &&& self.display.wf()
        &&& self.display.cap() == DISPLAY_CAPACITY
        &&& self.mixing@ == mix_chain(zero_pool(), self.events@)
        &&& self.events@.len() == self.extraction@.count
    }

    /// The counters have room for a sample of `n` bytes.
    pub open spec fn has_room(&self, n: nat) -> bool {
        &&& self@.extraction.count < u64::MAX
        &&& self@.extraction.consumed + self@.extraction.pending.len() + n <= u64::MAX
    }

    /// A coordinator with empty buffers, an all-zero pool, and the given identity
    /// and policy.
    pub fn new(identity: IdentityKeys, policy: MintPolicy) -> (r: Self)
        ensures
            r.wf(),
            r@.extraction == (ExtractionView {
                pending: Seq::empty(),
                count: 0,
                consumed: 0,
                last_extraction: 0,
            }),
            r@.pool == zero_pool(),
            r@.display == Seq::<u8>::empty(),
            r@.events == Seq::<(Seq<char>, Seq<u8>)>::empty(),
            r@.policy == policy,
            r@.identity_public == identity.public_view(),
            r@.identity_secret_len == identity.secret_view().len(),
    {
        Coordinator {
            extraction: ExtractionPool::new(),
            mixing: MixingPool::new(),
            display: BoundedHistory::new(DISPLAY_CAPACITY),
            identity,
            policy,
            events: Ghost(Seq::empty()),
        }
    }

    /// Processes one sample from `source` at time `now`. An unhealthy sample is
    /// dropped and changes nothing. A healthy one is fed to the extraction pool; when
    /// that fires, the output is mixed into the pool and appended to the display
    /// history, and the minting policy is evaluated on the new extraction count and
    /// the sample.
    pub fn ingest(&mut self, source: &str, data: &[u8], now: u64) -> (r: IngestOutcome)
        requires
            old(self).wf(),
            old(self).has_room(data@.len() as nat),
        ensures
            final(self).wf(),
            r.accepted == healthy(data@),
            !healthy(data@) ==> final(self)@ == old(self)@,
            healthy(data@) ==> final(self)@ == ingested(old(self)@, source@, data@, now as nat),
            r.extracted.is_some() == (healthy(data@) && feed_fires(old(self)@.extraction, data@)),
            r.extracted matches Some(out) ==> out@ == extraction_output(
                old(self)@.extraction.pending + data@,
                old(self)@.extraction.count,
            ),
            r.minted.is_some() == (r.extracted.is_some() && mint_due(
                old(self)@.policy,
                old(self)@.extraction.count + 1,
                data@,
            )),
            r.minted matches Some(m) ==> (if old(self)@.identity_secret_len
                == FALCON_SECRET_KEY_LEN {
                m matches Ok(b) && bundle_ok(
                    b,
                    final(self)@.pool,
                    old(self)@.identity_public,
                    AUTO_REQUESTER@,
                    now,
                )
            } else {
                m == Err::<PqcBundle, MintError>(MintError::KeyRejected)
            }),
    {
        if !passes_health_checks(data) {
            return IngestOutcome { accepted: false, extracted: None, minted: None };
        }
        let extracted = self.extraction.add_raw_bytes(data, now);
        match extracted {
            None => IngestOutcome { accepted: true, extracted: None, minted: None },
            Some(out) => {
                self.mixing.mix(source, out.as_slice());
                self.display.extend_from_slice(out.as_slice());
                proof {
                    lemma_chain_push(zero_pool(), self.events@, (source@, out@));
                }
                self.events = Ghost(self.events@.push((source@, out@)));
                let count = self.extraction.extractions_count();
                let minted = if self.policy.should_mint(count, data) {
                    let pool = self.mixing.state();
                    Some(
                        mint_bundle(
                            self.policy.enabled,
                            &self.identity,
                            &pool,
                            String::from_str(AUTO_REQUESTER),
                            now,
                        ),
                    )
                } else {
                    None
                };
                IngestOutcome { accepted: true, extracted: Some(out), minted }
            },
        }
    }

    /// Mints a bundle on demand over the current pool, for `requester` or, when none
    /// is named, for `DEFAULT_REQUESTER`.
    pub fn mint_pqc_bundle(&self, requester: Option<String>, now: u64) -> (r: Result<
        PqcBundle,
        MintError,
    >)
        ensures
            !self@.policy.enabled ==> r == Err::<PqcBundle, MintError>(MintError::Offline),
            self@.policy.enabled && self@.identity_secret_len != FALCON_SECRET_KEY_LEN ==> r
                == Err::<PqcBundle, MintError>(MintError::KeyRejected),
            self@.policy.enabled && self@.identity_secret_len == FALCON_SECRET_KEY_LEN ==> (r matches Ok(
                b,
            ) && bundle_ok(
                b,
                self@.pool,
                self@.identity_public,
                match requester {
                    Some(s) => s@,
                    None => DEFAULT_REQUESTER@,
                },
                now,
            )),
    {
        let requester = match requester {
            Some(s) => s,
            None => String::from_str(DEFAULT_REQUESTER),
        };
        let pool = self.mixing.state();
        mint_bundle(self.policy.enabled, &self.identity, &pool, requester, now)
    }

    /// The minting policy.
    pub fn policy(&self) -> (r: MintPolicy)
        ensures
            r == self@.policy,
    {
        self.policy
    }

    /// Turns the minting subsystem on or off.
    pub fn set_minting_enabled(&mut self, enabled: bool)
        requires
            old(self).wf(),
        ensures
            final(self).wf(),
            final(self)@ == (CoordinatorView {
                policy: MintPolicy { enabled, ..old(self)@.policy },
                ..old(self)@
            }),
    {
        self.policy.enabled = enabled;
    }

    /// The current pool state.
    pub fn pool_state(&self) -> (r: [u8; 32])
        ensures
            r@ == self@.pool,
    {
        self.mixing.state()
    }

    /// The display history of whitened bytes, oldest first.
    pub fn display_bytes(&self) -> (r: Vec<u8>)
        ensures
            r@ == self@.display,
    {
        self.display.to_vec()
    }

    /// The extraction pool.
    pub fn extraction(&self) -> (r: &ExtractionPool)
        ensures
            r@ == self@.extraction,
    {
        &self.extraction
    }

    /// Sequence number of the latest extraction event.
    pub fn sequence_id(&self) -> (r: u64)
        ensures
            r == self@.extraction.count,
    {
        self.extraction.extractions_count()
    }

    /// Whitened bytes produced so far.
    pub fn total_bytes(&self) -> (r: u128)
        ensures
            r == self@.extraction.count * EXTRACTED_LEN,
    {
        self.extraction.total_extracted_bytes()
    }

    /// The encoded identity public key.
    pub fn identity_public_key(&self) -> (r: Vec<u8>)
        ensures
            r@ == self@.identity_public,
    {
        self.identity.public_key()
    }
}

/// The pool is the hash chain of the events seen since creation, one event per
/// extraction.
pub proof fn lemma_pool_is_event_chain(c: Coordinator)
    requires
        c.wf(),
    ensures
        c@.pool == mix_chain(zero_pool(), c@.events),
        c@.events.len() == c@.extraction.count,
{
}

/// The pool depends on the events alone: two coordinators that saw the same events
/// hold the same pool.
pub proof fn lemma_pool_follows_events(a: Coordinator, b: Coordinator)
    requires
        a.wf(),
        b.wf(),
        a@.events == b@.events,
    ensures
        a@.pool == b@.pool,
{
}

} // verus!
