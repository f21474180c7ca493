//! The mixing pool: a 32-byte hash chain over every extraction event.
use crate::digest::{sha3_256, sha3_256_of};
use vstd::prelude::*;
use vstd::utf8::encode_utf8;

verus! {

/// Size of the pool state in bytes.
pub const POOL_STATE_LEN: usize = 32;

/// Input to one mixing step: the pool, the source tag's UTF-8 bytes, then the
/// extracted bytes.
pub open spec fn mix_input(pool: Seq<u8>, tag: Seq<char>, extracted: Seq<u8>) -> Seq<u8> {
    pool + encode_utf8(tag) + extracted
}

/// Pool state after mixing in one event.
pub open spec fn mix_step(pool: Seq<u8>, tag: Seq<char>, extracted: Seq<u8>) -> Seq<u8> {
    sha3_256_of(mix_input(pool, tag, extracted))
}

/// Pool state after mixing in `events`, each a source tag and extracted bytes, in order.
pub open spec fn mix_chain(pool: Seq<u8>, events: Seq<(Seq<char>, Seq<u8>)>) -> Seq<u8>
    decreases events.len(),
{
    if events.len() == 0 {
        pool
    } else {
        let e = events.last();
        mix_step(mix_chain(pool, events.drop_last()), e.0, e.1)
    }
}

/// Events of a list of tagged byte buffers, as plain values.
pub open spec fn events_view(events: Seq<(String, Vec<u8>)>) -> Seq<(Seq<char>, Seq<u8>)> {
    events.map_values(|e: (String, Vec<u8>)| (e.0@, e.1@))
}

/// The all-zero initial pool state.
pub open spec fn zero_pool() -> Seq<u8> {
    Seq::new(32, |i: int| 0u8)
}

/// Global hash-chained accumulator, updated once per extraction event.
pub struct MixingPool {
    state: [u8; 32],
}

impl View for MixingPool {
    type V = Seq<u8>;

    closed spec fn view(&self) -> Seq<u8> {
        self.state@
    }
}

impl MixingPool {
    /// A pool whose state is all zero bytes.
    pub fn new() -> (r: Self)
        ensures
            r@ == zero_pool(),
    {
        let r = MixingPool { state: [0u8; 32] };
        assert(r.state@ =~= zero_pool());
        r
    }

    /// A pool starting from a given state.
    pub fn from_state(state: [u8; 32]) -> (r: Self)
        ensures
            r@ == state@,
    {
        MixingPool { state }
    }

    /// The current state.
    pub fn state(&self) -> (r: [u8; 32])
        ensures
            r@ == self@,
    {
        self.state
    }

    /// Replaces the state by the SHA3-256 digest of the state, the tag's bytes and
    /// the extracted bytes.
    pub fn mix(&mut self, source_tag: &str, extracted: &[u8])
        ensures
            final(self)@ == mix_step(old(self)@, source_tag@, extracted@),
    {
        let mut input: Vec<u8> = Vec::new();
        input.extend_from_slice(self.state.as_slice());
        input.extend_from_slice(source_tag.as_bytes());
        input.extend_from_slice(extracted);
        assert(input@ =~= mix_input(old(self)@, source_tag@, extracted@));
        self.state = sha3_256(input.as_slice());
    }
}

/// Mixes `events` in order into a pool that starts at `initial`.
pub fn replay(initial: [u8; 32], events: &Vec<(String, Vec<u8>)>) -> (r: MixingPool)
    ensures
        r@ == mix_chain(initial@, events_view(events@)),
{
    let mut pool = MixingPool::from_state(initial);
    let ghost evs = events_view(events@);
    let mut i: usize = 0;
    while i < events.len()
        invariant
            i <= events@.len(),
            evs == events_view(events@),
            pool@ == mix_chain(initial@, evs.take(i as int)),
        decreases events@.len() - i,
    {
        assert(evs.take(i + 1).drop_last() =~= evs.take(i as int));
        let (tag, bytes) = &events[i];
        pool.mix(tag.as_str(), bytes.as_slice());
        i += 1;
    }
    assert(evs.take(events@.len() as int) =~= evs);
    pool
}

/// Replaying the same ordered events from the same state twice gives the same state.
pub proof fn lemma_replay_deterministic(
    p1: Seq<u8>,
    p2: Seq<u8>,
    e1: Seq<(Seq<char>, Seq<u8>)>,
    e2: Seq<(Seq<char>, Seq<u8>)>,
)
    requires
        p1 == p2,
        e1 == e2,
    ensures
        mix_chain(p1, e1) == mix_chain(p2, e2),
{
}

/// Mixing a history in two parts is mixing the whole history: the state is a
/// function of the full ordered sequence of events.
pub proof fn lemma_chain_concat(
    pool: Seq<u8>,
    a: Seq<(Seq<char>, Seq<u8>)>,
    b: Seq<(Seq<char>, Seq<u8>)>,
)
    ensures
        mix_chain(pool, a + b) == mix_chain(mix_chain(pool, a), b),
    decreases b.len(),
{
    if b.len() == 0 {
        assert(a + b =~= a);
    } else {
        assert((a + b).drop_last() =~= a + b.drop_last());
        lemma_chain_concat(pool, a, b.drop_last());
    }
}

} // verus!
