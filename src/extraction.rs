//! The extraction pool: buffers raw bytes and condenses each full buffer into a
//! 32-byte digest keyed by a running counter.
//!
//! Whitening is per accumulated buffer, not per sample: samples are appended until
//! the buffer holds at least `EXTRACTION_THRESHOLD` bytes, and the whole buffer,
//! including any overshoot of the last sample, goes into one digest.
use crate::digest::{sha256, sha256_of};
use vstd::bytes::*;
use vstd::prelude::*;

verus! {

/// Buffered byte count at which an extraction fires.
pub const EXTRACTION_THRESHOLD: usize = 200;

/// Bytes produced by one extraction.
pub const EXTRACTED_LEN: usize = 32;

/// What an extraction pool holds, as plain values.
pub struct ExtractionView {
    /// Raw bytes buffered since the last extraction.
    pub pending: Seq<u8>,
    /// Extractions made so far.
    pub count: nat,
    /// Raw bytes condensed by all extractions so far.
    pub consumed: nat,
    /// Time of the last extraction, zero before the first.
    pub last_extraction: nat,
}

/// Bytes handed to the digest by an extraction: the buffer, then the counter in
/// little-endian order.
pub open spec fn extraction_input(buffer: Seq<u8>, counter: nat) -> Seq<u8> {
    buffer + spec_u64_to_le_bytes(counter as u64)
}

/// Output of an extraction over `buffer` at counter value `counter`.
pub open spec fn extraction_output(buffer: Seq<u8>, counter: nat) -> Seq<u8> {
    sha256_of(extraction_input(buffer, counter))
}

/// State after an extraction at time `now`.
pub open spec fn extracted(v: ExtractionView, now: nat) -> ExtractionView {
    ExtractionView {
        pending: Seq::empty(),
        count: v.count + 1,
        consumed: v.consumed + v.pending.len(),
        last_extraction: now,
    }
}

/// Feeding `raw` into a pool in state `v` fills the buffer up to the threshold.
pub open spec fn feed_fires(v: ExtractionView, raw: Seq<u8>) -> bool {
    v.pending.len() + raw.len() >= EXTRACTION_THRESHOLD
}

/// State after feeding `raw` at time `now`.
pub open spec fn fed(v: ExtractionView, raw: Seq<u8>, now: nat) -> ExtractionView {
    let joined = ExtractionView { pending: v.pending + raw, ..v };
    if feed_fires(v, raw) {
        extracted(joined, now)
    } else {
        joined
    }
}

/// Accumulates raw bytes and condenses them into whitened output.
pub struct ExtractionPool {
    buffer: Vec<u8>,
    extractions_count: u64,
    last_extraction: u64,
    total_raw_consumed: u64,
}

impl View for ExtractionPool {
    type V = ExtractionView;

    closed spec fn view(&self) -> ExtractionView {
        ExtractionView {
            pending: self.buffer@,
            count: self.extractions_count as nat,
            consumed: self.total_raw_consumed as nat,
            last_extraction: self.last_extraction as nat,
        }
    }
}

/// Little-endian bytes of `n`.
pub fn u64_le_bytes(n: u64) -> (r: Vec<u8>)
    ensures
        r@ == spec_u64_to_le_bytes(n),
{
    let mut r: Vec<u8> = Vec::new();
    r.push((n & 0xff) as u8);
    r.push(((n >> 8) & 0xff) as u8);
    r.push(((n >> 16) & 0xff) as u8);
    r.push(((n >> 24) & 0xff) as u8);
    r.push(((n >> 32) & 0xff) as u8);
    r.push(((n >> 40) & 0xff) as u8);
    r.push(((n >> 48) & 0xff) as u8);
    r.push(((n >> 56) & 0xff) as u8);
    proof {
        spec_u64_to_le_bytes_to_open(n);
        assert(r@ =~= spec_u64_to_le_bytes_open(n));
    }
    r
}

impl ExtractionPool {
    /// The buffer stays below the extraction threshold between calls.
    pub open spec fn wf(&self) -> bool {
        self@.pending.len() < EXTRACTION_THRESHOLD
    }

    /// The counters have room for `n` more raw bytes and one more extraction.
    pub open spec fn has_room(&self, n: nat) -> bool {
        &&& self@.count < u64::MAX
        &&& self@.consumed + self@.pending.len() + n <= u64::MAX
    }

    /// An empty pool with all counters at zero.
    pub fn new() -> (r: Self)
        ensures
            r.wf(),
            r@ == (ExtractionView {
                pending: Seq::empty(),
                count: 0,
                consumed: 0,
                last_extraction: 0,
            }),
    {
        ExtractionPool {
            buffer: Vec::new(),
            extractions_count: 0,
            last_extraction: 0,
            total_raw_consumed: 0,
        }
    }

    /// Appends `raw_data` to the buffer; once the buffer reaches the threshold it is
    /// condensed by `extract` at time `now` and the output is returned.
    pub fn add_raw_bytes(&mut self, raw_data: &[u8], now: u64) -> (r: Option<[u8; 32]>)
        requires
            old(self).wf(),
            old(self).has_room(raw_data@.len() as nat),
        ensures
            final(self).wf(),
            final(self)@ == fed(old(self)@, raw_data@, now as nat),
            r.is_some() == feed_fires(old(self)@, raw_data@),
            r matches Some(out) ==> out@ == extraction_output(
                old(self)@.pending + raw_data@,
                old(self)@.count,
            ),
    {
        self.buffer.extend_from_slice(raw_data);
        assert(self.buffer@ =~= old(self)@.pending + raw_data@);
        if self.buffer.len() >= EXTRACTION_THRESHOLD {
            Some(self.extract(now))
        } else {
            None
        }
    }

    /// Digests the buffer followed by the counter, empties the buffer, counts the
    /// extraction and records `now` as its time.
    pub fn extract(&mut self, now: u64) -> (r: [u8; 32])
        requires
            old(self).has_room(0),
        ensures
            final(self).wf(),
            final(self)@ == extracted(old(self)@, now as nat),
            r@ == extraction_output(old(self)@.pending, old(self)@.count),
    {
        let mut input: Vec<u8> = Vec::new();
        input.extend_from_slice(self.buffer.as_slice());
        let mut counter_bytes = u64_le_bytes(self.extractions_count);
        input.append(&mut counter_bytes);
        assert(input@ =~= extraction_input(old(self)@.pending, old(self)@.count));
        let digest = sha256(input.as_slice());
        self.total_raw_consumed = self.total_raw_consumed + self.buffer.len() as u64;
        self.buffer.clear();
        self.extractions_count = self.extractions_count + 1;
        self.last_extraction = now;
        digest
    }

    /// Raw bytes buffered since the last extraction.
    pub fn accumulated_bytes(&self) -> (r: usize)
        ensures
            r == self@.pending.len(),
    {
        self.buffer.len()
    }

    /// Extractions made so far.
    pub fn extractions_count(&self) -> (r: u64)
        ensures
            r == self@.count,
    {
        self.extractions_count
    }

    /// Raw bytes condensed by all extractions so far.
    pub fn total_raw_consumed(&self) -> (r: u64)
        ensures
            r == self@.consumed,
    {
        self.total_raw_consumed
    }

    /// Bytes produced by all extractions so far.
    pub fn total_extracted_bytes(&self) -> (r: u128)
        ensures
            r == self@.count * EXTRACTED_LEN,
    {
        let c = self.extractions_count as u128;
        assert(c * 32 <= 0xffff_ffff_ffff_ffffu128 * 32);
        c * 32
    }

    /// Time of the last extraction.
    pub fn last_extraction(&self) -> (r: u64)
        ensures
            r == self@.last_extraction,
    {
        self.last_extraction
    }
}

/// Feeding exactly the threshold into an empty buffer fires exactly one extraction
/// and leaves the buffer empty.
pub proof fn lemma_threshold_feed_extracts_once(v: ExtractionView, raw: Seq<u8>, now: nat)
    requires
        v.pending.len() == 0,
        raw.len() == EXTRACTION_THRESHOLD,
    ensures
        feed_fires(v, raw),
        fed(v, raw, now).count == v.count + 1,
        fed(v, raw, now).pending.len() == 0,
        fed(v, raw, now).consumed == v.consumed + EXTRACTION_THRESHOLD,
{
}

/// The same buffer digested at two different counter values goes into the digest
/// as two different byte sequences.
pub proof fn lemma_counter_separates_inputs(buffer: Seq<u8>, c1: nat, c2: nat)
    requires
        c1 != c2,
        c1 <= u64::MAX,
        c2 <= u64::MAX,
    ensures
        extraction_input(buffer, c1) != extraction_input(buffer, c2),
{
    lemma_auto_spec_u64_to_from_le_bytes();
    let a = extraction_input(buffer, c1);
    let b = extraction_input(buffer, c2);
    if a == b {
        let n = buffer.len() as int;
        assert(a.subrange(n, n + 8) =~= spec_u64_to_le_bytes(c1 as u64));
        assert(b.subrange(n, n + 8) =~= spec_u64_to_le_bytes(c2 as u64));
        assert(spec_u64_from_le_bytes(spec_u64_to_le_bytes(c1 as u64)) == c1);
        assert(spec_u64_from_le_bytes(spec_u64_to_le_bytes(c2 as u64)) == c2);
    }
}

} // verus!
