//! Turning captured camera frames into noise samples.
use crate::digest::{sha3_256, sha3_256_of};
use crate::extraction::u64_le_bytes;
use vstd::bytes::spec_u64_to_le_bytes;
use vstd::prelude::*;

verus! {

/// Distance between the frame bytes that are sampled.
pub const FRAME_STRIDE: usize = 7;

/// Leading noise bytes that are masked with the previous frame's digest.
pub const CHAIN_MASK_LEN: usize = 32;

/// Number of bytes sampled from a frame of `n` bytes: positions 0, 7, 14, ...
pub open spec fn sampled_len(n: nat) -> nat {
    n / 7 + if n % 7 == 0 {
        0nat
    } else {
        1nat
    }
}

/// Low nibble of every seventh byte of `frame`.
pub open spec fn frame_sample(frame: Seq<u8>) -> Seq<u8> {
    Seq::new(sampled_len(frame.len()), |i: int| frame[7 * i] & 0x0f)
}

/// The noise sample of a frame: the sampled nibbles then the capture time, with the
/// leading bytes masked by the previous frame's digest when there is one.
pub open spec fn frame_noise(frame: Seq<u8>, nanos: u64, prev: Option<Seq<u8>>) -> Seq<u8> {
    let raw = frame_sample(frame) + spec_u64_to_le_bytes(nanos);
    match prev {
        None => raw,
        Some(h) => Seq::new(
            raw.len(),
            |i: int|
                if i < CHAIN_MASK_LEN {
                    raw[i] ^ h[i]
                } else {
                    raw[i]
                },
        ),
    }
}

/// View of an optional digest.
pub open spec fn digest_view(d: Option<[u8; 32]>) -> Option<Seq<u8>> {
    match d {
        Some(h) => Some(h@),
        None => None,
    }
}

/// Chains camera frames: each sample is masked by the digest of the one before.
pub struct FrameChain {
    last_digest: Option<[u8; 32]>,
}

impl FrameChain {
    /// Digest of the previous noise sample, if any.
    pub closed spec fn last(&self) -> Option<Seq<u8>> {
        digest_view(self.last_digest)
    }

    /// A chain that has seen no frame.
    pub fn new() -> (r: Self)
        ensures
            r.last() is None,
    {
        FrameChain { last_digest: None }
    }

    /// The noise sample of `frame` captured at `nanos`; its SHA3-256 digest masks
    /// the next sample.
    pub fn next_sample(&mut self, frame: &[u8], nanos: u64) -> (r: Vec<u8>)
        ensures
            r@ == frame_noise(frame@, nanos, old(self).last()),
            final(self).last() == Some(sha3_256_of(r@)),
    {
        let n = frame.len();
        let count = n / FRAME_STRIDE + if n % FRAME_STRIDE == 0 {
            0
        } else {
            1
        };
        let mut noise: Vec<u8> = Vec::new();
        let mut j: usize = 0;
        while j < count
            invariant
                n == frame@.len(),
                count == sampled_len(n as nat),
                j <= count,
                noise@ == frame_sample(frame@).take(j as int),
            decreases count - j,
        {
            assert(7 * j < n) by (nonlinear_arith)
                requires
                    j < count,
                    count == n / 7 + if n % 7 == 0 {
                        0nat
                    } else {
                        1nat
                    },
            ;
            noise.push(frame[7 * j] & 0x0f);
            j += 1;
            assert(noise@ =~= frame_sample(frame@).take(j as int));
        }
        assert(noise@ =~= frame_sample(frame@));
        let mut time_bytes = u64_le_bytes(nanos);
        noise.append(&mut time_bytes);
        let ghost raw = noise@;
        assert(raw == frame_sample(frame@) + spec_u64_to_le_bytes(nanos));
        match self.last_digest {
            None => {},
            Some(h) => {
                let mut i: usize = 0;
                while i < noise.len() && i < CHAIN_MASK_LEN
                    invariant
                        i <= CHAIN_MASK_LEN,
                        noise@.len() == raw.len(),
                        i <= raw.len(),
                        forall|k: int| 0 <= k < i ==> noise@[k] == raw[k] ^ h@[k],
                        forall|k: int| i <= k < raw.len() ==> noise@[k] == raw[k],
                    decreases CHAIN_MASK_LEN - i,
                {
                    let b = noise[i] ^ h[i];
                    noise.set(i, b);
                    i += 1;
                }
                assert(noise@ =~= frame_noise(frame@, nanos, Some(h@)));
            },
        }
        self.last_digest = Some(sha3_256(noise.as_slice()));
        noise
    }
}

} // verus!
