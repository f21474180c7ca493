//! Byte histograms and the integer facts behind the entropy estimates.
use vstd::arithmetic::power2::*;
use vstd::prelude::*;

verus! {

/// Number of positions of `s` that hold `v`.
pub open spec fn count_of(s: Seq<u8>, v: u8) -> nat
    decreases s.len(),
{
    if s.len() == 0 {
        0
    } else {
        count_of(s.drop_last(), v) + if s.last() == v {
            1nat
        } else {
            0nat
        }
    }
}

/// Largest count among the byte values below `k`.
pub open spec fn peak_below(s: Seq<u8>, k: nat) -> nat
    decreases k,
{
    if k == 0 {
        0
    } else {
        let c = count_of(s, (k - 1) as u8);
        let p = peak_below(s, (k - 1) as nat);
        if c > p {
            c
        } else {
            p
        }
    }
}

/// Count of the most frequent byte value of `s` (zero for an empty sequence).
pub open spec fn peak(s: Seq<u8>) -> nat {
    peak_below(s, 256)
}

/// Min-entropy is zero: the sequence is empty or one value fills all of it.
pub open spec fn zero_min_entropy(s: Seq<u8>) -> bool {
    s.len() == 0 || peak(s) == s.len()
}

/// Min-entropy `-log2(peak / len)` exceeds `half_bits / 2` bits, that is
/// `peak^2 * 2^half_bits < len^2`.
pub open spec fn min_entropy_above(s: Seq<u8>, half_bits: nat) -> bool {
    peak(s) * peak(s) * pow2(half_bits) < s.len() * s.len()
}

pub proof fn lemma_count_of_le_len(s: Seq<u8>, v: u8)
    ensures
        count_of(s, v) <= s.len(),
    decreases s.len(),
{
    if s.len() > 0 {
        lemma_count_of_le_len(s.drop_last(), v);
    }
}

/// Counting one more element of `s` adds one to the count of its value only.
pub proof fn lemma_count_of_take_step(s: Seq<u8>, i: int)
    requires
        0 <= i < s.len(),
    ensures
        forall|v: u8|
            #[trigger] count_of(s.take(i + 1), v) == count_of(s.take(i), v) + if s[i] == v {
                1nat
            } else {
                0nat
            },
{
    assert(s.take(i + 1).drop_last() =~= s.take(i));
    assert(s.take(i + 1).last() == s[i]);
}

proof fn lemma_peak_below_bounds(s: Seq<u8>, k: nat)
    requires
        k <= 256,
    ensures
        forall|v: u8| (v as nat) < k ==> count_of(s, v) <= peak_below(s, k),
        k > 0 ==> exists|v: u8| (v as nat) < k && count_of(s, v) == peak_below(s, k),
        peak_below(s, k) <= s.len(),
    decreases k,
{
    if k > 0 {
        lemma_peak_below_bounds(s, (k - 1) as nat);
        let w = (k - 1) as u8;
        lemma_count_of_le_len(s, w);
        if k == 1 {
            assert(count_of(s, w) == peak_below(s, k));
        } else {
            let u = choose|v: u8| (v as nat) < k - 1 && count_of(s, v) == peak_below(s, (k - 1) as nat);
            if count_of(s, w) > peak_below(s, (k - 1) as nat) {
                assert(count_of(s, w) == peak_below(s, k));
            } else {
                assert(count_of(s, u) == peak_below(s, k));
            }
        }
        assert forall|v: u8| (v as nat) < k implies count_of(s, v) <= peak_below(s, k) by {
            if (v as nat) < k - 1 {
            } else {
                assert(v == w);
            }
        }
    }
}

/// `peak` bounds every count, is the count of some value, and never exceeds the length.
pub proof fn lemma_peak_bounds(s: Seq<u8>)
    ensures
        forall|v: u8| #[trigger] count_of(s, v) <= peak(s),
        exists|v: u8| #[trigger] count_of(s, v) == peak(s),
        peak(s) <= s.len(),
{
    lemma_peak_below_bounds(s, 256);
    assert forall|v: u8| #[trigger] count_of(s, v) <= peak(s) by {
        assert((v as nat) < 256);
    }
}

proof fn lemma_count_of_constant(s: Seq<u8>, x: u8)
    requires
        forall|i: int| 0 <= i < s.len() ==> s[i] == x,
    ensures
        count_of(s, x) == s.len(),
    decreases s.len(),
{
    if s.len() > 0 {
        lemma_count_of_constant(s.drop_last(), x);
    }
}

/// A sample in which a single value occupies every position has zero min-entropy.
pub proof fn lemma_single_value_zero_min_entropy(s: Seq<u8>, x: u8)
    requires
        forall|i: int| 0 <= i < s.len() ==> s[i] == x,
    ensures
        zero_min_entropy(s),
        !min_entropy_above(s, 0),
{
    lemma_count_of_constant(s, x);
    lemma_peak_bounds(s);
    lemma2_to64();
}

/// Counts of each of the 256 byte values in `data`, indexed by value.
pub fn byte_histogram(data: &[u8]) -> (counts: Vec<usize>)
    ensures
        counts@.len() == 256,
        forall|v: u8| #[trigger] counts@[v as int] == count_of(data@, v),
{
    let mut counts: Vec<usize> = Vec::new();
    let mut k: usize = 0;
    while k < 256
        invariant
            k <= 256,
            counts@.len() == k,
            forall|j: int| 0 <= j < k ==> counts@[j] == 0,
        decreases 256 - k,
    {
        counts.push(0);
        k += 1;
    }
    let mut i: usize = 0;
    while i < data.len()
        invariant
            i <= data@.len(),
            counts@.len() == 256,
            forall|v: u8| #[trigger] counts@[v as int] == count_of(data@.take(i as int), v),
        decreases data@.len() - i,
    {
        let b = data[i];
        proof {
            lemma_count_of_take_step(data@, i as int);
            lemma_count_of_le_len(data@.take(i as int), b);
        }
        let c = counts[b as usize];
        counts.set(b as usize, c + 1);
        i += 1;
    }
    assert(data@.take(data@.len() as int) =~= data@);
    counts
}

/// Count of the most frequent byte value in `data`.
pub fn max_byte_count(data: &[u8]) -> (m: usize)
    ensures
        m == peak(data@),
{
    let counts = byte_histogram(data);
    let mut m: usize = 0;
    let mut k: usize = 0;
    while k < 256
        invariant
            k <= 256,
            counts@.len() == 256,
            forall|v: u8| #[trigger] counts@[v as int] == count_of(data@, v),
            m == peak_below(data@, k as nat),
        decreases 256 - k,
    {
        let c = counts[k];
        assert(c == count_of(data@, k as u8)) by {
            assert(counts@[(k as u8) as int] == count_of(data@, k as u8));
        }
        if c > m {
            m = c;
        }
        k += 1;
    }
    m
}

/// Whether the min-entropy of `data` is zero: `data` is empty or holds one value only.
pub fn has_zero_min_entropy(data: &[u8]) -> (r: bool)
    ensures
        r == zero_min_entropy(data@),
{
    let m = max_byte_count(data);
    data.len() == 0 || m == data.len()
}

/// Whether the min-entropy of `data` exceeds `half_bits / 2` bits.
pub fn min_entropy_exceeds(data: &[u8], half_bits: u32) -> (r: bool)
    ensures
        r == min_entropy_above(data@, half_bits as nat),
{
    let m = max_byte_count(data);
    let len = data.len();
    proof {
        lemma_peak_bounds(data@);
        lemma_pow2_pos(half_bits as nat);
    }
    let mw = m as u128;
    let lw = len as u128;
    assert(mw * mw <= lw * lw) by (nonlinear_arith)
        requires
            mw <= lw,
    ;
    assert(lw * lw <= 0xffff_ffff_ffff_ffffu128 * 0xffff_ffff_ffff_ffffu128) by (nonlinear_arith)
        requires
            lw <= 0xffff_ffff_ffff_ffffu128,
    ;
    let lhs: u128 = mw * mw;
    let rhs: u128 = lw * lw;
    let ghost p = pow2(half_bits as nat);
    assert(lhs == peak(data@) * peak(data@));
    assert(rhs == data@.len() * data@.len());
    proof {
        lemma2_to64();
    }
    if lhs >= rhs {
        assert(lhs * p >= rhs) by (nonlinear_arith)
            requires
                lhs >= rhs,
                p >= 1,
        ;
        return false;
    }
    let mut scaled: u128 = lhs;
    let mut k: u32 = 0;
    while k < half_bits
        invariant
            k <= half_bits,
            scaled == lhs * pow2(k as nat),
            scaled < rhs,
            p == pow2(half_bits as nat),
            lhs == peak(data@) * peak(data@),
            rhs == data@.len() * data@.len(),
        decreases half_bits - k,
    {
        proof {
            lemma_pow2_unfold((k + 1) as nat);
        }
        if scaled >= rhs - scaled {
            proof {
                let rest = (half_bits - k - 1) as nat;
                lemma_pow2_adds((k + 1) as nat, rest);
                assert((k + 1) as nat + rest == half_bits as nat);
                assert(p == pow2((k + 1) as nat) * pow2(rest));
                lemma_pow2_pos(rest);
                let a = lhs * pow2((k + 1) as nat);
                assert(a == 2 * scaled) by (nonlinear_arith)
                    requires
                        scaled == lhs * pow2(k as nat),
                        pow2((k + 1) as nat) == 2 * pow2(k as nat),
                        a == lhs * pow2((k + 1) as nat),
                ;
                assert(lhs * p >= a) by (nonlinear_arith)
                    requires
                        p == pow2((k + 1) as nat) * pow2(rest),
                        pow2(rest) >= 1,
                        a == lhs * pow2((k + 1) as nat),
                        lhs >= 0,
                ;
                assert(lhs * p >= rhs);
            }
            return false;
        }
        proof {
            assert(lhs * pow2((k + 1) as nat) == 2 * scaled) by (nonlinear_arith)
                requires
                    scaled == lhs * pow2(k as nat),
                    pow2((k + 1) as nat) == 2 * pow2(k as nat),
            ;
        }
        scaled = scaled * 2;
        k += 1;
    }
    true
}

} // verus!
