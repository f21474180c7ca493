//! Repetition-count and adaptive-proportion health tests on raw samples.
use crate::stats::{max_byte_count, peak};
use vstd::prelude::*;

verus! {

/// Run length at or above which the repetition-count test rejects a sample.
pub const RCT_CUTOFF: usize = 10;

/// Share of a sample, in percent, at or above which one byte value fails the
/// adaptive-proportion test.
pub const APT_CUTOFF_PERCENT: usize = 40;

/// Samples shorter than this fail the adaptive-proportion test unevaluated.
pub const APT_MIN_LEN: usize = 10;

/// Positions `i .. i + k` of `s` all hold the value at `i`.
pub open spec fn uniform_run(s: Seq<u8>, i: int, k: nat) -> bool {
    &&& 0 <= i < s.len()
    &&& i + k <= s.len()
    &&& forall|j: int| i <= j < i + k ==> s[j] == s[i]
}

/// Some value occurs in an unbroken run of `k` positions.
pub open spec fn has_run(s: Seq<u8>, k: nat) -> bool {
    exists|i: int| uniform_run(s, i, k)
}

/// The adaptive-proportion test passes: `s` is long enough and no value reaches
/// `percent` percent of it.
pub open spec fn proportion_ok(s: Seq<u8>, percent: nat) -> bool {
    s.len() >= APT_MIN_LEN && peak(s) * 100 < percent * s.len()
}

/// Both health tests pass with their default parameters.
pub open spec fn healthy(s: Seq<u8>) -> bool {
    !has_run(s, RCT_CUTOFF as nat) && proportion_ok(s, APT_CUTOFF_PERCENT as nat)
}

/// Samples shorter than `APT_MIN_LEN` fail the adaptive-proportion test whatever
/// they hold and whatever the cutoff.
pub proof fn lemma_short_samples_fail_closed(s: Seq<u8>, percent: nat)
    requires
        s.len() < APT_MIN_LEN,
    ensures
        !proportion_ok(s, percent),
        !healthy(s),
{
}

/// A run of `k` equal values fails the repetition-count test for every cutoff up to
/// `k`.
pub proof fn lemma_run_fails_lower_cutoffs(s: Seq<u8>, i: int, k: nat, cutoff: nat)
    requires
        uniform_run(s, i, k),
        cutoff <= k,
    ensures
        has_run(s, cutoff),
{
    lemma_shorter_run(s, i, k, cutoff);
}

proof fn lemma_shorter_run(s: Seq<u8>, i: int, k: nat, c: nat)
    requires
        uniform_run(s, i, k),
        c <= k,
    ensures
        uniform_run(s, i, c),
{
}

/// Repetition-count test: true when no value repeats `cutoff` times in a row.
/// An empty sample passes.
pub fn check_health_rct(data: &[u8], cutoff: usize) -> (r: bool)
    ensures
        r == !has_run(data@, cutoff as nat),
{
    let ghost s = data@;
    if data.len() == 0 {
        return true;
    }
    let mut max_repeats: usize = 0;
    let mut current: usize = 1;
    let mut last_val: u8 = data[0];
    let mut i: usize = 1;
    while i < data.len()
        invariant
            s == data@,
            1 <= i <= s.len(),
            1 <= current <= i,
            max_repeats <= i,
            last_val == s[i - 1],
            forall|j: int| i - current <= j < i ==> s[j] == last_val,
            i - current == 0 || s[i - current - 1] != last_val,
            forall|a: int, k: nat|
                #[trigger] uniform_run(s, a, k) && a + k <= i ==> k <= max_repeats || k <= current,
            max_repeats == 0 || has_run(s, max_repeats as nat),
        decreases s.len() - i,
    {
        let byte = data[i];
        if byte == last_val {
            assert forall|a: int, k: nat|
                #[trigger] uniform_run(s, a, k) && a + k <= i + 1 implies k <= max_repeats || k
                <= current + 1 by {
                if a + k > i && k > current + 1 {
                    let p = i - current - 1;
                    assert(s[p] == s[a]);
                    assert(s[i as int] == s[a]);
                }
            }
            current += 1;
        } else {
            assert(uniform_run(s, i - current, current as nat));
            assert forall|a: int, k: nat|
                #[trigger] uniform_run(s, a, k) && a + k <= i + 1 implies k <= (if current
                > max_repeats {
                current
            } else {
                max_repeats
            }) || k <= 1 by {
                if a + k > i && k > 1 {
                    assert(s[i - 1] == s[a]);
                    assert(s[i as int] == s[a]);
                }
            }
            if current > max_repeats {
                max_repeats = current;
            }
            current = 1;
            last_val = byte;
        }
        i += 1;
    }
    assert(uniform_run(s, i - current, current as nat));
    if current > max_repeats {
        max_repeats = current;
    }
    proof {
        if max_repeats >= cutoff {
            let a = choose|a: int| uniform_run(s, a, max_repeats as nat);
            lemma_shorter_run(s, a, max_repeats as nat, cutoff as nat);
        } else {
            assert forall|a: int| !uniform_run(s, a, cutoff as nat) by {
                if uniform_run(s, a, cutoff as nat) {
                    assert(a + cutoff <= i);
                }
            }
        }
    }
    max_repeats < cutoff
}

/// Adaptive-proportion test: true when `data` has at least `APT_MIN_LEN` bytes and
/// its most frequent value fills less than `cutoff_percent` percent of it.
pub fn check_health_apt(data: &[u8], cutoff_percent: usize) -> (r: bool)
    ensures
        r == proportion_ok(data@, cutoff_percent as nat),
{
    if data.len() < APT_MIN_LEN {
        return false;
    }
    let m = max_byte_count(data);
    let scaled_peak = (m as u128) * 100;
    let c = cutoff_percent as u128;
    let n = data.len() as u128;
    assert(c * n <= 0xffff_ffff_ffff_ffffu128 * 0xffff_ffff_ffff_ffffu128) by (nonlinear_arith)
        requires
            c <= 0xffff_ffff_ffff_ffffu128,
            n <= 0xffff_ffff_ffff_ffffu128,
    ;
    let bound = c * n;
    scaled_peak < bound
}

/// Both health tests with their default parameters.
pub fn passes_health_checks(data: &[u8]) -> (r: bool)
    ensures
        r == healthy(data@),
{
    check_health_rct(data, RCT_CUTOFF) && check_health_apt(data, APT_CUTOFF_PERCENT)
}

} // verus!
