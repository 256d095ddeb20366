//! The period search: first dip below the threshold, refined to its local
//! minimum, with a global-minimum fallback.
//!
//! The search reads the cumulative-mean-normalized difference values only
//! through comparisons, so it is stated and verified here over
//! order-preserving integer keys of those values.

use vstd::prelude::*;
use crate::refine::{pitch_method_of, PitchMethod};

verus! {

/// Some lag from 2 upward dips strictly below the threshold.
pub open spec fn dip_exists(s: Seq<u32>, threshold: u32) -> bool {
    exists|t: int| 2 <= t < s.len() && s[t] < threshold
}

/// `d` is the first lag, scanning from 2 upward, whose value is strictly
/// below the threshold.
pub open spec fn is_first_dip(s: Seq<u32>, threshold: u32, d: int) -> bool {
    &&& 2 <= d < s.len()
    &&& s[d] < threshold
    &&& forall|i: int| 2 <= i < d ==> s[i] >= threshold
}

/// Walking forward from `d` while the next value is strictly smaller ends at
/// `r`: every step up to `r` descends, and at `r` either the buffer ends or
/// the next value does not descend any further.
pub open spec fn is_descent_end(s: Seq<u32>, d: int, r: int) -> bool {
    &&& d <= r < s.len()
    &&& forall|i: int| d <= i < r ==> s[i + 1] < #[trigger] s[i]
    &&& (r + 1 < s.len() ==> s[r + 1] >= s[r])
}

/// `r` is the position of the global minimum of the whole buffer, taking the
/// first position when the minimum occurs more than once.
pub open spec fn is_first_minimum(s: Seq<u32>, r: int) -> bool {
    &&& 0 <= r < s.len()
    &&& forall|i: int| 0 <= i < s.len() ==> s[r] <= s[i]
    &&& forall|i: int| 0 <= i < r ==> s[i] > s[r]
}

/// The lag the search selects on buffer `s` with the given threshold: the
/// local minimum reached from the first dip below the threshold when there is
/// one, and otherwise the first global minimum of the whole buffer.
pub open spec fn tau_selected(s: Seq<u32>, threshold: u32, r: int) -> bool {
    if dip_exists(s, threshold) {
        exists|d: int| is_first_dip(s, threshold, d) && is_descent_end(s, d, r)
    } else {
        is_first_minimum(s, r)
    }
}

/// The threshold-based period search. Scans lags from 2 upward for the first
/// value strictly below the threshold, walks forward to the local minimum of
/// that dip, and when no lag dips below the threshold falls back to the first
/// global minimum of the whole buffer, so a lag is always selected.
pub fn select_tau(cmnd: &Vec<u32>, threshold: u32) -> (r: usize)
    requires
        cmnd.len() >= 1,
    ensures
        r < cmnd.len(),
        tau_selected(cmnd@, threshold, r as int),
{
    let n = cmnd.len();
    let mut tau: usize = 2;
    while tau < n
        invariant
            2 <= tau,
            n == cmnd.len(),
            forall|i: int| 2 <= i < tau && i < n ==> cmnd@[i] >= threshold,
        decreases n - tau,
    {
        if cmnd[tau] < threshold {
            let ghost d: int = tau as int;
            let mut local: usize = tau;
            while local + 1 < n && cmnd[local + 1] < cmnd[local]
                invariant
                    n == cmnd.len(),
                    2 <= d <= local < n,
                    cmnd@[d] < threshold,
                    forall|i: int| 2 <= i < d ==> cmnd@[i] >= threshold,
                    forall|i: int| d <= i < local ==> cmnd@[i + 1] < #[trigger] cmnd@[i],
                decreases n - local,
            {
                local = local + 1;
            }
            proof {
                assert(is_first_dip(cmnd@, threshold, d));
                assert(is_descent_end(cmnd@, d, local as int));
            }
            return local;
        }
        tau = tau + 1;
    }
    let mut best: usize = 0;
    let mut best_val: u32 = cmnd[0];
    let mut i: usize = 1;
    while i < n
        invariant
            n == cmnd.len(),
            1 <= i <= n,
            best < i,
            best_val == cmnd@[best as int],
            forall|j: int| 0 <= j < i ==> cmnd@[j] >= best_val,
            forall|j: int| 0 <= j < best ==> cmnd@[j] > best_val,
        decreases n - i,
    {
        if cmnd[i] < best_val {
            best_val = cmnd[i];
            best = i;
        }
        i = i + 1;
    }
    proof {
        assert(is_first_minimum(cmnd@, best as int));
        assert(!dip_exists(cmnd@, threshold));
    }
    best
}

/// The buffer and the threshold alone determine the selected lag: any two
/// lags that both satisfy the selection predicate are equal. Together with
/// the contract of [`select_tau`], this is the determinism of the search.
pub proof fn lemma_selected_tau_unique(s: Seq<u32>, threshold: u32, r1: int, r2: int)
    requires
        tau_selected(s, threshold, r1),
        tau_selected(s, threshold, r2),
    ensures
        r1 == r2,
{
    if dip_exists(s, threshold) {
        let d1 = choose|d: int| is_first_dip(s, threshold, d) && is_descent_end(s, d, r1);
        let d2 = choose|d: int| is_first_dip(s, threshold, d) && is_descent_end(s, d, r2);
        if d1 < d2 {
            assert(s[d1] >= threshold);
            assert(false);
        }
        if d2 < d1 {
            assert(s[d2] >= threshold);
            assert(false);
        }
        if r1 < r2 {
            assert(s[r1 + 1] < s[r1]);
            assert(s[r1 + 1] >= s[r1]);
            assert(false);
        }
        if r2 < r1 {
            assert(s[r2 + 1] < s[r2]);
            assert(s[r2 + 1] >= s[r2]);
            assert(false);
        }
    } else {
        if r1 < r2 {
            assert(s[r1] > s[r2]);
            assert(s[r1] <= s[r2]);
            assert(false);
        }
        if r2 < r1 {
            assert(s[r2] > s[r1]);
            assert(s[r2] <= s[r1]);
            assert(false);
        }
    }
}

/// On a buffer whose values are all equal and not below the threshold — the
/// shape the normalization produces for silent input, where every value is
/// set to one — no dip exists, the fallback selects lag zero, and lag zero
/// yields no pitch.
pub proof fn lemma_uniform_buffer_selects_zero(s: Seq<u32>, threshold: u32)
    requires
        s.len() >= 1,
        forall|i: int| 0 <= i < s.len() ==> #[trigger] s[i] == s[0],
        s[0] >= threshold,
    ensures
        tau_selected(s, threshold, 0),
        pitch_method_of(0, s.len() as int) == PitchMethod::NoPitch,
{
    assert forall|t: int| 2 <= t < s.len() implies s[t] >= threshold by {
        assert(s[t] == s[0]);
    }
    assert(!dip_exists(s, threshold));
    assert forall|i: int| 0 <= i < s.len() implies s[0] <= #[trigger] s[i] by {
        assert(s[i] == s[0]);
    }
    assert(is_first_minimum(s, 0));
}

} // verus!
