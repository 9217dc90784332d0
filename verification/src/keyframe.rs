//! Keyframe interpolation modes and keyframe lookup.
//!
//! Keyframe times are given here by order keys: unsigned integers whose order
//! is the order of the times they stand for (the caller maps each finite time
//! to its key). Lookup and validation only ever compare times, so they work on
//! the keys alone.

use vstd::prelude::*;

verus! {

/// Keyframe interpolation mode.
#[derive(Clone, Copy, Debug, PartialEq, Eq, Structural)]
pub enum KeyframeInterpolation {
    /// Linear interpolation between adjacent keyframes.
    Linear,
    /// Hold the previous keyframe value until the next time boundary.
    Step,
    /// Cubic Hermite spline interpolation (tangents packed as in/out slopes).
    CubicSpline,
}

/// Whether the keys never decrease.
pub open spec fn non_decreasing(keys: Seq<u32>) -> bool {
    forall|i: int, j: int| 0 <= i <= j < keys.len() ==> keys[i] <= keys[j]
}

/// Bisection of `[lo, hi]` toward the pair that brackets `time`.
pub open spec fn bisect(keys: Seq<u32>, time: u32, lo: int, hi: int) -> int
    decreases hi - lo,
{
    if hi - lo <= 1 {
        lo
    } else {
        let mid = lo + (hi - lo) / 2;
        if keys[mid] <= time {
            bisect(keys, time, mid, hi)
        } else {
            bisect(keys, time, lo, mid)
        }
    }
}

/// Left keyframe index for `time`: `0` before (or at) the first key, the last
/// index at (or after) the last key, otherwise the bisection result.
pub open spec fn bracket_left(keys: Seq<u32>, time: u32) -> int {
    if keys.len() == 0 {
        0
    } else if time <= keys[0] {
        0
    } else if time >= keys.last() {
        keys.len() - 1
    } else {
        bisect(keys, time, 0, keys.len() - 1)
    }
}

/// Bisection keeps the bracketing property `keys[lo] <= time < keys[hi]`.
proof fn lemma_bisect_brackets(keys: Seq<u32>, time: u32, lo: int, hi: int)
    requires
        0 <= lo < hi < keys.len(),
        keys[lo] <= time < keys[hi],
    ensures
        lo <= bisect(keys, time, lo, hi) < hi,
        keys[bisect(keys, time, lo, hi)] <= time < keys[bisect(keys, time, lo, hi) + 1],
    decreases hi - lo,
{
    if hi - lo > 1 {
        let mid = lo + (hi - lo) / 2;
        if keys[mid] <= time {
            lemma_bisect_brackets(keys, time, mid, hi);
        } else {
            lemma_bisect_brackets(keys, time, lo, mid);
        }
    }
}

/// Locates the left keyframe of the pair that brackets `time`.
///
/// Times at or before the first key give `0`; times at or after the last key
/// give the last index; any other time gives an index `i` with
/// `keys[i] <= time < keys[i + 1]`.
pub fn bracket_index(keys: &[u32], time: u32) -> (left: usize)
    ensures
        left == bracket_left(keys@, time),
        keys@.len() > 0 ==> left < keys@.len(),
        keys@.len() > 0 && keys@[0] < time < keys@.last() ==> keys@[left as int] <= time
            < keys@[left + 1],
{
    let n = keys.len();
    if n == 0 {
        return 0;
    }
    if time <= keys[0] {
        return 0;
    }
    if time >= keys[n - 1] {
        return n - 1;
    }
    proof {
        lemma_bisect_brackets(keys@, time, 0, n - 1);
    }
    let mut lo: usize = 0;
    let mut hi: usize = n - 1;
    while hi - lo > 1
        invariant
            n == keys@.len(),
            lo < hi < n,
            keys@[lo as int] <= time < keys@[hi as int],
            bisect(keys@, time, lo as int, hi as int) == bisect(keys@, time, 0, n - 1),
        decreases hi - lo,
    {
        let mid = lo + (hi - lo) / 2;
        if keys[mid] <= time {
            lo = mid;
        } else {
            hi = mid;
        }
    }
    lo
}

/// On non-decreasing keys, a time strictly inside the key range gets the last
/// keyframe at or before it.
pub proof fn lemma_bracket_sorted(keys: Seq<u32>, time: u32)
    requires
        non_decreasing(keys),
        keys.len() > 0,
        keys[0] < time < keys.last(),
    ensures
        keys[bracket_left(keys, time)] <= time,
        forall|j: int| bracket_left(keys, time) < j < keys.len() ==> keys[j] > time,
{
    lemma_bisect_brackets(keys, time, 0, keys.len() - 1);
}

/// Validates a packed keyframe track: at least one key, `per_key` values per
/// key, and keys that never decrease.
pub fn validate_keys(keys: &[u32], values_len: usize, per_key: usize) -> (valid: bool)
    requires
        keys@.len() * per_key <= usize::MAX,
    ensures
        valid == (keys@.len() > 0 && values_len == keys@.len() * per_key && non_decreasing(
            keys@,
        )),
{
    let n = keys.len();
    if n == 0 || values_len != n * per_key {
        return false;
    }
    let mut i: usize = 1;
    while i < n
        invariant
            1 <= i <= n,
            n == keys@.len(),
            forall|a: int, b: int| 0 <= a <= b < i ==> keys@[a] <= keys@[b],
        decreases n - i,
    {
        if keys[i] < keys[i - 1] {
            return false;
        }
        i = i + 1;
    }
    true
}

} // verus!
