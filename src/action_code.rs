//! Decoding an action score vector into the index of the chosen action.
//!
//! Scores are single-precision IEEE-754 values held as their bit patterns, so
//! that comparisons are plain integer logic with NaN and signed zero handled
//! as the standard prescribes.
use vstd::prelude::*;

verus! {

/// Bit pattern of positive zero.
pub const POSITIVE_ZERO: u32 = 0;

/// Bit pattern of the sign bit alone (negative zero).
pub const SIGN_BIT: u32 = 0x8000_0000;

/// Bit pattern of positive infinity: every larger magnitude is NaN.
pub const INFINITY_BITS: u32 = 0x7f80_0000;

/// Magnitude bits of a pattern: everything but the sign.
pub open spec fn magnitude(b: u32) -> int {
    if b >= SIGN_BIT {
        b - SIGN_BIT
    } else {
        b as int
    }
}

/// A pattern is NaN when its exponent is all ones and its mantissa is not zero.
pub open spec fn is_nan(b: u32) -> bool {
    magnitude(b) > INFINITY_BITS
}

/// Position of a non-NaN value on the number line: both zeros sit at 0.
pub open spec fn order_key(b: u32) -> int {
    if b >= SIGN_BIT {
        -magnitude(b)
    } else {
        magnitude(b)
    }
}

/// IEEE-754 `a > b`: false whenever either side is NaN.
pub open spec fn greater(a: u32, b: u32) -> bool {
    !is_nan(a) && !is_nan(b) && order_key(a) > order_key(b)
}

/// IEEE-754 `a >= b`: false whenever either side is NaN.
pub open spec fn greater_or_equal(a: u32, b: u32) -> bool {
    !is_nan(a) && !is_nan(b) && order_key(a) >= order_key(b)
}

/// Whether `r` is the index that a left-to-right scan for the first strict
/// maximum picks in `s`: the first position of the largest score. NaN scores
/// are passed over, as no comparison with NaN holds; a row with no score but
/// NaN, or an empty row, gives 0.
pub open spec fn is_decoded_index(s: Seq<u32>, r: int) -> bool {
    if forall|j: int| 0 <= j < s.len() ==> #[trigger] is_nan(s[j]) {
        r == 0
    } else {
        &&& 0 <= r < s.len()
        &&& !is_nan(s[r])
        &&& forall|j: int| 0 <= j < s.len() ==> !#[trigger] greater(s[j], s[r])
        &&& forall|j: int| 0 <= j < r ==> !#[trigger] greater_or_equal(s[j], s[r])
    }
}

/// Whatever a non-empty row holds (NaN, infinities, or only zeros as in the
/// padding after a batch that ended early), its decoded index lies inside it,
/// and a row of zeros decodes to the first action.
pub proof fn decoded_index_in_range(s: Seq<u32>, r: int)
    requires
        s.len() > 0,
        is_decoded_index(s, r),
    ensures
        0 <= r < s.len(),
        (forall|j: int| 0 <= j < s.len() ==> s[j] == POSITIVE_ZERO) ==> r == 0,
{
    if forall|j: int| 0 <= j < s.len() ==> s[j] == POSITIVE_ZERO {
        assert(!is_nan(s[0]));
        if r > 0 {
            assert(s[r] == POSITIVE_ZERO);
            assert(greater_or_equal(s[0], s[r]));
        }
    }
}

/// Exec form of [`is_nan`].
pub fn is_nan_pattern(b: u32) -> (r: bool)
    ensures
        r == is_nan(b),
{
    let m = if b >= SIGN_BIT { b - SIGN_BIT } else { b };
    m > INFINITY_BITS
}

/// Exec form of [`greater`] on two patterns.
pub fn is_greater(a: u32, b: u32) -> (r: bool)
    ensures
        r == greater(a, b),
{
    let ma = if a >= SIGN_BIT { a - SIGN_BIT } else { a };
    let mb = if b >= SIGN_BIT { b - SIGN_BIT } else { b };
    if ma > INFINITY_BITS || mb > INFINITY_BITS {
        return false;
    }
    let a_neg = a >= SIGN_BIT;
    let b_neg = b >= SIGN_BIT;
    if !a_neg && !b_neg {
        ma > mb
    } else if a_neg && b_neg {
        ma < mb
    } else if !a_neg {
        ma > 0 || mb > 0
    } else {
        false
    }
}

/// Index of the action that a score vector encodes: the first position of
/// its largest score, found by a left-to-right scan that moves on only to a
/// strictly greater score (see [`is_decoded_index`] for NaN). An all-zero
/// padding row decodes to 0.
pub fn decode_action_index(scores: &[u32]) -> (r: usize)
    ensures
        is_decoded_index(scores@, r as int),
{
    let mut found = false;
    let mut max_idx: usize = 0;
    let mut max_val: u32 = 0;
    let mut i: usize = 0;
    while i < scores.len()
        invariant
            0 <= i <= scores@.len(),
            !found ==> max_idx == 0,
            !found ==> forall|j: int| 0 <= j < i ==> #[trigger] is_nan(scores@[j]),
            found ==> {
                &&& max_idx < i
                &&& scores@[max_idx as int] == max_val
                &&& !is_nan(max_val)
                &&& forall|j: int| 0 <= j < i ==> !#[trigger] greater(scores@[j], max_val)
                &&& forall|j: int|
                    0 <= j < max_idx ==> !#[trigger] greater_or_equal(scores@[j], max_val)
            },
        decreases scores.len() - i,
    {
        let v = scores[i];
        if !found {
            if !is_nan_pattern(v) {
                assert forall|j: int| 0 <= j < i implies !greater(scores@[j], v)
                    && !greater_or_equal(scores@[j], v) by {
                    assert(is_nan(scores@[j]));
                }
                found = true;
                max_val = v;
                max_idx = i;
            }
        } else if is_greater(v, max_val) {
            assert forall|j: int| 0 <= j < i implies !greater(scores@[j], v)
                && !greater_or_equal(scores@[j], v) by {
                assert(!greater(scores@[j], max_val));
            }
            max_val = v;
            max_idx = i;
        }
        i = i + 1;
    }
    if found {
        assert(!is_nan(scores@[max_idx as int]));
    }
    max_idx
}

} // verus!
