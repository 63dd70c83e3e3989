//! Normalisation of non-finite metric values.
//!
//! Every metric value in this library is the bit pattern of an IEEE 754
//! binary64 number. A binary64 value is non-finite (an infinity or a NaN)
//! exactly when its eleven exponent bits are all ones; the sanitizer maps
//! every such pattern to `0` — the bit pattern of positive zero — and
//! leaves finite patterns untouched. Downstream consumers of the emitted
//! tables reject or mis-parse non-finite cells, so every row is sanitised
//! once, after all of its columns are populated.

use vstd::prelude::*;

verus! {

/// Whether `bits`, read as an IEEE 754 binary64 pattern, denotes a finite
/// number: the exponent field (bits 52..=62) is not all ones.
pub open spec fn spec_is_finite(bits: u64) -> bool {
    (bits >> 52) & 0x7ff != 0x7ff
}

/// The sanitised form of one metric value: finite patterns pass through,
/// non-finite ones collapse to the pattern of positive zero.
pub open spec fn spec_sanitize(bits: u64) -> u64 {
    if spec_is_finite(bits) {
        bits
    } else {
        0
    }
}

/// The zero pattern is finite, so a sanitised value always is.
pub broadcast proof fn lemma_sanitize_finite(bits: u64)
    ensures
        spec_is_finite(#[trigger] spec_sanitize(bits)),
{
    assert((0u64 >> 52) & 0x7ff != 0x7ff) by (bit_vector);
}

/// Replace a non-finite metric value by zero; finite values are unchanged.
pub fn sanitize(bits: u64) -> (r: u64)
    ensures
        r == spec_sanitize(bits),
        spec_is_finite(r),
{
    proof {
        lemma_sanitize_finite(bits);
    }
    if (bits >> 52) & 0x7ff != 0x7ff {
        bits
    } else {
        0
    }
}

/// Zeroing of the non-finite metric values held by a record.
///
/// Each implementor states, through [`ReplaceInfNan::sanitized_from`], how
/// the rewritten record relates to the original: every metric value is
/// sanitised, everything else (names, paths, line numbers) is untouched.
pub trait ReplaceInfNan: Sized {
    spec fn sanitized_from(post: Self, pre: Self) -> bool;

    fn replace_inf_nan(&mut self)
        ensures
            Self::sanitized_from(*final(self), *old(self)),
    ;
}

impl ReplaceInfNan for u64 {
    /// On a single metric value the rewrite is exactly [`spec_sanitize`].
    open spec fn sanitized_from(post: u64, pre: u64) -> bool {
        post == spec_sanitize(pre)
    }

    fn replace_inf_nan(&mut self) {
        *self = sanitize(*self);
    }
}

} // verus!
