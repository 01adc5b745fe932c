//! Laws of the decode pipeline, stated against the validity predicate that
//! every decode entry point's contract is an exact test of: whatever holds
//! of `valid_idx` holds of what `parse` accepts.

use vstd::prelude::*;

use crate::format::DataFormat;
use crate::wire::{
    checked_product, header_len, lemma_checked_product_fits, seq_product, spec_axes, spec_axis,
    spec_rank, valid_idx, widened,
};

verus! {

/// A buffer whose tag byte differs from the requested element format's magic
/// is never a valid encoding for that format, regardless of what follows the
/// tag: decoding it fails.
pub proof fn lemma_tag_mismatch_rejected<T: DataFormat>(input: Seq<u8>)
    requires
        input.len() >= 3,
        input[2] != T::magic_spec(),
    ensures
        !valid_idx::<T>(input),
{
}

/// Appending any extra byte to a structurally valid, fully consumed encoding
/// yields a buffer that is no longer valid: decoding it fails.
pub proof fn lemma_trailing_byte_rejected<T: DataFormat>(input: Seq<u8>, b: u8)
    requires
        valid_idx::<T>(input),
    ensures
        !valid_idx::<T>(input.push(b)),
{
    let ext = input.push(b);
    assert(ext[0] == input[0] && ext[1] == input[1] && ext[2] == input[2] && ext[3] == input[3]);
    assert forall|i: int| 0 <= i < spec_rank(input) as int implies spec_axis(ext, i) == spec_axis(
        input,
        i,
    ) by {
        assert(ext.subrange(4 + 4 * i, 8 + 4 * i) =~= input.subrange(4 + 4 * i, 8 + 4 * i));
    }
    assert(spec_axes(ext) =~= spec_axes(input));
}

/// Truncating a structurally valid encoding anywhere strictly before its
/// declared end yields a buffer that is no longer valid: decoding it fails.
pub proof fn lemma_truncation_rejected<T: DataFormat>(input: Seq<u8>, k: int)
    requires
        valid_idx::<T>(input),
        0 <= k < input.len(),
    ensures
        !valid_idx::<T>(input.take(k)),
{
    let t = input.take(k);
    if k >= 4 {
        assert(t[0] == input[0] && t[1] == input[1] && t[2] == input[2] && t[3] == input[3]);
        assert(spec_rank(t) == spec_rank(input));
        if k >= header_len(input) {
            assert forall|i: int|
                0 <= i < spec_rank(input) as int implies spec_axis(t, i) == spec_axis(
                input,
                i,
            ) by {
                assert(t.subrange(4 + 4 * i, 8 + 4 * i) =~= input.subrange(4 + 4 * i, 8 + 4 * i));
            }
            assert(spec_axes(t) =~= spec_axes(input));
        }
    }
}

/// A shape whose axis product exceeds the maximum representable size never
/// decodes: the overflow-checked count computation refuses it, so there is
/// no wraparound success.
pub proof fn lemma_product_overflow_rejected<T: DataFormat>(input: Seq<u8>)
    requires
        seq_product(widened(spec_axes(input))) > usize::MAX,
    ensures
        !valid_idx::<T>(input),
{
    if checked_product(widened(spec_axes(input))) is Some {
        lemma_checked_product_fits(widened(spec_axes(input)));
    }
}

} // verus!
