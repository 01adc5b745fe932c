//! The IDX wire format: header layout, shape and element-count computation,
//! and the validity predicate that the decode entry points are proved against.
//!
//! Layout of a valid buffer, all big-endian with no padding:
//! two zero signature bytes, one element-type tag byte, one rank byte `R`,
//! `R` four-byte axis sizes, then `product(axes)` fixed-width elements and
//! nothing else.

use vstd::arithmetic::mul::lemma_mul_inequality;
use vstd::prelude::*;

use crate::format::{be_u32_at, be_u32_spec, DataFormat};
use crate::Error;

verus! {

/// The rank byte of the buffer.
pub open spec fn spec_rank(input: Seq<u8>) -> nat
    recommends
        input.len() >= 4,
{
    input[3] as nat
}

/// The `i`-th axis size declared in the header.
pub open spec fn spec_axis(input: Seq<u8>, i: int) -> u32 {
    be_u32_spec(input.subrange(4 + 4 * i, 8 + 4 * i))
}

/// All axis sizes declared in the header, in order.
pub open spec fn spec_axes(input: Seq<u8>) -> Seq<u32> {
    Seq::new(spec_rank(input), |i: int| spec_axis(input, i))
}

/// Axis sizes widened from the wire's 32-bit form to the platform size.
pub open spec fn widened(axes: Seq<u32>) -> Seq<usize> {
    axes.map_values(|a: u32| a as usize)
}

/// The product of the axis sizes, as the unbounded mathematical value.
pub open spec fn seq_product(axes: Seq<usize>) -> nat
    decreases axes.len(),
{
    if axes.len() == 0 {
        1
    } else {
        seq_product(axes.drop_last()) * (axes.last() as nat)
    }
}

/// The element count as the decoder computes it: a left-to-right fold with
/// overflow-checked multiplication, `None` as soon as a prefix product
/// exceeds the platform size.
pub open spec fn checked_product(axes: Seq<usize>) -> Option<usize>
    decreases axes.len(),
{
    if axes.len() == 0 {
        Some(1usize)
    } else {
        match checked_product(axes.drop_last()) {
            None => None,
            Some(p) => if p * axes.last() <= usize::MAX {
                Some((p * axes.last()) as usize)
            } else {
                None
            },
        }
    }
}

/// When the checked fold succeeds, it computed the exact product, which fits.
pub proof fn lemma_checked_product_fits(axes: Seq<usize>)
    requires
        checked_product(axes) is Some,
    ensures
        checked_product(axes).unwrap() == seq_product(axes),
        seq_product(axes) <= usize::MAX,
    decreases axes.len(),
{
    if axes.len() > 0 {
        lemma_checked_product_fits(axes.drop_last());
    }
}

/// Once the checked fold has failed on a prefix, it fails on the whole.
pub proof fn lemma_prefix_overflow(axes: Seq<usize>, k: int)
    requires
        0 <= k <= axes.len(),
        checked_product(axes.take(k)) is None,
    ensures
        checked_product(axes) is None,
    decreases axes.len() - k,
{
    if k < axes.len() {
        assert(axes.take(k + 1).drop_last() =~= axes.take(k));
        lemma_prefix_overflow(axes, k + 1);
    } else {
        assert(axes.take(k) =~= axes);
    }
}

/// Number of bytes the header occupies: signature, tag and rank bytes, then
/// one four-byte size per axis.
pub open spec fn header_len(input: Seq<u8>) -> int {
    4 + 4 * spec_rank(input) as int
}

/// The element count the shape decoder hands to the element decoder.
pub open spec fn spec_count(input: Seq<u8>) -> Option<usize> {
    checked_product(widened(spec_axes(input)))
}

/// The buffer is a complete, exactly-consumed IDX encoding for element
/// format `T`: correct signature, `T`'s tag byte, a readable header, an
/// axis product that fits the platform size, and exactly that many
/// elements of `T`'s width with no trailing byte.
pub open spec fn valid_idx<T: DataFormat>(input: Seq<u8>) -> bool {
    &&& input.len() >= 4
    &&& input[0] == 0u8
    &&& input[1] == 0u8
    &&& input[2] == T::magic_spec()
    &&& input.len() >= header_len(input)
    &&& spec_count(input) is Some
    &&& input.len() == header_len(input) + spec_count(input).unwrap() * T::width_spec()
}

/// The `i`-th element of the data section that starts at byte offset `off`.
pub open spec fn elem_at<T: DataFormat>(input: Seq<u8>, off: int, i: int) -> T {
    T::decode_spec(input.subrange(off + i * T::width_spec(), off + (i + 1) * T::width_spec()))
}

/// The first `n` elements of the data section that starts at offset `off`.
pub open spec fn spec_elems<T: DataFormat>(input: Seq<u8>, off: int, n: int) -> Seq<T> {
    Seq::new(n as nat, |i: int| elem_at::<T>(input, off, i))
}

/// Checks the tag byte against the requested element format.
pub(crate) fn check_magic_byte<T: DataFormat>(b: u8) -> (r: Result<(), Error>)
    ensures
        r is Ok <==> b == T::magic_spec(),
{
    if b == T::magic_byte() {
        Ok(())
    } else {
        Err(Error)
    }
}

/// Reads the `num_dims` axis sizes that follow the four header bytes.
pub(crate) fn read_axes(x: &[u8], num_dims: usize) -> (r: Result<Vec<u32>, Error>)
    requires
        num_dims <= 255,
    ensures
        r is Ok <==> 4 + 4 * num_dims <= x@.len(),
        r matches Ok(v) ==> v@.len() == num_dims && (forall|i: int|
            0 <= i < num_dims ==> v@[i] == spec_axis(x@, i)),
{
    let len = x.len();
    if len < 4 + 4 * num_dims {
        return Err(Error);
    }
    let mut v: Vec<u32> = Vec::new();
    let mut i: usize = 0;
    while i < num_dims
        invariant
            num_dims <= 255,
            4 + 4 * num_dims <= x@.len(),
            i <= num_dims,
            v@.len() == i,
            forall|k: int| 0 <= k < i ==> v@[k] == spec_axis(x@, k),
        decreases num_dims - i,
    {
        let a = be_u32_at(x, 4 + 4 * i);
        proof {
            assert(x@.subrange(4 + 4 * i as int, 4 + 4 * i as int + 4) =~= x@.subrange(
                4 + 4 * i as int,
                8 + 4 * i as int,
            ));
        }
        v.push(a);
        i = i + 1;
    }
    Ok(v)
}

/// Reads exactly `n` elements of format `T` starting at offset `off`, and
/// returns them with the offset of the first byte it did not consume.
pub(crate) fn decode_elems<T: DataFormat>(x: &[u8], off: usize, n: usize) -> (r: Result<
    (Vec<T>, usize),
    Error,
>)
    requires
        off <= x@.len(),
    ensures
        r is Ok <==> off + n * T::width_spec() <= x@.len(),
        r matches Ok((v, end)) ==> v@ == spec_elems::<T>(x@, off as int, n as int) && end as int
            == off + n * T::width_spec(),
{
    let w = T::width();
    proof {
        T::width_bounds();
    }
    let len = x.len();
    let mut v: Vec<T> = Vec::new();
    let mut pos: usize = off;
    let mut j: usize = 0;
    while j < n
        invariant
            T::width_spec() == w as int,
            1 <= w <= 8,
            len == x@.len(),
            off <= pos <= len,
            j <= n,
            pos as int == off + j * (w as int),
            v@.len() == j,
            forall|k: int| 0 <= k < j ==> v@[k] == elem_at::<T>(x@, off as int, k),
        decreases n - j,
    {
        if len - pos < w {
            proof {
                lemma_mul_inequality(j as int + 1, n as int, w as int);
                assert((j as int + 1) * (w as int) == j as int * (w as int) + w as int)
                    by (nonlinear_arith);
            }
            return Err(Error);
        }
        let e = T::decode_at(x, pos);
        v.push(e);
        proof {
            assert((j as int + 1) * (w as int) == j as int * (w as int) + w as int)
                by (nonlinear_arith);
        }
        pos = pos + w;
        j = j + 1;
    }
    proof {
        assert(v@ =~= spec_elems::<T>(x@, off as int, n as int));
    }
    Ok((v, pos))
}

} // verus!
