//! The array value with its rank fixed at the type level: a file whose rank
//! byte differs from `N` is rejected before its axes are read.

use vstd::arithmetic::mul::lemma_mul_inequality;
use vstd::prelude::*;
use vstd::slice::{slice_subrange, slice_to_vec};

use crate::format::DataFormat;
use crate::gray::{gray_from_exact, gray_height, gray_pixels, gray_width, GrayFrame};
use crate::wire::{
    check_magic_byte, checked_product, decode_elems, header_len, lemma_checked_product_fits,
    lemma_prefix_overflow, read_axes, seq_product, spec_axes, spec_count, spec_elems, spec_rank, valid_idx, widened,
};
use crate::Error;

verus! {

/// The array read from an IDX buffer: `N` axis sizes and a flat run of
/// elements in file order, whose length is the product of the axes.
#[derive(Debug, Clone)]
pub struct IdxArray<T, const N: usize> {
    dims: Vec<u32>,
    data: Vec<T>,
}

impl<T, const N: usize> IdxArray<T, N> {
    /// The axis sizes, in header order.
    pub closed spec fn dims_spec(self) -> Seq<u32> {
        self.dims@
    }

    /// The flat element sequence, in file order.
    pub closed spec fn data_spec(self) -> Seq<T> {
        self.data@
    }

    /// The value's invariant: exactly `N` axes, and as many elements as the
    /// axes' product. Every successful decode establishes it.
    pub open spec fn wf(self) -> bool {
        &&& self.dims_spec().len() == N
        &&& self.data_spec().len() == seq_product(widened(self.dims_spec()))
    }

    /// Returns the raw contents of the `IdxArray`.
    pub fn dims_data(self) -> (r: (Vec<u32>, Vec<T>))
        ensures
            r.0@ == self.dims_spec(),
            r.1@ == self.data_spec(),
    {
        (self.dims, self.data)
    }
}

/// Checks the rank byte against the rank `N` that the array type fixes.
pub(crate) fn check_num_dims<const N: usize>(num_dims: u8) -> (r: Result<usize, Error>)
    ensures
        r is Ok <==> num_dims as nat == N as nat,
        r matches Ok(d) ==> d == N && d == num_dims as usize,
{
    let nd = num_dims as usize;
    if nd == N {
        Ok(nd)
    } else {
        Err(Error)
    }
}

/// Computes the element count from the axis sizes with overflow-checked
/// multiplication; an overflowing product is a decode failure, never a
/// silent wraparound.
pub(crate) fn check_dims_dimensions(dims: &Vec<u32>) -> (r: Result<usize, Error>)
    ensures
        r is Ok <==> checked_product(widened(dims@)) is Some,
        r matches Ok(p) ==> Some(p) == checked_product(widened(dims@)),
{
    let mut acc: usize = 1;
    let mut i: usize = 0;
    while i < dims.len()
        invariant
            i <= dims@.len(),
            Some(acc) == checked_product(widened(dims@).take(i as int)),
        decreases dims@.len() - i,
    {
        let d = dims[i] as usize;
        proof {
            assert(widened(dims@).take(i as int + 1).drop_last() =~= widened(dims@).take(i as int));
            assert(widened(dims@).take(i as int + 1).last() == d);
        }
        acc = match acc.checked_mul(d) {
            Some(a) => a,
            None => {
                proof {
                    lemma_prefix_overflow(widened(dims@), i as int + 1);
                }
                return Err(Error);
            },
        };
        i = i + 1;
    }
    proof {
        assert(widened(dims@).take(dims@.len() as int) =~= widened(dims@));
    }
    Ok(acc)
}

impl<T: DataFormat, const N: usize> IdxArray<T, N> {
    /// Parses `input`, which is the raw contents of an IDX file.
    ///
    /// Assumes you know the element format before it is parsed (the tag byte
    /// is checked against the requested format, never inferred), and demands
    /// rank `N` of the file. Succeeds exactly on the complete, exactly
    /// consumed encodings of that format and rank, and then returns the
    /// declared axes and the decoded elements in file order.
    pub fn parse(input: &[u8]) -> (r: Result<Self, Error>)
        ensures
            r is Ok <==> valid_idx::<T>(input@) && spec_rank(input@) == N as nat,
            r matches Ok(a) ==> {
                &&& a.wf()
                &&& a.dims_spec() == spec_axes(input@)
                &&& a.data_spec() == spec_elems::<T>(
                    input@,
                    header_len(input@),
                    spec_count(input@).unwrap() as int,
                )
            },
    {
        let len = input.len();
        if len < 4 {
            return Err(Error);
        }
        if input[0] != 0u8 || input[1] != 0u8 {
            return Err(Error);
        }
        if check_magic_byte::<T>(input[2]).is_err() {
            return Err(Error);
        }
        let num_dims = match check_num_dims::<N>(input[3]) {
            Ok(d) => d,
            Err(_) => {
                return Err(Error);
            },
        };
        let dims = match read_axes(input, num_dims) {
            Ok(d) => d,
            Err(_) => {
                return Err(Error);
            },
        };
        proof {
            assert(dims@ =~= spec_axes(input@));
        }
        let elements = match check_dims_dimensions(&dims) {
            Ok(p) => p,
            Err(_) => {
                return Err(Error);
            },
        };
        let (data, end) = match decode_elems::<T>(input, 4 + 4 * num_dims, elements) {
            Ok(de) => de,
            Err(_) => {
                proof {
                    lemma_checked_product_fits(widened(spec_axes(input@)));
                }
                return Err(Error);
            },
        };
        if end != len {
            return Err(Error);
        }
        proof {
            lemma_checked_product_fits(widened(spec_axes(input@)));
        }
        Ok(IdxArray { dims, data })
    }
}

/// The product of three axis sizes, folded as the element-count computation
/// folds it.
proof fn lemma_product3(s: Seq<usize>)
    requires
        s.len() == 3,
    ensures
        seq_product(s) == (s[0] as nat * s[1] as nat) * s[2] as nat,
{
    let s2 = s.drop_last();
    let s1 = s2.drop_last();
    let s0 = s1.drop_last();
    assert(s0.len() == 0);
    assert(seq_product(s0) == 1);
    assert(s1.last() == s[0]);
    assert(s2.last() == s[1]);
    assert(s.last() == s[2]);
    assert(seq_product(s1) == seq_product(s0) * s1.last() as nat);
    assert(seq_product(s2) == seq_product(s1) * s2.last() as nat);
    assert(seq_product(s) == seq_product(s2) * s.last() as nat);
    assert((1 * s[0] as nat) * s[1] as nat == s[0] as nat * s[1] as nat) by (nonlinear_arith);
}

impl IdxArray<u8, 3> {
    /// Returns the sequence of grayscale images, assuming that `self` is a
    /// sequence of images over its first axis: axis 0 counts the images, and
    /// axes 1 and 2 are each image's height and width. Every image receives
    /// its own `height * width` contiguous run of the element sequence, in
    /// order.
    pub fn as_gray_image_sequence(&self) -> (r: Vec<GrayFrame>)
        requires
            self.wf(),
        ensures
            r@.len() == self.dims_spec()[0] as nat,
            forall|i: int|
                0 <= i < r@.len() ==> (
                {
                    let hw = self.dims_spec()[1] as int * self.dims_spec()[2] as int;
                    &&& gray_width(#[trigger] r@[i]) == self.dims_spec()[2]
                    &&& gray_height(r@[i]) == self.dims_spec()[1]
                    &&& gray_pixels(r@[i]) == self.data_spec().subrange(i * hw, (i + 1) * hw)
                }),
    {
        let ghost hw = self.dims_spec()[1] as int * self.dims_spec()[2] as int;
        let count = self.dims[0];
        let height = self.dims[1];
        let width = self.dims[2];
        let mut frames: Vec<GrayFrame> = Vec::new();
        if count == 0 {
            return frames;
        }
        let total = self.data.len();
        proof {
            lemma_product3(widened(self.dims_spec()));
            assert((count as int * height as int) * width as int == count as int * hw)
                by (nonlinear_arith)
                requires
                    hw == height as int * width as int,
            ;
            assert(hw <= count as int * hw) by (nonlinear_arith)
                requires
                    count >= 1,
                    hw >= 0,
            ;
        }
        let chunk = (height as usize) * (width as usize);
        let n_img = count as usize;
        let mut start: usize = 0;
        let mut i: usize = 0;
        while i < n_img
            invariant
                self.wf(),
                hw == self.dims_spec()[1] as int * self.dims_spec()[2] as int,
                height == self.dims_spec()[1],
                width == self.dims_spec()[2],
                n_img as int == self.dims_spec()[0] as int,
                chunk as int == hw,
                total == self.data_spec().len(),
                total as int == n_img as int * hw,
                i <= n_img,
                start as int == i * hw,
                frames@.len() == i,
                forall|k: int|
                    0 <= k < i ==> (
                    {
                        &&& gray_width(#[trigger] frames@[k]) == self.dims_spec()[2]
                        &&& gray_height(frames@[k]) == self.dims_spec()[1]
                        &&& gray_pixels(frames@[k]) == self.data_spec().subrange(
                            k * hw,
                            (k + 1) * hw,
                        )
                    }),
            decreases n_img - i,
        {
            proof {
                lemma_mul_inequality(i as int + 1, n_img as int, hw);
                assert((i as int + 1) * hw == i as int * hw + hw) by (nonlinear_arith);
                assert(width as int * height as int == hw) by (nonlinear_arith)
                    requires
                        hw == height as int * width as int,
                ;
            }
            let end: usize = start + chunk;
            let piece = slice_to_vec(slice_subrange(self.data.as_slice(), start, end));
            let frame = gray_from_exact(width, height, piece);
            frames.push(frame);
            start = end;
            i = i + 1;
        }
        frames
    }
}

impl<T> IdxArray<T, 1> {
    /// Returns the contents of this array as a linear sequence; for a rank-1
    /// array the flat element run already is one.
    pub fn into_sequence(self) -> (r: Vec<T>)
        ensures
            r@ == self.data_spec(),
    {
        self.data
    }
}

} // verus!
