//! The array value whose rank is carried at run time: the rank byte of the
//! file decides how many axes are read, and no rank is demanded up front.

use vstd::prelude::*;

use crate::format::DataFormat;
use crate::wire::{
    check_magic_byte, checked_product, decode_elems, header_len, lemma_checked_product_fits,
    lemma_prefix_overflow, read_axes, seq_product, spec_axes, spec_axis, spec_count, spec_elems, spec_rank, valid_idx,
    widened,
};
use crate::Error;

verus! {

/// The array read from an IDX buffer: its axis sizes, widened to the
/// platform size, and a flat run of elements in file order whose length is
/// the product of the axes.
#[derive(Debug, Clone)]
pub struct IdxArray<T> {
    dims: Vec<usize>,
    data: Vec<T>,
}

impl<T> IdxArray<T> {
    /// The axis sizes, in header order.
    pub closed spec fn dims_spec(self) -> Seq<usize> {
        self.dims@
    }

    /// The flat element sequence, in file order.
    pub closed spec fn data_spec(self) -> Seq<T> {
        self.data@
    }

    /// The value's invariant: as many elements as the axes' product. Every
    /// successful decode establishes it.
    pub open spec fn wf(self) -> bool {
        self.data_spec().len() == seq_product(self.dims_spec())
    }

    /// Returns the raw contents of the `IdxArray`.
    pub fn dims_data(self) -> (r: (Vec<usize>, Vec<T>))
        ensures
            r.0@ == self.dims_spec(),
            r.1@ == self.data_spec(),
    {
        (self.dims, self.data)
    }
}

/// Reads the signature and tag bytes and returns the number of dimensions
/// that the rank byte declares.
pub(crate) fn parse_magic_number<T: DataFormat>(x: &[u8]) -> (r: Result<usize, Error>)
    ensures
        r is Ok <==> x@.len() >= 4 && x@[0] == 0u8 && x@[1] == 0u8 && x@[2] == T::magic_spec(),
        r matches Ok(d) ==> d as nat == spec_rank(x@) && d <= 255,
{
    if x.len() < 4 {
        return Err(Error);
    }
    if x[0] != 0u8 || x[1] != 0u8 {
        return Err(Error);
    }
    if check_magic_byte::<T>(x[2]).is_err() {
        return Err(Error);
    }
    Ok(x[3] as usize)
}

/// Reads the declared axis sizes, widening each to the platform size.
pub(crate) fn parse_dims(x: &[u8], num_dims: usize) -> (r: Result<Vec<usize>, Error>)
    requires
        num_dims <= 255,
    ensures
        r is Ok <==> 4 + 4 * num_dims <= x@.len(),
        r matches Ok(v) ==> v@.len() == num_dims && (forall|i: int|
            0 <= i < num_dims ==> v@[i] == spec_axis(x@, i) as usize),
{
    let axes = match read_axes(x, num_dims) {
        Ok(a) => a,
        Err(_) => {
            return Err(Error);
        },
    };
    let mut v: Vec<usize> = Vec::new();
    let mut i: usize = 0;
    while i < axes.len()
        invariant
            axes@.len() == num_dims,
            forall|k: int| 0 <= k < num_dims ==> axes@[k] == spec_axis(x@, k),
            i <= num_dims,
            v@.len() == i,
            forall|k: int| 0 <= k < i ==> v@[k] == spec_axis(x@, k) as usize,
        decreases axes@.len() - i,
    {
        v.push(axes[i] as usize);
        i = i + 1;
    }
    Ok(v)
}

/// Parses the whole header: signature, tag, rank byte and axis sizes.
pub(crate) fn parse_header<T: DataFormat>(x: &[u8]) -> (r: Result<Vec<usize>, Error>)
    ensures
        r is Ok <==> x@.len() >= 4 && x@[0] == 0u8 && x@[1] == 0u8 && x@[2] == T::magic_spec()
            && x@.len() >= header_len(x@),
        r matches Ok(v) ==> v@ == widened(spec_axes(x@)),
{
    let num_dims = match parse_magic_number::<T>(x) {
        Ok(d) => d,
        Err(_) => {
            return Err(Error);
        },
    };
    let dims = match parse_dims(x, num_dims) {
        Ok(d) => d,
        Err(_) => {
            return Err(Error);
        },
    };
    proof {
        assert(dims@ =~= widened(spec_axes(x@)));
    }
    Ok(dims)
}

/// Reads the elements that the axis sizes call for, starting at `pos`, and
/// returns them with the offset of the first byte left unread. The element
/// count comes from the axes by overflow-checked multiplication; an
/// overflowing product is a decode failure.
pub(crate) fn parse_body<T: DataFormat>(x: &[u8], pos: usize, dims: &Vec<usize>) -> (r: Result<
    (Vec<T>, usize),
    Error,
>)
    requires
        pos <= x@.len(),
    ensures
        r is Ok <==> checked_product(dims@) is Some && pos + checked_product(
            dims@,
        ).unwrap() * T::width_spec() <= x@.len(),
        r matches Ok((v, end)) ==> v@ == spec_elems::<T>(
            x@,
            pos as int,
            checked_product(dims@).unwrap() as int,
        ) && end as int == pos + checked_product(dims@).unwrap() * T::width_spec(),
{
    let mut elements: usize = 1;
    let mut i: usize = 0;
    while i < dims.len()
        invariant
            i <= dims@.len(),
            Some(elements) == checked_product(dims@.take(i as int)),
        decreases dims@.len() - i,
    {
        proof {
            assert(dims@.take(i as int + 1).drop_last() =~= dims@.take(i as int));
        }
        elements = match elements.checked_mul(dims[i]) {
            Some(a) => a,
            None => {
                proof {
                    lemma_prefix_overflow(dims@, i as int + 1);
                }
                return Err(Error);
            },
        };
        i = i + 1;
    }
    proof {
        assert(dims@.take(dims@.len() as int) =~= dims@);
    }
    decode_elems::<T>(x, pos, elements)
}

/// Parses a whole IDX buffer of element format `T` with whatever rank its
/// header declares. Succeeds exactly on the complete, exactly consumed
/// encodings of that format, and then returns the declared axes and the
/// decoded elements in file order.
pub fn parse<T: DataFormat>(x: &[u8]) -> (r: Result<IdxArray<T>, Error>)
    ensures
        r is Ok <==> valid_idx::<T>(x@),
        r matches Ok(a) ==> {
            &&& a.wf()
            &&& a.dims_spec() == widened(spec_axes(x@))
            &&& a.data_spec() == spec_elems::<T>(
                x@,
                header_len(x@),
                spec_count(x@).unwrap() as int,
            )
        },
{
    let len = x.len();
    let dims = match parse_header::<T>(x) {
        Ok(d) => d,
        Err(_) => {
            return Err(Error);
        },
    };
    let pos: usize = 4 + 4 * dims.len();
    let (data, end) = match parse_body::<T>(x, pos, &dims) {
        Ok(de) => de,
        Err(_) => {
            proof {
                if spec_count(x@) is Some {
                    lemma_checked_product_fits(widened(spec_axes(x@)));
                }
            }
            return Err(Error);
        },
    };
    if end != len {
        return Err(Error);
    }
    proof {
        lemma_checked_product_fits(widened(spec_axes(x@)));
    }
    Ok(IdxArray { dims, data })
}

impl<T: DataFormat> IdxArray<T> {
    /// Parses `input`, which is the raw contents of an IDX file, into the
    /// array it encodes. Succeeds exactly where `parse` does.
    pub fn new(input: &[u8]) -> (r: Result<IdxArray<T>, ()>)
        ensures
            r is Ok <==> valid_idx::<T>(input@),
            r matches Ok(a) ==> {
                &&& a.wf()
                &&& a.dims_spec() == widened(spec_axes(input@))
                &&& a.data_spec() == spec_elems::<T>(
                    input@,
                    header_len(input@),
                    spec_count(input@).unwrap() as int,
                )
            },
    {
        match parse::<T>(input) {
            Ok(array) => Ok(array),
            Err(_) => Err(()),
        }
    }
}

} // verus!
