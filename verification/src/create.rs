//! Tensor construction: the data-source abstraction and the shape policy.
//!
//! Many host-side data representations are normalised into a single
//! (shape, data, anchor) triple and handed to the engine.  The policy is
//! part of the contract, since it decides whether mutations alias caller
//! memory: borrowed contiguous data and shared-owned data are referenced
//! without a copy, an owned buffer is taken over and becomes the anchor,
//! string data is always copied, and a raw-pointer constructor exists for
//! pre-allocated device memory that is validated no further.
//!
//! Shape validation is the other half: every requested dimension must be at
//! least one, and the product of the dimensions must equal the supplied
//! element count exactly; the errors name the offending dimension index or
//! the two counts.

use vstd::prelude::*;
use vstd::string::StringExecFns;

use std::sync::Arc;

use crate::engine::Engine;
use crate::error::{Error, ErrorCode};
use crate::memory::{AllocationDevice, Allocator, AllocatorType, MemoryInfo, MemoryType};
use crate::tensor::{
    lemma_shape_size_nonneg, lemma_shape_size_snoc, lemma_shape_size_take_le, spec_dims_ok,
    spec_shape_size, PrimitiveTensorElementType, TensorElementType,
};
use crate::text::{spec_decimal, u64_to_string};
use crate::value::{
    spec_tensor_descriptor, BackingKind, Tensor, TensorRef, TensorRefMut, Value, ValueType,
};

verus! {

/// A shape with a non-positive dimension denotes no elements.
proof fn lemma_shape_size_zero_at(s: Seq<i64>, i: int)
    requires
        0 <= i < s.len(),
        s[i] <= 0,
    ensures
        spec_shape_size(s) <= 0,
    decreases i,
{
    let rest = s.subrange(1, s.len() as int);
    if i == 0 {
        if s[0] == 0 {
            lemma_shape_size_nonneg(rest);
        }
    } else {
        lemma_shape_size_zero_at(rest, i - 1);
        if s[0] >= 0 {
            assert(s[0] * spec_shape_size(rest) <= 0) by (nonlinear_arith)
                requires
                    s[0] >= 0,
                    spec_shape_size(rest) <= 0,
            ;
        }
    }
}

/// The element count a shape denotes, if it fits the host's address space.
pub fn checked_tensor_size(shape: &[i64]) -> (r: Option<usize>)
    ensures
        r is Some <==> 0 <= spec_shape_size(shape@) <= usize::MAX,
        r matches Some(n) ==> n as int == spec_shape_size(shape@),
{
    let n = shape.len();
    let mut i: usize = 0;
    while i < n
        invariant
            i <= n,
            n == shape@.len(),
            forall|k: int| 0 <= k < i ==> #[trigger] shape@[k] >= 1,
        decreases n - i,
    {
        if shape[i] <= 0 {
            if shape[i] < 0 {
                proof {
                    lemma_shape_size_zero_at(shape@, i as int);
                    lemma_shape_size_nonneg(shape@);
                }
                return Some(0);
            }
            proof {
                lemma_shape_size_zero_at(shape@, i as int);
                lemma_shape_size_nonneg(shape@);
            }
            return Some(0);
        }
        i = i + 1;
    }
    proof {
        assert(spec_dims_ok(shape@));
    }
    let mut size: usize = 1;
    i = 0;
    proof {
        assert(shape@.take(0) =~= Seq::<i64>::empty());
    }
    while i < n
        invariant
            i <= n,
            n == shape@.len(),
            spec_dims_ok(shape@),
            size as int == spec_shape_size(shape@.take(i as int)),
        decreases n - i,
    {
        let d = shape[i];
        proof {
            let pre = shape@.take(i as int);
            assert(shape@.take(i + 1) =~= pre.push(d));
            assert(forall|t: int| 0 <= t < pre.len() ==> #[trigger] pre[t] >= 0);
            lemma_shape_size_snoc(pre, d);
            lemma_shape_size_take_le(shape@, i as int);
        }
        if d as u64 > usize::MAX as u64 {
            proof {
                let pre = shape@.take(i as int);
                assert(spec_shape_size(pre) * d >= 1 * d) by (nonlinear_arith)
                    requires
                        spec_shape_size(pre) >= 1,
                        d >= 1,
                ;
                lemma_shape_size_take_le(shape@, i + 1);
            }
            return Option::None;
        }
        match size.checked_mul(d as usize) {
            Some(next) => {
                size = next;
            },
            Option::None => {
                proof {
                    lemma_shape_size_take_le(shape@, i + 1);
                }
                return Option::None;
            },
        }
        i = i + 1;
    }
    proof {
        assert(shape@.take(n as int) =~= shape@);
        lemma_shape_size_nonneg(shape@);
    }
    Some(size)
}

/// The element count a shape denotes: the product of its dimensions, zero
/// for any negative dimension, saturating at the host's address-space limit.
pub fn calculate_tensor_size(shape: &[i64]) -> (r: usize)
    ensures
        spec_shape_size(shape@) <= usize::MAX ==> r as int == spec_shape_size(shape@),
        spec_shape_size(shape@) > usize::MAX ==> r == usize::MAX,
{
    proof {
        lemma_shape_size_nonneg(shape@);
    }
    match checked_tensor_size(shape) {
        Some(n) => n,
        Option::None => usize::MAX,
    }
}

/// The element count a shape denotes, saturated at the host's
/// address-space limit (how the count is reported in error messages).
pub open spec fn spec_saturated_size(s: Seq<i64>) -> int {
    if spec_shape_size(s) <= usize::MAX {
        spec_shape_size(s)
    } else {
        usize::MAX as int
    }
}

/// The first index at or after `from` holding a dimension below one, or
/// `s.len()` if there is none.
pub open spec fn find_bad_dim(s: Seq<i64>, from: int) -> int
    recommends
        0 <= from <= s.len(),
    decreases s.len() - from,
{
    if from < 0 || from >= s.len() {
        s.len() as int
    } else if s[from] < 1 {
        from
    } else {
        find_bad_dim(s, from + 1)
    }
}

proof fn lemma_find_bad_dim_is(s: Seq<i64>, from: int, idx: int)
    requires
        0 <= from <= idx <= s.len(),
        forall|k: int| from <= k < idx ==> s[k] >= 1,
        idx < s.len() ==> s[idx] < 1,
    ensures
        find_bad_dim(s, from) == idx,
    decreases idx - from,
{
    if from < idx {
        lemma_find_bad_dim_is(s, from + 1, idx);
    }
}

/// The message of the error rejecting a dimension below one.
pub open spec fn invalid_dimension_message(index: int) -> Seq<char> {
    "invalid dimension at index "@ + spec_decimal(index)
        + "; all dimensions must be >= 1 when creating a tensor from raw data"@
}

/// The message of the error rejecting a shape whose element count differs
/// from the length of the supplied data.
pub open spec fn size_mismatch_message(denoted: int, supplied: int) -> Seq<char> {
    "cannot create a tensor from raw data; the shape denotes "@ + spec_decimal(denoted)
        + " elements but the data provided holds "@ + spec_decimal(supplied) + " elements"@
}

/// The message of the error rejecting a non-scalar element count for the
/// scalar shape.
pub open spec fn scalar_shape_message() -> Seq<char> {
    "expected data to have a length of exactly 1 for a scalar shape"@
}

/// The message of the error rejecting a shape whose element count exceeds
/// what the host can address.
pub open spec fn size_overflow_message() -> Seq<char> {
    "cannot allocate a tensor of this shape; its element count exceeds the host's addressable size"@
}

/// An invalid-argument error naming the offending dimension index.
fn invalid_dimension_error(index: usize) -> (r: Error)
    ensures
        r.spec_code() == ErrorCode::InvalidArgument,
        r.spec_message() =~= invalid_dimension_message(index as int),
{
    let mut message = String::new();
    message.append("invalid dimension at index ");
    let index_text = u64_to_string(index as u64);
    message.append(index_text.as_str());
    message.append("; all dimensions must be >= 1 when creating a tensor from raw data");
    Error::new(ErrorCode::InvalidArgument, message)
}

/// An invalid-argument error naming the denoted and supplied element counts.
fn size_mismatch_error(denoted: usize, supplied: usize) -> (r: Error)
    ensures
        r.spec_code() == ErrorCode::InvalidArgument,
        r.spec_message() =~= size_mismatch_message(denoted as int, supplied as int),
{
    let mut message = String::new();
    message.append("cannot create a tensor from raw data; the shape denotes ");
    let denoted_text = u64_to_string(denoted as u64);
    message.append(denoted_text.as_str());
    message.append(" elements but the data provided holds ");
    let supplied_text = u64_to_string(supplied as u64);
    message.append(supplied_text.as_str());
    message.append(" elements");
    Error::new(ErrorCode::InvalidArgument, message)
}

/// Validates a dimension list against an optional expected element count:
/// every dimension must be at least one, and when a count is expected the
/// product of the dimensions must equal it exactly.
pub fn validate_dimensions(values: &[i64], expected_size: Option<usize>) -> (r: Result<
    Vec<i64>,
    Error,
>)
    ensures
        r is Ok <==> spec_dims_ok(values@) && (match expected_size {
            Option::Some(es) => spec_shape_size(values@) == es,
            Option::None => true,
        }),
        match r {
            Result::Ok(v) => v@ =~= values@,
            Result::Err(e) => {
                &&& e.spec_code() == ErrorCode::InvalidArgument
                &&& !spec_dims_ok(values@) ==> e.spec_message() =~= invalid_dimension_message(
                    find_bad_dim(values@, 0),
                )
                &&& spec_dims_ok(values@) ==> e.spec_message() =~= size_mismatch_message(
                    spec_saturated_size(values@),
                    expected_size->0 as int,
                )
            },
        },
{
    let n = values.len();
    let mut i: usize = 0;
    while i < n
        invariant
            i <= n,
            n == values@.len(),
            forall|k: int| 0 <= k < i ==> #[trigger] values@[k] >= 1,
        decreases n - i,
    {
        if values[i] < 1 {
            proof {
                lemma_find_bad_dim_is(values@, 0, i as int);
            }
            return Err(invalid_dimension_error(i));
        }
        i = i + 1;
    }
    proof {
        assert(spec_dims_ok(values@));
    }
    match expected_size {
        Option::Some(es) => {
            match checked_tensor_size(values) {
                Option::Some(denoted) => {
                    if denoted != es {
                        return Err(size_mismatch_error(denoted, es));
                    }
                    Ok(copy_dimensions(values))
                },
                Option::None => {
                    proof {
                        lemma_shape_size_nonneg(values@);
                    }
                    Err(size_mismatch_error(usize::MAX, es))
                },
            }
        },
        Option::None => Ok(copy_dimensions(values)),
    }
}

/// A host representation of a dimension list.
///
/// The contract is shared by every implementation: validation succeeds
/// exactly when every source dimension is at least one (and representable),
/// and — when an expected element count is supplied — the product of the
/// dimensions equals it; every failure is an invalid-argument error.
pub trait ToDimensions {
    /// The dimension list this value denotes.
    spec fn spec_dims(&self) -> Seq<i64>;

    /// Every source dimension is at least one and representable.
    spec fn spec_dims_valid(&self) -> bool;

    /// The message of the error raised when the dimensions are valid but
    /// the denoted element count differs from the `supplied` one.
    spec fn spec_mismatch_message(&self, supplied: int) -> Seq<char>;

    /// Validates and converts into the engine's dimension form.
    fn to_dimensions(&self, expected_size: Option<usize>) -> (r: Result<Vec<i64>, Error>)
        ensures
            r is Ok <==> self.spec_dims_valid() && (match expected_size {
                Option::Some(es) => spec_shape_size(self.spec_dims()) == es,
                Option::None => true,
            }),
            match r {
                Result::Ok(v) => v@ =~= self.spec_dims() && spec_dims_ok(v@),
                Result::Err(e) => {
                    &&& e.spec_code() == ErrorCode::InvalidArgument
                    &&& !self.spec_dims_valid() ==> e.spec_message()
                        =~= invalid_dimension_message(find_bad_dim(self.spec_dims(), 0))
                    &&& self.spec_dims_valid() ==> e.spec_message()
                        =~= self.spec_mismatch_message(expected_size->0 as int)
                },
            },
    ;
}

/// The dimension list denoted by a list of `usize` dimensions.
pub open spec fn spec_dims_of_usizes(values: Seq<usize>) -> Seq<i64> {
    values.map_values(|d: usize| d as i64)
}

fn dims_of_usize_slice(values: &[usize]) -> (r: Result<Vec<i64>, Error>)
    ensures
        r is Ok <==> spec_dims_ok(spec_dims_of_usizes(values@)),
        match r {
            Result::Ok(v) => v@ =~= spec_dims_of_usizes(values@) && spec_dims_ok(v@),
            Result::Err(e) => {
                &&& e.spec_code() == ErrorCode::InvalidArgument
                &&& e.spec_message() =~= invalid_dimension_message(
                    find_bad_dim(spec_dims_of_usizes(values@), 0),
                )
            },
        },
{
    let n = values.len();
    let mut out: Vec<i64> = Vec::new();
    let mut i: usize = 0;
    while i < n
        invariant
            i <= n,
            n == values@.len(),
            out@.len() == i,
            forall|k: int| 0 <= k < i ==> #[trigger] out@[k] == values@[k] as i64,
            forall|k: int| 0 <= k < i ==> #[trigger] spec_dims_of_usizes(values@)[k] >= 1,
        decreases n - i,
    {
        let c = values[i];
        let w = #[verifier::truncate] (c as i64);
        proof {
            assert(spec_dims_of_usizes(values@)[i as int] == values@[i as int] as i64);
        }
        if w < 1 {
            proof {
                lemma_find_bad_dim_is(spec_dims_of_usizes(values@), 0, i as int);
            }
            return Err(invalid_dimension_error(i));
        }
        out.push(w);
        i = i + 1;
    }
    proof {
        assert(out@ =~= spec_dims_of_usizes(values@));
        assert(spec_dims_ok(spec_dims_of_usizes(values@)));
    }
    Ok(out)
}

/// The dimension list denoted by a list of `i32` dimensions.
pub open spec fn spec_dims_of_i32s(values: Seq<i32>) -> Seq<i64> {
    values.map_values(|d: i32| d as i64)
}

fn dims_of_i32_slice(values: &[i32]) -> (r: Vec<i64>)
    ensures
        r@ =~= spec_dims_of_i32s(values@),
{
    let n = values.len();
    let mut out: Vec<i64> = Vec::new();
    let mut i: usize = 0;
    while i < n
        invariant
            i <= n,
            n == values@.len(),
            out@.len() == i,
            forall|k: int| 0 <= k < i ==> #[trigger] out@[k] == values@[k] as i64,
        decreases n - i,
    {
        out.push(values[i] as i64);
        i = i + 1;
    }
    proof {
        assert(out@ =~= spec_dims_of_i32s(values@));
    }
    out
}

impl ToDimensions for () {
    /// A scalar: the empty dimension list.
    open spec fn spec_dims(&self) -> Seq<i64> {
        Seq::empty()
    }

    open spec fn spec_dims_valid(&self) -> bool {
        true
    }

    open spec fn spec_mismatch_message(&self, supplied: int) -> Seq<char> {
        scalar_shape_message()
    }

    fn to_dimensions(&self, expected_size: Option<usize>) -> (r: Result<Vec<i64>, Error>) {
        match expected_size {
            Option::Some(es) => {
                if es == 1 {
                    Ok(Vec::new())
                } else {
                    Err(
                        Error::new(
                            ErrorCode::InvalidArgument,
                            "expected data to have a length of exactly 1 for a scalar shape".to_owned(),
                        ),
                    )
                }
            },
            Option::None => Ok(Vec::new()),
        }
    }
}

impl ToDimensions for &[i64] {
    open spec fn spec_dims(&self) -> Seq<i64> {
        self@
    }

    open spec fn spec_dims_valid(&self) -> bool {
        spec_dims_ok(self@)
    }

    open spec fn spec_mismatch_message(&self, supplied: int) -> Seq<char> {
        size_mismatch_message(spec_saturated_size(self@), supplied)
    }

    fn to_dimensions(&self, expected_size: Option<usize>) -> (r: Result<Vec<i64>, Error>) {
        validate_dimensions(self, expected_size)
    }
}

impl ToDimensions for Vec<i64> {
    open spec fn spec_dims(&self) -> Seq<i64> {
        self@
    }

    open spec fn spec_dims_valid(&self) -> bool {
        spec_dims_ok(self@)
    }

    open spec fn spec_mismatch_message(&self, supplied: int) -> Seq<char> {
        size_mismatch_message(spec_saturated_size(self@), supplied)
    }

    fn to_dimensions(&self, expected_size: Option<usize>) -> (r: Result<Vec<i64>, Error>) {
        validate_dimensions(self.as_slice(), expected_size)
    }
}

impl<const N: usize> ToDimensions for [i64; N] {
    open spec fn spec_dims(&self) -> Seq<i64> {
        self@
    }

    open spec fn spec_dims_valid(&self) -> bool {
        spec_dims_ok(self@)
    }

    open spec fn spec_mismatch_message(&self, supplied: int) -> Seq<char> {
        size_mismatch_message(spec_saturated_size(self@), supplied)
    }

    fn to_dimensions(&self, expected_size: Option<usize>) -> (r: Result<Vec<i64>, Error>) {
        validate_dimensions(self.as_slice(), expected_size)
    }
}

impl ToDimensions for &[usize] {
    open spec fn spec_dims(&self) -> Seq<i64> {
        spec_dims_of_usizes(self@)
    }

    open spec fn spec_dims_valid(&self) -> bool {
        spec_dims_ok(spec_dims_of_usizes(self@))
    }

    open spec fn spec_mismatch_message(&self, supplied: int) -> Seq<char> {
        size_mismatch_message(spec_saturated_size(spec_dims_of_usizes(self@)), supplied)
    }

    fn to_dimensions(&self, expected_size: Option<usize>) -> (r: Result<Vec<i64>, Error>) {
        match dims_of_usize_slice(self) {
            Result::Ok(dims) => validate_dimensions(dims.as_slice(), expected_size),
            Result::Err(e) => Err(e),
        }
    }
}

impl ToDimensions for Vec<usize> {
    open spec fn spec_dims(&self) -> Seq<i64> {
        spec_dims_of_usizes(self@)
    }

    open spec fn spec_dims_valid(&self) -> bool {
        spec_dims_ok(spec_dims_of_usizes(self@))
    }

    open spec fn spec_mismatch_message(&self, supplied: int) -> Seq<char> {
        size_mismatch_message(spec_saturated_size(spec_dims_of_usizes(self@)), supplied)
    }

    fn to_dimensions(&self, expected_size: Option<usize>) -> (r: Result<Vec<i64>, Error>) {
        match dims_of_usize_slice(self.as_slice()) {
            Result::Ok(dims) => validate_dimensions(dims.as_slice(), expected_size),
            Result::Err(e) => Err(e),
        }
    }
}

impl<const N: usize> ToDimensions for [usize; N] {
    open spec fn spec_dims(&self) -> Seq<i64> {
        spec_dims_of_usizes(self@)
    }

    open spec fn spec_dims_valid(&self) -> bool {
        spec_dims_ok(spec_dims_of_usizes(self@))
    }

    open spec fn spec_mismatch_message(&self, supplied: int) -> Seq<char> {
        size_mismatch_message(spec_saturated_size(spec_dims_of_usizes(self@)), supplied)
    }

    fn to_dimensions(&self, expected_size: Option<usize>) -> (r: Result<Vec<i64>, Error>) {
        match dims_of_usize_slice(self.as_slice()) {
            Result::Ok(dims) => validate_dimensions(dims.as_slice(), expected_size),
            Result::Err(e) => Err(e),
        }
    }
}

impl ToDimensions for &[i32] {
    open spec fn spec_dims(&self) -> Seq<i64> {
        spec_dims_of_i32s(self@)
    }

    open spec fn spec_dims_valid(&self) -> bool {
        spec_dims_ok(spec_dims_of_i32s(self@))
    }

    open spec fn spec_mismatch_message(&self, supplied: int) -> Seq<char> {
        size_mismatch_message(spec_saturated_size(spec_dims_of_i32s(self@)), supplied)
    }

    fn to_dimensions(&self, expected_size: Option<usize>) -> (r: Result<Vec<i64>, Error>) {
        let dims = dims_of_i32_slice(self);
        validate_dimensions(dims.as_slice(), expected_size)
    }
}

impl ToDimensions for Vec<i32> {
    open spec fn spec_dims(&self) -> Seq<i64> {
        spec_dims_of_i32s(self@)
    }

    open spec fn spec_dims_valid(&self) -> bool {
        spec_dims_ok(spec_dims_of_i32s(self@))
    }

    open spec fn spec_mismatch_message(&self, supplied: int) -> Seq<char> {
        size_mismatch_message(spec_saturated_size(spec_dims_of_i32s(self@)), supplied)
    }

    fn to_dimensions(&self, expected_size: Option<usize>) -> (r: Result<Vec<i64>, Error>) {
        let dims = dims_of_i32_slice(self.as_slice());
        validate_dimensions(dims.as_slice(), expected_size)
    }
}

impl<const N: usize> ToDimensions for [i32; N] {
    open spec fn spec_dims(&self) -> Seq<i64> {
        spec_dims_of_i32s(self@)
    }

    open spec fn spec_dims_valid(&self) -> bool {
        spec_dims_ok(spec_dims_of_i32s(self@))
    }

    open spec fn spec_mismatch_message(&self, supplied: int) -> Seq<char> {
        size_mismatch_message(spec_saturated_size(spec_dims_of_i32s(self@)), supplied)
    }

    fn to_dimensions(&self, expected_size: Option<usize>) -> (r: Result<Vec<i64>, Error>) {
        let dims = dims_of_i32_slice(self.as_slice());
        validate_dimensions(dims.as_slice(), expected_size)
    }
}

fn copy_dimensions(values: &[i64]) -> (r: Vec<i64>)
    ensures
        r@ =~= values@,
{
    let n = values.len();
    let mut out: Vec<i64> = Vec::new();
    let mut k: usize = 0;
    while k < n
        invariant
            k <= n,
            n == values@.len(),
            out@ =~= values@.subrange(0, k as int),
        decreases n - k,
    {
        out.push(values[k]);
        k = k + 1;
    }
    proof {
        assert(out@ =~= values@);
    }
    out
}

/// A host data source a tensor can be created from without taking
/// ownership: it yields a validated shape, a borrowed contiguous slice of
/// elements, and the anchor policy that keeps the buffer alive.
pub trait TensorArrayData<I> {
    /// The dimension list of the source.
    spec fn spec_dims(&self) -> Seq<i64>;

    /// Every source dimension is at least one and representable.
    spec fn spec_dims_valid(&self) -> bool;

    /// The elements of the source, in row-major order.
    spec fn spec_data(&self) -> Seq<I>;

    /// How the resulting value anchors the source's buffer.
    spec fn spec_backing(&self) -> BackingKind;

    /// The message of the error raised when the dimensions are valid but
    /// denote a different element count than the source holds.
    spec fn spec_mismatch_message(&self) -> Seq<char>;

    /// Normalises the source into the (shape, data, anchor) triple.
    /// Succeeds exactly when the shape is valid and denotes exactly as many
    /// elements as the source holds.
    fn ref_parts<'a>(&'a self) -> (r: Result<(Vec<i64>, &'a [I], BackingKind), Error>)
        ensures
            r is Ok <==> self.spec_dims_valid() && spec_shape_size(self.spec_dims())
                == self.spec_data().len(),
            match r {
                Result::Ok(parts) => {
                    &&& parts.0@ =~= self.spec_dims()
                    &&& spec_dims_ok(parts.0@)
                    &&& parts.1@ =~= self.spec_data()
                    &&& parts.2 == self.spec_backing()
                },
                Result::Err(e) => {
                    &&& e.spec_code() == ErrorCode::InvalidArgument
                    &&& !self.spec_dims_valid() ==> e.spec_message()
                        =~= invalid_dimension_message(find_bad_dim(self.spec_dims(), 0))
                    &&& self.spec_dims_valid() ==> e.spec_message()
                        =~= self.spec_mismatch_message()
                },
            },
    ;
}

/// A data source whose buffer the caller may mutate through the resulting
/// view; only exclusively borrowed sources implement this.
pub trait TensorArrayDataMut<I>: TensorArrayData<I> {

}

/// The normalised form of an owned data source: the validated shape, the
/// buffer itself (which becomes the anchor), its element count, and the
/// anchor policy.
pub struct TensorArrayDataParts<I> {
    /// The validated shape.
    pub shape: Vec<i64>,
    /// The elements, in row-major order; owning them anchors the tensor.
    pub data: Vec<I>,
    /// How many elements `data` holds.
    pub num_elements: usize,
    /// How the resulting value anchors the buffer.
    pub backing: BackingKind,
}

/// A host data source a tensor takes ownership of: the buffer is moved out
/// and becomes the anchor of the resulting value.
pub trait OwnedTensorArrayData<I>: Sized {
    /// The dimension list of the source.
    spec fn spec_dims(&self) -> Seq<i64>;

    /// Every source dimension is at least one and representable.
    spec fn spec_dims_valid(&self) -> bool;

    /// The elements of the source, in row-major order.
    spec fn spec_data(&self) -> Seq<I>;

    /// How the resulting value anchors the buffer.
    spec fn spec_backing(&self) -> BackingKind;

    /// The message of the error raised when the dimensions are valid but
    /// denote a different element count than the source holds.
    spec fn spec_mismatch_message(&self) -> Seq<char>;

    /// Normalises the source, handing the buffer over.  Succeeds exactly
    /// when the shape is valid and denotes exactly as many elements as the
    /// source holds.
    fn into_parts(self) -> (r: Result<TensorArrayDataParts<I>, Error>)
        ensures
            r is Ok <==> self.spec_dims_valid() && spec_shape_size(self.spec_dims())
                == self.spec_data().len(),
            match r {
                Result::Ok(parts) => {
                    &&& parts.shape@ =~= self.spec_dims()
                    &&& spec_dims_ok(parts.shape@)
                    &&& parts.data@ =~= self.spec_data()
                    &&& parts.num_elements == parts.data@.len()
                    &&& parts.backing == self.spec_backing()
                },
                Result::Err(e) => {
                    &&& e.spec_code() == ErrorCode::InvalidArgument
                    &&& !self.spec_dims_valid() ==> e.spec_message()
                        =~= invalid_dimension_message(find_bad_dim(self.spec_dims(), 0))
                    &&& self.spec_dims_valid() ==> e.spec_message()
                        =~= self.spec_mismatch_message()
                },
            },
    ;
}

impl<'d, I, D: ToDimensions> TensorArrayData<I> for (D, &'d [I]) {
    open spec fn spec_dims(&self) -> Seq<i64> {
        self.0.spec_dims()
    }

    open spec fn spec_dims_valid(&self) -> bool {
        self.0.spec_dims_valid()
    }

    open spec fn spec_data(&self) -> Seq<I> {
        self.1@
    }

    /// Borrowed contiguous data is referenced without a copy; the borrow
    /// itself keeps the buffer alive.
    open spec fn spec_backing(&self) -> BackingKind {
        BackingKind::Unanchored
    }

    open spec fn spec_mismatch_message(&self) -> Seq<char> {
        self.0.spec_mismatch_message(self.1@.len() as int)
    }

    fn ref_parts<'a>(&'a self) -> (r: Result<(Vec<i64>, &'a [I], BackingKind), Error>) {
        match self.0.to_dimensions(Some(self.1.len())) {
            Result::Ok(shape) => Ok((shape, self.1, BackingKind::Unanchored)),
            Result::Err(e) => Err(e),
        }
    }
}

impl<I, D: ToDimensions> TensorArrayData<I> for (D, Vec<I>) {
    open spec fn spec_dims(&self) -> Seq<i64> {
        self.0.spec_dims()
    }

    open spec fn spec_dims_valid(&self) -> bool {
        self.0.spec_dims_valid()
    }

    open spec fn spec_data(&self) -> Seq<I> {
        self.1@
    }

    /// An exclusively held buffer is referenced without a copy; the holder
    /// keeps it alive.
    open spec fn spec_backing(&self) -> BackingKind {
        BackingKind::Unanchored
    }

    open spec fn spec_mismatch_message(&self) -> Seq<char> {
        self.0.spec_mismatch_message(self.1@.len() as int)
    }

    fn ref_parts<'a>(&'a self) -> (r: Result<(Vec<i64>, &'a [I], BackingKind), Error>) {
        match self.0.to_dimensions(Some(self.1.len())) {
            Result::Ok(shape) => Ok((shape, self.1.as_slice(), BackingKind::Unanchored)),
            Result::Err(e) => Err(e),
        }
    }
}

impl<I, D: ToDimensions> TensorArrayDataMut<I> for (D, Vec<I>) {

}

impl<I, D: ToDimensions> TensorArrayData<I> for (D, Box<[I]>) {
    open spec fn spec_dims(&self) -> Seq<i64> {
        self.0.spec_dims()
    }

    open spec fn spec_dims_valid(&self) -> bool {
        self.0.spec_dims_valid()
    }

    open spec fn spec_data(&self) -> Seq<I> {
        self.1@
    }

    /// A boxed buffer is referenced without a copy; the holder keeps it
    /// alive.
    open spec fn spec_backing(&self) -> BackingKind {
        BackingKind::Unanchored
    }

    open spec fn spec_mismatch_message(&self) -> Seq<char> {
        self.0.spec_mismatch_message(self.1@.len() as int)
    }

    fn ref_parts<'a>(&'a self) -> (r: Result<(Vec<i64>, &'a [I], BackingKind), Error>) {
        let data: &[I] = &self.1;
        match self.0.to_dimensions(Some(data.len())) {
            Result::Ok(shape) => Ok((shape, data, BackingKind::Unanchored)),
            Result::Err(e) => Err(e),
        }
    }
}

impl<I, D: ToDimensions> TensorArrayData<I> for (D, Arc<Box<[I]>>) {
    open spec fn spec_dims(&self) -> Seq<i64> {
        self.0.spec_dims()
    }

    open spec fn spec_dims_valid(&self) -> bool {
        self.0.spec_dims_valid()
    }

    open spec fn spec_data(&self) -> Seq<I> {
        self.1@
    }

    /// Shared-owned data is referenced without a copy; a clone of the
    /// shared handle anchors the buffer.
    open spec fn spec_backing(&self) -> BackingKind {
        BackingKind::SharedBuffer
    }

    open spec fn spec_mismatch_message(&self) -> Seq<char> {
        self.0.spec_mismatch_message(self.1@.len() as int)
    }

    fn ref_parts<'a>(&'a self) -> (r: Result<(Vec<i64>, &'a [I], BackingKind), Error>) {
        let data: &[I] = &self.1;
        match self.0.to_dimensions(Some(data.len())) {
            Result::Ok(shape) => Ok((shape, data, BackingKind::SharedBuffer)),
            Result::Err(e) => Err(e),
        }
    }
}

impl<I, D: ToDimensions> OwnedTensorArrayData<I> for (D, Vec<I>) {
    open spec fn spec_dims(&self) -> Seq<i64> {
        self.0.spec_dims()
    }

    open spec fn spec_dims_valid(&self) -> bool {
        self.0.spec_dims_valid()
    }

    open spec fn spec_data(&self) -> Seq<I> {
        self.1@
    }

    /// An owned buffer passed by value is taken over: zero-copy, ownership
    /// transferred, the buffer itself becomes the anchor.
    open spec fn spec_backing(&self) -> BackingKind {
        BackingKind::OwnedBuffer
    }

    open spec fn spec_mismatch_message(&self) -> Seq<char> {
        self.0.spec_mismatch_message(self.1@.len() as int)
    }

    fn into_parts(self) -> (r: Result<TensorArrayDataParts<I>, Error>) {
        let num_elements = self.1.len();
        match self.0.to_dimensions(Some(num_elements)) {
            Result::Ok(shape) => Ok(
                TensorArrayDataParts {
                    shape,
                    data: self.1,
                    num_elements,
                    backing: BackingKind::OwnedBuffer,
                },
            ),
            Result::Err(e) => Err(e),
        }
    }
}

impl<I, D: ToDimensions> OwnedTensorArrayData<I> for (D, Box<[I]>) {
    open spec fn spec_dims(&self) -> Seq<i64> {
        self.0.spec_dims()
    }

    open spec fn spec_dims_valid(&self) -> bool {
        self.0.spec_dims_valid()
    }

    open spec fn spec_data(&self) -> Seq<I> {
        self.1@
    }

    /// A boxed buffer passed by value is taken over: zero-copy, ownership
    /// transferred, the buffer itself becomes the anchor.
    open spec fn spec_backing(&self) -> BackingKind {
        BackingKind::OwnedBuffer
    }

    open spec fn spec_mismatch_message(&self) -> Seq<char> {
        self.0.spec_mismatch_message(self.1@.len() as int)
    }

    fn into_parts(self) -> (r: Result<TensorArrayDataParts<I>, Error>) {
        let data: Vec<I> = self.1.into_vec();
        let num_elements = data.len();
        match self.0.to_dimensions(Some(num_elements)) {
            Result::Ok(shape) => Ok(
                TensorArrayDataParts {
                    shape,
                    data,
                    num_elements,
                    backing: BackingKind::OwnedBuffer,
                },
            ),
            Result::Err(e) => Err(e),
        }
    }
}

/// The first index at or after `from` of a string containing an interior
/// nul character, or `ss.len()` if there is none.
pub open spec fn find_nul_string(ss: Seq<String>, from: int) -> int
    recommends
        0 <= from <= ss.len(),
    decreases ss.len() - from,
{
    if from < 0 || from >= ss.len() {
        ss.len() as int
    } else if ss[from]@.contains('\0') {
        from
    } else {
        find_nul_string(ss, from + 1)
    }
}

proof fn lemma_find_nul_string_is(ss: Seq<String>, from: int, idx: int)
    requires
        0 <= from <= idx <= ss.len(),
        forall|k: int| from <= k < idx ==> !(#[trigger] ss[k])@.contains('\0'),
        idx < ss.len() ==> ss[idx]@.contains('\0'),
    ensures
        find_nul_string(ss, from) == idx,
    decreases idx - from,
{
    if from < idx {
        lemma_find_nul_string_is(ss, from + 1, idx);
    }
}

/// The message of the error rejecting a string element with an interior
/// nul character.
pub open spec fn string_nul_message(index: int) -> Seq<char> {
    "string at index "@ + spec_decimal(index)
        + " contains an interior nul byte and cannot fill a string tensor"@
}

fn string_nul_error(index: usize) -> (r: Error)
    ensures
        r.spec_code() == ErrorCode::InvalidArgument,
        r.spec_message() =~= string_nul_message(index as int),
{
    let mut message = String::new();
    message.append("string at index ");
    let index_text = u64_to_string(index as u64);
    message.append(index_text.as_str());
    message.append(" contains an interior nul byte and cannot fill a string tensor");
    Error::new(ErrorCode::InvalidArgument, message)
}

/// A list of `n` anonymous dimension symbols, as every constructor records.
fn none_symbols(n: usize) -> (r: Vec<Option<String>>)
    ensures
        r@.len() == n,
        forall|i: int| 0 <= i < n ==> #[trigger] r@[i] is None,
{
    let mut out: Vec<Option<String>> = Vec::new();
    let mut i: usize = 0;
    while i < n
        invariant
            i <= n,
            out@.len() == i,
            forall|k: int| 0 <= k < i ==> #[trigger] out@[k] is None,
        decreases n - i,
    {
        out.push(Option::None);
        i = i + 1;
    }
    out
}

/// The memory every host-data constructor records: host arena input memory.
fn cpu_input_memory() -> (r: MemoryInfo)
    ensures
        r == (MemoryInfo {
            allocation_device: AllocationDevice::Cpu,
            device_id: 0,
            allocator_type: AllocatorType::Arena,
            memory_type: MemoryType::CpuInput,
        }),
{
    MemoryInfo::new(AllocationDevice::Cpu, 0, AllocatorType::Arena, MemoryType::CpuInput)
}

fn words_of_data<T: PrimitiveTensorElementType>(data: &[T]) -> (r: Vec<i64>)
    ensures
        r@.len() == data@.len(),
        forall|i: int| 0 <= i < data@.len() ==> #[trigger] r@[i] == data@[i].spec_to_word(),
{
    let n = data.len();
    let mut words: Vec<i64> = Vec::new();
    let mut i: usize = 0;
    while i < n
        invariant
            i <= n,
            n == data@.len(),
            words@.len() == i,
            forall|k: int| 0 <= k < i ==> #[trigger] words@[k] == data@[k].spec_to_word(),
        decreases n - i,
    {
        words.push(data[i].to_word());
        i = i + 1;
    }
    words
}

impl<T: PrimitiveTensorElementType> Tensor<T> {
    /// Constructs a tensor in the given allocator's memory with the given
    /// shape; its elements start zeroed.  Succeeds exactly when the shape
    /// is valid and its element count fits the host's address space.
    pub fn new<S: ToDimensions>(engine: &mut Engine, allocator: &Allocator, shape: S) -> (r:
        Result<Tensor<T>, Error>)
        requires
            old(engine).wf(),
            old(engine).handle_count() < usize::MAX,
        ensures
            final(engine).wf(),
            r is Ok <==> shape.spec_dims_valid() && spec_shape_size(shape.spec_dims())
                <= usize::MAX,
            match r {
                Result::Ok(t) => {
                    &&& final(engine).handle_count() == old(engine).handle_count() + 1
                    &&& t.spec_handle() == final(engine).handle_count()
                    &&& !old(engine).valid_handle(t.spec_handle())
                    &&& t.wf_in(*final(engine))
                    &&& final(engine).refs(t.spec_handle()) == 1
                    &&& final(engine).release_count(t.spec_handle()) == 0
                    &&& spec_tensor_descriptor(
                        t.spec_dtype(),
                        T::spec_element_type(),
                        shape.spec_dims(),
                    )
                    &&& final(engine).shape_of(t.spec_handle()) =~= shape.spec_dims()
                    &&& final(engine).holds_words(t.spec_handle())
                    &&& final(engine).words_of(t.spec_handle()).len() == spec_shape_size(
                        shape.spec_dims(),
                    )
                    &&& forall|i: int|
                        0 <= i < final(engine).words_of(t.spec_handle()).len() ==> #[trigger]
                        final(engine).words_of(t.spec_handle())[i] == 0
                    &&& t.spec_release_on_drop()
                    &&& t.spec_backing() == BackingKind::Unanchored
                    &&& t.spec_memory_info() == Option::Some(allocator.memory_info)
                    &&& Engine::others_unchanged(*old(engine), *final(engine), t.spec_handle())
                },
                Result::Err(e) => {
                    &&& e.spec_code() == ErrorCode::InvalidArgument
                    &&& *final(engine) == *old(engine)
                    &&& !shape.spec_dims_valid() ==> e.spec_message()
                        =~= invalid_dimension_message(find_bad_dim(shape.spec_dims(), 0))
                    &&& shape.spec_dims_valid() ==> e.spec_message() =~= size_overflow_message()
                },
            },
    {
        let dims = match shape.to_dimensions(Option::None) {
            Result::Ok(dims) => dims,
            Result::Err(e) => {
                return Err(e);
            },
        };
        let size = match checked_tensor_size(dims.as_slice()) {
            Some(size) => size,
            Option::None => {
                proof {
                    lemma_shape_size_nonneg(dims@);
                }
                return Err(
                    Error::new(
                        ErrorCode::InvalidArgument,
                        "cannot allocate a tensor of this shape; its element count exceeds the host's addressable size".to_owned(),
                    ),
                );
            },
        };
        let elem = T::into_tensor_element_type();
        proof {
            T::lemma_not_string();
        }
        let words: Vec<i64> = vec![0; size];
        let shape_for_dtype = copy_dimensions(dims.as_slice());
        let symbols = none_symbols(shape_for_dtype.len());
        let h = engine.create_tensor_with_words(elem, dims, words);
        let dtype = ValueType::Tensor {
            ty: elem,
            dimensions: shape_for_dtype,
            dimension_symbols: symbols,
        };
        Ok(
            Value::construct(
                h,
                dtype,
                true,
                Option::Some(allocator.memory_info()),
                BackingKind::Unanchored,
            ),
        )
    }

    /// Constructs a tensor from an owned data source.  The buffer is taken
    /// over without a copy and anchors the value for exactly as long as it
    /// lives.  Succeeds exactly when the shape is valid and denotes exactly
    /// as many elements as the data holds.
    pub fn from_array<S: OwnedTensorArrayData<T>>(engine: &mut Engine, input: S) -> (r: Result<
        Tensor<T>,
        Error,
    >)
        requires
            old(engine).wf(),
            old(engine).handle_count() < usize::MAX,
        ensures
            final(engine).wf(),
            r is Ok <==> input.spec_dims_valid() && spec_shape_size(input.spec_dims())
                == input.spec_data().len(),
            match r {
                Result::Ok(t) => {
                    &&& final(engine).handle_count() == old(engine).handle_count() + 1
                    &&& t.spec_handle() == final(engine).handle_count()
                    &&& !old(engine).valid_handle(t.spec_handle())
                    &&& t.wf_in(*final(engine))
                    &&& final(engine).refs(t.spec_handle()) == 1
                    &&& final(engine).release_count(t.spec_handle()) == 0
                    &&& spec_tensor_descriptor(
                        t.spec_dtype(),
                        T::spec_element_type(),
                        input.spec_dims(),
                    )
                    &&& final(engine).shape_of(t.spec_handle()) =~= input.spec_dims()
                    &&& final(engine).holds_words(t.spec_handle())
                    &&& final(engine).words_of(t.spec_handle()).len()
                        == input.spec_data().len()
                    &&& forall|i: int|
                        0 <= i < input.spec_data().len() ==> final(engine).words_of(
                            t.spec_handle(),
                        )[i] == #[trigger] input.spec_data()[i].spec_to_word()
                    &&& t.spec_release_on_drop()
                    &&& t.spec_backing() == input.spec_backing()
                    &&& t.spec_memory_info() == Option::Some(
                        MemoryInfo {
                            allocation_device: AllocationDevice::Cpu,
                            device_id: 0,
                            allocator_type: AllocatorType::Arena,
                            memory_type: MemoryType::CpuInput,
                        },
                    )
                    &&& Engine::others_unchanged(*old(engine), *final(engine), t.spec_handle())
                },
                Result::Err(e) => {
                    &&& e.spec_code() == ErrorCode::InvalidArgument
                    &&& *final(engine) == *old(engine)
                    &&& !input.spec_dims_valid() ==> e.spec_message()
                        =~= invalid_dimension_message(find_bad_dim(input.spec_dims(), 0))
                    &&& (input.spec_dims_valid() && spec_shape_size(input.spec_dims())
                        != input.spec_data().len()) ==> e.spec_message()
                        =~= input.spec_mismatch_message()
                },
            },
    {
        let parts = match input.into_parts() {
            Result::Ok(parts) => parts,
            Result::Err(e) => {
                return Err(e);
            },
        };
        let elem = T::into_tensor_element_type();
        proof {
            T::lemma_not_string();
        }
        let words = words_of_data(parts.data.as_slice());
        let shape_for_dtype = copy_dimensions(parts.shape.as_slice());
        let symbols = none_symbols(shape_for_dtype.len());
        let h = engine.create_tensor_with_words(elem, parts.shape, words);
        let dtype = ValueType::Tensor {
            ty: elem,
            dimensions: shape_for_dtype,
            dimension_symbols: symbols,
        };
        Ok(
            Value::construct(
                h,
                dtype,
                true,
                Option::Some(cpu_input_memory()),
                parts.backing,
            ),
        )
    }
}

impl Tensor<String> {
    /// Constructs a string tensor from a data source.  String data is
    /// always copied — each element travels to the engine as a
    /// null-terminated buffer, so no zero-copy path exists and no element
    /// may contain an interior nul character.  Succeeds exactly when the
    /// shape is valid, denotes exactly as many elements as the source
    /// holds, and every string is nul-free.
    pub fn from_string_array<S: TensorArrayData<String>>(engine: &mut Engine, input: S) -> (r:
        Result<Tensor<String>, Error>)
        requires
            old(engine).wf(),
            old(engine).handle_count() < usize::MAX,
        ensures
            final(engine).wf(),
            r is Ok <==> input.spec_dims_valid() && spec_shape_size(input.spec_dims())
                == input.spec_data().len() && (forall|i: int|
                0 <= i < input.spec_data().len() ==> !(#[trigger] input.spec_data()[i])@.contains(
                    '\0',
                )),
            match r {
                Result::Ok(t) => {
                    &&& final(engine).handle_count() == old(engine).handle_count() + 1
                    &&& t.spec_handle() == final(engine).handle_count()
                    &&& !old(engine).valid_handle(t.spec_handle())
                    &&& t.wf_in(*final(engine))
                    &&& final(engine).refs(t.spec_handle()) == 1
                    &&& final(engine).release_count(t.spec_handle()) == 0
                    &&& spec_tensor_descriptor(
                        t.spec_dtype(),
                        TensorElementType::String,
                        input.spec_dims(),
                    )
                    &&& final(engine).shape_of(t.spec_handle()) =~= input.spec_dims()
                    &&& final(engine).holds_strings(t.spec_handle())
                    &&& final(engine).strings_of(t.spec_handle()) =~= input.spec_data().map_values(
                        |s: String| s@,
                    )
                    &&& t.spec_release_on_drop()
                    &&& t.spec_backing() == BackingKind::Unanchored
                    &&& t.spec_memory_info() == Option::Some(
                        MemoryInfo {
                            allocation_device: AllocationDevice::Cpu,
                            device_id: 0,
                            allocator_type: AllocatorType::Arena,
                            memory_type: MemoryType::Default,
                        },
                    )
                    &&& Engine::others_unchanged(*old(engine), *final(engine), t.spec_handle())
                },
                Result::Err(e) => {
                    &&& e.spec_code() == ErrorCode::InvalidArgument
                    &&& *final(engine) == *old(engine)
                    &&& !input.spec_dims_valid() ==> e.spec_message()
                        =~= invalid_dimension_message(find_bad_dim(input.spec_dims(), 0))
                    &&& (input.spec_dims_valid() && spec_shape_size(input.spec_dims())
                        != input.spec_data().len()) ==> e.spec_message()
                        =~= input.spec_mismatch_message()
                    &&& (input.spec_dims_valid() && spec_shape_size(input.spec_dims())
                        == input.spec_data().len()) ==> e.spec_message() =~= string_nul_message(
                        find_nul_string(input.spec_data(), 0),
                    )
                },
            },
    {
        let parts = match input.ref_parts() {
            Result::Ok(parts) => parts,
            Result::Err(e) => {
                return Err(e);
            },
        };
        let (shape, data, _backing) = parts;
        let n = data.len();
        let mut copies: Vec<String> = Vec::new();
        let mut j: usize = 0;
        while j < n
            invariant
                *engine == *old(engine),
                old(engine).wf(),
                old(engine).handle_count() < usize::MAX,
                j <= n,
                n == data@.len(),
                data@ =~= input.spec_data(),
                input.spec_dims_valid(),
                spec_shape_size(input.spec_dims()) == input.spec_data().len(),
                copies@.len() == j,
                forall|k: int| 0 <= k < j ==> !(#[trigger] data@[k])@.contains('\0'),
                forall|k: int| 0 <= k < j ==> (#[trigger] copies@[k])@ =~= data@[k]@,
            decreases n - j,
        {
            let element = &data[j];
            if crate::text::contains_nul(element.as_str()) {
                proof {
                    lemma_find_nul_string_is(input.spec_data(), 0, j as int);
                }
                return Err(string_nul_error(j));
            }
            copies.push(element.clone());
            j = j + 1;
        }
        let shape_for_dtype = copy_dimensions(shape.as_slice());
        let symbols = none_symbols(shape_for_dtype.len());
        let ghost pre = *engine;
        let h = engine.create_string_tensor(shape);
        let ghost mid = *engine;
        engine.fill_string_tensor(h, copies);
        proof {
            assert forall|h2: usize| h2 != h implies #[trigger] Engine::handle_unchanged(
                pre,
                *engine,
                h2,
            ) by {
                assert(Engine::handle_unchanged(pre, mid, h2));
                assert(Engine::handle_unchanged(mid, *engine, h2));
            }
            assert(engine.strings_of(h) =~= input.spec_data().map_values(|s: String| s@));
        }
        let dtype = ValueType::Tensor {
            ty: TensorElementType::String,
            dimensions: shape_for_dtype,
            dimension_symbols: symbols,
        };
        Ok(
            Value::construct(
                h,
                dtype,
                true,
                Option::Some(
                    MemoryInfo::new(
                        AllocationDevice::Cpu,
                        0,
                        AllocatorType::Arena,
                        MemoryType::Default,
                    ),
                ),
                BackingKind::Unanchored,
            ),
        )
    }
}

impl<'a, T: PrimitiveTensorElementType> TensorRef<'a, T> {
    /// Constructs a tensor over a borrowed data source, without taking
    /// ownership: the caller's buffer is referenced for as long as the
    /// view lives, which the borrow discipline enforces.  Succeeds exactly
    /// when the shape is valid and denotes exactly as many elements as the
    /// source holds.
    pub fn from_array_view<S: TensorArrayData<T> + 'a>(engine: &mut Engine, input: S) -> (r:
        Result<TensorRef<'a, T>, Error>)
        requires
            old(engine).wf(),
            old(engine).handle_count() < usize::MAX,
        ensures
            final(engine).wf(),
            r is Ok <==> input.spec_dims_valid() && spec_shape_size(input.spec_dims())
                == input.spec_data().len(),
            match r {
                Result::Ok(t) => {
                    &&& final(engine).handle_count() == old(engine).handle_count() + 1
                    &&& t.spec_value().spec_handle() == final(engine).handle_count()
                    &&& !old(engine).valid_handle(t.spec_value().spec_handle())
                    &&& t.spec_value().wf_in(*final(engine))
                    &&& final(engine).refs(t.spec_value().spec_handle()) == 1
                    &&& final(engine).release_count(t.spec_value().spec_handle()) == 0
                    &&& spec_tensor_descriptor(
                        t.spec_value().spec_dtype(),
                        T::spec_element_type(),
                        input.spec_dims(),
                    )
                    &&& final(engine).shape_of(t.spec_value().spec_handle())
                        =~= input.spec_dims()
                    &&& final(engine).holds_words(t.spec_value().spec_handle())
                    &&& final(engine).words_of(t.spec_value().spec_handle()).len()
                        == input.spec_data().len()
                    &&& forall|i: int|
                        0 <= i < input.spec_data().len() ==> final(engine).words_of(
                            t.spec_value().spec_handle(),
                        )[i] == #[trigger] input.spec_data()[i].spec_to_word()
                    &&& t.spec_value().spec_release_on_drop()
                    &&& t.spec_value().spec_backing() == input.spec_backing()
                    &&& t.spec_value().spec_memory_info() == Option::Some(
                        MemoryInfo {
                            allocation_device: AllocationDevice::Cpu,
                            device_id: 0,
                            allocator_type: AllocatorType::Arena,
                            memory_type: MemoryType::CpuInput,
                        },
                    )
                    &&& !t.spec_upgradable()
                    &&& Engine::others_unchanged(
                        *old(engine),
                        *final(engine),
                        t.spec_value().spec_handle(),
                    )
                },
                Result::Err(e) => {
                    &&& e.spec_code() == ErrorCode::InvalidArgument
                    &&& *final(engine) == *old(engine)
                    &&& !input.spec_dims_valid() ==> e.spec_message()
                        =~= invalid_dimension_message(find_bad_dim(input.spec_dims(), 0))
                    &&& (input.spec_dims_valid() && spec_shape_size(input.spec_dims())
                        != input.spec_data().len()) ==> e.spec_message()
                        =~= input.spec_mismatch_message()
                },
            },
    {
        let parts = match input.ref_parts() {
            Result::Ok(parts) => parts,
            Result::Err(e) => {
                return Err(e);
            },
        };
        let (shape, data, backing) = parts;
        let elem = T::into_tensor_element_type();
        proof {
            T::lemma_not_string();
        }
        let words = words_of_data(data);
        let shape_for_dtype = copy_dimensions(shape.as_slice());
        let symbols = none_symbols(shape_for_dtype.len());
        let h = engine.create_tensor_with_words(elem, shape, words);
        let dtype = ValueType::Tensor {
            ty: elem,
            dimensions: shape_for_dtype,
            dimension_symbols: symbols,
        };
        let value = Value::construct(h, dtype, true, Option::Some(cpu_input_memory()), backing);
        Ok(crate::value::ValueRef::new(value, false))
    }
}

impl<'a, T: PrimitiveTensorElementType> TensorRefMut<'a, T> {
    /// Constructs a tensor over an exclusively borrowed data source; the
    /// resulting view may mutate the buffer.  Succeeds exactly when the
    /// shape is valid and denotes exactly as many elements as the source
    /// holds.
    pub fn from_array_view_mut<S: TensorArrayDataMut<T> + 'a>(engine: &mut Engine, input: S) -> (r:
        Result<TensorRefMut<'a, T>, Error>)
        requires
            old(engine).wf(),
            old(engine).handle_count() < usize::MAX,
        ensures
            final(engine).wf(),
            r is Ok <==> input.spec_dims_valid() && spec_shape_size(input.spec_dims())
                == input.spec_data().len(),
            match r {
                Result::Ok(t) => {
                    &&& final(engine).handle_count() == old(engine).handle_count() + 1
                    &&& t.spec_value().spec_handle() == final(engine).handle_count()
                    &&& !old(engine).valid_handle(t.spec_value().spec_handle())
                    &&& t.spec_value().wf_in(*final(engine))
                    &&& final(engine).refs(t.spec_value().spec_handle()) == 1
                    &&& final(engine).release_count(t.spec_value().spec_handle()) == 0
                    &&& spec_tensor_descriptor(
                        t.spec_value().spec_dtype(),
                        T::spec_element_type(),
                        input.spec_dims(),
                    )
                    &&& final(engine).shape_of(t.spec_value().spec_handle())
                        =~= input.spec_dims()
                    &&& final(engine).holds_words(t.spec_value().spec_handle())
                    &&& final(engine).words_of(t.spec_value().spec_handle()).len()
                        == input.spec_data().len()
                    &&& forall|i: int|
                        0 <= i < input.spec_data().len() ==> final(engine).words_of(
                            t.spec_value().spec_handle(),
                        )[i] == #[trigger] input.spec_data()[i].spec_to_word()
                    &&& t.spec_value().spec_release_on_drop()
                    &&& t.spec_value().spec_backing() == input.spec_backing()
                    &&& t.spec_value().spec_memory_info() == Option::Some(
                        MemoryInfo {
                            allocation_device: AllocationDevice::Cpu,
                            device_id: 0,
                            allocator_type: AllocatorType::Arena,
                            memory_type: MemoryType::CpuInput,
                        },
                    )
                    &&& Engine::others_unchanged(
                        *old(engine),
                        *final(engine),
                        t.spec_value().spec_handle(),
                    )
                },
                Result::Err(e) => {
                    &&& e.spec_code() == ErrorCode::InvalidArgument
                    &&& *final(engine) == *old(engine)
                    &&& !input.spec_dims_valid() ==> e.spec_message()
                        =~= invalid_dimension_message(find_bad_dim(input.spec_dims(), 0))
                    &&& (input.spec_dims_valid() && spec_shape_size(input.spec_dims())
                        != input.spec_data().len()) ==> e.spec_message()
                        =~= input.spec_mismatch_message()
                },
            },
    {
        let parts = match input.ref_parts() {
            Result::Ok(parts) => parts,
            Result::Err(e) => {
                return Err(e);
            },
        };
        let (shape, data, backing) = parts;
        let elem = T::into_tensor_element_type();
        proof {
            T::lemma_not_string();
        }
        let words = words_of_data(data);
        let shape_for_dtype = copy_dimensions(shape.as_slice());
        let symbols = none_symbols(shape_for_dtype.len());
        let h = engine.create_tensor_with_words(elem, shape, words);
        let dtype = ValueType::Tensor {
            ty: elem,
            dimensions: shape_for_dtype,
            dimension_symbols: symbols,
        };
        let value = Value::construct(h, dtype, true, Option::Some(cpu_input_memory()), backing);
        Ok(crate::value::ValueRefMut::new(value))
    }

    /// Constructs a mutable tensor view over pre-allocated memory reached
    /// only through a raw device address.  Beyond shape-size arithmetic
    /// nothing is validated: keeping the address valid, matching the shape
    /// and outliving the view are the caller's responsibility, and the
    /// value carries no anchor.
    pub fn from_raw(engine: &mut Engine, info: MemoryInfo, data: usize, shape: Vec<i64>) -> (r:
        Result<TensorRefMut<'a, T>, Error>)
        requires
            old(engine).wf(),
            old(engine).handle_count() < usize::MAX,
        ensures
            final(engine).wf(),
            r is Ok,
            match r {
                Result::Ok(t) => {
                    &&& final(engine).handle_count() == old(engine).handle_count() + 1
                    &&& t.spec_value().spec_handle() == final(engine).handle_count()
                    &&& !old(engine).valid_handle(t.spec_value().spec_handle())
                    &&& final(engine).valid_handle(t.spec_value().spec_handle())
                    &&& final(engine).is_live(t.spec_value().spec_handle())
                    &&& final(engine).refs(t.spec_value().spec_handle()) == 1
                    &&& final(engine).release_count(t.spec_value().spec_handle()) == 0
                    &&& spec_tensor_descriptor(
                        t.spec_value().spec_dtype(),
                        T::spec_element_type(),
                        shape@,
                    )
                    &&& final(engine).shape_of(t.spec_value().spec_handle()) =~= shape@
                    &&& final(engine).holds_external(t.spec_value().spec_handle())
                    &&& t.spec_value().spec_release_on_drop()
                    &&& t.spec_value().spec_backing() == BackingKind::Unanchored
                    &&& t.spec_value().spec_memory_info() == Option::Some(info)
                    &&& Engine::others_unchanged(
                        *old(engine),
                        *final(engine),
                        t.spec_value().spec_handle(),
                    )
                },
                Result::Err(_) => false,
            },
    {
        let _ = data;
        let elem = T::into_tensor_element_type();
        let shape_for_dtype = copy_dimensions(shape.as_slice());
        let symbols = none_symbols(shape_for_dtype.len());
        let h = engine.create_external_tensor(elem, shape);
        let dtype = ValueType::Tensor {
            ty: elem,
            dimensions: shape_for_dtype,
            dimension_symbols: symbols,
        };
        let value = Value::construct(h, dtype, true, Option::Some(info), BackingKind::Unanchored);
        Ok(crate::value::ValueRefMut::new(value))
    }
}

} // verus!
