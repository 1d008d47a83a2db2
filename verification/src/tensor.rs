//! Tensor element types and the conversion between host element values and
//! the storage words the modelled engine keeps them in.

use vstd::prelude::*;

verus! {

/// The element type of a tensor, as recorded in a value's type descriptor.
#[derive(Clone, Copy, Debug, PartialEq, Eq, Structural)]
pub enum TensorElementType {
    Bool,
    Int8,
    Int16,
    Int32,
    Int64,
    Uint8,
    Uint16,
    Uint32,
    Uint64,
    /// Variable-length UTF-8 strings.
    String,
    /// 32-bit IEEE 754 floating point (descriptor tag only; this crate
    /// constructs no such tensors).
    Float32,
    /// 64-bit IEEE 754 floating point (descriptor tag only; this crate
    /// constructs no such tensors).
    Float64,
}

/// The display name of an element type.
pub open spec fn spec_type_name(t: TensorElementType) -> Seq<char> {
    match t {
        TensorElementType::Bool => "bool"@,
        TensorElementType::Int8 => "i8"@,
        TensorElementType::Int16 => "i16"@,
        TensorElementType::Int32 => "i32"@,
        TensorElementType::Int64 => "i64"@,
        TensorElementType::Uint8 => "u8"@,
        TensorElementType::Uint16 => "u16"@,
        TensorElementType::Uint32 => "u32"@,
        TensorElementType::Uint64 => "u64"@,
        TensorElementType::String => "string"@,
        TensorElementType::Float32 => "f32"@,
        TensorElementType::Float64 => "f64"@,
    }
}

impl TensorElementType {
    /// A short display name for the element type.
    pub fn as_str(&self) -> (r: &'static str)
        ensures
            r@ =~= spec_type_name(*self),
    {
        match self {
            TensorElementType::Bool => "bool",
            TensorElementType::Int8 => "i8",
            TensorElementType::Int16 => "i16",
            TensorElementType::Int32 => "i32",
            TensorElementType::Int64 => "i64",
            TensorElementType::Uint8 => "u8",
            TensorElementType::Uint16 => "u16",
            TensorElementType::Uint32 => "u32",
            TensorElementType::Uint64 => "u64",
            TensorElementType::String => "string",
            TensorElementType::Float32 => "f32",
            TensorElementType::Float64 => "f64",
        }
    }
}

/// Every requested dimension is at least one.
pub open spec fn spec_dims_ok(shape: Seq<i64>) -> bool {
    forall|i: int| 0 <= i < shape.len() ==> #[trigger] shape[i] >= 1
}

/// The element count a shape denotes: the product of its dimensions, read
/// as zero as soon as a negative dimension appears; the empty shape denotes
/// a scalar holding one element.
pub open spec fn spec_shape_size(shape: Seq<i64>) -> int
    decreases shape.len(),
{
    if shape.len() == 0 {
        1
    } else if shape[0] < 0 {
        0
    } else {
        shape[0] * spec_shape_size(shape.subrange(1, shape.len() as int))
    }
}

/// A shape never denotes a negative element count.
pub proof fn lemma_shape_size_nonneg(shape: Seq<i64>)
    ensures
        spec_shape_size(shape) >= 0,
    decreases shape.len(),
{
    if shape.len() > 0 && shape[0] >= 0 {
        let rest = shape.subrange(1, shape.len() as int);
        lemma_shape_size_nonneg(rest);
        assert(shape[0] * spec_shape_size(rest) >= 0) by (nonlinear_arith)
            requires
                shape[0] >= 0,
                spec_shape_size(rest) >= 0,
        ;
    }
}

/// A shape of valid dimensions denotes at least one element.
pub proof fn lemma_shape_size_pos(shape: Seq<i64>)
    requires
        spec_dims_ok(shape),
    ensures
        spec_shape_size(shape) >= 1,
    decreases shape.len(),
{
    if shape.len() > 0 {
        let rest = shape.subrange(1, shape.len() as int);
        assert(spec_dims_ok(rest)) by {
            assert(forall|i: int| 0 <= i < rest.len() ==> rest[i] == shape[i + 1]);
        }
        lemma_shape_size_pos(rest);
        assert(shape[0] * spec_shape_size(rest) >= 1) by (nonlinear_arith)
            requires
                shape[0] >= 1,
                spec_shape_size(rest) >= 1,
        ;
    }
}

/// `idx` is a well-formed multi-dimensional index into `shape`.
pub open spec fn spec_indices_ok(shape: Seq<i64>, idx: Seq<i64>) -> bool {
    &&& idx.len() == shape.len()
    &&& forall|k: int| 0 <= k < idx.len() ==> 0 <= #[trigger] idx[k] < shape[k]
}

/// The row-major flat offset denoted by the first `k` coordinates.
pub open spec fn spec_flat_prefix(shape: Seq<i64>, idx: Seq<i64>, k: int) -> int
    decreases k,
{
    if k <= 0 {
        0
    } else {
        spec_flat_prefix(shape, idx, k - 1) * shape[k - 1] + idx[k - 1]
    }
}

/// The row-major flat offset of a multi-dimensional index.
pub open spec fn spec_flat_index(shape: Seq<i64>, idx: Seq<i64>) -> int {
    spec_flat_prefix(shape, idx, shape.len() as int)
}

/// Appending a dimension multiplies the element count.
pub proof fn lemma_shape_size_snoc(s: Seq<i64>, d: i64)
    requires
        forall|i: int| 0 <= i < s.len() ==> #[trigger] s[i] >= 0,
        d >= 0,
    ensures
        spec_shape_size(s.push(d)) == spec_shape_size(s) * d,
    decreases s.len(),
{
    if s.len() == 0 {
        let p = s.push(d);
        assert(p[0] == d);
        assert(p.subrange(1, p.len() as int) =~= Seq::<i64>::empty());
        assert(spec_shape_size(p.subrange(1, p.len() as int)) == 1);
        assert(spec_shape_size(p) == d * 1);
        assert(spec_shape_size(s) == 1);
    } else {
        let rest = s.subrange(1, s.len() as int);
        assert(s.push(d).subrange(1, s.push(d).len() as int) =~= rest.push(d));
        assert(forall|i: int| 0 <= i < rest.len() ==> #[trigger] rest[i] >= 0);
        lemma_shape_size_snoc(rest, d);
        assert(s.push(d)[0] == s[0]);
        assert(spec_shape_size(s) == s[0] * spec_shape_size(rest));
        assert(spec_shape_size(s.push(d)) == s[0] * spec_shape_size(rest.push(d)));
        assert(s[0] * (spec_shape_size(rest) * d) == (s[0] * spec_shape_size(rest)) * d)
            by (nonlinear_arith);
    }
}

/// A flat prefix offset stays strictly below the element count of the
/// dimensions consumed so far.
pub proof fn lemma_flat_prefix_bounds(shape: Seq<i64>, idx: Seq<i64>, k: int)
    requires
        spec_dims_ok(shape),
        spec_indices_ok(shape, idx),
        0 <= k <= shape.len(),
    ensures
        0 <= spec_flat_prefix(shape, idx, k),
        spec_flat_prefix(shape, idx, k) <= spec_shape_size(shape.take(k)) - 1,
    decreases k,
{
    if k == 0 {
        assert(shape.take(0) =~= Seq::<i64>::empty());
    } else {
        lemma_flat_prefix_bounds(shape, idx, k - 1);
        let d = shape[k - 1];
        let i = idx[k - 1];
        let pre = shape.take(k - 1);
        let s0 = spec_shape_size(pre);
        let fp = spec_flat_prefix(shape, idx, k - 1);
        assert(shape.take(k) =~= pre.push(d));
        assert(forall|t: int| 0 <= t < pre.len() ==> #[trigger] pre[t] >= 0);
        lemma_shape_size_snoc(pre, d);
        assert(fp * d + i <= (s0 - 1) * d + (d - 1)) by (nonlinear_arith)
            requires
                0 <= fp <= s0 - 1,
                0 <= i <= d - 1,
                d >= 1,
        ;
        assert((s0 - 1) * d + (d - 1) == s0 * d - 1) by (nonlinear_arith);
        assert(fp * d + i >= 0) by (nonlinear_arith)
            requires
                fp >= 0,
                d >= 1,
                i >= 0,
        ;
    }
}

/// Consuming more dimensions never shrinks the element count.
pub proof fn lemma_shape_size_take_le(shape: Seq<i64>, k: int)
    requires
        spec_dims_ok(shape),
        0 <= k <= shape.len(),
    ensures
        spec_shape_size(shape.take(k)) <= spec_shape_size(shape),
        spec_shape_size(shape.take(k)) >= 1,
    decreases shape.len() - k,
{
    assert(spec_dims_ok(shape.take(k))) by {
        assert(forall|t: int| 0 <= t < k ==> shape.take(k)[t] == shape[t]);
    }
    lemma_shape_size_pos(shape.take(k));
    if k < shape.len() {
        lemma_shape_size_take_le(shape, k + 1);
        let pre = shape.take(k);
        let d = shape[k];
        assert(shape.take(k + 1) =~= pre.push(d));
        assert(forall|t: int| 0 <= t < pre.len() ==> #[trigger] pre[t] >= 0);
        lemma_shape_size_snoc(pre, d);
        assert(spec_shape_size(pre) * d >= spec_shape_size(pre)) by (nonlinear_arith)
            requires
                d >= 1,
                spec_shape_size(pre) >= 1,
        ;
    } else {
        assert(shape.take(k) =~= shape);
    }
}

/// Computes the row-major flat offset of a multi-dimensional index; the
/// offset is in bounds for a buffer of the shape's element count.
pub fn compute_flat_index(shape: &Vec<i64>, indices: &[i64]) -> (r: usize)
    requires
        spec_dims_ok(shape@),
        spec_indices_ok(shape@, indices@),
        spec_shape_size(shape@) <= usize::MAX,
    ensures
        r as int == spec_flat_index(shape@, indices@),
        r < spec_shape_size(shape@),
{
    let n = shape.len();
    let mut acc: usize = 0;
    let mut k: usize = 0;
    proof {
        lemma_flat_prefix_bounds(shape@, indices@, 0);
        lemma_shape_size_take_le(shape@, 0);
    }
    while k < n
        invariant
            spec_dims_ok(shape@),
            spec_indices_ok(shape@, indices@),
            spec_shape_size(shape@) <= usize::MAX,
            k <= n,
            n == shape@.len(),
            n == indices@.len(),
            acc as int == spec_flat_prefix(shape@, indices@, k as int),
            acc as int <= spec_shape_size(shape@.take(k as int)) - 1,
        decreases n - k,
    {
        proof {
            lemma_flat_prefix_bounds(shape@, indices@, k + 1);
            lemma_shape_size_take_le(shape@, k + 1);
            let pre = shape@.take(k as int);
            assert(shape@.take(k + 1) =~= pre.push(shape@[k as int]));
            assert(forall|t: int| 0 <= t < pre.len() ==> #[trigger] pre[t] >= 0);
            lemma_shape_size_snoc(pre, shape@[k as int]);
            lemma_shape_size_take_le(shape@, k as int);
            assert(spec_shape_size(pre) * shape@[k as int] <= spec_shape_size(shape@.take(
                k + 1,
            )));
            assert(shape@[k as int] <= spec_shape_size(pre) * shape@[k as int])
                by (nonlinear_arith)
                requires
                    spec_shape_size(pre) >= 1,
                    shape@[k as int] >= 1,
            ;
        }
        let d = shape[k];
        let i = indices[k];
        acc = acc * (d as usize) + (i as usize);
        k = k + 1;
    }
    proof {
        assert(shape@.take(n as int) =~= shape@);
    }
    acc
}

/// A host type that corresponds to a tensor element type.
pub trait IntoTensorElementType {
    /// The element-type tag for this host type.
    spec fn spec_element_type() -> TensorElementType;

    /// The element-type tag for this host type.
    fn into_tensor_element_type() -> (t: TensorElementType)
        ensures
            t == Self::spec_element_type(),
    ;
}

/// A fixed-width host type whose values travel to and from the engine as
/// storage words, with nothing lost either way.
pub trait PrimitiveTensorElementType: IntoTensorElementType + Copy + Sized {
    /// The storage word a value is kept as.
    spec fn spec_to_word(self) -> i64;

    /// The value a storage word is read back as.
    spec fn spec_from_word(w: i64) -> Self;

    /// Encodes a value as a storage word.
    fn to_word(self) -> (w: i64)
        ensures
            w == self.spec_to_word(),
    ;

    /// Decodes a storage word back into a value.
    fn from_word(w: i64) -> (r: Self)
        ensures
            r == Self::spec_from_word(w),
    ;

    /// Decoding inverts encoding: no value is changed by the trip through
    /// the engine's storage.
    proof fn lemma_word_roundtrip(self)
        ensures
            Self::spec_from_word(self.spec_to_word()) == self,
    ;

    /// Fixed-width elements are never the string element type.
    proof fn lemma_not_string()
        ensures
            Self::spec_element_type() != TensorElementType::String,
    ;
}

impl IntoTensorElementType for i64 {
    open spec fn spec_element_type() -> TensorElementType {
        TensorElementType::Int64
    }

    fn into_tensor_element_type() -> TensorElementType {
        TensorElementType::Int64
    }
}

impl PrimitiveTensorElementType for i64 {
    open spec fn spec_to_word(self) -> i64 {
        self
    }

    open spec fn spec_from_word(w: i64) -> i64 {
        w
    }

    fn to_word(self) -> i64 {
        self
    }

    fn from_word(w: i64) -> i64 {
        w
    }

    proof fn lemma_word_roundtrip(self) {
    }

    proof fn lemma_not_string() {
    }
}

impl IntoTensorElementType for i32 {
    open spec fn spec_element_type() -> TensorElementType {
        TensorElementType::Int32
    }

    fn into_tensor_element_type() -> TensorElementType {
        TensorElementType::Int32
    }
}

impl PrimitiveTensorElementType for i32 {
    open spec fn spec_to_word(self) -> i64 {
        self as i64
    }

    open spec fn spec_from_word(w: i64) -> i32 {
        w as i32
    }

    fn to_word(self) -> i64 {
        self as i64
    }

    fn from_word(w: i64) -> i32 {
        #[verifier::truncate]
        (w as i32)
    }

    proof fn lemma_word_roundtrip(self) {
    }

    proof fn lemma_not_string() {
    }
}

impl IntoTensorElementType for i16 {
    open spec fn spec_element_type() -> TensorElementType {
        TensorElementType::Int16
    }

    fn into_tensor_element_type() -> TensorElementType {
        TensorElementType::Int16
    }
}

impl PrimitiveTensorElementType for i16 {
    open spec fn spec_to_word(self) -> i64 {
        self as i64
    }

    open spec fn spec_from_word(w: i64) -> i16 {
        w as i16
    }

    fn to_word(self) -> i64 {
        self as i64
    }

    fn from_word(w: i64) -> i16 {
        #[verifier::truncate]
        (w as i16)
    }

    proof fn lemma_word_roundtrip(self) {
    }

    proof fn lemma_not_string() {
    }
}

impl IntoTensorElementType for i8 {
    open spec fn spec_element_type() -> TensorElementType {
        TensorElementType::Int8
    }

    fn into_tensor_element_type() -> TensorElementType {
        TensorElementType::Int8
    }
}

impl PrimitiveTensorElementType for i8 {
    open spec fn spec_to_word(self) -> i64 {
        self as i64
    }

    open spec fn spec_from_word(w: i64) -> i8 {
        w as i8
    }

    fn to_word(self) -> i64 {
        self as i64
    }

    fn from_word(w: i64) -> i8 {
        #[verifier::truncate]
        (w as i8)
    }

    proof fn lemma_word_roundtrip(self) {
    }

    proof fn lemma_not_string() {
    }
}

impl IntoTensorElementType for u64 {
    open spec fn spec_element_type() -> TensorElementType {
        TensorElementType::Uint64
    }

    fn into_tensor_element_type() -> TensorElementType {
        TensorElementType::Uint64
    }
}

impl PrimitiveTensorElementType for u64 {
    open spec fn spec_to_word(self) -> i64 {
        self as i64
    }

    open spec fn spec_from_word(w: i64) -> u64 {
        w as u64
    }

    fn to_word(self) -> i64 {
        #[verifier::truncate]
        (self as i64)
    }

    fn from_word(w: i64) -> u64 {
        #[verifier::truncate]
        (w as u64)
    }

    proof fn lemma_word_roundtrip(self) {
        assert(self as i64 as u64 == self) by (bit_vector);
    }

    proof fn lemma_not_string() {
    }
}

impl IntoTensorElementType for u32 {
    open spec fn spec_element_type() -> TensorElementType {
        TensorElementType::Uint32
    }

    fn into_tensor_element_type() -> TensorElementType {
        TensorElementType::Uint32
    }
}

impl PrimitiveTensorElementType for u32 {
    open spec fn spec_to_word(self) -> i64 {
        self as i64
    }

    open spec fn spec_from_word(w: i64) -> u32 {
        w as u32
    }

    fn to_word(self) -> i64 {
        self as i64
    }

    fn from_word(w: i64) -> u32 {
        #[verifier::truncate]
        (w as u32)
    }

    proof fn lemma_word_roundtrip(self) {
    }

    proof fn lemma_not_string() {
    }
}

impl IntoTensorElementType for u16 {
    open spec fn spec_element_type() -> TensorElementType {
        TensorElementType::Uint16
    }

    fn into_tensor_element_type() -> TensorElementType {
        TensorElementType::Uint16
    }
}

impl PrimitiveTensorElementType for u16 {
    open spec fn spec_to_word(self) -> i64 {
        self as i64
    }

    open spec fn spec_from_word(w: i64) -> u16 {
        w as u16
    }

    fn to_word(self) -> i64 {
        self as i64
    }

    fn from_word(w: i64) -> u16 {
        #[verifier::truncate]
        (w as u16)
    }

    proof fn lemma_word_roundtrip(self) {
    }

    proof fn lemma_not_string() {
    }
}

impl IntoTensorElementType for u8 {
    open spec fn spec_element_type() -> TensorElementType {
        TensorElementType::Uint8
    }

    fn into_tensor_element_type() -> TensorElementType {
        TensorElementType::Uint8
    }
}

impl PrimitiveTensorElementType for u8 {
    open spec fn spec_to_word(self) -> i64 {
        self as i64
    }

    open spec fn spec_from_word(w: i64) -> u8 {
        w as u8
    }

    fn to_word(self) -> i64 {
        self as i64
    }

    fn from_word(w: i64) -> u8 {
        #[verifier::truncate]
        (w as u8)
    }

    proof fn lemma_word_roundtrip(self) {
    }

    proof fn lemma_not_string() {
    }
}

impl IntoTensorElementType for bool {
    open spec fn spec_element_type() -> TensorElementType {
        TensorElementType::Bool
    }

    fn into_tensor_element_type() -> TensorElementType {
        TensorElementType::Bool
    }
}

impl PrimitiveTensorElementType for bool {
    open spec fn spec_to_word(self) -> i64 {
        if self {
            1
        } else {
            0
        }
    }

    open spec fn spec_from_word(w: i64) -> bool {
        w != 0
    }

    fn to_word(self) -> i64 {
        if self {
            1
        } else {
            0
        }
    }

    fn from_word(w: i64) -> bool {
        w != 0
    }

    proof fn lemma_word_roundtrip(self) {
    }

    proof fn lemma_not_string() {
    }
}

impl IntoTensorElementType for String {
    open spec fn spec_element_type() -> TensorElementType {
        TensorElementType::String
    }

    fn into_tensor_element_type() -> TensorElementType {
        TensorElementType::String
    }
}

/// *Data round trip.*  Whatever fixed-width elements a tensor was created
/// from, reading the tensor back yields exactly those elements: this is the
/// composition of a constructor's guarantee (the engine's words encode the
/// input) with an extractor's guarantee (the result decodes the engine's
/// words), closed by the per-type encoding round trip.
pub proof fn lemma_tensor_data_round_trip<T: PrimitiveTensorElementType>(
    input: Seq<T>,
    words: Seq<i64>,
    extracted: Seq<T>,
)
    requires
        words.len() == input.len(),
        forall|i: int| 0 <= i < input.len() ==> words[i] == #[trigger] input[i].spec_to_word(),
        extracted.len() == words.len(),
        forall|i: int|
            0 <= i < words.len() ==> #[trigger] extracted[i] == T::spec_from_word(words[i]),
    ensures
        extracted =~= input,
{
    assert forall|i: int| 0 <= i < input.len() implies extracted[i] == input[i] by {
        input[i].lemma_word_roundtrip();
    }
}

/// *Mutation visibility.*  Overwriting one element of a tensor's buffer is
/// seen by every later read through any alias of that buffer: the written
/// position reads back as the written value, every other position is
/// untouched.
pub proof fn lemma_mutation_visible<T: PrimitiveTensorElementType>(
    before: Seq<i64>,
    flat: int,
    value: T,
    after: Seq<i64>,
    extracted: Seq<T>,
)
    requires
        0 <= flat < before.len(),
        after =~= before.update(flat, value.spec_to_word()),
        extracted.len() == after.len(),
        forall|i: int|
            0 <= i < after.len() ==> #[trigger] extracted[i] == T::spec_from_word(after[i]),
    ensures
        extracted[flat] == value,
        forall|i: int|
            0 <= i < before.len() && i != flat ==> #[trigger] extracted[i] == T::spec_from_word(
                before[i],
            ),
{
    value.lemma_word_roundtrip();
}

} // verus!
