//! The value core: engine handles wrapped with the metadata needed to use
//! them safely — a type descriptor, a release flag, memory information and
//! a record of how the underlying buffer is anchored.
//!
//! A [`Value`] is type-erased at runtime and typed at compile time through
//! zero-sized marker types.  Downcasting checks the live type descriptor;
//! upcasting by value is a pure relabelling that touches nothing, while the
//! borrowed upcasts carry a counted reference of their own.  Sharing and
//! dropping are explicit operations against the [`Engine`] store, which is
//! what lets the release-once discipline be stated and proved.

use vstd::prelude::*;

use crate::engine::Engine;
use crate::error::{Error, ErrorCode};
use crate::memory::MemoryInfo;
use crate::tensor::{
    spec_flat_index, spec_indices_ok, IntoTensorElementType, PrimitiveTensorElementType,
    TensorElementType,
};
use vstd::string::StringExecFns;

verus! {

/// How the buffer behind a value is kept alive — the outcome of the
/// data-source policy that constructed it.
#[derive(Clone, Copy, Debug, PartialEq, Eq, Structural)]
pub enum BackingKind {
    /// No anchor: the buffer is engine-allocated, borrowed under a lifetime
    /// the type system enforces, or caller-managed raw memory.
    Unanchored,
    /// The caller's buffer was taken over and is owned for exactly as long
    /// as the value lives (zero-copy, ownership transferred); a buffer
    /// freshly copied out of a non-contiguous source before hand-over is
    /// owned the same way.
    OwnedBuffer,
    /// A clone of a shared-ownership handle anchors the buffer (zero-copy).
    SharedBuffer,
}

/// The type descriptor a value carries: what the engine says the handle is.
#[derive(Debug, PartialEq, Eq)]
pub enum ValueType {
    /// A tensor of `ty` elements with the given dimensions; each dimension
    /// may carry a symbolic name.
    Tensor {
        ty: TensorElementType,
        dimensions: Vec<i64>,
        dimension_symbols: Vec<Option<String>>,
    },
    /// A sequence of values.
    Sequence,
    /// A map value.
    Mapping,
    /// A value of a kind this binding does not further describe.
    Unknown,
}

/// Two symbol lists name the same dimensions.
pub open spec fn same_symbols(a: Seq<Option<String>>, b: Seq<Option<String>>) -> bool {
    &&& a.len() == b.len()
    &&& forall|i: int|
        0 <= i < a.len() ==> match (#[trigger] a[i], b[i]) {
            (Option::Some(x), Option::Some(y)) => x@ =~= y@,
            (Option::None, Option::None) => true,
            _ => false,
        }
}

/// Two descriptors describe the same type.
pub open spec fn same_descriptor(a: ValueType, b: ValueType) -> bool {
    match (a, b) {
        (
            ValueType::Tensor { ty: t1, dimensions: d1, dimension_symbols: s1 },
            ValueType::Tensor { ty: t2, dimensions: d2, dimension_symbols: s2 },
        ) => t1 == t2 && d1@ =~= d2@ && same_symbols(s1@, s2@),
        (ValueType::Sequence, ValueType::Sequence) => true,
        (ValueType::Mapping, ValueType::Mapping) => true,
        (ValueType::Unknown, ValueType::Unknown) => true,
        _ => false,
    }
}

/// `v` describes a tensor of `ty` elements with dimensions `dims`, each
/// dimension anonymous (as every constructor in this crate records them).
pub open spec fn spec_tensor_descriptor(v: ValueType, ty: TensorElementType, dims: Seq<i64>) -> bool {
    match v {
        ValueType::Tensor { ty: t, dimensions, dimension_symbols } => {
            &&& t == ty
            &&& dimensions@ =~= dims
            &&& dimension_symbols@.len() == dims.len()
            &&& forall|i: int|
                0 <= i < dimension_symbols@.len() ==> #[trigger] dimension_symbols@[i] is None
        },
        _ => false,
    }
}

impl ValueType {
    /// The element type, if this descriptor describes a tensor.
    pub fn tensor_type(&self) -> (r: Option<TensorElementType>)
        ensures
            match *self {
                ValueType::Tensor { ty, .. } => r == Option::Some(ty),
                _ => r is None,
            },
    {
        match self {
            ValueType::Tensor { ty, .. } => Option::Some(*ty),
            _ => Option::None,
        }
    }
}

fn clone_dimensions(v: &Vec<i64>) -> (r: Vec<i64>)
    ensures
        r@ =~= v@,
{
    let mut out: Vec<i64> = Vec::new();
    let mut i: usize = 0;
    let n = v.len();
    while i < n
        invariant
            i <= n,
            n == v@.len(),
            out@ =~= v@.subrange(0, i as int),
        decreases n - i,
    {
        out.push(v[i]);
        i = i + 1;
    }
    proof {
        assert(out@ =~= v@);
    }
    out
}

fn clone_symbols(v: &Vec<Option<String>>) -> (r: Vec<Option<String>>)
    ensures
        same_symbols(r@, v@),
{
    let mut out: Vec<Option<String>> = Vec::new();
    let mut i: usize = 0;
    let n = v.len();
    while i < n
        invariant
            i <= n,
            n == v@.len(),
            out@.len() == i,
            forall|k: int|
                0 <= k < i ==> match (#[trigger] out@[k], v@[k]) {
                    (Option::Some(x), Option::Some(y)) => x@ =~= y@,
                    (Option::None, Option::None) => true,
                    _ => false,
                },
        decreases n - i,
    {
        let entry = match &v[i] {
            Option::Some(s) => Option::Some(s.clone()),
            Option::None => Option::None,
        };
        out.push(entry);
        i = i + 1;
    }
    out
}

/// Duplicates a type descriptor; the copy describes the same type.
pub fn clone_value_type(v: &ValueType) -> (r: ValueType)
    ensures
        same_descriptor(r, *v),
{
    match v {
        ValueType::Tensor { ty, dimensions, dimension_symbols } => ValueType::Tensor {
            ty: *ty,
            dimensions: clone_dimensions(dimensions),
            dimension_symbols: clone_symbols(dimension_symbols),
        },
        ValueType::Sequence => ValueType::Sequence,
        ValueType::Mapping => ValueType::Mapping,
        ValueType::Unknown => ValueType::Unknown,
    }
}

/// A zero-sized tag deciding, at the type level, what kind of value a
/// [`Value`] claims to hold.
pub trait ValueTypeMarker {
    /// The short description of the claimed kind.
    spec fn spec_format() -> Seq<char>;

    /// A short description of the claimed kind, for diagnostics.
    fn format() -> (r: String)
        ensures
            r@ =~= Self::spec_format(),
    ;
}

/// A tag whose downcast check is decidable against a live type descriptor.
pub trait DowncastableTarget: ValueTypeMarker {
    /// Whether a value whose live descriptor is `dtype` may be relabelled
    /// with this tag.
    spec fn spec_can_downcast(dtype: ValueType) -> bool;

    /// The executable downcast check; a pure metadata test.
    fn can_downcast(dtype: &ValueType) -> (r: bool)
        ensures
            r == Self::spec_can_downcast(*dtype),
    ;
}

/// The tag of a value of entirely unknown kind.
#[derive(Debug)]
pub struct DynValueTypeMarker;

impl ValueTypeMarker for DynValueTypeMarker {
    open spec fn spec_format() -> Seq<char> {
        "DynValue"@
    }

    fn format() -> String {
        "DynValue".to_owned()
    }
}

impl DowncastableTarget for DynValueTypeMarker {
    open spec fn spec_can_downcast(dtype: ValueType) -> bool {
        true
    }

    fn can_downcast(dtype: &ValueType) -> bool {
        true
    }
}

/// A tag claiming the value is a tensor (of known or unknown element
/// type); the tensor-data accessors are available under it.
pub trait TensorValueTypeMarker: ValueTypeMarker {

}

/// The tag of a tensor whose element type is unknown.
#[derive(Debug)]
pub struct DynTensorValueType;

impl TensorValueTypeMarker for DynTensorValueType {

}

impl ValueTypeMarker for DynTensorValueType {
    open spec fn spec_format() -> Seq<char> {
        "DynTensor"@
    }

    fn format() -> String {
        "DynTensor".to_owned()
    }
}

impl DowncastableTarget for DynTensorValueType {
    open spec fn spec_can_downcast(dtype: ValueType) -> bool {
        dtype is Tensor
    }

    fn can_downcast(dtype: &ValueType) -> bool {
        match dtype {
            ValueType::Tensor { .. } => true,
            _ => false,
        }
    }
}

/// The tag of a tensor of statically known element type `T`.
#[derive(Debug)]
pub struct TensorValueType<T: IntoTensorElementType>(core::marker::PhantomData<T>);

impl<T: IntoTensorElementType> ValueTypeMarker for TensorValueType<T> {
    open spec fn spec_format() -> Seq<char> {
        "Tensor<"@ + crate::tensor::spec_type_name(T::spec_element_type()) + ">"@
    }

    fn format() -> String {
        let mut s = String::new();
        s.append("Tensor<");
        s.append(T::into_tensor_element_type().as_str());
        s.append(">");
        s
    }
}

impl<T: IntoTensorElementType> TensorValueTypeMarker for TensorValueType<T> {

}

impl<T: IntoTensorElementType> DowncastableTarget for TensorValueType<T> {
    open spec fn spec_can_downcast(dtype: ValueType) -> bool {
        match dtype {
            ValueType::Tensor { ty, .. } => ty == T::spec_element_type(),
            _ => false,
        }
    }

    fn can_downcast(dtype: &ValueType) -> bool {
        match dtype {
            ValueType::Tensor { ty, .. } => *ty == T::into_tensor_element_type(),
            _ => false,
        }
    }
}

/// The host-side metadata of one wrapped engine handle.
#[derive(Debug)]
pub(crate) struct ValueInner {
    pub(crate) handle: usize,
    pub(crate) dtype: ValueType,
    pub(crate) release_on_drop: bool,
    pub(crate) memory_info: Option<MemoryInfo>,
    pub(crate) backing: BackingKind,
}

/// An engine-owned object, wrapped with the metadata needed to use it
/// without re-querying the engine: a non-null handle, a type descriptor,
/// whether this wrapper owes the engine's release call, where the buffer
/// lives, and how the buffer is anchored.
#[derive(Debug)]
pub struct Value<Type: ValueTypeMarker> {
    inner: ValueInner,
    _markers: core::marker::PhantomData<Type>,
}

/// A value of entirely unknown kind.
pub type DynValue = Value<DynValueTypeMarker>;

/// A tensor value whose element type is unknown.
pub type DynTensor = Value<DynTensorValueType>;

/// A tensor value of statically known element type.
pub type Tensor<T> = Value<TensorValueType<T>>;

impl<Type: ValueTypeMarker> Value<Type> {
    #[verifier::type_invariant]
    spec fn type_inv(self) -> bool {
        self.inner.handle >= 1
    }

    /// The wrapped engine handle.
    pub closed spec fn spec_handle(self) -> usize {
        self.inner.handle
    }

    /// The live type descriptor.
    pub closed spec fn spec_dtype(self) -> ValueType {
        self.inner.dtype
    }

    /// Whether this wrapper owes the engine's release call.
    pub closed spec fn spec_release_on_drop(self) -> bool {
        self.inner.release_on_drop
    }

    /// The recorded memory information, if any.
    pub closed spec fn spec_memory_info(self) -> Option<MemoryInfo> {
        self.inner.memory_info
    }

    /// How the buffer behind this value is anchored.
    pub closed spec fn spec_backing(self) -> BackingKind {
        self.inner.backing
    }

    /// Wraps a live handle; the caller has validated it against the engine.
    pub(crate) fn construct(
        handle: usize,
        dtype: ValueType,
        release_on_drop: bool,
        memory_info: Option<MemoryInfo>,
        backing: BackingKind,
    ) -> (r: Value<Type>)
        requires
            handle >= 1,
        ensures
            r.spec_handle() == handle,
            r.spec_dtype() == dtype,
            r.spec_release_on_drop() == release_on_drop,
            r.spec_memory_info() == memory_info,
            r.spec_backing() == backing,
    {
        Value {
            inner: ValueInner { handle, dtype, release_on_drop, memory_info, backing },
            _markers: core::marker::PhantomData,
        }
    }

    /// The live type descriptor.
    pub fn dtype(&self) -> (r: &ValueType)
        ensures
            *r == self.spec_dtype(),
    {
        &self.inner.dtype
    }

    /// Where the tensor's buffer lives.  Callers must check this before
    /// treating the buffer as host memory; constructors always record it
    /// for tensors, which is what the precondition states.
    pub fn memory_info(&self) -> (r: &MemoryInfo)
        requires
            self.spec_memory_info() is Some,
        ensures
            Option::Some(*r) == self.spec_memory_info(),
    {
        match &self.inner.memory_info {
            Option::Some(m) => m,
            Option::None => vstd::pervasive::unreached(),
        }
    }

    /// Relabels this value as being of entirely unknown kind; free of any
    /// engine call and of any runtime effect.
    pub fn into_dyn(self) -> (r: DynValue)
        ensures
            r.spec_handle() == self.spec_handle(),
            r.spec_dtype() == self.spec_dtype(),
            r.spec_release_on_drop() == self.spec_release_on_drop(),
            r.spec_memory_info() == self.spec_memory_info(),
            r.spec_backing() == self.spec_backing(),
    {
        proof {
            use_type_invariant(&self);
        }
        Value { inner: self.inner, _markers: core::marker::PhantomData }
    }

    /// Attempts to relabel this value with the statically typed tag
    /// `Other`.  Succeeds exactly when the live type descriptor is
    /// compatible with `Other`; a pure metadata check that makes no engine
    /// call and never touches the handle.
    pub fn downcast<Other: DowncastableTarget>(self) -> (r: Option<Value<Other>>)
        ensures
            r is Some <==> Other::spec_can_downcast(self.spec_dtype()),
            match r {
                Option::Some(v) => {
                    &&& v.spec_handle() == self.spec_handle()
                    &&& v.spec_dtype() == self.spec_dtype()
                    &&& v.spec_release_on_drop() == self.spec_release_on_drop()
                    &&& v.spec_memory_info() == self.spec_memory_info()
                    &&& v.spec_backing() == self.spec_backing()
                },
                Option::None => true,
            },
    {
        proof {
            use_type_invariant(&self);
        }
        if Other::can_downcast(&self.inner.dtype) {
            Option::Some(Value { inner: self.inner, _markers: core::marker::PhantomData })
        } else {
            Option::None
        }
    }

    /// Hands out one more host reference to the same engine object: the
    /// engine's reference count for the handle grows by one, and the copy
    /// carries the same metadata.
    pub fn clone_ref(&self, engine: &mut Engine) -> (r: Value<Type>)
        requires
            old(engine).wf(),
            old(engine).valid_handle(self.spec_handle()),
            old(engine).is_live(self.spec_handle()),
            old(engine).refs(self.spec_handle()) < usize::MAX,
        ensures
            final(engine).wf(),
            final(engine).handle_count() == old(engine).handle_count(),
            final(engine).refs(self.spec_handle()) == old(engine).refs(self.spec_handle()) + 1,
            final(engine).is_live(self.spec_handle()),
            Engine::handle_unchanged_but_refs(*old(engine), *final(engine), self.spec_handle()),
            Engine::others_unchanged(*old(engine), *final(engine), self.spec_handle()),
            r.spec_handle() == self.spec_handle(),
            same_descriptor(r.spec_dtype(), self.spec_dtype()),
            r.spec_release_on_drop() == self.spec_release_on_drop(),
            r.spec_memory_info() == self.spec_memory_info(),
            r.spec_backing() == self.spec_backing(),
    {
        proof {
            use_type_invariant(self);
        }
        engine.add_ref(self.inner.handle);
        Value {
            inner: ValueInner {
                handle: self.inner.handle,
                dtype: clone_value_type(&self.inner.dtype),
                release_on_drop: self.inner.release_on_drop,
                memory_info: self.inner.memory_info,
                backing: self.inner.backing,
            },
            _markers: core::marker::PhantomData,
        }
    }

    /// Drops one host reference.  The engine's reference count for the
    /// handle falls by one; if this was the last reference and the wrapper
    /// owed the release call, the engine's release entry point runs — at
    /// that point exactly once for the handle.  A last reference that owes
    /// no release (a borrowed handle) leaves the engine object alive.
    pub fn drop_ref(self, engine: &mut Engine) -> (r: ())
        requires
            old(engine).wf(),
            old(engine).valid_handle(self.spec_handle()),
            old(engine).is_live(self.spec_handle()),
            old(engine).refs(self.spec_handle()) >= 1,
        ensures
            final(engine).wf(),
            final(engine).handle_count() == old(engine).handle_count(),
            final(engine).refs(self.spec_handle()) == old(engine).refs(self.spec_handle()) - 1,
            Engine::others_unchanged(*old(engine), *final(engine), self.spec_handle()),
            old(engine).refs(self.spec_handle()) > 1 ==> final(engine).is_live(
                self.spec_handle(),
            ) && Engine::handle_unchanged_but_refs(
                *old(engine),
                *final(engine),
                self.spec_handle(),
            ),
            (old(engine).refs(self.spec_handle()) == 1 && self.spec_release_on_drop())
                ==> final(engine).release_count(self.spec_handle()) == 1
                && !final(engine).is_live(self.spec_handle()),
            (old(engine).refs(self.spec_handle()) == 1 && !self.spec_release_on_drop())
                ==> final(engine).is_live(self.spec_handle())
                && Engine::handle_unchanged_but_refs(
                *old(engine),
                *final(engine),
                self.spec_handle(),
            ),
    {
        proof {
            use_type_invariant(&self);
        }
        let ghost pre = *engine;
        let remaining = engine.dec_ref(self.inner.handle);
        let ghost mid = *engine;
        if remaining == 0 && self.inner.release_on_drop {
            engine.release_value(self.inner.handle);
            proof {
                assert forall|h2: usize| h2 != self.spec_handle() implies
                    #[trigger] Engine::handle_unchanged(pre, *engine, h2) by {
                    assert(Engine::handle_unchanged(pre, mid, h2));
                    assert(Engine::handle_unchanged(mid, *engine, h2));
                }
            }
        }
    }
}

/// `v` describes a tensor of `ty` elements.
pub open spec fn spec_is_tensor_of(v: ValueType, ty: TensorElementType) -> bool {
    match v {
        ValueType::Tensor { ty: t, .. } => t == ty,
        _ => false,
    }
}

/// The message of the error returned when a typed extraction meets a value
/// of another type.
pub open spec fn extract_mismatch_message(expected: TensorElementType, actual: ValueType) -> Seq<
    char,
> {
    match actual {
        ValueType::Tensor { ty, .. } => "tried to extract a tensor of element type "@
            + crate::tensor::spec_type_name(expected)
            + " but the value holds a tensor of element type "@ + crate::tensor::spec_type_name(
            ty,
        ),
        _ => "tried to extract a tensor of element type "@ + crate::tensor::spec_type_name(
            expected,
        ) + " but the value is not a tensor"@,
    }
}

fn build_mismatch_error(expected: TensorElementType, actual: &ValueType) -> (r: Error)
    ensures
        r.spec_code() == ErrorCode::Fail,
        r.spec_message() =~= extract_mismatch_message(expected, *actual),
{
    let mut message = String::new();
    message.append("tried to extract a tensor of element type ");
    message.append(expected.as_str());
    match actual {
        ValueType::Tensor { ty, .. } => {
            message.append(" but the value holds a tensor of element type ");
            message.append(ty.as_str());
        },
        _ => {
            message.append(" but the value is not a tensor");
        },
    }
    Error::new(ErrorCode::Fail, message)
}

impl<Type: ValueTypeMarker> Value<Type> {
    /// The engine store backs this value: the handle is issued and live,
    /// and a tensor descriptor agrees with the engine's record (a value
    /// created over caller-managed raw device memory does not satisfy this,
    /// and the host-side data accessors refuse it).
    pub open spec fn wf_in(self, e: Engine) -> bool {
        &&& e.valid_handle(self.spec_handle())
        &&& e.is_live(self.spec_handle())
        &&& match self.spec_dtype() {
            ValueType::Tensor { ty, dimensions, .. } => {
                &&& ty == e.elem_type_of(self.spec_handle())
                &&& dimensions@ =~= e.shape_of(self.spec_handle())
                &&& (ty == TensorElementType::String ==> e.holds_strings(self.spec_handle()))
                &&& (ty != TensorElementType::String ==> e.holds_words(self.spec_handle()))
            },
            _ => true,
        }
    }

    /// Whether the value's buffer may be dereferenced by the host.
    pub open spec fn spec_host_accessible(self) -> bool {
        match self.spec_memory_info() {
            Option::Some(m) => m.spec_cpu_accessible(),
            Option::None => false,
        }
    }
}

impl<Type: TensorValueTypeMarker> Value<Type> {
    /// Extracts the shape and data of a tensor of `T` elements, if that is
    /// what this value holds.  Succeeds exactly when the live descriptor
    /// names a tensor of `T`'s element type; fails with the mismatch
    /// message otherwise.
    pub fn try_extract_raw_tensor<T: PrimitiveTensorElementType>(&self, engine: &Engine) -> (r:
        Result<(Vec<i64>, Vec<T>), Error>)
        requires
            engine.wf(),
            self.wf_in(*engine),
        ensures
            r is Ok <==> spec_is_tensor_of(self.spec_dtype(), T::spec_element_type()),
            match r {
                Result::Ok((shape, data)) => {
                    &&& shape@ =~= engine.shape_of(self.spec_handle())
                    &&& data@.len() == engine.words_of(self.spec_handle()).len()
                    &&& forall|i: int|
                        0 <= i < data@.len() ==> #[trigger] data@[i] == T::spec_from_word(
                            engine.words_of(self.spec_handle())[i],
                        )
                },
                Result::Err(e) => {
                    &&& e.spec_code() == ErrorCode::Fail
                    &&& e.spec_message() =~= extract_mismatch_message(
                        T::spec_element_type(),
                        self.spec_dtype(),
                    )
                },
            },
    {
        proof {
            use_type_invariant(self);
        }
        let expected = T::into_tensor_element_type();
        match &self.inner.dtype {
            ValueType::Tensor { ty, dimensions, .. } => {
                if *ty == expected {
                    proof {
                        T::lemma_not_string();
                    }
                    let shape = clone_dimensions(dimensions);
                    let words = engine.words_snapshot(self.inner.handle);
                    let mut data: Vec<T> = Vec::new();
                    let mut i: usize = 0;
                    let n = words.len();
                    while i < n
                        invariant
                            i <= n,
                            n == words@.len(),
                            data@.len() == i,
                            forall|k: int|
                                0 <= k < i ==> #[trigger] data@[k] == T::spec_from_word(
                                    words@[k],
                                ),
                        decreases n - i,
                    {
                        data.push(T::from_word(words[i]));
                        i = i + 1;
                    }
                    Ok((shape, data))
                } else {
                    Err(build_mismatch_error(expected, &self.inner.dtype))
                }
            },
            _ => Err(build_mismatch_error(expected, &self.inner.dtype)),
        }
    }

    /// Extracts the shape and strings of a string tensor, if that is what
    /// this value holds.  Succeeds exactly when the live descriptor names a
    /// string tensor; the strings come back exactly as the engine holds
    /// them.
    pub fn try_extract_raw_string_tensor(&self, engine: &Engine) -> (r: Result<
        (Vec<i64>, Vec<String>),
        Error,
    >)
        requires
            engine.wf(),
            self.wf_in(*engine),
        ensures
            r is Ok <==> spec_is_tensor_of(self.spec_dtype(), TensorElementType::String),
            match r {
                Result::Ok((shape, strings)) => {
                    &&& shape@ =~= engine.shape_of(self.spec_handle())
                    &&& strings@.map_values(|s: String| s@) =~= engine.strings_of(
                        self.spec_handle(),
                    )
                },
                Result::Err(e) => {
                    &&& e.spec_code() == ErrorCode::Fail
                    &&& e.spec_message() =~= extract_mismatch_message(
                        TensorElementType::String,
                        self.spec_dtype(),
                    )
                },
            },
    {
        proof {
            use_type_invariant(self);
        }
        match &self.inner.dtype {
            ValueType::Tensor { ty, dimensions, .. } => {
                if *ty == TensorElementType::String {
                    let shape = clone_dimensions(dimensions);
                    let strings = engine.strings_snapshot(self.inner.handle);
                    Ok((shape, strings))
                } else {
                    Err(build_mismatch_error(TensorElementType::String, &self.inner.dtype))
                }
            },
            _ => Err(build_mismatch_error(TensorElementType::String, &self.inner.dtype)),
        }
    }
}

impl<T: PrimitiveTensorElementType> Tensor<T> {
    /// Extracts the shape and data of this statically typed tensor.
    pub fn extract_raw_tensor(&self, engine: &Engine) -> (r: (Vec<i64>, Vec<T>))
        requires
            engine.wf(),
            self.wf_in(*engine),
            spec_is_tensor_of(self.spec_dtype(), T::spec_element_type()),
        ensures
            r.0@ =~= engine.shape_of(self.spec_handle()),
            r.1@.len() == engine.words_of(self.spec_handle()).len(),
            forall|i: int|
                0 <= i < r.1@.len() ==> #[trigger] r.1@[i] == T::spec_from_word(
                    engine.words_of(self.spec_handle())[i],
                ),
    {
        match self.try_extract_raw_tensor::<T>(engine) {
            Ok(parts) => parts,
            Err(_) => vstd::pervasive::unreached(),
        }
    }

    /// Reads one element of a host-accessible tensor by multi-dimensional
    /// index.  Indexing is gated on the buffer being host memory; indexing
    /// device memory is excluded by precondition, as the engine makes it
    /// undefined behaviour rather than an error.
    pub fn index(&self, engine: &Engine, indices: &[i64]) -> (r: T)
        requires
            engine.wf(),
            self.wf_in(*engine),
            spec_is_tensor_of(self.spec_dtype(), T::spec_element_type()),
            self.spec_host_accessible(),
            spec_indices_ok(engine.shape_of(self.spec_handle()), indices@),
        ensures
            r == T::spec_from_word(
                engine.words_of(self.spec_handle())[spec_flat_index(
                    engine.shape_of(self.spec_handle()),
                    indices@,
                )],
            ),
    {
        proof {
            use_type_invariant(self);
            T::lemma_not_string();
            assert(engine.handle_ok(self.spec_handle()));
        }
        match &self.inner.dtype {
            ValueType::Tensor { dimensions, .. } => {
                let flat = crate::tensor::compute_flat_index(dimensions, indices);
                T::from_word(engine.read_word(self.inner.handle, flat))
            },
            _ => vstd::pervasive::unreached(),
        }
    }

    /// Overwrites one element of a host-accessible tensor by
    /// multi-dimensional index; the change is visible to every alias of the
    /// underlying buffer, and to the original buffer when its ownership was
    /// transferred at construction.
    pub fn write_index(&self, engine: &mut Engine, indices: &[i64], value: T) -> (r: ())
        requires
            old(engine).wf(),
            self.wf_in(*old(engine)),
            spec_is_tensor_of(self.spec_dtype(), T::spec_element_type()),
            self.spec_host_accessible(),
            spec_indices_ok(old(engine).shape_of(self.spec_handle()), indices@),
        ensures
            final(engine).wf(),
            self.wf_in(*final(engine)),
            final(engine).handle_count() == old(engine).handle_count(),
            final(engine).refs(self.spec_handle()) == old(engine).refs(self.spec_handle()),
            final(engine).words_of(self.spec_handle()) =~= old(engine).words_of(
                self.spec_handle(),
            ).update(
                spec_flat_index(old(engine).shape_of(self.spec_handle()), indices@),
                value.spec_to_word(),
            ),
            Engine::others_unchanged(*old(engine), *final(engine), self.spec_handle()),
    {
        proof {
            use_type_invariant(self);
            T::lemma_not_string();
            assert(old(engine).handle_ok(self.spec_handle()));
        }
        match &self.inner.dtype {
            ValueType::Tensor { dimensions, .. } => {
                let flat = crate::tensor::compute_flat_index(dimensions, indices);
                engine.write_word(self.inner.handle, flat, value.to_word());
            },
            _ => {
                proof {
                    assert(false);
                }
            },
        }
    }
}

/// A borrowing view of a value: carries the same metadata, may read through
/// the engine, but never owes nor performs the release call — the owner it
/// was created from does, after this view's lifetime ends.
pub struct ValueRef<'v, Type: ValueTypeMarker> {
    value: Value<Type>,
    upgradable: bool,
    _lifetime: core::marker::PhantomData<&'v ()>,
}

/// A borrowed view of a value of entirely unknown kind.
pub type DynValueRef<'v> = ValueRef<'v, DynValueTypeMarker>;

/// A borrowed view of a tensor whose element type is unknown.
pub type DynTensorRef<'v> = ValueRef<'v, DynTensorValueType>;

/// A borrowed view of a statically typed tensor.
pub type TensorRef<'v, T> = ValueRef<'v, TensorValueType<T>>;

/// A mutable borrowing view of a value; mutation itself goes through the
/// engine, so the view carries the same metadata as [`ValueRef`].
pub struct ValueRefMut<'v, Type: ValueTypeMarker> {
    value: Value<Type>,
    _lifetime: core::marker::PhantomData<&'v mut ()>,
}

/// A mutable borrowed view of a value of entirely unknown kind.
pub type DynValueRefMut<'v> = ValueRefMut<'v, DynValueTypeMarker>;

/// A mutable borrowed view of a tensor whose element type is unknown.
pub type DynTensorRefMut<'v> = ValueRefMut<'v, DynTensorValueType>;

/// A mutable borrowed view of a statically typed tensor.
pub type TensorRefMut<'v, T> = ValueRefMut<'v, TensorValueType<T>>;

impl<'v, Type: ValueTypeMarker> ValueRef<'v, Type> {
    /// The viewed value.
    pub closed spec fn spec_value(self) -> Value<Type> {
        self.value
    }

    /// Whether the view may be upgraded back into an owned value.
    pub closed spec fn spec_upgradable(self) -> bool {
        self.upgradable
    }

    pub(crate) fn new(value: Value<Type>, upgradable: bool) -> (r: ValueRef<'v, Type>)
        ensures
            r.spec_value() == value,
            r.spec_upgradable() == upgradable,
    {
        ValueRef { value, upgradable, _lifetime: core::marker::PhantomData }
    }

    /// The viewed value; every read-only accessor of [`Value`] is reached
    /// through this.
    pub fn as_value(&self) -> (r: &Value<Type>)
        ensures
            *r == self.spec_value(),
    {
        &self.value
    }

    /// Discharges the view's counted reference, exactly as dropping it in
    /// the foreign binding would: the engine's reference count falls by
    /// one, and if this was the last reference and the value owed the
    /// release call, the engine's release entry point runs — at that point
    /// exactly once for the handle.
    pub fn drop_ref(self, engine: &mut Engine) -> (r: ())
        requires
            old(engine).wf(),
            old(engine).valid_handle(self.spec_value().spec_handle()),
            old(engine).is_live(self.spec_value().spec_handle()),
            old(engine).refs(self.spec_value().spec_handle()) >= 1,
        ensures
            final(engine).wf(),
            final(engine).handle_count() == old(engine).handle_count(),
            final(engine).refs(self.spec_value().spec_handle()) == old(engine).refs(
                self.spec_value().spec_handle(),
            ) - 1,
            Engine::others_unchanged(
                *old(engine),
                *final(engine),
                self.spec_value().spec_handle(),
            ),
            old(engine).refs(self.spec_value().spec_handle()) > 1 ==> final(engine).is_live(
                self.spec_value().spec_handle(),
            ) && Engine::handle_unchanged_but_refs(
                *old(engine),
                *final(engine),
                self.spec_value().spec_handle(),
            ),
            (old(engine).refs(self.spec_value().spec_handle()) == 1
                && self.spec_value().spec_release_on_drop()) ==> final(engine).release_count(
                self.spec_value().spec_handle(),
            ) == 1 && !final(engine).is_live(self.spec_value().spec_handle()),
            (old(engine).refs(self.spec_value().spec_handle()) == 1
                && !self.spec_value().spec_release_on_drop()) ==> final(engine).is_live(
                self.spec_value().spec_handle(),
            ) && Engine::handle_unchanged_but_refs(
                *old(engine),
                *final(engine),
                self.spec_value().spec_handle(),
            ),
    {
        self.value.drop_ref(engine)
    }
}

impl<'v, Type: ValueTypeMarker> ValueRefMut<'v, Type> {
    /// The viewed value.
    pub closed spec fn spec_value(self) -> Value<Type> {
        self.value
    }

    pub(crate) fn new(value: Value<Type>) -> (r: ValueRefMut<'v, Type>)
        ensures
            r.spec_value() == value,
    {
        ValueRefMut { value, _lifetime: core::marker::PhantomData }
    }

    /// The viewed value; the data accessors of [`Value`] are reached
    /// through this.
    pub fn as_value(&self) -> (r: &Value<Type>)
        ensures
            *r == self.spec_value(),
    {
        &self.value
    }

    /// Discharges the view's counted reference, exactly as dropping it in
    /// the foreign binding would: the engine's reference count falls by
    /// one, and if this was the last reference and the value owed the
    /// release call, the engine's release entry point runs — at that point
    /// exactly once for the handle.
    pub fn drop_ref(self, engine: &mut Engine) -> (r: ())
        requires
            old(engine).wf(),
            old(engine).valid_handle(self.spec_value().spec_handle()),
            old(engine).is_live(self.spec_value().spec_handle()),
            old(engine).refs(self.spec_value().spec_handle()) >= 1,
        ensures
            final(engine).wf(),
            final(engine).handle_count() == old(engine).handle_count(),
            final(engine).refs(self.spec_value().spec_handle()) == old(engine).refs(
                self.spec_value().spec_handle(),
            ) - 1,
            Engine::others_unchanged(
                *old(engine),
                *final(engine),
                self.spec_value().spec_handle(),
            ),
            old(engine).refs(self.spec_value().spec_handle()) > 1 ==> final(engine).is_live(
                self.spec_value().spec_handle(),
            ) && Engine::handle_unchanged_but_refs(
                *old(engine),
                *final(engine),
                self.spec_value().spec_handle(),
            ),
            (old(engine).refs(self.spec_value().spec_handle()) == 1
                && self.spec_value().spec_release_on_drop()) ==> final(engine).release_count(
                self.spec_value().spec_handle(),
            ) == 1 && !final(engine).is_live(self.spec_value().spec_handle()),
            (old(engine).refs(self.spec_value().spec_handle()) == 1
                && !self.spec_value().spec_release_on_drop()) ==> final(engine).is_live(
                self.spec_value().spec_handle(),
            ) && Engine::handle_unchanged_but_refs(
                *old(engine),
                *final(engine),
                self.spec_value().spec_handle(),
            ),
    {
        self.value.drop_ref(engine)
    }
}

impl<T: IntoTensorElementType> Tensor<T> {
    /// Relabels this statically typed tensor as a type-erased tensor; a
    /// free relabelling with no engine call and no runtime effect.
    pub fn upcast(self) -> (r: DynTensor)
        ensures
            r.spec_handle() == self.spec_handle(),
            r.spec_dtype() == self.spec_dtype(),
            r.spec_release_on_drop() == self.spec_release_on_drop(),
            r.spec_memory_info() == self.spec_memory_info(),
            r.spec_backing() == self.spec_backing(),
    {
        proof {
            use_type_invariant(&self);
        }
        Value { inner: self.inner, _markers: core::marker::PhantomData }
    }

    /// A type-erased borrowed view of this tensor: same handle, same
    /// descriptor, one more counted reference to the same engine object.
    /// The view must be discharged with [`ValueRef::drop_ref`]; the release
    /// itself fires only at the last reference overall.
    pub fn upcast_ref(&self, engine: &mut Engine) -> (r: DynTensorRef<'_>)
        requires
            old(engine).wf(),
            old(engine).valid_handle(self.spec_handle()),
            old(engine).is_live(self.spec_handle()),
            old(engine).refs(self.spec_handle()) < usize::MAX,
        ensures
            final(engine).wf(),
            final(engine).handle_count() == old(engine).handle_count(),
            final(engine).refs(self.spec_handle()) == old(engine).refs(self.spec_handle()) + 1,
            final(engine).is_live(self.spec_handle()),
            Engine::handle_unchanged_but_refs(*old(engine), *final(engine), self.spec_handle()),
            Engine::others_unchanged(*old(engine), *final(engine), self.spec_handle()),
            r.spec_value().spec_handle() == self.spec_handle(),
            same_descriptor(r.spec_value().spec_dtype(), self.spec_dtype()),
            r.spec_value().spec_release_on_drop() == self.spec_release_on_drop(),
            r.spec_value().spec_memory_info() == self.spec_memory_info(),
            r.spec_value().spec_backing() == self.spec_backing(),
    {
        proof {
            use_type_invariant(self);
        }
        engine.add_ref(self.inner.handle);
        ValueRef::new(
            Value {
                inner: ValueInner {
                    handle: self.inner.handle,
                    dtype: clone_value_type(&self.inner.dtype),
                    release_on_drop: self.inner.release_on_drop,
                    memory_info: self.inner.memory_info,
                    backing: self.inner.backing,
                },
                _markers: core::marker::PhantomData,
            },
            true,
        )
    }

    /// A type-erased mutable borrowed view of this tensor: same handle,
    /// same descriptor, one more counted reference to the same engine
    /// object.  The view must be discharged with [`ValueRefMut::drop_ref`];
    /// the release itself fires only at the last reference overall.
    pub fn upcast_mut(&mut self, engine: &mut Engine) -> (r: DynTensorRefMut<'_>)
        requires
            old(engine).wf(),
            old(engine).valid_handle(old(self).spec_handle()),
            old(engine).is_live(old(self).spec_handle()),
            old(engine).refs(old(self).spec_handle()) < usize::MAX,
        ensures
            final(engine).wf(),
            final(engine).handle_count() == old(engine).handle_count(),
            final(engine).refs(old(self).spec_handle()) == old(engine).refs(
                old(self).spec_handle(),
            ) + 1,
            final(engine).is_live(old(self).spec_handle()),
            Engine::handle_unchanged_but_refs(
                *old(engine),
                *final(engine),
                old(self).spec_handle(),
            ),
            Engine::others_unchanged(*old(engine), *final(engine), old(self).spec_handle()),
            r.spec_value().spec_handle() == old(self).spec_handle(),
            same_descriptor(r.spec_value().spec_dtype(), old(self).spec_dtype()),
            r.spec_value().spec_release_on_drop() == old(self).spec_release_on_drop(),
            r.spec_value().spec_memory_info() == old(self).spec_memory_info(),
            r.spec_value().spec_backing() == old(self).spec_backing(),
            *final(self) == *old(self),
    {
        proof {
            use_type_invariant(&*self);
        }
        engine.add_ref(self.inner.handle);
        ValueRefMut::new(
            Value {
                inner: ValueInner {
                    handle: self.inner.handle,
                    dtype: clone_value_type(&self.inner.dtype),
                    release_on_drop: self.inner.release_on_drop,
                    memory_info: self.inner.memory_info,
                    backing: self.inner.backing,
                },
                _markers: core::marker::PhantomData,
            },
        )
    }
}

impl<Type: ValueTypeMarker> crate::AsPointer for Value<Type> {
    closed spec fn spec_ptr(&self) -> usize {
        self.inner.handle
    }

    fn ptr(&self) -> (r: usize) {
        proof {
            use_type_invariant(self);
        }
        self.inner.handle
    }

    fn ptr_mut(&mut self) -> (r: usize) {
        proof {
            use_type_invariant(&*self);
        }
        self.inner.handle
    }
}

/// *String round trip.*  The strings a string tensor is created from come
/// back exactly — count and contents, non-ASCII text included — when the
/// tensor is read: this is the composition of the constructor's guarantee
/// (the engine holds exactly the input strings) with the extractor's
/// guarantee (the result is exactly what the engine holds).
pub proof fn lemma_string_round_trip(
    input: Seq<Seq<char>>,
    stored: Seq<Seq<char>>,
    extracted: Seq<Seq<char>>,
)
    requires
        stored =~= input,
        extracted =~= stored,
    ensures
        extracted =~= input,
        extracted.len() == input.len(),
{
}

impl<T: IntoTensorElementType> From<Value<TensorValueType<T>>> for DynValue {
    /// Type erasure as a conversion: the same relabelling as
    /// [`Value::into_dyn`].
    fn from(value: Value<TensorValueType<T>>) -> Self {
        proof {
            use_type_invariant(&value);
        }
        Value { inner: value.inner, _markers: core::marker::PhantomData }
    }
}

impl<T: IntoTensorElementType> vstd::std_specs::convert::FromSpecImpl<Value<TensorValueType<T>>> for DynValue {
    open spec fn obeys_from_spec() -> bool {
        true
    }

    closed spec fn from_spec(v: Value<TensorValueType<T>>) -> DynValue {
        Value { inner: v.inner, _markers: core::marker::PhantomData }
    }
}

impl From<Value<DynTensorValueType>> for DynValue {
    /// Type erasure as a conversion: the same relabelling as
    /// [`Value::into_dyn`].
    fn from(value: Value<DynTensorValueType>) -> Self {
        proof {
            use_type_invariant(&value);
        }
        Value { inner: value.inner, _markers: core::marker::PhantomData }
    }
}

impl vstd::std_specs::convert::FromSpecImpl<Value<DynTensorValueType>> for DynValue {
    open spec fn obeys_from_spec() -> bool {
        true
    }

    closed spec fn from_spec(v: Value<DynTensorValueType>) -> DynValue {
        Value { inner: v.inner, _markers: core::marker::PhantomData }
    }
}

} // verus!
