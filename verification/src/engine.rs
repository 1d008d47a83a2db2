//! An explicit model of the engine's object store, threaded through every
//! call the value layer makes.
//!
//! The real engine lives behind a C ABI and owns every tensor; the host only
//! ever holds opaque handles.  This module models that store as explicit
//! state: each handle names a record holding the element type, the shape and
//! the data, together with the host-side reference count and the number of
//! times the engine's release entry point has been invoked for the handle.
//! Tests use it directly as a release-counting stand-in for the engine, and
//! every contract in the value layer is stated against it.
//!
//! The central invariant, [`Engine::wf`], pins the release discipline: the
//! release entry point runs at most once per handle, and only after the last
//! host reference is gone.

use vstd::prelude::*;

use crate::tensor::{spec_dims_ok, spec_shape_size, TensorElementType};

verus! {

/// The data a tensor record holds.
enum TensorData {
    /// Fixed-width elements, one storage word each.
    Words(Vec<i64>),
    /// String elements.
    Strings(Vec<String>),
    /// Caller-managed memory reachable only through a raw device pointer;
    /// opaque to the host.
    External,
}

/// One engine-owned object.
struct Slot {
    elem: TensorElementType,
    shape: Vec<i64>,
    data: TensorData,
    refs: usize,
    release_count: usize,
}

/// The modelled engine: every tensor it owns, keyed by handle.
///
/// Handle `0` is never issued, mirroring the non-null guarantee of the
/// foreign interface.
pub struct Engine {
    slots: Vec<Slot>,
}

impl Engine {
    /// How many handles have ever been issued.
    pub closed spec fn handle_count(self) -> int {
        self.slots@.len() as int
    }

    /// Whether `h` names an object this engine has issued.
    pub open spec fn valid_handle(self, h: usize) -> bool {
        1 <= h <= self.handle_count()
    }

    spec fn slot_of(self, h: usize) -> Slot
        recommends
            self.valid_handle(h),
    {
        self.slots@[h - 1]
    }

    /// How many times the release entry point has run for `h`.
    pub closed spec fn release_count(self, h: usize) -> int {
        self.slot_of(h).release_count as int
    }

    /// Whether the engine still owns the object behind `h` (its release
    /// entry point has not run).
    pub open spec fn is_live(self, h: usize) -> bool {
        self.release_count(h) == 0
    }

    /// The number of outstanding host references to `h`.
    pub closed spec fn refs(self, h: usize) -> int {
        self.slot_of(h).refs as int
    }

    /// The element type recorded for `h`.
    pub closed spec fn elem_type_of(self, h: usize) -> TensorElementType {
        self.slot_of(h).elem
    }

    /// The shape recorded for `h`.
    pub closed spec fn shape_of(self, h: usize) -> Seq<i64> {
        self.slot_of(h).shape@
    }

    /// Whether `h` holds fixed-width elements.
    pub closed spec fn holds_words(self, h: usize) -> bool {
        self.slot_of(h).data is Words
    }

    /// Whether `h` holds string elements.
    pub closed spec fn holds_strings(self, h: usize) -> bool {
        self.slot_of(h).data is Strings
    }

    /// Whether `h` is backed by caller-managed external memory.
    pub closed spec fn holds_external(self, h: usize) -> bool {
        self.slot_of(h).data is External
    }

    /// The storage words `h` holds (empty unless it holds words).
    pub closed spec fn words_of(self, h: usize) -> Seq<i64> {
        match self.slot_of(h).data {
            TensorData::Words(v) => v@,
            _ => Seq::empty(),
        }
    }

    /// The strings `h` holds (empty unless it holds strings).
    pub closed spec fn strings_of(self, h: usize) -> Seq<Seq<char>> {
        match self.slot_of(h).data {
            TensorData::Strings(v) => v@.map_values(|s: String| s@),
            _ => Seq::empty(),
        }
    }

    /// Everything the store guarantees of one issued handle: the release
    /// entry point has run at most once, never before the last host
    /// reference was dropped, and the record is internally consistent
    /// (element kind matches data kind, data length matches the shape).
    pub open spec fn handle_ok(self, h: usize) -> bool {
        &&& 0 <= self.release_count(h) <= 1
        &&& self.release_count(h) == 1 ==> self.refs(h) == 0
        &&& self.holds_words(h) ==> {
            &&& self.elem_type_of(h) != TensorElementType::String
            &&& spec_dims_ok(self.shape_of(h))
            &&& self.words_of(h).len() == spec_shape_size(self.shape_of(h))
            &&& self.words_of(h).len() <= usize::MAX
        }
        &&& self.holds_strings(h) ==> {
            &&& self.elem_type_of(h) == TensorElementType::String
            &&& spec_dims_ok(self.shape_of(h))
            &&& (self.strings_of(h).len() == 0 || self.strings_of(h).len()
                == spec_shape_size(self.shape_of(h)))
        }
    }

    /// The store invariant: every issued handle satisfies [`Engine::handle_ok`].
    pub open spec fn wf(self) -> bool {
        forall|h: usize| self.valid_handle(h) ==> #[trigger] self.handle_ok(h)
    }

    /// Handle `h` describes the same object, in the same state, in `pre`
    /// and `post`.
    pub open spec fn handle_unchanged(pre: Engine, post: Engine, h: usize) -> bool {
        &&& post.valid_handle(h) == pre.valid_handle(h)
        &&& pre.valid_handle(h) ==> {
            &&& post.release_count(h) == pre.release_count(h)
            &&& post.refs(h) == pre.refs(h)
            &&& post.elem_type_of(h) == pre.elem_type_of(h)
            &&& post.shape_of(h) =~= pre.shape_of(h)
            &&& post.holds_words(h) == pre.holds_words(h)
            &&& post.holds_strings(h) == pre.holds_strings(h)
            &&& post.holds_external(h) == pre.holds_external(h)
            &&& post.words_of(h) =~= pre.words_of(h)
            &&& post.strings_of(h) =~= pre.strings_of(h)
        }
    }

    /// Handle `h` describes the same object between `pre` and `post`, with
    /// only its host reference count possibly different.
    pub open spec fn handle_unchanged_but_refs(pre: Engine, post: Engine, h: usize) -> bool {
        &&& post.valid_handle(h) == pre.valid_handle(h)
        &&& pre.valid_handle(h) ==> {
            &&& post.release_count(h) == pre.release_count(h)
            &&& post.elem_type_of(h) == pre.elem_type_of(h)
            &&& post.shape_of(h) =~= pre.shape_of(h)
            &&& post.holds_words(h) == pre.holds_words(h)
            &&& post.holds_strings(h) == pre.holds_strings(h)
            &&& post.holds_external(h) == pre.holds_external(h)
            &&& post.words_of(h) =~= pre.words_of(h)
            &&& post.strings_of(h) =~= pre.strings_of(h)
        }
    }

    /// Every handle but `except` is untouched between `pre` and `post`.
    pub open spec fn others_unchanged(pre: Engine, post: Engine, except: usize) -> bool {
        forall|h: usize| h != except ==> #[trigger] Engine::handle_unchanged(pre, post, h)
    }

    /// A fresh, empty store that has issued no handle.
    pub fn new() -> (e: Engine)
        ensures
            e.wf(),
            e.handle_count() == 0,
    {
        Engine { slots: Vec::new() }
    }

    /// *Release-once.*  However a handle was shared, cloned or type-erased,
    /// and in whatever order references were dropped, the engine's release
    /// entry point has run at most once for it — this is an invariant of the
    /// store, not a property of any particular call sequence.
    pub proof fn lemma_release_at_most_once(self, h: usize)
        requires
            self.wf(),
            self.valid_handle(h),
        ensures
            self.release_count(h) <= 1,
            self.release_count(h) == 1 ==> self.refs(h) == 0,
    {
        assert(self.handle_ok(h));
    }

    /// How many handles this engine has issued (observable counterpart of
    /// [`Engine::handle_count`] for callers and tests).
    pub fn issued(&self) -> (r: usize)
        ensures
            r as int == self.handle_count(),
    {
        self.slots.len()
    }

    /// How many times the release entry point has run for `h` (the
    /// observation a release-counting engine stand-in exists to make).
    pub fn releases(&self, h: usize) -> (r: usize)
        requires
            self.valid_handle(h),
        ensures
            r as int == self.release_count(h),
    {
        self.slots[h - 1].release_count
    }

    /// Whether the engine still owns the object behind `h`.
    pub fn live(&self, h: usize) -> (r: bool)
        requires
            self.valid_handle(h),
        ensures
            r == self.is_live(h),
    {
        self.slots[h - 1].release_count == 0
    }

    /// The number of outstanding host references to `h`.
    pub fn ref_count(&self, h: usize) -> (r: usize)
        requires
            self.valid_handle(h),
        ensures
            r as int == self.refs(h),
    {
        self.slots[h - 1].refs
    }

    /// Issues a fresh handle for a new slot; shared tail of every
    /// constructor.
    fn push_slot(&mut self, slot: Slot) -> (h: usize)
        requires
            old(self).wf(),
            old(self).handle_count() < usize::MAX,
            slot.refs == 1,
            slot.release_count == 0,
            slot.data is Words ==> slot.elem != TensorElementType::String && spec_dims_ok(
                slot.shape@,
            ) && slot.data->Words_0@.len() == spec_shape_size(slot.shape@)
                && slot.data->Words_0@.len() <= usize::MAX,
            slot.data is Strings ==> slot.elem == TensorElementType::String && spec_dims_ok(
                slot.shape@,
            ) && slot.data->Strings_0@.len() == 0,
        ensures
            final(self).wf(),
            final(self).handle_count() == old(self).handle_count() + 1,
            h == final(self).handle_count(),
            h >= 1,
            !old(self).valid_handle(h),
            final(self).valid_handle(h),
            final(self).is_live(h),
            final(self).release_count(h) == 0,
            final(self).refs(h) == 1,
            final(self).elem_type_of(h) == slot.elem,
            final(self).shape_of(h) =~= slot.shape@,
            final(self).holds_words(h) == slot.data is Words,
            final(self).holds_strings(h) == slot.data is Strings,
            final(self).holds_external(h) == slot.data is External,
            (slot.data is Words ==> final(self).words_of(h) =~= slot.data->Words_0@),
            (slot.data is Strings ==> final(self).strings_of(h).len() == 0),
            Engine::others_unchanged(*old(self), *final(self), h),
    {
        let ghost pre = *self;
        self.slots.push(slot);
        let h = self.slots.len();
        proof {
            assert forall|h2: usize| h2 != h implies #[trigger] Engine::handle_unchanged(
                pre,
                *self,
                h2,
            ) by {
                if pre.valid_handle(h2) {
                    assert(self.slot_of(h2) == pre.slot_of(h2));
                }
            }
            assert forall|h2: usize| self.valid_handle(h2) implies #[trigger] self.handle_ok(
                h2,
            ) by {
                if h2 == h {
                    assert(self.slot_of(h2) == slot);
                } else {
                    assert(pre.handle_ok(h2));
                    assert(Engine::handle_unchanged(pre, *self, h2));
                }
            }
        }
        h
    }

    /// The engine's "create tensor with externally supplied data" entry
    /// point, as the host model sees it: records the element type, the
    /// validated shape and the supplied storage words under a fresh handle.
    pub fn create_tensor_with_words(
        &mut self,
        elem: TensorElementType,
        shape: Vec<i64>,
        words: Vec<i64>,
    ) -> (h: usize)
        requires
            old(self).wf(),
            old(self).handle_count() < usize::MAX,
            elem != TensorElementType::String,
            spec_dims_ok(shape@),
            words@.len() == spec_shape_size(shape@),
        ensures
            final(self).wf(),
            final(self).handle_count() == old(self).handle_count() + 1,
            h == final(self).handle_count(),
            h >= 1,
            !old(self).valid_handle(h),
            final(self).valid_handle(h),
            final(self).is_live(h),
            final(self).refs(h) == 1,
            final(self).release_count(h) == 0,
            final(self).elem_type_of(h) == elem,
            final(self).shape_of(h) =~= shape@,
            final(self).holds_words(h),
            final(self).words_of(h) =~= words@,
            Engine::others_unchanged(*old(self), *final(self), h),
    {
        let n = words.len();
        proof {
            assert(n == words@.len());
        }
        self.push_slot(
            Slot { elem, shape, data: TensorData::Words(words), refs: 1, release_count: 0 },
        )
    }

    /// The engine's "create tensor" entry point for string tensors: the
    /// record starts empty and is filled by
    /// [`Engine::fill_string_tensor`].
    pub fn create_string_tensor(&mut self, shape: Vec<i64>) -> (h: usize)
        requires
            old(self).wf(),
            old(self).handle_count() < usize::MAX,
            spec_dims_ok(shape@),
        ensures
            final(self).wf(),
            final(self).handle_count() == old(self).handle_count() + 1,
            h == final(self).handle_count(),
            h >= 1,
            !old(self).valid_handle(h),
            final(self).valid_handle(h),
            final(self).is_live(h),
            final(self).refs(h) == 1,
            final(self).release_count(h) == 0,
            final(self).elem_type_of(h) == TensorElementType::String,
            final(self).shape_of(h) =~= shape@,
            final(self).holds_strings(h),
            final(self).strings_of(h).len() == 0,
            Engine::others_unchanged(*old(self), *final(self), h),
    {
        self.push_slot(
            Slot {
                elem: TensorElementType::String,
                shape,
                data: TensorData::Strings(Vec::new()),
                refs: 1,
                release_count: 0,
            },
        )
    }

    /// The engine's "create tensor with external data" entry point for
    /// caller-managed device memory: the host records only the element type
    /// and shape; the data stays opaque and unvalidated.
    pub fn create_external_tensor(&mut self, elem: TensorElementType, shape: Vec<i64>) -> (h:
        usize)
        requires
            old(self).wf(),
            old(self).handle_count() < usize::MAX,
        ensures
            final(self).wf(),
            final(self).handle_count() == old(self).handle_count() + 1,
            h == final(self).handle_count(),
            h >= 1,
            !old(self).valid_handle(h),
            final(self).valid_handle(h),
            final(self).is_live(h),
            final(self).refs(h) == 1,
            final(self).release_count(h) == 0,
            final(self).elem_type_of(h) == elem,
            final(self).shape_of(h) =~= shape@,
            final(self).holds_external(h),
            Engine::others_unchanged(*old(self), *final(self), h),
    {
        self.push_slot(Slot { elem, shape, data: TensorData::External, refs: 1, release_count: 0 })
    }

    /// The engine's "fill string tensor" entry point: replaces the record's
    /// strings with copies of the supplied ones.
    pub fn fill_string_tensor(&mut self, h: usize, strings: Vec<String>) -> (r: ())
        requires
            old(self).wf(),
            old(self).valid_handle(h),
            old(self).is_live(h),
            old(self).holds_strings(h),
            strings@.len() == spec_shape_size(old(self).shape_of(h)),
        ensures
            final(self).wf(),
            final(self).handle_count() == old(self).handle_count(),
            final(self).valid_handle(h),
            final(self).is_live(h),
            final(self).refs(h) == old(self).refs(h),
            final(self).release_count(h) == 0,
            final(self).elem_type_of(h) == TensorElementType::String,
            final(self).shape_of(h) =~= old(self).shape_of(h),
            final(self).holds_strings(h),
            final(self).strings_of(h) =~= strings@.map_values(|s: String| s@),
            Engine::others_unchanged(*old(self), *final(self), h),
    {
        let ghost pre = *self;
        let idx = h - 1;
        self.slots[idx].data = TensorData::Strings(strings);
        proof {
            assert(self.slots@ =~= pre.slots@.update(
                idx as int,
                self.slots@[idx as int],
            ));
            assert forall|h2: usize| h2 != h implies #[trigger] Engine::handle_unchanged(
                pre,
                *self,
                h2,
            ) by {
                if pre.valid_handle(h2) {
                    assert(self.slot_of(h2) == pre.slot_of(h2));
                }
            }
            assert(pre.handle_ok(h));
            assert forall|h2: usize| self.valid_handle(h2) implies #[trigger] self.handle_ok(
                h2,
            ) by {
                if h2 != h {
                    assert(pre.handle_ok(h2));
                    assert(Engine::handle_unchanged(pre, *self, h2));
                }
            }
        }
    }

    /// A new host reference to `h` is handed out (the model of cloning a
    /// shared value).
    pub fn add_ref(&mut self, h: usize) -> (r: ())
        requires
            old(self).wf(),
            old(self).valid_handle(h),
            old(self).is_live(h),
            old(self).refs(h) < usize::MAX,
        ensures
            final(self).wf(),
            final(self).handle_count() == old(self).handle_count(),
            final(self).refs(h) == old(self).refs(h) + 1,
            final(self).release_count(h) == 0,
            final(self).is_live(h),
            final(self).valid_handle(h),
            final(self).elem_type_of(h) == old(self).elem_type_of(h),
            final(self).shape_of(h) =~= old(self).shape_of(h),
            final(self).holds_words(h) == old(self).holds_words(h),
            final(self).holds_strings(h) == old(self).holds_strings(h),
            final(self).holds_external(h) == old(self).holds_external(h),
            final(self).words_of(h) =~= old(self).words_of(h),
            final(self).strings_of(h) =~= old(self).strings_of(h),
            Engine::others_unchanged(*old(self), *final(self), h),
    {
        let ghost pre = *self;
        let idx = h - 1;
        let r = self.slots[idx].refs;
        self.slots[idx].refs = r + 1;
        proof {
            assert forall|h2: usize| h2 != h implies #[trigger] Engine::handle_unchanged(
                pre,
                *self,
                h2,
            ) by {
                if pre.valid_handle(h2) {
                    assert(self.slot_of(h2) == pre.slot_of(h2));
                }
            }
            assert(pre.handle_ok(h));
            assert forall|h2: usize| self.valid_handle(h2) implies #[trigger] self.handle_ok(
                h2,
            ) by {
                if h2 != h {
                    assert(pre.handle_ok(h2));
                    assert(Engine::handle_unchanged(pre, *self, h2));
                }
            }
        }
    }

    /// One host reference to `h` is dropped; returns how many remain.
    pub fn dec_ref(&mut self, h: usize) -> (remaining: usize)
        requires
            old(self).wf(),
            old(self).valid_handle(h),
            old(self).is_live(h),
            old(self).refs(h) >= 1,
        ensures
            final(self).wf(),
            final(self).handle_count() == old(self).handle_count(),
            remaining == old(self).refs(h) - 1,
            final(self).refs(h) == remaining,
            final(self).release_count(h) == 0,
            final(self).is_live(h),
            final(self).valid_handle(h),
            final(self).elem_type_of(h) == old(self).elem_type_of(h),
            final(self).shape_of(h) =~= old(self).shape_of(h),
            final(self).holds_words(h) == old(self).holds_words(h),
            final(self).holds_strings(h) == old(self).holds_strings(h),
            final(self).holds_external(h) == old(self).holds_external(h),
            final(self).words_of(h) =~= old(self).words_of(h),
            final(self).strings_of(h) =~= old(self).strings_of(h),
            Engine::others_unchanged(*old(self), *final(self), h),
    {
        let ghost pre = *self;
        let idx = h - 1;
        let r = self.slots[idx].refs;
        self.slots[idx].refs = r - 1;
        proof {
            assert forall|h2: usize| h2 != h implies #[trigger] Engine::handle_unchanged(
                pre,
                *self,
                h2,
            ) by {
                if pre.valid_handle(h2) {
                    assert(self.slot_of(h2) == pre.slot_of(h2));
                }
            }
            assert(pre.handle_ok(h));
            assert forall|h2: usize| self.valid_handle(h2) implies #[trigger] self.handle_ok(
                h2,
            ) by {
                if h2 != h {
                    assert(pre.handle_ok(h2));
                    assert(Engine::handle_unchanged(pre, *self, h2));
                }
            }
        }
        r - 1
    }

    /// The engine's release entry point: runs exactly once per owned
    /// handle, after the last host reference is gone.
    pub fn release_value(&mut self, h: usize) -> (r: ())
        requires
            old(self).wf(),
            old(self).valid_handle(h),
            old(self).is_live(h),
            old(self).refs(h) == 0,
        ensures
            final(self).wf(),
            final(self).handle_count() == old(self).handle_count(),
            final(self).valid_handle(h),
            final(self).release_count(h) == 1,
            !final(self).is_live(h),
            final(self).refs(h) == 0,
            Engine::others_unchanged(*old(self), *final(self), h),
    {
        let ghost pre = *self;
        let idx = h - 1;
        let c = self.slots[idx].release_count;
        self.slots[idx].release_count = c + 1;
        proof {
            assert forall|h2: usize| h2 != h implies #[trigger] Engine::handle_unchanged(
                pre,
                *self,
                h2,
            ) by {
                if pre.valid_handle(h2) {
                    assert(self.slot_of(h2) == pre.slot_of(h2));
                }
            }
            assert(pre.handle_ok(h));
            assert forall|h2: usize| self.valid_handle(h2) implies #[trigger] self.handle_ok(
                h2,
            ) by {
                if h2 != h {
                    assert(pre.handle_ok(h2));
                    assert(Engine::handle_unchanged(pre, *self, h2));
                }
            }
        }
    }

    /// Reads one storage word of a live words tensor.
    pub fn read_word(&self, h: usize, i: usize) -> (w: i64)
        requires
            self.wf(),
            self.valid_handle(h),
            self.is_live(h),
            self.holds_words(h),
            i < self.words_of(h).len(),
        ensures
            w == self.words_of(h)[i as int],
    {
        let idx = h - 1;
        match &self.slots[idx].data {
            TensorData::Words(v) => v[i],
            _ => {
                proof {
                    assert(false);
                }
                0
            },
        }
    }

    /// Overwrites one storage word of a live words tensor.
    pub fn write_word(&mut self, h: usize, i: usize, w: i64) -> (r: ())
        requires
            old(self).wf(),
            old(self).valid_handle(h),
            old(self).is_live(h),
            old(self).holds_words(h),
            i < old(self).words_of(h).len(),
        ensures
            final(self).wf(),
            final(self).handle_count() == old(self).handle_count(),
            final(self).valid_handle(h),
            final(self).is_live(h),
            final(self).refs(h) == old(self).refs(h),
            final(self).release_count(h) == 0,
            final(self).elem_type_of(h) == old(self).elem_type_of(h),
            final(self).shape_of(h) =~= old(self).shape_of(h),
            final(self).holds_words(h),
            final(self).words_of(h) =~= old(self).words_of(h).update(i as int, w),
            Engine::others_unchanged(*old(self), *final(self), h),
    {
        let ghost pre = *self;
        let idx = h - 1;
        match &mut self.slots[idx].data {
            TensorData::Words(v) => {
                v[i] = w;
            },
            _ => {
                proof {
                    assert(false);
                }
            },
        }
        proof {
            assert forall|h2: usize| h2 != h implies #[trigger] Engine::handle_unchanged(
                pre,
                *self,
                h2,
            ) by {
                if pre.valid_handle(h2) {
                    assert(self.slot_of(h2) == pre.slot_of(h2));
                }
            }
            assert(pre.handle_ok(h));
            assert forall|h2: usize| self.valid_handle(h2) implies #[trigger] self.handle_ok(
                h2,
            ) by {
                if h2 != h {
                    assert(pre.handle_ok(h2));
                    assert(Engine::handle_unchanged(pre, *self, h2));
                }
            }
        }
    }

    /// Copies the storage words of a live words tensor out of the engine.
    pub fn words_snapshot(&self, h: usize) -> (r: Vec<i64>)
        requires
            self.wf(),
            self.valid_handle(h),
            self.is_live(h),
            self.holds_words(h),
        ensures
            r@ =~= self.words_of(h),
    {
        let idx = h - 1;
        match &self.slots[idx].data {
            TensorData::Words(v) => {
                let mut out: Vec<i64> = Vec::new();
                let mut i: usize = 0;
                let n = v.len();
                while i < n
                    invariant
                        i <= n,
                        n == v@.len(),
                        out@ =~= v@.subrange(0, i as int),
                    decreases n - i,
                {
                    out.push(v[i]);
                    i = i + 1;
                }
                proof {
                    assert(out@ =~= v@);
                }
                out
            },
            _ => {
                proof {
                    assert(false);
                }
                Vec::new()
            },
        }
    }

    /// Copies the strings of a live string tensor out of the engine.
    pub fn strings_snapshot(&self, h: usize) -> (r: Vec<String>)
        requires
            self.wf(),
            self.valid_handle(h),
            self.is_live(h),
            self.holds_strings(h),
        ensures
            r@.map_values(|s: String| s@) =~= self.strings_of(h),
    {
        let idx = h - 1;
        match &self.slots[idx].data {
            TensorData::Strings(v) => {
                let mut out: Vec<String> = Vec::new();
                let mut i: usize = 0;
                let n = v.len();
                while i < n
                    invariant
                        i <= n,
                        n == v@.len(),
                        out@.len() == i,
                        forall|k: int| 0 <= k < i ==> #[trigger] out@[k]@ =~= v@[k]@,
                    decreases n - i,
                {
                    out.push(v[i].clone());
                    i = i + 1;
                }
                proof {
                    assert(out@.map_values(|s: String| s@) =~= v@.map_values(|s: String| s@));
                }
                out
            },
            _ => {
                proof {
                    assert(false);
                }
                Vec::new()
            },
        }
    }
}

} // verus!
