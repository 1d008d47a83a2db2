//! Safety and ergonomics layer over a native, C-ABI numeric-inference engine.
//!
//! The crate models the engine-facing core of such a binding: an
//! ownership-tracked value/tensor model, the data-source policy that decides
//! when tensor construction copies and when it references caller memory, the
//! status/error bridge, and the version handshake performed when the engine's
//! entry-point table is resolved.  Everything that must touch raw pointers or
//! the platform loader lives outside this crate; the logic here works on plain
//! values and is verified.

pub mod create;
pub mod engine;
pub mod error;
pub mod memory;
pub mod tensor;
pub mod text;
pub mod value;
pub mod version;
pub mod webgpu;

use vstd::prelude::*;

verus! {

/// The engine minor version this binding is compiled against; the handshake
/// in [`version`] compares the loaded engine's reported minor version with it.
pub const MINOR_VERSION: u32 = 17;

/// Access to the raw engine handle a safe wrapper type carries.
///
/// In the foreign interface a handle is an opaque pointer; here it is the
/// plain handle value, and the guarantee stays the same: the handle a
/// wrapper exposes is never null.
pub trait AsPointer: Sized {
    /// The handle this wrapper carries.
    spec fn spec_ptr(&self) -> usize;

    /// Returns the wrapped handle; guaranteed non-null.
    fn ptr(&self) -> (r: usize)
        ensures
            r == self.spec_ptr(),
            r != 0,
    ;

    /// Returns the wrapped handle for a call that mutates the underlying
    /// object; guaranteed non-null, and the wrapper itself is untouched.
    fn ptr_mut(&mut self) -> (r: usize)
        ensures
            r == old(self).spec_ptr(),
            *final(self) == *old(self),
            r != 0,
    ;
}

} // verus!
