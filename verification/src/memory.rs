//! Devices, allocators and the memory metadata attached to every tensor.
//!
//! A tensor's buffer lives on some device; only host-accessible memory may
//! be read or written directly by the host.  The [`MemoryInfo`] attached to
//! a value records where its buffer lives and gates direct indexing.

use vstd::prelude::*;

verus! {

/// The device an allocation lives on.
#[derive(Clone, Copy, Debug, PartialEq, Eq, Structural)]
pub enum AllocationDevice {
    /// Ordinary host memory.
    Cpu,
    /// Device-resident accelerator memory; not host-accessible.
    Cuda,
    /// Page-locked host memory staged for an accelerator; host-accessible.
    CudaPinned,
}

impl AllocationDevice {
    /// Whether memory on this device may be dereferenced by the host.
    pub fn is_cpu_accessible(&self) -> (r: bool)
        ensures
            r == (*self == AllocationDevice::Cpu || *self == AllocationDevice::CudaPinned),
    {
        match self {
            AllocationDevice::Cpu => true,
            AllocationDevice::CudaPinned => true,
            AllocationDevice::Cuda => false,
        }
    }
}

/// How an allocator manages its memory.
#[derive(Clone, Copy, Debug, PartialEq, Eq, Structural)]
pub enum AllocatorType {
    /// One allocation per request.
    Device,
    /// Arena-style allocation.
    Arena,
}

/// The role of an allocation in an engine call.
#[derive(Clone, Copy, Debug, PartialEq, Eq, Structural)]
pub enum MemoryType {
    /// Host-side input staging memory.
    CpuInput,
    /// Host-side output staging memory.
    CpuOutput,
    /// Whatever the device considers its default.
    Default,
}

/// Where a buffer lives: the device, its ordinal, and how it was allocated.
#[derive(Clone, Copy, Debug, PartialEq, Eq, Structural)]
pub struct MemoryInfo {
    /// The device the buffer lives on.
    pub allocation_device: AllocationDevice,
    /// The device ordinal (e.g. which accelerator).
    pub device_id: i32,
    /// How the owning allocator manages memory.
    pub allocator_type: AllocatorType,
    /// The role of the allocation.
    pub memory_type: MemoryType,
}

impl MemoryInfo {
    /// Describes a buffer on the given device.
    pub fn new(
        allocation_device: AllocationDevice,
        device_id: i32,
        allocator_type: AllocatorType,
        memory_type: MemoryType,
    ) -> (r: MemoryInfo)
        ensures
            r.allocation_device == allocation_device,
            r.device_id == device_id,
            r.allocator_type == allocator_type,
            r.memory_type == memory_type,
    {
        MemoryInfo { allocation_device, device_id, allocator_type, memory_type }
    }

    /// The device the described buffer lives on.
    pub fn allocation_device(&self) -> (r: AllocationDevice)
        ensures
            r == self.allocation_device,
    {
        self.allocation_device
    }

    /// Whether the described buffer may be dereferenced by the host;
    /// direct indexing into a tensor is permitted only when this holds.
    pub fn is_cpu_accessible(&self) -> (r: bool)
        ensures
            r == self.spec_cpu_accessible(),
    {
        self.allocation_device.is_cpu_accessible()
    }

    /// Whether the described buffer is host-accessible.
    pub open spec fn spec_cpu_accessible(&self) -> bool {
        self.allocation_device == AllocationDevice::Cpu || self.allocation_device
            == AllocationDevice::CudaPinned
    }
}

/// An engine allocator: the device and discipline fresh tensors are
/// allocated with.
#[derive(Clone, Copy, Debug, PartialEq, Eq, Structural)]
pub struct Allocator {
    /// The memory the allocator hands out.
    pub memory_info: MemoryInfo,
}

impl Allocator {
    /// An allocator handing out the described memory.
    pub fn new(memory_info: MemoryInfo) -> (r: Allocator)
        ensures
            r.memory_info == memory_info,
    {
        Allocator { memory_info }
    }

    /// The memory this allocator hands out.
    pub fn memory_info(&self) -> (r: MemoryInfo)
        ensures
            r == self.memory_info,
    {
        self.memory_info
    }
}

impl Default for Allocator {
    /// The engine's default allocator: arena-managed host memory.
    fn default() -> (r: Allocator)
        ensures
            r.memory_info.allocation_device == AllocationDevice::Cpu,
            r.memory_info.device_id == 0,
            r.memory_info.allocator_type == AllocatorType::Arena,
            r.memory_info.memory_type == MemoryType::Default,
    {
        Allocator {
            memory_info: MemoryInfo {
                allocation_device: AllocationDevice::Cpu,
                device_id: 0,
                allocator_type: AllocatorType::Arena,
                memory_type: MemoryType::Default,
            },
        }
    }
}

} // verus!
