//! The kernel's block-layer entry points, as values.
//!
//! A [`KernelCall`] names one entry point together with its arguments. The
//! lifecycle functions hand such values out; whoever holds the real entry
//! points performs them, in the order given, and hands the answers back.

use vstd::prelude::*;

verus! {

/// The hint that leaves the choice of memory node to the allocator.
pub const NUMA_NO_NODE: i32 = -1;

/// The device class that asks the kernel for any free identifier.
pub const ANY_DEVICE_CLASS: u32 = 0;

/// Size of the kernel's buffer for a disk's display name, terminator included.
pub const DISK_NAME_LEN: usize = 32;

/// Length of the display name that every disk gets, terminator included.
pub const DISK_NAME_SIZE: usize = 12;

/// The module on whose behalf a registration is made. The value stands for
/// the kernel's record of that module; this crate only carries it.
#[derive(Debug, Clone, Copy, PartialEq, Eq, Structural)]
pub struct ThisModule {
    /// Address of the kernel's record of the module.
    pub addr: usize,
}

/// One request to the kernel's block layer.
#[derive(Debug, Clone, Copy, PartialEq, Eq)]
pub enum KernelCall {
    /// Reserve a device-class identifier under `name`, with no probe callback.
    /// The answer is the identifier, or a negative error code.
    ReserveIdentifier { device_class: u32, name: &'static [u8] },
    /// Give back the identifier that was reserved under `name`.
    UnregisterIdentifier { identifier: u32, name: &'static [u8] },
    /// Allocate a disk object without a partition table. The answer is its
    /// address, or zero.
    AllocateDisk { numa_hint: i32 },
    /// Set the capacity of a disk object, in blocks.
    SetCapacity { disk: usize, blocks: u64 },
    /// Store the identity of a disk object: its device class, its range of
    /// minors and its display name.
    Configure { disk: usize, major: i32, first_minor: i32, minors: i32, disk_name: [u8; DISK_NAME_SIZE] },
    /// Make a disk object visible to the rest of the kernel, with no parent
    /// device and no attribute groups. The answer is the kernel's result code.
    ActivateDisk { disk: usize },
    /// Remove a disk object from the kernel and delete it.
    ReleaseDisk { disk: usize },
}

/// A request to the kernel, as a mathematical value.
pub ghost enum KernelCallView {
    ReserveIdentifier { device_class: int, name: Seq<u8> },
    UnregisterIdentifier { identifier: int, name: Seq<u8> },
    AllocateDisk { numa_hint: int },
    SetCapacity { disk: int, blocks: int },
    Configure { disk: int, major: int, first_minor: int, minors: int, disk_name: Seq<u8> },
    ActivateDisk { disk: int },
    ReleaseDisk { disk: int },
}

impl View for KernelCall {
    type V = KernelCallView;

    open spec fn view(&self) -> KernelCallView {
        match *self {
            KernelCall::ReserveIdentifier { device_class, name } => KernelCallView::ReserveIdentifier {
                device_class: device_class as int,
                name: name@,
            },
            KernelCall::UnregisterIdentifier { identifier, name } => KernelCallView::UnregisterIdentifier {
                identifier: identifier as int,
                name: name@,
            },
            KernelCall::AllocateDisk { numa_hint } => KernelCallView::AllocateDisk {
                numa_hint: numa_hint as int,
            },
            KernelCall::SetCapacity { disk, blocks } => KernelCallView::SetCapacity {
                disk: disk as int,
                blocks: blocks as int,
            },
            KernelCall::Configure { disk, major, first_minor, minors, disk_name } => KernelCallView::Configure {
                disk: disk as int,
                major: major as int,
                first_minor: first_minor as int,
                minors: minors as int,
                disk_name: disk_name@,
            },
            KernelCall::ActivateDisk { disk } => KernelCallView::ActivateDisk { disk: disk as int },
            KernelCall::ReleaseDisk { disk } => KernelCallView::ReleaseDisk { disk: disk as int },
        }
    }
}

/// The requests of a list, in order, as mathematical values.
pub open spec fn trace(calls: Seq<KernelCall>) -> Seq<KernelCallView> {
    calls.map_values(|c: KernelCall| c@)
}

/// The display name that every disk gets: `rust_blkdev` and its terminator.
pub open spec fn disk_name_spec() -> Seq<u8> {
    seq![
        'r' as u8,
        'u' as u8,
        's' as u8,
        't' as u8,
        '_' as u8,
        'b' as u8,
        'l' as u8,
        'k' as u8,
        'd' as u8,
        'e' as u8,
        'v' as u8,
        0u8,
    ]
}

/// The display name that every disk gets, whatever the registration is
/// called: eleven visible characters and the terminator.
pub fn disk_name() -> (name: [u8; DISK_NAME_SIZE])
    ensures
        name@ == disk_name_spec(),
        name@.len() == DISK_NAME_SIZE,
        name@.len() <= DISK_NAME_LEN,
        name@[11] == 0,
        forall|i: int| 0 <= i < 11 ==> name@[i] != 0,
{
    let name: [u8; DISK_NAME_SIZE] = [
        'r' as u8,
        'u' as u8,
        's' as u8,
        't' as u8,
        '_' as u8,
        'b' as u8,
        'l' as u8,
        'k' as u8,
        'd' as u8,
        'e' as u8,
        'v' as u8,
        0,
    ];
    assert(name@ =~= disk_name_spec());
    name
}

} // verus!
