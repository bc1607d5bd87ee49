//! The handle that owns one kernel-resident disk object.

use vstd::prelude::*;
use crate::error::Error;
use crate::kernel::{
    disk_name, disk_name_spec, trace, KernelCall, KernelCallView, DISK_NAME_SIZE, NUMA_NO_NODE,
};

verus! {

/// A device handle, as a mathematical value.
pub ghost struct BlkdevView {
    /// Address of the disk object.
    pub disk: int,
    /// Device-class identifier that the disk was created under.
    pub major: int,
    /// First minor of the disk's range.
    pub first_minor: int,
    /// Width of the disk's range of minors.
    pub minors: int,
    /// Display name, terminator included.
    pub disk_name: Seq<u8>,
    /// Capacity in blocks.
    pub capacity: int,
    /// Result code of the activation, once the kernel has answered.
    pub activation: Option<int>,
}

impl BlkdevView {
    /// The handle that a fresh disk object at `disk` gets under the
    /// identifier `major`: one minor starting at zero, the fixed display name,
    /// no capacity yet, not activated.
    pub open spec fn configured(disk: int, major: int) -> BlkdevView {
        BlkdevView {
            disk,
            major,
            first_minor: 0,
            minors: 1,
            disk_name: disk_name_spec(),
            capacity: 0,
            activation: None,
        }
    }

    /// A handle never stands for a null disk object, and its display name is
    /// the fixed one.
    pub open spec fn wf(self) -> bool {
        &&& self.disk != 0
        &&& self.disk_name == disk_name_spec()
    }

    /// The requests that write this handle's configuration into its disk
    /// object: the capacity first, then the identity.
    pub open spec fn setup(self) -> Seq<KernelCallView> {
        seq![
            KernelCallView::SetCapacity { disk: self.disk, blocks: self.capacity },
            KernelCallView::Configure {
                disk: self.disk,
                major: self.major,
                first_minor: self.first_minor,
                minors: self.minors,
                disk_name: self.disk_name,
            },
        ]
    }

    /// The request that makes the disk visible.
    pub open spec fn activate_call(self) -> KernelCallView {
        KernelCallView::ActivateDisk { disk: self.disk }
    }

    /// The request that removes and deletes the disk.
    pub open spec fn release_call(self) -> KernelCallView {
        KernelCallView::ReleaseDisk { disk: self.disk }
    }

    /// The handle after the kernel answered the activation with `code`.
    pub open spec fn added(self, code: int) -> BlkdevView {
        BlkdevView { activation: Some(code), ..self }
    }
}

/// Owner of exactly one disk object of the kernel.
///
/// A value of this type exists only for a disk object that the allocator
/// really handed out: the address it holds is never null. Whoever holds the
/// value owes the kernel the request of [`Blkdev::release`], once.
#[derive(Debug, PartialEq, Eq)]
pub struct Blkdev {
    disk: usize,
    major: i32,
    first_minor: i32,
    minors: i32,
    disk_name: [u8; DISK_NAME_SIZE],
    capacity: u64,
    activation: Option<i32>,
}

impl View for Blkdev {
    type V = BlkdevView;

    closed spec fn view(&self) -> BlkdevView {
        BlkdevView {
            disk: self.disk as int,
            major: self.major as int,
            first_minor: self.first_minor as int,
            minors: self.minors as int,
            disk_name: self.disk_name@,
            capacity: self.capacity as int,
            activation: match self.activation {
                Some(code) => Some(code as int),
                None => None,
            },
        }
    }
}

impl Blkdev {
    /// What holds of every value of this type, wherever it came from.
    #[verifier::type_invariant]
    pub open spec fn inv(self) -> bool {
        self@.wf()
    }

    /// The request for a new disk object, on whatever memory node the
    /// allocator prefers.
    pub fn allocate_request() -> (call: KernelCall)
        ensures
            call@ == (KernelCallView::AllocateDisk { numa_hint: NUMA_NO_NODE as int }),
    {
        KernelCall::AllocateDisk { numa_hint: NUMA_NO_NODE }
    }

    /// Takes the allocator's answer to [`Blkdev::allocate_request`].
    ///
    /// A null answer is the only failure. Otherwise the result is the handle
    /// for the new disk object under the identifier `major`, together with the
    /// requests that configure the object; they are to be performed, in order,
    /// before the disk is made visible.
    pub fn allocate(major: i32, disk: usize) -> (r: Result<(Blkdev, Vec<KernelCall>), Error>)
        ensures
            (match r {
                Ok((dev, calls)) => {
                    &&& disk != 0
                    &&& dev@ == BlkdevView::configured(disk as int, major as int)
                    &&& trace(calls@) == dev@.setup()
                },
                Err(e) => disk == 0 && e == Error::ResourceExhausted,
            }),
    {
        if disk == 0 {
            return Err(Error::ResourceExhausted);
        }
        let dev = Blkdev {
            disk,
            major,
            first_minor: 0,
            minors: 1,
            disk_name: disk_name(),
            capacity: 0,
            activation: None,
        };
        let mut calls: Vec<KernelCall> = Vec::new();
        calls.push(KernelCall::SetCapacity { disk: dev.disk, blocks: dev.capacity });
        calls.push(
            KernelCall::Configure {
                disk: dev.disk,
                major: dev.major,
                first_minor: dev.first_minor,
                minors: dev.minors,
                disk_name: dev.disk_name,
            },
        );
        assert(trace(calls@) =~= dev@.setup());
        Ok((dev, calls))
    }

    /// The request that makes this disk visible to the rest of the kernel.
    pub fn add_request(&self) -> (call: KernelCall)
        ensures
            call@ == self@.activate_call(),
    {
        KernelCall::ActivateDisk { disk: self.disk }
    }

    /// Takes the kernel's answer to [`Blkdev::add_request`].
    ///
    /// The code is recorded and handed back as it came; no value of it counts
    /// as a failure.
    pub fn add(&mut self, code: i32) -> (r: Result<i32, Error>)
        ensures
            r == Ok::<i32, Error>(code),
            final(self)@ == old(self)@.added(code as int),
    {
        proof {
            use_type_invariant(&*self);
        }
        self.activation = Some(code);
        Ok(code)
    }

    /// Address of the disk object; never null.
    pub fn disk(&self) -> (disk: usize)
        ensures
            disk == self@.disk,
            disk != 0,
    {
        proof {
            use_type_invariant(self);
        }
        self.disk
    }

    /// Device-class identifier that the disk was created under.
    pub fn major(&self) -> (major: i32)
        ensures
            major == self@.major,
    {
        self.major
    }

    /// First minor of the disk's range.
    pub fn first_minor(&self) -> (first_minor: i32)
        ensures
            first_minor == self@.first_minor,
    {
        self.first_minor
    }

    /// Width of the disk's range of minors.
    pub fn minors(&self) -> (minors: i32)
        ensures
            minors == self@.minors,
    {
        self.minors
    }

    /// Display name of the disk, terminator included. It is the same for
    /// every handle.
    pub fn disk_name(&self) -> (name: [u8; DISK_NAME_SIZE])
        ensures
            name@ == self@.disk_name,
            name@ == disk_name_spec(),
    {
        proof {
            use_type_invariant(self);
        }
        self.disk_name
    }

    /// Capacity of the disk, in blocks.
    pub fn capacity(&self) -> (blocks: u64)
        ensures
            blocks == self@.capacity,
    {
        self.capacity
    }

    /// Result code of the activation, once the kernel has answered it.
    pub fn activation(&self) -> (code: Option<i32>)
        ensures
            (match code {
                Some(c) => self@.activation == Some(c as int),
                None => self@.activation is None,
            }),
    {
        self.activation
    }

    /// Gives the handle up. The result is the request that removes and deletes
    /// the disk object; it is owed whether or not the disk was ever activated.
    pub fn release(self) -> (call: KernelCall)
        ensures
            call@ == self@.release_call(),
    {
        KernelCall::ReleaseDisk { disk: self.disk }
    }
}

} // verus!
