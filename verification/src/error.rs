//! Failures of the registration lifecycle.

use vstd::prelude::*;

verus! {

/// Why a lifecycle step was refused.
#[derive(Debug, Clone, Copy, PartialEq, Eq, Structural)]
pub enum Error {
    /// The registration name was empty.
    InvalidArgument,
    /// The kernel allocator handed back no disk object.
    ResourceExhausted,
    /// The registration already owns an active device.
    AlreadyActive,
    /// The kernel refused to reserve an identifier; the code is the kernel's own.
    KernelRejected(i32),
}

/// The kernel's number for an invalid argument.
pub const EINVAL: i32 = 22;

/// The kernel's number for exhausted memory.
pub const ENOMEM: i32 = 12;

impl Error {
    /// The code that stands for this failure where the kernel expects a
    /// negative number: the kernel's own code where it reported one, else the
    /// negated number of the matching condition.
    pub open spec fn errno(self) -> int {
        match self {
            Error::InvalidArgument => -EINVAL,
            Error::ResourceExhausted => -ENOMEM,
            Error::AlreadyActive => -EINVAL,
            Error::KernelRejected(code) => code as int,
        }
    }

    /// Wraps a code that the kernel reported, unchanged.
    pub fn from_kernel_errno(code: i32) -> (e: Error)
        ensures
            e == Error::KernelRejected(code),
            e.errno() == code,
    {
        Error::KernelRejected(code)
    }

    /// The code to report this failure to the kernel with.
    pub fn to_kernel_errno(&self) -> (code: i32)
        ensures
            code == self.errno(),
    {
        match *self {
            Error::InvalidArgument => -EINVAL,
            Error::ResourceExhausted => -ENOMEM,
            Error::AlreadyActive => -EINVAL,
            Error::KernelRejected(code) => code,
        }
    }
}

} // verus!
