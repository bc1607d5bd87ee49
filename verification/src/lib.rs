//! Lifecycle of a block-device registration, kept apart from the kernel
//! entry points that carry it out.
//!
//! Nothing in this crate touches the kernel. Every operation that needs one
//! of its entry points hands the request out as a [`kernel::KernelCall`] and
//! takes the answer back as a plain value, so that the order of requests, the
//! handling of every answer and the reverse order of teardown are decided
//! here, and only carried out elsewhere.

pub mod device;
pub mod error;
pub mod kernel;
pub mod lifecycle;
pub mod model;
pub mod registration;
