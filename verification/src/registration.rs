//! The registration: a reserved identifier and, once activated, the device
//! that lives under it.
//!
//! A registration is made in two phases. The kernel first reserves an
//! identifier ([`Registration::reserve_request`], [`Registration::new`]).
//! Activation then allocates a disk object, configures it, makes it visible
//! and only then stores its handle ([`Registration::allocate_request`],
//! [`Registration::prepare_disk`], [`Registration::register`]). Teardown
//! ([`Registration::teardown`]) undoes both in reverse order.

use vstd::prelude::*;
use crate::device::{Blkdev, BlkdevView};
use crate::error::Error;
use crate::kernel::{trace, KernelCall, KernelCallView, ThisModule, ANY_DEVICE_CLASS, NUMA_NO_NODE};

verus! {

/// The active part of a registration, as a mathematical value.
pub ghost struct RegistrationInnerView {
    /// Identity of the device.
    pub dev: int,
    /// The device handle.
    pub blkdev: BlkdevView,
}

/// A registration, as a mathematical value.
pub ghost struct RegistrationView {
    /// Name that the identifier was reserved under.
    pub name: Seq<u8>,
    /// The reserved identifier.
    pub major: int,
    /// The owning module.
    pub this_module: ThisModule,
    /// The active device, if there is one.
    pub inner: Option<RegistrationInnerView>,
}

impl RegistrationView {
    /// What holds of every registration: it has a name, its identifier is one
    /// that the kernel can have assigned, and a device that it owns is a real
    /// one whose activation the kernel has answered.
    pub open spec fn wf(self) -> bool {
        &&& self.name.len() > 0
        &&& 0 <= self.major <= i32::MAX
        &&& self.inner matches Some(inner) ==> inner.dev == 0 && inner.blkdev.wf()
            && inner.blkdev.activation is Some
    }

    /// Whether the registration owns a device.
    pub open spec fn is_active(self) -> bool {
        self.inner is Some
    }

    /// The request that reserves an identifier under `name`; an empty name is
    /// refused before anything is asked of the kernel.
    pub open spec fn reserve_request(name: Seq<u8>) -> Result<KernelCallView, Error> {
        if name.len() == 0 {
            Err(Error::InvalidArgument)
        } else {
            Ok(KernelCallView::ReserveIdentifier { device_class: ANY_DEVICE_CLASS as int, name })
        }
    }

    /// The registration that the kernel's answer `reply` to the reservation
    /// gives: none for an empty name, none for a negative answer, else one
    /// that holds the answer as its identifier and owns no device.
    pub open spec fn reserved(name: Seq<u8>, this_module: ThisModule, reply: int) -> Result<
        RegistrationView,
        Error,
    > {
        if name.len() == 0 {
            Err(Error::InvalidArgument)
        } else if reply < 0 {
            Err(Error::KernelRejected(reply as i32))
        } else {
            Ok(RegistrationView { name, major: reply, this_module, inner: None })
        }
    }

    /// The first request of an activation; an active registration starts none.
    pub open spec fn allocate_request(self) -> Result<KernelCallView, Error> {
        if self.is_active() {
            Err(Error::AlreadyActive)
        } else {
            Ok(KernelCallView::AllocateDisk { numa_hint: NUMA_NO_NODE as int })
        }
    }

    /// What follows the allocator's answer `disk`: nothing for a null answer,
    /// else a handle under this registration's identifier and the requests
    /// that configure the disk and then make it visible.
    pub open spec fn prepare_disk(self, disk: int) -> Result<(BlkdevView, Seq<KernelCallView>), Error> {
        if disk == 0 {
            Err(Error::ResourceExhausted)
        } else {
            let dev = BlkdevView::configured(disk, self.major);
            Ok((dev, dev.setup().push(dev.activate_call())))
        }
    }

    /// The registration after it took the handle `blkdev`, whose activation
    /// the kernel answered with `code`.
    pub open spec fn activated(self, blkdev: BlkdevView, code: int) -> RegistrationView {
        RegistrationView {
            inner: Some(RegistrationInnerView { dev: 0, blkdev: blkdev.added(code) }),
            ..self
        }
    }

    /// The last step of an activation. An inactive registration takes the
    /// handle and reports the kernel's code. An active one stays as it is and
    /// hands back the request that releases the handle it did not take.
    pub open spec fn register(self, blkdev: BlkdevView, code: int) -> (
        RegistrationView,
        Result<int, (Error, KernelCallView)>,
    ) {
        if self.is_active() {
            (self, Err((Error::AlreadyActive, blkdev.release_call())))
        } else {
            (self.activated(blkdev, code), Ok(code))
        }
    }

    /// The request that gives the identifier back.
    pub open spec fn unregister_call(self) -> KernelCallView {
        KernelCallView::UnregisterIdentifier { identifier: self.major, name: self.name }
    }

    /// The requests of a teardown: the device goes first, if there is one,
    /// and the identifier last.
    pub open spec fn teardown(self) -> Seq<KernelCallView> {
        match self.inner {
            Some(inner) => seq![inner.blkdev.release_call(), self.unregister_call()],
            None => seq![self.unregister_call()],
        }
    }
}

/// What a registration holds while it is active: the identity of its device
/// and the handle that owns the disk object.
#[derive(Debug, PartialEq, Eq)]
pub struct RegistrationInner {
    dev: u32,
    blkdev: Blkdev,
}

impl View for RegistrationInner {
    type V = RegistrationInnerView;

    closed spec fn view(&self) -> RegistrationInnerView {
        RegistrationInnerView { dev: self.dev as int, blkdev: self.blkdev@ }
    }
}

impl RegistrationInner {
    /// Identity of the device; a placeholder, always zero.
    pub fn dev(&self) -> (dev: u32)
        ensures
            dev == self@.dev,
    {
        self.dev
    }

    /// The handle that owns the disk object.
    pub fn blkdev(&self) -> (blkdev: &Blkdev)
        ensures
            blkdev@ == self@.blkdev,
    {
        &self.blkdev
    }
}

/// A reserved device-class identifier and, once activated, its device.
///
/// Whoever holds a registration owes the kernel the requests of
/// [`Registration::teardown`]. Once a registration is active the kernel
/// refers to what it holds, so it must stay where it is: keep it in the box
/// that [`Registration::new_pinned`] returns.
#[derive(Debug, PartialEq, Eq)]
pub struct Registration {
    name: &'static [u8],
    major: u32,
    this_module: ThisModule,
    inner: Option<RegistrationInner>,
}

impl View for Registration {
    type V = RegistrationView;

    closed spec fn view(&self) -> RegistrationView {
        RegistrationView {
            name: self.name@,
            major: self.major as int,
            this_module: self.this_module,
            inner: match self.inner {
                Some(inner) => Some(inner@),
                None => None,
            },
        }
    }
}

impl Registration {
    /// What holds of every value of this type, wherever it came from.
    #[verifier::type_invariant]
    pub open spec fn inv(self) -> bool {
        self@.wf()
    }

    /// The request that reserves an identifier under `name`.
    ///
    /// An empty name is refused here, before the kernel is asked for
    /// anything; every other name gives the request for any free identifier.
    pub fn reserve_request(name: &'static [u8]) -> (r: Result<KernelCall, Error>)
        ensures
            r is Ok <==> name@.len() > 0,
            (match (r, RegistrationView::reserve_request(name@)) {
                (Ok(call), Ok(expected)) => call@ == expected,
                (Err(e), Err(expected)) => e == expected,
                _ => false,
            }),
    {
        if name.len() == 0 {
            return Err(Error::InvalidArgument);
        }
        Ok(KernelCall::ReserveIdentifier { device_class: ANY_DEVICE_CLASS, name })
    }

    /// Takes the kernel's answer `reply` to [`Registration::reserve_request`].
    ///
    /// An empty name is refused whatever the answer. A negative answer is the
    /// kernel's error and is reported with its code. Any other answer is the
    /// assigned identifier, and the result is a registration that holds it and
    /// owns no device yet.
    pub fn new(name: &'static [u8], this_module: ThisModule, reply: i32) -> (r: Result<
        Registration,
        Error,
    >)
        ensures
            r is Ok <==> name@.len() > 0 && reply >= 0,
            (match (r, RegistrationView::reserved(name@, this_module, reply as int)) {
                (Ok(reg), Ok(expected)) => reg@ == expected,
                (Err(e), Err(expected)) => e == expected,
                _ => false,
            }),
    {
        if name.len() == 0 {
            return Err(Error::InvalidArgument);
        }
        if reply < 0 {
            return Err(Error::from_kernel_errno(reply));
        }
        Ok(Registration { name, major: reply as u32, this_module, inner: None })
    }

    /// As [`Registration::new`], with the registration in a heap slot of its
    /// own, where it can stay for the rest of its life.
    pub fn new_pinned(name: &'static [u8], this_module: ThisModule, reply: i32) -> (r: Result<
        Box<Registration>,
        Error,
    >)
        ensures
            r is Ok <==> name@.len() > 0 && reply >= 0,
            (match (r, RegistrationView::reserved(name@, this_module, reply as int)) {
                (Ok(reg), Ok(expected)) => reg@ == expected,
                (Err(e), Err(expected)) => e == expected,
                _ => false,
            }),
    {
        match Registration::new(name, this_module, reply) {
            Ok(reg) => Ok(Box::new(reg)),
            Err(e) => Err(e),
        }
    }

    /// Starts an activation: the request for a new disk object.
    ///
    /// An active registration starts none; it is refused before the kernel is
    /// asked for anything.
    pub fn allocate_request(&self) -> (r: Result<KernelCall, Error>)
        ensures
            r is Ok <==> !self@.is_active(),
            (match (r, self@.allocate_request()) {
                (Ok(call), Ok(expected)) => call@ == expected,
                (Err(e), Err(expected)) => e == expected,
                _ => false,
            }),
    {
        if self.inner.is_some() {
            return Err(Error::AlreadyActive);
        }
        Ok(Blkdev::allocate_request())
    }

    /// Takes the allocator's answer `disk` to
    /// [`Registration::allocate_request`].
    ///
    /// A null answer ends the activation; the registration is as it was and
    /// may try again. Otherwise the result is the handle of the new disk
    /// object, under this registration's identifier, and the requests to
    /// perform next, in order: those that configure the disk, then the one
    /// that makes it visible. The answer to that last request goes to
    /// [`Registration::register`], with the handle.
    pub fn prepare_disk(&self, disk: usize) -> (r: Result<(Blkdev, Vec<KernelCall>), Error>)
        ensures
            r is Ok <==> disk != 0,
            (match (r, self@.prepare_disk(disk as int)) {
                (Ok((dev, calls)), Ok((expected_dev, expected_calls))) => dev@ == expected_dev
                    && trace(calls@) == expected_calls,
                (Err(e), Err(expected)) => e == expected,
                _ => false,
            }),
    {
        proof {
            use_type_invariant(self);
        }
        let major: i32 = self.major as i32;
        match Blkdev::allocate(major, disk) {
            Ok((dev, mut calls)) => {
                calls.push(dev.add_request());
                assert(trace(calls@) =~= dev@.setup().push(dev@.activate_call()));
                Ok((dev, calls))
            },
            Err(e) => Err(e),
        }
    }

    /// Ends an activation: takes the handle and the kernel's answer `code` to
    /// the request that made the disk visible.
    ///
    /// An inactive registration records the code in the handle, stores the
    /// handle and becomes active; the code is handed back as it came. An
    /// active registration is left exactly as it is: the handle is given up,
    /// and the error comes with the request that releases it.
    pub fn register(&mut self, _this_module: ThisModule, blkdev: Blkdev, code: i32) -> (r: Result<
        i32,
        (Error, KernelCall),
    >)
        ensures
            r is Ok <==> !old(self)@.is_active(),
            final(self)@ == old(self)@.register(blkdev@, code as int).0,
            (match (r, old(self)@.register(blkdev@, code as int).1) {
                (Ok(c), Ok(expected)) => c == expected,
                (Err((e, call)), Err((expected, expected_call))) => e == expected && call@
                    == expected_call,
                _ => false,
            }),
    {
        proof {
            use_type_invariant(&*self);
            use_type_invariant(&blkdev);
        }
        if self.inner.is_some() {
            return Err((Error::AlreadyActive, blkdev.release()));
        }
        let mut blkdev = blkdev;
        match blkdev.add(code) {
            Ok(code) => {
                self.inner = Some(RegistrationInner { dev: 0, blkdev });
                Ok(code)
            },
            Err(e) => Err((e, blkdev.release())),
        }
    }

    /// Name that the identifier was reserved under; never empty.
    pub fn name(&self) -> (name: &'static [u8])
        ensures
            name@ == self@.name,
            name@.len() > 0,
    {
        proof {
            use_type_invariant(self);
        }
        self.name
    }

    /// The reserved identifier.
    pub fn major(&self) -> (major: u32)
        ensures
            major == self@.major,
            major <= i32::MAX,
    {
        proof {
            use_type_invariant(self);
        }
        self.major
    }

    /// The owning module.
    pub fn this_module(&self) -> (this_module: ThisModule)
        ensures
            this_module == self@.this_module,
    {
        self.this_module
    }

    /// Whether the registration owns a device.
    pub fn is_active(&self) -> (active: bool)
        ensures
            active == self@.is_active(),
    {
        self.inner.is_some()
    }

    /// The active part of the registration, if it is active.
    pub fn inner(&self) -> (inner: Option<&RegistrationInner>)
        ensures
            (match inner {
                Some(active) => self@.inner == Some(active@),
                None => self@.inner is None,
            }),
    {
        self.inner.as_ref()
    }

    /// Gives the registration up. The result is what is owed to the kernel,
    /// in order: the release of the device, if the registration is active,
    /// and after it the return of the identifier under the name it was
    /// reserved with.
    pub fn teardown(self) -> (calls: Vec<KernelCall>)
        ensures
            trace(calls@) == self@.teardown(),
    {
        let Registration { name, major, this_module: _, inner } = self;
        let mut calls: Vec<KernelCall> = Vec::new();
        match inner {
            Some(active) => {
                calls.push(active.blkdev.release());
            },
            None => {},
        }
        calls.push(KernelCall::UnregisterIdentifier { identifier: major, name });
        assert(trace(calls@) =~= self@.teardown());
        calls
    }
}

} // verus!
