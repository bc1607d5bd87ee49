//! Each step of the lifecycle on given answers.

use blkdev::device::Blkdev;
use blkdev::error::{Error, EINVAL, ENOMEM};
use blkdev::kernel::{
    disk_name, KernelCall, ThisModule, ANY_DEVICE_CLASS, DISK_NAME_LEN, DISK_NAME_SIZE, NUMA_NO_NODE,
};
use blkdev::registration::Registration;

const MODULE: ThisModule = ThisModule { addr: 0xffff_0000 };

fn reserved(name: &'static [u8], identifier: i32) -> Registration {
    Registration::new(name, MODULE, identifier).expect("a non-negative answer is an identifier")
}

#[test]
fn constants_are_the_kernels() {
    assert_eq!(NUMA_NO_NODE, -1);
    assert_eq!(ANY_DEVICE_CLASS, 0);
    assert_eq!(DISK_NAME_LEN, 32);
    assert_eq!(DISK_NAME_SIZE, 12);
    assert_eq!(EINVAL, 22);
    assert_eq!(ENOMEM, 12);
}

#[test]
fn disk_name_is_rust_blkdev_with_terminator() {
    let name: [u8; 12] = disk_name();
    assert_eq!(&name, b"rust_blkdev\0");
    assert_eq!(name.len(), DISK_NAME_SIZE);
    assert!(name.len() <= DISK_NAME_LEN);
    assert_eq!(name.iter().position(|b| *b == 0), Some(11));
}

#[test]
fn reserve_request_asks_for_any_identifier() {
    assert_eq!(
        Registration::reserve_request(b"testdev0"),
        Ok(KernelCall::ReserveIdentifier { device_class: 0, name: b"testdev0" })
    );
    assert_eq!(
        Registration::reserve_request(b"x"),
        Ok(KernelCall::ReserveIdentifier { device_class: 0, name: b"x" })
    );
}

#[test]
fn reserve_request_refuses_empty_name() {
    assert_eq!(Registration::reserve_request(b""), Err(Error::InvalidArgument));
}

#[test]
fn new_refuses_empty_name_whatever_the_answer() {
    assert_eq!(Registration::new(b"", MODULE, 7).unwrap_err(), Error::InvalidArgument);
    assert_eq!(Registration::new(b"", MODULE, 0).unwrap_err(), Error::InvalidArgument);
    assert_eq!(Registration::new(b"", MODULE, -16).unwrap_err(), Error::InvalidArgument);
    assert_eq!(Registration::new_pinned(b"", MODULE, 7).unwrap_err(), Error::InvalidArgument);
}

#[test]
fn new_keeps_the_kernels_error_code() {
    assert_eq!(Registration::new(b"testdev0", MODULE, -16).unwrap_err(), Error::KernelRejected(-16));
    assert_eq!(Registration::new(b"testdev0", MODULE, -1).unwrap_err(), Error::KernelRejected(-1));
    assert_eq!(
        Registration::new(b"testdev0", MODULE, i32::MIN).unwrap_err(),
        Error::KernelRejected(i32::MIN)
    );
    assert_eq!(
        Registration::new_pinned(b"testdev0", MODULE, -12).unwrap_err(),
        Error::KernelRejected(-12)
    );
}

#[test]
fn new_holds_the_assigned_identifier() {
    let reg = reserved(b"testdev0", 7);
    assert_eq!(reg.name(), b"testdev0");
    assert_eq!(reg.major(), 7);
    assert_eq!(reg.this_module(), MODULE);
    assert!(!reg.is_active());
    assert!(reg.inner().is_none());
}

#[test]
fn new_accepts_the_smallest_and_the_largest_identifier() {
    assert_eq!(reserved(b"a", 0).major(), 0);
    assert_eq!(reserved(b"a", i32::MAX).major(), 2147483647);
}

#[test]
fn new_pinned_gives_the_same_registration_in_a_box() {
    let boxed: Box<Registration> = Registration::new_pinned(b"testdev0", MODULE, 254).unwrap();
    assert_eq!(*boxed, reserved(b"testdev0", 254));
    assert_eq!(boxed.major(), 254);
    assert!(!boxed.is_active());
}

#[test]
fn allocate_request_leaves_the_node_to_the_allocator() {
    assert_eq!(Blkdev::allocate_request(), KernelCall::AllocateDisk { numa_hint: -1 });
    let reg = reserved(b"testdev0", 7);
    assert_eq!(reg.allocate_request(), Ok(KernelCall::AllocateDisk { numa_hint: -1 }));
}

#[test]
fn allocate_refuses_null() {
    assert_eq!(Blkdev::allocate(7, 0).unwrap_err(), Error::ResourceExhausted);
    assert_eq!(Blkdev::allocate(-3, 0).unwrap_err(), Error::ResourceExhausted);
}

#[test]
fn allocate_configures_the_disk() {
    let (dev, calls) = Blkdev::allocate(7, 0x1000).unwrap();
    assert_eq!(dev.disk(), 0x1000);
    assert_eq!(dev.major(), 7);
    assert_eq!(dev.first_minor(), 0);
    assert_eq!(dev.minors(), 1);
    assert_eq!(&dev.disk_name(), b"rust_blkdev\0");
    assert_eq!(dev.capacity(), 0);
    assert_eq!(dev.activation(), None);
    assert_eq!(
        calls,
        vec![
            KernelCall::SetCapacity { disk: 0x1000, blocks: 0 },
            KernelCall::Configure {
                disk: 0x1000,
                major: 7,
                first_minor: 0,
                minors: 1,
                disk_name: *b"rust_blkdev\0",
            },
        ]
    );
}

#[test]
fn allocate_takes_any_address_but_null() {
    let (dev, calls) = Blkdev::allocate(0, usize::MAX).unwrap();
    assert_eq!(dev.disk(), usize::MAX);
    assert_eq!(calls[0], KernelCall::SetCapacity { disk: usize::MAX, blocks: 0 });
    let (dev, _) = Blkdev::allocate(i32::MIN, 1).unwrap();
    assert_eq!(dev.disk(), 1);
    assert_eq!(dev.major(), i32::MIN);
}

#[test]
fn add_request_names_the_disk() {
    let (dev, _) = Blkdev::allocate(7, 0x2000).unwrap();
    assert_eq!(dev.add_request(), KernelCall::ActivateDisk { disk: 0x2000 });
}

#[test]
fn add_records_and_returns_any_code() {
    let (mut dev, _) = Blkdev::allocate(7, 0x2000).unwrap();
    assert_eq!(dev.add(0), Ok(0));
    assert_eq!(dev.activation(), Some(0));
    let (mut dev, _) = Blkdev::allocate(7, 0x2000).unwrap();
    assert_eq!(dev.add(-5), Ok(-5));
    assert_eq!(dev.activation(), Some(-5));
    assert_eq!(dev.disk(), 0x2000);
    assert_eq!(dev.major(), 7);
    let (mut dev, _) = Blkdev::allocate(7, 0x2000).unwrap();
    assert_eq!(dev.add(i32::MAX), Ok(i32::MAX));
    assert_eq!(dev.activation(), Some(i32::MAX));
}

#[test]
fn release_names_the_disk() {
    let (dev, _) = Blkdev::allocate(7, 0x3000).unwrap();
    assert_eq!(dev.release(), KernelCall::ReleaseDisk { disk: 0x3000 });
    let (mut dev, _) = Blkdev::allocate(7, 0x4000).unwrap();
    let _ = dev.add(0);
    assert_eq!(dev.release(), KernelCall::ReleaseDisk { disk: 0x4000 });
}

#[test]
fn prepare_disk_refuses_null_and_allows_retry() {
    let mut reg = reserved(b"testdev0", 7);
    assert_eq!(reg.prepare_disk(0).unwrap_err(), Error::ResourceExhausted);
    assert!(!reg.is_active());
    assert_eq!(reg, reserved(b"testdev0", 7));
    assert_eq!(reg.allocate_request(), Ok(KernelCall::AllocateDisk { numa_hint: -1 }));
    let (dev, _) = reg.prepare_disk(0x1000).unwrap();
    assert_eq!(reg.register(MODULE, dev, 0), Ok(0));
    assert!(reg.is_active());
}

#[test]
fn prepare_disk_configures_then_activates() {
    let reg = reserved(b"testdev0", 254);
    let (dev, calls) = reg.prepare_disk(0x1000).unwrap();
    assert_eq!(dev.major(), 254);
    assert_eq!(dev.disk(), 0x1000);
    assert_eq!(dev.activation(), None);
    assert_eq!(
        calls,
        vec![
            KernelCall::SetCapacity { disk: 0x1000, blocks: 0 },
            KernelCall::Configure {
                disk: 0x1000,
                major: 254,
                first_minor: 0,
                minors: 1,
                disk_name: *b"rust_blkdev\0",
            },
            KernelCall::ActivateDisk { disk: 0x1000 },
        ]
    );
}

#[test]
fn prepare_disk_uses_the_largest_identifier_unchanged() {
    let reg = reserved(b"testdev0", i32::MAX);
    let (dev, _) = reg.prepare_disk(0x1000).unwrap();
    assert_eq!(dev.major(), i32::MAX);
}

#[test]
fn display_name_does_not_depend_on_the_registration_name() {
    let first = reserved(b"testdev0", 7);
    let second = reserved(b"another_name_altogether", 7);
    let (dev_a, calls_a) = first.prepare_disk(0x1000).unwrap();
    let (dev_b, calls_b) = second.prepare_disk(0x1000).unwrap();
    assert_eq!(&dev_a.disk_name(), b"rust_blkdev\0");
    assert_eq!(dev_a.disk_name(), dev_b.disk_name());
    assert_eq!(dev_a.disk_name().len(), 12);
    assert_eq!(calls_a, calls_b);
    match calls_a[1] {
        KernelCall::Configure { major, disk_name, .. } => {
            assert_eq!(major, 7);
            assert_eq!(&disk_name, b"rust_blkdev\0");
        },
        _ => panic!("the second request configures the disk"),
    }
}

#[test]
fn register_stores_the_device_and_returns_the_code() {
    let mut reg = reserved(b"testdev0", 7);
    let (dev, _) = reg.prepare_disk(0x1000).unwrap();
    assert_eq!(reg.register(MODULE, dev, 3), Ok(3));
    assert!(reg.is_active());
    let inner = reg.inner().expect("an active registration has its device");
    assert_eq!(inner.dev(), 0);
    assert_eq!(inner.blkdev().disk(), 0x1000);
    assert_eq!(inner.blkdev().major(), 7);
    assert_eq!(inner.blkdev().activation(), Some(3));
    assert_eq!(reg.name(), b"testdev0");
    assert_eq!(reg.major(), 7);
}

#[test]
fn register_counts_no_code_as_failure() {
    let mut reg = reserved(b"testdev0", 7);
    let (dev, _) = reg.prepare_disk(0x1000).unwrap();
    assert_eq!(reg.register(MODULE, dev, -22), Ok(-22));
    assert!(reg.is_active());
    assert_eq!(reg.inner().unwrap().blkdev().activation(), Some(-22));
}

#[test]
fn second_activation_is_rejected_and_first_device_untouched() {
    let mut reg = reserved(b"testdev0", 7);
    let (dev, _) = reg.prepare_disk(0x1000).unwrap();
    assert_eq!(reg.register(MODULE, dev, 0), Ok(0));

    assert_eq!(reg.allocate_request(), Err(Error::AlreadyActive));

    let (other, _) = Blkdev::allocate(7, 0x2000).unwrap();
    assert_eq!(
        reg.register(MODULE, other, 9),
        Err((Error::AlreadyActive, KernelCall::ReleaseDisk { disk: 0x2000 }))
    );
    let inner = reg.inner().unwrap();
    assert_eq!(inner.blkdev().disk(), 0x1000);
    assert_eq!(inner.blkdev().activation(), Some(0));
    assert_eq!(inner.dev(), 0);
    assert_eq!(
        reg.teardown(),
        vec![
            KernelCall::ReleaseDisk { disk: 0x1000 },
            KernelCall::UnregisterIdentifier { identifier: 7, name: b"testdev0" },
        ]
    );
}

#[test]
fn teardown_of_inactive_registration_only_unregisters() {
    let reg = reserved(b"testdev0", 7);
    assert_eq!(
        reg.teardown(),
        vec![KernelCall::UnregisterIdentifier { identifier: 7, name: b"testdev0" }]
    );
}

#[test]
fn teardown_releases_the_disk_before_the_identifier() {
    let mut reg = Registration::new_pinned(b"testdev0", MODULE, 254).unwrap();
    let (dev, _) = reg.prepare_disk(0xdead_b000).unwrap();
    assert_eq!(reg.register(MODULE, dev, 0), Ok(0));
    let calls: Vec<KernelCall> = (*reg).teardown();
    let release = calls
        .iter()
        .position(|c| matches!(c, KernelCall::ReleaseDisk { .. }))
        .expect("the disk is released");
    let unregister = calls
        .iter()
        .position(|c| matches!(c, KernelCall::UnregisterIdentifier { .. }))
        .expect("the identifier is given back");
    assert!(release < unregister);
    assert_eq!(
        calls,
        vec![
            KernelCall::ReleaseDisk { disk: 0xdead_b000 },
            KernelCall::UnregisterIdentifier { identifier: 254, name: b"testdev0" },
        ]
    );
}

#[test]
fn errors_map_to_kernel_codes() {
    assert_eq!(Error::InvalidArgument.to_kernel_errno(), -22);
    assert_eq!(Error::ResourceExhausted.to_kernel_errno(), -12);
    assert_eq!(Error::AlreadyActive.to_kernel_errno(), -22);
    assert_eq!(Error::KernelRejected(-16).to_kernel_errno(), -16);
    assert_eq!(Error::KernelRejected(i32::MIN).to_kernel_errno(), i32::MIN);
}

#[test]
fn kernel_codes_are_wrapped_unchanged() {
    assert_eq!(Error::from_kernel_errno(-16), Error::KernelRejected(-16));
    assert_eq!(Error::from_kernel_errno(-16).to_kernel_errno(), -16);
    assert_ne!(Error::from_kernel_errno(-16), Error::from_kernel_errno(-17));
}
