//! What holds of whole lifetimes of a registration.
//!
//! The functions of [`crate::registration`] each decide one step. The
//! theorems here put the steps together and state what their sequence
//! guarantees, over the same mathematical values that the steps' own
//! contracts speak of.

use vstd::prelude::*;
use crate::device::BlkdevView;
use crate::error::Error;
use crate::kernel::{disk_name_spec, KernelCallView, ThisModule, ANY_DEVICE_CLASS};
use crate::model::{Exchange, KernelModel};
use crate::registration::RegistrationView;

verus! {

/// The requests `calls` as exchanges: the last one was answered with
/// `last_reply`, the others have no answer.
pub open spec fn answered(calls: Seq<KernelCallView>, last_reply: int) -> Seq<Exchange> {
    Seq::new(
        calls.len(),
        |i: int|
            Exchange { call: calls[i], reply: if i == calls.len() - 1 {
                last_reply
            } else {
                0
            } },
    )
}

/// The requests of a sequence of exchanges.
pub open spec fn calls_of(xs: Seq<Exchange>) -> Seq<KernelCallView> {
    xs.map_values(|x: Exchange| x.call)
}

/// The exchanges of a reservation under `name` that the kernel answers with
/// `identifier`.
pub open spec fn reservation(name: Seq<u8>, identifier: int) -> Seq<Exchange> {
    seq![Exchange { call: RegistrationView::reserve_request(name).unwrap(), reply: identifier }]
}

/// The exchanges of an activation of `reg` in which the allocator answers
/// with `disk`, which is not null, and the kernel answers the activation of
/// the disk with `code`.
pub open spec fn activation(reg: RegistrationView, disk: int, code: int) -> Seq<Exchange> {
    seq![Exchange { call: reg.allocate_request().unwrap(), reply: disk }] + answered(
        reg.prepare_disk(disk).unwrap().1,
        code,
    )
}

/// The registration that the activation of `reg` with these answers leaves.
pub open spec fn activated(reg: RegistrationView, disk: int, code: int) -> RegistrationView {
    reg.register(reg.prepare_disk(disk).unwrap().0, code).0
}

/// Everything that is exchanged with the kernel for a registration that is
/// reserved and given up without ever being activated.
pub open spec fn unused_lifetime(name: Seq<u8>, this_module: ThisModule, identifier: int) -> Seq<
    Exchange,
> {
    let reg = RegistrationView::reserved(name, this_module, identifier).unwrap();
    reservation(name, identifier) + answered(reg.teardown(), 0)
}

/// Everything that is exchanged with the kernel for a registration that is
/// reserved, finds the allocator without memory when it tries to activate,
/// and is given up.
pub open spec fn failed_lifetime(name: Seq<u8>, this_module: ThisModule, identifier: int) -> Seq<
    Exchange,
> {
    let reg = RegistrationView::reserved(name, this_module, identifier).unwrap();
    reservation(name, identifier) + seq![
        Exchange { call: reg.allocate_request().unwrap(), reply: 0 },
    ] + answered(reg.teardown(), 0)
}

/// Everything that is exchanged with the kernel for a registration that is
/// reserved, activated and given up.
pub open spec fn active_lifetime(
    name: Seq<u8>,
    this_module: ThisModule,
    identifier: int,
    disk: int,
    code: int,
) -> Seq<Exchange> {
    let reg = RegistrationView::reserved(name, this_module, identifier).unwrap();
    reservation(name, identifier) + activation(reg, disk, code) + answered(
        activated(reg, disk, code).teardown(),
        0,
    )
}

/// The identifier is given back under `name` by exactly one request of
/// `calls`, and no other request of `calls` gives any identifier back.
pub open spec fn unregisters_once(calls: Seq<KernelCallView>, identifier: int, name: Seq<u8>) -> bool {
    exists|i: int|
        {
            &&& 0 <= i < calls.len()
            &&& #[trigger] calls[i] == (KernelCallView::UnregisterIdentifier { identifier, name })
            &&& forall|j: int|
                0 <= j < calls.len() && #[trigger] calls[j] is UnregisterIdentifier ==> j == i
        }
}

/// The disk object at `disk` is released by exactly one request of `calls`,
/// and no other request of `calls` releases any disk object.
pub open spec fn releases_once(calls: Seq<KernelCallView>, disk: int) -> bool {
    exists|i: int|
        {
            &&& 0 <= i < calls.len()
            &&& #[trigger] calls[i] == (KernelCallView::ReleaseDisk { disk })
            &&& forall|j: int| 0 <= j < calls.len() && #[trigger] calls[j] is ReleaseDisk ==> j == i
        }
}

/// No request of `calls` asks for a disk object.
pub open spec fn allocates_nothing(calls: Seq<KernelCallView>) -> bool {
    forall|i: int| 0 <= i < calls.len() ==> !(#[trigger] calls[i] is AllocateDisk)
}

/// Every release of a disk object in `calls` comes before every return of an
/// identifier.
pub open spec fn releases_before_unregistering(calls: Seq<KernelCallView>) -> bool {
    forall|i: int, j: int|
        0 <= i < calls.len() && 0 <= j < calls.len() && #[trigger] calls[i] is ReleaseDisk
            && #[trigger] calls[j] is UnregisterIdentifier ==> i < j
}

/// Every step keeps a registration well formed: a reservation that succeeds
/// yields a well-formed registration, and the end of an activation leaves one,
/// whatever it decides, provided the handle it is given is a real one.
pub proof fn lemma_steps_keep_registrations_well_formed(
    name: Seq<u8>,
    this_module: ThisModule,
    reply: int,
    reg: RegistrationView,
    blkdev: BlkdevView,
    disk: int,
    code: int,
)
    requires
        i32::MIN <= reply <= i32::MAX,
        reg.wf(),
        blkdev.wf(),
    ensures
        RegistrationView::reserved(name, this_module, reply) matches Ok(fresh) ==> fresh.wf()
            && !fresh.is_active(),
        reg.prepare_disk(disk) matches Ok((dev, calls)) ==> dev.wf(),
        reg.register(blkdev, code).0.wf(),
{
}

/// An empty name reaches no entry point. No request is made for it, and no
/// answer, whatever it is, makes a registration of it: both steps of the
/// reservation report `InvalidArgument`.
pub proof fn lemma_empty_name_is_refused_unasked(name: Seq<u8>, this_module: ThisModule, reply: int)
    requires
        name.len() == 0,
    ensures
        RegistrationView::reserve_request(name) == Err::<KernelCallView, Error>(
            Error::InvalidArgument,
        ),
        RegistrationView::reserved(name, this_module, reply) == Err::<RegistrationView, Error>(
            Error::InvalidArgument,
        ),
{
}

/// The display name of a disk is fixed. Whatever a registration is called
/// and whichever identifier it holds, the handle of its disk and the request
/// that configures the disk carry the same name: eleven characters, none of
/// them zero, and the terminator.
pub proof fn lemma_display_name_is_fixed(reg: RegistrationView, other: RegistrationView, disk: int)
    requires
        disk != 0,
    ensures
        reg.prepare_disk(disk).unwrap().0.disk_name == disk_name_spec(),
        reg.prepare_disk(disk).unwrap().1[1]->Configure_disk_name == disk_name_spec(),
        other.prepare_disk(disk).unwrap().0.disk_name == reg.prepare_disk(disk).unwrap().0.disk_name,
        disk_name_spec().len() == 12,
        disk_name_spec()[11] == 0,
        forall|i: int| 0 <= i < 11 ==> disk_name_spec()[i] != 0,
{
}

/// A registration that is reserved under a non-empty name and given up
/// without being activated gives its identifier back exactly once and never
/// asks for a disk object: all that is exchanged is the reservation and the
/// return of the identifier under the same name.
pub proof fn lemma_unused_reservation_is_released_once(
    name: Seq<u8>,
    this_module: ThisModule,
    identifier: int,
)
    requires
        name.len() > 0,
        0 <= identifier <= i32::MAX,
    ensures
        calls_of(unused_lifetime(name, this_module, identifier)) == seq![
            (KernelCallView::ReserveIdentifier { device_class: ANY_DEVICE_CLASS as int, name }),
            (KernelCallView::UnregisterIdentifier { identifier, name }),
        ],
        unregisters_once(calls_of(unused_lifetime(name, this_module, identifier)), identifier, name),
        allocates_nothing(calls_of(unused_lifetime(name, this_module, identifier))),
{
    let calls = calls_of(unused_lifetime(name, this_module, identifier));
    let expected = seq![
        KernelCallView::ReserveIdentifier { device_class: ANY_DEVICE_CLASS as int, name },
        KernelCallView::UnregisterIdentifier { identifier, name },
    ];
    assert(calls =~= expected);
    assert(calls[1] == (KernelCallView::UnregisterIdentifier { identifier, name }));
}

/// Activation is single-shot. Once a registration has been through the end
/// of an activation it is active; from then on it starts no further
/// activation, and the end of one that was started all the same is refused
/// with `AlreadyActive`, changes nothing of the registration, its device
/// included, and hands back the release of the handle that was offered.
pub proof fn lemma_second_activation_is_rejected(
    reg: RegistrationView,
    blkdev: BlkdevView,
    code: int,
    other: BlkdevView,
    other_code: int,
)
    ensures
        ({
            let first = reg.register(blkdev, code).0;
            &&& first.is_active()
            &&& !reg.is_active() ==> first.inner == Some(
                crate::registration::RegistrationInnerView { dev: 0, blkdev: blkdev.added(code) },
            )
            &&& first.allocate_request() == Err::<KernelCallView, Error>(Error::AlreadyActive)
            &&& first.register(other, other_code) == (
                first,
                Err::<int, (Error, KernelCallView)>((Error::AlreadyActive, other.release_call())),
            )
        }),
{
}

/// A failed allocation leaves the activation open. When the allocator
/// answers with null, the step reports `ResourceExhausted` and hands out
/// neither a handle nor a request; the registration, which the step only
/// reads, is still inactive, so it starts the next activation as it started
/// this one, and that one succeeds if the allocator then answers with a disk
/// object.
pub proof fn lemma_failed_allocation_allows_retry(reg: RegistrationView, disk: int)
    requires
        !reg.is_active(),
        disk != 0,
    ensures
        reg.prepare_disk(0) == Err::<(BlkdevView, Seq<KernelCallView>), Error>(
            Error::ResourceExhausted,
        ),
        reg.allocate_request() is Ok,
        reg.prepare_disk(disk) is Ok,
        activated(reg, disk, 0).is_active(),
{
}

/// Teardown runs in reverse order of setup. For an active registration it
/// consists of exactly two requests: the release of its disk object, and
/// after it the return of its identifier under the name it was reserved
/// with.
pub proof fn lemma_teardown_releases_device_first(reg: RegistrationView)
    requires
        reg.is_active(),
    ensures
        reg.teardown() == seq![
            (KernelCallView::ReleaseDisk { disk: reg.inner.unwrap().blkdev.disk }),
            (KernelCallView::UnregisterIdentifier { identifier: reg.major, name: reg.name }),
        ],
        releases_before_unregistering(reg.teardown()),
        releases_once(reg.teardown(), reg.inner.unwrap().blkdev.disk),
        unregisters_once(reg.teardown(), reg.major, reg.name),
{
    let calls = reg.teardown();
    assert(calls[0] == (KernelCallView::ReleaseDisk { disk: reg.inner.unwrap().blkdev.disk }));
    assert(calls[1] == (KernelCallView::UnregisterIdentifier {
        identifier: reg.major,
        name: reg.name,
    }));
}

/// A registration that was never activated leaves the kernel as it was. If
/// the identifier that the kernel assigns was free before, then after the
/// reservation and the teardown the kernel's table of identifiers and its
/// disk objects are what they were.
pub proof fn lemma_unused_lifetime_restores_kernel(
    kernel: KernelModel,
    name: Seq<u8>,
    this_module: ThisModule,
    identifier: int,
)
    requires
        name.len() > 0,
        0 <= identifier <= i32::MAX,
        !kernel.identifiers.dom().contains(identifier),
    ensures
        kernel.run(unused_lifetime(name, this_module, identifier)) == kernel,
{
    let reserve = Exchange {
        call: KernelCallView::ReserveIdentifier { device_class: ANY_DEVICE_CLASS as int, name },
        reply: identifier,
    };
    let unregister = Exchange {
        call: KernelCallView::UnregisterIdentifier { identifier, name },
        reply: 0,
    };
    let empty = Seq::<Exchange>::empty();
    assert(unused_lifetime(name, this_module, identifier) =~= empty.push(reserve).push(unregister));
    kernel.lemma_run_empty();
    kernel.lemma_run_push(empty, reserve);
    kernel.lemma_run_push(empty.push(reserve), unregister);
    let end = kernel.step(reserve).step(unregister);
    assert(end.identifiers =~= kernel.identifiers);
}

/// A failed activation leaks nothing. If the allocator answers the one
/// activation attempt of a registration with null, the teardown consists of
/// the return of the identifier alone, and the kernel is left as it was
/// before the reservation.
pub proof fn lemma_failed_lifetime_restores_kernel(
    kernel: KernelModel,
    name: Seq<u8>,
    this_module: ThisModule,
    identifier: int,
)
    requires
        name.len() > 0,
        0 <= identifier <= i32::MAX,
        !kernel.identifiers.dom().contains(identifier),
    ensures
        kernel.run(failed_lifetime(name, this_module, identifier)) == kernel,
        unregisters_once(calls_of(failed_lifetime(name, this_module, identifier)), identifier, name),
        forall|i: int|
            0 <= i < failed_lifetime(name, this_module, identifier).len() ==> !(
            #[trigger] failed_lifetime(name, this_module, identifier)[i].call is ReleaseDisk),
{
    let reg = RegistrationView::reserved(name, this_module, identifier).unwrap();
    let reserve = Exchange {
        call: KernelCallView::ReserveIdentifier { device_class: ANY_DEVICE_CLASS as int, name },
        reply: identifier,
    };
    let allocate = Exchange { call: reg.allocate_request().unwrap(), reply: 0 };
    let unregister = Exchange {
        call: KernelCallView::UnregisterIdentifier { identifier, name },
        reply: 0,
    };
    let empty = Seq::<Exchange>::empty();
    let all = failed_lifetime(name, this_module, identifier);
    assert(all =~= empty.push(reserve).push(allocate).push(unregister));
    kernel.lemma_run_empty();
    kernel.lemma_run_push(empty, reserve);
    kernel.lemma_run_push(empty.push(reserve), allocate);
    kernel.lemma_run_push(empty.push(reserve).push(allocate), unregister);
    let end = kernel.run(all);
    assert(end.identifiers =~= kernel.identifiers);
    assert(calls_of(all)[2] == (KernelCallView::UnregisterIdentifier { identifier, name }));
}

/// A whole lifetime leaves the kernel as it was. If the identifier that the
/// kernel assigns was free before and the disk object that the allocator
/// hands out did not exist before, then after reservation, activation and
/// teardown the kernel's table of identifiers and its disk objects are what
/// they were: the identifier is free again and no disk object remains. On
/// the way the disk object is released once, the identifier is given back
/// once, and the release comes first.
pub proof fn lemma_round_trip_restores_kernel(
    kernel: KernelModel,
    name: Seq<u8>,
    this_module: ThisModule,
    identifier: int,
    disk: int,
    code: int,
)
    requires
        name.len() > 0,
        0 <= identifier <= i32::MAX,
        disk != 0,
        !kernel.identifiers.dom().contains(identifier),
        !kernel.disks.contains(disk),
    ensures
        kernel.run(active_lifetime(name, this_module, identifier, disk, code)) == kernel,
        releases_before_unregistering(
            calls_of(active_lifetime(name, this_module, identifier, disk, code)),
        ),
        releases_once(calls_of(active_lifetime(name, this_module, identifier, disk, code)), disk),
        unregisters_once(
            calls_of(active_lifetime(name, this_module, identifier, disk, code)),
            identifier,
            name,
        ),
{
    let reg = RegistrationView::reserved(name, this_module, identifier).unwrap();
    let dev = BlkdevView::configured(disk, identifier);
    let x0 = Exchange {
        call: KernelCallView::ReserveIdentifier { device_class: ANY_DEVICE_CLASS as int, name },
        reply: identifier,
    };
    let x1 = Exchange { call: reg.allocate_request().unwrap(), reply: disk };
    let x2 = Exchange { call: dev.setup()[0], reply: 0 };
    let x3 = Exchange { call: dev.setup()[1], reply: 0 };
    let x4 = Exchange { call: dev.activate_call(), reply: code };
    let x5 = Exchange { call: KernelCallView::ReleaseDisk { disk }, reply: 0 };
    let x6 = Exchange { call: KernelCallView::UnregisterIdentifier { identifier, name }, reply: 0 };
    let s0 = Seq::<Exchange>::empty();
    let s1 = s0.push(x0);
    let s2 = s1.push(x1);
    let s3 = s2.push(x2);
    let s4 = s3.push(x3);
    let s5 = s4.push(x4);
    let s6 = s5.push(x5);
    let s7 = s6.push(x6);
    let all = active_lifetime(name, this_module, identifier, disk, code);
    assert(all =~= s7);
    kernel.lemma_run_empty();
    kernel.lemma_run_push(s0, x0);
    kernel.lemma_run_push(s1, x1);
    kernel.lemma_run_push(s2, x2);
    kernel.lemma_run_push(s3, x3);
    kernel.lemma_run_push(s4, x4);
    kernel.lemma_run_push(s5, x5);
    kernel.lemma_run_push(s6, x6);
    let end = kernel.run(s7);
    assert(end.identifiers =~= kernel.identifiers);
    assert(end.disks =~= kernel.disks);
    let calls = calls_of(all);
    assert(calls.len() == 7);
    assert(calls[5] == (KernelCallView::ReleaseDisk { disk }));
    assert(calls[6] == (KernelCallView::UnregisterIdentifier { identifier, name }));
}

} // verus!
