use gfx_core::adapter::{
    check_requests, queue_requests, Adapter, AdapterInfo, Capabilities, Gpu, NullAdapter,
    QueueFamily, QueueGroup, QueueType,
};
use gfx_core::device::{Descriptor, Device, ResourceKind, Support};
use gfx_core::error::Error;

fn family(id: u32, max_queues: u32) -> QueueFamily {
    let (graphics, compute) = match id {
        0 => (true, true),
        1 => (false, false),
        2 => (false, true),
        _ => (true, false),
    };
    let capabilities = Capabilities { graphics, compute, transfer: true, present: graphics };
    QueueFamily { id, max_queues, capabilities }
}

fn identity() -> AdapterInfo {
    AdapterInfo {
        name: String::from("null"),
        vendor: 0x10de,
        device: 0x1c82,
        software_rendering: true,
    }
}

fn adapter() -> NullAdapter {
    NullAdapter::new(
        identity(),
        vec![family(0, 16), family(1, 2), family(2, 8)],
        vec![Support { kind: ResourceKind::Buffer, format: 0, usage: 1 }],
    )
}

#[test]
fn info_is_reported_unchanged() {
    let a = adapter();
    let info = a.get_info();
    assert_eq!(info.name, "null");
    assert_eq!(info.vendor, 0x10de);
    assert_eq!(info.device, 0x1c82);
    assert!(info.software_rendering);
    assert_eq!(a.get_info(), &identity());
    assert_eq!(a.get_info(), a.get_info());
}

#[test]
fn queue_families_are_the_same_on_every_call() {
    let a = adapter();
    let first = a.get_queue_families().to_vec();
    let second = a.get_queue_families().to_vec();
    assert_eq!(first, second);
    assert_eq!(
        first,
        vec![
            (family(0, 16), QueueType::General),
            (family(1, 2), QueueType::Transfer),
            (family(2, 8), QueueType::Compute),
        ]
    );
}

#[test]
fn open_gives_the_requested_queue_counts() {
    let a = adapter();
    let requests = [
        (family(2, 8), QueueType::Compute, 3),
        (family(0, 16), QueueType::Graphics, 16),
    ];
    let gpu = match a.open(&requests) {
        Ok(gpu) => gpu,
        Err(e) => panic!("open failed: {:?}", e),
    };
    assert_eq!(gpu.groups.len(), 2);
    assert_eq!(gpu.groups[0].family, family(2, 8));
    assert_eq!(gpu.groups[0].ty, QueueType::Compute);
    assert_eq!(gpu.groups[0].queues.len(), 3);
    assert_eq!(gpu.groups[1].family, family(0, 16));
    assert_eq!(gpu.groups[1].ty, QueueType::Graphics);
    assert_eq!(gpu.groups[1].queues.len(), 16);
    for queue in gpu.groups[0].queues.iter() {
        assert_eq!(queue.family(), 2);
        assert!(queue.submissions().is_empty());
    }
    assert_eq!(gpu.queue_count(2), 3);
    assert_eq!(gpu.queue_count(0), 16);
    assert_eq!(gpu.queue_count(1), 0);
}

#[test]
fn open_with_no_requests_gives_no_queues() {
    let a = adapter();
    let gpu = a.open(&[]).ok().expect("no requests are valid requests");
    assert_eq!(gpu.groups.len(), 0);
    assert_eq!(gpu.queue_count(0), 0);
}

#[test]
fn open_takes_a_request_of_exactly_the_maximum() {
    let a = adapter();
    assert!(a.open(&[(family(1, 2), QueueType::Transfer, 2)]).is_ok());
}

#[test]
fn open_refuses_more_queues_than_the_family_has() {
    let a = adapter();
    let r = a.open(&[(family(1, 2), QueueType::Transfer, 3)]);
    assert!(matches!(r, Err(Error::OpenFailure)));
}

#[test]
fn open_refuses_a_family_named_twice() {
    let a = adapter();
    let r = a.open(&[
        (family(0, 16), QueueType::Graphics, 1),
        (family(1, 2), QueueType::Transfer, 1),
        (family(0, 16), QueueType::Compute, 1),
    ]);
    assert!(matches!(r, Err(Error::OpenFailure)));
}

#[test]
fn a_native_refusal_is_an_open_failure() {
    let requests = [(family(0, 16), QueueType::General, 1)];
    assert!(matches!(Gpu::open(&requests, vec![], -3), Err(Error::OpenFailure)));
    assert!(matches!(Gpu::open(&requests, vec![], -4), Err(Error::OpenFailure)));
    assert!(matches!(Gpu::open(&requests, vec![], 1), Err(Error::OpenFailure)));
    assert!(Gpu::open(&requests, vec![], 0).is_ok());
    let excessive = [(family(0, 16), QueueType::General, 17)];
    assert!(matches!(Gpu::open(&excessive, vec![], 0), Err(Error::OpenFailure)));
}

#[test]
fn open_with_keeps_the_families_with_a_count_above_zero() {
    let a = adapter();
    let gpu = a
        .open_with(|family, ty| {
            if ty.supports_graphics() {
                (family.num_queues(), QueueType::Graphics)
            } else if ty.supports_compute() {
                (1, ty)
            } else {
                (0, ty)
            }
        })
        .ok()
        .expect("the selection is valid");
    assert_eq!(gpu.groups.len(), 2);
    assert_eq!(gpu.groups[0].family, family(0, 16));
    assert_eq!(gpu.groups[0].ty, QueueType::Graphics);
    assert_eq!(gpu.groups[0].queues.len(), 16);
    assert_eq!(gpu.groups[1].family, family(2, 8));
    assert_eq!(gpu.groups[1].ty, QueueType::Compute);
    assert_eq!(gpu.groups[1].queues.len(), 1);
}

#[test]
fn open_with_nothing_selected_is_open_with_no_requests() {
    let a = adapter();
    let selected = a.open_with(|_, ty| (0, ty)).ok().expect("nothing is asked for");
    let plain = a.open(&[]).ok().expect("nothing is asked for");
    assert_eq!(selected.groups.len(), 0);
    assert_eq!(selected.groups.len(), plain.groups.len());
    for id in 0..3 {
        assert_eq!(selected.queue_count(id), plain.queue_count(id));
    }
}

#[test]
fn open_with_passes_an_excessive_selection_on_to_open() {
    let a = adapter();
    let r = a.open_with(|family, ty| (family.num_queues() + 1, ty));
    assert!(matches!(r, Err(Error::OpenFailure)));
}

#[test]
fn open_with_calls_the_selector_once_for_each_family_in_order() {
    let a = adapter();
    let mut seen: Vec<(u32, QueueType)> = Vec::new();
    let gpu = a
        .open_with(|family, ty| {
            seen.push((family.id, ty));
            (family.id + 1, ty)
        })
        .ok()
        .expect("the selection is valid");
    assert_eq!(
        seen,
        vec![(0, QueueType::General), (1, QueueType::Transfer), (2, QueueType::Compute)]
    );
    let counts: Vec<(u32, usize)> =
        gpu.groups.iter().map(|g| (g.family.id, g.queues.len())).collect();
    assert_eq!(counts, vec![(0, 1), (1, 2), (2, 3)]);
}

#[test]
fn requests_are_derived_from_picks() {
    let families = [
        (family(0, 4), QueueType::General),
        (family(1, 4), QueueType::Compute),
        (family(2, 4), QueueType::Transfer),
    ];
    let picks = [(2, QueueType::Graphics), (0, QueueType::Compute), (4, QueueType::Transfer)];
    assert_eq!(
        queue_requests(&families, &picks),
        vec![
            (family(0, 4), QueueType::Graphics, 2),
            (family(2, 4), QueueType::Transfer, 4),
        ]
    );
    assert_eq!(queue_requests(&[], &[]), vec![]);
}

#[test]
fn requests_are_checked_against_maxima_and_repetition() {
    assert!(check_requests(&[]));
    assert!(check_requests(&[(family(0, 1), QueueType::General, 1)]));
    assert!(check_requests(&[(family(0, 1), QueueType::General, 0)]));
    assert!(!check_requests(&[(family(0, 1), QueueType::General, 2)]));
    assert!(check_requests(&[
        (family(0, 1), QueueType::General, 1),
        (family(1, 1), QueueType::General, 1),
    ]));
    assert!(!check_requests(&[
        (family(3, 1), QueueType::General, 1),
        (family(1, 1), QueueType::General, 1),
        (family(3, 5), QueueType::Compute, 1),
    ]));
}

#[test]
fn a_group_has_the_requested_queues() {
    let group = QueueGroup::new((family(5, 9), QueueType::Compute, 4));
    assert_eq!(group.family, family(5, 9));
    assert_eq!(group.ty, QueueType::Compute);
    assert_eq!(group.queues.len(), 4);
    assert!(group.queues.iter().all(|q| q.family() == 5 && q.submissions().is_empty()));
    assert_eq!(QueueGroup::new((family(5, 9), QueueType::Compute, 0)).queues.len(), 0);
}

#[test]
fn queue_count_reads_the_first_group_of_a_family() {
    let gpu = Gpu::with_queues(
        Device::new(vec![]),
        &[(family(1, 8), QueueType::Compute, 2), (family(4, 8), QueueType::Transfer, 5)],
    );
    assert_eq!(gpu.queue_count(1), 2);
    assert_eq!(gpu.queue_count(4), 5);
    assert_eq!(gpu.queue_count(0), 0);
}

#[test]
fn queue_types_report_their_capabilities() {
    assert!(QueueType::General.supports_graphics());
    assert!(QueueType::General.supports_compute());
    assert!(QueueType::Graphics.supports_graphics());
    assert!(!QueueType::Graphics.supports_compute());
    assert!(!QueueType::Compute.supports_graphics());
    assert!(QueueType::Compute.supports_compute());
    assert!(!QueueType::Transfer.supports_graphics());
    assert!(!QueueType::Transfer.supports_compute());
    for ty in [QueueType::General, QueueType::Graphics, QueueType::Compute, QueueType::Transfer] {
        assert!(ty.supports_transfer());
    }
}

#[test]
fn a_family_is_reported_by_its_most_capable_type() {
    assert_eq!(QueueType::most_capable(true, true), QueueType::General);
    assert_eq!(QueueType::most_capable(true, false), QueueType::Graphics);
    assert_eq!(QueueType::most_capable(false, true), QueueType::Compute);
    assert_eq!(QueueType::most_capable(false, false), QueueType::Transfer);
}

#[test]
fn an_opened_device_owns_nothing_and_creates_what_the_adapter_supports() {
    let a = adapter();
    let mut gpu = a.open(&[(family(0, 16), QueueType::General, 1)]).ok().expect("valid");
    assert!(!gpu.device.owns(0));
    let buffer = Descriptor { kind: ResourceKind::Buffer, size: 64, format: 0, usage: 1 };
    let texture = Descriptor { kind: ResourceKind::Texture, size: 64, format: 0, usage: 1 };
    assert!(gpu.device.supports(&buffer));
    assert!(!gpu.device.supports(&texture));
    assert_eq!(gpu.device.create(buffer, 0), Ok(0));
    assert!(gpu.device.owns(0));
}

#[test]
fn an_adapter_reports_each_family_by_its_most_capable_type() {
    let a = NullAdapter::new(
        identity(),
        vec![family(3, 1), family(2, 1), family(1, 1), family(0, 1)],
        vec![],
    );
    let reported: Vec<QueueType> = a.get_queue_families().iter().map(|(_, ty)| *ty).collect();
    assert_eq!(
        reported,
        vec![QueueType::Graphics, QueueType::Compute, QueueType::Transfer, QueueType::General]
    );
    for (family, ty) in a.get_queue_families() {
        assert_eq!(family.queue_type(), *ty);
    }
    assert!(NullAdapter::new(identity(), vec![], vec![]).get_queue_families().is_empty());
}
