use advance::system::{AccessWidth, Bus, MemoryRequest, OperationType};

fn request() -> MemoryRequest {
    MemoryRequest {
        address: 0x0300_0000,
        width: AccessWidth::Bit16,
        op: OperationType::Write,
        seq: true,
    }
}

#[test]
fn idle_bus() {
    let bus = Bus::default();
    assert_eq!(bus.request, None);
    assert!(!bus.busy);
    assert!(!bus.dma_active);
    assert_eq!(bus.data, 0xFFFF_FFFF);
    assert!(!bus.should_cpu_wait());
    assert!(!bus.should_dma_wait());
}

#[test]
fn request_is_latched_and_taken_once() {
    let mut bus = Bus::default();
    bus.make_request(request());
    assert_eq!(bus.request, Some(request()));
    assert_eq!(bus.data, 0xFFFF_FFFF);
    assert_eq!(bus.take_request(), Some(request()));
    assert_eq!(bus.request, None);
    assert_eq!(bus.take_request(), None);
}

#[test]
fn who_waits_for_what() {
    let mut bus = Bus::default();
    bus.busy = true;
    assert!(bus.should_cpu_wait());
    assert!(bus.should_dma_wait());
    bus.busy = false;
    bus.dma_active = true;
    assert!(bus.should_cpu_wait());
    assert!(!bus.should_dma_wait());
    bus.busy = true;
    assert!(bus.should_cpu_wait());
    assert!(bus.should_dma_wait());
}
