use btmesh::driver::deadline::Deadline;
use btmesh::driver::lower::DeviceInfo;
use btmesh::driver::provisionee::UnprovisionedStack;
use btmesh::driver::provisioning_pdu::{Capabilities, Invite, ProvisioningPDU};
use btmesh::driver::sequence::Sequence;
use btmesh::driver::stack::{DeviceState, ProvisionedStack, Stack};

#[test]
fn deadline_fires_when_due_or_at_once() {
    let d = Deadline::new(3000, false, 100);
    assert_eq!(3100, d.at);
    assert_eq!(3100, d.next(200));
    assert_eq!(5000, d.next(5000));
    let mut e = Deadline::new(3000, true, 100);
    assert_eq!(100, e.next(50));
    assert_eq!(150, e.next(150));
    e.advance(150);
    assert_eq!(3150, e.next(160));
    assert_eq!(3000, e.every);
}

#[test]
fn unprovisioned_device_beacons_until_invited() {
    let mut stack = UnprovisionedStack::new(Capabilities::default());
    assert_eq!(Some(42), stack.next_beacon_deadline(42));
    assert_eq!(None, stack.next_retransmit());
    stack.process(&ProvisioningPDU::Invite(Invite { attention_duration: 1 }), 0).unwrap();
    assert!(stack.in_progress());
    assert_eq!(None, stack.next_beacon_deadline(42));
    assert_eq!(Some(1000), stack.next_retransmit());
}

#[test]
fn provisioned_node_deadlines() {
    let mut stack = ProvisionedStack::new(DeviceInfo { primary_unicast_address: 0x0001, number_of_elements: 1 });
    assert_eq!(Some(200), stack.next_retransmit());
    assert_eq!(Some(10), stack.next_beacon_deadline(10));
    stack.beacon.advance(10);
    assert_eq!(Some(3010), stack.next_beacon_deadline(20));
    assert_eq!(0x0001, stack.device_info().primary_unicast_address);
}

#[test]
fn stack_reports_its_state() {
    assert!(Stack::Empty.device_state().is_none());
    assert_eq!(None, Stack::Empty.next_retransmit());
    assert_eq!(None, Stack::Empty.next_beacon_deadline(5));
    assert!(!Stack::Empty.has_ongoing_completion());

    let unprovisioned = Stack::Unprovisioned { stack: UnprovisionedStack::new(Capabilities::default()), uuid: [3; 16] };
    match unprovisioned.device_state() {
        Some(DeviceState::Unprovisioned { uuid, in_progress }) => {
            assert_eq!([3; 16], uuid);
            assert!(!in_progress);
        }
        _ => panic!("an unprovisioned device"),
    }
    assert_eq!(None, unprovisioned.next_retransmit());

    let provisioned = Stack::Provisioned {
        stack: ProvisionedStack::new(DeviceInfo { primary_unicast_address: 0x0002, number_of_elements: 1 }),
        sequence: Sequence::new(0),
    };
    assert!(matches!(provisioned.device_state(), Some(DeviceState::Provisioned)));
    assert_eq!(Some(200), provisioned.next_retransmit());
    assert!(!provisioned.has_ongoing_completion());
}
