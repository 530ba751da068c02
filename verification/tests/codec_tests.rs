use ra4m1_hal::codec::CanId;
use ra4m1_hal::codec::Frame;
use ra4m1_hal::codec::MailboxId;

#[test]
fn standard_id_round_trips() {
    let m = MailboxId::from_can_id(CanId::Standard(0x123));
    assert!(!m.is_extended());
    assert_eq!(m.into_bits(), 0x123u32 << 18);
    assert_eq!(m.to_can_id(), CanId::Standard(0x123));
}

#[test]
fn extended_id_round_trips() {
    let m = MailboxId::from_can_id(CanId::Extended(0x1ABCDE));
    assert!(m.is_extended());
    assert_eq!(m.into_bits(), 0x8000_0000 | 0x1ABCDE);
    assert_eq!(m.to_can_id(), CanId::Extended(0x1ABCDE));
}

#[test]
fn extended_id_with_high_bits_round_trips() {
    let m = MailboxId::from_can_id(CanId::Extended(0x1FFF_FFFF));
    assert!(m.is_extended());
    assert_eq!(m.to_can_id(), CanId::Extended(0x1FFF_FFFF));
}

#[test]
fn zero_standard_id_round_trips() {
    let m = MailboxId::from_can_id(CanId::Standard(0));
    assert!(!m.is_extended());
    assert_eq!(m.into_bits(), 0);
    assert_eq!(m.to_can_id(), CanId::Standard(0));
}

#[test]
fn dirty_extended_portion_reads_as_extended() {
    // The extended portion alone, without the format flag, still decodes
    // as an extended identifier.
    let m = MailboxId::from_bits(0x0000_0001);
    assert!(m.is_extended());
    assert_eq!(m.to_can_id(), CanId::Extended(1));
}

#[test]
fn mailbox_id_field_accessors() {
    let m = MailboxId::from_bits(0xC000_0000 | (0x7FF << 18) | 0x3FFFF);
    assert!(m.ide());
    assert!(m.rtr());
    assert_eq!(m.sid(), 0x7FF);
    assert_eq!(m.eid(), 0x3FFFF);
    let cleared = m.with_ide_cleared();
    assert!(!cleared.ide());
    assert!(cleared.rtr());
}

#[test]
fn frame_new_carries_payload() {
    let f = Frame::new(CanId::Standard(0x123), &[1, 2, 3]).unwrap();
    assert_eq!(f.dlc(), 3);
    assert_eq!(f.data(), vec![1, 2, 3]);
    assert_eq!(f.data_byte(0), 1);
    assert_eq!(f.id(), CanId::Standard(0x123));
    assert!(!f.is_extended());
    assert!(!f.is_remote_frame());
}

#[test]
fn frame_new_rejects_long_payload() {
    assert!(Frame::new(CanId::Standard(1), &[0; 9]).is_none());
    assert!(Frame::new(CanId::Standard(1), &[0; 8]).is_some());
}

#[test]
fn frame_new_extended() {
    let f = Frame::new(CanId::Extended(0x1ABCDE), &[9]).unwrap();
    assert!(f.is_extended());
    assert_eq!(f.id(), CanId::Extended(0x1ABCDE));
}

#[test]
fn frame_new_remote_zero_payload() {
    let f = Frame::new_remote(CanId::Standard(7), 5).unwrap();
    assert_eq!(f.dlc(), 5);
    assert_eq!(f.data(), vec![0, 0, 0, 0, 0]);
    // The remote-request flag is left as the encoding produced it.
    assert!(!f.is_remote_frame());
    assert!(Frame::new_remote(CanId::Standard(7), 9).is_none());
}

#[test]
fn frame_from_parts_reads_back() {
    let f = Frame::from_parts(MailboxId::from_bits(0x123 << 18), 2, [7, 8, 0, 0, 0, 0, 0, 0]);
    assert_eq!(f.dlc(), 2);
    assert_eq!(f.data(), vec![7, 8]);
    assert_eq!(f.id(), CanId::Standard(0x123));
}
