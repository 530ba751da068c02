use ra4m1_hal::can::BitConfig;
use ra4m1_hal::can::Can;
use ra4m1_hal::can::MailboxConfig;
use ra4m1_hal::can::MailboxCtl;
use ra4m1_hal::can::MailboxRegs;
use ra4m1_hal::can::CAN0_TX_EVENT;
use ra4m1_hal::codec::CanId;
use ra4m1_hal::codec::Frame;
use ra4m1_hal::interrupts::BindingTable;
use ra4m1_hal::interrupts::HandlerKind;
use ra4m1_hal::interrupts::InterruptController;

fn make_can() -> (Can, InterruptController) {
    let mut bindings = BindingTable::new();
    bindings.bind(8, HandlerKind::CanTx);
    let mut ic = InterruptController::new(32);
    let cfg = BitConfig::new_checked(false, 3, 5, 2, 1).unwrap();
    let can = Can::new(cfg, &bindings, &mut ic, 8);
    (can, ic)
}

fn mb_eq(a: &MailboxRegs, b: &MailboxRegs) -> bool {
    a.ctl == b.ctl && a.id == b.id && a.dlc == b.dlc && a.data == b.data
}

#[test]
fn bit_config_accepts_reference_values() {
    assert!(BitConfig::new_checked(false, 3, 5, 2, 1).is_some());
}

#[test]
fn bit_config_rejects_each_bad_field() {
    assert!(BitConfig::new_checked(false, 0, 5, 2, 1).is_none());
    assert!(BitConfig::new_checked(false, 3, 3, 2, 1).is_none());
    assert!(BitConfig::new_checked(false, 3, 5, 1, 1).is_none());
    assert!(BitConfig::new_checked(false, 3, 5, 2, 5).is_none());
    assert!(BitConfig::new_checked(false, 1025, 5, 2, 1).is_none());
    assert!(BitConfig::new_checked(false, 3, 17, 2, 1).is_none());
    assert!(BitConfig::new_checked(false, 3, 5, 9, 1).is_none());
    assert!(BitConfig::new_checked(false, 3, 5, 2, 0).is_none());
}

#[test]
fn bit_config_register_value() {
    // prescaler 3 -> BRP 2, tseg1 5 -> 4, tseg2 2 -> 1, sjw 1 -> 0
    let cfg = BitConfig::new_checked(false, 3, 5, 2, 1).unwrap();
    assert_eq!(cfg.to_bits(), (1u32 << 8) | (2u32 << 16) | (4u32 << 28));
    let cfg2 = BitConfig::new_checked(true, 1024, 16, 8, 4).unwrap();
    assert_eq!(cfg2.to_bits(), 1 | (7u32 << 8) | (3u32 << 12) | (1023u32 << 16) | (15u32 << 28));
}

#[test]
fn mailbox_config_bit_vectors() {
    let mut config = MailboxConfig::default();
    config.set_mailbox_receiver(0);
    // No interrupt is enabled and no mask is explicitly marked invalid.
    assert_eq!(config.mier(), 0);
    assert_eq!(config.mkivlr(), 0);
    config.enable_all_interrupts();
    assert_eq!(config.mier(), 0xFFFF_FFFF);
    assert_eq!(config.mkivlr(), 0);
}

#[test]
fn can_new_leaves_controller_halted_and_timed() {
    let (can, ic) = make_can();
    assert_eq!(can.regs.canm, 2);
    assert!(!can.regs.slpm);
    assert!(!can.regs.rstst);
    let cfg = BitConfig::new_checked(false, 3, 5, 2, 1).unwrap();
    assert_eq!(can.regs.bcr, cfg.to_bits());
    assert_eq!(can.regs.mier, 0);
    assert_eq!(can.regs.mkivlr, 0);
    for mb in can.regs.mailboxes.iter() {
        assert!(!mb.ctl.trmreq && !mb.ctl.recreq && !mb.ctl.newdata && !mb.ctl.sentdata);
        assert_eq!(mb.id, 0);
        assert_eq!(mb.dlc, 0);
    }
    assert_eq!(ic.slots[8].iels, CAN0_TX_EVENT);
    assert!(ic.slots[8].enabled);
}

#[test]
fn configure_mailboxes_sets_roles() {
    let (mut can, _ic) = make_can();
    can.regs.mailboxes[3].ctl.newdata = true;
    let mut config = MailboxConfig::default();
    config.set_mailbox_receiver(0);
    can.configure_mailboxes(config);
    assert_eq!(can.regs.canm, 2);
    // Mailbox 0: receive role, armed, filter identifier zero.
    assert!(can.regs.mailboxes[0].ctl.recreq);
    assert!(!can.regs.mailboxes[0].ctl.trmreq);
    assert_eq!(can.regs.mailboxes[0].id, 0);
    // All others: control register cleared.
    for mb in can.regs.mailboxes.iter().skip(1) {
        assert_eq!(
            mb.ctl,
            MailboxCtl { trmreq: false, recreq: false, newdata: false, sentdata: false }
        );
    }
    // All masks accept everything.
    for mkr in can.regs.mkr.iter() {
        assert_eq!(*mkr, 0);
    }
    assert_eq!(can.regs.mier, 0);
    assert_eq!(can.regs.mkivlr, 0);
}

#[test]
fn send_frame_fails_with_all_mailboxes_busy() {
    let (mut can, _ic) = make_can();
    for i in 0..32 {
        can.regs.mailboxes[i].ctl.trmreq = true;
    }
    let before = can.regs.mailboxes;
    let frame = Frame::new(CanId::Standard(0x10), &[0xAA]).unwrap();
    assert!(can.send_frame(frame).is_err());
    for i in 0..32 {
        assert!(mb_eq(&can.regs.mailboxes[i], &before[i]));
    }
    // Freeing any one mailbox makes the next send succeed there.
    can.regs.mailboxes[17].ctl.trmreq = false;
    assert!(can.send_frame(frame).is_ok());
    assert!(can.regs.mailboxes[17].ctl.trmreq);
    assert_eq!(can.regs.mailboxes[17].id, 0x10u32 << 18);
    assert_eq!(can.regs.mailboxes[17].dlc, 1);
    assert_eq!(can.regs.mailboxes[17].data[0], 0xAA);
}

#[test]
fn send_frame_takes_lowest_idle_mailbox() {
    let (mut can, _ic) = make_can();
    can.regs.mailboxes[0].ctl.trmreq = true;
    can.regs.mailboxes[1].ctl.recreq = true;
    can.regs.mailboxes[2].ctl.trmreq = true;
    let frame = Frame::new(CanId::Standard(0x44), &[1, 2, 3, 4]).unwrap();
    assert!(can.send_frame(frame).is_ok());
    assert!(can.regs.mailboxes[3].ctl.trmreq);
    assert_eq!(can.regs.mailboxes[3].id, 0x44u32 << 18);
    assert_eq!(can.regs.mailboxes[3].dlc, 4);
    assert_eq!(&can.regs.mailboxes[3].data[..4], &[1, 2, 3, 4]);
    assert!(!can.regs.mailboxes[4].ctl.trmreq);
}

#[test]
fn try_receive_returns_nothing_without_new_data() {
    let (mut can, _ic) = make_can();
    assert!(can.try_receive_frame().is_none());
}

#[test]
fn try_receive_takes_lowest_mailbox_with_new_data() {
    let (mut can, _ic) = make_can();
    can.regs.mailboxes[9].ctl.newdata = true;
    can.regs.mailboxes[9].id = 0x77u32 << 18;
    can.regs.mailboxes[9].dlc = 2;
    can.regs.mailboxes[9].data = [5, 6, 0, 0, 0, 0, 0, 0];
    can.regs.mailboxes[4].ctl.newdata = true;
    can.regs.mailboxes[4].id = 0x33u32 << 18;
    can.regs.mailboxes[4].dlc = 1;
    can.regs.mailboxes[4].data = [9, 0, 0, 0, 0, 0, 0, 0];
    let f = can.try_receive_frame().unwrap();
    assert_eq!(f.id(), CanId::Standard(0x33));
    assert_eq!(f.data(), vec![9]);
    // The drained mailbox is re-armed for reception.
    assert!(can.regs.mailboxes[4].ctl.recreq);
    assert!(!can.regs.mailboxes[4].ctl.newdata);
    let g = can.try_receive_frame().unwrap();
    assert_eq!(g.id(), CanId::Standard(0x77));
    assert_eq!(g.data(), vec![5, 6]);
    assert!(can.try_receive_frame().is_none());
}

#[test]
fn try_receive_skips_busy_transmit_mailbox() {
    let (mut can, _ic) = make_can();
    // New data on a mailbox still transmitting is not read back.
    can.regs.mailboxes[0].ctl.newdata = true;
    can.regs.mailboxes[0].ctl.trmreq = true;
    assert!(can.try_receive_frame().is_none());
}

#[test]
fn receive_round_trips_extended_identifier() {
    let (mut can, _ic) = make_can();
    let sent = Frame::new(CanId::Extended(0x1ABCDE), &[1, 2]).unwrap();
    assert!(can.send_frame(sent).is_ok());
    // Simulate the bus looping the frame back into another mailbox.
    can.regs.mailboxes[5] = MailboxRegs {
        ctl: MailboxCtl { trmreq: false, recreq: false, newdata: true, sentdata: false },
        id: can.regs.mailboxes[0].id,
        dlc: can.regs.mailboxes[0].dlc,
        data: can.regs.mailboxes[0].data,
    };
    let got = can.try_receive_frame().unwrap();
    assert_eq!(got.id(), CanId::Extended(0x1ABCDE));
    assert!(got.is_extended());
    assert_eq!(got.data(), vec![1, 2]);
}

#[test]
fn tx_interrupt_releases_completed_mailbox() {
    let (mut can, mut ic) = make_can();
    can.regs.msmr = 5;
    can.regs.mailboxes[2].ctl.sentdata = true;
    can.regs.mailboxes[6].ctl.sentdata = true;
    ic.slots[8].ir = true;
    can.on_tx_interrupt(&mut ic, 8);
    // The lowest completed mailbox is cleared; the other is untouched.
    assert_eq!(
        can.regs.mailboxes[2].ctl,
        MailboxCtl { trmreq: false, recreq: false, newdata: false, sentdata: false }
    );
    assert!(can.regs.mailboxes[6].ctl.sentdata);
    // The shared search register is restored and the pending flag cleared.
    assert_eq!(can.regs.msmr, 5);
    assert!(!ic.slots[8].ir);
}

#[test]
fn tx_interrupt_without_completion_changes_no_mailbox() {
    let (mut can, mut ic) = make_can();
    let before = can.regs.mailboxes;
    can.on_tx_interrupt(&mut ic, 8);
    for i in 0..32 {
        assert!(mb_eq(&can.regs.mailboxes[i], &before[i]));
    }
}

#[test]
fn test_modes_force_halt_and_persist() {
    let (mut can, _ic) = make_can();
    can.start();
    assert_eq!(can.regs.canm, 0);
    assert!(can.regs.tsrc);
    can.internal_self_test();
    assert_eq!(can.regs.canm, 2);
    assert!(can.regs.tste);
    assert_eq!(can.regs.tstm, 3);
    can.external_self_test();
    assert_eq!(can.regs.tstm, 2);
    can.listen_only_mode();
    assert_eq!(can.regs.tstm, 1);
    can.disable_test_mode();
    assert!(!can.regs.tste);
    assert_eq!(can.regs.tstm, 0);
    can.start();
    // The test-mode selection is orthogonal to the operating mode.
    assert_eq!(can.regs.canm, 0);
    assert!(!can.regs.tste);
}
