//! The CAN controller driver: operating-mode state machine, bit-timing
//! configuration, the 32-mailbox / 8-mask configuration, the per-mailbox
//! send/receive protocol and the transmit-complete handler.
//!
//! The controller registers the driver logic reads or writes are modelled
//! by [`CanRegs`]; the mode request is acknowledged at once, so the
//! reset-status flag mirrors it. Foreground operations and the handler are
//! methods on the same driver value; the layer that owns the memory-mapped
//! registers of a real part mirrors these fields onto them.

use vstd::prelude::*;

use crate::codec::encode_bits;
use crate::codec::CanId;
use crate::codec::Frame;
use crate::codec::MailboxId;
use crate::interrupts::clear_interrupt;
use crate::interrupts::BindingTable;
use crate::interrupts::HandlerKind;
use crate::interrupts::InterruptController;
use crate::interrupts::IntrSlot;
use crate::interrupts::map_and_enable_interrupt;

verus! {

/// Peripheral event number of the CAN transmit-complete event.
pub const CAN0_TX_EVENT: u8 = 0x4E;

/// Number of hardware mailboxes.
pub const MAILBOX_COUNT: usize = 32;

/// Number of acceptance masks; mask `i` applies to mailboxes `4i..4i+3`.
pub const MASK_COUNT: usize = 8;

/// Bit `i` of a 32-bit register value.
pub open spec fn bit32(x: u32, i: u32) -> bool {
    (x >> i) & 1 == 1
}

proof fn lemma_bit32_zero(j: u32)
    requires
        j < 32,
    ensures
        !bit32(0, j),
{
    assert((0u32 >> j) & 1 == 0) by (bit_vector);
}

proof fn lemma_bit32_or_set(x: u32, i: u32, j: u32)
    requires
        i < 32,
        j < 32,
    ensures
        bit32(x | (1u32 << i), i),
        i != j ==> bit32(x | (1u32 << i), j) == bit32(x, j),
{
    assert(((x | (1u32 << i)) >> i) & 1 == 1) by (bit_vector)
        requires
            i < 32,
    ;
    assert(i != j ==> ((x | (1u32 << i)) >> j) & 1 == (x >> j) & 1) by (bit_vector)
        requires
            i < 32 && j < 32,
    ;
}

/// Validated bit-timing configuration, stored as the hardware encodes it:
/// each duration one less than its count of time quanta, the prescaler one
/// less than its division ratio.
#[derive(Clone, Copy, Debug, PartialEq, Eq, Structural)]
pub struct BitConfig {
    cclks: bool,
    brp: u16,
    tseg1: u8,
    tseg2: u8,
    sjw: u8,
}

/// The bit-timing register value: CCLKS in bit 0, TSEG2 in bits 8..=10,
/// SJW in bits 12..=13, BRP in bits 16..=25, TSEG1 in bits 28..=31.
pub open spec fn spec_bcr_bits(c: BitConfig) -> u32 {
    (if c.spec_cclks() {
        1u32
    } else {
        0u32
    }) | ((c.spec_tseg2() as u32) << 8) | ((c.spec_sjw() as u32) << 12) | ((c.spec_brp() as u32)
        << 16) | ((c.spec_tseg1() as u32) << 28)
}

impl BitConfig {
    /// False when the clock source is the peripheral bus clock, true when
    /// it is the dedicated CAN clock.
    pub closed spec fn spec_cclks(self) -> bool {
        self.cclks
    }

    /// Stored prescaler: division ratio minus one.
    pub closed spec fn spec_brp(self) -> u16 {
        self.brp
    }

    /// Stored time segment 1: quanta minus one.
    pub closed spec fn spec_tseg1(self) -> u8 {
        self.tseg1
    }

    /// Stored time segment 2: quanta minus one.
    pub closed spec fn spec_tseg2(self) -> u8 {
        self.tseg2
    }

    /// Stored synchronization jump width: quanta minus one.
    pub closed spec fn spec_sjw(self) -> u8 {
        self.sjw
    }

    /// The stored fields fit their register bit widths.
    pub open spec fn wf(self) -> bool {
        self.spec_brp() <= 1023 && 3 <= self.spec_tseg1() <= 15 && 1 <= self.spec_tseg2() <= 7
            && self.spec_sjw() <= 3
    }

    /// Validate and convert a bit-timing configuration. `cclks` selects the
    /// clock source; `brp_scale` is the prescaler ratio (1..=1024);
    /// `tseg1_tq` (4..=16), `tseg2_tq` (2..=8) and `sjw_tq` (1..=4) are in
    /// time quanta. Out-of-range values are rejected with no effect.
    pub fn new_checked(cclks: bool, brp_scale: u16, tseg1_tq: u8, tseg2_tq: u8, sjw_tq: u8) -> (r:
        Option<BitConfig>)
        ensures
            (r is Some) == (1 <= brp_scale <= 1024 && 4 <= tseg1_tq <= 16 && 2 <= tseg2_tq <= 8
                && 1 <= sjw_tq <= 4),
            r matches Some(c) ==> (c.wf() && c.spec_cclks() == cclks && c.spec_brp() == brp_scale
                - 1 && c.spec_tseg1() == tseg1_tq - 1 && c.spec_tseg2() == tseg2_tq - 1
                && c.spec_sjw() == sjw_tq - 1),
    {
        if brp_scale > 1024 || brp_scale == 0 || tseg1_tq < 4 || tseg1_tq > 16 || tseg2_tq < 2
            || tseg2_tq > 8 || sjw_tq < 1 || sjw_tq > 4 {
            return None;
        }
        Some(
            BitConfig {
                cclks,
                brp: brp_scale - 1,
                tseg1: tseg1_tq - 1,
                tseg2: tseg2_tq - 1,
                sjw: sjw_tq - 1,
            },
        )
    }

    /// The bit-timing register value.
    pub fn to_bits(&self) -> (r: u32)
        ensures
            r == spec_bcr_bits(*self),
    {
        (if self.cclks {
            1u32
        } else {
            0u32
        }) | ((self.tseg2 as u32) << 8u32) | ((self.sjw as u32) << 12u32) | ((self.brp as u32)
            << 16u32) | ((self.tseg1 as u32) << 28u32)
    }
}

/// An acceptance mask: an identifier pattern shared by four consecutive
/// mailboxes.
#[derive(Clone, Copy, Debug, PartialEq, Eq, Structural)]
pub struct Mask {
    id: CanId,
}

/// The mask register value: the identifier's register encoding with the
/// format flag cleared, since masks carry no format flag.
pub open spec fn spec_mkr(m: Mask) -> u32 {
    encode_bits(m.spec_id()) & 0x7FFF_FFFF
}

impl Mask {
    pub closed spec fn spec_id(self) -> CanId {
        self.id
    }

    pub open spec fn wf(self) -> bool {
        self.spec_id().wf()
    }

    /// A mask that accepts every identifier: all pattern bits zero.
    pub fn accept_all() -> (r: Self)
        ensures
            r.wf(),
            r.spec_id() == CanId::Standard(0),
    {
        Mask { id: CanId::Standard(0) }
    }

    /// The mask register value.
    fn mkr(&self) -> (r: u32)
        requires
            self.wf(),
        ensures
            r == spec_mkr(*self),
    {
        MailboxId::from_can_id(self.id).with_ide_cleared().into_bits()
    }
}

/// Configuration of one transmit mailbox.
#[derive(Clone, Copy, Debug, PartialEq, Eq, Structural)]
pub struct MailboxTxConfig {
    /// Raise the transmit-complete interrupt for this mailbox.
    pub interrupt: bool,
    /// One-shot transmission; not supported yet, kept at its default.
    pub one_shot: bool,
}

/// Configuration of one receive mailbox.
#[derive(Clone, Copy, Debug, PartialEq, Eq, Structural)]
pub struct MailboxRxConfig {
    /// Raise the receive interrupt for this mailbox.
    pub interrupt: bool,
    /// One-shot reception; not supported yet, kept at its default.
    pub one_shot: bool,
    /// Whether the mailbox's shared mask applies; when it does not, an
    /// incoming identifier must match the filter identifier exactly.
    pub mask_valid: bool,
    /// The filter identifier.
    pub id: CanId,
}

/// The role of one mailbox.
#[derive(Clone, Copy, Debug, PartialEq, Eq, Structural)]
pub enum MailboxMode {
    Tx(MailboxTxConfig),
    Rx(MailboxRxConfig),
}

/// Whether the mailbox's interrupt is enabled.
pub open spec fn spec_mb_interrupt(m: MailboxMode) -> bool {
    match m {
        MailboxMode::Tx(c) => c.interrupt,
        MailboxMode::Rx(c) => c.interrupt,
    }
}

/// Whether the mailbox's mask is explicitly marked invalid.
pub open spec fn spec_mb_mask_invalid(m: MailboxMode) -> bool {
    match m {
        MailboxMode::Tx(_) => false,
        MailboxMode::Rx(c) => !c.mask_valid,
    }
}

/// The same role with its interrupt enabled.
pub open spec fn spec_mb_with_interrupt(m: MailboxMode) -> MailboxMode {
    match m {
        MailboxMode::Tx(c) => MailboxMode::Tx(MailboxTxConfig { interrupt: true, ..c }),
        MailboxMode::Rx(c) => MailboxMode::Rx(MailboxRxConfig { interrupt: true, ..c }),
    }
}

impl MailboxMode {
    pub fn interrupt(&self) -> (r: bool)
        ensures
            r == spec_mb_interrupt(*self),
    {
        match self {
            MailboxMode::Tx(c) => c.interrupt,
            MailboxMode::Rx(c) => c.interrupt,
        }
    }
}

/// Mailbox and masking configuration for the controller: 8 acceptance
/// masks and 32 mailbox roles. Mask `i` applies to mailboxes `4i..4i+3`.
/// Built by foreground code and consumed once by `configure_mailboxes`.
pub struct MailboxConfig {
    masks: [Mask; 8],
    mailboxes: [MailboxMode; 32],
}

impl MailboxConfig {
    pub closed spec fn spec_masks(&self) -> Seq<Mask> {
        self.masks@
    }

    pub closed spec fn spec_mailboxes(&self) -> Seq<MailboxMode> {
        self.mailboxes@
    }

    /// Every mask and every receive filter identifier is well-formed.
    pub open spec fn wf(&self) -> bool {
        &&& forall|i: int| 0 <= i < MASK_COUNT ==> (#[trigger] self.spec_masks()[i]).wf()
        &&& forall|i: int|
            0 <= i < MAILBOX_COUNT ==> (#[trigger] self.spec_mailboxes()[i] matches MailboxMode::Rx(
                c,
            ) ==> c.id.wf())
    }

    /// Give the mailbox at `index` the receive role, with its interrupt
    /// off, its mask applying and an all-zero filter identifier. An index
    /// past the last mailbox changes nothing.
    pub fn set_mailbox_receiver(&mut self, index: usize)
        ensures
            index < MAILBOX_COUNT ==> final(self).spec_mailboxes() == old(self).spec_mailboxes().update(index as int, MailboxMode::Rx(MailboxRxConfig {
                interrupt: false,
                one_shot: false,
                mask_valid: true,
                id: CanId::Standard(0),
            })),
            index >= MAILBOX_COUNT ==> final(self).spec_mailboxes() == old(self).spec_mailboxes(),
            final(self).spec_masks() == old(self).spec_masks(),
            old(self).wf() ==> final(self).wf(),
    {
        if index < MAILBOX_COUNT {
            self.mailboxes[index] = MailboxMode::Rx(
                MailboxRxConfig {
                    interrupt: false,
                    one_shot: false,
                    mask_valid: true,
                    id: CanId::Standard(0),
                },
            );
            proof {
                if old(self).wf() {
                    assert forall|i: int|
                        0 <= i < MAILBOX_COUNT implies (#[trigger] self.spec_mailboxes()[i] matches
                    MailboxMode::Rx(c) ==> c.id.wf()) by {
                        if i != index {
                            assert(self.spec_mailboxes()[i] == old(self).spec_mailboxes()[i]);
                        }
                    }
                }
            }
        }
    }

    /// Enable the interrupt of every mailbox, leaving everything else of
    /// each role as it was.
    pub fn enable_all_interrupts(&mut self)
        ensures
            final(self).spec_mailboxes().len() == old(self).spec_mailboxes().len(),
            forall|i: int|
                0 <= i < MAILBOX_COUNT ==> final(self).spec_mailboxes()[i]
                    == spec_mb_with_interrupt(old(self).spec_mailboxes()[i]),
            final(self).spec_masks() == old(self).spec_masks(),
            old(self).wf() ==> final(self).wf(),
    {
        let mut i: usize = 0;
        while i < MAILBOX_COUNT
            invariant
                i <= MAILBOX_COUNT,
                self.mailboxes@.len() == 32,
                forall|j: int|
                    0 <= j < i ==> self.mailboxes@[j] == spec_mb_with_interrupt(
                        old(self).mailboxes@[j],
                    ),
                forall|j: int| i <= j < MAILBOX_COUNT ==> self.mailboxes@[j] == old(self).mailboxes@[j],
                self.masks@ == old(self).masks@,
            decreases MAILBOX_COUNT - i,
        {
            let updated = match self.mailboxes[i] {
                MailboxMode::Tx(c) => MailboxMode::Tx(
                    MailboxTxConfig { interrupt: true, one_shot: c.one_shot },
                ),
                MailboxMode::Rx(c) => MailboxMode::Rx(
                    MailboxRxConfig {
                        interrupt: true,
                        one_shot: c.one_shot,
                        mask_valid: c.mask_valid,
                        id: c.id,
                    },
                ),
            };
            self.mailboxes[i] = updated;
            i += 1;
        }
        proof {
            if old(self).wf() {
                assert forall|i: int|
                    0 <= i < MAILBOX_COUNT implies (#[trigger] self.spec_mailboxes()[i] matches
                MailboxMode::Rx(c) ==> c.id.wf()) by {
                    assert(self.spec_mailboxes()[i] == spec_mb_with_interrupt(
                        old(self).spec_mailboxes()[i],
                    ));
                    assert(old(self).spec_mailboxes()[i] matches MailboxMode::Rx(c0) ==> c0.id.wf());
                }
            }
        }
    }

    /// The mailbox interrupt-enable register value: bit `i` is set exactly
    /// when mailbox `i`'s interrupt flag is enabled.
    pub fn mier(&self) -> (r: u32)
        ensures
            forall|i: u32| i < 32 ==> bit32(r, i) == spec_mb_interrupt(self.spec_mailboxes()[i as int]),
    {
        let mut r: u32 = 0;
        let mut i: usize = 0;
        proof {
            assert forall|j: u32| j < 32 implies !bit32(0u32, j) by {
                lemma_bit32_zero(j);
            }
        }
        while i < MAILBOX_COUNT
            invariant
                i <= MAILBOX_COUNT,
                forall|j: u32|
                    j < i ==> bit32(r, j) == spec_mb_interrupt(self.spec_mailboxes()[j as int]),
                forall|j: u32| i <= j < 32 ==> !bit32(r, j),
            decreases MAILBOX_COUNT - i,
        {
            if self.mailboxes[i].interrupt() {
                let prev = r;
                r = r | (1u32 << (i as u32));
                proof {
                    assert forall|j: u32| j < 32 implies (j == i as u32 ==> bit32(r, j)) && (j != i
                        as u32 ==> bit32(r, j) == bit32(prev, j)) by {
                        lemma_bit32_or_set(prev, i as u32, j);
                    }
                }
            }
            i += 1;
        }
        r
    }

    /// The mask-invalid register value: bit `i` is set exactly when mailbox
    /// `i` has the receive role and its mask is explicitly marked invalid.
    pub fn mkivlr(&self) -> (r: u32)
        ensures
            forall|i: u32|
                i < 32 ==> bit32(r, i) == spec_mb_mask_invalid(self.spec_mailboxes()[i as int]),
    {
        let mut r: u32 = 0;
        let mut i: usize = 0;
        proof {
            assert forall|j: u32| j < 32 implies !bit32(0u32, j) by {
                lemma_bit32_zero(j);
            }
        }
        while i < MAILBOX_COUNT
            invariant
                i <= MAILBOX_COUNT,
                forall|j: u32|
                    j < i ==> bit32(r, j) == spec_mb_mask_invalid(self.spec_mailboxes()[j as int]),
                forall|j: u32| i <= j < 32 ==> !bit32(r, j),
            decreases MAILBOX_COUNT - i,
        {
            let set_bit = match self.mailboxes[i] {
                MailboxMode::Tx(_) => false,
                MailboxMode::Rx(c) => !c.mask_valid,
            };
            if set_bit {
                let prev = r;
                r = r | (1u32 << (i as u32));
                proof {
                    assert forall|j: u32| j < 32 implies (j == i as u32 ==> bit32(r, j)) && (j != i
                        as u32 ==> bit32(r, j) == bit32(prev, j)) by {
                        lemma_bit32_or_set(prev, i as u32, j);
                    }
                }
            }
            i += 1;
        }
        r
    }
}

impl Default for MailboxConfig {
    /// All masks accept everything and every mailbox has the transmit role
    /// with its interrupt off.
    fn default() -> (r: Self)
        ensures
            r.wf(),
            r.spec_masks().len() == MASK_COUNT,
            forall|i: int| 0 <= i < MASK_COUNT ==> #[trigger] r.spec_masks()[i].spec_id()
                == CanId::Standard(0),
            r.spec_mailboxes().len() == MAILBOX_COUNT,
            forall|i: int| 0 <= i < MAILBOX_COUNT ==> #[trigger] r.spec_mailboxes()[i]
                == MailboxMode::Tx(MailboxTxConfig { interrupt: false, one_shot: false }),
    {
        MailboxConfig {
            masks: [Mask::accept_all(); 8],
            mailboxes: [MailboxMode::Tx(MailboxTxConfig { interrupt: false, one_shot: false }); 32],
        }
    }
}

/// The operating modes of the controller. Bus-off is entered by the
/// hardware alone, never requested by software.
#[derive(Clone, Copy, Debug, PartialEq, Eq, Structural)]
pub enum CanMode {
    Sleep,
    Reset,
    Halt,
    Operation,
    BusOff,
}

/// Control bits of one mailbox.
#[derive(Clone, Copy, Debug, PartialEq, Eq, Structural)]
pub struct MailboxCtl {
    /// Transmission requested and not yet completed: the mailbox is busy
    /// sending.
    pub trmreq: bool,
    /// Reception armed: the mailbox is reserved for incoming frames.
    pub recreq: bool,
    /// An unread received frame is waiting.
    pub newdata: bool,
    /// A transmission from this mailbox just completed.
    pub sentdata: bool,
}

/// All four control bits clear.
pub open spec fn spec_ctl_clear() -> MailboxCtl {
    MailboxCtl { trmreq: false, recreq: false, newdata: false, sentdata: false }
}

/// One mailbox's registers: control bits, identifier word, data length
/// code and eight data bytes. The timestamp word is read but never
/// surfaced, and is not modelled.
#[derive(Clone, Copy, Debug)]
pub struct MailboxRegs {
    pub ctl: MailboxCtl,
    pub id: u32,
    pub dlc: u8,
    pub data: [u8; 8],
}

/// A mailbox free to accept a frame for transmission: neither request bit
/// set.
pub open spec fn spec_mb_idle(mb: MailboxRegs) -> bool {
    !mb.ctl.trmreq && !mb.ctl.recreq
}

/// A mailbox holding an unread received frame.
pub open spec fn spec_mb_has_data(mb: MailboxRegs) -> bool {
    mb.ctl.newdata && !mb.ctl.trmreq
}

/// A mailbox with everything zeroed.
pub open spec fn spec_mb_zero(mb: MailboxRegs) -> bool {
    mb.ctl == spec_ctl_clear() && mb.id == 0 && mb.dlc == 0 && forall|j: int|
        0 <= j < 8 ==> mb.data@[j] == 0
}

/// Model of the CAN controller registers the driver logic touches.
pub struct CanRegs {
    /// Sleep-mode request bit of the control register.
    pub slpm: bool,
    /// Operating-mode request bits of the control register: 0 operation,
    /// 1 reset, 2 halt.
    pub canm: u8,
    /// Identifier-format mode bits of the control register; 2 is the mixed
    /// (standard and extended) mode.
    pub idfm: u8,
    /// Timer-reset trigger bit: records that the free-running timer was
    /// told to restart.
    pub tsrc: bool,
    /// Reset-complete status flag. A mode request is acknowledged at once
    /// in this model, so the flag mirrors the request.
    pub rstst: bool,
    /// Test-mode enable bit of the test control register.
    pub tste: bool,
    /// Test-mode select bits: 0 none, 1 listen-only, 2 external loopback,
    /// 3 internal loopback.
    pub tstm: u8,
    /// The bit-timing register.
    pub bcr: u32,
    /// The eight acceptance-mask registers.
    pub mkr: [u32; 8],
    /// The mailbox interrupt-enable bit-vector.
    pub mier: u32,
    /// The mask-validity bit-vector; a set bit marks the mask invalid.
    pub mkivlr: u32,
    /// The mailbox search-mode register, shared and non-reentrant; 1 is
    /// the transmit-search sub-mode.
    pub msmr: u8,
    /// The 32 mailboxes.
    pub mailboxes: [MailboxRegs; 32],
}

impl CanRegs {
    /// Every data length code fits the eight data bytes a mailbox holds.
    pub open spec fn wf(&self) -> bool {
        forall|i: int| 0 <= i < MAILBOX_COUNT ==> (#[trigger] self.mailboxes@[i]).dlc <= 8
    }

    /// The registers written only at configuration time.
    pub open spec fn spec_config_regs(&self) -> (u32, Seq<u32>, u32, u32, u8) {
        (self.bcr, self.mkr@, self.mier, self.mkivlr, self.idfm)
    }

    /// The mode request bits and the reset status.
    pub open spec fn spec_mode_bits(&self) -> (bool, u8, bool) {
        (self.slpm, self.canm, self.rstst)
    }

    /// The test-mode register bits.
    pub open spec fn spec_test_bits(&self) -> (bool, u8) {
        (self.tste, self.tstm)
    }
}

/// The receive filter word written to a receive mailbox: the identifier's
/// register encoding, with the extended-format flag kept only in the mixed
/// identifier-format mode.
pub open spec fn spec_rx_filter_bits(id: CanId, idfm: u8) -> u32 {
    if idfm == 2 {
        encode_bits(id)
    } else {
        encode_bits(id) & 0x7FFF_FFFF
    }
}

/// What configuration leaves in one mailbox: the control register cleared;
/// a receive mailbox additionally re-armed with its filter identifier
/// written. Data bytes and length code are untouched.
pub open spec fn spec_mb_configured(mb: MailboxRegs, mode: MailboxMode, idfm: u8) -> MailboxRegs {
    match mode {
        MailboxMode::Tx(_) => MailboxRegs { ctl: spec_ctl_clear(), id: mb.id, dlc: mb.dlc, data: mb.data },
        MailboxMode::Rx(c) => MailboxRegs {
            ctl: MailboxCtl { trmreq: false, recreq: true, newdata: false, sentdata: false },
            id: spec_rx_filter_bits(c.id, idfm),
            dlc: mb.dlc,
            data: mb.data,
        },
    }
}

/// The CAN controller driver, owning the modelled register block.
pub struct Can {
    pub regs: CanRegs,
}

impl Can {
    pub open spec fn wf(&self) -> bool {
        self.regs.wf()
    }

    /// Construct the driver: map the transmit-complete event onto the
    /// bound vector and unmask it, then perform the mandatory sequence on
    /// a controller fresh out of reset: request reset mode, poll the
    /// reset-status flag, write the bit-timing register, and leave the
    /// controller halted, awaiting mailbox configuration.
    ///
    /// The pin and clock-gate setup of a physical part is the owning
    /// layer's step.
    pub fn new(
        bit_config: BitConfig,
        bindings: &BindingTable,
        ic: &mut InterruptController,
        tx_vector: u8,
    ) -> (r: Can)
        requires
            bindings.spec_binds(tx_vector, HandlerKind::CanTx),
            (tx_vector as int) < old(ic).spec_len(),
        ensures
            r.wf(),
            !r.regs.slpm && r.regs.canm == 2 && !r.regs.rstst,
            r.regs.bcr == spec_bcr_bits(bit_config),
            r.regs.mier == 0 && r.regs.mkivlr == 0,
            forall|i: int| 0 <= i < MASK_COUNT ==> r.regs.mkr@[i] == 0,
            forall|i: int| 0 <= i < MAILBOX_COUNT ==> spec_mb_zero(#[trigger] r.regs.mailboxes@[i]),
            r.regs.idfm == 0 && !r.regs.tste && r.regs.tstm == 0 && r.regs.msmr == 0
                && !r.regs.tsrc,
            final(ic).slots@ == old(ic).slots@.update(tx_vector as int, (IntrSlot {
                enabled: true,
                pended: old(ic).slots@[tx_vector as int].pended,
                ir: old(ic).slots@[tx_vector as int].ir,
                iels: CAN0_TX_EVENT,
            })),
    {
        map_and_enable_interrupt(ic, tx_vector, CAN0_TX_EVENT);
        let zero_mb = MailboxRegs {
            ctl: MailboxCtl { trmreq: false, recreq: false, newdata: false, sentdata: false },
            id: 0,
            dlc: 0,
            data: [0u8; 8],
        };
        let mut can = Can {
            regs: CanRegs {
                // a controller fresh out of reset starts in sleep mode
                slpm: true,
                canm: 0,
                idfm: 0,
                tsrc: false,
                rstst: false,
                tste: false,
                tstm: 0,
                bcr: 0,
                mkr: [0u32; 8],
                mier: 0,
                mkivlr: 0,
                msmr: 0,
                mailboxes: [zero_mb; 32],
            },
        };
        can.go_to_mode(CanMode::Reset);
        // Wait for the reset-status flag before touching configuration
        // registers; the model acknowledges the request at once.
        while !can.regs.rstst
            invariant
                can.regs.rstst,
            decreases 0nat,
        {
        }
        can.regs.bcr = bit_config.to_bits();
        can.go_to_mode(CanMode::Halt);
        can
    }

    /// Write the mode request bits; the reset-status flag follows them.
    /// The current mode is not checked. A bus-off request writes nothing:
    /// that state is entered by hardware alone.
    fn go_to_mode(&mut self, mode: CanMode)
        ensures
            final(self).regs.spec_config_regs() == old(self).regs.spec_config_regs(),
            final(self).regs.spec_test_bits() == old(self).regs.spec_test_bits(),
            final(self).regs.mailboxes@ == old(self).regs.mailboxes@,
            final(self).regs.msmr == old(self).regs.msmr,
            final(self).regs.tsrc == old(self).regs.tsrc,
            mode == CanMode::Sleep ==> (final(self).regs.slpm && final(self).regs.canm == old(self).regs.canm),
            mode == CanMode::Reset ==> (!final(self).regs.slpm && final(self).regs.canm == 1),
            mode == CanMode::Halt ==> (!final(self).regs.slpm && final(self).regs.canm == 2),
            mode == CanMode::Operation ==> (!final(self).regs.slpm && final(self).regs.canm == 0),
            mode == CanMode::BusOff ==> (final(self).regs.slpm == old(self).regs.slpm && final(self).regs.canm == old(self).regs.canm),
            final(self).regs.rstst == (final(self).regs.canm == 1 && !final(self).regs.slpm),
            old(self).wf() ==> final(self).wf(),
    {
        match mode {
            CanMode::Sleep => {
                self.regs.slpm = true;
            },
            CanMode::Reset => {
                self.regs.slpm = false;
                self.regs.canm = 1;
            },
            CanMode::Halt => {
                self.regs.slpm = false;
                self.regs.canm = 2;
            },
            CanMode::Operation => {
                self.regs.slpm = false;
                self.regs.canm = 0;
            },
            CanMode::BusOff => {},
        }
        self.regs.rstst = self.regs.canm == 1 && !self.regs.slpm;
    }

    /// Clear the extended-format flag of a filter identifier word unless
    /// the controller is in the mixed identifier-format mode.
    fn configure_ide_bit(&self, id: &mut MailboxId)
        ensures
            final(id).spec_bits() == (if self.regs.idfm == 2 {
                old(id).spec_bits()
            } else {
                old(id).spec_bits() & 0x7FFF_FFFF
            }),
    {
        if self.regs.idfm != 2 {
            *id = id.with_ide_cleared();
        }
    }

    /// Force halt mode (required by the hardware for mask and mailbox
    /// edits), write the eight mask registers, the interrupt-enable and
    /// mask-validity bit-vectors, then set up every mailbox: control
    /// register cleared (written twice, since some control bits cannot be
    /// cleared in the same write as others), and a receive mailbox
    /// re-armed with its filter identifier written, the identifier's
    /// extended-format flag kept only in the mixed identifier-format mode.
    pub fn configure_mailboxes(&mut self, config: MailboxConfig)
        requires
            old(self).wf(),
            config.wf(),
        ensures
            final(self).wf(),
            !final(self).regs.slpm && final(self).regs.canm == 2 && !final(self).regs.rstst,
            final(self).regs.bcr == old(self).regs.bcr,
            final(self).regs.idfm == old(self).regs.idfm,
            forall|i: int|
                0 <= i < MASK_COUNT ==> final(self).regs.mkr@[i] == spec_mkr(
                    config.spec_masks()[i],
                ),
            forall|i: u32|
                i < 32 ==> bit32(final(self).regs.mier, i) == spec_mb_interrupt(
                    config.spec_mailboxes()[i as int],
                ),
            forall|i: u32|
                i < 32 ==> bit32(final(self).regs.mkivlr, i) == spec_mb_mask_invalid(
                    config.spec_mailboxes()[i as int],
                ),
            forall|i: int|
                0 <= i < MAILBOX_COUNT ==> final(self).regs.mailboxes@[i] == spec_mb_configured(
                    old(self).regs.mailboxes@[i],
                    config.spec_mailboxes()[i],
                    old(self).regs.idfm,
                ),
            final(self).regs.spec_test_bits() == old(self).regs.spec_test_bits(),
            final(self).regs.msmr == old(self).regs.msmr,
            final(self).regs.tsrc == old(self).regs.tsrc,
    {
        self.go_to_mode(CanMode::Halt);
        let mut i: usize = 0;
        while i < MASK_COUNT
            invariant
                i <= MASK_COUNT,
                config.wf(),
                forall|j: int| 0 <= j < i ==> self.regs.mkr@[j] == spec_mkr(config.spec_masks()[j]),
                forall|j: int| i <= j < MASK_COUNT ==> self.regs.mkr@[j] == old(self).regs.mkr@[j],
                self.regs.mkr@.len() == 8,
                self.regs.mailboxes@ == old(self).regs.mailboxes@,
                self.regs.bcr == old(self).regs.bcr,
                self.regs.idfm == old(self).regs.idfm,
                self.regs.mier == old(self).regs.mier,
                self.regs.mkivlr == old(self).regs.mkivlr,
                self.regs.spec_test_bits() == old(self).regs.spec_test_bits(),
                self.regs.msmr == old(self).regs.msmr,
                self.regs.tsrc == old(self).regs.tsrc,
                !self.regs.slpm && self.regs.canm == 2 && !self.regs.rstst,
            decreases MASK_COUNT - i,
        {
            proof {
                assert(config.spec_masks()[i as int].wf());
            }
            self.regs.mkr[i] = config.masks[i].mkr();
            i += 1;
        }
        self.regs.mier = config.mier();
        self.regs.mkivlr = config.mkivlr();
        let mut m: usize = 0;
        while m < MAILBOX_COUNT
            invariant
                m <= MAILBOX_COUNT,
                config.wf(),
                forall|j: int|
                    0 <= j < m ==> self.regs.mailboxes@[j] == spec_mb_configured(
                        old(self).regs.mailboxes@[j],
                        config.spec_mailboxes()[j],
                        old(self).regs.idfm,
                    ),
                forall|j: int|
                    m <= j < MAILBOX_COUNT ==> self.regs.mailboxes@[j] == old(self).regs.mailboxes@[j],
                self.regs.mailboxes@.len() == 32,
                forall|j: int| 0 <= j < MASK_COUNT ==> self.regs.mkr@[j] == spec_mkr(config.spec_masks()[j]),
                forall|j: u32|
                    j < 32 ==> bit32(self.regs.mier, j) == spec_mb_interrupt(
                        config.spec_mailboxes()[j as int],
                    ),
                forall|j: u32|
                    j < 32 ==> bit32(self.regs.mkivlr, j) == spec_mb_mask_invalid(
                        config.spec_mailboxes()[j as int],
                    ),
                self.regs.bcr == old(self).regs.bcr,
                self.regs.idfm == old(self).regs.idfm,
                self.regs.spec_test_bits() == old(self).regs.spec_test_bits(),
                self.regs.msmr == old(self).regs.msmr,
                self.regs.tsrc == old(self).regs.tsrc,
                !self.regs.slpm && self.regs.canm == 2 && !self.regs.rstst,
            decreases MAILBOX_COUNT - m,
        {
            let mut mb = self.regs.mailboxes[m];
            // Clear the control register; written twice because some
            // control bits cannot be cleared in the same write as others.
            mb.ctl = MailboxCtl { trmreq: false, recreq: false, newdata: false, sentdata: false };
            mb.ctl = MailboxCtl { trmreq: false, recreq: false, newdata: false, sentdata: false };
            match config.mailboxes[m] {
                MailboxMode::Tx(_) => {
                    // Left cleared; one-shot mode is not supported yet.
                },
                MailboxMode::Rx(c) => {
                    mb.ctl = MailboxCtl {
                        trmreq: false,
                        recreq: true,
                        newdata: false,
                        sentdata: false,
                    };
                    proof {
                        assert(config.spec_mailboxes()[m as int] matches MailboxMode::Rx(rc)
                            && rc.id.wf());
                    }
                    let mut fid = MailboxId::from_can_id(c.id);
                    self.configure_ide_bit(&mut fid);
                    mb.id = fid.into_bits();
                },
            }
            self.regs.mailboxes[m] = mb;
            m += 1;
        }
    }

    /// Force halt mode and select the internal-loopback self-test.
    pub fn internal_self_test(&mut self)
        requires
            old(self).wf(),
        ensures
            final(self).wf(),
            !final(self).regs.slpm && final(self).regs.canm == 2 && !final(self).regs.rstst,
            final(self).regs.tste && final(self).regs.tstm == 3,
            final(self).regs.spec_config_regs() == old(self).regs.spec_config_regs(),
            final(self).regs.mailboxes@ == old(self).regs.mailboxes@,
            final(self).regs.msmr == old(self).regs.msmr,
            final(self).regs.tsrc == old(self).regs.tsrc,
    {
        self.go_to_mode(CanMode::Halt);
        self.regs.tste = true;
        self.regs.tstm = 3;
    }

    /// Force halt mode and select the external-loopback self-test.
    pub fn external_self_test(&mut self)
        requires
            old(self).wf(),
        ensures
            final(self).wf(),
            !final(self).regs.slpm && final(self).regs.canm == 2 && !final(self).regs.rstst,
            final(self).regs.tste && final(self).regs.tstm == 2,
            final(self).regs.spec_config_regs() == old(self).regs.spec_config_regs(),
            final(self).regs.mailboxes@ == old(self).regs.mailboxes@,
            final(self).regs.msmr == old(self).regs.msmr,
            final(self).regs.tsrc == old(self).regs.tsrc,
    {
        self.go_to_mode(CanMode::Halt);
        self.regs.tste = true;
        self.regs.tstm = 2;
    }

    /// Force halt mode and select the listen-only test mode.
    pub fn listen_only_mode(&mut self)
        requires
            old(self).wf(),
        ensures
            final(self).wf(),
            !final(self).regs.slpm && final(self).regs.canm == 2 && !final(self).regs.rstst,
            final(self).regs.tste && final(self).regs.tstm == 1,
            final(self).regs.spec_config_regs() == old(self).regs.spec_config_regs(),
            final(self).regs.mailboxes@ == old(self).regs.mailboxes@,
            final(self).regs.msmr == old(self).regs.msmr,
            final(self).regs.tsrc == old(self).regs.tsrc,
    {
        self.go_to_mode(CanMode::Halt);
        self.regs.tste = true;
        self.regs.tstm = 1;
    }

    /// Force halt mode and leave every test mode.
    pub fn disable_test_mode(&mut self)
        requires
            old(self).wf(),
        ensures
            final(self).wf(),
            !final(self).regs.slpm && final(self).regs.canm == 2 && !final(self).regs.rstst,
            !final(self).regs.tste && final(self).regs.tstm == 0,
            final(self).regs.spec_config_regs() == old(self).regs.spec_config_regs(),
            final(self).regs.mailboxes@ == old(self).regs.mailboxes@,
            final(self).regs.msmr == old(self).regs.msmr,
            final(self).regs.tsrc == old(self).regs.tsrc,
    {
        self.go_to_mode(CanMode::Halt);
        self.regs.tste = false;
        self.regs.tstm = 0;
    }

    /// Enter operation mode and restart the free-running timer.
    pub fn start(&mut self)
        requires
            old(self).wf(),
        ensures
            final(self).wf(),
            !final(self).regs.slpm && final(self).regs.canm == 0 && !final(self).regs.rstst,
            final(self).regs.tsrc,
            final(self).regs.spec_config_regs() == old(self).regs.spec_config_regs(),
            final(self).regs.spec_test_bits() == old(self).regs.spec_test_bits(),
            final(self).regs.mailboxes@ == old(self).regs.mailboxes@,
            final(self).regs.msmr == old(self).regs.msmr,
    {
        self.go_to_mode(CanMode::Operation);
        self.regs.tsrc = true;
    }

    /// Scan the mailboxes in ascending order for the first free one and
    /// load the frame into it: identifier word, length code and payload
    /// bytes written, then transmission requested. Fails, changing
    /// nothing, when every mailbox is busy; the caller decides whether to
    /// retry.
    pub fn send_frame(&mut self, frame: Frame) -> (r: Result<(), ()>)
        requires
            old(self).wf(),
            frame.wf(),
        ensures
            final(self).wf(),
            (r is Ok) == exists|i: int|
                0 <= i < MAILBOX_COUNT && spec_mb_idle(#[trigger] old(self).regs.mailboxes@[i]),
            r is Err ==> final(self).regs == old(self).regs,
            r is Ok ==> exists|i: int|
                {
                    &&& 0 <= i < MAILBOX_COUNT
                    &&& spec_mb_idle(#[trigger] old(self).regs.mailboxes@[i])
                    &&& forall|j: int| 0 <= j < i ==> !spec_mb_idle(old(self).regs.mailboxes@[j])
                    &&& forall|j: int|
                        0 <= j < MAILBOX_COUNT && j != i ==> final(self).regs.mailboxes@[j] == old(self).regs.mailboxes@[j]
                    &&& final(self).regs.mailboxes@[i].ctl == (MailboxCtl {
                        trmreq: true,
                        recreq: false,
                        newdata: false,
                        sentdata: false,
                    })
                    &&& final(self).regs.mailboxes@[i].id == frame.spec_id().spec_bits()
                    &&& final(self).regs.mailboxes@[i].dlc == frame.spec_dlc()
                    &&& final(self).regs.mailboxes@[i].data@.take(frame.spec_dlc() as int)
                        == frame.spec_data()
                    &&& final(self).regs.mailboxes@[i].data@.skip(frame.spec_dlc() as int) == old(self).regs.mailboxes@[i].data@.skip(frame.spec_dlc() as int)
                },
            final(self).regs.spec_config_regs() == old(self).regs.spec_config_regs(),
            final(self).regs.spec_mode_bits() == old(self).regs.spec_mode_bits(),
            final(self).regs.spec_test_bits() == old(self).regs.spec_test_bits(),
            final(self).regs.msmr == old(self).regs.msmr,
            final(self).regs.tsrc == old(self).regs.tsrc,
    {
        let mut i: usize = 0;
        while i < MAILBOX_COUNT
            invariant
                i <= MAILBOX_COUNT,
                old(self).wf(),
                frame.wf(),
                self.regs == old(self).regs,
                forall|j: int| 0 <= j < i ==> !spec_mb_idle(old(self).regs.mailboxes@[j]),
            decreases MAILBOX_COUNT - i,
        {
            let ctl = self.regs.mailboxes[i].ctl;
            if !ctl.trmreq && !ctl.recreq {
                let dlc = frame.dlc();
                let mut data = self.regs.mailboxes[i].data;
                let mut j: usize = 0;
                while j < dlc
                    invariant
                        j <= dlc,
                        dlc == frame.spec_dlc() as int,
                        frame.wf(),
                        i < MAILBOX_COUNT,
                        self.regs == old(self).regs,
                        forall|k: int| 0 <= k < j ==> data@[k] == frame.spec_data()[k],
                        forall|k: int|
                            j <= k < 8 ==> data@[k] == old(self).regs.mailboxes@[i as int].data@[k],
                    decreases dlc - j,
                {
                    data[j] = frame.data_byte(j);
                    j += 1;
                }
                let loaded = MailboxRegs {
                    ctl: MailboxCtl {
                        trmreq: true,
                        recreq: false,
                        newdata: false,
                        sentdata: false,
                    },
                    id: frame.mailbox_id().into_bits(),
                    dlc: dlc as u8,
                    data,
                };
                self.regs.mailboxes[i] = loaded;
                proof {
                    assert(self.regs.mailboxes@[i as int].data@.take(frame.spec_dlc() as int)
                        =~= frame.spec_data());
                    assert(self.regs.mailboxes@[i as int].data@.skip(frame.spec_dlc() as int)
                        =~= old(self).regs.mailboxes@[i as int].data@.skip(
                        frame.spec_dlc() as int,
                    ));
                }
                return Ok(());
            }
            i += 1;
        }
        Err(())
    }

    /// Scan the mailboxes in ascending order for the first holding an
    /// unread frame; clear its control register, read the frame back,
    /// re-arm the mailbox for reception and return the frame. Returns
    /// nothing, changing nothing, when no mailbox holds unread data; never
    /// blocks.
    pub fn try_receive_frame(&mut self) -> (r: Option<Frame>)
        requires
            old(self).wf(),
        ensures
            final(self).wf(),
            (r is Some) == exists|i: int|
                0 <= i < MAILBOX_COUNT && spec_mb_has_data(#[trigger] old(self).regs.mailboxes@[i]),
            r is None ==> final(self).regs == old(self).regs,
            r matches Some(f) ==> exists|i: int|
                {
                    &&& 0 <= i < MAILBOX_COUNT
                    &&& spec_mb_has_data(#[trigger] old(self).regs.mailboxes@[i])
                    &&& forall|j: int|
                        0 <= j < i ==> !spec_mb_has_data(old(self).regs.mailboxes@[j])
                    &&& f.wf()
                    &&& f.spec_id().spec_bits() == old(self).regs.mailboxes@[i].id
                    &&& f.spec_dlc() == old(self).regs.mailboxes@[i].dlc
                    &&& f.spec_data() == old(self).regs.mailboxes@[i].data@.take(
                        old(self).regs.mailboxes@[i].dlc as int,
                    )
                    &&& forall|j: int|
                        0 <= j < MAILBOX_COUNT && j != i ==> final(self).regs.mailboxes@[j] == old(self).regs.mailboxes@[j]
                    &&& final(self).regs.mailboxes@[i].ctl == (MailboxCtl {
                        trmreq: false,
                        recreq: true,
                        newdata: false,
                        sentdata: false,
                    })
                    &&& final(self).regs.mailboxes@[i].id == old(self).regs.mailboxes@[i].id
                    &&& final(self).regs.mailboxes@[i].dlc == old(self).regs.mailboxes@[i].dlc
                    &&& final(self).regs.mailboxes@[i].data == old(self).regs.mailboxes@[i].data
                },
            final(self).regs.spec_config_regs() == old(self).regs.spec_config_regs(),
            final(self).regs.spec_mode_bits() == old(self).regs.spec_mode_bits(),
            final(self).regs.spec_test_bits() == old(self).regs.spec_test_bits(),
            final(self).regs.msmr == old(self).regs.msmr,
            final(self).regs.tsrc == old(self).regs.tsrc,
    {
        let mut i: usize = 0;
        while i < MAILBOX_COUNT
            invariant
                i <= MAILBOX_COUNT,
                old(self).wf(),
                self.regs == old(self).regs,
                forall|j: int| 0 <= j < i ==> !spec_mb_has_data(old(self).regs.mailboxes@[j]),
            decreases MAILBOX_COUNT - i,
        {
            let ctl = self.regs.mailboxes[i].ctl;
            if ctl.newdata && !ctl.trmreq {
                let mut mb = self.regs.mailboxes[i];
                // Clear the control register first, as the hardware
                // protocol demands before the registers are read back.
                mb.ctl = MailboxCtl {
                    trmreq: false,
                    recreq: false,
                    newdata: false,
                    sentdata: false,
                };
                let frame = Frame::from_parts(MailboxId::from_bits(mb.id), mb.dlc, mb.data);
                // Back to the armed state.
                mb.ctl = MailboxCtl {
                    trmreq: false,
                    recreq: true,
                    newdata: false,
                    sentdata: false,
                };
                self.regs.mailboxes[i] = mb;
                return Some(frame);
            }
            i += 1;
        }
        None
    }

    /// The mailbox search result register: in the transmit-search
    /// sub-mode, the lowest mailbox whose transmission just completed, or
    /// 0x80 (search result invalid) when none has.
    fn read_mssr(&self) -> (r: u8)
        requires
            self.regs.msmr == 1,
        ensures
            (exists|i: int|
                0 <= i < MAILBOX_COUNT && (#[trigger] self.regs.mailboxes@[i]).ctl.sentdata) ==> (r
                < 32 && self.regs.mailboxes@[r as int].ctl.sentdata && forall|j: int|
                0 <= j < r ==> !self.regs.mailboxes@[j].ctl.sentdata),
            !(exists|i: int|
                0 <= i < MAILBOX_COUNT && (#[trigger] self.regs.mailboxes@[i]).ctl.sentdata) ==> r
                == 0x80,
    {
        let mut i: usize = 0;
        while i < MAILBOX_COUNT
            invariant
                i <= MAILBOX_COUNT,
                forall|j: int| 0 <= j < i ==> !self.regs.mailboxes@[j].ctl.sentdata,
            decreases MAILBOX_COUNT - i,
        {
            if self.regs.mailboxes[i].ctl.sentdata {
                return i as u8;
            }
            i += 1;
        }
        0x80
    }

    /// The transmit-complete handler. Clears its own pending flag, saves
    /// the shared mailbox search register, switches it to the
    /// transmit-search sub-mode to learn which mailbox just finished,
    /// clears that mailbox's control register (written twice, mirroring
    /// the clearing protocol of configuration), and restores the search
    /// register to its prior value.
    pub fn on_tx_interrupt(&mut self, ic: &mut InterruptController, vector: u8)
        requires
            old(self).wf(),
            (vector as int) < old(ic).spec_len(),
        ensures
            final(self).wf(),
            final(ic).slots@ == old(ic).slots@.update(vector as int, (IntrSlot {
                enabled: old(ic).slots@[vector as int].enabled,
                pended: old(ic).slots@[vector as int].pended,
                ir: false,
                iels: old(ic).slots@[vector as int].iels,
            })),
            final(self).regs.msmr == old(self).regs.msmr,
            (exists|i: int|
                0 <= i < MAILBOX_COUNT && (#[trigger] old(self).regs.mailboxes@[i]).ctl.sentdata) ==> exists|i: int|
                {
                    &&& 0 <= i < MAILBOX_COUNT
                    &&& (#[trigger] old(self).regs.mailboxes@[i]).ctl.sentdata
                    &&& forall|j: int|
                        0 <= j < i ==> !old(self).regs.mailboxes@[j].ctl.sentdata
                    &&& forall|j: int|
                        0 <= j < MAILBOX_COUNT && j != i ==> final(self).regs.mailboxes@[j] == old(self).regs.mailboxes@[j]
                    &&& final(self).regs.mailboxes@[i].ctl == spec_ctl_clear()
                    &&& final(self).regs.mailboxes@[i].id == old(self).regs.mailboxes@[i].id
                    &&& final(self).regs.mailboxes@[i].dlc == old(self).regs.mailboxes@[i].dlc
                    &&& final(self).regs.mailboxes@[i].data == old(self).regs.mailboxes@[i].data
                },
            !(exists|i: int|
                0 <= i < MAILBOX_COUNT && (#[trigger] old(self).regs.mailboxes@[i]).ctl.sentdata) ==> final(self).regs.mailboxes@ == old(self).regs.mailboxes@,
            final(self).regs.spec_config_regs() == old(self).regs.spec_config_regs(),
            final(self).regs.spec_mode_bits() == old(self).regs.spec_mode_bits(),
            final(self).regs.spec_test_bits() == old(self).regs.spec_test_bits(),
            final(self).regs.tsrc == old(self).regs.tsrc,
    {
        clear_interrupt(ic, vector);
        // Save the shared, non-reentrant search register around this
        // handler's own use of it.
        let saved = self.regs.msmr;
        self.regs.msmr = 1;
        let mailbox = self.read_mssr();
        if mailbox < 32 {
            let mut mb = self.regs.mailboxes[mailbox as usize];
            // Written twice: some control bits cannot be cleared in the
            // same write as others.
            mb.ctl = MailboxCtl { trmreq: false, recreq: false, newdata: false, sentdata: false };
            mb.ctl = MailboxCtl { trmreq: false, recreq: false, newdata: false, sentdata: false };
            self.regs.mailboxes[mailbox as usize] = mb;
        }
        self.regs.msmr = saved;
    }
}

} // verus!
