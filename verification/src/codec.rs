//! Pure, stateless bit-packing between the public frame representation
//! (identifier, length, data bytes) and the 32-bit mailbox identifier
//! register layout of the CAN controller.

use vstd::prelude::*;

verus! {

/// Largest 11-bit standard identifier.
pub const MAX_STANDARD_ID: u16 = 0x7FF;

/// Largest 29-bit extended identifier.
pub const MAX_EXTENDED_ID: u32 = 0x1FFF_FFFF;

/// A CAN identifier: an 11-bit standard identifier or a 29-bit extended one.
#[derive(Clone, Copy, Debug, PartialEq, Eq, Structural)]
pub enum CanId {
    Standard(u16),
    Extended(u32),
}

impl CanId {
    /// The identifier fits the bit width of its format.
    pub open spec fn wf(self) -> bool {
        match self {
            CanId::Standard(s) => s <= MAX_STANDARD_ID,
            CanId::Extended(e) => e <= MAX_EXTENDED_ID,
        }
    }
}

/// The extended-format flag IDE (bit 31) of a mailbox identifier register.
pub open spec fn ide_of(bits: u32) -> bool {
    (bits >> 31) & 1 == 1
}

/// The remote-request flag RTR (bit 30) of a mailbox identifier register.
pub open spec fn rtr_of(bits: u32) -> bool {
    (bits >> 30) & 1 == 1
}

/// The 11-bit standard portion SID (bits 28..=18) of a mailbox identifier
/// register.
pub open spec fn sid_of(bits: u32) -> u32 {
    (bits >> 18) & 0x7FF
}

/// The 18-bit extended portion EID (bits 17..=0) of a mailbox identifier
/// register.
pub open spec fn eid_of(bits: u32) -> u32 {
    bits & 0x3FFFF
}

/// A register value is read as extended if the IDE flag is set or the
/// extended portion is nonzero, even though encoding always clears the
/// extended portion for standard identifiers.
pub open spec fn is_extended_of(bits: u32) -> bool {
    ide_of(bits) || eid_of(bits) != 0
}

/// How an identifier is packed into the mailbox identifier register: the
/// standard portion holds the standard identifier, or the upper 11 bits of
/// an extended one; the extended portion holds the lower 18 bits of an
/// extended identifier and is zero for a standard one; IDE is set exactly
/// for extended identifiers; RTR and the reserved bit are left clear.
pub open spec fn encode_bits(id: CanId) -> u32 {
    match id {
        CanId::Standard(s) => (s as u32) << 18,
        CanId::Extended(e) => (1u32 << 31) | ((e >> 18) << 18) | (e & 0x3FFFF),
    }
}

/// How a mailbox identifier register is read back: extended if the IDE flag
/// is set or the extended portion is nonzero, the 29-bit value being the
/// standard portion above the extended portion; standard otherwise.
pub open spec fn decode_bits(bits: u32) -> CanId {
    if is_extended_of(bits) {
        CanId::Extended((sid_of(bits) << 18) | eid_of(bits))
    } else {
        CanId::Standard(sid_of(bits) as u16)
    }
}

/// Law: packing a well-formed identifier into the mailbox register layout
/// and reading it back yields the identifier unchanged, and the register
/// value reads as extended exactly for extended identifiers.
pub proof fn lemma_id_round_trip(id: CanId)
    requires
        id.wf(),
    ensures
        decode_bits(encode_bits(id)) == id,
        is_extended_of(encode_bits(id)) == (id is Extended),
{
    match id {
        CanId::Standard(s) => {
            let b: u32 = (s as u32) << 18;
            assert(((b >> 31) & 1 == 0) && (b & 0x3FFFF == 0) && ((b >> 18) & 0x7FF
                == s as u32)) by (bit_vector)
                requires
                    b == (s as u32) << 18,
                    s <= 0x7FF,
            ;
        }
        CanId::Extended(e) => {
            let b: u32 = (1u32 << 31) | ((e >> 18) << 18) | (e & 0x3FFFF);
            assert(((b >> 31) & 1 == 1) && ((((b >> 18) & 0x7FF) << 18) | (b & 0x3FFFF)
                == e)) by (bit_vector)
                requires
                    b == (1u32 << 31) | ((e >> 18) << 18) | (e & 0x3FFFF),
                    e <= 0x1FFF_FFFF,
            ;
        }
    }
}

/// The 32-bit value of a mailbox identifier register.
///
/// Layout, from the most significant bit down: IDE (extended-format flag,
/// bit 31), RTR (remote-request flag, bit 30), one reserved bit, the 11-bit
/// standard portion SID (bits 28..=18) and the 18-bit extended portion EID
/// (bits 17..=0).
#[derive(Clone, Copy, Debug, PartialEq, Eq, Structural)]
pub struct MailboxId {
    bits: u32,
}

impl MailboxId {
    /// The raw register value.
    pub closed spec fn spec_bits(self) -> u32 {
        self.bits
    }

    pub open spec fn spec_ide(self) -> bool {
        ide_of(self.spec_bits())
    }

    pub open spec fn spec_rtr(self) -> bool {
        rtr_of(self.spec_bits())
    }

    pub open spec fn spec_sid(self) -> u32 {
        sid_of(self.spec_bits())
    }

    pub open spec fn spec_eid(self) -> u32 {
        eid_of(self.spec_bits())
    }

    pub open spec fn spec_is_extended(self) -> bool {
        is_extended_of(self.spec_bits())
    }

    pub fn from_bits(bits: u32) -> (r: Self)
        ensures
            r.spec_bits() == bits,
    {
        MailboxId { bits }
    }

    pub fn into_bits(self) -> (r: u32)
        ensures
            r == self.spec_bits(),
    {
        self.bits
    }

    pub fn ide(self) -> (r: bool)
        ensures
            r == self.spec_ide(),
    {
        (self.bits >> 31) & 1 == 1
    }

    pub fn rtr(self) -> (r: bool)
        ensures
            r == self.spec_rtr(),
    {
        (self.bits >> 30) & 1 == 1
    }

    pub fn sid(self) -> (r: u32)
        ensures
            r == self.spec_sid(),
    {
        (self.bits >> 18) & 0x7FF
    }

    pub fn eid(self) -> (r: u32)
        ensures
            r == self.spec_eid(),
    {
        self.bits & 0x3FFFF
    }

    pub fn is_extended(self) -> (r: bool)
        ensures
            r == self.spec_is_extended(),
    {
        self.ide() || self.eid() != 0
    }

    /// The same register value with the IDE flag cleared; used for mask
    /// registers (which carry no format flag) and for receive filters when
    /// the controller is not in the mixed identifier-format mode.
    pub fn with_ide_cleared(self) -> (r: Self)
        ensures
            r.spec_bits() == self.spec_bits() & 0x7FFF_FFFF,
    {
        MailboxId { bits: self.bits & 0x7FFF_FFFF }
    }

    pub fn from_can_id(id: CanId) -> (r: Self)
        requires
            id.wf(),
        ensures
            r.spec_bits() == encode_bits(id),
    {
        match id {
            CanId::Standard(s) => MailboxId { bits: (s as u32) << 18u32 },
            CanId::Extended(e) => MailboxId {
                bits: (1u32 << 31u32) | ((e >> 18u32) << 18u32) | (e & 0x3FFFF),
            },
        }
    }

    pub fn to_can_id(self) -> (r: CanId)
        ensures
            r == decode_bits(self.spec_bits()),
            r.wf(),
    {
        let sid = self.sid();
        let eid = self.eid();
        if self.ide() || eid != 0 {
            let bits = self.bits;
            assert((((bits >> 18) & 0x7FF) << 18) | (bits & 0x3FFFF) <= 0x1FFF_FFFF)
                by (bit_vector);
            CanId::Extended((sid << 18u32) | eid)
        } else {
            let bits = self.bits;
            assert((bits >> 18) & 0x7FF <= 0x7FF) by (bit_vector);
            CanId::Standard(sid as u16)
        }
    }
}

/// One CAN frame as the hardware mailbox holds it: identifier register
/// value, data length code and up to eight data bytes. The timestamp word
/// is present in the mailbox but never surfaced.
#[derive(Clone, Copy, Debug)]
pub struct Frame {
    id: MailboxId,
    dlc: u8,
    data: [u8; 8],
    ts: u16,
}

impl Frame {
    /// The identifier register value.
    pub closed spec fn spec_id(self) -> MailboxId {
        self.id
    }

    /// The data length code.
    pub closed spec fn spec_dlc(self) -> u8 {
        self.dlc
    }

    /// The payload: the first `dlc` data bytes.
    pub closed spec fn spec_data(self) -> Seq<u8> {
        self.data@.take(self.dlc as int)
    }

    /// The data length code never exceeds the eight data bytes a mailbox
    /// holds, and the payload is exactly that many bytes.
    pub open spec fn wf(self) -> bool {
        self.spec_dlc() <= 8 && self.spec_data().len() == self.spec_dlc()
    }

    /// A data frame carrying the given payload, or nothing if the payload
    /// does not fit in a mailbox.
    pub fn new(id: CanId, data: &[u8]) -> (r: Option<Frame>)
        requires
            id.wf(),
        ensures
            data@.len() <= 8 ==> (r matches Some(f) && f.wf() && f.spec_id().spec_bits()
                == encode_bits(id) && f.spec_dlc() == data@.len() && f.spec_data() == data@),
            data@.len() > 8 ==> r is None,
    {
        if data.len() > 8 {
            return None;
        }
        let mid = MailboxId::from_can_id(id);
        let mut arr = [0u8; 8];
        let mut i: usize = 0;
        while i < data.len()
            invariant
                i <= data@.len() <= 8,
                forall|j: int| 0 <= j < i ==> arr@[j] == data@[j],
            decreases data@.len() - i,
        {
            arr[i] = data[i];
            i += 1;
        }
        let f = Frame { id: mid, dlc: data.len() as u8, data: arr, ts: 0 };
        proof {
            assert(f.spec_data() =~= data@);
        }
        Some(f)
    }

    /// A remote frame: the requested length with an all-zero payload. The
    /// RTR flag of the identifier register is left as the identifier
    /// encoding produced it, that is, clear.
    pub fn new_remote(id: CanId, dlc: usize) -> (r: Option<Frame>)
        requires
            id.wf(),
        ensures
            dlc <= 8 ==> (r matches Some(f) && f.wf() && f.spec_id().spec_bits() == encode_bits(id)
                && f.spec_dlc() == dlc && f.spec_data() == Seq::new(dlc as nat, |i: int| 0u8)),
            dlc > 8 ==> r is None,
    {
        if dlc > 8 {
            return None;
        }
        let f = Frame { id: MailboxId::from_can_id(id), dlc: dlc as u8, data: [0u8; 8], ts: 0 };
        proof {
            assert(f.spec_data() =~= Seq::new(dlc as nat, |i: int| 0u8));
        }
        Some(f)
    }

    /// A frame rebuilt from mailbox register values, as the receive path
    /// reads them back.
    pub fn from_parts(id: MailboxId, dlc: u8, data: [u8; 8]) -> (r: Frame)
        requires
            dlc <= 8,
        ensures
            r.wf(),
            r.spec_id() == id,
            r.spec_dlc() == dlc,
            r.spec_data() == data@.take(dlc as int),
    {
        Frame { id, dlc, data, ts: 0 }
    }

    pub fn is_extended(&self) -> (r: bool)
        ensures
            r == self.spec_id().spec_is_extended(),
    {
        self.id.is_extended()
    }

    pub fn is_remote_frame(&self) -> (r: bool)
        ensures
            r == self.spec_id().spec_rtr(),
    {
        self.id.rtr()
    }

    pub fn id(&self) -> (r: CanId)
        ensures
            r == decode_bits(self.spec_id().spec_bits()),
            r.wf(),
    {
        self.id.to_can_id()
    }

    /// The raw identifier register value, as the transmit path writes it.
    pub fn mailbox_id(&self) -> (r: MailboxId)
        ensures
            r == self.spec_id(),
    {
        self.id
    }

    pub fn dlc(&self) -> (r: usize)
        ensures
            r == self.spec_dlc() as usize,
    {
        self.dlc as usize
    }

    /// A copy of the payload bytes.
    pub fn data(&self) -> (r: Vec<u8>)
        requires
            self.wf(),
        ensures
            r@ == self.spec_data(),
    {
        let mut out: Vec<u8> = Vec::new();
        let n = self.dlc as usize;
        let mut i: usize = 0;
        while i < n
            invariant
                n == self.spec_dlc() as int,
                n <= 8,
                i <= n,
                out@ =~= self.spec_data().take(i as int),
            decreases n - i,
        {
            out.push(self.data[i]);
            i += 1;
        }
        proof {
            assert(out@ =~= self.spec_data());
        }
        out
    }

    /// One payload byte.
    pub fn data_byte(&self, i: usize) -> (r: u8)
        requires
            self.wf(),
            i < self.spec_dlc(),
        ensures
            r == self.spec_data()[i as int],
    {
        self.data[i]
    }
}

} // verus!
