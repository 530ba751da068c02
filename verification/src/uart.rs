//! The buffered, interrupt-driven UART engine: two ring buffers, a small
//! transmit state machine, foreground write/read operations and the four
//! interrupt handlers.
//!
//! The serial control and status registers the logic touches are modelled
//! by [`SciRegs`]; the transmit-data register records every byte written to
//! it, so the contracts state the wire behaviour exactly. The foreground
//! operations here are the non-blocking steps: each one returns immediately
//! and reports what it did, and the outer layer that owns the hardware
//! suspends (waits for an interrupt) and calls again where the operation is
//! specified to block. Handler methods run, on hardware, preempting the
//! foreground ones; exclusive `&mut` access here stands for the critical
//! sections under which the shared state is touched.

use vstd::math::min;
use vstd::prelude::*;

use crate::interrupts::clear_interrupt;
use crate::interrupts::BindingTable;
use crate::interrupts::HandlerKind;
use crate::interrupts::InterruptController;
use crate::interrupts::IntrSlot;
use crate::interrupts::map_and_enable_interrupt;
use crate::ring::ByteRing;
use crate::ring::RING_CAPACITY;

verus! {

/// Peripheral event number of the first (receive-data) event of the second
/// serial channel; the other three events follow contiguously.
pub const SCI2_EVENT_BASE: u8 = 0xA3;

/// Error type of the UART operations. The operations themselves never
/// fail; the type exists for the foreground read/write interface.
#[derive(Debug, Clone, Copy, PartialEq, Eq, Structural)]
pub struct Error {}

/// The transmit state machine.
#[derive(Clone, Copy, Debug, PartialEq, Eq, Structural)]
pub enum TxState {
    /// Transmitter hardware disabled.
    Idle,
    /// Transmitter enabled, transmit-data-empty interrupt armed.
    Transmitting,
    /// The buffer just emptied; waiting for the transmission of the final
    /// byte to physically complete before returning to idle.
    EndPending,
}

/// Model of the serial control and status registers the driver logic
/// touches. The transmit-data register keeps the whole sequence of bytes
/// written to it, oldest first: that sequence is what the wire carries.
pub struct SciRegs {
    /// Transmitter enable.
    pub te: bool,
    /// Transmit-data-empty interrupt enable.
    pub tie: bool,
    /// Transmit-end interrupt enable.
    pub teie: bool,
    /// Receiver enable.
    pub re: bool,
    /// Receive-data interrupt enable.
    pub rie: bool,
    /// Every byte written to the transmit-data register, in order.
    pub tdr_log: Vec<u8>,
    /// The receive-data register: the byte the receiver last latched.
    pub rdr: u8,
    /// Overrun error flag.
    pub orer: bool,
    /// Framing error flag.
    pub fer: bool,
    /// Parity error flag.
    pub per: bool,
}

impl SciRegs {
    /// The three transmit-side bits only ever hold one of the three state
    /// encodings: idle (all off), transmitting (enable + data-empty
    /// interrupt) or end-pending (enable + end interrupt).
    pub open spec fn spec_tx_bits_wf(&self) -> bool {
        (!self.te ==> !self.tie && !self.teie) && (self.te ==> self.tie != self.teie)
    }

    /// The transmit state, as encoded in the control bits.
    pub open spec fn spec_tx_state(&self) -> TxState {
        if !self.te {
            TxState::Idle
        } else if self.tie {
            TxState::Transmitting
        } else {
            TxState::EndPending
        }
    }

    /// The receive-side registers, bundled for frame conditions.
    pub open spec fn spec_rx_side(&self) -> (bool, bool, u8, bool, bool, bool) {
        (self.re, self.rie, self.rdr, self.orer, self.fer, self.per)
    }
}

/// The UART driver: the modelled registers and the two ring buffers. On
/// hardware the two buffers are shared with the interrupt handlers; here
/// handlers are methods on the same value.
pub struct Uart {
    pub regs: SciRegs,
    /// Bytes queued by the foreground writer, drained by the
    /// transmit-data-empty handler.
    pub tx_buf: ByteRing,
    /// Bytes pushed by the receive-data handler, drained by the foreground
    /// reader.
    pub rx_buf: ByteRing,
}

impl Uart {
    pub open spec fn wf(&self) -> bool {
        self.regs.spec_tx_bits_wf() && self.tx_buf@.len() <= RING_CAPACITY && self.rx_buf@.len()
            <= RING_CAPACITY
    }

    /// The transmit stream: every byte handed to the transmit-data
    /// register so far, followed by the bytes still queued. `write`
    /// appends to it exactly the bytes it accepts; the handlers move its
    /// boundary without adding, dropping, duplicating or reordering a
    /// byte. Once the queue is empty, the register has seen the whole
    /// stream in order.
    pub open spec fn spec_tx_stream(&self) -> Seq<u8> {
        self.regs.tdr_log@ + self.tx_buf@
    }

    /// Construct the driver: map the four peripheral events (receive-data,
    /// transmit-data-empty, transmit-end, receive-error, contiguous from
    /// `event_base`) onto the four bound vectors and unmask them, and start
    /// with empty buffers, the transmitter idle and the receiver armed.
    ///
    /// The caller must hold a binding for each of the four vectors; the
    /// line-protocol and pin configuration of the physical channel is the
    /// owning layer's step.
    pub fn new(
        bindings: &BindingTable,
        ic: &mut InterruptController,
        event_base: u8,
        rxi_vector: u8,
        txi_vector: u8,
        tei_vector: u8,
        eri_vector: u8,
    ) -> (r: Uart)
        requires
            bindings.spec_binds(rxi_vector, HandlerKind::UartRxi),
            bindings.spec_binds(txi_vector, HandlerKind::UartTxi),
            bindings.spec_binds(tei_vector, HandlerKind::UartTei),
            bindings.spec_binds(eri_vector, HandlerKind::UartEri),
            rxi_vector != txi_vector && rxi_vector != tei_vector && rxi_vector != eri_vector,
            txi_vector != tei_vector && txi_vector != eri_vector,
            tei_vector != eri_vector,
            (rxi_vector as int) < old(ic).spec_len(),
            (txi_vector as int) < old(ic).spec_len(),
            (tei_vector as int) < old(ic).spec_len(),
            (eri_vector as int) < old(ic).spec_len(),
            event_base <= 252,
        ensures
            r.wf(),
            r.tx_buf@ == Seq::<u8>::empty(),
            r.rx_buf@ == Seq::<u8>::empty(),
            r.regs.tdr_log@ == Seq::<u8>::empty(),
            r.regs.spec_tx_state() == TxState::Idle,
            r.regs.re && r.regs.rie,
            !r.regs.orer && !r.regs.fer && !r.regs.per,
            final(ic).slots@.len() == old(ic).slots@.len(),
            final(ic).slots@[rxi_vector as int] == (IntrSlot {
                enabled: true,
                pended: old(ic).slots@[rxi_vector as int].pended,
                ir: old(ic).slots@[rxi_vector as int].ir,
                iels: event_base,
            }),
            final(ic).slots@[txi_vector as int] == (IntrSlot {
                enabled: true,
                pended: old(ic).slots@[txi_vector as int].pended,
                ir: old(ic).slots@[txi_vector as int].ir,
                iels: (event_base + 1) as u8,
            }),
            final(ic).slots@[tei_vector as int] == (IntrSlot {
                enabled: true,
                pended: old(ic).slots@[tei_vector as int].pended,
                ir: old(ic).slots@[tei_vector as int].ir,
                iels: (event_base + 2) as u8,
            }),
            final(ic).slots@[eri_vector as int] == (IntrSlot {
                enabled: true,
                pended: old(ic).slots@[eri_vector as int].pended,
                ir: old(ic).slots@[eri_vector as int].ir,
                iels: (event_base + 3) as u8,
            }),
            forall|j: int|
                0 <= j < old(ic).slots@.len() && j != rxi_vector as int && j != txi_vector as int
                    && j != tei_vector as int && j != eri_vector as int ==> final(ic).slots@[j]
                    == old(ic).slots@[j],
    {
        map_and_enable_interrupt(ic, rxi_vector, event_base);
        map_and_enable_interrupt(ic, txi_vector, event_base + 1);
        map_and_enable_interrupt(ic, tei_vector, event_base + 2);
        map_and_enable_interrupt(ic, eri_vector, event_base + 3);
        Uart {
            regs: SciRegs {
                te: false,
                tie: false,
                teie: false,
                re: true,
                rie: true,
                tdr_log: Vec::new(),
                rdr: 0,
                orer: false,
                fer: false,
                per: false,
            },
            tx_buf: ByteRing::new(),
            rx_buf: ByteRing::new(),
        }
    }

    /// The transmit state, read back from the control bits.
    pub fn tx_state(&self) -> (s: TxState)
        ensures
            s == self.regs.spec_tx_state(),
    {
        if !self.regs.te {
            TxState::Idle
        } else if self.regs.tie {
            TxState::Transmitting
        } else {
            TxState::EndPending
        }
    }

    /// One write step: queue as many bytes as fit into the transmit buffer
    /// and, if the transmitter is idle, arm it and the transmit-data-empty
    /// interrupt. Nothing reaches the transmit-data register here — only
    /// the handlers move bytes to the hardware. When the transmitter is
    /// finishing its final byte (end-pending), the bytes are queued and the
    /// caller must wait for the transmit-end interrupt before arming again;
    /// when the return value falls short of `data`, the caller waits for an
    /// interrupt to free space and calls again with the remainder.
    pub fn write(&mut self, data: &[u8]) -> (n: usize)
        requires
            old(self).wf(),
        ensures
            final(self).wf(),
            n as int == min(data@.len() as int, RING_CAPACITY - old(self).tx_buf@.len()),
            final(self).tx_buf@ == old(self).tx_buf@ + data@.take(n as int),
            final(self).spec_tx_stream() == old(self).spec_tx_stream() + data@.take(n as int),
            final(self).regs.tdr_log@ == old(self).regs.tdr_log@,
            final(self).rx_buf@ == old(self).rx_buf@,
            final(self).regs.spec_rx_side() == old(self).regs.spec_rx_side(),
            old(self).regs.spec_tx_state() == TxState::Idle ==> final(self).regs.spec_tx_state()
                == TxState::Transmitting,
            old(self).regs.spec_tx_state() != TxState::Idle ==> (final(self).regs.te == old(self).regs.te && final(self).regs.tie == old(self).regs.tie && final(self).regs.teie
                == old(self).regs.teie),
    {
        let mut n: usize = 0;
        let mut full = false;
        while n < data.len() && !full
            invariant
                self.wf(),
                n <= data@.len(),
                self.tx_buf@ == old(self).tx_buf@ + data@.take(n as int),
                full ==> old(self).tx_buf@.len() + n == RING_CAPACITY,
                old(self).tx_buf@.len() + n <= RING_CAPACITY,
                self.regs == old(self).regs,
                self.rx_buf@ == old(self).rx_buf@,
            decreases data@.len() - n + if full { 0int } else { 1int },
        {
            if self.tx_buf.try_push(data[n]) {
                proof {
                    assert(old(self).tx_buf@ + data@.take(n as int + 1) =~= (old(self).tx_buf@
                        + data@.take(n as int)).push(data@[n as int]));
                }
                n += 1;
            } else {
                full = true;
            }
        }
        if !self.regs.te {
            self.regs.te = true;
            self.regs.tie = true;
            self.regs.teie = false;
        }
        proof {
            assert(self.spec_tx_stream() =~= old(self).spec_tx_stream() + data@.take(n as int));
        }
        n
    }

    /// Arm the transmitter if no transmission is running and bytes are
    /// queued; used after the transmit-end interrupt has returned the state
    /// machine to idle while the buffer refilled.
    pub fn start_transmit(&mut self)
        requires
            old(self).wf(),
        ensures
            final(self).wf(),
            final(self).tx_buf@ == old(self).tx_buf@,
            final(self).rx_buf@ == old(self).rx_buf@,
            final(self).regs.tdr_log@ == old(self).regs.tdr_log@,
            final(self).spec_tx_stream() == old(self).spec_tx_stream(),
            final(self).regs.spec_rx_side() == old(self).regs.spec_rx_side(),
            old(self).regs.spec_tx_state() == TxState::Idle && old(self).tx_buf@.len() > 0
                ==> final(self).regs.spec_tx_state() == TxState::Transmitting,
            old(self).regs.spec_tx_state() != TxState::Idle || old(self).tx_buf@.len() == 0 ==> (
            final(self).regs.te == old(self).regs.te && final(self).regs.tie == old(self).regs.tie
                && final(self).regs.teie == old(self).regs.teie),
    {
        if !self.regs.tie && !self.regs.teie && !self.tx_buf.is_empty() {
            self.regs.te = true;
            self.regs.tie = true;
            self.regs.teie = false;
        }
    }

    /// The condition `flush` waits for: every queued byte has been handed
    /// to the transmit-data register.
    pub fn tx_empty(&self) -> (r: bool)
        ensures
            r == (self.tx_buf@.len() == 0),
    {
        self.tx_buf.is_empty()
    }

    /// The transmit-data-empty handler. Clears its own pending flag; if a
    /// byte is queued, writes it to the transmit-data register, switching
    /// from the data-empty interrupt to the transmit-end interrupt when
    /// that byte was the last; if none is queued (which correct arming
    /// never produces), disables transmission entirely as a safety
    /// fallback. Fires only while the transmitter is armed.
    ///
    /// Whatever the case, the bytes written to the transmit-data register
    /// followed by the bytes still queued are exactly the bytes accepted by
    /// `write`, in order: nothing is reordered, duplicated or lost.
    pub fn on_txi_interrupt(&mut self, ic: &mut InterruptController, vector: u8)
        requires
            old(self).wf(),
            old(self).regs.spec_tx_state() == TxState::Transmitting,
            (vector as int) < old(ic).spec_len(),
        ensures
            final(self).wf(),
            final(ic).slots@ == old(ic).slots@.update(vector as int, (IntrSlot {
                enabled: old(ic).slots@[vector as int].enabled,
                pended: old(ic).slots@[vector as int].pended,
                ir: false,
                iels: old(ic).slots@[vector as int].iels,
            })),
            final(self).rx_buf@ == old(self).rx_buf@,
            final(self).regs.spec_rx_side() == old(self).regs.spec_rx_side(),
            old(self).regs.tdr_log@.is_prefix_of(final(self).regs.tdr_log@),
            final(self).spec_tx_stream() == old(self).spec_tx_stream(),
            old(self).tx_buf@.len() > 0 ==> (final(self).regs.tdr_log@ == old(self).regs.tdr_log@.push(old(self).tx_buf@[0]) && final(self).tx_buf@ == old(self).tx_buf@.skip(1)),
            old(self).tx_buf@.len() > 1 ==> final(self).regs.spec_tx_state()
                == TxState::Transmitting,
            old(self).tx_buf@.len() == 1 ==> final(self).regs.spec_tx_state()
                == TxState::EndPending,
            old(self).tx_buf@.len() == 0 ==> (final(self).regs.tdr_log@ == old(self).regs.tdr_log@
                && final(self).tx_buf@ == old(self).tx_buf@ && final(self).regs.spec_tx_state()
                == TxState::Idle),
    {
        clear_interrupt(ic, vector);
        let popped = self.tx_buf.pop();
        match popped {
            Some(b) => {
                self.regs.tdr_log.push(b);
                if self.tx_buf.is_empty() {
                    self.regs.tie = false;
                    self.regs.teie = true;
                }
                proof {
                    assert(self.regs.tdr_log@ + self.tx_buf@ =~= old(self).regs.tdr_log@ + old(self).tx_buf@);
                    assert(old(self).regs.tdr_log@.is_prefix_of(self.regs.tdr_log@));
                }
            },
            None => {
                self.regs.tie = false;
                self.regs.teie = false;
                self.regs.te = false;
                proof {
                    assert(self.regs.tdr_log@ + self.tx_buf@ =~= old(self).regs.tdr_log@ + old(self).tx_buf@);
                    assert(old(self).regs.tdr_log@.is_prefix_of(self.regs.tdr_log@));
                }
            },
        }
    }

    /// The transmit-end handler: clears its own pending flag, then disables
    /// the transmitter and both transmit interrupt sources, returning the
    /// state machine to idle. Nothing else changes; in particular no byte
    /// is written or dropped.
    pub fn on_tei_interrupt(&mut self, ic: &mut InterruptController, vector: u8)
        requires
            old(self).wf(),
            (vector as int) < old(ic).spec_len(),
        ensures
            final(self).wf(),
            final(ic).slots@ == old(ic).slots@.update(vector as int, (IntrSlot {
                enabled: old(ic).slots@[vector as int].enabled,
                pended: old(ic).slots@[vector as int].pended,
                ir: false,
                iels: old(ic).slots@[vector as int].iels,
            })),
            final(self).regs.spec_tx_state() == TxState::Idle,
            final(self).tx_buf@ == old(self).tx_buf@,
            final(self).rx_buf@ == old(self).rx_buf@,
            final(self).regs.tdr_log@ == old(self).regs.tdr_log@,
            final(self).spec_tx_stream() == old(self).spec_tx_stream(),
            final(self).regs.spec_rx_side() == old(self).regs.spec_rx_side(),
    {
        clear_interrupt(ic, vector);
        self.regs.teie = false;
        self.regs.tie = false;
        self.regs.te = false;
    }

    /// The receive-data handler: clears its own pending flag, reads the
    /// received byte from the receive-data register and pushes it into the
    /// receive buffer. A byte that does not fit is dropped; the bytes
    /// already queued are preserved, and occupancy never exceeds the
    /// buffer's capacity.
    pub fn on_rxi_interrupt(&mut self, ic: &mut InterruptController, vector: u8)
        requires
            old(self).wf(),
            (vector as int) < old(ic).spec_len(),
        ensures
            final(self).wf(),
            final(ic).slots@ == old(ic).slots@.update(vector as int, (IntrSlot {
                enabled: old(ic).slots@[vector as int].enabled,
                pended: old(ic).slots@[vector as int].pended,
                ir: false,
                iels: old(ic).slots@[vector as int].iels,
            })),
            old(self).rx_buf@.len() < RING_CAPACITY ==> final(self).rx_buf@ == old(self).rx_buf@.push(old(self).regs.rdr),
            old(self).rx_buf@.len() >= RING_CAPACITY ==> final(self).rx_buf@ == old(self).rx_buf@,
            final(self).rx_buf@.len() <= RING_CAPACITY,
            final(self).tx_buf@ == old(self).tx_buf@,
            final(self).regs == old(self).regs,
    {
        clear_interrupt(ic, vector);
        let byte = self.regs.rdr;
        let _accepted = self.rx_buf.try_push(byte);
    }

    /// The receive-error handler: clears its own pending flag and the
    /// overrun, framing and parity error flags. No byte is recovered and
    /// nothing is reported upward.
    pub fn on_eri_interrupt(&mut self, ic: &mut InterruptController, vector: u8)
        requires
            old(self).wf(),
            (vector as int) < old(ic).spec_len(),
        ensures
            final(self).wf(),
            final(ic).slots@ == old(ic).slots@.update(vector as int, (IntrSlot {
                enabled: old(ic).slots@[vector as int].enabled,
                pended: old(ic).slots@[vector as int].pended,
                ir: false,
                iels: old(ic).slots@[vector as int].iels,
            })),
            !final(self).regs.orer && !final(self).regs.fer && !final(self).regs.per,
            final(self).regs.te == old(self).regs.te,
            final(self).regs.tie == old(self).regs.tie,
            final(self).regs.teie == old(self).regs.teie,
            final(self).regs.re == old(self).regs.re,
            final(self).regs.rie == old(self).regs.rie,
            final(self).regs.rdr == old(self).regs.rdr,
            final(self).regs.tdr_log@ == old(self).regs.tdr_log@,
            final(self).tx_buf@ == old(self).tx_buf@,
            final(self).rx_buf@ == old(self).rx_buf@,
    {
        clear_interrupt(ic, vector);
        self.regs.orer = false;
        self.regs.fer = false;
        self.regs.per = false;
    }

    /// One read step: drain up to `max` of the queued received bytes, in
    /// order. Empty only when no data is pending — the case where `read` is
    /// specified to block, so the caller waits for an interrupt and calls
    /// again.
    pub fn read(&mut self, max: usize) -> (r: Vec<u8>)
        requires
            old(self).wf(),
        ensures
            final(self).wf(),
            r@.len() == min(max as int, old(self).rx_buf@.len() as int),
            r@ == old(self).rx_buf@.take(r@.len() as int),
            final(self).rx_buf@ == old(self).rx_buf@.skip(r@.len() as int),
            final(self).tx_buf@ == old(self).tx_buf@,
            final(self).regs == old(self).regs,
    {
        let available = self.rx_buf.len();
        let n = if max < available {
            max
        } else {
            available
        };
        let mut out: Vec<u8> = Vec::new();
        let mut i: usize = 0;
        while i < n
            invariant
                self.wf(),
                n <= old(self).rx_buf@.len(),
                i <= n,
                out@.len() == i,
                out@ == old(self).rx_buf@.take(i as int),
                self.rx_buf@ == old(self).rx_buf@.skip(i as int),
                self.tx_buf@ == old(self).tx_buf@,
                self.regs == old(self).regs,
            decreases n - i,
        {
            let popped = self.rx_buf.pop();
            match popped {
                Some(b) => {
                    out.push(b);
                    proof {
                        assert(out@ =~= old(self).rx_buf@.take(i + 1));
                        assert(old(self).rx_buf@.skip(i as int).skip(1) =~= old(self).rx_buf@.skip(i + 1));
                    }
                },
                None => {
                    proof {
                        assert(false);
                    }
                },
            }
            i += 1;
        }
        out
    }

    /// Whether received data is pending: the non-blocking emptiness check
    /// of the receive buffer.
    pub fn read_ready(&self) -> (r: bool)
        ensures
            r == (self.rx_buf@.len() > 0),
    {
        !self.rx_buf.is_empty()
    }
}

} // verus!
