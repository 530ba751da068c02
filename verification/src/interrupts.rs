//! The interrupt binding table and a model of the interrupt controller.
//!
//! A binding associates a vector number with a handler behaviour. The table
//! is fixed before the drivers are constructed, and a driver constructor
//! demands in its `requires` that every binding it dispatches through is
//! present — the stand-in for a compile-time binding proof. A vector is
//! unmasked only by a constructor that has made that demand.
//!
//! The interrupt controller is modelled as one slot per vector, holding the
//! enable and pending bits and the event-link selection that maps a
//! peripheral event to the vector.

use vstd::prelude::*;

verus! {

/// The handler behaviours a vector can dispatch to.
#[derive(Clone, Copy, Debug, PartialEq, Eq, Structural)]
pub enum HandlerKind {
    /// UART transmit-data-empty.
    UartTxi,
    /// UART transmit-end.
    UartTei,
    /// UART receive-data.
    UartRxi,
    /// UART receive-error.
    UartEri,
    /// CAN transmit-complete.
    CanTx,
}

/// One declared binding: this vector dispatches to this handler.
#[derive(Clone, Copy, Debug, PartialEq, Eq, Structural)]
pub struct BindingEntry {
    pub vector: u8,
    pub handler: HandlerKind,
}

/// The declared vector-to-handler bindings.
pub struct BindingTable {
    pub entries: Vec<BindingEntry>,
}

impl BindingTable {
    /// Some vector is declared to dispatch to the handler.
    pub open spec fn spec_is_bound(&self, h: HandlerKind) -> bool {
        exists|i: int| 0 <= i < self.entries@.len() && self.entries@[i].handler == h
    }

    /// This vector is declared to dispatch to this handler.
    pub open spec fn spec_binds(&self, vector: u8, h: HandlerKind) -> bool {
        exists|i: int|
            0 <= i < self.entries@.len() && self.entries@[i] == (BindingEntry { vector, handler: h })
    }

    pub fn new() -> (r: Self)
        ensures
            r.entries@.len() == 0,
    {
        BindingTable { entries: Vec::new() }
    }

    /// Declare that a vector dispatches to a handler. Every binding
    /// declared earlier stays declared.
    pub fn bind(&mut self, vector: u8, handler: HandlerKind)
        ensures
            final(self).entries@ == old(self).entries@.push(BindingEntry { vector, handler }),
            final(self).spec_binds(vector, handler),
            forall|v: u8, h: HandlerKind|
                old(self).spec_binds(v, h) ==> #[trigger] final(self).spec_binds(v, h),
    {
        self.entries.push(BindingEntry { vector, handler });
        proof {
            let n = old(self).entries@.len() as int;
            assert(self.entries@[n] == (BindingEntry { vector, handler }));
            assert forall|v: u8, h: HandlerKind|
                old(self).spec_binds(v, h) implies #[trigger] self.spec_binds(v, h) by {
                let i = choose|i: int|
                    0 <= i < old(self).entries@.len() && old(self).entries@[i] == (BindingEntry {
                        vector: v,
                        handler: h,
                    });
                assert(self.entries@[i] == (BindingEntry { vector: v, handler: h }));
            }
        }
    }

    /// The vector of the first declared binding for the handler, if any.
    pub fn bound_vector(&self, h: HandlerKind) -> (r: Option<u8>)
        ensures
            (r is Some) == self.spec_is_bound(h),
            r matches Some(v) ==> self.spec_binds(v, h),
    {
        let n = self.entries.len();
        let mut i: usize = 0;
        while i < n
            invariant
                n == self.entries@.len(),
                i <= n,
                forall|j: int| 0 <= j < i ==> self.entries@[j].handler != h,
            decreases n - i,
        {
            if self.entries[i].handler == h {
                return Some(self.entries[i].vector);
            }
            i += 1;
        }
        None
    }
}

/// One interrupt slot: the controller's enable and pending bits for the
/// vector, and the event-link register that selects which peripheral event
/// fires it (`iels`) together with that event's pending flag (`ir`).
#[derive(Clone, Copy, Debug, PartialEq, Eq, Structural)]
pub struct IntrSlot {
    pub enabled: bool,
    pub pended: bool,
    pub ir: bool,
    pub iels: u8,
}

/// Model of the interrupt controller: one slot per vector.
pub struct InterruptController {
    pub slots: Vec<IntrSlot>,
}

impl InterruptController {
    /// A controller with `n` vectors, all masked, unpended and unmapped.
    pub fn new(n: usize) -> (r: Self)
        ensures
            r.slots@.len() == n,
            forall|i: int| 0 <= i < n ==> r.slots@[i] == (IntrSlot {
                enabled: false,
                pended: false,
                ir: false,
                iels: 0,
            }),
    {
        let mut slots: Vec<IntrSlot> = Vec::new();
        let mut i: usize = 0;
        while i < n
            invariant
                i <= n,
                slots@.len() == i,
                forall|j: int| 0 <= j < i ==> slots@[j] == (IntrSlot {
                    enabled: false,
                    pended: false,
                    ir: false,
                    iels: 0,
                }),
            decreases n - i,
        {
            slots.push(IntrSlot { enabled: false, pended: false, ir: false, iels: 0 });
            i += 1;
        }
        InterruptController { slots }
    }

    pub open spec fn spec_len(&self) -> nat {
        self.slots@.len()
    }
}

/// Clear the pending flag of the event linked to the vector; the first
/// action of every handler.
pub fn clear_interrupt(ic: &mut InterruptController, vector: u8)
    requires
        (vector as int) < old(ic).spec_len(),
    ensures
        final(ic).slots@ == old(ic).slots@.update(vector as int, (IntrSlot {
            enabled: old(ic).slots@[vector as int].enabled,
            pended: old(ic).slots@[vector as int].pended,
            ir: false,
            iels: old(ic).slots@[vector as int].iels,
        })),
{
    let s = ic.slots[vector as usize];
    ic.slots.set(vector as usize, IntrSlot { enabled: s.enabled, pended: s.pended, ir: false, iels: s.iels });
}

/// Unmask the vector in the interrupt controller.
pub fn enable_interrupt(ic: &mut InterruptController, vector: u8)
    requires
        (vector as int) < old(ic).spec_len(),
    ensures
        final(ic).slots@ == old(ic).slots@.update(vector as int, (IntrSlot {
            enabled: true,
            pended: old(ic).slots@[vector as int].pended,
            ir: old(ic).slots@[vector as int].ir,
            iels: old(ic).slots@[vector as int].iels,
        })),
{
    let s = ic.slots[vector as usize];
    ic.slots.set(vector as usize, IntrSlot { enabled: true, pended: s.pended, ir: s.ir, iels: s.iels });
}

/// Mask the vector in the interrupt controller.
pub fn disable_interrupt(ic: &mut InterruptController, vector: u8)
    requires
        (vector as int) < old(ic).spec_len(),
    ensures
        final(ic).slots@ == old(ic).slots@.update(vector as int, (IntrSlot {
            enabled: false,
            pended: old(ic).slots@[vector as int].pended,
            ir: old(ic).slots@[vector as int].ir,
            iels: old(ic).slots@[vector as int].iels,
        })),
{
    let s = ic.slots[vector as usize];
    ic.slots.set(vector as usize, IntrSlot { enabled: false, pended: s.pended, ir: s.ir, iels: s.iels });
}

/// Mark the vector pending in the interrupt controller.
pub fn pend_interrupt(ic: &mut InterruptController, vector: u8)
    requires
        (vector as int) < old(ic).spec_len(),
    ensures
        final(ic).slots@ == old(ic).slots@.update(vector as int, (IntrSlot {
            enabled: old(ic).slots@[vector as int].enabled,
            pended: true,
            ir: old(ic).slots@[vector as int].ir,
            iels: old(ic).slots@[vector as int].iels,
        })),
{
    let s = ic.slots[vector as usize];
    ic.slots.set(vector as usize, IntrSlot { enabled: s.enabled, pended: true, ir: s.ir, iels: s.iels });
}

/// Link the vector to a peripheral event.
pub fn map_interrupt(ic: &mut InterruptController, vector: u8, event_id: u8)
    requires
        (vector as int) < old(ic).spec_len(),
    ensures
        final(ic).slots@ == old(ic).slots@.update(vector as int, (IntrSlot {
            enabled: old(ic).slots@[vector as int].enabled,
            pended: old(ic).slots@[vector as int].pended,
            ir: old(ic).slots@[vector as int].ir,
            iels: event_id,
        })),
{
    let s = ic.slots[vector as usize];
    ic.slots.set(vector as usize, IntrSlot { enabled: s.enabled, pended: s.pended, ir: s.ir, iels: event_id });
}

/// Link the vector to a peripheral event and unmask it.
pub fn map_and_enable_interrupt(ic: &mut InterruptController, vector: u8, event_id: u8)
    requires
        (vector as int) < old(ic).spec_len(),
    ensures
        final(ic).slots@ == old(ic).slots@.update(vector as int, (IntrSlot {
            enabled: true,
            pended: old(ic).slots@[vector as int].pended,
            ir: old(ic).slots@[vector as int].ir,
            iels: event_id,
        })),
{
    map_interrupt(ic, vector, event_id);
    enable_interrupt(ic, vector);
    proof {
        assert(ic.slots@ =~= old(ic).slots@.update(vector as int, (IntrSlot {
            enabled: true,
            pended: old(ic).slots@[vector as int].pended,
            ir: old(ic).slots@[vector as int].ir,
            iels: event_id,
        })));
    }
}

} // verus!
