//! Clock-configuration introspection: the divider, selection and
//! oscillator settings as plain values, assembled from the raw register
//! fields the owning layer reads out of the system-clock block.

use vstd::prelude::*;

verus! {

/// A snapshot of the clock configuration.
#[derive(Debug, Clone, Copy, PartialEq, Eq, Structural)]
pub struct Config {
    /// System clock divider.
    pub iclk: u8,
    /// Flash interface clock divider.
    pub fck: u8,
    /// Peripheral module clock dividers.
    pub pcka: u8,
    pub pckb: u8,
    pub pckc: u8,
    pub pckd: u8,
    /// Clock source selection.
    pub cksel: u8,
    pub hoco: Hoco,
}

/// State of the high-speed on-chip oscillator.
#[derive(Debug, Clone, Copy, PartialEq, Eq, Structural)]
pub struct Hoco {
    /// Oscillator stopped.
    pub hcstp: bool,
    /// Frequency-setting bits.
    pub hcfrq: u8,
}

impl Config {
    /// Assemble the snapshot from raw register fields. The divider and
    /// selection fields are taken as read; the oscillator
    /// frequency-setting bits sit above the low three bits of their
    /// register byte.
    pub fn from_system(
        iclk: u8,
        fck: u8,
        pcka: u8,
        pckb: u8,
        pckc: u8,
        pckd: u8,
        cksel: u8,
        hcstp: bool,
        hoco_raw: u8,
    ) -> (r: Config)
        ensures
            r == (Config {
                iclk,
                fck,
                pcka,
                pckb,
                pckc,
                pckd,
                cksel,
                hoco: Hoco { hcstp, hcfrq: hoco_raw >> 3 },
            }),
    {
        Config { iclk, fck, pcka, pckb, pckc, pckd, cksel, hoco: Hoco { hcstp, hcfrq: hoco_raw >> 3 } }
    }
}

} // verus!
