//! The closed set of interrupt bit positions.
//!
//! Each interrupt is a named bit within the device's interrupt registers.
//! The bit positions are not contiguous, and they span two 32-bit status
//! sub-registers, so the offsets range from 0 to 64.  Consumers compose a
//! mask by OR-ing [`mask`](Interrupt::mask) values together rather than by
//! guessing contiguous ranges.

use vstd::prelude::*;

verus! {

/// An interrupt raised by the device.
#[derive(Clone, Copy, Debug, PartialEq, Eq, Structural)]
pub enum Interrupt {
    Cplock,
    Spicrce,
    Aat,
    Txfrb,
    Txprs,
    Txphs,
    Txfrs,
    Rxprd,
    Rxsfdd,
    Ciadone,
    Rxphd,
    Rxphe,
    Rxfr,
    Rxfcg,
    Rxfce,
    Rxfsl,
    Rxfto,
    Ciaerr,
    Vwarn,
    Rxovrr,
    Rxpto,
    Spirdy,
    Rcinit,
    PllHilo,
    Rxsto,
    Hpdwarn,
    Cperr,
    Arfe,
    Rxprej,
    VtDet,
    Gpioirq,
    AesDone,
    AesErr,
    CmdErr,
    SpiOvf,
    SpiUnf,
    Spierr,
    CcaFail,
}

/// The offset of an interrupt's bit within the interrupt registers.
pub open spec fn interrupt_offset(interrupt: Interrupt) -> u8 {
    match interrupt {
        Interrupt::Cplock => 1,
        Interrupt::Spicrce => 2,
        Interrupt::Aat => 3,
        Interrupt::Txfrb => 4,
        Interrupt::Txprs => 5,
        Interrupt::Txphs => 6,
        Interrupt::Txfrs => 7,
        Interrupt::Rxprd => 8,
        Interrupt::Rxsfdd => 9,
        Interrupt::Ciadone => 10,
        Interrupt::Rxphd => 11,
        Interrupt::Rxphe => 12,
        Interrupt::Rxfr => 13,
        Interrupt::Rxfcg => 14,
        Interrupt::Rxfce => 15,
        Interrupt::Rxfsl => 16,
        Interrupt::Rxfto => 17,
        Interrupt::Ciaerr => 18,
        Interrupt::Vwarn => 19,
        Interrupt::Rxovrr => 20,
        Interrupt::Rxpto => 21,
        Interrupt::Spirdy => 23,
        Interrupt::Rcinit => 24,
        Interrupt::PllHilo => 25,
        Interrupt::Rxsto => 26,
        Interrupt::Hpdwarn => 27,
        Interrupt::Cperr => 28,
        Interrupt::Arfe => 29,
        Interrupt::Rxprej => 33,
        Interrupt::VtDet => 36,
        Interrupt::Gpioirq => 37,
        Interrupt::AesDone => 38,
        Interrupt::AesErr => 39,
        Interrupt::CmdErr => 40,
        Interrupt::SpiOvf => 41,
        Interrupt::SpiUnf => 42,
        Interrupt::Spierr => 43,
        Interrupt::CcaFail => 44,
    }
}

/// Every interrupt offset lands within the two 32-bit status words.
pub proof fn lemma_interrupt_offset_fits(interrupt: Interrupt)
    ensures
        interrupt_offset(interrupt) < 64,
{
}

impl Interrupt {
    /// The offset of this interrupt's bit within the interrupt registers.
    pub fn offset(&self) -> (off: u8)
        ensures
            off == interrupt_offset(*self),
    {
        match self {
            Interrupt::Cplock => 1,
            Interrupt::Spicrce => 2,
            Interrupt::Aat => 3,
            Interrupt::Txfrb => 4,
            Interrupt::Txprs => 5,
            Interrupt::Txphs => 6,
            Interrupt::Txfrs => 7,
            Interrupt::Rxprd => 8,
            Interrupt::Rxsfdd => 9,
            Interrupt::Ciadone => 10,
            Interrupt::Rxphd => 11,
            Interrupt::Rxphe => 12,
            Interrupt::Rxfr => 13,
            Interrupt::Rxfcg => 14,
            Interrupt::Rxfce => 15,
            Interrupt::Rxfsl => 16,
            Interrupt::Rxfto => 17,
            Interrupt::Ciaerr => 18,
            Interrupt::Vwarn => 19,
            Interrupt::Rxovrr => 20,
            Interrupt::Rxpto => 21,
            Interrupt::Spirdy => 23,
            Interrupt::Rcinit => 24,
            Interrupt::PllHilo => 25,
            Interrupt::Rxsto => 26,
            Interrupt::Hpdwarn => 27,
            Interrupt::Cperr => 28,
            Interrupt::Arfe => 29,
            Interrupt::Rxprej => 33,
            Interrupt::VtDet => 36,
            Interrupt::Gpioirq => 37,
            Interrupt::AesDone => 38,
            Interrupt::AesErr => 39,
            Interrupt::CmdErr => 40,
            Interrupt::SpiOvf => 41,
            Interrupt::SpiUnf => 42,
            Interrupt::Spierr => 43,
            Interrupt::CcaFail => 44,
        }
    }

    /// This interrupt's bit as a mask over the two 32-bit status words.
    /// Masks for several interrupts are composed by OR-ing them together.
    pub fn mask(&self) -> (m: u64)
        ensures
            m == (1u64 << interrupt_offset(*self)),
    {
        proof {
            lemma_interrupt_offset_fits(*self);
        }
        1u64 << self.offset()
    }
}

} // verus!
