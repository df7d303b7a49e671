//! The closed set of fast command opcodes.
//!
//! A fast command is a payload-less, one-header-byte bus transaction that
//! triggers an immediate device state transition.  The opcode values are
//! part of the wire contract: [`opcode`](Command::opcode) returns the 5-bit
//! code that the header encoder places into bits 2-6 of the header byte.

use vstd::prelude::*;

verus! {

/// A fast command.
#[derive(Clone, Copy, Debug, PartialEq, Eq, Structural)]
pub enum Command {
    /// `CMD_TXRXOFF`: put the device into the `IDLE` state and clear any
    /// events.
    TxRxOff,
    /// `CMD_TX`: immediately begin transmitting.
    Tx,
    /// `CMD_RX`: immediately begin receiving.
    Rx,
    /// `CMD_DTX`: delayed transmission at `DX_TIME`.
    Dtx,
    /// `CMD_DRX`: delayed reception at `DX_TIME`.
    Drx,
    /// `CMD_DTX_TS`: delayed transmission at {last Tx timestamp} + `DX_TIME`.
    DtxTs,
    /// `CMD_DRX_TS`: delayed reception at {last Tx timestamp} + `DX_TIME`.
    DrxTs,
    /// `CMD_DTX_RS`: delayed transmission at {last Rx timestamp} + `DX_TIME`.
    DtxRs,
    /// `CMD_DRX_RS`: delayed reception at {last Rx timestamp} + `DX_TIME`.
    DrxRs,
    /// `CMD_DTX_REF`: delayed transmission at `DREF_TIME` + `DX_TIME`.
    DtxRef,
    /// `CMD_DRX_REF`: delayed reception at `DREF_TIME` + `DX_TIME`.
    DrxRef,
    /// `CMD_CCA_TX`: transmit a packet if no preamble is detected.
    CcaTx,
    /// `CMD_TX_W4R`: immediately begin transmitting, then wait to receive a
    /// response.
    TxW4r,
    /// `CMD_DTX_W4R`: delayed transmission at `DX_TIME`, then wait to
    /// receive a response.
    DtxW4r,
    /// `CMD_DTX_TS_W4R`: delayed transmission at {last Tx timestamp} +
    /// `DX_TIME`, then wait to receive a response.
    DtxTsW4r,
    /// `CMD_DTX_RS_W4R`: delayed transmission at {last Rx timestamp} +
    /// `DX_TIME`, then wait to receive a response.
    DtxRsW4r,
    /// `CMD_DTX_REF_W4R`: delayed transmission at `DREF_TIME` + `DX_TIME`,
    /// then wait to receive a response.
    DtxRefW4r,
    /// `CMD_CCA_TX_W4R`: transmit a packet if no preamble is detected, then
    /// wait to receive a response.
    CcaTxW4r,
    /// `CMD_CLR_IRQS`: clear all interrupt events.
    ClrIrqs,
    /// `CMD_DB_TOGGLE`: toggle the double buffer pointer and notify the
    /// device that the host has finished processing the received data.
    DbToggle,
}

/// The 5-bit opcode of a fast command, as listed in the device's fast
/// command table.
pub open spec fn command_opcode(command: Command) -> u8 {
    match command {
        Command::TxRxOff => 0x00,
        Command::Tx => 0x01,
        Command::Rx => 0x02,
        Command::Dtx => 0x03,
        Command::Drx => 0x04,
        Command::DtxTs => 0x05,
        Command::DrxTs => 0x06,
        Command::DtxRs => 0x07,
        Command::DrxRs => 0x08,
        Command::DtxRef => 0x09,
        Command::DrxRef => 0x0A,
        Command::CcaTx => 0x0B,
        Command::TxW4r => 0x0C,
        Command::DtxW4r => 0x0D,
        Command::DtxTsW4r => 0x0E,
        Command::DtxRsW4r => 0x0F,
        Command::DtxRefW4r => 0x10,
        Command::CcaTxW4r => 0x11,
        Command::ClrIrqs => 0x12,
        Command::DbToggle => 0x13,
    }
}

/// Every opcode fits in the 5-bit field of a fast command header.
pub proof fn lemma_command_opcode_fits(command: Command)
    ensures
        command_opcode(command) < 32,
{
}

impl Command {
    /// The 5-bit opcode of this fast command.
    pub fn opcode(&self) -> (code: u8)
        ensures
            code == command_opcode(*self),
    {
        match self {
            Command::TxRxOff => 0x00,
            Command::Tx => 0x01,
            Command::Rx => 0x02,
            Command::Dtx => 0x03,
            Command::Drx => 0x04,
            Command::DtxTs => 0x05,
            Command::DrxTs => 0x06,
            Command::DtxRs => 0x07,
            Command::DrxRs => 0x08,
            Command::DtxRef => 0x09,
            Command::DrxRef => 0x0A,
            Command::CcaTx => 0x0B,
            Command::TxW4r => 0x0C,
            Command::DtxW4r => 0x0D,
            Command::DtxTsW4r => 0x0E,
            Command::DtxRsW4r => 0x0F,
            Command::DtxRefW4r => 0x10,
            Command::CcaTxW4r => 0x11,
            Command::ClrIrqs => 0x12,
            Command::DbToggle => 0x13,
        }
    }
}

} // verus!
