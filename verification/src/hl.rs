//! The high-level driver vocabulary.
//!
//! The driver handle and the closed error taxonomy that the transport and
//! driver layers classify device-reported failures with.  This layer only
//! defines the vocabulary; the errors themselves are raised by the
//! collaborators that move bytes across the bus.

use vstd::prelude::*;

verus! {

/// High-level driver handle for the transceiver.
pub struct DW3XXX {}

impl DW3XXX {
    /// Constructs a new driver handle.
    pub fn new() -> (device: DW3XXX) {
        DW3XXX {}
    }

    /// Decomposes a driver handle.
    pub fn decompose(self) -> () {
        ()
    }
}

/// The baseline from which a delayed transceiver operation is measured.
#[derive(Clone, Copy, Debug, PartialEq, Eq, Structural)]
pub enum TransceiverDelay {
    /// The delay is an absolute point in time.
    Absolute,
    /// The delay is measured from the last receive time.
    LastRx,
    /// The delay is measured from the last transmit time.
    LastTx,
    /// The delay is measured from the value in the `DREF_TIME` register.
    Internal,
}

/// An error from a combined transmit-then-receive operation.
#[derive(Clone, Copy, Debug, PartialEq, Eq, Structural)]
pub enum TransmitReceiveCommandError {
    /// One of the receiver related errors.
    ReceiverError(ReceiverError),
    /// One of the fast command related errors.
    CommandError(FastCommandError),
}

/// An error from a receive operation.
#[derive(Clone, Copy, Debug, PartialEq, Eq, Structural)]
pub enum ReceiveCommandError {
    /// One of the receiver related errors.
    ReceiverError(ReceiverError),
    /// One of the fast command related errors.
    CommandError(FastCommandError),
}

/// An error reported by the receiver.
#[derive(Clone, Copy, Debug, PartialEq, Eq, Structural)]
pub enum ReceiverError {
    /// No preamble arrived in time.
    PreambleTimeout,
    /// The preamble was rejected.
    PreambleRejection,
    /// No start-of-frame delimiter arrived in time.
    SfdTimeout,
    /// No frame arrived within the frame-wait timeout.
    FrameTimeout,
    /// The PHY header could not be decoded.
    PhrDecodeError,
    /// Forward error correction failed.
    ReedSolomonDecodeError,
    /// The leading-edge/timestamp engine timed out.
    CiaTimeout,
    /// Receiver double buffer overrun.  Only possible when the optional
    /// double buffering functionality is enabled.
    DoubleBufferOverrun,
}

/// A data frame delivered by the receiver.
#[derive(Clone, Copy, Debug, PartialEq, Eq, Structural)]
pub enum ReceiverFrame {
    /// A received frame that has passed the CRC check.
    Valid(),
    /// A received frame that has not passed the CRC check.
    Partial(),
}

/// An error from a fast command bus transaction.
#[derive(Clone, Copy, Debug, PartialEq, Eq, Structural)]
pub enum FastCommandError {
    /// One of the serial bus related errors.
    SpiError(SpiError),
    /// The device rejected the fast command, usually because fast commands
    /// were issued in too quick succession.
    FastCommandError,
}

/// An error from a serial bus transaction.
#[derive(Clone, Copy, Debug, PartialEq, Eq, Structural)]
pub enum SpiError {
    /// The transaction failed the CRC check.  Only possible when the
    /// optional bus CRC functionality is enabled.
    CrcError,
    /// Bus overflow.
    OverflowError,
    /// Bus underflow.
    UnderflowError,
    /// Bus collision from internal contention with the device.
    CollisionError,
}

} // verus!
