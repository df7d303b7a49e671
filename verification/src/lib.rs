//! Control-plane addressing and wire-encoding layer for a UWB transceiver
//! that is reached over a byte-oriented synchronous serial bus.
//!
//! The device exposes its configuration, status and data buffers as a flat
//! address space of register files, each subdivided into bit-granular fields,
//! plus a set of payload-less fast commands.  Everything the driver does is
//! reduced to "compute the right header bytes, then move N bytes across the
//! bus", so this crate proves the bit-level encoding of the four transaction
//! header formats and the field extraction/insertion arithmetic once and for
//! all.
//!
//! - [`spi`] holds the transaction header encoder: four one-shot header
//!   constructors, the frame assemblers, and an incremental header builder.
//! - [`reg`] holds the register/field addressing model: descriptors for an
//!   addressable register file and a bit-range within it, and the generic
//!   read/write operations on a staged byte buffer.
//! - [`commands`] and [`interrupts`] are the closed vocabularies of fast
//!   command opcodes and interrupt bit positions.
//! - [`hl`] carries the high-level driver vocabulary: the driver handle and
//!   the error taxonomy that transport and driver layers report with.

pub mod bits;
pub mod commands;
pub mod hl;
pub mod interrupts;
pub mod reg;
pub mod spi;
