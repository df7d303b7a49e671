//! The transaction header encoder.
//!
//! Every exchange with the device starts with a one or two byte header that
//! encodes the transaction kind, the access mode and the addressing.  This
//! module proves the bit layout of all four header formats:
//!
//! - fast command, one byte: `1 0 C C C C C 1` with `C` the 5-bit opcode;
//! - short addressed, one byte: `A 0 B B B B B 0` with `A` the access mode
//!   and `B` the 5-bit register file base address;
//! - full addressed, two bytes: `A 1 B B B B B S | S S S S S S 0 0` with
//!   the 7-bit sub-address `S` split across the byte boundary;
//! - masked write, two bytes: as full addressed, with the access mode forced
//!   to write and the low two bits of the second byte carrying the width
//!   code.
//!
//! Bit 0 in the layouts above is the most significant bit of the first
//! byte.  The four one-shot construction functions are total: the 5-bit and
//! 7-bit address arguments are masked by construction, so every input
//! produces a valid header and no error path exists.
//!
//! The [`TransactionHeaderBuilder`] assembles a header incrementally for
//! callers that need to set the regions in separate steps.  Each region has
//! a `clear` operation (zero the region), a `write` operation (OR bits into
//! the region, assuming it was zero) and a `set` operation (clear, then
//! write).  The builder does not reject inconsistent intermediate states;
//! only `build` re-asserts the length-discriminator bit.  Callers that want
//! strict guarantees should use the one-shot functions.

use vstd::prelude::*;

use crate::commands::Command;
use crate::commands::command_opcode;
use crate::commands::lemma_command_opcode_fits;
use crate::reg::Register;

verus! {

/// The access mode of a short addressed or full addressed transaction.
#[derive(Clone, Copy, Debug, PartialEq, Eq, Structural)]
pub enum AccessMode {
    Read,
    Write,
}

/// The write length mode of a masked write transaction.
#[derive(Clone, Copy, Debug, PartialEq, Eq, Structural)]
pub enum MaskedWriteMode {
    /// No mask: the transaction is an ordinary full addressed write over
    /// the register's whole length.
    Unmasked,
    /// An 8-bit masked write with a one byte payload.
    EightBit,
    /// A 16-bit masked write with a two byte payload.
    SixteenBit,
    /// A 32-bit masked write with a four byte payload.
    ThirtyTwoBit,
}

/// The access mode bit of a header: 0 for read, 1 for write.
pub open spec fn access_mode_bit(mode: AccessMode) -> u8 {
    match mode {
        AccessMode::Read => 0,
        AccessMode::Write => 1,
    }
}

/// The 2-bit width code of a masked write: `01` for 8-bit, `10` for
/// 16-bit, `11` for 32-bit and `00` for an unmasked write.
pub open spec fn masked_write_bits(mode: MaskedWriteMode) -> u8 {
    match mode {
        MaskedWriteMode::Unmasked => 0b00,
        MaskedWriteMode::EightBit => 0b01,
        MaskedWriteMode::SixteenBit => 0b10,
        MaskedWriteMode::ThirtyTwoBit => 0b11,
    }
}

impl AccessMode {
    /// The access mode bit of this mode.
    pub fn bit(&self) -> (b: u8)
        ensures
            b == access_mode_bit(*self),
    {
        match self {
            AccessMode::Read => 0,
            AccessMode::Write => 1,
        }
    }
}

impl MaskedWriteMode {
    /// The 2-bit width code of this mode.
    pub fn bits(&self) -> (b: u8)
        ensures
            b == masked_write_bits(*self),
    {
        match self {
            MaskedWriteMode::Unmasked => 0b00,
            MaskedWriteMode::EightBit => 0b01,
            MaskedWriteMode::SixteenBit => 0b10,
            MaskedWriteMode::ThirtyTwoBit => 0b11,
        }
    }
}

/// The header byte of a fast command transaction: access mode write, the
/// 5-bit opcode in bits 2-6, and both the type bit and the most significant
/// bit set.
pub open spec fn fast_command_byte(command: Command) -> u8 {
    0b1000_0001u8 | ((command_opcode(command) & 0b0001_1111) << 1)
}

/// The header byte of a short addressed transaction: the access mode in the
/// most significant bit and the 5-bit base address in bits 2-6.
pub open spec fn short_header_byte(base_address: u8, mode: AccessMode) -> u8 {
    (access_mode_bit(mode) << 7) | ((base_address & 0b0001_1111) << 1)
}

/// The first header byte of a full addressed or masked write transaction:
/// the access mode in the most significant bit, the length-discriminator
/// bit set, the 5-bit base address in bits 2-6 and the top bit of the
/// 7-bit sub-address in the least significant bit.
pub open spec fn full_header_byte0(base_address: u8, sub_address: u8, mode: AccessMode) -> u8 {
    (access_mode_bit(mode) << 7) | 0b0100_0000u8 | ((base_address & 0b0001_1111) << 1) | (
    (sub_address >> 6) & 1)
}

/// The sub-address part of the second header byte of a full addressed or
/// masked write transaction: the low six bits of the sub-address in the top
/// six bits.
pub open spec fn sub_address_byte(sub_address: u8) -> u8 {
    (sub_address & 0b0011_1111) << 2
}

/// Both header bytes of a full addressed transaction.
pub open spec fn full_addressed_header_bytes(
    base_address: u8,
    sub_address: u8,
    mode: AccessMode,
) -> Seq<u8> {
    seq![full_header_byte0(base_address, sub_address, mode), sub_address_byte(sub_address)]
}

/// Both header bytes of a masked write transaction: a full addressed write
/// header with the width code in the low two bits of the second byte.
pub open spec fn masked_write_header_bytes(
    base_address: u8,
    sub_address: u8,
    mode: MaskedWriteMode,
) -> Seq<u8> {
    seq![
        full_header_byte0(base_address, sub_address, AccessMode::Write),
        sub_address_byte(sub_address) | masked_write_bits(mode),
    ]
}

/// Whether a payload length is admissible for a masked write: exactly one,
/// two or four bytes per the width code, or the register's whole length for
/// an unmasked write.
pub open spec fn masked_write_len_ok(mode: MaskedWriteMode, register_len: int, payload_len: int) -> bool {
    match mode {
        MaskedWriteMode::Unmasked => payload_len == register_len,
        MaskedWriteMode::EightBit => payload_len == 1,
        MaskedWriteMode::SixteenBit => payload_len == 2,
        MaskedWriteMode::ThirtyTwoBit => payload_len == 4,
    }
}

/// Generates the header for a fast command transaction.
pub fn fast_command_header(command: Command) -> (header: [u8; 1])
    ensures
        header@ == seq![fast_command_byte(command)],
{
    let mut builder = TransactionHeaderBuilder::new_fast_command();

    builder.write_fast_command_type(command);

    let header = builder.build();
    proof {
        let k = command_opcode(command);
        assert(((0b1000_0001u8 | ((k & 0b0001_1111) << 1)) & 0b1011_1111)
            == 0b1000_0001u8 | ((k & 0b0001_1111) << 1)) by (bit_vector);
    }
    header
}

/// Generates the header for a short addressed transaction.
pub fn short_addressed_header(base_address: u8, mode: AccessMode) -> (header: [u8; 1])
    ensures
        header@ == seq![short_header_byte(base_address, mode)],
{
    let mut builder = TransactionHeaderBuilder::new_short();

    builder.write_access_mode(mode).write_base_address(base_address);

    let header = builder.build();
    proof {
        let a = access_mode_bit(mode);
        assert((((0u8 | (a << 7)) | ((base_address & 0b0001_1111) << 1)) & 0b1011_1111)
            == (a << 7) | ((base_address & 0b0001_1111) << 1)) by (bit_vector)
            requires
                a <= 1,
        ;
    }
    header
}

/// Generates the header for a full addressed transaction.
pub fn full_addressed_header(base_address: u8, sub_address: u8, mode: AccessMode) -> (header: [u8;
    2])
    ensures
        header@ == full_addressed_header_bytes(base_address, sub_address, mode),
{
    let mut builder = TransactionHeaderBuilder::new_full();

    builder.write_base_address(base_address).write_sub_address(sub_address).write_access_mode(mode);

    let header = builder.build();
    proof {
        let a = access_mode_bit(mode);
        assert(((((0b0100_0000u8 | ((base_address & 0b0001_1111) << 1)) | ((sub_address >> 6) & 1))
            | (a << 7)) | 0b0100_0000)
            == (a << 7) | 0b0100_0000u8 | ((base_address & 0b0001_1111) << 1) | ((sub_address >> 6)
            & 1)) by (bit_vector);
        assert((0u8 | ((sub_address & 0b0011_1111) << 2)) == (sub_address & 0b0011_1111) << 2)
            by (bit_vector);
    }
    header
}

/// Generates the header for a masked write transaction.
pub fn masked_write_header(base_address: u8, sub_address: u8, mode: MaskedWriteMode) -> (header: [
    u8;
    2])
    ensures
        header@ == masked_write_header_bytes(base_address, sub_address, mode),
{
    let mut builder = TransactionHeaderBuilder::new_full();

    builder
        .write_base_address(base_address)
        .write_sub_address(sub_address)
        .write_access_mode(AccessMode::Write)
        .write_operation_mode(mode);

    let header = builder.build();
    proof {
        let m = masked_write_bits(mode);
        assert(((((0b0100_0000u8 | ((base_address & 0b0001_1111) << 1)) | ((sub_address >> 6) & 1))
            | (1u8 << 7)) | 0b0100_0000)
            == (1u8 << 7) | 0b0100_0000u8 | ((base_address & 0b0001_1111) << 1) | ((sub_address
            >> 6) & 1)) by (bit_vector);
        assert(((0u8 | ((sub_address & 0b0011_1111) << 2)) | (m & 0b0000_0011))
            == ((sub_address & 0b0011_1111) << 2) | m) by (bit_vector)
            requires
                m <= 3,
        ;
    }
    header
}

/// Assembles the outgoing byte stream of a fast command transaction: the
/// single header byte, with no payload.
pub fn fast_command(command: Command) -> (frame: Vec<u8>)
    ensures
        frame@ == seq![fast_command_byte(command)],
{
    let header = fast_command_header(command);
    let mut frame: Vec<u8> = Vec::new();
    frame.push(header[0]);
    frame
}

/// Assembles the outgoing byte stream of a short addressed transaction:
/// the header byte followed by the register's `length` payload bytes.  For
/// a read the payload bytes are the filler clocked out while the device
/// returns data.
pub fn short_addressed(register: &Register, mode: AccessMode, payload: &Vec<u8>) -> (frame: Vec<
    u8,
>)
    requires
        register.wf(),
        payload@.len() == register.len,
    ensures
        frame@ == seq![short_header_byte(register.base_address, mode)] + payload@,
{
    let header = short_addressed_header(register.base_address, mode);
    let mut frame: Vec<u8> = Vec::new();
    frame.push(header[0]);
    push_all(&mut frame, payload);
    frame
}

/// Assembles the outgoing byte stream of a full addressed transaction: the
/// two header bytes followed by the register's `length` payload bytes.  For
/// a read the payload bytes are the filler clocked out while the device
/// returns data.
pub fn full_addressed(register: &Register, mode: AccessMode, payload: &Vec<u8>) -> (frame: Vec<u8>)
    requires
        register.wf(),
        payload@.len() == register.len,
    ensures
        frame@ == full_addressed_header_bytes(register.base_address, register.sub_address, mode)
            + payload@,
{
    let header = full_addressed_header(register.base_address, register.sub_address, mode);
    let mut frame: Vec<u8> = Vec::new();
    frame.push(header[0]);
    frame.push(header[1]);
    push_all(&mut frame, payload);
    proof {
        assert(seq![header@[0], header@[1]] =~= full_addressed_header_bytes(
            register.base_address,
            register.sub_address,
            mode,
        ));
    }
    frame
}

/// Assembles the outgoing byte stream of a masked write transaction: the
/// two header bytes followed by a payload of exactly one, two or four bytes
/// per the width code, or the register's whole length for an unmasked
/// write.
pub fn masked_write(register: &Register, mode: MaskedWriteMode, payload: &Vec<u8>) -> (frame: Vec<
    u8,
>)
    requires
        register.wf(),
        masked_write_len_ok(mode, register.len as int, payload@.len() as int),
    ensures
        frame@ == masked_write_header_bytes(register.base_address, register.sub_address, mode)
            + payload@,
{
    let header = masked_write_header(register.base_address, register.sub_address, mode);
    let mut frame: Vec<u8> = Vec::new();
    frame.push(header[0]);
    frame.push(header[1]);
    push_all(&mut frame, payload);
    proof {
        assert(seq![header@[0], header@[1]] =~= masked_write_header_bytes(
            register.base_address,
            register.sub_address,
            mode,
        ));
    }
    frame
}

/// Appends every payload byte to the frame, in order.
fn push_all(frame: &mut Vec<u8>, payload: &Vec<u8>)
    ensures
        final(frame)@ == old(frame)@ + payload@,
{
    let mut i: usize = 0;
    while i < payload.len()
        invariant
            i <= payload@.len(),
            frame@ == old(frame)@ + payload@.subrange(0, i as int),
        decreases payload@.len() - i,
    {
        frame.push(payload[i]);
        proof {
            assert(old(frame)@ + payload@.subrange(0, i as int) + seq![payload@[i as int]]
                =~= old(frame)@ + payload@.subrange(0, i + 1));
        }
        i = i + 1;
    }
    proof {
        assert(old(frame)@ + payload@.subrange(0, payload@.len() as int) =~= old(frame)@
            + payload@);
    }
}

/// Every bit of a short addressed header is where the wire format puts it:
/// the access mode in the most significant bit, a zero length-discriminator
/// bit, the base address in bits 2-6 and a zero least significant bit.
pub proof fn lemma_short_header_layout(base_address: u8, mode: AccessMode)
    requires
        base_address < 32,
    ensures
        short_header_byte(base_address, mode) >> 7 == access_mode_bit(mode),
        (short_header_byte(base_address, mode) >> 6) & 1 == 0,
        (short_header_byte(base_address, mode) >> 1) & 0b0001_1111 == base_address,
        short_header_byte(base_address, mode) & 1 == 0,
{
    let a = access_mode_bit(mode);
    assert(a <= 1);
    assert(((a << 7) | ((base_address & 0b0001_1111) << 1)) >> 7 == a
        && ((((a << 7) | ((base_address & 0b0001_1111) << 1)) >> 6) & 1) == 0
        && ((((a << 7) | ((base_address & 0b0001_1111) << 1)) >> 1) & 0b0001_1111) == base_address
        && (((a << 7) | ((base_address & 0b0001_1111) << 1)) & 1) == 0) by (bit_vector)
        requires
            a <= 1,
            base_address < 32,
    ;
}

/// Every bit of a full addressed header is where the wire format puts it:
/// the access mode in the most significant bit, the length-discriminator
/// bit set, the base address in bits 2-6, and the 7-bit sub-address
/// recovered exactly from the least significant bit of the first byte and
/// the top six bits of the second.
pub proof fn lemma_full_header_layout(base_address: u8, sub_address: u8, mode: AccessMode)
    requires
        base_address < 32,
        sub_address < 128,
    ensures
        full_header_byte0(base_address, sub_address, mode) >> 7 == access_mode_bit(mode),
        (full_header_byte0(base_address, sub_address, mode) >> 6) & 1 == 1,
        (full_header_byte0(base_address, sub_address, mode) >> 1) & 0b0001_1111 == base_address,
        ((full_header_byte0(base_address, sub_address, mode) & 1) << 6) | (sub_address_byte(
            sub_address,
        ) >> 2) == sub_address,
        sub_address_byte(sub_address) & 0b0000_0011 == 0,
{
    let a = access_mode_bit(mode);
    assert(a <= 1);
    let b0 = (a << 7) | 0b0100_0000u8 | ((base_address & 0b0001_1111) << 1) | ((sub_address >> 6)
        & 1);
    let b1 = (sub_address & 0b0011_1111) << 2;
    assert(b0 >> 7 == a && (b0 >> 6) & 1 == 1 && (b0 >> 1) & 0b0001_1111 == base_address && ((b0
        & 1) << 6) | (b1 >> 2) == sub_address && b1 & 0b0000_0011 == 0) by (bit_vector)
        requires
            a <= 1,
            base_address < 32,
            sub_address < 128,
            b0 == (a << 7) | 0b0100_0000u8 | ((base_address & 0b0001_1111) << 1) | ((sub_address
                >> 6) & 1),
            b1 == (sub_address & 0b0011_1111) << 2,
    ;
}

/// An unmasked "masked write" header is exactly a full addressed write
/// header.
pub proof fn lemma_unmasked_write_is_full_addressed_write(base_address: u8, sub_address: u8)
    ensures
        masked_write_header_bytes(base_address, sub_address, MaskedWriteMode::Unmasked)
            == full_addressed_header_bytes(base_address, sub_address, AccessMode::Write),
{
    let b1 = sub_address_byte(sub_address);
    assert(b1 | 0 == b1) by (bit_vector);
    assert(masked_write_header_bytes(base_address, sub_address, MaskedWriteMode::Unmasked)
        =~= full_addressed_header_bytes(base_address, sub_address, AccessMode::Write));
}

/// Every bit of a fast command header is where the wire format puts it: the
/// most significant bit and the least significant bit set, a zero
/// length-discriminator bit, and the opcode in bits 2-6.
pub proof fn lemma_fast_command_layout(command: Command)
    ensures
        fast_command_byte(command) >> 7 == 1,
        (fast_command_byte(command) >> 6) & 1 == 0,
        (fast_command_byte(command) >> 1) & 0b0001_1111 == command_opcode(command),
        fast_command_byte(command) & 1 == 1,
{
    let k = command_opcode(command);
    lemma_command_opcode_fits(command);
    assert((0b1000_0001u8 | ((k & 0b0001_1111) << 1)) >> 7 == 1
        && (((0b1000_0001u8 | ((k & 0b0001_1111) << 1)) >> 6) & 1) == 0
        && (((0b1000_0001u8 | ((k & 0b0001_1111) << 1)) >> 1) & 0b0001_1111) == k
        && ((0b1000_0001u8 | ((k & 0b0001_1111) << 1)) & 1) == 1) by (bit_vector)
        requires
            k < 32,
    ;
}

/// An incremental builder for transaction headers.
///
/// `N` is the header width in bytes: one for fast command and short
/// addressed headers, two for full addressed and masked write headers.
#[derive(Clone, Copy)]
pub struct TransactionHeaderBuilder<const N: usize> {
    inner: [u8; N],
}

impl<const N: usize> View for TransactionHeaderBuilder<N> {
    type V = Seq<u8>;

    closed spec fn view(&self) -> Seq<u8> {
        self.inner@
    }
}

impl<const N: usize> TransactionHeaderBuilder<N> {
    /// Clears the access mode bit of the header.
    pub fn clear_access_mode(&mut self) -> (ret: &mut Self)
        requires
            N >= 1,
        ensures
            (*ret)@ == old(self)@.update(0, old(self)@[0] & 0b0111_1111),
            final(self)@ == final(ret)@,
    {
        self.inner[0] = self.inner[0] & 0b0111_1111;

        self
    }

    /// Writes the access mode bit of the header.
    ///
    /// This method does not clear the bit beforehand; see
    /// [`set_access_mode`](TransactionHeaderBuilder::set_access_mode).
    pub fn write_access_mode(&mut self, mode: AccessMode) -> (ret: &mut Self)
        requires
            N >= 1,
        ensures
            (*ret)@ == old(self)@.update(0, old(self)@[0] | (access_mode_bit(mode) << 7)),
            final(self)@ == final(ret)@,
    {
        let bit = mode.bit();
        self.inner[0] = self.inner[0] | (bit << 7);

        self
    }

    /// Sets the access mode bit of the header to the given access mode.
    pub fn set_access_mode(&mut self, mode: AccessMode) -> (ret: &mut Self)
        requires
            N >= 1,
        ensures
            (*ret)@ == old(self)@.update(
                0,
                (old(self)@[0] & 0b0111_1111) | (access_mode_bit(mode) << 7),
            ),
            final(self)@ == final(ret)@,
    {
        let ret = self.clear_access_mode().write_access_mode(mode);
        proof {
            assert((*ret)@ =~= old(self)@.update(
                0,
                (old(self)@[0] & 0b0111_1111) | (access_mode_bit(mode) << 7),
            ));
        }
        ret
    }

    /// Clears the type bit of the header.
    pub fn clear_type_bit(&mut self) -> (ret: &mut Self)
        requires
            N >= 1,
        ensures
            (*ret)@ == old(self)@.update(0, old(self)@[0] & 0b1111_1110),
            final(self)@ == final(ret)@,
    {
        self.inner[0] = self.inner[0] & 0b1111_1110;

        self
    }

    /// Writes the type bit of the header.
    ///
    /// This method does not clear the bit beforehand; see
    /// [`set_type_bit`](TransactionHeaderBuilder::set_type_bit).
    pub fn write_type_bit(&mut self, bit: u8) -> (ret: &mut Self)
        requires
            N >= 1,
        ensures
            (*ret)@ == old(self)@.update(0, old(self)@[0] | (bit & 0b0000_0001)),
            final(self)@ == final(ret)@,
    {
        self.inner[0] = self.inner[0] | (bit & 0b0000_0001);

        self
    }

    /// Sets the type bit of the header.
    pub fn set_type_bit(&mut self, bit: u8) -> (ret: &mut Self)
        requires
            N >= 1,
        ensures
            (*ret)@ == old(self)@.update(
                0,
                (old(self)@[0] & 0b1111_1110) | (bit & 0b0000_0001),
            ),
            final(self)@ == final(ret)@,
    {
        let ret = self.clear_type_bit().write_type_bit(bit);
        proof {
            assert((*ret)@ =~= old(self)@.update(
                0,
                (old(self)@[0] & 0b1111_1110) | (bit & 0b0000_0001),
            ));
        }
        ret
    }

    /// Clears the middle five bits of the header.
    pub fn clear_five_bits(&mut self) -> (ret: &mut Self)
        requires
            N >= 1,
        ensures
            (*ret)@ == old(self)@.update(0, old(self)@[0] & 0b1100_0001),
            final(self)@ == final(ret)@,
    {
        self.inner[0] = self.inner[0] & 0b1100_0001;
        self
    }

    /// Writes the middle five bits of the header.
    ///
    /// This method does not clear the bits beforehand; see
    /// [`set_five_bits`](TransactionHeaderBuilder::set_five_bits).
    pub fn write_five_bits(&mut self, bits: u8) -> (ret: &mut Self)
        requires
            N >= 1,
        ensures
            (*ret)@ == old(self)@.update(0, old(self)@[0] | ((bits & 0b0001_1111) << 1)),
            final(self)@ == final(ret)@,
    {
        self.inner[0] = self.inner[0] | ((bits & 0b0001_1111) << 1);
        self
    }

    /// Sets the middle five bits of the header.
    pub fn set_five_bits(&mut self, bits: u8) -> (ret: &mut Self)
        requires
            N >= 1,
        ensures
            (*ret)@ == old(self)@.update(
                0,
                (old(self)@[0] & 0b1100_0001) | ((bits & 0b0001_1111) << 1),
            ),
            final(self)@ == final(ret)@,
    {
        let ret = self.clear_five_bits().write_five_bits(bits);
        proof {
            assert((*ret)@ =~= old(self)@.update(
                0,
                (old(self)@[0] & 0b1100_0001) | ((bits & 0b0001_1111) << 1),
            ));
        }
        ret
    }

    /// Clears the base address of the header.
    pub fn clear_base_address(&mut self) -> (ret: &mut Self)
        requires
            N >= 1,
        ensures
            (*ret)@ == old(self)@.update(0, old(self)@[0] & 0b1100_0001),
            final(self)@ == final(ret)@,
    {
        self.clear_five_bits()
    }

    /// Writes the base address of the header.
    ///
    /// This method does not clear the bits beforehand; see
    /// [`set_base_address`](TransactionHeaderBuilder::set_base_address).
    pub fn write_base_address(&mut self, address: u8) -> (ret: &mut Self)
        requires
            N >= 1,
        ensures
            (*ret)@ == old(self)@.update(0, old(self)@[0] | ((address & 0b0001_1111) << 1)),
            final(self)@ == final(ret)@,
    {
        self.write_five_bits(address)
    }

    /// Sets the base address of the header.
    pub fn set_base_address(&mut self, address: u8) -> (ret: &mut Self)
        requires
            N >= 1,
        ensures
            (*ret)@ == old(self)@.update(
                0,
                (old(self)@[0] & 0b1100_0001) | ((address & 0b0001_1111) << 1),
            ),
            final(self)@ == final(ret)@,
    {
        let ret = self.clear_base_address().write_base_address(address);
        proof {
            assert((*ret)@ =~= old(self)@.update(
                0,
                (old(self)@[0] & 0b1100_0001) | ((address & 0b0001_1111) << 1),
            ));
        }
        ret
    }
}

impl TransactionHeaderBuilder<1> {
    /// Creates a new, empty, short transaction header.
    pub fn new_short() -> (builder: Self)
        ensures
            builder@ == seq![0b0000_0000u8],
    {
        Self { inner: [0b0000_0000] }
    }

    /// Creates a new, empty, fast command transaction header: access mode
    /// write and the type bit set.
    fn empty_fast_command() -> (builder: Self)
        ensures
            builder@ == seq![0b1000_0001u8],
    {
        let mut header = Self::new_short();

        header.write_access_mode(AccessMode::Write).write_type(true);

        proof {
            assert(((0u8 | (1u8 << 7)) | 1) == 0b1000_0001u8) by (bit_vector);
            assert(header@ =~= seq![0b1000_0001u8]);
        }
        header
    }

    /// Creates a new, empty, fast command transaction header.
    pub fn new_fast_command() -> (builder: Self)
        ensures
            builder@ == seq![0b1000_0001u8],
    {
        Self::empty_fast_command()
    }

    /// Clears the type bit of a short transaction header.
    pub fn clear_type(&mut self) -> (ret: &mut Self)
        ensures
            (*ret)@ == old(self)@.update(0, old(self)@[0] & 0b1111_1110),
            final(self)@ == final(ret)@,
    {
        self.clear_type_bit()
    }

    /// Writes the type bit of a short transaction header.
    ///
    /// This method does not clear the bit beforehand; see
    /// [`set_type`](TransactionHeaderBuilder::set_type).
    pub fn write_type(&mut self, bit: bool) -> (ret: &mut Self)
        ensures
            (*ret)@ == old(self)@.update(
                0,
                old(self)@[0] | (if bit { 1u8 } else { 0u8 }),
            ),
            final(self)@ == final(ret)@,
    {
        let b: u8 = if bit { 1 } else { 0 };
        proof {
            assert((b & 0b0000_0001) == b) by (bit_vector)
                requires
                    b <= 1,
            ;
        }
        self.write_type_bit(b)
    }

    /// Sets the transaction type bit of a short transaction header.
    pub fn set_type(&mut self, bit: bool) -> (ret: &mut Self)
        ensures
            (*ret)@ == old(self)@.update(
                0,
                (old(self)@[0] & 0b1111_1110) | (if bit { 1u8 } else { 0u8 }),
            ),
            final(self)@ == final(ret)@,
    {
        let b: u8 = if bit { 1 } else { 0 };
        proof {
            assert((b & 0b0000_0001) == b) by (bit_vector)
                requires
                    b <= 1,
            ;
        }
        self.set_type_bit(b)
    }

    /// Clears the fast command opcode of a short transaction header.
    pub fn clear_fast_command_type(&mut self) -> (ret: &mut Self)
        ensures
            (*ret)@ == old(self)@.update(0, old(self)@[0] & 0b1100_0001),
            final(self)@ == final(ret)@,
    {
        self.clear_five_bits()
    }

    /// Writes the fast command opcode of a short transaction header.
    ///
    /// This method does not clear the bits beforehand, and it writes only
    /// the middle five bits; it does not format the access mode or the type
    /// bit.  See
    /// [`write_fast_command`](TransactionHeaderBuilder::write_fast_command).
    pub fn write_fast_command_type(&mut self, command: Command) -> (ret: &mut Self)
        ensures
            (*ret)@ == old(self)@.update(
                0,
                old(self)@[0] | ((command_opcode(command) & 0b0001_1111) << 1),
            ),
            final(self)@ == final(ret)@,
    {
        let code = command.opcode();
        self.write_five_bits(code)
    }

    /// Sets the fast command opcode of a short transaction header.
    ///
    /// This method sets only the middle five bits; it does not format the
    /// access mode or the type bit.  See
    /// [`set_fast_command`](TransactionHeaderBuilder::set_fast_command).
    pub fn set_fast_command_type(&mut self, command: Command) -> (ret: &mut Self)
        ensures
            (*ret)@ == old(self)@.update(
                0,
                (old(self)@[0] & 0b1100_0001) | ((command_opcode(command) & 0b0001_1111) << 1),
            ),
            final(self)@ == final(ret)@,
    {
        let code = command.opcode();
        self.set_five_bits(code)
    }

    /// Clears the fast command of a short transaction header: the opcode
    /// together with the access mode and the type bit.
    pub fn clear_fast_command(&mut self) -> (ret: &mut Self)
        ensures
            (*ret)@ == old(self)@.update(0, old(self)@[0] & 0b0100_0000),
            final(self)@ == final(ret)@,
    {
        let ret = self.clear_access_mode().clear_fast_command_type().clear_type();
        proof {
            let x = old(self)@[0];
            assert((((x & 0b0111_1111) & 0b1100_0001) & 0b1111_1110) == x & 0b0100_0000)
                by (bit_vector);
            assert((*ret)@ =~= old(self)@.update(0, old(self)@[0] & 0b0100_0000));
        }
        ret
    }

    /// Writes the fast command of a short transaction header: the opcode,
    /// the access mode forced to write, and the type bit set.
    ///
    /// This method does not clear the bits beforehand; see
    /// [`set_fast_command`](TransactionHeaderBuilder::set_fast_command).
    pub fn write_fast_command(&mut self, command: Command) -> (ret: &mut Self)
        ensures
            (*ret)@ == old(self)@.update(
                0,
                (old(self)@[0] | 0b1000_0001) | ((command_opcode(command) & 0b0001_1111) << 1),
            ),
            final(self)@ == final(ret)@,
    {
        let ret = self.write_access_mode(AccessMode::Write).write_fast_command_type(
            command,
        ).write_type(true);
        proof {
            let x = old(self)@[0];
            let k = command_opcode(command);
            assert((((x | (1u8 << 7)) | ((k & 0b0001_1111) << 1)) | 1) == (x | 0b1000_0001) | ((k
                & 0b0001_1111) << 1)) by (bit_vector);
            assert((*ret)@ =~= old(self)@.update(
                0,
                (old(self)@[0] | 0b1000_0001) | ((command_opcode(command) & 0b0001_1111) << 1),
            ));
        }
        ret
    }

    /// Sets the fast command of a short transaction header: the opcode, the
    /// access mode forced to write, and the type bit set.
    pub fn set_fast_command(&mut self, command: Command) -> (ret: &mut Self)
        ensures
            (*ret)@ == old(self)@.update(
                0,
                (0b1000_0001u8 | (old(self)@[0] & 0b0100_0000)) | ((command_opcode(command)
                    & 0b0001_1111) << 1),
            ),
            final(self)@ == final(ret)@,
    {
        let ret = self.set_access_mode(AccessMode::Write).set_fast_command_type(
            command,
        ).set_type(true);
        proof {
            let x = old(self)@[0];
            let k = command_opcode(command);
            assert(((((((x & 0b0111_1111) | (1u8 << 7)) & 0b1100_0001) | ((k & 0b0001_1111) << 1))
                & 0b1111_1110) | 1) == (0b1000_0001u8 | (x & 0b0100_0000)) | ((k & 0b0001_1111)
                << 1)) by (bit_vector);
            assert((*ret)@ =~= old(self)@.update(
                0,
                (0b1000_0001u8 | (old(self)@[0] & 0b0100_0000)) | ((command_opcode(command)
                    & 0b0001_1111) << 1),
            ));
        }
        ret
    }

    /// Builds the short transaction header, forcing the length-discriminator
    /// bit to 0.
    pub fn build(self) -> (header: [u8; 1])
        ensures
            header@ == seq![self@[0] & 0b1011_1111],
    {
        let byte = self.inner[0] & 0b1011_1111;
        [byte]
    }
}

impl TransactionHeaderBuilder<2> {
    /// Creates a new, empty, full transaction header with the
    /// length-discriminator bit set.
    pub fn new_full() -> (builder: Self)
        ensures
            builder@ == seq![0b0100_0000u8, 0b0000_0000u8],
    {
        Self { inner: [0b0100_0000, 0b0000_0000] }
    }

    /// Clears the operation mode of a full transaction header.
    pub fn clear_operation_mode(&mut self) -> (ret: &mut Self)
        ensures
            (*ret)@ == old(self)@.update(1, old(self)@[1] & 0b1111_1100),
            final(self)@ == final(ret)@,
    {
        self.inner[1] = self.inner[1] & 0b1111_1100;

        self
    }

    /// Writes the operation mode of a full transaction header.
    ///
    /// This method does not clear the bits beforehand; see
    /// [`set_operation_mode`](TransactionHeaderBuilder::set_operation_mode).
    pub fn write_operation_mode(&mut self, mode: MaskedWriteMode) -> (ret: &mut Self)
        ensures
            (*ret)@ == old(self)@.update(
                1,
                old(self)@[1] | (masked_write_bits(mode) & 0b0000_0011),
            ),
            final(self)@ == final(ret)@,
    {
        let bits = mode.bits();
        self.inner[1] = self.inner[1] | (bits & 0b0000_0011);

        self
    }

    /// Sets the operation mode of a full transaction header.
    pub fn set_operation_mode(&mut self, mode: MaskedWriteMode) -> (ret: &mut Self)
        ensures
            (*ret)@ == old(self)@.update(
                1,
                (old(self)@[1] & 0b1111_1100) | (masked_write_bits(mode) & 0b0000_0011),
            ),
            final(self)@ == final(ret)@,
    {
        let ret = self.clear_operation_mode().write_operation_mode(mode);
        proof {
            assert((*ret)@ =~= old(self)@.update(
                1,
                (old(self)@[1] & 0b1111_1100) | (masked_write_bits(mode) & 0b0000_0011),
            ));
        }
        ret
    }

    /// Clears the sub-address of a full transaction header: its top bit in
    /// the first byte and its low six bits in the second.
    pub fn clear_sub_address(&mut self) -> (ret: &mut Self)
        ensures
            (*ret)@ == old(self)@.update(0, old(self)@[0] & 0b1111_1110).update(
                1,
                old(self)@[1] & 0b0000_0011,
            ),
            final(self)@ == final(ret)@,
    {
        self.clear_type_bit();
        self.inner[1] = self.inner[1] & 0b0000_0011;

        self
    }

    /// Writes the sub-address of a full transaction header.
    ///
    /// This method does not clear the bits beforehand; see
    /// [`set_sub_address`](TransactionHeaderBuilder::set_sub_address).
    pub fn write_sub_address(&mut self, sub_address: u8) -> (ret: &mut Self)
        ensures
            (*ret)@ == old(self)@.update(
                0,
                old(self)@[0] | ((sub_address >> 6) & 1),
            ).update(1, old(self)@[1] | ((sub_address & 0b0011_1111) << 2)),
            final(self)@ == final(ret)@,
    {
        let sub = sub_address & 0b0111_1111;
        proof {
            assert(((sub_address & 0b0111_1111) >> 6) & 1 == (sub_address >> 6) & 1)
                by (bit_vector);
            assert(((sub_address & 0b0111_1111) << 2) == ((sub_address & 0b0011_1111) << 2))
                by (bit_vector);
        }
        self.write_type_bit(sub >> 6);
        self.inner[1] = self.inner[1] | (sub << 2);

        self
    }

    /// Sets the sub-address of a full transaction header.
    pub fn set_sub_address(&mut self, sub_address: u8) -> (ret: &mut Self)
        ensures
            (*ret)@ == old(self)@.update(
                0,
                (old(self)@[0] & 0b1111_1110) | ((sub_address >> 6) & 1),
            ).update(1, (old(self)@[1] & 0b0000_0011) | ((sub_address & 0b0011_1111) << 2)),
            final(self)@ == final(ret)@,
    {
        let ret = self.clear_sub_address().write_sub_address(sub_address);
        proof {
            assert((*ret)@ =~= old(self)@.update(
                0,
                (old(self)@[0] & 0b1111_1110) | ((sub_address >> 6) & 1),
            ).update(1, (old(self)@[1] & 0b0000_0011) | ((sub_address & 0b0011_1111) << 2)));
        }
        ret
    }

    /// Builds the full transaction header, forcing the length-discriminator
    /// bit to 1.
    pub fn build(self) -> (header: [u8; 2])
        ensures
            header@ == seq![self@[0] | 0b0100_0000, self@[1]],
    {
        let byte0 = self.inner[0] | 0b0100_0000;
        let byte1 = self.inner[1];
        [byte0, byte1]
    }
}

} // verus!
