//! The register and field addressing model.
//!
//! A register file is an addressable unit of the device's flat control and
//! status space: a base address, a sub-address and a byte length.  A field
//! is a bit-range within one register file.  Register and field descriptors
//! are immutable configuration data; the catalogue of concrete registers is
//! generated from the device datasheet and consumed through this model's
//! contracts rather than hardcoded here.
//!
//! A register's staged contents live in a byte buffer (the register view)
//! exactly `len` bytes long, filled or consumed by one bus transaction.
//! [`Field::read`] and [`Field::write`] project a field's bit-range out of
//! and into that buffer, interpreted little-endian, without touching any
//! bit outside the range.

use vstd::prelude::*;

use crate::bits::buffer_bit;
use crate::bits::lemma_u128_bit_ext;
use crate::bits::value_bit;

verus! {

/// Every bit of zero is zero.
proof fn lemma_u128_zero_bit(k: u128)
    ensures
        (0u128 >> k) & 1 == 0,
{
    assert((0u128 >> k) & 1 == 0) by (bit_vector);
}

/// OR-ing a single bit into a wide value sets that bit and leaves every
/// other bit unchanged.
proof fn lemma_u128_or_bit(v: u128, j: u128, k: u128)
    requires
        j < 128,
        k < 128,
    ensures
        k == j ==> ((v | (1u128 << j)) >> k) & 1 == 1,
        k != j ==> ((v | (1u128 << j)) >> k) & 1 == (v >> k) & 1,
{
    assert((k == j ==> ((v | (1u128 << j)) >> k) & 1 == 1) && (k != j ==> ((v | (1u128 << j))
        >> k) & 1 == (v >> k) & 1)) by (bit_vector)
        requires
            j < 128,
            k < 128,
    ;
}

/// OR-ing a single bit into a byte sets that bit and leaves every other
/// bit unchanged.
proof fn lemma_u8_or_bit(b: u8, off: u8, k: u8)
    requires
        off < 8,
        k < 8,
    ensures
        k == off ==> ((b | (1u8 << off)) >> k) & 1 == 1,
        k != off ==> ((b | (1u8 << off)) >> k) & 1 == (b >> k) & 1,
{
    assert((k == off ==> ((b | (1u8 << off)) >> k) & 1 == 1) && (k != off ==> ((b | (1u8 << off))
        >> k) & 1 == (b >> k) & 1)) by (bit_vector)
        requires
            off < 8,
            k < 8,
    ;
}

/// AND-ing a single bit out of a byte clears that bit and leaves every
/// other bit unchanged.
proof fn lemma_u8_clear_bit(b: u8, off: u8, k: u8)
    requires
        off < 8,
        k < 8,
    ensures
        k == off ==> ((b & !(1u8 << off)) >> k) & 1 == 0,
        k != off ==> ((b & !(1u8 << off)) >> k) & 1 == (b >> k) & 1,
{
    assert((k == off ==> ((b & !(1u8 << off)) >> k) & 1 == 0) && (k != off ==> ((b & !(1u8
        << off)) >> k) & 1 == (b >> k) & 1)) by (bit_vector)
        requires
            off < 8,
            k < 8,
    ;
}

/// A register file descriptor: one addressable unit of the device's
/// control and status space.
#[derive(Clone, Copy, Debug, PartialEq, Eq, Structural)]
pub struct Register {
    /// The 5-bit base address of the register file.
    pub base_address: u8,
    /// The 7-bit sub-address of the register file.
    pub sub_address: u8,
    /// The length of the register file in bytes.
    pub len: usize,
}

impl Register {
    /// A well-formed register descriptor: the base address fits in five
    /// bits, the sub-address in seven, the length is at least one byte and
    /// the register's bit count fits the address space.
    pub open spec fn wf(self) -> bool {
        &&& self.base_address < 32
        &&& self.sub_address < 128
        &&& self.len >= 1
        &&& 8 * self.len <= usize::MAX
    }
}

/// A field descriptor: one bit-range within a register file, together with
/// the capabilities the datasheet grants it.
#[derive(Clone, Copy, Debug, PartialEq, Eq, Structural)]
pub struct Field {
    /// The index of the field's first bit within the register.
    pub first_bit: usize,
    /// The size of the field in bits.
    pub size: usize,
    /// Whether the field may be read.
    pub readable: bool,
    /// Whether the field may be written.
    pub writable: bool,
}

impl Field {
    /// A field that fits its parent register: between 1 and 128 bits, all
    /// of them within the register's length.
    pub open spec fn fits(self, register: Register) -> bool {
        &&& 1 <= self.size <= 128
        &&& self.first_bit + self.size <= 8 * register.len
    }

    /// Extracts the field's bit-range from the register view, interpreted
    /// little-endian across the byte buffer and zero-extended: bit `i` of
    /// the result is bit `first_bit + i` of the buffer for `i` below the
    /// field's size, and zero above it.
    pub fn read(&self, register: &Register, view: &Vec<u8>) -> (value: u128)
        requires
            self.readable,
            register.wf(),
            self.fits(*register),
            view@.len() == register.len,
        ensures
            forall|i: int|
                0 <= i < self.size ==> value_bit(value, i) == buffer_bit(
                    view@,
                    self.first_bit + i,
                ),
            forall|i: int| self.size <= i < 128 ==> !value_bit(value, i),
    {
        let mut value: u128 = 0;
        proof {
            assert forall|i: int| 0 <= i < 128 implies !value_bit(0u128, i) by {
                lemma_u128_zero_bit(i as u128);
            }
        }
        let mut j: usize = 0;
        while j < self.size
            invariant
                j <= self.size,
                register.wf(),
                self.fits(*register),
                view@.len() == register.len,
                forall|i: int|
                    0 <= i < j ==> value_bit(value, i) == buffer_bit(view@, self.first_bit + i),
                forall|i: int| j <= i < 128 ==> !value_bit(value, i),
            decreases self.size - j,
        {
            let bit_index: usize = self.first_bit + j;
            let byte: u8 = view[bit_index / 8];
            let off: u8 = (bit_index % 8) as u8;
            let bit: u8 = (byte >> off) & 1;
            proof {
                assert(byte == view@[(self.first_bit + j as int) / 8]);
                assert(off as int == (self.first_bit + j as int) % 8);
                assert((bit == 1) == buffer_bit(view@, self.first_bit + j as int));
            }
            if bit == 1 {
                let ghost previous = value;
                value = value | (1u128 << (j as u128));
                proof {
                    assert(value == previous | (1u128 << (j as u128)));
                    assert forall|i: int|
                        0 <= i < j + 1 implies value_bit(value, i) == buffer_bit(
                        view@,
                        self.first_bit + i,
                    ) by {
                        lemma_u128_or_bit(previous, j as u128, i as u128);
                        if i < j {
                            assert(value_bit(previous, i) == buffer_bit(
                                view@,
                                self.first_bit + i,
                            ));
                        } else {
                            assert(i == j);
                            assert(buffer_bit(view@, self.first_bit + i));
                        }
                    }
                    assert forall|i: int| j + 1 <= i < 128 implies !value_bit(value, i) by {
                        lemma_u128_or_bit(previous, j as u128, i as u128);
                        assert(!value_bit(previous, i));
                    }
                }
            } else {
                proof {
                    assert(!value_bit(value, j as int));
                }
            }
            j = j + 1;
        }
        value
    }

    /// Writes the value's low `size` bits into the field's bit-range of
    /// the register view, little-endian, leaving every bit outside the
    /// range untouched.
    pub fn write(&self, register: &Register, view: &mut Vec<u8>, value: u128)
        requires
            self.writable,
            register.wf(),
            self.fits(*register),
            old(view)@.len() == register.len,
        ensures
            final(view)@.len() == old(view)@.len(),
            forall|i: int|
                0 <= i < 8 * register.len ==> buffer_bit(final(view)@, i) == (if self.first_bit
                    <= i < self.first_bit + self.size {
                    value_bit(value, i - self.first_bit)
                } else {
                    buffer_bit(old(view)@, i)
                }),
    {
        let mut j: usize = 0;
        while j < self.size
            invariant
                j <= self.size,
                register.wf(),
                self.fits(*register),
                view@.len() == old(view)@.len(),
                view@.len() == register.len,
                forall|i: int|
                    0 <= i < 8 * register.len ==> buffer_bit(view@, i) == (if self.first_bit <= i
                        < self.first_bit + j {
                        value_bit(value, i - self.first_bit)
                    } else {
                        buffer_bit(old(view)@, i)
                    }),
            decreases self.size - j,
        {
            let bit_index: usize = self.first_bit + j;
            let idx: usize = bit_index / 8;
            let off: u8 = (bit_index % 8) as u8;
            let byte: u8 = view[idx];
            let ghost mid = view@;
            let bit: u128 = (value >> (j as u128)) & 1;
            let updated: u8 = if bit == 1 {
                byte | (1u8 << off)
            } else {
                byte & !(1u8 << off)
            };
            view[idx] = updated;
            proof {
                assert(view@ == mid.update(idx as int, updated));
                assert((bit == 1) == value_bit(value, j as int));
                assert forall|i: int|
                    0 <= i < 8 * register.len implies buffer_bit(view@, i) == (if self.first_bit
                    <= i < self.first_bit + j + 1 {
                    value_bit(value, i - self.first_bit)
                } else {
                    buffer_bit(mid, i)
                }) by {
                    assert(buffer_bit(mid, i) == (if self.first_bit <= i < self.first_bit + j {
                        value_bit(value, i - self.first_bit)
                    } else {
                        buffer_bit(old(view)@, i)
                    }));
                    if i / 8 == idx as int {
                        assert(view@[i / 8] == updated);
                        if bit == 1 {
                            lemma_u8_or_bit(byte, off, (i % 8) as u8);
                        } else {
                            lemma_u8_clear_bit(byte, off, (i % 8) as u8);
                        }
                        assert(i == 8 * (i / 8) + i % 8);
                        assert(bit_index as int == 8 * (idx as int) + off as int);
                        if i % 8 == off as int {
                            assert(i == bit_index as int);
                            assert(buffer_bit(view@, i) == (bit == 1));
                        } else {
                            assert(buffer_bit(view@, i) == buffer_bit(mid, i));
                        }
                    } else {
                        assert(view@[i / 8] == mid[i / 8]);
                        assert(buffer_bit(view@, i) == buffer_bit(mid, i));
                    }
                }
            }
            j = j + 1;
        }
    }
}

/// A value whose numeric magnitude is below `2^size` has no bit set at or
/// above `size`.
pub proof fn lemma_representable_value_bits(value: u128, size: u128)
    requires
        size < 128,
        value < (1u128 << size),
    ensures
        forall|i: int| size <= i < 128 ==> !value_bit(value, i),
{
    assert forall|i: int| size <= i < 128 implies !value_bit(value, i) by {
        let k = i as u128;
        assert((value >> k) & 1 == 0) by (bit_vector)
            requires
                size < 128,
                value < (1u128 << size),
                size <= k < 128,
        ;
    }
}

/// Round trip: writing a representable value into a field and reading the
/// field back yields that value.  Any buffer that satisfies `write`'s
/// contract and any result that satisfies `read`'s contract on that buffer
/// equal the value written.
pub proof fn lemma_field_round_trip(
    field: Field,
    register: Register,
    before: Seq<u8>,
    after: Seq<u8>,
    value: u128,
    result: u128,
)
    requires
        field.fits(register),
        register.wf(),
        before.len() == register.len,
        after.len() == register.len,
        forall|i: int| field.size <= i < 128 ==> !value_bit(value, i),
        forall|i: int|
            0 <= i < 8 * register.len ==> buffer_bit(after, i) == (if field.first_bit <= i
                < field.first_bit + field.size {
                value_bit(value, i - field.first_bit)
            } else {
                buffer_bit(before, i)
            }),
        forall|i: int|
            0 <= i < field.size ==> value_bit(result, i) == buffer_bit(
                after,
                field.first_bit + i,
            ),
        forall|i: int| field.size <= i < 128 ==> !value_bit(result, i),
    ensures
        result == value,
{
    assert forall|i: int| 0 <= i < 128 implies value_bit(result, i) == value_bit(value, i) by {
        if i < field.size {
            assert(buffer_bit(after, field.first_bit + i) == value_bit(value, i));
        }
    }
    lemma_u128_bit_ext(result, value);
}

/// Writing one field never perturbs the bits of a field disjoint from it:
/// the untouched-bits half of `write`'s contract, restated at field
/// granularity.
pub proof fn lemma_write_preserves_disjoint_field(
    field: Field,
    other: Field,
    register: Register,
    before: Seq<u8>,
    after: Seq<u8>,
    value: u128,
)
    requires
        field.fits(register),
        other.fits(register),
        register.wf(),
        before.len() == register.len,
        after.len() == register.len,
        other.first_bit + other.size <= field.first_bit || field.first_bit + field.size
            <= other.first_bit,
        forall|i: int|
            0 <= i < 8 * register.len ==> buffer_bit(after, i) == (if field.first_bit <= i
                < field.first_bit + field.size {
                value_bit(value, i - field.first_bit)
            } else {
                buffer_bit(before, i)
            }),
    ensures
        forall|i: int|
            other.first_bit <= i < other.first_bit + other.size ==> buffer_bit(after, i)
                == buffer_bit(before, i),
{
    assert forall|i: int|
        other.first_bit <= i < other.first_bit + other.size implies buffer_bit(after, i)
        == buffer_bit(before, i) by {
        assert(buffer_bit(after, i) == buffer_bit(before, i));
    }
}

} // verus!
