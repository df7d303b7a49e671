//! Bit-level vocabulary shared by the header encoder and the field
//! accessors: reading a single bit out of a byte, out of a wide value, or
//! out of a byte buffer interpreted little-endian, together with the
//! extensionality lemma that two values agreeing on every bit are equal.

use vstd::prelude::*;

verus! {

/// Bit `i` of a byte, counting from the least significant bit.
pub open spec fn byte_bit(byte: u8, i: int) -> bool {
    (byte >> (i as u8)) & 1 == 1
}

/// Bit `i` of a 128-bit value, counting from the least significant bit.
pub open spec fn value_bit(value: u128, i: int) -> bool {
    (value >> (i as u128)) & 1 == 1
}

/// Bit `i` of a byte buffer interpreted little-endian: bit `i % 8` of byte
/// `i / 8`.
pub open spec fn buffer_bit(buffer: Seq<u8>, i: int) -> bool {
    byte_bit(buffer[i / 8], i % 8)
}

/// The low `n` bits of `x` and `y` agree whenever every one of those bits
/// agrees individually.
proof fn lemma_u128_low_bits_eq(x: u128, y: u128, n: u128)
    requires
        n <= 127,
        forall|i: int| 0 <= i < n ==> value_bit(x, i) == value_bit(y, i),
    ensures
        x & (((1u128 << n) - 1) as u128) == y & (((1u128 << n) - 1) as u128),
    decreases n,
{
    if n == 0 {
        assert(x & (((1u128 << 0) - 1) as u128) == y & (((1u128 << 0) - 1) as u128)) by (bit_vector);
    } else {
        let m: u128 = (n - 1) as u128;
        lemma_u128_low_bits_eq(x, y, m);
        assert(value_bit(x, m as int) == value_bit(y, m as int));
        assert(x & (((1u128 << n) - 1) as u128) == y & (((1u128 << n) - 1) as u128)) by (bit_vector)
            requires
                m < 127,
                n == m + 1,
                x & (((1u128 << m) - 1) as u128) == y & (((1u128 << m) - 1) as u128),
                ((x >> m) & 1 == 1) == ((y >> m) & 1 == 1),
        ;
    }
}

/// Two 128-bit values that agree on every bit are equal.
pub proof fn lemma_u128_bit_ext(x: u128, y: u128)
    requires
        forall|i: int| 0 <= i < 128 ==> value_bit(x, i) == value_bit(y, i),
    ensures
        x == y,
{
    lemma_u128_low_bits_eq(x, y, 127);
    assert(value_bit(x, 127) == value_bit(y, 127));
    assert(x == y) by (bit_vector)
        requires
            x & (((1u128 << 127) - 1) as u128) == y & (((1u128 << 127) - 1) as u128),
            ((x >> 127) & 1 == 1) == ((y >> 127) & 1 == 1),
    ;
}

} // verus!
