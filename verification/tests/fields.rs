use dw3xxx::reg::Field;
use dw3xxx::reg::Register;

fn register(len: usize) -> Register {
    Register { base_address: 0x05, sub_address: 0x10, len }
}

fn field(first_bit: usize, size: usize) -> Field {
    Field { first_bit, size, readable: true, writable: true }
}

#[test]
fn byte_straddling_write_and_read() {
    let reg = register(2);
    let f = field(4, 8);
    let mut view: Vec<u8> = vec![0x00, 0x00];
    f.write(&reg, &mut view, 0xAB);
    // Low nibble of the value lands in the top nibble of byte 0, high
    // nibble in the bottom nibble of byte 1.
    assert_eq!(view, vec![0xB0, 0x0A]);
    assert_eq!(f.read(&reg, &view), 0xAB);
}

#[test]
fn read_merges_partial_bytes() {
    let reg = register(2);
    let f = field(4, 8);
    let view: Vec<u8> = vec![0x21, 0x43];
    assert_eq!(f.read(&reg, &view), 0x32);
}

#[test]
fn round_trip_all_representable_values() {
    let reg = register(2);
    let f = field(3, 7);
    for value in 0u128..128 {
        let mut view: Vec<u8> = vec![0x00, 0x00];
        f.write(&reg, &mut view, value);
        assert_eq!(f.read(&reg, &view), value);
    }
}

#[test]
fn write_preserves_neighbouring_fields() {
    let reg = register(2);
    let low = field(0, 4);
    let mid = field(4, 8);
    let high = field(12, 4);
    let mut view: Vec<u8> = vec![0x00, 0x00];
    // Write all-ones into both neighbours, then zero the field under test:
    // the neighbours must survive unchanged.
    low.write(&reg, &mut view, 0xF);
    high.write(&reg, &mut view, 0xF);
    mid.write(&reg, &mut view, 0xFF);
    mid.write(&reg, &mut view, 0x00);
    assert_eq!(view, vec![0x0F, 0xF0]);
    assert_eq!(low.read(&reg, &view), 0xF);
    assert_eq!(high.read(&reg, &view), 0xF);
    assert_eq!(mid.read(&reg, &view), 0x00);
}

#[test]
fn single_bit_field() {
    let reg = register(1);
    let f = field(6, 1);
    let mut view: Vec<u8> = vec![0x00];
    f.write(&reg, &mut view, 1);
    assert_eq!(view, vec![0b0100_0000]);
    assert_eq!(f.read(&reg, &view), 1);
    f.write(&reg, &mut view, 0);
    assert_eq!(view, vec![0x00]);
}

#[test]
fn write_uses_only_low_size_bits() {
    let reg = register(1);
    let f = field(0, 4);
    let mut view: Vec<u8> = vec![0x00];
    f.write(&reg, &mut view, 0xFF);
    assert_eq!(view, vec![0x0F]);
    assert_eq!(f.read(&reg, &view), 0x0F);
}

#[test]
fn read_zero_extends() {
    let reg = register(2);
    let f = field(4, 8);
    let view: Vec<u8> = vec![0xFF, 0xFF];
    assert_eq!(f.read(&reg, &view), 0xFF);
}

#[test]
fn full_width_field_round_trip() {
    let reg = register(16);
    let f = field(0, 128);
    let value: u128 = 0x0123_4567_89AB_CDEF_0011_2233_4455_6677;
    let mut view: Vec<u8> = vec![0x00; 16];
    f.write(&reg, &mut view, value);
    assert_eq!(
        view,
        vec![
            0x77, 0x66, 0x55, 0x44, 0x33, 0x22, 0x11, 0x00, 0xEF, 0xCD, 0xAB, 0x89, 0x67, 0x45,
            0x23, 0x01,
        ]
    );
    assert_eq!(f.read(&reg, &view), value);
    let mut ones: Vec<u8> = vec![0x00; 16];
    f.write(&reg, &mut ones, u128::MAX);
    assert_eq!(ones, vec![0xFF; 16]);
}

#[test]
fn unaligned_wide_field_round_trip() {
    let reg = register(5);
    let f = field(7, 20);
    let mut view: Vec<u8> = vec![0xFF; 5];
    f.write(&reg, &mut view, 0x5_A5A5);
    assert_eq!(f.read(&reg, &view), 0x5_A5A5);
    // Bits outside the range stay all-ones.
    let before = field(0, 7);
    let after = field(27, 13);
    assert_eq!(before.read(&reg, &view), 0x7F);
    assert_eq!(after.read(&reg, &view), 0x1FFF);
}
