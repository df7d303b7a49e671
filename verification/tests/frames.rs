use dw3xxx::commands::Command;
use dw3xxx::reg::Register;
use dw3xxx::spi::AccessMode;
use dw3xxx::spi::MaskedWriteMode;
use dw3xxx::spi::fast_command;
use dw3xxx::spi::full_addressed;
use dw3xxx::spi::masked_write;
use dw3xxx::spi::short_addressed;

#[test]
fn fast_command_frame_is_header_only() {
    assert_eq!(fast_command(Command::Tx), vec![0b1000_0011]);
    assert_eq!(fast_command(Command::ClrIrqs), vec![0b1010_0101]);
}

#[test]
fn short_addressed_frame_is_header_then_payload() {
    let reg = Register { base_address: 0x12, sub_address: 0x00, len: 2 };
    let payload: Vec<u8> = vec![0xDE, 0xAD];
    assert_eq!(
        short_addressed(&reg, AccessMode::Read, &payload),
        vec![0b0010_0100, 0xDE, 0xAD]
    );
    assert_eq!(
        short_addressed(&reg, AccessMode::Write, &payload),
        vec![0b1010_0100, 0xDE, 0xAD]
    );
}

#[test]
fn full_addressed_frame_is_both_header_bytes_then_payload() {
    let reg = Register { base_address: 0x05, sub_address: 0x2C, len: 1 };
    let payload: Vec<u8> = vec![0x99];
    assert_eq!(
        full_addressed(&reg, AccessMode::Read, &payload),
        vec![0b0100_1010, 0b1011_0000, 0x99]
    );
}

#[test]
fn masked_write_frame_payload_matches_width() {
    let reg = Register { base_address: 0x05, sub_address: 0x10, len: 4 };
    assert_eq!(
        masked_write(&reg, MaskedWriteMode::EightBit, &vec![0x55]),
        vec![0b1100_1010, 0b0100_0001, 0x55]
    );
    assert_eq!(
        masked_write(&reg, MaskedWriteMode::SixteenBit, &vec![0x55, 0xAA]),
        vec![0b1100_1010, 0b0100_0010, 0x55, 0xAA]
    );
    assert_eq!(
        masked_write(&reg, MaskedWriteMode::ThirtyTwoBit, &vec![1, 2, 3, 4]),
        vec![0b1100_1010, 0b0100_0011, 1, 2, 3, 4]
    );
    // The unmasked code takes the register's whole length and matches a
    // full addressed write.
    assert_eq!(
        masked_write(&reg, MaskedWriteMode::Unmasked, &vec![1, 2, 3, 4]),
        full_addressed(&reg, AccessMode::Write, &vec![1, 2, 3, 4])
    );
}

#[test]
fn empty_payload_not_required_for_fast_commands() {
    // A fast command moves no payload at all: one byte on the wire.
    assert_eq!(fast_command(Command::DbToggle).len(), 1);
}
