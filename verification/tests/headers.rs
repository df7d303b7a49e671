use dw3xxx::commands::Command;
use dw3xxx::spi::AccessMode;
use dw3xxx::spi::MaskedWriteMode;
use dw3xxx::spi::fast_command_header;
use dw3xxx::spi::full_addressed_header;
use dw3xxx::spi::masked_write_header;
use dw3xxx::spi::short_addressed_header;

#[test]
fn short_addressed_rx_buffer_read() {
    // 0x12 is the register file ID for RX_BUFFER_0.
    assert_eq!(short_addressed_header(0x12, AccessMode::Read), [0b0010_0100]);
}

#[test]
fn short_addressed_tx_buffer_write() {
    // 0x14 is the register file ID for TX_BUFFER.
    assert_eq!(short_addressed_header(0x14, AccessMode::Write), [0b1010_1000]);
}

#[test]
fn full_addressed_gpio_raw_read() {
    // 0x05 is the register file ID for GPIO_CTRL, 0x2C the GPIO_RAW
    // sub-register.
    assert_eq!(
        full_addressed_header(0x05, 0x2C, AccessMode::Read),
        [0b0100_1010, 0b1011_0000]
    );
}

#[test]
fn full_addressed_gpio_irqe_write() {
    // 0x05 is the register file ID for GPIO_CTRL, 0x10 the GPIO_IRQE
    // sub-register.
    assert_eq!(
        full_addressed_header(0x05, 0x10, AccessMode::Write),
        [0b1100_1010, 0b0100_0000]
    );
}

#[test]
fn masked_write_widths() {
    assert_eq!(
        masked_write_header(0x05, 0x10, MaskedWriteMode::EightBit),
        [0b1100_1010, 0b0100_0001]
    );
    assert_eq!(
        masked_write_header(0x05, 0x10, MaskedWriteMode::SixteenBit),
        [0b1100_1010, 0b0100_0010]
    );
    assert_eq!(
        masked_write_header(0x05, 0x10, MaskedWriteMode::ThirtyTwoBit),
        [0b1100_1010, 0b0100_0011]
    );
}

#[test]
fn unmasked_write_equals_full_addressed_write() {
    for base in 0u8..32 {
        for sub in 0u8..128 {
            assert_eq!(
                masked_write_header(base, sub, MaskedWriteMode::Unmasked),
                full_addressed_header(base, sub, AccessMode::Write)
            );
        }
    }
}

#[test]
fn fast_command_every_opcode() {
    let cases: [(Command, u8); 20] = [
        (Command::TxRxOff, 0x81),
        (Command::Tx, 0x83),
        (Command::Rx, 0x85),
        (Command::Dtx, 0x87),
        (Command::Drx, 0x89),
        (Command::DtxTs, 0x8B),
        (Command::DrxTs, 0x8D),
        (Command::DtxRs, 0x8F),
        (Command::DrxRs, 0x91),
        (Command::DtxRef, 0x93),
        (Command::DrxRef, 0x95),
        (Command::CcaTx, 0x97),
        (Command::TxW4r, 0x99),
        (Command::DtxW4r, 0x9B),
        (Command::DtxTsW4r, 0x9D),
        (Command::DtxRsW4r, 0x9F),
        (Command::DtxRefW4r, 0xA1),
        (Command::CcaTxW4r, 0xA3),
        (Command::ClrIrqs, 0xA5),
        (Command::DbToggle, 0xA7),
    ];
    for (command, expected) in cases {
        assert_eq!(fast_command_header(command), [expected]);
    }
}

#[test]
fn fast_command_clr_irqs_pattern() {
    assert_eq!(fast_command_header(Command::ClrIrqs), [0b1010_0101]);
    assert_eq!(fast_command_header(Command::Tx), [0b1000_0011]);
}

#[test]
fn short_header_bit_positions() {
    // Access mode in the MSB, base address in bits 2-6, bits 1 and 7 zero.
    for base in 0u8..32 {
        let read = short_addressed_header(base, AccessMode::Read)[0];
        let write = short_addressed_header(base, AccessMode::Write)[0];
        assert_eq!(read >> 7, 0);
        assert_eq!(write >> 7, 1);
        assert_eq!((read >> 6) & 1, 0);
        assert_eq!((write >> 6) & 1, 0);
        assert_eq!((read >> 1) & 0b0001_1111, base);
        assert_eq!((write >> 1) & 0b0001_1111, base);
        assert_eq!(read & 1, 0);
        assert_eq!(write & 1, 0);
    }
}

#[test]
fn sub_address_split_round_trips() {
    // The 7-bit sub-address is recovered exactly from the low bit of byte 0
    // and the top six bits of byte 1, for every sub-address and both
    // boundary base addresses.
    for base in [0u8, 31] {
        for sub in 0u8..128 {
            let header = full_addressed_header(base, sub, AccessMode::Read);
            assert_eq!((header[0] >> 6) & 1, 1);
            assert_eq!((header[0] >> 1) & 0b0001_1111, base);
            let recovered = ((header[0] & 1) << 6) | (header[1] >> 2);
            assert_eq!(recovered, sub);
            assert_eq!(header[1] & 0b0000_0011, 0);
        }
    }
}

#[test]
fn sub_address_boundaries() {
    let low = full_addressed_header(0x00, 0, AccessMode::Read);
    assert_eq!(low, [0b0100_0000, 0b0000_0000]);
    let high = full_addressed_header(0x1F, 127, AccessMode::Write);
    assert_eq!(high, [0b1111_1111, 0b1111_1100]);
}

#[test]
fn out_of_range_addresses_are_masked() {
    // The 5-bit and 7-bit address arguments are masked by construction, so
    // every input is representable and produces a valid header.
    assert_eq!(
        short_addressed_header(0xFF, AccessMode::Read),
        short_addressed_header(0x1F, AccessMode::Read)
    );
    assert_eq!(
        full_addressed_header(0xFF, 0xFF, AccessMode::Write),
        full_addressed_header(0x1F, 0x7F, AccessMode::Write)
    );
}
