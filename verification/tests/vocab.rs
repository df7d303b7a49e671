use dw3xxx::commands::Command;
use dw3xxx::hl::DW3XXX;
use dw3xxx::hl::FastCommandError;
use dw3xxx::hl::ReceiveCommandError;
use dw3xxx::hl::ReceiverError;
use dw3xxx::hl::ReceiverFrame;
use dw3xxx::hl::SpiError;
use dw3xxx::hl::TransceiverDelay;
use dw3xxx::hl::TransmitReceiveCommandError;
use dw3xxx::interrupts::Interrupt;

#[test]
fn interrupt_offsets_match_register_layout() {
    assert_eq!(Interrupt::Cplock.offset(), 1);
    assert_eq!(Interrupt::Txfrs.offset(), 7);
    assert_eq!(Interrupt::Rxfcg.offset(), 14);
    assert_eq!(Interrupt::Rxpto.offset(), 21);
    // The layout is non-contiguous: 22 carries no interrupt.
    assert_eq!(Interrupt::Spirdy.offset(), 23);
    assert_eq!(Interrupt::Arfe.offset(), 29);
    assert_eq!(Interrupt::Rxprej.offset(), 33);
    assert_eq!(Interrupt::CmdErr.offset(), 40);
    assert_eq!(Interrupt::CcaFail.offset(), 44);
}

#[test]
fn interrupt_masks_compose_by_or() {
    assert_eq!(Interrupt::Cplock.mask(), 1u64 << 1);
    assert_eq!(Interrupt::CcaFail.mask(), 1u64 << 44);
    let composed = Interrupt::Rxfcg.mask() | Interrupt::Rxfce.mask();
    assert_eq!(composed, (1u64 << 14) | (1u64 << 15));
}

#[test]
fn command_opcodes_are_contiguous() {
    assert_eq!(Command::TxRxOff.opcode(), 0x00);
    assert_eq!(Command::Drx.opcode(), 0x04);
    assert_eq!(Command::CcaTx.opcode(), 0x0B);
    assert_eq!(Command::DtxRefW4r.opcode(), 0x10);
    assert_eq!(Command::ClrIrqs.opcode(), 0x12);
    assert_eq!(Command::DbToggle.opcode(), 0x13);
}

#[test]
fn error_taxonomy_nests() {
    let spi = SpiError::CollisionError;
    let fast = FastCommandError::SpiError(spi);
    assert_eq!(fast, FastCommandError::SpiError(SpiError::CollisionError));
    assert_ne!(fast, FastCommandError::FastCommandError);
    let rx: ReceiveCommandError = ReceiveCommandError::ReceiverError(ReceiverError::SfdTimeout);
    assert_ne!(
        rx,
        ReceiveCommandError::CommandError(FastCommandError::FastCommandError)
    );
    let txrx = TransmitReceiveCommandError::ReceiverError(ReceiverError::DoubleBufferOverrun);
    assert_eq!(
        txrx,
        TransmitReceiveCommandError::ReceiverError(ReceiverError::DoubleBufferOverrun)
    );
}

#[test]
fn receiver_frames_and_delays() {
    assert_eq!(ReceiverFrame::Valid(), ReceiverFrame::Valid());
    assert_ne!(ReceiverFrame::Valid(), ReceiverFrame::Partial());
    assert_ne!(TransceiverDelay::Absolute, TransceiverDelay::Internal);
    assert_ne!(TransceiverDelay::LastRx, TransceiverDelay::LastTx);
}

#[test]
fn driver_handle_constructs_and_decomposes() {
    let device = DW3XXX::new();
    device.decompose();
}
