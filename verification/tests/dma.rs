use dma_sdmmc::dma::{
    BurstMode, Channel, CircularMode, DirectMode, Direction, DmaManager, DmaTransfer,
    DmaTransferNode, DoubleBufferingMode, Error, FifoThreshold, FlowContoller, IncrementMode,
    InterruptControl, InterruptState, PriorityLevel, Rcc, Stream, StreamControl, StreamOutcome,
    Width,
};

fn word_node(address: u32, increment_mode: IncrementMode) -> DmaTransferNode {
    DmaTransferNode {
        address,
        burst_mode: BurstMode::Incremental4,
        increment_mode,
        transaction_width: Width::Word,
    }
}

/// A descriptor that satisfies all nine validation rules: 4-byte beats,
/// 4-beat bursts (16-byte bursts on both sides), 16 transactions, both
/// addresses word- and kilobyte-aligned, full FIFO threshold.
fn valid_transfer() -> DmaTransfer {
    DmaTransfer::new(
        Stream::S0,
        Channel::C1,
        Direction::PeripheralToMemory,
        word_node(0x4001_2000, IncrementMode::Fixed),
        word_node(0x2000_0000, IncrementMode::Increment),
        16,
    )
}

fn fresh_manager() -> DmaManager {
    let mut rcc = Rcc { dma1en: false, dma2en: false };
    DmaManager::init_dma1(&mut rcc)
}

#[test]
fn burst_mode_sizes() {
    assert_eq!(BurstMode::SingleTransfer.get_size(), 1);
    assert_eq!(BurstMode::Incremental4.get_size(), 4);
    assert_eq!(BurstMode::Incremental8.get_size(), 8);
    assert_eq!(BurstMode::Incremental16.get_size(), 16);
}

#[test]
fn width_sizes() {
    assert_eq!(Width::Byte.get_size(), 1);
    assert_eq!(Width::HalfWord.get_size(), 2);
    assert_eq!(Width::Word.get_size(), 4);
}

#[test]
fn fifo_threshold_fractions() {
    assert_eq!(FifoThreshold::Quarter.get_numerator(), 1);
    assert_eq!(FifoThreshold::Half.get_numerator(), 2);
    assert_eq!(FifoThreshold::ThreeQuarter.get_numerator(), 3);
    assert_eq!(FifoThreshold::Full.get_numerator(), 4);
    assert_eq!(FifoThreshold::Quarter.get_denominator(), 4);
    assert_eq!(FifoThreshold::Full.get_denominator(), 4);
}

#[test]
fn new_transfer_defaults() {
    let t = valid_transfer();
    assert_eq!(t.priority, PriorityLevel::Medium);
    assert_eq!(t.circular_mode, CircularMode::Disable);
    assert_eq!(t.double_buffering_mode, DoubleBufferingMode::Disable);
    assert_eq!(t.flow_controller, FlowContoller::DMA);
    assert_eq!(t.fifo_threshold, FifoThreshold::Full);
    assert_eq!(t.interrupt_transfer_complete, InterruptControl::Enable);
    assert_eq!(t.interrupt_half_transfer, InterruptControl::Disable);
    assert_eq!(t.interrupt_transfer_error, InterruptControl::Enable);
    assert_eq!(t.interrupt_direct_mode_error, InterruptControl::Enable);
    assert_eq!(t.interrupt_fifo, InterruptControl::Enable);
    // 16 transactions x 4 bytes = 64 bytes: at least the FIFO's 16 bytes, so
    // the FIFO is used and direct mode is off
    assert_eq!(t.direct_mode, DirectMode::Disable);
}

#[test]
fn new_transfer_small_enables_direct_mode() {
    let t = DmaTransfer::new(
        Stream::S3,
        Channel::C0,
        Direction::MemoryToPeripheral,
        DmaTransferNode {
            address: 0x4001_2000,
            burst_mode: BurstMode::SingleTransfer,
            increment_mode: IncrementMode::Fixed,
            transaction_width: Width::Byte,
        },
        DmaTransferNode {
            address: 0x2000_0000,
            burst_mode: BurstMode::SingleTransfer,
            increment_mode: IncrementMode::Increment,
            transaction_width: Width::Byte,
        },
        8,
    );
    // 8 transactions x 1 byte = 8 bytes < 16-byte FIFO
    assert_eq!(t.direct_mode, DirectMode::Enable);
}

#[test]
fn valid_descriptor_passes_validation() {
    assert_eq!(valid_transfer().is_valid(), None);
}

#[test]
fn count_not_multiple_of_memory_factor() {
    let mut t = valid_transfer();
    // memory burst is 16 bytes, effective peripheral width 4 bytes: the
    // memory-side factor is 4, and 17 is no multiple of it
    t.transaction_count = 17;
    assert_eq!(t.is_valid(), Some(Error::TransactionCountNotAMultipleOf(4)));
}

#[test]
fn count_not_multiple_of_peripheral_factor() {
    let mut t = valid_transfer();
    // 20 is a multiple of the memory-side factor 4, but not of the
    // peripheral burst's 16 bytes
    t.transaction_count = 20;
    assert_eq!(t.is_valid(), Some(Error::TransactionCountNotAMultipleOf(16)));
}

#[test]
fn unaligned_peripheral_address_rejected_and_corrected() {
    let mut t = valid_transfer();
    t.peripheral.address = 0x4001_2001;
    assert_eq!(t.is_valid(), Some(Error::UnalignedPeripheralAddress));
    // correcting the address alone clears the error
    t.peripheral.address = 0x4001_2000;
    assert_eq!(t.is_valid(), None);
}

#[test]
fn unaligned_memory_address_rejected_and_corrected() {
    let mut t = valid_transfer();
    t.memory.address = 0x2000_0002;
    assert_eq!(t.is_valid(), Some(Error::UnalignedMemoryAddress));
    t.memory.address = 0x2000_0000;
    assert_eq!(t.is_valid(), None);
}

#[test]
fn circular_mode_with_memory_to_memory_rejected() {
    let mut t = valid_transfer();
    t.direction = Direction::MemoryToMemory;
    t.circular_mode = CircularMode::Enable;
    assert_eq!(
        t.is_valid(),
        Some(Error::CannotUseMemoryToMemoryTransferWithCircularMode)
    );
}

#[test]
fn double_buffering_with_memory_to_memory_rejected() {
    let mut t = valid_transfer();
    t.direction = Direction::MemoryToMemory;
    t.double_buffering_mode = DoubleBufferingMode::UseSecondBuffer(0x2000_4000);
    assert_eq!(
        t.is_valid(),
        Some(Error::CannotUseMemoryToMemoryTransferWithCircularMode)
    );
}

#[test]
fn direct_mode_with_memory_to_memory_rejected() {
    // a zero-count transfer keeps direct mode on (0 bytes < 16-byte FIFO)
    // and satisfies every divisibility rule
    let t = DmaTransfer::new(
        Stream::S0,
        Channel::C1,
        Direction::MemoryToMemory,
        word_node(0x4001_2000, IncrementMode::Fixed),
        word_node(0x2000_0000, IncrementMode::Increment),
        0,
    );
    assert_eq!(t.direct_mode, DirectMode::Enable);
    assert_eq!(
        t.is_valid(),
        Some(Error::CannotUseMemoryToMemoryTransferWithDirectMode)
    );
}

#[test]
fn memory_burst_straddling_boundary_rejected() {
    let mut t = valid_transfer();
    // 4 bytes remain before the 1024-byte boundary, the transfer touches 64,
    // and 4 is no whole number of 16-byte bursts
    t.memory.address = 1020;
    assert_eq!(
        t.is_valid(),
        Some(Error::MemoryAccessWouldCrossOneKilobyteBoundary)
    );
    // the same configuration on the boundary itself is accepted
    t.memory.address = 1024;
    assert_eq!(t.is_valid(), None);
}

#[test]
fn peripheral_burst_straddling_boundary_rejected() {
    let mut t = valid_transfer();
    t.peripheral.increment_mode = IncrementMode::Increment;
    t.peripheral.address = 1020;
    assert_eq!(
        t.is_valid(),
        Some(Error::PeripheralAccessWouldCrossOneKilobyteBoundary)
    );
    t.peripheral.address = 1024;
    assert_eq!(t.is_valid(), None);
}

#[test]
fn fifo_threshold_incompatible_with_memory_burst() {
    let mut t = valid_transfer();
    // a quarter threshold is 16/4 = 4 bytes, which no whole 16-byte memory
    // burst can fill exactly
    t.fifo_threshold = FifoThreshold::Quarter;
    assert_eq!(
        t.is_valid(),
        Some(Error::InvalidFifoThresholdMemoryBurstCombination)
    );
}

#[test]
fn init_enables_engine_clocks() {
    let mut rcc = Rcc { dma1en: false, dma2en: false };
    let m1 = DmaManager::init_dma1(&mut rcc);
    assert!(rcc.dma1en);
    assert!(!rcc.dma2en);
    let m2 = DmaManager::init_dma2(&mut rcc);
    assert!(rcc.dma2en);
    assert_eq!(m1.controller.streams.len(), 8);
    assert_eq!(m2.controller.streams.len(), 8);
    for s in &m1.controller.streams {
        assert_eq!(s.en, StreamControl::Disable);
        assert_eq!(s.transfer_complete_flag, InterruptState::NotRaised);
    }
}

#[test]
fn execute_completes_and_disables_stream() {
    let mut dma = fresh_manager();
    let t = valid_transfer();
    assert_eq!(t.execute(&mut dma), Ok(true));
    let s = &dma.controller.streams[0];
    assert_eq!(s.en, StreamControl::Disable);
    assert_eq!(s.transfer_complete_flag, InterruptState::Raised);
    assert_eq!(s.transfer_error_flag, InterruptState::NotRaised);
    // the configuration reached the registers
    assert_eq!(s.channel, Channel::C1);
    assert_eq!(s.direction, Direction::PeripheralToMemory);
    assert_eq!(s.transaction_count, 16);
    assert_eq!(s.peripheral_address, 0x4001_2000);
    assert_eq!(s.memory0_address, 0x2000_0000);
    assert_eq!(s.fifo_threshold, FifoThreshold::Full);
}

#[test]
fn execute_reports_hardware_error_and_disables_stream() {
    let mut dma = fresh_manager();
    dma.controller.streams[0].outcome = StreamOutcome::TransferError;
    let t = valid_transfer();
    assert_eq!(t.execute(&mut dma), Ok(false));
    // the stream is never left armed, even on the hardware-error path
    let s = &dma.controller.streams[0];
    assert_eq!(s.en, StreamControl::Disable);
    assert_eq!(s.transfer_error_flag, InterruptState::Raised);
}

#[test]
fn execute_on_invalid_descriptor_touches_no_register() {
    let mut dma = fresh_manager();
    let mut t = valid_transfer();
    t.transaction_count = 17;
    assert_eq!(
        t.execute(&mut dma),
        Err(Error::TransactionCountNotAMultipleOf(4))
    );
    // the stream is never left armed, and no configuration was written
    let s = &dma.controller.streams[0];
    assert_eq!(s.en, StreamControl::Disable);
    assert_eq!(s.channel, Channel::C0);
    assert_eq!(s.transaction_count, 0);
}

#[test]
fn start_refuses_busy_stream() {
    let mut dma = fresh_manager();
    dma.controller.streams[0].en = StreamControl::Enable;
    let t = valid_transfer();
    assert_eq!(t.start(&mut dma), Err(Error::StreamNotReady));
    assert_eq!(t.execute(&mut dma), Err(Error::StreamNotReady));
}

#[test]
fn start_wait_stop_walk_the_state_machine() {
    let mut dma = fresh_manager();
    let t = valid_transfer();
    assert!(t.is_ready(&dma));
    assert_eq!(t.start(&mut dma), Ok(()));
    assert!(t.is_running(&dma));
    assert!(t.is_active(&dma));
    assert!(!t.is_finished(&dma));
    assert!(!t.is_ready(&dma));
    assert!(t.wait(&mut dma));
    assert!(t.is_finished(&dma));
    assert!(!t.is_error(&dma));
    assert!(!t.is_transfer_error(&dma));
    assert!(!t.is_direct_mode_error(&dma));
    t.stop(&mut dma);
    assert!(!t.is_running(&dma));
    assert!(t.is_ready(&dma));
}

#[test]
fn direct_mode_error_outcome_is_reported() {
    let mut dma = fresh_manager();
    dma.controller.streams[0].outcome = StreamOutcome::DirectModeError;
    let t = valid_transfer();
    assert_eq!(t.start(&mut dma), Ok(()));
    assert!(!t.wait(&mut dma));
    assert!(t.is_direct_mode_error(&dma));
    assert!(t.is_error(&dma));
    t.stop(&mut dma);
    assert_eq!(dma.controller.streams[0].en, StreamControl::Disable);
}

#[test]
fn streams_are_independent() {
    let mut dma = fresh_manager();
    let mut t = valid_transfer();
    t.stream = Stream::S5;
    assert_eq!(t.execute(&mut dma), Ok(true));
    assert_eq!(dma.controller.streams[5].transaction_count, 16);
    assert_eq!(dma.controller.streams[0].transaction_count, 0);
    assert_eq!(dma.controller.streams[4].channel, Channel::C0);
}
