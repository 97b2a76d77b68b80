//! Typed values for the DMA stream control registers, and the validation
//! error taxonomy. Every enum stands for one hardware bit field; the model
//! keeps the typed value itself, so no numeric encoding can be mixed up.

use vstd::prelude::*;

verus! {

/// A reason the validator rejects a transfer descriptor, or the one runtime
/// refusal (`StreamNotReady`). All are recoverable: the caller may adjust the
/// descriptor and retry, and no register is written once one is raised.
#[derive(Clone, Copy, Debug, PartialEq, Eq, Structural)]
pub enum Error {
    StreamNotReady,
    TransactionCountNotAMultipleOf(u16),
    UnalignedMemoryAddress,
    UnalignedPeripheralAddress,
    CannotUseMemoryToMemoryTransferWithCircularMode,
    CannotUseMemoryToMemoryTransferWithDirectMode,
    MemoryAccessWouldCrossOneKilobyteBoundary,
    PeripheralAccessWouldCrossOneKilobyteBoundary,
    InvalidFifoThresholdMemoryBurstCombination,
}

/// One of the eight independent streams of a DMA engine.
#[derive(Clone, Copy, Debug, PartialEq, Eq, Structural)]
pub enum Stream {
    S0,
    S1,
    S2,
    S3,
    S4,
    S5,
    S6,
    S7,
}

impl Stream {
    /// The stream's position in the engine's register file.
    pub open spec fn spec_index(self) -> int {
        match self {
            Stream::S0 => 0,
            Stream::S1 => 1,
            Stream::S2 => 2,
            Stream::S3 => 3,
            Stream::S4 => 4,
            Stream::S5 => 5,
            Stream::S6 => 6,
            Stream::S7 => 7,
        }
    }

    pub fn index(&self) -> (r: usize)
        ensures
            r == self.spec_index(),
            r < 8,
    {
        match *self {
            Stream::S0 => 0,
            Stream::S1 => 1,
            Stream::S2 => 2,
            Stream::S3 => 3,
            Stream::S4 => 4,
            Stream::S5 => 5,
            Stream::S6 => 6,
            Stream::S7 => 7,
        }
    }
}

/// Channel selector of a stream (hardware code 0b000 to 0b111).
#[derive(Clone, Copy, Debug, PartialEq, Eq, Structural)]
pub enum Channel {
    C0,
    C1,
    C2,
    C3,
    C4,
    C5,
    C6,
    C7,
}

/// Beats per bus transaction (hardware code 0b00 to 0b11).
#[derive(Clone, Copy, Debug, PartialEq, Eq, Structural)]
pub enum BurstMode {
    SingleTransfer,
    Incremental4,
    Incremental8,
    Incremental16,
}

impl BurstMode {
    /// Number of beats a burst of this mode issues.
    pub open spec fn spec_size(self) -> u32 {
        match self {
            BurstMode::SingleTransfer => 1,
            BurstMode::Incremental4 => 4,
            BurstMode::Incremental8 => 8,
            BurstMode::Incremental16 => 16,
        }
    }

    pub fn get_size(&self) -> (r: u32)
        ensures
            r == self.spec_size(),
    {
        match *self {
            BurstMode::SingleTransfer => 1,
            BurstMode::Incremental4 => 4,
            BurstMode::Incremental8 => 8,
            BurstMode::Incremental16 => 16,
        }
    }
}

/// Which of the two memory address registers a write targets.
#[derive(Clone, Copy, Debug, PartialEq, Eq, Structural)]
pub enum MemoryIndex {
    M0,
    M1,
}

/// Double-buffer selection; the second buffer is carried as a raw address.
#[derive(Clone, Copy, Debug, PartialEq, Eq, Structural)]
pub enum DoubleBufferingMode {
    Disable,
    UseSecondBuffer(u32),
}

/// Arbitration priority of a stream (hardware code 0b00 to 0b11).
#[derive(Clone, Copy, Debug, PartialEq, Eq, Structural)]
pub enum PriorityLevel {
    Low,
    Medium,
    High,
    VeryHigh,
}

/// Whether the peripheral address increment is the transaction width or a
/// forced 32-bit offset.
#[derive(Clone, Copy, Debug, PartialEq, Eq, Structural)]
pub enum PeripheralIncrementOffsetSize {
    UsePSize,
    Force32Bit,
}

/// Width of one beat (hardware code 0b00 byte, 0b01 half-word, 0b10 word).
#[derive(Clone, Copy, Debug, PartialEq, Eq, Structural)]
pub enum Width {
    Byte,
    HalfWord,
    Word,
}

impl Width {
    /// The width in bytes.
    pub open spec fn spec_size(self) -> u32 {
        match self {
            Width::Byte => 1,
            Width::HalfWord => 2,
            Width::Word => 4,
        }
    }

    pub fn get_size(&self) -> (r: u32)
        ensures
            r == self.spec_size(),
    {
        match *self {
            Width::Byte => 1,
            Width::HalfWord => 2,
            Width::Word => 4,
        }
    }
}

/// Whether an endpoint address advances after each beat.
#[derive(Clone, Copy, Debug, PartialEq, Eq, Structural)]
pub enum IncrementMode {
    Fixed,
    Increment,
}

/// Circular addressing of a stream.
#[derive(Clone, Copy, Debug, PartialEq, Eq, Structural)]
pub enum CircularMode {
    Disable,
    Enable,
}

/// Transfer direction (hardware code 0b00, 0b01, 0b10).
#[derive(Clone, Copy, Debug, PartialEq, Eq, Structural)]
pub enum Direction {
    PeripheralToMemory,
    MemoryToPeripheral,
    MemoryToMemory,
}

/// Which side paces the transfer.
#[derive(Clone, Copy, Debug, PartialEq, Eq, Structural)]
pub enum FlowContoller {
    DMA,
    Peripheral,
}

/// One interrupt-enable bit.
#[derive(Clone, Copy, Debug, PartialEq, Eq, Structural)]
pub enum InterruptControl {
    Disable,
    Enable,
}

/// One sticky status flag.
#[derive(Clone, Copy, Debug, PartialEq, Eq, Structural)]
pub enum InterruptState {
    NotRaised,
    Raised,
}

/// The stream enable bit.
#[derive(Clone, Copy, Debug, PartialEq, Eq, Structural)]
pub enum StreamControl {
    Disable,
    Enable,
}

/// Fill level of the stream's FIFO as the hardware reports it.
#[derive(Clone, Copy, Debug, PartialEq, Eq, Structural)]
pub enum FifoStatus {
    FirstQuarter,
    SecondQuarter,
    ThirdQuarter,
    FourthQuarter,
    Empty,
    Full,
}

/// FIFO bypass. The hardware bit is an inverted "direct mode disable", so
/// `Enable` is the register's zero state.
#[derive(Clone, Copy, Debug, PartialEq, Eq, Structural)]
pub enum DirectMode {
    Enable,
    Disable,
}

/// Fractional FIFO fill level that triggers a burst to the destination
/// (hardware code 0b00 to 0b11).
#[derive(Clone, Copy, Debug, PartialEq, Eq, Structural)]
pub enum FifoThreshold {
    Quarter,
    Half,
    ThreeQuarter,
    Full,
}

impl FifoThreshold {
    /// Numerator of the threshold fraction.
    pub open spec fn spec_numerator(self) -> u32 {
        match self {
            FifoThreshold::Quarter => 1,
            FifoThreshold::Half => 2,
            FifoThreshold::ThreeQuarter => 3,
            FifoThreshold::Full => 4,
        }
    }

    pub fn get_numerator(&self) -> (r: u32)
        ensures
            r == self.spec_numerator(),
    {
        match *self {
            FifoThreshold::Quarter => 1,
            FifoThreshold::Half => 2,
            FifoThreshold::ThreeQuarter => 3,
            FifoThreshold::Full => 4,
        }
    }

    /// Denominator of the threshold fraction: every level is expressed in
    /// quarters of the FIFO, so the denominator is 4 for all of them.
    pub open spec fn spec_denominator(self) -> u32 {
        4
    }

    pub fn get_denominator(&self) -> (r: u32)
        ensures
            r == self.spec_denominator(),
    {
        4
    }
}

} // verus!
