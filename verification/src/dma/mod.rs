//! DMA engine control: typed register values, a shadow model of one engine's
//! stream register file, and the transfer descriptor with its validator and
//! execution state machine.

pub mod controller;
pub mod transfer;
pub mod types;

pub use controller::{DmaController, DmaManager, Rcc, StreamOutcome, StreamState};
pub use transfer::{DmaTransfer, DmaTransferNode};
pub use types::{
    BurstMode, Channel, CircularMode, DirectMode, Direction, DoubleBufferingMode, Error,
    FifoStatus, FifoThreshold, FlowContoller, IncrementMode, InterruptControl, InterruptState,
    MemoryIndex, PeripheralIncrementOffsetSize, PriorityLevel, Stream, StreamControl, Width,
};
