//! Bare-metal peripheral control layer for an STM32-class microcontroller:
//! a DMA transfer descriptor builder, validator and executor, and an SD/MMC
//! command dispatch and response decoding engine.
//!
//! The memory-mapped register files of the two peripherals are modelled as
//! plain data (shadow registers), so every rule of the layer — burst
//! arithmetic, boundary crossing, FIFO threshold compatibility, response
//! framing and OCR error decoding — is stated and proved over that model.

pub mod dma;
pub mod sd;
