//! SD/MMC command dispatch and response decoding, over a shadow model of the
//! controller's argument, command, status and response registers.

pub mod command;
pub mod handle;
pub mod response;

pub use handle::{CardCapacity, CmdRegister, SdHandle, SdRegisters, SdStatus, SdmmcErrorCode, WaitResp};
pub use response::check_ocr_error_bits;
