//! The SD response decoder: one bounded polling loop per response shape
//! (R1/R2/R3/R6/R7 and the no-response "command sent" wait), each testing
//! the status flags in the fixed priority order command-timeout, CRC-failure,
//! response-end, plus the OCR error-bit table that turns a 32-bit card
//! status word into a typed outcome.
//!
//! The status flags are sticky hardware state: the shadow registers hold
//! whatever the card answered, so each wait is decided by its first poll and
//! the loop's budget only matters when no flag is set at all. A decoder
//! clears the flag it consumed before returning, so a later command is not
//! corrupted by stale status; a software timeout clears nothing.

use vstd::prelude::*;

use crate::sd::handle::{SdHandle, SdRegisters, SdStatus, SdmmcErrorCode};

verus! {

/// Ticks a response wait spends polling before it reports a software
/// timeout, unless the caller passes its own budget.
pub const SDMMC_CMD_TIMEOUT: usize = 5000;

/// The OCR error-bit table: the first matching bit of the card status word
/// decides, address-out-of-range first and the catch-all last.
pub open spec fn spec_ocr_code(resp1: u32) -> SdmmcErrorCode {
    if resp1 & 0xFDFF_E008 == 0 {
        SdmmcErrorCode::NoError
    } else if resp1 & 0x8000_0000 == 0x8000_0000 {
        SdmmcErrorCode::AddrOutOfRange
    } else if resp1 & 0x4000_0000 == 0x4000_0000 {
        SdmmcErrorCode::AddrMisaligned
    } else if resp1 & 0x2000_0000 == 0x2000_0000 {
        SdmmcErrorCode::BlockLenErr
    } else if resp1 & 0x1000_0000 == 0x1000_0000 {
        SdmmcErrorCode::EraseSeqErr
    } else if resp1 & 0x0800_0000 == 0x0800_0000 {
        SdmmcErrorCode::BadEraseParam
    } else if resp1 & 0x0400_0000 == 0x0400_0000 {
        SdmmcErrorCode::WriteProtViolation
    } else if resp1 & 0x0100_0000 == 0x0100_0000 {
        SdmmcErrorCode::LockUnlockFailed
    } else if resp1 & 0x0080_0000 == 0x0080_0000 {
        SdmmcErrorCode::ComCrcFailed
    } else if resp1 & 0x0040_0000 == 0x0040_0000 {
        SdmmcErrorCode::IllegalCmd
    } else if resp1 & 0x0020_0000 == 0x0020_0000 {
        SdmmcErrorCode::CardEccFailed
    } else if resp1 & 0x0010_0000 == 0x0010_0000 {
        SdmmcErrorCode::CcErr
    } else if resp1 & 0x0004_0000 == 0x0004_0000 {
        SdmmcErrorCode::StreamReadUnderrun
    } else if resp1 & 0x0002_0000 == 0x0002_0000 {
        SdmmcErrorCode::StreamWriteOverrun
    } else if resp1 & 0x0001_0000 == 0x0001_0000 {
        SdmmcErrorCode::CidCsdOverwrite
    } else if resp1 & 0x0000_8000 == 0x0000_8000 {
        SdmmcErrorCode::WpEraseSkip
    } else if resp1 & 0x0000_4000 == 0x0000_4000 {
        SdmmcErrorCode::CardEccDisabled
    } else if resp1 & 0x0000_2000 == 0x0000_2000 {
        SdmmcErrorCode::EraseReset
    } else if resp1 & 0x0000_0008 == 0x0000_0008 {
        SdmmcErrorCode::AkeSeqErr
    } else {
        SdmmcErrorCode::GeneralUnknownErr
    }
}

/// Outcome of the no-response wait: success as soon as the "command sent"
/// flag shows, a software timeout otherwise.
pub open spec fn spec_cmd_sent_outcome(sta: SdStatus) -> SdmmcErrorCode {
    if sta.cmdsent {
        SdmmcErrorCode::NoError
    } else {
        SdmmcErrorCode::Timeout
    }
}

/// Outcome of an R1 wait: timeout and CRC flags first; on a sound frame the
/// echoed command index must match (a mismatch is indistinguishable from
/// corruption and reads as a CRC failure), then the card status word decodes
/// through the OCR table.
pub open spec fn spec_r1_outcome(
    sta: SdStatus,
    respcmd: u8,
    cmd_index: u8,
    resp1: u32,
    timeout: usize,
) -> SdmmcErrorCode {
    if timeout == 0 {
        SdmmcErrorCode::Timeout
    } else if sta.ctimeout {
        SdmmcErrorCode::CmdRspTimeout
    } else if sta.ccrcfail {
        SdmmcErrorCode::CmdCrcFail
    } else if sta.cmdrend {
        if respcmd != cmd_index {
            SdmmcErrorCode::CmdCrcFail
        } else {
            spec_ocr_code(resp1)
        }
    } else {
        SdmmcErrorCode::Timeout
    }
}

/// Status flags after an R1 (or R6) wait: the consumed flag is cleared, all
/// four on a fully decoded frame, and nothing on a software timeout.
pub open spec fn spec_r1_final_sta(
    sta: SdStatus,
    respcmd: u8,
    cmd_index: u8,
    timeout: usize,
) -> SdStatus {
    if timeout == 0 {
        sta
    } else if sta.ctimeout {
        SdStatus { ctimeout: false, ..sta }
    } else if sta.ccrcfail {
        SdStatus { ccrcfail: false, ..sta }
    } else if sta.cmdrend {
        if respcmd != cmd_index {
            SdStatus { cmdrend: false, ..sta }
        } else {
            SdStatus { cmdsent: false, ctimeout: false, ccrcfail: false, cmdrend: false }
        }
    } else {
        sta
    }
}

/// Outcome of an R2 wait: success needs only the response-end flag; R2
/// frames carry no command-index echo, so there is nothing further to check.
pub open spec fn spec_r2_outcome(sta: SdStatus, timeout: usize) -> SdmmcErrorCode {
    if timeout == 0 {
        SdmmcErrorCode::Timeout
    } else if sta.ctimeout {
        SdmmcErrorCode::CmdRspTimeout
    } else if sta.ccrcfail {
        SdmmcErrorCode::CmdCrcFail
    } else if sta.cmdrend {
        SdmmcErrorCode::NoError
    } else {
        SdmmcErrorCode::Timeout
    }
}

/// Status flags after an R2 wait.
pub open spec fn spec_r2_final_sta(sta: SdStatus, timeout: usize) -> SdStatus {
    if timeout == 0 {
        sta
    } else if sta.ctimeout {
        SdStatus { ctimeout: false, ..sta }
    } else if sta.ccrcfail {
        SdStatus { ccrcfail: false, ..sta }
    } else if sta.cmdrend {
        SdStatus { cmdsent: false, ctimeout: false, ccrcfail: false, cmdrend: false }
    } else {
        sta
    }
}

/// Outcome of an R3 wait: an R3 frame deliberately carries no valid CRC, so
/// a CRC-failure indication is as much a success as response-end; only a
/// command timeout is an error.
pub open spec fn spec_r3_outcome(sta: SdStatus, timeout: usize) -> SdmmcErrorCode {
    if timeout == 0 {
        SdmmcErrorCode::Timeout
    } else if sta.ctimeout {
        SdmmcErrorCode::CmdRspTimeout
    } else if sta.ccrcfail || sta.cmdrend {
        SdmmcErrorCode::NoError
    } else {
        SdmmcErrorCode::Timeout
    }
}

/// Status flags after an R3 wait.
pub open spec fn spec_r3_final_sta(sta: SdStatus, timeout: usize) -> SdStatus {
    if timeout == 0 {
        sta
    } else if sta.ctimeout {
        SdStatus { ctimeout: false, ..sta }
    } else if sta.ccrcfail || sta.cmdrend {
        SdStatus { cmdsent: false, ctimeout: false, ccrcfail: false, cmdrend: false }
    } else {
        sta
    }
}

/// Outcome of an R6 wait: like R1's index check, but the status word is the
/// lower half of the response register, only three error bits are tested
/// (illegal command, CRC failed, general unknown error, in that order), and
/// success hands back the newly assigned relative card address from the
/// upper half.
pub open spec fn spec_r6_outcome(
    sta: SdStatus,
    respcmd: u8,
    cmd_index: u8,
    resp1: u32,
    timeout: usize,
) -> Result<u16, SdmmcErrorCode> {
    if timeout == 0 {
        Err(SdmmcErrorCode::Timeout)
    } else if sta.ctimeout {
        Err(SdmmcErrorCode::CmdRspTimeout)
    } else if sta.ccrcfail {
        Err(SdmmcErrorCode::CmdCrcFail)
    } else if sta.cmdrend {
        if respcmd != cmd_index {
            Err(SdmmcErrorCode::CmdCrcFail)
        } else if resp1 & 0x4000 != 0 {
            Err(SdmmcErrorCode::IllegalCmd)
        } else if resp1 & 0x8000 != 0 {
            Err(SdmmcErrorCode::ComCrcFailed)
        } else if resp1 & 0x2000 != 0 {
            Err(SdmmcErrorCode::GeneralUnknownErr)
        } else {
            Ok((resp1 >> 16) as u16)
        }
    } else {
        Err(SdmmcErrorCode::Timeout)
    }
}

/// Outcome of an R7 wait: both a CRC failure and response-end show the card
/// answered, which is all CMD8 asks; a command timeout is reported as such,
/// and the caller reads it as "legacy card", not as a fault.
pub open spec fn spec_r7_outcome(sta: SdStatus, timeout: usize) -> SdmmcErrorCode {
    if timeout == 0 {
        SdmmcErrorCode::Timeout
    } else if sta.ctimeout {
        SdmmcErrorCode::CmdRspTimeout
    } else if sta.ccrcfail {
        SdmmcErrorCode::NoError
    } else if sta.cmdrend {
        SdmmcErrorCode::NoError
    } else {
        SdmmcErrorCode::Timeout
    }
}

/// Status flags after an R7 wait: exactly the flag that decided is cleared.
pub open spec fn spec_r7_final_sta(sta: SdStatus, timeout: usize) -> SdStatus {
    if timeout == 0 {
        sta
    } else if sta.ctimeout {
        SdStatus { ctimeout: false, ..sta }
    } else if sta.ccrcfail {
        SdStatus { ccrcfail: false, ..sta }
    } else if sta.cmdrend {
        SdStatus { cmdrend: false, ..sta }
    } else {
        sta
    }
}

/// Decodes a 32-bit card status word through the OCR error-bit table, in the
/// fixed priority order.
pub fn check_ocr_error_bits(resp1: u32) -> (r: SdmmcErrorCode)
    ensures
        r == spec_ocr_code(resp1),
{
    if resp1 & 0xFDFF_E008 == 0 {
        SdmmcErrorCode::NoError
    } else if resp1 & 0x8000_0000 == 0x8000_0000 {
        SdmmcErrorCode::AddrOutOfRange
    } else if resp1 & 0x4000_0000 == 0x4000_0000 {
        SdmmcErrorCode::AddrMisaligned
    } else if resp1 & 0x2000_0000 == 0x2000_0000 {
        SdmmcErrorCode::BlockLenErr
    } else if resp1 & 0x1000_0000 == 0x1000_0000 {
        SdmmcErrorCode::EraseSeqErr
    } else if resp1 & 0x0800_0000 == 0x0800_0000 {
        SdmmcErrorCode::BadEraseParam
    } else if resp1 & 0x0400_0000 == 0x0400_0000 {
        SdmmcErrorCode::WriteProtViolation
    } else if resp1 & 0x0100_0000 == 0x0100_0000 {
        SdmmcErrorCode::LockUnlockFailed
    } else if resp1 & 0x0080_0000 == 0x0080_0000 {
        SdmmcErrorCode::ComCrcFailed
    } else if resp1 & 0x0040_0000 == 0x0040_0000 {
        SdmmcErrorCode::IllegalCmd
    } else if resp1 & 0x0020_0000 == 0x0020_0000 {
        SdmmcErrorCode::CardEccFailed
    } else if resp1 & 0x0010_0000 == 0x0010_0000 {
        SdmmcErrorCode::CcErr
    } else if resp1 & 0x0004_0000 == 0x0004_0000 {
        SdmmcErrorCode::StreamReadUnderrun
    } else if resp1 & 0x0002_0000 == 0x0002_0000 {
        SdmmcErrorCode::StreamWriteOverrun
    } else if resp1 & 0x0001_0000 == 0x0001_0000 {
        SdmmcErrorCode::CidCsdOverwrite
    } else if resp1 & 0x0000_8000 == 0x0000_8000 {
        SdmmcErrorCode::WpEraseSkip
    } else if resp1 & 0x0000_4000 == 0x0000_4000 {
        SdmmcErrorCode::CardEccDisabled
    } else if resp1 & 0x0000_2000 == 0x0000_2000 {
        SdmmcErrorCode::EraseReset
    } else if resp1 & 0x0000_0008 == 0x0000_0008 {
        SdmmcErrorCode::AkeSeqErr
    } else {
        SdmmcErrorCode::GeneralUnknownErr
    }
}

impl SdHandle {
    /// Waits for confirmation that a command expecting no response was sent.
    pub fn get_cmd_error(&self) -> (r: SdmmcErrorCode)
        ensures
            r == spec_cmd_sent_outcome(self.registers.sta),
    {
        let mut elapsed: usize = 0;
        while elapsed < SDMMC_CMD_TIMEOUT
            invariant
                elapsed > 0 ==> !self.registers.sta.cmdsent,
            decreases SDMMC_CMD_TIMEOUT - elapsed,
        {
            if self.registers.sta.cmdsent {
                return SdmmcErrorCode::NoError;
            }
            elapsed = elapsed + 1;
        }
        SdmmcErrorCode::Timeout
    }

    /// Waits for and decodes an R1 response to the command with the given
    /// index, polling for at most `timeout` ticks.
    pub fn get_response1(&mut self, cmd_index: u8, timeout: usize) -> (r: SdmmcErrorCode)
        ensures
            r == spec_r1_outcome(
                old(self).registers.sta,
                old(self).registers.respcmd,
                cmd_index,
                old(self).registers.resp1,
                timeout,
            ),
            final(self).registers == (SdRegisters {
                sta: spec_r1_final_sta(
                    old(self).registers.sta,
                    old(self).registers.respcmd,
                    cmd_index,
                    timeout,
                ),
                ..old(self).registers
            }),
    {
        let mut elapsed: usize = 0;
        while elapsed < timeout
            invariant
                self.registers == old(self).registers,
                elapsed > 0 ==> !self.registers.sta.ctimeout && !self.registers.sta.ccrcfail
                    && !self.registers.sta.cmdrend,
            decreases timeout - elapsed,
        {
            if self.registers.sta.ctimeout {
                self.registers.icr_clear_ctimeout();
                return SdmmcErrorCode::CmdRspTimeout;
            }
            if self.registers.sta.ccrcfail {
                self.registers.icr_clear_ccrcfail();
                return SdmmcErrorCode::CmdCrcFail;
            }
            if self.registers.sta.cmdrend {
                if !self.correct_resp_command_number(cmd_index) {
                    self.registers.icr_clear_cmdrend();
                    return SdmmcErrorCode::CmdCrcFail;
                }
                self.clear_all_static_status_flags();

                let response = self.registers.resp1;
                return check_ocr_error_bits(response);
            }
            elapsed = elapsed + 1;
        }
        SdmmcErrorCode::Timeout
    }

    /// Waits for an R2 (long, CID/CSD) response: pass or fail only.
    pub fn get_response2(&mut self) -> (r: SdmmcErrorCode)
        ensures
            r == spec_r2_outcome(old(self).registers.sta, SDMMC_CMD_TIMEOUT),
            final(self).registers == (SdRegisters {
                sta: spec_r2_final_sta(old(self).registers.sta, SDMMC_CMD_TIMEOUT),
                ..old(self).registers
            }),
    {
        let mut elapsed: usize = 0;
        while elapsed < SDMMC_CMD_TIMEOUT
            invariant
                self.registers == old(self).registers,
                elapsed > 0 ==> !self.registers.sta.ctimeout && !self.registers.sta.ccrcfail
                    && !self.registers.sta.cmdrend,
            decreases SDMMC_CMD_TIMEOUT - elapsed,
        {
            if self.registers.sta.ctimeout {
                self.registers.icr_clear_ctimeout();
                return SdmmcErrorCode::CmdRspTimeout;
            }
            if self.registers.sta.ccrcfail {
                self.registers.icr_clear_ccrcfail();
                return SdmmcErrorCode::CmdCrcFail;
            }
            if self.registers.sta.cmdrend {
                self.clear_all_static_status_flags();
                return SdmmcErrorCode::NoError;
            }
            elapsed = elapsed + 1;
        }
        SdmmcErrorCode::Timeout
    }

    /// Waits for an R3 (OCR) response, preserving the protocol quirk that a
    /// CRC failure is the expected, benign outcome.
    pub fn get_response3(&mut self) -> (r: SdmmcErrorCode)
        ensures
            r == spec_r3_outcome(old(self).registers.sta, SDMMC_CMD_TIMEOUT),
            final(self).registers == (SdRegisters {
                sta: spec_r3_final_sta(old(self).registers.sta, SDMMC_CMD_TIMEOUT),
                ..old(self).registers
            }),
    {
        let mut elapsed: usize = 0;
        while elapsed < SDMMC_CMD_TIMEOUT
            invariant
                self.registers == old(self).registers,
                elapsed > 0 ==> !self.registers.sta.ctimeout && !self.registers.sta.ccrcfail
                    && !self.registers.sta.cmdrend,
            decreases SDMMC_CMD_TIMEOUT - elapsed,
        {
            if self.registers.sta.ctimeout {
                self.registers.icr_clear_ctimeout();
                return SdmmcErrorCode::CmdRspTimeout;
            }
            if self.registers.sta.ccrcfail || self.registers.sta.cmdrend {
                self.clear_all_static_status_flags();
                return SdmmcErrorCode::NoError;
            }
            elapsed = elapsed + 1;
        }
        SdmmcErrorCode::Timeout
    }

    /// Waits for and decodes an R6 (published RCA) response to the command
    /// with the given index.
    pub fn get_response6(&mut self, cmd_index: u8) -> (r: Result<u16, SdmmcErrorCode>)
        ensures
            r == spec_r6_outcome(
                old(self).registers.sta,
                old(self).registers.respcmd,
                cmd_index,
                old(self).registers.resp1,
                SDMMC_CMD_TIMEOUT,
            ),
            final(self).registers == (SdRegisters {
                sta: spec_r1_final_sta(
                    old(self).registers.sta,
                    old(self).registers.respcmd,
                    cmd_index,
                    SDMMC_CMD_TIMEOUT,
                ),
                ..old(self).registers
            }),
    {
        let mut elapsed: usize = 0;
        while elapsed < SDMMC_CMD_TIMEOUT
            invariant
                self.registers == old(self).registers,
                elapsed > 0 ==> !self.registers.sta.ctimeout && !self.registers.sta.ccrcfail
                    && !self.registers.sta.cmdrend,
            decreases SDMMC_CMD_TIMEOUT - elapsed,
        {
            if self.registers.sta.ctimeout {
                self.registers.icr_clear_ctimeout();
                return Err(SdmmcErrorCode::CmdRspTimeout);
            }
            if self.registers.sta.ccrcfail {
                self.registers.icr_clear_ccrcfail();
                return Err(SdmmcErrorCode::CmdCrcFail);
            }
            if self.registers.sta.cmdrend {
                if !self.correct_resp_command_number(cmd_index) {
                    self.registers.icr_clear_cmdrend();
                    return Err(SdmmcErrorCode::CmdCrcFail);
                }
                self.clear_all_static_status_flags();

                let response = self.registers.resp1;
                if response & 0x4000 != 0 {
                    return Err(SdmmcErrorCode::IllegalCmd);
                } else if response & 0x8000 != 0 {
                    return Err(SdmmcErrorCode::ComCrcFailed);
                } else if response & 0x2000 != 0 {
                    return Err(SdmmcErrorCode::GeneralUnknownErr);
                }
                proof {
                    assert((response >> 16) < 65536) by (bit_vector);
                }
                return Ok((response >> 16) as u16);
            }
            elapsed = elapsed + 1;
        }
        Err(SdmmcErrorCode::Timeout)
    }

    /// Waits for an R7 (interface condition) response. A decoded frame, with
    /// or without a sound CRC, shows the card supports this command's
    /// version; a command timeout is the legacy-card path.
    pub fn get_response7(&mut self) -> (r: SdmmcErrorCode)
        ensures
            r == spec_r7_outcome(old(self).registers.sta, SDMMC_CMD_TIMEOUT),
            final(self).registers == (SdRegisters {
                sta: spec_r7_final_sta(old(self).registers.sta, SDMMC_CMD_TIMEOUT),
                ..old(self).registers
            }),
    {
        let mut elapsed: usize = 0;
        while elapsed < SDMMC_CMD_TIMEOUT
            invariant
                self.registers == old(self).registers,
                elapsed > 0 ==> !self.registers.sta.ctimeout && !self.registers.sta.ccrcfail
                    && !self.registers.sta.cmdrend,
            decreases SDMMC_CMD_TIMEOUT - elapsed,
        {
            if self.registers.sta.ctimeout {
                self.registers.icr_clear_ctimeout();
                return SdmmcErrorCode::CmdRspTimeout;
            }
            if self.registers.sta.ccrcfail {
                self.registers.icr_clear_ccrcfail();
                return SdmmcErrorCode::NoError;
            }
            if self.registers.sta.cmdrend {
                self.registers.icr_clear_cmdrend();
                return SdmmcErrorCode::NoError;
            }
            elapsed = elapsed + 1;
        }
        SdmmcErrorCode::Timeout
    }
}

/// An R3 wait reports a CRC-failure indication as success, never as an
/// error: with a polling budget left and no command timeout raised (a
/// simultaneous command timeout takes priority, and an exhausted budget
/// times out), a raised CRC-failure flag decodes as success.
pub proof fn lemma_r3_crc_failure_is_success(sta: SdStatus, timeout: usize)
    requires
        sta.ccrcfail,
        !sta.ctimeout,
        timeout > 0,
    ensures
        spec_r3_outcome(sta, timeout) == SdmmcErrorCode::NoError,
{
}

/// A response frame whose echoed command index differs from the issued one
/// decodes as a CRC failure, in R1 and in R6 alike, even with the CRC and
/// timeout flags both clear.
pub proof fn lemma_index_mismatch_is_crc_failure(
    sta: SdStatus,
    respcmd: u8,
    cmd_index: u8,
    resp1: u32,
    timeout: usize,
)
    requires
        sta.cmdrend,
        !sta.ctimeout,
        !sta.ccrcfail,
        respcmd != cmd_index,
        timeout > 0,
    ensures
        spec_r1_outcome(sta, respcmd, cmd_index, resp1, timeout) == SdmmcErrorCode::CmdCrcFail,
        spec_r6_outcome(sta, respcmd, cmd_index, resp1, timeout) == Err::<u16, SdmmcErrorCode>(
            SdmmcErrorCode::CmdCrcFail,
        ),
{
}

} // verus!
