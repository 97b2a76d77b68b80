//! The SD/MMC controller handle and its shadow registers: argument, command,
//! status, response and echoed-command-index registers as plain data, plus
//! the interrupt-clear operations that reset the sticky status flags.

use vstd::prelude::*;

verus! {

/// Outcome of a dispatched command: success, one of the controller-level
/// failures, or one of the OCR-decoded card-status errors. A closed
/// enumeration; response decoding is the only producer.
#[derive(Clone, Copy, Debug, PartialEq, Eq, Structural)]
pub enum SdmmcErrorCode {
    NoError,
    Timeout,
    CmdRspTimeout,
    CmdCrcFail,
    AddrOutOfRange,
    AddrMisaligned,
    BlockLenErr,
    EraseSeqErr,
    BadEraseParam,
    WriteProtViolation,
    LockUnlockFailed,
    ComCrcFailed,
    IllegalCmd,
    CardEccFailed,
    CcErr,
    StreamReadUnderrun,
    StreamWriteOverrun,
    CidCsdOverwrite,
    WpEraseSkip,
    CardEccDisabled,
    EraseReset,
    AkeSeqErr,
    GeneralUnknownErr,
}

/// Response class the command register announces to the controller.
#[derive(Clone, Copy, Debug, PartialEq, Eq, Structural)]
pub enum WaitResp {
    No,
    Short,
    Long,
}

/// Card capacity class, as the ACMD41 argument encodes it (the host-capacity
/// bit of the OCR).
#[derive(Clone, Copy, Debug, PartialEq, Eq, Structural)]
pub enum CardCapacity {
    StandardCapacity,
    HighCapacity,
}

impl CardCapacity {
    /// The capacity flag as it stands in the ACMD41 argument.
    pub open spec fn spec_code(self) -> u32 {
        match self {
            CardCapacity::StandardCapacity => 0,
            CardCapacity::HighCapacity => 0x4000_0000,
        }
    }

    pub fn code(&self) -> (r: u32)
        ensures
            r == self.spec_code(),
    {
        match *self {
            CardCapacity::StandardCapacity => 0,
            CardCapacity::HighCapacity => 0x4000_0000,
        }
    }
}

/// The command register's fields.
#[derive(Clone, Copy, Debug, PartialEq, Eq, Structural)]
pub struct CmdRegister {
    pub sdiosuspend: bool,
    pub waitpend: bool,
    pub waitint: bool,
    pub waitresp: WaitResp,
    pub cpsmen: bool,
    pub cmdindex: u8,
}

/// The sticky status flags the response waits poll: command sent,
/// command-response timeout, response CRC failure, command-response end.
#[derive(Clone, Copy, Debug, PartialEq, Eq, Structural)]
pub struct SdStatus {
    pub cmdsent: bool,
    pub ctimeout: bool,
    pub ccrcfail: bool,
    pub cmdrend: bool,
}

/// Shadow of the controller's register file. The status and response
/// registers are written by the card side of the hardware, so a caller (or a
/// test bench) sets them to reflect what the card answered before a response
/// wait is run.
#[derive(Clone, Copy, Debug, PartialEq, Eq, Structural)]
pub struct SdRegisters {
    pub arg: u32,
    pub cmd: CmdRegister,
    pub sta: SdStatus,
    pub resp1: u32,
    pub resp2: u32,
    pub resp3: u32,
    pub resp4: u32,
    pub respcmd: u8,
}

/// The command register's fields for one dispatched command: the unused bits
/// at their reset values, the state machine enabled, and the class and index
/// of the command.
pub open spec fn spec_cmd_written(waitresp: WaitResp, cmdindex: u8) -> CmdRegister {
    CmdRegister {
        sdiosuspend: false,
        waitpend: false,
        waitint: false,
        waitresp: waitresp,
        cpsmen: true,
        cmdindex: cmdindex,
    }
}

impl SdRegisters {
    /// Every register at its reset state.
    pub open spec fn spec_reset() -> SdRegisters {
        SdRegisters {
            arg: 0,
            cmd: CmdRegister {
                sdiosuspend: false,
                waitpend: false,
                waitint: false,
                waitresp: WaitResp::No,
                cpsmen: false,
                cmdindex: 0,
            },
            sta: SdStatus { cmdsent: false, ctimeout: false, ccrcfail: false, cmdrend: false },
            resp1: 0,
            resp2: 0,
            resp3: 0,
            resp4: 0,
            respcmd: 0,
        }
    }

    /// Writes the argument register.
    pub fn write_arg(&mut self, value: u32)
        ensures
            *final(self) == (SdRegisters { arg: value, ..*old(self) }),
    {
        self.arg = value;
    }

    /// Writes the command register: reset values in the unused bits, the
    /// command-path state machine enabled, and the given response class and
    /// command index.
    pub fn write_cmd(&mut self, waitresp: WaitResp, cmdindex: u8)
        ensures
            *final(self) == (SdRegisters { cmd: spec_cmd_written(waitresp, cmdindex), ..*old(self) }),
    {
        self.cmd = CmdRegister {
            sdiosuspend: false,
            waitpend: false,
            waitint: false,
            waitresp: waitresp,
            cpsmen: true,
            cmdindex: cmdindex,
        };
    }

    /// Interrupt-clear write for the command-timeout flag.
    pub fn icr_clear_ctimeout(&mut self)
        ensures
            *final(self) == (SdRegisters {
                sta: (SdStatus { ctimeout: false, ..old(self).sta }),
                ..*old(self)
            }),
    {
        self.sta.ctimeout = false;
    }

    /// Interrupt-clear write for the CRC-failure flag.
    pub fn icr_clear_ccrcfail(&mut self)
        ensures
            *final(self) == (SdRegisters {
                sta: (SdStatus { ccrcfail: false, ..old(self).sta }),
                ..*old(self)
            }),
    {
        self.sta.ccrcfail = false;
    }

    /// Interrupt-clear write for the command-response-end flag.
    pub fn icr_clear_cmdrend(&mut self)
        ensures
            *final(self) == (SdRegisters {
                sta: (SdStatus { cmdrend: false, ..old(self).sta }),
                ..*old(self)
            }),
    {
        self.sta.cmdrend = false;
    }
}

/// Owner of one SD/MMC controller's register interface: single owner, single
/// card. The relative card address obtained from CMD3 is threaded through by
/// the caller, never stored here.
pub struct SdHandle {
    pub registers: SdRegisters,
}

impl SdHandle {
    /// A handle over a controller whose registers are at reset.
    pub fn init() -> (h: SdHandle)
        ensures
            h.registers == SdRegisters::spec_reset(),
    {
        SdHandle {
            registers: SdRegisters {
                arg: 0,
                cmd: CmdRegister {
                    sdiosuspend: false,
                    waitpend: false,
                    waitint: false,
                    waitresp: WaitResp::No,
                    cpsmen: false,
                    cmdindex: 0,
                },
                sta: SdStatus { cmdsent: false, ctimeout: false, ccrcfail: false, cmdrend: false },
                resp1: 0,
                resp2: 0,
                resp3: 0,
                resp4: 0,
                respcmd: 0,
            },
        }
    }

    /// Clears every sticky status flag, as the interrupt-clear register does
    /// after a frame has been consumed.
    pub fn clear_all_static_status_flags(&mut self)
        ensures
            final(self).registers == (SdRegisters {
                sta: (SdStatus { cmdsent: false, ctimeout: false, ccrcfail: false, cmdrend: false }),
                ..old(self).registers
            }),
    {
        self.registers.sta = SdStatus {
            cmdsent: false,
            ctimeout: false,
            ccrcfail: false,
            cmdrend: false,
        };
    }

    /// Whether the command index the last response echoed matches the issued
    /// one.
    pub fn correct_resp_command_number(&self, cmd_index: u8) -> (r: bool)
        ensures
            r == (self.registers.respcmd == cmd_index),
    {
        self.registers.respcmd == cmd_index
    }

    /// Reads the four response registers, long-response order.
    pub fn get_all_response_registers(&self) -> (r: [u32; 4])
        ensures
            r@.len() == 4,
            r@[0] == self.registers.resp1,
            r@[1] == self.registers.resp2,
            r@[2] == self.registers.resp3,
            r@[3] == self.registers.resp4,
    {
        [self.registers.resp1, self.registers.resp2, self.registers.resp3, self.registers.resp4]
    }
}

} // verus!
