//! The SD command dispatcher: the fixed repertoire of bring-up commands,
//! each a write of the argument register, a write of the command register,
//! and the wait for its response shape. Issue and await stay strictly
//! separated: no response wait touches the argument or command registers.

use vstd::prelude::*;

use crate::sd::handle::{spec_cmd_written, CardCapacity, SdHandle, SdRegisters, SdmmcErrorCode, WaitResp};
use crate::sd::response::{
    spec_cmd_sent_outcome, spec_r1_final_sta, spec_r1_outcome, spec_r2_final_sta, spec_r2_outcome,
    spec_r3_final_sta, spec_r3_outcome, spec_r6_outcome, spec_r7_final_sta, spec_r7_outcome,
    SDMMC_CMD_TIMEOUT,
};

verus! {

impl SdHandle {
    /// Sends CMD0, which resets all cards into the idle state. No response
    /// is expected; the command is confirmed by the "command sent" flag
    /// alone.
    pub fn cmd_go_idle_state(&mut self) -> (r: SdmmcErrorCode)
        ensures
            r == spec_cmd_sent_outcome(old(self).registers.sta),
            final(self).registers == (SdRegisters {
                arg: 0,
                cmd: spec_cmd_written(WaitResp::No, 0),
                ..old(self).registers
            }),
    {
        // only stuff bits in the argument
        self.registers.write_arg(0);
        self.registers.write_cmd(WaitResp::No, 0);

        self.get_cmd_error()
    }

    /// Sends CMD2, which asks all cards to return their CID (long response).
    pub fn cmd_all_send_cid(&mut self) -> (r: SdmmcErrorCode)
        ensures
            r == spec_r2_outcome(old(self).registers.sta, SDMMC_CMD_TIMEOUT),
            final(self).registers == (SdRegisters {
                arg: 0,
                cmd: spec_cmd_written(WaitResp::Long, 2),
                sta: spec_r2_final_sta(old(self).registers.sta, SDMMC_CMD_TIMEOUT),
                ..old(self).registers
            }),
    {
        self.registers.write_arg(0);
        self.registers.write_cmd(WaitResp::Long, 2);

        self.get_response2()
    }

    /// Sends CMD3, which asks the card to publish its relative card address
    /// (short response, command-index checked).
    pub fn cmd_send_relative_addr(&mut self) -> (r: Result<u16, SdmmcErrorCode>)
        ensures
            r == spec_r6_outcome(
                old(self).registers.sta,
                old(self).registers.respcmd,
                3,
                old(self).registers.resp1,
                SDMMC_CMD_TIMEOUT,
            ),
            final(self).registers == (SdRegisters {
                arg: 0,
                cmd: spec_cmd_written(WaitResp::Short, 3),
                sta: spec_r1_final_sta(
                    old(self).registers.sta,
                    old(self).registers.respcmd,
                    3,
                    SDMMC_CMD_TIMEOUT,
                ),
                ..old(self).registers
            }),
    {
        self.registers.write_arg(0);

        let cmd_index: u8 = 3;
        self.registers.write_cmd(WaitResp::Short, cmd_index);

        self.get_response6(cmd_index)
    }

    /// Sends CMD7, which selects or deselects the card with the given
    /// relative address (short response, command-index checked).
    pub fn cmd_select_deselect_card(&mut self, rca: u32) -> (r: SdmmcErrorCode)
        ensures
            r == spec_r1_outcome(
                old(self).registers.sta,
                old(self).registers.respcmd,
                7,
                old(self).registers.resp1,
                SDMMC_CMD_TIMEOUT,
            ),
            final(self).registers == (SdRegisters {
                arg: rca << 16,
                cmd: spec_cmd_written(WaitResp::Short, 7),
                sta: spec_r1_final_sta(
                    old(self).registers.sta,
                    old(self).registers.respcmd,
                    7,
                    SDMMC_CMD_TIMEOUT,
                ),
                ..old(self).registers
            }),
    {
        // argument: the relative card address in the upper half, stuff bits
        // below
        self.registers.write_arg(rca << 16);

        let cmd_index: u8 = 7;
        self.registers.write_cmd(WaitResp::Short, cmd_index);

        self.get_response1(cmd_index, SDMMC_CMD_TIMEOUT)
    }

    /// Sends CMD8, which asks for the card's operating parameters. Only
    /// version-2 cards answer it: an absent response is itself meaningful
    /// and reads as the legacy-card path.
    pub fn cmd_send_if_cond(&mut self) -> (r: SdmmcErrorCode)
        ensures
            r == spec_r7_outcome(old(self).registers.sta, SDMMC_CMD_TIMEOUT),
            final(self).registers == (SdRegisters {
                arg: 0x1AA,
                cmd: spec_cmd_written(WaitResp::Short, 8),
                sta: spec_r7_final_sta(old(self).registers.sta, SDMMC_CMD_TIMEOUT),
                ..old(self).registers
            }),
    {
        // argument: supply voltage 0x1 (2.7-3.6 V) and check pattern 0xAA
        self.registers.write_arg(0x1AA);
        self.registers.write_cmd(WaitResp::Short, 8);

        self.get_response7()
    }

    /// Sends CMD9, which prompts the card with the given relative address to
    /// send its CSD (long response).
    pub fn cmd_send_csd(&mut self, rca: u32) -> (r: SdmmcErrorCode)
        ensures
            r == spec_r2_outcome(old(self).registers.sta, SDMMC_CMD_TIMEOUT),
            final(self).registers == (SdRegisters {
                arg: rca << 16,
                cmd: spec_cmd_written(WaitResp::Long, 9),
                sta: spec_r2_final_sta(old(self).registers.sta, SDMMC_CMD_TIMEOUT),
                ..old(self).registers
            }),
    {
        self.registers.write_arg(rca << 16);

        let cmd_index: u8 = 9;
        self.registers.write_cmd(WaitResp::Long, cmd_index);

        self.get_response2()
    }

    /// Sends CMD55, which announces that the next command is application
    /// specific (short response, command-index checked).
    pub fn cmd_app_cmd(&mut self, rca: u32) -> (r: SdmmcErrorCode)
        ensures
            r == spec_r1_outcome(
                old(self).registers.sta,
                old(self).registers.respcmd,
                55,
                old(self).registers.resp1,
                SDMMC_CMD_TIMEOUT,
            ),
            final(self).registers == (SdRegisters {
                arg: rca << 16,
                cmd: spec_cmd_written(WaitResp::Short, 55),
                sta: spec_r1_final_sta(
                    old(self).registers.sta,
                    old(self).registers.respcmd,
                    55,
                    SDMMC_CMD_TIMEOUT,
                ),
                ..old(self).registers
            }),
    {
        self.registers.write_arg(rca << 16);

        let cmd_index: u8 = 55;
        self.registers.write_cmd(WaitResp::Short, cmd_index);

        self.get_response1(cmd_index, SDMMC_CMD_TIMEOUT)
    }

    /// Sends ACMD41, asking the card for its operating condition; the
    /// argument carries the voltage window and the host-capacity flag. The
    /// R3 answer carries no valid CRC by design.
    pub fn cmd_sd_send_op_cond(&mut self, capacity: CardCapacity) -> (r: SdmmcErrorCode)
        ensures
            r == spec_r3_outcome(old(self).registers.sta, SDMMC_CMD_TIMEOUT),
            final(self).registers == (SdRegisters {
                arg: 0x8010_0000 | capacity.spec_code(),
                cmd: spec_cmd_written(WaitResp::Short, 41),
                sta: spec_r3_final_sta(old(self).registers.sta, SDMMC_CMD_TIMEOUT),
                ..old(self).registers
            }),
    {
        self.registers.write_arg(0x8010_0000 | capacity.code());
        self.registers.write_cmd(WaitResp::Short, 41);

        self.get_response3()
    }
}

} // verus!
