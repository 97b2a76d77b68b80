use dma_sdmmc::sd::{check_ocr_error_bits, CardCapacity, SdHandle, SdmmcErrorCode, WaitResp};

fn handle() -> SdHandle {
    SdHandle::init()
}

#[test]
fn ocr_zero_status_is_success() {
    assert_eq!(check_ocr_error_bits(0x0000_0000), SdmmcErrorCode::NoError);
}

#[test]
fn ocr_bits_outside_the_error_mask_are_ignored() {
    // bit 2 is no OCR error bit
    assert_eq!(check_ocr_error_bits(0x0000_0004), SdmmcErrorCode::NoError);
}

#[test]
fn ocr_address_out_of_range() {
    assert_eq!(
        check_ocr_error_bits(0x8000_0000),
        SdmmcErrorCode::AddrOutOfRange
    );
}

#[test]
fn ocr_priority_order_is_respected() {
    // both bit 31 and bit 30 set: address-out-of-range is checked first
    assert_eq!(
        check_ocr_error_bits(0x8000_0000 | 0x4000_0000),
        SdmmcErrorCode::AddrOutOfRange
    );
}

#[test]
fn ocr_error_bit_table() {
    assert_eq!(check_ocr_error_bits(0x4000_0000), SdmmcErrorCode::AddrMisaligned);
    assert_eq!(check_ocr_error_bits(0x2000_0000), SdmmcErrorCode::BlockLenErr);
    assert_eq!(check_ocr_error_bits(0x1000_0000), SdmmcErrorCode::EraseSeqErr);
    assert_eq!(check_ocr_error_bits(0x0800_0000), SdmmcErrorCode::BadEraseParam);
    assert_eq!(
        check_ocr_error_bits(0x0400_0000),
        SdmmcErrorCode::WriteProtViolation
    );
    assert_eq!(
        check_ocr_error_bits(0x0100_0000),
        SdmmcErrorCode::LockUnlockFailed
    );
    assert_eq!(check_ocr_error_bits(0x0080_0000), SdmmcErrorCode::ComCrcFailed);
    assert_eq!(check_ocr_error_bits(0x0040_0000), SdmmcErrorCode::IllegalCmd);
    assert_eq!(check_ocr_error_bits(0x0020_0000), SdmmcErrorCode::CardEccFailed);
    assert_eq!(check_ocr_error_bits(0x0010_0000), SdmmcErrorCode::CcErr);
    assert_eq!(
        check_ocr_error_bits(0x0004_0000),
        SdmmcErrorCode::StreamReadUnderrun
    );
    assert_eq!(
        check_ocr_error_bits(0x0002_0000),
        SdmmcErrorCode::StreamWriteOverrun
    );
    assert_eq!(
        check_ocr_error_bits(0x0001_0000),
        SdmmcErrorCode::CidCsdOverwrite
    );
    assert_eq!(check_ocr_error_bits(0x0000_8000), SdmmcErrorCode::WpEraseSkip);
    assert_eq!(
        check_ocr_error_bits(0x0000_4000),
        SdmmcErrorCode::CardEccDisabled
    );
    assert_eq!(check_ocr_error_bits(0x0000_2000), SdmmcErrorCode::EraseReset);
    assert_eq!(check_ocr_error_bits(0x0000_0008), SdmmcErrorCode::AkeSeqErr);
}

#[test]
fn ocr_unnamed_error_bit_is_general_unknown() {
    // bit 19 is in the error mask but matches no named error
    assert_eq!(
        check_ocr_error_bits(0x0008_0000),
        SdmmcErrorCode::GeneralUnknownErr
    );
}

#[test]
fn cmd0_confirmed_by_command_sent_flag() {
    let mut h = handle();
    h.registers.sta.cmdsent = true;
    assert_eq!(h.cmd_go_idle_state(), SdmmcErrorCode::NoError);
    assert_eq!(h.registers.arg, 0);
    assert_eq!(h.registers.cmd.cmdindex, 0);
    assert_eq!(h.registers.cmd.waitresp, WaitResp::No);
    assert!(h.registers.cmd.cpsmen);
    assert!(!h.registers.cmd.sdiosuspend);
    assert!(!h.registers.cmd.waitpend);
    assert!(!h.registers.cmd.waitint);
}

#[test]
fn cmd0_without_confirmation_times_out() {
    let mut h = handle();
    assert_eq!(h.cmd_go_idle_state(), SdmmcErrorCode::Timeout);
}

#[test]
fn cmd7_clean_status_word_is_success() {
    let mut h = handle();
    h.registers.sta.cmdrend = true;
    h.registers.respcmd = 7;
    h.registers.resp1 = 0x0000_0000;
    assert_eq!(h.cmd_select_deselect_card(0x1234), SdmmcErrorCode::NoError);
    assert_eq!(h.registers.arg, 0x1234 << 16);
    assert_eq!(h.registers.cmd.cmdindex, 7);
    assert_eq!(h.registers.cmd.waitresp, WaitResp::Short);
    // a fully decoded frame clears every sticky flag
    assert!(!h.registers.sta.cmdrend);
    assert!(!h.registers.sta.cmdsent);
}

#[test]
fn cmd7_decodes_card_status_through_ocr_table() {
    let mut h = handle();
    h.registers.sta.cmdrend = true;
    h.registers.respcmd = 7;
    h.registers.resp1 = 0x8000_0000;
    assert_eq!(
        h.cmd_select_deselect_card(1),
        SdmmcErrorCode::AddrOutOfRange
    );
}

#[test]
fn echoed_index_mismatch_reads_as_crc_failure() {
    let mut h = handle();
    // CRC and timeout flags are both clear; only the echoed index is wrong
    h.registers.sta.cmdrend = true;
    h.registers.respcmd = 5;
    h.registers.resp1 = 0;
    assert_eq!(h.cmd_select_deselect_card(1), SdmmcErrorCode::CmdCrcFail);
    // the consumed response-end flag was cleared
    assert!(!h.registers.sta.cmdrend);
}

#[test]
fn r1_command_timeout_clears_only_its_flag() {
    let mut h = handle();
    h.registers.sta.ctimeout = true;
    h.registers.sta.ccrcfail = true;
    assert_eq!(h.cmd_app_cmd(9), SdmmcErrorCode::CmdRspTimeout);
    assert!(!h.registers.sta.ctimeout);
    assert!(h.registers.sta.ccrcfail);
    assert_eq!(h.registers.cmd.cmdindex, 55);
    assert_eq!(h.registers.arg, 9 << 16);
}

#[test]
fn r1_crc_failure_is_an_error() {
    let mut h = handle();
    h.registers.sta.ccrcfail = true;
    assert_eq!(h.cmd_app_cmd(0), SdmmcErrorCode::CmdCrcFail);
    assert!(!h.registers.sta.ccrcfail);
}

#[test]
fn r1_without_any_flag_times_out_in_software() {
    let mut h = handle();
    assert_eq!(h.cmd_select_deselect_card(0), SdmmcErrorCode::Timeout);
}

#[test]
fn cmd2_needs_only_response_end() {
    let mut h = handle();
    h.registers.sta.cmdrend = true;
    // R2 carries no command-index echo: a foreign index is no failure
    h.registers.respcmd = 99;
    assert_eq!(h.cmd_all_send_cid(), SdmmcErrorCode::NoError);
    assert_eq!(h.registers.arg, 0);
    assert_eq!(h.registers.cmd.cmdindex, 2);
    assert_eq!(h.registers.cmd.waitresp, WaitResp::Long);
    assert!(!h.registers.sta.cmdrend);
}

#[test]
fn cmd9_failure_paths() {
    let mut h = handle();
    h.registers.sta.ctimeout = true;
    assert_eq!(h.cmd_send_csd(7), SdmmcErrorCode::CmdRspTimeout);
    assert_eq!(h.registers.arg, 7 << 16);
    assert_eq!(h.registers.cmd.cmdindex, 9);

    let mut h = handle();
    h.registers.sta.ccrcfail = true;
    assert_eq!(h.cmd_send_csd(7), SdmmcErrorCode::CmdCrcFail);

    let mut h = handle();
    assert_eq!(h.cmd_send_csd(7), SdmmcErrorCode::Timeout);
}

#[test]
fn acmd41_treats_crc_failure_as_success() {
    let mut h = handle();
    // the R3 frame carries no valid CRC: the failure flag is the expected
    // outcome, not an error
    h.registers.sta.ccrcfail = true;
    assert_eq!(
        h.cmd_sd_send_op_cond(CardCapacity::HighCapacity),
        SdmmcErrorCode::NoError
    );
    assert_eq!(h.registers.arg, 0x8010_0000 | 0x4000_0000);
    assert_eq!(h.registers.cmd.cmdindex, 41);
    assert!(!h.registers.sta.ccrcfail);
}

#[test]
fn acmd41_response_end_is_success_too() {
    let mut h = handle();
    h.registers.sta.cmdrend = true;
    assert_eq!(
        h.cmd_sd_send_op_cond(CardCapacity::StandardCapacity),
        SdmmcErrorCode::NoError
    );
    assert_eq!(h.registers.arg, 0x8010_0000);
}

#[test]
fn acmd41_command_timeout_still_wins() {
    let mut h = handle();
    h.registers.sta.ctimeout = true;
    h.registers.sta.ccrcfail = true;
    assert_eq!(
        h.cmd_sd_send_op_cond(CardCapacity::HighCapacity),
        SdmmcErrorCode::CmdRspTimeout
    );
}

#[test]
fn cmd3_publishes_relative_address() {
    let mut h = handle();
    h.registers.sta.cmdrend = true;
    h.registers.respcmd = 3;
    h.registers.resp1 = 0x1234_0000;
    assert_eq!(h.cmd_send_relative_addr(), Ok(0x1234));
    assert_eq!(h.registers.arg, 0);
    assert_eq!(h.registers.cmd.cmdindex, 3);
    assert_eq!(h.registers.cmd.waitresp, WaitResp::Short);
    assert!(!h.registers.sta.cmdrend);
}

#[test]
fn cmd3_r6_error_bits() {
    let mut h = handle();
    h.registers.sta.cmdrend = true;
    h.registers.respcmd = 3;
    h.registers.resp1 = 0x1234_4000;
    assert_eq!(h.cmd_send_relative_addr(), Err(SdmmcErrorCode::IllegalCmd));

    let mut h = handle();
    h.registers.sta.cmdrend = true;
    h.registers.respcmd = 3;
    h.registers.resp1 = 0x1234_8000;
    assert_eq!(h.cmd_send_relative_addr(), Err(SdmmcErrorCode::ComCrcFailed));

    let mut h = handle();
    h.registers.sta.cmdrend = true;
    h.registers.respcmd = 3;
    h.registers.resp1 = 0x1234_2000;
    assert_eq!(
        h.cmd_send_relative_addr(),
        Err(SdmmcErrorCode::GeneralUnknownErr)
    );
}

#[test]
fn cmd3_index_mismatch_reads_as_crc_failure() {
    let mut h = handle();
    h.registers.sta.cmdrend = true;
    h.registers.respcmd = 55;
    h.registers.resp1 = 0x1234_0000;
    assert_eq!(h.cmd_send_relative_addr(), Err(SdmmcErrorCode::CmdCrcFail));
}

#[test]
fn cmd3_timeout_paths() {
    let mut h = handle();
    h.registers.sta.ctimeout = true;
    assert_eq!(h.cmd_send_relative_addr(), Err(SdmmcErrorCode::CmdRspTimeout));

    let mut h = handle();
    assert_eq!(h.cmd_send_relative_addr(), Err(SdmmcErrorCode::Timeout));
}

#[test]
fn cmd8_response_shows_version_two_support() {
    let mut h = handle();
    h.registers.sta.cmdrend = true;
    assert_eq!(h.cmd_send_if_cond(), SdmmcErrorCode::NoError);
    assert_eq!(h.registers.arg, 0x1AA);
    assert_eq!(h.registers.cmd.cmdindex, 8);
    assert!(!h.registers.sta.cmdrend);

    // a CRC failure still shows the card answered
    let mut h = handle();
    h.registers.sta.ccrcfail = true;
    assert_eq!(h.cmd_send_if_cond(), SdmmcErrorCode::NoError);
    assert!(!h.registers.sta.ccrcfail);
}

#[test]
fn cmd8_timeout_marks_a_legacy_card() {
    let mut h = handle();
    h.registers.sta.ctimeout = true;
    // reported as a timeout code; the caller reads it as "version 1 card"
    assert_eq!(h.cmd_send_if_cond(), SdmmcErrorCode::CmdRspTimeout);
    assert!(!h.registers.sta.ctimeout);
}

#[test]
fn response_registers_are_read_in_order() {
    let mut h = handle();
    h.registers.resp1 = 0x11;
    h.registers.resp2 = 0x22;
    h.registers.resp3 = 0x33;
    h.registers.resp4 = 0x44;
    assert_eq!(h.get_all_response_registers(), [0x11, 0x22, 0x33, 0x44]);
}

#[test]
fn echoed_command_number_check() {
    let mut h = handle();
    h.registers.respcmd = 41;
    assert!(h.correct_resp_command_number(41));
    assert!(!h.correct_resp_command_number(55));
}

#[test]
fn clearing_static_flags_clears_all_four() {
    let mut h = handle();
    h.registers.sta.cmdsent = true;
    h.registers.sta.ctimeout = true;
    h.registers.sta.ccrcfail = true;
    h.registers.sta.cmdrend = true;
    h.clear_all_static_status_flags();
    assert!(!h.registers.sta.cmdsent);
    assert!(!h.registers.sta.ctimeout);
    assert!(!h.registers.sta.ccrcfail);
    assert!(!h.registers.sta.cmdrend);
}
