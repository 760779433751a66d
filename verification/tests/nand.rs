use bootcore::nand::{
    chip_status_result, nand_disable_wp, nand_erase_block, nand_get_cmd_response, nand_init,
    nand_program, nand_read_block, nand_wait_cmd_done, FDMA_CTR, FDMA_DSM_CTRL, FDMA_INT,
    FDMA_SPR_CNT, FDMA_STA, FIO_DMACTR, FIO_DSM_CTR, FLASH_CMD, FLASH_CTR, FLASH_EX_CTR,
    FLASH_INT, FLASH_STA, FLASH_TIM0, NAND_PROG_CMDWORD_REG,
};
use bootcore::nand::nand_erase_block_outcome;
use bootcore::regs::{Echo, RegOp};

fn flash_int_echo() -> Echo {
    Echo { prefix: b"flash int ".to_vec(), hex: true, suffix: b"\r".to_vec() }
}

fn busy_echo() -> Echo {
    Echo { prefix: b"*".to_vec(), hex: false, suffix: Vec::new() }
}

fn write(addr: u32, value: u32) -> RegOp {
    RegOp::Write { addr, value }
}

#[test]
fn register_addresses() {
    assert_eq!(FLASH_INT, 0xe000_1150);
    assert_eq!(FLASH_CTR, 0xe000_1120);
    assert_eq!(FIO_DMACTR, 0xe000_1080);
    assert_eq!(FDMA_CTR, 0xe001_2300);
    assert_eq!(FDMA_INT, 0xe001_23f0);
}

#[test]
fn init_program() {
    let ops = nand_init();
    assert_eq!(ops.len(), 10);
    assert_eq!(ops[0], write(FLASH_TIM0, 0x0505_0905));
    assert_eq!(ops[5], write(FLASH_TIM0 + 0x14, 0x0029_1805));
    assert_eq!(ops[6], write(FIO_DSM_CTR, 0x8000_0095));
    assert_eq!(ops[7], write(FDMA_DSM_CTRL, 0x8000_0095));
    assert_eq!(ops[8], write(FLASH_EX_CTR, 1));
    assert_eq!(ops[9], RegOp::Modify { addr: FLASH_CTR, clear: 0x200, set: 0 });
}

#[test]
fn disable_wp_program() {
    assert_eq!(nand_disable_wp(), vec![RegOp::Modify { addr: FLASH_CTR, clear: 0x200, set: 0 }]);
}

#[test]
fn wait_and_response_programs() {
    assert_eq!(
        nand_wait_cmd_done(),
        vec![RegOp::WaitSetEcho { addr: FLASH_INT, mask: 1, echo: flash_int_echo() }, write(FLASH_INT, 0)]
    );
    assert_eq!(
        nand_get_cmd_response(),
        vec![
            RegOp::WaitClearEcho { addr: FLASH_CMD, mask: 0xf, echo: busy_echo() },
            RegOp::Read { addr: FLASH_STA }
        ]
    );
}

#[test]
fn read_block_program() {
    let ops = nand_read_block(1, 0x800, 0x40_0000, 0x40_0800, 0x1234);
    assert_eq!(ops.len(), 6 + 10 + 4 + 6);
    assert_eq!(ops[6], write(0xe000_1000, 0xf4));
    assert_eq!(ops[7], write(FLASH_CTR, 0x07e0_0170));
    assert_eq!(ops[8], write(0xe001_2304, 0x40_0000));
    assert_eq!(ops[9], write(0xe001_2204, 0x40_0800));
    assert_eq!(ops[10], write(FDMA_SPR_CNT, 0x80));
    assert_eq!(ops[13], write(FDMA_CTR, 0xaec0_0800));
    assert_eq!(ops[14], write(0xe000_1084, 0x1234));
    // count 0x880, enable, 512-byte blocks, 8-byte units
    assert_eq!(ops[15], write(FIO_DMACTR, 0x86c0_0880));
    assert_eq!(ops[16], RegOp::WaitSet { addr: FLASH_INT, mask: 1 });
    assert_eq!(ops[19], RegOp::WaitSet { addr: FDMA_STA, mask: 0x40_0000 });
    assert_eq!(ops[25], write(0xe001_220c, 0));
}

#[test]
fn program_program() {
    let ops = nand_program(0x40, 2, 0x10_0000, 0x20_0000);
    assert_eq!(ops[8], write(NAND_PROG_CMDWORD_REG, 0x0080_0010));
    assert_eq!(ops[10], write(FDMA_SPR_CNT, 0x100));
    assert_eq!(ops[16], write(FDMA_CTR, 0x9ec0_1000));
    assert_eq!(ops[19], write(FIO_DMACTR, 0xc6c0_1100));
    assert_eq!(ops[20], RegOp::WaitSet { addr: FDMA_INT, mask: 1 });
    assert_eq!(ops.last(), Some(&RegOp::Read { addr: FLASH_STA }));
    assert_eq!(ops[ops.len() - 3], write(FLASH_CMD, 0xc));
}

#[test]
fn erase_program() {
    let ops = nand_erase_block(0x1_2345);
    assert_eq!(ops[0], write(0xe000_1084, 0x1_2345));
    assert_eq!(ops[1], write(FLASH_INT, 0));
    assert_eq!(ops[2], RegOp::Modify { addr: FLASH_CTR, clear: 0x3000_0000, set: 0 });
    assert_eq!(ops[3], write(FLASH_CMD, 0x1_2349));
    assert_eq!(ops.len(), 4 + 2 + 2 + 1 + 2);
    assert_eq!(ops.last(), Some(&RegOp::Read { addr: FLASH_STA }));
}

#[test]
fn chip_status_outcome() {
    assert_eq!(chip_status_result(0), Ok(()));
    assert_eq!(chip_status_result(0xe0), Ok(()));
    assert_eq!(chip_status_result(1), Err(()));
    assert_eq!(chip_status_result(0xe1), Err(()));
}

#[test]
fn poll_reports() {
    assert_eq!(flash_int_echo().message(0x10), b"flash int 00000010\r".to_vec());
    assert_eq!(busy_echo().message(0x3), b"*".to_vec());
    let ops = nand_erase_block(0);
    assert_eq!(ops[4], RegOp::WaitSetEcho { addr: FLASH_INT, mask: 1, echo: flash_int_echo() });
    assert_eq!(ops[6], RegOp::WaitClearEcho { addr: FLASH_CMD, mask: 0xf, echo: busy_echo() });
}

#[test]
fn erase_outcome_and_report() {
    let (r, line) = nand_erase_block_outcome(0xe0);
    assert_eq!(r, Ok(()));
    assert_eq!(line, b"status1: 000000E0\r\n".to_vec());
    let (r, line) = nand_erase_block_outcome(0xc1);
    assert_eq!(r, Err(()));
    assert_eq!(line, b"status1: 000000C1\r\n".to_vec());
}
