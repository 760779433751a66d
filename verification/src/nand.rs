//! The NAND flash controller (FIO) and its DMA engine (FDMA): set-up, page
//! reads, programming and block erase, as register programs.
use crate::console::{hex32_spec, debug_hex32, CR, LF};
use crate::regs::{Echo, EchoView, emit, emit_write, fadd, field_mask, field_value, fval, prog, Op, RegOp};
use vstd::prelude::*;

verus! {

// ---------------------------------------------------------------------------
// Register map
// ---------------------------------------------------------------------------

/// Base address of the flash I/O controller.
pub const FIO_BASE: u32 = 0xe000_1000;

/// Base address of the flash DMA engine.
pub const FDMA_BASE: u32 = 0xe001_2000;

pub const FIO_CTR: u32 = FIO_BASE + 0x0000;
pub const FIO_DMACTR: u32 = FIO_BASE + 0x0080;
pub const FIO_DMAADR: u32 = FIO_BASE + 0x0084;
pub const FIO_DMASTA: u32 = FIO_BASE + 0x008c;
pub const FIO_DSM_CTR: u32 = FIO_BASE + 0x00a0;
pub const FIO_ECC_RPT_STA: u32 = FIO_BASE + 0x00a4;
pub const FLASH_CTR: u32 = FIO_BASE + 0x0120;
pub const FLASH_CMD: u32 = FIO_BASE + 0x0124;
pub const FLASH_TIM0: u32 = FIO_BASE + 0x0128;
pub const FLASH_TIM1: u32 = FIO_BASE + 0x012c;
pub const FLASH_TIM2: u32 = FIO_BASE + 0x0130;
pub const FLASH_TIM3: u32 = FIO_BASE + 0x0134;
pub const FLASH_TIM4: u32 = FIO_BASE + 0x0138;
pub const FLASH_TIM5: u32 = FIO_BASE + 0x013c;
pub const FLASH_STA: u32 = FIO_BASE + 0x0140;
pub const FLASH_INT: u32 = FIO_BASE + 0x0150;
pub const NAND_PROG_CMDWORD_REG: u32 = FIO_BASE + 0x0158;
pub const FLASH_EX_CTR: u32 = FIO_BASE + 0x015c;

pub const FDMA_SPR_CNT: u32 = FDMA_BASE + 0x200;
pub const FDMA_SPR_SRC: u32 = FDMA_BASE + 0x204;
pub const FDMA_SPR_DST: u32 = FDMA_BASE + 0x208;
pub const FDMA_SPR_STA: u32 = FDMA_BASE + 0x20c;
pub const FDMA_CTR: u32 = FDMA_BASE + 0x300;
pub const FDMA_SRC: u32 = FDMA_BASE + 0x304;
pub const FDMA_DST: u32 = FDMA_BASE + 0x308;
pub const FDMA_STA: u32 = FDMA_BASE + 0x30c;
pub const FDMA_DSM_CTRL: u32 = FDMA_BASE + 0x3a0;
pub const FDMA_INT: u32 = FDMA_BASE + 0x3f0;

/// Bytes of spare area per page. Hard-wired here; boards usually strap it.
pub const SPARE_SIZE: u32 = 0x80;

/// Bytes of main area per page.
pub const PAGE_SIZE: usize = 0x800;

/// Scratch area that the DMA engine stages programmed data in.
pub const FDMA_SCRATCH: u32 = 0xe003_0000;

/// `FIO_DSM_EN | FIO_DSM_MAJP_2KB | FIO_DSM_SPJP_64B`
pub const DSM_CONFIG_64B_SPARE: u32 = 0x8000_0094;

/// `FIO_DSM_EN | FIO_DSM_MAJP_2KB | FIO_DSM_SPJP_128B`
pub const DSM_CONFIG_128B_SPARE: u32 = 0x8000_0095;

/// The `FIO_CTR` word for page transfers with the configured spare size.
pub open spec fn fio_ctr_value() -> u32 {
    if SPARE_SIZE == 0x40 {
        0x54u32 | 0x80u32
    } else {
        0x74u32 | 0x80u32
    }
}

/// The `FIO_DMACTR` word that starts a transfer of `count` bytes in 512-byte
/// blocks of 8-byte units, reading from flash or, with `rm`, writing to it.
pub open spec fn dmactr_value(count: u32, rm: bool) -> u32 {
    if rm {
        field_value(0x3f_ffff, 0, count) | field_value(1, 31, 1) | field_value(1, 30, 1)
            | field_value(0xf, 24, 6) | field_value(3, 22, 3)
    } else {
        field_value(0x3f_ffff, 0, count) | field_value(1, 31, 1) | field_value(0xf, 24, 6)
            | field_value(3, 22, 3)
    }
}

// ---------------------------------------------------------------------------
// Programs
// ---------------------------------------------------------------------------

/// Clearing every interrupt and status flag of the controller and the DMA engine.
pub open spec fn clear_status_prog() -> Seq<Op> {
    seq![
        Op::Write { addr: FLASH_INT, value: 0 },
        Op::Write { addr: FIO_ECC_RPT_STA, value: 0 },
        Op::Write { addr: FIO_DMASTA, value: 0 },
        Op::Write { addr: FDMA_INT, value: 0 },
        Op::Write { addr: FDMA_STA, value: 0 },
        Op::Write { addr: FDMA_SPR_STA, value: 0 },
    ]
}

/// Clearing the write-protect bit of `FLASH_CTR`.
pub open spec fn disable_wp_prog() -> Seq<Op> {
    seq![Op::Modify { addr: FLASH_CTR, clear: 0x200, set: 0 }]
}

/// The text `flash int `.
pub open spec fn flash_int_text() -> Seq<u8> {
    seq![0x66u8, 0x6c, 0x61, 0x73, 0x68, 0x20, 0x69, 0x6e, 0x74, 0x20]
}

/// While waiting for a command to finish, each poll that finds it unfinished
/// reports the interrupt register, read anew: `flash int `, its eight
/// hexadecimal digits, a carriage return.
pub open spec fn flash_int_echo_spec() -> EchoView {
    EchoView { prefix: flash_int_text(), hex: true, suffix: seq![CR] }
}

/// While waiting for the controller to go idle, each poll prints `*`.
pub open spec fn busy_echo_spec() -> EchoView {
    EchoView { prefix: seq![0x2au8], hex: false, suffix: Seq::empty() }
}

/// Waiting for the command-done interrupt, reporting each poll that finds it
/// still clear, then acknowledging it.
pub open spec fn wait_cmd_done_prog() -> Seq<Op> {
    seq![
        Op::WaitSetEcho { addr: FLASH_INT, mask: 1, echo: flash_int_echo_spec() },
        Op::Write { addr: FLASH_INT, value: 0 },
    ]
}

/// Waiting until the controller is idle, printing `*` for each poll that
/// finds it busy, then reading the flash status.
pub open spec fn get_cmd_response_prog() -> Seq<Op> {
    seq![
        Op::WaitClearEcho { addr: FLASH_CMD, mask: 0xf, echo: busy_echo_spec() },
        Op::Read { addr: FLASH_STA },
    ]
}

/// The text `status1: `.
pub open spec fn status1_text() -> Seq<u8> {
    seq![0x73u8, 0x74, 0x61, 0x74, 0x75, 0x73, 0x31, 0x3a, 0x20]
}

/// Controller set-up: timings dumped from a running device, the spare-area
/// layout, then write protection off.
pub open spec fn nand_init_prog() -> Seq<Op> {
    seq![
        Op::Write { addr: FLASH_TIM0, value: 0x0505_0905 },
        Op::Write { addr: FLASH_TIM1, value: 0x0303_0303 },
        Op::Write { addr: FLASH_TIM2, value: 0x0605_2909 },
        Op::Write { addr: FLASH_TIM3, value: 0x0505_2911 },
        Op::Write { addr: FLASH_TIM4, value: 0x0a05_1900 },
        Op::Write { addr: FLASH_TIM5, value: 0x0029_1805 },
        Op::Write { addr: FIO_DSM_CTR, value: DSM_CONFIG_128B_SPARE },
        Op::Write { addr: FDMA_DSM_CTRL, value: DSM_CONFIG_128B_SPARE },
        Op::Write { addr: FLASH_EX_CTR, value: 1 },
    ] + disable_wp_prog()
}

/// Reading `numblocks` pages of `blocksize` bytes at flash address
/// `flash_addr` into memory at `dest`, with their spare areas at `dest_spare`.
pub open spec fn nand_read_block_prog(
    numblocks: u32,
    blocksize: u32,
    dest: u32,
    dest_spare: u32,
    flash_addr: usize,
) -> Seq<Op> {
    clear_status_prog() + seq![
        Op::Write { addr: FIO_CTR, value: fio_ctr_value() },
        Op::Write { addr: FLASH_CTR, value: 0x07e0_0170 },
        Op::Write { addr: FDMA_SRC, value: dest },
        Op::Write { addr: FDMA_SPR_SRC, value: dest_spare },
        Op::Write { addr: FDMA_SPR_CNT, value: (numblocks * SPARE_SIZE) as u32 },
        Op::Write { addr: FDMA_DST, value: dest },
        Op::Write { addr: FDMA_SPR_DST, value: dest_spare },
        Op::Write { addr: FDMA_CTR, value: 0xaec0_0000u32 | ((numblocks * blocksize) as u32) },
        Op::Write { addr: FIO_DMAADR, value: flash_addr as u32 },
        Op::Write {
            addr: FIO_DMACTR,
            value: dmactr_value(((blocksize + SPARE_SIZE) * numblocks) as u32, false),
        },
        Op::WaitSet { addr: FLASH_INT, mask: 1 },
        Op::WaitSet { addr: FIO_DMASTA, mask: 0x100_0000 },
        Op::WaitSet { addr: FDMA_INT, mask: 1 },
        Op::WaitSet { addr: FDMA_STA, mask: 0x40_0000 },
    ] + clear_status_prog()
}

/// Programming `numblocks` pages at `flash_address` from `src_data` and
/// `src_spare`, ending with the read of the chip status.
pub open spec fn nand_program_prog(
    flash_address: usize,
    numblocks: usize,
    src_data: u32,
    src_spare: u32,
) -> Seq<Op> {
    let data_size = numblocks * PAGE_SIZE;
    let spare_size = numblocks * SPARE_SIZE;
    clear_status_prog() + seq![
        Op::Write { addr: FIO_CTR, value: fio_ctr_value() },
        Op::Write { addr: FLASH_CTR, value: 0x07e0_0170 },
        Op::Write {
            addr: NAND_PROG_CMDWORD_REG,
            value: field_value(0xff, 16, 0x80) | field_value(0xff, 0, 0x10),
        },
        Op::Write { addr: FDMA_SPR_STA, value: 0 },
        Op::Write { addr: FDMA_SPR_CNT, value: spare_size as u32 },
        Op::Write { addr: FDMA_SPR_SRC, value: src_spare },
        Op::Write { addr: FDMA_SPR_DST, value: FDMA_SCRATCH },
        Op::Write { addr: FDMA_STA, value: 0 },
        Op::Write { addr: FDMA_SRC, value: src_data },
        Op::Write { addr: FDMA_DST, value: FDMA_SCRATCH },
        Op::Write {
            addr: FDMA_CTR,
            value: 0x18c0_0000u32 | 0x8000_0000u32 | 0x0600_0000u32 | (data_size as u32),
        },
        Op::Write { addr: FIO_DMASTA, value: 0 },
        Op::Write { addr: FIO_DMAADR, value: flash_address as u32 },
        Op::Write { addr: FIO_DMACTR, value: dmactr_value((data_size + spare_size) as u32, true) },
        Op::WaitSet { addr: FDMA_INT, mask: 1 },
    ] + wait_cmd_done_prog() + get_cmd_response_prog() + seq![
        Op::Write { addr: FLASH_INT, value: 0 },
        Op::Write { addr: FIO_DMASTA, value: 0 },
        Op::Write { addr: FDMA_INT, value: 0 },
        Op::Write { addr: FDMA_STA, value: 0 },
        Op::Write { addr: FLASH_CMD, value: 0xc },
    ] + get_cmd_response_prog()
}

/// Erasing the block at `flash_addr`, ending with the read of the chip status.
pub open spec fn nand_erase_block_prog(flash_addr: usize) -> Seq<Op> {
    seq![
        Op::Write { addr: FIO_DMAADR, value: flash_addr as u32 },
        Op::Write { addr: FLASH_INT, value: 0 },
        Op::Modify { addr: FLASH_CTR, clear: 0x3000_0000, set: 0 },
        Op::Write { addr: FLASH_CMD, value: ((flash_addr as u32) & 0xffff_fff0u32) | 9u32 },
    ] + wait_cmd_done_prog() + get_cmd_response_prog() + seq![
        Op::Write { addr: FLASH_CMD, value: 0xc },
    ] + get_cmd_response_prog()
}

fn push_clear_status(ops: &mut Vec<RegOp>)
    ensures
        prog(final(ops)@) == prog(old(ops)@) + clear_status_prog(),
{
    emit_write(ops, FLASH_INT, 0);
    emit_write(ops, FIO_ECC_RPT_STA, 0);
    emit_write(ops, FIO_DMASTA, 0);
    emit_write(ops, FDMA_INT, 0);
    emit_write(ops, FDMA_STA, 0);
    emit_write(ops, FDMA_SPR_STA, 0);
    assert(prog(ops@) =~= prog(old(ops)@) + clear_status_prog());
}

fn push_disable_wp(ops: &mut Vec<RegOp>)
    ensures
        prog(final(ops)@) == prog(old(ops)@) + disable_wp_prog(),
{
    emit(ops, RegOp::Modify { addr: FLASH_CTR, clear: 0x200, set: 0 });
    assert(prog(ops@) =~= prog(old(ops)@) + disable_wp_prog());
}

/// The report of a poll of the interrupt register.
fn flash_int_echo() -> (e: Echo)
    ensures
        e@ == flash_int_echo_spec(),
{
    // "flash int "
    let prefix = vec![0x66, 0x6c, 0x61, 0x73, 0x68, 0x20, 0x69, 0x6e, 0x74, 0x20];
    let suffix = vec![CR];
    let e = Echo { prefix, hex: true, suffix };
    assert(e@.prefix =~= flash_int_text());
    assert(e@.suffix =~= seq![CR]);
    e
}

/// The report of a poll of a busy controller.
fn busy_echo() -> (e: Echo)
    ensures
        e@ == busy_echo_spec(),
{
    // "*"
    let e = Echo { prefix: vec![0x2a], hex: false, suffix: Vec::new() };
    assert(e@.prefix =~= seq![0x2au8]);
    assert(e@.suffix =~= Seq::<u8>::empty());
    e
}

fn push_wait_cmd_done(ops: &mut Vec<RegOp>)
    ensures
        prog(final(ops)@) == prog(old(ops)@) + wait_cmd_done_prog(),
{
    emit(ops, RegOp::WaitSetEcho { addr: FLASH_INT, mask: 1, echo: flash_int_echo() });
    emit_write(ops, FLASH_INT, 0);
    assert(prog(ops@) =~= prog(old(ops)@) + wait_cmd_done_prog());
}

fn push_get_cmd_response(ops: &mut Vec<RegOp>)
    ensures
        prog(final(ops)@) == prog(old(ops)@) + get_cmd_response_prog(),
{
    emit(ops, RegOp::WaitClearEcho { addr: FLASH_CMD, mask: 0xf, echo: busy_echo() });
    emit(ops, RegOp::Read { addr: FLASH_STA });
    assert(prog(ops@) =~= prog(old(ops)@) + get_cmd_response_prog());
}

/// The `FIO_DMACTR` word for a transfer of `count` bytes.
fn dmactr_word(count: u32, rm: bool) -> (w: u32)
    ensures
        w == dmactr_value(count, rm),
{
    let count_field = fval(0x3f_ffff, 0, count);
    let enable = fval(1, 31, 1);
    let blk_512b = fval(0xf, 24, 6);
    let ts_8b = fval(3, 22, 3);
    if rm {
        let write_mode = fval(1, 30, 1);
        fadd(fadd(fadd(fadd(count_field, enable), write_mode), blk_512b), ts_8b).value
    } else {
        fadd(fadd(fadd(count_field, enable), blk_512b), ts_8b).value
    }
}

/// Set the controller up: flash timings, spare-area layout, write protection off.
pub fn nand_init() -> (ops: Vec<RegOp>)
    ensures
        prog(ops@) == nand_init_prog(),
{
    let mut ops: Vec<RegOp> = Vec::new();
    emit_write(&mut ops, FLASH_TIM0, 0x0505_0905);
    emit_write(&mut ops, FLASH_TIM1, 0x0303_0303);
    emit_write(&mut ops, FLASH_TIM2, 0x0605_2909);
    emit_write(&mut ops, FLASH_TIM3, 0x0505_2911);
    emit_write(&mut ops, FLASH_TIM4, 0x0a05_1900);
    emit_write(&mut ops, FLASH_TIM5, 0x0029_1805);
    let dsm = if SPARE_SIZE == 0x40 {
        DSM_CONFIG_64B_SPARE
    } else {
        DSM_CONFIG_128B_SPARE
    };
    emit_write(&mut ops, FIO_DSM_CTR, dsm);
    emit_write(&mut ops, FDMA_DSM_CTRL, dsm);
    emit_write(
        &mut ops,
        FLASH_EX_CTR,
        if SPARE_SIZE == 0x40 {
            0
        } else {
            1
        },
    );
    push_disable_wp(&mut ops);
    assert(prog(ops@) =~= nand_init_prog());
    ops
}

/// Read `numblocks` pages of `blocksize` bytes from flash address
/// `flash_addr` into memory at `dest`, their spare areas into `dest_spare`.
pub fn nand_read_block(
    numblocks: u32,
    blocksize: u32,
    dest: u32,
    dest_spare: u32,
    flash_addr: usize,
) -> (ops: Vec<RegOp>)
    requires
        numblocks * SPARE_SIZE <= u32::MAX,
        numblocks * blocksize <= u32::MAX,
        blocksize + SPARE_SIZE <= u32::MAX,
        (blocksize + SPARE_SIZE) * numblocks <= u32::MAX,
    ensures
        prog(ops@) == nand_read_block_prog(numblocks, blocksize, dest, dest_spare, flash_addr),
{
    let mut ops: Vec<RegOp> = Vec::new();
    push_clear_status(&mut ops);
    let ctr = if SPARE_SIZE == 0x40 {
        0x54 | 0x80
    } else {
        0x74 | 0x80
    };
    emit_write(&mut ops, FIO_CTR, ctr);
    emit_write(&mut ops, FLASH_CTR, 0x07e0_0170);
    emit_write(&mut ops, FDMA_SRC, dest);
    emit_write(&mut ops, FDMA_SPR_SRC, dest_spare);
    emit_write(&mut ops, FDMA_SPR_CNT, numblocks * SPARE_SIZE);
    emit_write(&mut ops, FDMA_DST, dest);
    emit_write(&mut ops, FDMA_SPR_DST, dest_spare);
    emit_write(&mut ops, FDMA_CTR, 0xaec0_0000 | (numblocks * blocksize));
    emit_write(&mut ops, FIO_DMAADR, #[verifier::truncate] (flash_addr as u32));
    let count = (blocksize + SPARE_SIZE) * numblocks;
    emit_write(&mut ops, FIO_DMACTR, dmactr_word(count, false));
    emit(&mut ops, RegOp::WaitSet { addr: FLASH_INT, mask: 1 });
    emit(&mut ops, RegOp::WaitSet { addr: FIO_DMASTA, mask: 0x100_0000 });
    emit(&mut ops, RegOp::WaitSet { addr: FDMA_INT, mask: 1 });
    emit(&mut ops, RegOp::WaitSet { addr: FDMA_STA, mask: 0x40_0000 });
    push_clear_status(&mut ops);
    assert(prog(ops@) =~= nand_read_block_prog(numblocks, blocksize, dest, dest_spare, flash_addr));
    ops
}

/// Turn the flash's write protection off.
pub fn nand_disable_wp() -> (ops: Vec<RegOp>)
    ensures
        prog(ops@) == disable_wp_prog(),
{
    let mut ops: Vec<RegOp> = Vec::new();
    push_disable_wp(&mut ops);
    assert(prog(ops@) =~= disable_wp_prog());
    ops
}

/// Wait for the current command to finish and acknowledge it.
pub fn nand_wait_cmd_done() -> (ops: Vec<RegOp>)
    ensures
        prog(ops@) == wait_cmd_done_prog(),
{
    let mut ops: Vec<RegOp> = Vec::new();
    push_wait_cmd_done(&mut ops);
    assert(prog(ops@) =~= wait_cmd_done_prog());
    ops
}

/// Wait until the controller is idle, then read the flash status; the status
/// is the program's result.
pub fn nand_get_cmd_response() -> (ops: Vec<RegOp>)
    ensures
        prog(ops@) == get_cmd_response_prog(),
{
    let mut ops: Vec<RegOp> = Vec::new();
    push_get_cmd_response(&mut ops);
    assert(prog(ops@) =~= get_cmd_response_prog());
    ops
}

/// Program `numblocks` pages at `flash_address` from memory at `src_data`
/// (main areas) and `src_spare` (spare areas). The program's result is the
/// chip status, which [`chip_status_result`] turns into the outcome.
pub fn nand_program(flash_address: usize, numblocks: usize, src_data: u32, src_spare: u32) -> (ops:
    Vec<RegOp>)
    requires
        numblocks * (PAGE_SIZE + SPARE_SIZE) <= usize::MAX,
    ensures
        prog(ops@) == nand_program_prog(flash_address, numblocks, src_data, src_spare),
{
    proof {
        assert(numblocks * PAGE_SIZE + numblocks * SPARE_SIZE == numblocks * (PAGE_SIZE
            + SPARE_SIZE)) by (nonlinear_arith);
    }
    let data_size: usize = numblocks * PAGE_SIZE;
    let spare_size: usize = numblocks * (SPARE_SIZE as usize);
    let mut ops: Vec<RegOp> = Vec::new();
    push_clear_status(&mut ops);
    let ctr = if SPARE_SIZE == 0x40 {
        0x54 | 0x80
    } else {
        0x74 | 0x80
    };
    emit_write(&mut ops, FIO_CTR, ctr);
    emit_write(&mut ops, FLASH_CTR, 0x07e0_0170);
    let cmdword = fadd(fval(0xff, 16, 0x80), fval(0xff, 0, 0x10));
    emit_write(&mut ops, NAND_PROG_CMDWORD_REG, cmdword.value);
    emit_write(&mut ops, FDMA_SPR_STA, 0);
    emit_write(&mut ops, FDMA_SPR_CNT, #[verifier::truncate] (spare_size as u32));
    emit_write(&mut ops, FDMA_SPR_SRC, src_spare);
    emit_write(&mut ops, FDMA_SPR_DST, FDMA_SCRATCH);
    emit_write(&mut ops, FDMA_STA, 0);
    emit_write(&mut ops, FDMA_SRC, src_data);
    emit_write(&mut ops, FDMA_DST, FDMA_SCRATCH);
    emit_write(&mut ops, FDMA_CTR, 0x18c0_0000 | 0x8000_0000 | 0x0600_0000 | (#[verifier::truncate] (data_size as u32)));
    emit_write(&mut ops, FIO_DMASTA, 0);
    emit_write(&mut ops, FIO_DMAADR, #[verifier::truncate] (flash_address as u32));
    emit_write(&mut ops, FIO_DMACTR, dmactr_word(#[verifier::truncate] ((data_size + spare_size) as u32), true));
    emit(&mut ops, RegOp::WaitSet { addr: FDMA_INT, mask: 1 });
    push_wait_cmd_done(&mut ops);
    push_get_cmd_response(&mut ops);
    emit_write(&mut ops, FLASH_INT, 0);
    emit_write(&mut ops, FIO_DMASTA, 0);
    emit_write(&mut ops, FDMA_INT, 0);
    emit_write(&mut ops, FDMA_STA, 0);
    emit_write(&mut ops, FLASH_CMD, 0xc);
    push_get_cmd_response(&mut ops);
    assert(prog(ops@) =~= nand_program_prog(flash_address, numblocks, src_data, src_spare));
    ops
}

/// Erase the block at `flash_addr`. The program's result is the chip status,
/// which [`chip_status_result`] turns into the outcome.
pub fn nand_erase_block(flash_addr: usize) -> (ops: Vec<RegOp>)
    ensures
        prog(ops@) == nand_erase_block_prog(flash_addr),
{
    let mut ops: Vec<RegOp> = Vec::new();
    emit_write(&mut ops, FIO_DMAADR, #[verifier::truncate] (flash_addr as u32));
    emit_write(&mut ops, FLASH_INT, 0);
    emit(&mut ops, RegOp::Modify { addr: FLASH_CTR, clear: 0x3000_0000, set: 0 });
    emit_write(&mut ops, FLASH_CMD, ((#[verifier::truncate] (flash_addr as u32)) & 0xffff_fff0) | 9);
    push_wait_cmd_done(&mut ops);
    push_get_cmd_response(&mut ops);
    emit_write(&mut ops, FLASH_CMD, 0xc);
    push_get_cmd_response(&mut ops);
    assert(prog(ops@) =~= nand_erase_block_prog(flash_addr));
    ops
}

/// The outcome of a program or erase operation from the chip status that
/// ended it: bit 0 ("Chip Status 1") set means the operation failed.
pub fn chip_status_result(status: u32) -> (r: Result<(), ()>)
    ensures
        r is Ok <==> status & 1 == 0,
{
    if (status & 1) != 0 {
        Err(())
    } else {
        Ok(())
    }
}

/// What ends an erase, from the chip status `status` read last: the
/// outcome, and the console line `status1: ` with the status in eight
/// hexadecimal digits and a line end.
pub fn nand_erase_block_outcome(status: u32) -> (r: (Result<(), ()>, Vec<u8>))
    ensures
        r.0 is Ok <==> status & 1 == 0,
        r.1@ == status1_text() + hex32_spec(status) + seq![CR, LF],
{
    // "status1: "
    let mut line: Vec<u8> = vec![0x73, 0x74, 0x61, 0x74, 0x75, 0x73, 0x31, 0x3a, 0x20];
    let mut digits = debug_hex32(status);
    line.append(&mut digits);
    line.push(CR);
    line.push(LF);
    assert(line@ =~= status1_text() + hex32_spec(status) + seq![CR, LF]);
    (chip_status_result(status), line)
}

/// A program or an erase ends with the read of the flash status, so the value
/// its program hands back is the chip status that decides its outcome.
pub proof fn lemma_status_read_last(flash_address: usize, numblocks: usize, src_data: u32, src_spare: u32, flash_addr: usize)
    ensures
        nand_program_prog(flash_address, numblocks, src_data, src_spare).last() == (Op::Read { addr: FLASH_STA }),
        nand_erase_block_prog(flash_addr).last() == (Op::Read { addr: FLASH_STA }),
{
}

} // verus!
verus! {

/// A page read points the DMA engine at the caller's memory and the flash
/// controller at the page asked for: the main area goes to `dest`, the spare
/// area to `dest_spare`, the spare count is one spare area per page, and the
/// flash address is `flash_addr`.
pub proof fn lemma_read_block_addresses(
    numblocks: u32,
    blocksize: u32,
    dest: u32,
    dest_spare: u32,
    flash_addr: usize,
)
    ensures
        ({
            let p = nand_read_block_prog(numblocks, blocksize, dest, dest_spare, flash_addr);
            &&& p[8] == (Op::Write { addr: FDMA_SRC, value: dest })
            &&& p[9] == (Op::Write { addr: FDMA_SPR_SRC, value: dest_spare })
            &&& p[10] == (Op::Write { addr: FDMA_SPR_CNT, value: (numblocks * SPARE_SIZE) as u32 })
            &&& p[11] == (Op::Write { addr: FDMA_DST, value: dest })
            &&& p[12] == (Op::Write { addr: FDMA_SPR_DST, value: dest_spare })
            &&& p[14] == (Op::Write { addr: FIO_DMAADR, value: flash_addr as u32 })
        }),
{
}

/// Programming takes the page data from `src_data` and the spare data from
/// `src_spare`, one spare area per page, and writes them at `flash_address`.
pub proof fn lemma_program_sources(flash_address: usize, numblocks: usize, src_data: u32, src_spare: u32)
    ensures
        ({
            let p = nand_program_prog(flash_address, numblocks, src_data, src_spare);
            &&& p[10] == (Op::Write { addr: FDMA_SPR_CNT, value: (numblocks * SPARE_SIZE) as u32 })
            &&& p[11] == (Op::Write { addr: FDMA_SPR_SRC, value: src_spare })
            &&& p[14] == (Op::Write { addr: FDMA_SRC, value: src_data })
            &&& p[18] == (Op::Write { addr: FIO_DMAADR, value: flash_address as u32 })
        }),
{
}

} // verus!
verus! {

/// The transfer word starts the DMA with the byte count in its low 22 bits,
/// the enable bit set, the write-to-flash bit set exactly for a program,
/// 512-byte blocks and 8-byte units.
pub proof fn lemma_dmactr_fields(count: u32, rm: bool)
    ensures
        ({
            let w = dmactr_value(count, rm);
            &&& w & 0x3f_ffff == count & 0x3f_ffff
            &&& w & 0x8000_0000 != 0
            &&& (w & 0x4000_0000 != 0) == rm
            &&& (w >> 24u32) & 0xf == 6
            &&& (w >> 22u32) & 3 == 3
        }),
{
    let w = dmactr_value(count, rm);
    if rm {
        assert(w == ((count & 0x3f_ffffu32) << 0usize) | ((1u32 & 1u32) << 31usize) | ((1u32 & 1u32)
            << 30usize) | ((6u32 & 0xfu32) << 24usize) | ((3u32 & 3u32) << 22usize));
        assert({
            let v = ((count & 0x3f_ffffu32) << 0u32) | ((1u32 & 1u32) << 31u32) | ((1u32 & 1u32) << 30u32)
                | ((6u32 & 0xfu32) << 24u32) | ((3u32 & 3u32) << 22u32);
            &&& v & 0x3f_ffff == count & 0x3f_ffff
            &&& v & 0x8000_0000 != 0
            &&& v & 0x4000_0000 != 0
            &&& (v >> 24u32) & 0xf == 6
            &&& (v >> 22u32) & 3 == 3
        }) by (bit_vector);
    } else {
        assert(w == ((count & 0x3f_ffffu32) << 0usize) | ((1u32 & 1u32) << 31usize) | ((6u32 & 0xfu32)
            << 24usize) | ((3u32 & 3u32) << 22usize));
        assert({
            let v = ((count & 0x3f_ffffu32) << 0u32) | ((1u32 & 1u32) << 31u32) | ((6u32 & 0xfu32) << 24u32)
                | ((3u32 & 3u32) << 22u32);
            &&& v & 0x3f_ffff == count & 0x3f_ffff
            &&& v & 0x8000_0000 != 0
            &&& v & 0x4000_0000 == 0
            &&& (v >> 24u32) & 0xf == 6
            &&& (v >> 22u32) & 3 == 3
        }) by (bit_vector);
    }
}

/// A page read transfers main and spare area of every page: the count the
/// controller gets is `(blocksize + SPARE_SIZE) * numblocks` (in its 22-bit
/// field), reading from the flash; the DMA engine moves
/// `numblocks * blocksize` bytes of main area.
pub proof fn lemma_read_block_counts(
    numblocks: u32,
    blocksize: u32,
    dest: u32,
    dest_spare: u32,
    flash_addr: usize,
)
    ensures
        ({
            let p = nand_read_block_prog(numblocks, blocksize, dest, dest_spare, flash_addr);
            let c = ((blocksize + SPARE_SIZE) * numblocks) as u32;
            &&& p[13] == (Op::Write { addr: FDMA_CTR, value: 0xaec0_0000u32 | ((numblocks * blocksize) as u32) })
            &&& p[15] is Write && p[15]->Write_addr == FIO_DMACTR
            &&& p[15]->Write_value & 0x3f_ffff == c & 0x3f_ffff
            &&& p[15]->Write_value & 0x4000_0000 == 0
        }),
{
    lemma_dmactr_fields(((blocksize + SPARE_SIZE) * numblocks) as u32, false);
}

/// Programming hands the controller the count of main and spare bytes of all
/// pages, writing to the flash.
pub proof fn lemma_program_counts(flash_address: usize, numblocks: usize, src_data: u32, src_spare: u32)
    ensures
        ({
            let p = nand_program_prog(flash_address, numblocks, src_data, src_spare);
            let c = (numblocks * PAGE_SIZE + numblocks * SPARE_SIZE) as u32;
            &&& p[19] is Write && p[19]->Write_addr == FIO_DMACTR
            &&& p[19]->Write_value & 0x3f_ffff == c & 0x3f_ffff
            &&& p[19]->Write_value & 0x4000_0000 != 0
        }),
{
    lemma_dmactr_fields((numblocks * PAGE_SIZE + numblocks * SPARE_SIZE) as u32, true);
}

/// The erase command carries the block address with its low four bits
/// replaced by the erase opcode 9.
pub proof fn lemma_erase_command(flash_addr: usize)
    ensures
        nand_erase_block_prog(flash_addr)[3] is Write,
        nand_erase_block_prog(flash_addr)[3]->Write_addr == FLASH_CMD,
        nand_erase_block_prog(flash_addr)[3]->Write_value & 0xf == 9,
        nand_erase_block_prog(flash_addr)[3]->Write_value & 0xffff_fff0 == (flash_addr as u32) & 0xffff_fff0,
        nand_erase_block_prog(flash_addr)[0] == (Op::Write { addr: FIO_DMAADR, value: flash_addr as u32 }),
{
    let a = flash_addr as u32;
    assert((((a & 0xffff_fff0u32) | 9u32) & 0xf == 9) && (((a & 0xffff_fff0u32) | 9u32) & 0xffff_fff0
        == a & 0xffff_fff0)) by (bit_vector);
}

} // verus!
