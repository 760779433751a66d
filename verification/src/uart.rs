//! The serial console's transmitter.
use crate::regs::{emit, emit_write, field_mask, fval, prog, Op, RegOp};
use vstd::prelude::*;

verus! {

/// Base address of UART 0.
pub const UART0_BASE: u32 = 0xe800_5000;

/// Receive buffer / transmit holding register.
pub const UART_RB_TH_DLL: u32 = UART0_BASE;

/// Line status register.
pub const UART_LS: u32 = UART0_BASE + 0x14;

/// The line status bit "transmitter empty" (`Ls::TEMT`, bit 6).
pub open spec fn ls_temt() -> u32 {
    field_mask(1, 6)
}

/// The program that sends one byte: it is placed in the transmit holding
/// register, then the line status is polled until the transmitter is empty.
pub open spec fn write_byte_prog(byte: u8) -> Seq<Op> {
    seq![
        Op::Write { addr: UART_RB_TH_DLL, value: byte as u32 },
        Op::WaitSet { addr: UART_LS, mask: ls_temt() },
    ]
}

/// The program that sends the bytes of `s` one after the other.
pub open spec fn write_bytes_prog(s: Seq<u8>) -> Seq<Op>
    decreases s.len(),
{
    if s.len() == 0 {
        Seq::empty()
    } else {
        write_bytes_prog(s.drop_last()) + write_byte_prog(s.last())
    }
}

fn push_write_byte(ops: &mut Vec<RegOp>, byte: u8)
    ensures
        prog(final(ops)@) == prog(old(ops)@) + write_byte_prog(byte),
{
    let temt = fval(1, 6, 1);
    emit_write(ops, UART_RB_TH_DLL, byte as u32);
    emit(ops, RegOp::WaitSet { addr: UART_LS, mask: temt.mask });
    assert(prog(ops@) =~= prog(old(ops)@) + write_byte_prog(byte));
}

/// Send one byte over the console.
pub fn write_byte(byte: u8) -> (ops: Vec<RegOp>)
    ensures
        prog(ops@) == write_byte_prog(byte),
{
    let mut ops: Vec<RegOp> = Vec::new();
    push_write_byte(&mut ops, byte);
    assert(prog(ops@) =~= write_byte_prog(byte));
    ops
}

/// Send a sequence of bytes over the console, such as the output of
/// [`crate::console::debug`].
pub fn write_bytes(bytes: &[u8]) -> (ops: Vec<RegOp>)
    ensures
        prog(ops@) == write_bytes_prog(bytes@),
{
    let mut ops: Vec<RegOp> = Vec::new();
    let mut i: usize = 0;
    while i < bytes.len()
        invariant
            i <= bytes@.len(),
            prog(ops@) == write_bytes_prog(bytes@.take(i as int)),
        decreases bytes@.len() - i,
    {
        push_write_byte(&mut ops, bytes[i]);
        proof {
            assert(bytes@.take(i + 1).drop_last() =~= bytes@.take(i as int));
        }
        i = i + 1;
    }
    assert(bytes@.take(i as int) =~= bytes@);
    ops
}

} // verus!
verus! {

/// Sending a byte puts exactly that byte in the transmit holding register,
/// then waits for the transmitter-empty bit (bit 6) of the line status; a
/// run of bytes goes out as one such pair per byte, in order.
pub proof fn lemma_write_bytes(s: Seq<u8>, k: int)
    requires
        0 <= k < s.len(),
    ensures
        ls_temt() == 0x40,
        write_bytes_prog(s).len() == 2 * s.len(),
        write_bytes_prog(s)[2 * k] == (Op::Write { addr: UART_RB_TH_DLL, value: s[k] as u32 }),
        write_bytes_prog(s)[2 * k + 1] == (Op::WaitSet { addr: UART_LS, mask: 0x40 }),
    decreases s.len(),
{
    assert((1u32 << 6usize) == 0x40u32) by (bit_vector);
    lemma_write_bytes_len(s);
    if k < s.len() - 1 {
        lemma_write_bytes(s.drop_last(), k);
    }
}

proof fn lemma_write_bytes_len(s: Seq<u8>)
    ensures
        write_bytes_prog(s).len() == 2 * s.len(),
    decreases s.len(),
{
    if s.len() > 0 {
        lemma_write_bytes_len(s.drop_last());
    }
}

} // verus!
