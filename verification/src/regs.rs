//! Register fields (computed through `tock_registers`) and the register
//! programs that the hardware layer executes on the library's behalf.
//!
//! The library never touches memory-mapped I/O itself. Every driver routine
//! returns a program: a sequence of [`RegOp`] that reads and writes 32-bit
//! words at physical addresses. Its meaning is given by [`Op`], the view of
//! a [`RegOp`].
use tock_registers::fields::{Field, FieldValue};
use tock_registers::LocalRegisterCopy;
use crate::console::{debug_hex32, hex32_spec};
use vstd::prelude::*;

verus! {

// ---------------------------------------------------------------------------
// Field arithmetic
// ---------------------------------------------------------------------------

/// A register field value as plain bits: the bits it covers and the bits it sets.
#[derive(Clone, Copy, Debug)]
pub struct FieldBits {
    pub mask: u32,
    pub value: u32,
}

impl FieldBits {
    /// The value sets no bit outside the mask.
    pub open spec fn wf(self) -> bool {
        self.value & self.mask == self.value
    }
}

/// Bits covered by a field `mask` wide placed at bit `shift`.
pub open spec fn field_mask(mask: u32, shift: usize) -> u32 {
    mask << shift
}

/// Bits set by the value `v` of a field `mask` wide placed at bit `shift`.
pub open spec fn field_value(mask: u32, shift: usize, v: u32) -> u32 {
    (v & mask) << shift
}

/// The contents of a field read out of a register word.
pub open spec fn field_read_spec(mask: u32, shift: usize, word: u32) -> u32 {
    (word & (mask << shift)) >> shift
}

/// `Field::<u32, ()>::new(mask, shift).val(value)` of `tock_registers`.
/// Its source places the masked value at `shift` and records the covered bits.
#[verifier::external_body]
pub fn field_val(mask: u32, shift: usize, value: u32) -> (r: FieldBits)
    requires
        shift < 32,
    ensures
        r.mask == field_mask(mask, shift),
        r.value == field_value(mask, shift, value),
{
    let fv: FieldValue<u32, ()> = Field::<u32, ()>::new(mask, shift).val(value);
    FieldBits { mask: fv.mask(), value: fv.value }
}

/// `a + b` on `tock_registers` field values (each rebuilt with
/// `FieldValue::new(mask, 0, value)`): the masks and the values are or-ed.
#[verifier::external_body]
pub fn field_add(a: FieldBits, b: FieldBits) -> (r: FieldBits)
    ensures
        r.mask == a.mask | b.mask,
        r.value == (a.value & a.mask) | (b.value & b.mask),
{
    let fa = FieldValue::<u32, ()>::new(a.mask, 0, a.value);
    let fb = FieldValue::<u32, ()>::new(b.mask, 0, b.value);
    let s = fa + fb;
    FieldBits { mask: s.mask(), value: s.value }
}

/// `LocalRegisterCopy::<u32, ()>::new(word).read(Field::new(mask, shift))`
/// of `tock_registers`: the field's bits, shifted down.
#[verifier::external_body]
pub fn field_read(mask: u32, shift: usize, word: u32) -> (r: u32)
    requires
        shift < 32,
    ensures
        r == field_read_spec(mask, shift, word),
{
    LocalRegisterCopy::<u32, ()>::new(word).read(Field::<u32, ()>::new(mask, shift))
}

/// `LocalRegisterCopy::<u32, ()>::new(word).is_set(Field::new(mask, shift))`
/// of `tock_registers`: whether any bit of the field is set.
#[verifier::external_body]
pub fn field_is_set(mask: u32, shift: usize, word: u32) -> (r: bool)
    requires
        shift < 32,
    ensures
        r == (word & (mask << shift) != 0),
{
    LocalRegisterCopy::<u32, ()>::new(word).is_set(Field::<u32, ()>::new(mask, shift))
}

/// Field values are well formed.
pub proof fn lemma_field_val_wf(mask: u32, shift: usize, v: u32)
    requires
        shift < 32,
    ensures
        (FieldBits { mask: field_mask(mask, shift), value: field_value(mask, shift, v) }).wf(),
{
    let s = shift as u32;
    assert(((v & mask) << s) & (mask << s) == ((v & mask) << s)) by (bit_vector);
}

/// Or-ing well-formed field values keeps them well formed, and the masking
/// in `+` then changes nothing.
pub proof fn lemma_or_wf(a: u32, ma: u32, b: u32, mb: u32)
    requires
        a & ma == a,
        b & mb == b,
    ensures
        (a | b) & (ma | mb) == a | b,
        (a & ma) | (b & mb) == a | b,
{
    assert((a | b) & (ma | mb) == a | b && (a & ma) | (b & mb) == a | b) by (bit_vector)
        requires
            a & ma == a,
            b & mb == b,
    ;
}

/// A field value of the register layout.
pub fn fval(mask: u32, shift: usize, value: u32) -> (r: FieldBits)
    requires
        shift < 32,
    ensures
        r.wf(),
        r.mask == field_mask(mask, shift),
        r.value == field_value(mask, shift, value),
{
    proof {
        lemma_field_val_wf(mask, shift, value);
    }
    field_val(mask, shift, value)
}

/// Two field values of one register combined.
pub fn fadd(a: FieldBits, b: FieldBits) -> (r: FieldBits)
    requires
        a.wf(),
        b.wf(),
    ensures
        r.wf(),
        r.mask == a.mask | b.mask,
        r.value == a.value | b.value,
{
    proof {
        lemma_or_wf(a.value, a.mask, b.value, b.mask);
    }
    field_add(a, b)
}

// ---------------------------------------------------------------------------
// Register programs
// ---------------------------------------------------------------------------

/// What a reporting wait sends to the console after each read that does not
/// end the wait: `prefix`, then (with `hex`) the register read once more and
/// shown as eight hexadecimal digits, then `suffix`.
#[derive(Debug, PartialEq, Eq)]
pub struct Echo {
    pub prefix: Vec<u8>,
    pub hex: bool,
    pub suffix: Vec<u8>,
}

/// An [`Echo`] with its texts as sequences.
pub struct EchoView {
    pub prefix: Seq<u8>,
    pub hex: bool,
    pub suffix: Seq<u8>,
}

impl View for Echo {
    type V = EchoView;

    open spec fn view(&self) -> EchoView {
        EchoView { prefix: self.prefix@, hex: self.hex, suffix: self.suffix@ }
    }
}

/// The console bytes a reporting wait sends after reading `word`.
pub open spec fn echo_message(e: EchoView, word: u32) -> Seq<u8> {
    e.prefix + (if e.hex {
        hex32_spec(word)
    } else {
        Seq::empty()
    }) + e.suffix
}

/// The console bytes a reporting wait sends in all: one message for each
/// poll that did not end it, in order, `shown` being the words read for the
/// messages.
pub open spec fn echo_trace(e: EchoView, shown: Seq<u32>) -> Seq<u8>
    decreases shown.len(),
{
    if shown.len() == 0 {
        Seq::empty()
    } else {
        echo_trace(e, shown.drop_last()) + echo_message(e, shown.last())
    }
}

impl Echo {
    /// The console bytes to send for a poll that did not end the wait, `word`
    /// being the register read once more (with `hex`).
    pub fn message(&self, word: u32) -> (m: Vec<u8>)
        ensures
            m@ == echo_message(self@, word),
    {
        let mut m: Vec<u8> = Vec::new();
        let mut k: usize = 0;
        while k < self.prefix.len()
            invariant
                k <= self.prefix@.len(),
                m@ == self.prefix@.take(k as int),
            decreases self.prefix@.len() - k,
        {
            m.push(self.prefix[k]);
            k = k + 1;
            assert(m@ =~= self.prefix@.take(k as int));
        }
        assert(self.prefix@.take(k as int) =~= self.prefix@);
        if self.hex {
            let mut digits = debug_hex32(word);
            m.append(&mut digits);
        }
        let ghost mid = m@;
        let mut j: usize = 0;
        while j < self.suffix.len()
            invariant
                j <= self.suffix@.len(),
                m@ == mid + self.suffix@.take(j as int),
            decreases self.suffix@.len() - j,
        {
            m.push(self.suffix[j]);
            j = j + 1;
            assert(m@ =~= mid + self.suffix@.take(j as int));
        }
        assert(self.suffix@.take(j as int) =~= self.suffix@);
        assert(m@ =~= echo_message(self@, word));
        m
    }
}

/// One step of a register program.
#[derive(Debug, PartialEq, Eq)]
pub enum RegOp {
    /// Store `value` in the word at `addr`.
    Write { addr: u32, value: u32 },
    /// Read the word at `addr` and store `(word & !clear) | set` back.
    Modify { addr: u32, clear: u32, set: u32 },
    /// Read the word at `addr` until `word & mask != 0`.
    WaitSet { addr: u32, mask: u32 },
    /// Read the word at `addr` until `word & mask == 0`.
    WaitClear { addr: u32, mask: u32 },
    /// Read the word at `addr` until `word & mask != 0`; after each read that
    /// does not end the wait, send `echo.message(w)` to the console, where
    /// `w` is the word at `addr` read once more (with `echo.hex`; without it
    /// nothing more is read and the message does not depend on `w`).
    WaitSetEcho { addr: u32, mask: u32, echo: Echo },
    /// Read the word at `addr` until `word & mask == 0`; after each read that
    /// does not end the wait, send `echo.message(w)` to the console, where
    /// `w` is the word at `addr` read once more (with `echo.hex`; without it
    /// nothing more is read and the message does not depend on `w`).
    WaitClearEcho { addr: u32, mask: u32, echo: Echo },
    /// Read the word at `addr`; the value of the last read is the program's result.
    Read { addr: u32 },
    /// Store `bytes` in memory starting at `addr`.
    Fill { addr: u32, bytes: Vec<u8> },
    /// Stop the machine: spin forever.
    Halt,
}

/// The meaning of a [`RegOp`], with the bytes of a fill as a sequence.
pub enum Op {
    Write { addr: u32, value: u32 },
    Modify { addr: u32, clear: u32, set: u32 },
    WaitSet { addr: u32, mask: u32 },
    WaitClear { addr: u32, mask: u32 },
    WaitSetEcho { addr: u32, mask: u32, echo: EchoView },
    WaitClearEcho { addr: u32, mask: u32, echo: EchoView },
    Read { addr: u32 },
    Fill { addr: u32, bytes: Seq<u8> },
    Halt,
}

impl View for RegOp {
    type V = Op;

    open spec fn view(&self) -> Op {
        match self {
            RegOp::Write { addr, value } => Op::Write { addr: *addr, value: *value },
            RegOp::Modify { addr, clear, set } => Op::Modify { addr: *addr, clear: *clear, set: *set },
            RegOp::WaitSet { addr, mask } => Op::WaitSet { addr: *addr, mask: *mask },
            RegOp::WaitClear { addr, mask } => Op::WaitClear { addr: *addr, mask: *mask },
            RegOp::WaitSetEcho { addr, mask, echo } => Op::WaitSetEcho { addr: *addr, mask: *mask, echo: echo@ },
            RegOp::WaitClearEcho { addr, mask, echo } => Op::WaitClearEcho { addr: *addr, mask: *mask, echo: echo@ },
            RegOp::Read { addr } => Op::Read { addr: *addr },
            RegOp::Fill { addr, bytes } => Op::Fill { addr: *addr, bytes: bytes@ },
            RegOp::Halt => Op::Halt,
        }
    }
}

/// The meaning of a program.
pub open spec fn prog(ops: Seq<RegOp>) -> Seq<Op> {
    ops.map_values(|o: RegOp| o@)
}

/// Append one step to a program.
pub fn emit(ops: &mut Vec<RegOp>, op: RegOp)
    ensures
        prog(final(ops)@) == prog(old(ops)@).push(op@),
{
    let ghost before = ops@;
    ops.push(op);
    assert(prog(ops@) =~= prog(before).push(op@));
}

/// Store `value` at `addr`.
pub fn emit_write(ops: &mut Vec<RegOp>, addr: u32, value: u32)
    ensures
        prog(final(ops)@) == prog(old(ops)@).push(Op::Write { addr, value }),
{
    emit(ops, RegOp::Write { addr, value });
}

/// Update `addr` with a field value: the field's bits are replaced.
pub fn emit_modify(ops: &mut Vec<RegOp>, addr: u32, f: FieldBits)
    ensures
        prog(final(ops)@) == prog(old(ops)@).push(Op::Modify { addr, clear: f.mask, set: f.value }),
{
    emit(ops, RegOp::Modify { addr, clear: f.mask, set: f.value });
}

/// Reading a field back out of the word that a field value of it sets gives
/// the value, cut to the field's width, when the field fits in the word.
pub proof fn lemma_field_read_after_val(mask: u32, shift: usize, v: u32)
    requires
        shift < 32,
        (mask << shift) >> shift == mask,
    ensures
        field_read_spec(mask, shift, field_value(mask, shift, v)) == v & mask,
{
    let s = shift as u32;
    assert((((v & mask) << s) & (mask << s)) >> s == v & mask) by (bit_vector)
        requires
            s < 32,
            (mask << s) >> s == mask,
    ;
}

/// Applying a field value to a register leaves the bits outside the field as
/// they were and sets the field to the value.
pub proof fn lemma_modify_sets_field(old_word: u32, mask: u32, shift: usize, v: u32)
    requires
        shift < 32,
        (mask << shift) >> shift == mask,
    ensures
        ({
            let new_word = (old_word & !field_mask(mask, shift)) | field_value(mask, shift, v);
            &&& new_word & !field_mask(mask, shift) == old_word & !field_mask(mask, shift)
            &&& field_read_spec(mask, shift, new_word) == v & mask
        }),
{
    let s = shift as u32;
    assert({
        let new_word = (old_word & !(mask << s)) | ((v & mask) << s);
        &&& new_word & !(mask << s) == old_word & !(mask << s)
        &&& (new_word & (mask << s)) >> s == v & mask
    }) by (bit_vector)
        requires
            s < 32,
            (mask << s) >> s == mask,
    ;
}

} // verus!
