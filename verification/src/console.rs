//! Text for the serial console: line endings and hexadecimal numbers, as the
//! bytes that go out on the UART.
use vstd::prelude::*;
use vstd::string::StringSliceAdditionalSpecFns;

verus! {

/// Line feed.
pub const LF: u8 = 0x0a;

/// Carriage return.
pub const CR: u8 = 0x0d;

/// The console form of text: a carriage return goes out before every line feed.
pub open spec fn crlf(s: Seq<u8>) -> Seq<u8>
    decreases s.len(),
{
    if s.len() == 0 {
        Seq::empty()
    } else {
        crlf(s.drop_last()) + if s.last() == LF {
            seq![CR, LF]
        } else {
            seq![s.last()]
        }
    }
}

/// The console text with the carriage returns that precede line feeds taken out.
pub open spec fn strip_cr(s: Seq<u8>) -> Seq<u8>
    decreases s.len(),
{
    if s.len() == 0 {
        Seq::empty()
    } else if s.len() >= 2 && s[s.len() - 2] == CR && s.last() == LF {
        strip_cr(s.subrange(0, s.len() - 2)).push(LF)
    } else {
        strip_cr(s.drop_last()).push(s.last())
    }
}

/// The bytes that `debug` sends for `text`: each byte of the text, with a
/// carriage return sent before each line feed.
pub fn debug(text: &str) -> (out: Vec<u8>)
    ensures
        out@ == crlf(text.spec_bytes()),
{
    let bytes = text.as_bytes();
    let mut out: Vec<u8> = Vec::new();
    let mut i: usize = 0;
    while i < bytes.len()
        invariant
            i <= bytes@.len(),
            bytes@ == text.spec_bytes(),
            out@ == crlf(bytes@.take(i as int)),
        decreases bytes@.len() - i,
    {
        let byte = bytes[i];
        if byte == LF {
            out.push(CR);
        }
        out.push(byte);
        proof {
            assert(bytes@.take(i + 1).drop_last() =~= bytes@.take(i as int));
        }
        i = i + 1;
    }
    proof {
        assert(bytes@.take(i as int) =~= bytes@);
    }
    out
}

/// What the console shows of some text, read back with its line ends
/// normalised, is the text itself.
pub proof fn lemma_crlf_strip(s: Seq<u8>)
    ensures
        strip_cr(crlf(s)) == s,
    decreases s.len(),
{
    if s.len() > 0 {
        lemma_crlf_strip(s.drop_last());
        let prefix = crlf(s.drop_last());
        if s.last() == LF {
            let c = prefix + seq![CR, LF];
            assert(c.subrange(0, c.len() - 2) =~= prefix);
        } else {
            let c = prefix + seq![s.last()];
            assert(c.drop_last() =~= prefix);
        }
        assert(s.drop_last().push(s.last()) =~= s);
    }
}

/// Every line feed the console sends is preceded by a carriage return.
pub proof fn lemma_crlf_line_ends(s: Seq<u8>)
    ensures
        forall|i: int|
            0 <= i < crlf(s).len() && #[trigger] crlf(s)[i] == LF ==> i >= 1 && crlf(s)[i - 1] == CR,
    decreases s.len(),
{
    if s.len() > 0 {
        lemma_crlf_line_ends(s.drop_last());
        let prefix = crlf(s.drop_last());
        let tail = if s.last() == LF {
            seq![CR, LF]
        } else {
            seq![s.last()]
        };
        assert forall|i: int|
            0 <= i < crlf(s).len() && #[trigger] crlf(s)[i] == LF implies i >= 1 && crlf(s)[i
                - 1] == CR by {
            if i < prefix.len() {
                assert(crlf(s)[i] == prefix[i]);
                assert(crlf(s)[i - 1] == prefix[i - 1]);
            }
        }
    }
}

// ---------------------------------------------------------------------------
// Hexadecimal
// ---------------------------------------------------------------------------

/// The upper-case hexadecimal digit for `d < 16`.
pub open spec fn hex_char(d: int) -> u8 {
    if d < 10 {
        (0x30 + d) as u8
    } else {
        (0x37 + d) as u8
    }
}

/// The value of a hexadecimal digit.
pub open spec fn hex_value(c: u8) -> int {
    if 0x30 <= c <= 0x39 {
        c - 0x30
    } else if 0x41 <= c <= 0x46 {
        c - 0x37
    } else {
        0
    }
}

/// The number that a string of hexadecimal digits stands for, most
/// significant digit first.
pub open spec fn hex_decode(s: Seq<u8>) -> int
    decreases s.len(),
{
    if s.len() == 0 {
        0
    } else {
        hex_decode(s.drop_last()) * 16 + hex_value(s.last())
    }
}

/// The `i`-th 4-bit digit of `val`, counted from the least significant one.
pub open spec fn nibble32(val: u32, i: int) -> int {
    ((val >> (4 * i) as u32) % 16) as int
}

/// The `i`-th 4-bit digit of `val`, counted from the least significant one.
pub open spec fn nibble8(val: u8, i: int) -> int {
    ((val >> (4 * i) as u8) % 16) as int
}

/// The digit for `d`.
fn hex_digit(d: u32) -> (c: u8)
    requires
        d < 16,
    ensures
        c == hex_char(d as int),
{
    if d < 10 {
        (0x30 + d) as u8
    } else {
        (0x37 + d) as u8
    }
}

/// The eight hexadecimal digits of `val`, most significant first.
pub open spec fn hex32_spec(val: u32) -> Seq<u8> {
    Seq::new(8, |k: int| hex_char(nibble32(val, 7 - k)))
}

/// `val` as eight hexadecimal digits, most significant first.
pub fn debug_hex32(val: u32) -> (out: Vec<u8>)
    ensures
        out@ == hex32_spec(val),
        out@.len() == 8,
        forall|k: int| 0 <= k < 8 ==> #[trigger] out@[k] == hex_char(nibble32(val, 7 - k)),
{
    let mut out: Vec<u8> = Vec::new();
    let mut k: u32 = 0;
    while k < 8
        invariant
            k <= 8,
            out@.len() == k,
            forall|j: int| 0 <= j < k ==> #[trigger] out@[j] == hex_char(nibble32(val, 7 - j)),
        decreases 8 - k,
    {
        let i: u32 = 7 - k;
        out.push(hex_digit((val >> (i * 4)) % 16));
        k = k + 1;
    }
    assert(out@ =~= hex32_spec(val));
    out
}

/// `val` as two hexadecimal digits, most significant first.
pub fn debug_hex8(val: u8) -> (out: Vec<u8>)
    ensures
        out@.len() == 2,
        out@[0] == hex_char(nibble8(val, 1)),
        out@[1] == hex_char(nibble8(val, 0)),
{
    let mut out: Vec<u8> = Vec::new();
    out.push(hex_digit(((val >> 4u8) % 16) as u32));
    out.push(hex_digit(((val >> 0u8) % 16) as u32));
    out
}

proof fn lemma_hex_digit_value(d: int)
    requires
        0 <= d < 16,
    ensures
        hex_value(hex_char(d)) == d,
{
}

/// Reading back the eight digits printed for a 32-bit value gives the value.
pub proof fn lemma_hex32_roundtrip(val: u32, digits: Seq<u8>)
    requires
        digits.len() == 8,
        forall|k: int| 0 <= k < 8 ==> #[trigger] digits[k] == hex_char(nibble32(val, 7 - k)),
    ensures
        hex_decode(digits) == val,
{
    assert(val == ((val >> 28u32) % 16) * 0x1000_0000 + ((val >> 24u32) % 16) * 0x100_0000
        + ((val >> 20u32) % 16) * 0x10_0000 + ((val >> 16u32) % 16) * 0x1_0000 + ((val >> 12u32)
        % 16) * 0x1000 + ((val >> 8u32) % 16) * 0x100 + ((val >> 4u32) % 16) * 0x10 + ((val
        >> 0u32) % 16)) by (bit_vector);
    assert forall|j: int| 0 <= j < 8 implies hex_value(#[trigger] digits[j]) == nibble32(
        val,
        7 - j,
    ) by {
        lemma_hex_digit_value(nibble32(val, 7 - j));
    }
    reveal_with_fuel(hex_decode, 9);
    assert(digits.drop_last() =~= digits.take(7));
    assert(digits.take(7).drop_last() =~= digits.take(6));
    assert(digits.take(6).drop_last() =~= digits.take(5));
    assert(digits.take(5).drop_last() =~= digits.take(4));
    assert(digits.take(4).drop_last() =~= digits.take(3));
    assert(digits.take(3).drop_last() =~= digits.take(2));
    assert(digits.take(2).drop_last() =~= digits.take(1));
    assert(digits.take(1).drop_last() =~= digits.take(0));
}

/// Reading back the two digits printed for a byte gives the byte.
pub proof fn lemma_hex8_roundtrip(val: u8, digits: Seq<u8>)
    requires
        digits.len() == 2,
        digits[0] == hex_char(nibble8(val, 1)),
        digits[1] == hex_char(nibble8(val, 0)),
    ensures
        hex_decode(digits) == val,
{
    assert(val == ((val >> 4u8) % 16) * 0x10 + ((val >> 0u8) % 16)) by (bit_vector);
    lemma_hex_digit_value(nibble8(val, 1));
    lemma_hex_digit_value(nibble8(val, 0));
    reveal_with_fuel(hex_decode, 3);
    assert(digits.drop_last() =~= digits.take(1));
    assert(digits.take(1).drop_last() =~= digits.take(0));
}

} // verus!
