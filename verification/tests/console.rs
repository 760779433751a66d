use bootcore::console::{debug, debug_hex32, debug_hex8};
use bootcore::regs::RegOp;
use bootcore::uart::{write_byte, write_bytes, UART_LS, UART_RB_TH_DLL};

#[test]
fn debug_inserts_carriage_returns() {
    assert_eq!(debug("NAND init...\n"), b"NAND init...\r\n".to_vec());
    assert_eq!(debug("a\nb\n\n"), b"a\r\nb\r\n\r\n".to_vec());
    assert_eq!(debug(""), Vec::<u8>::new());
    assert_eq!(debug("no newline"), b"no newline".to_vec());
}

#[test]
fn debug_text_reads_back_after_stripping() {
    let text = "AArch64 Bare Metal, 2.0!\nline two\n";
    let out = debug(text);
    let s = String::from_utf8(out).unwrap();
    assert_eq!(s.replace("\r\n", "\n"), text);
}

#[test]
fn hex32_digits() {
    assert_eq!(debug_hex32(0xDEADBEEF), b"DEADBEEF".to_vec());
    assert_eq!(debug_hex32(0), b"00000000".to_vec());
    assert_eq!(debug_hex32(0x0123_4567), b"01234567".to_vec());
    assert_eq!(debug_hex32(0xffff_ffff), b"FFFFFFFF".to_vec());
}

#[test]
fn hex8_digits() {
    assert_eq!(debug_hex8(0x0a), b"0A".to_vec());
    assert_eq!(debug_hex8(0xff), b"FF".to_vec());
    assert_eq!(debug_hex8(0x5c), b"5C".to_vec());
}

#[test]
fn hex32_roundtrip_on_samples() {
    for v in [0u32, 1, 0x80, 0x1234_5678, 0xdead_beef, u32::MAX] {
        let s = String::from_utf8(debug_hex32(v)).unwrap();
        assert_eq!(u32::from_str_radix(&s, 16).unwrap(), v);
    }
    for v in [0u8, 7, 0x10, 0xab, 0xff] {
        let s = String::from_utf8(debug_hex8(v)).unwrap();
        assert_eq!(u8::from_str_radix(&s, 16).unwrap(), v);
    }
}

#[test]
fn uart_byte_program() {
    assert_eq!(UART_RB_TH_DLL, 0xe800_5000);
    assert_eq!(UART_LS, 0xe800_5014);
    assert_eq!(
        write_byte(b'A'),
        vec![
            RegOp::Write { addr: 0xe800_5000, value: 0x41 },
            RegOp::WaitSet { addr: 0xe800_5014, mask: 0x40 },
        ]
    );
}

#[test]
fn uart_bytes_program() {
    let ops = write_bytes(b"hi");
    assert_eq!(ops.len(), 4);
    assert_eq!(ops[0], RegOp::Write { addr: 0xe800_5000, value: b'h' as u32 });
    assert_eq!(ops[2], RegOp::Write { addr: 0xe800_5000, value: b'i' as u32 });
    assert_eq!(ops[3], RegOp::WaitSet { addr: 0xe800_5014, mask: 0x40 });
    assert!(write_bytes(b"").is_empty());
}
