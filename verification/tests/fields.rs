use bootcore::regs::{fadd, field_add, field_is_set, field_read, field_val, fval, emit_modify, FieldBits, RegOp};

#[test]
fn field_value_placement() {
    let f = field_val(3, 4, 2);
    assert_eq!(f.mask, 0x30);
    assert_eq!(f.value, 0x20);
    // the value is cut to the field's width
    let g = field_val(3, 4, 7);
    assert_eq!(g.value, 0x30);
    let h = field_val(0x3f_ffff, 0, 0x880);
    assert_eq!(h.value, 0x880);
}

#[test]
fn field_sum_combines() {
    let a = FieldBits { mask: 0xf0, value: 0x30 };
    let b = FieldBits { mask: 0x0f, value: 0x05 };
    let s = field_add(a, b);
    assert_eq!(s.mask, 0xff);
    assert_eq!(s.value, 0x35);
    // bits outside a field's mask are dropped by the sum
    let c = FieldBits { mask: 0x0f, value: 0xf5 };
    assert_eq!(field_add(a, c).value, 0x35);
    let d = fadd(fval(1, 31, 1), fval(0xf, 24, 6));
    assert_eq!(d.value, 0x8600_0000);
    assert_eq!(d.mask, 0x8f00_0000);
}

#[test]
fn field_read_and_is_set() {
    assert_eq!(field_read(3, 30, 0x8000_0000), 2);
    assert_eq!(field_read(0xffff, 0, 0x8800_0123), 0x123);
    assert!(field_is_set(1, 6, 0x40));
    assert!(!field_is_set(1, 6, 0xbf));
    // read after value gives the value back
    let v = field_val(0x1fff, 19, 512);
    assert_eq!(field_read(0x1fff, 19, v.value), 512);
}

#[test]
fn modify_program_step() {
    let mut ops = Vec::new();
    emit_modify(&mut ops, 0x1000, fval(1, 2, 1));
    assert_eq!(ops, vec![RegOp::Modify { addr: 0x1000, clear: 4, set: 4 }]);
}
