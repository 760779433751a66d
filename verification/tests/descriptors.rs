use bootcore::descr::{
    data_usb_configuration_descriptor, data_usb_device_descriptor, data_usb_device_qualifier,
    data_usb_string_descriptor_0, data_usb_string_descriptor_1, data_usb_string_descriptor_2,
    data_usb_string_descriptor_3, hb16, lb16, USB_CFG_TOTAL_LENGTH,
};

#[test]
fn lb16_hb16_split_words() {
    assert_eq!(lb16(0x0200), 0x00);
    assert_eq!(hb16(0x0200), 0x02);
    assert_eq!(lb16(0x4255), 0x55);
    assert_eq!(hb16(0x4255), 0x42);
    assert_eq!(lb16(0xffff), 0xff);
    assert_eq!(hb16(0x00ff), 0x00);
}

#[test]
fn lb16_hb16_roundtrip_on_samples() {
    for v in [0u16, 1, 0xff, 0x100, 0x1234, 0xfffe, 0xffff] {
        assert_eq!((hb16(v) as u16) * 256 + lb16(v) as u16, v);
    }
}

#[test]
fn device_descriptor_bytes() {
    let d = data_usb_device_descriptor();
    assert_eq!(
        d,
        vec![
            0x12, 0x01, 0x00, 0x02, 0x00, 0x00, 0x00, 0x40, 0x55, 0x42, 0x01, 0x00, 0x00, 0x00,
            0x01, 0x02, 0x03, 0x01
        ]
    );
}

#[test]
fn qualifier_descriptor_bytes() {
    let d = data_usb_device_qualifier();
    assert_eq!(d, vec![0x0a, 0x06, 0x00, 0x02, 0x00, 0x00, 0x00, 0x40, 0x01, 0x00]);
}

#[test]
fn configuration_descriptor_layout() {
    let c = data_usb_configuration_descriptor();
    assert_eq!(c.len(), 46);
    assert_eq!(c[0], 9);
    assert_eq!(c[1], 2);
    let total = c[2] as u16 + 256 * c[3] as u16;
    assert_eq!(total, USB_CFG_TOTAL_LENGTH);
    assert_eq!(total, 9 + 9 * c[4] as u16 + 7 * c[13] as u16);
    // endpoint addresses and attributes
    assert_eq!(&c[18..25], &[7, 5, 0x01, 0x02, 0x00, 0x02, 0x00]);
    assert_eq!(&c[25..32], &[7, 5, 0x81, 0x02, 0x00, 0x02, 0x00]);
    assert_eq!(&c[32..39], &[7, 5, 0x02, 0x03, 0x40, 0x00, 0x10]);
    assert_eq!(&c[39..46], &[7, 5, 0x82, 0x03, 0x40, 0x00, 0x10]);
}

fn utf16_text(d: &[u8]) -> String {
    d[2..].chunks(2).map(|p| {
        assert_eq!(p[1], 0);
        p[0] as char
    }).collect()
}

#[test]
fn string_descriptors() {
    assert_eq!(data_usb_string_descriptor_0(), vec![4, 3, 0x09, 0x04]);
    let s1 = data_usb_string_descriptor_1();
    let s2 = data_usb_string_descriptor_2();
    let s3 = data_usb_string_descriptor_3();
    for s in [&s1, &s2, &s3] {
        assert_eq!(s[0] as usize, s.len());
        assert_eq!(s[1], 3);
    }
    assert_eq!(utf16_text(&s1), "tmb!");
    assert_eq!(utf16_text(&s2), "Ambarella USB generic class");
    assert_eq!(utf16_text(&s3), "123456789ABC");
}
