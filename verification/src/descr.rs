//! USB descriptor tables of the boot loader's device, and the byte helpers
//! that lay 16-bit fields out in them.
use vstd::prelude::*;

verus! {

/*---- bEndpointAddress ----*/
pub const USB_EP_EP1_ADDRESS: u8 = USB_EP_OUT_ADDRESS | 0x01;
pub const USB_EP_EP2_ADDRESS: u8 = USB_EP_IN_ADDRESS | 0x01;
pub const USB_EP_EP3_ADDRESS: u8 = USB_EP_OUT_ADDRESS | 0x02;
pub const USB_EP_EP4_ADDRESS: u8 = USB_EP_IN_ADDRESS | 0x02;

/*---- wMaxPacketSize ----*/
pub const USB_EP_MAX_PACKET_SIZE_512: u16 = 0x0200;
pub const USB_EP_MAX_PACKET_SIZE_64: u16 = 0x40;
pub const USB_EP_MAX_PACKET_SIZE_32: u16 = 0x20;
pub const USB_EP_MAX_PACKET_SIZE_16: u16 = 0x10;
pub const USB_EP_MAX_PACKET_SIZE_08: u16 = 0x08;

/*---- bInterval ----*/
pub const USB_EP_CONTROL_INTERVAL: u8 = 0x00;
pub const USB_EP_BULK_INTERVAL: u8 = 0x00;
pub const USB_EP_INTERRUPT_INTERVAL: u8 = 0x10;
pub const USB_EP_ISO_INTERVAL: u8 = 0x00;

pub const USB_EP_EP1_INTERVAL: u8 = USB_EP_BULK_INTERVAL;
pub const USB_EP_EP2_INTERVAL: u8 = USB_EP_BULK_INTERVAL;
pub const USB_EP_EP3_INTERVAL: u8 = USB_EP_INTERRUPT_INTERVAL;
pub const USB_EP_EP4_INTERVAL: u8 = USB_EP_INTERRUPT_INTERVAL;

/*--------------------------------------
    Interface Descriptor Settings
--------------------------------------*/
/*---- bInterfaceNumber ----*/
pub const USB_IF_IF0_NUMBER: u8 = 0;

/*---- bAlternateSettings ----*/
pub const USB_IF_ALT0: u8 = 0;

/*---- bNumEndpoints ----*/
pub const USB_IF_CFG_IF0_NUMBER_EP: u8 = 2;

/*---- bInterfaceClass ----*/
pub const USB_IF0_CLASS_BLD: u8 = 0xff;
pub const USB_IF0_CLASS_MSC: u8 = 0x08;

/*---- bInterfaceSubClass ----*/
pub const USB_IF0_SUBCLASS_BLD: u8 = 0xff;
pub const USB_IF0_SUBCLASS_MSC: u8 = 0x06;

/*---- bInterfaceProtocol ----*/
pub const USB_IF0_PROTOCOL_BLD: u8 = 0;
pub const USB_IF0_PROTOCOL_MSC: u8 = 0x50;

/*---- iInterface ----*/
pub const USB_IF_IDX: u8 = 0;

/*--------------------------------------
    Configuration Descriptor Settings
--------------------------------------*/
pub const USB_CFG_NUMBER_OF_IF: u8 = 1; // number of interfaces
pub const USB_CFG_VALUE: u8 = 1; // configuration value
pub const USB_CFG_IDX: u8 = 0; // configuration string id
pub const USB_CFG_CFG_ATTRIBUES: u8 = 0xc0; // characteristics
pub const USB_CFG_MAX_POWER: u8 = 100; // maximum power in 2mA
pub const USB_CFG_TOTAL_LENGTH: u16 = 0x20; /* configuration + interface + endpoints */

/*--------------------------------------
    device descriptor
--------------------------------------*/
pub const USB_DEV_USB_SPECIFICATION: u16 = 0x0200; // USB specification
pub const USB_DEV_RELEASE_NUMBER: u16 = 0x0000; // device release number
pub const USB_DEV_CLASS: u8 = 0x00; // class code
pub const USB_DEV_SUBCLASS: u8 = 0x00; // sub-class code
pub const USB_DEV_MSC_CLASS: u8 = 0x00; // class code
pub const USB_DEV_MSC_SUBCLASS: u8 = 0x00; // sub-class code
pub const USB_DEV_PROTOCOL: u8 = 0x00; // protocol code
/* max packet size for endpoint0*/
pub const USB_DEV_VENDOR_ID: u16 = 0x4255; // vendor id
pub const USB_DEV_PRODUCT_ID_PUD_BLD: u16 = 0x0001; // product id
pub const USB_DEV_PRODUCT_ID_PUD_MSC: u16 = 0x1000; // product id
pub const USB_DEV_RELASE_NUMBER: u16 = 0x00; // device release number
pub const USB_DEV_MANUFACTURER_IDX: u8 = 0x01; // manifacturer string id
pub const USB_DEV_PRODUCT_IDX: u8 = 0x02; // product string id
pub const USB_DEV_SERIAL_NUMBER_IDX: u8 = 0x03; // serial number string id
pub const USB_DEV_NUM_CONFIG: u8 = 1; // number of possible configure


/*====================================================
    desciptor relation definition
====================================================*/
/*---- number of configration ----*/
pub const USB_NUM_CONFIG: u8 = USB_DEV_NUM_CONFIG;

/*---- number of interface ----*/
pub const USB_NUM_INTERFACE: u8 = USB_CFG_NUMBER_OF_IF;

/*---- configuration descriptor total size ----*/
pub const USB_CONFIG_DESC_TOTAL_SIZE: u16 = USB_CFG_TOTAL_LENGTH;

/*---- default configuration number ----*/
pub const USB_DEFAULT_CONFIG: u8 = 1;

//----		 end		--------------------

/*--------------------------------------
    USB Request Type
--------------------------------------*/
pub const USB_DEV_REQ_TYPE_STANDARD: u8 = 0x00; // standard request
pub const USB_DEV_REQ_TYPE_CLASS: u8 = 0x01; // class specific request
pub const USB_DEV_REQ_TYPE_VENDER: u8 = 0x02; // vendor specific request
pub const USB_DEV_REQ_TYPE_RESERVE: u8 = 0x03; // reserved
pub const USB_DEV_REQ_TYPE_TYPE: u8 = 0x60;
pub const USB_DEV_REQ_DIRECTION: u8 = 0x80;
pub const USB_DEV_REQ_TYPE_UNSUPPORTED: u8 = 0xff; // unsupported

/*--------------------------------------
    USB Standard Device Request
--------------------------------------*/
pub const USB_GET_STATUS: u8 = 0; // GetStatus request
pub const USB_CLEAR_FEATURE: u8 = 1; // ClearFeature request
pub const USB_SET_FEATURE: u8 = 3; // SetFeature request
pub const USB_SET_ADDRESS: u8 = 5; // SetAddress request
pub const USB_GET_DESCRIPTOR: u8 = 6; // GetDescriptor request
pub const USB_SET_DESCRIPTOR: u8 = 7; // SetDescriptor request
pub const USB_GET_CONFIGURATION: u8 = 8; // GetConfiguratoin request
pub const USB_SET_CONFIGURATION: u8 = 9; // SetConfiguratoin request
pub const USB_GET_INTERFACE: u8 = 10; // GetInterface request
pub const USB_SET_INTERFACE: u8 = 11; // SetInterface request
pub const USB_SYNCH_FRAME: u8 = 12; // SynchFrame request

/*--------------------------------------
    device request
--------------------------------------*/
pub const USB_DEVICE_REQUEST_SIZE: u8 = 8; // device request size
pub const USB_DEVICE_TO_HOST: u8 = 0x80; // device to host transfer
pub const USB_HOST_TO_DEVICE: u8 = 0x00; // host to device transfer
pub const USB_DEVICE: u8 = 0x00; // request to device
pub const USB_INTERFACE: u8 = 0x01; // request to interface
pub const USB_ENDPOINT: u8 = 0x02; // request to endpoint
pub const USB_CLASS: u8 = 0x20; // class request
pub const USB_VENDOR: u8 = 0x40; // vendor request

/*--------------------------------------
    descriptor size
--------------------------------------*/
pub const USB_DEV_LENGTH: u16 = 0x12; // device descriptor size
pub const USB_CFG_LENGTH: u16 = 0x09; // config descriptor size
pub const USB_IF_LENGTH: u16 = 0x09; // interface descriptor size
pub const USB_EP_LENGTH: u16 = 0x07; // endpoint descriptor size
pub const USB_DEV_QUALIFIER_LENGTH: u16 = 0x0a;
/*--------------------------------------
    endpoint address
--------------------------------------*/
pub const USB_EP_IN_ADDRESS: u8 = 0x80; // IN endpoint address
pub const USB_EP_OUT_ADDRESS: u8 = 0x00; // OUT endpoint address

/*--------------------------------------
    endpoint attribute
--------------------------------------*/
pub const USB_EP_ATR_CONTROL: u8 = 0x00; // transfer mode : control
pub const USB_EP_ATR_ISO: u8 = 0x01; // transfer mode : isochronous
pub const USB_EP_ATR_BULK: u8 = 0x02; // transfer mode : bulk
pub const USB_EP_ATR_INTERRUPT: u8 = 0x03; // transfer mode : interrupt

/*--------------------------------------
    USB Feature Selector
--------------------------------------*/
pub const USB_DEVICE_REMOTE_WAKEUP: u8 = 1; // remote wake up
pub const USB_ENDPOINT_STALL: u8 = 0; // endpoint stall
pub const USB_ENDPOINT_HALT: u8 = USB_ENDPOINT_STALL;
/*--------------------------------------
    USB descriptor type
--------------------------------------*/
pub const USB_DEVICE_DESCRIPTOR: u8 = 1; // device descriptor
pub const USB_CONFIGURATION_DESCRIPTOR: u8 = 2; // configuraton descriptor
pub const USB_STRING_DESCRIPTOR: u8 = 3; // string descriptor
pub const USB_INTERFACE_DESCRIPTOR: u8 = 4; // interface descriptor
pub const USB_ENDPOINT_DESCRIPTOR: u8 = 5; // endpoint descriptor
pub const USB_DEVICE_QUALIFIER: u8 = 6;
pub const USB_OTHER_SPEED_CONFIGURATION: u8 = 7;

/*--------------------------------------
    config descriptor definitions
--------------------------------------*/
pub const USB_DEVDESC_ATB_BUS_POWER: u8 = 0x80; // bus power
pub const USB_DEVDESC_ATB_SELF_POWER: u8 = 0x40; // self power
pub const USB_DEVDESC_ATB_RMT_WAKEUP: u8 = 0x20; // remote wake up


// ---------------------------------------------------------------------------
// 16-bit fields
// ---------------------------------------------------------------------------

/// Low byte of a 16-bit value.
pub fn lb16(val: u16) -> (r: u8)
    ensures
        r == val % 256,
{
    assert((val & 0xFF) == val % 256) by (bit_vector);
    (val & 0xFF) as u8
}

/// High byte of a 16-bit value.
pub fn hb16(val: u16) -> (r: u8)
    ensures
        r == val / 256,
{
    assert(((val >> 8) & 0xFF) == val / 256) by (bit_vector);
    ((val >> 8) & 0xFF) as u8
}

/// A 16-bit field is its low byte and its high byte, little end first.
pub proof fn lemma_lb16_hb16_roundtrip(val: u16)
    ensures
        (val / 256) * 256 + val % 256 == val,
        val % 256 < 256,
        val / 256 < 256,
{
}

/// The little-endian 16-bit value held by two bytes.
pub open spec fn le16(lo: u8, hi: u8) -> int {
    lo + 256 * hi
}

// ---------------------------------------------------------------------------
// Descriptor tables
// ---------------------------------------------------------------------------

/// Device descriptor.
pub open spec fn device_descriptor_spec() -> Seq<u8> {
    seq![
        0x12, 0x01, 0x00, 0x02, 0x00, 0x00, 0x00, 0x40,
        0x55, 0x42, 0x01, 0x00, 0x00, 0x00, 0x01, 0x02,
        0x03, 0x01,
    ]
}

/// Device qualifier descriptor.
pub open spec fn device_qualifier_spec() -> Seq<u8> {
    seq![0x0a, 0x06, 0x00, 0x02, 0x00, 0x00, 0x00, 0x40, 0x01, 0x00]
}

/// Configuration descriptor: configuration, interface 0 and four endpoints.
pub open spec fn configuration_descriptor_spec() -> Seq<u8> {
    seq![
        0x09, 0x02, 0x20, 0x00, 0x01, 0x01, 0x00, 0xc0, 100,
        0x09, 0x04, 0x00, 0x00, 0x02, 0xff, 0xff, 0x00, 0x00,
        0x07, 0x05, 0x01, 0x02, 0x00, 0x02, 0x00,
        0x07, 0x05, 0x81, 0x02, 0x00, 0x02, 0x00,
        0x07, 0x05, 0x02, 0x03, 0x40, 0x00, 0x10,
        0x07, 0x05, 0x82, 0x03, 0x40, 0x00, 0x10,
    ]
}

/// A string descriptor holding the ASCII text `s` in UTF-16LE.
pub open spec fn string_descriptor_spec(s: Seq<u8>) -> Seq<u8> {
    seq![(2 + 2 * s.len()) as u8, USB_STRING_DESCRIPTOR]
        + Seq::new(2 * s.len(), |i: int| if i % 2 == 0 { s[i / 2] } else { 0u8 })
}

/// The text of string descriptor 1.
pub open spec fn string1_text() -> Seq<u8> {
    seq![0x74u8, 0x6d, 0x62, 0x21]
}

/// The text of string descriptor 2: "Ambarella USB generic class".
pub open spec fn string2_text() -> Seq<u8> {
    seq![
        0x41u8, 0x6d, 0x62, 0x61, 0x72, 0x65, 0x6c, 0x6c, 0x61, 0x20, 0x55, 0x53, 0x42, 0x20,
        0x67, 0x65, 0x6e, 0x65, 0x72, 0x69, 0x63, 0x20, 0x63, 0x6c, 0x61, 0x73, 0x73,
    ]
}

/// The text of string descriptor 3: "123456789ABC".
pub open spec fn string3_text() -> Seq<u8> {
    seq![0x31u8, 0x32, 0x33, 0x34, 0x35, 0x36, 0x37, 0x38, 0x39, 0x41, 0x42, 0x43]
}

/// String descriptor 0: the supported language (0x0409, US English).
pub open spec fn string0_spec() -> Seq<u8> {
    seq![4u8, USB_STRING_DESCRIPTOR, 0x09, 0x04]
}

/// The device descriptor's bytes.
pub fn data_usb_device_descriptor() -> (d: Vec<u8>)
    ensures
        d@ == device_descriptor_spec(),
{
    let d = vec![
        USB_DEV_LENGTH as u8,
        USB_DEVICE_DESCRIPTOR,
        lb16(USB_DEV_USB_SPECIFICATION),
        hb16(USB_DEV_USB_SPECIFICATION),
        USB_DEV_CLASS,
        USB_DEV_SUBCLASS,
        USB_DEV_PROTOCOL,
        USB_EP_MAX_PACKET_SIZE_64 as u8,
        lb16(USB_DEV_VENDOR_ID),
        hb16(USB_DEV_VENDOR_ID),
        lb16(USB_DEV_PRODUCT_ID_PUD_BLD),
        hb16(USB_DEV_PRODUCT_ID_PUD_BLD),
        lb16(USB_DEV_RELASE_NUMBER),
        hb16(USB_DEV_RELASE_NUMBER),
        USB_DEV_MANUFACTURER_IDX,
        USB_DEV_PRODUCT_IDX,
        USB_DEV_SERIAL_NUMBER_IDX,
        USB_DEV_NUM_CONFIG,
    ];
    assert(d@ =~= device_descriptor_spec());
    d
}

/// The device qualifier descriptor's bytes.
pub fn data_usb_device_qualifier() -> (d: Vec<u8>)
    ensures
        d@ == device_qualifier_spec(),
{
    let d = vec![
        USB_DEV_QUALIFIER_LENGTH as u8,
        USB_DEVICE_QUALIFIER,
        lb16(USB_DEV_USB_SPECIFICATION),
        hb16(USB_DEV_USB_SPECIFICATION),
        USB_DEV_CLASS,
        USB_DEV_SUBCLASS,
        USB_DEV_PROTOCOL,
        USB_EP_MAX_PACKET_SIZE_64 as u8,
        USB_DEV_NUM_CONFIG,
        0,
    ];
    assert(d@ =~= device_qualifier_spec());
    d
}

/// The configuration descriptor's bytes.
pub fn data_usb_configuration_descriptor() -> (d: Vec<u8>)
    ensures
        d@ == configuration_descriptor_spec(),
{
    let d = vec![
        USB_CFG_LENGTH as u8,
        USB_CONFIGURATION_DESCRIPTOR,
        lb16(USB_CFG_TOTAL_LENGTH),
        hb16(USB_CFG_TOTAL_LENGTH),
        USB_CFG_NUMBER_OF_IF,
        USB_CFG_VALUE,
        USB_CFG_IDX,
        USB_CFG_CFG_ATTRIBUES,
        USB_CFG_MAX_POWER,
        // interface 0, alternate setting 0
        USB_IF_LENGTH as u8,
        USB_INTERFACE_DESCRIPTOR,
        USB_IF_IF0_NUMBER,
        USB_IF_ALT0,
        USB_IF_CFG_IF0_NUMBER_EP,
        USB_IF0_CLASS_BLD,
        USB_IF0_SUBCLASS_BLD,
        USB_IF0_PROTOCOL_BLD,
        USB_IF_IDX,
        // endpoint 1
        USB_EP_LENGTH as u8,
        USB_ENDPOINT_DESCRIPTOR,
        USB_EP_EP1_ADDRESS,
        USB_EP_ATR_BULK,
        lb16(USB_EP_MAX_PACKET_SIZE_512),
        hb16(USB_EP_MAX_PACKET_SIZE_512),
        USB_EP_EP1_INTERVAL,
        // endpoint 2
        USB_EP_LENGTH as u8,
        USB_ENDPOINT_DESCRIPTOR,
        USB_EP_EP2_ADDRESS,
        USB_EP_ATR_BULK,
        lb16(USB_EP_MAX_PACKET_SIZE_512),
        hb16(USB_EP_MAX_PACKET_SIZE_512),
        USB_EP_EP2_INTERVAL,
        // endpoint 3
        USB_EP_LENGTH as u8,
        USB_ENDPOINT_DESCRIPTOR,
        USB_EP_EP3_ADDRESS,
        USB_EP_ATR_INTERRUPT,
        lb16(USB_EP_MAX_PACKET_SIZE_64),
        hb16(USB_EP_MAX_PACKET_SIZE_64),
        USB_EP_EP3_INTERVAL,
        // endpoint 4
        USB_EP_LENGTH as u8,
        USB_ENDPOINT_DESCRIPTOR,
        USB_EP_EP4_ADDRESS,
        USB_EP_ATR_INTERRUPT,
        lb16(USB_EP_MAX_PACKET_SIZE_64),
        hb16(USB_EP_MAX_PACKET_SIZE_64),
        USB_EP_EP4_INTERVAL,
    ];
    assert(0x00u8 | 0x01u8 == 0x01u8 && 0x80u8 | 0x01u8 == 0x81u8 && 0x00u8 | 0x02u8 == 0x02u8
        && 0x80u8 | 0x02u8 == 0x82u8) by (bit_vector);
    assert(d@ =~= configuration_descriptor_spec());
    d
}

/// String descriptor 0: the language list.
pub fn data_usb_string_descriptor_0() -> (d: Vec<u8>)
    ensures
        d@ == string0_spec(),
{
    let d = vec![4, USB_STRING_DESCRIPTOR, 0x09, 0x04];
    assert(d@ =~= string0_spec());
    d
}

/// String descriptor 1.
pub fn data_usb_string_descriptor_1() -> (d: Vec<u8>)
    ensures
        d@ == string_descriptor_spec(string1_text()),
{
    let d = vec![10, USB_STRING_DESCRIPTOR, 0x74, 0, 0x6d, 0, 0x62, 0, 0x21, 0];
    assert(d@ =~= string_descriptor_spec(string1_text()));
    d
}

/// String descriptor 2, the product name.
pub fn data_usb_string_descriptor_2() -> (d: Vec<u8>)
    ensures
        d@ == string_descriptor_spec(string2_text()),
{
    let d = vec![
        56, USB_STRING_DESCRIPTOR,
        0x41, 0, 0x6d, 0, 0x62, 0, 0x61, 0, 0x72, 0, 0x65, 0, 0x6c, 0, 0x6c, 0, 0x61, 0,
        0x20, 0, 0x55, 0, 0x53, 0, 0x42, 0, 0x20, 0, 0x67, 0, 0x65, 0, 0x6e, 0, 0x65, 0,
        0x72, 0, 0x69, 0, 0x63, 0, 0x20, 0, 0x63, 0, 0x6c, 0, 0x61, 0, 0x73, 0, 0x73, 0,
    ];
    assert(d@ =~= string_descriptor_spec(string2_text()));
    d
}

/// String descriptor 3, the serial number.
pub fn data_usb_string_descriptor_3() -> (d: Vec<u8>)
    ensures
        d@ == string_descriptor_spec(string3_text()),
{
    let d = vec![
        26, USB_STRING_DESCRIPTOR,
        0x31, 0, 0x32, 0, 0x33, 0, 0x34, 0, 0x35, 0, 0x36, 0, 0x37, 0, 0x38, 0, 0x39, 0,
        0x41, 0, 0x42, 0, 0x43, 0,
    ];
    assert(d@ =~= string_descriptor_spec(string3_text()));
    d
}

/// A standalone descriptor: its first byte is its own length, its second its type.
pub open spec fn is_descriptor(d: Seq<u8>, typ: u8) -> bool {
    &&& d.len() >= 2
    &&& d[0] == d.len()
    &&& d[1] == typ
}

/// Every standalone descriptor the device hands out states its own length and
/// its type.
pub proof fn lemma_descriptors_self_describing()
    ensures
        is_descriptor(device_descriptor_spec(), USB_DEVICE_DESCRIPTOR),
        is_descriptor(device_qualifier_spec(), USB_DEVICE_QUALIFIER),
        is_descriptor(string0_spec(), USB_STRING_DESCRIPTOR),
        is_descriptor(string_descriptor_spec(string1_text()), USB_STRING_DESCRIPTOR),
        is_descriptor(string_descriptor_spec(string2_text()), USB_STRING_DESCRIPTOR),
        is_descriptor(string_descriptor_spec(string3_text()), USB_STRING_DESCRIPTOR),
{
}

/// The configuration descriptor announces a total length that covers exactly
/// the configuration header, its interfaces and the endpoints that interface 0
/// declares, and those sub-descriptors follow each other with their own
/// lengths and types.
pub proof fn lemma_configuration_layout()
    ensures
        ({
            let c = configuration_descriptor_spec();
            let total = le16(c[2], c[3]);
            &&& c[0] == USB_CFG_LENGTH && c[1] == USB_CONFIGURATION_DESCRIPTOR
            &&& total == USB_CFG_LENGTH + USB_IF_LENGTH * c[4] + USB_EP_LENGTH * c[13]
            &&& total <= c.len()
            &&& c[9] == USB_IF_LENGTH && c[10] == USB_INTERFACE_DESCRIPTOR
            &&& c[18] == USB_EP_LENGTH && c[19] == USB_ENDPOINT_DESCRIPTOR
            &&& c[25] == USB_EP_LENGTH && c[26] == USB_ENDPOINT_DESCRIPTOR
            &&& total == 25 + c[25]
        }),
{
}

} // verus!
