//! The USB device controller: endpoint set-up, control transfers (descriptor
//! requests) on endpoint 0 and bulk data transfers on endpoint 1.
//!
//! The controller's registers, and the DMA descriptors and buffers it reads
//! and writes in memory, belong to the hardware layer. Each routine here
//! takes the words that the hardware layer read for it and returns the
//! register program to run; the transfer bookkeeping lives in
//! [`UsbReceiveBuffers`].
use crate::cache;
use crate::descr::{
    configuration_descriptor_spec, data_usb_configuration_descriptor, data_usb_device_descriptor,
    data_usb_device_qualifier, data_usb_string_descriptor_0, data_usb_string_descriptor_1,
    data_usb_string_descriptor_2, data_usb_string_descriptor_3, device_descriptor_spec,
    device_qualifier_spec, hb16, lb16, le16, string0_spec, string1_text, string2_text, string3_text,
    string_descriptor_spec,
};
use crate::regs::{
    emit, emit_modify, emit_write, fadd, field_is_set, field_mask, field_read, field_read_spec,
    field_value, fval, prog, FieldBits, Op, RegOp,
};
use vstd::prelude::*;

verus! {

// ---------------------------------------------------------------------------
// Register map
// ---------------------------------------------------------------------------

/// Base address of the USB device controller.
pub const USBDC_BASE: u32 = 0xe000_6000;

/// Base address of the reset and clock unit.
pub const RCT_BASE: u32 = 0xec17_0000;

pub const RCT_ANA_PWR: u32 = RCT_BASE + 0x50;
pub const RCT_UDC_SOFT_RESET: u32 = RCT_BASE + 0x2cc;

/// Device registers.
pub const USB_DEV_BASE: u32 = USBDC_BASE + 0x400;
pub const USB_DEV_CFG: u32 = USB_DEV_BASE + 0x00;
pub const USB_DEV_CTRL: u32 = USB_DEV_BASE + 0x04;
pub const USB_DEV_STS: u32 = USB_DEV_BASE + 0x08;
pub const USB_DEV_INTR: u32 = USB_DEV_BASE + 0x0c;
pub const USB_DEV_INTR_MSK: u32 = USB_DEV_BASE + 0x10;
pub const USB_DEV_EP_INTR: u32 = USB_DEV_BASE + 0x14;
pub const USB_DEV_EP_INTR_MSK: u32 = USB_DEV_BASE + 0x18;

/// Offsets in an endpoint's register block.
pub const EP_CTRL: u32 = 0x00;
pub const EP_STS: u32 = 0x04;
pub const EP_BUF_SZ: u32 = 0x08;
pub const EP_MAX_PKT_SZ: u32 = 0x0c;
pub const EP_SETUP_BUF_PTR: u32 = 0x10;
pub const EP_DAT_DESC_PTR: u32 = 0x14;

/// Offsets in a DMA descriptor (data descriptor or setup packet) in memory.
pub const DESC_STATUS: u32 = 0x0;
pub const DESC_RESERVED: u32 = 0x4;
pub const DESC_DATA_PTR: u32 = 0x8;
pub const DESC_NEXT_PTR: u32 = 0xc;
pub const SETUP_DATA0: u32 = 0x8;
pub const SETUP_DATA1: u32 = 0xc;

/// Bytes in an endpoint's DMA buffer.
pub const DMA_BUF_LEN: usize = 512;

/// The register block of IN endpoint `ep`.
pub open spec fn ep_in_base(ep: int) -> u32 {
    (USBDC_BASE + 0x20 * ep) as u32
}

/// The register block of OUT endpoint `ep`.
pub open spec fn ep_out_base(ep: int) -> u32 {
    (USBDC_BASE + 0x200 + 0x20 * ep) as u32
}

/// The UDC configuration register of the endpoint with index `idx`.
pub open spec fn udc_reg(idx: int) -> u32 {
    (USBDC_BASE + 0x504 + 4 * idx) as u32
}

/// The register block of IN endpoint `ep_num`.
pub fn usb_ep_in_registers(ep_num: usize) -> (a: u32)
    requires
        USBDC_BASE + 0x20 * ep_num <= u32::MAX,
    ensures
        a == ep_in_base(ep_num as int),
{
    USBDC_BASE + 0x20 * (ep_num as u32)
}

/// The register block of OUT endpoint `ep_num`.
pub fn usb_ep_out_registers(ep_num: usize) -> (a: u32)
    requires
        USBDC_BASE + 0x200 + 0x20 * ep_num <= u32::MAX,
    ensures
        a == ep_out_base(ep_num as int),
{
    USBDC_BASE + 0x200 + 0x20 * (ep_num as u32)
}

/// The device register block.
pub fn usb_dev_registers() -> (a: u32)
    ensures
        a == USB_DEV_BASE,
{
    USB_DEV_BASE
}

/// The UDC configuration register of the endpoint with index `ep_num`.
pub fn usb_udc_register(ep_num: usize) -> (a: u32)
    requires
        USBDC_BASE + 0x504 + 4 * ep_num <= u32::MAX,
    ensures
        a == udc_reg(ep_num as int),
{
    USBDC_BASE + 0x504 + 4 * (ep_num as u32)
}

/// The reset and clock unit.
pub fn rct_registers() -> (a: u32)
    ensures
        a == RCT_BASE,
{
    RCT_BASE
}

// ---------------------------------------------------------------------------
// Register words
// ---------------------------------------------------------------------------

/// 1 for `true`, 0 for `false`.
pub open spec fn bit(b: bool) -> u32 {
    if b {
        1
    } else {
        0
    }
}

/// A single-bit field at `shift` set to `b`.
fn flag(shift: usize, b: bool) -> (r: FieldBits)
    requires
        shift < 32,
    ensures
        r.wf(),
        r.mask == field_mask(1, shift),
        r.value == field_value(1, shift, bit(b)),
{
    fval(1, shift, if b {
        1
    } else {
        0
    })
}

/// Direction of an endpoint, seen from the host.
#[derive(PartialEq, Eq, Structural, Clone, Copy, Debug)]
pub enum Direction {
    In,
    Out,
}

/// Link speed.
#[derive(PartialEq, Eq, Structural, Clone, Copy, Debug)]
pub enum UsbSpeed {
    Hs,
    _Fs,
    _Ls,
    _Fs48,
}

/// Transfer type of an endpoint.
#[derive(PartialEq, Eq, Structural, Clone, Copy, Debug)]
pub enum EndpointType {
    Ctrl,
    Iso,
    Bulk,
    Intr,
}

/// The two-bit code of a transfer type in the endpoint control register.
pub open spec fn ep_type_code(t: EndpointType) -> u32 {
    match t {
        EndpointType::Ctrl => 0,
        EndpointType::Iso => 1,
        EndpointType::Bulk => 2,
        EndpointType::Intr => 3,
    }
}

/// The endpoint control word that selects transfer type `t` (`USB_EP_TYPE`).
pub open spec fn ep_ctrl_type_value(t: EndpointType) -> u32 {
    field_value(3, 4, ep_type_code(t))
}

/// Descriptor status word: buffer ready for the DMA engine, last descriptor,
/// `len` bytes to transfer.
pub open spec fn desc_status_ready(len: u32) -> u32 {
    field_value(3, 30, 0) | field_value(1, 27, 1) | field_value(0xffff, 0, len)
}

/// Descriptor status word: DMA done, last descriptor.
pub open spec fn desc_status_done() -> u32 {
    field_value(3, 30, 2) | field_value(1, 27, 1)
}

/// The buffer status of a descriptor status word (`USB_DMA_BUF_STS`).
pub open spec fn desc_buf_sts(status: u32) -> u32 {
    field_read_spec(3, 30, status)
}

/// The byte count of a descriptor status word (`USB_DMA_RXTX_BYTES`).
pub open spec fn desc_bytes(status: u32) -> u32 {
    field_read_spec(0xffff, 0, status)
}

/// Buffer status "DMA done".
pub const DMA_DONE: u32 = 2;

/// The `USB_DMA_BUF_STS` / `USB_DMA_LAST` / `USB_DMA_RXTX_BYTES` word of a
/// descriptor handed to the DMA engine.
fn desc_ready_word(len: u32) -> (w: u32)
    ensures
        w == desc_status_ready(len),
{
    fadd(fadd(fval(3, 30, 0), fval(1, 27, 1)), fval(0xffff, 0, len)).value
}

/// The endpoint-interrupt status bits of the endpoint status register.
pub open spec fn sts_bit(shift: usize) -> u32 {
    field_mask(1, shift)
}

pub const STS_OUT_PKT: usize = 4;
pub const STS_OUT_SETUP: usize = 5;
pub const STS_IN_PKT: usize = 6;
pub const STS_BUF_NOT_AVAIL: usize = 7;
pub const STS_HOST_ERR: usize = 9;
pub const STS_TRN_DMA_CMPL: usize = 10;
pub const STS_TXFIFO_EMPTY: usize = 27;

// ---------------------------------------------------------------------------
// Setup requests
// ---------------------------------------------------------------------------

/// The standard device requests.
#[derive(PartialEq, Eq, Structural, Clone, Copy, Debug)]
pub enum SetupRequest {
    GetStatus,
    ClearFeature,
    SetFeature,
    SetAddress,
    GetDescriptor,
    SetDescriptor,
    GetConfiguration,
    SetConfiguration,
    GetInterface,
    SetInterface,
    SynchFrame,
    Unsupported,
}

/// The request with code `num`.
pub open spec fn setup_request_of(num: u32) -> SetupRequest {
    if num == 0 {
        SetupRequest::GetStatus
    } else if num == 1 {
        SetupRequest::ClearFeature
    } else if num == 3 {
        SetupRequest::SetFeature
    } else if num == 5 {
        SetupRequest::SetAddress
    } else if num == 6 {
        SetupRequest::GetDescriptor
    } else if num == 7 {
        SetupRequest::SetDescriptor
    } else if num == 8 {
        SetupRequest::GetConfiguration
    } else if num == 9 {
        SetupRequest::SetConfiguration
    } else if num == 10 {
        SetupRequest::GetInterface
    } else if num == 11 {
        SetupRequest::SetInterface
    } else if num == 12 {
        SetupRequest::SynchFrame
    } else {
        SetupRequest::Unsupported
    }
}

/// The code of a request.
pub open spec fn setup_request_code(r: SetupRequest) -> u32 {
    match r {
        SetupRequest::GetStatus => 0,
        SetupRequest::ClearFeature => 1,
        SetupRequest::SetFeature => 3,
        SetupRequest::SetAddress => 5,
        SetupRequest::GetDescriptor => 6,
        SetupRequest::SetDescriptor => 7,
        SetupRequest::GetConfiguration => 8,
        SetupRequest::SetConfiguration => 9,
        SetupRequest::GetInterface => 10,
        SetupRequest::SetInterface => 11,
        SetupRequest::SynchFrame => 12,
        SetupRequest::Unsupported => 100,
    }
}

impl SetupRequest {
    /// The request's code.
    pub fn code(&self) -> (c: u32)
        ensures
            c == setup_request_code(*self),
    {
        match self {
            SetupRequest::GetStatus => 0,
            SetupRequest::ClearFeature => 1,
            SetupRequest::SetFeature => 3,
            SetupRequest::SetAddress => 5,
            SetupRequest::GetDescriptor => 6,
            SetupRequest::SetDescriptor => 7,
            SetupRequest::GetConfiguration => 8,
            SetupRequest::SetConfiguration => 9,
            SetupRequest::GetInterface => 10,
            SetupRequest::SetInterface => 11,
            SetupRequest::SynchFrame => 12,
            SetupRequest::Unsupported => 100,
        }
    }
}

impl From<u32> for SetupRequest {
    fn from(num: u32) -> (r: Self) {
        match num {
            0 => SetupRequest::GetStatus,
            1 => SetupRequest::ClearFeature,
            3 => SetupRequest::SetFeature,
            5 => SetupRequest::SetAddress,
            6 => SetupRequest::GetDescriptor,
            7 => SetupRequest::SetDescriptor,
            8 => SetupRequest::GetConfiguration,
            9 => SetupRequest::SetConfiguration,
            10 => SetupRequest::GetInterface,
            11 => SetupRequest::SetInterface,
            12 => SetupRequest::SynchFrame,
            _ => SetupRequest::Unsupported,
        }
    }
}

impl vstd::std_specs::convert::FromSpecImpl<u32> for SetupRequest {
    open spec fn obeys_from_spec() -> bool {
        true
    }

    open spec fn from_spec(num: u32) -> SetupRequest {
        setup_request_of(num)
    }
}

/// A supported request's code reads back as that request, and every code
/// that is not a standard request reads as `Unsupported`.
pub proof fn lemma_setup_request_roundtrip(r: SetupRequest, num: u32)
    ensures
        r != SetupRequest::Unsupported ==> setup_request_of(setup_request_code(r)) == r,
        setup_request_of(num) != SetupRequest::Unsupported ==> setup_request_code(
            setup_request_of(num),
        ) == num,
{
}

// ---------------------------------------------------------------------------
// Transfer bookkeeping
// ---------------------------------------------------------------------------

/// The buffers of one bulk transfer: where received data goes, what is to be
/// sent, and how far each has got.
pub struct UsbReceiveBuffers {
    pub data_read_buffer: Option<Vec<u8>>,
    pub data_write_buffer: Option<Vec<u8>>,
    pub data_read_index: usize,
    pub data_write_index: usize,
    pub data_read_done: bool,
    pub data_write_done: bool,
}

impl UsbReceiveBuffers {
    /// The indices stay within their buffers, and a finished read has filled
    /// its buffer.
    pub open spec fn wf(&self) -> bool {
        &&& (self.data_read_buffer matches Some(b) ==> self.data_read_index <= b@.len())
        &&& (self.data_write_buffer matches Some(b) ==> self.data_write_index <= b@.len())
        &&& (self.data_read_done && self.data_read_buffer is Some ==> self.data_read_index
            == self.data_read_buffer->0@.len())
    }

    /// Bytes still to be received.
    pub open spec fn read_pending(&self) -> bool {
        match self.data_read_buffer {
            Some(b) => self.data_read_index < b@.len(),
            None => false,
        }
    }

    /// No transfer in either direction.
    pub fn new() -> (r: Self)
        ensures
            r.wf(),
            r.data_read_buffer is None,
            r.data_write_buffer is None,
            r.data_read_index == 0,
            r.data_write_index == 0,
            r.data_read_done,
            r.data_write_done,
    {
        UsbReceiveBuffers {
            data_read_buffer: None,
            data_write_buffer: None,
            data_read_index: 0,
            data_write_index: 0,
            data_read_done: true,
            data_write_done: true,
        }
    }

    /// Start receiving into `buf`; the previous read buffer is handed back.
    pub fn set_data_read_buffer(&mut self, buf: Option<Vec<u8>>) -> (previous: Option<Vec<u8>>)
        ensures
            old(self).wf() ==> final(self).wf(),
            previous == old(self).data_read_buffer,
            final(self).data_read_buffer == buf,
            final(self).data_read_index == 0,
            !final(self).data_read_done,
            final(self).data_write_buffer == old(self).data_write_buffer,
            final(self).data_write_index == old(self).data_write_index,
            final(self).data_write_done == old(self).data_write_done,
    {
        let old = self.data_read_buffer.take();
        self.data_read_buffer = buf;
        self.data_read_index = 0;
        self.data_read_done = false;
        old
    }

    /// Start sending `buf`; the previous write buffer is handed back.
    pub fn set_data_write_buffer(&mut self, buf: Option<Vec<u8>>) -> (previous: Option<Vec<u8>>)
        ensures
            old(self).wf() ==> final(self).wf(),
            previous == old(self).data_write_buffer,
            final(self).data_write_buffer == buf,
            final(self).data_write_index == 0,
            !final(self).data_write_done,
            final(self).data_read_buffer == old(self).data_read_buffer,
            final(self).data_read_index == old(self).data_read_index,
            final(self).data_read_done == old(self).data_read_done,
    {
        let old = self.data_write_buffer.take();
        self.data_write_buffer = buf;
        self.data_write_index = 0;
        self.data_write_done = false;
        old
    }

    /// Whether the read buffer still waits for bytes.
    pub fn need_more_read(&self) -> (r: bool)
        ensures
            r == self.read_pending(),
    {
        match &self.data_read_buffer {
            None => false,
            Some(v) => v.len() > self.data_read_index,
        }
    }

    /// Whether both transfers are over.
    pub fn is_done(&self) -> (r: bool)
        ensures
            r == (self.data_read_done && self.data_write_done),
    {
        self.data_read_done && self.data_write_done
    }
}

// ---------------------------------------------------------------------------
// Endpoints
// ---------------------------------------------------------------------------

/// Memory that an endpoint shares with the DMA engine, by address: its setup
/// packet (used on the control OUT endpoint), its data descriptor and its
/// 512-byte data buffer.
#[derive(Clone, Copy, Debug)]
pub struct EndpointMemory {
    pub setup_pkt: u32,
    pub data_desc: u32,
    pub dma_buf: u32,
}

/// One endpoint of the device.
#[derive(Clone, Copy, Debug)]
pub struct Endpoint {
    pub index: usize,
    pub ep_num: usize,
    pub direction: Direction,
    pub speed: UsbSpeed,
    pub ep_type: EndpointType,
    pub mem: EndpointMemory,
}

/// The register block of an endpoint.
pub open spec fn ep_base(ep: Endpoint) -> u32 {
    match ep.direction {
        Direction::In => ep_in_base(ep.ep_num as int),
        Direction::Out => ep_out_base(ep.ep_num as int),
    }
}

/// An endpoint's control register.
pub open spec fn ctrl_reg(ep: Endpoint) -> u32 {
    ep_base(ep)
}

/// An endpoint's status register.
pub open spec fn sts_reg(ep: Endpoint) -> u32 {
    (ep_base(ep) + EP_STS) as u32
}

/// Setting (`stall`) or clearing the stall bit `USB_EP_STALL` (bit 0) of the
/// endpoint's control register; the other bits stay as they are.
pub open spec fn set_stall_prog(ep: Endpoint, stall: bool) -> Seq<Op> {
    seq![Op::Modify { addr: ctrl_reg(ep), clear: field_mask(1, 0), set: field_value(1, 0, bit(stall)) }]
}

/// Setting NAK (`nak`) or clearing it (`!nak`).
pub open spec fn set_nak_prog(ep: Endpoint, nak: bool) -> Seq<Op> {
    seq![
        Op::Modify {
            addr: ctrl_reg(ep),
            clear: field_mask(1, 7) | field_mask(1, 8),
            set: field_value(1, 7, bit(nak)) | field_value(1, 8, bit(!nak)),
        },
    ]
}

/// Enabling receive DMA in the device control register.
pub open spec fn rcv_dma_en_prog() -> Seq<Op> {
    seq![Op::Modify { addr: USB_DEV_CTRL, clear: field_mask(1, 2), set: field_value(1, 2, 1) }]
}

/// Sending `len` bytes of the endpoint's buffer: the descriptor is pointed at
/// the buffer and handed to the DMA engine, NAK is cleared and the endpoint
/// polled.
pub open spec fn start_tx_prog(ep: Endpoint, len: u32) -> Seq<Op> {
    seq![
        Op::Write { addr: (ep.mem.data_desc + DESC_DATA_PTR) as u32, value: ep.mem.dma_buf },
        Op::Write { addr: ep.mem.data_desc, value: desc_status_ready(len) },
    ] + set_nak_prog(ep, false) + seq![
        Op::Modify { addr: ctrl_reg(ep), clear: field_mask(1, 3), set: field_value(1, 3, 1) },
    ]
}

/// Receiving up to a buffer's worth of bytes into the endpoint's buffer.
pub open spec fn start_rx_prog(ep: Endpoint) -> Seq<Op> {
    seq![
        Op::Write { addr: (ep.mem.data_desc + DESC_DATA_PTR) as u32, value: ep.mem.dma_buf },
        Op::Write { addr: ep.mem.data_desc, value: desc_status_ready(DMA_BUF_LEN as u32) },
    ] + rcv_dma_en_prog() + set_nak_prog(ep, false)
}

/// Initialising the data descriptor: done, last, pointing at the buffer, and
/// with its next-descriptor pointer holding the descriptor's own address, so
/// that the chain the DMA engine follows is this one descriptor.
pub open spec fn data_desc_init_prog(ep: Endpoint) -> Seq<Op> {
    seq![
        Op::Write { addr: ep.mem.data_desc, value: desc_status_done() },
        Op::Write { addr: (ep.mem.data_desc + DESC_RESERVED) as u32, value: 0xffff_ffff },
        Op::Write { addr: (ep.mem.data_desc + DESC_DATA_PTR) as u32, value: ep.mem.dma_buf },
        Op::Write { addr: (ep.mem.data_desc + DESC_NEXT_PTR) as u32, value: ep.mem.data_desc },
    ]
}

/// Re-arming the setup packet buffer and pointing the endpoint at it.
pub open spec fn setup_pkt_init_prog(ep: Endpoint) -> Seq<Op> {
    seq![
        Op::Write { addr: ep.mem.setup_pkt, value: field_value(3, 30, 0) },
        Op::Write { addr: (ep.mem.setup_pkt + DESC_RESERVED) as u32, value: 0xffff_ffff },
        Op::Write { addr: (ep.mem.setup_pkt + SETUP_DATA0) as u32, value: 0xdead_beef },
        Op::Write { addr: (ep.mem.setup_pkt + SETUP_DATA1) as u32, value: 0xffff_ffff },
        Op::Write { addr: (ep_base(ep) + EP_SETUP_BUF_PTR) as u32, value: ep.mem.setup_pkt },
    ]
}

/// The UDC configuration word of an endpoint: number, direction, control type
/// for endpoint 0 and bulk otherwise, configuration 1, 64-byte packets.
pub open spec fn udc_word(ep: Endpoint) -> u32 {
    field_value(7, 0, ep.ep_num as u32) | field_value(1, 4, bit(ep.direction == Direction::In))
        | field_value(3, 5, if ep.ep_num == 0 { 0 } else { 2 }) | field_value(1, 7, 1)
        | field_value(0x1fff, 19, 64)
}

/// Setting up an IN endpoint.
pub open spec fn init_in_prog(ep: Endpoint) -> Seq<Op> {
    seq![
        Op::Write { addr: ctrl_reg(ep), value: ep_ctrl_type_value(ep.ep_type) },
        Op::Write {
            addr: (ep_base(ep) + EP_BUF_SZ) as u32,
            value: if ep.index == 0 { 16u32 } else { 128u32 },
        },
        Op::Write { addr: (ep_base(ep) + EP_MAX_PKT_SZ) as u32, value: field_value(0xffff, 0, 64) },
    ] + data_desc_init_prog(ep) + seq![
        Op::Write { addr: (ep_base(ep) + EP_DAT_DESC_PTR) as u32, value: ep.mem.data_desc },
    ]
}

/// Setting up an OUT endpoint; control endpoint 0 also gets its setup packet.
pub open spec fn init_out_prog(ep: Endpoint) -> Seq<Op> {
    seq![
        Op::Write { addr: ctrl_reg(ep), value: ep_ctrl_type_value(ep.ep_type) },
        Op::Write { addr: (ep_base(ep) + EP_MAX_PKT_SZ) as u32, value: field_value(0xffff, 0, 64) },
    ] + (if ep.ep_type == EndpointType::Ctrl && ep.ep_num == 0 {
        setup_pkt_init_prog(ep)
    } else {
        Seq::empty()
    }) + data_desc_init_prog(ep) + seq![
        Op::Write { addr: (ep_base(ep) + EP_DAT_DESC_PTR) as u32, value: ep.mem.data_desc },
    ]
}

/// Setting an endpoint up according to its direction.
pub open spec fn init_endpoint_prog(ep: Endpoint) -> Seq<Op> {
    match ep.direction {
        Direction::In => init_in_prog(ep),
        Direction::Out => init_out_prog(ep),
    }
}

impl Endpoint {
    /// Register blocks and memory stay within the 32-bit address space.
    pub open spec fn wf(&self) -> bool {
        &&& USBDC_BASE + 0x504 + 4 * self.index <= u32::MAX
        &&& USBDC_BASE + 0x200 + 0x20 * self.ep_num + 0x20 <= 0x1_0000_0000
        &&& self.mem.setup_pkt <= 0xffff_fff0
        &&& self.mem.data_desc <= 0xffff_fff0
        &&& self.mem.dma_buf <= 0xffff_fdff
    }

    /// An endpoint with its shared memory at `mem`.
    pub fn new(
        index: usize,
        ep_num: usize,
        direction: Direction,
        speed: UsbSpeed,
        ep_type: EndpointType,
        mem: EndpointMemory,
    ) -> (r: Self)
        ensures
            r == (Endpoint { index, ep_num, direction, speed, ep_type, mem }),
    {
        Endpoint { index: index, ep_num: ep_num, direction: direction, speed: speed, ep_type: ep_type, mem: mem }
    }

    /// The IN register block, for an IN endpoint.
    pub fn in_regs(&self) -> (r: Option<u32>)
        requires
            self.wf(),
        ensures
            r == (if self.direction == Direction::In {
                Some(ep_in_base(self.ep_num as int))
            } else {
                None::<u32>
            }),
    {
        match self.direction {
            Direction::In => Some(usb_ep_in_registers(self.ep_num)),
            Direction::Out => None,
        }
    }

    /// The OUT register block, for an OUT endpoint.
    pub fn out_regs(&self) -> (r: Option<u32>)
        requires
            self.wf(),
        ensures
            r == (if self.direction == Direction::Out {
                Some(ep_out_base(self.ep_num as int))
            } else {
                None::<u32>
            }),
    {
        match self.direction {
            Direction::In => None,
            Direction::Out => Some(usb_ep_out_registers(self.ep_num)),
        }
    }

    /// The endpoint's register block, whatever its direction.
    fn regs(&self) -> (r: u32)
        requires
            self.wf(),
        ensures
            r == ep_base(*self),
            r + 0x20 <= 0x1_0000_0000,
    {
        match self.direction {
            Direction::In => usb_ep_in_registers(self.ep_num),
            Direction::Out => usb_ep_out_registers(self.ep_num),
        }
    }

    /// Stall the endpoint (`stall`) or lift the stall.
    pub fn set_endpoint_stall(&self, stall: bool, ops: &mut Vec<RegOp>)
        requires
            self.wf(),
        ensures
            prog(final(ops)@) == prog(old(ops)@) + set_stall_prog(*self, stall),
    {
        let base = self.regs();
        emit_modify(ops, base + EP_CTRL, flag(0, stall));
        assert(prog(ops@) =~= prog(old(ops)@) + set_stall_prog(*self, stall));
    }

    /// Make the endpoint answer NAK (`nak`) or accept transfers (`!nak`).
    pub fn set_endpoint_nak(&self, nak: bool, ops: &mut Vec<RegOp>)
        requires
            self.wf(),
        ensures
            prog(final(ops)@) == prog(old(ops)@) + set_nak_prog(*self, nak),
    {
        let base = self.regs();
        emit_modify(ops, base + EP_CTRL, fadd(flag(7, nak), flag(8, !nak)));
        assert(prog(ops@) =~= prog(old(ops)@) + set_nak_prog(*self, nak));
    }

    /// Send the first `len` bytes of the endpoint's buffer.
    pub fn start_tx(&self, len: u32, ops: &mut Vec<RegOp>)
        requires
            self.wf(),
            self.direction == Direction::In,
        ensures
            prog(final(ops)@) == prog(old(ops)@) + start_tx_prog(*self, len),
    {
        let ghost start = prog(ops@);
        emit_write(ops, self.mem.data_desc + DESC_DATA_PTR, self.mem.dma_buf);
        cache::clean_d_cache(&self.mem);
        emit_write(ops, self.mem.data_desc + DESC_STATUS, desc_ready_word(len));
        cache::clean_d_cache(&self.mem);
        let regs_ep_in = self.in_regs().unwrap();
        self.set_endpoint_nak(false, ops);
        emit_modify(ops, regs_ep_in + EP_CTRL, fval(1, 3, 1));
        assert(prog(ops@) =~= start + start_tx_prog(*self, len));
    }

    /// Receive into the endpoint's buffer.
    pub fn start_rx(&self, ops: &mut Vec<RegOp>)
        requires
            self.wf(),
        ensures
            prog(final(ops)@) == prog(old(ops)@) + start_rx_prog(*self),
    {
        let ghost start = prog(ops@);
        emit_write(ops, self.mem.data_desc + DESC_DATA_PTR, self.mem.dma_buf);
        emit_write(ops, self.mem.data_desc + DESC_STATUS, desc_ready_word(DMA_BUF_LEN as u32));
        cache::clean_d_cache(&self.mem);
        let usb_dev_regs = usb_dev_registers();
        emit_modify(ops, usb_dev_regs + 0x04, fval(1, 2, 1));
        self.set_endpoint_nak(false, ops);
        assert(prog(ops@) =~= start + start_rx_prog(*self));
    }

    /// Initialise the data descriptor.
    fn initialize_data_desc(&self, ops: &mut Vec<RegOp>)
        requires
            self.wf(),
        ensures
            prog(final(ops)@) == prog(old(ops)@) + data_desc_init_prog(*self),
    {
        let ghost start = prog(ops@);
        let desc = self.mem.data_desc;
        emit_write(ops, desc + DESC_STATUS, fadd(fval(3, 30, DMA_DONE), fval(1, 27, 1)).value);
        emit_write(ops, desc + DESC_RESERVED, 0xffff_ffff);
        emit_write(ops, desc + DESC_DATA_PTR, self.mem.dma_buf);
        emit_write(ops, desc + DESC_NEXT_PTR, desc);
        cache::clean_d_cache(&self.mem);
        assert(prog(ops@) =~= start + data_desc_init_prog(*self));
    }

    /// Re-arm the setup packet buffer of a control OUT endpoint.
    pub fn initialize_setup_pkt(&self, ops: &mut Vec<RegOp>)
        requires
            self.wf(),
            self.direction == Direction::Out,
        ensures
            prog(final(ops)@) == prog(old(ops)@) + setup_pkt_init_prog(*self),
    {
        let ghost start = prog(ops@);
        let pkt = self.mem.setup_pkt;
        emit_write(ops, pkt + DESC_STATUS, fval(3, 30, 0).value);
        emit_write(ops, pkt + DESC_RESERVED, 0xffff_ffff);
        emit_write(ops, pkt + SETUP_DATA0, 0xdead_beef);
        emit_write(ops, pkt + SETUP_DATA1, 0xffff_ffff);
        cache::clean_d_cache(&self.mem);
        let regs_ep_out = self.out_regs().unwrap();
        emit_write(ops, regs_ep_out + EP_SETUP_BUF_PTR, pkt);
        assert(prog(ops@) =~= start + setup_pkt_init_prog(*self));
    }

    /// The control register word selecting the endpoint's transfer type.
    fn ctrl_type_word(&self) -> (w: u32)
        ensures
            w == ep_ctrl_type_value(self.ep_type),
    {
        let code: u32 = match self.ep_type {
            EndpointType::Ctrl => 0,
            EndpointType::Iso => 1,
            EndpointType::Bulk => 2,
            EndpointType::Intr => 3,
        };
        fval(3, 4, code).value
    }

    /// Set up an IN endpoint.
    pub fn init_in_endpoint(&self, ops: &mut Vec<RegOp>)
        requires
            self.wf(),
            self.direction == Direction::In,
        ensures
            prog(final(ops)@) == prog(old(ops)@) + init_in_prog(*self),
    {
        let ghost start = prog(ops@);
        let regs_ep_in = self.in_regs().unwrap();
        emit_write(ops, regs_ep_in + EP_CTRL, self.ctrl_type_word());
        // Internal buffer: 64 bytes for the control endpoint, 512 for bulk.
        if self.index == 0 {
            emit_write(ops, regs_ep_in + EP_BUF_SZ, 64 / 4);
        } else {
            emit_write(ops, regs_ep_in + EP_BUF_SZ, 512 / 4);
        }
        emit_write(ops, regs_ep_in + EP_MAX_PKT_SZ, fval(0xffff, 0, 64).value);
        self.initialize_data_desc(ops);
        emit_write(ops, regs_ep_in + EP_DAT_DESC_PTR, self.mem.data_desc);
        assert(prog(ops@) =~= start + init_in_prog(*self));
    }

    /// Set up an OUT endpoint.
    pub fn init_out_endpoint(&self, ops: &mut Vec<RegOp>)
        requires
            self.wf(),
            self.direction == Direction::Out,
        ensures
            prog(final(ops)@) == prog(old(ops)@) + init_out_prog(*self),
    {
        let ghost start = prog(ops@);
        let regs_ep_out = self.out_regs().unwrap();
        emit_write(ops, regs_ep_out + EP_CTRL, self.ctrl_type_word());
        emit_write(ops, regs_ep_out + EP_MAX_PKT_SZ, fval(0xffff, 0, 64).value);
        // The control OUT endpoint 0 receives setup packets.
        if self.ep_type == EndpointType::Ctrl && self.ep_num == 0 {
            self.initialize_setup_pkt(ops);
        }
        self.initialize_data_desc(ops);
        emit_write(ops, regs_ep_out + EP_DAT_DESC_PTR, self.mem.data_desc);
        assert(prog(ops@) =~= start + init_out_prog(*self));
    }

    /// Set the endpoint up according to its direction.
    pub fn init_endpoint(&self, ops: &mut Vec<RegOp>)
        requires
            self.wf(),
        ensures
            prog(final(ops)@) == prog(old(ops)@) + init_endpoint_prog(*self),
    {
        match self.direction {
            Direction::In => self.init_in_endpoint(ops),
            Direction::Out => self.init_out_endpoint(ops),
        }
    }

    /// Program the UDC configuration register of the endpoint.
    pub fn setup_udc(&self, ops: &mut Vec<RegOp>)
        requires
            self.wf(),
        ensures
            prog(final(ops)@) == prog(old(ops)@).push(Op::Write { addr: udc_reg(self.index as int), value: udc_word(*self) }),
    {
        let reg = usb_udc_register(self.index);
        let dir = flag(4, self.direction == Direction::In);
        let typ = if self.ep_num == 0 {
            fval(3, 5, 0)
        } else {
            fval(3, 5, 2)
        };
        let w = fadd(fadd(fadd(fadd(fval(7, 0, self.ep_num as u32), dir), typ), fval(1, 7, 1)), fval(0x1fff, 19, 64));
        emit_write(ops, reg, w.value);
    }
}

// ---------------------------------------------------------------------------
// Control transfers on endpoint 0
// ---------------------------------------------------------------------------

/// The descriptor that a GET_DESCRIPTOR request for type `typ` and index
/// `index` is answered with, if the device has one.
pub open spec fn descriptor_spec(typ: u8, index: u8) -> Option<Seq<u8>> {
    if typ == 1 {
        Some(device_descriptor_spec())
    } else if typ == 2 {
        Some(configuration_descriptor_spec())
    } else if typ == 3 {
        if index == 0 {
            Some(string0_spec())
        } else if index == 1 {
            Some(string_descriptor_spec(string1_text()))
        } else if index == 2 {
            Some(string_descriptor_spec(string2_text()))
        } else if index == 3 {
            Some(string_descriptor_spec(string3_text()))
        } else {
            None
        }
    } else if typ == 6 {
        Some(device_qualifier_spec())
    } else {
        None
    }
}

/// The descriptor of type `typ` and index `index`.
pub fn descriptor_for(typ: u8, index: u8) -> (r: Option<Vec<u8>>)
    ensures
        r is Some <==> descriptor_spec(typ, index) is Some,
        r matches Some(d) ==> d@ == descriptor_spec(typ, index)->0,
        r matches Some(d) ==> d@.len() <= DMA_BUF_LEN,
{
    proof {
        crate::descr::lemma_descriptors_self_describing();
    }
    match typ {
        1 => Some(data_usb_device_descriptor()),
        2 => Some(data_usb_configuration_descriptor()),
        3 => match index {
            0 => Some(data_usb_string_descriptor_0()),
            1 => Some(data_usb_string_descriptor_1()),
            2 => Some(data_usb_string_descriptor_2()),
            3 => Some(data_usb_string_descriptor_3()),
            _ => None,
        },
        6 => Some(data_usb_device_qualifier()),
        _ => None,
    }
}

/// The bytes `v[start..start + len]` as a vector of their own.
fn copy_range(v: &Vec<u8>, start: usize, len: usize) -> (r: Vec<u8>)
    requires
        start + len <= v@.len(),
    ensures
        r@ == v@.subrange(start as int, start + len),
{
    let total = v.len();
    let mut r: Vec<u8> = Vec::new();
    let mut k: usize = 0;
    while k < len
        invariant
            k <= len,
            total == v@.len(),
            start + len <= v@.len(),
            r@ == v@.subrange(start as int, start + k),
        decreases len - k,
    {
        r.push(v[start + k]);
        k = k + 1;
        assert(r@ =~= v@.subrange(start as int, start + k));
    }
    r
}

/// The 8 bytes of a setup packet held by its two little-endian words.
pub open spec fn setup_bytes(d0: u32, d1: u32) -> Seq<u8> {
    seq![
        (d0 % 0x100) as u8,
        (d0 / 0x100 % 0x100) as u8,
        (d0 / 0x1_0000 % 0x100) as u8,
        (d0 / 0x100_0000) as u8,
        (d1 % 0x100) as u8,
        (d1 / 0x100 % 0x100) as u8,
        (d1 / 0x1_0000 % 0x100) as u8,
        (d1 / 0x100_0000) as u8,
    ]
}

/// The setup packet held by the two words of the setup buffer.
pub fn setup_packet(d0: u32, d1: u32) -> (pkt: [u8; 8])
    ensures
        pkt@ == setup_bytes(d0, d1),
{
    let pkt: [u8; 8] = [
        (d0 % 0x100) as u8,
        (d0 / 0x100 % 0x100) as u8,
        (d0 / 0x1_0000 % 0x100) as u8,
        (d0 / 0x100_0000) as u8,
        (d1 % 0x100) as u8,
        (d1 / 0x100 % 0x100) as u8,
        (d1 / 0x1_0000 % 0x100) as u8,
        (d1 / 0x100_0000) as u8,
    ];
    assert(pkt@ =~= setup_bytes(d0, d1));
    pkt
}

/// A little-endian 16-bit field of a packet.
fn le_u16(lo: u8, hi: u8) -> (r: u16)
    ensures
        r == le16(lo, hi),
{
    lo as u16 + (hi as u16) * 256
}

/// Answering a GET_DESCRIPTOR request `pkt` received on control endpoint
/// `out`: the descriptor named by the high (type) and low (index) bytes of
/// `wValue`, cut to `wLength` bytes, goes out on `ep_in` and `out` is re-armed
/// for the status stage; a request for a descriptor the device lacks stalls
/// `ep_in`.
pub open spec fn get_descriptor_prog(out: Endpoint, ep_in: Endpoint, pkt: Seq<u8>) -> Seq<Op> {
    let w_length = le16(pkt[6], pkt[7]);
    match descriptor_spec(pkt[3], pkt[2]) {
        None => set_stall_prog(ep_in, true),
        Some(d) => {
            let n = if w_length < d.len() {
                w_length
            } else {
                d.len() as int
            };
            seq![Op::Fill { addr: ep_in.mem.dma_buf, bytes: d.take(n) }] + start_tx_prog(
                ep_in,
                n as u32,
            ) + start_rx_prog(out)
        },
    }
}

/// What a setup packet held in words `d0`, `d1` is answered with; the setup
/// buffer is re-armed afterwards. Vendor requests are accepted and ignored.
pub open spec fn decode_request_prog(out: Endpoint, ep_in: Endpoint, d0: u32, d1: u32) -> Seq<Op> {
    let pkt = setup_bytes(d0, d1);
    (if pkt[0] == 0x80 && pkt[1] == 0x06 {
        get_descriptor_prog(out, ep_in, pkt)
    } else {
        Seq::empty()
    }) + setup_pkt_init_prog(out)
}

/// Whether an OUT packet on control endpoint 0 re-arms the setup buffer: an
/// empty transfer (the end of a setup), or a completed data transfer.
pub open spec fn ep0_out_rearms(desc_status: u32) -> bool {
    desc_bytes(desc_status) == 0 || desc_buf_sts(desc_status) == DMA_DONE
}

/// Handling an OUT packet on control endpoint 0.
pub open spec fn ep0_out_packet_prog(out: Endpoint, ep_in: Endpoint, desc_status: u32) -> Seq<Op> {
    if desc_bytes(desc_status) == 0 {
        setup_pkt_init_prog(out) + rcv_dma_en_prog()
    } else if desc_buf_sts(desc_status) == DMA_DONE {
        setup_pkt_init_prog(out) + rcv_dma_en_prog() + start_tx_prog(ep_in, 0)
    } else {
        Seq::empty()
    }
}

/// Acknowledging status bit `k` of endpoint `ep` if `sts` has it.
pub open spec fn ack_prog(ep: Endpoint, sts: u32, k: usize) -> Seq<Op> {
    if sts & sts_bit(k) != 0 {
        seq![Op::Write { addr: sts_reg(ep), value: field_value(1, k, 1) }]
    } else {
        Seq::empty()
    }
}

/// Handling an interrupt of control OUT endpoint 0 with status `sts`: an OUT
/// packet is acknowledged and handled, then a setup packet is acknowledged and
/// answered. The setup words are those read with the interrupt, unless the
/// OUT packet re-armed the setup buffer just before.
pub open spec fn ep0_out_interrupt_prog(out: Endpoint, ep_in: Endpoint, ev: EpEventView) -> Seq<Op> {
    let out_pkt = ev.sts & sts_bit(STS_OUT_PKT) != 0;
    let setup = ev.sts & sts_bit(STS_OUT_SETUP) != 0;
    let rearmed = out_pkt && ep0_out_rearms(ev.desc_status);
    let (d0, d1) = if rearmed {
        (0xdead_beefu32, 0xffff_ffffu32)
    } else {
        (ev.setup_data0, ev.setup_data1)
    };
    (if out_pkt {
        ack_prog(out, ev.sts, STS_OUT_PKT) + ep0_out_packet_prog(out, ep_in, ev.desc_status)
    } else {
        Seq::empty()
    }) + (if setup {
        ack_prog(out, ev.sts, STS_OUT_SETUP) + decode_request_prog(out, ep_in, d0, d1)
    } else {
        Seq::empty()
    })
}

/// Handling an interrupt of control IN endpoint 0: its status bits are
/// acknowledged.
pub open spec fn ep0_in_interrupt_prog(ep: Endpoint, sts: u32) -> Seq<Op> {
    ack_prog(ep, sts, STS_TRN_DMA_CMPL) + ack_prog(ep, sts, STS_IN_PKT) + ack_prog(
        ep,
        sts,
        STS_BUF_NOT_AVAIL,
    ) + ack_prog(ep, sts, STS_HOST_ERR)
}

/// What the hardware layer reads for an endpoint interrupt: the endpoint's
/// status register, and, in memory, its descriptor status, the two words of
/// its setup buffer and the contents of its DMA buffer.
pub struct EpEvent {
    pub sts: u32,
    pub desc_status: u32,
    pub setup_data0: u32,
    pub setup_data1: u32,
    pub dma_data: Vec<u8>,
}

/// An [`EpEvent`] with the buffer as a sequence.
pub struct EpEventView {
    pub sts: u32,
    pub desc_status: u32,
    pub setup_data0: u32,
    pub setup_data1: u32,
    pub dma_data: Seq<u8>,
}

impl View for EpEvent {
    type V = EpEventView;

    open spec fn view(&self) -> EpEventView {
        EpEventView {
            sts: self.sts,
            desc_status: self.desc_status,
            setup_data0: self.setup_data0,
            setup_data1: self.setup_data1,
            dma_data: self.dma_data@,
        }
    }
}

impl Endpoint {
    /// Answer a GET_DESCRIPTOR request received on this control endpoint.
    pub fn get_descriptor(&self, ep_in: &Endpoint, setup_pkt: &[u8; 8], ops: &mut Vec<RegOp>)
        requires
            self.wf(),
            ep_in.wf(),
            ep_in.direction == Direction::In,
        ensures
            prog(final(ops)@) == prog(old(ops)@) + get_descriptor_prog(*self, *ep_in, setup_pkt@),
    {
        let ghost start = prog(ops@);
        let w_value: u16 = le_u16(setup_pkt[2], setup_pkt[3]);
        let _w_index: u16 = le_u16(setup_pkt[4], setup_pkt[5]);
        let w_length: u16 = le_u16(setup_pkt[6], setup_pkt[7]);
        let typ: u8 = hb16(w_value);
        let index: u8 = lb16(w_value);
        let descriptor = descriptor_for(typ, index);
        match descriptor {
            None => {
                ep_in.set_endpoint_stall(true, ops);
            },
            Some(descriptor) => {
                let tx_size: usize = if (w_length as usize) < descriptor.len() {
                    w_length as usize
                } else {
                    descriptor.len()
                };
                let bytes = copy_range(&descriptor, 0, tx_size);
                assert(bytes@ =~= descriptor@.take(tx_size as int));
                emit(ops, RegOp::Fill { addr: ep_in.mem.dma_buf, bytes });
                ep_in.start_tx(tx_size as u32, ops);
                self.start_rx(ops);
            },
        }
        assert(prog(ops@) =~= start + get_descriptor_prog(*self, *ep_in, setup_pkt@));
    }

    /// The length of a vendor request's data stage, cut to one buffer. Vendor
    /// requests are otherwise ignored.
    pub fn handle_vendor_request(&self, ep_in: &Endpoint, setup_pkt: &[u8; 8]) -> (w_length: u16)
        ensures
            w_length == if le16(setup_pkt@[6], setup_pkt@[7]) < DMA_BUF_LEN {
                le16(setup_pkt@[6], setup_pkt@[7])
            } else {
                DMA_BUF_LEN as int
            },
    {
        let _w_value: u16 = le_u16(setup_pkt[2], setup_pkt[3]);
        let _w_index: u16 = le_u16(setup_pkt[4], setup_pkt[5]);
        let w_length = le_u16(setup_pkt[6], setup_pkt[7]);
        if w_length < DMA_BUF_LEN as u16 {
            w_length
        } else {
            DMA_BUF_LEN as u16
        }
    }

    /// Decode and answer the setup packet held in words `d0`, `d1` of the setup
    /// buffer, then re-arm the buffer.
    pub fn decode_request(&self, ep_in: &Endpoint, d0: u32, d1: u32, ops: &mut Vec<RegOp>)
        requires
            self.wf(),
            ep_in.wf(),
            self.direction == Direction::Out,
            ep_in.direction == Direction::In,
        ensures
            prog(final(ops)@) == prog(old(ops)@) + decode_request_prog(*self, *ep_in, d0, d1),
    {
        let ghost start = prog(ops@);
        let setup_pkt = setup_packet(d0, d1);
        if setup_pkt[0] == 0x80 && setup_pkt[1] == 0x06 {
            self.get_descriptor(ep_in, &setup_pkt, ops);
        } else if (setup_pkt[0] & 0x40) == 0x40 {
            let _ = self.handle_vendor_request(ep_in, &setup_pkt);
        }
        self.initialize_setup_pkt(ops);
        assert(prog(ops@) =~= start + decode_request_prog(*self, *ep_in, d0, d1));
    }

    /// A setup packet arrived on control endpoint 0.
    pub fn handle_ep0_setup_packet(&self, ep_in: &Endpoint, d0: u32, d1: u32, ops: &mut Vec<RegOp>)
        requires
            self.wf(),
            ep_in.wf(),
            self.direction == Direction::Out,
            ep_in.direction == Direction::In,
        ensures
            prog(final(ops)@) == prog(old(ops)@) + decode_request_prog(*self, *ep_in, d0, d1),
    {
        self.decode_request(ep_in, d0, d1, ops);
    }

    /// An OUT packet arrived on control endpoint 0, its descriptor status being
    /// `desc_status`. Returns whether the setup buffer was re-armed.
    /// The IN partner `ep_in` is used only to acknowledge a completed data
    /// transfer; a zero-length packet leaves it alone.
    pub fn handle_ep0_out_packet(&self, ep_in: &Endpoint, desc_status: u32, ops: &mut Vec<RegOp>) -> (rearmed: bool)
        requires
            self.wf(),
            self.direction == Direction::Out,
            desc_bytes(desc_status) <= DMA_BUF_LEN,
            desc_bytes(desc_status) != 0 && desc_buf_sts(desc_status) == DMA_DONE ==> ep_in.wf()
                && ep_in.direction == Direction::In,
        ensures
            rearmed == ep0_out_rearms(desc_status),
            prog(final(ops)@) == prog(old(ops)@) + ep0_out_packet_prog(*self, *ep_in, desc_status),
    {
        let ghost start = prog(ops@);
        let rx_bytes = field_read(0xffff, 0, desc_status);
        if rx_bytes == 0 {
            self.initialize_setup_pkt(ops);
            let usb_dev_regs = usb_dev_registers();
            emit_modify(ops, usb_dev_regs + 0x04, fval(1, 2, 1));
            assert(prog(ops@) =~= start + ep0_out_packet_prog(*self, *ep_in, desc_status));
            true
        } else {
            if field_read(3, 30, desc_status) == DMA_DONE {
                self.initialize_setup_pkt(ops);
                let usb_dev_regs = usb_dev_registers();
                emit_modify(ops, usb_dev_regs + 0x04, fval(1, 2, 1));
                ep_in.start_tx(0, ops);
                assert(prog(ops@) =~= start + ep0_out_packet_prog(*self, *ep_in, desc_status));
                true
            } else {
                assert(prog(ops@) =~= start + ep0_out_packet_prog(*self, *ep_in, desc_status));
                false
            }
        }
    }

    /// Acknowledge status bit `k` if `sts` has it; returns whether it had.
    fn ack(&self, sts: u32, k: usize, ops: &mut Vec<RegOp>) -> (set: bool)
        requires
            self.wf(),
            k < 32,
        ensures
            set == (sts & sts_bit(k) != 0),
            prog(final(ops)@) == prog(old(ops)@) + ack_prog(*self, sts, k),
    {
        let ghost start = prog(ops@);
        if field_is_set(1, k, sts) {
            let base = self.regs();
            emit_write(ops, base + EP_STS, fval(1, k, 1).value);
            assert(prog(ops@) =~= start + ack_prog(*self, sts, k));
            true
        } else {
            assert(prog(ops@) =~= start + ack_prog(*self, sts, k));
            false
        }
    }

    /// An interrupt of control OUT endpoint 0.
    pub fn handle_ep0_out_interrupt(&self, ep_in: &Endpoint, ev: &EpEvent, ops: &mut Vec<RegOp>)
        requires
            self.wf(),
            ep_in.wf(),
            self.direction == Direction::Out,
            ep_in.direction == Direction::In,
            ev.sts & sts_bit(STS_OUT_PKT) != 0 ==> desc_bytes(ev.desc_status) <= DMA_BUF_LEN,
        ensures
            prog(final(ops)@) == prog(old(ops)@) + ep0_out_interrupt_prog(*self, *ep_in, ev@),
    {
        let ghost start = prog(ops@);
        let mut d0 = ev.setup_data0;
        let mut d1 = ev.setup_data1;
        if field_is_set(1, STS_OUT_PKT, ev.sts) {
            self.ack(ev.sts, STS_OUT_PKT, ops);
            let rearmed = self.handle_ep0_out_packet(ep_in, ev.desc_status, ops);
            if rearmed {
                // The setup buffer now holds what re-arming wrote.
                d0 = 0xdead_beef;
                d1 = 0xffff_ffff;
            }
        }
        if field_is_set(1, STS_OUT_SETUP, ev.sts) {
            self.ack(ev.sts, STS_OUT_SETUP, ops);
            self.handle_ep0_setup_packet(ep_in, d0, d1, ops);
        }
        assert(prog(ops@) =~= start + ep0_out_interrupt_prog(*self, *ep_in, ev@));
    }

    /// An interrupt of control IN endpoint 0 with status `sts`.
    pub fn handle_ep0_in_interrupt(&self, sts: u32, ops: &mut Vec<RegOp>)
        requires
            self.wf(),
            self.direction == Direction::In,
        ensures
            prog(final(ops)@) == prog(old(ops)@) + ep0_in_interrupt_prog(*self, sts),
    {
        let ghost start = prog(ops@);
        self.ack(sts, STS_TRN_DMA_CMPL, ops);
        self.ack(sts, STS_IN_PKT, ops);
        self.ack(sts, STS_BUF_NOT_AVAIL, ops);
        self.ack(sts, STS_HOST_ERR, ops);
        assert(prog(ops@) =~= start + ep0_in_interrupt_prog(*self, sts));
    }
}

// ---------------------------------------------------------------------------
// Bulk transfers on endpoint 1
// ---------------------------------------------------------------------------

/// The state of a [`UsbReceiveBuffers`], buffers as sequences.
pub struct Transfer {
    pub read: Option<Seq<u8>>,
    pub write: Option<Seq<u8>>,
    pub read_index: int,
    pub write_index: int,
    pub read_done: bool,
    pub write_done: bool,
}

impl View for UsbReceiveBuffers {
    type V = Transfer;

    open spec fn view(&self) -> Transfer {
        Transfer {
            read: match self.data_read_buffer {
                Some(b) => Some(b@),
                None => None,
            },
            write: match self.data_write_buffer {
                Some(b) => Some(b@),
                None => None,
            },
            read_index: self.data_read_index as int,
            write_index: self.data_write_index as int,
            read_done: self.data_read_done,
            write_done: self.data_write_done,
        }
    }
}

/// Whether a transfer still waits for bytes to receive.
pub open spec fn read_pending(t: Transfer) -> bool {
    match t.read {
        Some(b) => t.read_index < b.len(),
        None => false,
    }
}

/// The outcome of handling an event: the register program, the transfer
/// state after it, and whether the machine stopped.
pub struct Step {
    pub ops: Seq<Op>,
    pub t: Transfer,
    pub halted: bool,
}

/// Sending the next piece of the write buffer, at most one DMA buffer: the
/// bytes from the write index on are copied into the endpoint's buffer and
/// sent, and the write index moves past them.
pub open spec fn transmit_step(ep: Endpoint, t: Transfer) -> Step {
    let w = t.write->0;
    let i = t.write_index;
    let n = if w.len() - i < DMA_BUF_LEN {
        w.len() - i
    } else {
        DMA_BUF_LEN as int
    };
    Step {
        ops: seq![Op::Fill { addr: ep.mem.dma_buf, bytes: w.subrange(i, i + n) }] + start_tx_prog(
            ep,
            n as u32,
        ),
        t: Transfer { write_index: i + n, ..t },
        halted: false,
    }
}

/// A bulk IN packet went out: when the whole write buffer has been sent the
/// endpoint answers NAK and the write is done, otherwise the next piece is sent.
pub open spec fn bulk_in_step(ep: Endpoint, t: Transfer) -> Step {
    if t.write_index == t.write->0.len() {
        Step { ops: set_nak_prog(ep, true), t: Transfer { write_done: true, ..t }, halted: false }
    } else {
        transmit_step(ep, t)
    }
}

/// Bytes `rx` arrived for the read buffer: as many as still fit are stored
/// from the read index on, the rest is dropped; when the buffer is full the
/// endpoint answers NAK and the read is done. With no read buffer the machine
/// stops.
pub open spec fn receive_step(ep: Endpoint, t: Transfer, rx: Seq<u8>) -> Step {
    match t.read {
        None => Step { ops: seq![Op::Halt], t, halted: true },
        Some(b) => {
            let i = t.read_index;
            let n = if rx.len() < b.len() - i {
                rx.len() as int
            } else {
                b.len() - i
            };
            let full = i + n == b.len();
            Step {
                ops: if full {
                    set_nak_prog(ep, true)
                } else {
                    Seq::empty()
                },
                t: Transfer {
                    read: Some(b.take(i) + rx.take(n) + b.skip(i + n)),
                    read_index: i + n,
                    read_done: if full {
                        true
                    } else {
                        t.read_done
                    },
                    ..t
                },
                halted: false,
            }
        },
    }
}

/// A bulk OUT packet arrived with descriptor status `desc_status` and buffer
/// contents `data`: once its DMA is done, its bytes are received, reception
/// is restarted if the read buffer is not full yet, and receive DMA enabled.
pub open spec fn bulk_out_pkt_step(ep: Endpoint, t: Transfer, desc_status: u32, data: Seq<u8>) -> Step {
    if desc_buf_sts(desc_status) == DMA_DONE {
        let r = receive_step(ep, t, data.take(desc_bytes(desc_status) as int));
        if r.halted {
            r
        } else {
            Step {
                ops: r.ops + (if read_pending(r.t) {
                    start_rx_prog(ep)
                } else {
                    Seq::empty()
                }) + rcv_dma_en_prog(),
                t: r.t,
                halted: false,
            }
        }
    } else {
        Step { ops: Seq::empty(), t, halted: false }
    }
}

/// Whether the IN interrupt reports a completed DMA whose descriptor is not done.
pub open spec fn bulk_in_inconsistent(ev: EpEventView) -> bool {
    ev.sts & sts_bit(STS_TRN_DMA_CMPL) != 0 && desc_buf_sts(ev.desc_status) != DMA_DONE
}

/// Handling an interrupt of a bulk endpoint. IN: a completed DMA is
/// acknowledged (a descriptor that is not done then stops the machine), a
/// sent packet is acknowledged and the write goes on, the other status bits
/// are acknowledged. OUT: a completed DMA is acknowledged, a received packet
/// is handled and acknowledged, the other status bits are acknowledged.
pub open spec fn bulk_interrupt_step(ep: Endpoint, t: Transfer, ev: EpEventView) -> Step {
    if ep.direction == Direction::In {
        bulk_in_interrupt_step(ep, t, ev)
    } else {
        bulk_out_interrupt_step(ep, t, ev)
    }
}

/// Handling an interrupt of the bulk IN endpoint.
pub open spec fn bulk_in_interrupt_step(ep: Endpoint, t: Transfer, ev: EpEventView) -> Step {
    let sts = ev.sts;
    if bulk_in_inconsistent(ev) {
        Step { ops: ack_prog(ep, sts, STS_TRN_DMA_CMPL) + seq![Op::Halt], t, halted: true }
    } else {
        let r = if sts & sts_bit(STS_IN_PKT) != 0 {
            let h = bulk_in_step(ep, t);
            Step { ops: ack_prog(ep, sts, STS_IN_PKT) + h.ops, ..h }
        } else {
            Step { ops: Seq::empty(), t, halted: false }
        };
        Step {
            ops: ack_prog(ep, sts, STS_TRN_DMA_CMPL) + r.ops + ack_prog(ep, sts, STS_BUF_NOT_AVAIL)
                + ack_prog(ep, sts, STS_HOST_ERR) + ack_prog(ep, sts, STS_TXFIFO_EMPTY),
            t: r.t,
            halted: false,
        }
    }
}

/// Handling an interrupt of the bulk OUT endpoint.
pub open spec fn bulk_out_interrupt_step(ep: Endpoint, t: Transfer, ev: EpEventView) -> Step {
    let sts = ev.sts;
    if sts & sts_bit(STS_OUT_PKT) != 0 {
        let r = bulk_out_pkt_step(ep, t, ev.desc_status, ev.dma_data);
        if r.halted {
            Step { ops: ack_prog(ep, sts, STS_TRN_DMA_CMPL) + r.ops, ..r }
        } else {
            Step {
                ops: ack_prog(ep, sts, STS_TRN_DMA_CMPL) + r.ops + ack_prog(ep, sts, STS_OUT_PKT)
                    + ack_prog(ep, sts, STS_BUF_NOT_AVAIL) + ack_prog(ep, sts, STS_HOST_ERR),
                ..r
            }
        }
    } else {
        Step {
            ops: ack_prog(ep, sts, STS_TRN_DMA_CMPL) + ack_prog(ep, sts, STS_BUF_NOT_AVAIL)
                + ack_prog(ep, sts, STS_HOST_ERR),
            t,
            halted: false,
        }
    }
}

/// What a bulk interrupt needs of the transfer and of the event so that no
/// step of its handling fails: a packet sent needs a write buffer, a packet
/// received must fit the DMA buffer, whose contents come with the event.
pub open spec fn bulk_interrupt_ready(ep: Endpoint, t: Transfer, ev: EpEventView) -> bool {
    if ep.direction == Direction::In {
        ev.sts & sts_bit(STS_IN_PKT) != 0 && !bulk_in_inconsistent(ev) ==> t.write is Some
    } else {
        ev.sts & sts_bit(STS_OUT_PKT) != 0 && desc_buf_sts(ev.desc_status) == DMA_DONE ==> desc_bytes(
            ev.desc_status,
        ) <= ev.dma_data.len() == DMA_BUF_LEN
    }
}

/// The transfer's indices stay within its buffers, and a finished read has
/// filled its buffer.
pub open spec fn transfer_wf(t: Transfer) -> bool {
    &&& (t.read matches Some(b) ==> 0 <= t.read_index <= b.len())
    &&& (t.write matches Some(b) ==> 0 <= t.write_index <= b.len())
    &&& (t.read_done && t.read is Some ==> t.read_index == t.read->0.len())
}

impl Endpoint {
    /// Send the next piece of the write buffer.
    pub fn resume_transmit(&self, consumer: &mut UsbReceiveBuffers, ops: &mut Vec<RegOp>)
        requires
            self.wf(),
            self.direction == Direction::In,
            old(consumer).wf(),
            old(consumer).data_write_buffer is Some,
        ensures
            final(consumer).wf(),
            prog(final(ops)@) == prog(old(ops)@) + transmit_step(*self, old(consumer)@).ops,
            final(consumer)@ == transmit_step(*self, old(consumer)@).t,
    {
        let ghost start = prog(ops@);
        let w_len = match &consumer.data_write_buffer {
            Some(w) => w.len(),
            None => 0,
        };
        let index = consumer.data_write_index;
        let tx_size: usize = if w_len - index < DMA_BUF_LEN {
            w_len - index
        } else {
            DMA_BUF_LEN
        };
        let bytes = match &consumer.data_write_buffer {
            Some(w) => copy_range(w, index, tx_size),
            None => Vec::new(),
        };
        emit(ops, RegOp::Fill { addr: self.mem.dma_buf, bytes });
        self.start_tx(tx_size as u32, ops);
        consumer.data_write_index = index + tx_size;
        assert(prog(ops@) =~= start + transmit_step(*self, old(consumer)@).ops);
    }

    /// A bulk IN packet went out.
    pub fn bulk_in_handler(&self, consumer: &mut UsbReceiveBuffers, ops: &mut Vec<RegOp>)
        requires
            self.wf(),
            self.direction == Direction::In,
            old(consumer).wf(),
            old(consumer).data_write_buffer is Some,
        ensures
            final(consumer).wf(),
            prog(final(ops)@) == prog(old(ops)@) + bulk_in_step(*self, old(consumer)@).ops,
            final(consumer)@ == bulk_in_step(*self, old(consumer)@).t,
    {
        let w_len = match &consumer.data_write_buffer {
            Some(w) => w.len(),
            None => 0,
        };
        if consumer.data_write_index == w_len {
            self.set_endpoint_nak(true, ops);
            consumer.data_write_done = true;
        } else {
            self.resume_transmit(consumer, ops);
        }
    }

    /// `rx_size` bytes arrived in the endpoint's buffer, whose contents are
    /// `rx`. Returns whether the machine stopped.
    pub fn process_rx_data(
        &self,
        rx_size: usize,
        rx: &Vec<u8>,
        consumer: &mut UsbReceiveBuffers,
        ops: &mut Vec<RegOp>,
    ) -> (halted: bool)
        requires
            self.wf(),
            old(consumer).wf(),
            rx_size <= rx@.len(),
        ensures
            final(consumer).wf(),
            halted == receive_step(*self, old(consumer)@, rx@.take(rx_size as int)).halted,
            prog(final(ops)@) == prog(old(ops)@) + receive_step(*self, old(consumer)@, rx@.take(rx_size as int)).ops,
            final(consumer)@ == receive_step(*self, old(consumer)@, rx@.take(rx_size as int)).t,
    {
        let ghost start = prog(ops@);
        let ghost rxs = rx@.take(rx_size as int);
        match consumer.data_read_buffer.take() {
            None => {
                // Data with nowhere to go: stop.
                emit(ops, RegOp::Halt);
                assert(prog(ops@) =~= start + receive_step(*self, old(consumer)@, rxs).ops);
                true
            },
            Some(mut buf) => {
                let ghost b0 = buf@;
                let index = consumer.data_read_index;
                let remaining = buf.len() - index;
                let n: usize = if rx_size < remaining {
                    rx_size
                } else {
                    remaining
                };
                let blen = buf.len();
                let mut k: usize = 0;
                while k < n
                    invariant
                        k <= n,
                        blen == b0.len(),
                        index + n <= b0.len(),
                        n <= rx_size <= rx@.len(),
                        buf@.len() == b0.len(),
                        buf@ =~= b0.take(index as int) + rx@.take(k as int) + b0.skip(index + k),
                    decreases n - k,
                {
                    buf[index + k] = rx[k];
                    k = k + 1;
                    assert(buf@ =~= b0.take(index as int) + rx@.take(k as int) + b0.skip(index + k));
                }
                assert(rx@.take(n as int) =~= rxs.take(n as int));
                let full = index + n == buf.len();
                consumer.data_read_buffer = Some(buf);
                consumer.data_read_index = index + n;
                if full {
                    consumer.data_read_done = true;
                    self.set_endpoint_nak(true, ops);
                }
                assert(prog(ops@) =~= start + receive_step(*self, old(consumer)@, rxs).ops);
                false
            },
        }
    }

    /// A bulk OUT packet arrived. Returns whether the machine stopped.
    pub fn handle_bulk_ep_out_pkt(&self, ev: &EpEvent, consumer: &mut UsbReceiveBuffers, ops: &mut Vec<RegOp>) -> (halted: bool)
        requires
            self.wf(),
            old(consumer).wf(),
            desc_buf_sts(ev.desc_status) == DMA_DONE ==> desc_bytes(ev.desc_status) <= ev.dma_data@.len(),
        ensures
            final(consumer).wf(),
            halted == bulk_out_pkt_step(*self, old(consumer)@, ev.desc_status, ev.dma_data@).halted,
            prog(final(ops)@) == prog(old(ops)@) + bulk_out_pkt_step(*self, old(consumer)@, ev.desc_status, ev.dma_data@).ops,
            final(consumer)@ == bulk_out_pkt_step(*self, old(consumer)@, ev.desc_status, ev.dma_data@).t,
    {
        let ghost start = prog(ops@);
        if field_read(3, 30, ev.desc_status) == DMA_DONE {
            let rx_size = field_read(0xffff, 0, ev.desc_status) as usize;
            let halted = self.process_rx_data(rx_size, &ev.dma_data, consumer, ops);
            if halted {
                return true;
            }
            if consumer.need_more_read() {
                self.start_rx(ops);
            }
            let usb_dev_regs = usb_dev_registers();
            emit_modify(ops, usb_dev_regs + 0x04, fval(1, 2, 1));
            assert(prog(ops@) =~= start + bulk_out_pkt_step(*self, old(consumer)@, ev.desc_status, ev.dma_data@).ops);
            false
        } else {
            assert(prog(ops@) =~= start + bulk_out_pkt_step(*self, old(consumer)@, ev.desc_status, ev.dma_data@).ops);
            false
        }
    }

    /// An interrupt of the bulk IN endpoint. Returns whether the machine stopped.
    #[verifier::rlimit(40)]
    fn handle_bulk_in_interrupt(&self, ev: &EpEvent, consumer: &mut UsbReceiveBuffers, ops: &mut Vec<RegOp>) -> (halted: bool)
        requires
            self.wf(),
            self.direction == Direction::In,
            old(consumer).wf(),
            bulk_interrupt_ready(*self, old(consumer)@, ev@),
        ensures
            final(consumer).wf(),
            halted == bulk_in_interrupt_step(*self, old(consumer)@, ev@).halted,
            prog(final(ops)@) == prog(old(ops)@) + bulk_in_interrupt_step(*self, old(consumer)@, ev@).ops,
            final(consumer)@ == bulk_in_interrupt_step(*self, old(consumer)@, ev@).t,
    {
        let ghost start = prog(ops@);
        let sts = ev.sts;
        if self.ack(sts, STS_TRN_DMA_CMPL, ops) {
            if field_read(3, 30, ev.desc_status) != DMA_DONE {
                // The controller reports a finished DMA that is not: stop.
                emit(ops, RegOp::Halt);
                assert(prog(ops@) =~= start + bulk_in_interrupt_step(*self, old(consumer)@, ev@).ops);
                return true;
            }
        }
        let ghost t0 = consumer@;
        if self.ack(sts, STS_IN_PKT, ops) {
            self.bulk_in_handler(consumer, ops);
            assert(consumer@ == bulk_in_step(*self, t0).t);
        } else {
            assert(consumer@ == t0);
        }
        self.ack(sts, STS_BUF_NOT_AVAIL, ops);
        self.ack(sts, STS_HOST_ERR, ops);
        self.ack(sts, STS_TXFIFO_EMPTY, ops);
        assert(prog(ops@) =~= start + bulk_in_interrupt_step(*self, old(consumer)@, ev@).ops);
        false
    }

    /// An interrupt of the bulk OUT endpoint. Returns whether the machine stopped.
    #[verifier::rlimit(40)]
    fn handle_bulk_out_interrupt(&self, ev: &EpEvent, consumer: &mut UsbReceiveBuffers, ops: &mut Vec<RegOp>) -> (halted: bool)
        requires
            self.wf(),
            self.direction == Direction::Out,
            old(consumer).wf(),
            bulk_interrupt_ready(*self, old(consumer)@, ev@),
        ensures
            final(consumer).wf(),
            halted == bulk_out_interrupt_step(*self, old(consumer)@, ev@).halted,
            prog(final(ops)@) == prog(old(ops)@) + bulk_out_interrupt_step(*self, old(consumer)@, ev@).ops,
            final(consumer)@ == bulk_out_interrupt_step(*self, old(consumer)@, ev@).t,
    {
        let ghost start = prog(ops@);
        let sts = ev.sts;
        self.ack(sts, STS_TRN_DMA_CMPL, ops);
        if field_is_set(1, STS_OUT_PKT, sts) {
            let halted = self.handle_bulk_ep_out_pkt(ev, consumer, ops);
            if halted {
                assert(prog(ops@) =~= start + bulk_out_interrupt_step(*self, old(consumer)@, ev@).ops);
                return true;
            }
            self.ack(sts, STS_OUT_PKT, ops);
        }
        self.ack(sts, STS_BUF_NOT_AVAIL, ops);
        self.ack(sts, STS_HOST_ERR, ops);
        assert(prog(ops@) =~= start + bulk_out_interrupt_step(*self, old(consumer)@, ev@).ops);
        false
    }

    /// An interrupt of a bulk endpoint. Returns whether the machine stopped.
    pub fn handle_bulk_interrupt(&self, ev: &EpEvent, consumer: &mut UsbReceiveBuffers, ops: &mut Vec<RegOp>) -> (halted: bool)
        requires
            self.wf(),
            old(consumer).wf(),
            bulk_interrupt_ready(*self, old(consumer)@, ev@),
        ensures
            final(consumer).wf(),
            halted == bulk_interrupt_step(*self, old(consumer)@, ev@).halted,
            prog(final(ops)@) == prog(old(ops)@) + bulk_interrupt_step(*self, old(consumer)@, ev@).ops,
            final(consumer)@ == bulk_interrupt_step(*self, old(consumer)@, ev@).t,
    {
        if self.direction == Direction::In {
            self.handle_bulk_in_interrupt(ev, consumer, ops)
        } else {
            self.handle_bulk_out_interrupt(ev, consumer, ops)
        }
    }
}

// ---------------------------------------------------------------------------
// Interrupt dispatch
// ---------------------------------------------------------------------------

/// Handling an interrupt of endpoint `ep`, whose partner of the other
/// direction is `other`: control endpoint 0 answers setup packets and
/// acknowledges its status, bulk endpoint 1 moves data, others are ignored.
pub open spec fn interrupt_step(ep: Endpoint, other: Endpoint, t: Transfer, ev: EpEventView) -> Step {
    if ep.ep_num == 0 && ep.direction == Direction::Out {
        Step { ops: ep0_out_interrupt_prog(ep, other, ev), t, halted: false }
    } else if ep.ep_num == 0 && ep.direction == Direction::In {
        Step { ops: ep0_in_interrupt_prog(ep, ev.sts), t, halted: false }
    } else if ep.ep_num == 1 {
        bulk_interrupt_step(ep, t, ev)
    } else {
        Step { ops: Seq::empty(), t, halted: false }
    }
}

/// What handling an interrupt of `ep` needs so that no step of it fails.
pub open spec fn interrupt_ready(ep: Endpoint, other: Endpoint, t: Transfer, ev: EpEventView) -> bool {
    if ep.ep_num == 0 && ep.direction == Direction::Out {
        &&& other.wf()
        &&& other.direction == Direction::In
        &&& (ev.sts & sts_bit(STS_OUT_PKT) != 0 ==> desc_bytes(ev.desc_status) <= DMA_BUF_LEN)
    } else if ep.ep_num == 1 {
        bulk_interrupt_ready(ep, t, ev)
    } else {
        true
    }
}

impl Endpoint {
    /// An interrupt of this endpoint; `other` is its partner of the other
    /// direction. Returns whether the machine stopped.
    pub fn handle_interrupt(&self, other: &Endpoint, ev: &EpEvent, consumer: &mut UsbReceiveBuffers, ops: &mut Vec<RegOp>) -> (halted: bool)
        requires
            self.wf(),
            old(consumer).wf(),
            interrupt_ready(*self, *other, old(consumer)@, ev@),
        ensures
            final(consumer).wf(),
            halted == interrupt_step(*self, *other, old(consumer)@, ev@).halted,
            prog(final(ops)@) == prog(old(ops)@) + interrupt_step(*self, *other, old(consumer)@, ev@).ops,
            final(consumer)@ == interrupt_step(*self, *other, old(consumer)@, ev@).t,
    {
        cache::_clean_flush_d_cache();
        if self.ep_num == 0 && self.direction == Direction::Out {
            self.handle_ep0_out_interrupt(other, ev, ops);
            false
        } else if self.ep_num == 0 && self.direction == Direction::In {
            self.handle_ep0_in_interrupt(ev.sts, ops);
            false
        } else if self.ep_num == 1 {
            self.handle_bulk_interrupt(ev, consumer, ops)
        } else {
            assert(prog(ops@) =~= prog(old(ops)@) + Seq::empty());
            false
        }
    }

    /// The address of the endpoint's status register.
    pub fn status_register(&self) -> (a: u32)
        requires
            self.wf(),
        ensures
            a == sts_reg(*self),
    {
        self.regs() + EP_STS
    }
}

// ---------------------------------------------------------------------------
// The device
// ---------------------------------------------------------------------------

/// Whether `m` leaves room for the descriptors and the buffer it locates.
pub open spec fn memory_ok(m: EndpointMemory) -> bool {
    &&& m.setup_pkt <= 0xffff_fff0
    &&& m.data_desc <= 0xffff_fff0
    &&& m.dma_buf <= 0xffff_fdff
}

impl EndpointMemory {
    /// Whether the memory leaves room for the descriptors and the buffer it locates.
    pub fn fits(&self) -> (r: bool)
        ensures
            r == memory_ok(*self),
    {
        self.setup_pkt <= 0xffff_fff0 && self.data_desc <= 0xffff_fff0 && self.dma_buf <= 0xffff_fdff
    }
}

/// The device: control endpoint 0 in both directions, bulk endpoint 1 in both
/// directions.
pub struct Usb {
    pub usb_ctrl_in: Endpoint,
    pub usb_ctrl_out: Endpoint,
    pub usb_bulk_in: Endpoint,
    pub usb_bulk_out: Endpoint,
    pub usb_dev_regs: u32,
    pub enum_complete: bool,
}

/// Resetting the controller through the reset and clock unit: analog power
/// and soft reset raised, then released.
pub open spec fn rct_reset_prog() -> Seq<Op> {
    seq![
        Op::Modify { addr: RCT_ANA_PWR, clear: 0, set: 4 },
        Op::Modify { addr: RCT_UDC_SOFT_RESET, clear: 0, set: 2 },
        Op::Modify { addr: RCT_UDC_SOFT_RESET, clear: 2, set: 0 },
        Op::Modify { addr: RCT_ANA_PWR, clear: 4, set: 0 },
    ]
}

/// The device configuration word: high speed, self powered, 8-bit UTMI
/// bidirectional PHY, ACK on halt, SET_DESCRIPTOR stalled, DDR, remote wake-up.
pub open spec fn dev_cfg_value() -> u32 {
    field_value(3, 0, 0) | field_value(1, 3, 1) | field_value(1, 5, 1) | field_value(1, 6, 1)
        | field_value(1, 16, 0) | field_value(1, 18, 0) | field_value(1, 19, 1) | field_value(1, 2, 1)
}

/// The device control word: receive and transmit DMA, descriptor update per
/// payload, little endian, DMA mode.
pub open spec fn dev_ctrl_value() -> u32 {
    field_value(1, 2, 1) | field_value(1, 3, 1) | field_value(1, 4, 0) | field_value(1, 5, 0)
        | field_value(1, 9, 1)
}

/// Bringing the controller up: reset, the four endpoints, device
/// configuration and control, then interrupts: all pending ones cleared, only
/// set-configuration, set-interface and enumeration-complete device interrupts
/// and the endpoint 0 to 3 interrupts left unmasked, remote wake-up signalled.
pub open spec fn initialize_prog(usb: Usb) -> Seq<Op> {
    rct_reset_prog() + init_endpoint_prog(usb.usb_ctrl_in) + init_endpoint_prog(usb.usb_ctrl_out)
        + init_endpoint_prog(usb.usb_bulk_in) + init_endpoint_prog(usb.usb_bulk_out) + seq![
        Op::Write { addr: USB_DEV_CFG, value: dev_cfg_value() },
        Op::Write { addr: USB_DEV_CTRL, value: dev_ctrl_value() },
        Op::Write { addr: USB_DEV_INTR, value: 0x7f },
        Op::Write { addr: USB_DEV_EP_INTR, value: 0xffff_ffff },
        Op::Write { addr: USB_DEV_INTR_MSK, value: 0x7f },
        Op::Write { addr: USB_DEV_EP_INTR_MSK, value: 0xffff_ffff },
        Op::Modify {
            addr: USB_DEV_INTR_MSK,
            clear: field_mask(1, 0) | field_mask(1, 1) | field_mask(1, 6),
            set: field_value(1, 0, 0) | field_value(1, 1, 0) | field_value(1, 6, 0),
        },
        Op::Write { addr: USB_DEV_EP_INTR_MSK, value: 0xfff0_fff0 },
        Op::Modify { addr: USB_DEV_CTRL, clear: field_mask(1, 0), set: field_value(1, 0, 1) },
    ]
}

/// Clearing the stall bit `USB_EP_STALL` (bit 0) of an endpoint's control register.
pub open spec fn clear_stall_prog(ctrl: u32) -> Seq<Op> {
    seq![Op::Modify { addr: ctrl, clear: field_mask(1, 0), set: field_value(1, 0, 0) }]
}

/// The host configured the device: endpoint 0 un-stalled, the configuration
/// acknowledged, a pending read started, the bulk endpoints un-stalled.
pub open spec fn set_cfg_prog(usb: Usb, t: Transfer) -> Seq<Op> {
    clear_stall_prog(ep_in_base(0)) + seq![
        Op::Modify { addr: USB_DEV_CTRL, clear: field_mask(1, 13), set: field_value(1, 13, 1) },
    ] + (if read_pending(t) {
        start_rx_prog(usb.usb_bulk_out)
    } else {
        Seq::empty()
    }) + clear_stall_prog(ep_in_base(1)) + clear_stall_prog(ep_out_base(1))
}

/// The speed the device enumerated at (`USB_DEV_ENUM_SPD`): 0 is high speed.
pub open spec fn enum_speed(dev_sts: u32) -> u32 {
    field_read_spec(3, 13, dev_sts)
}

/// Setting the maximum packet size of bulk endpoint `ep` (UDC register
/// `udc`) to 512 bytes.
pub open spec fn bulk_512_prog(max_pkt_reg: u32, udc: u32) -> Seq<Op> {
    seq![
        Op::Write { addr: max_pkt_reg, value: field_value(0xffff, 0, 512) },
        Op::Modify { addr: udc, clear: field_mask(0x1fff, 19), set: field_value(0x1fff, 19, 512) },
    ]
}

/// Enumeration completed: every endpoint's UDC register is programmed and
/// made writable; at high speed the bulk endpoints move to 512-byte packets,
/// at any other speed the machine stops.
pub open spec fn enum_complete_prog(usb: Usb, dev_sts: u32) -> Seq<Op> {
    seq![
        Op::Write { addr: udc_reg(usb.usb_ctrl_in.index as int), value: udc_word(usb.usb_ctrl_in) },
        Op::Write { addr: udc_reg(usb.usb_ctrl_out.index as int), value: udc_word(usb.usb_ctrl_out) },
        Op::Write { addr: udc_reg(usb.usb_bulk_in.index as int), value: udc_word(usb.usb_bulk_in) },
        Op::Write { addr: udc_reg(usb.usb_bulk_out.index as int), value: udc_word(usb.usb_bulk_out) },
        Op::Modify { addr: USB_DEV_CFG, clear: field_mask(1, 17), set: field_value(1, 17, 1) },
    ] + if enum_speed(dev_sts) == 0 {
        bulk_512_prog((ep_in_base(1) + EP_MAX_PKT_SZ) as u32, udc_reg(2)) + bulk_512_prog(
            (ep_out_base(1) + EP_MAX_PKT_SZ) as u32,
            udc_reg(3),
        )
    } else {
        seq![Op::Halt]
    }
}

/// Whether interrupt status `intr` has bit `k`.
pub open spec fn intr_has(intr: u32, k: usize) -> bool {
    intr & field_mask(1, k) != 0
}

/// Handling the device interrupts `intr`: set-configuration, then
/// set-interface, then enumeration-complete.
pub open spec fn device_interrupt_prog(usb: Usb, intr: u32, dev_sts: u32, t: Transfer) -> Seq<Op> {
    (if intr_has(intr, 0) {
        set_cfg_prog(usb, t)
    } else {
        Seq::empty()
    }) + (if intr_has(intr, 1) {
        set_cfg_prog(usb, t)
    } else {
        Seq::empty()
    }) + (if intr_has(intr, 6) {
        enum_complete_prog(usb, dev_sts)
    } else {
        Seq::empty()
    })
}

/// Whether handling the device interrupts `intr` stops the machine: an
/// enumeration at any speed but high speed.
pub open spec fn device_interrupt_halts(intr: u32, dev_sts: u32) -> bool {
    intr_has(intr, 6) && enum_speed(dev_sts) != 0
}

/// One round of interrupt service before the endpoints: pending device
/// interrupts are acknowledged and handled, then the endpoint interrupts are
/// acknowledged.
pub open spec fn service_prog(usb: Usb, intr: u32, ep_intr: u32, dev_sts: u32, t: Transfer) -> Seq<Op> {
    (if intr != 0 {
        seq![Op::Write { addr: USB_DEV_INTR, value: intr }] + device_interrupt_prog(usb, intr, dev_sts, t)
    } else {
        Seq::empty()
    }) + if intr != 0 && device_interrupt_halts(intr, dev_sts) {
        Seq::empty()
    } else {
        seq![Op::Write { addr: USB_DEV_EP_INTR, value: ep_intr }]
    }
}

/// The endpoint interrupts pending in `ep_intr` among endpoints `0..n`, in
/// the order they are served: for each endpoint, IN (bit `ep`) before OUT
/// (bit `16 + ep`).
pub open spec fn pending_spec(ep_intr: u32, n: nat) -> Seq<(Direction, usize)>
    decreases n,
{
    if n == 0 {
        Seq::empty()
    } else {
        let ep = (n - 1) as usize;
        pending_spec(ep_intr, (n - 1) as nat) + (if ep_intr & field_mask(1, ep) != 0 {
            seq![(Direction::In, ep)]
        } else {
            Seq::empty()
        }) + (if ep_intr & field_mask(1, (16 + ep) as usize) != 0 {
            seq![(Direction::Out, ep)]
        } else {
            Seq::empty()
        })
    }
}

/// Number of endpoints whose interrupts are served.
pub const SERVED_ENDPOINTS: usize = 6;

/// The endpoint that serves an interrupt of direction `direction` on
/// endpoint number `ep_num`, with its partner.
pub open spec fn ep_pair(usb: Usb, direction: Direction, ep_num: usize) -> Option<(Endpoint, Endpoint)> {
    if ep_num == 0 && direction == Direction::Out {
        Some((usb.usb_ctrl_out, usb.usb_ctrl_in))
    } else if ep_num == 0 && direction == Direction::In {
        Some((usb.usb_ctrl_in, usb.usb_ctrl_out))
    } else if ep_num == 1 && direction == Direction::Out {
        Some((usb.usb_bulk_out, usb.usb_bulk_in))
    } else if ep_num == 1 && direction == Direction::In {
        Some((usb.usb_bulk_in, usb.usb_bulk_out))
    } else {
        None
    }
}

/// Handling an endpoint interrupt of direction `direction` on endpoint number
/// `ep_num`: interrupts of endpoints the device does not have are ignored.
pub open spec fn ep_intr_step(usb: Usb, direction: Direction, ep_num: usize, t: Transfer, ev: EpEventView) -> Step {
    match ep_pair(usb, direction, ep_num) {
        Some((ep, other)) => interrupt_step(ep, other, t, ev),
        None => Step { ops: Seq::empty(), t, halted: false },
    }
}

/// What handling an endpoint interrupt needs so that no step of it fails.
pub open spec fn ep_intr_ready(usb: Usb, direction: Direction, ep_num: usize, t: Transfer, ev: EpEventView) -> bool {
    match ep_pair(usb, direction, ep_num) {
        Some((ep, other)) => interrupt_ready(ep, other, t, ev),
        None => true,
    }
}

impl Usb {
    /// The endpoints are those of the device's layout, each with memory of
    /// its own in range.
    pub open spec fn wf(&self) -> bool {
        &&& self.usb_ctrl_in.index == 0 && self.usb_ctrl_in.ep_num == 0
        &&& self.usb_ctrl_in.direction == Direction::In && self.usb_ctrl_in.ep_type == EndpointType::Ctrl
        &&& self.usb_ctrl_out.index == 1 && self.usb_ctrl_out.ep_num == 0
        &&& self.usb_ctrl_out.direction == Direction::Out && self.usb_ctrl_out.ep_type == EndpointType::Ctrl
        &&& self.usb_bulk_in.index == 2 && self.usb_bulk_in.ep_num == 1
        &&& self.usb_bulk_in.direction == Direction::In && self.usb_bulk_in.ep_type == EndpointType::Bulk
        &&& self.usb_bulk_out.index == 3 && self.usb_bulk_out.ep_num == 1
        &&& self.usb_bulk_out.direction == Direction::Out && self.usb_bulk_out.ep_type == EndpointType::Bulk
        &&& self.usb_ctrl_in.speed == UsbSpeed::Hs && self.usb_ctrl_out.speed == UsbSpeed::Hs
        &&& self.usb_bulk_in.speed == UsbSpeed::Hs && self.usb_bulk_out.speed == UsbSpeed::Hs
        &&& memory_ok(self.usb_ctrl_in.mem) && memory_ok(self.usb_ctrl_out.mem)
        &&& memory_ok(self.usb_bulk_in.mem) && memory_ok(self.usb_bulk_out.mem)
        &&& self.usb_dev_regs == USB_DEV_BASE
    }

    /// The device, its endpoints sharing memory with the DMA engine at the
    /// given places; enumeration has not happened yet.
    pub fn new(
        ctrl_in: EndpointMemory,
        ctrl_out: EndpointMemory,
        bulk_in: EndpointMemory,
        bulk_out: EndpointMemory,
    ) -> (r: Self)
        requires
            memory_ok(ctrl_in),
            memory_ok(ctrl_out),
            memory_ok(bulk_in),
            memory_ok(bulk_out),
        ensures
            r.wf(),
            !r.enum_complete,
            r.usb_ctrl_in.mem == ctrl_in,
            r.usb_ctrl_out.mem == ctrl_out,
            r.usb_bulk_in.mem == bulk_in,
            r.usb_bulk_out.mem == bulk_out,
    {
        Usb {
            usb_ctrl_in: Endpoint::new(0, 0, Direction::In, UsbSpeed::Hs, EndpointType::Ctrl, ctrl_in),
            usb_ctrl_out: Endpoint::new(1, 0, Direction::Out, UsbSpeed::Hs, EndpointType::Ctrl, ctrl_out),
            usb_bulk_in: Endpoint::new(2, 1, Direction::In, UsbSpeed::Hs, EndpointType::Bulk, bulk_in),
            usb_bulk_out: Endpoint::new(3, 1, Direction::Out, UsbSpeed::Hs, EndpointType::Bulk, bulk_out),
            usb_dev_regs: usb_dev_registers(),
            enum_complete: false,
        }
    }

    /// Disconnect from the bus by software, with remote wake-up enabled.
    pub fn set_softdisc(&self, ops: &mut Vec<RegOp>)
        requires
            self.wf(),
        ensures
            prog(final(ops)@) == prog(old(ops)@) + seq![
                Op::Modify { addr: USB_DEV_CTRL, clear: field_mask(1, 10), set: field_value(1, 10, 1) },
                Op::Modify { addr: USB_DEV_CFG, clear: field_mask(1, 2), set: field_value(1, 2, 1) },
            ],
    {
        let ghost start = prog(ops@);
        emit_modify(ops, self.usb_dev_regs + 0x04, fval(1, 10, 1));
        emit_modify(ops, self.usb_dev_regs + 0x00, fval(1, 2, 1));
        assert(prog(ops@) =~= start + seq![
            Op::Modify { addr: USB_DEV_CTRL, clear: field_mask(1, 10), set: field_value(1, 10, 1) },
            Op::Modify { addr: USB_DEV_CFG, clear: field_mask(1, 2), set: field_value(1, 2, 1) },
        ]);
    }

    /// Reset the controller through the reset and clock unit.
    pub fn rct_reset(&self, ops: &mut Vec<RegOp>)
        ensures
            prog(final(ops)@) == prog(old(ops)@) + rct_reset_prog(),
    {
        let ghost start = prog(ops@);
        let rct_regs = rct_registers();
        emit(ops, RegOp::Modify { addr: rct_regs + 0x50, clear: 0, set: 4 });
        emit(ops, RegOp::Modify { addr: rct_regs + 0x2cc, clear: 0, set: 2 });
        emit(ops, RegOp::Modify { addr: rct_regs + 0x2cc, clear: 2, set: 0 });
        emit(ops, RegOp::Modify { addr: rct_regs + 0x50, clear: 4, set: 0 });
        assert(prog(ops@) =~= start + rct_reset_prog());
    }

    /// Bring the controller up.
    pub fn initialize(&self, ops: &mut Vec<RegOp>)
        requires
            self.wf(),
        ensures
            prog(final(ops)@) == prog(old(ops)@) + initialize_prog(*self),
    {
        let ghost start = prog(ops@);
        self.rct_reset(ops);
        self.usb_ctrl_in.init_endpoint(ops);
        self.usb_ctrl_out.init_endpoint(ops);
        self.usb_bulk_in.init_endpoint(ops);
        self.usb_bulk_out.init_endpoint(ops);
        let dev = self.usb_dev_regs;
        let cfg = fadd(
            fadd(
                fadd(
                    fadd(fadd(fadd(fadd(fval(3, 0, 0), fval(1, 3, 1)), fval(1, 5, 1)), fval(1, 6, 1)), fval(1, 16, 0)),
                    fval(1, 18, 0),
                ),
                fval(1, 19, 1),
            ),
            fval(1, 2, 1),
        );
        emit_write(ops, dev + 0x00, cfg.value);
        let ctrl = fadd(fadd(fadd(fadd(fval(1, 2, 1), fval(1, 3, 1)), fval(1, 4, 0)), fval(1, 5, 0)), fval(1, 9, 1));
        emit_write(ops, dev + 0x04, ctrl.value);
        emit_write(ops, dev + 0x0c, 0x0000_007f);
        emit_write(ops, dev + 0x14, 0xffff_ffff);
        emit_write(ops, dev + 0x10, 0x0000_007f);
        emit_write(ops, dev + 0x18, 0xffff_ffff);
        emit_modify(ops, dev + 0x10, fadd(fadd(fval(1, 0, 0), fval(1, 1, 0)), fval(1, 6, 0)));
        emit_write(ops, dev + 0x18, 0xfff0_fff0);
        emit_modify(ops, dev + 0x04, fval(1, 0, 1));
        assert(prog(ops@) =~= start + initialize_prog(*self));
    }

    /// Enumeration completed; `dev_sts` is the device status register. Returns
    /// whether the machine stopped.
    pub fn handle_enum_cmpl(&self, dev_sts: u32, ops: &mut Vec<RegOp>) -> (halted: bool)
        requires
            self.wf(),
        ensures
            halted == (enum_speed(dev_sts) != 0),
            prog(final(ops)@) == prog(old(ops)@) + enum_complete_prog(*self, dev_sts),
    {
        let ghost start = prog(ops@);
        self.usb_ctrl_in.setup_udc(ops);
        self.usb_ctrl_out.setup_udc(ops);
        self.usb_bulk_in.setup_udc(ops);
        self.usb_bulk_out.setup_udc(ops);
        emit_modify(ops, self.usb_dev_regs + 0x00, fval(1, 17, 1));
        let speed = field_read(3, 13, dev_sts);
        if speed == 0 {
            // High speed: bulk endpoints move 512-byte packets.
            let in_regs = self.usb_bulk_in.in_regs().unwrap();
            emit_write(ops, in_regs + EP_MAX_PKT_SZ, fval(0xffff, 0, 512).value);
            emit_modify(ops, usb_udc_register(self.usb_bulk_in.index), fval(0x1fff, 19, 512));
            let out_regs = self.usb_bulk_out.out_regs().unwrap();
            emit_write(ops, out_regs + EP_MAX_PKT_SZ, fval(0xffff, 0, 512).value);
            emit_modify(ops, usb_udc_register(self.usb_bulk_out.index), fval(0x1fff, 19, 512));
            assert(prog(ops@) =~= start + enum_complete_prog(*self, dev_sts));
            false
        } else {
            // Full speed or anything else is not supported: stop.
            emit(ops, RegOp::Halt);
            assert(prog(ops@) =~= start + enum_complete_prog(*self, dev_sts));
            true
        }
    }

    /// The host set a configuration or an interface.
    pub fn handle_dev_set_cfg_set_intf(&mut self, consumer: &UsbReceiveBuffers, ops: &mut Vec<RegOp>)
        requires
            old(self).wf(),
        ensures
            final(self).wf(),
            final(self).enum_complete,
            final(self).usb_ctrl_in == old(self).usb_ctrl_in,
            final(self).usb_ctrl_out == old(self).usb_ctrl_out,
            final(self).usb_bulk_in == old(self).usb_bulk_in,
            final(self).usb_bulk_out == old(self).usb_bulk_out,
            prog(final(ops)@) == prog(old(ops)@) + set_cfg_prog(*old(self), consumer@),
    {
        let ghost start = prog(ops@);
        let regs_ep_in = self.usb_ctrl_in.in_regs().unwrap();
        emit_modify(ops, regs_ep_in + EP_CTRL, fval(1, 0, 0));
        let usb_dev_regs = usb_dev_registers();
        emit_modify(ops, usb_dev_regs + 0x04, fval(1, 13, 1));
        // A read that waited for enumeration starts now.
        if consumer.need_more_read() {
            self.usb_bulk_out.start_rx(ops);
        }
        self.enum_complete = true;
        let bulk_in_regs = self.usb_bulk_in.in_regs().unwrap();
        emit_modify(ops, bulk_in_regs + EP_CTRL, fval(1, 0, 0));
        let bulk_out_regs = self.usb_bulk_out.out_regs().unwrap();
        emit_modify(ops, bulk_out_regs + EP_CTRL, fval(1, 0, 0));
        assert(prog(ops@) =~= start + set_cfg_prog(*old(self), consumer@));
    }

    /// Handle the device interrupts `intr`; `dev_sts` is the device status
    /// register. Returns whether the machine stopped.
    pub fn handle_device_interrupt(&mut self, intr: u32, dev_sts: u32, consumer: &UsbReceiveBuffers, ops: &mut Vec<RegOp>) -> (halted: bool)
        requires
            old(self).wf(),
        ensures
            final(self).wf(),
            halted == device_interrupt_halts(intr, dev_sts),
            final(self).enum_complete == (old(self).enum_complete || intr_has(intr, 0) || intr_has(intr, 1)),
            final(self).usb_ctrl_in == old(self).usb_ctrl_in,
            final(self).usb_ctrl_out == old(self).usb_ctrl_out,
            final(self).usb_bulk_in == old(self).usb_bulk_in,
            final(self).usb_bulk_out == old(self).usb_bulk_out,
            prog(final(ops)@) == prog(old(ops)@) + device_interrupt_prog(*old(self), intr, dev_sts, consumer@),
    {
        let ghost start = prog(ops@);
        let ghost usb0 = *self;
        if field_is_set(1, 0, intr) {
            self.handle_dev_set_cfg_set_intf(consumer, ops);
        }
        if field_is_set(1, 1, intr) {
            self.handle_dev_set_cfg_set_intf(consumer, ops);
        }
        // Idle, reset, suspend and start-of-frame need nothing.
        let mut halted = false;
        if field_is_set(1, 6, intr) {
            halted = self.handle_enum_cmpl(dev_sts, ops);
        }
        assert(enum_complete_prog(*self, dev_sts) == enum_complete_prog(usb0, dev_sts));
        assert(prog(ops@) =~= start + device_interrupt_prog(usb0, intr, dev_sts, consumer@));
        halted
    }

    /// One round of interrupt service before the endpoints: `intr` and
    /// `ep_intr` are the device and endpoint interrupt registers, `dev_sts`
    /// the device status. Returns whether the machine stopped.
    pub fn handle_interrupts(&mut self, intr: u32, ep_intr: u32, dev_sts: u32, consumer: &UsbReceiveBuffers, ops: &mut Vec<RegOp>) -> (halted: bool)
        requires
            old(self).wf(),
        ensures
            final(self).wf(),
            halted == (intr != 0 && device_interrupt_halts(intr, dev_sts)),
            final(self).enum_complete == (old(self).enum_complete || (intr != 0 && (intr_has(intr, 0) || intr_has(intr, 1)))),
            final(self).usb_ctrl_in == old(self).usb_ctrl_in,
            final(self).usb_ctrl_out == old(self).usb_ctrl_out,
            final(self).usb_bulk_in == old(self).usb_bulk_in,
            final(self).usb_bulk_out == old(self).usb_bulk_out,
            prog(final(ops)@) == prog(old(ops)@) + service_prog(*old(self), intr, ep_intr, dev_sts, consumer@),
    {
        let ghost start = prog(ops@);
        let ghost usb0 = *self;
        if intr != 0 {
            emit_write(ops, self.usb_dev_regs + 0x0c, intr);
            let halted = self.handle_device_interrupt(intr, dev_sts, consumer, ops);
            if halted {
                assert(prog(ops@) =~= start + service_prog(usb0, intr, ep_intr, dev_sts, consumer@));
                return true;
            }
        }
        emit_write(ops, self.usb_dev_regs + 0x14, ep_intr);
        assert(prog(ops@) =~= start + service_prog(usb0, intr, ep_intr, dev_sts, consumer@));
        false
    }

    /// The endpoint interrupts pending in `ep_intr`, in the order they are served.
    pub fn pending_endpoints(ep_intr: u32) -> (r: Vec<(Direction, usize)>)
        ensures
            r@ == pending_spec(ep_intr, SERVED_ENDPOINTS as nat),
    {
        let mut r: Vec<(Direction, usize)> = Vec::new();
        let mut ep_num: usize = 0;
        while ep_num < SERVED_ENDPOINTS
            invariant
                ep_num <= SERVED_ENDPOINTS,
                r@ == pending_spec(ep_intr, ep_num as nat),
            decreases SERVED_ENDPOINTS - ep_num,
        {
            if field_is_set(1, ep_num, ep_intr) {
                r.push((Direction::In, ep_num));
            }
            if field_is_set(1, 16 + ep_num, ep_intr) {
                r.push((Direction::Out, ep_num));
            }
            assert(r@ =~= pending_spec(ep_intr, (ep_num + 1) as nat));
            ep_num = ep_num + 1;
        }
        r
    }

    /// The endpoint that serves interrupts of `direction` on endpoint number
    /// `ep_num`, if the device has it.
    pub fn endpoint(&self, direction: Direction, ep_num: usize) -> (r: Option<Endpoint>)
        ensures
            r == (match ep_pair(*self, direction, ep_num) {
                Some((ep, _)) => Some(ep),
                None => None::<Endpoint>,
            }),
    {
        if ep_num == 0 && direction == Direction::Out {
            Some(self.usb_ctrl_out)
        } else if ep_num == 0 && direction == Direction::In {
            Some(self.usb_ctrl_in)
        } else if ep_num == 1 && direction == Direction::Out {
            Some(self.usb_bulk_out)
        } else if ep_num == 1 && direction == Direction::In {
            Some(self.usb_bulk_in)
        } else {
            None
        }
    }

    /// Handle an interrupt of direction `direction` on endpoint number
    /// `ep_num`; `ev` is what was read for it. Returns whether the machine
    /// stopped.
    pub fn handle_ep_intr(&self, direction: Direction, ep_num: usize, ev: &EpEvent, consumer: &mut UsbReceiveBuffers, ops: &mut Vec<RegOp>) -> (halted: bool)
        requires
            self.wf(),
            old(consumer).wf(),
            ep_intr_ready(*self, direction, ep_num, old(consumer)@, ev@),
        ensures
            final(consumer).wf(),
            halted == ep_intr_step(*self, direction, ep_num, old(consumer)@, ev@).halted,
            prog(final(ops)@) == prog(old(ops)@) + ep_intr_step(*self, direction, ep_num, old(consumer)@, ev@).ops,
            final(consumer)@ == ep_intr_step(*self, direction, ep_num, old(consumer)@, ev@).t,
    {
        if ep_num == 0 && direction == Direction::Out {
            self.usb_ctrl_out.handle_interrupt(&self.usb_ctrl_in, ev, consumer, ops)
        } else if ep_num == 0 && direction == Direction::In {
            self.usb_ctrl_in.handle_interrupt(&self.usb_ctrl_out, ev, consumer, ops)
        } else if ep_num == 1 && direction == Direction::Out {
            self.usb_bulk_out.handle_interrupt(&self.usb_bulk_in, ev, consumer, ops)
        } else if ep_num == 1 && direction == Direction::In {
            self.usb_bulk_in.handle_interrupt(&self.usb_bulk_out, ev, consumer, ops)
        } else {
            // An interrupt of an endpoint the device does not have.
            assert(prog(ops@) =~= prog(old(ops)@) + Seq::empty());
            false
        }
    }

    /// Whether an endpoint interrupt can be handled: a packet to send needs a
    /// write buffer, and a received packet must fit the DMA buffer, whose
    /// contents come with the event.
    pub fn ep_intr_ready(&self, direction: Direction, ep_num: usize, ev: &EpEvent, consumer: &UsbReceiveBuffers) -> (r: bool)
        requires
            self.wf(),
        ensures
            r == ep_intr_ready(*self, direction, ep_num, consumer@, ev@),
    {
        let sts = ev.sts;
        let bytes = field_read(0xffff, 0, ev.desc_status);
        let done = field_read(3, 30, ev.desc_status) == DMA_DONE;
        if ep_num == 0 && direction == Direction::Out {
            !field_is_set(1, STS_OUT_PKT, sts) || (bytes as usize) <= DMA_BUF_LEN
        } else if ep_num == 1 && direction == Direction::In {
            let inconsistent = field_is_set(1, STS_TRN_DMA_CMPL, sts) && !done;
            !(field_is_set(1, STS_IN_PKT, sts) && !inconsistent) || consumer.data_write_buffer.is_some()
        } else if ep_num == 1 && direction == Direction::Out {
            !(field_is_set(1, STS_OUT_PKT, sts) && done) || ((bytes as usize) <= ev.dma_data.len()
                && ev.dma_data.len() == DMA_BUF_LEN)
        } else {
            true
        }
    }

    /// Start receiving into `buf`: the transfer is set up and, if enumeration
    /// is complete, reception starts at once (otherwise when the host
    /// configures the device).
    pub fn read_data(&self, buf: Vec<u8>, ops: &mut Vec<RegOp>) -> (consumer: UsbReceiveBuffers)
        requires
            self.wf(),
        ensures
            consumer.wf(),
            consumer.data_read_buffer == Some(buf),
            consumer.data_read_index == 0,
            !consumer.data_read_done,
            consumer.data_write_buffer is None,
            consumer.data_write_index == 0,
            consumer.data_write_done,
            prog(final(ops)@) == prog(old(ops)@) + if self.enum_complete {
                start_rx_prog(self.usb_bulk_out)
            } else {
                Seq::empty()
            },
    {
        let mut consumer = UsbReceiveBuffers::new();
        consumer.set_data_read_buffer(Some(buf));
        if self.enum_complete {
            self.usb_bulk_out.start_rx(ops);
        } else {
            assert(prog(ops@) =~= prog(old(ops)@) + Seq::empty());
        }
        consumer
    }

    /// Start sending `buf`: the transfer is set up and its first piece sent.
    pub fn write_data(&self, buf: Vec<u8>, ops: &mut Vec<RegOp>) -> (consumer: UsbReceiveBuffers)
        requires
            self.wf(),
        ensures
            consumer.wf(),
            consumer.data_read_buffer is None,
            consumer.data_read_done,
            !consumer.data_write_done,
            consumer@ == transmit_step(self.usb_bulk_in, UsbReceiveBuffers::fresh_write(buf@)).t,
            prog(final(ops)@) == prog(old(ops)@) + transmit_step(self.usb_bulk_in, UsbReceiveBuffers::fresh_write(buf@)).ops,
    {
        let mut consumer = UsbReceiveBuffers::new();
        consumer.set_data_write_buffer(Some(buf));
        assert(consumer@ == UsbReceiveBuffers::fresh_write(buf@));
        self.usb_bulk_in.resume_transmit(&mut consumer, ops);
        consumer
    }
}

impl UsbReceiveBuffers {
    /// The state of a transfer that only sends `w`, nothing sent yet.
    pub open spec fn fresh_write(w: Seq<u8>) -> Transfer {
        Transfer {
            read: None,
            write: Some(w),
            read_index: 0,
            write_index: 0,
            read_done: true,
            write_done: false,
        }
    }
}

// ---------------------------------------------------------------------------
// Laws of transfers
// ---------------------------------------------------------------------------

/// Packets that arrive one after the other leave the transfer as one packet
/// with their bytes together would; what does not fit is dropped either way.
pub proof fn lemma_receive_concat(ep: Endpoint, t: Transfer, rx1: Seq<u8>, rx2: Seq<u8>)
    requires
        transfer_wf(t),
        t.read is Some,
    ensures
        receive_step(ep, receive_step(ep, t, rx1).t, rx2).t == receive_step(ep, t, rx1 + rx2).t,
        transfer_wf(receive_step(ep, t, rx1 + rx2).t),
{
    let b = t.read->0;
    let i = t.read_index;
    let rem = b.len() - i;
    let n1 = if rx1.len() < rem {
        rx1.len() as int
    } else {
        rem
    };
    let t1 = receive_step(ep, t, rx1).t;
    let b1 = b.take(i) + rx1.take(n1) + b.skip(i + n1);
    assert(t1.read == Some(b1));
    assert(b1.len() == b.len());
    let n2 = if rx2.len() < b.len() - (i + n1) {
        rx2.len() as int
    } else {
        b.len() - (i + n1)
    };
    let n = if (rx1 + rx2).len() < rem {
        (rx1 + rx2).len() as int
    } else {
        rem
    };
    assert(n == n1 + n2);
    let two = b1.take(i + n1) + rx2.take(n2) + b1.skip(i + n1 + n2);
    let one = b.take(i) + (rx1 + rx2).take(n1 + n2) + b.skip(i + n1 + n2);
    if n2 > 0 {
        assert(n1 == rx1.len());
        assert((rx1 + rx2).take(n1 + n2) =~= rx1.take(n1) + rx2.take(n2));
    } else {
        assert((rx1 + rx2).take(n1 + n2) =~= rx1.take(n1));
    }
    assert(two =~= one);
}

/// Each piece sent moves the write index forward, never past the end of the
/// write buffer, and sends exactly the bytes between the old and the new index.
pub proof fn lemma_transmit_progress(ep: Endpoint, t: Transfer)
    requires
        transfer_wf(t),
        t.write is Some,
        t.write_index < t.write->0.len(),
    ensures
        t.write_index < transmit_step(ep, t).t.write_index <= t.write->0.len(),
        transmit_step(ep, t).t.write_index <= t.write_index + DMA_BUF_LEN,
        transfer_wf(transmit_step(ep, t).t),
        transmit_step(ep, t).ops[0] == (Op::Fill {
            addr: ep.mem.dma_buf,
            bytes: t.write->0.subrange(t.write_index, transmit_step(ep, t).t.write_index),
        }),
{
}

/// Receiving keeps a transfer well formed, and the read is done exactly when
/// its buffer is full (or was already done).
pub proof fn lemma_receive_wf(ep: Endpoint, t: Transfer, rx: Seq<u8>)
    requires
        transfer_wf(t),
    ensures
        transfer_wf(receive_step(ep, t, rx).t),
        t.read is Some ==> (receive_step(ep, t, rx).t.read_done <==> (t.read_done
            || receive_step(ep, t, rx).t.read_index == t.read->0.len())),
{
}

/// The endpoints served in a round are exactly those whose interrupt bit is
/// set: IN endpoint `e` for bit `e`, OUT endpoint `e` for bit `16 + e`.
pub proof fn lemma_pending_exact(ep_intr: u32, n: nat, dir: Direction, e: usize)
    requires
        n <= SERVED_ENDPOINTS,
    ensures
        pending_spec(ep_intr, n).contains((dir, e)) <==> (e < n && if dir == Direction::In {
            ep_intr & field_mask(1, e) != 0
        } else {
            ep_intr & field_mask(1, (16 + e) as usize) != 0
        }),
    decreases n,
{
    if n > 0 {
        lemma_pending_exact(ep_intr, (n - 1) as nat, dir, e);
        let ep = (n - 1) as usize;
        let prev = pending_spec(ep_intr, (n - 1) as nat);
        let a = if ep_intr & field_mask(1, ep) != 0 {
            seq![(Direction::In, ep)]
        } else {
            Seq::empty()
        };
        let b = if ep_intr & field_mask(1, (16 + ep) as usize) != 0 {
            seq![(Direction::Out, ep)]
        } else {
            Seq::empty()
        };
        let all = prev + a + b;
        assert(pending_spec(ep_intr, n) == all);
        if all.contains((dir, e)) {
            let k = choose|k: int| 0 <= k < all.len() && all[k] == (dir, e);
            if k >= prev.len() {
                assert(e == ep);
            } else {
                assert(prev[k] == (dir, e));
            }
        }
        if e < n && (if dir == Direction::In {
            ep_intr & field_mask(1, e) != 0
        } else {
            ep_intr & field_mask(1, (16 + e) as usize) != 0
        }) {
            if e < n - 1 {
                let k = choose|k: int| 0 <= k < prev.len() && prev[k] == (dir, e);
                assert(all[k] == (dir, e));
            } else if dir == Direction::In {
                assert(all[prev.len() as int] == (dir, e));
            } else {
                assert(all[(prev.len() + a.len()) as int] == (dir, e));
            }
        }
    }
}

/// All the bytes of a run of packets, in order.
pub open spec fn flatten(ps: Seq<Seq<u8>>) -> Seq<u8>
    decreases ps.len(),
{
    if ps.len() == 0 {
        Seq::empty()
    } else {
        flatten(ps.drop_last()) + ps.last()
    }
}

/// The transfer after the packets `ps` arrived, one after the other.
pub open spec fn receive_all(ep: Endpoint, t: Transfer, ps: Seq<Seq<u8>>) -> Transfer
    decreases ps.len(),
{
    if ps.len() == 0 {
        t
    } else {
        receive_step(ep, receive_all(ep, t, ps.drop_last()), ps.last()).t
    }
}

/// A run of packets fills the read buffer in order: from the read index on,
/// the buffer holds their bytes, as many as fit; the rest of the buffer is
/// untouched, the index has moved past the bytes stored, and the read is done
/// once the buffer is full.
pub proof fn lemma_receive_all(ep: Endpoint, t: Transfer, ps: Seq<Seq<u8>>)
    requires
        transfer_wf(t),
        t.read is Some,
        ps.len() >= 1,
    ensures
        receive_all(ep, t, ps) == receive_step(ep, t, flatten(ps)).t,
        ({
            let b = t.read->0;
            let i = t.read_index;
            let all = flatten(ps);
            let n = if all.len() < b.len() - i {
                all.len() as int
            } else {
                b.len() - i
            };
            &&& receive_all(ep, t, ps).read == Some(b.take(i) + all.take(n) + b.skip(i + n))
            &&& receive_all(ep, t, ps).read_index == i + n
            &&& (receive_all(ep, t, ps).read_done <==> t.read_done || i + n == b.len())
            &&& transfer_wf(receive_all(ep, t, ps))
        }),
    decreases ps.len(),
{
    if ps.len() == 1 {
        assert(ps.drop_last().len() == 0);
        assert(flatten(ps) =~= ps.last());
    } else {
        let init = ps.drop_last();
        lemma_receive_all(ep, t, init);
        lemma_receive_concat(ep, t, flatten(init), ps.last());
    }
}

/// The transfer after `k` pieces of the write buffer were sent.
pub open spec fn transmit_all(ep: Endpoint, t: Transfer, k: nat) -> Transfer
    decreases k,
{
    if k == 0 {
        t
    } else {
        transmit_step(ep, transmit_all(ep, t, (k - 1) as nat)).t
    }
}

/// The bytes that the first `k` pieces sent, in order.
pub open spec fn sent_all(ep: Endpoint, t: Transfer, k: nat) -> Seq<u8>
    decreases k,
{
    if k == 0 {
        Seq::empty()
    } else {
        let before = transmit_all(ep, t, (k - 1) as nat);
        sent_all(ep, t, (k - 1) as nat) + before.write->0.subrange(
            before.write_index,
            transmit_step(ep, before).t.write_index,
        )
    }
}

/// Sending a write buffer piece by piece sends it in order: after `k` pieces
/// the write index is `k` buffers further on (but not past the end), and the
/// bytes sent so far are exactly those between the old and the new index.
pub proof fn lemma_transmit_all(ep: Endpoint, t: Transfer, k: nat)
    requires
        transfer_wf(t),
        t.write is Some,
    ensures
        transmit_all(ep, t, k).write == t.write,
        transmit_all(ep, t, k).write_index == if t.write_index + DMA_BUF_LEN * k < t.write->0.len() {
            t.write_index + DMA_BUF_LEN * k
        } else {
            t.write->0.len() as int
        },
        sent_all(ep, t, k) == t.write->0.subrange(t.write_index, transmit_all(ep, t, k).write_index),
        transfer_wf(transmit_all(ep, t, k)),
    decreases k,
{
    if k > 0 {
        lemma_transmit_all(ep, t, (k - 1) as nat);
        let before = transmit_all(ep, t, (k - 1) as nat);
        let w = t.write->0;
        assert(w.subrange(t.write_index, before.write_index) + w.subrange(
            before.write_index,
            transmit_step(ep, before).t.write_index,
        ) =~= w.subrange(t.write_index, transmit_step(ep, before).t.write_index));
    }
}

} // verus!
verus! {

/// A descriptor handed to the DMA engine with `len` bytes reads back as
/// ready for the engine with exactly `len` bytes.
pub proof fn lemma_desc_ready_count(len: u32)
    requires
        len <= 0xffff,
    ensures
        desc_bytes(desc_status_ready(len)) == len,
        desc_buf_sts(desc_status_ready(len)) == 0,
{
    let w = desc_status_ready(len);
    assert(w == ((0u32 & 3u32) << 30usize) | ((1u32 & 1u32) << 27usize) | ((len & 0xffffu32) << 0usize));
    assert(((((0u32 & 3u32) << 30u32) | ((1u32 & 1u32) << 27u32) | ((len & 0xffffu32) << 0u32)) & (0xffffu32
        << 0u32)) >> 0u32 == len && ((((0u32 & 3u32) << 30u32) | ((1u32 & 1u32) << 27u32) | ((len
        & 0xffffu32) << 0u32)) & (3u32 << 30u32)) >> 30u32 == 0) by (bit_vector)
        requires
            len <= 0xffff,
    ;
}

/// Each piece of a write goes into the endpoint's buffer and the DMA engine
/// is told to send exactly as many bytes as were filled: the bytes from the
/// write index on, as many as remain but at most one buffer, after which the
/// write index has moved past them.
pub proof fn lemma_transmit_piece(ep: Endpoint, t: Transfer)
    requires
        transfer_wf(t),
        t.write is Some,
    ensures
        ({
            let w = t.write->0;
            let i = t.write_index;
            let n = if w.len() - i < DMA_BUF_LEN {
                w.len() - i
            } else {
                DMA_BUF_LEN as int
            };
            let s = transmit_step(ep, t);
            &&& s.t.write_index == i + n
            &&& s.ops[0] == (Op::Fill { addr: ep.mem.dma_buf, bytes: w.subrange(i, i + n) })
            &&& s.ops[2] is Write
            &&& s.ops[2]->Write_addr == ep.mem.data_desc
            &&& desc_bytes(s.ops[2]->Write_value) == n
            &&& desc_buf_sts(s.ops[2]->Write_value) == 0
        }),
{
    let w = t.write->0;
    let i = t.write_index;
    let n = if w.len() - i < DMA_BUF_LEN {
        w.len() - i
    } else {
        DMA_BUF_LEN as int
    };
    lemma_desc_ready_count(n as u32);
}

/// A GET_DESCRIPTOR request for a descriptor the device has is answered
/// with the first `min(wLength, length)` bytes of that descriptor, and the
/// DMA engine is told to send exactly that many bytes.
pub proof fn lemma_get_descriptor_sends(out: Endpoint, ep_in: Endpoint, pkt: Seq<u8>)
    requires
        pkt.len() == 8,
        descriptor_spec(pkt[3], pkt[2]) is Some,
    ensures
        ({
            let d = descriptor_spec(pkt[3], pkt[2])->0;
            let w_length = pkt[6] + 256 * pkt[7];
            let n = if w_length < d.len() {
                w_length
            } else {
                d.len() as int
            };
            let p = get_descriptor_prog(out, ep_in, pkt);
            &&& p[0] == (Op::Fill { addr: ep_in.mem.dma_buf, bytes: d.take(n) })
            &&& p[2] is Write
            &&& p[2]->Write_addr == ep_in.mem.data_desc
            &&& desc_bytes(p[2]->Write_value) == n
        }),
{
    let d = descriptor_spec(pkt[3], pkt[2])->0;
    crate::descr::lemma_descriptors_self_describing();
    assert(d.len() <= 0xffff);
    let w_length = pkt[6] + 256 * pkt[7];
    let n = if w_length < d.len() {
        w_length
    } else {
        d.len() as int
    };
    lemma_desc_ready_count(n as u32);
}

/// A bulk OUT packet whose DMA is done stores the first `desc_bytes` bytes
/// of the DMA buffer in the read buffer from the read index on, as many as
/// fit; the rest of the read buffer is untouched, the index moves past the
/// bytes stored, and the read is done once the buffer is full. A packet whose
/// DMA is not done changes nothing.
pub proof fn lemma_bulk_out_stores(ep: Endpoint, t: Transfer, desc_status: u32, data: Seq<u8>)
    requires
        transfer_wf(t),
        t.read is Some,
        desc_bytes(desc_status) <= data.len(),
    ensures
        ({
            let b = t.read->0;
            let i = t.read_index;
            let rx = desc_bytes(desc_status) as int;
            let n = if rx < b.len() - i {
                rx
            } else {
                b.len() - i
            };
            let s = bulk_out_pkt_step(ep, t, desc_status, data);
            &&& !s.halted
            &&& desc_buf_sts(desc_status) == DMA_DONE ==> {
                &&& s.t.read == Some(b.take(i) + data.take(n) + b.skip(i + n))
                &&& s.t.read_index == i + n
                &&& (s.t.read_done <==> t.read_done || i + n == b.len())
                &&& s.t.write == t.write && s.t.write_index == t.write_index
            }
            &&& desc_buf_sts(desc_status) != DMA_DONE ==> s.t == t && s.ops.len() == 0
        }),
{
    let b = t.read->0;
    let i = t.read_index;
    let rx = desc_bytes(desc_status) as int;
    let n = if rx < b.len() - i {
        rx
    } else {
        b.len() - i
    };
    if desc_buf_sts(desc_status) == DMA_DONE {
        assert(data.take(rx).take(n) =~= data.take(n));
    }
}

} // verus!
verus! {

/// The setup packet's bytes are its two words, little end first.
pub proof fn lemma_setup_bytes_le(d0: u32, d1: u32)
    ensures
        ({
            let b = setup_bytes(d0, d1);
            &&& b.len() == 8
            &&& b[0] + 0x100 * b[1] + 0x1_0000 * b[2] + 0x100_0000 * b[3] == d0
            &&& b[4] + 0x100 * b[5] + 0x1_0000 * b[6] + 0x100_0000 * b[7] == d1
        }),
{
}

/// The device answers GET_DESCRIPTOR for the device (1), configuration (2)
/// and device qualifier (6) descriptors and for string descriptors 0 to 3;
/// the descriptor it answers with has the type asked for, states its own
/// length in its first byte (the configuration descriptor its header length,
/// 9), and fits one DMA buffer.
pub proof fn lemma_descriptor_choice(typ: u8, index: u8)
    ensures
        descriptor_spec(typ, index) is Some <==> (typ == 1 || typ == 2 || typ == 6 || (typ == 3
            && index < 4)),
        descriptor_spec(typ, index) matches Some(d) ==> {
            &&& d.len() >= 2
            &&& d[1] == typ
            &&& (typ != 2 ==> d[0] == d.len())
            &&& (typ == 2 ==> d[0] == 9)
            &&& d.len() <= DMA_BUF_LEN
        },
{
    crate::descr::lemma_descriptors_self_describing();
    crate::descr::lemma_configuration_layout();
}

/// An IN packet of a write that has sent every byte ends the write and makes
/// the endpoint answer NAK; otherwise the next piece goes out.
pub proof fn lemma_bulk_in_done(ep: Endpoint, t: Transfer)
    requires
        transfer_wf(t),
        t.write is Some,
    ensures
        t.write_index == t.write->0.len() ==> {
            let s = bulk_in_step(ep, t);
            &&& s.t.write_done
            &&& s.t.write_index == t.write_index
            &&& s.ops.len() == 1
            &&& s.ops[0] is Modify && s.ops[0]->Modify_addr == ctrl_reg(ep)
            &&& s.ops[0]->Modify_set & 0x80 != 0
            &&& s.ops[0]->Modify_set & 0x100 == 0
        },
        t.write_index < t.write->0.len() ==> {
            let s = bulk_in_step(ep, t);
            &&& s.t.write_done == t.write_done
            &&& t.write_index < s.t.write_index <= t.write->0.len()
            &&& s.ops[0] == (Op::Fill {
                addr: ep.mem.dma_buf,
                bytes: t.write->0.subrange(t.write_index, s.t.write_index),
            })
        },
{
    assert((((1u32 & 1u32) << 7usize) | ((0u32 & 1u32) << 8usize)) & 0x80 != 0 && (((1u32 & 1u32)
        << 7usize) | ((0u32 & 1u32) << 8usize)) & 0x100 == 0) by (bit_vector);
}

/// The UDC word of an endpoint holds its number (3 bits), its direction (bit
/// 4, set for IN), control type for endpoint 0 and bulk otherwise (bits 5-6),
/// configuration 1 (bit 7) and a 64-byte maximum packet (bits 19-31).
pub proof fn lemma_udc_word_fields(ep: Endpoint)
    ensures
        ({
            let w = udc_word(ep);
            &&& w & 7 == (ep.ep_num as u32) & 7
            &&& (w & 0x10 != 0) == (ep.direction == Direction::In)
            &&& (w >> 5u32) & 3 == if ep.ep_num == 0 { 0u32 } else { 2u32 }
            &&& w & 0x80 != 0
            &&& w >> 19u32 == 64
        }),
{
    let e = ep.ep_num as u32;
    let d = bit(ep.direction == Direction::In);
    let t: u32 = if ep.ep_num == 0 { 0 } else { 2 };
    assert(udc_word(ep) == ((e & 7u32) << 0usize) | ((d & 1u32) << 4usize) | ((t & 3u32) << 5usize) | ((1u32
        & 1u32) << 7usize) | ((64u32 & 0x1fffu32) << 19usize));
    assert({
        let w = ((e & 7u32) << 0u32) | ((d & 1u32) << 4u32) | ((t & 3u32) << 5u32) | ((1u32 & 1u32) << 7u32)
            | ((64u32 & 0x1fffu32) << 19u32);
        &&& w & 7 == e & 7
        &&& (w & 0x10 != 0) == (d == 1)
        &&& (w >> 5u32) & 3 == t
        &&& w & 0x80 != 0
        &&& w >> 19u32 == 64
    }) by (bit_vector)
        requires
            d == 0 || d == 1,
            t == 0 || t == 2,
    ;
}

} // verus!
verus! {

/// Whatever a setup packet asks, the setup buffer is re-armed last and the
/// endpoint pointed at it; a standard device-to-host GET_DESCRIPTOR request
/// (first bytes 0x80, 0x06) is answered first, any other request gets no
/// answer.
pub proof fn lemma_decode_request(out: Endpoint, ep_in: Endpoint, d0: u32, d1: u32)
    ensures
        ({
            let p = decode_request_prog(out, ep_in, d0, d1);
            let pkt = setup_bytes(d0, d1);
            &&& p.last() == (Op::Write { addr: (ep_base(out) + EP_SETUP_BUF_PTR) as u32, value: out.mem.setup_pkt })
            &&& (d0 % 0x1_0000 == 0x0680 ==> p == get_descriptor_prog(out, ep_in, pkt) + setup_pkt_init_prog(out))
            &&& (d0 % 0x1_0000 != 0x0680 ==> p == setup_pkt_init_prog(out))
        }),
{
    let pkt = setup_bytes(d0, d1);
    assert(pkt[0] == d0 % 0x100 && pkt[1] == d0 / 0x100 % 0x100);
    assert((d0 % 0x1_0000 == 0x0680) == (d0 % 0x100 == 0x80 && d0 / 0x100 % 0x100 == 6));
    if d0 % 0x1_0000 != 0x0680 {
        assert(decode_request_prog(out, ep_in, d0, d1) =~= setup_pkt_init_prog(out));
    }
}

/// Enumeration stops the machine exactly when it did not happen at high
/// speed; at high speed both bulk endpoints get a 512-byte maximum packet.
pub proof fn lemma_enum_complete(usb: Usb, dev_sts: u32)
    ensures
        ({
            let p = enum_complete_prog(usb, dev_sts);
            &&& (p.last() == Op::Halt) <==> enum_speed(dev_sts) != 0
            &&& enum_speed(dev_sts) == 0 ==> {
                &&& p[5] == (Op::Write { addr: (ep_in_base(1) + EP_MAX_PKT_SZ) as u32, value: 512 })
                &&& p[7] == (Op::Write { addr: (ep_out_base(1) + EP_MAX_PKT_SZ) as u32, value: 512 })
            }
        }),
{
    assert(((512u32 & 0xffffu32) << 0usize) == 512u32) by (bit_vector);
}

} // verus!
verus! {

/// Handing a buffer to the DMA engine points the descriptor at the
/// endpoint's buffer and lets the endpoint accept transfers (NAK cleared,
/// clear-NAK set): for sending, with the count of bytes to send, then a poll
/// demand; for receiving, with room for a whole buffer and receive DMA on.
pub proof fn lemma_dma_hand_over(ep: Endpoint, len: u32)
    requires
        len <= 0xffff,
    ensures
        ({
            let tx = start_tx_prog(ep, len);
            let rx = start_rx_prog(ep);
            &&& tx[0] == (Op::Write { addr: (ep.mem.data_desc + DESC_DATA_PTR) as u32, value: ep.mem.dma_buf })
            &&& tx[1] is Write && tx[1]->Write_addr == ep.mem.data_desc
            &&& desc_bytes(tx[1]->Write_value) == len && desc_buf_sts(tx[1]->Write_value) == 0
            &&& tx[2] is Modify && tx[2]->Modify_addr == ctrl_reg(ep)
            &&& tx[2]->Modify_set & 0x80 == 0 && tx[2]->Modify_set & 0x100 != 0
            &&& tx[3] is Modify && tx[3]->Modify_addr == ctrl_reg(ep) && tx[3]->Modify_set & 0x8 != 0
            &&& rx[0] == (Op::Write { addr: (ep.mem.data_desc + DESC_DATA_PTR) as u32, value: ep.mem.dma_buf })
            &&& rx[1] is Write && rx[1]->Write_addr == ep.mem.data_desc
            &&& desc_bytes(rx[1]->Write_value) == DMA_BUF_LEN && desc_buf_sts(rx[1]->Write_value) == 0
            &&& rx[2] is Modify && rx[2]->Modify_addr == USB_DEV_CTRL && rx[2]->Modify_set & 0x4 != 0
            &&& rx[3] is Modify && rx[3]->Modify_addr == ctrl_reg(ep)
            &&& rx[3]->Modify_set & 0x80 == 0 && rx[3]->Modify_set & 0x100 != 0
        }),
{
    lemma_desc_ready_count(len);
    lemma_desc_ready_count(DMA_BUF_LEN as u32);
    assert((((0u32 & 1u32) << 7usize) | ((1u32 & 1u32) << 8usize)) & 0x80 == 0 && (((0u32 & 1u32) << 7usize)
        | ((1u32 & 1u32) << 8usize)) & 0x100 != 0 && ((1u32 & 1u32) << 3usize) & 0x8 != 0 && ((1u32
        & 1u32) << 2usize) & 0x4 != 0) by (bit_vector);
}

/// Bringing the device up configures it for high speed, self powered, 8-bit
/// bidirectional UTMI PHY, DDR and remote wake-up (0x0008_006c), and its
/// control for receive and transmit DMA in DMA mode (0x0000_020c).
pub proof fn lemma_device_words()
    ensures
        dev_cfg_value() == 0x0008_006c,
        dev_ctrl_value() == 0x0000_020c,
{
    assert(((0u32 & 3u32) << 0usize) | ((1u32 & 1u32) << 3usize) | ((1u32 & 1u32) << 5usize) | ((1u32 & 1u32)
        << 6usize) | ((0u32 & 1u32) << 16usize) | ((0u32 & 1u32) << 18usize) | ((1u32 & 1u32) << 19usize)
        | ((1u32 & 1u32) << 2usize) == 0x0008_006c && ((1u32 & 1u32) << 2usize) | ((1u32 & 1u32) << 3usize)
        | ((0u32 & 1u32) << 4usize) | ((0u32 & 1u32) << 5usize) | ((1u32 & 1u32) << 9usize) == 0x0000_020c)
        by (bit_vector);
}

} // verus!
