use bootcore::regs::RegOp;
use bootcore::usb::{
    descriptor_for, usb_ep_in_registers, usb_ep_out_registers, usb_udc_register, Direction,
    EndpointMemory, EpEvent, SetupRequest, Usb, UsbReceiveBuffers,
};

fn mem(base: u32) -> EndpointMemory {
    EndpointMemory { setup_pkt: base, data_desc: base + 0x20, dma_buf: base + 0x40 }
}

fn device() -> Usb {
    Usb::new(mem(0x10_0000), mem(0x10_1000), mem(0x10_2000), mem(0x10_3000))
}

fn event(sts: u32, desc_status: u32, d0: u32, d1: u32, data: Vec<u8>) -> EpEvent {
    EpEvent { sts, desc_status, setup_data0: d0, setup_data1: d1, dma_data: data }
}

#[test]
fn register_blocks() {
    assert_eq!(usb_ep_in_registers(0), 0xe000_6000);
    assert_eq!(usb_ep_in_registers(1), 0xe000_6020);
    assert_eq!(usb_ep_out_registers(1), 0xe000_6220);
    assert_eq!(usb_udc_register(3), 0xe000_6510);
}

#[test]
fn setup_request_codes() {
    assert_eq!(SetupRequest::from(0), SetupRequest::GetStatus);
    assert_eq!(SetupRequest::from(6), SetupRequest::GetDescriptor);
    assert_eq!(SetupRequest::from(12), SetupRequest::SynchFrame);
    assert_eq!(SetupRequest::from(2), SetupRequest::Unsupported);
    assert_eq!(SetupRequest::from(4), SetupRequest::Unsupported);
    assert_eq!(SetupRequest::from(1000), SetupRequest::Unsupported);
    for code in 0u32..13 {
        let r = SetupRequest::from(code);
        if r != SetupRequest::Unsupported {
            assert_eq!(r.code(), code);
        }
    }
}

#[test]
fn descriptor_selection() {
    assert_eq!(descriptor_for(1, 0).unwrap().len(), 18);
    assert_eq!(descriptor_for(2, 0).unwrap().len(), 46);
    assert_eq!(descriptor_for(3, 2).unwrap().len(), 56);
    assert_eq!(descriptor_for(6, 0).unwrap().len(), 10);
    assert!(descriptor_for(3, 4).is_none());
    assert!(descriptor_for(4, 0).is_none());
}

#[test]
fn initialize_program() {
    let usb = device();
    let mut ops = Vec::new();
    usb.initialize(&mut ops);
    // reset first
    assert_eq!(ops[0], RegOp::Modify { addr: 0xec17_0050, clear: 0, set: 4 });
    assert_eq!(ops[3], RegOp::Modify { addr: 0xec17_0050, clear: 4, set: 0 });
    // control IN endpoint: control type, 64-byte buffer, 64-byte packets
    assert_eq!(ops[4], RegOp::Write { addr: 0xe000_6000, value: 0 });
    assert_eq!(ops[5], RegOp::Write { addr: 0xe000_6008, value: 16 });
    assert_eq!(ops[6], RegOp::Write { addr: 0xe000_600c, value: 64 });
    // its data descriptor: DMA done, last, buffer, chained to itself
    assert_eq!(ops[7], RegOp::Write { addr: 0x10_0020, value: 0x8800_0000 });
    assert_eq!(ops[9], RegOp::Write { addr: 0x10_0028, value: 0x10_0040 });
    assert_eq!(ops[10], RegOp::Write { addr: 0x10_002c, value: 0x10_0020 });
    assert_eq!(ops[11], RegOp::Write { addr: 0xe000_6014, value: 0x10_0020 });
    let n = ops.len();
    assert_eq!(ops[n - 9], RegOp::Write { addr: 0xe000_6400, value: 0x0008_006c });
    assert_eq!(ops[n - 8], RegOp::Write { addr: 0xe000_6404, value: 0x0000_020c });
    assert_eq!(ops[n - 3], RegOp::Modify { addr: 0xe000_6410, clear: 0x43, set: 0 });
    assert_eq!(ops[n - 2], RegOp::Write { addr: 0xe000_6418, value: 0xfff0_fff0 });
    assert_eq!(ops[n - 1], RegOp::Modify { addr: 0xe000_6404, clear: 1, set: 1 });
}

#[test]
fn get_descriptor_request_sends_prefix() {
    let usb = device();
    let mut consumer = UsbReceiveBuffers::new();
    let mut ops = Vec::new();
    // SETUP: 80 06 00 01 00 00 40 00 (device descriptor, 64 bytes asked)
    let ev = event(0x20, 0, 0x0100_0680, 0x0040_0000, vec![0; 512]);
    let halted = usb.handle_ep_intr(Direction::Out, 0, &ev, &mut consumer, &mut ops);
    assert!(!halted);
    // acknowledge the SETUP status bit
    assert_eq!(ops[0], RegOp::Write { addr: 0xe000_6204, value: 0x20 });
    match &ops[1] {
        RegOp::Fill { addr, bytes } => {
            assert_eq!(*addr, 0x10_0040);
            assert_eq!(bytes.len(), 18);
            assert_eq!(bytes[0], 0x12);
        }
        other => panic!("expected a fill, got {:?}", other),
    }
    // the descriptor goes out with 18 bytes
    assert_eq!(ops[3], RegOp::Write { addr: 0x10_0020, value: 0x0800_0012 });
    // the setup buffer is re-armed at the end
    assert_eq!(ops[ops.len() - 1], RegOp::Write { addr: 0xe000_6210, value: 0x10_1000 });
}

#[test]
fn get_descriptor_request_cut_to_w_length() {
    let usb = device();
    let mut consumer = UsbReceiveBuffers::new();
    let mut ops = Vec::new();
    // configuration descriptor, 9 bytes asked
    let ev = event(0x20, 0, 0x0200_0680, 0x0009_0000, vec![0; 512]);
    usb.handle_ep_intr(Direction::Out, 0, &ev, &mut consumer, &mut ops);
    match &ops[1] {
        RegOp::Fill { bytes, .. } => assert_eq!(bytes, &vec![9, 2, 0x20, 0, 1, 1, 0, 0xc0, 100]),
        other => panic!("expected a fill, got {:?}", other),
    }
}

#[test]
fn unknown_descriptor_stalls() {
    let usb = device();
    let mut consumer = UsbReceiveBuffers::new();
    let mut ops = Vec::new();
    // string descriptor 9 does not exist
    let ev = event(0x20, 0, 0x0309_0680, 0x00ff_0000, vec![0; 512]);
    usb.handle_ep_intr(Direction::Out, 0, &ev, &mut consumer, &mut ops);
    assert_eq!(ops[1], RegOp::Modify { addr: 0xe000_6000, clear: 0x1, set: 0x1 });
}

#[test]
fn bulk_read_fills_buffer_in_order() {
    let mut usb = device();
    let mut ops = Vec::new();
    // enumeration: set configuration
    let consumer0 = UsbReceiveBuffers::new();
    usb.handle_interrupts(1, 0, 0, &consumer0, &mut ops);
    assert!(usb.enum_complete);
    let mut ops = Vec::new();
    let mut consumer = usb.read_data(vec![0; 8], &mut ops);
    assert!(consumer.need_more_read());
    // first packet: 5 bytes
    let mut data = vec![0u8; 512];
    data[..5].copy_from_slice(&[0x55, 0, 1, 2, 3]);
    let ev = event(0x10, 0x8800_0005, 0, 0, data);
    let mut ops = Vec::new();
    assert!(!usb.handle_ep_intr(Direction::Out, 1, &ev, &mut consumer, &mut ops));
    assert_eq!(consumer.data_read_index, 5);
    assert!(!consumer.data_read_done);
    // second packet: 6 bytes, 3 fit
    let mut data = vec![0u8; 512];
    data[..6].copy_from_slice(&[4, 0, 9, 9, 9, 9]);
    let ev = event(0x10, 0x8800_0006, 0, 0, data);
    let mut ops = Vec::new();
    assert!(!usb.handle_ep_intr(Direction::Out, 1, &ev, &mut consumer, &mut ops));
    assert_eq!(consumer.data_read_index, 8);
    assert!(consumer.data_read_done);
    assert_eq!(consumer.data_read_buffer.as_deref(), Some(&[0x55, 0, 1, 2, 3, 4, 0, 9][..]));
    // the endpoint answers NAK once the buffer is full
    assert!(ops.contains(&RegOp::Modify { addr: 0xe000_6220, clear: 0x180, set: 0x80 }));
}

#[test]
fn bulk_write_sends_in_pieces() {
    let usb = device();
    let mut ops = Vec::new();
    let data: Vec<u8> = (0..1100u32).map(|i| i as u8).collect();
    let mut consumer = usb.write_data(data.clone(), &mut ops);
    assert_eq!(consumer.data_write_index, 512);
    let mut sent = Vec::new();
    if let RegOp::Fill { bytes, .. } = &ops[0] {
        sent.extend_from_slice(bytes);
    }
    // each IN packet interrupt sends the next piece
    for expected in [1024usize, 1100] {
        let mut ops = Vec::new();
        let ev = event(0x440, 0x8800_0000, 0, 0, vec![0; 512]);
        assert!(!usb.handle_ep_intr(Direction::In, 1, &ev, &mut consumer, &mut ops));
        assert_eq!(consumer.data_write_index, expected);
        for op in &ops {
            if let RegOp::Fill { bytes, .. } = op {
                sent.extend_from_slice(bytes);
            }
        }
    }
    assert_eq!(sent, data);
    assert!(!consumer.data_write_done);
    let mut ops = Vec::new();
    let ev = event(0x40, 0, 0, 0, vec![0; 512]);
    usb.handle_ep_intr(Direction::In, 1, &ev, &mut consumer, &mut ops);
    assert!(consumer.data_write_done);
    assert!(consumer.is_done());
}

#[test]
fn enumeration_at_full_speed_halts() {
    let mut usb = device();
    let consumer = UsbReceiveBuffers::new();
    let mut ops = Vec::new();
    let halted = usb.handle_interrupts(0x40, 0, 1 << 13, &consumer, &mut ops);
    assert!(halted);
    assert_eq!(ops.last(), Some(&RegOp::Halt));
    let mut ops = Vec::new();
    let halted = usb.handle_interrupts(0x40, 3, 0, &consumer, &mut ops);
    assert!(!halted);
    assert_eq!(ops.last(), Some(&RegOp::Write { addr: 0xe000_6414, value: 3 }));
    // bulk endpoints move to 512-byte packets
    assert!(ops.contains(&RegOp::Write { addr: 0xe000_602c, value: 512 }));
}

#[test]
fn pending_endpoint_order() {
    let p = Usb::pending_endpoints(0x0003_0003);
    assert_eq!(
        p,
        vec![(Direction::In, 0), (Direction::Out, 0), (Direction::In, 1), (Direction::Out, 1)]
    );
    assert!(Usb::pending_endpoints(0).is_empty());
    assert_eq!(Usb::pending_endpoints(0x0020_0000), vec![(Direction::Out, 5)]);
}

#[test]
fn data_without_read_buffer_halts() {
    let usb = device();
    let mut consumer = UsbReceiveBuffers::new();
    let mut ops = Vec::new();
    let ev = event(0x10, 0x8800_0004, 0, 0, vec![1; 512]);
    assert!(usb.handle_ep_intr(Direction::Out, 1, &ev, &mut consumer, &mut ops));
    assert_eq!(ops.last(), Some(&RegOp::Halt));
}

#[test]
fn packets_accumulate_like_one_packet() {
    let usb = device();
    let ep = usb.usb_bulk_out;
    let rx1 = vec![1u8, 2, 3];
    let rx2 = vec![4u8, 5, 6, 7, 8];
    let mut both: Vec<u8> = rx1.clone();
    both.extend_from_slice(&rx2);

    let mut two = UsbReceiveBuffers::new();
    two.set_data_read_buffer(Some(vec![0; 6]));
    let mut ops = Vec::new();
    assert!(!ep.process_rx_data(rx1.len(), &rx1, &mut two, &mut ops));
    assert!(!ep.process_rx_data(rx2.len(), &rx2, &mut two, &mut ops));

    let mut one = UsbReceiveBuffers::new();
    one.set_data_read_buffer(Some(vec![0; 6]));
    let mut ops = Vec::new();
    assert!(!ep.process_rx_data(both.len(), &both, &mut one, &mut ops));

    assert_eq!(two.data_read_buffer, one.data_read_buffer);
    assert_eq!(two.data_read_index, one.data_read_index);
    assert_eq!(two.data_read_done, one.data_read_done);
    assert_eq!(one.data_read_buffer, Some(vec![1, 2, 3, 4, 5, 6]));
    assert!(one.data_read_done);
}

#[test]
fn stall_drives_the_stall_bit() {
    let usb = device();
    let mut ops = Vec::new();
    usb.usb_bulk_out.set_endpoint_stall(true, &mut ops);
    usb.usb_bulk_out.set_endpoint_stall(false, &mut ops);
    assert_eq!(
        ops,
        vec![
            RegOp::Modify { addr: 0xe000_6220, clear: 1, set: 1 },
            RegOp::Modify { addr: 0xe000_6220, clear: 1, set: 0 },
        ]
    );
}

#[test]
fn endpoint_memory_bounds() {
    assert!(mem(0x10_0000).fits());
    assert!(!EndpointMemory { setup_pkt: 0, data_desc: 0, dma_buf: 0xffff_ff00 }.fits());
    assert!(!EndpointMemory { setup_pkt: 0xffff_fff8, data_desc: 0, dma_buf: 0 }.fits());
}

#[test]
fn zero_length_ep0_packet_rearms_setup_only() {
    let usb = device();
    let mut ops = Vec::new();
    // the partner is not used for a zero-length packet
    let rearmed = usb.usb_ctrl_out.handle_ep0_out_packet(&usb.usb_ctrl_out, 0x8800_0000, &mut ops);
    assert!(rearmed);
    assert_eq!(
        ops,
        vec![
            RegOp::Write { addr: 0x10_1000, value: 0 },
            RegOp::Write { addr: 0x10_1004, value: 0xffff_ffff },
            RegOp::Write { addr: 0x10_1008, value: 0xdead_beef },
            RegOp::Write { addr: 0x10_100c, value: 0xffff_ffff },
            RegOp::Write { addr: 0xe000_6210, value: 0x10_1000 },
            RegOp::Modify { addr: 0xe000_6404, clear: 4, set: 4 },
        ]
    );
}
