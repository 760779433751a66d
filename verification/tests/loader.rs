use bootcore::loader::{block_offset, decode_sync, empty_reply, next_action, place_block, request_serviceable, LoaderAction, SyncRequest};

#[test]
fn sync_packet_decoding() {
    let q = decode_sync(&[0x55, 0, 0x78, 0x56, 0x34, 0x12, 0x03, 0x00]).unwrap();
    assert_eq!(q, SyncRequest { addr: 0x1234_5678, numblocks: 3 });
    assert!(decode_sync(&[0x54, 0, 0, 0, 0, 0, 1, 0]).is_none());
}

#[test]
fn request_limits() {
    assert!(request_serviceable(&SyncRequest { addr: 0, numblocks: 16 }));
    assert!(!request_serviceable(&SyncRequest { addr: 0, numblocks: 17 }));
    assert!(request_serviceable(&SyncRequest { addr: 0xffff_fff0, numblocks: 16 }));
    assert!(!request_serviceable(&SyncRequest { addr: 0xffff_fff1, numblocks: 16 }));
}

#[test]
fn reply_assembly() {
    let mut reply = empty_reply();
    assert_eq!(reply.len(), 0x8800);
    assert!(reply.iter().all(|b| *b == 0xcc));
    let block = vec![7u8; 0x880];
    place_block(&mut reply, 2, &block);
    assert_eq!(block_offset(2), 0x1100);
    assert!(reply[0x1100..0x1980].iter().all(|b| *b == 7));
    assert_eq!(reply[0x10ff], 0xcc);
    assert_eq!(reply[0x1980], 0xcc);
}

#[test]
fn request_actions_in_order() {
    let q = SyncRequest { addr: 0x100, numblocks: 3 };
    assert_eq!(next_action(&q, 0), LoaderAction::ReadBlock { index: 0, page: 0x100 });
    assert_eq!(next_action(&q, 2), LoaderAction::ReadBlock { index: 2, page: 0x102 });
    assert_eq!(next_action(&q, 3), LoaderAction::SendReply);
    let empty = SyncRequest { addr: 7, numblocks: 0 };
    assert_eq!(next_action(&empty, 0), LoaderAction::SendReply);
}

#[test]
fn reply_slots_hold_pages_in_order() {
    let mut reply = empty_reply();
    for i in 0..3u16 {
        let page = vec![i as u8 + 1; 0x880];
        place_block(&mut reply, i, &page);
    }
    for i in 0..3usize {
        assert!(reply[i * 0x880..(i + 1) * 0x880].iter().all(|b| *b == i as u8 + 1));
    }
    assert!(reply[3 * 0x880..].iter().all(|b| *b == 0xcc));
}
