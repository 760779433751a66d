//! The boot loader's service: the host asks, over USB, for flash pages, and
//! gets them back.
//!
//! A request is an 8-byte sync packet: the magic byte, one byte unused, the
//! first page address (32 bits, little end first) and the number of pages
//! (16 bits, little end first). Each page is read with its spare area into a
//! staging area, then copied into the reply.
use crate::descr::le16;
use crate::nand::{nand_read_block, nand_read_block_prog, PAGE_SIZE, SPARE_SIZE};
use crate::regs::{prog, RegOp};
use vstd::prelude::*;

verus! {

/// First byte of every request.
pub const SYNC_MAGIC: u8 = 0x55;

/// Bytes of one page with its spare area, as it goes to the host.
pub const BLOCK_BYTES: usize = 0x880;

/// Pages that fit in one reply.
pub const MAX_BLOCKS: usize = 16;

/// Bytes of a reply: it always holds room for the largest request.
pub const REPLY_BYTES: usize = 0x8800;

/// Where pages are staged on their way from the flash to the reply.
pub const STAGING_ADDR: u32 = 0x0040_0000;

/// Filler of the parts of a reply that hold no page.
pub const REPLY_FILL: u8 = 0xcc;

/// A request for `numblocks` pages starting at page address `addr`.
#[derive(Clone, Copy, Debug, PartialEq, Eq, Structural)]
pub struct SyncRequest {
    pub addr: u32,
    pub numblocks: u16,
}

/// The little-endian 32-bit value of four bytes.
pub open spec fn le32(b0: u8, b1: u8, b2: u8, b3: u8) -> int {
    b0 + 256 * b1 + 65536 * b2 + 16777216 * b3
}

/// The request a sync packet holds, if it starts with the magic byte.
pub fn decode_sync(sync: &[u8; 8]) -> (r: Option<SyncRequest>)
    ensures
        r is None <==> sync@[0] != SYNC_MAGIC,
        r matches Some(q) ==> q.addr == le32(sync@[2], sync@[3], sync@[4], sync@[5]) && q.numblocks
            == le16(sync@[6], sync@[7]),
{
    if sync[0] != SYNC_MAGIC {
        return None;
    }
    let addr: u32 = sync[2] as u32 + (sync[3] as u32) * 256 + (sync[4] as u32) * 65536 + (sync[5] as u32)
        * 16777216;
    let numblocks: u16 = sync[6] as u16 + (sync[7] as u16) * 256;
    Some(SyncRequest { addr, numblocks })
}

/// Whether the loader can serve a request: its pages fit in one reply and
/// their addresses do not run past the last page address.
pub open spec fn serviceable(q: SyncRequest) -> bool {
    q.numblocks <= MAX_BLOCKS && q.addr + q.numblocks <= u32::MAX + 1
}

/// Whether the loader can serve `q`.
pub fn request_serviceable(q: &SyncRequest) -> (r: bool)
    ensures
        r == serviceable(*q),
{
    (q.numblocks as usize) <= MAX_BLOCKS && (q.addr as u64) + (q.numblocks as u64) <= 0x1_0000_0000
}

/// Reading page `i` of request `q` into the staging area: its main area, then
/// its spare area right behind it.
pub open spec fn block_read_prog(q: SyncRequest, i: int) -> Seq<crate::regs::Op> {
    nand_read_block_prog(
        1,
        PAGE_SIZE as u32,
        STAGING_ADDR,
        (STAGING_ADDR + PAGE_SIZE) as u32,
        (q.addr + i) as usize,
    )
}

/// The program that reads page `i` of `q` into the staging area.
pub fn block_read(q: &SyncRequest, i: u16) -> (ops: Vec<RegOp>)
    requires
        serviceable(*q),
        i < q.numblocks,
    ensures
        prog(ops@) == block_read_prog(*q, i as int),
{
    nand_read_block(1, PAGE_SIZE as u32, STAGING_ADDR, STAGING_ADDR + PAGE_SIZE as u32, (q.addr + i as u32) as usize)
}

/// Where page `i` goes in the reply.
pub fn block_offset(i: u16) -> (r: usize)
    requires
        i < MAX_BLOCKS,
    ensures
        r == i * BLOCK_BYTES,
        r + BLOCK_BYTES <= REPLY_BYTES,
{
    (i as usize) * BLOCK_BYTES
}

/// A reply with no page in it yet.
pub fn empty_reply() -> (r: Vec<u8>)
    ensures
        r@.len() == REPLY_BYTES,
        forall|k: int| 0 <= k < REPLY_BYTES ==> r@[k] == REPLY_FILL,
{
    let mut r: Vec<u8> = Vec::new();
    let mut k: usize = 0;
    while k < REPLY_BYTES
        invariant
            k <= REPLY_BYTES,
            r@.len() == k,
            forall|j: int| 0 <= j < k ==> r@[j] == REPLY_FILL,
        decreases REPLY_BYTES - k,
    {
        r.push(REPLY_FILL);
        k = k + 1;
    }
    r
}

/// Put the staged page `block` (main and spare area) at position `i` of the reply.
pub fn place_block(reply: &mut Vec<u8>, i: u16, block: &[u8])
    requires
        old(reply)@.len() == REPLY_BYTES,
        i < MAX_BLOCKS,
        block@.len() == BLOCK_BYTES,
    ensures
        final(reply)@ == place_spec(old(reply)@, i as int, block@),
{
    let off = block_offset(i);
    let ghost r0 = reply@;
    let mut k: usize = 0;
    while k < BLOCK_BYTES
        invariant
            k <= BLOCK_BYTES,
            off == i * BLOCK_BYTES,
            off + BLOCK_BYTES <= REPLY_BYTES,
            block@.len() == BLOCK_BYTES,
            reply@.len() == REPLY_BYTES,
            r0.len() == REPLY_BYTES,
            reply@ =~= r0.take(off as int) + block@.take(k as int) + r0.skip(off + k),
        decreases BLOCK_BYTES - k,
    {
        reply.set(off + k, block[k]);
        k = k + 1;
        assert(reply@ =~= r0.take(off as int) + block@.take(k as int) + r0.skip(off + k));
    }
    assert(block@.take(BLOCK_BYTES as int) =~= block@);
}

/// The next thing to do for request `q` once `i` of its pages are in the reply.
#[derive(Clone, Copy, Debug, PartialEq, Eq, Structural)]
pub enum LoaderAction {
    /// Read page `page` of the flash and put it in slot `index` of the reply.
    ReadBlock { index: u16, page: u32 },
    /// Every page is in: send the whole reply.
    SendReply,
}

/// Serving a request reads its pages in order, page `addr + i` into slot
/// `i`, then sends the reply.
pub open spec fn next_action_spec(q: SyncRequest, i: int) -> LoaderAction {
    if i < q.numblocks {
        LoaderAction::ReadBlock { index: i as u16, page: (q.addr + i) as u32 }
    } else {
        LoaderAction::SendReply
    }
}

/// What to do for `q` after its first `i` pages.
pub fn next_action(q: &SyncRequest, i: u16) -> (a: LoaderAction)
    requires
        serviceable(*q),
        i <= q.numblocks,
    ensures
        a == next_action_spec(*q, i as int),
{
    if i < q.numblocks {
        LoaderAction::ReadBlock { index: i, page: q.addr + i as u32 }
    } else {
        LoaderAction::SendReply
    }
}

/// The reply with page `block` in slot `i`.
pub open spec fn place_spec(reply: Seq<u8>, i: int, block: Seq<u8>) -> Seq<u8> {
    reply.take(i * BLOCK_BYTES) + block + reply.skip((i + 1) * BLOCK_BYTES)
}

/// The reply after pages `pages[0..n]` were put in slots `0..n`, in order.
pub open spec fn fill_reply(reply: Seq<u8>, pages: Seq<Seq<u8>>, n: nat) -> Seq<u8>
    decreases n,
{
    if n == 0 {
        reply
    } else {
        place_spec(fill_reply(reply, pages, (n - 1) as nat), n - 1, pages[n - 1])
    }
}

/// After the first `n` pages of a request went in, slot `k < n` of the reply
/// holds page `k`, and everything from slot `n` on is as it was.
pub proof fn lemma_fill_reply(reply: Seq<u8>, pages: Seq<Seq<u8>>, n: nat)
    requires
        reply.len() == REPLY_BYTES,
        n <= MAX_BLOCKS,
        n <= pages.len(),
        forall|k: int| 0 <= k < n ==> #[trigger] pages[k].len() == BLOCK_BYTES,
    ensures
        fill_reply(reply, pages, n).len() == REPLY_BYTES,
        forall|k: int, j: int|
            0 <= k < n && 0 <= j < BLOCK_BYTES ==> #[trigger] fill_reply(reply, pages, n)[k * BLOCK_BYTES
                + j] == pages[k][j],
        forall|p: int| n * BLOCK_BYTES <= p < REPLY_BYTES ==> #[trigger] fill_reply(reply, pages, n)[p] == reply[p],
    decreases n,
{
    if n > 0 {
        let m = (n - 1) as nat;
        lemma_fill_reply(reply, pages, m);
        let prev = fill_reply(reply, pages, m);
        let cur = fill_reply(reply, pages, n);
        assert(cur == place_spec(prev, m as int, pages[m as int]));
        assert forall|k: int, j: int| 0 <= k < n && 0 <= j < BLOCK_BYTES implies #[trigger] cur[k
            * BLOCK_BYTES + j] == pages[k][j] by {
            if k < m {
                assert(k * BLOCK_BYTES + j < m * BLOCK_BYTES) by (nonlinear_arith)
                    requires
                        k < m,
                        0 <= j < BLOCK_BYTES,
                ;
                assert(cur[k * BLOCK_BYTES + j] == prev[k * BLOCK_BYTES + j]);
            } else {
                assert(k == m);
            }
        }
        assert forall|p: int| n * BLOCK_BYTES <= p < REPLY_BYTES implies #[trigger] cur[p] == reply[p] by {
            assert(cur[p] == prev[p]);
        }
    }
}

} // verus!
verus! {

/// Reading page `i` of a request reads flash page `q.addr + i`, the page that
/// [`next_action`] names for slot `i`, into the staging area: main area
/// first, spare area right behind it.
pub proof fn lemma_block_read_page(q: SyncRequest, i: int)
    requires
        serviceable(q),
        0 <= i < q.numblocks,
    ensures
        next_action_spec(q, i) == (LoaderAction::ReadBlock { index: i as u16, page: (q.addr + i) as u32 }),
        block_read_prog(q, i)[14] == (crate::regs::Op::Write {
            addr: crate::nand::FIO_DMAADR,
            value: (q.addr + i) as u32,
        }),
        block_read_prog(q, i)[8] == (crate::regs::Op::Write { addr: crate::nand::FDMA_SRC, value: STAGING_ADDR }),
        block_read_prog(q, i)[9] == (crate::regs::Op::Write {
            addr: crate::nand::FDMA_SPR_SRC,
            value: (STAGING_ADDR + PAGE_SIZE) as u32,
        }),
{
    let page = (q.addr + i) as usize;
    crate::nand::lemma_read_block_addresses(1, PAGE_SIZE as u32, STAGING_ADDR, (STAGING_ADDR + PAGE_SIZE) as u32, page);
}

} // verus!
