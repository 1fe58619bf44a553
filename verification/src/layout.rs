//! The host/device shared memory layout of queues and arrays.
//!
//! A queue buffer is a fixed 16-byte header — `capacity: u32`, `length:
//! u32`, both little endian, then 8 reserved zero bytes that keep the
//! elements 16-byte aligned — followed immediately by `capacity` tightly
//! packed elements. Host code and device kernels read and write the same
//! region with no serialisation step in between, so these offsets are a
//! wire contract.

use vstd::prelude::*;

verus! {

/// Byte length of the queue header.
pub const QUEUE_HEADER_BYTES: u64 = 16;

/// The little-endian bytes of `x`.
pub open spec fn u32_le_bytes(x: u32) -> Seq<u8> {
    seq![
        (x % 256) as u8,
        ((x / 256) % 256) as u8,
        ((x / 65536) % 256) as u8,
        ((x / 16777216) % 256) as u8,
    ]
}

/// The `u32` read little-endian from four bytes.
pub open spec fn le_bytes_u32(b: Seq<u8>) -> u32
    recommends
        b.len() == 4,
{
    ((b[0] as int) + (b[1] as int) * 256 + (b[2] as int) * 65536 + (b[3] as int) * 16777216) as u32
}

/// Writing four little-endian bytes and reading them back yields the
/// original value.
pub proof fn lemma_u32_le_round_trip(x: u32)
    ensures
        le_bytes_u32(u32_le_bytes(x)) == x,
{
    let b = u32_le_bytes(x);
    assert(b[0] == (x % 256) as u8);
    assert(b[1] == ((x / 256) % 256) as u8);
    assert(b[2] == ((x / 65536) % 256) as u8);
    assert(b[3] == ((x / 16777216) % 256) as u8);
    assert((x % 256) + ((x / 256) % 256) * 256 + ((x / 65536) % 256) * 65536 + ((x
        / 16777216) % 256) * 16777216 == x) by (bit_vector);
}

/// The header bytes of a queue with capacity `cap` and length `len`.
pub open spec fn spec_queue_header(cap: u32, len: u32) -> Seq<u8> {
    u32_le_bytes(cap) + u32_le_bytes(len) + seq![0u8, 0u8, 0u8, 0u8, 0u8, 0u8, 0u8, 0u8]
}

/// Encodes the 16-byte queue header: capacity, then length, both little
/// endian, then the reserved zero bytes.
pub fn encode_queue_header(cap: u32, len: u32) -> (r: Vec<u8>)
    ensures
        r@.len() == QUEUE_HEADER_BYTES,
        r@ == spec_queue_header(cap, len),
{
    let mut r: Vec<u8> = Vec::new();
    r.push((cap % 256) as u8);
    r.push(((cap / 256) % 256) as u8);
    r.push(((cap / 65536) % 256) as u8);
    r.push(((cap / 16777216) % 256) as u8);
    r.push((len % 256) as u8);
    r.push(((len / 256) % 256) as u8);
    r.push(((len / 65536) % 256) as u8);
    r.push(((len / 16777216) % 256) as u8);
    let mut i: usize = 0;
    while i < 8
        invariant
            i <= 8,
            r@.len() == 8 + i,
            r@.subrange(0, 8) == u32_le_bytes(cap) + u32_le_bytes(len),
            forall|j: int| 8 <= j < r@.len() ==> #[trigger] r@[j] == 0u8,
        decreases 8 - i,
    {
        r.push(0u8);
        i = i + 1;
    }
    proof {
        assert(r@ =~= spec_queue_header(cap, len));
    }
    r
}

/// Reads the `u32` stored little-endian at byte offset `off`.
pub fn read_u32_le(bytes: &Vec<u8>, off: usize) -> (x: u32)
    requires
        off + 4 <= bytes@.len(),
    ensures
        x == le_bytes_u32(bytes@.subrange(off as int, off as int + 4)),
{
    let _n = bytes.len();
    let b0 = bytes[off] as u32;
    let b1 = bytes[off + 1] as u32;
    let b2 = bytes[off + 2] as u32;
    let b3 = bytes[off + 3] as u32;
    b0 + b1 * 256 + b2 * 65536 + b3 * 16777216
}

/// Decodes a queue header: the capacity and length fields of a buffer that
/// starts with the 16-byte header.
pub fn decode_queue_header(bytes: &Vec<u8>) -> (r: (u32, u32))
    requires
        bytes@.len() >= QUEUE_HEADER_BYTES,
    ensures
        r.0 == le_bytes_u32(bytes@.subrange(0, 4)),
        r.1 == le_bytes_u32(bytes@.subrange(4, 8)),
{
    let cap = read_u32_le(bytes, 0);
    let len = read_u32_le(bytes, 4);
    (cap, len)
}

/// Encoding a header and decoding it recovers the capacity and length.
pub proof fn lemma_queue_header_round_trip(cap: u32, len: u32)
    ensures
        le_bytes_u32(spec_queue_header(cap, len).subrange(0, 4)) == cap,
        le_bytes_u32(spec_queue_header(cap, len).subrange(4, 8)) == len,
{
    assert(spec_queue_header(cap, len).subrange(0, 4) =~= u32_le_bytes(cap));
    assert(spec_queue_header(cap, len).subrange(4, 8) =~= u32_le_bytes(len));
    lemma_u32_le_round_trip(cap);
    lemma_u32_le_round_trip(len);
}

/// Byte offset of element `i` in a queue buffer of elements of `stride`
/// bytes: the header, then `i` packed elements.
pub fn element_offset(i: u32, stride: u32) -> (off: u64)
    ensures
        off == 16 + (i as int) * (stride as int),
{
    proof {
        assert((i as int) * (stride as int) <= 0xffff_ffff * 0xffff_ffff) by (nonlinear_arith)
            requires
                i as int <= 0xffff_ffff,
                stride as int <= 0xffff_ffff,
        ;
    }
    QUEUE_HEADER_BYTES + (i as u64) * (stride as u64)
}

/// Total byte size of a queue buffer of `cap` elements of `stride` bytes.
pub fn queue_buffer_size(cap: u32, stride: u32) -> (size: u64)
    ensures
        size == 16 + (cap as int) * (stride as int),
{
    element_offset(cap, stride)
}

/// Total byte size of a dense array of `num` elements of `stride` bytes.
pub fn buffer_size(stride: usize, num: usize) -> (size: u64)
    requires
        (stride as int) * (num as int) <= u64::MAX,
    ensures
        size == (stride as int) * (num as int),
{
    (stride as u64) * (num as u64)
}

/// The padding that aligns `offset` to `alignment`.
pub open spec fn spec_align_offset(offset: int, alignment: int) -> int {
    if alignment == 0 || offset % alignment == 0 {
        0
    } else {
        alignment - offset % alignment
    }
}

/// Gives the number of bytes needed to make `offset` be aligned to
/// `alignment`: adding the result to `offset` yields a multiple of
/// `alignment`, and no smaller padding does.
pub fn align_offset(offset: usize, alignment: usize) -> (r: usize)
    ensures
        r == spec_align_offset(offset as int, alignment as int),
        r < alignment || (alignment == 0 && r == 0),
        alignment > 0 ==> ((offset as int) + r) % (alignment as int) == 0,
{
    proof {
        if alignment > 0 {
            assert(((offset as int) + spec_align_offset(offset as int, alignment as int)) % (
            alignment as int) == 0) by (nonlinear_arith)
                requires
                    alignment as int > 0,
                    offset as int >= 0,
            ;
        }
    }
    if alignment == 0 || offset % alignment == 0 {
        0
    } else {
        alignment - offset % alignment
    }
}

} // verus!
