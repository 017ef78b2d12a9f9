//! Framing of the messages the server sends: transform updates arrive as a
//! datagram holding a little-endian `u32` record count followed by the
//! records; chunks arrive on the stream as fixed-size blocks.
use vstd::prelude::*;
use vstd::slice::slice_subrange;

verus! {

/// Bytes of one transform record: a position and a rotation of three `f64` each.
pub const COMPONENT_SIZE: usize = 48;

/// Bytes of the count that starts a transform datagram.
pub const COUNT_SIZE: usize = 4;

/// Bytes of the receive buffer for transform datagrams (the largest UDP payload).
pub const DATAGRAM_BUFFER: usize = 65507;

/// Bytes of one chunk on the stream: one `f64` density per cell.
pub const CHUNK_BYTES: usize = 262144;

/// The number that four bytes encode, least significant byte first.
pub open spec fn le_u32(b0: u8, b1: u8, b2: u8, b3: u8) -> int {
    b0 + 256 * b1 + 65536 * b2 + 16777216 * b3
}

/// The record count a datagram declares in its first four bytes.
pub open spec fn declared_count(datagram: Seq<u8>) -> int {
    le_u32(datagram[0], datagram[1], datagram[2], datagram[3])
}

/// The end of the records that a datagram declares.
pub open spec fn records_end(datagram: Seq<u8>) -> int {
    4 + declared_count(datagram) * 48
}

/// Whether the records that a datagram declares lie within it.
pub open spec fn frame_fits(datagram: Seq<u8>) -> bool {
    datagram.len() >= 4 && records_end(datagram) <= datagram.len()
}

/// The record count at the start of a datagram.
pub fn component_count(datagram: &[u8]) -> (n: u32)
    requires
        datagram@.len() >= 4,
    ensures
        n == declared_count(datagram@),
{
    let b0 = datagram[0] as u32;
    let b1 = datagram[1] as u32;
    let b2 = datagram[2] as u32;
    let b3 = datagram[3] as u32;
    b0 + 256 * b1 + 65536 * b2 + 16777216 * b3
}

/// Whether a datagram holds the records it declares.
pub fn component_frame_fits(datagram: &[u8]) -> (fits: bool)
    ensures
        fits == frame_fits(datagram@),
{
    if datagram.len() < COUNT_SIZE {
        return false;
    }
    let n = component_count(datagram) as u64;
    let end = 4 + n * 48;
    end <= datagram.len() as u64
}

/// The bytes of the records a datagram declares: its bytes from 4 up to
/// `4 + 48 * count`.
pub fn component_payload(datagram: &[u8]) -> (payload: &[u8])
    requires
        frame_fits(datagram@),
    ensures
        payload@ == datagram@.subrange(4, records_end(datagram@)),
        payload@.len() == declared_count(datagram@) * 48,
{
    let len = datagram.len();
    let n = component_count(datagram) as usize;
    assert(4 + n * 48 <= len);
    let end = COUNT_SIZE + n * COMPONENT_SIZE;
    slice_subrange(datagram, COUNT_SIZE, end)
}

/// The count is the number whose base-256 digits, least significant first,
/// are the first four bytes: it is below 2^32, and its digits give back the bytes.
pub proof fn lemma_count_digits(datagram: Seq<u8>)
    requires
        datagram.len() >= 4,
    ensures
        declared_count(datagram) == datagram[0] as int + 256 * (datagram[1] as int + 256 * (
        datagram[2] as int + 256 * datagram[3] as int)),
        0 <= declared_count(datagram) < 0x1_0000_0000,
        declared_count(datagram) % 256 == datagram[0],
        (declared_count(datagram) / 256) % 256 == datagram[1],
        (declared_count(datagram) / 65536) % 256 == datagram[2],
        declared_count(datagram) / 16777216 == datagram[3],
{
    let b0 = datagram[0] as int;
    let b1 = datagram[1] as int;
    let b2 = datagram[2] as int;
    let b3 = datagram[3] as int;
    assert(b0 + 256 * b1 + 65536 * b2 + 16777216 * b3 == b0 + 256 * (b1 + 256 * (b2 + 256 * b3)));
    assert({
        let n = b0 + 256 * b1 + 65536 * b2 + 16777216 * b3;
        &&& n % 256 == b0
        &&& (n / 256) % 256 == b1
        &&& (n / 65536) % 256 == b2
        &&& n / 16777216 == b3
    }) by (nonlinear_arith)
        requires
            0 <= b0 < 256,
            0 <= b1 < 256,
            0 <= b2 < 256,
            0 <= b3 < 256,
    ;
}

/// A datagram fits exactly when it has a count and at least `4 + 48 * count`
/// bytes; bytes after the records do not matter, so appending bytes to a
/// datagram that fits keeps it fitting, with the same payload.
pub proof fn lemma_fit_ignores_trailing_bytes(datagram: Seq<u8>, extra: Seq<u8>)
    ensures
        frame_fits(datagram) <==> (datagram.len() >= 4 && 4 + 48 * declared_count(datagram)
            <= datagram.len()),
        frame_fits(datagram) ==> frame_fits(datagram + extra),
        frame_fits(datagram) ==> declared_count(datagram + extra) == declared_count(datagram)
            && (datagram + extra).subrange(4, records_end(datagram + extra)) == datagram.subrange(
            4,
            records_end(datagram),
        ),
{
    if frame_fits(datagram) {
        let d2 = datagram + extra;
        assert(d2[0] == datagram[0] && d2[1] == datagram[1] && d2[2] == datagram[2] && d2[3]
            == datagram[3]);
        assert(d2.subrange(4, records_end(d2)) =~= datagram.subrange(4, records_end(datagram)));
    }
}

} // verus!
