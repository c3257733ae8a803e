//! The binary wire format of the interprocess messages.
//!
//! Each message is a fixed small little-endian buffer. OS handles are never
//! embedded in the payload bytes: they travel out-of-band as ancillary data,
//! and the payload carries only how many (for metadata) or which are present
//! (for frames), so a decoder can pair the payload with the handles it
//! received.

use vstd::prelude::*;

use crate::format::PixelFormat;

verus! {

/// The one-time message sent to a consumer right after it connects: the frame
/// dimensions, the pixel-format wire code, and one exported memory handle per
/// buffer (the handles travel as ancillary data; the payload carries their
/// count).
#[derive(Clone, Debug)]
pub struct MetadataMessage {
    /// Width of each shared image, in pixels.
    pub width: u32,
    /// Height of each shared image, in pixels.
    pub height: u32,
    /// Pixel-format wire code.
    pub format: u32,
    /// Exported memory OS handles, one per buffer, in ring order.
    pub memory_fds: Vec<i32>,
}

/// The per-frame message: which buffer was just rendered, and the freshly
/// exported synchronization handles when their export succeeded (the handles
/// travel as ancillary data; the payload carries two presence flags).
#[derive(Clone, Copy, Debug, PartialEq, Eq, Structural)]
pub struct FrameMessage {
    /// Ring slot of the buffer that was just rendered.
    pub buffer_index: usize,
    /// Exported render-finished semaphore handle, if export succeeded.
    pub render_finished_fd: Option<i32>,
    /// Exported consumer-ready semaphore handle, if export succeeded.
    pub consumer_ready_fd: Option<i32>,
}

/// The four bytes of `v`, least significant first.
pub open spec fn spec_u32_le(v: u32) -> Seq<u8> {
    seq![
        (v & 0xff) as u8,
        ((v >> 8) & 0xff) as u8,
        ((v >> 16) & 0xff) as u8,
        ((v >> 24) & 0xff) as u8,
    ]
}

/// The value whose four bytes, least significant first, stand at `off` in `b`.
pub open spec fn spec_u32_from_le_at(b: Seq<u8>, off: int) -> u32
    recommends
        0 <= off,
        off + 4 <= b.len(),
{
    (b[off] as u32) | ((b[off + 1] as u32) << 8) | ((b[off + 2] as u32) << 16) | ((b[off + 3]
        as u32) << 24)
}

/// The eight bytes of `v`, least significant first.
pub open spec fn spec_u64_le(v: u64) -> Seq<u8> {
    seq![
        (v & 0xff) as u8,
        ((v >> 8) & 0xff) as u8,
        ((v >> 16) & 0xff) as u8,
        ((v >> 24) & 0xff) as u8,
        ((v >> 32) & 0xff) as u8,
        ((v >> 40) & 0xff) as u8,
        ((v >> 48) & 0xff) as u8,
        ((v >> 56) & 0xff) as u8,
    ]
}

/// The value whose eight bytes, least significant first, stand at `off` in `b`.
pub open spec fn spec_u64_from_le_at(b: Seq<u8>, off: int) -> u64
    recommends
        0 <= off,
        off + 8 <= b.len(),
{
    (b[off] as u64) | ((b[off + 1] as u64) << 8) | ((b[off + 2] as u64) << 16) | ((b[off + 3]
        as u64) << 24) | ((b[off + 4] as u64) << 32) | ((b[off + 5] as u64) << 40) | ((b[off + 6]
        as u64) << 48) | ((b[off + 7] as u64) << 56)
}

/// Reassembling the four bytes of a value gives the value back.
pub proof fn lemma_u32_le_round_trip(v: u32)
    ensures
        spec_u32_from_le_at(spec_u32_le(v), 0) == v,
{
    assert((((v & 0xff) as u8) as u32) | (((((v >> 8) & 0xff) as u8) as u32) << 8) | (((((v >> 16)
        & 0xff) as u8) as u32) << 16) | (((((v >> 24) & 0xff) as u8) as u32) << 24) == v)
        by (bit_vector);
}

/// Reassembling the eight bytes of a value gives the value back.
pub proof fn lemma_u64_le_round_trip(v: u64)
    ensures
        spec_u64_from_le_at(spec_u64_le(v), 0) == v,
{
    assert((((v & 0xff) as u8) as u64) | (((((v >> 8) & 0xff) as u8) as u64) << 8) | (((((v >> 16)
        & 0xff) as u8) as u64) << 16) | (((((v >> 24) & 0xff) as u8) as u64) << 24) | (((((v >> 32)
        & 0xff) as u8) as u64) << 32) | (((((v >> 40) & 0xff) as u8) as u64) << 40) | (((((v >> 48)
        & 0xff) as u8) as u64) << 48) | (((((v >> 56) & 0xff) as u8) as u64) << 56) == v)
        by (bit_vector);
}

/// Appends the four bytes of `v`, least significant first.
fn push_u32_le(out: &mut Vec<u8>, v: u32)
    ensures
        final(out)@ == old(out)@ + spec_u32_le(v),
{
    proof {
        assert(v & 0xff <= 0xff && (v >> 8) & 0xff <= 0xff && (v >> 16) & 0xff <= 0xff && (v >> 24)
            & 0xff <= 0xff) by (bit_vector);
    }
    out.push((v & 0xff) as u8);
    out.push(((v >> 8) & 0xff) as u8);
    out.push(((v >> 16) & 0xff) as u8);
    out.push(((v >> 24) & 0xff) as u8);
    proof {
        assert(out@ =~= old(out)@ + spec_u32_le(v));
    }
}

/// Appends the eight bytes of `v`, least significant first.
fn push_u64_le(out: &mut Vec<u8>, v: u64)
    ensures
        final(out)@ == old(out)@ + spec_u64_le(v),
{
    proof {
        assert(v & 0xff <= 0xff && (v >> 8) & 0xff <= 0xff && (v >> 16) & 0xff <= 0xff && (v >> 24)
            & 0xff <= 0xff && (v >> 32) & 0xff <= 0xff && (v >> 40) & 0xff <= 0xff && (v >> 48)
            & 0xff <= 0xff && (v >> 56) & 0xff <= 0xff) by (bit_vector);
    }
    out.push((v & 0xff) as u8);
    out.push(((v >> 8) & 0xff) as u8);
    out.push(((v >> 16) & 0xff) as u8);
    out.push(((v >> 24) & 0xff) as u8);
    out.push(((v >> 32) & 0xff) as u8);
    out.push(((v >> 40) & 0xff) as u8);
    out.push(((v >> 48) & 0xff) as u8);
    out.push(((v >> 56) & 0xff) as u8);
    proof {
        assert(out@ =~= old(out)@ + spec_u64_le(v));
    }
}

/// Reads the value whose four bytes, least significant first, stand at `off`.
fn read_u32_le(b: &Vec<u8>, off: usize) -> (v: u32)
    requires
        off + 4 <= b@.len(),
    ensures
        v == spec_u32_from_le_at(b@, off as int),
{
    let n = b.len();
    assert(off + 4 <= n);
    (b[off] as u32) | ((b[off + 1] as u32) << 8) | ((b[off + 2] as u32) << 16) | ((b[off + 3]
        as u32) << 24)
}

/// Reads the value whose eight bytes, least significant first, stand at `off`.
fn read_u64_le(b: &Vec<u8>, off: usize) -> (v: u64)
    requires
        off + 8 <= b@.len(),
    ensures
        v == spec_u64_from_le_at(b@, off as int),
{
    let n = b.len();
    assert(off + 8 <= n);
    (b[off] as u64) | ((b[off + 1] as u64) << 8) | ((b[off + 2] as u64) << 16) | ((b[off + 3]
        as u64) << 24) | ((b[off + 4] as u64) << 32) | ((b[off + 5] as u64) << 40) | ((b[off + 6]
        as u64) << 48) | ((b[off + 7] as u64) << 56)
}

/// The 16-byte metadata payload: width, height, format code and handle count,
/// each four little-endian bytes.
pub open spec fn spec_metadata_bytes(m: MetadataMessage) -> Seq<u8> {
    spec_u32_le(m.width) + spec_u32_le(m.height) + spec_u32_le(m.format) + spec_u32_le(
        m.memory_fds@.len() as u32,
    )
}

/// What a well-formed metadata payload received together with `fds` ancillary
/// handles denotes: the width, height and format fields. The payload is well
/// formed when it is exactly 16 bytes, its declared handle count equals the
/// number of handles actually received, and its format code is in the
/// supported set.
pub open spec fn spec_parse_metadata(payload: Seq<u8>, fds: Seq<i32>) -> Option<(u32, u32, u32)> {
    if payload.len() == 16 {
        let w = spec_u32_from_le_at(payload, 0);
        let h = spec_u32_from_le_at(payload, 4);
        let f = spec_u32_from_le_at(payload, 8);
        let n = spec_u32_from_le_at(payload, 12);
        if n == fds.len() && PixelFormat::spec_from_code(f) is Some {
            Some((w, h, f))
        } else {
            None
        }
    } else {
        None
    }
}

/// Encodes the metadata payload. The memory handles themselves are not
/// embedded: they are sent as ancillary data, and only their count enters the
/// payload.
pub fn encode_metadata(m: &MetadataMessage) -> (out: Vec<u8>)
    requires
        m.memory_fds@.len() <= u32::MAX,
    ensures
        out@ == spec_metadata_bytes(*m),
        out@.len() == 16,
{
    let mut out: Vec<u8> = Vec::new();
    push_u32_le(&mut out, m.width);
    push_u32_le(&mut out, m.height);
    push_u32_le(&mut out, m.format);
    push_u32_le(&mut out, m.memory_fds.len() as u32);
    proof {
        assert(out@ =~= spec_metadata_bytes(*m));
    }
    out
}

/// Decodes a metadata payload received together with `fds` ancillary handles.
/// Returns the message exactly when the payload is well formed for that many
/// handles; the decoded message carries the received handles in order.
pub fn decode_metadata(payload: &Vec<u8>, fds: &Vec<i32>) -> (r: Option<MetadataMessage>)
    ensures
        match r {
            Some(m) => {
                &&& spec_parse_metadata(payload@, fds@) == Some((m.width, m.height, m.format))
                &&& m.memory_fds@ == fds@
            },
            None => spec_parse_metadata(payload@, fds@) is None,
        },
{
    if payload.len() != 16 {
        return None;
    }
    let w = read_u32_le(payload, 0);
    let h = read_u32_le(payload, 4);
    let f = read_u32_le(payload, 8);
    let n = read_u32_le(payload, 12);
    if (n as u64) != (fds.len() as u64) {
        return None;
    }
    if PixelFormat::from_code(f).is_err() {
        return None;
    }
    let copied = fds.clone();
    proof {
        assert(copied@ =~= fds@);
    }
    Some(MetadataMessage { width: w, height: h, format: f, memory_fds: copied })
}

/// Encoding then decoding a metadata message gives back its width, height and
/// format, and the declared handle count matches the handles sent with it.
pub proof fn lemma_metadata_round_trip(m: MetadataMessage)
    requires
        m.memory_fds@.len() <= u32::MAX,
        PixelFormat::spec_from_code(m.format) is Some,
    ensures
        spec_parse_metadata(spec_metadata_bytes(m), m.memory_fds@) == Some(
            (m.width, m.height, m.format),
        ),
{
    let p = spec_metadata_bytes(m);
    let n = m.memory_fds@.len() as u32;
    assert forall|k: int| 0 <= k < 4 implies p[k] == spec_u32_le(m.width)[k] && p[4 + k]
        == spec_u32_le(m.height)[k] && p[8 + k] == spec_u32_le(m.format)[k] && p[12 + k]
        == spec_u32_le(n)[k] by {}
    assert(spec_u32_from_le_at(p, 0) == spec_u32_from_le_at(spec_u32_le(m.width), 0));
    assert(spec_u32_from_le_at(p, 4) == spec_u32_from_le_at(spec_u32_le(m.height), 0));
    assert(spec_u32_from_le_at(p, 8) == spec_u32_from_le_at(spec_u32_le(m.format), 0));
    assert(spec_u32_from_le_at(p, 12) == spec_u32_from_le_at(spec_u32_le(n), 0));
    lemma_u32_le_round_trip(m.width);
    lemma_u32_le_round_trip(m.height);
    lemma_u32_le_round_trip(m.format);
    lemma_u32_le_round_trip(n);
}

/// The 10-byte frame payload: the ring slot as eight little-endian bytes,
/// then one presence flag per synchronization handle.
pub open spec fn spec_frame_bytes(m: FrameMessage) -> Seq<u8> {
    spec_u64_le(m.buffer_index as u64) + seq![
        if m.render_finished_fd is Some {
            1u8
        } else {
            0u8
        },
        if m.consumer_ready_fd is Some {
            1u8
        } else {
            0u8
        },
    ]
}

/// The ancillary handles a frame message travels with: the render-finished
/// handle first when present, then the consumer-ready handle when present.
pub open spec fn spec_frame_fds(m: FrameMessage) -> Seq<i32> {
    let rf = match m.render_finished_fd {
        Some(fd) => seq![fd],
        None => Seq::<i32>::empty(),
    };
    let cr = match m.consumer_ready_fd {
        Some(fd) => seq![fd],
        None => Seq::<i32>::empty(),
    };
    rf + cr
}

/// What a well-formed frame payload received together with `fds` ancillary
/// handles denotes. The payload is well formed when it is exactly 10 bytes,
/// each presence flag is 0 or 1, exactly as many handles were received as
/// flags are set, and the ring slot fits the machine's word.
pub open spec fn spec_parse_frame(payload: Seq<u8>, fds: Seq<i32>) -> Option<FrameMessage> {
    if payload.len() == 10 {
        let idx = spec_u64_from_le_at(payload, 0);
        let frf = payload[8];
        let fcr = payload[9];
        if (frf == 0 || frf == 1) && (fcr == 0 || fcr == 1) && fds.len() == frf + fcr && idx
            <= usize::MAX {
            Some(
                FrameMessage {
                    buffer_index: idx as usize,
                    render_finished_fd: if frf == 1 {
                        Some(fds[0])
                    } else {
                        None
                    },
                    consumer_ready_fd: if fcr == 1 {
                        Some(fds[frf as int])
                    } else {
                        None
                    },
                },
            )
        } else {
            None
        }
    } else {
        None
    }
}

/// Encodes the frame payload. The synchronization handles themselves are not
/// embedded: they are sent as ancillary data, and only their presence enters
/// the payload.
pub fn encode_frame(m: &FrameMessage) -> (out: Vec<u8>)
    ensures
        out@ == spec_frame_bytes(*m),
        out@.len() == 10,
{
    let mut out: Vec<u8> = Vec::new();
    push_u64_le(&mut out, m.buffer_index as u64);
    out.push(
        if m.render_finished_fd.is_some() {
            1
        } else {
            0
        },
    );
    out.push(
        if m.consumer_ready_fd.is_some() {
            1
        } else {
            0
        },
    );
    proof {
        assert(out@ =~= spec_frame_bytes(*m));
    }
    out
}

/// The ancillary handles to send with a frame message: render-finished first
/// when present, then consumer-ready when present.
pub fn frame_ancillary_fds(m: &FrameMessage) -> (fds: Vec<i32>)
    ensures
        fds@ == spec_frame_fds(*m),
{
    let mut fds: Vec<i32> = Vec::new();
    if let Some(fd) = m.render_finished_fd {
        fds.push(fd);
    }
    if let Some(fd) = m.consumer_ready_fd {
        fds.push(fd);
    }
    proof {
        assert(fds@ =~= spec_frame_fds(*m));
    }
    fds
}

/// Decodes a frame payload received together with `fds` ancillary handles.
pub fn decode_frame(payload: &Vec<u8>, fds: &Vec<i32>) -> (r: Option<FrameMessage>)
    ensures
        r == spec_parse_frame(payload@, fds@),
{
    if payload.len() != 10 {
        return None;
    }
    let idx = read_u64_le(payload, 0);
    let frf = payload[8];
    let fcr = payload[9];
    if !(frf == 0 || frf == 1) || !(fcr == 0 || fcr == 1) {
        return None;
    }
    if (fds.len() as u64) != (frf as u64) + (fcr as u64) {
        return None;
    }
    if idx > (usize::MAX as u64) {
        return None;
    }
    let render_finished_fd = if frf == 1 {
        Some(fds[0])
    } else {
        None
    };
    let consumer_ready_fd = if fcr == 1 {
        Some(fds[frf as usize])
    } else {
        None
    };
    Some(FrameMessage { buffer_index: idx as usize, render_finished_fd, consumer_ready_fd })
}

/// Encoding a frame message and pairing the payload with the ancillary
/// handles it was sent with decodes to the identical message.
pub proof fn lemma_frame_round_trip(m: FrameMessage)
    ensures
        spec_parse_frame(spec_frame_bytes(m), spec_frame_fds(m)) == Some(m),
{
    let p = spec_frame_bytes(m);
    let idx64 = m.buffer_index as u64;
    assert forall|k: int| 0 <= k < 8 implies p[k] == spec_u64_le(idx64)[k] by {}
    assert(spec_u64_from_le_at(p, 0) == spec_u64_from_le_at(spec_u64_le(idx64), 0));
    lemma_u64_le_round_trip(idx64);
}

} // verus!
