//! Binary frame messages of the helper protocol: a 16-byte header (magic,
//! message type, flags, dimensions, frame number, request id) followed by
//! the pixel payload, raw or LZ4-compressed; and the protocol's plain data
//! types.

use vstd::prelude::*;

verus! {

/// Magic bytes opening every binary message: `M`, `H`.
pub const MAGIC_0: u8 = 0x4d;
pub const MAGIC_1: u8 = 0x48;

/// Header flag: the payload is LZ4-compressed with its size prepended.
pub const FLAG_COMPRESSED: u8 = 0x01;
/// Header flag: the frame was scaled.
pub const FLAG_SCALED: u8 = 0x02;
/// Header flag: the payload is a delta.
pub const FLAG_DELTA: u8 = 0x04;
/// Header flag: the payload is JPEG.
pub const FLAG_JPEG: u8 = 0x08;

/// Header size in bytes.
pub const HEADER_SIZE: usize = 16;

/// Kinds of binary message.
#[derive(Clone, Copy, Debug, PartialEq, Eq, Structural)]
pub enum MessageType {
    Command,
    Frame,
    Response,
    Error,
    Progress,
}

pub open spec fn message_type_code(t: MessageType) -> u8 {
    match t {
        MessageType::Command => 1,
        MessageType::Frame => 2,
        MessageType::Response => 3,
        MessageType::Error => 4,
        MessageType::Progress => 5,
    }
}

/// Decoding of a type byte; unknown codes read as `Error`.
pub open spec fn message_type_of(v: u8) -> MessageType {
    if v == 1 { MessageType::Command }
    else if v == 2 { MessageType::Frame }
    else if v == 3 { MessageType::Response }
    else if v == 5 { MessageType::Progress }
    else { MessageType::Error }
}

impl MessageType {
    /// The wire code of the type.
    pub fn code(&self) -> (r: u8)
        ensures
            r == message_type_code(*self),
    {
        match self {
            MessageType::Command => 1,
            MessageType::Frame => 2,
            MessageType::Response => 3,
            MessageType::Error => 4,
            MessageType::Progress => 5,
        }
    }

    /// Reads a type byte.
    pub fn from_u8(v: u8) -> (r: MessageType)
        ensures
            r == message_type_of(v),
    {
        if v == 1 { MessageType::Command }
        else if v == 2 { MessageType::Frame }
        else if v == 3 { MessageType::Response }
        else if v == 5 { MessageType::Progress }
        else { MessageType::Error }
    }
}

/// Header of a frame message.
#[derive(Clone, Copy, Debug, PartialEq, Eq, Structural)]
pub struct FrameHeader {
    pub msg_type: MessageType,
    pub flags: u8,
    pub width: u16,
    pub height: u16,
    pub frame_num: u32,
    pub request_id: u32,
}

/// Little-endian bytes of a 16-bit value.
pub open spec fn le16(x: u16) -> Seq<u8> {
    seq![(x & 0xff) as u8, ((x >> 8u16) & 0xff) as u8]
}

/// Little-endian bytes of a 32-bit value.
pub open spec fn le32(x: u32) -> Seq<u8> {
    seq![(x & 0xff) as u8, ((x >> 8u32) & 0xff) as u8, ((x >> 16u32) & 0xff) as u8, ((x >> 24u32) & 0xff) as u8]
}

pub open spec fn read_le16(b0: u8, b1: u8) -> u16 {
    (b0 as u16) | ((b1 as u16) << 8u16)
}

pub open spec fn read_le32(b0: u8, b1: u8, b2: u8, b3: u8) -> u32 {
    (b0 as u32) | ((b1 as u32) << 8u32) | ((b2 as u32) << 16u32) | ((b3 as u32) << 24u32)
}

/// Wire form of a header.
pub open spec fn header_bytes(h: FrameHeader) -> Seq<u8> {
    seq![MAGIC_0, MAGIC_1, message_type_code(h.msg_type), h.flags]
        + le16(h.width) + le16(h.height) + le32(h.frame_num) + le32(h.request_id)
}

/// The header read from the start of `b`: absent when `b` is shorter than a
/// header or does not open with the magic bytes.
pub open spec fn parse_header(b: Seq<u8>) -> Option<FrameHeader> {
    if b.len() < HEADER_SIZE || b[0] != MAGIC_0 || b[1] != MAGIC_1 {
        None
    } else {
        Some(FrameHeader {
            msg_type: message_type_of(b[2]),
            flags: b[3],
            width: read_le16(b[4], b[5]),
            height: read_le16(b[6], b[7]),
            frame_num: read_le32(b[8], b[9], b[10], b[11]),
            request_id: read_le32(b[12], b[13], b[14], b[15]),
        })
    }
}

impl FrameHeader {
    /// A frame header without flags; the dimensions keep their low 16 bits.
    pub fn new(width: u32, height: u32, frame_num: u32, request_id: u32) -> (r: FrameHeader)
        ensures
            r == (FrameHeader {
                msg_type: MessageType::Frame,
                flags: 0,
                width: width as u16,
                height: height as u16,
                frame_num,
                request_id,
            }),
    {
        FrameHeader {
            msg_type: MessageType::Frame,
            flags: 0,
            width: width as u16,
            height: height as u16,
            frame_num,
            request_id,
        }
    }

    /// The header with the compressed flag set.
    pub fn with_compression(self) -> (r: FrameHeader)
        ensures
            r == (FrameHeader { flags: self.flags | FLAG_COMPRESSED, ..self }),
    {
        FrameHeader { flags: self.flags | FLAG_COMPRESSED, ..self }
    }

    /// The header with the scaled flag set.
    pub fn with_scaled(self) -> (r: FrameHeader)
        ensures
            r == (FrameHeader { flags: self.flags | FLAG_SCALED, ..self }),
    {
        FrameHeader { flags: self.flags | FLAG_SCALED, ..self }
    }

    /// The header with the JPEG flag set.
    pub fn with_jpeg(self) -> (r: FrameHeader)
        ensures
            r == (FrameHeader { flags: self.flags | FLAG_JPEG, ..self }),
    {
        FrameHeader { flags: self.flags | FLAG_JPEG, ..self }
    }

    pub fn is_compressed(&self) -> (r: bool)
        ensures
            r == (self.flags & FLAG_COMPRESSED != 0),
    {
        self.flags & FLAG_COMPRESSED != 0
    }

    pub fn is_scaled(&self) -> (r: bool)
        ensures
            r == (self.flags & FLAG_SCALED != 0),
    {
        self.flags & FLAG_SCALED != 0
    }

    pub fn is_jpeg(&self) -> (r: bool)
        ensures
            r == (self.flags & FLAG_JPEG != 0),
    {
        self.flags & FLAG_JPEG != 0
    }

    /// The 16-byte wire form: magic, type, flags, then width, height, frame
    /// number and request id in little-endian order.
    pub fn to_bytes(&self) -> (r: [u8; 16])
        ensures
            r@ == header_bytes(*self),
    {
        let w = self.width;
        let h = self.height;
        let f = self.frame_num;
        let q = self.request_id;
        let r = [
            MAGIC_0,
            MAGIC_1,
            self.msg_type.code(),
            self.flags,
            (w & 0xff) as u8,
            ((w >> 8u16) & 0xff) as u8,
            (h & 0xff) as u8,
            ((h >> 8u16) & 0xff) as u8,
            (f & 0xff) as u8,
            ((f >> 8u32) & 0xff) as u8,
            ((f >> 16u32) & 0xff) as u8,
            ((f >> 24u32) & 0xff) as u8,
            (q & 0xff) as u8,
            ((q >> 8u32) & 0xff) as u8,
            ((q >> 16u32) & 0xff) as u8,
            ((q >> 24u32) & 0xff) as u8,
        ];
        assert(r@ =~= header_bytes(*self));
        r
    }

    /// Reads a header from the start of `buf`.
    pub fn from_bytes(buf: &[u8]) -> (r: Option<FrameHeader>)
        ensures
            r == parse_header(buf@),
    {
        if buf.len() < HEADER_SIZE {
            return None;
        }
        if buf[0] != MAGIC_0 || buf[1] != MAGIC_1 {
            return None;
        }
        Some(FrameHeader {
            msg_type: MessageType::from_u8(buf[2]),
            flags: buf[3],
            width: (buf[4] as u16) | ((buf[5] as u16) << 8u16),
            height: (buf[6] as u16) | ((buf[7] as u16) << 8u16),
            frame_num: (buf[8] as u32) | ((buf[9] as u32) << 8u32) | ((buf[10] as u32) << 16u32) | ((buf[11] as u32) << 24u32),
            request_id: (buf[12] as u32) | ((buf[13] as u32) << 8u32) | ((buf[14] as u32) << 16u32) | ((buf[15] as u32) << 24u32),
        })
    }
}

proof fn lemma_le16_round_trip(x: u16)
    ensures
        read_le16(le16(x)[0], le16(x)[1]) == x,
{
    let b0 = (x & 0xff) as u8;
    let b1 = ((x >> 8u16) & 0xff) as u8;
    assert(((x & 0xff) as u8) as u16 == x & 0xff) by (bit_vector);
    assert((((x >> 8u16) & 0xff) as u8) as u16 == (x >> 8u16) & 0xff) by (bit_vector);
    assert((x & 0xff) | (((x >> 8u16) & 0xff) << 8u16) == x) by (bit_vector);
}

proof fn lemma_le32_round_trip(x: u32)
    ensures
        read_le32(le32(x)[0], le32(x)[1], le32(x)[2], le32(x)[3]) == x,
{
    assert(((x & 0xff) as u8) as u32 == x & 0xff) by (bit_vector);
    assert((((x >> 8u32) & 0xff) as u8) as u32 == (x >> 8u32) & 0xff) by (bit_vector);
    assert((((x >> 16u32) & 0xff) as u8) as u32 == (x >> 16u32) & 0xff) by (bit_vector);
    assert((((x >> 24u32) & 0xff) as u8) as u32 == (x >> 24u32) & 0xff) by (bit_vector);
    assert((x & 0xff) | (((x >> 8u32) & 0xff) << 8u32) | (((x >> 16u32) & 0xff) << 16u32)
        | (((x >> 24u32) & 0xff) << 24u32) == x) by (bit_vector);
}

/// Reading back the wire form of a header gives the header.
pub proof fn lemma_header_round_trip(h: FrameHeader)
    ensures
        parse_header(header_bytes(h)) == Some(h),
{
    lemma_le16_round_trip(h.width);
    lemma_le16_round_trip(h.height);
    lemma_le32_round_trip(h.frame_num);
    lemma_le32_round_trip(h.request_id);
    let b = header_bytes(h);
    assert(b.len() == 16);
    assert(b[4] == le16(h.width)[0] && b[5] == le16(h.width)[1]);
    assert(b[6] == le16(h.height)[0] && b[7] == le16(h.height)[1]);
    assert(b[8] == le32(h.frame_num)[0] && b[9] == le32(h.frame_num)[1]);
    assert(b[10] == le32(h.frame_num)[2] && b[11] == le32(h.frame_num)[3]);
    assert(b[12] == le32(h.request_id)[0] && b[13] == le32(h.request_id)[1]);
    assert(b[14] == le32(h.request_id)[2] && b[15] == le32(h.request_id)[3]);
    assert(message_type_of(message_type_code(h.msg_type)) == h.msg_type);
}


/// Compression of a frame payload.
#[derive(Clone, Copy, Debug, PartialEq, Eq, Structural)]
pub enum Compression {
    Lz4,
}

/// Raw RGBA pixels of one frame, as sent to clients.
#[derive(Clone, Debug)]
pub struct DecodedFrame {
    pub width: u32,
    pub height: u32,
    pub frame_num: u32,
    pub data: Vec<u8>,
}

/// The data decoded from a size-prepended LZ4 block, if it decodes.
pub uninterp spec fn lz4_unpacked(data: Seq<u8>) -> Option<Seq<u8>>;

/// Largest compressed payload handed to the decoder. The decoder sums
/// run-length bytes in 32 bits; at 255 per input byte this input size keeps
/// every sum in range.
pub const MAX_COMPRESSED_PAYLOAD: usize = 16 * 1024 * 1024;

/// Relies on `lz4_flex::compress_prepend_size`: the output opens with the
/// input length as 4 little-endian bytes, followed by the LZ4 block.
#[verifier::external_body]
fn lz4_compress(data: &[u8]) -> (r: Vec<u8>)
    requires
        data@.len() <= u32::MAX,
    ensures
        r@.len() >= 4,
        r@.subrange(0, 4) == le32(data@.len() as u32),
{
    lz4_flex::compress_prepend_size(data)
}

/// Relies on `lz4_flex::decompress_size_prepended`: a function of the input
/// bytes alone (the LZ4 block format fixes it), failing on input shorter
/// than the 4-byte size prefix.
#[verifier::external_body]
fn lz4_decompress(data: &[u8]) -> (r: Option<Vec<u8>>)
    requires
        data@.len() <= MAX_COMPRESSED_PAYLOAD,
    ensures
        match r {
            Some(v) => lz4_unpacked(data@) == Some(v@),
            None => lz4_unpacked(data@) is None,
        },
        data@.len() < 4 ==> r is None,
{
    lz4_flex::decompress_size_prepended(data).ok()
}

/// Whether a message for `frame` carries a compressed payload: compression
/// was asked for and the pixel count fits the 32-bit size prefix.
pub open spec fn compresses(frame: DecodedFrame, compression: Option<Compression>) -> bool {
    compression is Some && frame.data@.len() <= u32::MAX
}

/// Header of the message carrying `frame`.
pub open spec fn message_header(frame: DecodedFrame, compressed: bool, request_id: u32, scaled: bool) -> FrameHeader {
    let h = FrameHeader {
        msg_type: MessageType::Frame,
        flags: 0,
        width: frame.width as u16,
        height: frame.height as u16,
        frame_num: frame.frame_num,
        request_id,
    };
    let h1 = if scaled { FrameHeader { flags: h.flags | FLAG_SCALED, ..h } } else { h };
    if compressed { FrameHeader { flags: h1.flags | FLAG_COMPRESSED, ..h1 } } else { h1 }
}

/// Encodes a frame as a binary message: the header, then the pixels raw or
/// LZ4-compressed (a compressed payload opens with the pixel byte count in
/// 4 little-endian bytes).
pub fn encode_frame_message(frame: &DecodedFrame, compression: Option<Compression>, request_id: u32, scaled: bool) -> (r: Vec<u8>)
    ensures
        r@.len() >= HEADER_SIZE,
        r@.subrange(0, HEADER_SIZE as int) == header_bytes(message_header(*frame, compresses(*frame, compression), request_id, scaled)),
        compresses(*frame, compression) ==> r@.len() >= HEADER_SIZE + 4
            && r@.subrange(HEADER_SIZE as int, HEADER_SIZE + 4) == le32(frame.data@.len() as u32),
        !compresses(*frame, compression) ==> r@.subrange(HEADER_SIZE as int, r@.len() as int) == frame.data@,
{
    let mut header = FrameHeader::new(frame.width, frame.height, frame.frame_num, request_id);
    if scaled {
        header = header.with_scaled();
    }
    let fits = frame.data.len() as u64 <= u32::MAX as u64;
    let payload = match compression {
        Some(Compression::Lz4) => {
            if fits {
                header = header.with_compression();
                lz4_compress(frame.data.as_slice())
            } else {
                frame.data.clone()
            }
        },
        None => frame.data.clone(),
    };
    let bytes = header.to_bytes();
    let mut msg: Vec<u8> = Vec::new();
    let mut i: usize = 0;
    while i < HEADER_SIZE
        invariant
            0 <= i <= HEADER_SIZE,
            bytes@.len() == HEADER_SIZE,
            msg@ == bytes@.subrange(0, i as int),
        decreases HEADER_SIZE - i,
    {
        msg.push(bytes[i]);
        assert(msg@ =~= bytes@.subrange(0, i + 1));
        i = i + 1;
    }
    let mut j: usize = 0;
    while j < payload.len()
        invariant
            0 <= j <= payload@.len(),
            msg@ == bytes@ + payload@.subrange(0, j as int),
        decreases payload@.len() - j,
    {
        msg.push(payload[j]);
        assert(msg@ =~= bytes@ + payload@.subrange(0, j + 1));
        j = j + 1;
    }
    assert(payload@.subrange(0, payload@.len() as int) =~= payload@);
    assert(msg@.subrange(0, HEADER_SIZE as int) =~= bytes@);
    assert(msg@.subrange(HEADER_SIZE as int, msg@.len() as int) =~= payload@);
    proof {
        if compresses(*frame, compression) {
            assert(msg@.subrange(HEADER_SIZE as int, HEADER_SIZE + 4) =~= payload@.subrange(0, 4));
        }
    }
    msg
}

/// The payload of a message after its header.
pub open spec fn message_payload(data: Seq<u8>) -> Seq<u8> {
    data.subrange(HEADER_SIZE as int, data.len() as int)
}

/// Parses a binary frame message: its header and payload (decompressed when
/// flagged, handed over as is when JPEG). Absent when the header does not
/// parse, when nothing follows it, or when a compressed payload is larger
/// than `MAX_COMPRESSED_PAYLOAD` or does not decompress.
pub fn parse_frame_message(data: &[u8]) -> (r: Option<(FrameHeader, Vec<u8>)>)
    ensures
        match parse_header(data@) {
            None => r is None,
            Some(h) => if data@.len() <= HEADER_SIZE {
                r is None
            } else if h.flags & FLAG_JPEG == 0 && h.flags & FLAG_COMPRESSED != 0 {
                if message_payload(data@).len() > MAX_COMPRESSED_PAYLOAD {
                    r is None
                } else { match lz4_unpacked(message_payload(data@)) {
                    Some(p) => r matches Some(m) && m.0 == h && m.1@ == p,
                    None => r is None,
                } }
            } else {
                r matches Some(m) && m.0 == h && m.1@ == message_payload(data@)
            },
        },
{
    let header = match FrameHeader::from_bytes(data) {
        Some(h) => h,
        None => return None,
    };
    if data.len() <= HEADER_SIZE {
        return None;
    }
    let (_, rest) = data.split_at(HEADER_SIZE);
    if !header.is_jpeg() && header.is_compressed() {
        if rest.len() > MAX_COMPRESSED_PAYLOAD {
            return None;
        }
        match lz4_decompress(rest) {
            Some(p) => Some((header, p)),
            None => None,
        }
    } else {
        let mut p: Vec<u8> = Vec::new();
        let mut i: usize = 0;
        while i < rest.len()
            invariant
                0 <= i <= rest@.len(),
                p@ == rest@.subrange(0, i as int),
            decreases rest@.len() - i,
        {
            p.push(rest[i]);
            assert(p@ =~= rest@.subrange(0, i + 1));
            i = i + 1;
        }
        assert(rest@.subrange(0, rest@.len() as int) =~= rest@);
        Some((header, p))
    }
}

/// Messages built without compression parse back to their header and pixels.
pub proof fn lemma_uncompressed_message_round_trip(frame: DecodedFrame, request_id: u32, scaled: bool)
    requires
        frame.data@.len() > 0,
    ensures
        ({
            let m = header_bytes(message_header(frame, false, request_id, scaled)) + frame.data@;
            let h = message_header(frame, false, request_id, scaled);
            parse_header(m) == Some(h) && message_payload(m) =~= frame.data@
                && m.len() > HEADER_SIZE && h.flags & FLAG_COMPRESSED == 0
        }),
{
    let h = message_header(frame, false, request_id, scaled);
    let m = header_bytes(h) + frame.data@;
    lemma_header_round_trip(h);
    assert(m.subrange(0, 16) =~= header_bytes(h));
    assert forall|i: int| 0 <= i < 16 implies m[i] == header_bytes(h)[i] by {}
    assert(parse_header(m) == parse_header(header_bytes(h)));
    assert((0u8 | 2u8) & 1u8 == 0u8) by (bit_vector);
    assert(0u8 & 1u8 == 0u8) by (bit_vector);
}

/// Pixel format of decoded frames.
#[derive(Clone, Copy, Debug, PartialEq, Eq, Structural)]
pub enum PixelFormat {
    Rgba8,
    Rgb8,
    Yuv420,
}

/// Priority of a decode request.
#[derive(Clone, Copy, Debug, PartialEq, Eq, Structural)]
pub enum Priority {
    Low,
    Normal,
    High,
}

/// Video codecs offered for encoding.
#[derive(Clone, Copy, Debug, PartialEq, Eq, Structural)]
pub enum VideoCodec {
    Prores,
    Dnxhd,
    H264,
    H265,
    Vp9,
    Ffv1,
    Utvideo,
    Mjpeg,
}

/// Audio codecs offered for encoding.
#[derive(Clone, Copy, Debug, PartialEq, Eq, Structural)]
pub enum AudioCodec {
    Aac,
    Flac,
    Pcm,
    Alac,
}

/// Audio settings of an encode.
#[derive(Clone, Copy, Debug, PartialEq, Eq, Structural)]
pub struct AudioSettings {
    pub codec: AudioCodec,
    pub sample_rate: u32,
    pub channels: u8,
    pub bitrate: Option<u32>,
}

/// Code and message of a failed request.
#[derive(Clone, Debug, PartialEq, Eq)]
pub struct ErrorInfo {
    pub code: String,
    pub message: String,
}

/// Reply to a failed request.
#[derive(Clone, Debug, PartialEq, Eq)]
pub struct ErrorResponse {
    pub id: String,
    pub ok: bool,
    pub error: ErrorInfo,
}

/// Reply describing the helper's host.
#[derive(Clone, Debug, PartialEq, Eq)]
pub struct SystemInfo {
    pub version: String,
    pub ffmpeg_version: String,
    pub hw_accel: Vec<String>,
    pub cache_used_mb: usize,
    pub cache_max_mb: usize,
    pub open_files: usize,
}

impl ErrorResponse {
    /// A failure reply for request `id`.
    pub fn new(id: String, code: String, message: String) -> (r: ErrorResponse)
        ensures
            r == (ErrorResponse { id, ok: false, error: ErrorInfo { code, message } }),
    {
        ErrorResponse { id, ok: false, error: ErrorInfo { code, message } }
    }
}

} // verus!
