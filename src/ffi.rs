//! Types and constants of the hardware-decode API (parser, decoder, frame
//! mapping), held as plain values.

use vstd::prelude::*;
use vstd::string::*;
use crate::text::{decimal_int, push_decimal_i64};

verus! {

/// Status code returned by every driver entry point.
pub type CUresult = i32;

/// The success status code.
pub const CUDA_SUCCESS: CUresult = 0;

/// The message carried by a failed status check.
pub open spec fn cuvid_failure_message(function_name: Seq<char>, result: int) -> Seq<char> {
    function_name + " failed with error code "@ + decimal_int(result)
}

/// Converts a driver status into a `Result`: success is `Ok`, any other code
/// is an error message naming the function and the code.
pub fn check_cuvid_result(result: CUresult, function_name: &str) -> (r: Result<(), String>)
    ensures
        result == CUDA_SUCCESS <==> r is Ok,
        r matches Err(msg) ==> msg@ == cuvid_failure_message(function_name@, result as int),
{
    if result == CUDA_SUCCESS {
        Ok(())
    } else {
        let mut msg = String::from_str(function_name);
        msg.append(" failed with error code ");
        push_decimal_i64(&mut msg, result as i64);
        Err(msg)
    }
}


/// Compressed video formats carried alongside every stream.
#[derive(Clone, Copy, Debug, PartialEq, Eq, Structural)]
pub enum VideoCodec {
    H264,
    H265,
    Vp9,
    Av1,
}

impl VideoCodec {
    /// Short human-readable codec name.
    pub fn display_name(&self) -> (r: &'static str)
        ensures
            r@ == codec_name(*self),
    {
        match self {
            VideoCodec::H264 => "H.264",
            VideoCodec::H265 => "H.265",
            VideoCodec::Vp9 => "VP9",
            VideoCodec::Av1 => "AV1",
        }
    }
}

pub open spec fn codec_name(c: VideoCodec) -> Seq<char> {
    match c {
        VideoCodec::H264 => "H.264"@,
        VideoCodec::H265 => "H.265"@,
        VideoCodec::Vp9 => "VP9"@,
        VideoCodec::Av1 => "AV1"@,
    }
}

/// Codec identifiers of the hardware decoder (`cudaVideoCodec`).
#[derive(Clone, Copy, Debug, PartialEq, Eq, Structural)]
pub enum CudaVideoCodec {
    Mpeg1,
    Mpeg2,
    Mpeg4,
    Vc1,
    H264,
    Jpeg,
    H264Svc,
    H264Mvc,
    Hevc,
    Vp8,
    Vp9,
    Av1,
    NumCodecs,
}

/// The driver's numeric identifier of each codec.
pub open spec fn cuda_codec_id(c: CudaVideoCodec) -> i32 {
    match c {
        CudaVideoCodec::Mpeg1 => 0,
        CudaVideoCodec::Mpeg2 => 1,
        CudaVideoCodec::Mpeg4 => 2,
        CudaVideoCodec::Vc1 => 3,
        CudaVideoCodec::H264 => 4,
        CudaVideoCodec::Jpeg => 5,
        CudaVideoCodec::H264Svc => 6,
        CudaVideoCodec::H264Mvc => 7,
        CudaVideoCodec::Hevc => 8,
        CudaVideoCodec::Vp8 => 9,
        CudaVideoCodec::Vp9 => 10,
        CudaVideoCodec::Av1 => 12,
        CudaVideoCodec::NumCodecs => 13,
    }
}

/// The hardware codec that decodes each stream codec.
pub open spec fn cuda_codec_for(codec: VideoCodec) -> CudaVideoCodec {
    match codec {
        VideoCodec::H264 => CudaVideoCodec::H264,
        VideoCodec::H265 => CudaVideoCodec::Hevc,
        VideoCodec::Vp9 => CudaVideoCodec::Vp9,
        VideoCodec::Av1 => CudaVideoCodec::Av1,
    }
}

impl CudaVideoCodec {
    /// Maps a stream codec onto the hardware codec.
    pub fn from_common(codec: VideoCodec) -> (r: Option<CudaVideoCodec>)
        ensures
            r == Some(cuda_codec_for(codec)),
    {
        match codec {
            VideoCodec::H264 => Some(CudaVideoCodec::H264),
            VideoCodec::H265 => Some(CudaVideoCodec::Hevc),
            VideoCodec::Vp9 => Some(CudaVideoCodec::Vp9),
            VideoCodec::Av1 => Some(CudaVideoCodec::Av1),
        }
    }

    /// The driver's numeric identifier.
    pub fn native_id(&self) -> (r: i32)
        ensures
            r == cuda_codec_id(*self),
    {
        match self {
            CudaVideoCodec::Mpeg1 => 0,
            CudaVideoCodec::Mpeg2 => 1,
            CudaVideoCodec::Mpeg4 => 2,
            CudaVideoCodec::Vc1 => 3,
            CudaVideoCodec::H264 => 4,
            CudaVideoCodec::Jpeg => 5,
            CudaVideoCodec::H264Svc => 6,
            CudaVideoCodec::H264Mvc => 7,
            CudaVideoCodec::Hevc => 8,
            CudaVideoCodec::Vp8 => 9,
            CudaVideoCodec::Vp9 => 10,
            CudaVideoCodec::Av1 => 12,
            CudaVideoCodec::NumCodecs => 13,
        }
    }
}

/// Distinct stream codecs map onto distinct hardware codec identifiers.
pub proof fn lemma_codec_mapping_one_to_one(a: VideoCodec, b: VideoCodec)
    ensures
        cuda_codec_id(cuda_codec_for(a)) == cuda_codec_id(cuda_codec_for(b)) ==> a == b,
{
}

/// Output surface format (`cudaVideoSurfaceFormat`).
#[derive(Clone, Copy, Debug, PartialEq, Eq, Structural)]
pub enum CudaVideoSurfaceFormat {
    Nv12,
    P016,
    Yuy2,
    Yuv444,
    Nv24,
    Yuv444_16bit,
}

impl CudaVideoSurfaceFormat {
    /// The driver's numeric identifier.
    pub fn native_id(&self) -> (r: i32)
        ensures
            r == match *self {
                CudaVideoSurfaceFormat::Nv12 => 0i32,
                CudaVideoSurfaceFormat::P016 => 1,
                CudaVideoSurfaceFormat::Yuy2 => 2,
                CudaVideoSurfaceFormat::Yuv444 => 3,
                CudaVideoSurfaceFormat::Nv24 => 4,
                CudaVideoSurfaceFormat::Yuv444_16bit => 5,
            },
    {
        match self {
            CudaVideoSurfaceFormat::Nv12 => 0,
            CudaVideoSurfaceFormat::P016 => 1,
            CudaVideoSurfaceFormat::Yuy2 => 2,
            CudaVideoSurfaceFormat::Yuv444 => 3,
            CudaVideoSurfaceFormat::Nv24 => 4,
            CudaVideoSurfaceFormat::Yuv444_16bit => 5,
        }
    }
}

/// Deinterlace mode (`cudaVideoDeinterlaceMode`).
#[derive(Clone, Copy, Debug, PartialEq, Eq, Structural)]
pub enum CudaVideoDeinterlaceMode {
    Weave,
    Bob,
    Adaptive,
}

impl CudaVideoDeinterlaceMode {
    /// The driver's numeric identifier.
    pub fn native_id(&self) -> (r: i32)
        ensures
            r == match *self {
                CudaVideoDeinterlaceMode::Weave => 0i32,
                CudaVideoDeinterlaceMode::Bob => 1,
                CudaVideoDeinterlaceMode::Adaptive => 2,
            },
    {
        match self {
            CudaVideoDeinterlaceMode::Weave => 0,
            CudaVideoDeinterlaceMode::Bob => 1,
            CudaVideoDeinterlaceMode::Adaptive => 2,
        }
    }
}

/// Chroma subsampling (`cudaVideoChromaFormat`).
#[derive(Clone, Copy, Debug, PartialEq, Eq, Structural)]
pub enum CudaVideoChromaFormat {
    Monochrome,
    Yuv420,
    Yuv422,
    Yuv444,
}

impl CudaVideoChromaFormat {
    /// The driver's numeric identifier.
    pub fn native_id(&self) -> (r: i32)
        ensures
            r == match *self {
                CudaVideoChromaFormat::Monochrome => 0i32,
                CudaVideoChromaFormat::Yuv420 => 1,
                CudaVideoChromaFormat::Yuv422 => 2,
                CudaVideoChromaFormat::Yuv444 => 3,
            },
    {
        match self {
            CudaVideoChromaFormat::Monochrome => 0,
            CudaVideoChromaFormat::Yuv420 => 1,
            CudaVideoChromaFormat::Yuv422 => 2,
            CudaVideoChromaFormat::Yuv444 => 3,
        }
    }
}

/// Decoder creation flags (`cudaVideoCreateFlags`).
#[derive(Clone, Copy, Debug, PartialEq, Eq, Structural)]
pub enum CudaVideoCreateFlags {
    Default,
    PreferCUDA,
    PreferDXVA,
    PreferCUVID,
}

impl CudaVideoCreateFlags {
    /// The driver's bit value.
    pub fn bits(&self) -> (r: u32)
        ensures
            r == match *self {
                CudaVideoCreateFlags::Default => 0u32,
                CudaVideoCreateFlags::PreferCUDA => 1,
                CudaVideoCreateFlags::PreferDXVA => 2,
                CudaVideoCreateFlags::PreferCUVID => 4,
            },
    {
        match self {
            CudaVideoCreateFlags::Default => 0,
            CudaVideoCreateFlags::PreferCUDA => 1,
            CudaVideoCreateFlags::PreferDXVA => 2,
            CudaVideoCreateFlags::PreferCUVID => 4,
        }
    }
}

/// Flags of a packet fed to the parser.
pub const CUVID_PKT_ENDOFSTREAM: u32 = 0x01;
pub const CUVID_PKT_TIMESTAMP: u32 = 0x02;
pub const CUVID_PKT_DISCONTINUITY: u32 = 0x04;
pub const CUVID_PKT_ENDOFPICTURE: u32 = 0x08;
pub const CUVID_PKT_NOTIFY_EOS: u32 = 0x10;

/// Video format reported by the parser's sequence callback (`CUVIDEOFORMAT`).
#[derive(Clone, Copy, Debug, PartialEq, Eq, Structural)]
pub struct CuVideoFormat {
    pub codec: CudaVideoCodec,
    pub frame_rate_num: u32,
    pub frame_rate_den: u32,
    pub progressive_sequence: u8,
    pub bit_depth_luma_minus8: u8,
    pub bit_depth_chroma_minus8: u8,
    /// Minimum number of decode surfaces the parser needs.
    pub min_num_decode_surfaces: u8,
    pub coded_width: u32,
    pub coded_height: u32,
    pub display_area_left: i32,
    pub display_area_top: i32,
    pub display_area_right: i32,
    pub display_area_bottom: i32,
    pub chroma_format: CudaVideoChromaFormat,
    pub bitrate: u32,
    pub display_aspect_ratio_x: i32,
    pub display_aspect_ratio_y: i32,
    pub video_signal_description_flags: u32,
    pub seqhdr_data_length: u32,
}

/// Decoder creation parameters (`CUVIDDECODECREATEINFO`); the context lock is
/// always absent and the reserved words are zero.
#[derive(Clone, Copy, Debug, PartialEq, Eq, Structural)]
pub struct CuvidDecodeCreateInfo {
    pub coded_width: u32,
    pub coded_height: u32,
    pub num_decode_surfaces: u32,
    pub codec_type: CudaVideoCodec,
    pub chroma_format: CudaVideoChromaFormat,
    pub creation_flags: u32,
    pub bit_depth_minus8: u32,
    pub intra_decode_only: u32,
    pub max_width: u32,
    pub max_height: u32,
    pub display_left: i16,
    pub display_top: i16,
    pub display_right: i16,
    pub display_bottom: i16,
    pub output_format: CudaVideoSurfaceFormat,
    pub deinterlace_mode: CudaVideoDeinterlaceMode,
    pub target_width: u32,
    pub target_height: u32,
    pub num_output_surfaces: u32,
    pub target_rect_left: i16,
    pub target_rect_top: i16,
    pub target_rect_right: i16,
    pub target_rect_bottom: i16,
}

/// Picture decode parameters (`CUVIDPICPARAMS`), filled by the parser and
/// forwarded to the decoder unchanged.
#[derive(Clone, Copy, Debug, PartialEq, Eq, Structural)]
pub struct CuvidPicParams {
    pub pic_width_in_mbs: i32,
    pub frame_height_in_mbs: i32,
    pub curr_pic_idx: i32,
    pub field_pic_flag: i32,
    pub bottom_field_flag: i32,
    pub second_field: i32,
    pub num_bitstream_buffers: u32,
    pub num_slices: u32,
    pub ref_pic_flag: i32,
    pub intra_pic_flag: i32,
}

/// Frame mapping parameters (`CUVIDPROCPARAMS`).
#[derive(Clone, Copy, Debug, PartialEq, Eq, Structural)]
pub struct CuvidProcParams {
    pub progressive_frame: i32,
    pub second_field: i32,
    pub top_field_first: i32,
    pub unpaired_field: i32,
    pub reserved_flags: u32,
    pub reserved_zero: u32,
    pub raw_input_dptr: u64,
    pub raw_input_pitch: u32,
    pub raw_input_format: u32,
    pub raw_output_dptr: u64,
    pub raw_output_pitch: u32,
    pub raw_output_format: u32,
    pub histogram_dptr: u64,
}

impl CuvidProcParams {
    /// Mapping parameters for a frame with the given field layout.
    pub open spec fn for_frame_spec(progressive_frame: bool, top_field_first: bool) -> CuvidProcParams {
        CuvidProcParams {
            progressive_frame: if progressive_frame { 1i32 } else { 0i32 },
            second_field: 0,
            top_field_first: if top_field_first { 1i32 } else { 0i32 },
            unpaired_field: 0,
            reserved_flags: 0,
            reserved_zero: 0,
            raw_input_dptr: 0,
            raw_input_pitch: 0,
            raw_input_format: 0,
            raw_output_dptr: 0,
            raw_output_pitch: 0,
            raw_output_format: 0,
            histogram_dptr: 0,
        }
    }

    /// Mapping parameters for a frame with the given field layout; all other
    /// fields are zero.
    pub fn for_frame(progressive_frame: bool, top_field_first: bool) -> (r: CuvidProcParams)
        ensures
            r == Self::for_frame_spec(progressive_frame, top_field_first),
    {
        CuvidProcParams {
            progressive_frame: if progressive_frame { 1 } else { 0 },
            second_field: 0,
            top_field_first: if top_field_first { 1 } else { 0 },
            unpaired_field: 0,
            reserved_flags: 0,
            reserved_zero: 0,
            raw_input_dptr: 0,
            raw_input_pitch: 0,
            raw_input_format: 0,
            raw_output_dptr: 0,
            raw_output_pitch: 0,
            raw_output_format: 0,
            histogram_dptr: 0,
        }
    }
}

/// Display information handed to the display callback (`CUVIDPARSERDISPINFO`).
#[derive(Clone, Copy, Debug, PartialEq, Eq, Structural)]
pub struct CuvidParserDispInfo {
    pub picture_index: i32,
    pub progressive_frame: i32,
    pub top_field_first: i32,
    pub repeat_first_field: i32,
    pub timestamp: i64,
}

/// A packet fed to the parser (`CUVIDSOURCEDATAPACKET`), without its payload
/// pointer: the payload travels beside it.
#[derive(Clone, Copy, Debug, PartialEq, Eq, Structural)]
pub struct CuvidSourceDataPacket {
    pub flags: u32,
    pub payload_size: u32,
    pub timestamp: i64,
}

impl CuvidSourceDataPacket {
    /// A packet carrying `payload_len` bytes stamped with `timestamp`.
    pub fn data(payload_len: usize, timestamp: i64) -> (r: CuvidSourceDataPacket)
        requires
            payload_len <= u32::MAX,
        ensures
            r.flags == CUVID_PKT_TIMESTAMP,
            r.payload_size == payload_len,
            r.timestamp == timestamp,
    {
        CuvidSourceDataPacket { flags: CUVID_PKT_TIMESTAMP, payload_size: payload_len as u32, timestamp }
    }

    /// The empty end-of-stream packet that drains the parser's reorder buffer.
    pub fn end_of_stream() -> (r: CuvidSourceDataPacket)
        ensures
            r.flags == CUVID_PKT_ENDOFSTREAM,
            r.payload_size == 0,
            r.timestamp == 0,
    {
        CuvidSourceDataPacket { flags: CUVID_PKT_ENDOFSTREAM, payload_size: 0, timestamp: 0 }
    }

    /// The empty discontinuity packet that resets the parser's bitstream state.
    pub fn discontinuity() -> (r: CuvidSourceDataPacket)
        ensures
            r.flags == CUVID_PKT_DISCONTINUITY,
            r.payload_size == 0,
            r.timestamp == 0,
    {
        CuvidSourceDataPacket { flags: CUVID_PKT_DISCONTINUITY, payload_size: 0, timestamp: 0 }
    }
}

/// Operating point information (scalable codecs); carried opaque.
#[derive(Clone, Copy, Debug)]
pub struct CuvidOperatingPointInfo {
    pub reserved: [u8; 256],
}

/// SEI message data; carried opaque.
#[derive(Clone, Copy, Debug)]
pub struct CuvidSeiMessage {
    pub reserved: [u8; 256],
}

impl Default for CuVideoFormat {
    /// The all-zero format.
    fn default() -> (r: CuVideoFormat)
        ensures
            r.codec == CudaVideoCodec::Mpeg1,
            r.chroma_format == CudaVideoChromaFormat::Monochrome,
            r.frame_rate_num == 0 && r.frame_rate_den == 0,
            r.progressive_sequence == 0 && r.bit_depth_luma_minus8 == 0 && r.bit_depth_chroma_minus8 == 0,
            r.min_num_decode_surfaces == 0,
            r.coded_width == 0 && r.coded_height == 0,
            r.display_area_left == 0 && r.display_area_top == 0,
            r.display_area_right == 0 && r.display_area_bottom == 0,
            r.bitrate == 0 && r.display_aspect_ratio_x == 0 && r.display_aspect_ratio_y == 0,
            r.video_signal_description_flags == 0 && r.seqhdr_data_length == 0,
    {
        CuVideoFormat {
            codec: CudaVideoCodec::Mpeg1,
            frame_rate_num: 0,
            frame_rate_den: 0,
            progressive_sequence: 0,
            bit_depth_luma_minus8: 0,
            bit_depth_chroma_minus8: 0,
            min_num_decode_surfaces: 0,
            coded_width: 0,
            coded_height: 0,
            display_area_left: 0,
            display_area_top: 0,
            display_area_right: 0,
            display_area_bottom: 0,
            chroma_format: CudaVideoChromaFormat::Monochrome,
            bitrate: 0,
            display_aspect_ratio_x: 0,
            display_aspect_ratio_y: 0,
            video_signal_description_flags: 0,
            seqhdr_data_length: 0,
        }
    }
}

impl Default for CuvidDecodeCreateInfo {
    /// The all-zero creation parameters.
    fn default() -> (r: CuvidDecodeCreateInfo)
        ensures
            r.coded_width == 0 && r.coded_height == 0 && r.num_decode_surfaces == 0,
            r.codec_type == CudaVideoCodec::Mpeg1,
            r.chroma_format == CudaVideoChromaFormat::Monochrome,
            r.creation_flags == 0 && r.bit_depth_minus8 == 0 && r.intra_decode_only == 0,
            r.max_width == 0 && r.max_height == 0,
            r.display_left == 0 && r.display_top == 0 && r.display_right == 0 && r.display_bottom == 0,
            r.output_format == CudaVideoSurfaceFormat::Nv12,
            r.deinterlace_mode == CudaVideoDeinterlaceMode::Weave,
            r.target_width == 0 && r.target_height == 0 && r.num_output_surfaces == 0,
            r.target_rect_left == 0 && r.target_rect_top == 0,
            r.target_rect_right == 0 && r.target_rect_bottom == 0,
    {
        CuvidDecodeCreateInfo {
            coded_width: 0,
            coded_height: 0,
            num_decode_surfaces: 0,
            codec_type: CudaVideoCodec::Mpeg1,
            chroma_format: CudaVideoChromaFormat::Monochrome,
            creation_flags: 0,
            bit_depth_minus8: 0,
            intra_decode_only: 0,
            max_width: 0,
            max_height: 0,
            display_left: 0,
            display_top: 0,
            display_right: 0,
            display_bottom: 0,
            output_format: CudaVideoSurfaceFormat::Nv12,
            deinterlace_mode: CudaVideoDeinterlaceMode::Weave,
            target_width: 0,
            target_height: 0,
            num_output_surfaces: 0,
            target_rect_left: 0,
            target_rect_top: 0,
            target_rect_right: 0,
            target_rect_bottom: 0,
        }
    }
}

impl Default for CuvidPicParams {
    /// The all-zero picture parameters.
    fn default() -> (r: CuvidPicParams)
        ensures
            r.pic_width_in_mbs == 0 && r.frame_height_in_mbs == 0 && r.curr_pic_idx == 0,
            r.field_pic_flag == 0 && r.bottom_field_flag == 0 && r.second_field == 0,
            r.num_bitstream_buffers == 0 && r.num_slices == 0,
            r.ref_pic_flag == 0 && r.intra_pic_flag == 0,
    {
        CuvidPicParams {
            pic_width_in_mbs: 0,
            frame_height_in_mbs: 0,
            curr_pic_idx: 0,
            field_pic_flag: 0,
            bottom_field_flag: 0,
            second_field: 0,
            num_bitstream_buffers: 0,
            num_slices: 0,
            ref_pic_flag: 0,
            intra_pic_flag: 0,
        }
    }
}

impl Default for CuvidProcParams {
    /// The all-zero mapping parameters.
    fn default() -> (r: CuvidProcParams)
        ensures
            r == CuvidProcParams::for_frame_spec(false, false),
    {
        CuvidProcParams::for_frame(false, false)
    }
}

/// Errors of binding the hardware-decode library.
#[derive(Clone, Debug, PartialEq, Eq)]
pub enum NvcuvidLoadError {
    LibraryNotFound(String),
    SymbolNotFound(String),
}


/// Operating systems with distinct names of the decode library.
#[derive(Clone, Copy, Debug, PartialEq, Eq, Structural)]
pub enum TargetOs {
    Windows,
    Linux,
    Other,
}

/// File name of the hardware-decode library on each system.
pub fn library_name(os: TargetOs) -> (r: &'static str)
    ensures
        r@ == match os {
            TargetOs::Windows => "nvcuvid.dll"@,
            TargetOs::Linux => "libnvcuvid.so.1"@,
            TargetOs::Other => "libnvcuvid.so"@,
        },
{
    match os {
        TargetOs::Windows => "nvcuvid.dll",
        TargetOs::Linux => "libnvcuvid.so.1",
        TargetOs::Other => "libnvcuvid.so",
    }
}

/// Number of entry points the binding resolves.
pub const NUM_REQUIRED_SYMBOLS: usize = 8;

/// Name of the `i`-th required entry point.
pub open spec fn symbol_name(i: int) -> Seq<char> {
    if i == 0 { "cuvidCreateDecoder"@ }
    else if i == 1 { "cuvidDestroyDecoder"@ }
    else if i == 2 { "cuvidDecodePicture"@ }
    else if i == 3 { "cuvidMapVideoFrame64"@ }
    else if i == 4 { "cuvidUnmapVideoFrame64"@ }
    else if i == 5 { "cuvidCreateVideoParser"@ }
    else if i == 6 { "cuvidDestroyVideoParser"@ }
    else { "cuvidParseVideoData"@ }
}

/// Name of the `i`-th required entry point, in resolution order.
pub fn required_symbol(i: usize) -> (r: &'static str)
    requires
        i < NUM_REQUIRED_SYMBOLS,
    ensures
        r@ == symbol_name(i as int),
{
    if i == 0 { "cuvidCreateDecoder" }
    else if i == 1 { "cuvidDestroyDecoder" }
    else if i == 2 { "cuvidDecodePicture" }
    else if i == 3 { "cuvidMapVideoFrame64" }
    else if i == 4 { "cuvidUnmapVideoFrame64" }
    else if i == 5 { "cuvidCreateVideoParser" }
    else if i == 6 { "cuvidDestroyVideoParser" }
    else { "cuvidParseVideoData" }
}

/// Index of the first failed lookup in `errs`, if any.
pub open spec fn first_missing(errs: Seq<Option<String>>, i: int) -> bool {
    0 <= i < errs.len() && errs[i] is Some && forall|j: int| 0 <= j < i ==> errs[j] is None
}

/// Decides the binding from the outcome of each symbol lookup (`None` for a
/// resolved symbol, else the loader's message). Resolution is all or nothing:
/// the binding succeeds only if every symbol resolved, and otherwise names the
/// first one that did not.
pub fn check_symbols(lookup_errors: &Vec<Option<String>>) -> (r: Result<(), NvcuvidLoadError>)
    requires
        lookup_errors@.len() == NUM_REQUIRED_SYMBOLS,
    ensures
        r is Ok <==> forall|j: int| 0 <= j < lookup_errors@.len() ==> lookup_errors@[j] is None,
        r matches Err(e) ==> exists|i: int| first_missing(lookup_errors@, i)
            && (e matches NvcuvidLoadError::SymbolNotFound(m)
                && m@ == symbol_name(i) + ": "@ + lookup_errors@[i]->0@),
{
    let mut i: usize = 0;
    while i < lookup_errors.len()
        invariant
            lookup_errors@.len() == NUM_REQUIRED_SYMBOLS,
            0 <= i <= lookup_errors@.len(),
            forall|j: int| 0 <= j < i ==> lookup_errors@[j] is None,
        decreases lookup_errors@.len() - i,
    {
        match &lookup_errors[i] {
            Some(e) => {
                let mut m = String::from_str(required_symbol(i));
                m.append(": ");
                m.append(e.as_str());
                assert(first_missing(lookup_errors@, i as int));
                return Err(NvcuvidLoadError::SymbolNotFound(m));
            },
            None => {},
        }
        i = i + 1;
    }
    Ok(())
}

/// The error for a library that could not be opened.
pub fn library_not_found(lib_name: &str, reason: &str) -> (r: NvcuvidLoadError)
    ensures
        r matches NvcuvidLoadError::LibraryNotFound(m)
            && m@ == "Failed to load "@ + lib_name@ + ": "@ + reason@ + ". Is the NVIDIA driver installed?"@,
{
    let mut m = String::from_str("Failed to load ");
    m.append(lib_name);
    m.append(": ");
    m.append(reason);
    m.append(". Is the NVIDIA driver installed?");
    NvcuvidLoadError::LibraryNotFound(m)
}

} // verus!
