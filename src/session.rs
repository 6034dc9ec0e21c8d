//! State of a hardware decode session: the parser configuration, the state
//! shared with the parser callbacks (decoder handle, display queue, counters,
//! last callback error), and the decisions each callback and each submit or
//! retrieval step takes.
//!
//! Handles (decoder, picture slots, device pointers) are plain integers here;
//! whoever owns the driver binding performs each call that a step plans and
//! hands its status back to the next step.

use vstd::prelude::*;
use vstd::string::*;
use crate::ffi::{
    check_cuvid_result, cuda_codec_for, cuvid_failure_message, CUresult, CUDA_SUCCESS,
    CuVideoFormat, CudaVideoCodec, CudaVideoDeinterlaceMode, CudaVideoSurfaceFormat,
    CuvidDecodeCreateInfo, CuvidParserDispInfo, CuvidProcParams, VideoCodec,
};
use crate::text::{decimal_int, push_decimal_i64};

verus! {

/// Errors surfaced by a decode session.
#[derive(Clone, Debug, PartialEq, Eq)]
pub enum DecodeError {
    UnsupportedCodec(VideoCodec),
    HwDecoderInit { codec: VideoCodec, reason: String },
    DecodeFailed { frame: u64, reason: String },
    InvalidSession,
}

/// Information about a decoded frame waiting in the display queue.
#[derive(Clone, Copy, Debug, PartialEq, Eq, Structural)]
pub struct DecodedFrameInfo {
    /// Index of the decoded surface in the DPB.
    pub picture_index: i32,
    pub progressive_frame: bool,
    pub top_field_first: bool,
    /// Presentation timestamp from the parser.
    pub timestamp: i64,
}

/// Statistics of a decode session.
#[derive(Clone, Copy, Debug, PartialEq, Eq, Structural)]
pub struct SessionStats {
    pub frames_decoded: u64,
    pub frames_displayed: u64,
    pub pending_frames: u64,
    pub decoder_ready: bool,
    pub width: u32,
    pub height: u32,
}

/// One mapped decoded NV12 surface. Whoever holds it must release it back
/// to the decoder (unmap `device_ptr` on `decoder_handle`) exactly once.
#[derive(Debug)]
pub struct MappedFrame {
    /// Device pointer to the Y plane.
    pub device_ptr: u64,
    /// Row pitch in bytes.
    pub pitch: u32,
    pub width: u32,
    pub height: u32,
    pub timestamp: i64,
    /// The DPB slot this frame occupies.
    pub picture_index: i32,
    /// The decoder the surface belongs to.
    pub decoder_handle: u64,
    /// Set once the caller has copied the data out (diagnostic only).
    pub consumed: bool,
}

impl MappedFrame {
    /// Marks the frame data as consumed; release still happens regardless.
    pub fn mark_consumed(&mut self)
        ensures
            final(self).consumed,
            final(self).device_ptr == old(self).device_ptr,
            final(self).pitch == old(self).pitch,
            final(self).width == old(self).width,
            final(self).height == old(self).height,
            final(self).timestamp == old(self).timestamp,
            final(self).picture_index == old(self).picture_index,
            final(self).decoder_handle == old(self).decoder_handle,
    {
        self.consumed = true;
    }

    /// Whether the frame has been marked as consumed.
    pub fn is_consumed(&self) -> (r: bool)
        ensures
            r == self.consumed,
    {
        self.consumed
    }

    /// Device pointer to the interleaved UV plane, which follows the Y plane
    /// at `height * pitch` bytes.
    pub fn uv_device_ptr(&self) -> (r: u64)
        requires
            self.device_ptr + self.height * self.pitch <= u64::MAX,
        ensures
            r == self.device_ptr + self.height * self.pitch,
    {
        proof {
            assert(0 <= self.height * self.pitch) by (nonlinear_arith);
        }
        self.device_ptr + self.height as u64 * self.pitch as u64
    }
}

/// Parser creation parameters.
#[derive(Clone, Copy, Debug, PartialEq, Eq, Structural)]
pub struct ParserConfig {
    pub codec: VideoCodec,
    pub codec_type: CudaVideoCodec,
    /// Requested DPB size, clamped to `[MIN_DECODE_SURFACES, MAX_DECODE_SURFACES]`.
    pub max_num_decode_surfaces: u32,
    /// Clock rate of timestamps; 0 keeps the input units.
    pub clock_rate: u32,
    /// 0 is strict.
    pub error_threshold: u32,
    /// Maximum display reorder delay; 0 is low latency.
    pub max_display_delay: u32,
}

pub const MIN_DECODE_SURFACES: u32 = 8;
pub const MAX_DECODE_SURFACES: u32 = 32;

/// Headroom added to the parser's minimum DPB size for the display pipeline.
pub const DPB_HEADROOM: u32 = 4;

/// Surfaces that may be mapped at the same time.
pub const NUM_OUTPUT_SURFACES: u32 = 2;

pub open spec fn clamp_u32(v: u32, lo: u32, hi: u32) -> u32 {
    if v < lo { lo } else if v > hi { hi } else { v }
}

/// Parser configuration for a session decoding `codec`.
pub fn parser_config(codec: VideoCodec, num_decode_surfaces: u32, max_display_delay: u32) -> (r: Result<ParserConfig, DecodeError>)
    ensures
        r matches Ok(c) && c.codec == codec && c.codec_type == cuda_codec_for(codec)
            && c.max_num_decode_surfaces == clamp_u32(num_decode_surfaces, MIN_DECODE_SURFACES, MAX_DECODE_SURFACES)
            && c.clock_rate == 0 && c.error_threshold == 0
            && c.max_display_delay == max_display_delay,
{
    let codec_type = match CudaVideoCodec::from_common(codec) {
        Some(c) => c,
        None => return Err(DecodeError::UnsupportedCodec(codec)),
    };
    let clamped = if num_decode_surfaces < MIN_DECODE_SURFACES {
        MIN_DECODE_SURFACES
    } else if num_decode_surfaces > MAX_DECODE_SURFACES {
        MAX_DECODE_SURFACES
    } else {
        num_decode_surfaces
    };
    Ok(ParserConfig {
        codec,
        codec_type,
        max_num_decode_surfaces: clamped,
        clock_rate: 0,
        error_threshold: 0,
        max_display_delay,
    })
}

/// Outcome of creating the parser: any status but success is a decoder
/// initialisation error naming the codec.
pub fn check_parser_created(codec: VideoCodec, status: CUresult) -> (r: Result<(), DecodeError>)
    ensures
        status == CUDA_SUCCESS ==> r is Ok,
        status != CUDA_SUCCESS ==> (r matches Err(DecodeError::HwDecoderInit { codec: c, reason })
            && c == codec && reason@ == cuvid_failure_message("cuvidCreateVideoParser"@, status as int)),
{
    match check_cuvid_result(status, "cuvidCreateVideoParser") {
        Ok(()) => Ok(()),
        Err(reason) => Err(DecodeError::HwDecoderInit { codec, reason }),
    }
}


/// Output dimension along one axis: the display rectangle's extent when it is
/// positive, else the coded size.
pub open spec fn display_extent(low: i32, high: i32, coded: u32) -> u32 {
    if high - low > 0 { (high - low) as u32 } else { coded }
}

/// Output `(width, height)` of a sequence.
pub open spec fn output_dims(fmt: CuVideoFormat) -> (u32, u32) {
    (
        display_extent(fmt.display_area_left, fmt.display_area_right, fmt.coded_width),
        display_extent(fmt.display_area_top, fmt.display_area_bottom, fmt.coded_height),
    )
}

/// DPB size: the parser's minimum plus headroom, or the requested size if larger.
pub open spec fn dpb_size_spec(parser_min: u8, requested: u32) -> u32 {
    if parser_min + DPB_HEADROOM >= requested { (parser_min + DPB_HEADROOM) as u32 } else { requested }
}

/// Surface format by luma bit depth: 8-bit content is NV12, deeper content P016.
pub open spec fn surface_format_for(bit_depth_luma_minus8: u8) -> CudaVideoSurfaceFormat {
    if bit_depth_luma_minus8 > 0 { CudaVideoSurfaceFormat::P016 } else { CudaVideoSurfaceFormat::Nv12 }
}

fn display_extent_of(low: i32, high: i32, coded: u32) -> (r: u32)
    ensures
        r == display_extent(low, high, coded),
{
    let d: i64 = high as i64 - low as i64;
    if d > 0 { d as u32 } else { coded }
}

/// Output dimensions of a sequence, from its display rectangle or coded size.
pub fn output_dimensions(fmt: &CuVideoFormat) -> (r: (u32, u32))
    ensures
        r == output_dims(*fmt),
{
    (
        display_extent_of(fmt.display_area_left, fmt.display_area_right, fmt.coded_width),
        display_extent_of(fmt.display_area_top, fmt.display_area_bottom, fmt.coded_height),
    )
}

/// DPB size for a new decoder.
pub fn dpb_size(parser_min: u8, requested: u32) -> (r: u32)
    ensures
        r == dpb_size_spec(parser_min, requested),
        r >= parser_min + DPB_HEADROOM,
        r >= requested,
{
    let m: u32 = parser_min as u32 + DPB_HEADROOM;
    if m >= requested { m } else { requested }
}

/// Output surface format for a luma bit depth.
pub fn output_surface_format(bit_depth_luma_minus8: u8) -> (r: CudaVideoSurfaceFormat)
    ensures
        r == surface_format_for(bit_depth_luma_minus8),
{
    if bit_depth_luma_minus8 > 0 { CudaVideoSurfaceFormat::P016 } else { CudaVideoSurfaceFormat::Nv12 }
}

/// Decoder creation parameters for a sequence.
pub open spec fn create_info_spec(fmt: CuVideoFormat, width: u32, height: u32, surfaces: u32) -> CuvidDecodeCreateInfo {
    CuvidDecodeCreateInfo {
        coded_width: fmt.coded_width,
        coded_height: fmt.coded_height,
        num_decode_surfaces: surfaces,
        codec_type: fmt.codec,
        chroma_format: fmt.chroma_format,
        creation_flags: 0,
        bit_depth_minus8: fmt.bit_depth_luma_minus8 as u32,
        intra_decode_only: 0,
        max_width: fmt.coded_width,
        max_height: fmt.coded_height,
        display_left: fmt.display_area_left as i16,
        display_top: fmt.display_area_top as i16,
        display_right: fmt.display_area_right as i16,
        display_bottom: fmt.display_area_bottom as i16,
        output_format: surface_format_for(fmt.bit_depth_luma_minus8),
        deinterlace_mode: CudaVideoDeinterlaceMode::Adaptive,
        target_width: width,
        target_height: height,
        num_output_surfaces: NUM_OUTPUT_SURFACES,
        target_rect_left: 0,
        target_rect_top: 0,
        target_rect_right: 0,
        target_rect_bottom: 0,
    }
}

/// Builds the decoder creation parameters for a sequence.
pub fn decoder_create_info(fmt: &CuVideoFormat, width: u32, height: u32, surfaces: u32) -> (r: CuvidDecodeCreateInfo)
    ensures
        r == create_info_spec(*fmt, width, height, surfaces),
{
    CuvidDecodeCreateInfo {
        coded_width: fmt.coded_width,
        coded_height: fmt.coded_height,
        num_decode_surfaces: surfaces,
        codec_type: fmt.codec,
        chroma_format: fmt.chroma_format,
        creation_flags: 0,
        bit_depth_minus8: fmt.bit_depth_luma_minus8 as u32,
        intra_decode_only: 0,
        max_width: fmt.coded_width,
        max_height: fmt.coded_height,
        display_left: fmt.display_area_left as i16,
        display_top: fmt.display_area_top as i16,
        display_right: fmt.display_area_right as i16,
        display_bottom: fmt.display_area_bottom as i16,
        output_format: output_surface_format(fmt.bit_depth_luma_minus8),
        deinterlace_mode: CudaVideoDeinterlaceMode::Adaptive,
        target_width: width,
        target_height: height,
        num_output_surfaces: NUM_OUTPUT_SURFACES,
        target_rect_left: 0,
        target_rect_top: 0,
        target_rect_right: 0,
        target_rect_bottom: 0,
    }
}

/// What the sequence callback must do with the driver: destroy the previous
/// decoder (if any), then create one with `create_info`.
#[derive(Clone, Copy, Debug, PartialEq, Eq, Structural)]
pub struct SequencePlan {
    pub retire_decoder: Option<u64>,
    pub create_info: CuvidDecodeCreateInfo,
}

/// A display-queue entry popped for mapping, with what the map call needs.
#[derive(Clone, Copy, Debug, PartialEq, Eq, Structural)]
pub struct MapRequest {
    pub decoder_handle: u64,
    pub frame: DecodedFrameInfo,
    pub proc_params: CuvidProcParams,
    pub width: u32,
    pub height: u32,
}

pub open spec fn bump(n: u64) -> u64 {
    if n < u64::MAX { (n + 1) as u64 } else { n }
}

pub open spec fn failure_with_code(prefix: Seq<char>, code: int) -> Seq<char> {
    prefix + decimal_int(code)
}

/// The message recorded when the decode callback runs before any decoder exists.
pub open spec fn no_decoder_message() -> Seq<char> {
    "Decode callback invoked before decoder was created"@
}

/// State shared between the parser callbacks and the session owner. All
/// access is serialised by the owner (behind one lock).
#[derive(Debug)]
pub struct CallbackState {
    /// The decoder handle, absent until the first sequence header.
    pub decoder: Option<u64>,
    /// Frames ready for display, oldest first.
    pub display_queue: Vec<DecodedFrameInfo>,
    /// Format of the latest sequence.
    pub format: Option<CuVideoFormat>,
    pub cuda_codec: CudaVideoCodec,
    /// The stream codec the session was built for.
    pub codec: VideoCodec,
    /// Output width (display rectangle, else coded width).
    pub width: u32,
    /// Output height.
    pub height: u32,
    /// Requested minimum DPB size.
    pub num_decode_surfaces: u32,
    /// Error recorded by a callback, checked after each parse call.
    pub last_error: Option<String>,
    /// Whether the recorded error is a failure to set up the decoder.
    pub setup_failed: bool,
    pub frames_decoded: u64,
    pub frames_displayed: u64,
}

fn message_with_code(prefix: &str, code: i32) -> (r: String)
    ensures
        r@ == failure_with_code(prefix@, code as int),
{
    let mut m = String::from_str(prefix);
    push_decimal_i64(&mut m, code as i64);
    m
}

impl CallbackState {
    /// The requested DPB size stays within the clamp range.
    pub open spec fn wf(&self) -> bool {
        MIN_DECODE_SURFACES <= self.num_decode_surfaces <= MAX_DECODE_SURFACES
    }

    /// Fresh state for a parser built from `config`: no decoder, empty queue.
    pub fn new(config: &ParserConfig) -> (r: CallbackState)
        requires
            MIN_DECODE_SURFACES <= config.max_num_decode_surfaces <= MAX_DECODE_SURFACES,
        ensures
            r.wf(),
            r.decoder is None,
            r.display_queue@ == Seq::<DecodedFrameInfo>::empty(),
            r.format is None,
            r.cuda_codec == config.codec_type,
            r.codec == config.codec,
            !r.setup_failed,
            r.width == 0 && r.height == 0,
            r.num_decode_surfaces == config.max_num_decode_surfaces,
            r.last_error is None,
            r.frames_decoded == 0 && r.frames_displayed == 0,
    {
        CallbackState {
            decoder: None,
            display_queue: Vec::new(),
            format: None,
            cuda_codec: config.codec_type,
            codec: config.codec,
            width: 0,
            height: 0,
            num_decode_surfaces: config.max_num_decode_surfaces,
            last_error: None,
            setup_failed: false,
            frames_decoded: 0,
            frames_displayed: 0,
        }
    }

    /// First half of the sequence callback: records the new format and output
    /// size, takes the existing decoder out for destruction (resolution
    /// change), and plans the creation of the new one. Pictures still queued
    /// belong to the retired decoder's DPB and are dropped, so every picture
    /// mapped afterwards was decoded at the new size.
    pub fn begin_sequence(&mut self, fmt: &CuVideoFormat) -> (plan: SequencePlan)
        requires
            old(self).wf(),
        ensures
            final(self).wf(),
            (final(self).width, final(self).height) == output_dims(*fmt),
            final(self).format == Some(*fmt),
            final(self).decoder is None,
            plan.retire_decoder == old(self).decoder,
            plan.create_info == create_info_spec(
                *fmt,
                output_dims(*fmt).0,
                output_dims(*fmt).1,
                dpb_size_spec(fmt.min_num_decode_surfaces, old(self).num_decode_surfaces),
            ),
            final(self).display_queue@ == Seq::<DecodedFrameInfo>::empty(),
            final(self).num_decode_surfaces == old(self).num_decode_surfaces,
            final(self).cuda_codec == old(self).cuda_codec && final(self).codec == old(self).codec,
            final(self).last_error == old(self).last_error && final(self).setup_failed == old(self).setup_failed,
            final(self).frames_decoded == old(self).frames_decoded,
            final(self).frames_displayed == old(self).frames_displayed,
    {
        let (w, h) = output_dimensions(fmt);
        self.width = w;
        self.height = h;
        self.format = Some(*fmt);
        self.display_queue.clear();
        let retire = self.decoder;
        self.decoder = None;
        let surfaces = dpb_size(fmt.min_num_decode_surfaces, self.num_decode_surfaces);
        let create_info = decoder_create_info(fmt, w, h, surfaces);
        SequencePlan { retire_decoder: retire, create_info }
    }

    /// Second half of the sequence callback, given the outcome of creating
    /// the decoder (its handle, or the failing status). Returns the DPB size
    /// to the parser, or 0 after recording the error.
    pub fn finish_sequence(&mut self, plan: &SequencePlan, created: Result<u64, CUresult>) -> (r: i32)
        requires
            old(self).wf(),
            plan.create_info.num_decode_surfaces <= i32::MAX,
        ensures
            final(self).wf(),
            match created {
                Ok(h) => final(self).decoder == Some(h)
                    && r == plan.create_info.num_decode_surfaces as i32
                    && final(self).last_error == old(self).last_error && final(self).setup_failed == old(self).setup_failed,
                Err(code) => final(self).decoder == old(self).decoder && r == 0
                    && (final(self).last_error matches Some(e)
                    && e@ == failure_with_code("cuvidCreateDecoder failed: error "@, code as int))
                    && final(self).setup_failed,
            },
            final(self).display_queue@ == old(self).display_queue@,
            final(self).format == old(self).format,
            final(self).width == old(self).width && final(self).height == old(self).height,
            final(self).num_decode_surfaces == old(self).num_decode_surfaces,
            final(self).cuda_codec == old(self).cuda_codec && final(self).codec == old(self).codec,
            final(self).frames_decoded == old(self).frames_decoded,
            final(self).frames_displayed == old(self).frames_displayed,
    {
        match created {
            Ok(h) => {
                self.decoder = Some(h);
                plan.create_info.num_decode_surfaces as i32
            },
            Err(code) => {
                self.last_error = Some(message_with_code("cuvidCreateDecoder failed: error ", code));
                self.setup_failed = true;
                0
            },
        }
    }

    /// First half of the decode-picture callback: the decoder to forward the
    /// picture to, or `None` after recording an error when none exists yet.
    pub fn decode_target(&mut self) -> (r: Option<u64>)
        ensures
            r == old(self).decoder,
            r is None ==> (final(self).last_error matches Some(e) && e@ == no_decoder_message()) && !final(self).setup_failed,
            r is Some ==> final(self).last_error == old(self).last_error && final(self).setup_failed == old(self).setup_failed,
            final(self).decoder == old(self).decoder,
            final(self).display_queue@ == old(self).display_queue@,
            final(self).format == old(self).format,
            final(self).width == old(self).width && final(self).height == old(self).height,
            final(self).num_decode_surfaces == old(self).num_decode_surfaces,
            final(self).cuda_codec == old(self).cuda_codec && final(self).codec == old(self).codec,
            final(self).frames_decoded == old(self).frames_decoded,
            final(self).frames_displayed == old(self).frames_displayed,
    {
        if self.decoder.is_none() {
            self.last_error = Some(String::from_str("Decode callback invoked before decoder was created"));
            self.setup_failed = false;
        }
        self.decoder
    }

    /// Second half of the decode-picture callback, given the decoder's status:
    /// 1 and one more decoded frame on success, else 0 after recording the error.
    pub fn finish_decode(&mut self, status: CUresult) -> (r: i32)
        ensures
            status == CUDA_SUCCESS ==> r == 1 && final(self).frames_decoded == bump(old(self).frames_decoded)
                && final(self).last_error == old(self).last_error && final(self).setup_failed == old(self).setup_failed,
            status != CUDA_SUCCESS ==> r == 0 && final(self).frames_decoded == old(self).frames_decoded
                && (final(self).last_error matches Some(e)
                && e@ == failure_with_code("cuvidDecodePicture failed: error "@, status as int))
                && !final(self).setup_failed,
            final(self).decoder == old(self).decoder,
            final(self).display_queue@ == old(self).display_queue@,
            final(self).format == old(self).format,
            final(self).width == old(self).width && final(self).height == old(self).height,
            final(self).num_decode_surfaces == old(self).num_decode_surfaces,
            final(self).cuda_codec == old(self).cuda_codec && final(self).codec == old(self).codec,
            final(self).frames_displayed == old(self).frames_displayed,
    {
        if status != CUDA_SUCCESS {
            self.last_error = Some(message_with_code("cuvidDecodePicture failed: error ", status));
            self.setup_failed = false;
            return 0;
        }
        if self.frames_decoded < u64::MAX {
            self.frames_decoded = self.frames_decoded + 1;
        }
        1
    }

    /// The display-picture callback. An absent descriptor signals flush or
    /// end of stream and changes nothing; otherwise the frame joins the back
    /// of the display queue. Always returns 1.
    pub fn on_display(&mut self, disp: Option<CuvidParserDispInfo>) -> (r: i32)
        ensures
            r == 1,
            match disp {
                None => final(self).display_queue@ == old(self).display_queue@
                    && final(self).frames_displayed == old(self).frames_displayed,
                Some(d) => final(self).display_queue@ == old(self).display_queue@.push(DecodedFrameInfo {
                        picture_index: d.picture_index,
                        progressive_frame: d.progressive_frame != 0,
                        top_field_first: d.top_field_first != 0,
                        timestamp: d.timestamp,
                    })
                    && final(self).frames_displayed == bump(old(self).frames_displayed),
            },
            final(self).decoder == old(self).decoder,
            final(self).format == old(self).format,
            final(self).width == old(self).width && final(self).height == old(self).height,
            final(self).num_decode_surfaces == old(self).num_decode_surfaces,
            final(self).cuda_codec == old(self).cuda_codec && final(self).codec == old(self).codec,
            final(self).last_error == old(self).last_error && final(self).setup_failed == old(self).setup_failed,
            final(self).frames_decoded == old(self).frames_decoded,
    {
        match disp {
            None => 1,
            Some(d) => {
                self.display_queue.push(DecodedFrameInfo {
                    picture_index: d.picture_index,
                    progressive_frame: d.progressive_frame != 0,
                    top_field_first: d.top_field_first != 0,
                    timestamp: d.timestamp,
                });
                if self.frames_displayed < u64::MAX {
                    self.frames_displayed = self.frames_displayed + 1;
                }
                1
            },
        }
    }

    /// Clears any stale callback error before a packet is submitted.
    pub fn begin_parse(&mut self)
        ensures
            final(self).last_error is None,
            !final(self).setup_failed,
            final(self).decoder == old(self).decoder,
            final(self).display_queue@ == old(self).display_queue@,
            final(self).format == old(self).format,
            final(self).width == old(self).width && final(self).height == old(self).height,
            final(self).num_decode_surfaces == old(self).num_decode_surfaces,
            final(self).cuda_codec == old(self).cuda_codec && final(self).codec == old(self).codec,
            final(self).frames_decoded == old(self).frames_decoded,
            final(self).frames_displayed == old(self).frames_displayed,
    {
        self.last_error = None;
        self.setup_failed = false;
    }

    /// Outcome of submitting one packet: a failing parser status, then any
    /// error a callback recorded, is an error for that packet. A failure to
    /// set up the decoder is a decoder initialisation error naming the codec;
    /// any other is a decode error.
    pub fn finish_parse(&self, status: CUresult) -> (r: Result<(), DecodeError>)
        ensures
            status != CUDA_SUCCESS ==> (r matches Err(DecodeError::DecodeFailed { frame, reason })
                && frame == 0
                && reason@ == cuvid_failure_message("cuvidParseVideoData"@, status as int)),
            status == CUDA_SUCCESS && self.last_error is None ==> r is Ok,
            status == CUDA_SUCCESS && self.last_error is Some && self.setup_failed ==> (r matches Err(DecodeError::HwDecoderInit { codec, reason })
                && codec == self.codec
                && reason@ == self.last_error->0@),
            status == CUDA_SUCCESS && self.last_error is Some && !self.setup_failed ==> (r matches Err(DecodeError::DecodeFailed { frame, reason })
                && frame == self.frames_decoded
                && reason@ == self.last_error->0@),
    {
        match check_cuvid_result(status, "cuvidParseVideoData") {
            Err(reason) => Err(DecodeError::DecodeFailed { frame: 0, reason }),
            Ok(()) => match &self.last_error {
                Some(e) => if self.setup_failed {
                    Err(DecodeError::HwDecoderInit { codec: self.codec, reason: e.clone() })
                } else {
                    Err(DecodeError::DecodeFailed { frame: self.frames_decoded, reason: e.clone() })
                },
                None => Ok(()),
            },
        }
    }

    /// Outcome of the end-of-stream packet.
    pub fn finish_flush(status: CUresult) -> (r: Result<(), DecodeError>)
        ensures
            status == CUDA_SUCCESS <==> r is Ok,
            status != CUDA_SUCCESS ==> (r matches Err(DecodeError::DecodeFailed { frame, reason })
                && frame == 0
                && reason@ == cuvid_failure_message("cuvidParseVideoData (flush)"@, status as int)),
    {
        match check_cuvid_result(status, "cuvidParseVideoData (flush)") {
            Err(reason) => Err(DecodeError::DecodeFailed { frame: 0, reason }),
            Ok(()) => Ok(()),
        }
    }

    /// Seek reset: discards every pending frame and any recorded error. The
    /// decoder is kept.
    pub fn reset_for_seek(&mut self)
        ensures
            final(self).display_queue@ == Seq::<DecodedFrameInfo>::empty(),
            final(self).last_error is None,
            !final(self).setup_failed,
            final(self).decoder == old(self).decoder,
            final(self).format == old(self).format,
            final(self).width == old(self).width && final(self).height == old(self).height,
            final(self).num_decode_surfaces == old(self).num_decode_surfaces,
            final(self).cuda_codec == old(self).cuda_codec && final(self).codec == old(self).codec,
            final(self).frames_decoded == old(self).frames_decoded,
            final(self).frames_displayed == old(self).frames_displayed,
    {
        self.display_queue.clear();
        self.last_error = None;
        self.setup_failed = false;
    }

    /// Outcome of the discontinuity packet sent on a seek reset.
    pub fn finish_reset(status: CUresult) -> (r: Result<(), DecodeError>)
        ensures
            status == CUDA_SUCCESS <==> r is Ok,
            status != CUDA_SUCCESS ==> (r matches Err(DecodeError::DecodeFailed { frame, reason })
                && frame == 0
                && reason@ == cuvid_failure_message("cuvidParseVideoData (discontinuity)"@, status as int)),
    {
        match check_cuvid_result(status, "cuvidParseVideoData (discontinuity)") {
            Err(reason) => Err(DecodeError::DecodeFailed { frame: 0, reason }),
            Ok(()) => Ok(()),
        }
    }

    /// Whether frames wait in the display queue.
    pub fn has_decoded_frames(&self) -> (r: bool)
        ensures
            r == (self.display_queue@.len() > 0),
    {
        self.display_queue.len() > 0
    }

    /// Number of frames waiting in the display queue.
    pub fn pending_frame_count(&self) -> (r: usize)
        ensures
            r == self.display_queue@.len(),
    {
        self.display_queue.len()
    }

    /// Whether the decoder has been created.
    pub fn is_decoder_ready(&self) -> (r: bool)
        ensures
            r == self.decoder is Some,
    {
        self.decoder.is_some()
    }

    /// Current output `(width, height)`; `(0, 0)` before the first sequence.
    pub fn resolution(&self) -> (r: (u32, u32))
        ensures
            r == (self.width, self.height),
    {
        (self.width, self.height)
    }

    /// Format of the latest sequence.
    pub fn video_format(&self) -> (r: Option<CuVideoFormat>)
        ensures
            r == self.format,
    {
        self.format
    }

    /// Decode statistics.
    pub fn stats(&self) -> (r: SessionStats)
        ensures
            r.frames_decoded == self.frames_decoded,
            r.frames_displayed == self.frames_displayed,
            r.pending_frames == self.display_queue@.len(),
            r.decoder_ready == self.decoder is Some,
            r.width == self.width && r.height == self.height,
    {
        SessionStats {
            frames_decoded: self.frames_decoded,
            frames_displayed: self.frames_displayed,
            pending_frames: self.display_queue.len() as u64,
            decoder_ready: self.decoder.is_some(),
            width: self.width,
            height: self.height,
        }
    }

    /// Pops the oldest display-ready frame for mapping. `Ok(None)` when the
    /// queue is empty; `InvalidSession` (the frame is dropped) when no decoder
    /// exists yet.
    pub fn pop_for_mapping(&mut self) -> (r: Result<Option<MapRequest>, DecodeError>)
        ensures
            old(self).display_queue@.len() == 0 ==> r == Ok::<Option<MapRequest>, DecodeError>(None)
                && final(self).display_queue@ == old(self).display_queue@,
            old(self).display_queue@.len() > 0 ==> final(self).display_queue@ == old(self).display_queue@.drop_first(),
            old(self).display_queue@.len() > 0 && old(self).decoder is None ==> r == Err::<Option<MapRequest>, DecodeError>(DecodeError::InvalidSession),
            old(self).display_queue@.len() > 0 && old(self).decoder is Some ==> r == Ok::<Option<MapRequest>, DecodeError>(Some(MapRequest {
                decoder_handle: old(self).decoder->0,
                frame: old(self).display_queue@[0],
                proc_params: CuvidProcParams::for_frame_spec(
                    old(self).display_queue@[0].progressive_frame,
                    old(self).display_queue@[0].top_field_first,
                ),
                width: old(self).width,
                height: old(self).height,
            })),
            final(self).decoder == old(self).decoder,
            final(self).format == old(self).format,
            final(self).width == old(self).width && final(self).height == old(self).height,
            final(self).num_decode_surfaces == old(self).num_decode_surfaces,
            final(self).cuda_codec == old(self).cuda_codec && final(self).codec == old(self).codec,
            final(self).last_error == old(self).last_error && final(self).setup_failed == old(self).setup_failed,
            final(self).frames_decoded == old(self).frames_decoded,
            final(self).frames_displayed == old(self).frames_displayed,
    {
        if self.display_queue.len() == 0 {
            return Ok(None);
        }
        let frame = self.display_queue.remove(0);
        assert(self.display_queue@ =~= old(self).display_queue@.drop_first());
        match self.decoder {
            None => Err(DecodeError::InvalidSession),
            Some(h) => Ok(Some(MapRequest {
                decoder_handle: h,
                frame,
                proc_params: CuvidProcParams::for_frame(frame.progressive_frame, frame.top_field_first),
                width: self.width,
                height: self.height,
            })),
        }
    }

    /// Teardown: drains the display queue (its entries name DPB slots) and
    /// takes out the decoder for destruction, after the parser is gone.
    pub fn teardown(&mut self) -> (r: Option<u64>)
        ensures
            r == old(self).decoder,
            final(self).decoder is None,
            final(self).display_queue@ == Seq::<DecodedFrameInfo>::empty(),
            final(self).frames_decoded == old(self).frames_decoded,
            final(self).frames_displayed == old(self).frames_displayed,
    {
        self.display_queue.clear();
        let d = self.decoder;
        self.decoder = None;
        d
    }
}

impl MapRequest {
    /// Outcome of mapping the requested frame, given the map status and the
    /// device pointer and pitch the driver wrote.
    pub fn finish(&self, status: CUresult, device_ptr: u64, pitch: u32) -> (r: Result<MappedFrame, DecodeError>)
        ensures
            status == CUDA_SUCCESS ==> (r matches Ok(m)
                && m.device_ptr == device_ptr && m.pitch == pitch
                && m.width == self.width && m.height == self.height
                && m.timestamp == self.frame.timestamp
                && m.picture_index == self.frame.picture_index
                && m.decoder_handle == self.decoder_handle
                && !m.consumed),
            status != CUDA_SUCCESS ==> (r matches Err(DecodeError::DecodeFailed { frame, reason })
                && frame == self.frame.timestamp as u64
                && reason@ == cuvid_failure_message("cuvidMapVideoFrame64"@, status as int)),
    {
        match check_cuvid_result(status, "cuvidMapVideoFrame64") {
            Err(reason) => Err(DecodeError::DecodeFailed { frame: self.frame.timestamp as u64, reason }),
            Ok(()) => Ok(MappedFrame {
                device_ptr,
                pitch,
                width: self.width,
                height: self.height,
                timestamp: self.frame.timestamp,
                picture_index: self.frame.picture_index,
                decoder_handle: self.decoder_handle,
                consumed: false,
            }),
        }
    }
}

/// The DPB slots whose surfaces are mapped right now, and how many the
/// hardware lets be mapped at once. A slot is mapped at most once at a time,
/// and must be released before it is mapped again.
#[derive(Clone, Debug)]
pub struct SurfaceLedger {
    pub mapped: Vec<i32>,
    pub limit: usize,
}

impl SurfaceLedger {
    pub open spec fn wf(&self) -> bool {
        self.mapped@.no_duplicates() && self.mapped@.len() <= self.limit
    }

    /// Whether `slot` may be mapped now.
    pub open spec fn may_map(&self, slot: i32) -> bool {
        !self.mapped@.contains(slot) && self.mapped@.len() < self.limit
    }

    /// An empty ledger for a decoder that maps at most `limit` surfaces.
    pub fn new(limit: usize) -> (r: SurfaceLedger)
        ensures
            r.wf(),
            r.mapped@ == Seq::<i32>::empty(),
            r.limit == limit,
    {
        SurfaceLedger { mapped: Vec::new(), limit }
    }

    /// Whether `slot` is mapped.
    pub fn is_mapped(&self, slot: i32) -> (r: bool)
        ensures
            r == self.mapped@.contains(slot),
    {
        let mut i: usize = 0;
        while i < self.mapped.len()
            invariant
                0 <= i <= self.mapped@.len(),
                forall|j: int| 0 <= j < i ==> self.mapped@[j] != slot,
            decreases self.mapped@.len() - i,
        {
            if self.mapped[i] == slot {
                return true;
            }
            i = i + 1;
        }
        false
    }

    /// Whether `slot` may be mapped now: it is not mapped and the limit is
    /// not reached.
    pub fn can_map(&self, slot: i32) -> (r: bool)
        ensures
            r == self.may_map(slot),
    {
        !self.is_mapped(slot) && self.mapped.len() < self.limit
    }

    /// Records that `slot` was mapped.
    pub fn record_map(&mut self, slot: i32)
        requires
            old(self).wf(),
            old(self).may_map(slot),
        ensures
            final(self).wf(),
            final(self).mapped@ == old(self).mapped@.push(slot),
            final(self).limit == old(self).limit,
    {
        self.mapped.push(slot);
        proof {
            assert forall|a: int, b: int| 0 <= a < b < self.mapped@.len() implies self.mapped@[a] != self.mapped@[b] by {
                if b == self.mapped@.len() - 1 {
                    assert(old(self).mapped@[a] == self.mapped@[a]);
                }
            }
        }
    }

    /// Records that `slot` was released; returns whether it was mapped.
    pub fn record_release(&mut self, slot: i32) -> (was_mapped: bool)
        requires
            old(self).wf(),
        ensures
            final(self).wf(),
            was_mapped == old(self).mapped@.contains(slot),
            !final(self).mapped@.contains(slot),
            final(self).mapped@.to_set() == old(self).mapped@.to_set().remove(slot),
            final(self).mapped@.len() == old(self).mapped@.len() - (if was_mapped { 1int } else { 0 }),
            final(self).limit == old(self).limit,
    {
        let mut i: usize = 0;
        while i < self.mapped.len()
            invariant
                old(self).wf(),
                self.mapped@ == old(self).mapped@,
                self.limit == old(self).limit,
                0 <= i <= self.mapped@.len(),
                forall|j: int| 0 <= j < i ==> self.mapped@[j] != slot,
            decreases self.mapped@.len() - i,
        {
            if self.mapped[i] == slot {
                let ghost before = self.mapped@;
                self.mapped.remove(i);
                proof {
                    assert(self.mapped@ =~= before.remove(i as int));
                    assert forall|a: int, b: int| 0 <= a < self.mapped@.len() && 0 <= b < self.mapped@.len() && a != b
                        implies self.mapped@[a] != self.mapped@[b] by {
                        let a0 = if a < i { a } else { a + 1 };
                        let b0 = if b < i { b } else { b + 1 };
                        assert(self.mapped@[a] == before[a0]);
                        assert(self.mapped@[b] == before[b0]);
                    }
                    assert forall|k: int| 0 <= k < self.mapped@.len() implies self.mapped@[k] != slot by {
                        let k0 = if k < i { k } else { k + 1 };
                        assert(self.mapped@[k] == before[k0]);
                    }
                    assert(before.contains(slot)) by { assert(before[i as int] == slot); }
                    assert(self.mapped@.to_set() =~= before.to_set().remove(slot)) by {
                        assert forall|x: i32| self.mapped@.to_set().contains(x) <==> before.to_set().remove(slot).contains(x) by {
                            if self.mapped@.contains(x) {
                                let k = choose|k: int| 0 <= k < self.mapped@.len() && self.mapped@[k] == x;
                                let k0 = if k < i { k } else { k + 1 };
                                assert(before[k0] == x);
                            }
                            if before.contains(x) && x != slot {
                                let k = choose|k: int| 0 <= k < before.len() && before[k] == x;
                                assert(k != i);
                                let k1 = if k < i { k } else { k - 1 };
                                assert(self.mapped@[k1] == x);
                            }
                        }
                    }
                }
                return true;
            }
            i = i + 1;
        }
        proof {
            assert(!self.mapped@.contains(slot));
            assert(self.mapped@.to_set() =~= old(self).mapped@.to_set().remove(slot));
        }
        false
    }
}

/// A released slot can be mapped again: once the frame on a slot is
/// released, the slot is free for the next frame the decoder puts there.
pub proof fn lemma_released_slot_reusable(before: SurfaceLedger, after: SurfaceLedger, slot: i32)
    requires
        before.wf(),
        before.mapped@.contains(slot),
        !after.mapped@.contains(slot),
        after.mapped@.len() == before.mapped@.len() - 1,
        after.limit == before.limit,
    ensures
        after.may_map(slot),
{
    assert(before.mapped@.len() <= before.limit);
}

} // verus!
