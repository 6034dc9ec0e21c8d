use nvdec_pipeline::ffi::{
    CuVideoFormat, CudaVideoChromaFormat, CudaVideoCodec, CudaVideoSurfaceFormat,
    CuvidParserDispInfo, VideoCodec,
};
use nvdec_pipeline::session::{
    check_parser_created, dpb_size, output_dimensions, parser_config, CallbackState, DecodeError,
    DecodedFrameInfo, MappedFrame, SessionStats, SurfaceLedger,
};

fn format(w: u32, h: u32, disp: (i32, i32, i32, i32), min_surfaces: u8, depth: u8) -> CuVideoFormat {
    CuVideoFormat {
        codec: CudaVideoCodec::H264,
        frame_rate_num: 30,
        frame_rate_den: 1,
        progressive_sequence: 1,
        bit_depth_luma_minus8: depth,
        bit_depth_chroma_minus8: depth,
        min_num_decode_surfaces: min_surfaces,
        coded_width: w,
        coded_height: h,
        display_area_left: disp.0,
        display_area_top: disp.1,
        display_area_right: disp.2,
        display_area_bottom: disp.3,
        chroma_format: CudaVideoChromaFormat::Yuv420,
        bitrate: 0,
        display_aspect_ratio_x: 16,
        display_aspect_ratio_y: 9,
        video_signal_description_flags: 0,
        seqhdr_data_length: 0,
    }
}

fn disp(idx: i32, ts: i64) -> Option<CuvidParserDispInfo> {
    Some(CuvidParserDispInfo {
        picture_index: idx,
        progressive_frame: 1,
        top_field_first: 0,
        repeat_first_field: 0,
        timestamp: ts,
    })
}

#[test]
fn decoded_frame_info_fields() {
    let info = DecodedFrameInfo {
        picture_index: 3,
        progressive_frame: true,
        top_field_first: false,
        timestamp: 12345,
    };
    assert_eq!(info.picture_index, 3);
    assert!(info.progressive_frame);
    assert!(!info.top_field_first);
    assert_eq!(info.timestamp, 12345);
}

#[test]
fn session_stats_default() {
    let stats = SessionStats {
        frames_decoded: 0,
        frames_displayed: 0,
        pending_frames: 0,
        decoder_ready: false,
        width: 0,
        height: 0,
    };
    assert!(!stats.decoder_ready);
    assert_eq!(stats.frames_decoded, 0);
}

#[test]
fn mapped_frame_uv_offset() {
    let frame_base = 0x1000_0000u64;
    let width = 1920u32;
    let height = 1080u32;
    let pitch = 2048u32;

    let expected_uv = frame_base + height as u64 * pitch as u64;
    assert_eq!(expected_uv, 0x1000_0000 + 1080 * 2048);

    assert!(width <= pitch);
    assert_eq!(width * height, 1920 * 1080);
}

#[test]
fn mapped_frame_uv_pointer_follows_y_plane() {
    let mut f = MappedFrame {
        device_ptr: 0x1000_0000,
        pitch: 2048,
        width: 1920,
        height: 1080,
        timestamp: 7,
        picture_index: 2,
        decoder_handle: 0xdead,
        consumed: false,
    };
    assert_eq!(f.uv_device_ptr(), 0x1000_0000 + 1080 * 2048);
    assert!(!f.is_consumed());
    f.mark_consumed();
    assert!(f.is_consumed());
}

#[test]
fn parser_config_clamps_surfaces() {
    let c = parser_config(VideoCodec::H265, 2, 0).unwrap();
    assert_eq!(c.max_num_decode_surfaces, 8);
    assert_eq!(c.codec_type, CudaVideoCodec::Hevc);
    assert_eq!(parser_config(VideoCodec::Vp9, 100, 4).unwrap().max_num_decode_surfaces, 32);
    assert_eq!(parser_config(VideoCodec::Av1, 20, 1).unwrap().max_num_decode_surfaces, 20);
}

#[test]
fn parser_creation_failure_is_init_error() {
    assert!(check_parser_created(VideoCodec::H264, 0).is_ok());
    match check_parser_created(VideoCodec::H264, 100) {
        Err(DecodeError::HwDecoderInit { codec, reason }) => {
            assert_eq!(codec, VideoCodec::H264);
            assert_eq!(reason, "cuvidCreateVideoParser failed with error code 100");
        }
        other => panic!("unexpected {:?}", other),
    }
}

#[test]
fn output_dims_prefer_display_rectangle() {
    assert_eq!(output_dimensions(&format(1920, 1088, (0, 0, 1920, 1080), 4, 0)), (1920, 1080));
    assert_eq!(output_dimensions(&format(64, 64, (0, 0, 0, 0), 4, 0)), (64, 64));
    assert_eq!(output_dimensions(&format(64, 64, (10, 10, 5, 5), 4, 0)), (64, 64));
    assert_eq!(dpb_size(4, 8), 8);
    assert_eq!(dpb_size(10, 8), 14);
}

#[test]
fn sequence_creates_decoder_and_resolution_change_recreates() {
    let config = parser_config(VideoCodec::H264, 8, 0).unwrap();
    let mut st = CallbackState::new(&config);
    assert!(!st.is_decoder_ready());
    assert_eq!(st.resolution(), (0, 0));

    let plan = st.begin_sequence(&format(64, 64, (0, 0, 64, 64), 6, 0));
    assert_eq!(plan.retire_decoder, None);
    assert_eq!(plan.create_info.num_decode_surfaces, 10);
    assert_eq!(plan.create_info.output_format, CudaVideoSurfaceFormat::Nv12);
    assert_eq!(plan.create_info.num_output_surfaces, 2);
    assert_eq!(st.finish_sequence(&plan, Ok(0xa1)), 10);
    assert!(st.is_decoder_ready());

    // second sequence header doubles the resolution: old decoder retired
    let plan2 = st.begin_sequence(&format(128, 128, (0, 0, 128, 128), 6, 2));
    assert_eq!(plan2.retire_decoder, Some(0xa1));
    assert_eq!(plan2.create_info.output_format, CudaVideoSurfaceFormat::P016);
    assert_eq!((plan2.create_info.target_width, plan2.create_info.target_height), (128, 128));
    assert_eq!(st.finish_sequence(&plan2, Ok(0xa2)), 10);
    assert_eq!(st.resolution(), (128, 128));

    st.begin_parse();
    assert_eq!(st.on_display(disp(1, 500)), 1);
    let req = st.pop_for_mapping().unwrap().unwrap();
    assert_eq!(req.decoder_handle, 0xa2);
    let m = req.finish(0, 0x5000, 256).unwrap();
    assert_eq!((m.width, m.height, m.pitch, m.timestamp, m.picture_index), (128, 128, 256, 500, 1));
}

#[test]
fn decoder_creation_failure_surfaces_on_parse() {
    let config = parser_config(VideoCodec::H264, 8, 0).unwrap();
    let mut st = CallbackState::new(&config);
    st.begin_parse();
    let plan = st.begin_sequence(&format(64, 64, (0, 0, 64, 64), 1, 0));
    assert_eq!(st.finish_sequence(&plan, Err(3)), 0);
    match st.finish_parse(0) {
        Err(DecodeError::HwDecoderInit { codec, reason }) => {
            assert_eq!(codec, VideoCodec::H264);
            assert_eq!(reason, "cuvidCreateDecoder failed: error 3");
        }
        other => panic!("unexpected {:?}", other),
    }
    // the next submit clears the stale error
    st.begin_parse();
    assert!(st.finish_parse(0).is_ok());
}

#[test]
fn decode_before_sequence_records_error() {
    let config = parser_config(VideoCodec::H264, 8, 0).unwrap();
    let mut st = CallbackState::new(&config);
    assert_eq!(st.decode_target(), None);
    assert_eq!(st.last_error.as_deref(), Some("Decode callback invoked before decoder was created"));
}

#[test]
fn decode_counts_and_failures() {
    let config = parser_config(VideoCodec::H264, 8, 0).unwrap();
    let mut st = CallbackState::new(&config);
    let plan = st.begin_sequence(&format(64, 64, (0, 0, 64, 64), 1, 0));
    st.finish_sequence(&plan, Ok(1));
    assert_eq!(st.decode_target(), Some(1));
    assert_eq!(st.finish_decode(0), 1);
    assert_eq!(st.finish_decode(0), 1);
    assert_eq!(st.finish_decode(9), 0);
    assert_eq!(st.stats().frames_decoded, 2);
    assert_eq!(st.last_error.as_deref(), Some("cuvidDecodePicture failed: error 9"));
    assert!(matches!(st.finish_parse(5), Err(DecodeError::DecodeFailed { frame: 0, .. })));
}

#[test]
fn display_queue_is_fifo_and_null_is_noop() {
    let config = parser_config(VideoCodec::H264, 8, 0).unwrap();
    let mut st = CallbackState::new(&config);
    let plan = st.begin_sequence(&format(64, 64, (0, 0, 64, 64), 1, 0));
    st.finish_sequence(&plan, Ok(1));
    assert_eq!(st.on_display(None), 1);
    assert!(!st.has_decoded_frames());
    st.on_display(disp(0, 10));
    st.on_display(disp(1, 20));
    st.on_display(disp(2, 30));
    assert_eq!(st.pending_frame_count(), 3);
    let ts: Vec<i64> = (0..3).map(|_| st.pop_for_mapping().unwrap().unwrap().frame.timestamp).collect();
    assert_eq!(ts, vec![10, 20, 30]);
    assert!(st.pop_for_mapping().unwrap().is_none());
    assert_eq!(st.stats().frames_displayed, 3);
}

#[test]
fn mapping_before_decoder_is_invalid_session() {
    let config = parser_config(VideoCodec::H264, 8, 0).unwrap();
    let mut st = CallbackState::new(&config);
    st.on_display(disp(0, 10));
    assert_eq!(st.pop_for_mapping(), Err(DecodeError::InvalidSession));
}

#[test]
fn map_failure_names_the_frame() {
    let config = parser_config(VideoCodec::H264, 8, 0).unwrap();
    let mut st = CallbackState::new(&config);
    let plan = st.begin_sequence(&format(64, 64, (0, 0, 64, 64), 1, 0));
    st.finish_sequence(&plan, Ok(1));
    st.on_display(disp(4, 77));
    let req = st.pop_for_mapping().unwrap().unwrap();
    match req.finish(1, 0, 0) {
        Err(DecodeError::DecodeFailed { frame, reason }) => {
            assert_eq!(frame, 77);
            assert_eq!(reason, "cuvidMapVideoFrame64 failed with error code 1");
        }
        other => panic!("unexpected {:?}", other),
    }
}

#[test]
fn seek_reset_clears_queue_and_keeps_decoder() {
    let config = parser_config(VideoCodec::H264, 8, 0).unwrap();
    let mut st = CallbackState::new(&config);
    let plan = st.begin_sequence(&format(64, 64, (0, 0, 64, 64), 1, 0));
    st.finish_sequence(&plan, Ok(42));
    st.on_display(disp(0, 10));
    st.reset_for_seek();
    assert_eq!(st.pending_frame_count(), 0);
    assert!(st.is_decoder_ready());
    st.reset_for_seek();
    assert_eq!(st.pending_frame_count(), 0);
    assert!(CallbackState::finish_reset(0).is_ok());
    assert!(CallbackState::finish_flush(3).is_err());
    assert_eq!(st.teardown(), Some(42));
    assert!(!st.is_decoder_ready());
}

#[test]
fn surface_ledger_enforces_map_limit_and_release() {
    let mut l = SurfaceLedger::new(2);
    assert!(l.can_map(3));
    l.record_map(3);
    assert!(!l.can_map(3));
    assert!(l.can_map(5));
    l.record_map(5);
    assert!(!l.can_map(7));
    assert!(l.record_release(3));
    assert!(l.can_map(3));
    assert!(!l.record_release(3));
    assert!(l.is_mapped(5));
}

#[test]
fn pictures_queued_before_a_size_change_are_dropped() {
    let config = parser_config(VideoCodec::H264, 8, 0).unwrap();
    let mut st = CallbackState::new(&config);
    let plan = st.begin_sequence(&format(640, 480, (0, 0, 640, 480), 4, 0));
    st.finish_sequence(&plan, Ok(1));
    st.on_display(disp(0, 10));
    let plan2 = st.begin_sequence(&format(1280, 960, (0, 0, 1280, 960), 4, 0));
    assert_eq!(plan2.retire_decoder, Some(1));
    st.finish_sequence(&plan2, Ok(2));
    assert_eq!(st.pending_frame_count(), 0);
    st.on_display(disp(1, 20));
    let req = st.pop_for_mapping().unwrap().unwrap();
    assert_eq!((req.width, req.height, req.frame.timestamp), (1280, 960, 20));
}
