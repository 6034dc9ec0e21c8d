use nvdec_pipeline::ffi::{
    check_cuvid_result, check_symbols, library_name, library_not_found, required_symbol,
    CudaVideoCodec, CuvidProcParams, CuvidSourceDataPacket, NvcuvidLoadError, TargetOs, VideoCodec,
    CUDA_SUCCESS, CUVID_PKT_DISCONTINUITY, CUVID_PKT_ENDOFSTREAM, CUVID_PKT_TIMESTAMP,
    NUM_REQUIRED_SYMBOLS,
};

#[test]
fn codec_conversion() {
    assert_eq!(CudaVideoCodec::from_common(VideoCodec::H264), Some(CudaVideoCodec::H264));
    assert_eq!(CudaVideoCodec::from_common(VideoCodec::H265), Some(CudaVideoCodec::Hevc));
    assert_eq!(CudaVideoCodec::from_common(VideoCodec::Vp9), Some(CudaVideoCodec::Vp9));
    assert_eq!(CudaVideoCodec::from_common(VideoCodec::Av1), Some(CudaVideoCodec::Av1));
}

#[test]
fn check_result_success() {
    assert!(check_cuvid_result(CUDA_SUCCESS, "test").is_ok());
}

#[test]
fn check_result_failure() {
    let err = check_cuvid_result(1, "cuvidTest");
    assert!(err.is_err());
    assert!(err.unwrap_err().contains("cuvidTest"));
}

#[test]
fn library_name_is_correct() {
    assert_eq!(library_name(TargetOs::Windows), "nvcuvid.dll");
    assert!(library_name(TargetOs::Linux).starts_with("libnvcuvid"));
    assert!(library_name(TargetOs::Other).starts_with("libnvcuvid"));
}

#[test]
fn failure_message_names_function_and_code() {
    assert_eq!(
        check_cuvid_result(-7, "cuvidMapVideoFrame64").unwrap_err(),
        "cuvidMapVideoFrame64 failed with error code -7"
    );
    assert_eq!(
        check_cuvid_result(2147483647, "f").unwrap_err(),
        "f failed with error code 2147483647"
    );
    assert_eq!(
        check_cuvid_result(i32::MIN, "g").unwrap_err(),
        "g failed with error code -2147483648"
    );
}

#[test]
fn native_codec_ids_are_distinct() {
    let ids: Vec<i32> = [VideoCodec::H264, VideoCodec::H265, VideoCodec::Vp9, VideoCodec::Av1]
        .iter()
        .map(|c| CudaVideoCodec::from_common(*c).unwrap().native_id())
        .collect();
    assert_eq!(ids, vec![4, 8, 10, 12]);
}

#[test]
fn symbols_all_resolved_binds() {
    let errs: Vec<Option<String>> = vec![None; NUM_REQUIRED_SYMBOLS];
    assert!(check_symbols(&errs).is_ok());
}

#[test]
fn first_missing_symbol_is_reported() {
    let mut errs: Vec<Option<String>> = vec![None; NUM_REQUIRED_SYMBOLS];
    errs[3] = Some("undefined symbol".to_string());
    errs[6] = Some("also missing".to_string());
    assert_eq!(
        check_symbols(&errs),
        Err(NvcuvidLoadError::SymbolNotFound("cuvidMapVideoFrame64: undefined symbol".to_string()))
    );
    assert_eq!(required_symbol(7), "cuvidParseVideoData");
}

#[test]
fn missing_library_error() {
    assert_eq!(
        library_not_found("libnvcuvid.so.1", "no such file"),
        NvcuvidLoadError::LibraryNotFound(
            "Failed to load libnvcuvid.so.1: no such file. Is the NVIDIA driver installed?".to_string()
        )
    );
}

#[test]
fn packet_flags() {
    let p = CuvidSourceDataPacket::data(1234, 99);
    assert_eq!((p.flags, p.payload_size, p.timestamp), (CUVID_PKT_TIMESTAMP, 1234, 99));
    let e = CuvidSourceDataPacket::end_of_stream();
    assert_eq!((e.flags, e.payload_size), (CUVID_PKT_ENDOFSTREAM, 0));
    let d = CuvidSourceDataPacket::discontinuity();
    assert_eq!((d.flags, d.payload_size), (CUVID_PKT_DISCONTINUITY, 0));
    assert_eq!((CUVID_PKT_ENDOFSTREAM, CUVID_PKT_TIMESTAMP, CUVID_PKT_DISCONTINUITY), (1, 2, 4));
}

#[test]
fn proc_params_for_frame() {
    let p = CuvidProcParams::for_frame(true, false);
    assert_eq!(p.progressive_frame, 1);
    assert_eq!(p.top_field_first, 0);
    assert_eq!(p.histogram_dptr, 0);
}

#[test]
fn default_structs_are_zeroed() {
    let info = nvdec_pipeline::ffi::CuvidDecodeCreateInfo::default();
    assert_eq!(info.coded_width, 0);
    assert_eq!(info.coded_height, 0);

    let params = nvdec_pipeline::ffi::CuvidPicParams::default();
    assert_eq!(params.curr_pic_idx, 0);

    let proc_params = CuvidProcParams::default();
    assert_eq!(proc_params.progressive_frame, 0);

    let format = nvdec_pipeline::ffi::CuVideoFormat::default();
    assert_eq!(format.coded_width, 0);
}
