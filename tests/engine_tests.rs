use nvdec_pipeline::engine::{
    DecodeCommand, DecodedFrame, Display, EngineOrchestrator, EngineState, FileInfo, GpuInfoMsg,
};
use nvdec_pipeline::ffi::VideoCodec;
use nvdec_pipeline::session::DecodeError;

fn info(duration_us: u64) -> FileInfo {
    FileInfo {
        path: "test.mp4".to_string(),
        file_name: "test.mp4".to_string(),
        width: 1920,
        height: 1080,
        fps_num: 30,
        fps_den: 1,
        duration_us,
        codec: VideoCodec::H264,
    }
}

fn opened(duration_us: u64) -> EngineOrchestrator {
    let mut engine = EngineOrchestrator::new();
    engine.open_file(info(duration_us));
    engine.pipeline_setup(Ok(()));
    engine
}

fn frame(w: u32, h: u32, pts_us: i64) -> DecodedFrame {
    DecodedFrame { rgba_data: vec![255u8; (w * h * 4) as usize], width: w, height: h, pts_us }
}

#[test]
fn engine_state_labels() {
    assert_eq!(EngineState::Idle.label(), "Idle");
    assert_eq!(EngineState::Loading.label(), "Loading...");
    assert_eq!(EngineState::Playing.label(), "Playing");
    assert_eq!(EngineState::Paused.label(), "Paused");
    assert_eq!(EngineState::Error("oops".into()).label(), "Error");
}

#[test]
fn engine_starts_idle() {
    let engine = EngineOrchestrator::new();
    assert_eq!(*engine.state(), EngineState::Idle);
    assert!(engine.file_info().is_none());
    assert_eq!(engine.current_time_us(), 0);
}

#[test]
fn open_file_transitions_to_paused() {
    let mut engine = EngineOrchestrator::new();
    let stop_previous = engine.open_file(info(10_000_000));
    assert!(!stop_previous);
    assert_eq!(*engine.state(), EngineState::Loading);
    engine.pipeline_setup(Ok(()));
    assert_eq!(*engine.state(), EngineState::Paused);
    assert!(engine.file_info().is_some());

    assert!(engine.stop());
    assert_eq!(*engine.state(), EngineState::Idle);
}

#[test]
fn play_pause_transitions() {
    let mut engine = opened(10_000_000);

    assert_eq!(engine.play(0), Some(DecodeCommand::Play));
    assert_eq!(*engine.state(), EngineState::Playing);

    assert_eq!(engine.pause(), Some(DecodeCommand::Pause));
    assert_eq!(*engine.state(), EngineState::Paused);

    engine.toggle_play_pause(0);
    assert_eq!(*engine.state(), EngineState::Playing);

    engine.toggle_play_pause(0);
    assert_eq!(*engine.state(), EngineState::Paused);

    engine.stop();
}

#[test]
fn seek_clamps_to_duration() {
    let mut engine = opened(10_000_000);

    assert_eq!(engine.seek(5_000_000, 0), Some(DecodeCommand::Seek(5_000_000)));
    assert_eq!(engine.current_time_us(), 5_000_000);

    engine.seek(999_000_000, 0);
    assert_eq!(engine.current_time_us(), engine.duration_us());

    engine.seek(-5_000_000, 0);
    assert_eq!(engine.current_time_us(), 0);

    engine.stop();
}

#[test]
fn play_then_pause_keeps_time() {
    let mut engine = opened(10_000_000);
    engine.seek(2_000_000, 0);
    engine.play(100);
    engine.pause();
    assert_eq!(engine.current_time_us(), 2_000_000);
    assert_eq!(*engine.state(), EngineState::Paused);
}

#[test]
fn pause_then_play_resumes_playing() {
    let mut engine = opened(10_000_000);
    engine.play(0);
    engine.tick(1_000_000);
    engine.pause();
    engine.play(5_000_000);
    assert_eq!(*engine.state(), EngineState::Playing);
    assert_eq!(engine.current_time_us(), 1_000_000);
    engine.tick(5_500_000);
    assert_eq!(engine.current_time_us(), 1_500_000);
}

#[test]
fn repeated_seek_is_idempotent() {
    let mut a = opened(10_000_000);
    a.play(0);
    let c1 = a.seek(3_000_000, 50);
    let t1 = a.current_time_us();
    let c2 = a.seek(3_000_000, 50);
    assert_eq!(c1, c2);
    assert_eq!(t1, a.current_time_us());
}

#[test]
fn seek_while_playing_reanchors() {
    // 600 frames at 30 fps; play, and after 2 s seek to 1 s
    let mut engine = opened(20_000_000);
    engine.play(0);
    engine.tick(2_000_000);
    assert_eq!(engine.current_time_us(), 2_000_000);
    engine.seek(1_000_000, 2_000_000);
    assert_eq!(engine.current_time_us(), 1_000_000);
    engine.tick(2_500_000);
    assert_eq!(engine.current_time_us(), 1_500_000);
}

#[test]
fn reaching_duration_auto_pauses() {
    let mut engine = opened(1_000_000);
    engine.play(0);
    assert_eq!(engine.tick(2_000_000), Some(DecodeCommand::Pause));
    assert_eq!(engine.current_time_us(), 1_000_000);
    assert_eq!(*engine.state(), EngineState::Paused);
}

#[test]
fn seek_to_duration_clamps_to_duration() {
    let mut engine = opened(4_000_000);
    engine.seek(4_000_000, 0);
    assert_eq!(engine.current_time_us(), 4_000_000);
    engine.seek(4_000_001, 0);
    assert_eq!(engine.current_time_us(), 4_000_000);
}

#[test]
fn rapid_seeks_end_at_last_target() {
    let mut engine = opened(20_000_000);
    let mut last = None;
    for i in 0..50i64 {
        last = engine.seek(i * 100_000, 0);
    }
    assert_eq!(last, Some(DecodeCommand::Seek(4_900_000)));
    assert_eq!(engine.current_time_us(), 4_900_000);
}

#[test]
fn update_keeps_only_newest_frame() {
    let mut engine = opened(10_000_000);
    let out = engine.update(0, vec![], false, None);
    assert_eq!(out.display, Display::Black { width: 1920, height: 1080 });
    let out = engine.update(0, vec![frame(4, 4, 0), frame(4, 4, 33_333), frame(8, 8, 66_666)], false, None);
    assert_eq!(out.display, Display::LastFrame);
    let last = engine.last_frame.as_ref().unwrap();
    assert_eq!((last.width, last.pts_us), (8, 66_666));
    // no new frame: the cached one stays
    let out = engine.update(0, vec![], false, None);
    assert_eq!(out.display, Display::LastFrame);
    assert_eq!(engine.last_frame.as_ref().unwrap().pts_us, 66_666);
}

#[test]
fn idle_shows_test_pattern_and_repaints() {
    let mut engine = EngineOrchestrator::new();
    let out = engine.update(0, vec![], false, None);
    assert_eq!(out.display, Display::TestPattern { width: 1920, height: 1080 });
    assert!(out.repaint);
}

#[test]
fn gpu_info_is_taken_once() {
    let mut engine = opened(10_000_000);
    assert_eq!(engine.gpu_name(), "GPU: detecting...");
    let msg = GpuInfoMsg { gpu_name: "None (software)".to_string(), nvdec_active: false };
    engine.update(0, vec![], false, Some(msg));
    assert_eq!(engine.gpu_name(), "None (software)");
    assert!(!engine.gpu_decode_active());
    let again = GpuInfoMsg { gpu_name: "Other".to_string(), nvdec_active: true };
    engine.update(0, vec![], false, Some(again));
    assert_eq!(engine.gpu_name(), "None (software)");
}

#[test]
fn worker_loss_is_fatal() {
    let mut engine = opened(10_000_000);
    engine.update(0, vec![], true, None);
    assert_eq!(*engine.state(), EngineState::Error("decode worker stopped".to_string()));
    let out = engine.update(0, vec![frame(4, 4, 0)], false, None);
    assert_eq!(out.display, Display::ErrorPattern { width: 1920, height: 1080 });
    assert!(engine.last_frame.is_none());
}

#[test]
fn open_failure_enters_error() {
    let mut engine = EngineOrchestrator::new();
    engine.open_file(info(1_000_000));
    engine.fail("unsupported codec".to_string());
    assert_eq!(*engine.state(), EngineState::Error("unsupported codec".to_string()));
    assert!(!engine.pipeline_active);
}

#[test]
fn reopen_starts_from_zero() {
    let mut engine = opened(10_000_000);
    engine.play(0);
    engine.tick(3_000_000);
    assert!(engine.stop());
    assert!(!engine.open_file(info(10_000_000)));
    engine.pipeline_setup(Ok(()));
    assert_eq!(engine.current_time_us(), 0);
    assert_eq!(*engine.state(), EngineState::Paused);
    assert!(engine.last_frame.is_none());
}

#[test]
fn unsupported_codec_open_ends_in_error() {
    let mut engine = EngineOrchestrator::new();
    engine.open_file(info(1_000_000));
    engine.pipeline_setup(Err(DecodeError::HwDecoderInit {
        codec: VideoCodec::Av1,
        reason: "cuvidCreateVideoParser failed with error code 1".to_string(),
    }));
    assert_eq!(
        *engine.state(),
        EngineState::Error("Hardware decoder init failed for AV1: cuvidCreateVideoParser failed with error code 1".to_string())
    );
    assert!(!engine.pipeline_active);
    engine.open_file(info(1_000_000));
    engine.pipeline_setup(Err(DecodeError::UnsupportedCodec(VideoCodec::Vp9)));
    assert_eq!(*engine.state(), EngineState::Error("Unsupported codec: VP9".to_string()));
}

#[test]
fn seek_in_error_changes_nothing() {
    let mut engine = opened(10_000_000);
    engine.seek(2_000_000, 0);
    engine.fail("boom".to_string());
    assert_eq!(engine.seek(5_000_000, 0), None);
    assert_eq!(engine.current_time_us(), 2_000_000);
}

#[test]
fn gpu_report_taken_while_idle() {
    let mut engine = opened(10_000_000);
    engine.stop();
    let msg = GpuInfoMsg { gpu_name: "RTX".to_string(), nvdec_active: true };
    engine.update(0, vec![], false, Some(msg));
    assert_eq!(engine.gpu_name(), "RTX");
}
