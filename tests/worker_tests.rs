use nvdec_pipeline::engine::DecodeCommand;
use nvdec_pipeline::ffi::VideoCodec;
use nvdec_pipeline::session::DecodeError;
use nvdec_pipeline::worker::{
    decode_error_action, frame_index_at, frame_period_us, negotiate, HardwareSetup, synthetic_pts_us, synthetic_total_frames,
    CommandPoll, DecodePath, WorkerAction, WorkerState, FRAME_CHANNEL_CAPACITY,
};

#[test]
fn negotiation_paths() {
    let (p, m, o) = negotiate(HardwareSetup::Ready("RTX".to_string()), true);
    assert_eq!(p, DecodePath::Hardware);
    assert_eq!((m.gpu_name.as_str(), m.nvdec_active), ("RTX", true));
    assert!(o.is_ok());
    let (p, m, o) = negotiate(HardwareSetup::Unavailable, true);
    assert_eq!(p, DecodePath::RealPackets);
    assert_eq!((m.gpu_name.as_str(), m.nvdec_active), ("None (software)", false));
    assert!(o.is_ok());
    let (p, _, _) = negotiate(HardwareSetup::Unavailable, false);
    assert_eq!(p, DecodePath::Synthetic);
    let (p, _, _) = negotiate(HardwareSetup::Ready("RTX".to_string()), false);
    assert_eq!(p, DecodePath::Synthetic);
}

#[test]
fn rejected_setup_aborts_the_open() {
    let err = DecodeError::HwDecoderInit { codec: VideoCodec::Av1, reason: "no AV1 engine".to_string() };
    let (p, m, o) = negotiate(HardwareSetup::Rejected(err.clone()), true);
    assert_eq!(p, DecodePath::Abort);
    assert!(!m.nvdec_active);
    assert_eq!(o, Err(err));
    let (p, _, o) = negotiate(HardwareSetup::Rejected(DecodeError::InvalidSession), true);
    assert_eq!(p, DecodePath::RealPackets);
    assert!(o.is_ok());
}

#[test]
fn fatal_decode_errors_end_the_worker() {
    assert_eq!(decode_error_action(&DecodeError::UnsupportedCodec(VideoCodec::Vp9)), WorkerAction::Exit);
    assert_eq!(
        decode_error_action(&DecodeError::HwDecoderInit { codec: VideoCodec::H264, reason: String::new() }),
        WorkerAction::Exit
    );
    assert_eq!(
        decode_error_action(&DecodeError::DecodeFailed { frame: 3, reason: String::new() }),
        WorkerAction::Proceed
    );
}

#[test]
fn seek_to_end_produces_last_frame_once() {
    // 10.01 s at 30 fps: frames 0..=300
    let total = synthetic_total_frames(10_010_000, 30, 1);
    assert_eq!(total, 301);
    let mut w = WorkerState::new();
    w.frame_published();
    w.apply_command(CommandPoll::Received(DecodeCommand::Seek(10_010_000)), 30, 1);
    let mut produced = Vec::new();
    for step in 0..10 {
        if step == 3 {
            w.apply_command(CommandPoll::Received(DecodeCommand::Play), 30, 1);
        }
        if let Some((k, pts)) = w.synthetic_step(total, 30, 1) {
            produced.push((k, pts));
            w.frame_published();
        }
    }
    assert_eq!(produced, vec![(300, 10_000_000)]);
    assert!(!w.playing);
}

#[test]
fn commands_drive_the_worker() {
    let mut w = WorkerState::new();
    assert_eq!(w.apply_command(CommandPoll::Empty, 30, 1), WorkerAction::Proceed);
    assert!(!w.should_idle());
    assert_eq!(w.apply_command(CommandPoll::Received(DecodeCommand::Play), 30, 1), WorkerAction::Proceed);
    assert!(w.playing);
    assert_eq!(w.apply_command(CommandPoll::Received(DecodeCommand::Seek(1_000_000)), 30, 1), WorkerAction::SeekTo(1_000_000));
    assert_eq!(w.frame_num, 30);
    assert!(w.need_seek_frame);
    assert_eq!(w.apply_command(CommandPoll::Received(DecodeCommand::Stop), 30, 1), WorkerAction::Exit);
    assert_eq!(w.apply_command(CommandPoll::Disconnected, 30, 1), WorkerAction::Exit);
}

#[test]
fn repeated_seek_gives_same_worker_state() {
    let mut a = WorkerState::new();
    a.apply_command(CommandPoll::Received(DecodeCommand::Seek(2_500_000)), 30, 1);
    let once = a;
    a.apply_command(CommandPoll::Received(DecodeCommand::Seek(2_500_000)), 30, 1);
    assert_eq!(a, once);
}

#[test]
fn seek_frame_while_paused_then_idle() {
    let mut w = WorkerState::new();
    assert!(!w.frame_published());
    assert_eq!(w.frame_num, 1);
    assert!(w.should_idle());
    w.apply_command(CommandPoll::Received(DecodeCommand::Seek(0)), 30, 1);
    assert!(!w.should_idle());
    assert!(w.frame_published());
    assert_eq!(w.frame_num, 1);
    assert!(w.should_idle());
}

#[test]
fn end_of_stream_pauses() {
    let mut w = WorkerState::new();
    w.apply_command(CommandPoll::Received(DecodeCommand::Play), 30, 1);
    w.frame_published();
    w.end_of_stream();
    assert!(!w.playing);
    assert!(w.should_idle());
}

#[test]
fn one_frame_file_yields_one_frame() {
    // 1 frame at 30 fps
    let total = synthetic_total_frames(33_333, 30, 1);
    assert_eq!(total, 1);
    let mut w = WorkerState::new();
    w.apply_command(CommandPoll::Received(DecodeCommand::Play), 30, 1);
    let mut sent = 0;
    for _ in 0..10 {
        if w.should_idle() {
            continue;
        }
        if w.synthetic_done(total) {
            w.end_of_stream();
            continue;
        }
        sent += 1;
        w.frame_published();
    }
    assert_eq!(sent, 1);
    assert!(!w.playing);
}

#[test]
fn frame_arithmetic() {
    assert_eq!(frame_index_at(1_000_000, 30, 1), 30);
    assert_eq!(frame_index_at(16_667, 30, 1), 1);
    assert_eq!(frame_index_at(16_666, 30, 1), 0);
    assert_eq!(frame_index_at(1_000_000, 30000, 1001), 30);
    assert_eq!(frame_period_us(30, 1), 33_333);
    assert_eq!(frame_period_us(25, 1), 40_000);
    assert_eq!(synthetic_total_frames(10_000_000, 30, 1), 300);
    assert_eq!(synthetic_total_frames(10_000_001, 30, 1), 301);
    assert_eq!(synthetic_pts_us(30, 30, 1), 1_000_000);
    assert_eq!(synthetic_pts_us(1, 30, 1), 33_333);
    assert_eq!(FRAME_CHANNEL_CAPACITY, 4);
}

#[test]
fn synthetic_pts_non_decreasing() {
    let mut prev = 0;
    for k in 0..100 {
        let p = synthetic_pts_us(k, 30000, 1001);
        assert!(p >= prev);
        prev = p;
    }
}
