//! Decisions of the decode worker: path negotiation, command handling,
//! idling, frame bookkeeping and pacing. The worker thread performs the
//! I/O (channels, demuxer, driver) and consults these functions between
//! steps.

use vstd::prelude::*;
use vstd::string::*;
use crate::engine::{DecodeCommand, GpuInfoMsg};
use crate::session::DecodeError;

verus! {

/// Capacity of the bounded frame channel from worker to UI.
pub const FRAME_CHANNEL_CAPACITY: usize = 4;

/// Sleep between command polls while paused, in milliseconds.
pub const IDLE_POLL_MS: u64 = 10;

pub const MICROS_PER_SECOND: u64 = 1_000_000;

/// How the worker produces frames.
#[derive(Clone, Copy, Debug, PartialEq, Eq, Structural)]
pub enum DecodePath {
    /// Hardware decode of real packets.
    Hardware,
    /// Real packets and timestamps, synthetic pixels.
    RealPackets,
    /// Animated pattern at the target frame rate.
    Synthetic,
    /// Decoder setup failed: the worker ends and the open fails.
    Abort,
}

/// Outcome of the hardware setup on the worker thread.
#[derive(Clone, Debug, PartialEq, Eq)]
pub enum HardwareSetup {
    /// Context, library, session and kernel are ready on this GPU.
    Ready(String),
    /// The GPU, its driver or the decode library is missing.
    Unavailable,
    /// The decode session could not be set up for this stream.
    Rejected(DecodeError),
}

/// The capability name reported when no hardware decoder is available.
pub open spec fn software_name() -> Seq<char> {
    "None (software)"@
}

/// Chooses the decode path and the one capability report to send, and the
/// outcome the open reports. A missing capability demotes to the software
/// paths; a rejected setup with a fatal error aborts the open with it.
pub fn negotiate(setup: HardwareSetup, demuxer_opened: bool) -> (r: (DecodePath, GpuInfoMsg, Result<(), DecodeError>))
    ensures
        match setup {
            HardwareSetup::Ready(name) => r.1.gpu_name == name && r.1.nvdec_active && r.2 is Ok
                && r.0 == (if demuxer_opened { DecodePath::Hardware } else { DecodePath::Synthetic }),
            HardwareSetup::Rejected(e) => r.1.gpu_name@ == software_name() && !r.1.nvdec_active
                && if is_fatal(e) {
                    r.0 == DecodePath::Abort && r.2 == Err::<(), DecodeError>(e)
                } else {
                    r.2 is Ok && r.0 == (if demuxer_opened { DecodePath::RealPackets } else { DecodePath::Synthetic })
                },
            HardwareSetup::Unavailable => r.1.gpu_name@ == software_name() && !r.1.nvdec_active && r.2 is Ok
                && r.0 == (if demuxer_opened { DecodePath::RealPackets } else { DecodePath::Synthetic }),
        },
{
    let software = GpuInfoMsg { gpu_name: String::from_str("None (software)"), nvdec_active: false };
    let fallback = if demuxer_opened { DecodePath::RealPackets } else { DecodePath::Synthetic };
    match setup {
        HardwareSetup::Ready(name) => {
            let path = if demuxer_opened { DecodePath::Hardware } else { DecodePath::Synthetic };
            (path, GpuInfoMsg { gpu_name: name, nvdec_active: true }, Ok(()))
        },
        HardwareSetup::Rejected(e) => {
            if let WorkerAction::Exit = decode_error_action(&e) {
                (DecodePath::Abort, software, Err(e))
            } else {
                (fallback, software, Ok(()))
            }
        },
        HardwareSetup::Unavailable => (fallback, software, Ok(())),
    }
}

/// Outcome of a non-blocking poll of the command channel.
#[derive(Clone, Copy, Debug, PartialEq, Eq, Structural)]
pub enum CommandPoll {
    Received(DecodeCommand),
    Empty,
    Disconnected,
}

/// What the worker does after a command poll.
#[derive(Clone, Copy, Debug, PartialEq, Eq, Structural)]
pub enum WorkerAction {
    /// Go on with the loop.
    Proceed,
    /// Reset the session and seek the demuxer to this time (microseconds),
    /// then go on.
    SeekTo(u64),
    /// Return from the worker.
    Exit,
}

/// Index of the frame shown at `t_us`, rounded to nearest, at
/// `fps_num / fps_den` frames per second.
pub open spec fn frame_index_spec(t_us: u64, fps_num: u32, fps_den: u32) -> int {
    (2 * t_us * fps_num + fps_den * MICROS_PER_SECOND) / (2 * fps_den * MICROS_PER_SECOND)
}

/// Frame index of a time, rounded to nearest (saturating at `u64::MAX`).
pub fn frame_index_at(t_us: u64, fps_num: u32, fps_den: u32) -> (r: u64)
    requires
        fps_den > 0,
    ensures
        frame_index_spec(t_us, fps_num, fps_den) <= u64::MAX ==> r == frame_index_spec(t_us, fps_num, fps_den),
        frame_index_spec(t_us, fps_num, fps_den) > u64::MAX ==> r == u64::MAX,
{
    proof {
        assert((t_us as int) * (fps_num as int) <= 0xffff_ffff_ffff_ffffint * 0xffff_ffffint) by (nonlinear_arith)
            requires t_us <= 0xffff_ffff_ffff_ffffint, fps_num <= 0xffff_ffffint, t_us >= 0, fps_num >= 0;
        assert((fps_den as int) * 1_000_000 <= 0xffff_ffffint * 1_000_000) by (nonlinear_arith)
            requires fps_den <= 0xffff_ffffint, fps_den >= 0;
    }
    let tn: u128 = (t_us as u128) * (fps_num as u128);
    let dm: u128 = (fps_den as u128) * (MICROS_PER_SECOND as u128);
    let n: u128 = 2 * tn + dm;
    let d: u128 = 2 * dm;
    assert(n == 2 * t_us * fps_num + fps_den * MICROS_PER_SECOND) by (nonlinear_arith)
        requires tn == t_us * fps_num, dm == fps_den * MICROS_PER_SECOND, n == 2 * tn + dm;
    let q = n / d;
    if q > u64::MAX as u128 { u64::MAX } else { q as u64 }
}

/// Duration of one frame in microseconds, `fps_den / fps_num` seconds, rounded down.
pub fn frame_period_us(fps_num: u32, fps_den: u32) -> (r: u64)
    requires
        fps_num > 0,
    ensures
        r == (fps_den * MICROS_PER_SECOND) / (fps_num as int),
{
    proof {
        assert(fps_den * MICROS_PER_SECOND <= 0xffff_ffffint * 1_000_000) by (nonlinear_arith)
            requires fps_den <= 0xffff_ffffint;
        assert((fps_den * MICROS_PER_SECOND) / (fps_num as int) <= fps_den * MICROS_PER_SECOND) by (nonlinear_arith)
            requires fps_num > 0, fps_den >= 0;
    }
    ((fps_den as u64) * MICROS_PER_SECOND) / (fps_num as u64)
}

/// Number of frames the synthetic path produces for a file: the duration
/// times the frame rate, rounded up.
pub open spec fn total_frames_spec(duration_us: u64, fps_num: u32, fps_den: u32) -> int {
    let n = duration_us * fps_num;
    let d = fps_den * MICROS_PER_SECOND;
    (n + d - 1) / d
}

pub fn synthetic_total_frames(duration_us: u64, fps_num: u32, fps_den: u32) -> (r: u64)
    requires
        fps_den > 0,
    ensures
        total_frames_spec(duration_us, fps_num, fps_den) <= u64::MAX ==> r == total_frames_spec(duration_us, fps_num, fps_den),
        total_frames_spec(duration_us, fps_num, fps_den) > u64::MAX ==> r == u64::MAX,
{
    proof {
        assert((duration_us as int) * (fps_num as int) <= 0xffff_ffff_ffff_ffffint * 0xffff_ffffint) by (nonlinear_arith)
            requires duration_us <= 0xffff_ffff_ffff_ffffint, fps_num <= 0xffff_ffffint;
        assert((fps_den as int) * 1_000_000 <= 0xffff_ffffint * 1_000_000) by (nonlinear_arith)
            requires fps_den <= 0xffff_ffffint;
    }
    let n: u128 = (duration_us as u128) * (fps_num as u128);
    let d: u128 = (fps_den as u128) * (MICROS_PER_SECOND as u128);
    let q = (n + d - 1) / d;
    if q > u64::MAX as u128 { u64::MAX } else { q as u64 }
}

/// Presentation time of synthetic frame `k`: `k / fps` seconds, in
/// microseconds, rounded down.
pub open spec fn synthetic_pts_spec(k: u64, fps_num: u32, fps_den: u32) -> int {
    (k * fps_den * MICROS_PER_SECOND) / (fps_num as int)
}

pub fn synthetic_pts_us(k: u64, fps_num: u32, fps_den: u32) -> (r: u64)
    requires
        fps_num > 0,
    ensures
        synthetic_pts_spec(k, fps_num, fps_den) <= u64::MAX ==> r == synthetic_pts_spec(k, fps_num, fps_den),
        synthetic_pts_spec(k, fps_num, fps_den) > u64::MAX ==> r == u64::MAX,
{
    proof {
        assert((k as int) * (fps_den as int) * 1_000_000 <= 0xffff_ffff_ffff_ffffint * 0xffff_ffffint * 1_000_000) by (nonlinear_arith)
            requires k <= 0xffff_ffff_ffff_ffffint, fps_den <= 0xffff_ffffint;
        assert(((k as int) * (fps_den as int) * 1_000_000) / (fps_num as int) <= (k as int) * (fps_den as int) * 1_000_000) by (nonlinear_arith)
            requires fps_num > 0, k >= 0, fps_den >= 0;
    }
    let n: u128 = (k as u128) * (fps_den as u128) * (MICROS_PER_SECOND as u128);
    let q = n / (fps_num as u128);
    if q > u64::MAX as u128 { u64::MAX } else { q as u64 }
}

/// Synthetic presentation times never decrease with the frame index.
pub proof fn lemma_synthetic_pts_monotonic(k1: u64, k2: u64, fps_num: u32, fps_den: u32)
    requires
        k1 <= k2,
        fps_num > 0,
    ensures
        synthetic_pts_spec(k1, fps_num, fps_den) <= synthetic_pts_spec(k2, fps_num, fps_den),
{
    assert((k1 as int) * (fps_den as int) * 1_000_000 <= (k2 as int) * (fps_den as int) * 1_000_000) by (nonlinear_arith)
        requires k1 <= k2, fps_den >= 0;
    vstd::arithmetic::div_mod::lemma_div_is_ordered(
        (k1 as int) * (fps_den as int) * 1_000_000,
        (k2 as int) * (fps_den as int) * 1_000_000,
        fps_num as int,
    );
}

/// Playback bookkeeping of the worker loop.
#[derive(Clone, Copy, Debug, PartialEq, Eq, Structural)]
pub struct WorkerState {
    pub playing: bool,
    /// Index of the next frame.
    pub frame_num: u64,
    pub sent_first_frame: bool,
    /// A seek asked for one frame at the new position.
    pub need_seek_frame: bool,
}

/// The worker after applying a polled command.
pub open spec fn apply_spec(w: WorkerState, poll: CommandPoll, fps_num: u32, fps_den: u32) -> WorkerState {
    match poll {
        CommandPoll::Received(DecodeCommand::Play) => WorkerState { playing: true, ..w },
        CommandPoll::Received(DecodeCommand::Pause) => WorkerState { playing: false, ..w },
        CommandPoll::Received(DecodeCommand::Seek(t)) => WorkerState {
            frame_num: if frame_index_spec(t, fps_num, fps_den) <= u64::MAX {
                frame_index_spec(t, fps_num, fps_den) as u64
            } else {
                u64::MAX
            },
            need_seek_frame: true,
            ..w
        },
        _ => w,
    }
}

pub open spec fn action_spec(poll: CommandPoll) -> WorkerAction {
    match poll {
        CommandPoll::Received(DecodeCommand::Seek(t)) => WorkerAction::SeekTo(t),
        CommandPoll::Received(DecodeCommand::Stop) => WorkerAction::Exit,
        CommandPoll::Disconnected => WorkerAction::Exit,
        _ => WorkerAction::Proceed,
    }
}

/// The worker after publishing a frame: the frame index always advances
/// (the seek frame shown while paused included), so no index is produced
/// twice between seeks.
pub open spec fn published_spec(w: WorkerState) -> WorkerState {
    WorkerState {
        sent_first_frame: true,
        need_seek_frame: false,
        frame_num: if w.frame_num < u64::MAX { (w.frame_num + 1) as u64 } else { w.frame_num },
        ..w
    }
}

impl WorkerState {
    /// Start of the loop: paused, at frame 0, nothing sent.
    pub fn new() -> (r: WorkerState)
        ensures
            r == (WorkerState { playing: false, frame_num: 0, sent_first_frame: false, need_seek_frame: false }),
    {
        WorkerState { playing: false, frame_num: 0, sent_first_frame: false, need_seek_frame: false }
    }

    /// Applies the outcome of a command poll. `Stop` and a disconnected
    /// channel end the worker; `Seek` moves to the frame at the target time
    /// and asks for one frame there.
    pub fn apply_command(&mut self, poll: CommandPoll, fps_num: u32, fps_den: u32) -> (r: WorkerAction)
        requires
            fps_den > 0,
        ensures
            *final(self) == apply_spec(*old(self), poll, fps_num, fps_den),
            r == action_spec(poll),
    {
        match poll {
            CommandPoll::Received(DecodeCommand::Play) => {
                self.playing = true;
                WorkerAction::Proceed
            },
            CommandPoll::Received(DecodeCommand::Pause) => {
                self.playing = false;
                WorkerAction::Proceed
            },
            CommandPoll::Received(DecodeCommand::Seek(t)) => {
                self.frame_num = frame_index_at(t, fps_num, fps_den);
                self.need_seek_frame = true;
                WorkerAction::SeekTo(t)
            },
            CommandPoll::Received(DecodeCommand::Stop) => WorkerAction::Exit,
            CommandPoll::Empty => WorkerAction::Proceed,
            CommandPoll::Disconnected => WorkerAction::Exit,
        }
    }

    pub open spec fn should_idle_spec(&self) -> bool {
        !self.playing && self.sent_first_frame && !self.need_seek_frame
    }

    /// Whether to sleep and poll again instead of producing a frame: paused,
    /// with a frame already shown and no seek frame owed.
    pub fn should_idle(&self) -> (r: bool)
        ensures
            r == self.should_idle_spec(),
    {
        !self.playing && self.sent_first_frame && !self.need_seek_frame
    }

    /// Bookkeeping after frame `frame_num` was sent: the index advances.
    /// Returns whether the loop should skip pacing: true for the one seek
    /// frame shown while paused.
    pub fn frame_published(&mut self) -> (skip: bool)
        ensures
            *final(self) == published_spec(*old(self)),
            old(self).frame_num < u64::MAX ==> final(self).frame_num > old(self).frame_num,
            skip == (old(self).need_seek_frame && !old(self).playing),
    {
        let skip = self.need_seek_frame && !self.playing;
        self.sent_first_frame = true;
        self.need_seek_frame = false;
        if self.frame_num < u64::MAX {
            self.frame_num = self.frame_num + 1;
        }
        skip
    }

    /// The synthetic path's next step: idle, or produce frame `frame_num`
    /// (always below `total_frames`) at its presentation time. At the end of
    /// the file the worker stops playing and idles.
    pub fn synthetic_step(&mut self, total_frames: u64, fps_num: u32, fps_den: u32) -> (r: Option<(u64, u64)>)
        requires
            fps_num > 0,
        ensures
            old(self).should_idle_spec() ==> r is None && *final(self) == *old(self),
            !old(self).should_idle_spec() && old(self).frame_num >= total_frames ==> r is None
                && *final(self) == (WorkerState { playing: false, sent_first_frame: true, ..*old(self) }),
            !old(self).should_idle_spec() && old(self).frame_num < total_frames ==> *final(self) == *old(self)
                && (r matches Some(p) && p.0 == old(self).frame_num && p.0 < total_frames
                && (synthetic_pts_spec(p.0, fps_num, fps_den) <= u64::MAX ==> p.1 == synthetic_pts_spec(p.0, fps_num, fps_den))
                && (synthetic_pts_spec(p.0, fps_num, fps_den) > u64::MAX ==> p.1 == u64::MAX)),
    {
        if self.should_idle() {
            return None;
        }
        if self.synthetic_done(total_frames) {
            self.end_of_stream();
            return None;
        }
        Some((self.frame_num, synthetic_pts_us(self.frame_num, fps_num, fps_den)))
    }

    /// End of stream: the worker stops playing and idles until a command
    /// (a seek asks for a frame again).
    pub fn end_of_stream(&mut self)
        ensures
            *final(self) == (WorkerState { playing: false, sent_first_frame: true, ..*old(self) }),
            final(self).should_idle_spec() == !old(self).need_seek_frame,
    {
        self.playing = false;
        self.sent_first_frame = true;
    }

    /// Whether the synthetic path has produced every frame of the file.
    pub fn synthetic_done(&self, total_frames: u64) -> (r: bool)
        ensures
            r == (self.frame_num >= total_frames),
    {
        self.frame_num >= total_frames
    }
}

/// Between seeks no frame index is produced twice: each publish moves the
/// index strictly forward (below the saturation bound).
pub proof fn lemma_no_index_published_twice(w: WorkerState)
    requires
        w.frame_num < u64::MAX,
    ensures
        published_spec(w).frame_num == w.frame_num + 1,
        !published_spec(w).need_seek_frame,
{
}

/// Seeking to the end of the file owes at most one more frame: once the
/// seek frame is published, the synthetic path is done.
pub proof fn lemma_seek_to_end_single_frame(d: u64, fps_num: u32, fps_den: u32)
    requires
        fps_den > 0,
    ensures
        frame_index_spec(d, fps_num, fps_den) + 1 >= total_frames_spec(d, fps_num, fps_den),
{
    let a: int = d * fps_num;
    let b: int = fps_den * MICROS_PER_SECOND;
    assert(a >= 0) by (nonlinear_arith) requires a == d * fps_num, d >= 0, fps_num >= 0;
    assert(b > 0) by (nonlinear_arith) requires b == fps_den * MICROS_PER_SECOND, fps_den > 0;
    assert(2 * d * fps_num == 2 * a) by (nonlinear_arith) requires a == d * fps_num;
    assert(2 * fps_den * MICROS_PER_SECOND == 2 * b) by (nonlinear_arith) requires b == fps_den * MICROS_PER_SECOND;
    let fi = (2 * a + b) / (2 * b);
    let t = (a + b - 1) / b;
    vstd::arithmetic::div_mod::lemma_fundamental_div_mod(2 * a + b, 2 * b);
    vstd::arithmetic::div_mod::lemma_fundamental_div_mod(a + b - 1, b);
    let r1 = (2 * a + b) % (2 * b);
    let r2 = (a + b - 1) % b;
    assert(2 * a + b == 2 * b * fi + r1 && 0 <= r1 < 2 * b);
    assert(a + b - 1 == b * t + r2 && 0 <= r2 < b);
    assert(fi + 1 >= t) by (nonlinear_arith)
        requires 2 * a + b == 2 * b * fi + r1, 0 <= r1 < 2 * b, a + b - 1 == b * t + r2, 0 <= r2 < b, b > 0;
    assert(frame_index_spec(d, fps_num, fps_den) == fi);
    assert(total_frames_spec(d, fps_num, fps_den) == t);
}

/// Whether an error ends the open: setting up the decoder failed or the
/// codec is not supported (the other errors are per packet or per frame).
pub open spec fn is_fatal(e: DecodeError) -> bool {
    e is UnsupportedCodec || e is HwDecoderInit
}

/// What the worker does after a decode error: fatal errors end it (the frame
/// channel then closes and the engine enters `Error`); others are skipped.
pub fn decode_error_action(e: &DecodeError) -> (r: WorkerAction)
    ensures
        is_fatal(*e) ==> r == WorkerAction::Exit,
        !is_fatal(*e) ==> r == WorkerAction::Proceed,
{
    match e {
        DecodeError::UnsupportedCodec(_) => WorkerAction::Exit,
        DecodeError::HwDecoderInit { .. } => WorkerAction::Exit,
        _ => WorkerAction::Proceed,
    }
}

/// Two identical seeks leave the worker as one does, and ask for the same
/// demuxer position.
pub proof fn lemma_seek_command_idempotent(w: WorkerState, t: u64, fps_num: u32, fps_den: u32)
    ensures
        apply_spec(apply_spec(w, CommandPoll::Received(DecodeCommand::Seek(t)), fps_num, fps_den),
            CommandPoll::Received(DecodeCommand::Seek(t)), fps_num, fps_den)
            == apply_spec(w, CommandPoll::Received(DecodeCommand::Seek(t)), fps_num, fps_den),
{
}

/// Between seeks the frame index never decreases: publishing and any command
/// other than `Seek` keep or advance it.
pub proof fn lemma_frame_index_advances(w: WorkerState, poll: CommandPoll, fps_num: u32, fps_den: u32)
    requires
        !(poll matches CommandPoll::Received(DecodeCommand::Seek(_))),
    ensures
        published_spec(w).frame_num >= w.frame_num,
        apply_spec(w, poll, fps_num, fps_den).frame_num == w.frame_num,
{
}

/// Between seeks the synthetic path's presentation times never decrease:
/// a command other than `Seek` followed by publishing a frame leaves the
/// next frame's time at or after the current one.
pub proof fn lemma_synthetic_pts_between_seeks(w: WorkerState, poll: CommandPoll, fps_num: u32, fps_den: u32)
    requires
        !(poll matches CommandPoll::Received(DecodeCommand::Seek(_))),
        fps_num > 0,
    ensures
        synthetic_pts_spec(w.frame_num, fps_num, fps_den)
            <= synthetic_pts_spec(published_spec(apply_spec(w, poll, fps_num, fps_den)).frame_num, fps_num, fps_den),
{
    lemma_frame_index_advances(w, poll, fps_num, fps_den);
    let w1 = apply_spec(w, poll, fps_num, fps_den);
    lemma_frame_index_advances(w1, CommandPoll::Empty, fps_num, fps_den);
    lemma_synthetic_pts_monotonic(w.frame_num, published_spec(w1).frame_num, fps_num, fps_den);
}

/// `Stop` and a disconnected command channel always end the worker.
pub proof fn lemma_stop_exits()
    ensures
        action_spec(CommandPoll::Received(DecodeCommand::Stop)) == WorkerAction::Exit,
        action_spec(CommandPoll::Disconnected) == WorkerAction::Exit,
{
}

} // verus!
