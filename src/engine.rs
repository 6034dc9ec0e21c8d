//! The UI-side playback engine: lifecycle and transport state machine,
//! wall-clock pacing, seek clamping, and the drain-and-display policy.
//!
//! Time is held in whole microseconds. The engine never performs I/O: each
//! transition returns the command (if any) to send to the decode worker.

use vstd::prelude::*;
use vstd::string::*;
use crate::ffi::VideoCodec;
use crate::session::DecodeError;
use crate::worker::is_fatal;

verus! {

/// State of the playback pipeline.
#[derive(Clone, Debug, PartialEq, Eq)]
pub enum EngineState {
    /// No file loaded.
    Idle,
    /// A file is being opened and the pipeline is starting.
    Loading,
    /// Playing in real time.
    Playing,
    /// Paused on a frame.
    Paused,
    /// A fatal error, with its description.
    Error(String),
}

pub open spec fn state_label(s: EngineState) -> Seq<char> {
    match s {
        EngineState::Idle => "Idle"@,
        EngineState::Loading => "Loading..."@,
        EngineState::Playing => "Playing"@,
        EngineState::Paused => "Paused"@,
        EngineState::Error(_) => "Error"@,
    }
}

impl EngineState {
    /// Short label for display.
    pub fn label(&self) -> (r: &'static str)
        ensures
            r@ == state_label(*self),
    {
        match self {
            EngineState::Idle => "Idle",
            EngineState::Loading => "Loading...",
            EngineState::Playing => "Playing",
            EngineState::Paused => "Paused",
            EngineState::Error(_) => "Error",
        }
    }

    pub fn is_playing(&self) -> (r: bool)
        ensures
            r == (*self is Playing),
    {
        match self {
            EngineState::Playing => true,
            _ => false,
        }
    }
}

/// Metadata of the opened file; immutable after open.
#[derive(Clone, Debug)]
pub struct FileInfo {
    pub path: String,
    pub file_name: String,
    pub width: u32,
    pub height: u32,
    /// Frame rate as a fraction `fps_num / fps_den`.
    pub fps_num: u32,
    pub fps_den: u32,
    pub duration_us: u64,
    pub codec: VideoCodec,
}

impl FileInfo {
    /// A usable frame rate.
    pub open spec fn wf(&self) -> bool {
        self.fps_num > 0 && self.fps_den > 0
    }
}

/// Commands from the engine to the decode worker.
#[derive(Clone, Copy, Debug, PartialEq, Eq, Structural)]
pub enum DecodeCommand {
    Play,
    Pause,
    /// Seek to a time in microseconds.
    Seek(u64),
    Stop,
}

/// One-shot capability report from the worker.
#[derive(Clone, Debug, PartialEq, Eq)]
pub struct GpuInfoMsg {
    pub gpu_name: String,
    pub nvdec_active: bool,
}

/// A decoded RGBA frame on its way from the worker to the UI.
#[derive(Clone, Debug)]
pub struct DecodedFrame {
    /// Tight RGBA8, row-major, top-left origin.
    pub rgba_data: Vec<u8>,
    pub width: u32,
    pub height: u32,
    /// Presentation time in microseconds.
    pub pts_us: i64,
}

/// Byte size of a tight RGBA8 frame.
pub open spec fn rgba_len(width: u32, height: u32) -> int {
    width * height * 4
}

/// Every fourth byte, starting at the fourth, is 255.
pub open spec fn all_opaque(data: Seq<u8>) -> bool {
    forall|i: int| 0 <= i < data.len() && i % 4 == 3 ==> #[trigger] data[i] == 255u8
}

impl DecodedFrame {
    /// The data holds exactly `width * height` RGBA pixels.
    pub open spec fn wf(&self) -> bool {
        self.rgba_data@.len() == rgba_len(self.width, self.height)
    }
}

/// What the preview shows after an update.
#[derive(Clone, Copy, Debug, PartialEq, Eq, Structural)]
pub enum Display {
    /// The cached frame (`EngineOrchestrator::last_frame`).
    LastFrame,
    /// Black at the given size: nothing decoded yet.
    Black { width: u32, height: u32 },
    /// The animated diagnostic pattern shown when idle.
    TestPattern { width: u32, height: u32 },
    /// The red-tinted pattern shown on error.
    ErrorPattern { width: u32, height: u32 },
}

/// Result of one UI update.
#[derive(Clone, Copy, Debug, PartialEq, Eq, Structural)]
pub struct UpdateOutcome {
    pub display: Display,
    /// Command for the worker (the auto-pause at end of file).
    pub command: Option<DecodeCommand>,
    /// Whether another repaint should be requested right away.
    pub repaint: bool,
}

pub const DEFAULT_PREVIEW_WIDTH: u32 = 1920;
pub const DEFAULT_PREVIEW_HEIGHT: u32 = 1080;

/// Message of the error state entered when the worker goes away.
pub open spec fn worker_gone_message() -> Seq<char> {
    "decode worker stopped"@
}

/// The description of a decode error shown in the error state.
pub open spec fn error_text(e: DecodeError) -> Seq<char> {
    match e {
        DecodeError::UnsupportedCodec(c) => "Unsupported codec: "@ + crate::ffi::codec_name(c),
        DecodeError::HwDecoderInit { codec, reason } => "Hardware decoder init failed for "@
            + crate::ffi::codec_name(codec) + ": "@ + reason@,
        DecodeError::DecodeFailed { frame: _, reason } => "Decode failed: "@ + reason@,
        DecodeError::InvalidSession => "Invalid decode session"@,
    }
}

/// Description of a decode error for the error state.
pub fn error_message(e: &DecodeError) -> (r: String)
    ensures
        r@ == error_text(*e),
{
    match e {
        DecodeError::UnsupportedCodec(c) => {
            let mut m = String::from_str("Unsupported codec: ");
            m.append(c.display_name());
            m
        },
        DecodeError::HwDecoderInit { codec, reason } => {
            let mut m = String::from_str("Hardware decoder init failed for ");
            m.append(codec.display_name());
            m.append(": ");
            m.append(reason.as_str());
            m
        },
        DecodeError::DecodeFailed { frame: _, reason } => {
            let mut m = String::from_str("Decode failed: ");
            m.append(reason.as_str());
            m
        },
        DecodeError::InvalidSession => String::from_str("Invalid decode session"),
    }
}

/// The playback engine.
#[derive(Debug)]
pub struct EngineOrchestrator {
    pub state: EngineState,
    pub preview_width: u32,
    pub preview_height: u32,
    pub file_info: Option<FileInfo>,
    /// Current media time.
    pub current_time_us: u64,
    /// Wall-clock instant of the anchor, present while playing.
    pub anchor_instant_us: Option<u64>,
    /// Media time at the anchor.
    pub anchor_time_us: u64,
    /// Whether a worker and its channels exist.
    pub pipeline_active: bool,
    /// The most recently displayed frame.
    pub last_frame: Option<DecodedFrame>,
    pub gpu_info: Option<String>,
    pub gpu_decode_active: bool,
    /// Whether the one-shot capability report is still awaited.
    pub awaiting_gpu_info: bool,
}

pub open spec fn duration_of(e: EngineOrchestrator) -> u64 {
    match e.file_info {
        Some(fi) => fi.duration_us,
        None => 0,
    }
}

pub open spec fn clamp_time(t: int, duration: u64) -> u64 {
    if t < 0 { 0 } else if t > duration { duration } else { t as u64 }
}

/// Media time reached at wall-clock `now`, from the anchor.
pub open spec fn advanced_time(anchor_time: u64, anchor_instant: u64, now: u64) -> u64 {
    let elapsed: int = if now >= anchor_instant { now - anchor_instant } else { 0 };
    if anchor_time + elapsed > u64::MAX { u64::MAX } else { (anchor_time + elapsed) as u64 }
}

pub open spec fn command_if(active: bool, c: DecodeCommand) -> Option<DecodeCommand> {
    if active { Some(c) } else { None }
}

/// The engine after `play` at wall-clock `now`.
pub open spec fn play_spec(e: EngineOrchestrator, now: u64) -> EngineOrchestrator {
    if e.state is Paused || e.state is Idle {
        EngineOrchestrator {
            state: EngineState::Playing,
            anchor_instant_us: Some(now),
            anchor_time_us: e.current_time_us,
            ..e
        }
    } else {
        e
    }
}

/// The engine after `pause`.
pub open spec fn pause_spec(e: EngineOrchestrator) -> EngineOrchestrator {
    if e.state is Playing {
        EngineOrchestrator { state: EngineState::Paused, anchor_instant_us: None, ..e }
    } else {
        e
    }
}

/// The engine after `seek(t)` at wall-clock `now`.
pub open spec fn seek_spec(e: EngineOrchestrator, t: i64, now: u64) -> EngineOrchestrator {
    let c = clamp_time(t as int, duration_of(e));
    if e.state is Error {
        e
    } else if e.state is Playing {
        EngineOrchestrator { current_time_us: c, anchor_instant_us: Some(now), anchor_time_us: c, ..e }
    } else {
        EngineOrchestrator { current_time_us: c, ..e }
    }
}

/// The engine after taking in the capability report, while it is awaited.
pub open spec fn gpu_spec(e: EngineOrchestrator, msg: Option<GpuInfoMsg>) -> EngineOrchestrator {
    if e.awaiting_gpu_info && msg is Some {
        EngineOrchestrator {
            gpu_info: Some(msg->0.gpu_name),
            gpu_decode_active: msg->0.nvdec_active,
            awaiting_gpu_info: false,
            ..e
        }
    } else {
        e
    }
}

/// The engine after draining `frames`: the newest becomes the cached frame.
pub open spec fn poll_spec(e: EngineOrchestrator, frames: Seq<DecodedFrame>) -> EngineOrchestrator {
    if frames.len() > 0 { EngineOrchestrator { last_frame: Some(frames.last()), ..e } } else { e }
}

/// What the preview shows after draining `frames`.
pub open spec fn poll_display(e: EngineOrchestrator, frames: Seq<DecodedFrame>) -> Display {
    if frames.len() > 0 || e.last_frame is Some {
        Display::LastFrame
    } else {
        Display::Black { width: e.preview_width, height: e.preview_height }
    }
}

/// The engine after the time step (while playing) and the drain of an update.
pub open spec fn drained_spec(e: EngineOrchestrator, now: u64, frames: Seq<DecodedFrame>) -> EngineOrchestrator {
    if e.state is Playing { poll_spec(tick_spec(e, now), frames) } else { poll_spec(e, frames) }
}

/// The engine after starting to open `info`.
pub open spec fn open_spec(e: EngineOrchestrator, info: FileInfo) -> EngineOrchestrator {
    EngineOrchestrator {
        state: EngineState::Loading,
        file_info: Some(info),
        current_time_us: 0,
        anchor_instant_us: None,
        pipeline_active: false,
        last_frame: None,
        awaiting_gpu_info: false,
        ..e
    }
}

/// The engine once its worker reports a successful setup.
pub open spec fn started_spec(e: EngineOrchestrator) -> EngineOrchestrator {
    if e.state is Loading {
        EngineOrchestrator { state: EngineState::Paused, pipeline_active: true, awaiting_gpu_info: true, ..e }
    } else {
        e
    }
}

/// The engine after a failure: `Error`, no anchor, no pipeline. The state's
/// message is stated apart.
pub open spec fn failed_spec(e: EngineOrchestrator, state: EngineState) -> EngineOrchestrator {
    EngineOrchestrator { state, anchor_instant_us: None, pipeline_active: false, ..e }
}

/// The engine after `stop`.
pub open spec fn stop_spec(e: EngineOrchestrator) -> EngineOrchestrator {
    EngineOrchestrator {
        state: EngineState::Idle,
        file_info: None,
        current_time_us: 0,
        anchor_instant_us: None,
        pipeline_active: false,
        last_frame: None,
        ..e
    }
}

/// The engine after the wall clock reads `now`: while playing, media time
/// follows the clock from the anchor; reaching the duration clamps to it and
/// pauses.
pub open spec fn tick_spec(e: EngineOrchestrator, now: u64) -> EngineOrchestrator {
    if e.state is Playing && e.anchor_instant_us is Some {
        let t = advanced_time(e.anchor_time_us, e.anchor_instant_us->0, now);
        let d = duration_of(e);
        if d > 0 && t >= d {
            EngineOrchestrator { state: EngineState::Paused, anchor_instant_us: None, current_time_us: d, ..e }
        } else {
            EngineOrchestrator { current_time_us: t, ..e }
        }
    } else {
        e
    }
}

pub open spec fn tick_command(e: EngineOrchestrator, now: u64) -> Option<DecodeCommand> {
    if e.state is Playing && e.anchor_instant_us is Some {
        let t = advanced_time(e.anchor_time_us, e.anchor_instant_us->0, now);
        let d = duration_of(e);
        if d > 0 && t >= d { command_if(e.pipeline_active, DecodeCommand::Pause) } else { None }
    } else {
        None
    }
}

impl EngineOrchestrator {
    /// A new engine: idle, no file, at time 0.
    pub fn new() -> (r: EngineOrchestrator)
        ensures
            r.state == EngineState::Idle,
            r.file_info is None,
            r.current_time_us == 0,
            r.anchor_instant_us is None,
            !r.pipeline_active,
            r.last_frame is None,
            r.gpu_info is None,
            !r.gpu_decode_active,
            !r.awaiting_gpu_info,
            r.preview_width == DEFAULT_PREVIEW_WIDTH && r.preview_height == DEFAULT_PREVIEW_HEIGHT,
    {
        EngineOrchestrator {
            state: EngineState::Idle,
            preview_width: DEFAULT_PREVIEW_WIDTH,
            preview_height: DEFAULT_PREVIEW_HEIGHT,
            file_info: None,
            current_time_us: 0,
            anchor_instant_us: None,
            anchor_time_us: 0,
            pipeline_active: false,
            last_frame: None,
            gpu_info: None,
            gpu_decode_active: false,
            awaiting_gpu_info: false,
        }
    }

    /// Current state.
    pub fn state(&self) -> (r: &EngineState)
        ensures
            *r == self.state,
    {
        &self.state
    }

    /// Metadata of the loaded file, if any.
    pub fn file_info(&self) -> (r: Option<&FileInfo>)
        ensures
            r == match self.file_info { Some(f) => Some(&f), None => None::<&FileInfo> },
    {
        match &self.file_info {
            Some(f) => Some(f),
            None => None,
        }
    }

    /// Current media time in microseconds.
    pub fn current_time_us(&self) -> (r: u64)
        ensures
            r == self.current_time_us,
    {
        self.current_time_us
    }

    /// Duration of the loaded file; 0 without one.
    pub fn duration_us(&self) -> (r: u64)
        ensures
            r == duration_of(*self),
    {
        match &self.file_info {
            Some(fi) => fi.duration_us,
            None => 0,
        }
    }

    /// GPU name as reported by the worker, or a placeholder until then.
    pub fn gpu_name(&self) -> (r: &str)
        ensures
            r@ == match self.gpu_info { Some(n) => n@, None => "GPU: detecting..."@ },
    {
        match &self.gpu_info {
            Some(n) => n.as_str(),
            None => "GPU: detecting...",
        }
    }

    /// Whether the worker decodes on the GPU.
    pub fn gpu_decode_active(&self) -> (r: bool)
        ensures
            r == self.gpu_decode_active,
    {
        self.gpu_decode_active
    }

    /// Records the worker's capability report.
    pub fn set_gpu_info(&mut self, name: String, decode_active: bool)
        ensures
            *final(self) == (EngineOrchestrator { gpu_info: Some(name), gpu_decode_active: decode_active, ..*old(self) }),
    {
        self.gpu_info = Some(name);
        self.gpu_decode_active = decode_active;
    }

    /// Starts opening a file: the engine enters `Loading` at time 0 with the
    /// file's metadata and no cached frame. Returns whether a running
    /// pipeline must first be stopped (send `Stop`, close the frame channel,
    /// join the worker).
    pub fn open_file(&mut self, info: FileInfo) -> (stop_previous: bool)
        ensures
            stop_previous == old(self).pipeline_active,
            *final(self) == open_spec(*old(self), info),
    {
        let stop_previous = self.pipeline_active;
        self.state = EngineState::Loading;
        self.file_info = Some(info);
        self.current_time_us = 0;
        self.anchor_instant_us = None;
        self.pipeline_active = false;
        self.last_frame = None;
        self.awaiting_gpu_info = false;
        stop_previous
    }

    /// The worker reported the outcome of its setup. On success `Loading`
    /// becomes `Paused`, showing the first frame when it arrives. On failure
    /// (decoder setup, unsupported codec) the open ends in `Error` with the
    /// error's description and no pipeline; the caller joins the worker,
    /// which has ended.
    pub fn pipeline_setup(&mut self, outcome: Result<(), DecodeError>)
        ensures
            outcome is Ok ==> *final(self) == started_spec(*old(self)),
            outcome is Err ==> *final(self) == failed_spec(*old(self), final(self).state),
            outcome matches Err(e) ==> (final(self).state matches EngineState::Error(m) && m@ == error_text(e)),
            (outcome matches Err(e) && is_fatal(e)) ==> final(self).state is Error && !final(self).pipeline_active,
    {
        match outcome {
            Ok(()) => {
                if let EngineState::Loading = self.state {
                    self.state = EngineState::Paused;
                    self.pipeline_active = true;
                    self.awaiting_gpu_info = true;
                }
            },
            Err(e) => self.fail(error_message(&e)),
        }
    }

    /// A fatal failure (of the open, or reported by the worker): the engine
    /// enters `Error` and accepts no further frames.
    pub fn fail(&mut self, message: String)
        ensures
            *final(self) == failed_spec(*old(self), EngineState::Error(message)),
    {
        self.state = EngineState::Error(message);
        self.anchor_instant_us = None;
        self.pipeline_active = false;
    }

    /// Starts or resumes playback from `Paused` or `Idle`, anchoring media
    /// time to the wall clock `now_us`.
    pub fn play(&mut self, now_us: u64) -> (cmd: Option<DecodeCommand>)
        ensures
            *final(self) == play_spec(*old(self), now_us),
            cmd == (if old(self).state is Paused || old(self).state is Idle {
                command_if(old(self).pipeline_active, DecodeCommand::Play)
            } else {
                None
            }),
    {
        let ready = match self.state {
            EngineState::Paused | EngineState::Idle => true,
            _ => false,
        };
        if ready {
            self.state = EngineState::Playing;
            self.anchor_instant_us = Some(now_us);
            self.anchor_time_us = self.current_time_us;
            if self.pipeline_active { Some(DecodeCommand::Play) } else { None }
        } else {
            None
        }
    }

    /// Pauses playback, dropping the wall-clock anchor.
    pub fn pause(&mut self) -> (cmd: Option<DecodeCommand>)
        ensures
            *final(self) == pause_spec(*old(self)),
            cmd == (if old(self).state is Playing {
                command_if(old(self).pipeline_active, DecodeCommand::Pause)
            } else {
                None
            }),
    {
        if self.state.is_playing() {
            self.state = EngineState::Paused;
            self.anchor_instant_us = None;
            if self.pipeline_active { Some(DecodeCommand::Pause) } else { None }
        } else {
            None
        }
    }

    /// Pauses when playing; plays when paused or idle.
    pub fn toggle_play_pause(&mut self, now_us: u64) -> (cmd: Option<DecodeCommand>)
        ensures
            *final(self) == (if old(self).state is Playing {
                pause_spec(*old(self))
            } else {
                play_spec(*old(self), now_us)
            }),
            old(self).state is Playing ==> cmd == command_if(old(self).pipeline_active, DecodeCommand::Pause),
            (old(self).state is Paused || old(self).state is Idle) ==> cmd == command_if(old(self).pipeline_active, DecodeCommand::Play),
            (old(self).state is Loading || old(self).state is Error) ==> cmd is None,
    {
        if self.state.is_playing() {
            self.pause()
        } else {
            self.play(now_us)
        }
    }

    /// Seeks to `time_us` clamped to `[0, duration]`; while playing the
    /// wall-clock anchor moves to the new position. The state is unchanged.
    /// In `Error` nothing happens.
    pub fn seek(&mut self, time_us: i64, now_us: u64) -> (cmd: Option<DecodeCommand>)
        ensures
            *final(self) == seek_spec(*old(self), time_us, now_us),
            old(self).state is Error ==> cmd is None,
            !(old(self).state is Error) ==> cmd == command_if(old(self).pipeline_active, DecodeCommand::Seek(final(self).current_time_us))
                && final(self).current_time_us <= duration_of(*old(self)),
    {
        if let EngineState::Error(_) = self.state {
            return None;
        }
        let duration = self.duration_us();
        let t: u64 = if time_us < 0 {
            0
        } else if time_us as u64 > duration {
            duration
        } else {
            time_us as u64
        };
        self.current_time_us = t;
        if self.state.is_playing() {
            self.anchor_instant_us = Some(now_us);
            self.anchor_time_us = t;
        }
        if self.pipeline_active { Some(DecodeCommand::Seek(t)) } else { None }
    }

    /// Stops playback and closes the file. Returns whether a pipeline must be
    /// shut down (send `Stop`, close the frame channel, join the worker).
    pub fn stop(&mut self) -> (stop_pipeline: bool)
        ensures
            stop_pipeline == old(self).pipeline_active,
            *final(self) == stop_spec(*old(self)),
    {
        let active = self.pipeline_active;
        self.state = EngineState::Idle;
        self.file_info = None;
        self.current_time_us = 0;
        self.anchor_instant_us = None;
        self.pipeline_active = false;
        self.last_frame = None;
        active
    }

    /// Advances media time to the wall clock `now_us` while playing, and
    /// pauses at the end of the file.
    pub fn tick(&mut self, now_us: u64) -> (cmd: Option<DecodeCommand>)
        ensures
            *final(self) == tick_spec(*old(self), now_us),
            cmd == tick_command(*old(self), now_us),
    {
        if !self.state.is_playing() {
            return None;
        }
        match self.anchor_instant_us {
            None => None,
            Some(inst) => {
                let elapsed: u64 = if now_us >= inst { now_us - inst } else { 0 };
                let t: u64 = if elapsed > u64::MAX - self.anchor_time_us {
                    u64::MAX
                } else {
                    self.anchor_time_us + elapsed
                };
                let d = self.duration_us();
                if d > 0 && t >= d {
                    self.current_time_us = d;
                    self.pause()
                } else {
                    self.current_time_us = t;
                    None
                }
            },
        }
    }

    /// Takes in what the worker produced since the last update (keeping only
    /// the newest frame) and says what to display.
    pub fn poll_frames(&mut self, frames: Vec<DecodedFrame>) -> (d: Display)
        ensures
            *final(self) == poll_spec(*old(self), frames@),
            d == poll_display(*old(self), frames@),
    {
        let mut frames = frames;
        match frames.pop() {
            Some(newest) => {
                self.last_frame = Some(newest);
                Display::LastFrame
            },
            None => {
                if self.last_frame.is_some() {
                    Display::LastFrame
                } else {
                    Display::Black { width: self.preview_width, height: self.preview_height }
                }
            },
        }
    }

    /// Takes in the one-shot capability report while it is awaited.
    pub fn poll_gpu_info(&mut self, msg: Option<GpuInfoMsg>)
        ensures
            *final(self) == gpu_spec(*old(self), msg),
    {
        if self.awaiting_gpu_info {
            if let Some(m) = msg {
                self.gpu_info = Some(m.gpu_name);
                self.gpu_decode_active = m.nvdec_active;
                self.awaiting_gpu_info = false;
            }
        }
    }

    /// One UI update; never blocks. `frames` is everything drained from the
    /// frame channel, `disconnected` whether the worker closed it, `gpu_msg`
    /// what the capability channel held.
    ///
    /// Playing: media time follows the wall clock (pausing at the end), the
    /// newest frame is shown, and another repaint is requested. Paused or
    /// loading: the newest frame is shown. Idle: the test pattern. Error:
    /// the error pattern, and frames are ignored. A closed frame channel
    /// while the pipeline runs is fatal.
    pub fn update(
        &mut self,
        now_us: u64,
        frames: Vec<DecodedFrame>,
        disconnected: bool,
        gpu_msg: Option<GpuInfoMsg>,
    ) -> (r: UpdateOutcome)
        ensures
            ({
                let g = gpu_spec(*old(self), gpu_msg);
                let p = drained_spec(g, now_us, frames@);
                &&& (old(self).state is Playing || old(self).state is Paused || old(self).state is Loading) ==> {
                    &&& r.display == poll_display(g, frames@)
                    &&& r.repaint == (old(self).state is Playing)
                    &&& r.command == (if old(self).state is Playing { tick_command(g, now_us) } else { None })
                    &&& (disconnected && p.pipeline_active) ==> *final(self) == failed_spec(p, final(self).state)
                        && (final(self).state matches EngineState::Error(m) && m@ == worker_gone_message())
                    &&& !(disconnected && p.pipeline_active) ==> *final(self) == p
                }
                &&& old(self).state is Idle ==> *final(self) == g && r.repaint && r.command is None
                    && r.display == (Display::TestPattern { width: g.preview_width, height: g.preview_height })
                &&& old(self).state is Error ==> *final(self) == g && !r.repaint && r.command is None
                    && r.display == (Display::ErrorPattern { width: g.preview_width, height: g.preview_height })
            }),
    {
        self.poll_gpu_info(gpu_msg);
        match self.state {
            EngineState::Playing => {
                let command = self.tick(now_us);
                let display = self.poll_frames(frames);
                self.check_channel(disconnected);
                UpdateOutcome { display, command, repaint: true }
            },
            EngineState::Paused | EngineState::Loading => {
                let display = self.poll_frames(frames);
                self.check_channel(disconnected);
                UpdateOutcome { display, command: None, repaint: false }
            },
            EngineState::Idle => UpdateOutcome {
                display: Display::TestPattern { width: self.preview_width, height: self.preview_height },
                command: None,
                repaint: true,
            },
            EngineState::Error(_) => UpdateOutcome {
                display: Display::ErrorPattern { width: self.preview_width, height: self.preview_height },
                command: None,
                repaint: false,
            },
        }
    }

    fn check_channel(&mut self, disconnected: bool)
        ensures
            disconnected && old(self).pipeline_active ==> *final(self) == failed_spec(*old(self), final(self).state)
                && (final(self).state matches EngineState::Error(m) && m@ == worker_gone_message()),
            !(disconnected && old(self).pipeline_active) ==> *final(self) == *old(self),
    {
        if disconnected && self.pipeline_active {
            self.fail(String::from_str("decode worker stopped"));
        }
    }
}


/// After a seek the media time lies in `[0, duration]`.
pub proof fn lemma_seek_within_file(e: EngineOrchestrator, t: i64, now: u64)
    requires
        !(e.state is Error),
    ensures
        0 <= seek_spec(e, t, now).current_time_us <= duration_of(e),
        seek_spec(e, t, now).state == e.state,
{
}

/// From `Paused`, `play` then `pause` leaves the media time as it was and
/// returns to `Paused`.
pub proof fn lemma_play_then_pause_keeps_time(e: EngineOrchestrator, now: u64)
    requires
        e.state is Paused,
    ensures
        pause_spec(play_spec(e, now)).current_time_us == e.current_time_us,
        pause_spec(play_spec(e, now)).state == EngineState::Paused,
        pause_spec(play_spec(e, now)).anchor_instant_us is None,
        pause_spec(play_spec(e, now)).file_info == e.file_info,
{
}

/// From `Playing`, `pause` then `play` resumes playing at the same media
/// time, anchored at that time.
pub proof fn lemma_pause_then_play_resumes(e: EngineOrchestrator, now: u64)
    requires
        e.state is Playing,
    ensures
        play_spec(pause_spec(e), now).state == EngineState::Playing,
        play_spec(pause_spec(e), now).current_time_us == e.current_time_us,
        play_spec(pause_spec(e), now).anchor_time_us == e.current_time_us,
        play_spec(pause_spec(e), now).anchor_instant_us == Some(now),
        play_spec(pause_spec(e), now).file_info == e.file_info,
        play_spec(pause_spec(e), now).last_frame == e.last_frame,
{
}

/// Seeking twice to the same time is the same as seeking once.
pub proof fn lemma_seek_idempotent(e: EngineOrchestrator, t: i64, now: u64)
    ensures
        seek_spec(seek_spec(e, t, now), t, now) == seek_spec(e, t, now),
{
}

/// Opening a file always ends in `Paused` with the file's metadata once the
/// worker runs (the alternative is `fail`, which enters `Error`).
pub proof fn lemma_open_reaches_paused(e: EngineOrchestrator, info: FileInfo)
    ensures
        started_spec(open_spec(e, info)).state == EngineState::Paused,
        started_spec(open_spec(e, info)).file_info == Some(info),
        started_spec(open_spec(e, info)).current_time_us == 0,
{
}

/// Stopping and re-opening a file starts from the same playback state as
/// any other open of that file: time 0, no anchor, no cached frame.
pub proof fn lemma_reopen_starts_fresh(e1: EngineOrchestrator, e2: EngineOrchestrator, info: FileInfo)
    ensures
        open_spec(stop_spec(e1), info).state == open_spec(e2, info).state,
        open_spec(stop_spec(e1), info).file_info == open_spec(e2, info).file_info,
        open_spec(stop_spec(e1), info).current_time_us == open_spec(e2, info).current_time_us,
        open_spec(stop_spec(e1), info).anchor_instant_us == open_spec(e2, info).anchor_instant_us,
        open_spec(stop_spec(e1), info).last_frame == open_spec(e2, info).last_frame,
        open_spec(stop_spec(e1), info).pipeline_active == open_spec(e2, info).pipeline_active,
{
}


/// The engine after seeking to each time of `ts` in turn.
pub open spec fn seeks_spec(e: EngineOrchestrator, ts: Seq<i64>, now: u64) -> EngineOrchestrator
    decreases ts.len(),
{
    if ts.len() == 0 { e } else { seek_spec(seeks_spec(e, ts.drop_last(), now), ts.last(), now) }
}

proof fn lemma_seeks_keep_file(e: EngineOrchestrator, ts: Seq<i64>, now: u64)
    ensures
        seeks_spec(e, ts, now).state == e.state,
        seeks_spec(e, ts, now).file_info == e.file_info,
    decreases ts.len(),
{
    if ts.len() > 0 {
        lemma_seeks_keep_file(e, ts.drop_last(), now);
    }
}

/// After any run of seeks (outside `Error`) the media time is the last
/// target clamped to the file, and the state is unchanged.
pub proof fn lemma_last_seek_wins(e: EngineOrchestrator, ts: Seq<i64>, now: u64)
    requires
        ts.len() > 0,
        !(e.state is Error),
    ensures
        seeks_spec(e, ts, now).current_time_us == clamp_time(ts.last() as int, duration_of(e)),
        seeks_spec(e, ts, now).state == e.state,
{
    lemma_seeks_keep_file(e, ts, now);
    lemma_seeks_keep_file(e, ts.drop_last(), now);
}

/// A worker setup failure with a fatal error ends the open in `Error`
/// with no pipeline; a successful one in `Paused` with the file loaded.
pub proof fn lemma_open_settles(e: EngineOrchestrator, info: FileInfo, msg: EngineState)
    requires
        msg is Error,
    ensures
        started_spec(open_spec(e, info)).state == EngineState::Paused,
        failed_spec(open_spec(e, info), msg).state is Error,
        !failed_spec(open_spec(e, info), msg).pipeline_active,
{
}

} // verus!
