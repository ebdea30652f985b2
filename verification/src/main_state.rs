//! The session: its playback mode and everything that decides how the mode
//! changes.
//!
//! A session never touches the audio engine itself. Each operation changes
//! the session and hands back the command, if any, that the caller has to
//! carry out on the engine; what the engine reports comes in as arguments.

use vstd::prelude::*;

use crate::chapters::Chapters;
use crate::time::{Frames, Seconds};

pub mod chapters;
pub mod rendering;
pub mod sound_state;
pub mod ui;

pub use sound_state::{PlaybackState, SoundState};

verus! {

/// The frame rate of a visualizer that names none.
pub const DEFAULT_FRAME_RATE: u64 = 60;

/// The width of the video of a visualizer that names no resolution.
pub const DEFAULT_VIDEO_WIDTH: u32 = 3840;

/// The height of the video of a visualizer that names no resolution.
pub const DEFAULT_VIDEO_HEIGHT: u32 = 2160;

/// How far, in units of 2^-64 s, the engine's position may be from the
/// target of a seek for the seek to count as finished: a tenth of a second.
pub const FINISHED_SEEK_DETECTION_THRESHOLD: u64 = 1_844_674_407_370_955_161;

/// Whether a seek to `target` counts as finished once the engine reports
/// `reported`: the two are no further apart than the threshold.
pub open spec fn seek_finished(target: Seconds, reported: Seconds) -> bool {
    -FINISHED_SEEK_DETECTION_THRESHOLD <= reported.ticks() - target.ticks()
        <= FINISHED_SEEK_DETECTION_THRESHOLD
}

/// The size of the video, in pixels.
#[derive(Debug, Clone, Copy, PartialEq, Eq, Hash, Structural)]
pub struct Resolution {
    pub width: u32,
    pub height: u32,
}

/// The span of an export: from the start of one chapter to the end of
/// another. Without chapters the whole track is exported.
#[derive(Debug, Clone, Copy, PartialEq, Eq, Hash, Structural)]
pub struct RenderingSettings {
    pub start_chapter_index: usize,
    pub end_chapter_index: usize,
}

impl Default for RenderingSettings {
    fn default() -> (settings: RenderingSettings)
        ensures
            settings == (RenderingSettings { start_chapter_index: 0, end_chapter_index: 0 }),
    {
        RenderingSettings { start_chapter_index: 0, end_chapter_index: 0 }
    }
}

/// What the caller has to do to the audio engine. The session takes no
/// command for done: once the engine has done its part, the caller says so
/// with [`MainState::performed`], and only then does the session change.
#[derive(Debug, Clone, Copy, PartialEq, Eq, Hash, Structural)]
pub enum Command {
    /// Start the loaded sound at `start_position`.
    Play { start_position: Seconds },
    /// Resume the started sound.
    Resume,
    /// Pause the started sound.
    Pause,
    /// Tell the started sound to seek to `position`.
    Seek { position: Seconds },
    /// The started sound has ended or an export is over: release what the
    /// mode holds and load the sound afresh.
    Reload,
}

/// What a visualizer is told of the session when it is called.
#[derive(Debug, Clone, Copy, PartialEq, Eq, Hash, Structural)]
pub struct VisualizerInfo {
    pub resolution: Resolution,
    pub current_frame: u64,
    pub current_time: Seconds,
    pub current_chapter_index: Option<usize>,
}

/// A session.
#[derive(Debug, Clone, PartialEq, Eq)]
pub struct MainState {
    /// The audio file, played back and handed to the encoder.
    pub audio_path: String,
    /// Frames per second, fixed for the life of the session.
    pub frame_rate: u64,
    pub video_resolution: Resolution,
    pub mode: SoundState,
    /// The last frame of the track.
    pub num_frames: u64,
    /// The frame that the visualizer drew last; `None` until it has drawn.
    pub previous_frame: Option<u64>,
    /// The chapters of the track; `None` where it has none.
    pub chapters: Option<Chapters>,
    pub rendering_settings: RenderingSettings,
    pub show_rendering_window: bool,
}

/// Computes [`seek_finished`].
fn has_arrived(target: Seconds, reported: Seconds) -> (arrived: bool)
    ensures
        arrived == seek_finished(target, reported),
{
    let not_late = match target.later_by(FINISHED_SEEK_DETECTION_THRESHOLD) {
        Some(latest) => reported.is_at_most(latest),
        None => true,
    };
    let not_early = match reported.later_by(FINISHED_SEEK_DETECTION_THRESHOLD) {
        Some(latest) => target.is_at_most(latest),
        None => true,
    };
    not_late && not_early
}

impl MainState {
    /// The frame rate is positive; chapters, where there are any, begin at
    /// frame 0 and each after the one before; and the export settings name
    /// chapters that exist.
    pub open spec fn wf(&self) -> bool {
        &&& self.frame_rate > 0
        &&& match self.chapters {
            Some(chapters) => {
                &&& chapters.0@.len() > 0
                &&& chapters.wf()
                &&& chapters.0@[0].start_frame == 0
                &&& self.rendering_settings.start_chapter_index < chapters.0@.len()
                &&& self.rendering_settings.end_chapter_index < chapters.0@.len()
            },
            None => true,
        }
    }

    /// A session for a track of length `duration`, stopped at its start. It
    /// has chapters only where `chapters` holds any, and its export settings
    /// span all of them.
    pub fn new(
        audio_path: String,
        frame_rate: u64,
        video_resolution: Resolution,
        chapters: Chapters,
        duration: Seconds,
    ) -> (state: MainState)
        requires
            frame_rate > 0,
            chapters.0@.len() > 0 ==> chapters.wf() && chapters.0@[0].start_frame == 0,
        ensures
            state.wf(),
            state == (MainState {
                audio_path,
                frame_rate,
                video_resolution,
                mode: SoundState::Stopped { start_position: Seconds { whole: 0, fraction: 0 } },
                num_frames: duration.to_frames(frame_rate).0,
                previous_frame: None,
                chapters: if chapters.0@.len() == 0 {
                    None
                } else {
                    Some(chapters)
                },
                rendering_settings: RenderingSettings {
                    start_chapter_index: 0,
                    end_chapter_index: if chapters.0@.len() == 0 {
                        0
                    } else {
                        (chapters.0@.len() - 1) as usize
                    },
                },
                show_rendering_window: false,
            }),
    {
        let num_frames = duration.to_frames(frame_rate).0;
        let count = chapters.len();
        let (chapters, rendering_settings) = if count == 0 {
            (None, RenderingSettings::default())
        } else {
            (
                Some(chapters),
                RenderingSettings { start_chapter_index: 0, end_chapter_index: count - 1 },
            )
        };
        MainState {
            audio_path,
            frame_rate,
            video_resolution,
            mode: SoundState::Stopped { start_position: Seconds { whole: 0, fraction: 0 } },
            num_frames,
            previous_frame: None,
            chapters,
            rendering_settings,
            show_rendering_window: false,
        }
    }

    /// Whether the session is as [`wf`](Self::wf) asks.
    pub fn is_well_formed(&self) -> (well_formed: bool)
        ensures
            well_formed == self.wf(),
    {
        if self.frame_rate == 0 {
            return false;
        }
        match &self.chapters {
            Some(chapters) => {
                let count = chapters.len();
                count > 0 && chapters.0[0].start_frame == 0 && chapters.is_strictly_increasing()
                    && self.rendering_settings.start_chapter_index < count
                    && self.rendering_settings.end_chapter_index < count
            },
            None => true,
        }
    }

    /// Whether an export is running.
    pub fn is_rendering(&self) -> (rendering: bool)
        ensures
            rendering == self.mode is Rendering,
    {
        match self.mode {
            SoundState::Rendering { .. } => true,
            _ => false,
        }
    }

    /// Whether sound is being played, given the engine's state of the
    /// started sound.
    pub fn playing(&self, reported: PlaybackState) -> (playing: bool)
        ensures
            playing == self.mode.playing(reported),
    {
        self.mode.playing(reported)
    }

    /// The frame the session is at, given the engine's position of the
    /// started sound.
    pub fn current_frame(&self, reported: Seconds) -> (frame: u64)
        ensures
            frame == self.mode.current_frame(reported, self.frame_rate),
    {
        self.mode.current_frame(reported, self.frame_rate)
    }

    /// What a visualizer is told of the session: the size of the video, the
    /// frame and the position the session is at, and the chapter it is in.
    pub fn visualizer_info(&self, reported: Seconds) -> (info: VisualizerInfo)
        requires
            self.wf(),
        ensures
            info == (VisualizerInfo {
                resolution: self.video_resolution,
                current_frame: self.mode.current_frame(reported, self.frame_rate),
                current_time: self.mode.current_position(reported, self.frame_rate),
                current_chapter_index: self.current_chapter_index(reported),
            }),
    {
        VisualizerInfo {
            resolution: self.video_resolution,
            current_frame: self.current_frame(reported),
            current_time: self.mode.current_position(reported, self.frame_rate),
            current_chapter_index: self.current_chapter_index(reported),
        }
    }

    /// What the engine has to do for the session to play: start the loaded
    /// sound where the session was stopped, or resume the started one.
    pub fn play_or_resume(&self) -> (command: Command)
        requires
            !(self.mode is Rendering),
        ensures
            command == match self.mode {
                SoundState::Stopped { start_position } => Command::Play { start_position },
                _ => Command::Resume,
            },
    {
        match self.mode {
            SoundState::Stopped { start_position } => Command::Play { start_position },
            _ => Command::Resume,
        }
    }

    /// What the engine has to do for the session to pause: pause the
    /// started sound. There is nothing to pause while the session is
    /// stopped.
    pub fn pause(&self) -> (command: Option<Command>)
        requires
            !(self.mode is Rendering),
        ensures
            command == if self.mode is PlayingOrPaused {
                Some(Command::Pause)
            } else {
                None
            },
    {
        match self.mode {
            SoundState::PlayingOrPaused { .. } => Some(Command::Pause),
            _ => None,
        }
    }

    /// The command of a toggle of playback. A stopped session starts its
    /// sound where it was stopped; a started sound is paused where the
    /// engine reports it as playing, and resumed where it does not.
    pub open spec fn toggle_command(&self, reported: PlaybackState) -> Command {
        match self.mode {
            SoundState::Stopped { start_position } => Command::Play { start_position },
            _ => if reported == PlaybackState::Playing {
                Command::Pause
            } else {
                Command::Resume
            },
        }
    }

    /// What the engine has to do on a toggle of playback: pause where sound
    /// is being played, and play or resume where it is not.
    pub fn toggle_playback(&self, reported: PlaybackState) -> (command: Command)
        requires
            !(self.mode is Rendering),
        ensures
            command == self.toggle_command(reported),
    {
        if self.playing(reported) {
            Command::Pause
        } else {
            self.play_or_resume()
        }
    }

    /// The session after a seek to `position` was asked for: a stopped
    /// session will start from there. A started sound has to seek first, so
    /// the session stays as it is until the engine has taken the command.
    pub open spec fn after_seek(self, position: Seconds) -> MainState {
        match self.mode {
            SoundState::Stopped { .. } => MainState {
                mode: SoundState::Stopped { start_position: position },
                ..self
            },
            _ => self,
        }
    }

    /// The command that goes with a seek to `position`: a started sound is
    /// told to seek, a stopped session has nothing to tell.
    pub open spec fn seek_command(&self, position: Seconds) -> Option<Command> {
        match self.mode {
            SoundState::Stopped { .. } => None,
            _ => Some(Command::Seek { position }),
        }
    }

    /// The session after a seek to `position` was asked for and the engine
    /// has taken the command that goes with it, if there is one.
    pub open spec fn after_seek_done(self, position: Seconds) -> MainState {
        match self.seek_command(position) {
            Some(command) => self.after_seek(position).after_performed(command),
            None => self.after_seek(position),
        }
    }

    /// Moves the session to `position`. A stopped session will start from
    /// there; for a started sound the engine has to seek.
    pub fn seek(&mut self, position: Seconds) -> (command: Option<Command>)
        requires
            !(old(self).mode is Rendering),
        ensures
            *final(self) == old(self).after_seek(position),
            command == old(self).seek_command(position),
    {
        match self.mode {
            SoundState::Stopped { .. } => {
                self.mode = SoundState::Stopped { start_position: position };
                None
            },
            _ => Some(Command::Seek { position }),
        }
    }

    /// The session after the engine has carried out `command`. A sound that
    /// was started leaves the session playing, with no seek in progress; a
    /// seek that the engine took is in progress; a sound that was loaded
    /// afresh leaves the session stopped at the start of the track. Resuming
    /// and pausing change nothing in the session.
    pub open spec fn after_performed(self, command: Command) -> MainState {
        match command {
            Command::Play { .. } => match self.mode {
                SoundState::Stopped { .. } => MainState {
                    mode: SoundState::PlayingOrPaused { in_progress_seek: None },
                    ..self
                },
                _ => self,
            },
            Command::Seek { position } => match self.mode {
                SoundState::PlayingOrPaused { .. } => MainState {
                    mode: SoundState::PlayingOrPaused { in_progress_seek: Some(position) },
                    ..self
                },
                _ => self,
            },
            Command::Reload => MainState {
                mode: SoundState::Stopped { start_position: Seconds { whole: 0, fraction: 0 } },
                ..self
            },
            _ => self,
        }
    }

    /// The engine has carried out `command`: the session takes the change
    /// that goes with it. Where the engine failed, this is not called, and
    /// the session stays as it was.
    pub fn performed(&mut self, command: Command)
        ensures
            *final(self) == old(self).after_performed(command),
    {
        match command {
            Command::Play { .. } => {
                if let SoundState::Stopped { .. } = self.mode {
                    self.mode = SoundState::PlayingOrPaused { in_progress_seek: None };
                }
            },
            Command::Seek { position } => {
                if let SoundState::PlayingOrPaused { .. } = self.mode {
                    self.mode = SoundState::PlayingOrPaused { in_progress_seek: Some(position) };
                }
            },
            Command::Reload => {
                self.stop_rendering();
            },
            _ => {},
        }
    }

    /// The frame to seek to for a step of `delta` frames from the current
    /// frame: that many frames further, held to the track.
    pub open spec fn seek_by_target(&self, position: Seconds, delta: i64) -> u64 {
        let target = self.mode.current_frame(position, self.frame_rate) + delta;
        if target < 0 {
            0
        } else if target > self.num_frames {
            self.num_frames
        } else {
            target as u64
        }
    }

    /// Seeks `delta` frames from the current frame, backward where `delta`
    /// is negative, and no further than the start and the end of the track.
    pub fn seek_by(&mut self, position: Seconds, delta: i64) -> (command: Option<Command>)
        requires
            old(self).frame_rate > 0,
            !(old(self).mode is Rendering),
        ensures
            *final(self) == old(self).after_seek(
                Frames(old(self).seek_by_target(position, delta)).to_seconds(old(self).frame_rate),
            ),
            command == old(self).seek_command(
                Frames(old(self).seek_by_target(position, delta)).to_seconds(old(self).frame_rate),
            ),
    {
        let target: i128 = self.current_frame(position) as i128 + delta as i128;
        let frame: u64 = if target < 0 {
            0
        } else if target > self.num_frames as i128 {
            self.num_frames
        } else {
            target as u64
        };
        self.seek(Frames(frame).to_seconds(self.frame_rate))
    }

    /// Seeks by the span `delta` from the current frame, backward where
    /// `delta` is negative: as many frames as the span holds, and no further
    /// than the start and the end of the track.
    pub fn seek_by_seconds(&mut self, position: Seconds, delta: Seconds) -> (command: Option<
        Command,
    >)
        requires
            old(self).frame_rate > 0,
            !(old(self).mode is Rendering),
        ensures
            *final(self) == old(self).after_seek(
                Frames(
                    old(self).seek_by_target(
                        position,
                        delta.to_signed_frames(old(self).frame_rate),
                    ),
                ).to_seconds(old(self).frame_rate),
            ),
            command == old(self).seek_command(
                Frames(
                    old(self).seek_by_target(
                        position,
                        delta.to_signed_frames(old(self).frame_rate),
                    ),
                ).to_seconds(old(self).frame_rate),
            ),
    {
        let delta_frames = delta.to_signed_frames(self.frame_rate);
        self.seek_by(position, delta_frames)
    }

    /// The mode after one tick in which the engine reports `position` of
    /// the started sound: a seek in progress is over once the engine has
    /// arrived at its target. The other modes do not change on a tick.
    pub open spec fn mode_after_update(mode: SoundState, position: Seconds) -> SoundState {
        match mode {
            SoundState::PlayingOrPaused { in_progress_seek: Some(target) } => if seek_finished(
                target,
                position,
            ) {
                SoundState::PlayingOrPaused { in_progress_seek: None }
            } else {
                mode
            },
            _ => mode,
        }
    }

    /// One tick: takes in what the engine reports of the started sound.
    /// Where the sound has ended, a fresh one has to be loaded, since the
    /// old one cannot be played again; the session is stopped once that is
    /// done.
    pub fn update(&mut self, position: Seconds, reported: PlaybackState) -> (command: Option<
        Command,
    >)
        ensures
            *final(self) == (MainState {
                mode: Self::mode_after_update(old(self).mode, position),
                ..*old(self)
            }),
            command == if old(self).mode is PlayingOrPaused && reported
                == PlaybackState::Stopped {
                Some(Command::Reload)
            } else {
                None
            },
    {
        match self.mode {
            SoundState::PlayingOrPaused { in_progress_seek } => {
                if let Some(target) = in_progress_seek {
                    if has_arrived(target, position) {
                        self.mode = SoundState::PlayingOrPaused { in_progress_seek: None };
                    }
                }
                if reported == PlaybackState::Stopped {
                    Some(Command::Reload)
                } else {
                    None
                }
            },
            _ => None,
        }
    }

    /// The frame the visualizer has to draw in a tick in which the engine
    /// reports `position`: the current frame, unless it is the frame that
    /// was drawn last.
    pub open spec fn spec_frame_to_draw(&self, position: Seconds) -> Option<u64> {
        let current = self.mode.current_frame(position, self.frame_rate);
        if self.previous_frame != Some(current) {
            Some(current)
        } else {
            None
        }
    }

    /// The frame the visualizer has to draw in this tick, if any.
    #[verifier::when_used_as_spec(spec_frame_to_draw)]
    pub fn frame_to_draw(&self, position: Seconds) -> (frame: Option<u64>)
        ensures
            frame == self.spec_frame_to_draw(position),
    {
        let current = self.current_frame(position);
        match self.previous_frame {
            Some(previous) if previous == current => None,
            _ => Some(current),
        }
    }

    /// The visualizer has drawn `frame`: the session remembers it as the
    /// frame drawn last. Where the visualizer failed, this is not called.
    pub fn frame_drawn(&mut self, frame: u64)
        ensures
            *final(self) == (MainState { previous_frame: Some(frame), ..*old(self) }),
    {
        self.previous_frame = Some(frame);
    }

    /// The session after the draw of a tick in which the visualizer drew
    /// what it was asked to.
    pub open spec fn after_draw(self, position: Seconds) -> MainState {
        match self.frame_to_draw(position) {
            Some(frame) => MainState { previous_frame: Some(frame), ..self },
            None => self,
        }
    }
}

/// A frame is drawn once: after a draw, a second draw at the same current
/// frame asks for nothing.
pub proof fn lemma_draw_once_per_frame(state: MainState, first: Seconds, second: Seconds)
    requires
        state.mode.current_frame(first, state.frame_rate) == state.mode.current_frame(
            second,
            state.frame_rate,
        ),
    ensures
        state.after_draw(first).frame_to_draw(second) is None,
{
}

/// A new session has drawn nothing, so its first tick draws, whatever frame
/// it is at.
pub proof fn lemma_first_tick_draws(state: MainState, position: Seconds)
    requires
        state.previous_frame is None,
    ensures
        state.frame_to_draw(position) == Some(
            state.mode.current_frame(position, state.frame_rate),
        ),
{
}

} // verus!
