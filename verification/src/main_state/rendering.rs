//! The export: which frames it spans and how it steps through them.

use vstd::prelude::*;

use super::{Command, MainState, SoundState};
use crate::text::{decimal, decimal_string, seconds_string, seconds_text};
use crate::time::{Frames, Seconds};

verus! {

impl MainState {
    /// The first and the last frame of an export under the current
    /// settings. With chapters it runs from the start of the start chapter
    /// to the end of the end chapter, which for the last chapter is the end
    /// of the track; without chapters it is the whole track.
    pub open spec fn spec_rendering_range(&self) -> (u64, u64) {
        match self.chapters {
            Some(chapters) => {
                let start = self.rendering_settings.start_chapter_index as int;
                let next = self.rendering_settings.end_chapter_index + 1;
                (
                    chapters.0@[start].start_frame,
                    if next < chapters.0@.len() {
                        (chapters.0@[next].start_frame - 1) as u64
                    } else {
                        self.num_frames
                    },
                )
            },
            None => (0, self.num_frames),
        }
    }

    /// The first and the last frame of an export under the current
    /// settings.
    #[verifier::when_used_as_spec(spec_rendering_range)]
    pub fn rendering_range(&self) -> (range: (u64, u64))
        requires
            self.wf(),
        ensures
            range == self.spec_rendering_range(),
    {
        match &self.chapters {
            Some(chapters) => {
                let start_frame = chapters.0[self.rendering_settings.start_chapter_index].start_frame;
                let end_frame = match chapters.end_frame(
                    self.rendering_settings.end_chapter_index,
                ) {
                    Some(end_frame) => end_frame,
                    None => self.num_frames,
                };
                (start_frame, end_frame)
            },
            None => (0, self.num_frames),
        }
    }

    /// The command line of the encoder for an export under the current
    /// settings, written to `video_path`. The encoder reads raw frames of
    /// four bytes per pixel, in the session's resolution and frame rate, from
    /// its standard input; reads the audio file from the position at which
    /// the export begins; and ends the video with the shorter of the two.
    pub open spec fn spec_encoder_arguments(&self, video_path: Seq<char>) -> Seq<Seq<char>> {
        let start_time = Frames(self.spec_rendering_range().0).to_seconds(self.frame_rate);
        seq![
            "-y"@,
            "-f"@,
            "rawvideo"@,
            "-vcodec"@,
            "rawvideo"@,
            "-s"@,
            decimal(self.video_resolution.width as nat) + "x"@ + decimal(
                self.video_resolution.height as nat,
            ),
            "-pix_fmt"@,
            "rgba"@,
            "-r"@,
            decimal(self.frame_rate as nat),
            "-i"@,
            "-"@,
            "-ss"@,
            seconds_text(start_time),
            "-i"@,
            self.audio_path@,
            "-b:a"@,
            "320k"@,
            "-c:v"@,
            "libx264"@,
            "-r"@,
            decimal(self.frame_rate as nat),
            "-shortest"@,
            video_path,
        ]
    }

    /// The command line of the encoder for an export under the current
    /// settings, written to `video_path`.
    pub fn encoder_arguments(&self, video_path: &str) -> (arguments: Vec<String>)
        requires
            self.wf(),
        ensures
            arguments.deep_view() == self.spec_encoder_arguments(video_path@),
    {
        let (start_frame, _) = self.rendering_range();
        let start_time = Frames(start_frame).to_seconds(self.frame_rate);
        let mut size = decimal_string(self.video_resolution.width as u128);
        size.append("x");
        let height = decimal_string(self.video_resolution.height as u128);
        size.append(height.as_str());
        let mut arguments: Vec<String> = Vec::new();
        arguments.push(String::from_str("-y"));
        arguments.push(String::from_str("-f"));
        arguments.push(String::from_str("rawvideo"));
        arguments.push(String::from_str("-vcodec"));
        arguments.push(String::from_str("rawvideo"));
        arguments.push(String::from_str("-s"));
        arguments.push(size);
        arguments.push(String::from_str("-pix_fmt"));
        arguments.push(String::from_str("rgba"));
        arguments.push(String::from_str("-r"));
        arguments.push(decimal_string(self.frame_rate as u128));
        arguments.push(String::from_str("-i"));
        arguments.push(String::from_str("-"));
        arguments.push(String::from_str("-ss"));
        arguments.push(seconds_string(start_time));
        arguments.push(String::from_str("-i"));
        arguments.push(self.audio_path.clone());
        arguments.push(String::from_str("-b:a"));
        arguments.push(String::from_str("320k"));
        arguments.push(String::from_str("-c:v"));
        arguments.push(String::from_str("libx264"));
        arguments.push(String::from_str("-r"));
        arguments.push(decimal_string(self.frame_rate as u128));
        arguments.push(String::from_str("-shortest"));
        arguments.push(String::from_str(video_path));
        assert(arguments.deep_view() =~= self.spec_encoder_arguments(video_path@));
        arguments
    }

    /// The number of bytes of one frame as the encoder takes it: four for
    /// each pixel.
    pub open spec fn frame_bytes(&self) -> nat {
        (self.video_resolution.width * self.video_resolution.height * 4) as nat
    }

    /// A buffer for the pixels of one frame, all zero: the one buffer that
    /// an export reads every frame into. There is none where a frame has
    /// more bytes than a buffer can hold.
    pub fn new_readback_buffer(&self) -> (buffer: Option<Vec<u8>>)
        ensures
            match buffer {
                Some(bytes) => {
                    &&& bytes@.len() == self.frame_bytes()
                    &&& forall|i: int| 0 <= i < bytes@.len() ==> bytes@[i] == 0
                },
                None => self.frame_bytes() > usize::MAX,
            },
    {
        let width = self.video_resolution.width as u128;
        let height = self.video_resolution.height as u128;
        assert(width * height * 4 <= 0xffff_ffff * 0xffff_ffff * 4) by (nonlinear_arith)
            requires
                0 <= width <= 0xffff_ffff,
                0 <= height <= 0xffff_ffff,
        ;
        let bytes: u128 = width * height * 4;
        if bytes > usize::MAX as u128 {
            None
        } else {
            Some(vec![0u8; bytes as usize])
        }
    }

    /// Enters the export: the session renders the frames of
    /// [`rendering_range`](Self::rendering_range), beginning with the first.
    pub fn render(&mut self)
        requires
            old(self).wf(),
        ensures
            final(self).wf(),
            *final(self) == (MainState {
                mode: SoundState::Rendering {
                    start_frame: old(self).rendering_range().0,
                    end_frame: old(self).rendering_range().1,
                    current_frame: old(self).rendering_range().0,
                },
                ..*old(self)
            }),
    {
        let (start_frame, end_frame) = self.rendering_range();
        self.mode = SoundState::Rendering { start_frame, end_frame, current_frame: start_frame };
    }

    /// Leaves the export, or whatever mode the session is in: the session
    /// is stopped at the start of the track. This is for the moment at which
    /// the sound has been loaded afresh.
    pub fn stop_rendering(&mut self)
        ensures
            *final(self) == (MainState {
                mode: SoundState::Stopped { start_position: Seconds { whole: 0, fraction: 0 } },
                ..*old(self)
            }),
    {
        self.mode = SoundState::Stopped { start_position: Seconds { whole: 0, fraction: 0 } };
    }

    /// Whether an export ends with the frame it is at: the encoder did not
    /// take the frame, or it was the last frame.
    pub open spec fn export_ends(&self, written: bool) -> bool {
        match self.mode {
            SoundState::Rendering { end_frame, current_frame, .. } => !written || current_frame
                >= end_frame,
            _ => false,
        }
    }

    /// The session after the frame of a tick went to the encoder, `written`
    /// saying whether the encoder took it. An export that goes on is at the
    /// next frame. One that ends stays where it is until the sound has been
    /// loaded afresh, and outside an export nothing changes.
    pub open spec fn after_frame_written(self, written: bool) -> MainState {
        match self.mode {
            SoundState::Rendering { start_frame, end_frame, current_frame } => if self.export_ends(
                written,
            ) {
                self
            } else {
                MainState {
                    mode: SoundState::Rendering {
                        start_frame,
                        end_frame,
                        current_frame: (current_frame + 1) as u64,
                    },
                    ..self
                }
            },
            _ => self,
        }
    }

    /// The end of one tick of an export: the frame that was drawn went to
    /// the encoder, and `written` says whether the encoder took it. Where
    /// the export ends, the encoder has to be released and the sound loaded
    /// afresh; the session is stopped once that is done.
    pub fn frame_written(&mut self, written: bool) -> (command: Option<Command>)
        ensures
            *final(self) == old(self).after_frame_written(written),
            command == if old(self).export_ends(written) {
                Some(Command::Reload)
            } else {
                None
            },
    {
        match self.mode {
            SoundState::Rendering { start_frame, end_frame, current_frame } => {
                if !written || current_frame >= end_frame {
                    Some(Command::Reload)
                } else {
                    self.mode = SoundState::Rendering {
                        start_frame,
                        end_frame,
                        current_frame: current_frame + 1,
                    };
                    None
                }
            },
            _ => None,
        }
    }

    /// The session after one tick of an export in which the engine reports
    /// `position`, the visualizer draws what it is asked to, the encoder
    /// takes the frame and, where the export ends, the sound is loaded.
    pub open spec fn after_export_tick(self, position: Seconds) -> MainState {
        let drawn = self.after_draw(position);
        if drawn.export_ends(true) {
            drawn.after_performed(Command::Reload)
        } else {
            drawn.after_frame_written(true)
        }
    }
}

/// An export neither skips nor repeats a frame: the tick after a frame that
/// the encoder took draws the frame that follows it.
pub proof fn lemma_export_draws_next_frame(
    state: MainState,
    position: Seconds,
    next_position: Seconds,
)
    requires
        state.mode is Rendering,
        !state.export_ends(true),
    ensures
        state.after_export_tick(position).frame_to_draw(next_position) == Some(
            (state.mode->current_frame + 1) as u64,
        ),
{
}

/// The session after one tick of an export for each of `positions`, the
/// position that the engine reports in that tick.
pub open spec fn after_export_ticks(state: MainState, positions: Seq<Seconds>) -> MainState
    decreases positions.len(),
{
    if positions.len() == 0 {
        state
    } else {
        after_export_ticks(state, positions.drop_last()).after_export_tick(positions.last())
    }
}

/// How many of the ticks of [`after_export_ticks`] have the visualizer draw.
pub open spec fn draws_in_export_ticks(state: MainState, positions: Seq<Seconds>) -> nat
    decreases positions.len(),
{
    if positions.len() == 0 {
        0
    } else {
        let before = after_export_ticks(state, positions.drop_last());
        let drawn: nat = if before.frame_to_draw(positions.last()) is Some {
            1
        } else {
            0
        };
        draws_in_export_ticks(state, positions.drop_last()) + drawn
    }
}

/// An export steps through its frames one tick at a time, whatever the
/// engine reports meanwhile. After `n` ticks it is `n` frames further; the
/// tick that writes the last frame ends it. Every tick draws, but for the
/// first where the frame at which the export begins is the frame that was
/// drawn last.
pub proof fn lemma_export_runs_frame_by_frame(state: MainState, positions: Seq<Seconds>)
    requires
        state.mode is Rendering,
        state.mode->current_frame <= state.mode->end_frame,
        positions.len() <= state.mode->end_frame - state.mode->current_frame + 1,
    ensures
        positions.len() <= state.mode->end_frame - state.mode->current_frame ==> after_export_ticks(
            state,
            positions,
        ).mode == (SoundState::Rendering {
            start_frame: state.mode->start_frame,
            end_frame: state.mode->end_frame,
            current_frame: (state.mode->current_frame + positions.len()) as u64,
        }),
        positions.len() == state.mode->end_frame - state.mode->current_frame + 1
            ==> after_export_ticks(state, positions).mode == (SoundState::Stopped {
            start_position: Seconds { whole: 0, fraction: 0 },
        }),
        positions.len() > 0 ==> after_export_ticks(state, positions).previous_frame == Some(
            (state.mode->current_frame + positions.len() - 1) as u64,
        ),
        draws_in_export_ticks(state, positions) == if positions.len() > 0 && state.previous_frame
            == Some(state.mode->current_frame) {
            positions.len() - 1
        } else {
            positions.len() as int
        },
    decreases positions.len(),
{
    if positions.len() > 0 {
        lemma_export_runs_frame_by_frame(state, positions.drop_last());
    }
}

/// An export of a new session draws every frame it writes: as many frames
/// as its span holds, the first among them.
pub proof fn lemma_export_of_new_session_draws_every_frame(
    state: MainState,
    positions: Seq<Seconds>,
)
    requires
        state.previous_frame is None,
        state.mode is Rendering,
        state.mode->current_frame <= state.mode->end_frame,
        positions.len() == state.mode->end_frame - state.mode->current_frame + 1,
    ensures
        draws_in_export_ticks(state, positions) == state.mode->end_frame
            - state.mode->current_frame + 1,
{
    lemma_export_runs_frame_by_frame(state, positions);
}

} // verus!
