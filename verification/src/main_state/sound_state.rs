//! The playback mode of a session.

use vstd::prelude::*;

use crate::time::{Frames, Seconds};

verus! {

/// What the audio engine reports of a sound that was started.
#[derive(Debug, Clone, Copy, PartialEq, Eq, Hash, Structural)]
pub enum PlaybackState {
    /// The sound is playing.
    Playing,
    /// The sound is fading out to a pause.
    Pausing,
    /// The sound is paused.
    Paused,
    /// The sound is fading out to a stop.
    Stopping,
    /// The sound has ended and cannot be played again.
    Stopped,
}

/// The mode a session is in. Exactly one is active at a time, and a change
/// of mode replaces the whole value.
#[derive(Debug, Clone, Copy, PartialEq, Eq, Hash, Structural)]
pub enum SoundState {
    /// A loaded sound waits to be played from `start_position`.
    Stopped { start_position: Seconds },
    /// A sound was started. While `in_progress_seek` holds a target, the
    /// engine has been told to seek there and has not yet arrived.
    PlayingOrPaused { in_progress_seek: Option<Seconds> },
    /// An export writes the frames from `start_frame` to `end_frame` to the
    /// encoder; `current_frame` is the next frame to write.
    Rendering { start_frame: u64, end_frame: u64, current_frame: u64 },
}

impl SoundState {
    /// Whether sound is being played: only a started sound that the engine
    /// reports as playing is.
    pub open spec fn spec_playing(&self, reported: PlaybackState) -> bool {
        *self is PlayingOrPaused && reported == PlaybackState::Playing
    }

    /// Whether sound is being played. `reported` is the engine's state of
    /// the started sound; it is not looked at in the other modes.
    #[verifier::when_used_as_spec(spec_playing)]
    pub fn playing(&self, reported: PlaybackState) -> (playing: bool)
        ensures
            playing == self.spec_playing(reported),
    {
        match self {
            SoundState::Stopped { .. } => false,
            SoundState::PlayingOrPaused { .. } => reported == PlaybackState::Playing,
            SoundState::Rendering { .. } => false,
        }
    }

    /// The position the session is at: where playback will start, the
    /// target of a seek in progress or else the engine's position, or the
    /// start of the frame an export is at.
    pub open spec fn spec_current_position(&self, reported: Seconds, frame_rate: u64) -> Seconds {
        match *self {
            SoundState::Stopped { start_position } => start_position,
            SoundState::PlayingOrPaused { in_progress_seek } => match in_progress_seek {
                Some(target) => target,
                None => reported,
            },
            SoundState::Rendering { current_frame, .. } => Frames(current_frame).to_seconds(
                frame_rate,
            ),
        }
    }

    /// The position the session is at. `reported` is the engine's position
    /// of the started sound; it counts only while a sound is started and no
    /// seek is in progress.
    #[verifier::when_used_as_spec(spec_current_position)]
    pub fn current_position(&self, reported: Seconds, frame_rate: u64) -> (position: Seconds)
        requires
            *self is Rendering ==> frame_rate > 0,
        ensures
            position == self.spec_current_position(reported, frame_rate),
    {
        match self {
            SoundState::Stopped { start_position } => *start_position,
            SoundState::PlayingOrPaused { in_progress_seek } => match in_progress_seek {
                Some(target) => *target,
                None => reported,
            },
            SoundState::Rendering { current_frame, .. } => Frames(*current_frame).to_seconds(
                frame_rate,
            ),
        }
    }

    /// The frame the session is at. An export's frame counter is taken as
    /// it is; every other position is shown as the first frame that begins
    /// at or after it.
    pub open spec fn spec_current_frame(&self, reported: Seconds, frame_rate: u64) -> u64 {
        match *self {
            SoundState::Rendering { current_frame, .. } => current_frame,
            _ => self.spec_current_position(reported, frame_rate).to_frames(frame_rate).0,
        }
    }

    /// The frame the session is at.
    #[verifier::when_used_as_spec(spec_current_frame)]
    pub fn current_frame(&self, reported: Seconds, frame_rate: u64) -> (frame: u64)
        ensures
            frame == self.spec_current_frame(reported, frame_rate),
    {
        match self {
            SoundState::Rendering { current_frame, .. } => *current_frame,
            _ => self.current_position(reported, frame_rate).to_frames(frame_rate).0,
        }
    }
}

} // verus!
