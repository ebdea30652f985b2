//! What the controls show and what they do to the session.

use vstd::prelude::*;

use super::{Command, MainState, PlaybackState};
use crate::time::{Frames, Seconds};

verus! {

/// How far, in seconds, the arrow keys seek.
pub const SEEK_KEY_SECONDS: i64 = 10;

/// A key of the keyboard, as far as the session reacts to it.
#[derive(Debug, Clone, Copy, PartialEq, Eq, Hash, Structural)]
pub enum Key {
    Space,
    Left,
    Right,
    Comma,
    Period,
    /// Any other key.
    Other,
}

impl MainState {
    /// The frames between which the seek bar moves: the current chapter,
    /// from its first frame to its last, or the whole track where there are
    /// no chapters. The last chapter ends with the track.
    pub open spec fn spec_seekbar_range(&self, position: Seconds) -> (u64, u64) {
        match self.chapters {
            Some(chapters) => {
                let current = self.current_chapter_index(position).unwrap() as int;
                (
                    chapters.0@[current].start_frame,
                    if current + 1 < chapters.0@.len() {
                        (chapters.0@[current + 1].start_frame - 1) as u64
                    } else {
                        self.num_frames
                    },
                )
            },
            None => (0, self.num_frames),
        }
    }

    /// The frames between which the seek bar moves.
    #[verifier::when_used_as_spec(spec_seekbar_range)]
    pub fn seekbar_range(&self, position: Seconds) -> (range: (u64, u64))
        requires
            self.wf(),
        ensures
            range == self.spec_seekbar_range(position),
            self.chapters is Some ==> range.0 <= self.mode.current_frame(position, self.frame_rate),
    {
        let current_chapter_index = self.current_chapter_index(position);
        match (&self.chapters, current_chapter_index) {
            (Some(chapters), Some(current)) => {
                let start_frame = chapters.0[current].start_frame;
                let end_frame = match chapters.end_frame(current) {
                    Some(end_frame) => end_frame,
                    None => self.num_frames,
                };
                (start_frame, end_frame)
            },
            _ => (0, self.num_frames),
        }
    }

    /// The seek bar was let go at `frame`: the session seeks to the start
    /// of that frame. During an export the seek bar moves nothing.
    pub fn release_seekbar(&mut self, frame: u64) -> (command: Option<Command>)
        requires
            old(self).frame_rate > 0,
        ensures
            old(self).mode is Rendering ==> command is None && *final(self) == *old(self),
            !(old(self).mode is Rendering) ==> {
                &&& *final(self) == old(self).after_seek(
                    Frames(frame).to_seconds(old(self).frame_rate),
                )
                &&& command == old(self).seek_command(
                    Frames(frame).to_seconds(old(self).frame_rate),
                )
            },
    {
        if self.is_rendering() {
            None
        } else {
            self.seek(Frames(frame).to_seconds(self.frame_rate))
        }
    }

    /// What the play button says: what a press of it would do. During an
    /// export there is no play button.
    pub fn play_pause_button_text(&self, reported: PlaybackState) -> (text: Option<&'static str>)
        ensures
            text matches Some(label) ==> label@ == if self.mode.playing(reported) {
                "Pause"@
            } else {
                "Play"@
            },
            text is None <==> self.mode is Rendering,
    {
        if self.is_rendering() {
            None
        } else if self.playing(reported) {
            Some("Pause")
        } else {
            Some("Play")
        }
    }

    /// Whether the session takes `key` as it is. The keys that play, pause
    /// or seek need a session that is not exporting; a step to another
    /// chapter needs it only where there is a chapter to step to.
    pub open spec fn accepts_key(&self, key: Key, position: Seconds) -> bool {
        match key {
            Key::Space | Key::Left | Key::Right => !(self.mode is Rendering),
            Key::Comma => self.chapters is Some ==> !(self.mode is Rendering),
            Key::Period => self.next_chapter_index(position) is Some ==> !(self.mode is Rendering),
            Key::Other => true,
        }
    }

    /// A key was pressed. Space toggles playback, the arrows seek ten
    /// seconds back and forth, comma steps back a chapter and period steps
    /// forward a chapter; no other key does anything. `position` and
    /// `reported` are what the engine says of the started sound.
    pub fn event(&mut self, key: Key, position: Seconds, reported: PlaybackState) -> (command:
        Option<Command>)
        requires
            old(self).wf(),
            old(self).accepts_key(key, position),
        ensures
            final(self).wf(),
            key == Key::Space ==> {
                &&& command == Some(old(self).toggle_command(reported))
                &&& *final(self) == *old(self)
            },
            key == Key::Left ==> {
                let step = (Seconds { whole: -SEEK_KEY_SECONDS as i128, fraction: 0 });
                let target = Frames(
                    old(self).seek_by_target(position, step.to_signed_frames(old(self).frame_rate)),
                ).to_seconds(old(self).frame_rate);
                &&& *final(self) == old(self).after_seek(target)
                &&& command == old(self).seek_command(target)
            },
            key == Key::Right ==> {
                let step = (Seconds { whole: SEEK_KEY_SECONDS as i128, fraction: 0 });
                let target = Frames(
                    old(self).seek_by_target(position, step.to_signed_frames(old(self).frame_rate)),
                ).to_seconds(old(self).frame_rate);
                &&& *final(self) == old(self).after_seek(target)
                &&& command == old(self).seek_command(target)
            },
            key == Key::Comma ==> match old(self).previous_chapter_index(position) {
                Some(previous) => {
                    &&& *final(self) == old(self).after_seek(
                        old(self).chapter_start(previous as int),
                    )
                    &&& command == old(self).seek_command(
                        old(self).chapter_start(previous as int),
                    )
                },
                None => command is None && *final(self) == *old(self),
            },
            key == Key::Period ==> match old(self).next_chapter_index(position) {
                Some(next) => {
                    &&& *final(self) == old(self).after_seek(old(self).chapter_start(next as int))
                    &&& command == old(self).seek_command(old(self).chapter_start(next as int))
                },
                None => command is None && *final(self) == *old(self),
            },
            key == Key::Other ==> command is None && *final(self) == *old(self),
    {
        match key {
            Key::Space => Some(self.toggle_playback(reported)),
            Key::Left => self.seek_by_seconds(position, Seconds::from_secs(-SEEK_KEY_SECONDS)),
            Key::Right => self.seek_by_seconds(position, Seconds::from_secs(SEEK_KEY_SECONDS)),
            Key::Comma => self.go_to_previous_chapter(position),
            Key::Period => self.go_to_next_chapter(position),
            Key::Other => None,
        }
    }
}

} // verus!
