//! Moving through the track chapter by chapter.

use vstd::prelude::*;

use super::{Command, MainState};
use crate::chapters::last_start_at_or_before;
use crate::time::{Frames, Seconds};

verus! {

/// How long, in seconds, a chapter may have been playing for a step back
/// to lead to the chapter before it. Later than that, a step back leads to
/// the start of the chapter itself.
pub const BEGINNING_OF_CHAPTER_THRESHOLD: u64 = 2;

impl MainState {
    /// The index of the chapter the session is in, given the engine's
    /// position of the started sound. A session without chapters is in none.
    pub open spec fn spec_current_chapter_index(&self, position: Seconds) -> Option<usize> {
        match self.chapters {
            Some(chapters) => last_start_at_or_before(
                chapters.starts(),
                self.mode.current_frame(position, self.frame_rate),
            ),
            None => None,
        }
    }

    /// The index of the chapter the session is in. A session with chapters
    /// is always in one of them.
    #[verifier::when_used_as_spec(spec_current_chapter_index)]
    pub fn current_chapter_index(&self, position: Seconds) -> (index: Option<usize>)
        requires
            self.wf(),
        ensures
            index == self.spec_current_chapter_index(position),
            match self.chapters {
                Some(chapters) => {
                    &&& index matches Some(current)
                    &&& current < chapters.0@.len()
                    &&& chapters.0@[current as int].start_frame <= self.mode.current_frame(
                        position,
                        self.frame_rate,
                    )
                },
                None => index is None,
            },
    {
        match &self.chapters {
            Some(chapters) => chapters.index_at_frame(self.current_frame(position)),
            None => None,
        }
    }

    /// The position at which the chapter at `chapter_index` begins.
    pub open spec fn chapter_start(&self, chapter_index: int) -> Seconds {
        Frames(self.chapters.unwrap().0@[chapter_index].start_frame).to_seconds(self.frame_rate)
    }

    /// Seeks to the start of the chapter at `chapter_index`. A session
    /// without chapters stays as it is.
    pub fn go_to_chapter(&mut self, chapter_index: usize) -> (command: Option<Command>)
        requires
            old(self).wf(),
            old(self).chapters matches Some(chapters) ==> chapter_index < chapters.0@.len() && !(old(
                self,
            ).mode is Rendering),
        ensures
            final(self).wf(),
            match old(self).chapters {
                Some(chapters) => {
                    &&& *final(self) == old(self).after_seek(
                        old(self).chapter_start(chapter_index as int),
                    )
                    &&& command == old(self).seek_command(
                        old(self).chapter_start(chapter_index as int),
                    )
                },
                None => command is None && *final(self) == *old(self),
            },
    {
        let start_frame = match &self.chapters {
            Some(chapters) => chapters.0[chapter_index].start_frame,
            None => {
                return None;
            },
        };
        let chapter_start_position = Frames(start_frame).to_seconds(self.frame_rate);
        self.seek(chapter_start_position)
    }

    /// The chapter a step forward leads to: the one after the current
    /// chapter, unless the current chapter is the last.
    pub open spec fn next_chapter_index(&self, position: Seconds) -> Option<usize> {
        match self.current_chapter_index(position) {
            Some(current) if current + 1 < self.chapters.unwrap().0@.len() => Some(
                (current + 1) as usize,
            ),
            _ => None,
        }
    }

    /// Seeks to the start of the next chapter. In the last chapter, and in
    /// a session without chapters, the session stays as it is.
    pub fn go_to_next_chapter(&mut self, position: Seconds) -> (command: Option<Command>)
        requires
            old(self).wf(),
            old(self).next_chapter_index(position) is Some ==> !(old(self).mode is Rendering),
        ensures
            final(self).wf(),
            match old(self).next_chapter_index(position) {
                Some(next) => {
                    &&& *final(self) == old(self).after_seek(old(self).chapter_start(next as int))
                    &&& command == old(self).seek_command(old(self).chapter_start(next as int))
                },
                None => command is None && *final(self) == *old(self),
            },
    {
        let count = match &self.chapters {
            Some(chapters) => chapters.len(),
            None => {
                return None;
            },
        };
        let current_chapter_index = match self.current_chapter_index(position) {
            Some(index) => index,
            None => {
                return None;
            },
        };
        if current_chapter_index >= count - 1 {
            return None;
        }
        self.go_to_chapter(current_chapter_index + 1)
    }

    /// The chapter a step back leads to. From the first chapter it is the
    /// first chapter. From a later chapter it is the chapter before, unless
    /// more than the threshold has passed since the current chapter began:
    /// then it is the current chapter, which starts over.
    pub open spec fn previous_chapter_index(&self, position: Seconds) -> Option<usize> {
        match self.current_chapter_index(position) {
            Some(current) => {
                let elapsed = self.mode.current_position(position, self.frame_rate).ticks()
                    - self.chapter_start(current as int).ticks();
                if current == 0 || elapsed > BEGINNING_OF_CHAPTER_THRESHOLD
                    * 0x1_0000_0000_0000_0000 {
                    Some(current)
                } else {
                    Some((current - 1) as usize)
                }
            },
            None => None,
        }
    }

    /// Steps back: seeks to the start of the chapter that
    /// [`previous_chapter_index`](Self::previous_chapter_index) names. A
    /// session without chapters stays as it is.
    pub fn go_to_previous_chapter(&mut self, position: Seconds) -> (command: Option<Command>)
        requires
            old(self).wf(),
            old(self).chapters is Some ==> !(old(self).mode is Rendering),
        ensures
            final(self).wf(),
            match old(self).previous_chapter_index(position) {
                Some(previous) => {
                    &&& *final(self) == old(self).after_seek(
                        old(self).chapter_start(previous as int),
                    )
                    &&& command == old(self).seek_command(
                        old(self).chapter_start(previous as int),
                    )
                },
                None => command is None && *final(self) == *old(self),
            },
    {
        let current_chapter_index = match self.current_chapter_index(position) {
            Some(index) => index,
            None => {
                return None;
            },
        };
        if current_chapter_index == 0 {
            return self.go_to_chapter(0);
        }
        let current_position = self.mode.current_position(position, self.frame_rate);
        let start_frame = match &self.chapters {
            Some(chapters) => chapters.0[current_chapter_index].start_frame,
            None => {
                return None;
            },
        };
        let current_chapter_start_time = Frames(start_frame).to_seconds(self.frame_rate);
        let latest_for_step_back = Seconds {
            whole: current_chapter_start_time.whole + BEGINNING_OF_CHAPTER_THRESHOLD as i128,
            fraction: current_chapter_start_time.fraction,
        };
        if current_position.is_at_most(latest_for_step_back) {
            self.go_to_chapter(current_chapter_index - 1)
        } else {
            self.seek(current_chapter_start_time)
        }
    }
}

/// A seek to the start of a chapter arrives in that chapter: once the
/// engine has taken the command, if there is one, the chapter is the current
/// one and the current frame is its first, whatever the engine reports.
pub proof fn lemma_chapter_start_is_in_chapter(
    state: MainState,
    chapter_index: usize,
    position: Seconds,
)
    requires
        state.wf(),
        !(state.mode is Rendering),
        state.chapters is Some,
        chapter_index < state.chapters.unwrap().0@.len(),
    ensures
        state.after_seek_done(state.chapter_start(chapter_index as int)).mode.current_frame(
            position,
            state.frame_rate,
        ) == state.chapters.unwrap().0@[chapter_index as int].start_frame,
        state.after_seek_done(
            state.chapter_start(chapter_index as int),
        ).current_chapter_index(position) == Some(chapter_index),
{
    let chapters = state.chapters.unwrap();
    let starts = chapters.starts();
    let start_frame = chapters.0@[chapter_index as int].start_frame;
    crate::time::lemma_frame_round_trip(Frames(start_frame), state.frame_rate);
    assert(chapters.0.len() == chapters.0@.len());
    if chapter_index + 1 < starts.len() {
        assert(starts[chapter_index as int] < starts[chapter_index + 1]);
    }
    crate::chapters::lemma_frame_lies_in_one_chapter(starts, chapter_index, start_frame);
}

/// A step forward advances by exactly one chapter: where the current
/// chapter has a successor, the session is afterwards at the first frame of
/// that successor.
pub proof fn lemma_next_chapter_is_one_further(
    state: MainState,
    position: Seconds,
    later_position: Seconds,
)
    requires
        state.wf(),
        !(state.mode is Rendering),
        state.next_chapter_index(position) is Some,
    ensures
        state.current_chapter_index(position) matches Some(current) && state.next_chapter_index(
            position,
        ) matches Some(next) && next == current + 1 && state.after_seek_done(
            state.chapter_start(next as int),
        ).current_chapter_index(later_position) == Some(next),
{
    let chapters = state.chapters.unwrap();
    assert(chapters.0.len() == chapters.0@.len());
    let next = state.next_chapter_index(position)->0;
    lemma_chapter_start_is_in_chapter(state, next, later_position);
}

/// A step back never moves forward: the chapter it leads to has begun by
/// the current frame, wherever the session is, before the start of the
/// track too.
pub proof fn lemma_step_back_does_not_move_forward(state: MainState, position: Seconds)
    requires
        state.wf(),
        state.chapters is Some,
    ensures
        state.previous_chapter_index(position) matches Some(previous)
            && state.current_chapter_index(position) matches Some(current) && previous <= current
            && state.chapters.unwrap().0@[previous as int].start_frame <= state.mode.current_frame(
            position,
            state.frame_rate,
        ),
{
    let chapters = state.chapters.unwrap();
    let starts = chapters.starts();
    let frame = state.mode.current_frame(position, state.frame_rate);
    assert(chapters.0.len() == chapters.0@.len());
    crate::chapters::lemma_last_start_at_or_before(starts, frame);
    assert(starts[0] <= frame);
    let current = state.current_chapter_index(position)->0;
    let previous = state.previous_chapter_index(position)->0;
    if previous < current {
        assert(starts[previous as int] < starts[current as int]);
    }
}

/// In the last chapter a step forward leads nowhere.
pub proof fn lemma_no_chapter_after_last(state: MainState, position: Seconds)
    requires
        state.chapters matches Some(chapters) && state.current_chapter_index(position) matches Some(
            current,
        ) && current + 1 == chapters.0@.len(),
    ensures
        state.next_chapter_index(position) is None,
{
}

} // verus!
