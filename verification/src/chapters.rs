//! Named markers on the visual timeline.

use vstd::prelude::*;

verus! {

/// A named marker: the chapter begins at `start_frame` and runs until the
/// next chapter begins.
#[derive(Debug, Clone, PartialEq, Eq, Hash)]
pub struct Chapter {
    pub name: String,
    pub start_frame: u64,
}

/// The chapters of a track, in the order in which they are played.
#[derive(Debug, Clone, PartialEq, Eq, Hash)]
pub struct Chapters(pub Vec<Chapter>);

/// The frames at which the chapters begin, in order.
pub open spec fn start_frames(chapters: Seq<Chapter>) -> Seq<u64> {
    chapters.map_values(|chapter: Chapter| chapter.start_frame)
}

/// No chapter begins at or before an earlier one.
pub open spec fn strictly_increasing(starts: Seq<u64>) -> bool {
    forall|i: int, j: int| 0 <= i < j < starts.len() ==> starts[i] < starts[j]
}

/// The index of the last start that is not after `frame`, if there is one.
pub open spec fn last_start_at_or_before(starts: Seq<u64>, frame: u64) -> Option<usize>
    decreases starts.len(),
{
    if starts.len() == 0 {
        None
    } else if starts.last() <= frame {
        Some((starts.len() - 1) as usize)
    } else {
        last_start_at_or_before(starts.drop_last(), frame)
    }
}

/// What [`last_start_at_or_before`] finds: the chapter found has begun, no
/// later chapter has, and nothing is found only where no chapter has begun.
pub proof fn lemma_last_start_at_or_before(starts: Seq<u64>, frame: u64)
    requires
        starts.len() <= usize::MAX,
    ensures
        match last_start_at_or_before(starts, frame) {
            Some(index) => {
                &&& index < starts.len()
                &&& starts[index as int] <= frame
                &&& forall|j: int| index < j < starts.len() ==> starts[j] > frame
            },
            None => forall|j: int| 0 <= j < starts.len() ==> starts[j] > frame,
        },
    decreases starts.len(),
{
    if starts.len() > 0 && starts.last() > frame {
        let earlier = starts.drop_last();
        lemma_last_start_at_or_before(earlier, frame);
        assert forall|j: int| 0 <= j < earlier.len() implies earlier[j] == starts[j] by {}
        match last_start_at_or_before(earlier, frame) {
            Some(index) => {
                assert(earlier[index as int] == starts[index as int]);
                assert forall|j: int| index < j < starts.len() implies starts[j] > frame by {
                    if j < earlier.len() {
                        assert(earlier[j] > frame);
                    }
                }
            },
            None => {
                assert forall|j: int| 0 <= j < starts.len() implies starts[j] > frame by {
                    if j < earlier.len() {
                        assert(earlier[j] > frame);
                    }
                }
            },
        }
    }
}

/// Where each chapter begins after the one before it, a frame lies in the
/// chapter that has begun by then and whose successor, if it has one, has
/// not.
pub proof fn lemma_frame_lies_in_one_chapter(starts: Seq<u64>, index: usize, frame: u64)
    requires
        starts.len() <= usize::MAX,
        strictly_increasing(starts),
        index < starts.len(),
        starts[index as int] <= frame,
        index + 1 < starts.len() ==> frame < starts[index + 1],
    ensures
        last_start_at_or_before(starts, frame) == Some(index),
{
    lemma_last_start_at_or_before(starts, frame);
    match last_start_at_or_before(starts, frame) {
        Some(found) => {
            if found < index {
                assert(starts[index as int] > frame);
            }
            if found > index {
                if found > index + 1 {
                    assert(starts[index + 1] < starts[found as int]);
                }
                assert(starts[found as int] > frame);
            }
        },
        None => {
            assert(starts[index as int] > frame);
        },
    }
}

impl Chapters {
    /// The frames at which the chapters begin, in order.
    pub open spec fn starts(&self) -> Seq<u64> {
        start_frames(self.0@)
    }

    /// Each chapter begins after the one before it.
    pub open spec fn wf(&self) -> bool {
        strictly_increasing(self.starts())
    }

    /// Whether each chapter begins after the one before it.
    pub fn is_strictly_increasing(&self) -> (increasing: bool)
        ensures
            increasing == self.wf(),
    {
        let count = self.0.len();
        let mut index: usize = 1;
        while index < count
            invariant
                count == self.0@.len(),
                1 <= index,
                forall|i: int, j: int|
                    0 <= i < j < index && j < count ==> self.starts()[i] < self.starts()[j],
            decreases count - index,
        {
            if self.0[index - 1].start_frame >= self.0[index].start_frame {
                proof {
                    assert(!(self.starts()[index - 1] < self.starts()[index as int]));
                }
                return false;
            }
            proof {
                assert forall|i: int, j: int| 0 <= i < j < index + 1 && j < count implies self.starts()[i]
                    < self.starts()[j] by {
                    if j == index && i < index - 1 {
                        assert(self.starts()[i] < self.starts()[index - 1]);
                    }
                }
            }
            index += 1;
        }
        true
    }

    /// The chapter at `index`, if there is one.
    pub fn get(&self, index: usize) -> (chapter: Option<&Chapter>)
        ensures
            index < self.0@.len() ==> chapter == Some(&self.0@[index as int]),
            index >= self.0@.len() ==> chapter is None,
    {
        if index < self.0.len() {
            Some(&self.0[index])
        } else {
            None
        }
    }

    /// The chapter at `index`, if there is one, for changing it in place.
    /// Whatever the caller writes into it takes that chapter's place; the
    /// other chapters stay as they are.
    pub fn get_mut(&mut self, index: usize) -> (chapter: Option<&mut Chapter>)
        ensures
            match chapter {
                Some(slot) => {
                    &&& index < old(self).0@.len()
                    &&& *slot == old(self).0@[index as int]
                    &&& final(self).0@ == old(self).0@.update(index as int, *final(slot))
                },
                None => index >= old(self).0@.len() && *final(self) == *old(self),
            },
    {
        if index < self.0.len() {
            Some(&mut self.0[index])
        } else {
            None
        }
    }

    /// The number of chapters.
    pub fn len(&self) -> (count: usize)
        ensures
            count == self.0@.len(),
    {
        self.0.len()
    }

    /// The index of the chapter that `frame` lies in: the last chapter that
    /// begins at or before `frame`. There is none where no chapter has begun
    /// by then.
    pub fn index_at_frame(&self, frame: u64) -> (found: Option<usize>)
        ensures
            found == last_start_at_or_before(self.starts(), frame),
            match found {
                Some(index) => {
                    &&& index < self.0@.len()
                    &&& self.0@[index as int].start_frame <= frame
                    &&& forall|j: int|
                        index < j < self.0@.len() ==> self.0@[j].start_frame > frame
                },
                None => forall|j: int| 0 <= j < self.0@.len() ==> self.0@[j].start_frame > frame,
            },
    {
        let mut remaining: usize = self.0.len();
        proof {
            assert(self.starts().take(remaining as int) =~= self.starts());
        }
        while remaining > 0
            invariant
                remaining <= self.0@.len(),
                last_start_at_or_before(self.starts(), frame) == last_start_at_or_before(
                    self.starts().take(remaining as int),
                    frame,
                ),
                forall|j: int| remaining <= j < self.0@.len() ==> self.0@[j].start_frame > frame,
            decreases remaining,
        {
            let index: usize = remaining - 1;
            proof {
                let prefix = self.starts().take(remaining as int);
                assert(prefix.last() == self.0@[index as int].start_frame);
                assert(prefix.drop_last() =~= self.starts().take(index as int));
            }
            if self.0[index].start_frame <= frame {
                return Some(index);
            }
            remaining = index;
        }
        None
    }

    /// The chapter that `frame` lies in.
    pub fn at_frame(&self, frame: u64) -> (found: Option<&Chapter>)
        ensures
            found == match last_start_at_or_before(self.starts(), frame) {
                Some(index) => Some(&self.0@[index as int]),
                None => None,
            },
    {
        match self.index_at_frame(frame) {
            Some(index) => Some(&self.0[index]),
            None => None,
        }
    }

    /// The last frame of the chapter at `chapter_index`: the frame before
    /// the next chapter begins. The last chapter has no such frame; it runs
    /// to the end of the track.
    pub fn end_frame(&self, chapter_index: usize) -> (end: Option<u64>)
        requires
            self.wf(),
        ensures
            chapter_index + 1 < self.0@.len() ==> end == Some(
                (self.0@[chapter_index + 1].start_frame - 1) as u64,
            ),
            chapter_index + 1 >= self.0@.len() ==> end is None,
    {
        if chapter_index < self.0.len() && chapter_index + 1 < self.0.len() {
            proof {
                assert(self.starts()[chapter_index as int] < self.starts()[chapter_index + 1]);
            }
            Some(self.0[chapter_index + 1].start_frame - 1)
        } else {
            None
        }
    }
}

} // verus!
