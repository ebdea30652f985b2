//! Frames and playback positions, and the conversion between the two.
//!
//! A position is held as whole seconds and a fraction in units of 2^-64 of
//! a second. No frame rate is finer than that grid, so no two frames share a
//! position, and every conversion is exact integer arithmetic.

use vstd::prelude::*;

verus! {

/// The units of a [`Seconds`] value in one second: 2^64.
pub const TICKS_PER_SECOND: u128 = 0x1_0000_0000_0000_0000;

/// The position, in units of 2^-64 s, at which frame `frame` begins when
/// `frame_rate` frames are shown per second, rounded down to a whole unit.
pub open spec fn frame_to_seconds(frame: int, frame_rate: int) -> int {
    frame * 0x1_0000_0000_0000_0000 / frame_rate
}

/// The smallest frame index whose start is not before the position of
/// `ticks` units of 2^-64 s: the ceiling of `ticks * frame_rate / 2^64`.
pub open spec fn seconds_to_frame(ticks: int, frame_rate: int) -> int {
    (ticks * frame_rate + 0xffff_ffff_ffff_ffff) / 0x1_0000_0000_0000_0000
}

/// An index into the visual timeline.
#[derive(Debug, Clone, Copy, PartialEq, Eq, Hash, PartialOrd, Ord, Structural)]
pub struct Frames(pub u64);

/// A playback position or a span of time: `whole` seconds and `fraction`
/// units of 2^-64 s after them. Negative values stand for positions before
/// the start and for backward spans; the fraction always counts forward.
#[derive(Debug, Clone, Copy, PartialEq, Eq, Hash, PartialOrd, Structural)]
pub struct Seconds {
    pub whole: i128,
    pub fraction: u64,
}

impl Default for Frames {
    fn default() -> (frame: Frames)
        ensures
            frame == Frames(0),
    {
        Frames(0)
    }
}

impl Default for Seconds {
    fn default() -> (position: Seconds)
        ensures
            position == (Seconds { whole: 0, fraction: 0 }),
    {
        Seconds { whole: 0, fraction: 0 }
    }
}

/// The position of `ticks` units of 2^-64 s.
pub open spec fn seconds_from_ticks(ticks: int) -> Seconds {
    Seconds {
        whole: (ticks / 0x1_0000_0000_0000_0000) as i128,
        fraction: (ticks % 0x1_0000_0000_0000_0000) as u64,
    }
}

impl Frames {
    /// The position at which this frame begins.
    pub open spec fn spec_to_seconds(self, frame_rate: u64) -> Seconds {
        seconds_from_ticks(frame_to_seconds(self.0 as int, frame_rate as int))
    }

    /// The position at which this frame begins.
    #[verifier::when_used_as_spec(spec_to_seconds)]
    pub fn to_seconds(self, frame_rate: u64) -> (position: Seconds)
        requires
            frame_rate > 0,
        ensures
            position == self.spec_to_seconds(frame_rate),
            position.ticks() == frame_to_seconds(self.0 as int, frame_rate as int),
            0 <= position.whole <= u64::MAX,
    {
        let whole: u64 = self.0 / frame_rate;
        let rest: u64 = self.0 % frame_rate;
        let fraction: u128 = (rest as u128) * TICKS_PER_SECOND / (frame_rate as u128);
        proof {
            lemma_frame_to_seconds_parts(self.0 as int, frame_rate as int);
        }
        Seconds { whole: whole as i128, fraction: fraction as u64 }
    }
}

/// The start of a frame, split into whole seconds and the fraction after
/// them.
pub proof fn lemma_frame_to_seconds_parts(frame: int, frame_rate: int)
    requires
        0 <= frame <= u64::MAX,
        0 < frame_rate <= u64::MAX,
    ensures
        0 <= (frame % frame_rate) * 0x1_0000_0000_0000_0000 / frame_rate < 0x1_0000_0000_0000_0000,
        (frame % frame_rate) * 0x1_0000_0000_0000_0000 <= 0xffff_ffff_ffff_ffff
            * 0x1_0000_0000_0000_0000,
        frame_to_seconds(frame, frame_rate) == (frame / frame_rate) * 0x1_0000_0000_0000_0000 + (
        frame % frame_rate) * 0x1_0000_0000_0000_0000 / frame_rate,
        seconds_from_ticks(frame_to_seconds(frame, frame_rate)) == (Seconds {
            whole: (frame / frame_rate) as i128,
            fraction: ((frame % frame_rate) * 0x1_0000_0000_0000_0000 / frame_rate) as u64,
        }),
        0 <= frame / frame_rate <= frame,
{
    let d: int = 0x1_0000_0000_0000_0000;
    let whole = frame / frame_rate;
    let rest = frame % frame_rate;
    vstd::arithmetic::div_mod::lemma_fundamental_div_mod(frame, frame_rate);
    vstd::arithmetic::div_mod::lemma_mod_bound(frame, frame_rate);
    vstd::arithmetic::div_mod::lemma_div_pos_is_pos(frame, frame_rate);
    vstd::arithmetic::div_mod::lemma_div_nonincreasing(frame, frame_rate);
    let x = rest * d;
    assert(0 <= x < frame_rate * d) by (nonlinear_arith)
        requires
            0 <= rest < frame_rate,
            x == rest * d,
            d > 0,
    ;
    vstd::arithmetic::div_mod::lemma_multiply_divide_lt(x, frame_rate, d);
    vstd::arithmetic::div_mod::lemma_div_pos_is_pos(x, frame_rate);
    let fraction = x / frame_rate;
    assert(frame * d == x + (whole * d) * frame_rate) by (nonlinear_arith)
        requires
            frame == frame_rate * whole + rest,
            x == rest * d,
    ;
    vstd::arithmetic::div_mod::lemma_hoist_over_denominator(x, whole * d, frame_rate as nat);
    let ticks = frame_to_seconds(frame, frame_rate);
    assert(ticks == whole * d + fraction);
    vstd::arithmetic::div_mod::lemma_fundamental_div_mod_converse(ticks, d, whole, fraction);
}

impl Seconds {
    /// The position in units of 2^-64 s.
    pub open spec fn ticks(self) -> int {
        self.whole * 0x1_0000_0000_0000_0000 + self.fraction
    }

    /// The position `secs` whole seconds after the start.
    pub fn from_secs(secs: i64) -> (position: Seconds)
        ensures
            position == (Seconds { whole: secs as i128, fraction: 0 }),
    {
        Seconds { whole: secs as i128, fraction: 0 }
    }

    /// The position `millis` milliseconds after the start, rounded down to
    /// the grid.
    pub fn from_millis(millis: u64) -> (position: Seconds)
        ensures
            position.ticks() == millis * 0x1_0000_0000_0000_0000 / 1_000,
            position == seconds_from_ticks(millis * 0x1_0000_0000_0000_0000 / 1_000),
    {
        Frames(millis).to_seconds(1_000)
    }

    /// The position `nanos` nanoseconds after the start, rounded down to the
    /// grid.
    pub fn from_nanos(nanos: u64) -> (position: Seconds)
        ensures
            position.ticks() == nanos * 0x1_0000_0000_0000_0000 / 1_000_000_000,
            position == seconds_from_ticks(nanos * 0x1_0000_0000_0000_0000 / 1_000_000_000),
    {
        Frames(nanos).to_seconds(1_000_000_000)
    }

    /// The frame shown at this position: the smallest frame index whose
    /// start is not before it, held to the range of a frame index.
    pub open spec fn spec_to_frames(self, frame_rate: u64) -> Frames {
        let frame = seconds_to_frame(self.ticks(), frame_rate as int);
        Frames(
            if frame < 0 {
                0
            } else if frame > u64::MAX {
                u64::MAX
            } else {
                frame as u64
            },
        )
    }

    /// The frame shown at this position. A position before the start gives
    /// frame 0, and one beyond the last frame index gives the last index.
    #[verifier::when_used_as_spec(spec_to_frames)]
    pub fn to_frames(self, frame_rate: u64) -> (frame: Frames)
        ensures
            frame == self.spec_to_frames(frame_rate),
    {
        proof {
            lemma_seconds_to_frame_split(
                self.whole as int,
                self.fraction as int,
                frame_rate as int,
            );
        }
        if self.whole < 0 || frame_rate == 0 {
            return Frames(0);
        }
        if self.whole > u64::MAX as i128 {
            return Frames(u64::MAX);
        }
        let whole: u128 = self.whole as u128;
        let part_frames: u128 = ((self.fraction as u128) * (frame_rate as u128) + (TICKS_PER_SECOND
            - 1)) / TICKS_PER_SECOND;
        let frames: u128 = whole * (frame_rate as u128) + part_frames;
        if frames > u64::MAX as u128 {
            Frames(u64::MAX)
        } else {
            Frames(frames as u64)
        }
    }

    /// This span in frames, forward or backward: the ceiling of its length
    /// times the frame rate, held to the range of a signed frame count.
    pub open spec fn spec_to_signed_frames(self, frame_rate: u64) -> i64 {
        let frames = seconds_to_frame(self.ticks(), frame_rate as int);
        if frames < i64::MIN {
            i64::MIN
        } else if frames > i64::MAX {
            i64::MAX
        } else {
            frames as i64
        }
    }

    /// This span in frames, forward or backward.
    #[verifier::when_used_as_spec(spec_to_signed_frames)]
    pub fn to_signed_frames(self, frame_rate: u64) -> (frames: i64)
        ensures
            frames == self.spec_to_signed_frames(frame_rate),
    {
        proof {
            lemma_seconds_to_frame_split(
                self.whole as int,
                self.fraction as int,
                frame_rate as int,
            );
        }
        if frame_rate == 0 {
            return 0;
        }
        proof {
            lemma_whole_frames_bounds(self.whole as int, frame_rate as int);
        }
        if self.whole > i64::MAX as i128 {
            return i64::MAX;
        }
        if self.whole < i64::MIN as i128 {
            return i64::MIN;
        }
        let part_frames: u128 = ((self.fraction as u128) * (frame_rate as u128) + (TICKS_PER_SECOND
            - 1)) / TICKS_PER_SECOND;
        let frames: i128 = self.whole * (frame_rate as i128) + part_frames as i128;
        if frames > i64::MAX as i128 {
            i64::MAX
        } else if frames < i64::MIN as i128 {
            i64::MIN
        } else {
            frames as i64
        }
    }

    /// Whether this position is not after `other`.
    pub fn is_at_most(self, other: Seconds) -> (at_most: bool)
        ensures
            at_most == (self.ticks() <= other.ticks()),
    {
        self.whole < other.whole || (self.whole == other.whole && self.fraction <= other.fraction)
    }

    /// The position `span` units of 2^-64 s after this one. There is none
    /// beyond the last position.
    pub fn later_by(self, span: u64) -> (later: Option<Seconds>)
        ensures
            match later {
                Some(position) => position.ticks() == self.ticks() + span,
                None => self.whole == i128::MAX && self.fraction + span >= 0x1_0000_0000_0000_0000,
            },
    {
        let sum: u128 = self.fraction as u128 + span as u128;
        if sum < TICKS_PER_SECOND {
            Some(Seconds { whole: self.whole, fraction: sum as u64 })
        } else if self.whole == i128::MAX {
            None
        } else {
            Some(Seconds { whole: self.whole + 1, fraction: (sum - TICKS_PER_SECOND) as u64 })
        }
    }

    /// The length of this span, whatever its direction. The one span whose
    /// length has no representation gives the longest span there is.
    pub fn abs(self) -> (length: Seconds)
        ensures
            self.ticks() >= 0 ==> length == self,
            self.ticks() < 0 && !(self.whole == i128::MIN && self.fraction == 0) ==> length.ticks()
                == -self.ticks(),
            self.whole == i128::MIN && self.fraction == 0 ==> length == (Seconds {
                whole: i128::MAX,
                fraction: u64::MAX,
            }),
    {
        if self.whole >= 0 {
            self
        } else if self.fraction == 0 {
            if self.whole == i128::MIN {
                Seconds { whole: i128::MAX, fraction: u64::MAX }
            } else {
                Seconds { whole: -self.whole, fraction: 0 }
            }
        } else {
            Seconds {
                whole: -(self.whole + 1),
                fraction: (TICKS_PER_SECOND - self.fraction as u128) as u64,
            }
        }
    }
}

/// The frame of a position `whole` seconds and `fraction` units after the
/// start is `whole * frame_rate` frames further than the frame of its
/// fraction alone, which is one of the first `frame_rate` frames or the one
/// after them.
pub proof fn lemma_seconds_to_frame_split(whole: int, fraction: int, frame_rate: int)
    requires
        0 <= fraction < 0x1_0000_0000_0000_0000,
        0 <= frame_rate <= u64::MAX,
    ensures
        seconds_to_frame(whole * 0x1_0000_0000_0000_0000 + fraction, frame_rate) == whole
            * frame_rate + seconds_to_frame(fraction, frame_rate),
        0 <= seconds_to_frame(fraction, frame_rate) <= frame_rate,
        0 <= fraction * frame_rate <= 0xffff_ffff_ffff_ffff * 0xffff_ffff_ffff_ffff,
        whole < 0 ==> whole * frame_rate + seconds_to_frame(fraction, frame_rate) <= 0,
        frame_rate == 0 ==> whole * frame_rate + seconds_to_frame(fraction, frame_rate) == 0,
        whole >= 0 ==> 0 <= whole * frame_rate,
        0 <= whole <= u64::MAX ==> whole * frame_rate <= 0xffff_ffff_ffff_ffff
            * 0xffff_ffff_ffff_ffff,
        whole > u64::MAX && frame_rate > 0 ==> whole * frame_rate > u64::MAX,
{
    let d: int = 0x1_0000_0000_0000_0000;
    let x = fraction * frame_rate + d - 1;
    let j = whole * frame_rate;
    assert(0 <= fraction * frame_rate <= (d - 1) * frame_rate && (d - 1) * frame_rate <= (d - 1)
        * 0xffff_ffff_ffff_ffff) by (nonlinear_arith)
        requires
            0 <= fraction <= d - 1,
            0 <= frame_rate <= 0xffff_ffff_ffff_ffff,
    ;
    assert((whole * d + fraction) * frame_rate + d - 1 == x + j * d) by (nonlinear_arith)
        requires
            x == fraction * frame_rate + d - 1,
            j == whole * frame_rate,
    ;
    vstd::arithmetic::div_mod::lemma_hoist_over_denominator(x, j, d as nat);
    assert(x < d * (frame_rate + 1)) by (nonlinear_arith)
        requires
            d > 0,
            frame_rate >= 0,
            x <= (d - 1) * frame_rate + d - 1,
    ;
    vstd::arithmetic::div_mod::lemma_multiply_divide_lt(x, d, frame_rate + 1);
    vstd::arithmetic::div_mod::lemma_div_pos_is_pos(x, d);
    assert(whole < 0 ==> whole * frame_rate <= -frame_rate) by (nonlinear_arith)
        requires
            frame_rate >= 0,
    ;
    assert(frame_rate == 0 ==> whole * frame_rate == 0 && x / d == 0) by {
        if frame_rate == 0 {
            assert(whole * frame_rate == 0) by (nonlinear_arith)
                requires
                    frame_rate == 0,
            ;
            vstd::arithmetic::div_mod::lemma_multiply_divide_lt(x, d, 1);
        }
    }
    assert(whole >= 0 ==> 0 <= whole * frame_rate) by (nonlinear_arith)
        requires
            frame_rate >= 0,
    ;
    assert(0 <= whole <= 0xffff_ffff_ffff_ffff ==> whole * frame_rate <= 0xffff_ffff_ffff_ffff
        * 0xffff_ffff_ffff_ffff) by (nonlinear_arith)
        requires
            0 <= frame_rate <= 0xffff_ffff_ffff_ffff,
    ;
    assert(whole > 0xffff_ffff_ffff_ffff && frame_rate > 0 ==> whole * frame_rate
        > 0xffff_ffff_ffff_ffff) by (nonlinear_arith);
}

/// How far the frames of whole seconds reach: beyond the range of a signed
/// frame count where the seconds are, and inside 128 bits where they are
/// not.
pub proof fn lemma_whole_frames_bounds(whole: int, frame_rate: int)
    requires
        0 < frame_rate <= u64::MAX,
    ensures
        whole > i64::MAX ==> whole * frame_rate > i64::MAX,
        whole < i64::MIN ==> whole * frame_rate + frame_rate <= i64::MIN,
        i64::MIN <= whole <= i64::MAX ==> -0x8000_0000_0000_0000 * 0xffff_ffff_ffff_ffff <= whole
            * frame_rate <= 0x7fff_ffff_ffff_ffff * 0xffff_ffff_ffff_ffff,
{
    assert(whole > 0x7fff_ffff_ffff_ffff ==> whole * frame_rate > 0x7fff_ffff_ffff_ffff)
        by (nonlinear_arith)
        requires
            frame_rate > 0,
    ;
    assert(whole < -0x8000_0000_0000_0000 ==> whole * frame_rate + frame_rate
        <= -0x8000_0000_0000_0000) by (nonlinear_arith)
        requires
            frame_rate > 0,
    ;
    assert(-0x8000_0000_0000_0000 <= whole <= 0x7fff_ffff_ffff_ffff ==> -0x8000_0000_0000_0000
        * 0xffff_ffff_ffff_ffff <= whole * frame_rate <= 0x7fff_ffff_ffff_ffff
        * 0xffff_ffff_ffff_ffff) by (nonlinear_arith)
        requires
            0 < frame_rate <= 0xffff_ffff_ffff_ffff,
    ;
}

/// The frame shown at a position is the first frame that begins at or after
/// it: that frame does not begin before the position, and every earlier
/// frame does.
pub proof fn lemma_seconds_to_frame_is_first(ticks: int, frame_rate: int, earlier: int)
    requires
        frame_rate > 0,
        earlier < seconds_to_frame(ticks, frame_rate),
    ensures
        frame_to_seconds(seconds_to_frame(ticks, frame_rate), frame_rate) >= ticks,
        frame_to_seconds(earlier, frame_rate) < ticks,
{
    let d: int = 0x1_0000_0000_0000_0000;
    let scaled = ticks * frame_rate;
    let frame = seconds_to_frame(ticks, frame_rate);
    vstd::arithmetic::div_mod::lemma_fundamental_div_mod(scaled + d - 1, d);
    vstd::arithmetic::div_mod::lemma_mod_bound(scaled + d - 1, d);
    assert(frame * d == d * frame) by (nonlinear_arith);
    assert(frame * d >= scaled);
    assert((frame - 1) * d < scaled) by (nonlinear_arith)
        requires
            frame * d < scaled + d,
    ;
    vstd::arithmetic::div_mod::lemma_div_is_ordered(scaled, frame * d, frame_rate);
    vstd::arithmetic::div_mod::lemma_div_multiples_vanish(ticks, frame_rate);
    assert(scaled == frame_rate * ticks) by (nonlinear_arith)
        requires
            scaled == ticks * frame_rate,
    ;
    assert(earlier * d < frame_rate * ticks) by (nonlinear_arith)
        requires
            earlier <= frame - 1,
            (frame - 1) * d < scaled,
            scaled == frame_rate * ticks,
            d > 0,
    ;
    vstd::arithmetic::div_mod::lemma_multiply_divide_lt(earlier * d, frame_rate, ticks);
}

/// Round trip: the position at which a frame begins is shown as that same
/// frame, at every positive frame rate.
pub proof fn lemma_frame_round_trip(frame: Frames, frame_rate: u64)
    requires
        frame_rate > 0,
    ensures
        seconds_to_frame(frame_to_seconds(frame.0 as int, frame_rate as int), frame_rate as int)
            == frame.0,
        frame.to_seconds(frame_rate).ticks() == frame_to_seconds(
            frame.0 as int,
            frame_rate as int,
        ),
        frame.to_seconds(frame_rate).to_frames(frame_rate) == frame,
{
    let d: int = 0x1_0000_0000_0000_0000;
    let f = frame.0 as int;
    let r = frame_rate as int;
    let scaled = f * d;
    let ticks = frame_to_seconds(f, r);
    lemma_frame_to_seconds_parts(f, r);
    vstd::arithmetic::div_mod::lemma_fundamental_div_mod(scaled, r);
    vstd::arithmetic::div_mod::lemma_mod_bound(scaled, r);
    let shown = ticks * r + d - 1;
    assert(ticks * r == r * ticks) by (nonlinear_arith);
    let rest = shown - f * d;
    assert(0 <= rest < d);
    assert(shown == f * d + rest);
    vstd::arithmetic::div_mod::lemma_fundamental_div_mod_converse_div(shown, d, f, rest);
    assert(frame.to_seconds(frame_rate).ticks() == ticks);
}

} // verus!
