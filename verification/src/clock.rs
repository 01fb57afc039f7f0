//! The frame clock: the time of the last frame and a frame rate averaged over
//! about one second.

use crate::units::{clamp_u32, clamp_u64, MICROS_PER_SECOND};
use vstd::prelude::*;

verus! {

/// Thousandths of a frame per second that one frame per microsecond makes.
pub const RATE_SCALE: u64 = 1_000_000_000;

/// Frame timing. Times are in microseconds, the rate in thousandths of a
/// frame per second.
#[derive(Clone, Copy, Debug, PartialEq, Eq, Structural)]
pub struct FrameClock {
    /// Duration of the last frame.
    pub dt: u32,
    /// Time accumulated since the average was last computed.
    pub dt_sum: u64,
    /// Frames counted since the average was last computed.
    pub frame_count: u32,
    /// The average frame rate, as last computed.
    pub avg_fps: u64,
}

/// The rate of `frames` frames in `micros` microseconds, rounded down to a
/// thousandth of a frame per second.
pub open spec fn average_rate(frames: int, micros: int) -> int
    recommends
        micros > 0,
{
    frames * RATE_SCALE / micros
}

/// The sum of the durations `dts`.
pub open spec fn total_micros(dts: Seq<u32>) -> int
    decreases dts.len(),
{
    if dts.len() == 0 {
        0
    } else {
        total_micros(dts.drop_last()) + dts.last()
    }
}

/// A number with two decimal places, as the status line shows it.
#[derive(Clone, Copy, Debug, PartialEq, Eq, Structural)]
pub struct TwoDecimals {
    pub whole: u64,
    /// Below 100.
    pub hundredths: u64,
}

/// What the status line shows of a frame: the average frame rate in frames
/// per second and the duration of the last frame in milliseconds.
#[derive(Clone, Copy, Debug, PartialEq, Eq, Structural)]
pub struct FrameStatus {
    pub fps: TwoDecimals,
    pub dt_millis: TwoDecimals,
}

/// The number of hundredths nearest to `thousandths` thousandths; a half
/// rounds up.
pub open spec fn nearest_hundredths(thousandths: int) -> int
    recommends
        thousandths >= 0,
{
    (thousandths + 5) / 10
}

/// `thousandths` rounded to two decimal places.
pub open spec fn rounded(thousandths: u64) -> TwoDecimals {
    TwoDecimals {
        whole: (nearest_hundredths(thousandths as int) / 100) as u64,
        hundredths: (nearest_hundredths(thousandths as int) % 100) as u64,
    }
}

/// Rounds a number of thousandths to two decimal places.
pub fn round_to_hundredths(thousandths: u64) -> (number: TwoDecimals)
    ensures
        number == rounded(thousandths),
{
    let carry: u64 = if thousandths % 10 >= 5 {
        1
    } else {
        0
    };
    let hundredths: u64 = thousandths / 10 + carry;
    TwoDecimals { whole: hundredths / 100, hundredths: hundredths % 100 }
}

impl FrameClock {
    /// The clock before the first frame.
    pub open spec fn initial() -> FrameClock {
        FrameClock { dt: 0, dt_sum: 0, frame_count: 0, avg_fps: 0 }
    }

    /// The clock after a frame that took `elapsed` microseconds. The frame
    /// is added to the time and to the count; once the time exceeds one
    /// second the average becomes the count over the time and both start
    /// again from zero. Until then the average keeps its value.
    pub open spec fn after_tick(self, elapsed: u32) -> FrameClock {
        let total = clamp_u64(self.dt_sum + elapsed);
        let frames = clamp_u32(self.frame_count + 1);
        if total > MICROS_PER_SECOND {
            FrameClock {
                dt: elapsed,
                dt_sum: 0,
                frame_count: 0,
                avg_fps: average_rate(frames as int, total as int) as u64,
            }
        } else {
            FrameClock { dt: elapsed, dt_sum: total, frame_count: frames, avg_fps: self.avg_fps }
        }
    }

    /// The clock after one frame for each duration of `dts`, in order.
    pub open spec fn after_ticks(self, dts: Seq<u32>) -> FrameClock
        decreases dts.len(),
    {
        if dts.len() == 0 {
            self
        } else {
            self.after_ticks(dts.drop_last()).after_tick(dts.last())
        }
    }

    /// The clock before the first frame.
    pub fn new() -> (clock: FrameClock)
        ensures
            clock == FrameClock::initial(),
    {
        FrameClock { dt: 0, dt_sum: 0, frame_count: 0, avg_fps: 0 }
    }

    /// Counts a frame that took `elapsed` microseconds.
    pub fn tick(&mut self, elapsed: u32)
        ensures
            *final(self) == old(self).after_tick(elapsed),
    {
        let total: u64 = self.dt_sum.saturating_add(elapsed as u64);
        let frames: u32 = self.frame_count.saturating_add(1);
        self.dt = elapsed;
        if total > MICROS_PER_SECOND {
            self.avg_fps = frames as u64 * RATE_SCALE / total;
            self.dt_sum = 0;
            self.frame_count = 0;
        } else {
            self.dt_sum = total;
            self.frame_count = frames;
        }
    }

    /// The average frame rate, in thousandths of a frame per second.
    pub fn avg_fps(&self) -> (rate: u64)
        ensures
            rate == self.avg_fps,
    {
        self.avg_fps
    }

    /// The duration of the last frame, in thousandths of a millisecond.
    pub fn dt(&self) -> (millis: u32)
        ensures
            millis == self.dt,
    {
        self.dt
    }

    /// What the status line shows after this frame.
    pub fn status(&self) -> (status: FrameStatus)
        ensures
            status.fps == rounded(self.avg_fps),
            status.dt_millis == rounded(self.dt as u64),
    {
        FrameStatus {
            fps: round_to_hundredths(self.avg_fps),
            dt_millis: round_to_hundredths(self.dt as u64),
        }
    }
}

/// The average is computed anew, and time and count start again from zero,
/// only by a frame that carries the accumulated time over one second; any
/// other frame leaves the average as it was. After every frame the
/// accumulated time is at most one second.
pub proof fn lemma_average_changes_only_over_one_second(clock: FrameClock, elapsed: u32)
    ensures
        clock.dt_sum + elapsed <= MICROS_PER_SECOND ==> {
            &&& clock.after_tick(elapsed).avg_fps == clock.avg_fps
            &&& clock.after_tick(elapsed).dt_sum == clock.dt_sum + elapsed
            &&& clock.after_tick(elapsed).frame_count == clamp_u32(clock.frame_count + 1)
        },
        clock.dt_sum + elapsed > MICROS_PER_SECOND ==> {
            &&& clock.after_tick(elapsed).dt_sum == 0
            &&& clock.after_tick(elapsed).frame_count == 0
        },
        clock.after_tick(elapsed).dt_sum <= MICROS_PER_SECOND,
        clock.after_tick(elapsed).dt == elapsed,
{
}

/// While the frames since the last average add up to no more than one
/// second, the clock only accumulates: the time is the sum of the frames,
/// the count is their number, and the average keeps the value it had.
pub proof fn lemma_average_holds_within_second(clock: FrameClock, dts: Seq<u32>)
    requires
        clock.dt_sum == 0,
        clock.frame_count == 0,
        dts.len() <= u32::MAX,
        total_micros(dts) <= MICROS_PER_SECOND,
    ensures
        clock.after_ticks(dts).dt_sum == total_micros(dts),
        clock.after_ticks(dts).frame_count == dts.len(),
        clock.after_ticks(dts).avg_fps == clock.avg_fps,
    decreases dts.len(),
{
    if dts.len() > 0 {
        lemma_average_holds_within_second(clock, dts.drop_last());
    }
}

/// Frames that first add up to more than one second at the last of them
/// give, after that last frame, an average of their number over their sum,
/// and leave the accumulated time and the frame count at zero.
pub proof fn lemma_average_at_boundary(clock: FrameClock, dts: Seq<u32>)
    requires
        clock.dt_sum == 0,
        clock.frame_count == 0,
        0 < dts.len() <= u32::MAX,
        total_micros(dts.drop_last()) <= MICROS_PER_SECOND,
        total_micros(dts) > MICROS_PER_SECOND,
    ensures
        clock.after_ticks(dts).avg_fps == average_rate(dts.len() as int, total_micros(dts)),
        clock.after_ticks(dts).dt_sum == 0,
        clock.after_ticks(dts).frame_count == 0,
        clock.after_ticks(dts).dt == dts.last(),
{
    lemma_average_holds_within_second(clock, dts.drop_last());
}

} // verus!
