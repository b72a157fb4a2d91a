//! Animation sequences: frames with their delays, and how long a sequence is
//! to be played. All spans of time are whole nanoseconds unless said
//! otherwise.

use vstd::prelude::*;

use crate::anime::AnimeDataBuffer;

verus! {

/// Nanoseconds in one millisecond.
pub const NANOS_PER_MILLI: u64 = 1_000_000;

/// A fade-in, an optional time of full display, and a fade-out.
#[derive(Debug, Clone, Copy, PartialEq, Eq)]
pub struct Fade {
    pub fade_in: u64,
    pub show_for: Option<u64>,
    pub fade_out: u64,
}

impl Fade {
    pub fn new(fade_in: u64, show_for: Option<u64>, fade_out: u64) -> (fade: Self)
        ensures
            fade == (Fade { fade_in, show_for, fade_out }),
    {
        Fade { fade_in, show_for, fade_out }
    }

    pub fn fade_in(&self) -> (t: u64)
        ensures
            t == self.fade_in,
    {
        self.fade_in
    }

    pub fn show_for(&self) -> (t: Option<u64>)
        ensures
            t == self.show_for,
    {
        self.show_for
    }

    pub fn fade_out(&self) -> (t: u64)
        ensures
            t == self.fade_out,
    {
        self.fade_out
    }

    /// Time spent fading in and out together.
    pub open spec fn spec_total_fade_time(self) -> int {
        self.fade_in + self.fade_out
    }

    /// Time spent fading in and out together.
    pub fn total_fade_time(&self) -> (t: u128)
        ensures
            t == self.spec_total_fade_time(),
    {
        self.fade_in as u128 + self.fade_out as u128
    }
}

/// How long a sequence is played.
#[derive(Debug, Clone, Copy, PartialEq, Eq)]
pub enum AnimTime {
    /// Play until this many milliseconds have passed.
    Time(u64),
    /// Play this many full passes; a negative count never ends by itself.
    Count(i32),
    /// Play until told to stop.
    Infinite,
    /// Fade in, show, fade out.
    Fade(Fade),
}

/// One frame and how long it stays before the next one.
#[derive(Debug)]
pub struct AnimeFrame {
    data: AnimeDataBuffer,
    delay: u64,
}

impl AnimeFrame {
    /// The bytes of the frame's pixel buffer.
    pub closed spec fn spec_data(&self) -> Seq<u8> {
        self.data.spec_data()
    }

    pub closed spec fn spec_frame(&self) -> AnimeDataBuffer {
        self.data
    }

    pub closed spec fn spec_delay(&self) -> u64 {
        self.delay
    }

    pub fn new(data: AnimeDataBuffer, delay: u64) -> (frame: Self)
        ensures
            frame.spec_frame() == data,
            frame.spec_data() == data.spec_data(),
            frame.spec_delay() == delay,
    {
        AnimeFrame { data, delay }
    }

    /// The frame's pixel buffer.
    pub fn frame(&self) -> (data: &AnimeDataBuffer)
        ensures
            *data == self.spec_frame(),
            data.spec_data() == self.spec_data(),
    {
        &self.data
    }

    /// How long the frame stays, in nanoseconds.
    pub fn delay(&self) -> (delay: u64)
        ensures
            delay == self.spec_delay(),
    {
        self.delay
    }
}

impl Clone for AnimeFrame {
    fn clone(&self) -> (copy: Self)
        ensures
            copy.spec_data() == self.spec_data(),
            copy.spec_frame().spec_anime() == self.spec_frame().spec_anime(),
            copy.spec_delay() == self.spec_delay(),
    {
        AnimeFrame { data: self.data.clone(), delay: self.delay }
    }
}

/// The delays of a sequence of frames, in order.
pub open spec fn spec_delays(frames: Seq<AnimeFrame>) -> Seq<u64> {
    Seq::new(frames.len(), |i: int| frames[i].spec_delay())
}

/// The sum of the delays, each cut down to whole milliseconds.
pub open spec fn spec_total_millis(delays: Seq<u64>) -> int
    decreases delays.len(),
{
    if delays.len() == 0 {
        0
    } else {
        spec_total_millis(delays.drop_last()) + delays.last() as int / 1_000_000
    }
}

/// The time of one pass in nanoseconds, at millisecond precision.
pub open spec fn spec_total_frame_time(delays: Seq<u64>) -> int {
    spec_total_millis(delays) * 1_000_000
}

/// One pass never takes longer than its frames' delays together.
pub proof fn lemma_total_millis_bound(delays: Seq<u64>)
    ensures
        0 <= spec_total_millis(delays) <= delays.len() * 18_446_744_073_709,
    decreases delays.len(),
{
    if delays.len() > 0 {
        lemma_total_millis_bound(delays.drop_last());
        assert(delays.last() as int / 1_000_000 <= 18_446_744_073_709);
        assert((delays.len() - 1) * 18_446_744_073_709 + 18_446_744_073_709 == delays.len()
            * 18_446_744_073_709) by (nonlinear_arith);
    }
}

/// A restartable sequence of frames and the rule for how long it plays.
#[derive(Debug)]
pub struct AnimeGif {
    frames: Vec<AnimeFrame>,
    duration: AnimTime,
}

impl AnimeGif {
    pub closed spec fn spec_frames(&self) -> Seq<AnimeFrame> {
        self.frames@
    }

    pub closed spec fn spec_duration(&self) -> AnimTime {
        self.duration
    }

    pub fn new(frames: Vec<AnimeFrame>, duration: AnimTime) -> (gif: Self)
        ensures
            gif.spec_frames() == frames@,
            gif.spec_duration() == duration,
    {
        AnimeGif { frames, duration }
    }

    /// The frames in playing order.
    pub fn frames(&self) -> (frames: &[AnimeFrame])
        ensures
            frames@ == self.spec_frames(),
    {
        self.frames.as_slice()
    }

    /// The rule for how long the sequence plays.
    pub fn duration(&self) -> (duration: AnimTime)
        ensures
            duration == self.spec_duration(),
    {
        self.duration
    }

    /// The time that one pass over all frames takes, in nanoseconds: the
    /// delays are summed at millisecond precision.
    pub fn total_frame_time(&self) -> (total: u128)
        ensures
            total == spec_total_frame_time(spec_delays(self.spec_frames())),
    {
        let ghost delays = spec_delays(self.frames@);
        let mut millis: u128 = 0;
        let mut i: usize = 0;
        while i < self.frames.len()
            invariant
                i <= self.frames@.len(),
                delays == spec_delays(self.frames@),
                millis == spec_total_millis(delays.take(i as int)),
            decreases self.frames@.len() - i,
        {
            proof {
                lemma_total_millis_bound(delays.take(i as int));
                assert(i * 18_446_744_073_709 <= 0xffff_ffff_ffff_ffff * 18_446_744_073_709)
                    by (nonlinear_arith)
                    requires
                        i <= 0xffff_ffff_ffff_ffff,
                ;
                assert(delays.take(i + 1).drop_last() =~= delays.take(i as int));
                assert(delays.take(i + 1).last() == self.frames@[i as int].spec_delay());
            }
            millis = millis + (self.frames[i].delay / NANOS_PER_MILLI) as u128;
            i += 1;
        }
        proof {
            assert(delays.take(i as int) =~= delays);
            lemma_total_millis_bound(delays);
            assert(spec_total_millis(delays) * 1_000_000 <= 0xffff_ffff_ffff_ffff
                * 0xffff_ffff_ffff_ffff) by (nonlinear_arith)
                requires
                    0 <= spec_total_millis(delays) <= delays.len() * 18_446_744_073_709,
                    delays.len() <= 0xffff_ffff_ffff_ffff,
            ;
        }
        millis * (NANOS_PER_MILLI as u128)
    }
}

/// The loops that are left after one more pass: a count that is not
/// negative goes down by one, a negative count stays.
pub open spec fn spec_loops_left(loops: i32) -> int {
    if loops >= 0 {
        loops - 1
    } else {
        loops as int
    }
}

/// Counts one pass of a picture that is played `loops` more times. Gives
/// the loops that are left and whether playing ends: it ends when the count
/// reaches zero, so a count that starts at zero or below never ends it.
pub fn pass_done(loops: i32) -> (after: (i32, bool))
    ensures
        after.0 == spec_loops_left(loops),
        after.1 == (loops == 1),
{
    let left: i32 = if loops >= 0 {
        loops - 1
    } else {
        loops
    };
    (left, left == 0)
}

} // verus!
