//! Playback decisions for an animation sequence.
//!
//! The caller owns the clock, the sleep and the transmission. Before each
//! frame it reports the time that has passed since the start and is told
//! which frame to send and how to scale it; after sending, it reports whether
//! the receiver asked to stop and the time again, and is told to sleep or to
//! halt.

use vstd::prelude::*;

use crate::sequence::{spec_delays, spec_total_frame_time, AnimTime, AnimeGif};

verus! {

/// Added to the run time of a fading sequence, in nanoseconds.
pub const SAFETY_MARGIN: u64 = 250_000_000;

/// How the intensities of a frame are scaled before it is sent.
#[derive(Debug, Clone, Copy, PartialEq, Eq)]
pub enum FrameScale {
    /// Sent as stored.
    Full,
    /// Every intensity becomes zero.
    Dark,
    /// Every intensity is multiplied by `part / whole`, both in nanoseconds.
    Ratio { part: u128, whole: u128 },
}

/// The frame to send next.
#[derive(Debug, Clone, Copy, PartialEq, Eq)]
pub struct FrameOrder {
    /// Position of the frame in the sequence.
    pub index: usize,
    pub scale: FrameScale,
}

/// What to do after a frame was sent.
#[derive(Debug, Clone, Copy, PartialEq, Eq)]
pub enum Step {
    /// The run is over.
    Halt,
    /// Sleep for this many nanoseconds, then ask for the next frame.
    Sleep(u64),
}

/// The time limits of a run, in nanoseconds.
#[derive(Debug, Clone, Copy, PartialEq, Eq)]
pub struct Timing {
    /// Whether the run ends once `run_time` has passed.
    pub timed: bool,
    pub run_time: u128,
    pub fade_in: u128,
    pub fade_out: u128,
}

/// Whether the clock can end a run of this kind.
pub open spec fn spec_timed(duration: AnimTime) -> bool {
    duration is Fade || duration is Time
}

/// The run time for `duration`, where one pass takes `total` nanoseconds.
pub open spec fn spec_run_time(duration: AnimTime, total: int) -> int {
    match duration {
        AnimTime::Fade(fade) => match fade.show_for {
            Some(middle) => middle + fade.spec_total_fade_time() + 250_000_000,
            None => total + 250_000_000,
        },
        AnimTime::Time(millis) => millis * 1_000_000,
        _ => total,
    }
}

/// Whether the two fades together are longer than the run.
pub open spec fn spec_fades_clamped(duration: AnimTime, total: int) -> bool {
    duration matches AnimTime::Fade(fade) && fade.spec_total_fade_time() > spec_run_time(
        duration,
        total,
    )
}

/// The length of the fade-in: none without fading, half the run time where
/// the two fades together are longer than the run.
pub open spec fn spec_fade_in(duration: AnimTime, total: int) -> int {
    match duration {
        AnimTime::Fade(fade) => if spec_fades_clamped(duration, total) {
            spec_run_time(duration, total) / 2
        } else {
            fade.fade_in as int
        },
        _ => 0,
    }
}

/// The length of the fade-out, found as that of the fade-in.
pub open spec fn spec_fade_out(duration: AnimTime, total: int) -> int {
    match duration {
        AnimTime::Fade(fade) => if spec_fades_clamped(duration, total) {
            spec_run_time(duration, total) / 2
        } else {
            fade.fade_out as int
        },
        _ => 0,
    }
}

/// The largest time that one pass can take.
pub open spec fn spec_max_total() -> int {
    0xffff_ffff_ffff_ffff as int * 18_446_744_073_709_000_000
}

/// Works out the time limits of a run from its rule and the time of one pass.
fn timing(duration: AnimTime, total: u128) -> (t: Timing)
    requires
        total <= spec_max_total(),
    ensures
        t.timed == spec_timed(duration),
        t.run_time == spec_run_time(duration, total as int),
        t.fade_in == spec_fade_in(duration, total as int),
        t.fade_out == spec_fade_out(duration, total as int),
        t.fade_in + t.fade_out <= t.run_time || !(duration is Fade),
{
    assert(spec_max_total() + 250_000_000 < 0xffff_ffff_ffff_ffff_ffff_ffff_ffff_ffff) by {
        assert(0xffff_ffff_ffff_ffff as int * 18_446_744_073_709_000_000
            == 340_282_366_920_928_287_925_748_899_990_035_000_000) by (nonlinear_arith);
    }
    match duration {
        AnimTime::Fade(fade) => {
            let run_time: u128 = match fade.show_for {
                Some(middle) => middle as u128 + fade.total_fade_time() + SAFETY_MARGIN as u128,
                None => total + SAFETY_MARGIN as u128,
            };
            if fade.total_fade_time() > run_time {
                Timing { timed: true, run_time, fade_in: run_time / 2, fade_out: run_time / 2 }
            } else {
                Timing {
                    timed: true,
                    run_time,
                    fade_in: fade.fade_in as u128,
                    fade_out: fade.fade_out as u128,
                }
            }
        },
        AnimTime::Time(millis) => {
            assert(millis * 1_000_000 <= 0xffff_ffff_ffff_ffff * 1_000_000) by (nonlinear_arith)
                requires
                    millis <= 0xffff_ffff_ffff_ffff,
            ;
            Timing { timed: true, run_time: millis as u128 * 1_000_000, fade_in: 0, fade_out: 0 }
        },
        _ => Timing { timed: false, run_time: total, fade_in: 0, fade_out: 0 },
    }
}

/// The state of a run as contracts see it.
pub struct RunView {
    /// The delay of each frame, in playing order.
    pub delays: Seq<u64>,
    pub duration: AnimTime,
    pub timing: Timing,
    /// Position of the frame that is sent next.
    pub index: int,
    /// Full passes made so far, counted only where the rule counts passes.
    pub passes: int,
    /// The clock reading at the last frame that fell into the fade-in.
    pub fade_mark: Option<u128>,
    pub finished: bool,
}

/// Passes that a rule asks for, if it counts them: a count of zero plays
/// once, a negative count is no limit.
pub open spec fn spec_passes_wanted(duration: AnimTime) -> Option<int> {
    match duration {
        AnimTime::Count(times) => if times < 0 {
            None
        } else if times == 0 {
            Some(1)
        } else {
            Some(times as int)
        },
        _ => None,
    }
}

impl RunView {
    /// What holds of every run.
    pub open spec fn wf(self) -> bool {
        &&& self.timing.timed == spec_timed(self.duration)
        &&& self.timing.run_time == spec_run_time(
            self.duration,
            spec_total_frame_time(self.delays),
        )
        &&& self.timing.fade_in == spec_fade_in(
            self.duration,
            spec_total_frame_time(self.delays),
        )
        &&& self.timing.fade_out == spec_fade_out(
            self.duration,
            spec_total_frame_time(self.delays),
        )
        &&& self.timing.fade_in + self.timing.fade_out <= self.timing.run_time
        &&& self.fade_mark matches Some(mark) ==> mark <= self.timing.fade_in
        &&& 0 <= self.index
        &&& self.index < self.delays.len() || self.index == 0
        &&& 0 <= self.passes
        &&& match spec_passes_wanted(self.duration) {
            Some(wanted) => if self.finished {
                self.passes <= wanted
            } else {
                self.passes < wanted
            },
            None => self.passes == 0,
        }
    }

    /// The state before the first frame.
    pub open spec fn fresh(self) -> bool {
        self.index == 0 && self.passes == 0 && self.fade_mark is None && !self.finished
    }

    /// No frame will be sent any more.
    pub open spec fn over(self) -> bool {
        self.finished || self.delays.len() == 0
    }

    /// The scaling of a frame that starts when `elapsed` has passed.
    pub open spec fn scale_at(self, elapsed: u128) -> FrameScale {
        if !(self.duration is Fade) {
            FrameScale::Full
        } else if elapsed <= self.timing.fade_in {
            match self.fade_mark {
                Some(mark) => FrameScale::Ratio { part: mark, whole: self.timing.fade_in },
                None => FrameScale::Dark,
            }
        } else if elapsed + self.timing.fade_out > self.timing.run_time {
            if self.timing.run_time > elapsed {
                FrameScale::Ratio {
                    part: (self.timing.run_time - elapsed) as u128,
                    whole: self.timing.fade_out,
                }
            } else {
                FrameScale::Dark
            }
        } else {
            FrameScale::Full
        }
    }

    /// The frame to send when `elapsed` has passed, if the run is not over.
    pub open spec fn order_at(self, elapsed: u128) -> Option<FrameOrder> {
        if self.over() {
            None
        } else {
            Some(FrameOrder { index: self.index as usize, scale: self.scale_at(elapsed) })
        }
    }

    /// The state after a frame was asked for when `elapsed` had passed.
    pub open spec fn after_start(self, elapsed: u128) -> RunView {
        if !self.over() && self.duration is Fade && elapsed <= self.timing.fade_in {
            RunView { fade_mark: Some(elapsed), ..self }
        } else {
            self
        }
    }

    /// What follows a sent frame: `stop` is the receiver's wish to end the
    /// run, `elapsed` the clock reading after sending.
    pub open spec fn step_at(self, stop: bool, elapsed: u128) -> Step {
        if self.over() || stop || (self.timing.timed && elapsed > self.timing.run_time) {
            Step::Halt
        } else {
            Step::Sleep(self.delays[self.index])
        }
    }

    /// The state after a sent frame.
    pub open spec fn after_done(self, stop: bool, elapsed: u128) -> RunView {
        if self.step_at(stop, elapsed) is Halt {
            RunView { finished: true, ..self }
        } else if self.index + 1 < self.delays.len() {
            RunView { index: self.index + 1, ..self }
        } else {
            match spec_passes_wanted(self.duration) {
                Some(wanted) => RunView {
                    index: 0,
                    passes: self.passes + 1,
                    finished: self.passes + 1 >= wanted,
                    ..self
                },
                None => RunView { index: 0, ..self },
            }
        }
    }

    /// The state after `count` more frames were sent with no wish to stop,
    /// each at the clock reading zero.
    pub open spec fn after_frames(self, count: nat) -> RunView
        decreases count,
    {
        if count == 0 {
            self
        } else {
            self.after_frames((count - 1) as nat).after_start(0).after_done(false, 0)
        }
    }
}

/// A run of one animation sequence.
#[derive(Debug)]
pub struct AnimationRun {
    delays: Vec<u64>,
    duration: AnimTime,
    timing: Timing,
    index: usize,
    passes: u32,
    fade_mark: Option<u128>,
    finished: bool,
}

impl View for AnimationRun {
    type V = RunView;

    closed spec fn view(&self) -> RunView {
        RunView {
            delays: self.delays@,
            duration: self.duration,
            timing: self.timing,
            index: self.index as int,
            passes: self.passes as int,
            fade_mark: self.fade_mark,
            finished: self.finished,
        }
    }
}

impl AnimationRun {
    #[verifier::type_invariant]
    spec fn inv(self) -> bool {
        self@.wf()
    }

    /// Prepares a run of `gif` from its first frame.
    pub fn new(gif: &AnimeGif) -> (run: Self)
        ensures
            run@.wf(),
            run@.fresh(),
            run@.delays == spec_delays(gif.spec_frames()),
            run@.duration == gif.spec_duration(),
    {
        let frames = gif.frames();
        let mut delays: Vec<u64> = Vec::with_capacity(frames.len());
        let mut i: usize = 0;
        while i < frames.len()
            invariant
                i <= frames@.len(),
                delays@ == spec_delays(frames@).take(i as int),
            decreases frames@.len() - i,
        {
            delays.push(frames[i].delay());
            i += 1;
            assert(delays@ =~= spec_delays(frames@).take(i as int));
        }
        assert(delays@ =~= spec_delays(frames@));
        let total = gif.total_frame_time();
        proof {
            crate::sequence::lemma_total_millis_bound(delays@);
            assert(spec_total_frame_time(delays@) <= spec_max_total()) by (nonlinear_arith)
                requires
                    0 <= crate::sequence::spec_total_millis(delays@) <= delays@.len()
                        * 18_446_744_073_709,
                    delays@.len() <= 0xffff_ffff_ffff_ffff,
                    spec_total_frame_time(delays@) == crate::sequence::spec_total_millis(delays@)
                        * 1_000_000,
                    spec_max_total() == 0xffff_ffff_ffff_ffff as int * 18_446_744_073_709_000_000,
            ;
        }
        let duration = gif.duration();
        let timing = timing(duration, total);
        AnimationRun {
            delays,
            duration,
            timing,
            index: 0,
            passes: 0,
            fade_mark: None,
            finished: false,
        }
    }

    /// The time limits of the run.
    pub fn timing(&self) -> (timing: Timing)
        ensures
            timing == self@.timing,
    {
        self.timing
    }

    /// Whether no frame will be sent any more.
    pub fn is_over(&self) -> (over: bool)
        ensures
            over == self@.over(),
    {
        self.finished || self.delays.len() == 0
    }

    /// Asks for the frame to send, `elapsed` nanoseconds after the start.
    pub fn frame_start(&mut self, elapsed: u128) -> (order: Option<FrameOrder>)
        ensures
            order == old(self)@.order_at(elapsed),
            final(self)@ == old(self)@.after_start(elapsed),
            order matches Some(o) ==> o.index < old(self)@.delays.len(),
            order matches Some(FrameOrder { scale: FrameScale::Ratio { part, whole }, .. })
                ==> part <= whole,
            old(self)@.wf(),
            final(self)@.wf(),
    {
        proof {
            use_type_invariant(&*self);
        }
        if self.finished || self.delays.len() == 0 {
            return None;
        }
        let scale = match self.duration {
            AnimTime::Fade(_) => {
                if elapsed <= self.timing.fade_in {
                    let scale = match self.fade_mark {
                        Some(mark) => FrameScale::Ratio { part: mark, whole: self.timing.fade_in },
                        None => FrameScale::Dark,
                    };
                    self.fade_mark = Some(elapsed);
                    scale
                } else if self.timing.fade_out > self.timing.run_time || elapsed
                    > self.timing.run_time - self.timing.fade_out {
                    if self.timing.run_time > elapsed {
                        FrameScale::Ratio {
                            part: self.timing.run_time - elapsed,
                            whole: self.timing.fade_out,
                        }
                    } else {
                        FrameScale::Dark
                    }
                } else {
                    FrameScale::Full
                }
            },
            _ => FrameScale::Full,
        };
        Some(FrameOrder { index: self.index, scale })
    }

    /// Reports a sent frame: `stop` is the receiver's wish to end the run,
    /// `elapsed` the nanoseconds since the start.
    pub fn frame_done(&mut self, stop: bool, elapsed: u128) -> (step: Step)
        ensures
            step == old(self)@.step_at(stop, elapsed),
            final(self)@ == old(self)@.after_done(stop, elapsed),
            stop ==> step is Halt,
            step is Halt ==> final(self)@.over(),
            old(self)@.wf(),
            final(self)@.wf(),
    {
        proof {
            use_type_invariant(&*self);
        }
        if self.finished || self.delays.len() == 0 || stop || (self.timing.timed && elapsed
            > self.timing.run_time) {
            self.finished = true;
            return Step::Halt;
        }
        let delay = self.delays[self.index];
        if self.index + 1 < self.delays.len() {
            self.index = self.index + 1;
        } else {
            self.index = 0;
            match self.duration {
                AnimTime::Count(times) => {
                    if times >= 0 {
                        let passes = self.passes + 1;
                        if times == 0 || passes >= times as u32 {
                            self.finished = true;
                        }
                        self.passes = passes;
                    }
                },
                _ => {},
            }
        }
        Step::Sleep(delay)
    }
}

/// The two fades of a run never take longer together than the run itself.
pub proof fn lemma_fades_fit(duration: AnimTime, total: int)
    requires
        0 <= total,
    ensures
        spec_fade_in(duration, total) + spec_fade_out(duration, total) <= spec_run_time(
            duration,
            total,
        ),
        spec_fades_clamped(duration, total) ==> spec_fade_in(duration, total) == spec_run_time(
            duration,
            total,
        ) / 2 && spec_fade_out(duration, total) == spec_run_time(duration, total) / 2,
{
}

/// A fade never brightens: whenever a frame is scaled by a ratio, the part
/// is at most the whole.
pub proof fn lemma_fade_never_brightens(run: RunView, elapsed: u128)
    requires
        run.wf(),
    ensures
        run.scale_at(elapsed) matches FrameScale::Ratio { part, whole } ==> part <= whole,
        run.after_start(elapsed).wf(),
{
}

/// A run that is over stays over: no frame is asked for any more, every
/// report of a sent frame is answered by a halt, and a wish to stop ends
/// any run.
pub proof fn lemma_over_is_final(run: RunView, stop: bool, elapsed: u128)
    ensures
        run.over() ==> run.order_at(elapsed) is None && run.step_at(stop, elapsed) is Halt,
        run.over() ==> run.after_start(elapsed).over() && run.after_done(stop, elapsed).over(),
        run.step_at(true, elapsed) is Halt,
        run.after_done(true, elapsed).over(),
{
}

/// Quotient and remainder of a count of frames by the length of a pass,
/// one frame later.
proof fn lemma_next_frame(k: int, len: int)
    requires
        0 <= k,
        0 < len,
    ensures
        0 <= k % len < len,
        k == (k / len) * len + k % len,
        k % len + 1 < len ==> (k + 1) % len == k % len + 1 && (k + 1) / len == k / len,
        k % len + 1 >= len ==> (k + 1) % len == 0 && (k + 1) / len == k / len + 1,
{
    vstd::arithmetic::div_mod::lemma_fundamental_div_mod(k, len);
    vstd::arithmetic::div_mod::lemma_mod_bound(k, len);
    let q = k / len;
    let r = k % len;
    assert(k == q * len + r) by (nonlinear_arith)
        requires
            k == len * q + r,
    ;
    if r + 1 < len {
        assert(k + 1 == q * len + (r + 1));
        vstd::arithmetic::div_mod::lemma_fundamental_div_mod_converse(k + 1, len, q, r + 1);
    } else {
        assert(k + 1 == (q + 1) * len + 0) by (nonlinear_arith)
            requires
                k == q * len + r,
                r + 1 == len,
        ;
        vstd::arithmetic::div_mod::lemma_fundamental_div_mod_converse(k + 1, len, q + 1, 0);
    }
}

/// A run that counts passes sends exactly as many frames as the passes it
/// asks for hold, unless it is told to stop: after `count` frames it is at
/// frame `count % len` of pass `count / len`, and it is over exactly when
/// `count` reaches the passes wanted times the frames of one pass.
pub proof fn lemma_counted_run(run: RunView, count: nat)
    requires
        run.wf(),
        run.fresh(),
        run.delays.len() > 0,
        spec_passes_wanted(run.duration) is Some,
        count <= spec_passes_wanted(run.duration).unwrap() * run.delays.len(),
    ensures
        run.after_frames(count).wf(),
        run.after_frames(count).over() <==> count == spec_passes_wanted(run.duration).unwrap()
            * run.delays.len(),
        !run.after_frames(count).over() ==> run.after_frames(count).index == count
            % run.delays.len() && run.after_frames(count).passes == count / run.delays.len(),
        run.after_frames(count).delays == run.delays,
        run.after_frames(count).duration == run.duration,
        run.after_frames(count).timing == run.timing,
    decreases count,
{
    let len = run.delays.len() as int;
    let wanted = spec_passes_wanted(run.duration).unwrap();
    if count == 0 {
        assert(0int % len == 0 && 0int / len == 0) by (nonlinear_arith)
            requires
                len > 0,
        ;
        assert(wanted * len > 0) by (nonlinear_arith)
            requires
                wanted >= 1,
                len > 0,
        ;
    } else {
        let k: int = count - 1;
        let c: int = count as int;
        lemma_counted_run(run, k as nat);
        let before = run.after_frames(k as nat);
        lemma_next_frame(k, len);
        assert(k < wanted * len);
        assert(!before.over());
        assert(before.after_start(0) == before);
        assert(run.after_frames(count) == before.after_done(false, 0));
        assert(k / len < wanted) by (nonlinear_arith)
            requires
                k < wanted * len,
                k == (k / len) * len + k % len,
                0 <= k % len,
                len > 0,
        ;
        if before.index + 1 < len {
            assert(c < wanted * len) by (nonlinear_arith)
                requires
                    c == (k / len) * len + k % len + 1,
                    k % len + 1 < len,
                    k / len < wanted,
                    len > 0,
            ;
        } else {
            assert(c == (k / len + 1) * len) by (nonlinear_arith)
                requires
                    c == (k / len) * len + k % len + 1,
                    k % len + 1 == len,
            ;
            assert((k / len + 1 >= wanted) <==> (c == wanted * len)) by (nonlinear_arith)
                requires
                    c == (k / len + 1) * len,
                    c <= wanted * len,
                    k / len < wanted,
                    len > 0,
            ;
        }
    }
}

/// A run whose rule neither counts passes nor watches the clock is never
/// over by itself.
pub proof fn lemma_endless_run(run: RunView, count: nat)
    requires
        run.wf(),
        run.fresh(),
        run.delays.len() > 0,
        spec_passes_wanted(run.duration) is None,
        !spec_timed(run.duration),
    ensures
        run.after_frames(count).wf(),
        !run.after_frames(count).over(),
        run.after_frames(count).index == count % run.delays.len(),
        run.after_frames(count).delays == run.delays,
        run.after_frames(count).duration == run.duration,
        run.after_frames(count).timing == run.timing,
    decreases count,
{
    let len = run.delays.len() as int;
    if count == 0 {
        assert(0int % len == 0) by (nonlinear_arith)
            requires
                len > 0,
        ;
    } else {
        let k: int = count - 1;
        lemma_endless_run(run, k as nat);
        lemma_next_frame(k, len);
        let before = run.after_frames(k as nat);
        assert(before.after_start(0) == before);
        assert(run.after_frames(count) == before.after_done(false, 0));
    }
}

} // verus!
