use rog_core::anime::{AnimeDataBuffer, AnimeType};
use rog_core::scheduler::{AnimationRun, FrameOrder, FrameScale, Step, Timing, SAFETY_MARGIN};
use rog_core::sequence::{AnimTime, AnimeFrame, AnimeGif, Fade};
use rog_core::sequence::pass_done;

const MS: u64 = 1_000_000;
const SEC: u64 = 1_000_000_000;

fn gif(delays: &[u64], duration: AnimTime) -> AnimeGif {
    let frames = delays
        .iter()
        .map(|d| AnimeFrame::new(AnimeDataBuffer::new(AnimeType::GA401), *d))
        .collect();
    AnimeGif::new(frames, duration)
}

/// Plays a run the way a caller does, with a clock that only moves while
/// sleeping. `stop_at` is the number of the transmission, counted from 1,
/// whose receiver asks to stop. Gives the frames sent, at most `limit`.
fn play(run: &mut AnimationRun, stop_at: Option<usize>, limit: usize) -> Vec<FrameOrder> {
    let mut clock: u128 = 0;
    let mut sent = Vec::new();
    while sent.len() < limit {
        let order = match run.frame_start(clock) {
            Some(order) => order,
            None => break,
        };
        sent.push(order);
        let stop = stop_at == Some(sent.len());
        match run.frame_done(stop, clock) {
            Step::Halt => break,
            Step::Sleep(delay) => clock += delay as u128,
        }
    }
    sent
}

#[test]
fn count_two_on_three_frames_sends_six() {
    let seq = gif(&[10 * MS, 20 * MS, 30 * MS], AnimTime::Count(2));
    let mut run = AnimationRun::new(&seq);
    let sent = play(&mut run, None, 100);
    assert_eq!(sent.len(), 6);
    let indices: Vec<usize> = sent.iter().map(|o| o.index).collect();
    assert_eq!(indices, vec![0, 1, 2, 0, 1, 2]);
    assert!(sent.iter().all(|o| o.scale == FrameScale::Full));
    assert!(run.is_over());
    assert_eq!(run.frame_start(0), None);
}

#[test]
fn stop_on_second_transmission_ends_after_two() {
    let seq = gif(&[10 * MS, 20 * MS, 30 * MS], AnimTime::Count(2));
    let mut run = AnimationRun::new(&seq);
    let sent = play(&mut run, Some(2), 100);
    assert_eq!(sent.len(), 2);
    assert!(run.is_over());
    assert_eq!(run.frame_start(0), None);
    assert_eq!(run.frame_done(false, 0), Step::Halt);
}

#[test]
fn counts_of_one_and_zero_play_once_and_negative_never_ends() {
    for count in [0, 1] {
        let seq = gif(&[MS, MS, MS, MS], AnimTime::Count(count));
        let mut run = AnimationRun::new(&seq);
        assert_eq!(play(&mut run, None, 100).len(), 4);
    }
    let seq = gif(&[MS, MS], AnimTime::Count(-1));
    let mut run = AnimationRun::new(&seq);
    assert_eq!(play(&mut run, None, 1000).len(), 1000);
    assert!(!run.is_over());
    let seq = gif(&[MS, MS], AnimTime::Infinite);
    let mut run = AnimationRun::new(&seq);
    assert_eq!(play(&mut run, None, 777).len(), 777);
    assert!(!run.is_over());
}

#[test]
fn sleep_is_the_delay_of_the_frame_sent() {
    let seq = gif(&[10 * MS, 20 * MS, 30 * MS], AnimTime::Count(1));
    let mut run = AnimationRun::new(&seq);
    assert_eq!(run.frame_start(0).map(|o| o.index), Some(0));
    assert_eq!(run.frame_done(false, 0), Step::Sleep(10 * MS));
    assert_eq!(run.frame_start(0).map(|o| o.index), Some(1));
    assert_eq!(run.frame_done(false, 0), Step::Sleep(20 * MS));
    assert_eq!(run.frame_start(0).map(|o| o.index), Some(2));
    assert_eq!(run.frame_done(false, 0), Step::Sleep(30 * MS));
    assert_eq!(run.frame_start(0), None);
}

#[test]
fn empty_sequence_is_over_at_once() {
    for duration in [
        AnimTime::Count(3),
        AnimTime::Infinite,
        AnimTime::Time(50),
        AnimTime::Fade(Fade::new(SEC, None, SEC)),
    ] {
        let seq = gif(&[], duration);
        let mut run = AnimationRun::new(&seq);
        assert!(run.is_over());
        assert_eq!(run.frame_start(0), None);
        assert_eq!(run.frame_done(false, 0), Step::Halt);
    }
}

#[test]
fn timing_of_each_rule() {
    let delays = [10 * MS + 999_999, 20 * MS, 1];
    let total = 30 * MS as u128;
    let seq = gif(&delays, AnimTime::Count(5));
    assert_eq!(seq.total_frame_time(), total);
    assert_eq!(
        AnimationRun::new(&seq).timing(),
        Timing {
            timed: false,
            run_time: total,
            fade_in: 0,
            fade_out: 0
        }
    );
    let seq = gif(&delays, AnimTime::Infinite);
    assert_eq!(
        AnimationRun::new(&seq).timing(),
        Timing {
            timed: false,
            run_time: total,
            fade_in: 0,
            fade_out: 0
        }
    );
    let seq = gif(&delays, AnimTime::Time(1500));
    assert_eq!(
        AnimationRun::new(&seq).timing(),
        Timing {
            timed: true,
            run_time: 1500 * MS as u128,
            fade_in: 0,
            fade_out: 0
        }
    );
    let seq = gif(&delays, AnimTime::Fade(Fade::new(2 * SEC, Some(3 * SEC), SEC)));
    assert_eq!(
        AnimationRun::new(&seq).timing(),
        Timing {
            timed: true,
            run_time: (6 * SEC + SAFETY_MARGIN) as u128,
            fade_in: 2 * SEC as u128,
            fade_out: SEC as u128
        }
    );
    let seq = gif(&delays, AnimTime::Fade(Fade::new(10 * MS, None, 10 * MS)));
    assert_eq!(
        AnimationRun::new(&seq).timing(),
        Timing {
            timed: true,
            run_time: total + 250 * MS as u128,
            fade_in: 10 * MS as u128,
            fade_out: 10 * MS as u128
        }
    );
}

#[test]
fn fades_longer_than_the_run_are_cut_to_half_of_it() {
    let seq = gif(&[100 * MS, 100 * MS], AnimTime::Fade(Fade::new(5 * SEC, None, 5 * SEC)));
    let run = AnimationRun::new(&seq);
    let run_time = (200 * MS + SAFETY_MARGIN) as u128;
    assert_eq!(
        run.timing(),
        Timing {
            timed: true,
            run_time,
            fade_in: run_time / 2,
            fade_out: run_time / 2
        }
    );
    let fade = Fade::new(5 * SEC, None, 5 * SEC);
    assert_eq!(fade.total_fade_time(), 10 * SEC as u128);
    assert_eq!(fade.fade_in(), 5 * SEC);
    assert_eq!(fade.fade_out(), 5 * SEC);
    assert_eq!(fade.show_for(), None);
}

#[test]
fn fade_with_show_time_of_one_second_ends_in_bounded_time() {
    let seq = gif(
        &[100 * MS, 100 * MS, 100 * MS],
        AnimTime::Fade(Fade::new(5 * SEC, Some(SEC), 5 * SEC)),
    );
    let mut run = AnimationRun::new(&seq);
    let timing = run.timing();
    assert_eq!(timing.run_time, (11 * SEC + SAFETY_MARGIN) as u128);
    assert_eq!(timing.fade_in, 5 * SEC as u128);
    assert_eq!(timing.fade_out, 5 * SEC as u128);
    let sent = play(&mut run, None, 100_000);
    // The clock moves 100 ms per frame; the frame sent at 11.3 s is the
    // first one after the run time of 11.25 s.
    assert_eq!(sent.len(), 114);
    assert!(run.is_over());
}

#[test]
fn fade_windows_scale_the_frames() {
    let seq = gif(
        &[SEC, SEC, SEC],
        AnimTime::Fade(Fade::new(2 * SEC, Some(4 * SEC), 2 * SEC)),
    );
    let mut run = AnimationRun::new(&seq);
    let run_time = (8 * SEC + SAFETY_MARGIN) as u128;
    assert_eq!(run.timing().run_time, run_time);
    // The first frame of the fade-in is dark, the next ones are scaled by
    // the time at which the frame before them started.
    assert_eq!(
        run.frame_start(0),
        Some(FrameOrder {
            index: 0,
            scale: FrameScale::Dark
        })
    );
    assert_eq!(run.frame_done(false, 5), Step::Sleep(SEC));
    assert_eq!(
        run.frame_start(SEC as u128),
        Some(FrameOrder {
            index: 1,
            scale: FrameScale::Ratio {
                part: 0,
                whole: 2 * SEC as u128
            }
        })
    );
    assert_eq!(run.frame_done(false, SEC as u128), Step::Sleep(SEC));
    assert_eq!(
        run.frame_start(2 * SEC as u128),
        Some(FrameOrder {
            index: 2,
            scale: FrameScale::Ratio {
                part: SEC as u128,
                whole: 2 * SEC as u128
            }
        })
    );
    assert_eq!(run.frame_done(false, 2 * SEC as u128), Step::Sleep(SEC));
    // Between the fades the frame is sent as it is.
    assert_eq!(
        run.frame_start(2 * SEC as u128 + 1),
        Some(FrameOrder {
            index: 0,
            scale: FrameScale::Full
        })
    );
    assert_eq!(run.frame_done(false, 3 * SEC as u128), Step::Sleep(SEC));
    assert_eq!(
        run.frame_start(run_time - 2 * SEC as u128),
        Some(FrameOrder {
            index: 1,
            scale: FrameScale::Full
        })
    );
    assert_eq!(run.frame_done(false, 6 * SEC as u128), Step::Sleep(SEC));
    // In the fade-out the frame is scaled by the time that is left.
    assert_eq!(
        run.frame_start(7 * SEC as u128),
        Some(FrameOrder {
            index: 2,
            scale: FrameScale::Ratio {
                part: (SEC + SAFETY_MARGIN) as u128,
                whole: 2 * SEC as u128
            }
        })
    );
    assert_eq!(run.frame_done(false, run_time), Step::Sleep(SEC));
    assert_eq!(
        run.frame_start(run_time),
        Some(FrameOrder {
            index: 0,
            scale: FrameScale::Dark
        })
    );
    // Past the run time the run halts.
    assert_eq!(run.frame_done(false, run_time + 1), Step::Halt);
    assert_eq!(run.frame_start(run_time + 2), None);
}

#[test]
fn timed_run_ends_when_the_time_is_over_even_inside_a_pass() {
    let seq = gif(&[40 * MS, 40 * MS, 40 * MS], AnimTime::Time(100));
    let mut run = AnimationRun::new(&seq);
    assert_eq!(run.frame_start(0).map(|o| o.index), Some(0));
    assert_eq!(run.frame_done(false, 100 * MS as u128), Step::Sleep(40 * MS));
    assert_eq!(run.frame_start(0).map(|o| o.index), Some(1));
    assert_eq!(run.frame_done(false, 100 * MS as u128 + 1), Step::Halt);
    assert!(run.is_over());
}

#[test]
fn frames_and_sequences_keep_what_they_are_given() {
    let data = AnimeDataBuffer::from_vec(AnimeType::GA401, vec![7u8; 1254]).unwrap();
    let frame = AnimeFrame::new(data, 33 * MS);
    assert_eq!(frame.delay(), 33 * MS);
    assert_eq!(frame.frame().data(), &[7u8; 1254][..]);
    let copy = frame.clone();
    assert_eq!(copy.delay(), 33 * MS);
    assert_eq!(copy.frame().data(), frame.frame().data());
    let seq = AnimeGif::new(vec![frame, copy], AnimTime::Count(4));
    assert_eq!(seq.frames().len(), 2);
    assert_eq!(seq.duration(), AnimTime::Count(4));
    assert_eq!(seq.total_frame_time(), 66 * MS as u128);
}

#[test]
fn counting_the_passes_of_a_looped_picture() {
    assert_eq!(pass_done(3), (2, false));
    assert_eq!(pass_done(2), (1, false));
    assert_eq!(pass_done(1), (0, true));
    assert_eq!(pass_done(0), (-1, false));
    assert_eq!(pass_done(-1), (-1, false));
    assert_eq!(pass_done(i32::MIN), (i32::MIN, false));
    assert_eq!(pass_done(i32::MAX), (i32::MAX - 1, false));
}
