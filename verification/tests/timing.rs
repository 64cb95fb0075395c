use volca_sequencer::composer::{Composer, TonalityMode, TonalityNote};
use volca_sequencer::songs::get_dummy_song;
use volca_sequencer::timing::{
    get_moments_vec_from_song_start, millis_from_epoch_parts, remaining_millis,
    schedule_is_computable, tick_duration_millis, wait_around_bpm, Pacer,
};

fn composed(bpm: usize, bars: usize) -> volca_sequencer::song::Song {
    Composer {
        bpm,
        num_sections: bars,
        click: true,
        tonality_note: TonalityNote::C,
        tonality_mode: TonalityMode::Major,
    }
    .compose_new_song()
}

#[test]
fn tick_duration_scales_inversely_with_tempo() {
    assert_eq!(tick_duration_millis(60), 250);
    assert_eq!(tick_duration_millis(120), 125);
    assert_eq!(tick_duration_millis(30), 500);
    assert_eq!(tick_duration_millis(85), 176);
    assert_eq!(tick_duration_millis(50), 300);
    assert_eq!(tick_duration_millis(7), 2142);
    assert_eq!(tick_duration_millis(1), 15000);
    assert_eq!(tick_duration_millis(20000), 0);
}

#[test]
fn moments_start_at_the_first_and_step_by_one_tick() {
    let song = composed(60, 2);
    let moments = get_moments_vec_from_song_start(&song, 1_000);
    assert_eq!(moments.len(), 32);
    assert_eq!(moments[0], 1_000);
    assert_eq!(moments[1], 1_250);
    assert_eq!(moments[31], 1_000 + 31 * 250);
}

#[test]
fn moments_differ_by_exactly_one_tick_duration() {
    let song = get_dummy_song();
    let moments = get_moments_vec_from_song_start(&song, 1_700_000_000_000);
    assert_eq!(moments.len(), 640);
    for k in 0..moments.len() - 1 {
        assert_eq!(moments[k + 1] - moments[k], 176);
    }
    for (k, m) in moments.iter().enumerate() {
        assert_eq!(*m, 1_700_000_000_000 + (k as u128) * 176);
    }
}

#[test]
fn moments_of_a_song_without_bars_are_none() {
    let song = composed(60, 0);
    assert_eq!(get_moments_vec_from_song_start(&song, 5), Vec::<u128>::new());
}

#[test]
fn schedule_is_computable_unless_it_overflows_or_has_no_tempo() {
    assert!(schedule_is_computable(&get_dummy_song(), 0));
    assert!(schedule_is_computable(&get_dummy_song(), u128::MAX - 640 * 176));
    assert!(!schedule_is_computable(&get_dummy_song(), u128::MAX - 640 * 176 + 1));
    assert!(!schedule_is_computable(&composed(0, 4), 0));
}

#[test]
fn remaining_is_the_difference_or_zero() {
    assert_eq!(remaining_millis(1_000, 400), 600);
    assert_eq!(remaining_millis(1_000, 1_000), 0);
    assert_eq!(remaining_millis(1_000, 1_001), 0);
    assert_eq!(remaining_millis(0, u128::MAX), 0);
    assert_eq!(remaining_millis(u128::MAX, 0), u128::MAX);
}

#[test]
fn pacer_hands_out_every_deadline_once_and_never_skips() {
    let mut pacer = Pacer::new(vec![100, 350, 600]);
    assert_eq!(wait_around_bpm(&mut pacer, 40), Some(60));
    // Fell behind: the second deadline has passed, it is due at once.
    assert_eq!(wait_around_bpm(&mut pacer, 900), Some(0));
    assert_eq!(pacer.next, 2);
    assert_eq!(wait_around_bpm(&mut pacer, 590), Some(10));
    assert_eq!(wait_around_bpm(&mut pacer, 590), None);
    assert_eq!(pacer.next, 3);
    assert_eq!(pacer.moments, vec![100, 350, 600]);
}

#[test]
fn pacer_waits_do_not_add_up_processing_time() {
    // Each tick is late by 30 ms of processing; the waits shrink by as
    // much, so the ticks stay on their absolute deadlines.
    let mut pacer = Pacer::new(vec![1_000, 1_250, 1_500, 1_750]);
    let mut now: u128 = 1_000;
    let mut fired = Vec::new();
    while let Some(wait) = wait_around_bpm(&mut pacer, now) {
        now += wait;
        fired.push(now);
        now += 30;
    }
    assert_eq!(fired, vec![1_000, 1_250, 1_500, 1_750]);
}

#[test]
fn millis_since_epoch_from_seconds_and_nanos() {
    assert_eq!(millis_from_epoch_parts(0, 0), 0);
    assert_eq!(millis_from_epoch_parts(1, 999_999), 1_000);
    assert_eq!(millis_from_epoch_parts(1, 1_000_000), 1_001);
    assert_eq!(millis_from_epoch_parts(1_700_000_000, 123_456_789), 1_700_000_000_123);
    assert_eq!(
        millis_from_epoch_parts(u64::MAX, 999_999_999),
        (u64::MAX as u128) * 1000 + 999
    );
}
