use volca_sequencer::instr_comm::InstrComm;
use volca_sequencer::player::{Player, TempoSnapshot};
use volca_sequencer::songs::get_dummy_song;

fn snapshot(bar: usize, quarter: usize, sixteenth: usize, first: usize, last: usize) -> TempoSnapshot {
    TempoSnapshot {
        cur_bar: bar,
        cur_quarter: quarter,
        cur_1_8: if sixteenth > 2 { 2 } else { 1 },
        cur_1_16: sixteenth,
        section_bar_first: first,
        section_bar_last: last,
    }
}

fn player_with_beats(beats: usize) -> Player {
    let mut player = Player::new(false, InstrComm { tx_list: Vec::new() });
    player.beats_per_bar = beats;
    player
}

#[test]
fn sixteenth_within_bar_counts_from_one() {
    assert_eq!(snapshot(1, 2, 3, 1, 4).get_cur_1_16ths_in_bar_from_1(), 7);
    assert_eq!(snapshot(1, 1, 1, 1, 4).get_cur_1_16ths_in_bar_from_1(), 1);
    assert_eq!(snapshot(1, 4, 4, 1, 4).get_cur_1_16ths_in_bar_from_1(), 16);
}

#[test]
fn section_relative_queries() {
    let s = snapshot(6, 3, 1, 5, 8);
    assert_eq!(s.get_cur_bar_in_section(), 2);
    assert_eq!(s.get_tot_bars_in_section(), 4);
    assert_eq!(s.get_tot_1_16ths_in_section(), 64);
    assert_eq!(s.get_cur_1_16ths_in_section_from_1(), 16 + 9);
}

#[test]
fn new_player_starts_at_one_one_one() {
    let player = Player::new(true, InstrComm { tx_list: Vec::new() });
    assert_eq!(player.tempo_snapshot, snapshot(1, 1, 1, 0, 0));
    assert_eq!(player.beats_per_bar, 4);
    assert!(player.enable_interactive_cli);
}

#[test]
fn advance_rolls_sixteenth_quarter_and_bar() {
    let mut player = player_with_beats(4);
    player.next_1_16th();
    assert_eq!(player.tempo_snapshot, snapshot(1, 1, 2, 0, 0));
    player.next_1_16th();
    assert_eq!(player.tempo_snapshot, snapshot(1, 1, 3, 0, 0));
    assert_eq!(player.tempo_snapshot.cur_1_8, 2);
    player.next_1_16th();
    player.next_1_16th();
    assert_eq!(player.tempo_snapshot, snapshot(1, 2, 1, 0, 0));
    for _ in 0..12 {
        player.next_1_16th();
    }
    assert_eq!(player.tempo_snapshot, snapshot(2, 1, 1, 0, 0));
}

#[test]
fn clock_after_n_advances_is_n_in_mixed_radix() {
    for beats in 1..=7usize {
        let mut player = player_with_beats(beats);
        for n in 0..200usize {
            assert_eq!(player.tempo_snapshot.cur_1_16, n % 4 + 1);
            assert_eq!(player.tempo_snapshot.cur_quarter, (n / 4) % beats + 1);
            assert_eq!(player.tempo_snapshot.cur_bar, n / (4 * beats) + 1);
            player.next_1_16th();
        }
    }
}

#[test]
fn start_section_sets_the_window_from_the_current_bar() {
    let mut player = player_with_beats(4);
    player.starts_new_section_with_many_bars(4);
    assert_eq!(player.tempo_snapshot, snapshot(1, 1, 1, 1, 4));
    for _ in 0..64 {
        player.next_1_16th();
    }
    player.starts_new_section_with_many_bars(8);
    assert_eq!(player.tempo_snapshot, snapshot(5, 1, 1, 5, 12));
}

#[test]
fn last_tick_is_the_final_one_of_the_section_only() {
    let song = get_dummy_song();
    let mut player = player_with_beats(4);
    player.starts_new_section_with_many_bars(2);
    let mut last_ticks = Vec::new();
    for t in 0..32usize {
        if player.tempo_snapshot.is_this_the_last_1_16th_of_this_section(&song) {
            last_ticks.push(t);
        }
        player.next_1_16th();
    }
    assert_eq!(last_ticks, vec![31]);
}

#[test]
fn last_tick_needs_bar_quarter_and_sixteenth() {
    let song = get_dummy_song();
    assert!(snapshot(4, 4, 4, 1, 4).is_this_the_last_1_16th_of_this_section(&song));
    assert!(!snapshot(3, 4, 4, 1, 4).is_this_the_last_1_16th_of_this_section(&song));
    assert!(!snapshot(4, 3, 4, 1, 4).is_this_the_last_1_16th_of_this_section(&song));
    assert!(!snapshot(4, 4, 3, 1, 4).is_this_the_last_1_16th_of_this_section(&song));
}

#[test]
fn string_info_reads_the_position() {
    assert_eq!(
        snapshot(6, 3, 1, 5, 8).string_info(),
        "2th of 4 bars in section / 3.1 / 6th global bar"
    );
    assert_eq!(
        snapshot(12, 4, 4, 1, 12).string_info(),
        "12th of 12 bars in section / 4.4 / 12th global bar"
    );
}

#[test]
fn in_section_asks_for_counters_and_window_only() {
    assert!(snapshot(6, 3, 1, 5, 8).is_in_section());
    assert!(snapshot(5, 1, 1, 5, 5).is_in_section());
    assert!(snapshot(8, 9, 4, 5, 8).is_in_section());
    // The eighth has no part in it.
    let mut odd_eighth = snapshot(6, 3, 1, 5, 8);
    odd_eighth.cur_1_8 = 7;
    assert!(odd_eighth.is_in_section());
    assert!(!snapshot(4, 3, 1, 5, 8).is_in_section());
    assert!(!snapshot(9, 3, 1, 5, 8).is_in_section());
    assert!(!snapshot(6, 0, 1, 5, 8).is_in_section());
    assert!(!snapshot(6, 3, 0, 5, 8).is_in_section());
    assert!(!snapshot(6, 3, 5, 5, 8).is_in_section());
    assert!(!snapshot(0, 1, 1, 0, 0).is_in_section());
    assert!(!snapshot(1, 1, 1, 0, 4).is_in_section());
    assert!(!snapshot(1, 1, 1, 1, usize::MAX).is_in_section());
    assert!(!snapshot(1, usize::MAX, 1, 1, 1).is_in_section());
}
