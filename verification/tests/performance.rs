use volca_sequencer::composer::{Composer, TonalityMode, TonalityNote};
use volca_sequencer::drummer::Drummer;
use volca_sequencer::instr_comm::{
    create_instr_comm, start_listening_to_instr_comm_commands, InstrComm, InstrCommCommand,
    WorkerExit,
};
use volca_sequencer::keyboard::Keyboard;
use volca_sequencer::midi_device::{MidiDeviceGhost, MidiMessage};
use volca_sequencer::player::{Player, TempoSnapshot};
use volca_sequencer::song::{
    DrumPattern, Song, SongDetails, SongSection, SongSectionKind, SongTempo,
};
use volca_sequencer::songs::get_dummy_song;
use volca_sequencer::volca_drum::VolcaDrum;
use volca_sequencer::volca_keys::VolcaKeys;

fn comm(instruments: usize) -> InstrComm {
    InstrComm { tx_list: (0..instruments).map(|_| create_instr_comm()).collect() }
}

fn section(kind: SongSectionKind, bars: usize, drum: Option<&str>) -> SongSection {
    SongSection {
        kind,
        bars,
        drum_pattern_key: drum.map(|k| k.to_string()),
        keyboard_pattern_key: None,
        notes: None,
    }
}

fn song(beats: usize, sections: Vec<SongSection>) -> Song {
    Song {
        id: "S1".to_string(),
        details: SongDetails { author: "a".to_string(), title: "t".to_string() },
        tempo: SongTempo { bpm: 60, time_signature: (beats, 4) },
        drum_patterns: vec![DrumPattern {
            key: "A".to_string(),
            num_1_4: 4,
            hh: "x x x x x x x x ".to_string(),
            sn: "    x       x   ".to_string(),
            kk: "x       x       ".to_string(),
        }],
        keyboard_patterns: Vec::new(),
        sections,
    }
}

fn plays(queue: &[InstrCommCommand]) -> Vec<TempoSnapshot> {
    queue
        .iter()
        .filter_map(|c| match c {
            InstrCommCommand::PlayHit(s) => Some(*s),
            _ => None,
        })
        .collect()
}

fn same(a: &InstrCommCommand, b: &InstrCommCommand) -> bool {
    match (a, b) {
        (InstrCommCommand::TeachSong(x), InstrCommCommand::TeachSong(y)) => x == y,
        (InstrCommCommand::PlayHit(x), InstrCommCommand::PlayHit(y)) => x == y,
        (InstrCommCommand::Shutdown, InstrCommCommand::Shutdown) => true,
        _ => false,
    }
}

#[test]
fn new_queue_is_empty() {
    assert!(create_instr_comm().is_empty());
}

#[test]
fn broadcasts_reach_every_queue_in_order() {
    let mut c = comm(3);
    let snapshot = TempoSnapshot {
        cur_bar: 2,
        cur_quarter: 1,
        cur_1_8: 1,
        cur_1_16: 2,
        section_bar_first: 1,
        section_bar_last: 4,
    };
    c.teach_songs("S1".to_string());
    c.play_1_16th(&snapshot);
    c.shutdown();
    assert_eq!(c.tx_list.len(), 3);
    for queue in &c.tx_list {
        assert_eq!(queue.len(), 3);
        assert!(same(&queue[0], &InstrCommCommand::TeachSong("S1".to_string())));
        assert!(same(&queue[1], &InstrCommCommand::PlayHit(snapshot)));
        assert!(same(&queue[2], &InstrCommCommand::Shutdown));
    }
}

#[test]
fn broadcast_to_no_instrument_does_nothing() {
    let mut c = comm(0);
    c.teach_songs("S1".to_string());
    c.shutdown();
    assert!(c.tx_list.is_empty());
}

#[test]
fn play_tick_count_is_bars_times_beats_times_four() {
    let sections = vec![
        section(SongSectionKind::Intro, 2, None),
        section(SongSectionKind::Verse, 0, None),
        section(SongSectionKind::Chorus, 3, Some("A")),
    ];
    for beats in [1usize, 3, 4, 7] {
        let mut player = Player::new(false, comm(2));
        let performance = player.play_song(song(beats, sections.clone()), 10_000).unwrap();
        let expected = (2 + 3) * beats * 4;
        assert_eq!(performance.moments.len(), expected);
        assert!(performance.frames.is_empty());
        for queue in &player.instr_comm.tx_list {
            assert_eq!(queue.len(), expected + 2);
            assert_eq!(plays(queue).len(), expected);
            assert!(same(&queue[0], &InstrCommCommand::TeachSong("S1".to_string())));
            assert!(same(&queue[expected + 1], &InstrCommCommand::Shutdown));
        }
        assert_eq!(player.beats_per_bar, beats);
    }
}

#[test]
fn dummy_song_is_played_in_640_ticks() {
    let mut player = Player::new(false, comm(1));
    let performance = player.play_song(get_dummy_song(), 0).unwrap();
    assert_eq!(performance.moments.len(), 640);
    assert_eq!(plays(&player.instr_comm.tx_list[0]).len(), 640);
    assert_eq!(performance.moments[639], 639 * 176);
}

#[test]
fn dispatched_snapshots_follow_the_clock_and_the_section_windows() {
    let sections = vec![
        section(SongSectionKind::Intro, 2, None),
        section(SongSectionKind::Verse, 0, None),
        section(SongSectionKind::Chorus, 3, Some("A")),
    ];
    let beats = 3usize;
    let mut player = Player::new(false, comm(1));
    player.play_song(song(beats, sections), 0).unwrap();
    let snapshots = plays(&player.instr_comm.tx_list[0]);
    for (n, s) in snapshots.iter().enumerate() {
        assert_eq!(s.cur_1_16, n % 4 + 1);
        assert_eq!(s.cur_1_8, if n % 4 + 1 > 2 { 2 } else { 1 });
        assert_eq!(s.cur_quarter, (n / 4) % beats + 1);
        assert_eq!(s.cur_bar, n / (4 * beats) + 1);
        if n < 2 * beats * 4 {
            assert_eq!((s.section_bar_first, s.section_bar_last), (1, 2));
        } else {
            assert_eq!((s.section_bar_first, s.section_bar_last), (3, 5));
        }
    }
    // The clock ends one tick past the last, at the start of bar 6.
    assert_eq!(
        player.tempo_snapshot,
        TempoSnapshot {
            cur_bar: 6,
            cur_quarter: 1,
            cur_1_8: 1,
            cur_1_16: 1,
            section_bar_first: 3,
            section_bar_last: 5,
        }
    );
}

#[test]
fn exactly_one_last_tick_per_section() {
    let sections = vec![
        section(SongSectionKind::Intro, 2, None),
        section(SongSectionKind::Verse, 1, None),
        section(SongSectionKind::Chorus, 3, Some("A")),
    ];
    for beats in [2usize, 4, 5] {
        let s = song(beats, sections.clone());
        let mut player = Player::new(false, comm(1));
        player.play_song(s.clone(), 0).unwrap();
        let snapshots = plays(&player.instr_comm.tx_list[0]);
        let last: Vec<usize> = snapshots
            .iter()
            .enumerate()
            .filter(|(_, snap)| snap.is_this_the_last_1_16th_of_this_section(&s))
            .map(|(n, _)| n)
            .collect();
        let per_bar = beats * 4;
        assert_eq!(last, vec![2 * per_bar - 1, 3 * per_bar - 1, 6 * per_bar - 1]);
    }
}

#[test]
fn section_without_bars_sends_nothing_and_leaves_the_bar() {
    let mut player = Player::new(false, comm(2));
    let performance =
        player.play_song(song(4, vec![section(SongSectionKind::Intro, 0, Some("A"))]), 77).unwrap();
    assert!(performance.moments.is_empty());
    for queue in &player.instr_comm.tx_list {
        assert_eq!(queue.len(), 2);
        assert!(plays(queue).is_empty());
        assert!(same(&queue[0], &InstrCommCommand::TeachSong("S1".to_string())));
        assert!(same(&queue[1], &InstrCommCommand::Shutdown));
    }
    assert_eq!(player.tempo_snapshot.cur_bar, 1);
    assert_eq!(
        player.tempo_snapshot,
        TempoSnapshot {
            cur_bar: 1,
            cur_quarter: 1,
            cur_1_8: 1,
            cur_1_16: 1,
            section_bar_first: 0,
            section_bar_last: 0,
        }
    );
}

#[test]
fn section_without_bars_between_others_keeps_the_clock() {
    let with = vec![
        section(SongSectionKind::Intro, 1, None),
        section(SongSectionKind::Verse, 0, Some("A")),
        section(SongSectionKind::Outro, 1, None),
    ];
    let without =
        vec![section(SongSectionKind::Intro, 1, None), section(SongSectionKind::Outro, 1, None)];
    let mut a = Player::new(false, comm(1));
    let mut b = Player::new(false, comm(1));
    a.play_song(song(4, with), 0).unwrap();
    b.play_song(song(4, without), 0).unwrap();
    assert_eq!(plays(&a.instr_comm.tx_list[0]), plays(&b.instr_comm.tx_list[0]));
    assert_eq!(a.tempo_snapshot, b.tempo_snapshot);
}

#[test]
fn song_without_sections_is_refused_before_anything_is_sent() {
    let mut player = Player::new(false, comm(2));
    let r = player.play_song(song(4, Vec::new()), 0);
    assert_eq!(r.err(), Some("Song has no sections".to_string()));
    assert!(player.instr_comm.tx_list.iter().all(|q| q.is_empty()));
}

#[test]
fn song_with_an_unknown_pattern_is_refused() {
    let mut player = Player::new(false, comm(1));
    let sections =
        vec![section(SongSectionKind::Intro, 1, None), section(SongSectionKind::Verse, 1, Some("Z"))];
    let r = player.play_song(song(4, sections), 0);
    assert_eq!(r.err(), Some("Unknown drum pattern in section 1".to_string()));
    assert!(player.instr_comm.tx_list[0].is_empty());
    assert_eq!(player.beats_per_bar, 4);
}

#[test]
fn song_whose_deadlines_overflow_is_refused() {
    let mut player = Player::new(false, comm(1));
    let r = player.play_song(song(4, vec![section(SongSectionKind::Intro, 1, None)]), u128::MAX - 10);
    assert_eq!(r.err(), Some("Song ends too late".to_string()));
    assert!(player.instr_comm.tx_list[0].is_empty());
}

#[test]
fn playing_adds_to_what_the_queues_hold() {
    let mut player = Player::new(false, comm(1));
    player.instr_comm.shutdown();
    player.play_song(song(4, vec![section(SongSectionKind::Intro, 1, None)]), 0).unwrap();
    let queue = &player.instr_comm.tx_list[0];
    assert_eq!(queue.len(), 1 + 18);
    assert!(same(&queue[0], &InstrCommCommand::Shutdown));
    assert!(same(&queue[1], &InstrCommCommand::TeachSong("S1".to_string())));
}

#[test]
fn play_now_sends_the_current_snapshot_and_no_frame_without_display() {
    let mut player = Player::new(false, comm(2));
    player.starts_new_section_with_many_bars(2);
    let frame = player.play_1_16th_now(&section(SongSectionKind::Verse, 2, None));
    assert!(frame.is_none());
    for queue in &player.instr_comm.tx_list {
        assert_eq!(plays(queue), vec![player.tempo_snapshot]);
    }
}

#[test]
fn coordinator_and_workers_end_to_end() {
    // One bar of 4/4 with a plain rock beat: hi-hat on every
    // other sixteenth, kick on 1 and 9, snare on 5 and 13.
    let s = song(4, vec![section(SongSectionKind::Verse, 1, Some("A"))]);
    let mut player = Player::new(false, comm(2));
    player.play_song(s.clone(), 0).unwrap();
    let mut queues = std::mem::take(&mut player.instr_comm.tx_list);
    let mut drummer = Drummer::new(s.clone(), VolcaDrum::new(MidiDeviceGhost::new()));
    let mut keyboard = Keyboard::new(s, VolcaKeys::new(MidiDeviceGhost::new()));
    let for_keys = queues.pop().unwrap();
    let for_drums = queues.pop().unwrap();
    assert_eq!(start_listening_to_instr_comm_commands(for_drums, &mut drummer), WorkerExit::Shutdown);
    assert_eq!(start_listening_to_instr_comm_commands(for_keys, &mut keyboard), WorkerExit::Shutdown);
    assert!(keyboard.volca_keys.device.messages.is_empty());

    let sent = &drummer.volca_drum.device.messages;
    let selects: Vec<u8> = sent.iter().filter(|m| m.status == 0xC0).map(|m| m.data1).collect();
    // Parts in firing order: 1 is the hi-hat, 0 the kick, 2 the snare.
    assert_eq!(selects, vec![1, 0, 1, 1, 2, 1, 1, 0, 1, 1, 2, 1]);
    assert_eq!(sent.len(), 36);
    assert!(sent.iter().filter(|m| m.status != 0xC0).all(|m| m.data1 == 7 && m.data2 == 0x70));
    assert_eq!(sent[1], MidiMessage { status: 0x90, data1: 7, data2: 0x70 });
    assert_eq!(sent[2], MidiMessage { status: 0x80, data1: 7, data2: 0x70 });
}

#[test]
fn composed_song_clicks_on_every_eighth() {
    let s = Composer {
        bpm: 50,
        num_sections: 2,
        click: true,
        tonality_note: TonalityNote::C,
        tonality_mode: TonalityMode::Major,
    }
    .compose_new_song();
    let mut player = Player::new(false, comm(1));
    let performance = player.play_song(s.clone(), 1_000).unwrap();
    assert_eq!(performance.moments.len(), 32);
    assert_eq!(performance.moments[1] - performance.moments[0], 300);
    let mut drummer = Drummer::new(s, VolcaDrum::new(MidiDeviceGhost::new()));
    let queue = player.instr_comm.tx_list.pop().unwrap();
    start_listening_to_instr_comm_commands(queue, &mut drummer);
    let kicks = drummer.volca_drum.device.messages.iter().filter(|m| m.status == 0xC0).count();
    assert_eq!(kicks, 16);
    assert!(drummer
        .volca_drum
        .device
        .messages
        .iter()
        .filter(|m| m.status == 0xC0)
        .all(|m| m.data1 == 0));
}
