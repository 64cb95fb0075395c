use volca_sequencer::drummer::{resolve_drum_hits, row_has_hit, DrumHits, Drummer};
use volca_sequencer::instr_comm::{
    handle_instr_comm_command, start_listening_to_instr_comm_commands, InstrCommCommand,
    WorkerExit,
};
use volca_sequencer::instrument::Instrument;
use volca_sequencer::keyboard::{find_chord, find_sounding_chord, Keyboard};
use volca_sequencer::midi_device::{MidiDevice, MidiDeviceGhost, MidiMessage};
use volca_sequencer::player::TempoSnapshot;
use volca_sequencer::song::{
    DrumPattern, KeyboardPattern, KeyboardPatternChord, Song, SongDetails, SongSection,
    SongSectionKind, SongTempo,
};
use volca_sequencer::songs::get_dummy_song;
use volca_sequencer::volca_drum::VolcaDrum;
use volca_sequencer::volca_keys::{
    get_note_alteration_number, get_note_offset_from_letter, get_note_pitch,
    get_octave_offset_from_letter, VolcaKeys,
};

fn msg(status: u8, data1: u8, data2: u8) -> MidiMessage {
    MidiMessage { status, data1, data2 }
}

fn hit(instr: u8) -> Vec<MidiMessage> {
    vec![msg(0xC0, instr, 0), msg(0x90, 7, 0x70), msg(0x80, 7, 0x70)]
}

fn note(pitch: u8) -> Vec<MidiMessage> {
    vec![msg(0xC0, 1, 0), msg(0x90, pitch, 0x70), msg(0x80, pitch, 0x70)]
}

/// Snapshot at tick `t` (from 0) of a section of `bars` 4/4 bars that starts at bar `first`.
fn tick(first: usize, bars: usize, t: usize) -> TempoSnapshot {
    let sixteenth = t % 4 + 1;
    TempoSnapshot {
        cur_bar: first + t / 16,
        cur_quarter: (t / 4) % 4 + 1,
        cur_1_8: if sixteenth > 2 { 2 } else { 1 },
        cur_1_16: sixteenth,
        section_bar_first: first,
        section_bar_last: first + bars - 1,
    }
}

fn chord(name: &str, from: usize, to: usize, notes: &[&str]) -> KeyboardPatternChord {
    KeyboardPatternChord {
        chord_name: name.to_string(),
        from_1_16th_incl: from,
        to_1_16th_incl: to,
        notes: notes.iter().map(|n| n.to_string()).collect(),
    }
}

fn section(bars: usize, drum: Option<&str>, keys: Option<&str>) -> SongSection {
    SongSection {
        kind: SongSectionKind::Verse,
        bars,
        drum_pattern_key: drum.map(|k| k.to_string()),
        keyboard_pattern_key: keys.map(|k| k.to_string()),
        notes: None,
    }
}

fn song(id: &str, sections: Vec<SongSection>) -> Song {
    Song {
        id: id.to_string(),
        details: SongDetails { author: "a".to_string(), title: "t".to_string() },
        tempo: SongTempo { bpm: 120, time_signature: (4, 4) },
        drum_patterns: vec![
            DrumPattern {
                key: "A".to_string(),
                num_1_4: 4,
                hh: "x x x x x x x x ".to_string(),
                sn: "    x       x   ".to_string(),
                kk: "x       x       ".to_string(),
            },
            DrumPattern {
                key: "HALF".to_string(),
                num_1_4: 2,
                hh: "xxxxxxxx".to_string(),
                sn: "        ".to_string(),
                kk: "x       ".to_string(),
            },
        ],
        keyboard_patterns: vec![
            KeyboardPattern {
                key: "TWO".to_string(),
                chords: vec![chord("C", 1, 16, &["C3", "E3"]), chord("F", 17, 32, &["F3"])],
            },
            KeyboardPattern {
                key: "SHORT".to_string(),
                chords: vec![chord("G", 1, 20, &["G3"])],
            },
        ],
        sections,
    }
}

fn drummer(song: Song) -> Drummer<MidiDeviceGhost> {
    assert_eq!(song.validate(), Ok(()));
    Drummer::new(song, VolcaDrum::new(MidiDeviceGhost::new()))
}

fn keyboard(song: Song) -> Keyboard<MidiDeviceGhost> {
    assert_eq!(song.validate(), Ok(()));
    Keyboard::new(song, VolcaKeys::new(MidiDeviceGhost::new()))
}

#[test]
fn ghost_device_keeps_what_it_is_sent() {
    let mut device = MidiDeviceGhost::new();
    assert!(device.messages.is_empty());
    device.send(1, 2, 3);
    device.send(0x90, 60, 0x70);
    assert_eq!(device.messages, vec![msg(1, 2, 3), msg(0x90, 60, 0x70)]);
    assert_eq!(device.take_messages(), vec![msg(1, 2, 3), msg(0x90, 60, 0x70)]);
    assert!(device.messages.is_empty());
}

#[test]
fn drum_hits_send_select_on_off() {
    let mut drum = VolcaDrum::new(MidiDeviceGhost::new());
    drum.hit_hh();
    assert_eq!(drum.device.take_messages(), hit(1));
    drum.hit_kick();
    assert_eq!(drum.device.take_messages(), hit(0));
    drum.hit_snare();
    assert_eq!(drum.device.take_messages(), hit(2));
    drum.hit(33, 5);
    assert_eq!(
        drum.device.take_messages(),
        vec![msg(0xC0, 5, 0), msg(0x90, 33, 0x70), msg(0x80, 33, 0x70)]
    );
    drum.send_plain_message(9, 8, 7);
    assert_eq!(drum.device.take_messages(), vec![msg(9, 8, 7)]);
}

#[test]
fn control_change_masks_channel_number_and_value() {
    let mut drum = VolcaDrum::new(MidiDeviceGhost::new());
    drum.send_cc_message(2, 26, 100);
    drum.send_cc_message(0x1f, 0xff, 0x80);
    assert_eq!(drum.device.messages, vec![msg(0xb2, 26, 100), msg(0xbf, 0x7f, 0)]);
}

#[test]
fn row_hit_is_a_non_space_within_the_row() {
    let row = "x  o ".to_string();
    assert!(row_has_hit(&row, 0));
    assert!(!row_has_hit(&row, 1));
    assert!(row_has_hit(&row, 3));
    assert!(!row_has_hit(&row, 4));
    assert!(!row_has_hit(&row, 5));
    assert!(!row_has_hit(&row, usize::MAX));
}

#[test]
fn one_bar_drum_pattern_fires_exactly_its_steps() {
    let s = song("S1", vec![section(1, Some("A"), None)]);
    let pattern = s.drum_patterns[0].clone();
    let mut hh = Vec::new();
    let mut kk = Vec::new();
    let mut sn = Vec::new();
    let mut d = drummer(s);
    assert!(d.teach_song("S1".to_string()));
    for t in 0..16 {
        let snapshot = tick(1, 1, t);
        let hits = resolve_drum_hits(&pattern, &snapshot);
        d.play_1_16th(&snapshot);
        let sent = d.volca_drum.device.take_messages();
        let mut expected = Vec::new();
        if hits.hh {
            hh.push(t + 1);
            expected.extend(hit(1));
        }
        if hits.kk {
            kk.push(t + 1);
            expected.extend(hit(0));
        }
        if hits.sn {
            sn.push(t + 1);
            expected.extend(hit(2));
        }
        assert_eq!(sent, expected);
    }
    assert_eq!(hh, vec![1, 3, 5, 7, 9, 11, 13, 15]);
    assert_eq!(kk, vec![1, 9]);
    assert_eq!(sn, vec![5, 13]);
}

#[test]
fn drum_tick_sends_hihat_then_kick_then_snare() {
    let mut s = song("S1", vec![section(1, Some("A"), None)]);
    s.drum_patterns[0].sn = "x               ".to_string();
    let mut d = drummer(s);
    d.teach_song("S1".to_string());
    d.play_1_16th(&tick(1, 1, 0));
    let mut expected = hit(1);
    expected.extend(hit(0));
    expected.extend(hit(2));
    assert_eq!(d.volca_drum.device.messages, expected);
}

#[test]
fn drum_resolution_is_idempotent() {
    let s = get_dummy_song();
    for t in 0..64 {
        let snapshot = tick(1, 4, t);
        let first = resolve_drum_hits(&s.drum_patterns[0], &snapshot);
        let second = resolve_drum_hits(&s.drum_patterns[0], &snapshot);
        assert_eq!(first, second);
    }
    assert_eq!(
        resolve_drum_hits(&s.drum_patterns[0], &tick(1, 4, 7)),
        DrumHits { hh: false, kk: false, sn: true, beyond: false }
    );
    // Playing the same tick twice sends the same messages twice.
    let mut d = drummer(s);
    d.teach_song("dummy-song".to_string());
    d.play_1_16th(&tick(1, 4, 8));
    let once = d.volca_drum.device.take_messages();
    d.play_1_16th(&tick(1, 4, 8));
    let twice = d.volca_drum.device.take_messages();
    assert_eq!(once, twice);
    assert!(!once.is_empty());
}

#[test]
fn steps_beyond_a_short_pattern_are_silent() {
    let mut d = drummer(song("S1", vec![section(1, Some("HALF"), None)]));
    d.teach_song("S1".to_string());
    d.play_1_16th(&tick(1, 1, 7));
    assert_eq!(d.volca_drum.device.take_messages(), hit(1));
    assert_eq!(d.missed_ticks, 0);
    for t in 8..16 {
        d.play_1_16th(&tick(1, 1, t));
        assert!(d.volca_drum.device.take_messages().is_empty());
    }
    assert_eq!(d.missed_ticks, 8);
    let pattern = d.song.drum_patterns[1].clone();
    assert_eq!(
        resolve_drum_hits(&pattern, &tick(1, 1, 8)),
        DrumHits { hh: false, kk: false, sn: false, beyond: true }
    );
    assert_eq!(
        resolve_drum_hits(&pattern, &tick(1, 1, 0)),
        DrumHits { hh: true, kk: true, sn: false, beyond: false }
    );
}

#[test]
fn drummer_switches_pattern_after_the_last_tick_of_a_section() {
    let s = song("S1", vec![section(1, Some("A"), None), section(1, None, None), section(1, Some("HALF"), None)]);
    let mut d = drummer(s);
    assert_eq!(d.get_short_info(), "no drums");
    assert_eq!(d.get_instrument_name(), "Drummer");
    assert!(!d.is_taught());
    assert!(d.teach_song("S1".to_string()));
    assert!(d.is_taught());
    assert_eq!(d.pattern, Some(0));
    assert_eq!(d.get_short_info(), "part \"A\"");
    for t in 0..15 {
        d.play_1_16th(&tick(1, 1, t));
        assert_eq!(d.curr_section_index, 0);
        assert_eq!(d.pattern, Some(0));
    }
    d.play_1_16th(&tick(1, 1, 15));
    assert_eq!(d.curr_section_index, 1);
    assert_eq!(d.pattern, None);
    assert_eq!(d.get_short_info(), "no drums");
    d.volca_drum.device.take_messages();
    for t in 0..16 {
        d.play_1_16th(&tick(2, 1, t));
    }
    assert!(d.volca_drum.device.messages.is_empty());
    assert_eq!(d.curr_section_index, 2);
    assert_eq!(d.pattern, Some(1));
    assert_eq!(d.get_short_info(), "part \"HALF\"");
    for t in 0..16 {
        d.play_1_16th(&tick(3, 1, t));
    }
    assert_eq!(d.curr_section_index, 3);
    assert_eq!(d.pattern, None);
    // Past the end of the song nothing moves any more.
    d.play_1_16th(&tick(4, 1, 15));
    assert_eq!(d.curr_section_index, 3);
}

#[test]
fn teaching_again_starts_over() {
    let s = song("S1", vec![section(1, None, None), section(1, Some("A"), None)]);
    let mut d = drummer(s);
    d.teach_song("S1".to_string());
    d.play_1_16th(&tick(1, 1, 15));
    assert_eq!(d.curr_section_index, 1);
    assert_eq!(d.pattern, Some(0));
    assert!(d.teach_song("S1".to_string()));
    assert_eq!(d.curr_section_index, 0);
    assert_eq!(d.pattern, None);
}

#[test]
fn untaught_worker_plays_nothing() {
    let mut d = drummer(song("S1", vec![section(1, Some("A"), None)]));
    d.play_1_16th(&tick(1, 1, 0));
    d.play_1_16th(&tick(1, 1, 15));
    assert!(d.volca_drum.device.messages.is_empty());
    assert_eq!(d.curr_section_index, 0);
    let mut k = keyboard(song("S1", vec![section(1, None, Some("TWO"))]));
    k.play_1_16th(&tick(1, 1, 0));
    assert!(k.volca_keys.device.messages.is_empty());
    assert_eq!(k.missed_ticks, 0);
}

#[test]
fn wrong_song_id_is_refused_and_changes_nothing() {
    let mut d = drummer(song("S1", vec![section(1, Some("A"), None)]));
    assert!(!d.teach_song("S2".to_string()));
    assert!(!d.is_taught());
    assert_eq!(d.pattern, None);
    d.teach_song("S1".to_string());
    d.play_1_16th(&tick(1, 1, 15));
    assert!(!d.teach_song("S2".to_string()));
    assert!(d.is_taught());
    assert_eq!(d.curr_section_index, 1);
}

#[test]
fn worker_taught_s1_then_asked_for_s2_stops_without_a_trigger() {
    let mut d = drummer(song("S1", vec![section(1, Some("A"), None)]));
    let commands = vec![
        InstrCommCommand::TeachSong("S1".to_string()),
        InstrCommCommand::TeachSong("S2".to_string()),
        InstrCommCommand::PlayHit(tick(1, 1, 0)),
        InstrCommCommand::Shutdown,
    ];
    assert_eq!(start_listening_to_instr_comm_commands(commands, &mut d), WorkerExit::UnknownSong);
    assert!(d.volca_drum.device.messages.is_empty());

    let mut k = keyboard(song("S1", vec![section(1, None, Some("TWO"))]));
    let commands = vec![
        InstrCommCommand::TeachSong("S2".to_string()),
        InstrCommCommand::PlayHit(tick(1, 1, 0)),
    ];
    assert_eq!(start_listening_to_instr_comm_commands(commands, &mut k), WorkerExit::UnknownSong);
    assert!(k.volca_keys.device.messages.is_empty());
}

#[test]
fn tick_before_teaching_stops_the_worker() {
    let mut d = drummer(song("S1", vec![section(1, Some("A"), None)]));
    let commands = vec![
        InstrCommCommand::PlayHit(tick(1, 1, 0)),
        InstrCommCommand::TeachSong("S1".to_string()),
    ];
    assert_eq!(start_listening_to_instr_comm_commands(commands, &mut d), WorkerExit::UnknownSong);
    assert!(d.volca_drum.device.messages.is_empty());
    assert!(!d.is_taught());
}

#[test]
fn worker_stops_at_shutdown_and_ignores_what_follows() {
    let mut d = drummer(song("S1", vec![section(1, Some("A"), None)]));
    let commands = vec![
        InstrCommCommand::TeachSong("S1".to_string()),
        InstrCommCommand::PlayHit(tick(1, 1, 0)),
        InstrCommCommand::Shutdown,
        InstrCommCommand::PlayHit(tick(1, 1, 4)),
    ];
    assert_eq!(start_listening_to_instr_comm_commands(commands, &mut d), WorkerExit::Shutdown);
    let mut expected = hit(1);
    expected.extend(hit(0));
    assert_eq!(d.volca_drum.device.messages, expected);
}

#[test]
fn worker_runs_out_of_commands() {
    let mut d = drummer(song("S1", vec![section(1, Some("A"), None)]));
    assert_eq!(start_listening_to_instr_comm_commands(Vec::new(), &mut d), WorkerExit::QueueEmpty);
    let commands = vec![
        InstrCommCommand::TeachSong("S1".to_string()),
        InstrCommCommand::PlayHit(tick(1, 1, 4)),
    ];
    assert_eq!(start_listening_to_instr_comm_commands(commands, &mut d), WorkerExit::QueueEmpty);
    let mut expected = hit(1);
    expected.extend(hit(2));
    assert_eq!(d.volca_drum.device.messages, expected);
}

#[test]
fn single_commands() {
    let mut d = drummer(song("S1", vec![section(1, Some("A"), None)]));
    assert_eq!(
        handle_instr_comm_command(&InstrCommCommand::PlayHit(tick(1, 1, 0)), &mut d),
        Some(WorkerExit::UnknownSong)
    );
    assert_eq!(
        handle_instr_comm_command(&InstrCommCommand::TeachSong("S1".to_string()), &mut d),
        None
    );
    assert_eq!(handle_instr_comm_command(&InstrCommCommand::PlayHit(tick(1, 1, 0)), &mut d), None);
    assert_eq!(
        handle_instr_comm_command(&InstrCommCommand::TeachSong("other".to_string()), &mut d),
        Some(WorkerExit::UnknownSong)
    );
    assert_eq!(
        handle_instr_comm_command(&InstrCommCommand::Shutdown, &mut d),
        Some(WorkerExit::Shutdown)
    );
}

#[test]
fn note_letters_and_accidentals() {
    assert_eq!(get_note_alteration_number('b'), -1);
    assert_eq!(get_note_alteration_number('#'), 1);
    assert_eq!(get_note_alteration_number('3'), 0);
    let naturals = [('C', 0), ('D', 2), ('E', 4), ('F', 5), ('G', 7), ('A', 9), ('B', 11)];
    for (letter, offset) in naturals {
        assert_eq!(get_note_offset_from_letter(letter, 0), offset);
    }
    let sharps = [('C', 1), ('D', 3), ('F', 6), ('G', 8), ('A', 10)];
    for (letter, offset) in sharps {
        assert_eq!(get_note_offset_from_letter(letter, 1), offset);
    }
    let flats = [('D', 1), ('E', 3), ('G', 6), ('A', 8), ('B', 10)];
    for (letter, offset) in flats {
        assert_eq!(get_note_offset_from_letter(letter, -1), offset);
    }
    for (letter, alteration) in [('E', 1), ('B', 1), ('C', -1), ('F', -1), ('H', 0), ('c', 0), ('C', 2)] {
        assert_eq!(get_note_offset_from_letter(letter, alteration), 0);
    }
}

#[test]
fn octave_digits() {
    for (digit, offset) in [('0', 0), ('1', 12), ('2', 24), ('3', 36), ('4', 48), ('5', 60), ('6', 72)] {
        assert_eq!(get_octave_offset_from_letter(digit), offset);
    }
    assert_eq!(get_octave_offset_from_letter('7'), 0);
    assert_eq!(get_octave_offset_from_letter('x'), 0);
}

#[test]
fn note_names_to_pitches() {
    let cases = [
        ("C3", 48),
        ("C#3", 49),
        ("Db3", 49),
        ("A3", 57),
        ("C4", 60),
        ("F3", 53),
        ("C0", 12),
        ("B6", 95),
        ("Bb2", 46),
        ("C2", 36),
        ("G3", 55),
        ("E3", 52),
        ("D3", 50),
        // Too short for an accidental: the second character is the octave.
        ("Cb", 12),
        ("C", 12),
        ("3", 48),
        ("X9", 12),
        ("C#", 12),
        ("C##3", 49),
    ];
    for (name, pitch) in cases {
        assert_eq!(get_note_pitch(&name.to_string()), pitch, "{}", name);
    }
}

#[test]
fn keys_note_sends_program_on_off() {
    let mut keys = VolcaKeys::new(MidiDeviceGhost::new());
    keys.note_play_start("A3".to_string());
    assert_eq!(keys.device.take_messages(), note(57));
    keys.send_plain_message(1, 2, 3);
    assert_eq!(keys.device.take_messages(), vec![msg(1, 2, 3)]);
}

#[test]
fn play_notes_sounds_each_note_in_order() {
    let mut k = keyboard(song("S1", vec![section(1, None, Some("TWO"))]));
    k.play_notes(vec!["F3".to_string(), "A3".to_string(), "C4".to_string()]);
    let mut expected = note(53);
    expected.extend(note(57));
    expected.extend(note(60));
    assert_eq!(k.volca_keys.device.take_messages(), expected);
    k.play_notes(Vec::new());
    assert!(k.volca_keys.device.messages.is_empty());
}

#[test]
fn find_chord_takes_the_first_that_covers() {
    let pattern = KeyboardPattern {
        key: "k".to_string(),
        chords: vec![chord("a", 1, 4, &["C3"]), chord("b", 5, 8, &["D3"]), chord("c", 8, 9, &["E3"])],
    };
    assert_eq!(find_chord(&pattern, 0), None);
    assert_eq!(find_chord(&pattern, 1), Some(0));
    assert_eq!(find_chord(&pattern, 4), Some(0));
    assert_eq!(find_chord(&pattern, 5), Some(1));
    assert_eq!(find_chord(&pattern, 8), Some(1));
    assert_eq!(find_chord(&pattern, 9), Some(2));
    assert_eq!(find_chord(&pattern, 10), None);
}

#[test]
fn two_bar_pattern_wraps_in_a_four_bar_section() {
    let s = song("S1", vec![section(4, None, Some("TWO"))]);
    let pattern = s.keyboard_patterns[0].clone();
    // Sixteenth 1 and sixteenth 33 of the section.
    let first = tick(1, 4, 0);
    let wrapped = tick(1, 4, 32);
    assert_eq!(first.get_cur_1_16ths_in_section_from_1(), 1);
    assert_eq!(wrapped.get_cur_1_16ths_in_section_from_1(), 33);
    assert_eq!(find_sounding_chord(&pattern, &first), Some(0));
    assert_eq!(find_sounding_chord(&pattern, &wrapped), Some(0));
    for t in 0..32 {
        assert_eq!(
            find_sounding_chord(&pattern, &tick(1, 4, t)),
            find_sounding_chord(&pattern, &tick(1, 4, t + 32))
        );
    }
    assert_eq!(find_sounding_chord(&pattern, &tick(1, 4, 16)), Some(1));
    assert_eq!(find_sounding_chord(&pattern, &tick(1, 4, 48)), Some(1));
    // The sixteenth that is a whole number of patterns reduces to 0, which no chord covers.
    assert_eq!(find_sounding_chord(&pattern, &tick(1, 4, 31)), None);
    assert_eq!(find_sounding_chord(&pattern, &tick(1, 4, 63)), None);
}

#[test]
fn keyboard_sounds_the_chord_and_counts_misses() {
    let mut k = keyboard(song("S1", vec![section(2, None, Some("SHORT")), section(1, None, Some("TWO"))]));
    assert_eq!(k.get_instrument_name(), "Keyboard");
    assert_eq!(k.get_short_info(), "");
    assert!(k.teach_song("S1".to_string()));
    assert_eq!(k.pattern, Some(1));
    assert_eq!(k.get_short_info(), "G chord");
    // SHORT spans 20 sixteenths: two bars of coverage, 32 to the round.
    k.play_1_16th(&tick(1, 2, 0));
    assert_eq!(k.volca_keys.device.take_messages(), note(55));
    assert_eq!(k.missed_ticks, 0);
    k.play_1_16th(&tick(1, 2, 19));
    assert_eq!(k.volca_keys.device.take_messages(), note(55));
    k.play_1_16th(&tick(1, 2, 20));
    assert!(k.volca_keys.device.take_messages().is_empty());
    assert_eq!(k.missed_ticks, 1);
    k.play_1_16th(&tick(1, 2, 30));
    assert_eq!(k.missed_ticks, 2);
    assert_eq!(k.curr_section_index, 0);
    k.play_1_16th(&tick(1, 2, 31));
    assert_eq!(k.missed_ticks, 3);
    assert_eq!(k.curr_section_index, 1);
    assert_eq!(k.pattern, Some(0));
    k.play_1_16th(&tick(3, 1, 0));
    let mut expected = note(48);
    expected.extend(note(52));
    assert_eq!(k.volca_keys.device.take_messages(), expected);
    assert_eq!(k.chord_index, 0);
    assert_eq!(k.get_short_info(), "C chord");
    assert_eq!(k.get_current_song_section().map(|s| s.bars), Some(1));
    k.play_1_16th(&tick(3, 1, 15));
    assert_eq!(k.curr_section_index, 2);
    assert!(k.get_current_song_section().is_none());
    assert_eq!(k.pattern, None);
}

#[test]
fn section_without_keyboard_pattern_is_silent_and_no_miss() {
    let mut k = keyboard(song("S1", vec![section(1, Some("A"), None)]));
    k.teach_song("S1".to_string());
    for t in 0..16 {
        k.play_1_16th(&tick(1, 1, t));
    }
    assert!(k.volca_keys.device.messages.is_empty());
    assert_eq!(k.missed_ticks, 0);
    assert_eq!(k.curr_section_index, 1);
}

#[test]
fn lookup_gives_the_pattern_that_the_section_names() {
    let s = song(
        "S1",
        vec![
            section(1, Some("HALF"), Some("SHORT")),
            section(1, None, Some("TWO")),
            section(1, Some("A"), None),
        ],
    );
    let mut d = drummer(s.clone());
    let mut k = keyboard(s);
    let drums = [Some(1), None, Some(0), None];
    let keys = [Some(1), Some(0), None, None];
    for index in 0..4 {
        d.curr_section_index = index;
        d.update_pattern_from_song_section();
        assert_eq!(d.pattern, drums[index]);
        k.curr_section_index = index;
        k.set_pattern_from_song_section();
        assert_eq!(k.pattern, keys[index]);
    }
}
