use volca_sequencer::display::{append_bar_labels, render_transport_display};
use volca_sequencer::instr_comm::{create_instr_comm, InstrComm};
use volca_sequencer::midi_controller::{select_output_port, PortSelection};
use volca_sequencer::midi_device::{MidiDeviceGhost, MidiMessage};
use volca_sequencer::player::{Player, TempoSnapshot};
use volca_sequencer::song::{SongSection, SongSectionKind};
use volca_sequencer::songs::get_dummy_song;
use volca_sequencer::sound_panel::{
    setting_byte, AmpEg, ModulationType, ParamSoundType, SoundPanel, SoundSourceType,
};
use volca_sequencer::text::{append_decimal, append_repeated, decimal_string, digit_str};
use volca_sequencer::volca_drum::VolcaDrum;
use volca_sequencer::yaml_patch_reader::{
    YamlPatchFile, YamlPatchLayout, YamlPatchLayoutAmpEg, YamlPatchLayoutModulationType,
    YamlPatchLayoutSoundSrcType,
};

fn cc(channel: u8, number: u8, value: u8) -> MidiMessage {
    MidiMessage { status: 0xb0 | channel, data1: number, data2: value }
}

fn layout(level: usize) -> YamlPatchLayout {
    YamlPatchLayout {
        sound_src_type: YamlPatchLayoutSoundSrcType::WaveSaw,
        mod_type: YamlPatchLayoutModulationType::ModTri,
        amp_eg: YamlPatchLayoutAmpEg::EnvExp,
        level,
        pitch: 20,
        eg_attack: 30,
        eg_release: 40,
        mod_amount: 50,
        mod_rate: 60,
    }
}

fn layout_messages(channel: u8, level: u8) -> Vec<MidiMessage> {
    vec![
        cc(channel, 14, 50),
        cc(channel, 14, 118),
        cc(channel, 14, 124),
        cc(channel, 17, level),
        cc(channel, 26, 20),
        cc(channel, 20, 30),
        cc(channel, 23, 40),
        cc(channel, 29, 50),
        cc(channel, 46, 60),
    ]
}

#[test]
fn decimal_text() {
    assert_eq!(decimal_string(0), "0");
    assert_eq!(decimal_string(7), "7");
    assert_eq!(decimal_string(10), "10");
    assert_eq!(decimal_string(1234567890), "1234567890");
    assert_eq!(decimal_string(usize::MAX), usize::MAX.to_string());
    for d in 0..10usize {
        assert_eq!(digit_str(d), d.to_string());
    }
    let mut text = "n=".to_string();
    append_decimal(&mut text, 405);
    assert_eq!(text, "n=405");
}

#[test]
fn repeated_text() {
    let mut text = "[".to_string();
    append_repeated(&mut text, "ab", 3);
    append_repeated(&mut text, "zz", 0);
    assert_eq!(text, "[ababab");
}

#[test]
fn bar_labels_are_sixteen_wide() {
    let mut text = String::new();
    append_bar_labels(&mut text, 0);
    assert_eq!(text, "");
    append_bar_labels(&mut text, 2);
    assert_eq!(text, "1th bar         2th bar         ");
    let mut many = String::new();
    append_bar_labels(&mut many, 12);
    assert_eq!(many.len(), 12 * 16);
    assert!(many.ends_with("12th bar        "));
}

#[test]
fn display_of_a_tick() {
    let snapshot = TempoSnapshot {
        cur_bar: 6,
        cur_quarter: 1,
        cur_1_8: 2,
        cur_1_16: 3,
        section_bar_first: 5,
        section_bar_last: 6,
    };
    let lines = render_transport_display(SongSectionKind::Chorus, &snapshot);
    assert_eq!(
        lines,
        vec![
            "  .:[ Chorus ]:.".to_string(),
            "  Now: 2th of 2 bars in section / 1.3 / 6th global bar".to_string(),
            "  1th bar         2th bar         ".to_string(),
            "  1 . 2 . 3 . 4 . 1 . 2 . 3 . 4 . ".to_string(),
            "  V   .   v   .   V   .   v   .   ".to_string(),
            format!("  {}*{}", "-".repeat(18), " ".repeat(13)),
        ]
    );
}

#[test]
fn progress_bar_at_both_ends_of_a_section() {
    let first = TempoSnapshot {
        cur_bar: 1,
        cur_quarter: 1,
        cur_1_8: 1,
        cur_1_16: 1,
        section_bar_first: 1,
        section_bar_last: 1,
    };
    let lines = render_transport_display(SongSectionKind::Intro, &first);
    assert_eq!(lines[5], format!("  *{}", " ".repeat(15)));
    let last = TempoSnapshot { cur_quarter: 4, cur_1_8: 2, cur_1_16: 4, ..first };
    let lines = render_transport_display(SongSectionKind::Intro, &last);
    assert_eq!(lines[5], format!("  {}*", "-".repeat(15)));
    // A bar of five quarters runs past sixteen sixteenths: nothing is left to fill.
    let beyond = TempoSnapshot { cur_quarter: 5, cur_1_8: 1, cur_1_16: 2, ..first };
    let lines = render_transport_display(SongSectionKind::Intro, &beyond);
    assert_eq!(lines[5], format!("  {}*", "-".repeat(17)));
}

#[test]
fn player_with_display_hands_back_a_frame_for_every_tick() {
    let mut player = Player::new(true, InstrComm { tx_list: vec![create_instr_comm()] });
    let performance = player.play_song(get_dummy_song(), 0).unwrap();
    assert_eq!(performance.frames.len(), 640);
    assert_eq!(performance.frames[0][0], "  .:[ Intro ]:.");
    assert_eq!(performance.frames[0][1], "  Now: 1th of 4 bars in section / 1.1 / 1th global bar");
    assert_eq!(performance.frames[64][0], "  .:[ Verse ]:.");
    assert_eq!(performance.frames[64][1], "  Now: 1th of 8 bars in section / 1.1 / 5th global bar");
    assert_eq!(
        performance.frames[639][1],
        "  Now: 4th of 4 bars in section / 4.4 / 40th global bar"
    );
    assert_eq!(performance.frames[639][0], "  .:[ Outro ]:.");
    assert_eq!(performance.frames[639][5], format!("  {}*", "-".repeat(63)));
    // The display changes nothing of what is sent.
    let mut silent = Player::new(false, InstrComm { tx_list: vec![create_instr_comm()] });
    silent.play_song(get_dummy_song(), 0).unwrap();
    assert_eq!(silent.instr_comm.tx_list[0].len(), player.instr_comm.tx_list[0].len());
    assert_eq!(silent.tempo_snapshot, player.tempo_snapshot);
}

#[test]
fn play_now_with_display_hands_back_the_frame() {
    let mut player = Player::new(true, InstrComm { tx_list: vec![create_instr_comm()] });
    player.starts_new_section_with_many_bars(1);
    let section = SongSection {
        kind: SongSectionKind::Bridge,
        bars: 1,
        drum_pattern_key: None,
        keyboard_pattern_key: None,
        notes: None,
    };
    let frame = player.play_1_16th_now(&section).unwrap();
    assert_eq!(frame, render_transport_display(SongSectionKind::Bridge, &player.tempo_snapshot));
    assert_eq!(frame[0], "  .:[ Bridge ]:.");
    assert_eq!(player.instr_comm.tx_list[0].len(), 1);
}

#[test]
fn setting_byte_keeps_the_low_eight_bits() {
    assert_eq!(setting_byte(0), 0);
    assert_eq!(setting_byte(127), 127);
    assert_eq!(setting_byte(255), 255);
    assert_eq!(setting_byte(256), 0);
    assert_eq!(setting_byte(300), 44);
}

#[test]
fn panel_settings_are_control_changes() {
    let mut drum = VolcaDrum::new(MidiDeviceGhost::new());
    let mut panel = SoundPanel { volca_drum: &mut drum };
    panel.set_sound_source_type(0, SoundSourceType::WaveSine);
    panel.set_sound_source_type(1, SoundSourceType::WaveSaw);
    panel.set_sound_source_type(2, SoundSourceType::WaveNoiseHPF);
    panel.set_sound_source_type(3, SoundSourceType::WaveNoiseLPF);
    panel.set_sound_source_type(4, SoundSourceType::WaveNoiseBPF);
    panel.set_modulation_type(0, ModulationType::ModExp);
    panel.set_modulation_type(0, ModulationType::ModTri);
    panel.set_modulation_type(0, ModulationType::ModRand);
    panel.set_amp_eg(1, AmpEg::EnvAd);
    panel.set_amp_eg(1, AmpEg::EnvExp);
    panel.set_amp_eg(1, AmpEg::EnvMul);
    panel.set_param_level(2, ParamSoundType::Level, 1);
    panel.set_param_level(2, ParamSoundType::Pitch, 2);
    panel.set_param_level(2, ParamSoundType::EgAttack, 3);
    panel.set_param_level(2, ParamSoundType::EgRelease, 4);
    panel.set_param_level(2, ParamSoundType::ModAmount, 5);
    panel.set_param_level(2, ParamSoundType::ModRate, 200);
    panel.disable_layout_2_sounds(5);
    assert_eq!(
        drum.device.messages,
        vec![
            cc(0, 14, 24),
            cc(1, 14, 50),
            cc(2, 14, 76),
            cc(3, 14, 101),
            cc(4, 14, 127),
            cc(0, 14, 109),
            cc(0, 14, 118),
            cc(0, 14, 127),
            cc(1, 14, 121),
            cc(1, 14, 124),
            cc(1, 14, 127),
            cc(2, 17, 1),
            cc(2, 26, 2),
            cc(2, 20, 3),
            cc(2, 23, 4),
            cc(2, 29, 5),
            cc(2, 46, 200 & 0x7f),
            cc(5, 18, 0),
        ]
    );
}

#[test]
fn layout_sets_nine_controls_in_order() {
    let mut drum = VolcaDrum::new(MidiDeviceGhost::new());
    let mut panel = SoundPanel { volca_drum: &mut drum };
    panel.set_to_channel_just_patch_layout_1(2, layout(100));
    assert_eq!(drum.device.messages, layout_messages(2, 100));
}

#[test]
fn patch_sets_kick_hihat_and_snare_and_silences_layer_two() {
    let patch = YamlPatchFile {
        kick: layout(10),
        hh: layout(11),
        snare: layout(300),
        sound4: layout(1),
        sound5: layout(2),
        sound6: layout(3),
    };
    let mut drum = VolcaDrum::new(MidiDeviceGhost::new());
    let mut panel = SoundPanel { volca_drum: &mut drum };
    panel.set_from_patch(patch);
    let mut expected = layout_messages(0, 10);
    expected.push(cc(0, 18, 0));
    expected.extend(layout_messages(1, 11));
    expected.push(cc(1, 18, 0));
    expected.extend(layout_messages(2, 44));
    expected.push(cc(2, 18, 0));
    assert_eq!(drum.device.messages, expected);
}

#[test]
fn port_selection() {
    assert_eq!(select_output_port(Some(1), 3), PortSelection::Use(1));
    assert_eq!(select_output_port(Some(0), 1), PortSelection::Use(0));
    assert_eq!(select_output_port(Some(3), 3), PortSelection::Ask);
    assert_eq!(select_output_port(Some(5), 1), PortSelection::Use(0));
    assert_eq!(select_output_port(Some(0), 0), PortSelection::NoPort);
    assert_eq!(select_output_port(None, 0), PortSelection::NoPort);
    assert_eq!(select_output_port(None, 1), PortSelection::Use(0));
    assert_eq!(select_output_port(None, 2), PortSelection::Ask);
}
