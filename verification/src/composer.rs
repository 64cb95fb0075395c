//! A composer that writes a song from a few settings.

use crate::song::{
    ChordView, DrumPattern, DrumPatternView, KeyboardPattern, KeyboardPatternChord,
    KeyboardPatternView, SectionView, Song, SongDetails, SongSection, SongSectionKind, SongTempo,
    SongView, chords_view, strs_view,
};
use vstd::prelude::*;
use vstd::string::*;

verus! {

pub struct Composer {
    /// Tempo of the song, in quarter notes per minute.
    pub bpm: usize,
    /// Bars of the song's one section.
    pub num_sections: usize,
    pub click: bool,
    pub tonality_note: TonalityNote,
    pub tonality_mode: TonalityMode,
}

#[derive(Debug, Clone, Copy, PartialEq, Eq, Structural)]
pub enum TonalityNote {
    C,
    Cs,
    D,
    Ds,
    E,
    F,
    Fs,
    G,
    Gs,
    A,
    As,
    B,
}

#[derive(Debug, Clone, Copy, PartialEq, Eq, Structural)]
pub enum TonalityMode {
    Major,
    Minor,
}

/// The song that a composer writes at `bpm` beats per minute with
/// `bars` bars: one verse in 4/4, with a click on every eighth note on
/// the kick drum and a C major chord held over four bars.
pub open spec fn composed_song_view(bpm: nat, bars: nat) -> SongView {
    SongView {
        id: "smart-song"@,
        author: "Smart composer"@,
        title: "Smart song"@,
        bpm,
        beats_per_bar: 4,
        beat_unit: 4,
        drum_patterns: seq![
            DrumPatternView {
                key: "CLICK"@,
                num_1_4: 4,
                hh: "                "@,
                sn: "                "@,
                kk: "x x x x x x x x "@,
            },
        ],
        keyboard_patterns: seq![
            KeyboardPatternView {
                key: "A"@,
                chords: seq![
                    ChordView {
                        chord_name: "C"@,
                        from_1_16th_incl: 1,
                        to_1_16th_incl: 64,
                        notes: seq!["C2"@, "C3"@, "E3"@, "G3"@],
                    },
                ],
            },
        ],
        sections: seq![
            SectionView {
                kind: SongSectionKind::Verse,
                bars,
                drum_pattern_key: Some("CLICK"@),
                keyboard_pattern_key: Some("A"@),
                notes: None,
            },
        ],
    }
}

/// A composed song is valid exactly when it has a tempo and a `usize`
/// can count its sixteenths with a bar to spare.
pub proof fn lemma_composed_song_valid(bpm: nat, bars: nat)
    ensures
        composed_song_view(bpm, bars).valid() <==> bpm >= 1 && bars * 16 + 16 <= usize::MAX,
        composed_song_view(bpm, bars).total_ticks() == bars * 16,
{
    let song = composed_song_view(bpm, bars);
    reveal_strlit("                ");
    reveal_strlit("x x x x x x x x ");
    reveal_strlit("C2");
    reveal_strlit("C3");
    reveal_strlit("E3");
    reveal_strlit("G3");
    assert(song.drum_keys() =~= seq!["CLICK"@]);
    assert(song.keyboard_keys() =~= seq!["A"@]);
    assert(song.drum_pattern_index("CLICK"@) == Some(0int));
    assert(song.keyboard_pattern_index("A"@) == Some(0int));
    assert(song.section_resolves(0));
    reveal_with_fuel(SongView::bars_before, 3);
    assert(song.total_bars() == bars);
    song.lemma_ticks_of_bars(1);
}

impl Composer {
    /// Writes the song. Only tempo and length are up to the settings.
    pub fn compose_new_song(&self) -> (song: Song)
        ensures
            song@ == composed_song_view(self.bpm as nat, self.num_sections as nat),
            song@.valid() <==> self.bpm >= 1 && self.num_sections * 16 + 16 <= usize::MAX,
    {
        let mut drum_patterns: Vec<DrumPattern> = Vec::new();
        drum_patterns.push(
            DrumPattern {
                key: String::from_str("CLICK"),
                num_1_4: 4,
                hh: String::from_str("                "),
                sn: String::from_str("                "),
                kk: String::from_str("x x x x x x x x "),
            },
        );
        let mut notes: Vec<String> = Vec::new();
        notes.push(String::from_str("C2"));
        notes.push(String::from_str("C3"));
        notes.push(String::from_str("E3"));
        notes.push(String::from_str("G3"));
        let mut chords: Vec<KeyboardPatternChord> = Vec::new();
        chords.push(
            KeyboardPatternChord {
                chord_name: String::from_str("C"),
                from_1_16th_incl: 1,
                to_1_16th_incl: 16 + 16 + 16 + 16,
                notes,
            },
        );
        let mut keyboard_patterns: Vec<KeyboardPattern> = Vec::new();
        keyboard_patterns.push(KeyboardPattern { key: String::from_str("A"), chords });
        let mut sections: Vec<SongSection> = Vec::new();
        sections.push(
            SongSection {
                kind: SongSectionKind::Verse,
                bars: self.num_sections,
                drum_pattern_key: Some(String::from_str("CLICK")),
                keyboard_pattern_key: Some(String::from_str("A")),
                notes: None,
            },
        );
        let song = Song {
            id: String::from_str("smart-song"),
            details: SongDetails {
                author: String::from_str("Smart composer"),
                title: String::from_str("Smart song"),
            },
            tempo: SongTempo { bpm: self.bpm, time_signature: (4, 4) },
            drum_patterns,
            keyboard_patterns,
            sections,
        };
        proof {
            let view = composed_song_view(self.bpm as nat, self.num_sections as nat);
            assert(strs_view(song.keyboard_patterns[0].chords[0].notes@)
                =~= view.keyboard_patterns[0].chords[0].notes);
            assert(chords_view(song.keyboard_patterns[0].chords@)
                =~= view.keyboard_patterns[0].chords);
            assert(song@.drum_patterns =~= view.drum_patterns);
            assert(song@.keyboard_patterns =~= view.keyboard_patterns);
            assert(song@.sections =~= view.sections);
            lemma_composed_song_valid(self.bpm as nat, self.num_sections as nat);
        }
        song
    }
}

} // verus!
