//! Songs that are built in: a fixed one to try things out with.

use crate::song::{
    ChordView, DrumPattern, DrumPatternView, KeyboardPattern, KeyboardPatternChord,
    KeyboardPatternView, SectionView, Song, SongDetails, SongSection, SongSectionKind, SongTempo,
    SongView, chords_view, strs_view,
};
use vstd::prelude::*;
use vstd::string::*;

verus! {

/// A chord of three notes.
pub open spec fn triad_view(
    chord_name: Seq<char>,
    from_1_16th_incl: nat,
    to_1_16th_incl: nat,
    first: Seq<char>,
    second: Seq<char>,
    third: Seq<char>,
) -> ChordView {
    ChordView { chord_name, from_1_16th_incl, to_1_16th_incl, notes: seq![first, second, third] }
}

/// A section that plays drum pattern `A` and keyboard pattern `A`.
pub open spec fn section_a_view(kind: SongSectionKind, bars: nat) -> SectionView {
    SectionView {
        kind,
        bars,
        drum_pattern_key: Some("A"@),
        keyboard_pattern_key: Some("A"@),
        notes: None,
    }
}

/// The built-in song: 85 beats per minute in 4/4; two drum patterns of
/// one bar, `A` and `B`; one keyboard pattern `A` of four bars with the
/// chords F, D minor and C; and forty bars in six sections, all of
/// which play the patterns `A`.
pub open spec fn dummy_song_view() -> SongView {
    SongView {
        id: "dummy-song"@,
        author: "Author 1"@,
        title: "Title 1"@,
        bpm: 85,
        beats_per_bar: 4,
        beat_unit: 4,
        drum_patterns: seq![
            DrumPatternView {
                key: "A"@,
                num_1_4: 4,
                hh: "x x x x x x x x "@,
                sn: "    x  x    x   "@,
                kk: "x       x x    x"@,
            },
            DrumPatternView {
                key: "B"@,
                num_1_4: 4,
                hh: "x x x xxx x x xx"@,
                sn: "    x       x   "@,
                kk: "x       x x     "@,
            },
        ],
        keyboard_patterns: seq![
            KeyboardPatternView {
                key: "A"@,
                chords: seq![
                    triad_view("F"@, 1, 16, "F3"@, "A3"@, "C4"@),
                    triad_view("Dm"@, 17, 32, "D3"@, "F3"@, "A3"@),
                    triad_view("C"@, 33, 64, "C3"@, "E3"@, "G3"@),
                ],
            },
        ],
        sections: seq![
            section_a_view(SongSectionKind::Intro, 4),
            section_a_view(SongSectionKind::Verse, 8),
            section_a_view(SongSectionKind::Chorus, 8),
            section_a_view(SongSectionKind::Verse, 8),
            section_a_view(SongSectionKind::Chorus, 8),
            section_a_view(SongSectionKind::Outro, 4),
        ],
    }
}

/// A chord of three notes.
fn triad(
    chord_name: &str,
    from_1_16th_incl: usize,
    to_1_16th_incl: usize,
    first: &str,
    second: &str,
    third: &str,
) -> (chord: KeyboardPatternChord)
    ensures
        chord@ == triad_view(
            chord_name@,
            from_1_16th_incl as nat,
            to_1_16th_incl as nat,
            first@,
            second@,
            third@,
        ),
{
    let mut notes: Vec<String> = Vec::new();
    notes.push(String::from_str(first));
    notes.push(String::from_str(second));
    notes.push(String::from_str(third));
    assert(strs_view(notes@) =~= seq![first@, second@, third@]);
    KeyboardPatternChord {
        chord_name: String::from_str(chord_name),
        from_1_16th_incl,
        to_1_16th_incl,
        notes,
    }
}

/// A section that plays drum pattern `A` and keyboard pattern `A`.
fn section_a(kind: SongSectionKind, bars: usize) -> (section: SongSection)
    ensures
        section@ == section_a_view(kind, bars as nat),
{
    SongSection {
        kind,
        bars,
        drum_pattern_key: Some(String::from_str("A")),
        keyboard_pattern_key: Some(String::from_str("A")),
        notes: None,
    }
}

/// The built-in song. It is valid.
pub fn get_dummy_song() -> (song: Song)
    ensures
        song@ == dummy_song_view(),
        song@.valid(),
{
    let mut drum_patterns: Vec<DrumPattern> = Vec::new();
    drum_patterns.push(
        DrumPattern {
            key: String::from_str("A"),
            num_1_4: 4,
            hh: String::from_str("x x x x x x x x "),
            sn: String::from_str("    x  x    x   "),
            kk: String::from_str("x       x x    x"),
        },
    );
    drum_patterns.push(
        DrumPattern {
            key: String::from_str("B"),
            num_1_4: 4,
            hh: String::from_str("x x x xxx x x xx"),
            sn: String::from_str("    x       x   "),
            kk: String::from_str("x       x x     "),
        },
    );
    let mut chords: Vec<KeyboardPatternChord> = Vec::new();
    chords.push(triad("F", 1, 16, "F3", "A3", "C4"));
    chords.push(triad("Dm", 16 + 1, 16 + 16, "D3", "F3", "A3"));
    chords.push(triad("C", 16 + 16 + 1, 16 + 16 + 32, "C3", "E3", "G3"));
    let mut keyboard_patterns: Vec<KeyboardPattern> = Vec::new();
    keyboard_patterns.push(KeyboardPattern { key: String::from_str("A"), chords });
    let mut sections: Vec<SongSection> = Vec::new();
    sections.push(section_a(SongSectionKind::Intro, 4));
    sections.push(section_a(SongSectionKind::Verse, 8));
    sections.push(section_a(SongSectionKind::Chorus, 8));
    sections.push(section_a(SongSectionKind::Verse, 8));
    sections.push(section_a(SongSectionKind::Chorus, 8));
    sections.push(section_a(SongSectionKind::Outro, 4));
    let song = Song {
        id: String::from_str("dummy-song"),
        details: SongDetails {
            author: String::from_str("Author 1"),
            title: String::from_str("Title 1"),
        },
        tempo: SongTempo { bpm: 85, time_signature: (4, 4) },
        drum_patterns,
        keyboard_patterns,
        sections,
    };
    proof {
        assert(chords_view(song.keyboard_patterns[0].chords@)
            =~= dummy_song_view().keyboard_patterns[0].chords);
        assert(song@.drum_patterns =~= dummy_song_view().drum_patterns);
        assert(song@.keyboard_patterns =~= dummy_song_view().keyboard_patterns);
        assert(song@.sections =~= dummy_song_view().sections);
        lemma_dummy_song_valid();
    }
    song
}

/// The built-in song is valid, and lasts forty bars.
pub proof fn lemma_dummy_song_valid()
    ensures
        dummy_song_view().valid(),
        dummy_song_view().total_bars() == 40,
        dummy_song_view().total_ticks() == 640,
{
    let song = dummy_song_view();
    reveal_strlit("A");
    reveal_strlit("B");
    reveal_strlit("x x x x x x x x ");
    reveal_strlit("    x  x    x   ");
    reveal_strlit("x       x x    x");
    reveal_strlit("x x x xxx x x xx");
    reveal_strlit("    x       x   ");
    reveal_strlit("x       x x     ");
    reveal_strlit("F3");
    reveal_strlit("A3");
    reveal_strlit("C4");
    reveal_strlit("D3");
    reveal_strlit("C3");
    reveal_strlit("E3");
    reveal_strlit("G3");
    assert("A"@[0] != "B"@[0]);
    assert(song.drum_keys() =~= seq!["A"@, "B"@]);
    assert(song.keyboard_keys() =~= seq!["A"@]);
    assert(song.drum_pattern_index("A"@) == Some(0int));
    assert(song.keyboard_pattern_index("A"@) == Some(0int));
    assert forall|i: int| 0 <= i < song.sections.len() implies #[trigger] song.section_resolves(
        i,
    ) by {
        assert(song.sections[i].drum_pattern_key == Some("A"@));
        assert(song.sections[i].keyboard_pattern_key == Some("A"@));
    }
    reveal_with_fuel(SongView::bars_before, 8);
    assert(song.total_bars() == 40);
    song.lemma_ticks_of_bars(6);
}

} // verus!
