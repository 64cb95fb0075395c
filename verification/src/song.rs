//! The song model: tempo, drum and keyboard patterns looked up by key, and
//! the ordered sections that assign them to bars.
//!
//! Contracts speak of a song through its view, [`SongView`], in which
//! strings are sequences of characters and lists are sequences.

use crate::text::{append_decimal, decimal};
use crate::yaml_song_reader::{YamlSong, YamlSongSection};
use vstd::prelude::*;
use vstd::string::*;

verus! {

/// View of an optional string.
pub open spec fn opt_str_view(o: Option<String>) -> Option<Seq<char>> {
    match o {
        Some(s) => Some(s@),
        None => None,
    }
}

/// View of a list of strings.
pub open spec fn strs_view(v: Seq<String>) -> Seq<Seq<char>> {
    Seq::new(v.len(), |i: int| v[i]@)
}

/// The first index at or after `start` at which `keys` holds `key`.
pub open spec fn key_index_from(keys: Seq<Seq<char>>, key: Seq<char>, start: int) -> Option<int>
    decreases keys.len() - start,
{
    if start < 0 || start >= keys.len() {
        None
    } else if keys[start] == key {
        Some(start)
    } else {
        key_index_from(keys, key, start + 1)
    }
}

/// The first index at which `keys` holds `key`.
pub open spec fn key_index(keys: Seq<Seq<char>>, key: Seq<char>) -> Option<int> {
    key_index_from(keys, key, 0)
}

/// No key occurs twice.
pub open spec fn keys_distinct(keys: Seq<Seq<char>>) -> bool {
    forall|i: int, j: int| 0 <= i < j < keys.len() ==> keys[i] != keys[j]
}

/// `key_index_from` returns the least matching index from `start` on, and
/// `None` exactly when there is none.
pub proof fn lemma_key_index_from(keys: Seq<Seq<char>>, key: Seq<char>, start: int)
    requires
        0 <= start,
    ensures
        match key_index_from(keys, key, start) {
            Some(i) => start <= i < keys.len() && keys[i] == key && forall|j: int|
                start <= j < i ==> keys[j] != key,
            None => forall|j: int| start <= j < keys.len() ==> keys[j] != key,
        },
    decreases keys.len() - start,
{
    if start < keys.len() && keys[start] != key {
        lemma_key_index_from(keys, key, start + 1);
    }
}

#[derive(Debug, Clone)]
pub struct SongDetails {
    pub author: String,
    pub title: String,
}

#[derive(Debug, Clone, Copy)]
pub struct SongTempo {
    /// Quarter notes per minute.
    pub bpm: usize,
    /// Beats per bar and beat unit: (4, 4) stands for 4/4.
    pub time_signature: (usize, usize),
}

#[derive(Debug, Clone, Copy, PartialEq, Eq, Structural)]
pub enum SongSectionKind {
    Intro,
    Verse,
    Chorus,
    Bridge,
    Outro,
}

/// A run of bars that shares one drum pattern and one keyboard pattern.
#[derive(Debug, Clone)]
pub struct SongSection {
    pub kind: SongSectionKind,
    pub bars: usize,
    pub drum_pattern_key: Option<String>,
    pub keyboard_pattern_key: Option<String>,
    pub notes: Option<String>,
}

pub struct SectionView {
    pub kind: SongSectionKind,
    pub bars: nat,
    pub drum_pattern_key: Option<Seq<char>>,
    pub keyboard_pattern_key: Option<Seq<char>>,
    pub notes: Option<Seq<char>>,
}

impl View for SongSection {
    type V = SectionView;

    open spec fn view(&self) -> SectionView {
        SectionView {
            kind: self.kind,
            bars: self.bars as nat,
            drum_pattern_key: opt_str_view(self.drum_pattern_key),
            keyboard_pattern_key: opt_str_view(self.keyboard_pattern_key),
            notes: opt_str_view(self.notes),
        }
    }
}

/// Three rows of steps, one character per sixteenth: a space is silence,
/// any other character a hit.
#[derive(Debug)]
pub struct DrumPattern {
    pub key: String,
    /// Quarter notes that the rows span.
    pub num_1_4: usize,
    pub hh: String,
    pub sn: String,
    pub kk: String,
}

pub struct DrumPatternView {
    pub key: Seq<char>,
    pub num_1_4: nat,
    pub hh: Seq<char>,
    pub sn: Seq<char>,
    pub kk: Seq<char>,
}

impl DrumPatternView {
    /// Each row holds four steps for every quarter note of the pattern.
    pub open spec fn wf(self) -> bool {
        &&& self.hh.len() == 4 * self.num_1_4
        &&& self.sn.len() == 4 * self.num_1_4
        &&& self.kk.len() == 4 * self.num_1_4
    }
}

impl View for DrumPattern {
    type V = DrumPatternView;

    open spec fn view(&self) -> DrumPatternView {
        DrumPatternView {
            key: self.key@,
            num_1_4: self.num_1_4 as nat,
            hh: self.hh@,
            sn: self.sn@,
            kk: self.kk@,
        }
    }
}

/// A chord and the sixteenths of its pattern, counted from 1 and both
/// ends included, during which it sounds.
#[derive(Debug)]
pub struct KeyboardPatternChord {
    pub chord_name: String,
    pub from_1_16th_incl: usize,
    pub to_1_16th_incl: usize,
    pub notes: Vec<String>,
}

pub struct ChordView {
    pub chord_name: Seq<char>,
    pub from_1_16th_incl: nat,
    pub to_1_16th_incl: nat,
    pub notes: Seq<Seq<char>>,
}

impl ChordView {
    /// The chord sounds at sixteenth `index` of its pattern.
    pub open spec fn covers(self, index: int) -> bool {
        self.from_1_16th_incl <= index <= self.to_1_16th_incl
    }
}

impl View for KeyboardPatternChord {
    type V = ChordView;

    open spec fn view(&self) -> ChordView {
        ChordView {
            chord_name: self.chord_name@,
            from_1_16th_incl: self.from_1_16th_incl as nat,
            to_1_16th_incl: self.to_1_16th_incl as nat,
            notes: strs_view(self.notes@),
        }
    }
}

#[derive(Debug)]
pub struct KeyboardPattern {
    pub key: String,
    pub chords: Vec<KeyboardPatternChord>,
}

pub struct KeyboardPatternView {
    pub key: Seq<char>,
    pub chords: Seq<ChordView>,
}

impl KeyboardPatternView {
    /// The last sixteenth that the pattern covers.
    pub open spec fn total_to_1_16th_incl(self) -> nat
        recommends
            self.chords.len() >= 1,
    {
        self.chords[self.chords.len() - 1].to_1_16th_incl
    }

    /// Bars of sixteen sixteenths that the pattern covers, rounded up.
    pub open spec fn ceil_num_bars_coverage(self) -> nat
        recommends
            self.chords.len() >= 1,
    {
        ((self.total_to_1_16th_incl() + 15) / 16) as nat
    }

    /// There is a chord, the chords follow each other without gap or
    /// overlap from sixteenth 1 on, and every note has a name.
    pub open spec fn wf(self) -> bool {
        &&& self.chords.len() >= 1
        &&& self.chords[0].from_1_16th_incl == 1
        &&& forall|i: int|
            0 <= i < self.chords.len() ==> {
                &&& (#[trigger] self.chords[i]).from_1_16th_incl <= self.chords[i].to_1_16th_incl
                &&& i > 0 ==> self.chords[i].from_1_16th_incl == self.chords[i
                    - 1].to_1_16th_incl + 1
                &&& forall|k: int|
                    0 <= k < self.chords[i].notes.len() ==> (
                    #[trigger] self.chords[i].notes[k]).len()
                        > 0
            }
    }

    /// Index of the first chord that sounds at sixteenth `index`, from `start` on.
    pub open spec fn chord_index_from(self, index: int, start: int) -> Option<int>
        decreases self.chords.len() - start,
    {
        if start < 0 || start >= self.chords.len() {
            None
        } else if self.chords[start].covers(index) {
            Some(start)
        } else {
            self.chord_index_from(index, start + 1)
        }
    }

    /// Index of the first chord that sounds at sixteenth `index`.
    pub open spec fn chord_index_at(self, index: int) -> Option<int> {
        self.chord_index_from(index, 0)
    }
}

impl KeyboardPatternView {
    /// `chord_index_from` gives the first chord from `start` on that
    /// sounds at sixteenth `index`, and `None` exactly when none does.
    pub proof fn lemma_chord_index_from(self, index: int, start: int)
        requires
            0 <= start,
        ensures
            match self.chord_index_from(index, start) {
                Some(c) => start <= c < self.chords.len() && self.chords[c].covers(index)
                    && forall|j: int| start <= j < c ==> !(#[trigger] self.chords[j]).covers(index),
                None => forall|j: int|
                    start <= j < self.chords.len() ==> !(#[trigger] self.chords[j]).covers(index),
            },
        decreases self.chords.len() - start,
    {
        if start < self.chords.len() && !self.chords[start].covers(index) {
            self.lemma_chord_index_from(index, start + 1);
        }
    }

    /// In a well-formed pattern a later chord starts after an earlier
    /// one ends: no two chords overlap.
    pub proof fn lemma_chords_in_order(self, i: int, j: int)
        requires
            self.wf(),
            0 <= i < j < self.chords.len(),
        ensures
            self.chords[i].to_1_16th_incl < self.chords[j].from_1_16th_incl,
        decreases j - i,
    {
        if i + 1 < j {
            self.lemma_chords_in_order(i, j - 1);
            assert(self.chords[j - 1].from_1_16th_incl <= self.chords[j - 1].to_1_16th_incl);
        }
        assert(self.chords[j].from_1_16th_incl == self.chords[j - 1].to_1_16th_incl + 1);
    }

    /// The chords of a well-formed pattern cover its sixteenths from 1
    /// to the last, each once: a sixteenth in that range sounds exactly
    /// one chord, and a sixteenth outside it sounds none.
    pub proof fn lemma_chords_cover(self, index: int)
        requires
            self.wf(),
        ensures
            1 <= index <= self.total_to_1_16th_incl() <==> self.chord_index_at(index) is Some,
            forall|c: int|
                0 <= c < self.chords.len() && (#[trigger] self.chords[c]).covers(index)
                    ==> self.chord_index_at(index) == Some(c),
    {
        let n = self.chords.len() as int;
        self.lemma_chord_index_from(index, 0);
        assert forall|c: int|
            0 <= c < n && (#[trigger] self.chords[c]).covers(index) implies self.chord_index_at(
            index,
        ) == Some(c) by {
            let found = self.chord_index_at(index)->0;
            if found < c {
                self.lemma_chords_in_order(found, c);
            }
        }
        if 1 <= index <= self.total_to_1_16th_incl() {
            self.lemma_covered_up_to(index, n - 1);
        }
        if self.chord_index_at(index) is Some {
            let found = self.chord_index_at(index)->0;
            assert(self.chords[found].covers(index));
            if found > 0 {
                self.lemma_chords_in_order(0, found);
            }
            if found < n - 1 {
                self.lemma_chords_in_order(found, n - 1);
            }
            assert(self.chords[n - 1].from_1_16th_incl <= self.chords[n - 1].to_1_16th_incl);
        }
    }

    /// A sixteenth from 1 to the end of chord `last` sounds one of the
    /// chords up to `last`.
    pub proof fn lemma_covered_up_to(self, index: int, last: int)
        requires
            self.wf(),
            0 <= last < self.chords.len(),
            1 <= index <= self.chords[last].to_1_16th_incl,
        ensures
            exists|c: int| 0 <= c <= last && (#[trigger] self.chords[c]).covers(index),
        decreases last,
    {
        if self.chords[last].covers(index) {
        } else {
            assert(last > 0);
            assert(self.chords[last].from_1_16th_incl == self.chords[last - 1].to_1_16th_incl + 1);
            self.lemma_covered_up_to(index, last - 1);
        }
    }
}

/// View of a list of chords.
pub open spec fn chords_view(v: Seq<KeyboardPatternChord>) -> Seq<ChordView> {
    Seq::new(v.len(), |i: int| v[i]@)
}

impl View for KeyboardPattern {
    type V = KeyboardPatternView;

    open spec fn view(&self) -> KeyboardPatternView {
        KeyboardPatternView { key: self.key@, chords: chords_view(self.chords@) }
    }
}

/// A song: immutable once built for a run.
#[derive(Debug, Clone)]
pub struct Song {
    /// Opaque identity, by which a worker checks that it was taught the
    /// song it is asked to play.
    pub id: String,
    pub details: SongDetails,
    pub tempo: SongTempo,
    /// Drum patterns, found by their `key`.
    pub drum_patterns: Vec<DrumPattern>,
    /// Keyboard patterns, found by their `key`.
    pub keyboard_patterns: Vec<KeyboardPattern>,
    pub sections: Vec<SongSection>,
}

pub struct SongView {
    pub id: Seq<char>,
    pub author: Seq<char>,
    pub title: Seq<char>,
    pub bpm: nat,
    pub beats_per_bar: nat,
    pub beat_unit: nat,
    pub drum_patterns: Seq<DrumPatternView>,
    pub keyboard_patterns: Seq<KeyboardPatternView>,
    pub sections: Seq<SectionView>,
}

/// View of a list of drum patterns.
pub open spec fn drum_patterns_view(v: Seq<DrumPattern>) -> Seq<DrumPatternView> {
    Seq::new(v.len(), |i: int| v[i]@)
}

/// View of a list of keyboard patterns.
pub open spec fn keyboard_patterns_view(v: Seq<KeyboardPattern>) -> Seq<KeyboardPatternView> {
    Seq::new(v.len(), |i: int| v[i]@)
}

/// View of a list of sections.
pub open spec fn sections_view(v: Seq<SongSection>) -> Seq<SectionView> {
    Seq::new(v.len(), |i: int| v[i]@)
}

impl View for Song {
    type V = SongView;

    open spec fn view(&self) -> SongView {
        SongView {
            id: self.id@,
            author: self.details.author@,
            title: self.details.title@,
            bpm: self.tempo.bpm as nat,
            beats_per_bar: self.tempo.time_signature.0 as nat,
            beat_unit: self.tempo.time_signature.1 as nat,
            drum_patterns: drum_patterns_view(self.drum_patterns@),
            keyboard_patterns: keyboard_patterns_view(self.keyboard_patterns@),
            sections: sections_view(self.sections@),
        }
    }
}


impl Clone for DrumPattern {
    fn clone(&self) -> (res: Self)
        ensures
            res@ == self@,
    {
        DrumPattern {
            key: self.key.clone(),
            num_1_4: self.num_1_4,
            hh: self.hh.clone(),
            sn: self.sn.clone(),
            kk: self.kk.clone(),
        }
    }
}

impl Clone for KeyboardPatternChord {
    fn clone(&self) -> (res: Self)
        ensures
            res@ == self@,
    {
        let mut notes: Vec<String> = Vec::new();
        let n: usize = self.notes.len();
        let mut i: usize = 0;
        while i < n
            invariant
                i <= n,
                n == self.notes.len(),
                notes.len() == i,
                forall|k: int| 0 <= k < i ==> notes[k]@ == self.notes[k]@,
            decreases n - i,
        {
            notes.push(self.notes[i].clone());
            i = i + 1;
        }
        assert(strs_view(notes@) =~= strs_view(self.notes@));
        KeyboardPatternChord {
            chord_name: self.chord_name.clone(),
            from_1_16th_incl: self.from_1_16th_incl,
            to_1_16th_incl: self.to_1_16th_incl,
            notes,
        }
    }
}

impl Clone for KeyboardPattern {
    fn clone(&self) -> (res: Self)
        ensures
            res@ == self@,
    {
        let mut chords: Vec<KeyboardPatternChord> = Vec::new();
        let n: usize = self.chords.len();
        let mut i: usize = 0;
        while i < n
            invariant
                i <= n,
                n == self.chords.len(),
                chords.len() == i,
                forall|k: int| 0 <= k < i ==> chords[k]@ == self.chords[k]@,
            decreases n - i,
        {
            chords.push(self.chords[i].clone());
            i = i + 1;
        }
        assert(chords_view(chords@) =~= chords_view(self.chords@));
        KeyboardPattern { key: self.key.clone(), chords }
    }
}

impl KeyboardPattern {
    /// The last sixteenth that the pattern covers: the end of its last chord.
    pub fn get_total_to_1_16th_incl(&self) -> (n: usize)
        requires
            self.chords.len() >= 1,
        ensures
            n == self@.total_to_1_16th_incl(),
    {
        let last_chord = &self.chords[self.chords.len() - 1];
        last_chord.to_1_16th_incl
    }

    /// Bars of sixteen sixteenths that the pattern covers, rounded up.
    pub fn get_ceil_num_bars_coverage(&self) -> (n: usize)
        requires
            self.chords.len() >= 1,
        ensures
            n == self@.ceil_num_bars_coverage(),
    {
        let total: usize = self.get_total_to_1_16th_incl();
        if total % 16 == 0 {
            total / 16
        } else {
            total / 16 + 1
        }
    }
}

impl SongView {
    /// The keys of the drum patterns, in their order.
    pub open spec fn drum_keys(self) -> Seq<Seq<char>> {
        Seq::new(self.drum_patterns.len(), |i: int| self.drum_patterns[i].key)
    }

    /// The keys of the keyboard patterns, in their order.
    pub open spec fn keyboard_keys(self) -> Seq<Seq<char>> {
        Seq::new(self.keyboard_patterns.len(), |i: int| self.keyboard_patterns[i].key)
    }

    /// Index of the drum pattern with this key.
    pub open spec fn drum_pattern_index(self, key: Seq<char>) -> Option<int> {
        key_index(self.drum_keys(), key)
    }

    /// Index of the keyboard pattern with this key.
    pub open spec fn keyboard_pattern_index(self, key: Seq<char>) -> Option<int> {
        key_index(self.keyboard_keys(), key)
    }

    /// Index of the drum pattern that section `i` plays; `None` where the
    /// section names none, or lies beyond the last section.
    pub open spec fn section_drum_pattern(self, i: int) -> Option<int> {
        if 0 <= i < self.sections.len() {
            match self.sections[i].drum_pattern_key {
                Some(key) => self.drum_pattern_index(key),
                None => None,
            }
        } else {
            None
        }
    }

    /// Index of the keyboard pattern that section `i` plays; `None` where
    /// the section names none, or lies beyond the last section.
    pub open spec fn section_keyboard_pattern(self, i: int) -> Option<int> {
        if 0 <= i < self.sections.len() {
            match self.sections[i].keyboard_pattern_key {
                Some(key) => self.keyboard_pattern_index(key),
                None => None,
            }
        } else {
            None
        }
    }

    /// The drum pattern key of section `i`, if it has one, names a pattern.
    pub open spec fn section_drum_resolves(self, i: int) -> bool {
        self.sections[i].drum_pattern_key is Some ==> self.section_drum_pattern(i) is Some
    }

    /// The keyboard pattern key of section `i`, if it has one, names a pattern.
    pub open spec fn section_keyboard_resolves(self, i: int) -> bool {
        self.sections[i].keyboard_pattern_key is Some ==> self.section_keyboard_pattern(i) is Some
    }

    /// Both pattern keys of section `i`, as far as it has them, name patterns.
    pub open spec fn section_resolves(self, i: int) -> bool {
        self.section_drum_resolves(i) && self.section_keyboard_resolves(i)
    }
}

impl Song {
    /// Index of the drum pattern with this key.
    pub fn find_drum_pattern(&self, key: &String) -> (r: Option<usize>)
        ensures
            match r {
                Some(i) => {
                    &&& self@.drum_pattern_index(key@) == Some(i as int)
                    &&& i < self.drum_patterns.len()
                    &&& self.drum_patterns[i as int].key@ == key@
                    &&& forall|j: int|
                        0 <= j < i ==> (#[trigger] self.drum_patterns[j]).key@ != key@
                },
                None => {
                    &&& self@.drum_pattern_index(key@) is None
                    &&& forall|j: int|
                        0 <= j < self.drum_patterns.len() ==> (
                        #[trigger] self.drum_patterns[j]).key@ != key@
                },
            },
    {
        let n: usize = self.drum_patterns.len();
        let mut i: usize = 0;
        while i < n
            invariant
                i <= n,
                n == self.drum_patterns.len(),
                self@.drum_keys().len() == n,
                self@.drum_pattern_index(key@) == key_index_from(
                    self@.drum_keys(),
                    key@,
                    i as int,
                ),
                forall|j: int| 0 <= j < i ==> (#[trigger] self.drum_patterns[j]).key@ != key@,
            decreases n - i,
        {
            assert(self@.drum_keys()[i as int] == self.drum_patterns[i as int].key@);
            if self.drum_patterns[i].key == *key {
                return Some(i);
            }
            i = i + 1;
        }
        None
    }

    /// Index of the keyboard pattern with this key.
    pub fn find_keyboard_pattern(&self, key: &String) -> (r: Option<usize>)
        ensures
            match r {
                Some(i) => {
                    &&& self@.keyboard_pattern_index(key@) == Some(i as int)
                    &&& i < self.keyboard_patterns.len()
                    &&& self.keyboard_patterns[i as int].key@ == key@
                    &&& forall|j: int|
                        0 <= j < i ==> (#[trigger] self.keyboard_patterns[j]).key@ != key@
                },
                None => {
                    &&& self@.keyboard_pattern_index(key@) is None
                    &&& forall|j: int|
                        0 <= j < self.keyboard_patterns.len() ==> (
                        #[trigger] self.keyboard_patterns[j]).key@ != key@
                },
            },
    {
        let n: usize = self.keyboard_patterns.len();
        let mut i: usize = 0;
        while i < n
            invariant
                i <= n,
                n == self.keyboard_patterns.len(),
                self@.keyboard_keys().len() == n,
                self@.keyboard_pattern_index(key@) == key_index_from(
                    self@.keyboard_keys(),
                    key@,
                    i as int,
                ),
                forall|j: int| 0 <= j < i ==> (#[trigger] self.keyboard_patterns[j]).key@ != key@,
            decreases n - i,
        {
            assert(self@.keyboard_keys()[i as int] == self.keyboard_patterns[i as int].key@);
            if self.keyboard_patterns[i].key == *key {
                return Some(i);
            }
            i = i + 1;
        }
        None
    }

    /// A copy of the drum pattern with this key, `None` where the song
    /// has none.
    pub fn get_drum_pattern_clone_from_key(&self, drum_pattern_key: String) -> (r: Option<
        DrumPattern,
    >)
        ensures
            match self@.drum_pattern_index(drum_pattern_key@) {
                Some(i) => r is Some && r->0@ == self@.drum_patterns[i],
                None => r is None,
            },
    {
        match self.find_drum_pattern(&drum_pattern_key) {
            Some(i) => Some(self.drum_patterns[i].clone()),
            None => None,
        }
    }

    /// A copy of the keyboard pattern with this key, `None` where the
    /// song has none.
    pub fn get_keyboard_pattern_clone_from_key(&self, key: String) -> (r: Option<KeyboardPattern>)
        ensures
            match self@.keyboard_pattern_index(key@) {
                Some(i) => r is Some && r->0@ == self@.keyboard_patterns[i],
                None => r is None,
            },
    {
        match self.find_keyboard_pattern(&key) {
            Some(i) => Some(self.keyboard_patterns[i].clone()),
            None => None,
        }
    }
}


/// Why a song cannot be played.
#[derive(Debug, Clone, Copy, PartialEq, Eq, Structural)]
pub enum SongError {
    /// The song has no section.
    NoSections,
    /// The tempo is zero beats per minute.
    BadTempo,
    /// The time signature has zero beats per bar.
    BadTimeSignature,
    /// The rows of the drum pattern at this index do not each hold four
    /// steps per quarter note.
    MalformedDrumPattern(usize),
    /// The drum pattern at this index has the key of an earlier one.
    DuplicateDrumPattern(usize),
    /// The keyboard pattern at this index has no chord, a gap or an
    /// overlap between chords, or a note without a name.
    MalformedKeyboardPattern(usize),
    /// The keyboard pattern at this index has the key of an earlier one.
    DuplicateKeyboardPattern(usize),
    /// The section at this index names a drum pattern that the song lacks.
    UnknownDrumPattern(usize),
    /// The section at this index names a keyboard pattern that the song lacks.
    UnknownKeyboardPattern(usize),
    /// The song has more ticks or bars than a `usize` counts.
    TooLong,
}

/// The key at `i` occurred before, and no key before `i` did.
pub open spec fn first_repeat_at(keys: Seq<Seq<char>>, i: int) -> bool {
    &&& 0 <= i < keys.len()
    &&& exists|j: int| 0 <= j < i && keys[j] == keys[i]
    &&& keys_distinct(keys.take(i))
}

impl SongView {
    /// Ticks that section `i` lasts: four for each beat of each bar.
    pub open spec fn section_ticks(self, i: int) -> nat {
        self.sections[i].bars * self.beats_per_bar * 4
    }

    /// Ticks of the sections before section `i`.
    pub open spec fn ticks_before(self, i: int) -> nat
        decreases i,
    {
        if i <= 0 {
            0
        } else {
            self.ticks_before(i - 1) + self.section_ticks(i - 1)
        }
    }

    /// Bars of the sections before section `i`.
    pub open spec fn bars_before(self, i: int) -> nat
        decreases i,
    {
        if i <= 0 {
            0
        } else {
            self.bars_before(i - 1) + self.sections[i - 1].bars
        }
    }

    /// Ticks of the whole song.
    pub open spec fn total_ticks(self) -> nat {
        self.ticks_before(self.sections.len() as int)
    }

    /// There is a section, and tempo and beats per bar are positive.
    pub open spec fn basics_ok(self) -> bool {
        &&& self.sections.len() >= 1
        &&& self.bpm >= 1
        &&& self.beats_per_bar >= 1
    }

    /// Every drum pattern is well formed and no two share a key.
    pub open spec fn drums_ok(self) -> bool {
        &&& forall|i: int|
            0 <= i < self.drum_patterns.len() ==> (#[trigger] self.drum_patterns[i]).wf()
        &&& keys_distinct(self.drum_keys())
    }

    /// Every keyboard pattern is well formed and no two share a key.
    pub open spec fn keyboards_ok(self) -> bool {
        &&& forall|i: int|
            0 <= i < self.keyboard_patterns.len() ==> (#[trigger] self.keyboard_patterns[i]).wf()
        &&& keys_distinct(self.keyboard_keys())
    }

    /// Every pattern key that a section holds names a pattern of the song.
    pub open spec fn sections_resolve(self) -> bool {
        forall|i: int| 0 <= i < self.sections.len() ==> #[trigger] self.section_resolves(i)
    }

    /// Bars of the whole song.
    pub open spec fn total_bars(self) -> nat {
        self.bars_before(self.sections.len() as int)
    }

    /// A `usize` can count the ticks of the song, and its sixteenths at
    /// sixteen to the bar with one bar to spare.
    pub open spec fn fits(self) -> bool {
        &&& self.total_ticks() <= usize::MAX
        &&& self.total_bars() * 16 + self.beats_per_bar * 4 <= usize::MAX
    }

    /// The song can be played: it has sections and a tempo, its patterns
    /// are well formed and uniquely keyed, its sections name patterns
    /// that exist, and its ticks can be counted.
    pub open spec fn valid(self) -> bool {
        &&& self.basics_ok()
        &&& self.drums_ok()
        &&& self.keyboards_ok()
        &&& self.sections_resolve()
        &&& self.fits()
    }

    /// What is wrong with the drum patterns, the first fault first:
    /// malformed patterns come before repeated keys.
    pub open spec fn drum_fault(self, e: SongError) -> bool {
        match e {
            SongError::MalformedDrumPattern(i) => {
                &&& i < self.drum_patterns.len()
                &&& !self.drum_patterns[i as int].wf()
                &&& forall|j: int| 0 <= j < i ==> (#[trigger] self.drum_patterns[j]).wf()
            },
            SongError::DuplicateDrumPattern(i) => {
                &&& forall|j: int|
                    0 <= j < self.drum_patterns.len() ==> (#[trigger] self.drum_patterns[j]).wf()
                &&& first_repeat_at(self.drum_keys(), i as int)
            },
            _ => false,
        }
    }

    /// What is wrong with the keyboard patterns, the first fault first:
    /// malformed patterns come before repeated keys.
    pub open spec fn keyboard_fault(self, e: SongError) -> bool {
        match e {
            SongError::MalformedKeyboardPattern(i) => {
                &&& i < self.keyboard_patterns.len()
                &&& !self.keyboard_patterns[i as int].wf()
                &&& forall|j: int| 0 <= j < i ==> (#[trigger] self.keyboard_patterns[j]).wf()
            },
            SongError::DuplicateKeyboardPattern(i) => {
                &&& forall|j: int|
                    0 <= j < self.keyboard_patterns.len() ==> (
                    #[trigger] self.keyboard_patterns[j]).wf()
                &&& first_repeat_at(self.keyboard_keys(), i as int)
            },
            _ => false,
        }
    }

    /// Which section is the first to name a pattern that the song lacks;
    /// within a section the drum pattern is looked up first.
    pub open spec fn section_fault(self, e: SongError) -> bool {
        match e {
            SongError::UnknownDrumPattern(i) => {
                &&& i < self.sections.len()
                &&& !self.section_drum_resolves(i as int)
                &&& forall|j: int| 0 <= j < i ==> #[trigger] self.section_resolves(j)
            },
            SongError::UnknownKeyboardPattern(i) => {
                &&& i < self.sections.len()
                &&& self.section_drum_resolves(i as int)
                &&& !self.section_keyboard_resolves(i as int)
                &&& forall|j: int| 0 <= j < i ==> #[trigger] self.section_resolves(j)
            },
            _ => false,
        }
    }

    /// `e` is the first fault of the song, the checks taken in the order
    /// of [`SongView::valid`].
    pub open spec fn fails_with(self, e: SongError) -> bool {
        match e {
            SongError::NoSections => self.sections.len() == 0,
            SongError::BadTempo => self.sections.len() >= 1 && self.bpm == 0,
            SongError::BadTimeSignature => self.sections.len() >= 1 && self.bpm >= 1
                && self.beats_per_bar == 0,
            SongError::MalformedDrumPattern(_) | SongError::DuplicateDrumPattern(_) => {
                &&& self.basics_ok()
                &&& self.drum_fault(e)
            },
            SongError::MalformedKeyboardPattern(_) | SongError::DuplicateKeyboardPattern(_) => {
                &&& self.basics_ok()
                &&& self.drums_ok()
                &&& self.keyboard_fault(e)
            },
            SongError::UnknownDrumPattern(_) | SongError::UnknownKeyboardPattern(_) => {
                &&& self.basics_ok()
                &&& self.drums_ok()
                &&& self.keyboards_ok()
                &&& self.section_fault(e)
            },
            SongError::TooLong => {
                &&& self.basics_ok()
                &&& self.drums_ok()
                &&& self.keyboards_ok()
                &&& self.sections_resolve()
                &&& !self.fits()
            },
        }
    }

    /// The bars before a section do not decrease from section to section.
    pub proof fn lemma_bars_before_monotone(self, i: int, j: int)
        requires
            0 <= i <= j,
        ensures
            self.bars_before(i) <= self.bars_before(j),
        decreases j - i,
    {
        if i < j {
            self.lemma_bars_before_monotone(i, j - 1);
        }
    }

    /// The ticks before a section are its bars before it, times the
    /// beats of a bar, times four.
    pub proof fn lemma_ticks_of_bars(self, i: int)
        ensures
            self.ticks_before(i) == self.bars_before(i) * self.beats_per_bar * 4,
        decreases i,
    {
        if i > 0 {
            self.lemma_ticks_of_bars(i - 1);
            let a = self.bars_before(i - 1);
            let b = self.sections[i - 1].bars;
            let beats = self.beats_per_bar;
            assert((a + b) * beats * 4 == a * beats * 4 + b * beats * 4) by (nonlinear_arith);
        } else {
            assert(0 * self.beats_per_bar * 4 == 0) by (nonlinear_arith);
        }
    }

    /// The ticks before a section do not decrease from section to section.
    pub proof fn lemma_ticks_before_monotone(self, i: int, j: int)
        requires
            0 <= i <= j,
        ensures
            self.ticks_before(i) <= self.ticks_before(j),
        decreases j - i,
    {
        if i < j {
            self.lemma_ticks_before_monotone(i, j - 1);
        }
    }
}


impl SongError {
    /// The fault in words; a fault of a pattern or a section ends in
    /// the index of that pattern or section.
    pub open spec fn text(self) -> Seq<char> {
        match self {
            SongError::NoSections => "Song has no sections"@,
            SongError::BadTempo => "Song has no tempo"@,
            SongError::BadTimeSignature => "Song has no beats in a bar"@,
            SongError::MalformedDrumPattern(i) => "Malformed drum pattern "@ + decimal(i as nat),
            SongError::DuplicateDrumPattern(i) => "Duplicate drum pattern "@ + decimal(i as nat),
            SongError::MalformedKeyboardPattern(i) => "Malformed keyboard pattern "@ + decimal(
                i as nat,
            ),
            SongError::DuplicateKeyboardPattern(i) => "Duplicate keyboard pattern "@ + decimal(
                i as nat,
            ),
            SongError::UnknownDrumPattern(i) => "Unknown drum pattern in section "@ + decimal(
                i as nat,
            ),
            SongError::UnknownKeyboardPattern(i) => "Unknown keyboard pattern in section "@
                + decimal(i as nat),
            SongError::TooLong => "Song is too long"@,
        }
    }

    /// The fault in words.
    pub fn message(&self) -> (m: String)
        ensures
            m@ == self.text(),
    {
        match self {
            SongError::NoSections => String::from_str("Song has no sections"),
            SongError::BadTempo => String::from_str("Song has no tempo"),
            SongError::BadTimeSignature => String::from_str("Song has no beats in a bar"),
            SongError::MalformedDrumPattern(i) => {
                let mut m = String::from_str("Malformed drum pattern ");
                append_decimal(&mut m, *i);
                m
            },
            SongError::DuplicateDrumPattern(i) => {
                let mut m = String::from_str("Duplicate drum pattern ");
                append_decimal(&mut m, *i);
                m
            },
            SongError::MalformedKeyboardPattern(i) => {
                let mut m = String::from_str("Malformed keyboard pattern ");
                append_decimal(&mut m, *i);
                m
            },
            SongError::DuplicateKeyboardPattern(i) => {
                let mut m = String::from_str("Duplicate keyboard pattern ");
                append_decimal(&mut m, *i);
                m
            },
            SongError::UnknownDrumPattern(i) => {
                let mut m = String::from_str("Unknown drum pattern in section ");
                append_decimal(&mut m, *i);
                m
            },
            SongError::UnknownKeyboardPattern(i) => {
                let mut m = String::from_str("Unknown keyboard pattern in section ");
                append_decimal(&mut m, *i);
                m
            },
            SongError::TooLong => String::from_str("Song is too long"),
        }
    }
}


/// The name of a section kind.
pub open spec fn kind_name(kind: SongSectionKind) -> Seq<char> {
    match kind {
        SongSectionKind::Intro => "Intro"@,
        SongSectionKind::Verse => "Verse"@,
        SongSectionKind::Chorus => "Chorus"@,
        SongSectionKind::Bridge => "Bridge"@,
        SongSectionKind::Outro => "Outro"@,
    }
}

/// The section kind with this name.
pub open spec fn kind_named(name: Seq<char>) -> Option<SongSectionKind> {
    if name == "Intro"@ {
        Some(SongSectionKind::Intro)
    } else if name == "Verse"@ {
        Some(SongSectionKind::Verse)
    } else if name == "Chorus"@ {
        Some(SongSectionKind::Chorus)
    } else if name == "Bridge"@ {
        Some(SongSectionKind::Bridge)
    } else if name == "Outro"@ {
        Some(SongSectionKind::Outro)
    } else {
        None
    }
}

/// Every section kind is the one that its name names.
pub proof fn lemma_kind_named_by_its_name(kind: SongSectionKind)
    ensures
        kind_named(kind_name(kind)) == Some(kind),
{
    reveal_strlit("Intro");
    reveal_strlit("Verse");
    reveal_strlit("Chorus");
    reveal_strlit("Bridge");
    reveal_strlit("Outro");
    assert("Intro"@[0] != "Verse"@[0]);
    assert("Intro"@[0] != "Chorus"@[0]);
    assert("Intro"@[0] != "Bridge"@[0]);
    assert("Intro"@[0] != "Outro"@[0]);
    assert("Verse"@[0] != "Chorus"@[0]);
    assert("Verse"@[0] != "Bridge"@[0]);
    assert("Verse"@[0] != "Outro"@[0]);
    assert("Chorus"@[0] != "Bridge"@[0]);
    assert("Chorus"@[0] != "Outro"@[0]);
    assert("Bridge"@[0] != "Outro"@[0]);
}

impl SongSectionKind {
    /// The name of the kind.
    pub fn name(&self) -> (name: String)
        ensures
            name@ == kind_name(*self),
    {
        match self {
            SongSectionKind::Intro => String::from_str("Intro"),
            SongSectionKind::Verse => String::from_str("Verse"),
            SongSectionKind::Chorus => String::from_str("Chorus"),
            SongSectionKind::Bridge => String::from_str("Bridge"),
            SongSectionKind::Outro => String::from_str("Outro"),
        }
    }
}

/// The kind that a section of a song file names; an error where it
/// names none.
pub fn convert_section_kind_from_string(section: &YamlSongSection) -> (r: Result<
    SongSectionKind,
    &'static str,
>)
    ensures
        match kind_named(section.kind@) {
            Some(kind) => r == Ok::<SongSectionKind, &'static str>(kind),
            None => r matches Err(e) && e@ == "Unknown Song Kind"@,
        },
{
    if section.kind == String::from_str("Intro") {
        Ok(SongSectionKind::Intro)
    } else if section.kind == String::from_str("Verse") {
        Ok(SongSectionKind::Verse)
    } else if section.kind == String::from_str("Chorus") {
        Ok(SongSectionKind::Chorus)
    } else if section.kind == String::from_str("Bridge") {
        Ok(SongSectionKind::Bridge)
    } else if section.kind == String::from_str("Outro") {
        Ok(SongSectionKind::Outro)
    } else {
        Err("Unknown Song Kind")
    }
}

/// The section of a song that a section of a song file states: kind by
/// name, bars and notes as they are, no patterns.
pub open spec fn converted_section(section: YamlSongSection) -> SectionView
    recommends
        kind_named(section.kind@) is Some,
{
    SectionView {
        kind: kind_named(section.kind@)->0,
        bars: section.bars as nat,
        drum_pattern_key: None,
        keyboard_pattern_key: None,
        notes: opt_str_view(section.notes),
    }
}

/// The sections of a song that the sections of a song file state.
pub open spec fn converted_sections(sections: Seq<YamlSongSection>) -> Seq<SectionView> {
    Seq::new(sections.len(), |i: int| converted_section(sections[i]))
}

/// The song that a song file states: its title is also its id, the
/// bars are four-quarter bars, and it has no patterns. Every section
/// has to name its kind.
pub fn convert_yaml_into_song(yaml_song: YamlSong) -> (song: Song)
    requires
        forall|i: int|
            0 <= i < yaml_song.sections.len() ==> kind_named(
                (#[trigger] yaml_song.sections[i]).kind@,
            ) is Some,
    ensures
        song@ == (SongView {
            id: yaml_song.title@,
            author: yaml_song.author@,
            title: yaml_song.title@,
            bpm: yaml_song.tempo_1_4 as nat,
            beats_per_bar: 4,
            beat_unit: 4,
            drum_patterns: Seq::empty(),
            keyboard_patterns: Seq::empty(),
            sections: converted_sections(yaml_song.sections@),
        }),
{
    let mut sections: Vec<SongSection> = Vec::new();
    let n: usize = yaml_song.sections.len();
    let mut i: usize = 0;
    while i < n
        invariant
            i <= n,
            n == yaml_song.sections.len(),
            sections.len() == i,
            forall|k: int|
                0 <= k < yaml_song.sections.len() ==> kind_named(
                    (#[trigger] yaml_song.sections[k]).kind@,
                ) is Some,
            forall|k: int|
                0 <= k < i ==> (#[trigger] sections[k])@ == converted_section(
                    yaml_song.sections[k],
                ),
        decreases n - i,
    {
        let section = &yaml_song.sections[i];
        let notes = match &section.notes {
            Some(text) => Some(text.clone()),
            None => None,
        };
        if let Ok(kind) = convert_section_kind_from_string(section) {
            sections.push(
                SongSection {
                    kind,
                    bars: section.bars,
                    drum_pattern_key: None,
                    keyboard_pattern_key: None,
                    notes,
                },
            );
        }
        i = i + 1;
    }
    let song = Song {
        id: yaml_song.title.clone(),
        details: SongDetails { title: yaml_song.title, author: yaml_song.author },
        tempo: SongTempo { bpm: yaml_song.tempo_1_4, time_signature: (4, 4) },
        drum_patterns: Vec::new(),
        keyboard_patterns: Vec::new(),
        sections,
    };
    assert(song@.sections =~= converted_sections(yaml_song.sections@));
    assert(song@.drum_patterns =~= Seq::empty());
    assert(song@.keyboard_patterns =~= Seq::empty());
    song
}

} // verus!
