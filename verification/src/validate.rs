//! Validation of a song before it is played: every fault that would
//! otherwise surface in the middle of a performance is found here.

use crate::song::{
    keys_distinct, lemma_key_index_from, DrumPattern, KeyboardPattern, KeyboardPatternChord, Song,
    SongError,
};
use vstd::prelude::*;
use vstd::string::*;

verus! {

impl DrumPattern {
    /// Whether each row holds four steps per quarter note of the pattern.
    pub fn is_well_formed(&self) -> (r: bool)
        ensures
            r == self@.wf(),
    {
        let hh_len: usize = self.hh.as_str().unicode_len();
        let sn_len: usize = self.sn.as_str().unicode_len();
        let kk_len: usize = self.kk.as_str().unicode_len();
        match self.num_1_4.checked_mul(4) {
            Some(steps) => hh_len == steps && sn_len == steps && kk_len == steps,
            None => false,
        }
    }
}

impl KeyboardPatternChord {
    /// Whether every note of the chord has a name.
    pub fn notes_named(&self) -> (r: bool)
        ensures
            r == (forall|k: int|
                0 <= k < self@.notes.len() ==> (#[trigger] self@.notes[k]).len() > 0),
    {
        let n: usize = self.notes.len();
        let mut k: usize = 0;
        while k < n
            invariant
                k <= n,
                n == self.notes.len(),
                self@.notes.len() == n,
                forall|j: int| 0 <= j < k ==> (#[trigger] self@.notes[j]).len() > 0,
            decreases n - k,
        {
            assert(self@.notes[k as int] == self.notes[k as int]@);
            if self.notes[k].as_str().is_empty() {
                return false;
            }
            k = k + 1;
        }
        true
    }
}

impl KeyboardPattern {
    /// Whether the pattern has a chord, its chords follow each other
    /// from sixteenth 1 on without gap or overlap, and every note has a
    /// name.
    pub fn is_well_formed(&self) -> (r: bool)
        ensures
            r == self@.wf(),
    {
        let n: usize = self.chords.len();
        if n == 0 {
            return false;
        }
        let mut i: usize = 0;
        while i < n
            invariant
                i <= n,
                n == self.chords.len(),
                n >= 1,
                self@.chords.len() == n,
                i >= 1 ==> self@.chords[0].from_1_16th_incl == 1,
                forall|j: int|
                    0 <= j < i ==> {
                        &&& (#[trigger] self@.chords[j]).from_1_16th_incl
                            <= self@.chords[j].to_1_16th_incl
                        &&& j > 0 ==> self@.chords[j].from_1_16th_incl == self@.chords[j
                            - 1].to_1_16th_incl + 1
                        &&& forall|k: int|
                            0 <= k < self@.chords[j].notes.len() ==> (
                            #[trigger] self@.chords[j].notes[k]).len() > 0
                    },
            decreases n - i,
        {
            let chord = &self.chords[i];
            assert(self@.chords[i as int] == chord@);
            if chord.from_1_16th_incl > chord.to_1_16th_incl {
                return false;
            }
            if i == 0 {
                if chord.from_1_16th_incl != 1 {
                    return false;
                }
            } else {
                let before = &self.chords[i - 1];
                assert(self@.chords[i - 1] == before@);
                if before.to_1_16th_incl == usize::MAX || chord.from_1_16th_incl
                    != before.to_1_16th_incl + 1 {
                    return false;
                }
            }
            if !chord.notes_named() {
                return false;
            }
            i = i + 1;
        }
        true
    }
}

impl Song {
    /// Checks the drum patterns: the first malformed one is reported,
    /// else the first that repeats an earlier key.
    pub fn check_drum_patterns(&self) -> (r: Result<(), SongError>)
        ensures
            r is Ok <==> self@.drums_ok(),
            r matches Err(e) ==> self@.drum_fault(e),
    {
        let n: usize = self.drum_patterns.len();
        let mut i: usize = 0;
        while i < n
            invariant
                i <= n,
                n == self.drum_patterns.len(),
                self@.drum_patterns.len() == n,
                forall|j: int| 0 <= j < i ==> (#[trigger] self@.drum_patterns[j]).wf(),
            decreases n - i,
        {
            assert(self@.drum_patterns[i as int] == self.drum_patterns[i as int]@);
            if !self.drum_patterns[i].is_well_formed() {
                return Err(SongError::MalformedDrumPattern(i));
            }
            i = i + 1;
        }
        let ghost keys = self@.drum_keys();
        let mut j: usize = 0;
        while j < n
            invariant
                j <= n,
                n == self.drum_patterns.len(),
                keys == self@.drum_keys(),
                keys.len() == n,
                forall|k: int| 0 <= k < n ==> (#[trigger] self@.drum_patterns[k]).wf(),
                keys_distinct(keys.take(j as int)),
            decreases n - j,
        {
            let found = self.find_drum_pattern(&self.drum_patterns[j].key);
            proof {
                assert(keys[j as int] == self.drum_patterns[j as int].key@);
                lemma_key_index_from(keys, keys[j as int], 0);
            }
            match found {
                Some(first) => {
                    if first != j {
                        return Err(SongError::DuplicateDrumPattern(j));
                    }
                },
                None => {},
            }
            proof {
                let before = keys.take(j as int);
                let upto = keys.take(j + 1);
                assert forall|a: int, b: int| 0 <= a < b < upto.len() implies upto[a]
                    != upto[b] by {
                    if b < j {
                        assert(before[a] != before[b]);
                    }
                }
            }
            j = j + 1;
        }
        assert(keys.take(n as int) =~= keys);
        Ok(())
    }

    /// Checks the keyboard patterns: the first malformed one is
    /// reported, else the first that repeats an earlier key.
    pub fn check_keyboard_patterns(&self) -> (r: Result<(), SongError>)
        ensures
            r is Ok <==> self@.keyboards_ok(),
            r matches Err(e) ==> self@.keyboard_fault(e),
    {
        let n: usize = self.keyboard_patterns.len();
        let mut i: usize = 0;
        while i < n
            invariant
                i <= n,
                n == self.keyboard_patterns.len(),
                self@.keyboard_patterns.len() == n,
                forall|j: int| 0 <= j < i ==> (#[trigger] self@.keyboard_patterns[j]).wf(),
            decreases n - i,
        {
            assert(self@.keyboard_patterns[i as int] == self.keyboard_patterns[i as int]@);
            if !self.keyboard_patterns[i].is_well_formed() {
                return Err(SongError::MalformedKeyboardPattern(i));
            }
            i = i + 1;
        }
        let ghost keys = self@.keyboard_keys();
        let mut j: usize = 0;
        while j < n
            invariant
                j <= n,
                n == self.keyboard_patterns.len(),
                keys == self@.keyboard_keys(),
                keys.len() == n,
                forall|k: int| 0 <= k < n ==> (#[trigger] self@.keyboard_patterns[k]).wf(),
                keys_distinct(keys.take(j as int)),
            decreases n - j,
        {
            let found = self.find_keyboard_pattern(&self.keyboard_patterns[j].key);
            proof {
                assert(keys[j as int] == self.keyboard_patterns[j as int].key@);
                lemma_key_index_from(keys, keys[j as int], 0);
            }
            match found {
                Some(first) => {
                    if first != j {
                        return Err(SongError::DuplicateKeyboardPattern(j));
                    }
                },
                None => {},
            }
            proof {
                let before = keys.take(j as int);
                let upto = keys.take(j + 1);
                assert forall|a: int, b: int| 0 <= a < b < upto.len() implies upto[a]
                    != upto[b] by {
                    if b < j {
                        assert(before[a] != before[b]);
                    }
                }
            }
            j = j + 1;
        }
        assert(keys.take(n as int) =~= keys);
        Ok(())
    }

    /// Checks that every pattern key of every section names a pattern:
    /// the first section that does not is reported.
    pub fn check_sections(&self) -> (r: Result<(), SongError>)
        ensures
            r is Ok <==> self@.sections_resolve(),
            r matches Err(e) ==> self@.section_fault(e),
    {
        let n: usize = self.sections.len();
        let mut i: usize = 0;
        while i < n
            invariant
                i <= n,
                n == self.sections.len(),
                self@.sections.len() == n,
                forall|j: int| 0 <= j < i ==> #[trigger] self@.section_resolves(j),
            decreases n - i,
        {
            let section = &self.sections[i];
            assert(self@.sections[i as int] == section@);
            match &section.drum_pattern_key {
                Some(key) => {
                    assert(section@.drum_pattern_key == Some(key@));
                    if self.find_drum_pattern(key).is_none() {
                        assert(!self@.section_resolves(i as int));
                        return Err(SongError::UnknownDrumPattern(i));
                    }
                },
                None => {},
            }
            assert(self@.section_drum_resolves(i as int));
            match &section.keyboard_pattern_key {
                Some(key) => {
                    assert(section@.keyboard_pattern_key == Some(key@));
                    if self.find_keyboard_pattern(key).is_none() {
                        assert(!self@.section_resolves(i as int));
                        return Err(SongError::UnknownKeyboardPattern(i));
                    }
                },
                None => {},
            }
            assert(self@.section_resolves(i as int));
            i = i + 1;
        }
        Ok(())
    }

    /// The number of ticks of the song, `None` where a `usize` cannot
    /// hold it.
    pub fn total_ticks(&self) -> (r: Option<usize>)
        ensures
            match r {
                Some(n) => n == self@.total_ticks(),
                None => self@.total_ticks() > usize::MAX,
            },
    {
        let n: usize = self.sections.len();
        let beats: usize = self.tempo.time_signature.0;
        let mut total: usize = 0;
        let mut i: usize = 0;
        while i < n
            invariant
                i <= n,
                n == self.sections.len(),
                self@.sections.len() == n,
                beats == self@.beats_per_bar,
                total == self@.ticks_before(i as int),
            decreases n - i,
        {
            assert(self@.sections[i as int] == self.sections[i as int]@);
            proof {
                self@.lemma_ticks_before_monotone(i + 1, n as int);
            }
            let quarters = match self.sections[i].bars.checked_mul(beats) {
                Some(q) => q,
                None => {
                    return None;
                },
            };
            let ticks = match quarters.checked_mul(4) {
                Some(t) => t,
                None => {
                    return None;
                },
            };
            total = match total.checked_add(ticks) {
                Some(t) => t,
                None => {
                    return None;
                },
            };
            i = i + 1;
        }
        Some(total)
    }

    /// The number of bars of the song, `None` where a `usize` cannot
    /// hold it.
    pub fn total_bars(&self) -> (r: Option<usize>)
        ensures
            match r {
                Some(n) => n == self@.total_bars(),
                None => self@.total_bars() > usize::MAX,
            },
    {
        let n: usize = self.sections.len();
        let mut total: usize = 0;
        let mut i: usize = 0;
        while i < n
            invariant
                i <= n,
                n == self.sections.len(),
                self@.sections.len() == n,
                total == self@.bars_before(i as int),
            decreases n - i,
        {
            assert(self@.sections[i as int] == self.sections[i as int]@);
            proof {
                self@.lemma_bars_before_monotone(i + 1, n as int);
            }
            total = match total.checked_add(self.sections[i].bars) {
                Some(t) => t,
                None => {
                    return None;
                },
            };
            i = i + 1;
        }
        Some(total)
    }

    /// Whether a `usize` can count the ticks of the song, and its
    /// sixteenths at sixteen to the bar with one bar to spare.
    pub fn fits_in_usize(&self) -> (r: bool)
        ensures
            r == self@.fits(),
    {
        if self.total_ticks().is_none() {
            return false;
        }
        let bars = match self.total_bars() {
            Some(b) => b,
            None => {
                return false;
            },
        };
        let sixteenths = match bars.checked_mul(16) {
            Some(s) => s,
            None => {
                return false;
            },
        };
        let spare = match self.tempo.time_signature.0.checked_mul(4) {
            Some(s) => s,
            None => {
                return false;
            },
        };
        sixteenths.checked_add(spare).is_some()
    }

    /// Checks that the song can be played, and names its first fault
    /// where it cannot.
    pub fn validate(&self) -> (r: Result<(), SongError>)
        ensures
            r is Ok <==> self@.valid(),
            r matches Err(e) ==> self@.fails_with(e),
    {
        if self.sections.len() == 0 {
            return Err(SongError::NoSections);
        }
        if self.tempo.bpm == 0 {
            return Err(SongError::BadTempo);
        }
        if self.tempo.time_signature.0 == 0 {
            return Err(SongError::BadTimeSignature);
        }
        match self.check_drum_patterns() {
            Err(e) => {
                return Err(e);
            },
            Ok(()) => {},
        }
        match self.check_keyboard_patterns() {
            Err(e) => {
                return Err(e);
            },
            Ok(()) => {},
        }
        match self.check_sections() {
            Err(e) => {
                return Err(e);
            },
            Ok(()) => {},
        }
        if !self.fits_in_usize() {
            return Err(SongError::TooLong);
        }
        Ok(())
    }
}

} // verus!
