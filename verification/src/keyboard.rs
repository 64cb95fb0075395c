//! The keyboard worker: it follows the sections of its song and, at
//! every tick, sounds the chord that the active keyboard pattern holds
//! at that sixteenth. A pattern shorter than its section starts over.

use crate::instrument::{one_more, Instrument, WorkerState};
use crate::midi_device::MidiDevice;
use crate::player::TempoSnapshot;
use crate::song::{strs_view, KeyboardPattern, KeyboardPatternView, Song, SongSection, SongView};
use crate::drummer::index_agrees;
use crate::volca_keys::{chord_messages, notes_messages, VolcaKeys};
use vstd::arithmetic::div_mod::lemma_mod_multiples_vanish;
use vstd::prelude::*;
use vstd::string::*;

verus! {

/// The sixteenth of the pattern that sounds at the tick of `snapshot`:
/// the sixteenth within the section, taken modulo the sixteenths of the
/// bars that the pattern covers. A sixteenth that ends a round of the
/// pattern is taken to 0, which no chord covers.
pub open spec fn pattern_sixteenth(pattern: KeyboardPatternView, snapshot: TempoSnapshot) -> int
    recommends
        pattern.ceil_num_bars_coverage() >= 1,
{
    snapshot.spec_cur_1_16ths_in_section_from_1() % (pattern.ceil_num_bars_coverage() as int * 16)
}

/// Index of the chord of `pattern` that sounds at the tick of
/// `snapshot`; `None` where no chord covers that sixteenth.
pub open spec fn sounding_chord(pattern: KeyboardPatternView, snapshot: TempoSnapshot) -> Option<
    int,
> {
    pattern.chord_index_at(pattern_sixteenth(pattern, snapshot))
}

/// A pattern that is shorter than its section starts over: two ticks
/// whose sixteenths within the section lie a whole number of pattern
/// lengths apart sound the same chord. With a pattern of two bars the
/// sixteenths 1 and 33 sound alike.
pub proof fn lemma_chord_resolution_wraps(
    pattern: KeyboardPatternView,
    first: TempoSnapshot,
    second: TempoSnapshot,
    rounds: int,
)
    requires
        pattern.ceil_num_bars_coverage() >= 1,
        second.spec_cur_1_16ths_in_section_from_1() == first.spec_cur_1_16ths_in_section_from_1()
            + rounds * (pattern.ceil_num_bars_coverage() * 16),
    ensures
        pattern_sixteenth(pattern, second) == pattern_sixteenth(pattern, first),
        sounding_chord(pattern, second) == sounding_chord(pattern, first),
{
    let span = pattern.ceil_num_bars_coverage() as int * 16;
    let a = first.spec_cur_1_16ths_in_section_from_1();
    lemma_mod_multiples_vanish(rounds, a, span);
    assert(span * rounds + a == a + rounds * span) by (nonlinear_arith);
}

/// The state in which a tick leaves a keyboard: before it is taught it
/// does nothing. After, where its section has a pattern, it sounds
/// every note of the chord that covers the tick and remembers the
/// chord; a tick that no chord covers sends nothing and is counted as a
/// miss. On the last tick of a section it moves to the next section.
pub open spec fn keyboard_after_tick(
    song: SongView,
    state: WorkerState,
    snapshot: TempoSnapshot,
) -> WorkerState {
    if !state.taught {
        state
    } else {
        match song.section_keyboard_pattern(state.section as int) {
            Some(p) => match sounding_chord(song.keyboard_patterns[p], snapshot) {
                Some(c) => WorkerState {
                    sent: state.sent + chord_messages(song.keyboard_patterns[p].chords[c].notes),
                    chord: c as nat,
                    section: state.section_after(song, snapshot),
                    ..state
                },
                None => WorkerState {
                    misses: one_more(state.misses),
                    section: state.section_after(song, snapshot),
                    ..state
                },
            },
            None => WorkerState { section: state.section_after(song, snapshot), ..state },
        }
    }
}

/// Index of the first chord of `pattern` that covers sixteenth `index`.
pub fn find_chord(pattern: &KeyboardPattern, index: usize) -> (r: Option<usize>)
    ensures
        index_agrees(r, pattern@.chord_index_at(index as int)),
        match r {
            Some(c) => c < pattern.chords.len() && pattern@.chords[c as int].covers(index as int)
                && forall|j: int|
                0 <= j < c ==> !(#[trigger] pattern@.chords[j]).covers(index as int),
            None => forall|j: int|
                0 <= j < pattern.chords.len() ==> !(#[trigger] pattern@.chords[j]).covers(
                    index as int,
                ),
        },
{
    let n: usize = pattern.chords.len();
    let mut i: usize = 0;
    while i < n
        invariant
            i <= n,
            n == pattern.chords.len(),
            pattern@.chords.len() == n,
            pattern@.chord_index_at(index as int) == pattern@.chord_index_from(
                index as int,
                i as int,
            ),
        decreases n - i,
    {
        let chord = &pattern.chords[i];
        assert(pattern@.chords[i as int] == chord@);
        if chord.from_1_16th_incl <= index && index <= chord.to_1_16th_incl {
            proof {
                pattern@.lemma_chord_index_from(index as int, 0);
            }
            return Some(i);
        }
        i = i + 1;
    }
    proof {
        pattern@.lemma_chord_index_from(index as int, 0);
    }
    None
}

/// Index of the chord of `pattern` that sounds at the tick of `snapshot`.
pub fn find_sounding_chord(pattern: &KeyboardPattern, snapshot: &TempoSnapshot) -> (r: Option<
    usize,
>)
    requires
        pattern@.wf(),
        snapshot.in_section(),
    ensures
        index_agrees(r, sounding_chord(pattern@, *snapshot)),
        r matches Some(c) ==> c < pattern.chords.len(),
{
    let bars_covered_by_pattern: usize = pattern.get_ceil_num_bars_coverage();
    let index_1_16th: usize = snapshot.get_cur_1_16ths_in_section_from_1();
    let index_1_16th_for_pattern: usize = match bars_covered_by_pattern.checked_mul(16) {
        Some(span) => index_1_16th % span,
        None => {
            assert(index_1_16th as int % (bars_covered_by_pattern * 16) == index_1_16th)
                by (nonlinear_arith)
                requires
                    0 <= index_1_16th < bars_covered_by_pattern * 16,
            ;
            index_1_16th
        },
    };
    find_chord(pattern, index_1_16th_for_pattern)
}

pub struct Keyboard<D: MidiDevice> {
    pub song: Song,
    /// Whether the keyboard was taught its song.
    pub taught: bool,
    /// Index of the keyboard pattern of the current section.
    pub pattern: Option<usize>,
    /// Index of the chord that sounded last.
    pub chord_index: usize,
    /// Ticks at which the pattern held no chord.
    pub missed_ticks: usize,
    pub volca_keys: VolcaKeys<D>,
    /// Index of the section that the next tick belongs to.
    pub curr_section_index: usize,
}

impl<D: MidiDevice> Keyboard<D> {
    /// A keyboard that holds `song` and has not been taught it yet.
    pub fn new(song: Song, volca_keys: VolcaKeys<D>) -> (keyboard: Self)
        requires
            song@.valid(),
        ensures
            keyboard.wf(),
            keyboard.song == song,
            keyboard.volca_keys == volca_keys,
            keyboard.state() == (WorkerState {
                taught: false,
                section: 0,
                chord: 0,
                misses: 0,
                sent: volca_keys.sent(),
            }),
    {
        Self {
            song,
            taught: false,
            pattern: None,
            chord_index: 0,
            missed_ticks: 0,
            volca_keys,
            curr_section_index: 0,
        }
    }

    /// The section that the next tick belongs to, `None` once the song
    /// is over.
    pub fn get_current_song_section(&self) -> (section: Option<&SongSection>)
        ensures
            match section {
                Some(s) => self.curr_section_index < self.song.sections.len() && *s
                    == self.song.sections[self.curr_section_index as int],
                None => self.curr_section_index >= self.song.sections.len(),
            },
    {
        if self.curr_section_index < self.song.sections.len() {
            Some(&self.song.sections[self.curr_section_index])
        } else {
            None
        }
    }

    /// Sounds each of `notes`, in their order.
    pub fn play_notes(&mut self, notes: Vec<String>)
        requires
            forall|k: int| 0 <= k < notes.len() ==> (#[trigger] notes[k])@.len() >= 1,
        ensures
            final(self).volca_keys.sent() == old(self).volca_keys.sent() + chord_messages(
                strs_view(notes@),
            ),
            final(self).song == old(self).song,
            final(self).taught == old(self).taught,
            final(self).pattern == old(self).pattern,
            final(self).chord_index == old(self).chord_index,
            final(self).missed_ticks == old(self).missed_ticks,
            final(self).curr_section_index == old(self).curr_section_index,
    {
        let n: usize = notes.len();
        let ghost names = strs_view(notes@);
        let mut i: usize = 0;
        while i < n
            invariant
                i <= n,
                n == notes.len(),
                names == strs_view(notes@),
                forall|k: int| 0 <= k < notes.len() ==> (#[trigger] notes[k])@.len() >= 1,
                self.volca_keys.sent() == old(self).volca_keys.sent() + notes_messages(
                    names,
                    i as int,
                ),
                self.song == old(self).song,
                self.taught == old(self).taught,
                self.pattern == old(self).pattern,
                self.chord_index == old(self).chord_index,
                self.missed_ticks == old(self).missed_ticks,
                self.curr_section_index == old(self).curr_section_index,
            decreases n - i,
        {
            let note = notes[i].clone();
            assert(names[i as int] == note@);
            self.volca_keys.note_play_start(note);
            assert(self.volca_keys.sent() =~= old(self).volca_keys.sent() + notes_messages(
                names,
                i + 1,
            ));
            i = i + 1;
        }
    }

    /// Looks up the keyboard pattern of the current section: the
    /// pattern that the section names, and none where it names none or
    /// the song is over. A key that names no pattern of the song is a
    /// fault of the song and has no place here: the section's key has
    /// to resolve.
    pub fn set_pattern_from_song_section(&mut self)
        requires
            old(self).curr_section_index < old(self).song.sections.len()
                ==> old(self).song@.section_keyboard_resolves(
                old(self).curr_section_index as int,
            ),
        ensures
            final(self).song == old(self).song,
            final(self).taught == old(self).taught,
            final(self).chord_index == old(self).chord_index,
            final(self).missed_ticks == old(self).missed_ticks,
            final(self).curr_section_index == old(self).curr_section_index,
            final(self).volca_keys == old(self).volca_keys,
            index_agrees(
                final(self).pattern,
                old(self).song@.section_keyboard_pattern(old(self).curr_section_index as int),
            ),
            final(self).pattern matches Some(p) ==> p < old(self).song.keyboard_patterns.len(),
            final(self).pattern is Some <==> old(self).curr_section_index
                < old(self).song.sections.len() && old(
                self,
            ).song@.sections[old(self).curr_section_index as int].keyboard_pattern_key is Some,
    {
        if self.curr_section_index < self.song.sections.len() {
            let current_song_section = &self.song.sections[self.curr_section_index];
            assert(self.song@.sections[self.curr_section_index as int] == current_song_section@);
            self.pattern = match &current_song_section.keyboard_pattern_key {
                Some(keyboard_pattern_key) => self.song.find_keyboard_pattern(keyboard_pattern_key),
                None => None,
            }
        } else {
            self.pattern = None;
        }
    }
}

impl<D: MidiDevice> Instrument for Keyboard<D> {
    open spec fn wf(&self) -> bool {
        &&& self.song@.valid()
        &&& self.curr_section_index <= self.song.sections.len()
        &&& self.pattern matches Some(p) ==> p < self.song.keyboard_patterns.len()
        &&& if self.taught {
            index_agrees(
                self.pattern,
                self.song@.section_keyboard_pattern(self.curr_section_index as int),
            )
        } else {
            self.pattern is None
        }
    }

    open spec fn song(&self) -> SongView {
        self.song@
    }

    open spec fn state(&self) -> WorkerState {
        WorkerState {
            taught: self.taught,
            section: self.curr_section_index as nat,
            chord: self.chord_index as nat,
            misses: self.missed_ticks as nat,
            sent: self.volca_keys.sent(),
        }
    }

    open spec fn after_tick(
        song: SongView,
        state: WorkerState,
        snapshot: TempoSnapshot,
    ) -> WorkerState {
        keyboard_after_tick(song, state, snapshot)
    }

    proof fn lemma_tick_keeps_taught(song: SongView, state: WorkerState, snapshot: TempoSnapshot) {
    }

    fn get_instrument_name(&self) -> (name: String)
        ensures
            name@ == "Keyboard"@,
    {
        String::from_str("Keyboard")
    }

    /// The name of the chord that sounded last, as `NAME chord`; empty
    /// where no pattern is active.
    fn get_short_info(&self) -> (info: String)
        ensures
            match self.pattern {
                Some(p) => {
                    let chords = self.song@.keyboard_patterns[p as int].chords;
                    if self.chord_index < chords.len() {
                        info@ == chords[self.chord_index as int].chord_name + " chord"@
                    } else {
                        info@ == Seq::<char>::empty()
                    }
                },
                None => info@ == Seq::<char>::empty(),
            },
    {
        match self.pattern {
            Some(p) => {
                let pattern = &self.song.keyboard_patterns[p];
                assert(self.song@.keyboard_patterns[p as int] == pattern@);
                if self.chord_index < pattern.chords.len() {
                    let chord = &pattern.chords[self.chord_index];
                    assert(pattern@.chords[self.chord_index as int] == chord@);
                    let mut info = chord.chord_name.clone();
                    info.append(" chord");
                    info
                } else {
                    String::new()
                }
            },
            None => String::new(),
        }
    }

    fn teach_song(&mut self, song_id: String) -> (accepted: bool) {
        if self.song.id != song_id {
            return false;
        }
        self.taught = true;
        self.curr_section_index = 0;
        assert(self.song@.section_resolves(0));
        self.set_pattern_from_song_section();
        true
    }

    fn is_taught(&self) -> (taught: bool) {
        self.taught
    }

    fn play_1_16th(&mut self, tempo_snapshot: &TempoSnapshot) {
        if !self.taught {
            return ;
        }
        match self.pattern {
            Some(p) => {
                let pattern = &self.song.keyboard_patterns[p];
                assert(self.song@.keyboard_patterns[p as int] == pattern@);
                match find_sounding_chord(pattern, tempo_snapshot) {
                    Some(c) => {
                        let chord = pattern.chords[c].clone();
                        assert(pattern@.chords[c as int] == chord@);
                        assert forall|k: int| 0 <= k < chord.notes.len() implies (
                        #[trigger] chord.notes[k])@.len() >= 1 by {
                            assert(chord@.notes[k] == chord.notes[k]@);
                        }
                        self.chord_index = c;
                        self.play_notes(chord.notes);
                    },
                    None => {
                        if self.missed_ticks < usize::MAX {
                            self.missed_ticks = self.missed_ticks + 1;
                        }
                    },
                }
            },
            None => {},
        }
        if tempo_snapshot.is_this_the_last_1_16th_of_this_section(&self.song)
            && self.curr_section_index < self.song.sections.len() {
            self.curr_section_index = self.curr_section_index + 1;
            assert(self.curr_section_index < self.song.sections.len()
                ==> self.song@.section_resolves(self.curr_section_index as int));
            self.set_pattern_from_song_section();
        }
    }
}

} // verus!
