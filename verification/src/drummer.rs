//! The drum worker: it follows the sections of its song and, at every
//! tick, hits what the active drum pattern holds at that step.

use crate::instrument::{one_more, Instrument, WorkerState};
use crate::midi_device::{MidiDevice, MidiMessage};
use crate::player::TempoSnapshot;
use crate::song::{DrumPattern, DrumPatternView, Song, SongView};
use crate::volca_drum::{
    hit_messages, VolcaDrum, DEFAULT_NOTE_VALUE, DRUM_CH_HH, DRUM_CH_KICK, DRUM_CH_SNARE,
};
use vstd::prelude::*;
use vstd::string::*;

verus! {

/// The row holds a hit at step `index`, counted from 0: a step that the
/// row has, and not a space.
pub open spec fn row_hits(row: Seq<char>, index: int) -> bool {
    0 <= index < row.len() && row[index] != ' '
}

/// What a drummer in section `section` of `song` sends at the tick of
/// `snapshot`: nothing where the section has no drum pattern.
pub open spec fn drummer_messages(song: SongView, section: int, snapshot: TempoSnapshot) -> Seq<
    MidiMessage,
> {
    match song.section_drum_pattern(section) {
        Some(p) => drum_tick_messages(song.drum_patterns[p], snapshot),
        None => Seq::empty(),
    }
}

/// The tick of `snapshot` lies beyond the steps of a row of `pattern`.
pub open spec fn beyond_pattern(pattern: DrumPatternView, snapshot: TempoSnapshot) -> bool {
    let index = snapshot.spec_cur_1_16ths_in_bar_from_1() - 1;
    index >= pattern.hh.len() || index >= pattern.kk.len() || index >= pattern.sn.len()
}

/// Whether a drummer in section `section` of `song` finds its pattern
/// too short for the tick of `snapshot`.
pub open spec fn drummer_misses(song: SongView, section: int, snapshot: TempoSnapshot) -> bool {
    match song.section_drum_pattern(section) {
        Some(p) => beyond_pattern(song.drum_patterns[p], snapshot),
        None => false,
    }
}

/// The state in which a tick leaves a drummer: before it is taught it
/// does nothing; after, it sends what its section's pattern holds,
/// counts a miss where the tick lies beyond a row of the pattern, and
/// moves to the next section on the last tick of a section.
pub open spec fn drummer_after_tick(
    song: SongView,
    state: WorkerState,
    snapshot: TempoSnapshot,
) -> WorkerState {
    if state.taught {
        WorkerState {
            sent: state.sent + drummer_messages(song, state.section as int, snapshot),
            section: state.section_after(song, snapshot),
            misses: if drummer_misses(song, state.section as int, snapshot) {
                one_more(state.misses)
            } else {
                state.misses
            },
            ..state
        }
    } else {
        state
    }
}

/// A cached pattern index agrees with what a lookup finds.
pub open spec fn index_agrees(cached: Option<usize>, found: Option<int>) -> bool {
    match cached {
        Some(p) => found == Some(p as int),
        None => found is None,
    }
}

/// Which of the three parts a pattern hits at one tick, and whether
/// the tick lies beyond the steps of one of its rows.
#[derive(Debug, Clone, Copy, PartialEq, Eq, Structural)]
pub struct DrumHits {
    pub hh: bool,
    pub kk: bool,
    pub sn: bool,
    pub beyond: bool,
}

/// The parts that `pattern` hits at the tick of `snapshot`: for each
/// row, whether it holds a hit at the sixteenth within the bar.
pub open spec fn drum_hits(pattern: DrumPatternView, snapshot: TempoSnapshot) -> DrumHits {
    let index = snapshot.spec_cur_1_16ths_in_bar_from_1() - 1;
    DrumHits {
        hh: row_hits(pattern.hh, index),
        kk: row_hits(pattern.kk, index),
        sn: row_hits(pattern.sn, index),
        beyond: beyond_pattern(pattern, snapshot),
    }
}

/// What the hits send: a pulse for each part that is hit, hi-hat, kick
/// and snare in this order.
pub open spec fn hits_messages(hits: DrumHits) -> Seq<MidiMessage> {
    (if hits.hh {
        hit_messages(DEFAULT_NOTE_VALUE, DRUM_CH_HH)
    } else {
        Seq::empty()
    }) + (if hits.kk {
        hit_messages(DEFAULT_NOTE_VALUE, DRUM_CH_KICK)
    } else {
        Seq::empty()
    }) + (if hits.sn {
        hit_messages(DEFAULT_NOTE_VALUE, DRUM_CH_SNARE)
    } else {
        Seq::empty()
    })
}

/// What the pattern sends at the tick of `snapshot`: a pulse for each
/// part that it hits there.
pub open spec fn drum_tick_messages(pattern: DrumPatternView, snapshot: TempoSnapshot) -> Seq<
    MidiMessage,
> {
    hits_messages(drum_hits(pattern, snapshot))
}

/// Playing a tick that is not the last of its section a second time
/// sends the same messages again: what a drummer sends at a tick
/// depends on its song, its section and the position alone, not on what
/// it sent before.
pub proof fn lemma_drum_resolution_repeats(
    song: SongView,
    state: WorkerState,
    snapshot: TempoSnapshot,
)
    requires
        state.taught,
        !snapshot.spec_is_last_1_16th(song.beats_per_bar as int),
    ensures
        drummer_after_tick(song, state, snapshot).sent == state.sent + drummer_messages(
            song,
            state.section as int,
            snapshot,
        ),
        drummer_after_tick(song, drummer_after_tick(song, state, snapshot), snapshot).sent
            == state.sent + drummer_messages(song, state.section as int, snapshot)
            + drummer_messages(song, state.section as int, snapshot),
        drummer_after_tick(song, drummer_after_tick(song, state, snapshot), snapshot).section
            == state.section,
{
}

/// The parts that `pattern` hits at the tick of `snapshot`. The pattern
/// is only read: asked again for the same tick, it answers the same.
pub fn resolve_drum_hits(pattern: &DrumPattern, snapshot: &TempoSnapshot) -> (hits: DrumHits)
    requires
        snapshot.cur_quarter >= 1,
        1 <= snapshot.spec_cur_1_16ths_in_bar_from_1() <= usize::MAX,
    ensures
        hits == drum_hits(pattern@, *snapshot),
{
    let index_1_16th: usize = snapshot.get_cur_1_16ths_in_bar_from_1() - 1;
    DrumHits {
        hh: row_has_hit(&pattern.hh, index_1_16th),
        kk: row_has_hit(&pattern.kk, index_1_16th),
        sn: row_has_hit(&pattern.sn, index_1_16th),
        beyond: index_1_16th >= pattern.hh.as_str().unicode_len() || index_1_16th
            >= pattern.kk.as_str().unicode_len() || index_1_16th
            >= pattern.sn.as_str().unicode_len(),
    }
}

/// Whether the row holds a hit at step `index`, counted from 0.
pub fn row_has_hit(row: &String, index: usize) -> (hit: bool)
    ensures
        hit == row_hits(row@, index as int),
{
    let steps: usize = row.as_str().unicode_len();
    index < steps && row.as_str().get_char(index) != ' '
}

pub struct Drummer<D: MidiDevice> {
    pub song: Song,
    /// Whether the drummer was taught its song.
    pub taught: bool,
    /// Index of the section that the next tick belongs to.
    pub curr_section_index: usize,
    /// Index of the drum pattern of that section.
    pub pattern: Option<usize>,
    /// Ticks that lay beyond a row of the active pattern.
    pub missed_ticks: usize,
    pub volca_drum: VolcaDrum<D>,
}

impl<D: MidiDevice> Drummer<D> {
    /// A drummer that holds `song` and has not been taught it yet.
    pub fn new(song: Song, volca_drum: VolcaDrum<D>) -> (drummer: Self)
        requires
            song@.valid(),
        ensures
            drummer.wf(),
            drummer.song == song,
            drummer.volca_drum == volca_drum,
            drummer.state() == (WorkerState {
                taught: false,
                section: 0,
                chord: 0,
                misses: 0,
                sent: volca_drum.sent(),
            }),
    {
        Self {
            song,
            taught: false,
            pattern: None,
            missed_ticks: 0,
            volca_drum,
            curr_section_index: 0,
        }
    }

    /// Looks up the drum pattern of the current section: the pattern
    /// that the section names, and none where it names none or the song
    /// is over. A key that names no pattern of the song is a fault of
    /// the song and has no place here: the section's key has to resolve.
    pub fn update_pattern_from_song_section(&mut self)
        requires
            old(self).curr_section_index < old(self).song.sections.len()
                ==> old(self).song@.section_drum_resolves(old(self).curr_section_index as int),
        ensures
            final(self).song == old(self).song,
            final(self).taught == old(self).taught,
            final(self).curr_section_index == old(self).curr_section_index,
            final(self).missed_ticks == old(self).missed_ticks,
            final(self).volca_drum == old(self).volca_drum,
            index_agrees(
                final(self).pattern,
                old(self).song@.section_drum_pattern(old(self).curr_section_index as int),
            ),
            final(self).pattern matches Some(p) ==> p < old(self).song.drum_patterns.len(),
            final(self).pattern is Some <==> old(self).curr_section_index
                < old(self).song.sections.len() && old(
                self,
            ).song@.sections[old(self).curr_section_index as int].drum_pattern_key is Some,
    {
        if self.curr_section_index < self.song.sections.len() {
            let current_song_section = &self.song.sections[self.curr_section_index];
            assert(self.song@.sections[self.curr_section_index as int] == current_song_section@);
            self.pattern = match &current_song_section.drum_pattern_key {
                Some(drum_pattern_key) => self.song.find_drum_pattern(drum_pattern_key),
                None => None,
            }
        } else {
            self.pattern = None;
        }
    }
}

impl<D: MidiDevice> Instrument for Drummer<D> {
    open spec fn wf(&self) -> bool {
        &&& self.song@.valid()
        &&& self.curr_section_index <= self.song.sections.len()
        &&& self.pattern matches Some(p) ==> p < self.song.drum_patterns.len()
        &&& if self.taught {
            index_agrees(
                self.pattern,
                self.song@.section_drum_pattern(self.curr_section_index as int),
            )
        } else {
            self.pattern is None
        }
    }

    open spec fn song(&self) -> SongView {
        self.song@
    }

    open spec fn state(&self) -> WorkerState {
        WorkerState {
            taught: self.taught,
            section: self.curr_section_index as nat,
            chord: 0,
            misses: self.missed_ticks as nat,
            sent: self.volca_drum.sent(),
        }
    }

    open spec fn after_tick(
        song: SongView,
        state: WorkerState,
        snapshot: TempoSnapshot,
    ) -> WorkerState {
        drummer_after_tick(song, state, snapshot)
    }

    proof fn lemma_tick_keeps_taught(song: SongView, state: WorkerState, snapshot: TempoSnapshot) {
    }

    fn get_instrument_name(&self) -> (name: String)
        ensures
            name@ == "Drummer"@,
    {
        String::from_str("Drummer")
    }

    /// The key of the active pattern, as `part "KEY"`, or `no drums`.
    fn get_short_info(&self) -> (info: String)
        ensures
            match self.pattern {
                Some(p) => info@ == "part \""@ + self.song@.drum_patterns[p as int].key + "\""@,
                None => info@ == "no drums"@,
            },
    {
        match self.pattern {
            Some(p) => {
                assert(self.song@.drum_patterns[p as int] == self.song.drum_patterns[p as int]@);
                let mut info = String::from_str("part \"");
                info.append(self.song.drum_patterns[p].key.as_str());
                info.append("\"");
                info
            },
            None => String::from_str("no drums"),
        }
    }

    fn teach_song(&mut self, song_id: String) -> (accepted: bool) {
        if self.song.id != song_id {
            return false;
        }
        self.taught = true;
        self.curr_section_index = 0;
        assert(self.song@.section_resolves(0));
        self.update_pattern_from_song_section();
        true
    }

    fn is_taught(&self) -> (taught: bool) {
        self.taught
    }

    fn play_1_16th(&mut self, tempo_snapshot: &TempoSnapshot) {
        if !self.taught {
            return ;
        }
        match self.pattern {
            Some(p) => {
                assert(self.song@.drum_patterns[p as int] == self.song.drum_patterns[p as int]@);
                let hits = resolve_drum_hits(&self.song.drum_patterns[p], tempo_snapshot);
                if hits.hh {
                    self.volca_drum.hit_hh();
                }
                if hits.kk {
                    self.volca_drum.hit_kick();
                }
                if hits.sn {
                    self.volca_drum.hit_snare();
                }
                if hits.beyond && self.missed_ticks < usize::MAX {
                    self.missed_ticks = self.missed_ticks + 1;
                }
                assert(self.volca_drum.sent() =~= old(self).volca_drum.sent() + drummer_messages(
                    self.song@,
                    self.curr_section_index as int,
                    *tempo_snapshot,
                ));
            },
            None => {
                assert(self.volca_drum.sent() =~= old(self).volca_drum.sent() + drummer_messages(
                    self.song@,
                    self.curr_section_index as int,
                    *tempo_snapshot,
                ));
            },
        }
        if tempo_snapshot.is_this_the_last_1_16th_of_this_section(&self.song)
            && self.curr_section_index < self.song.sections.len() {
            self.curr_section_index = self.curr_section_index + 1;
            assert(self.curr_section_index < self.song.sections.len()
                ==> self.song@.section_resolves(self.curr_section_index as int));
            self.update_pattern_from_song_section();
        }
    }
}

} // verus!
