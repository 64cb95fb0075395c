//! What the coordinator's commands ask of every instrument.

use crate::midi_device::MidiMessage;
use crate::player::TempoSnapshot;
use crate::song::SongView;
use vstd::prelude::*;

verus! {

/// One more miss, as far as a `usize` counts.
pub open spec fn one_more(misses: nat) -> nat {
    if misses < usize::MAX {
        misses + 1
    } else {
        misses
    }
}

/// What a worker has done so far, apart from the song it holds.
pub struct WorkerState {
    /// Whether the worker was taught its song.
    pub taught: bool,
    /// Index of the section that the next tick belongs to.
    pub section: nat,
    /// Index of the chord that sounded last.
    pub chord: nat,
    /// Ticks at which a pattern was active and held nothing to play.
    pub misses: nat,
    /// Every message sent to the hardware, oldest first.
    pub sent: Seq<MidiMessage>,
}

impl WorkerState {
    /// The state after the song was taught: play starts over at the
    /// first section. What was sent stays sent.
    pub open spec fn taught_anew(self) -> WorkerState {
        WorkerState { taught: true, section: 0, ..self }
    }

    /// The section after a tick at `snapshot`: the next one where the
    /// tick is the last of its section and there is a section left.
    pub open spec fn section_after(self, song: SongView, snapshot: TempoSnapshot) -> nat {
        if snapshot.spec_is_last_1_16th(song.beats_per_bar as int) && self.section
            < song.sections.len() {
            self.section + 1
        } else {
            self.section
        }
    }
}

/// An instrument worker: it holds a song, is taught it by id, and
/// renders one tick at a time into messages for its hardware.
pub trait Instrument {
    /// The worker's invariant: its song is valid and what it caches
    /// agrees with it.
    spec fn wf(&self) -> bool;

    /// The song that the worker holds.
    spec fn song(&self) -> SongView;

    /// What the worker has done so far.
    spec fn state(&self) -> WorkerState;

    /// The state in which a tick at `snapshot` leaves a worker that
    /// holds `song` and was in `state`.
    spec fn after_tick(song: SongView, state: WorkerState, snapshot: TempoSnapshot) -> WorkerState;

    /// A tick leaves a worker taught or untaught, as it was.
    proof fn lemma_tick_keeps_taught(song: SongView, state: WorkerState, snapshot: TempoSnapshot)
        ensures
            Self::after_tick(song, state, snapshot).taught == state.taught,
    ;

    fn get_instrument_name(&self) -> String;

    /// A few words on what the instrument is playing.
    fn get_short_info(&self) -> String
        requires
            self.wf(),
    ;

    /// Binds the worker to the song with this id. It accepts exactly
    /// the id of the song it holds and then starts over at the first
    /// section; any other id it refuses and stays as it was.
    fn teach_song(&mut self, song_id: String) -> (accepted: bool)
        requires
            old(self).wf(),
        ensures
            final(self).wf(),
            final(self).song() == old(self).song(),
            accepted == (song_id@ == old(self).song().id),
            accepted ==> final(self).state() == old(self).state().taught_anew(),
            !accepted ==> final(self).state() == old(self).state(),
    ;

    /// Whether the worker was taught its song.
    fn is_taught(&self) -> (taught: bool)
        requires
            self.wf(),
        ensures
            taught == self.state().taught,
    ;

    /// Plays the tick at `tempo_snapshot`.
    fn play_1_16th(&mut self, tempo_snapshot: &TempoSnapshot)
        requires
            old(self).wf(),
            tempo_snapshot.in_section(),
        ensures
            final(self).wf(),
            final(self).song() == old(self).song(),
            final(self).state() == Self::after_tick(
                old(self).song(),
                old(self).state(),
                *tempo_snapshot,
            ),
    ;
}

} // verus!
