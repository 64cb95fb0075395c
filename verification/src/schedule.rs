//! The plan of a song: the position of every tick that is played, in
//! closed form, and what follows from it for the clock, for the last
//! tick of a section and for what the instruments are sent.

use crate::display::display_lines;
use crate::instr_comm::{
    after_commands, lemma_play_count_add, lemma_play_count_of_plays, lemma_ticks_then_shutdown,
    play_commands, play_count, plays_in_section, CommandView, WorkerExit,
};
use crate::instrument::{Instrument, WorkerState};
use crate::player::TempoSnapshot;
use crate::song::SongView;
use vstd::arithmetic::div_mod::{
    lemma_div_denominator, lemma_div_nonincreasing, lemma_fundamental_div_mod,
    lemma_fundamental_div_mod_converse_div, lemma_fundamental_div_mod_converse_mod,
    lemma_mod_bound,
};
use vstd::prelude::*;

verus! {

/// A number of ticks has one way only to be written as bars of `beats`
/// quarters, quarters and sixteenths.
pub proof fn lemma_tick_digits(n: int, beats: int, bar: int, quarter: int, sixteenth: int)
    requires
        beats >= 1,
        bar >= 0,
        0 <= quarter < beats,
        0 <= sixteenth < 4,
        n == (bar * beats + quarter) * 4 + sixteenth,
    ensures
        n % 4 == sixteenth,
        (n / 4) % beats == quarter,
        n / (4 * beats) == bar,
        n >= 0,
{
    let quarters = bar * beats + quarter;
    assert(bar * beats >= 0) by (nonlinear_arith)
        requires
            bar >= 0,
            beats >= 1,
    ;
    lemma_fundamental_div_mod_converse_div(n, 4, quarters, sixteenth);
    lemma_fundamental_div_mod_converse_mod(n, 4, quarters, sixteenth);
    lemma_fundamental_div_mod_converse_div(quarters, beats, bar, quarter);
    lemma_fundamental_div_mod_converse_mod(quarters, beats, bar, quarter);
    lemma_div_denominator(n, 4, beats);
}

/// Every number of ticks can be written as bars, quarters and sixteenths.
pub proof fn lemma_tick_digits_exist(n: int, beats: int)
    requires
        beats >= 1,
        n >= 0,
    ensures
        n == ((n / (4 * beats)) * beats + (n / 4) % beats) * 4 + n % 4,
        0 <= (n / 4) % beats < beats,
        0 <= n / (4 * beats) <= n,
{
    lemma_fundamental_div_mod(n / 4, beats);
    lemma_mod_bound(n / 4, beats);
    lemma_div_denominator(n, 4, beats);
    assert(beats * ((n / 4) / beats) == ((n / 4) / beats) * beats) by (nonlinear_arith);
    assert(4 * beats >= 1) by (nonlinear_arith)
        requires
            beats >= 1,
    ;
    lemma_div_nonincreasing(n, 4 * beats);
    vstd::arithmetic::div_mod::lemma_div_pos_is_pos(n, 4 * beats);
}

/// One tick on from the position `n` ticks after the start lies the
/// position `n + 1` ticks after the start.
pub proof fn lemma_at_tick_advanced(n: nat, beats: nat, first: nat, last: nat)
    requires
        beats >= 1,
        beats <= usize::MAX,
        n < usize::MAX,
    ensures
        TempoSnapshot::at_tick(n, beats, first, last).advanced(beats as int)
            == TempoSnapshot::at_tick(n + 1, beats, first, last),
{
    let b = beats as int;
    let m = n as int;
    let bar = m / (4 * b);
    let quarter = (m / 4) % b;
    let sixteenth = m % 4;
    lemma_tick_digits_exist(m, b);
    lemma_tick_digits_exist(m + 1, b);
    if sixteenth < 3 {
        lemma_tick_digits(m + 1, b, bar, quarter, sixteenth + 1);
    } else if quarter + 1 < b {
        lemma_tick_digits(m + 1, b, bar, quarter + 1, 0);
    } else {
        assert((bar + 1) * b == bar * b + b) by (nonlinear_arith);
        lemma_tick_digits(m + 1, b, bar + 1, 0, 0);
    }
}

/// After `n` advances from the start of a song the clock shows `n`
/// written to the bases 4 and `beats`: the sixteenth is the rest of
/// `n` by 4, the quarter the rest of the whole quarters by `beats`, the
/// bar the whole bars, each plus 1.
pub proof fn lemma_clock_after_advances(beats: nat, n: nat)
    requires
        1 <= beats <= usize::MAX,
        n < usize::MAX,
    ensures
        TempoSnapshot::spec_start().advanced_by(beats as int, n) == TempoSnapshot::at_tick(
            n,
            beats,
            0,
            0,
        ),
        TempoSnapshot::spec_start().advanced_by(beats as int, n).cur_1_16 == n % 4 + 1,
        TempoSnapshot::spec_start().advanced_by(beats as int, n).cur_quarter == (n / 4) % beats
            + 1,
        TempoSnapshot::spec_start().advanced_by(beats as int, n).cur_bar == n / (4 * beats) + 1,
    decreases n,
{
    lemma_tick_digits_exist(n as int, beats as int);
    if n == 0 {
        lemma_tick_digits(0, beats as int, 0, 0, 0);
    } else {
        lemma_clock_after_advances(beats, (n - 1) as nat);
        lemma_at_tick_advanced((n - 1) as nat, beats, 0, 0);
    }
}


impl SongView {
    /// The position at tick `t`, counted from 0, of section `i`: as many
    /// ticks after the start as the sections before and `t` make, in a
    /// section that starts one bar after the bars before it.
    pub open spec fn snapshot_at(self, i: int, t: int) -> TempoSnapshot {
        TempoSnapshot::at_tick(
            (self.ticks_before(i) + t) as nat,
            self.beats_per_bar,
            self.bars_before(i) + 1,
            self.bars_before(i) + self.sections[i].bars,
        )
    }

    /// The positions of the ticks of section `i`, in playing order.
    pub open spec fn section_snapshots(self, i: int) -> Seq<TempoSnapshot> {
        Seq::new(self.section_ticks(i), |t: int| self.snapshot_at(i, t))
    }

    /// The positions of the ticks of the sections before section `i`.
    pub open spec fn snapshots_before(self, i: int) -> Seq<TempoSnapshot>
        decreases i,
    {
        if i <= 0 {
            Seq::empty()
        } else {
            self.snapshots_before(i - 1) + self.section_snapshots(i - 1)
        }
    }

    /// The position of every tick of the song, in playing order.
    pub open spec fn snapshots(self) -> Seq<TempoSnapshot> {
        self.snapshots_before(self.sections.len() as int)
    }

    /// The clock when section `i` is reached: a section without bars
    /// leaves it as it was, any other leaves it one tick past its last,
    /// with its own window.
    pub open spec fn snapshot_entering(self, i: int) -> TempoSnapshot
        decreases i,
    {
        if i <= 0 {
            TempoSnapshot::spec_start()
        } else if self.sections[i - 1].bars >= 1 {
            self.snapshot_at(i - 1, self.section_ticks(i - 1) as int)
        } else {
            self.snapshot_entering(i - 1)
        }
    }

    /// The displays of the ticks of section `i`, in playing order.
    pub open spec fn section_frames(self, i: int) -> Seq<Seq<Seq<char>>> {
        Seq::new(
            self.section_ticks(i),
            |t: int| display_lines(self.sections[i].kind, self.snapshot_at(i, t)),
        )
    }

    /// The displays of the ticks of the sections before section `i`.
    pub open spec fn frames_before(self, i: int) -> Seq<Seq<Seq<char>>>
        decreases i,
    {
        if i <= 0 {
            Seq::empty()
        } else {
            self.frames_before(i - 1) + self.section_frames(i - 1)
        }
    }

    /// The display of every tick of the song, in playing order.
    pub open spec fn frames(self) -> Seq<Seq<Seq<char>>> {
        self.frames_before(self.sections.len() as int)
    }

    /// What every instrument is sent when the song is played: the
    /// song's id to bind to, one play command for each tick, and the
    /// order to stop.
    pub open spec fn commands(self) -> Seq<CommandView> {
        seq![CommandView::TeachSong(self.id)] + play_commands(self.snapshots()) + seq![
            CommandView::Shutdown,
        ]
    }

    /// The ticks of the sections before section `i` that have a bar:
    /// for each of them its bars, times the beats of a bar, times four.
    pub open spec fn ticks_of_sections_with_bars(self, i: int) -> nat
        decreases i,
    {
        if i <= 0 {
            0
        } else {
            self.ticks_of_sections_with_bars(i - 1) + if self.sections[i - 1].bars >= 1 {
                self.sections[i - 1].bars * self.beats_per_bar * 4
            } else {
                0
            }
        }
    }

    /// Sections without bars add nothing to the ticks of a song.
    pub proof fn lemma_ticks_of_sections_with_bars(self, i: int)
        ensures
            self.ticks_of_sections_with_bars(i) == self.ticks_before(i),
        decreases i,
    {
        if i > 0 {
            self.lemma_ticks_of_sections_with_bars(i - 1);
            if self.sections[i - 1].bars == 0 {
                assert(0 * self.beats_per_bar * 4 == 0) by (nonlinear_arith);
            }
        }
    }

    /// Whatever the song, what it sends an instrument holds one play
    /// command for each tick of each section that has a bar: their
    /// number is the sum, over those sections, of bars times beats of a
    /// bar times four.
    pub proof fn lemma_play_tick_count(self)
        ensures
            play_count(self.commands()) == self.ticks_of_sections_with_bars(
                self.sections.len() as int,
            ),
            play_count(self.commands()) == self.total_ticks(),
    {
        let teach = seq![CommandView::TeachSong(self.id)];
        let plays = play_commands(self.snapshots());
        let stop = seq![CommandView::Shutdown];
        lemma_play_count_add(teach + plays, stop);
        lemma_play_count_add(teach, plays);
        lemma_play_count_of_plays(self.snapshots());
        reveal_with_fuel(play_count, 2);
        assert(play_count(teach) == 0);
        assert(play_count(stop) == 0);
        self.lemma_snapshots_len(self.sections.len() as int);
        self.lemma_ticks_of_sections_with_bars(self.sections.len() as int);
    }

    /// There are as many positions before a section as ticks.
    pub proof fn lemma_snapshots_len(self, i: int)
        ensures
            self.snapshots_before(i).len() == self.ticks_before(i),
        decreases i,
    {
        if i > 0 {
            self.lemma_snapshots_len(i - 1);
        }
    }

    /// A song is played in as many ticks as its sections have bars,
    /// times the beats of a bar, times four. A section without bars
    /// adds none.
    pub proof fn lemma_play_count(self)
        ensures
            self.snapshots().len() == self.total_ticks(),
            self.total_ticks() == self.total_bars() * self.beats_per_bar * 4,
            self.commands().len() == self.total_ticks() + 2,
    {
        self.lemma_snapshots_len(self.sections.len() as int);
        self.lemma_ticks_of_bars(self.sections.len() as int);
    }

    /// Where tick `t` of section `i` lies: in the bar of the section
    /// that `t` reaches, at the quarter and sixteenth that are left.
    pub proof fn lemma_snapshot_digits(self, i: int, t: int)
        requires
            self.beats_per_bar >= 1,
            0 <= i < self.sections.len(),
            0 <= t,
        ensures
            (self.ticks_before(i) + t) / (4 * self.beats_per_bar as int) == self.bars_before(i) + t
                / (4 * self.beats_per_bar as int),
            ((self.ticks_before(i) + t) / 4) % (self.beats_per_bar as int) == (t / 4) % (
            self.beats_per_bar as int),
            (self.ticks_before(i) + t) % 4 == t % 4,
            t < self.section_ticks(i) ==> t / (4 * self.beats_per_bar as int)
                < self.sections[i].bars,
            t == self.section_ticks(i) ==> t / (4 * self.beats_per_bar as int)
                == self.sections[i].bars && (t / 4) % (self.beats_per_bar as int) == 0 && t % 4
                == 0,
    {
        let b = self.beats_per_bar as int;
        let before = self.bars_before(i) as int;
        let bars = self.sections[i].bars as int;
        self.lemma_ticks_of_bars(i);
        lemma_tick_digits_exist(t, b);
        let bar = t / (4 * b);
        let quarter = (t / 4) % b;
        let sixteenth = t % 4;
        assert(self.ticks_before(i) + t == ((before + bar) * b + quarter) * 4 + sixteenth)
            by (nonlinear_arith)
            requires
                self.ticks_before(i) == before * b * 4,
                t == (bar * b + quarter) * 4 + sixteenth,
        ;
        lemma_tick_digits(self.ticks_before(i) + t, b, before + bar, quarter, sixteenth);
        if t < self.section_ticks(i) {
            assert(bar < bars) by (nonlinear_arith)
                requires
                    t == (bar * b + quarter) * 4 + sixteenth,
                    t < bars * b * 4,
                    quarter >= 0,
                    sixteenth >= 0,
                    b >= 1,
            ;
        }
        if t == self.section_ticks(i) {
            assert(t == (bars * b + 0) * 4 + 0) by (nonlinear_arith)
                requires
                    t == bars * b * 4,
            ;
            lemma_tick_digits(t, b, bars, 0, 0);
        }
    }

    /// Every position that is played lies inside its section.
    pub proof fn lemma_snapshot_in_section(self, i: int, t: int)
        requires
            self.beats_per_bar >= 1,
            self.fits(),
            0 <= i < self.sections.len(),
            0 <= t < self.section_ticks(i),
        ensures
            self.snapshot_at(i, t).in_section(),
            self.snapshot_at(i, t).cur_quarter <= self.beats_per_bar,
            self.snapshot_at(i, t).cur_bar == self.bars_before(i) + 1 + t / (4
                * self.beats_per_bar as int),
            self.snapshot_at(i, t).cur_quarter == (t / 4) % (self.beats_per_bar as int) + 1,
            self.snapshot_at(i, t).cur_1_16 == t % 4 + 1,
            self.snapshot_at(i, t).section_bar_first == self.bars_before(i) + 1,
            self.snapshot_at(i, t).section_bar_last == self.bars_before(i) + self.sections[i].bars,
    {
        let b = self.beats_per_bar as int;
        self.lemma_snapshot_digits(i, t);
        lemma_tick_digits_exist(t, b);
        self.lemma_bars_before_monotone(i + 1, self.sections.len() as int);
    }

    /// A tick is the last of its section exactly when it is the final
    /// one: of the ticks of a section one, and only one, is its last.
    pub proof fn lemma_last_tick_of_section(self, i: int, t: int)
        requires
            self.beats_per_bar >= 1,
            self.fits(),
            0 <= i < self.sections.len(),
            0 <= t < self.section_ticks(i),
        ensures
            self.snapshot_at(i, t).spec_is_last_1_16th(self.beats_per_bar as int) <==> t
                == self.section_ticks(i) - 1,
    {
        let b = self.beats_per_bar as int;
        let bars = self.sections[i].bars as int;
        self.lemma_snapshot_in_section(i, t);
        lemma_tick_digits_exist(t, b);
        let bar = t / (4 * b);
        let quarter = (t / 4) % b;
        let sixteenth = t % 4;
        if t == self.section_ticks(i) - 1 {
            assert(t == ((bars - 1) * b + (b - 1)) * 4 + 3) by (nonlinear_arith)
                requires
                    t == bars * b * 4 - 1,
            ;
            assert(bars >= 1) by (nonlinear_arith)
                requires
                    bars * b * 4 > 0,
                    bars >= 0,
            ;
            lemma_tick_digits(t, b, bars - 1, b - 1, 3);
        }
        if bar == bars - 1 && quarter == b - 1 && sixteenth == 3 {
            assert(t == bars * b * 4 - 1) by (nonlinear_arith)
                requires
                    t == ((bars - 1) * b + (b - 1)) * 4 + 3,
            ;
        }
    }

    /// When a section is reached the clock stands at the start of the
    /// bar after the bars before it.
    pub proof fn lemma_entering_position(self, i: int)
        requires
            self.beats_per_bar >= 1,
            self.fits(),
            0 <= i <= self.sections.len(),
        ensures
            self.snapshot_entering(i).cur_bar == self.bars_before(i) + 1,
            self.snapshot_entering(i).cur_quarter == 1,
            self.snapshot_entering(i).cur_1_8 == 1,
            self.snapshot_entering(i).cur_1_16 == 1,
        decreases i,
    {
        self.lemma_bars_before_monotone(i, self.sections.len() as int);
        if i > 0 {
            if self.sections[i - 1].bars >= 1 {
                self.lemma_snapshot_digits(i - 1, self.section_ticks(i - 1) as int);
            } else {
                self.lemma_entering_position(i - 1);
            }
        }
    }

    /// Every position of the sections before section `i` lies inside its
    /// section.
    pub proof fn lemma_snapshots_in_section(self, i: int)
        requires
            self.beats_per_bar >= 1,
            self.fits(),
            0 <= i <= self.sections.len(),
        ensures
            forall|k: int|
                0 <= k < self.snapshots_before(i).len() ==> (
                #[trigger] self.snapshots_before(i)[k]).in_section(),
        decreases i,
    {
        if i > 0 {
            self.lemma_snapshots_in_section(i - 1);
            let before = self.snapshots_before(i - 1);
            assert forall|k: int| 0 <= k < self.snapshots_before(i).len() implies (
            #[trigger] self.snapshots_before(i)[k]).in_section() by {
                if k >= before.len() {
                    let t = k - before.len();
                    assert(self.snapshots_before(i)[k] == self.section_snapshots(i - 1)[t]);
                    self.lemma_snapshot_in_section(i - 1, t);
                } else {
                    assert(self.snapshots_before(i)[k] == before[k]);
                }
            }
        }
    }

    /// What a valid song sends its instruments asks them to play only
    /// positions that lie inside their sections: a worker can carry it
    /// out as it stands.
    pub proof fn lemma_commands_play_in_section(self)
        requires
            self.valid(),
        ensures
            plays_in_section(self.commands()),
    {
        self.lemma_snapshots_in_section(self.sections.len() as int);
        let snapshots = self.snapshots();
        assert forall|k: int| 0 <= k < self.commands().len() implies (
        #[trigger] self.commands()[k] matches CommandView::PlayHit(snapshot)
            ==> snapshot.in_section()) by {
            if 1 <= k <= snapshots.len() {
                assert(self.commands()[k] == CommandView::PlayHit(snapshots[k - 1]));
            }
        }
    }

    /// A worker that holds the song and is sent what the song sends its
    /// instruments accepts the song, carries out every tick and stops on
    /// the order to stop, whatever it did before.
    pub proof fn lemma_played_to_the_end<I: Instrument>(self, state: WorkerState)
        ensures
            after_commands::<I>(self, state, self.commands(), 0).1 == WorkerExit::Shutdown,
    {
        let commands = self.commands();
        let snapshots = self.snapshots();
        assert(commands[0] == CommandView::TeachSong(self.id));
        assert forall|k: int| 1 <= k < commands.len() - 1 implies #[trigger] commands[k]
            is PlayHit by {
            assert(commands[k] == CommandView::PlayHit(snapshots[k - 1]));
        }
        lemma_ticks_then_shutdown::<I>(self, state.taught_anew(), commands, 1);
    }

    /// A section without bars is passed over: it adds no tick, and the
    /// clock that reaches it is the clock that leaves it.
    pub proof fn lemma_empty_section_is_skipped(self, i: int)
        requires
            0 <= i < self.sections.len(),
            self.sections[i].bars == 0,
        ensures
            self.section_ticks(i) == 0,
            self.ticks_before(i + 1) == self.ticks_before(i),
            self.snapshots_before(i + 1) == self.snapshots_before(i),
            self.snapshot_entering(i + 1) == self.snapshot_entering(i),
    {
        assert(0 * self.beats_per_bar * 4 == 0) by (nonlinear_arith);
        assert(self.snapshots_before(i + 1) =~= self.snapshots_before(i));
    }
}

} // verus!
