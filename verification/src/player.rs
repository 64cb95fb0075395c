//! The transport clock and the coordinator: the musical position at
//! one tick with the window of bars of the section being played, and
//! the player that moves it and sends it to the instruments.

use crate::display::{display_lines, render_transport_display};
use crate::instr_comm::{play_commands, play_count, CommandView, InstrComm};
use crate::schedule::{lemma_at_tick_advanced, lemma_tick_digits};
use crate::song::{strs_view, Song, SongError, SongSection, SongView};
use crate::text::{append_decimal, decimal};
use crate::timing::{
    get_moments_vec_from_song_start, moment_at, schedule_fits, schedule_is_computable,
};
use vstd::prelude::*;
use vstd::string::*;

verus! {

/// Sixteenth notes in a quarter note.
pub const SIXTEENTHS_PER_QUARTER: usize = 4;

/// Sixteenth notes by which the section-relative position counts one bar.
pub const SIXTEENTHS_PER_BAR: usize = 16;

/// The eighth note (1 or 2) of the quarter in which sixteenth `sixteenth` lies.
pub open spec fn eighth_of(sixteenth: int) -> int {
    if sixteenth > 2 {
        2
    } else {
        1
    }
}

/// Musical position at one tick, all counters starting from 1, together
/// with the first and last global bar of the section being played.
#[derive(Debug, Clone, Copy, PartialEq, Eq, Structural)]
pub struct TempoSnapshot {
    pub cur_bar: usize,
    pub cur_quarter: usize,
    pub cur_1_8: usize,
    pub cur_1_16: usize,
    pub section_bar_first: usize,
    pub section_bar_last: usize,
}

impl TempoSnapshot {
    /// The counters denote a position: bar and quarter are at least 1
    /// and the sixteenth is one of the four of a quarter.
    pub open spec fn is_position(&self) -> bool {
        &&& self.cur_bar >= 1
        &&& self.cur_quarter >= 1
        &&& 1 <= self.cur_1_16 <= 4
    }

    /// The position lies inside the section window, and the
    /// section-relative counts fit in a `usize`.
    pub open spec fn in_section(&self) -> bool {
        &&& self.is_position()
        &&& 1 <= self.section_bar_first <= self.cur_bar <= self.section_bar_last
        &&& self.spec_tot_bars_in_section() * 16 + self.spec_cur_1_16ths_in_bar_from_1()
            <= usize::MAX
    }

    /// The counts within bar and section can be taken: the quarter is
    /// at least 1, the section starts at or before the current bar and
    /// ends at or after its own start, and every count fits in a `usize`.
    pub open spec fn countable(&self) -> bool {
        &&& self.cur_quarter >= 1
        &&& self.section_bar_first <= self.cur_bar
        &&& self.section_bar_first <= self.section_bar_last
        &&& self.spec_tot_1_16ths_in_section() <= usize::MAX
        &&& self.spec_cur_1_16ths_in_section_from_1() <= usize::MAX
    }

    /// The position can be put on display: its counts can be taken and
    /// it is not before the first sixteenth of its section.
    pub open spec fn displayable(&self) -> bool {
        self.countable() && self.spec_cur_1_16ths_in_section_from_1() >= 1
    }

    pub open spec fn spec_tot_bars_in_section(&self) -> int {
        self.section_bar_last - self.section_bar_first + 1
    }

    pub open spec fn spec_cur_bar_in_section(&self) -> int {
        self.cur_bar - self.section_bar_first + 1
    }

    pub open spec fn spec_cur_1_16ths_in_bar_from_1(&self) -> int {
        (self.cur_quarter - 1) * 4 + self.cur_1_16
    }

    pub open spec fn spec_cur_1_16ths_in_section_from_1(&self) -> int {
        (self.spec_cur_bar_in_section() - 1) * 16 + self.spec_cur_1_16ths_in_bar_from_1()
    }

    pub open spec fn spec_tot_1_16ths_in_section(&self) -> int {
        self.spec_tot_bars_in_section() * 16
    }

    /// Whether this is the final tick of its section in a bar of
    /// `beats_per_bar` quarters.
    pub open spec fn spec_is_last_1_16th(&self, beats_per_bar: int) -> bool {
        self.cur_bar == self.section_bar_last && self.cur_quarter == beats_per_bar
            && self.cur_1_16 == 4
    }

    /// The position at the start of a song: the first sixteenth of the
    /// first quarter of bar 1, outside any section.
    pub open spec fn spec_start() -> TempoSnapshot {
        TempoSnapshot {
            cur_bar: 1,
            cur_quarter: 1,
            cur_1_8: 1,
            cur_1_16: 1,
            section_bar_first: 0,
            section_bar_last: 0,
        }
    }

    /// The position `n` ticks after the start of a song in bars of
    /// `beats` quarters, in a section from bar `first` to bar `last`: `n`
    /// written with the sixteenth as its last digit, to the base 4, the
    /// quarter before it, to the base `beats`, and the bar in front, each
    /// counted from 1.
    pub open spec fn at_tick(n: nat, beats: nat, first: nat, last: nat) -> TempoSnapshot {
        TempoSnapshot {
            cur_bar: (n / (4 * beats) + 1) as usize,
            cur_quarter: ((n / 4) % beats + 1) as usize,
            cur_1_8: eighth_of((n % 4 + 1) as int) as usize,
            cur_1_16: (n % 4 + 1) as usize,
            section_bar_first: first as usize,
            section_bar_last: last as usize,
        }
    }

    /// The position `n` ticks later.
    pub open spec fn advanced_by(self, beats_per_bar: int, n: nat) -> TempoSnapshot
        decreases n,
    {
        if n == 0 {
            self
        } else {
            self.advanced_by(beats_per_bar, (n - 1) as nat).advanced(beats_per_bar)
        }
    }

    /// The position one tick later in a bar of `beats_per_bar` quarters:
    /// the sixteenth goes up; past 4 it starts again at 1 and the quarter
    /// goes up; a quarter past `beats_per_bar` starts again at 1 and the
    /// bar goes up. The section window stays.
    pub open spec fn advanced(self, beats_per_bar: int) -> TempoSnapshot {
        let sixteenth = if self.cur_1_16 + 1 > 4 {
            1
        } else {
            self.cur_1_16 + 1
        };
        let quarter = if self.cur_1_16 + 1 > 4 {
            self.cur_quarter + 1
        } else {
            self.cur_quarter as int
        };
        TempoSnapshot {
            cur_bar: (if quarter > beats_per_bar {
                self.cur_bar + 1
            } else {
                self.cur_bar as int
            }) as usize,
            cur_quarter: (if quarter > beats_per_bar {
                1
            } else {
                quarter
            }) as usize,
            cur_1_8: eighth_of(sixteenth) as usize,
            cur_1_16: sixteenth as usize,
            section_bar_first: self.section_bar_first,
            section_bar_last: self.section_bar_last,
        }
    }

    /// The clock can move one tick on: no counter that has to go up is
    /// at the end of the `usize` range.
    pub open spec fn can_advance(self, beats_per_bar: int) -> bool {
        &&& self.cur_1_16 < usize::MAX
        &&& self.cur_1_16 + 1 > 4 ==> self.cur_quarter < usize::MAX
        &&& (if self.cur_1_16 + 1 > 4 {
            self.cur_quarter + 1
        } else {
            self.cur_quarter as int
        }) > beats_per_bar ==> self.cur_bar < usize::MAX
    }

    /// The same position at the start of a section of `bars_count` bars:
    /// the section runs from the current bar on.
    pub open spec fn windowed(self, bars_count: int) -> TempoSnapshot {
        TempoSnapshot {
            section_bar_first: self.cur_bar,
            section_bar_last: (self.cur_bar + bars_count - 1) as usize,
            ..self
        }
    }

    /// Whether this is the final tick of its section: the last sixteenth
    /// of the last beat of the last bar. It is asked of the snapshot that
    /// is being played, before the clock moves on.
    pub fn is_this_the_last_1_16th_of_this_section(&self, song: &Song) -> (r: bool)
        ensures
            r == self.spec_is_last_1_16th(song@.beats_per_bar as int),
    {
        self.cur_bar == self.section_bar_last && self.cur_quarter == song.tempo.time_signature.0
            && self.cur_1_16 == 4
    }

    /// Whether the position lies inside its section window, with
    /// section-relative counts that fit in a `usize`.
    pub fn is_in_section(&self) -> (r: bool)
        ensures
            r == self.in_section(),
    {
        if self.cur_bar < 1 || self.cur_quarter < 1 || self.cur_1_16 < 1 || self.cur_1_16 > 4 {
            return false;
        }
        if self.section_bar_first < 1 || self.section_bar_first > self.cur_bar || self.cur_bar
            > self.section_bar_last {
            return false;
        }
        let bars = match (self.section_bar_last - self.section_bar_first).checked_add(1) {
            Some(b) => b,
            None => {
                return false;
            },
        };
        let section_sixteenths = match bars.checked_mul(16) {
            Some(n) => n,
            None => {
                return false;
            },
        };
        let quarter_sixteenths = match (self.cur_quarter - 1).checked_mul(4) {
            Some(n) => n,
            None => {
                return false;
            },
        };
        let bar_sixteenths = match quarter_sixteenths.checked_add(self.cur_1_16) {
            Some(n) => n,
            None => {
                return false;
            },
        };
        section_sixteenths.checked_add(bar_sixteenths).is_some()
    }

    /// The position in words: bar within the section and bars of the
    /// section, quarter and sixteenth, and the bar within the song.
    pub open spec fn spec_string_info(&self) -> Seq<char> {
        decimal(self.spec_cur_bar_in_section() as nat) + "th of "@ + decimal(
            self.spec_tot_bars_in_section() as nat,
        ) + " bars in section / "@ + decimal(self.cur_quarter as nat) + "."@ + decimal(
            self.cur_1_16 as nat,
        ) + " / "@ + decimal(self.cur_bar as nat) + "th global bar"@
    }

    /// The position in words, such as
    /// `2th of 4 bars in section / 3.1 / 6th global bar`.
    pub fn string_info(&self) -> (info: String)
        requires
            self.countable(),
        ensures
            info@ == self.spec_string_info(),
    {
        let mut info = String::new();
        append_decimal(&mut info, self.get_cur_bar_in_section());
        info.append("th of ");
        append_decimal(&mut info, self.get_tot_bars_in_section());
        info.append(" bars in section / ");
        append_decimal(&mut info, self.cur_quarter);
        info.append(".");
        append_decimal(&mut info, self.cur_1_16);
        info.append(" / ");
        append_decimal(&mut info, self.cur_bar);
        info.append("th global bar");
        assert(info@ =~= self.spec_string_info());
        info
    }

    /// Number of sixteenths that the section spans, at 16 to the bar.
    pub fn get_tot_1_16ths_in_section(&self) -> (n: usize)
        requires
            self.section_bar_first <= self.section_bar_last,
            self.spec_tot_1_16ths_in_section() <= usize::MAX,
        ensures
            n == self.spec_tot_1_16ths_in_section(),
    {
        self.get_tot_bars_in_section() * SIXTEENTHS_PER_BAR
    }

    /// Position within the section in sixteenths, from 1, at 16 to the bar.
    pub fn get_cur_1_16ths_in_section_from_1(&self) -> (n: usize)
        requires
            self.cur_quarter >= 1,
            self.section_bar_first <= self.cur_bar,
            self.spec_cur_1_16ths_in_section_from_1() <= usize::MAX,
        ensures
            n == self.spec_cur_1_16ths_in_section_from_1(),
    {
        (self.get_cur_bar_in_section() - 1) * SIXTEENTHS_PER_BAR
            + self.get_cur_1_16ths_in_bar_from_1()
    }

    /// Position within the bar in sixteenths, from 1.
    pub fn get_cur_1_16ths_in_bar_from_1(&self) -> (n: usize)
        requires
            self.cur_quarter >= 1,
            self.spec_cur_1_16ths_in_bar_from_1() <= usize::MAX,
        ensures
            n == self.spec_cur_1_16ths_in_bar_from_1(),
    {
        (self.cur_quarter - 1) * SIXTEENTHS_PER_QUARTER + self.cur_1_16
    }

    /// Bar within the section, from 1.
    pub fn get_cur_bar_in_section(&self) -> (n: usize)
        requires
            self.section_bar_first <= self.cur_bar,
            self.spec_cur_bar_in_section() <= usize::MAX,
        ensures
            n == self.spec_cur_bar_in_section(),
    {
        self.cur_bar - self.section_bar_first + 1
    }

    /// Number of bars in the section.
    pub fn get_tot_bars_in_section(&self) -> (n: usize)
        requires
            self.section_bar_first <= self.section_bar_last,
            self.spec_tot_bars_in_section() <= usize::MAX,
        ensures
            n == self.spec_tot_bars_in_section(),
    {
        self.section_bar_last - self.section_bar_first + 1
    }
}


/// The lines of each of a list of displays.
pub open spec fn frames_view(frames: Seq<Vec<String>>) -> Seq<Seq<Seq<char>>> {
    Seq::new(frames.len(), |k: int| strs_view(frames[k]@))
}

/// What is on display when tick `t` of section `i` is due: one display
/// for each tick played so far.
pub open spec fn shown_until(song: SongView, i: int, t: int) -> Seq<Seq<Seq<char>>> {
    song.frames_before(i) + song.section_frames(i).take(t)
}

/// What a song that was played leaves with the caller.
pub struct Performance {
    /// The deadline of every tick, in playing order.
    pub moments: Vec<u128>,
    /// The display of every tick, in playing order; empty where the
    /// player does not display.
    pub frames: Vec<Vec<String>>,
}

/// What has been played when tick `t` of section `i` is due: the ticks
/// of the sections before, and the first `t` of section `i`.
pub open spec fn played_until(song: SongView, i: int, t: int) -> Seq<TempoSnapshot> {
    song.snapshots_before(i) + song.section_snapshots(i).take(t)
}

/// What every instrument has been sent when tick `t` of section `i` is due.
pub open spec fn sent_until(song: SongView, i: int, t: int) -> Seq<CommandView> {
    seq![CommandView::TeachSong(song.id)] + play_commands(played_until(song, i, t))
}

/// Why a song is not played from `first`: `text` names the song's
/// first fault or, of a valid song, says that its deadlines do not fit.
pub open spec fn play_refusal(song: SongView, first: nat, text: Seq<char>) -> bool {
    if song.valid() {
        !schedule_fits(song, first) && text == "Song ends too late"@
    } else {
        exists|e: SongError| song.fails_with(e) && text == e.text()
    }
}

/// Queues that were extended twice were extended by both, in order.
pub proof fn lemma_extends_twice(
    before: &InstrComm,
    between: &InstrComm,
    after: &InstrComm,
    first: Seq<CommandView>,
    second: Seq<CommandView>,
)
    requires
        between.extends(before, first),
        after.extends(between, second),
    ensures
        after.extends(before, first + second),
{
    assert forall|i: int| 0 <= i < after.tx_list@.len() implies #[trigger] after.queue(i)
        == before.queue(i) + (first + second) by {
        assert(between.queue(i) == before.queue(i) + first);
        assert(after.queue(i) =~= before.queue(i) + (first + second));
    }
}

/// The coordinator: it owns the transport clock and the queues to the
/// instruments.
pub struct Player {
    pub enable_interactive_cli: bool,
    pub tempo_snapshot: TempoSnapshot,
    /// Quarters in a bar of the song being played.
    pub beats_per_bar: usize,
    pub instr_comm: InstrComm,
}

impl Player {
    /// A player at the start of a song in four-quarter bars.
    pub fn new(enable_interactive_cli: bool, instr_comm: InstrComm) -> (player: Self)
        ensures
            player.enable_interactive_cli == enable_interactive_cli,
            player.tempo_snapshot == TempoSnapshot::spec_start(),
            player.beats_per_bar == 4,
            player.instr_comm == instr_comm,
    {
        Self {
            enable_interactive_cli,
            tempo_snapshot: TempoSnapshot {
                cur_bar: 1,
                cur_quarter: 1,
                cur_1_8: 1,
                cur_1_16: 1,
                section_bar_first: 0,
                section_bar_last: 0,
            },
            beats_per_bar: 4,
            instr_comm,
        }
    }

    /// Plays `song` from its start: every instrument is sent the song's
    /// id, then one play command for each tick of each section that has
    /// a bar, and at last the order to stop. The result holds the
    /// deadline of every tick, the first at `first_moment_millis`.
    ///
    /// A song with a fault, or whose deadlines do not fit, is refused
    /// before anything is sent.
    pub fn play_song(&mut self, song: Song, first_moment_millis: u128) -> (r: Result<
        Performance,
        String,
    >)
        ensures
            r is Ok <==> song@.valid() && schedule_fits(song@, first_moment_millis as nat),
            final(self).enable_interactive_cli == old(self).enable_interactive_cli,
            match r {
                Ok(performance) => {
                    &&& performance.moments@.len() == song@.total_ticks()
                    &&& forall|k: int|
                        0 <= k < performance.moments@.len() ==> #[trigger] performance.moments@[k]
                            == moment_at(first_moment_millis as nat, song@.bpm, k as nat)
                    &&& frames_view(performance.frames@) == if old(self).enable_interactive_cli {
                        song@.frames()
                    } else {
                        Seq::empty()
                    }
                    &&& final(self).instr_comm.extends(&old(self).instr_comm, song@.commands())
                    &&& forall|i: int|
                        0 <= i < final(self).instr_comm.tx_list@.len() ==> play_count(
                            #[trigger] final(self).instr_comm.queue(i),
                        ) == play_count(old(self).instr_comm.queue(i))
                            + song@.ticks_of_sections_with_bars(song@.sections.len() as int)
                    &&& final(self).tempo_snapshot == song@.snapshot_entering(
                        song@.sections.len() as int,
                    )
                    &&& final(self).beats_per_bar == song@.beats_per_bar
                },
                Err(e) => {
                    &&& play_refusal(song@, first_moment_millis as nat, e@)
                    &&& final(self).instr_comm == old(self).instr_comm
                    &&& final(self).tempo_snapshot == old(self).tempo_snapshot
                    &&& final(self).beats_per_bar == old(self).beats_per_bar
                },
            },
    {
        match song.validate() {
            Err(e) => {
                return Err(e.message());
            },
            Ok(()) => {},
        }
        if !schedule_is_computable(&song, first_moment_millis) {
            return Err(String::from_str("Song ends too late"));
        }
        let ghost plan = song@;
        let beats: usize = song.tempo.time_signature.0;
        self.beats_per_bar = beats;
        self.tempo_snapshot = TempoSnapshot {
            cur_bar: 1,
            cur_quarter: 1,
            cur_1_8: 1,
            cur_1_16: 1,
            section_bar_first: 0,
            section_bar_last: 0,
        };
        self.instr_comm.teach_songs(song.id.clone());
        let moments = get_moments_vec_from_song_start(&song, first_moment_millis);
        let mut frames: Vec<Vec<String>> = Vec::new();
        let ghost cli = self.enable_interactive_cli;

        let n: usize = song.sections.len();
        let mut i: usize = 0;
        assert(sent_until(plan, 0, 0) =~= seq![CommandView::TeachSong(plan.id)]);
        assert(frames_view(frames@) =~= shown_until(plan, 0, 0));
        while i < n
            invariant
                i <= n,
                n == song.sections.len(),
                plan == song@,
                plan.sections.len() == n,
                plan.valid(),
                beats == plan.beats_per_bar,
                self.beats_per_bar == beats,
                self.enable_interactive_cli == old(self).enable_interactive_cli,
                self.tempo_snapshot == plan.snapshot_entering(i as int),
                self.instr_comm.extends(&old(self).instr_comm, sent_until(plan, i as int, 0)),
                cli == old(self).enable_interactive_cli,
                cli ==> frames_view(frames@) == shown_until(plan, i as int, 0),
                !cli ==> frames@.len() == 0,
            decreases n - i,
        {
            let section = &song.sections[i];
            assert(plan.sections[i as int] == section@);
            proof {
                plan.lemma_entering_position(i as int);
                plan.lemma_ticks_before_monotone(i + 1, n as int);
                plan.lemma_bars_before_monotone(i + 1, n as int);
            }
            if section.bars < 1 {
                proof {
                    plan.lemma_empty_section_is_skipped(i as int);
                    assert(played_until(plan, i + 1, 0) =~= played_until(plan, i as int, 0));
                    assert(shown_until(plan, i + 1, 0) =~= shown_until(plan, i as int, 0));
                }
                i = i + 1;
                continue ;
            }
            self.starts_new_section_with_many_bars(section.bars);
            proof {
                plan.lemma_snapshot_digits(i as int, 0);
                lemma_tick_digits(0, beats as int, 0, 0, 0);
                assert(self.tempo_snapshot == plan.snapshot_at(i as int, 0));
            }
            let ghost here = plan.section_ticks(i as int);
            assert(section.bars * beats <= here) by (nonlinear_arith)
                requires
                    here == section.bars * beats * 4,
            ;
            let ticks: usize = section.bars * beats * 4;
            let mut t: usize = 0;
            while t < ticks
                invariant
                    t <= ticks,
                    ticks == here,
                    here == plan.section_ticks(i as int),
                    i < n,
                    plan.sections.len() == n,
                    plan.valid(),
                    beats == plan.beats_per_bar,
                    plan.ticks_before(i + 1) <= plan.total_ticks(),
                    self.beats_per_bar == beats,
                    self.enable_interactive_cli == old(self).enable_interactive_cli,
                    self.tempo_snapshot == plan.snapshot_at(i as int, t as int),
                    self.instr_comm.extends(
                        &old(self).instr_comm,
                        sent_until(plan, i as int, t as int),
                    ),
                    plan.sections[i as int] == section@,
                    cli == old(self).enable_interactive_cli,
                    cli ==> frames_view(frames@) == shown_until(plan, i as int, t as int),
                    !cli ==> frames@.len() == 0,
                decreases ticks - t,
            {
                let ghost before = self.instr_comm;
                proof {
                    plan.lemma_snapshot_in_section(i as int, t as int);
                    plan.lemma_bars_before_monotone(i + 1, n as int);
                }
                let ghost shown = frames@;
                match self.play_1_16th_now(section) {
                    Some(frame) => {
                        frames.push(frame);
                        proof {
                            assert(plan.section_frames(i as int).take(t + 1)
                                =~= plan.section_frames(i as int).take(t as int).push(
                                display_lines(section.kind, plan.snapshot_at(i as int, t as int)),
                            ));
                            assert(frames_view(frames@) =~= frames_view(shown).push(
                                display_lines(section.kind, plan.snapshot_at(i as int, t as int)),
                            ));
                            assert(frames_view(frames@) =~= shown_until(plan, i as int, t + 1));
                        }
                    },
                    None => {},
                }
                proof {
                    lemma_extends_twice(
                        &old(self).instr_comm,
                        &before,
                        &self.instr_comm,
                        sent_until(plan, i as int, t as int),
                        seq![CommandView::PlayHit(plan.snapshot_at(i as int, t as int))],
                    );
                    assert(plan.section_snapshots(i as int).take(t + 1)
                        =~= plan.section_snapshots(i as int).take(t as int).push(
                        plan.snapshot_at(i as int, t as int),
                    ));
                    assert(sent_until(plan, i as int, t + 1) =~= sent_until(
                        plan,
                        i as int,
                        t as int,
                    ) + seq![CommandView::PlayHit(plan.snapshot_at(i as int, t as int))]);
                }
                self.next_1_16th();
                proof {
                    lemma_at_tick_advanced(
                        (plan.ticks_before(i as int) + t) as nat,
                        plan.beats_per_bar,
                        plan.bars_before(i as int) + 1,
                        plan.bars_before(i as int) + plan.sections[i as int].bars,
                    );
                }
                t = t + 1;
            }
            proof {
                assert(plan.section_snapshots(i as int).take(ticks as int)
                    =~= plan.section_snapshots(i as int));
                assert(played_until(plan, i + 1, 0) =~= played_until(plan, i as int, ticks as int));
                assert(plan.section_frames(i as int).take(ticks as int) =~= plan.section_frames(
                    i as int,
                ));
                assert(shown_until(plan, i + 1, 0) =~= shown_until(plan, i as int, ticks as int));
            }
            i = i + 1;
        }
        let ghost before = self.instr_comm;
        self.instr_comm.shutdown();
        proof {
            lemma_extends_twice(
                &old(self).instr_comm,
                &before,
                &self.instr_comm,
                sent_until(plan, n as int, 0),
                seq![CommandView::Shutdown],
            );
            assert(played_until(plan, n as int, 0) =~= plan.snapshots());
            assert(sent_until(plan, n as int, 0) + seq![CommandView::Shutdown] =~= plan.commands());
            assert(shown_until(plan, n as int, 0) =~= plan.frames());
            plan.lemma_play_tick_count();
            self.instr_comm.lemma_extends_play_count(&old(self).instr_comm, plan.commands());
            if !cli {
                assert(frames_view(frames@) =~= Seq::empty());
            }
        }
        Ok(Performance { moments, frames })
    }

    /// Opens a section of `bars_count` bars at the current bar. It is
    /// called once for each section, before its first tick is played.
    pub fn starts_new_section_with_many_bars(&mut self, bars_count: usize)
        requires
            1 <= old(self).tempo_snapshot.cur_bar + bars_count <= usize::MAX,
        ensures
            final(self).tempo_snapshot == old(self).tempo_snapshot.windowed(bars_count as int),
            final(self).enable_interactive_cli == old(self).enable_interactive_cli,
            final(self).beats_per_bar == old(self).beats_per_bar,
            final(self).instr_comm == old(self).instr_comm,
    {
        self.tempo_snapshot.section_bar_first = self.tempo_snapshot.cur_bar;
        self.tempo_snapshot.section_bar_last = self.tempo_snapshot.section_bar_first + bars_count
            - 1;
    }

    /// Sends the current position to every instrument, to be played
    /// now. A player that displays also hands back the display of this
    /// tick in `section`, for the caller to show; the display has no
    /// part in what is sent.
    pub fn play_1_16th_now(&mut self, section: &SongSection) -> (frame: Option<Vec<String>>)
        requires
            old(self).enable_interactive_cli ==> old(self).tempo_snapshot.displayable(),
        ensures
            final(self).instr_comm.extends(
                &old(self).instr_comm,
                seq![CommandView::PlayHit(old(self).tempo_snapshot)],
            ),
            final(self).tempo_snapshot == old(self).tempo_snapshot,
            final(self).enable_interactive_cli == old(self).enable_interactive_cli,
            final(self).beats_per_bar == old(self).beats_per_bar,
            match frame {
                Some(lines) => old(self).enable_interactive_cli && strs_view(lines@)
                    == display_lines(section.kind, old(self).tempo_snapshot),
                None => !old(self).enable_interactive_cli,
            },
    {
        let tempo_snapshot = self.tempo_snapshot;
        self.instr_comm.play_1_16th(&tempo_snapshot);
        if self.enable_interactive_cli {
            Some(render_transport_display(section.kind, &tempo_snapshot))
        } else {
            None
        }
    }

    /// Moves the clock one tick on.
    pub fn next_1_16th(&mut self)
        requires
            old(self).tempo_snapshot.can_advance(old(self).beats_per_bar as int),
        ensures
            final(self).tempo_snapshot == old(self).tempo_snapshot.advanced(
                old(self).beats_per_bar as int,
            ),
            final(self).enable_interactive_cli == old(self).enable_interactive_cli,
            final(self).beats_per_bar == old(self).beats_per_bar,
            final(self).instr_comm == old(self).instr_comm,
    {
        self.tempo_snapshot.cur_1_16 = self.tempo_snapshot.cur_1_16 + 1;
        self.tempo_snapshot.cur_1_8 = if self.tempo_snapshot.cur_1_16 > 2 {
            2
        } else {
            1
        };
        if self.tempo_snapshot.cur_1_16 > 4 {
            self.tempo_snapshot.cur_1_16 = 1;
            self.tempo_snapshot.cur_1_8 = 1;
            self.tempo_snapshot.cur_quarter = self.tempo_snapshot.cur_quarter + 1;
        }
        if self.tempo_snapshot.cur_quarter > self.beats_per_bar {
            self.tempo_snapshot.cur_quarter = 1;
            self.tempo_snapshot.cur_bar = self.tempo_snapshot.cur_bar + 1;
        }
    }
}

} // verus!
