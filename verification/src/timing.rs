//! The moment schedule and the pacer: the absolute deadline of every
//! tick of a song, and how long to wait for the next one.
//!
//! Deadlines are absolute. Waiting for each from the current time, not
//! for one tick length after the other, keeps the time that a tick
//! takes to process from adding up over a song.

use crate::song::{Song, SongView};
use vstd::prelude::*;

verus! {

/// Length of a sixteenth note at the reference tempo, in milliseconds.
pub const DUR_1_16_MILLIS: u128 = 250;

/// The reference tempo, in quarter notes per minute, at which a
/// sixteenth note lasts [`DUR_1_16_MILLIS`].
pub const BPM_DEFAULT: u128 = 60;

/// Length of a tick at `bpm` quarter notes per minute, in whole
/// milliseconds: the reference length scaled by reference tempo over
/// `bpm`, that is 250 × 60 / `bpm`.
pub open spec fn tick_millis(bpm: nat) -> nat
    recommends
        bpm >= 1,
{
    (15000int / (bpm as int)) as nat
}

/// Deadline of tick `k`, counted from 0, of a song whose first tick is
/// due at `first`.
pub open spec fn moment_at(first: nat, bpm: nat, k: nat) -> nat {
    first + k * tick_millis(bpm)
}

/// The deadlines of the first `count` ticks.
pub open spec fn moments(first: nat, bpm: nat, count: nat) -> Seq<nat> {
    Seq::new(count, |k: int| moment_at(first, bpm, k as nat))
}

/// Every deadline of a song that starts at `first` fits in a `u128`.
pub open spec fn schedule_fits(song: SongView, first: nat) -> bool {
    &&& song.bpm >= 1
    &&& song.total_ticks() <= usize::MAX
    &&& first + song.total_ticks() * tick_millis(song.bpm) <= u128::MAX
}

/// The time to wait at `now` for the deadline `wait_until`: nothing
/// once the deadline has passed.
pub open spec fn remaining(wait_until: nat, now: nat) -> nat {
    if wait_until > now {
        (wait_until - now) as nat
    } else {
        0
    }
}

/// Length of a tick at `bpm` quarter notes per minute, in milliseconds.
pub fn tick_duration_millis(bpm: usize) -> (d: u128)
    requires
        bpm >= 1,
    ensures
        d == tick_millis(bpm as nat),
        d <= 15000,
{
    DUR_1_16_MILLIS * BPM_DEFAULT / (bpm as u128)
}

/// Whether every deadline of the song, started at
/// `first_moment_millis`, can be computed.
pub fn schedule_is_computable(song: &Song, first_moment_millis: u128) -> (r: bool)
    ensures
        r == schedule_fits(song@, first_moment_millis as nat),
{
    if song.tempo.bpm == 0 {
        return false;
    }
    let tick: u128 = tick_duration_millis(song.tempo.bpm);
    match song.total_ticks() {
        Some(total) => {
            assert(total * tick <= usize::MAX * 15000) by (nonlinear_arith)
                requires
                    total <= usize::MAX,
                    tick <= 15000,
            ;
            let span: u128 = (total as u128) * tick;
            first_moment_millis.checked_add(span).is_some()
        },
        None => false,
    }
}

/// The deadline of every tick of the song, in playing order, the first
/// at `first_moment_millis` and each one tick length after the one before.
pub fn get_moments_vec_from_song_start(song: &Song, first_moment_millis: u128) -> (result: Vec<
    u128,
>)
    requires
        schedule_fits(song@, first_moment_millis as nat),
    ensures
        result@.len() == song@.total_ticks(),
        forall|k: int|
            0 <= k < result@.len() ==> #[trigger] result@[k] == moment_at(
                first_moment_millis as nat,
                song@.bpm,
                k as nat,
            ),
        forall|k: int|
            0 <= k && k + 1 < result@.len() ==> result@[k + 1] - #[trigger] result@[k]
                == tick_millis(song@.bpm),
{
    let tick: u128 = tick_duration_millis(song.tempo.bpm);
    let beats: usize = song.tempo.time_signature.0;
    let n: usize = song.sections.len();
    let ghost total = song@.total_ticks();
    let mut result: Vec<u128> = Vec::new();
    let mut i: usize = 0;
    while i < n
        invariant
            i <= n,
            n == song.sections.len(),
            song@.sections.len() == n,
            beats == song@.beats_per_bar,
            tick == tick_millis(song@.bpm),
            total == song@.total_ticks(),
            total <= usize::MAX,
            first_moment_millis + total * tick <= u128::MAX,
            result@.len() == song@.ticks_before(i as int),
            forall|k: int|
                0 <= k < result@.len() ==> #[trigger] result@[k] == first_moment_millis + k * tick,
        decreases n - i,
    {
        assert(song@.sections[i as int] == song.sections[i as int]@);
        proof {
            song@.lemma_ticks_before_monotone(i + 1, n as int);
        }
        let ghost before = song@.ticks_before(i as int);
        let ghost here = song@.section_ticks(i as int);
        assert(song.sections[i as int].bars * beats <= here) by (nonlinear_arith)
            requires
                here == song.sections[i as int].bars * beats * 4,
        ;
        let ticks: usize = song.sections[i].bars * beats * 4;
        let mut t: usize = 0;
        while t < ticks
            invariant
                t <= ticks,
                ticks == here,
                before + here <= total,
                total <= usize::MAX,
                first_moment_millis + total * tick <= u128::MAX,
                result@.len() == before + t,
                forall|k: int|
                    0 <= k < result@.len() ==> #[trigger] result@[k] == first_moment_millis + k
                        * tick,
            decreases ticks - t,
        {
            let k: usize = result.len();
            assert(k * tick <= total * tick) by (nonlinear_arith)
                requires
                    k <= total,
            ;
            result.push(first_moment_millis + (k as u128) * tick);
            t = t + 1;
        }
        i = i + 1;
    }
    assert forall|k: int| 0 <= k && k + 1 < result@.len() implies result@[k + 1]
        - #[trigger] result@[k] == tick_millis(song@.bpm) by {
        assert(result@[k + 1] == first_moment_millis + (k + 1) * tick);
        assert((k + 1) * tick == k * tick + tick) by (nonlinear_arith);
    }
    result
}

/// Milliseconds since the epoch of a time given as whole seconds and
/// the nanoseconds of the second begun.
pub fn millis_from_epoch_parts(secs: u64, subsec_nanos: u32) -> (millis: u128)
    ensures
        millis == secs * 1000 + subsec_nanos / 1_000_000,
{
    (secs as u128) * 1000 + (subsec_nanos as u128) / 1_000_000
}

/// The time to wait at `now_millis` for the deadline `wait_until_millis`:
/// their difference, and nothing once the deadline has passed.
pub fn remaining_millis(wait_until_millis: u128, now_millis: u128) -> (wait: u128)
    ensures
        wait == remaining(wait_until_millis as nat, now_millis as nat),
{
    wait_until_millis.saturating_sub(now_millis)
}

/// Walks a moment schedule, one deadline per tick.
pub struct Pacer {
    /// The deadline of every tick.
    pub moments: Vec<u128>,
    /// How many deadlines have been handed out.
    pub next: usize,
}

impl Pacer {
    /// A pacer at the start of `moments`.
    pub fn new(moments: Vec<u128>) -> (pacer: Pacer)
        ensures
            pacer.moments@ == moments@,
            pacer.next == 0,
    {
        Pacer { moments, next: 0 }
    }
}

/// Takes the next deadline and says how long to wait for it at
/// `now_millis`; `None` once every deadline has been taken. A deadline
/// that has passed gives a wait of zero and is not skipped.
pub fn wait_around_bpm(pacer: &mut Pacer, now_millis: u128) -> (wait: Option<u128>)
    ensures
        final(pacer).moments == old(pacer).moments,
        old(pacer).next < old(pacer).moments.len() ==> {
            &&& final(pacer).next == old(pacer).next + 1
            &&& wait matches Some(w) && w == remaining(
                old(pacer).moments[old(pacer).next as int] as nat,
                now_millis as nat,
            )
        },
        old(pacer).next >= old(pacer).moments.len() ==> {
            &&& final(pacer).next == old(pacer).next
            &&& wait is None
        },
{
    if pacer.next < pacer.moments.len() {
        let next_hit_millis: u128 = pacer.moments[pacer.next];
        pacer.next = pacer.next + 1;
        Some(remaining_millis(next_hit_millis, now_millis))
    } else {
        None
    }
}

} // verus!
