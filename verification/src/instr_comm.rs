//! The commands that the coordinator sends to the instrument workers,
//! the queues that carry them, and the worker's side of a queue.
//!
//! A queue keeps the order in which it was filled, and that is the only
//! order there is: nothing relates the queues of two instruments but
//! the order in which the coordinator fills them.

use crate::instrument::{Instrument, WorkerState};
use crate::player::TempoSnapshot;
use crate::song::SongView;
use vstd::prelude::*;
use vstd::string::*;

verus! {

/// What the coordinator asks of a worker.
#[derive(Debug, Clone)]
pub enum InstrCommCommand {
    /// Bind to the song with this id.
    TeachSong(String),
    /// Play the tick at this position.
    PlayHit(TempoSnapshot),
    /// Stop.
    Shutdown,
}

pub enum CommandView {
    TeachSong(Seq<char>),
    PlayHit(TempoSnapshot),
    Shutdown,
}

impl View for InstrCommCommand {
    type V = CommandView;

    open spec fn view(&self) -> CommandView {
        match self {
            InstrCommCommand::TeachSong(song_id) => CommandView::TeachSong(song_id@),
            InstrCommCommand::PlayHit(tempo_snapshot) => CommandView::PlayHit(*tempo_snapshot),
            InstrCommCommand::Shutdown => CommandView::Shutdown,
        }
    }
}

/// View of a list of commands.
pub open spec fn commands_view(v: Seq<InstrCommCommand>) -> Seq<CommandView> {
    Seq::new(v.len(), |i: int| v[i]@)
}

/// The play commands of a run of positions, in their order.
pub open spec fn play_commands(snapshots: Seq<TempoSnapshot>) -> Seq<CommandView> {
    Seq::new(snapshots.len(), |i: int| CommandView::PlayHit(snapshots[i]))
}

/// The number of play commands among `commands`.
pub open spec fn play_count(commands: Seq<CommandView>) -> nat
    decreases commands.len(),
{
    if commands.len() == 0 {
        0
    } else {
        play_count(commands.drop_last()) + if commands.last() is PlayHit {
            1nat
        } else {
            0nat
        }
    }
}

/// The play commands of two runs of commands add up.
pub proof fn lemma_play_count_add(first: Seq<CommandView>, second: Seq<CommandView>)
    ensures
        play_count(first + second) == play_count(first) + play_count(second),
    decreases second.len(),
{
    if second.len() == 0 {
        assert(first + second =~= first);
    } else {
        lemma_play_count_add(first, second.drop_last());
        assert((first + second).drop_last() =~= first + second.drop_last());
    }
}

/// A run of play commands holds as many as there are positions.
pub proof fn lemma_play_count_of_plays(snapshots: Seq<TempoSnapshot>)
    ensures
        play_count(play_commands(snapshots)) == snapshots.len(),
    decreases snapshots.len(),
{
    if snapshots.len() > 0 {
        lemma_play_count_of_plays(snapshots.drop_last());
        assert(play_commands(snapshots).drop_last() =~= play_commands(snapshots.drop_last()));
    }
}

/// The coordinator's end of the queues, one queue for each instrument.
pub struct InstrComm {
    pub tx_list: Vec<Vec<InstrCommCommand>>,
}

impl InstrComm {
    /// What the queue of instrument `i` holds, oldest first.
    pub open spec fn queue(&self, i: int) -> Seq<CommandView> {
        commands_view(self.tx_list@[i]@)
    }

    /// Every queue of `self` holds what it held in `before`, then `added`.
    pub open spec fn extends(&self, before: &InstrComm, added: Seq<CommandView>) -> bool {
        &&& self.tx_list@.len() == before.tx_list@.len()
        &&& forall|i: int|
            0 <= i < self.tx_list@.len() ==> #[trigger] self.queue(i) == before.queue(i) + added
    }

    /// Queues that were extended gained the play commands of what was
    /// added, each of them.
    pub proof fn lemma_extends_play_count(&self, before: &InstrComm, added: Seq<CommandView>)
        requires
            self.extends(before, added),
        ensures
            forall|i: int|
                0 <= i < self.tx_list@.len() ==> play_count(#[trigger] self.queue(i))
                    == play_count(before.queue(i)) + play_count(added),
    {
        assert forall|i: int| 0 <= i < self.tx_list@.len() implies play_count(
            #[trigger] self.queue(i),
        ) == play_count(before.queue(i)) + play_count(added) by {
            lemma_play_count_add(before.queue(i), added);
        }
    }

    /// Puts `command` at the end of every queue.
    fn broadcast(&mut self, command: &InstrCommCommand)
        ensures
            final(self).extends(old(self), seq![command@]),
    {
        let n: usize = self.tx_list.len();
        let mut i: usize = 0;
        while i < n
            invariant
                i <= n,
                n == self.tx_list@.len(),
                n == old(self).tx_list@.len(),
                forall|j: int|
                    0 <= j < i ==> #[trigger] self.queue(j) == old(self).queue(j) + seq![command@],
                forall|j: int| i <= j < n ==> self.tx_list@[j] == old(self).tx_list@[j],
            decreases n - i,
        {
            let ghost before = *self;
            let copy = match command {
                InstrCommCommand::TeachSong(song_id) => InstrCommCommand::TeachSong(
                    song_id.clone(),
                ),
                InstrCommCommand::PlayHit(tempo_snapshot) => InstrCommCommand::PlayHit(
                    *tempo_snapshot,
                ),
                InstrCommCommand::Shutdown => InstrCommCommand::Shutdown,
            };
            self.tx_list[i].push(copy);
            assert(self.queue(i as int) =~= old(self).queue(i as int) + seq![command@]);
            assert forall|j: int| 0 <= j < i implies #[trigger] self.queue(j) == old(self).queue(j)
                + seq![command@] by {
                assert(self.tx_list@[j] == before.tx_list@[j]);
                assert(before.queue(j) == old(self).queue(j) + seq![command@]);
            }
            i = i + 1;
        }
    }

    /// Tells every instrument to bind to the song with this id.
    pub fn teach_songs(&mut self, song_id: String)
        ensures
            final(self).extends(old(self), seq![CommandView::TeachSong(song_id@)]),
    {
        self.broadcast(&InstrCommCommand::TeachSong(song_id));
    }

    /// Tells every instrument to play the tick at this position; each
    /// gets a copy of the snapshot.
    pub fn play_1_16th(&mut self, tempo_snapshot: &TempoSnapshot)
        ensures
            final(self).extends(old(self), seq![CommandView::PlayHit(*tempo_snapshot)]),
    {
        self.broadcast(&InstrCommCommand::PlayHit(*tempo_snapshot));
    }

    /// Tells every instrument to stop.
    pub fn shutdown(&mut self)
        ensures
            final(self).extends(old(self), seq![CommandView::Shutdown]),
    {
        self.broadcast(&InstrCommCommand::Shutdown);
    }
}

/// A new, empty queue for one instrument.
pub fn create_instr_comm() -> (queue: Vec<InstrCommCommand>)
    ensures
        queue@.len() == 0,
{
    Vec::new()
}


/// Why a worker stopped listening.
#[derive(Debug, Clone, Copy, PartialEq, Eq, Structural)]
pub enum WorkerExit {
    /// Every command was carried out and none was the order to stop.
    QueueEmpty,
    /// The worker was told to stop.
    Shutdown,
    /// The worker was taught a song that it does not hold, or asked to
    /// play before it was taught one.
    UnknownSong,
}

/// The state in which `command` leaves a worker that holds `song`, and
/// why the worker stops, if it does. A worker stops on the order to
/// stop, on the id of a song that is not its own and on a tick that
/// comes before it was taught; what makes it stop changes nothing.
pub open spec fn after_command<I: Instrument>(
    song: SongView,
    state: WorkerState,
    command: CommandView,
) -> (WorkerState, Option<WorkerExit>) {
    match command {
        CommandView::TeachSong(song_id) => if song_id == song.id {
            (state.taught_anew(), None)
        } else {
            (state, Some(WorkerExit::UnknownSong))
        },
        CommandView::PlayHit(snapshot) => if state.taught {
            (I::after_tick(song, state, snapshot), None)
        } else {
            (state, Some(WorkerExit::UnknownSong))
        },
        CommandView::Shutdown => (state, Some(WorkerExit::Shutdown)),
    }
}

/// The state in which the commands from index `from` on leave a
/// worker, taken in their order up to the first that stops it.
pub open spec fn after_commands<I: Instrument>(
    song: SongView,
    state: WorkerState,
    commands: Seq<CommandView>,
    from: int,
) -> (WorkerState, WorkerExit)
    decreases commands.len() - from,
{
    if from < 0 || from >= commands.len() {
        (state, WorkerExit::QueueEmpty)
    } else {
        match after_command::<I>(song, state, commands[from]) {
            (next, None) => after_commands::<I>(song, next, commands, from + 1),
            (next, Some(exit)) => (next, exit),
        }
    }
}

/// A taught worker that is sent ticks and then the order to stop
/// carries out every tick and stops on that order.
pub proof fn lemma_ticks_then_shutdown<I: Instrument>(
    song: SongView,
    state: WorkerState,
    commands: Seq<CommandView>,
    from: int,
)
    requires
        state.taught,
        0 <= from < commands.len(),
        forall|k: int| from <= k < commands.len() - 1 ==> #[trigger] commands[k] is PlayHit,
        commands[commands.len() - 1] == CommandView::Shutdown,
    ensures
        after_commands::<I>(song, state, commands, from).1 == WorkerExit::Shutdown,
    decreases commands.len() - from,
{
    if from < commands.len() - 1 {
        let snapshot = commands[from]->PlayHit_0;
        I::lemma_tick_keeps_taught(song, state, snapshot);
        lemma_ticks_then_shutdown::<I>(
            song,
            I::after_tick(song, state, snapshot),
            commands,
            from + 1,
        );
    }
}

/// Every position that `commands` asks to play lies inside its section.
pub open spec fn plays_in_section(commands: Seq<CommandView>) -> bool {
    forall|k: int|
        0 <= k < commands.len() ==> (#[trigger] commands[k] matches CommandView::PlayHit(snapshot)
            ==> snapshot.in_section())
}

/// Carries out one command on `instrument`; says why the worker has to
/// stop, if it has.
pub fn handle_instr_comm_command<I: Instrument>(
    command: &InstrCommCommand,
    instrument: &mut I,
) -> (exit: Option<WorkerExit>)
    requires
        old(instrument).wf(),
        command@ matches CommandView::PlayHit(snapshot) ==> snapshot.in_section(),
    ensures
        final(instrument).wf(),
        final(instrument).song() == old(instrument).song(),
        (final(instrument).state(), exit) == after_command::<I>(
            old(instrument).song(),
            old(instrument).state(),
            command@,
        ),
{
    match command {
        InstrCommCommand::TeachSong(song_id) => {
            if instrument.teach_song(song_id.clone()) {
                None
            } else {
                Some(WorkerExit::UnknownSong)
            }
        },
        InstrCommCommand::PlayHit(tempo_snapshot) => {
            if instrument.is_taught() {
                instrument.play_1_16th(tempo_snapshot);
                None
            } else {
                Some(WorkerExit::UnknownSong)
            }
        },
        InstrCommCommand::Shutdown => Some(WorkerExit::Shutdown),
    }
}

/// The worker's loop: carries out the commands of `rx` on `instrument`
/// in their order, up to the first that stops the worker, and says why
/// it stopped.
pub fn start_listening_to_instr_comm_commands<I: Instrument>(
    rx: Vec<InstrCommCommand>,
    instrument: &mut I,
) -> (exit: WorkerExit)
    requires
        old(instrument).wf(),
        plays_in_section(commands_view(rx@)),
    ensures
        final(instrument).wf(),
        final(instrument).song() == old(instrument).song(),
        (final(instrument).state(), exit) == after_commands::<I>(
            old(instrument).song(),
            old(instrument).state(),
            commands_view(rx@),
            0,
        ),
{
    let n: usize = rx.len();
    let ghost commands = commands_view(rx@);
    let ghost song = instrument.song();
    let mut i: usize = 0;
    while i < n
        invariant
            i <= n,
            n == rx.len(),
            commands == commands_view(rx@),
            plays_in_section(commands),
            instrument.wf(),
            song == old(instrument).song(),
            instrument.song() == song,
            after_commands::<I>(song, old(instrument).state(), commands, 0) == after_commands::<I>(
                song,
                instrument.state(),
                commands,
                i as int,
            ),
        decreases n - i,
    {
        assert(commands[i as int] == rx[i as int]@);
        match handle_instr_comm_command(&rx[i], instrument) {
            Some(exit) => {
                return exit;
            },
            None => {},
        }
        i = i + 1;
    }
    WorkerExit::QueueEmpty
}

} // verus!
