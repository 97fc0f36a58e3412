//! Publication of the player's state to other threads: a snapshot board that
//! readers copy from without blocking the writer, and the event channel that
//! observers consume. The bus keeps, as ghost state, the history of what it
//! posted and sent, in order.

use vstd::prelude::*;
use pinboard::NonEmptyPinboard;
use crossbeam_channel::{Sender, Receiver};
use crate::model::{Track, PlayerState, PlayerEvent, PlayerError};
use crate::player::{Player, Plan, player_snapshot};

verus! {

#[verifier::external_type_specification]
#[verifier::external_body]
#[verifier::reject_recursive_types(T)]
pub struct ExNonEmptyPinboard<T: 'static>(NonEmptyPinboard<T>);

#[verifier::external_type_specification]
#[verifier::external_body]
#[verifier::reject_recursive_types(T)]
pub struct ExSender<T>(Sender<T>);

#[verifier::external_type_specification]
#[verifier::external_body]
#[verifier::reject_recursive_types(T)]
pub struct ExReceiver<T>(Receiver<T>);

/// One published copy of the player's queue, current track and state.
#[derive(Clone, Debug, PartialEq, Eq)]
pub struct Snapshot {
    pub queue: Vec<Track>,
    pub current: Option<Track>,
    pub state: PlayerState,
}

impl Snapshot {
    pub open spec fn view_of(&self) -> (Seq<Track>, Option<Track>, PlayerState) {
        (self.queue@, self.current, self.state)
    }
}

/// The snapshots ever posted on a board, over its whole life.
pub uninterp spec fn posted_snapshots(b: NonEmptyPinboard<Snapshot>) -> Set<(Seq<Track>, Option<Track>, PlayerState)>;

/// Relies on pinboard's `NonEmptyPinboard::new`: a board whose first post is `v`.
#[verifier::external_body]
fn board_new(v: Snapshot) -> (r: NonEmptyPinboard<Snapshot>)
    ensures
        posted_snapshots(r).contains(v.view_of()),
{
    NonEmptyPinboard::new(v)
}

/// Relies on pinboard's `NonEmptyPinboard::set`: posts `v` for later reads,
/// without waiting for readers.
#[verifier::external_body]
fn board_set(b: &NonEmptyPinboard<Snapshot>, v: Snapshot) {
    b.set(v)
}

/// Relies on pinboard's `NonEmptyPinboard::read`: a copy of a value posted on
/// the board; which one depends on the other threads.
#[verifier::external_body]
fn board_read(b: &NonEmptyPinboard<Snapshot>) -> (r: Snapshot)
    ensures
        posted_snapshots(*b).contains(r.view_of()),
{
    b.read()
}

/// Relies on `crossbeam_channel::unbounded`: the two ends of a new channel.
#[verifier::external_body]
fn channel_unbounded() -> (Sender<PlayerEvent>, Receiver<PlayerEvent>) {
    crossbeam_channel::unbounded()
}

/// Relies on crossbeam_channel's `Sender::send` on an unbounded channel: it
/// fails only once every receiving end is gone, and the bus holds one.
#[verifier::external_body]
fn channel_send(bus: &EventBus, msg: PlayerEvent) -> (r: bool)
    ensures
        r,
{
    bus.tx.send(msg).is_ok()
}

/// Relies on crossbeam_channel's `Receiver::clone`: another receiving end of
/// the same channel.
#[verifier::external_body]
fn receiver_clone(rx: &Receiver<PlayerEvent>) -> Receiver<PlayerEvent> {
    rx.clone()
}

/// The latest published snapshot of the player.
pub struct Snapshots {
    board: NonEmptyPinboard<Snapshot>,
}

impl Snapshots {
    /// The snapshots posted on this board so far or later.
    pub closed spec fn posts(&self) -> Set<(Seq<Track>, Option<Track>, PlayerState)> {
        posted_snapshots(self.board)
    }

    /// A board whose first post is what `player` holds now.
    pub fn new(player: &Player) -> (r: Snapshots)
        ensures
            r.posts().contains(player_snapshot(*player)),
    {
        let s = Snapshot { queue: player.get_queue(), current: player.current(), state: player.state() };
        Snapshots { board: board_new(s) }
    }

    /// A recent snapshot: one that was posted on this board.
    pub fn read(&self) -> (r: Snapshot)
        ensures
            self.posts().contains(r.view_of()),
    {
        board_read(&self.board)
    }

    /// The queue of a posted snapshot.
    pub fn queue(&self) -> (r: Vec<Track>)
        ensures
            exists|c: Option<Track>, s: PlayerState| self.posts().contains((r@, c, s)),
    {
        self.read().queue
    }

    /// The current track of a posted snapshot.
    pub fn current(&self) -> (r: Option<Track>)
        ensures
            exists|q: Seq<Track>, s: PlayerState| self.posts().contains((q, r, s)),
    {
        self.read().current
    }

    /// The state of a posted snapshot.
    pub fn state(&self) -> (r: PlayerState)
        ensures
            exists|q: Seq<Track>, c: Option<Track>| self.posts().contains((q, c, r)),
    {
        self.read().state
    }
}

/// One thing the bus made visible to other threads.
pub enum Publication {
    /// A snapshot of the player posted on the board.
    Posted((Seq<Track>, Option<Track>, PlayerState)),
    /// An event sent on the channel.
    Announced(PlayerEvent),
}

/// The events as the bus records their sending.
pub open spec fn announced(events: Seq<PlayerEvent>) -> Seq<Publication> {
    events.map_values(|e: PlayerEvent| Publication::Announced(e))
}

/// The channel on which the player's events are announced. It keeps a
/// receiving end of its own, so sending never fails.
pub struct EventBus {
    tx: Sender<PlayerEvent>,
    rx: Receiver<PlayerEvent>,
    history: Ghost<Seq<Publication>>,
}

impl EventBus {
    /// What this bus posted and sent, in order.
    pub closed spec fn history(&self) -> Seq<Publication> {
        self.history@
    }

    pub fn new() -> (r: EventBus)
        ensures
            r.history() == Seq::<Publication>::empty(),
    {
        let (tx, rx) = channel_unbounded();
        EventBus { tx, rx, history: Ghost(Seq::empty()) }
    }

    /// Sends one event.
    pub fn send(&mut self, e: PlayerEvent)
        ensures
            final(self).history() == old(self).history().push(Publication::Announced(e)),
    {
        let ghost g = e;
        let _ = channel_send(self, e);
        proof {
            self.history@ = self.history@.push(Publication::Announced(g));
        }
    }

    /// Sends the events, in their order.
    pub fn announce(&mut self, events: Vec<PlayerEvent>)
        ensures
            final(self).history() == old(self).history() + announced(events@),
    {
        let ghost all = events@;
        let ghost start = self.history@;
        let mut rest = events;
        let ghost n = all.len();
        while rest.len() > 0
            invariant
                rest@.len() <= n,
                n == all.len(),
                rest@ == all.subrange(n - rest@.len(), n as int),
                self.history@ == start + announced(all.subrange(0, n - rest@.len())),
            decreases rest@.len(),
        {
            let ghost k = n - rest@.len();
            let e = rest.remove(0);
            assert(e == all[k]);
            self.send(e);
            assert(all.subrange(0, k + 1) =~= all.subrange(0, k).push(all[k]));
            assert(announced(all.subrange(0, k + 1)) =~= announced(all.subrange(0, k)).push(
                Publication::Announced(all[k]),
            ));
            assert(self.history@ =~= start + announced(all.subrange(0, k + 1)));
            assert(rest@ =~= all.subrange(n - rest@.len(), n as int));
        }
        assert(all.subrange(0, n as int) =~= all);
    }

    /// Posts a snapshot of `player` on the board.
    pub fn post(&mut self, snapshots: &Snapshots, player: &Player)
        ensures
            final(self).history() == old(self).history().push(
                Publication::Posted(player_snapshot(*player)),
            ),
    {
        let s = Snapshot { queue: player.get_queue(), current: player.current(), state: player.state() };
        board_set(&snapshots.board, s);
        proof {
            self.history@ = self.history@.push(Publication::Posted(player_snapshot(*player)));
        }
    }

    /// A receiving end for an observer. Receiving ends share one queue of
    /// events: each event goes to one of them.
    pub fn observe(&self) -> Receiver<PlayerEvent> {
        receiver_clone(&self.rx)
    }
}

/// Ends the pending transition of `player` as `Player::commit` does and, where
/// it took effect, first posts the new snapshot and then announces its events,
/// so that an observer woken by an event reads the new state.
pub fn commit_and_announce(
    player: &mut Player,
    pipeline_ok: bool,
    snapshots: &Snapshots,
    bus: &mut EventBus,
) -> (r: Result<(), PlayerError>)
    requires
        old(player).wf(),
    ensures
        final(player).wf(),
        !final(player).has_pending(),
        final(player).queue_seq() == old(player).queue_seq(),
        !old(player).has_pending() ==> {
            &&& r == Err::<(), PlayerError>(PlayerError::NothingPending)
            &&& final(player).cursor() == old(player).cursor()
            &&& final(player).current_spec() == old(player).current_spec()
            &&& final(player).state_spec() == old(player).state_spec()
            &&& final(bus).history() == old(bus).history()
        },
        old(player).has_pending() && !pipeline_ok ==> {
            &&& r == Err::<(), PlayerError>(PlayerError::PipelineRefused)
            &&& final(player).cursor() == old(player).cursor()
            &&& final(player).current_spec() == old(player).current_spec()
            &&& final(player).state_spec() == old(player).state_spec()
            &&& final(bus).history() == old(bus).history()
        },
        forall|p: Plan| #[trigger] old(player).pending_plan_is(Some(p)) && pipeline_ok ==> {
            &&& r is Ok
            &&& final(player).cursor() == p.index
            &&& final(player).current_spec() == p.track
            &&& final(player).state_spec() == p.state
            &&& final(bus).history() == old(bus).history().push(
                Publication::Posted(player_snapshot(*final(player))),
            ) + announced(p.events)
        },
{
    match player.commit(pipeline_ok) {
        Ok(events) => {
            bus.post(snapshots, player);
            bus.announce(events);
            Ok(())
        },
        Err(e) => Err(e),
    }
}

} // verus!
