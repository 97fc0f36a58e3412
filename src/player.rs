use vstd::prelude::*;
use crate::model::{
    Track, PlayerState, PlayerEvent, PipelineState, PipelineStep, PlayerError,
    pipeline_state_spec, pipeline_state_for,
};

verus! {

/// What a planned transition asks of the pipeline and what it leaves behind
/// once committed: the new state, cursor and current track, and the events to
/// announce, in order; `selects` tells whether a track is selected.
pub struct Plan {
    pub steps: Seq<PipelineStep>,
    pub selects: bool,
    pub state: PlayerState,
    pub index: int,
    pub track: Option<Track>,
    pub events: Seq<PlayerEvent>,
}

/// The current track mirrors the queue at the cursor.
pub open spec fn consistent(queue: Seq<Track>, index: int, current: Option<Track>) -> bool {
    current matches Some(t) ==> 0 <= index < queue.len() && queue[index] == t
}

/// Steps that reprogram the pipeline's source: it must be idle while the
/// source changes, and is then brought back to the state that matches `s`.
pub open spec fn select_steps(t: Track, s: PlayerState) -> Seq<PipelineStep> {
    seq![
        PipelineStep::SetState(PipelineState::Null),
        PipelineStep::SetSource(t.stream_url),
        PipelineStep::SetState(pipeline_state_spec(s)),
    ]
}

/// Halting the pipeline and entering `Stop`, cursor and track left as given.
pub open spec fn stop_plan(index: int, current: Option<Track>) -> Plan {
    Plan {
        steps: seq![PipelineStep::SetState(PipelineState::Null)],
        selects: false,
        state: PlayerState::Stop,
        index,
        track: current,
        events: seq![PlayerEvent::StateChanged(PlayerState::Stop)],
    }
}

/// Moving the cursor to `index` and playing `t` there, state kept.
pub open spec fn select_plan(t: Track, index: int, st: PlayerState) -> Plan {
    Plan {
        steps: select_steps(t, st),
        selects: true,
        state: st,
        index,
        track: Some(t),
        events: seq![PlayerEvent::TrackChanged(t)],
    }
}

/// `set_state(s)`; `None` where `Play` finds the cursor off the queue.
pub open spec fn enter_plan(
    queue: Seq<Track>,
    index: int,
    current: Option<Track>,
    st: PlayerState,
    s: PlayerState,
) -> Option<Plan> {
    match s {
        PlayerState::Play => if !(0 <= index < queue.len()) {
            None
        } else if st != PlayerState::Stop && current is Some {
            Some(
                Plan {
                    steps: seq![PipelineStep::SetState(PipelineState::Playing)],
                    selects: false,
                    state: PlayerState::Play,
                    index,
                    track: current,
                    events: seq![PlayerEvent::StateChanged(PlayerState::Play)],
                },
            )
        } else {
            Some(
                Plan {
                    steps: select_steps(queue[index], PlayerState::Play),
                    selects: true,
                    state: PlayerState::Play,
                    index,
                    track: Some(queue[index]),
                    events: seq![
                        PlayerEvent::StateChanged(PlayerState::Play),
                        PlayerEvent::TrackChanged(queue[index]),
                    ],
                },
            )
        },
        PlayerState::Pause => Some(
            Plan {
                steps: seq![PipelineStep::SetState(PipelineState::Paused)],
                selects: false,
                state: PlayerState::Pause,
                index,
                track: current,
                events: seq![PlayerEvent::StateChanged(PlayerState::Pause)],
            },
        ),
        PlayerState::Stop => Some(stop_plan(index, current)),
    }
}

/// Advance: the next track, or `Stop` once the cursor runs off the end.
pub open spec fn advance_plan(
    queue: Seq<Track>,
    index: int,
    current: Option<Track>,
    st: PlayerState,
) -> Plan {
    if index >= queue.len() {
        stop_plan(index, current)
    } else if index + 1 < queue.len() {
        select_plan(queue[index + 1], index + 1, st)
    } else {
        stop_plan(index + 1, None)
    }
}

/// Retreat: the previous track, or `Stop` at the start of the queue.
pub open spec fn retreat_plan(
    queue: Seq<Track>,
    index: int,
    current: Option<Track>,
    st: PlayerState,
) -> Plan {
    if index <= 0 {
        stop_plan(index, current)
    } else if index - 1 < queue.len() {
        select_plan(queue[index - 1], index - 1, st)
    } else {
        stop_plan(index - 1, None)
    }
}

/// The queue after inserting `t` right after the cursor, or at the end where
/// the cursor is at or past the last track.
pub open spec fn inserted_next(queue: Seq<Track>, index: int, t: Track) -> Seq<Track> {
    if index + 1 <= queue.len() {
        queue.insert(index + 1, t)
    } else {
        queue.push(t)
    }
}

/// What a snapshot of the player holds: its queue, current track and state.
pub open spec fn player_snapshot(p: Player) -> (Seq<Track>, Option<Track>, PlayerState) {
    (p.queue_seq(), p.current_spec(), p.state_spec())
}

/// A planned transition, waiting for the pipeline.
struct Transition {
    state: PlayerState,
    index: usize,
    track: Option<Track>,
    events: Vec<PlayerEvent>,
}

impl Transition {
    spec fn matches_plan(&self, p: Plan) -> bool {
        &&& self.state == p.state
        &&& self.index as int == p.index
        &&& self.track == p.track
        &&& self.events@ == p.events
    }
}

/// The playback queue, its cursor, the current track and the player state,
/// with at most one transition pending.
pub struct Player {
    queue: Vec<Track>,
    current_index: usize,
    current_track: Option<Track>,
    state: PlayerState,
    pending: Option<Transition>,
}

fn copy_option(t: &Option<Track>) -> (r: Option<Track>)
    ensures
        r == *t,
{
    match t {
        Some(t) => Some(t.duplicate()),
        None => None,
    }
}

fn stop_transition(index: usize, current: &Option<Track>) -> (r: (Vec<PipelineStep>, Transition))
    ensures
        r.0@ == stop_plan(index as int, *current).steps,
        r.1.matches_plan(stop_plan(index as int, *current)),
{
    let mut steps: Vec<PipelineStep> = Vec::new();
    steps.push(PipelineStep::SetState(PipelineState::Null));
    let mut events: Vec<PlayerEvent> = Vec::new();
    events.push(PlayerEvent::StateChanged(PlayerState::Stop));
    assert(steps@ =~= stop_plan(index as int, *current).steps);
    assert(events@ =~= stop_plan(index as int, *current).events);
    (steps, Transition { state: PlayerState::Stop, index, track: copy_option(current), events })
}

fn select_transition(t: &Track, index: usize, st: PlayerState) -> (r: (Vec<PipelineStep>, Transition))
    ensures
        r.0@ == select_plan(*t, index as int, st).steps,
        r.1.matches_plan(select_plan(*t, index as int, st)),
{
    let steps = select_step_vec(t, st);
    let mut events: Vec<PlayerEvent> = Vec::new();
    events.push(PlayerEvent::TrackChanged(t.duplicate()));
    assert(events@ =~= select_plan(*t, index as int, st).events);
    (steps, Transition { state: st, index, track: Some(t.duplicate()), events })
}

fn select_step_vec(t: &Track, st: PlayerState) -> (r: Vec<PipelineStep>)
    ensures
        r@ == select_steps(*t, st),
{
    let mut steps: Vec<PipelineStep> = Vec::new();
    steps.push(PipelineStep::SetState(PipelineState::Null));
    steps.push(PipelineStep::SetSource(t.stream_url.clone()));
    steps.push(PipelineStep::SetState(pipeline_state_for(st)));
    assert(steps@ =~= select_steps(*t, st));
    steps
}

impl Player {
    pub closed spec fn queue_seq(&self) -> Seq<Track> {
        self.queue@
    }

    pub closed spec fn cursor(&self) -> int {
        self.current_index as int
    }

    pub closed spec fn current_spec(&self) -> Option<Track> {
        self.current_track
    }

    pub closed spec fn state_spec(&self) -> PlayerState {
        self.state
    }

    /// The plan of the pending transition, if one is pending.
    pub closed spec fn pending_plan_is(&self, p: Option<Plan>) -> bool {
        match (self.pending, p) {
            (None, None) => true,
            (Some(t), Some(p)) => t.matches_plan(p),
            _ => false,
        }
    }

    pub closed spec fn has_pending(&self) -> bool {
        self.pending is Some
    }

    pub closed spec fn wf(&self) -> bool {
        &&& consistent(self.queue@, self.current_index as int, self.current_track)
        &&& self.pending matches Some(t) ==> consistent(self.queue@, t.index as int, t.track)
    }

    /// An empty queue, the cursor at its start, no track, `Stop`.
    pub fn new() -> (r: Player)
        ensures
            r.wf(),
            r.queue_seq() == Seq::<Track>::empty(),
            r.cursor() == 0,
            r.current_spec() is None,
            r.state_spec() == PlayerState::Stop,
            !r.has_pending(),
    {
        Player {
            queue: Vec::new(),
            current_index: 0,
            current_track: None,
            state: PlayerState::Stop,
            pending: None,
        }
    }

    /// Appends one track to the end of the queue.
    pub fn queue_single(&mut self, track: &Track)
        requires
            old(self).wf(),
        ensures
            final(self).wf(),
            final(self).queue_seq() == old(self).queue_seq().push(*track),
            final(self).cursor() == old(self).cursor(),
            final(self).current_spec() == old(self).current_spec(),
            final(self).state_spec() == old(self).state_spec(),
            final(self).pending_plan_is(None) == old(self).pending_plan_is(None),
            forall|p: Plan| final(self).pending_plan_is(Some(p)) == old(self).pending_plan_is(Some(p)),
    {
        self.queue.push(track.duplicate());
    }

    /// Appends the tracks, in their order, to the end of the queue.
    pub fn queue_multiple(&mut self, tracks: &[Track])
        requires
            old(self).wf(),
        ensures
            final(self).wf(),
            final(self).queue_seq() == old(self).queue_seq() + tracks@,
            final(self).cursor() == old(self).cursor(),
            final(self).current_spec() == old(self).current_spec(),
            final(self).state_spec() == old(self).state_spec(),
            final(self).pending_plan_is(None) == old(self).pending_plan_is(None),
            forall|p: Plan| final(self).pending_plan_is(Some(p)) == old(self).pending_plan_is(Some(p)),
    {
        let ghost start = self.queue@;
        let mut i: usize = 0;
        while i < tracks.len()
            invariant
                0 <= i <= tracks@.len(),
                self.queue@ == start + tracks@.subrange(0, i as int),
                self.current_index == old(self).current_index,
                self.current_track == old(self).current_track,
                self.state == old(self).state,
                self.pending == old(self).pending,
                start == old(self).queue@,
                old(self).wf(),
            decreases tracks@.len() - i,
        {
            self.queue.push(tracks[i].duplicate());
            i = i + 1;
            assert(self.queue@ =~= start + tracks@.subrange(0, i as int));
        }
        assert(tracks@.subrange(0, tracks@.len() as int) =~= tracks@);
        assert(self.queue@.subrange(0, start.len() as int) =~= start);
    }

    /// Inserts a track right after the cursor, so that it plays next; where
    /// the cursor is at or past the last track it goes to the end. Any pending
    /// transition is dropped, as the positions it refers to may have moved.
    pub fn queue_next(&mut self, track: &Track)
        requires
            old(self).wf(),
        ensures
            final(self).wf(),
            final(self).queue_seq() == inserted_next(old(self).queue_seq(), old(self).cursor(), *track),
            final(self).cursor() == old(self).cursor(),
            final(self).current_spec() == old(self).current_spec(),
            final(self).state_spec() == old(self).state_spec(),
            !final(self).has_pending(),
    {
        let len = self.queue.len();
        if self.current_index < len {
            self.queue.insert(self.current_index + 1, track.duplicate());
        } else {
            self.queue.push(track.duplicate());
        }
        self.pending = None;
    }

    /// A copy of the queue.
    pub fn get_queue(&self) -> (r: Vec<Track>)
        ensures
            r@ == self.queue_seq(),
    {
        let mut r: Vec<Track> = Vec::new();
        let mut i: usize = 0;
        while i < self.queue.len()
            invariant
                0 <= i <= self.queue@.len(),
                r@ == self.queue@.subrange(0, i as int),
            decreases self.queue@.len() - i,
        {
            r.push(self.queue[i].duplicate());
            i = i + 1;
            assert(r@ =~= self.queue@.subrange(0, i as int));
        }
        assert(self.queue@.subrange(0, self.queue@.len() as int) =~= self.queue@);
        r
    }

    /// Empties the queue. The cursor stays where it was; the current track
    /// becomes absent and any pending transition is dropped.
    pub fn clear_queue(&mut self)
        requires
            old(self).wf(),
        ensures
            final(self).wf(),
            final(self).queue_seq() == Seq::<Track>::empty(),
            final(self).cursor() == old(self).cursor(),
            final(self).current_spec() is None,
            final(self).state_spec() == old(self).state_spec(),
            !final(self).has_pending(),
    {
        self.queue = Vec::new();
        self.current_track = None;
        self.pending = None;
    }

    /// A copy of the current track.
    pub fn current(&self) -> (r: Option<Track>)
        ensures
            r == self.current_spec(),
    {
        copy_option(&self.current_track)
    }

    pub fn current_index(&self) -> (r: usize)
        ensures
            r as int == self.cursor(),
    {
        self.current_index
    }

    pub fn state(&self) -> (r: PlayerState)
        ensures
            r == self.state_spec(),
    {
        self.state
    }

    pub fn has_pending_transition(&self) -> (r: bool)
        ensures
            r == self.has_pending(),
    {
        self.pending.is_some()
    }

    /// Plans `set_state(s)`: returns the pipeline steps to run and keeps the
    /// transition pending. `Play` with the cursor off the queue is refused,
    /// and then nothing is pending.
    pub fn set_state(&mut self, s: PlayerState) -> (r: Result<Vec<PipelineStep>, PlayerError>)
        requires
            old(self).wf(),
        ensures
            final(self).wf(),
            final(self).queue_seq() == old(self).queue_seq(),
            final(self).cursor() == old(self).cursor(),
            final(self).current_spec() == old(self).current_spec(),
            final(self).state_spec() == old(self).state_spec(),
            ({
                let plan = enter_plan(
                    old(self).queue_seq(),
                    old(self).cursor(),
                    old(self).current_spec(),
                    old(self).state_spec(),
                    s,
                );
                &&& final(self).pending_plan_is(plan)
                &&& plan matches Some(p) ==> r matches Ok(steps) && steps@ == p.steps
                &&& plan is Some <==> final(self).has_pending()
                &&& plan is None ==> r == Err::<Vec<PipelineStep>, PlayerError>(
                    PlayerError::OutOfRange {
                        index: old(self).cursor() as usize,
                        len: old(self).queue_seq().len() as usize,
                    },
                )
            }),
    {
        let ghost plan = enter_plan(self.queue@, self.current_index as int, self.current_track, self.state, s);
        let i = self.current_index;
        match s {
            PlayerState::Play => {
                let len = self.queue.len();
                if i >= len {
                    self.pending = None;
                    return Err(PlayerError::OutOfRange { index: i, len });
                }
                if self.state != PlayerState::Stop && self.current_track.is_some() {
                    let mut steps: Vec<PipelineStep> = Vec::new();
                    steps.push(PipelineStep::SetState(PipelineState::Playing));
                    let mut events: Vec<PlayerEvent> = Vec::new();
                    events.push(PlayerEvent::StateChanged(PlayerState::Play));
                    assert(steps@ =~= plan.unwrap().steps);
                    assert(events@ =~= plan.unwrap().events);
                    self.pending = Some(Transition {
                        state: PlayerState::Play,
                        index: i,
                        track: copy_option(&self.current_track),
                        events,
                    });
                    Ok(steps)
                } else {
                    let t = &self.queue[i];
                    let steps = select_step_vec(t, PlayerState::Play);
                    let mut events: Vec<PlayerEvent> = Vec::new();
                    events.push(PlayerEvent::StateChanged(PlayerState::Play));
                    events.push(PlayerEvent::TrackChanged(t.duplicate()));
                    assert(events@ =~= plan.unwrap().events);
                    self.pending = Some(Transition {
                        state: PlayerState::Play,
                        index: i,
                        track: Some(t.duplicate()),
                        events,
                    });
                    Ok(steps)
                }
            },
            PlayerState::Pause => {
                let mut steps: Vec<PipelineStep> = Vec::new();
                steps.push(PipelineStep::SetState(PipelineState::Paused));
                let mut events: Vec<PlayerEvent> = Vec::new();
                events.push(PlayerEvent::StateChanged(PlayerState::Pause));
                assert(steps@ =~= plan.unwrap().steps);
                assert(events@ =~= plan.unwrap().events);
                self.pending = Some(Transition {
                    state: PlayerState::Pause,
                    index: i,
                    track: copy_option(&self.current_track),
                    events,
                });
                Ok(steps)
            },
            PlayerState::Stop => {
                let (steps, t) = stop_transition(i, &self.current_track);
                self.pending = Some(t);
                Ok(steps)
            },
        }
    }

    /// Plans an advance to the next track and keeps it pending; the flag tells
    /// whether a track is selected. Past the last track it plans `Stop`
    /// instead, with no track to go on to.
    pub fn next(&mut self) -> (r: (Vec<PipelineStep>, bool))
        requires
            old(self).wf(),
        ensures
            final(self).wf(),
            final(self).queue_seq() == old(self).queue_seq(),
            final(self).cursor() == old(self).cursor(),
            final(self).current_spec() == old(self).current_spec(),
            final(self).state_spec() == old(self).state_spec(),
            ({
                let plan = advance_plan(
                    old(self).queue_seq(),
                    old(self).cursor(),
                    old(self).current_spec(),
                    old(self).state_spec(),
                );
                &&& final(self).pending_plan_is(Some(plan))
                &&& final(self).has_pending()
                &&& r.0@ == plan.steps
                &&& r.1 == plan.selects
            }),
    {
        let i = self.current_index;
        let len = self.queue.len();
        let (steps, t, selects) = if i >= len {
            let (steps, t) = stop_transition(i, &self.current_track);
            (steps, t, false)
        } else if i + 1 < len {
            let (steps, t) = select_transition(&self.queue[i + 1], i + 1, self.state);
            (steps, t, true)
        } else {
            let (steps, t) = stop_transition(i + 1, &None);
            (steps, t, false)
        };
        self.pending = Some(t);
        (steps, selects)
    }

    /// Plans a retreat to the previous track and keeps it pending; the flag
    /// tells whether a track is selected. At the start of the queue it plans
    /// `Stop` instead, with no track to go back to.
    pub fn prev(&mut self) -> (r: (Vec<PipelineStep>, bool))
        requires
            old(self).wf(),
        ensures
            final(self).wf(),
            final(self).queue_seq() == old(self).queue_seq(),
            final(self).cursor() == old(self).cursor(),
            final(self).current_spec() == old(self).current_spec(),
            final(self).state_spec() == old(self).state_spec(),
            ({
                let plan = retreat_plan(
                    old(self).queue_seq(),
                    old(self).cursor(),
                    old(self).current_spec(),
                    old(self).state_spec(),
                );
                &&& final(self).pending_plan_is(Some(plan))
                &&& final(self).has_pending()
                &&& r.0@ == plan.steps
                &&& r.1 == plan.selects
            }),
    {
        let i = self.current_index;
        let len = self.queue.len();
        let (steps, t, selects) = if i == 0 {
            let (steps, t) = stop_transition(i, &self.current_track);
            (steps, t, false)
        } else if i - 1 < len {
            let (steps, t) = select_transition(&self.queue[i - 1], i - 1, self.state);
            (steps, t, true)
        } else {
            let (steps, t) = stop_transition(i - 1, &None);
            (steps, t, false)
        };
        self.pending = Some(t);
        (steps, selects)
    }

    /// Ends the pending transition. Where the pipeline took every step, the
    /// new state, cursor and current track take effect and the events to
    /// announce are returned; otherwise nothing changes. Either way nothing
    /// is pending afterwards.
    pub fn commit(&mut self, pipeline_ok: bool) -> (r: Result<Vec<PlayerEvent>, PlayerError>)
        requires
            old(self).wf(),
        ensures
            final(self).wf(),
            !final(self).has_pending(),
            final(self).queue_seq() == old(self).queue_seq(),
            !old(self).has_pending() ==> {
                &&& r == Err::<Vec<PlayerEvent>, PlayerError>(PlayerError::NothingPending)
                &&& final(self).cursor() == old(self).cursor()
                &&& final(self).current_spec() == old(self).current_spec()
                &&& final(self).state_spec() == old(self).state_spec()
            },
            old(self).has_pending() && !pipeline_ok ==> {
                &&& r == Err::<Vec<PlayerEvent>, PlayerError>(PlayerError::PipelineRefused)
                &&& final(self).cursor() == old(self).cursor()
                &&& final(self).current_spec() == old(self).current_spec()
                &&& final(self).state_spec() == old(self).state_spec()
            },
            forall|p: Plan| #[trigger] old(self).pending_plan_is(Some(p)) && pipeline_ok ==> {
                &&& r matches Ok(events) && events@ == p.events
                &&& final(self).cursor() == p.index
                &&& final(self).current_spec() == p.track
                &&& final(self).state_spec() == p.state
            },
    {
        let pending = self.pending.take();
        match pending {
            None => Err(PlayerError::NothingPending),
            Some(t) => {
                if !pipeline_ok {
                    return Err(PlayerError::PipelineRefused);
                }
                self.state = t.state;
                self.current_index = t.index;
                self.current_track = t.track;
                Ok(t.events)
            },
        }
    }
}

} // verus!
