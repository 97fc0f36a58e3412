use vstd::prelude::*;

verus! {

/// A playable item: an identifier, a stream locator and a title.
#[derive(Clone, Debug, PartialEq, Eq)]
pub struct Track {
    pub id: u64,
    pub title: String,
    pub stream_url: String,
}

impl Track {
    pub fn new(id: u64, title: String, stream_url: String) -> (r: Track)
        ensures
            r.id == id,
            r.title == title,
            r.stream_url == stream_url,
    {
        Track { id, title, stream_url }
    }

    /// A field-by-field copy, equal to `self`.
    pub fn duplicate(&self) -> (r: Track)
        ensures
            r == *self,
    {
        Track { id: self.id, title: self.title.clone(), stream_url: self.stream_url.clone() }
    }
}

/// The state of the player as seen by its users.
#[derive(Clone, Copy, Debug, PartialEq, Eq, Structural)]
pub enum PlayerState {
    Play,
    Pause,
    Stop,
}

/// A notification for observers of the player.
#[derive(Clone, Debug, PartialEq, Eq)]
pub enum PlayerEvent {
    TrackChanged(Track),
    StateChanged(PlayerState),
}

/// The gross state that the media pipeline is asked to enter.
#[derive(Clone, Copy, Debug, PartialEq, Eq, Structural)]
pub enum PipelineState {
    Null,
    Paused,
    Playing,
}

/// One request to the media pipeline. The caller runs them in order and
/// stops at the first one the pipeline refuses.
#[derive(Clone, Debug, PartialEq, Eq)]
pub enum PipelineStep {
    SetState(PipelineState),
    SetSource(String),
}

/// Why an operation of the player did not take effect.
#[derive(Clone, Copy, Debug, PartialEq, Eq, Structural)]
pub enum PlayerError {
    /// `Play` was requested while the cursor is not on a track of the queue.
    OutOfRange { index: usize, len: usize },
    /// The pipeline refused one of the steps of the pending transition.
    PipelineRefused,
    /// A commit came with no transition pending.
    NothingPending,
}

/// The pipeline state that corresponds to a player state.
pub open spec fn pipeline_state_spec(s: PlayerState) -> PipelineState {
    match s {
        PlayerState::Play => PipelineState::Playing,
        PlayerState::Pause => PipelineState::Paused,
        PlayerState::Stop => PipelineState::Null,
    }
}

pub fn pipeline_state_for(s: PlayerState) -> (r: PipelineState)
    ensures
        r == pipeline_state_spec(s),
{
    match s {
        PlayerState::Play => PipelineState::Playing,
        PlayerState::Pause => PipelineState::Paused,
        PlayerState::Stop => PipelineState::Null,
    }
}

} // verus!
