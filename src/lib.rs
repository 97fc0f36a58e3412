//! Playback-control core for an audio player: a track queue with a cursor,
//! the Play/Pause/Stop state machine, the snapshot boards and event channel
//! through which other threads follow it, and the decisions of the bus
//! watcher. Each transition is planned first, as a list of steps for the
//! media pipeline; the caller runs them and the transition takes effect only
//! once the pipeline has taken them all.

pub mod model;
pub mod player;
pub mod watcher;
pub mod laws;
pub mod publish;

pub use model::{Track, PlayerState, PlayerEvent, PipelineState, PipelineStep, PlayerError, pipeline_state_for};
pub use player::{Player, Plan};
pub use watcher::{BusMessage, WatcherAction, watcher_action, after_advance};
pub use publish::{Snapshots, Snapshot, EventBus, Publication, commit_and_announce};
