use vstd::prelude::*;
use crate::model::PlayerError;

verus! {

/// A message popped from the pipeline's bus, reduced to what the watcher
/// decides on.
#[derive(Clone, Debug, PartialEq, Eq)]
pub enum BusMessage {
    EndOfStream,
    Error { source_path: String, error: String, debug: Option<String> },
    Other,
}

/// What the watcher does after one poll of the bus.
#[derive(Clone, Debug, PartialEq, Eq)]
pub enum WatcherAction {
    /// Nothing to do: poll again.
    Continue,
    /// The track ended: advance the queue.
    Advance,
    /// The pipeline failed: report where and why, and stop watching.
    Fail { source_path: String, error: String, debug: Option<String> },
    /// An advance failed: stop watching, with the player's error.
    Halt(PlayerError),
}

/// The watcher's decision on the outcome of one poll (`None`: no message).
pub fn watcher_action(msg: Option<BusMessage>) -> (r: WatcherAction)
    ensures
        msg is None ==> r == WatcherAction::Continue,
        msg == Some(BusMessage::Other) ==> r == WatcherAction::Continue,
        msg == Some(BusMessage::EndOfStream) ==> r == WatcherAction::Advance,
        msg matches Some(BusMessage::Error { source_path, error, debug })
            ==> r == (WatcherAction::Fail { source_path, error, debug }),
{
    match msg {
        None => WatcherAction::Continue,
        Some(BusMessage::EndOfStream) => WatcherAction::Advance,
        Some(BusMessage::Error { source_path, error, debug }) => WatcherAction::Fail { source_path, error, debug },
        Some(BusMessage::Other) => WatcherAction::Continue,
    }
}

/// The watcher's decision once an advance it asked for has ended: go on
/// polling where it succeeded, stop where it failed.
pub fn after_advance(outcome: Result<(), PlayerError>) -> (r: WatcherAction)
    ensures
        outcome is Ok ==> r == WatcherAction::Continue,
        outcome matches Err(e) ==> r == WatcherAction::Halt(e),
{
    match outcome {
        Ok(()) => WatcherAction::Continue,
        Err(e) => WatcherAction::Halt(e),
    }
}

} // verus!
