use rustic_gst_backend::{
    pipeline_state_for, PipelineState, PipelineStep, Player, PlayerError, PlayerEvent, PlayerState,
    Track,
};

fn track(id: u64) -> Track {
    Track::new(id, format!("title {}", id), format!("file:///music/{}.ogg", id))
}

fn select(id: u64, st: PipelineState) -> Vec<PipelineStep> {
    vec![
        PipelineStep::SetState(PipelineState::Null),
        PipelineStep::SetSource(format!("file:///music/{}.ogg", id)),
        PipelineStep::SetState(st),
    ]
}

fn stop_steps() -> Vec<PipelineStep> {
    vec![PipelineStep::SetState(PipelineState::Null)]
}

fn player_with(ids: &[u64]) -> Player {
    let mut p = Player::new();
    for id in ids {
        p.queue_single(&track(*id));
    }
    p
}

#[test]
fn new_player_is_empty_and_stopped() {
    let p = Player::new();
    assert!(p.get_queue().is_empty());
    assert_eq!(p.current_index(), 0);
    assert_eq!(p.current(), None);
    assert_eq!(p.state(), PlayerState::Stop);
    assert!(!p.has_pending_transition());
}

#[test]
fn enqueue_keeps_submission_order() {
    let mut p = Player::new();
    p.queue_single(&track(1));
    p.queue_multiple(&[track(2), track(3)]);
    p.queue_single(&track(4));
    p.queue_multiple(&[]);
    p.queue_multiple(&[track(5)]);
    let q = p.get_queue();
    assert_eq!(q.len(), 5);
    assert_eq!(q, vec![track(1), track(2), track(3), track(4), track(5)]);
}

#[test]
fn get_queue_is_a_copy() {
    let p = player_with(&[1, 2]);
    let mut q = p.get_queue();
    q.clear();
    assert_eq!(p.get_queue(), vec![track(1), track(2)]);
}

#[test]
fn queue_next_inserts_after_cursor() {
    let mut p = player_with(&[1, 2, 3]);
    p.queue_next(&track(10));
    assert_eq!(p.get_queue(), vec![track(1), track(10), track(2), track(3)]);
    p.queue_next(&track(11));
    assert_eq!(p.get_queue(), vec![track(1), track(11), track(10), track(2), track(3)]);
}

#[test]
fn queue_next_keeps_tracks_up_to_cursor() {
    let mut p = player_with(&[1, 2, 3]);
    p.set_state(PlayerState::Play).unwrap();
    p.commit(true).unwrap();
    p.next();
    p.commit(true).unwrap();
    assert_eq!(p.current_index(), 1);
    p.queue_next(&track(9));
    assert_eq!(p.get_queue(), vec![track(1), track(2), track(9), track(3)]);
    assert_eq!(p.current(), Some(track(2)));
}

#[test]
fn queue_next_on_empty_queue_appends() {
    let mut p = Player::new();
    p.queue_next(&track(7));
    assert_eq!(p.get_queue(), vec![track(7)]);
}

#[test]
fn queue_next_past_end_appends() {
    let mut p = player_with(&[1, 2]);
    p.clear_queue();
    p.queue_next(&track(3));
    assert_eq!(p.get_queue(), vec![track(3)]);
}

#[test]
fn queue_next_drops_pending_transition() {
    let mut p = player_with(&[1, 2]);
    p.next();
    assert!(p.has_pending_transition());
    p.queue_next(&track(3));
    assert!(!p.has_pending_transition());
    assert_eq!(p.commit(true), Err(PlayerError::NothingPending));
}

#[test]
fn clear_then_current_is_absent() {
    let mut p = player_with(&[1, 2]);
    p.set_state(PlayerState::Play).unwrap();
    p.commit(true).unwrap();
    assert_eq!(p.current(), Some(track(1)));
    p.clear_queue();
    assert_eq!(p.current(), None);
    assert!(p.get_queue().is_empty());
    assert_eq!(p.current_index(), 0);
    assert_eq!(p.state(), PlayerState::Play);
}

#[test]
fn scenario_play_and_advance_to_the_end() {
    let mut p = player_with(&[1, 2, 3]);
    let steps = p.set_state(PlayerState::Play).unwrap();
    assert_eq!(steps, select(1, PipelineState::Playing));
    let events = p.commit(true).unwrap();
    assert_eq!(
        events,
        vec![PlayerEvent::StateChanged(PlayerState::Play), PlayerEvent::TrackChanged(track(1))]
    );
    assert_eq!(p.state(), PlayerState::Play);
    assert_eq!(p.current(), Some(track(1)));

    let (steps, found) = p.next();
    assert!(found);
    assert_eq!(steps, select(2, PipelineState::Playing));
    assert_eq!(p.commit(true).unwrap(), vec![PlayerEvent::TrackChanged(track(2))]);
    assert_eq!(p.current_index(), 1);
    assert_eq!(p.current(), Some(track(2)));

    let (_, found) = p.next();
    assert!(found);
    assert_eq!(p.commit(true).unwrap(), vec![PlayerEvent::TrackChanged(track(3))]);
    assert_eq!(p.current(), Some(track(3)));

    let (steps, found) = p.next();
    assert!(!found);
    assert_eq!(steps, stop_steps());
    assert_eq!(p.commit(true).unwrap(), vec![PlayerEvent::StateChanged(PlayerState::Stop)]);
    assert_eq!(p.current_index(), 3);
    assert_eq!(p.current(), None);
    assert_eq!(p.state(), PlayerState::Stop);

    let (steps, found) = p.next();
    assert!(!found);
    assert_eq!(steps, stop_steps());
    assert_eq!(p.commit(true).unwrap(), vec![PlayerEvent::StateChanged(PlayerState::Stop)]);
    assert_eq!(p.current_index(), 3);
}

#[test]
fn scenario_play_on_empty_queue_fails() {
    let mut p = Player::new();
    assert_eq!(
        p.set_state(PlayerState::Play),
        Err(PlayerError::OutOfRange { index: 0, len: 0 })
    );
    assert!(!p.has_pending_transition());
    assert_eq!(p.commit(true), Err(PlayerError::NothingPending));
    assert_eq!(p.state(), PlayerState::Stop);
    assert_eq!(p.current(), None);
}

#[test]
fn retreat_from_start_stops() {
    let mut p = player_with(&[1, 2]);
    p.set_state(PlayerState::Play).unwrap();
    p.commit(true).unwrap();
    let (steps, found) = p.prev();
    assert!(!found);
    assert_eq!(steps, stop_steps());
    assert_eq!(p.commit(true).unwrap(), vec![PlayerEvent::StateChanged(PlayerState::Stop)]);
    assert_eq!(p.state(), PlayerState::Stop);
    assert_eq!(p.current_index(), 0);
}

#[test]
fn retreat_selects_previous_track() {
    let mut p = player_with(&[1, 2, 3]);
    p.set_state(PlayerState::Play).unwrap();
    p.commit(true).unwrap();
    p.next();
    p.commit(true).unwrap();
    let (steps, found) = p.prev();
    assert!(found);
    assert_eq!(steps, select(1, PipelineState::Playing));
    assert_eq!(p.commit(true).unwrap(), vec![PlayerEvent::TrackChanged(track(1))]);
    assert_eq!(p.current_index(), 0);
    assert_eq!(p.current(), Some(track(1)));
}

#[test]
fn retreat_into_cleared_queue_stops() {
    let mut p = player_with(&[1, 2, 3]);
    p.next();
    p.commit(true).unwrap();
    p.next();
    p.commit(true).unwrap();
    p.clear_queue();
    let (_, found) = p.prev();
    assert!(!found);
    assert_eq!(p.commit(true).unwrap(), vec![PlayerEvent::StateChanged(PlayerState::Stop)]);
    assert_eq!(p.current_index(), 1);
    assert_eq!(p.current(), None);
}

#[test]
fn pause_then_resume() {
    let mut p = player_with(&[1]);
    p.set_state(PlayerState::Play).unwrap();
    p.commit(true).unwrap();
    let steps = p.set_state(PlayerState::Pause).unwrap();
    assert_eq!(steps, vec![PipelineStep::SetState(PipelineState::Paused)]);
    assert_eq!(p.commit(true).unwrap(), vec![PlayerEvent::StateChanged(PlayerState::Pause)]);
    assert_eq!(p.state(), PlayerState::Pause);
    let steps = p.set_state(PlayerState::Play).unwrap();
    assert_eq!(steps, vec![PipelineStep::SetState(PipelineState::Playing)]);
    assert_eq!(p.commit(true).unwrap(), vec![PlayerEvent::StateChanged(PlayerState::Play)]);
    assert_eq!(p.current(), Some(track(1)));
}

#[test]
fn advance_while_paused_keeps_pipeline_paused() {
    let mut p = player_with(&[1, 2]);
    p.set_state(PlayerState::Play).unwrap();
    p.commit(true).unwrap();
    p.set_state(PlayerState::Pause).unwrap();
    p.commit(true).unwrap();
    let (steps, _) = p.next();
    assert_eq!(steps, select(2, PipelineState::Paused));
    p.commit(true).unwrap();
    assert_eq!(p.state(), PlayerState::Pause);
}

#[test]
fn stop_announces_state_once() {
    let mut p = player_with(&[1]);
    p.set_state(PlayerState::Play).unwrap();
    p.commit(true).unwrap();
    let steps = p.set_state(PlayerState::Stop).unwrap();
    assert_eq!(steps, stop_steps());
    let events = p.commit(true).unwrap();
    assert_eq!(events, vec![PlayerEvent::StateChanged(PlayerState::Stop)]);
    assert_eq!(p.current(), Some(track(1)));
    let steps = p.set_state(PlayerState::Play).unwrap();
    assert_eq!(steps, select(1, PipelineState::Playing));
}

#[test]
fn refused_pipeline_changes_nothing() {
    let mut p = player_with(&[1, 2]);
    p.set_state(PlayerState::Play).unwrap();
    assert_eq!(p.commit(false), Err(PlayerError::PipelineRefused));
    assert_eq!(p.state(), PlayerState::Stop);
    assert_eq!(p.current(), None);
    assert!(!p.has_pending_transition());
    p.set_state(PlayerState::Play).unwrap();
    p.commit(true).unwrap();
    p.next();
    assert_eq!(p.commit(false), Err(PlayerError::PipelineRefused));
    assert_eq!(p.current_index(), 0);
    assert_eq!(p.current(), Some(track(1)));
}

#[test]
fn commit_without_transition() {
    let mut p = player_with(&[1]);
    assert_eq!(p.commit(true), Err(PlayerError::NothingPending));
    assert_eq!(p.commit(false), Err(PlayerError::NothingPending));
}

#[test]
fn pipeline_state_matches_player_state() {
    assert_eq!(pipeline_state_for(PlayerState::Play), PipelineState::Playing);
    assert_eq!(pipeline_state_for(PlayerState::Pause), PipelineState::Paused);
    assert_eq!(pipeline_state_for(PlayerState::Stop), PipelineState::Null);
}

#[test]
fn track_duplicate_is_equal() {
    let t = track(42);
    let d = t.duplicate();
    assert_eq!(d, t);
    assert_eq!(d.id, 42);
    assert_eq!(d.stream_url, "file:///music/42.ogg");
}

#[test]
fn queue_next_many_times_keeps_both_ends() {
    let mut p = player_with(&[1, 2, 3]);
    p.next();
    p.commit(true).unwrap();
    for id in 10..14 {
        p.queue_next(&track(id));
    }
    assert_eq!(
        p.get_queue(),
        vec![track(1), track(2), track(13), track(12), track(11), track(10), track(3)]
    );
    assert_eq!(p.current_index(), 1);
}

#[test]
fn refused_play_then_commit_finds_nothing() {
    let mut p = Player::new();
    assert!(p.set_state(PlayerState::Play).is_err());
    assert_eq!(p.commit(true), Err(PlayerError::NothingPending));
}
