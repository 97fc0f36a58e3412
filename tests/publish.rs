use rustic_gst_backend::{
    commit_and_announce, EventBus, Player, PlayerError, PlayerEvent, PlayerState, Snapshots, Track,
};

fn track(id: u64) -> Track {
    Track::new(id, format!("title {}", id), format!("file:///music/{}.ogg", id))
}

#[test]
fn snapshots_start_from_player() {
    let mut p = Player::new();
    p.queue_single(&track(1));
    let s = Snapshots::new(&p);
    assert_eq!(s.queue(), vec![track(1)]);
    assert_eq!(s.current(), None);
    assert_eq!(s.state(), PlayerState::Stop);
    let snap = s.read();
    assert_eq!(snap.queue, vec![track(1)]);
    assert_eq!(snap.state, PlayerState::Stop);
}

#[test]
fn snapshots_follow_posts() {
    let mut p = Player::new();
    let s = Snapshots::new(&p);
    let mut bus = EventBus::new();
    p.queue_multiple(&[track(1), track(2)]);
    bus.post(&s, &p);
    assert_eq!(s.queue(), vec![track(1), track(2)]);
    assert_eq!(s.state(), PlayerState::Stop);
    p.set_state(PlayerState::Play).unwrap();
    p.commit(true).unwrap();
    bus.post(&s, &p);
    assert_eq!(s.current(), Some(track(1)));
    assert_eq!(s.state(), PlayerState::Play);
    let mut copy = s.queue();
    copy.clear();
    assert_eq!(s.queue().len(), 2);
}

#[test]
fn events_arrive_in_order() {
    let mut bus = EventBus::new();
    let rx = bus.observe();
    bus.announce(vec![
        PlayerEvent::StateChanged(PlayerState::Play),
        PlayerEvent::TrackChanged(track(1)),
    ]);
    bus.send(PlayerEvent::StateChanged(PlayerState::Stop));
    assert_eq!(rx.try_recv().unwrap(), PlayerEvent::StateChanged(PlayerState::Play));
    assert_eq!(rx.try_recv().unwrap(), PlayerEvent::TrackChanged(track(1)));
    assert_eq!(rx.try_recv().unwrap(), PlayerEvent::StateChanged(PlayerState::Stop));
    assert!(rx.try_recv().is_err());
}

#[test]
fn empty_announcement_sends_nothing() {
    let mut bus = EventBus::new();
    let rx = bus.observe();
    bus.announce(Vec::new());
    assert!(rx.try_recv().is_err());
}

#[test]
fn commit_publishes_then_announces() {
    let mut p = Player::new();
    p.queue_multiple(&[track(1), track(2), track(3)]);
    let s = Snapshots::new(&p);
    let mut bus = EventBus::new();
    let rx = bus.observe();
    p.set_state(PlayerState::Play).unwrap();
    assert_eq!(commit_and_announce(&mut p, true, &s, &mut bus), Ok(()));
    let first = rx.try_recv().unwrap();
    assert_eq!(first, PlayerEvent::StateChanged(PlayerState::Play));
    assert_eq!(s.state(), PlayerState::Play);
    let second = rx.try_recv().unwrap();
    assert_eq!(second, PlayerEvent::TrackChanged(track(1)));
    assert_eq!(s.current(), Some(track(1)));
    assert!(rx.try_recv().is_err());

    p.next();
    assert_eq!(commit_and_announce(&mut p, true, &s, &mut bus), Ok(()));
    let received: Vec<PlayerEvent> = rx.try_iter().collect();
    assert_eq!(received, vec![PlayerEvent::TrackChanged(track(2))]);
    assert_eq!(s.current(), Some(track(2)));
}

#[test]
fn refused_commit_publishes_nothing() {
    let mut p = Player::new();
    p.queue_single(&track(1));
    let s = Snapshots::new(&p);
    let mut bus = EventBus::new();
    let rx = bus.observe();
    p.set_state(PlayerState::Play).unwrap();
    assert_eq!(
        commit_and_announce(&mut p, false, &s, &mut bus),
        Err(PlayerError::PipelineRefused)
    );
    assert_eq!(s.state(), PlayerState::Stop);
    assert!(rx.try_recv().is_err());
    assert_eq!(
        commit_and_announce(&mut p, true, &s, &mut bus),
        Err(PlayerError::NothingPending)
    );
}
