use kitchune::model::Model;
use kitchune::poll::{poll_step, PollAction, PollEvent, PollPhase, POLL_INTERVAL_MS};

fn track() -> Model {
    Model {
        track_name: "Because Of You".to_string(),
        track_artist: "S.P.Y, Etherwood".to_string(),
        playing: true,
        saved: false,
    }
}

#[test]
fn three_failures_then_success_deliver_one_model() {
    let mut events = Vec::new();
    for _ in 0..3 {
        events.push(PollEvent::FetchFailed);
        events.push(PollEvent::TimedOut);
    }
    events.push(PollEvent::Fetched(track()));
    let mut phase = PollPhase::Fetching;
    let mut delivered = Vec::new();
    let mut exits = 0;
    for e in events {
        let (p, a) = poll_step(phase, e);
        phase = p;
        match a {
            PollAction::Deliver(m) => delivered.push(m),
            PollAction::Exit => exits += 1,
            _ => {}
        }
        assert_ne!(phase, PollPhase::Stopped);
    }
    assert_eq!(delivered.len(), 1);
    assert_eq!(delivered[0].track_name, "Because Of You");
    assert_eq!(exits, 0);
    assert_eq!(phase, PollPhase::Waiting);
}

#[test]
fn failure_leads_to_wait_then_fetch() {
    let (p, a) = poll_step(PollPhase::Fetching, PollEvent::FetchFailed);
    assert_eq!(p, PollPhase::Waiting);
    assert!(matches!(a, PollAction::Wait));
    let (p, a) = poll_step(p, PollEvent::TimedOut);
    assert_eq!(p, PollPhase::Fetching);
    assert!(matches!(a, PollAction::Fetch));
}

#[test]
fn shutdown_stops_and_nothing_is_sent_after() {
    let (p, a) = poll_step(PollPhase::Waiting, PollEvent::ShutdownRequested);
    assert_eq!(p, PollPhase::Stopped);
    assert!(matches!(a, PollAction::Exit));
    let (p2, a2) = poll_step(p, PollEvent::Fetched(track()));
    assert_eq!(p2, PollPhase::Stopped);
    assert!(matches!(a2, PollAction::Exit));
    let (p3, a3) = poll_step(p2, PollEvent::TimedOut);
    assert_eq!(p3, PollPhase::Stopped);
    assert!(matches!(a3, PollAction::Exit));
}

#[test]
fn closed_shutdown_channel_stops() {
    let (p, a) = poll_step(PollPhase::Waiting, PollEvent::ShutdownClosed);
    assert_eq!(p, PollPhase::Stopped);
    assert!(matches!(a, PollAction::Exit));
}

#[test]
fn unexpected_events_repeat_the_phase_action() {
    let (p, a) = poll_step(PollPhase::Fetching, PollEvent::TimedOut);
    assert_eq!(p, PollPhase::Fetching);
    assert!(matches!(a, PollAction::Fetch));
    let (p, a) = poll_step(PollPhase::Waiting, PollEvent::FetchFailed);
    assert_eq!(p, PollPhase::Waiting);
    assert!(matches!(a, PollAction::Wait));
}

#[test]
fn poll_interval_is_one_second() {
    assert_eq!(POLL_INTERVAL_MS, 1000);
}
