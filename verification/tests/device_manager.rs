use scale_bridge::device::{
    step, ConnectionManager, LinkAction, LinkEvent, LinkState, CONNECT_BACKOFF_MS,
    RECONNECT_BACKOFF_MS,
};
use scale_bridge::reading::{event_for_line, LineEvent};

#[test]
fn device_that_closes_at_once_is_connected_to_again() {
    let mut manager = ConnectionManager::new();
    assert_eq!(manager.state(), LinkState::Disconnected);
    assert_eq!(manager.handle(LinkEvent::RetryDue), LinkAction::Connect);
    assert_eq!(manager.handle(LinkEvent::ConnectSucceeded), LinkAction::ShareWriter);
    assert!(manager.is_connected());
    assert_eq!(manager.handle(LinkEvent::StreamEnded), LinkAction::DropWriterAndWait(2000));
    assert_eq!(manager.state(), LinkState::Disconnected);
    assert!(!manager.is_connected());
    assert_eq!(manager.handle(LinkEvent::RetryDue), LinkAction::Connect);
    assert_eq!(manager.state(), LinkState::Connecting);
}

#[test]
fn unreachable_device_is_tried_again_and_again() {
    let mut manager = ConnectionManager::new();
    for _ in 0..100 {
        assert_eq!(manager.handle(LinkEvent::RetryDue), LinkAction::Connect);
        assert_eq!(manager.state(), LinkState::Connecting);
        assert_eq!(manager.handle(LinkEvent::ConnectFailed), LinkAction::Wait(3000));
        assert_eq!(manager.state(), LinkState::Disconnected);
    }
}

#[test]
fn backoff_times_are_three_and_two_seconds() {
    assert_eq!(CONNECT_BACKOFF_MS, 3000);
    assert_eq!(RECONNECT_BACKOFF_MS, 2000);
}

#[test]
fn every_line_is_published_while_connected() {
    let mut manager = ConnectionManager::new();
    manager.handle(LinkEvent::RetryDue);
    manager.handle(LinkEvent::ConnectSucceeded);
    let action = manager.handle(LinkEvent::Line("81050026:    426 kg G".to_string()));
    assert_eq!(action, LinkAction::Publish(event_for_line("81050026:    426 kg G")));
    match action {
        LinkAction::Publish(LineEvent::Reading(reading)) => {
            assert_eq!(reading.weight().to_text(), "426");
            assert_eq!(reading.raw(), "426 kg G");
        }
        _ => panic!("a reading was expected"),
    }
    match manager.handle(LinkEvent::Line("hello world".to_string())) {
        LinkAction::Publish(LineEvent::Raw(line)) => assert_eq!(line.raw(), "hello world"),
        _ => panic!("a raw line was expected"),
    }
    assert_eq!(manager.state(), LinkState::Connected);
}

#[test]
fn events_out_of_turn_change_nothing() {
    let cases = [
        (LinkState::Disconnected, LinkEvent::ConnectFailed),
        (LinkState::Disconnected, LinkEvent::ConnectSucceeded),
        (LinkState::Disconnected, LinkEvent::Line("1".to_string())),
        (LinkState::Disconnected, LinkEvent::StreamEnded),
        (LinkState::Connecting, LinkEvent::RetryDue),
        (LinkState::Connecting, LinkEvent::Line("1".to_string())),
        (LinkState::Connecting, LinkEvent::StreamEnded),
        (LinkState::Connected, LinkEvent::RetryDue),
        (LinkState::Connected, LinkEvent::ConnectFailed),
        (LinkState::Connected, LinkEvent::ConnectSucceeded),
    ];
    for (state, event) in cases {
        assert_eq!(step(state, event), (state, LinkAction::Nothing));
    }
}

#[test]
fn step_follows_the_table() {
    assert_eq!(
        step(LinkState::Disconnected, LinkEvent::RetryDue),
        (LinkState::Connecting, LinkAction::Connect)
    );
    assert_eq!(
        step(LinkState::Connecting, LinkEvent::ConnectSucceeded),
        (LinkState::Connected, LinkAction::ShareWriter)
    );
    assert_eq!(
        step(LinkState::Connecting, LinkEvent::ConnectFailed),
        (LinkState::Disconnected, LinkAction::Wait(CONNECT_BACKOFF_MS))
    );
    assert_eq!(
        step(LinkState::Connected, LinkEvent::StreamEnded),
        (LinkState::Disconnected, LinkAction::DropWriterAndWait(RECONNECT_BACKOFF_MS))
    );
}
