use scale_bridge::session::{
    classify, classify_value, decide, on_frame, Frame, Inbound, Session, SessionAction,
    SessionEvent,
};

fn json(text: &str) -> serde_json::Value {
    serde_json::from_str(text).unwrap()
}

#[test]
fn command_with_a_string_is_carried_out() {
    assert_eq!(classify("{\"cmd\": \"tare\"}"), Inbound::Command("tare".to_string()));
    assert_eq!(classify("{\"cmd\":\"\"}"), Inbound::Command(String::new()));
    assert_eq!(
        classify(" { \"other\": 1, \"cmd\": \"read_gross\" } "),
        Inbound::Command("read_gross".to_string())
    );
}

#[test]
fn command_text_is_read_as_json_spells_it() {
    assert_eq!(classify("{\"cmd\":\"ta\\u0072e\"}"), Inbound::Command("tare".to_string()));
    assert_eq!(classify("{\"cmd\":\"a\\nb\"}"), Inbound::Command("a\nb".to_string()));
    assert_eq!(classify("{\"c\\u006dd\":\"zero\"}"), Inbound::Command("zero".to_string()));
}

#[test]
fn ping_is_passed_over() {
    assert_eq!(classify("{\"ping\": true}"), Inbound::Ignore);
    assert_eq!(classify("{\"ping\": false}"), Inbound::Ignore);
    assert_eq!(classify("{\"ping\": null}"), Inbound::Ignore);
    assert_eq!(classify("{\"ping\": true, \"cmd\": \"tare\"}"), Inbound::Ignore);
    assert_eq!(classify("{\"cmd\": \"tare\", \"ping\": 1}"), Inbound::Ignore);
}

#[test]
fn other_json_is_dropped() {
    for text in [
        "{}",
        "{\"cmd\": 5}",
        "{\"cmd\": null}",
        "{\"cmd\": [\"tare\"]}",
        "{\"cmd\": {\"name\": \"tare\"}}",
        "{\"command\": \"tare\"}",
        "{\"CMD\": \"tare\"}",
        "[\"cmd\", \"tare\"]",
        "\"cmd\"",
        "\"ping\"",
        "42",
        "null",
        "true",
    ] {
        assert_eq!(classify(text), Inbound::Discard, "{}", text);
    }
}

#[test]
fn text_that_is_no_json_is_dropped() {
    for text in ["", "tare", "{cmd: tare}", "{\"cmd\": \"tare\"", "{\"cmd\": \"tare\"} x", "{'cmd':'tare'}"] {
        assert_eq!(classify(text), Inbound::Discard, "{}", text);
    }
}

#[test]
fn json_values_are_classified_by_their_members() {
    assert_eq!(classify_value(&json("{\"cmd\":\"zero\"}")), Inbound::Command("zero".to_string()));
    assert_eq!(classify_value(&json("{\"ping\":true,\"cmd\":\"zero\"}")), Inbound::Ignore);
    assert_eq!(classify_value(&json("{\"cmd\":true}")), Inbound::Discard);
    assert_eq!(classify_value(&json("[1,2]")), Inbound::Discard);
    assert_eq!(classify_value(&serde_json::Value::Null), Inbound::Discard);
    assert_eq!(
        classify_value(&serde_json::Value::String("cmd".to_string())),
        Inbound::Discard
    );
}

#[test]
fn decision_puts_ping_first() {
    assert_eq!(decide(true, None), Inbound::Ignore);
    assert_eq!(decide(true, Some("tare".to_string())), Inbound::Ignore);
    assert_eq!(decide(false, Some("tare".to_string())), Inbound::Command("tare".to_string()));
    assert_eq!(decide(false, None), Inbound::Discard);
}

#[test]
fn frames_that_are_no_text_are_passed_over() {
    assert_eq!(on_frame(&Frame::Binary), Inbound::Ignore);
    assert_eq!(on_frame(&Frame::Ping), Inbound::Ignore);
    assert_eq!(on_frame(&Frame::Pong), Inbound::Ignore);
    assert_eq!(on_frame(&Frame::Close), Inbound::Close);
    assert_eq!(
        on_frame(&Frame::Text("{\"cmd\":\"tare\"}".to_string())),
        Inbound::Command("tare".to_string())
    );
    assert_eq!(on_frame(&Frame::Text("close".to_string())), Inbound::Discard);
}

#[test]
fn open_session_acts_on_what_it_receives() {
    let mut session = Session::new();
    assert!(session.is_open());
    assert_eq!(session.handle(SessionEvent::Received(Inbound::Ignore)), SessionAction::Nothing);
    assert_eq!(
        session.handle(SessionEvent::Received(Inbound::Command("tare".to_string()))),
        SessionAction::Dispatch("tare".to_string())
    );
    assert_eq!(session.handle(SessionEvent::Received(Inbound::Discard)), SessionAction::Discard);
    assert!(session.is_open());
}

#[test]
fn close_frame_tears_the_session_down_once() {
    let mut session = Session::new();
    assert_eq!(session.handle(SessionEvent::Received(Inbound::Close)), SessionAction::Teardown);
    assert!(!session.is_open());
    assert_eq!(session.handle(SessionEvent::Received(Inbound::Close)), SessionAction::Nothing);
    assert_eq!(session.handle(SessionEvent::RelayFailed), SessionAction::Nothing);
    assert_eq!(
        session.handle(SessionEvent::Received(Inbound::Command("tare".to_string()))),
        SessionAction::Nothing
    );
    assert!(!session.is_open());
}

#[test]
fn either_duty_that_fails_tears_the_session_down() {
    let mut session = Session::new();
    assert_eq!(session.handle(SessionEvent::RelayFailed), SessionAction::Teardown);
    assert_eq!(session.handle(SessionEvent::ReadFailed), SessionAction::Nothing);
    let mut session = Session::new();
    assert_eq!(session.handle(SessionEvent::ReadFailed), SessionAction::Teardown);
    assert_eq!(session.handle(SessionEvent::RelayFailed), SessionAction::Nothing);
}
