use scale_bridge::routing::{
    fallback, republish, route, wire_frame, wire_token, BridgeOutcome, BridgeTarget, DirectOutcome,
    Dispatch, DispatchAction, DispatchEvent, Route,
};

fn target(prefer_bridge: bool) -> BridgeTarget {
    BridgeTarget { url: "http://bridge.local/scalecmd".to_string(), prefer_bridge }
}

#[test]
fn tare_goes_to_the_device_and_never_to_the_bridge() {
    match route("tare", &target(false)) {
        Route::Direct(wire) => {
            assert_eq!(wire, "20120008:8003");
            assert_eq!(wire_frame(&wire), "20120008:8003\n");
        }
        Route::Bridge(_) => panic!("the bridge was not expected"),
    }
    assert_eq!(fallback("tare", DirectOutcome::Written), None);
}

#[test]
fn disconnected_device_sends_the_command_to_the_bridge() {
    match route("read_gross", &target(false)) {
        Route::Direct(wire) => assert_eq!(wire, "20050026:"),
        Route::Bridge(_) => panic!("the device was expected first"),
    }
    let request = fallback("read_gross", DirectOutcome::WriterAbsent).unwrap();
    assert_eq!(request.command(), "read_gross");
    assert_eq!(republish(BridgeOutcome::Failed), None);
}

#[test]
fn failed_write_sends_the_command_to_the_bridge() {
    let request = fallback("zero", DirectOutcome::WriteFailed).unwrap();
    assert_eq!(request.command(), "zero");
}

#[test]
fn every_symbolic_command_has_its_wire_token() {
    assert_eq!(wire_token("read_gross"), Some("20050026:"));
    assert_eq!(wire_token("read_net"), Some("20110027:"));
    assert_eq!(wire_token("tare"), Some("20120008:8003"));
    assert_eq!(wire_token("zero"), Some("21120008:0B"));
}

#[test]
fn other_commands_have_no_wire_token() {
    for command in ["", "TARE", "tare ", " tare", "read", "20120008:8003", "calibrate"] {
        assert_eq!(wire_token(command), None, "{:?}", command);
    }
}

#[test]
fn unknown_command_goes_to_the_bridge_under_its_own_name() {
    match route("calibrate", &target(false)) {
        Route::Bridge(request) => assert_eq!(request.command(), "calibrate"),
        Route::Direct(_) => panic!("the device was not expected"),
    }
}

#[test]
fn preferred_bridge_takes_every_command() {
    for command in ["tare", "zero", "read_gross", "read_net", "calibrate", ""] {
        match route(command, &target(true)) {
            Route::Bridge(request) => assert_eq!(request.command(), command),
            Route::Direct(_) => panic!("the device was not expected"),
        }
    }
}

#[test]
fn bridge_answer_is_passed_on_as_it_came() {
    let body = "  81050026:    426 kg G \r\n".to_string();
    assert_eq!(republish(BridgeOutcome::Replied(body.clone())), Some(body));
    assert_eq!(republish(BridgeOutcome::Replied(String::new())), Some(String::new()));
}

#[test]
fn wire_frame_ends_the_line() {
    assert_eq!(wire_frame("20050026:"), "20050026:\n");
    assert_eq!(wire_frame(""), "\n");
}

#[test]
fn target_can_be_cloned() {
    let t = target(true);
    assert_eq!(t.clone(), t);
}

#[test]
fn delivery_of_tare_ends_with_the_direct_write() {
    let (mut delivery, first) = Dispatch::begin("tare", &target(false));
    assert_eq!(first, DispatchAction::WriteDirect("20120008:8003\n".to_string()));
    assert!(!delivery.is_done());
    assert_eq!(
        delivery.handle(DispatchEvent::DirectEnded(DirectOutcome::Written)),
        DispatchAction::Nothing
    );
    assert!(delivery.is_done());
    assert_eq!(
        delivery.handle(DispatchEvent::DirectEnded(DirectOutcome::WriteFailed)),
        DispatchAction::Nothing
    );
    assert_eq!(
        delivery.handle(DispatchEvent::BridgeEnded(BridgeOutcome::Replied("x".to_string()))),
        DispatchAction::Nothing
    );
    assert!(delivery.is_done());
}

#[test]
fn delivery_falls_back_to_the_bridge_and_swallows_its_failure() {
    let (mut delivery, first) = Dispatch::begin("read_gross", &target(false));
    assert_eq!(first, DispatchAction::WriteDirect("20050026:\n".to_string()));
    match delivery.handle(DispatchEvent::DirectEnded(DirectOutcome::WriterAbsent)) {
        DispatchAction::PostBridge(request) => assert_eq!(request.command(), "read_gross"),
        _ => panic!("the bridge was expected"),
    }
    assert!(!delivery.is_done());
    assert_eq!(
        delivery.handle(DispatchEvent::BridgeEnded(BridgeOutcome::Failed)),
        DispatchAction::Nothing
    );
    assert!(delivery.is_done());
}

#[test]
fn delivery_publishes_what_the_bridge_answers() {
    let (mut delivery, first) = Dispatch::begin("calibrate", &target(false));
    match first {
        DispatchAction::PostBridge(request) => assert_eq!(request.command(), "calibrate"),
        _ => panic!("the bridge was expected"),
    }
    assert_eq!(
        delivery.handle(DispatchEvent::BridgeEnded(BridgeOutcome::Replied(
            "{\"response\":\"ok\"}".to_string()
        ))),
        DispatchAction::Publish("{\"response\":\"ok\"}".to_string())
    );
    assert!(delivery.is_done());
}

#[test]
fn delivery_by_a_preferred_bridge_never_writes_to_the_device() {
    let (mut delivery, first) = Dispatch::begin("tare", &target(true));
    match first {
        DispatchAction::PostBridge(request) => assert_eq!(request.command(), "tare"),
        _ => panic!("the bridge was expected"),
    }
    assert_eq!(
        delivery.handle(DispatchEvent::DirectEnded(DirectOutcome::Written)),
        DispatchAction::Nothing
    );
    assert!(!delivery.is_done());
    assert_eq!(
        delivery.handle(DispatchEvent::BridgeEnded(BridgeOutcome::Replied("426".to_string()))),
        DispatchAction::Publish("426".to_string())
    );
}

#[test]
fn delivery_calls_the_bridge_after_a_failed_write() {
    let (mut delivery, _) = Dispatch::begin("zero", &target(false));
    match delivery.handle(DispatchEvent::DirectEnded(DirectOutcome::WriteFailed)) {
        DispatchAction::PostBridge(request) => assert_eq!(request.command(), "zero"),
        _ => panic!("the bridge was expected"),
    }
    assert_eq!(
        delivery.handle(DispatchEvent::DirectEnded(DirectOutcome::WriteFailed)),
        DispatchAction::Nothing
    );
}
