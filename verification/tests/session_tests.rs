use telemetry_core::frames::decode_frame;
use telemetry_core::frames::frame_from_parts;
use telemetry_core::session::clamp_interval;
use telemetry_core::session::ControlFrame;
use telemetry_core::session::Reply;
use telemetry_core::session::SocketSession;

fn apply_text(session: &mut SocketSession, text: &str, now_ms: i64) -> Option<Reply> {
    decode_frame(text).map(|frame| session.apply_frame(frame, now_ms))
}

#[test]
fn test_subscribe_valid_and_unknown() {
    let mut session = SocketSession::new();
    let reply = apply_text(
        &mut session,
        "{\"action\":\"subscribe\",\"sensors\":[\"temperature\",\"bogus\"]}",
        0,
    )
    .expect("well-formed frame must decode");
    match reply {
        Reply::Subscribed { sensors, interval, unknown } => {
            assert_eq!(sensors, vec!["temperature".to_string()]);
            assert_eq!(interval, 1000);
            assert_eq!(unknown, Some(vec!["bogus".to_string()]));
        }
        other => panic!("expected a subscribed reply, got {:?}", other),
    }
    // The live set holds exactly the one valid key.
    assert_eq!(session.tick_keys(), vec!["temperature".to_string()]);
}

#[test]
fn test_interval_clamps_to_floor() {
    let mut session = SocketSession::new();
    let reply = apply_text(&mut session, "{\"action\":\"subscribe\",\"interval\":50}", 0)
        .expect("well-formed frame must decode");
    match reply {
        Reply::Subscribed { interval, .. } => assert_eq!(interval, 100),
        other => panic!("expected a subscribed reply, got {:?}", other),
    }
}

#[test]
fn test_interval_clamps_to_ceiling() {
    let mut session = SocketSession::new();
    let reply = apply_text(&mut session, "{\"action\":\"subscribe\",\"interval\":999999}", 0)
        .expect("well-formed frame must decode");
    match reply {
        Reply::Subscribed { interval, .. } => assert_eq!(interval, 60000),
        other => panic!("expected a subscribed reply, got {:?}", other),
    }
}

#[test]
fn test_interval_in_range_kept() {
    assert_eq!(clamp_interval(100), 100);
    assert_eq!(clamp_interval(250), 250);
    assert_eq!(clamp_interval(60000), 60000);
    assert_eq!(clamp_interval(60001), 60000);
    assert_eq!(clamp_interval(99), 100);
    assert_eq!(clamp_interval(0), 100);
}

#[test]
fn test_ping_pong_timestamp() {
    let mut session = SocketSession::new();
    let arrival = chrono::Utc::now().timestamp_millis();
    let now = chrono::Utc::now().timestamp_millis();
    assert!(now >= arrival);
    let reply = apply_text(&mut session, "{\"action\":\"ping\"}", now)
        .expect("well-formed frame must decode");
    match reply {
        Reply::Pong { timestamp_ms } => {
            assert_eq!(timestamp_ms, now);
            assert!(timestamp_ms >= arrival);
        }
        other => panic!("expected a pong reply, got {:?}", other),
    }
    // Ping changes no state.
    assert_eq!(session.subscription_count(), 0);
}

#[test]
fn test_subscribe_all_when_unnamed() {
    let mut session = SocketSession::new();
    let reply = apply_text(&mut session, "{\"action\":\"subscribe\"}", 0)
        .expect("well-formed frame must decode");
    match reply {
        Reply::Subscribed { sensors, unknown, .. } => {
            assert_eq!(sensors.len(), 14);
            assert_eq!(unknown, None);
        }
        other => panic!("expected a subscribed reply, got {:?}", other),
    }
    assert_eq!(session.subscription_count(), 14);
}

#[test]
fn test_subscribe_twice_keeps_set() {
    let mut session = SocketSession::new();
    apply_text(&mut session, "{\"action\":\"subscribe\",\"sensors\":[\"humidity\"]}", 0).unwrap();
    apply_text(&mut session, "{\"action\":\"subscribe\",\"sensors\":[\"humidity\"]}", 0).unwrap();
    assert_eq!(session.tick_keys(), vec!["humidity".to_string()]);
}

#[test]
fn test_unsubscribe_named() {
    let mut session = SocketSession::new();
    apply_text(
        &mut session,
        "{\"action\":\"subscribe\",\"sensors\":[\"temperature\",\"humidity\"]}",
        0,
    )
    .unwrap();
    let reply = apply_text(
        &mut session,
        "{\"action\":\"unsubscribe\",\"sensors\":[\"humidity\"]}",
        0,
    )
    .unwrap();
    match reply {
        Reply::Unsubscribed { sensors, remaining } => {
            assert_eq!(sensors, vec!["humidity".to_string()]);
            assert_eq!(remaining, vec!["temperature".to_string()]);
        }
        other => panic!("expected an unsubscribed reply, got {:?}", other),
    }
}

#[test]
fn test_unsubscribe_all_when_unnamed() {
    let mut session = SocketSession::new();
    apply_text(
        &mut session,
        "{\"action\":\"subscribe\",\"sensors\":[\"temperature\",\"humidity\"]}",
        0,
    )
    .unwrap();
    let reply = apply_text(&mut session, "{\"action\":\"unsubscribe\"}", 0).unwrap();
    match reply {
        Reply::Unsubscribed { sensors, remaining } => {
            assert_eq!(sensors.len(), 2);
            assert!(remaining.is_empty());
        }
        other => panic!("expected an unsubscribed reply, got {:?}", other),
    }
    assert_eq!(session.subscription_count(), 0);
}

#[test]
fn test_list_action() {
    let mut session = SocketSession::new();
    apply_text(&mut session, "{\"action\":\"subscribe\",\"sensors\":[\"humidity\"]}", 0).unwrap();
    let reply = apply_text(&mut session, "{\"action\":\"list\"}", 0).unwrap();
    match reply {
        Reply::SensorsList { sensors } => {
            assert_eq!(sensors.len(), 14);
            assert_eq!(sensors[0], "temperature");
        }
        other => panic!("expected a sensors list, got {:?}", other),
    }
    // Listing does not touch the subscription set.
    assert_eq!(session.subscription_count(), 1);
}

#[test]
fn test_welcome_lists_catalog() {
    let session = SocketSession::new();
    match session.welcome() {
        Reply::Welcome { available_sensors, message } => {
            assert_eq!(available_sensors.len(), 14);
            assert!(message.contains("subscribe"));
        }
        other => panic!("expected a welcome, got {:?}", other),
    }
}

#[test]
fn test_malformed_frames_decode_to_nothing() {
    assert!(decode_frame("not json at all").is_none());
    assert!(decode_frame("{\"action\":\"dance\"}").is_none());
    assert!(decode_frame("{\"noaction\":true}").is_none());
    assert!(decode_frame("{\"action\":7}").is_none());
    assert!(decode_frame("{\"action\":\"subscribe\",\"sensors\":\"temperature\"}").is_none());
    assert!(decode_frame("{\"action\":\"subscribe\",\"sensors\":[1,2]}").is_none());
    assert!(decode_frame("{\"action\":\"subscribe\",\"interval\":-5}").is_none());
    assert!(decode_frame("{\"action\":\"subscribe\",\"interval\":50.5}").is_none());
    assert!(decode_frame("[1,2,3]").is_none());
}

#[test]
fn test_null_fields_mean_absent() {
    let frame = decode_frame("{\"action\":\"subscribe\",\"sensors\":null,\"interval\":null}")
        .expect("null optional fields are accepted");
    match frame {
        ControlFrame::Subscribe { sensors, interval } => {
            assert!(sensors.is_none());
            assert!(interval.is_none());
        }
        other => panic!("expected a subscribe frame, got {:?}", other),
    }
}

#[test]
fn test_frame_from_parts_unknown_action() {
    assert!(frame_from_parts(&"dance".to_string(), None, None).is_none());
    assert!(matches!(
        frame_from_parts(&"ping".to_string(), None, None),
        Some(ControlFrame::Ping)
    ));
    assert!(matches!(
        frame_from_parts(&"list".to_string(), None, None),
        Some(ControlFrame::List)
    ));
}
