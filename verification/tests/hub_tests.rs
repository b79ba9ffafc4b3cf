use telemetry_core::hub::open_stream;
use telemetry_core::hub::record_and_publish;
use telemetry_core::hub::Broadcaster;
use telemetry_core::hub::StreamEvent;
use telemetry_core::recorder::AccessRecorder;
use telemetry_core::recorder::PendingRecord;

fn greeting(text: &str) -> StreamEvent {
    StreamEvent::Connected { message: text.to_string() }
}

fn message_of(event: StreamEvent) -> String {
    match event {
        StreamEvent::Connected { message } => message,
        StreamEvent::Access(r) => panic!("expected a greeting, got record {}", r.id),
    }
}

#[test]
fn test_subscriber_receives_only_later_events() {
    let hub = Broadcaster::new(100);
    // Published before subscribing: never delivered.
    hub.publish(greeting("early-1"));
    hub.publish(greeting("early-2"));
    let mut rx = hub.subscribe();
    hub.publish(greeting("late-1"));
    hub.publish(greeting("late-2"));
    assert_eq!(message_of(rx.try_recv().expect("first later event")), "late-1");
    assert_eq!(message_of(rx.try_recv().expect("second later event")), "late-2");
    assert!(rx.try_recv().is_err());
}

#[test]
fn test_publish_without_subscribers_is_noop() {
    let hub = Broadcaster::new(16);
    let delivered_to = hub.publish(greeting("nobody listens"));
    assert_eq!(delivered_to, 0);
}

#[test]
fn test_publish_reports_live_subscribers() {
    let hub = Broadcaster::new(16);
    let _rx1 = hub.subscribe();
    let _rx2 = hub.subscribe();
    let delivered_to = hub.publish(greeting("two listeners"));
    assert_eq!(delivered_to, 2);
}

#[test]
fn test_active_count_follows_subscribers() {
    let hub = Broadcaster::new(16);
    assert_eq!(hub.active_count(), 0);
    let rx1 = hub.subscribe();
    let rx2 = hub.subscribe();
    assert_eq!(hub.active_count(), 2);
    drop(rx1);
    assert_eq!(hub.active_count(), 1);
    drop(rx2);
    assert_eq!(hub.active_count(), 0);
}

#[test]
fn test_record_and_publish_fans_out() {
    let hub = Broadcaster::new(16);
    let mut rec = AccessRecorder::new();
    let (greeting, mut rx) = open_stream(&hub);
    assert_eq!(message_of(greeting), "SSE stream connected");
    let stored = record_and_publish(
        &mut rec,
        &hub,
        PendingRecord {
            ip: "127.0.0.1".to_string(),
            user_agent: "test-agent".to_string(),
            endpoint: "/api/v1/sensors/temperature".to_string(),
            method: "GET".to_string(),
            status_code: 200,
            response_time_ms: 5,
            device_id: None,
        },
    );
    assert_eq!(stored.id, 1);
    assert_eq!(rec.total(), 1);
    match rx.try_recv().expect("the stored record is fanned out") {
        StreamEvent::Access(r) => {
            assert_eq!(r.id, 1);
            assert_eq!(r.endpoint, "/api/v1/sensors/temperature");
        }
        StreamEvent::Connected { message } => {
            panic!("expected an access event, got greeting {}", message)
        }
    }
    assert!(rx.try_recv().is_err());
}

#[test]
fn test_independent_subscribers() {
    let hub = Broadcaster::new(16);
    let mut rx1 = hub.subscribe();
    hub.publish(greeting("a"));
    let mut rx2 = hub.subscribe();
    hub.publish(greeting("b"));
    // The early subscriber sees both, the late one only the second.
    assert_eq!(message_of(rx1.try_recv().unwrap()), "a");
    assert_eq!(message_of(rx1.try_recv().unwrap()), "b");
    assert_eq!(message_of(rx2.try_recv().unwrap()), "b");
    assert!(rx2.try_recv().is_err());
}
