use telemetry_core::recorder::AccessRecorder;
use telemetry_core::recorder::PendingRecord;

fn pending(path: &str, status: u16, elapsed: u64) -> PendingRecord {
    PendingRecord {
        ip: "127.0.0.1".to_string(),
        user_agent: "test-agent".to_string(),
        endpoint: path.to_string(),
        method: "GET".to_string(),
        status_code: status,
        response_time_ms: elapsed,
        device_id: None,
    }
}

#[test]
fn test_ids_dense() {
    let mut rec = AccessRecorder::new();
    for expected in 1..=5u64 {
        let r = rec.record(pending("/a", 200, 1));
        assert_eq!(r.id, expected);
    }
    assert_eq!(rec.total(), 5);
    assert_eq!(rec.retained(), 5);
}

#[test]
fn test_log_bound_and_eviction() {
    let mut rec = AccessRecorder::new();
    for _ in 0..501 {
        rec.record(pending("/a", 200, 1));
    }
    assert_eq!(rec.total(), 501);
    assert_eq!(rec.retained(), 500);
    let recent = rec.recent(Some(500));
    assert_eq!(recent.len(), 500);
    // The very first record (identifier 1) was evicted.
    assert!(recent.iter().all(|r| r.id != 1));
    assert_eq!(recent[0].id, 501);
    assert_eq!(recent[499].id, 2);
}

#[test]
fn test_recent_strictly_decreasing() {
    let mut rec = AccessRecorder::new();
    for _ in 0..10 {
        rec.record(pending("/b", 200, 2));
    }
    let recent = rec.recent(None);
    assert_eq!(recent.len(), 10);
    for w in recent.windows(2) {
        assert!(w[0].id > w[1].id);
    }
}

#[test]
fn test_recent_default_limit_is_50() {
    let mut rec = AccessRecorder::new();
    for _ in 0..60 {
        rec.record(pending("/c", 200, 3));
    }
    let recent = rec.recent(None);
    assert_eq!(recent.len(), 50);
    assert_eq!(recent[0].id, 60);
    assert_eq!(recent[49].id, 11);
}

#[test]
fn test_recent_limit_beyond_log() {
    let mut rec = AccessRecorder::new();
    for _ in 0..3 {
        rec.record(pending("/d", 200, 4));
    }
    let recent = rec.recent(Some(99));
    assert_eq!(recent.len(), 3);
    let empty = rec.recent(Some(0));
    assert_eq!(empty.len(), 0);
}

#[test]
fn test_concurrent_ids_unique_and_dense() {
    // Many tasks record through a shared, mutex-guarded recorder: the
    // identifiers handed out are exactly 1..=200, no duplicate, no gap,
    // whatever the interleaving.
    let rec = std::sync::Arc::new(std::sync::Mutex::new(AccessRecorder::new()));
    let rt = tokio::runtime::Builder::new_multi_thread()
        .worker_threads(4)
        .build()
        .unwrap();
    let all: Vec<u64> = rt.block_on(async {
        let mut handles = Vec::new();
        for _ in 0..8 {
            let rec = rec.clone();
            handles.push(tokio::spawn(async move {
                let mut ids = Vec::new();
                for _ in 0..25 {
                    let r = rec.lock().unwrap().record(pending("/c", 200, 1));
                    ids.push(r.id);
                }
                ids
            }));
        }
        let mut all = Vec::new();
        for h in handles {
            all.extend(h.await.unwrap());
        }
        all
    });
    let mut sorted = all;
    sorted.sort();
    let expected: Vec<u64> = (1..=200).collect();
    assert_eq!(sorted, expected);
}

#[test]
fn test_record_timestamps_are_set() {
    let mut rec = AccessRecorder::new();
    let r = rec.record(pending("/t", 200, 1));
    // A wall-clock reading from this century, not a default.
    assert!(r.timestamp_ms > 1_500_000_000_000);
}

#[test]
fn test_record_keeps_fields() {
    let mut rec = AccessRecorder::new();
    let mut p = pending("/api/v1/sensors/temperature", 404, 17);
    p.device_id = Some("device-7".to_string());
    let r = rec.record(p);
    assert_eq!(r.id, 1);
    assert_eq!(r.ip, "127.0.0.1");
    assert_eq!(r.user_agent, "test-agent");
    assert_eq!(r.endpoint, "/api/v1/sensors/temperature");
    assert_eq!(r.method, "GET");
    assert_eq!(r.status_code, 404);
    assert_eq!(r.response_time_ms, 17);
    assert_eq!(r.device_id, Some("device-7".to_string()));
    let snap = rec.snapshot();
    assert_eq!(snap.len(), 1);
    assert_eq!(snap[0].id, 1);
    assert_eq!(snap[0].endpoint, "/api/v1/sensors/temperature");
}
