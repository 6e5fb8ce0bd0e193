use forgive_me::pacing::Pacing;
use serde_json::Value;

/// Writes the pacing state as JSON text and reads it back.
fn roundtrip(p: &Pacing) -> Pacing {
    let mut map = serde_json::Map::new();
    map.insert("attempts".into(), Value::Array(p.attempts.iter().map(|t| Value::from(*t)).collect()));
    map.insert("until_ms".into(), Value::from(p.until_ms));
    map.insert("failures".into(), Value::from(p.failures));
    map.insert("reason".into(), Value::from(p.reason.clone()));
    let text = serde_json::to_string(&Value::Object(map)).unwrap();
    let v: Value = serde_json::from_str(&text).unwrap();
    Pacing {
        attempts: v["attempts"].as_array().unwrap().iter().map(|t| t.as_i64().unwrap()).collect(),
        until_ms: v["until_ms"].as_i64().unwrap(),
        failures: v["failures"].as_u64().unwrap() as u32,
        reason: v["reason"].as_str().unwrap().to_string(),
    }
}

#[test]
fn rolling_hourly_budget_and_server_cooldown_survive_serialization() {
    let mut pace = Pacing::default();
    assert!(pace.reserve(1));
    assert!(!pace.reserve(1));
    assert!(pace.remaining_seconds() >= 3599);
    let until = forgive_me::model::now_ms() + 7_200_000;
    pace.retry(Some(until), "rate_limited");
    let restored = roundtrip(&pace);
    assert_eq!(restored.attempts.len(), 1);
    assert!(restored.until_ms >= until);
}

#[test]
fn retry_doubles_and_caps_the_fallback() {
    let mut p = Pacing::default();
    p.retry_at(1_000, None, "x");
    assert_eq!(p.failures, 1);
    assert_eq!(p.until_ms, 31_000);
    p.retry_at(1_000, None, "x");
    assert_eq!(p.until_ms, 61_000);
    for _ in 0..10 {
        p.retry_at(1_000, None, "x");
    }
    assert_eq!(p.failures, 8);
    assert_eq!(p.until_ms, 3_601_000);
    p.retry_at(0, Some(9_000_000), "rate_limited");
    assert_eq!(p.until_ms, 9_000_000);
    assert_eq!(p.reason, "rate_limited");
    p.retry_at(0, Some(5), "later");
    assert_eq!(p.until_ms, 9_000_000);
    p.retry_at(i64::MAX, None, "edge");
    assert_eq!(p.until_ms, i64::MAX);
}

#[test]
fn reserve_drops_attempts_older_than_an_hour() {
    let mut p = Pacing::default();
    assert!(p.reserve_at(1_000, 2));
    assert!(p.reserve_at(2_000, 2));
    assert!(!p.reserve_at(3_000, 2));
    assert_eq!(p.until_ms, 3_601_000);
    assert_eq!(p.reason, "Hourly attempt budget");
    assert_eq!(p.remaining_seconds_at(3_000), 3_598);
    assert!(p.reserve_at(3_601_500, 2));
    assert_eq!(p.attempts, vec![2_000, 3_601_500]);
    assert!(p.reserve_at(10_000_000, 0));
    assert!(!p.reserve_at(10_000_001, 0));
}

#[test]
fn remaining_seconds_round_up() {
    let p = Pacing { until_ms: 10_001, ..Default::default() };
    assert_eq!(p.remaining_seconds_at(10_000), 1);
    assert_eq!(p.remaining_seconds_at(10_001), 0);
    assert_eq!(p.remaining_seconds_at(20_000), 0);
    assert_eq!(p.remaining_seconds_at(0), 11);
}
