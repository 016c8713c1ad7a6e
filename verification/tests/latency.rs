use avd_health_monitor::settings::LatencyThresholds;
use avd_health_monitor::tray_icon::IconStatus;

#[test]
fn test_latency_range() {
    // Test that latency values are reasonable
    let test_duration = std::time::Duration::from_millis(50);
    let latency_ms = test_duration.as_secs_f64() * 1000.0;
    assert_eq!(latency_ms, 50.0);
    let thresholds = LatencyThresholds { excellent: 30, good: 80, warning: 150 };
    let micros = test_duration.as_micros() as u64;
    assert_eq!(IconStatus::from_latency(micros, &thresholds), IconStatus::Good);
}

use avd_health_monitor::latency::{
    latency_micros, ping_fallback, tcp_result, test_latency, ConnectOutcome, ProbePlan,
};

#[test]
fn web_protocols_get_a_web_probe() {
    assert_eq!(
        test_latency("example.com", Some(8080), Some("http")),
        ProbePlan::Http { url: "http://example.com:8080".to_string() }
    );
    assert_eq!(
        test_latency("example.com", None, Some("https")),
        ProbePlan::Http { url: "https://example.com:443".to_string() }
    );
    assert_eq!(
        test_latency("example.com", Some(0), Some("https")),
        ProbePlan::Http { url: "https://example.com:0".to_string() }
    );
    assert_eq!(
        test_latency("example.com", Some(65535), Some("http")),
        ProbePlan::Http { url: "http://example.com:65535".to_string() }
    );
}

#[test]
fn every_other_protocol_gets_a_connection_probe() {
    assert_eq!(
        test_latency("example.com", None, None),
        ProbePlan::Tcp { host: "example.com".to_string(), port: 443 }
    );
    assert_eq!(
        test_latency("example.com", Some(3389), Some("tcp")),
        ProbePlan::Tcp { host: "example.com".to_string(), port: 3389 }
    );
    assert_eq!(
        test_latency("example.com", Some(445), Some("HTTP")),
        ProbePlan::Tcp { host: "example.com".to_string(), port: 445 }
    );
    assert_eq!(
        ping_fallback("10.0.0.1"),
        ProbePlan::Tcp { host: "10.0.0.1".to_string(), port: 443 }
    );
}

#[test]
fn latency_in_microseconds() {
    assert_eq!(latency_micros(0, 0), 0);
    assert_eq!(latency_micros(0, 999), 0);
    assert_eq!(latency_micros(0, 50_000_000), 50_000);
    assert_eq!(latency_micros(2, 150_010_999), 2_150_010);
    assert_eq!(latency_micros(u64::MAX / 1_000_000, 551_614_000), u64::MAX - 1);
    assert_eq!(latency_micros(u64::MAX / 1_000_000, 551_615_999), u64::MAX);
    assert_eq!(latency_micros(u64::MAX / 1_000_000, 999_999_999), u64::MAX);
    assert_eq!(latency_micros(u64::MAX / 1_000_000 + 1, 0), u64::MAX);
    assert_eq!(latency_micros(u64::MAX, 999_999_999), u64::MAX);
    let d = std::time::Duration::from_millis(50);
    assert_eq!(latency_micros(d.as_secs(), d.subsec_nanos()), d.as_micros() as u64);
}

#[test]
fn result_of_a_connection_probe() {
    assert_eq!(tcp_result(ConnectOutcome::Connected(1234)), Ok(1234));
    assert_eq!(
        tcp_result(ConnectOutcome::Failed("connection refused".to_string())),
        Err("connection refused".to_string())
    );
    assert_eq!(tcp_result(ConnectOutcome::TimedOut), Err("Connection timeout".to_string()));
}
