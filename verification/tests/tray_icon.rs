use avd_health_monitor::settings::LatencyThresholds;
use avd_health_monitor::tray_icon::IconStatus;

fn micros(latency_ms: f64) -> u64 {
    (latency_ms * 1000.0).ceil() as u64
}

#[test]
fn test_icon_status_from_latency() {
    let thresholds = LatencyThresholds::default();

    assert!(matches!(
        IconStatus::from_latency(micros(20.0), &thresholds),
        IconStatus::Excellent
    ));
    assert!(matches!(
        IconStatus::from_latency(micros(50.0), &thresholds),
        IconStatus::Good
    ));
    assert!(matches!(
        IconStatus::from_latency(micros(100.0), &thresholds),
        IconStatus::Warning
    ));
    assert!(matches!(
        IconStatus::from_latency(micros(200.0), &thresholds),
        IconStatus::Critical
    ));
}

#[test]
fn boundary_latency_belongs_to_the_better_tier() {
    let thresholds = LatencyThresholds { excellent: 30, good: 80, warning: 150 };
    assert_eq!(IconStatus::from_latency(micros(150.0), &thresholds), IconStatus::Warning);
    assert_eq!(IconStatus::from_latency(micros(150.01), &thresholds), IconStatus::Critical);
    assert_eq!(IconStatus::from_latency(30_000, &thresholds), IconStatus::Excellent);
    assert_eq!(IconStatus::from_latency(30_001, &thresholds), IconStatus::Good);
    assert_eq!(IconStatus::from_latency(80_000, &thresholds), IconStatus::Good);
    assert_eq!(IconStatus::from_latency(80_001, &thresholds), IconStatus::Warning);
    assert_eq!(IconStatus::from_latency(0, &thresholds), IconStatus::Excellent);
    assert_eq!(IconStatus::from_latency(u64::MAX, &thresholds), IconStatus::Critical);
}

#[test]
fn classification_never_improves_with_latency() {
    fn rank(status: IconStatus) -> u8 {
        match status {
            IconStatus::Excellent => 0,
            IconStatus::Good => 1,
            IconStatus::Warning => 2,
            IconStatus::Critical => 3,
            IconStatus::Unknown => 4,
        }
    }
    let sets = [
        LatencyThresholds { excellent: 30, good: 80, warning: 150 },
        LatencyThresholds { excellent: 150, good: 80, warning: 30 },
        LatencyThresholds { excellent: 0, good: 0, warning: u32::MAX },
    ];
    for thresholds in sets.iter() {
        let mut previous = 0;
        for latency_ms in 0..200u64 {
            let status = IconStatus::from_latency(latency_ms * 1000, thresholds);
            assert_ne!(status, IconStatus::Unknown);
            assert!(rank(status) >= previous);
            previous = rank(status);
        }
    }
}

#[test]
fn inverted_thresholds_degrade_gracefully() {
    let thresholds = LatencyThresholds { excellent: 150, good: 80, warning: 30 };
    assert_eq!(IconStatus::from_latency(100_000, &thresholds), IconStatus::Excellent);
    assert_eq!(IconStatus::from_latency(150_001, &thresholds), IconStatus::Critical);
}

#[test]
fn tier_colours() {
    assert_eq!(IconStatus::Excellent.get_color(), [34, 197, 94, 255]);
    assert_eq!(IconStatus::Good.get_color(), [234, 179, 8, 255]);
    assert_eq!(IconStatus::Warning.get_color(), [249, 115, 22, 255]);
    assert_eq!(IconStatus::Critical.get_color(), [239, 68, 68, 255]);
    assert_eq!(IconStatus::Unknown.get_color(), [156, 163, 175, 255]);
}

use avd_health_monitor::tray_icon::{generate_tray_icon, render_icon};

#[test]
fn test_generate_icon() {
    let icon_data = generate_tray_icon(IconStatus::Excellent).unwrap();
    assert!(!icon_data.is_empty());
    // PNG signature check
    assert_eq!(&icon_data[0..8], &[137, 80, 78, 71, 13, 10, 26, 10]);
}

#[test]
fn icons_of_different_tiers_differ() {
    let excellent = generate_tray_icon(IconStatus::Excellent).unwrap();
    let critical = generate_tray_icon(IconStatus::Critical).unwrap();
    assert_ne!(excellent, critical);
    assert_ne!(excellent, render_icon(IconStatus::Excellent));
}

#[test]
fn icon_is_a_disc_with_a_border() {
    let pixels = render_icon(IconStatus::Good);
    assert_eq!(pixels.len(), 64 * 64 * 4);
    let at = |x: usize, y: usize| -> [u8; 4] {
        let i = (y * 64 + x) * 4;
        [pixels[i], pixels[i + 1], pixels[i + 2], pixels[i + 3]]
    };
    assert_eq!(at(32, 32), [234, 179, 8, 255]);
    assert_eq!(at(32, 4), [234, 179, 8, 255]);
    assert_eq!(at(60, 32), [234, 179, 8, 255]);
    assert_eq!(at(32, 3), [255, 255, 255, 200]);
    assert_eq!(at(32, 2), [255, 255, 255, 200]);
    assert_eq!(at(32, 1), [0, 0, 0, 0]);
    assert_eq!(at(0, 0), [0, 0, 0, 0]);
    assert_eq!(at(63, 63), [0, 0, 0, 0]);
    // as with distances measured in floating point
    for y in 0..64usize {
        for x in 0..64usize {
            let dx = x as f32 - 32.0;
            let dy = y as f32 - 32.0;
            let distance = (dx * dx + dy * dy).sqrt();
            let expected = if distance <= 28.0 {
                [234, 179, 8, 255]
            } else if distance <= 30.0 {
                [255, 255, 255, 200]
            } else {
                [0, 0, 0, 0]
            };
            assert_eq!(at(x, y), expected);
        }
    }
}

#[test]
fn tiers_are_ordered_from_best_to_worst() {
    assert!(IconStatus::Excellent < IconStatus::Good);
    assert!(IconStatus::Good < IconStatus::Warning);
    assert!(IconStatus::Warning < IconStatus::Critical);
    assert!(IconStatus::Critical < IconStatus::Unknown);
}
