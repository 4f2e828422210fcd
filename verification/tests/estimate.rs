use usage_core::estimate::{projected_full_at, window_trend, Sample, Trend};

/// The whole estimate: the library selects the current window's trend and
/// judges the projection; the rate and time to full are floating point.
fn estimate_full_at(samples: &[(i64, f64, i64)]) -> Option<i64> {
    let samples: Vec<Sample> = samples.iter().map(|&(t, u, r)| (t, u.to_bits(), r)).collect();
    let trend = window_trend(&samples)?;
    let u0 = f64::from_bits(trend.first_utilization);
    let u1 = f64::from_bits(trend.last_utilization);
    let rate = (u1 - u0) / (trend.last_at - trend.first_at) as f64;
    if rate <= 0.0 {
        return None;
    }
    let remaining = (1.0 - u1).max(0.0);
    let seconds_to_full = (remaining / rate).round() as i64;
    if trend.last_at.checked_add(seconds_to_full).is_none() {
        panic!("attempt to add with overflow");
    }
    projected_full_at(&trend, seconds_to_full)
}

#[test]
fn rising_utilization_yields_an_estimate() {
    // 0.1 -> 0.3 over 600s, well within a reset far in the future.
    let samples = [(0, 0.1, 100_000), (600, 0.3, 100_000)];
    let result = estimate_full_at(&samples);
    assert_eq!(result, Some(2700));
}

#[test]
fn flat_utilization_yields_no_estimate() {
    let samples = [(0, 0.5, 100_000), (600, 0.5, 100_000)];
    assert_eq!(estimate_full_at(&samples), None);
}

#[test]
fn falling_utilization_yields_no_estimate() {
    let samples = [(0, 0.5, 100_000), (600, 0.3, 100_000)];
    assert_eq!(estimate_full_at(&samples), None);
}

#[test]
fn single_sample_yields_no_estimate() {
    let samples = [(0, 0.5, 100_000)];
    assert_eq!(estimate_full_at(&samples), None);
}

#[test]
fn empty_samples_yield_no_estimate() {
    let samples: [(i64, f64, i64); 0] = [];
    assert_eq!(estimate_full_at(&samples), None);
}

#[test]
fn projection_past_reset_yields_no_estimate() {
    // Barely rising, would only fill long after the window resets.
    let samples = [(0, 0.01, 3600), (1800, 0.02, 3600)];
    assert_eq!(estimate_full_at(&samples), None);
}

#[test]
fn samples_from_a_previous_window_are_ignored() {
    // The first point belongs to an old window (different reset_unix)
    // and should not distort the rate computed from the current one.
    let samples = [(0, 0.9, 500), (1000, 0.05, 100_000), (1600, 0.1, 100_000)];
    let result = estimate_full_at(&samples);
    assert_eq!(result, Some(12400));
}

#[test]
fn trend_spans_first_and_last_sample_of_the_current_window() {
    let samples: [Sample; 5] = [(0, 11, 7), (10, 12, 9), (20, 13, 7), (30, 14, 9), (40, 15, 9)];
    assert_eq!(
        window_trend(&samples),
        Some(Trend { first_at: 10, first_utilization: 12, last_at: 40, last_utilization: 15, reset_unix: 9 })
    );
}

#[test]
fn inserting_a_sample_of_another_window_changes_nothing() {
    let base: [Sample; 3] = [(100, 1, 50), (200, 2, 50), (300, 3, 50)];
    let with_other: [Sample; 4] = [(100, 1, 50), (150, 99, 40), (200, 2, 50), (300, 3, 50)];
    assert_eq!(window_trend(&base), window_trend(&with_other));
}

#[test]
fn only_the_latest_sample_in_its_window_gives_no_trend() {
    let samples: [Sample; 3] = [(0, 1, 10), (5, 2, 10), (9, 3, 20)];
    assert_eq!(window_trend(&samples), None);
}

#[test]
fn non_increasing_timestamps_give_no_trend() {
    let samples: [Sample; 2] = [(500, 1, 10), (500, 2, 10)];
    assert_eq!(window_trend(&samples), None);
    let samples: [Sample; 2] = [(600, 1, 10), (500, 2, 10)];
    assert_eq!(window_trend(&samples), None);
}

#[test]
fn projection_is_shown_only_before_the_reset() {
    let trend = Trend { first_at: 0, first_utilization: 0, last_at: 100, last_utilization: 0, reset_unix: 200 };
    assert_eq!(projected_full_at(&trend, 99), Some(199));
    assert_eq!(projected_full_at(&trend, 100), None);
    assert_eq!(projected_full_at(&trend, 0), Some(100));
}
