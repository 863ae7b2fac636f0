use speech_features::voicing::count_sign_changes;

fn sign_change_flags(frame: &[f32]) -> Vec<bool> {
    frame.windows(2).map(|w| w[0] * w[1] < 0.0).collect()
}

#[test]
fn counts_true_flags_exactly() {
    assert_eq!(count_sign_changes(&vec![]), 0);
    assert_eq!(count_sign_changes(&vec![false, false, false]), 0);
    assert_eq!(count_sign_changes(&vec![true, false, true, true]), 3);
    assert_eq!(count_sign_changes(&vec![true; 7]), 7);
}

#[test]
fn alternating_samples_cross_at_every_pair() {
    let frame: Vec<f32> = (0..10).map(|t| if t % 2 == 0 { 1.0 } else { -1.0 }).collect();
    let flags = sign_change_flags(&frame);
    assert_eq!(count_sign_changes(&flags), 9);
}

#[test]
fn sine_zero_crossing_rate_matches_the_analytic_count() {
    // A pure sine of frequency f over T seconds crosses zero about 2 f T
    // times, so its zero-crossing rate is about 2 f T / (L - 1).
    let rate: usize = 16000;
    let freq: f32 = 100.0;
    let frame: Vec<f32> = (0..rate)
        .map(|t| (2.0 * std::f32::consts::PI * freq * t as f32 / rate as f32).sin())
        .collect();
    let flags = sign_change_flags(&frame);
    let count: usize = count_sign_changes(&flags);
    let expected: f32 = 2.0 * freq * 1.0;
    assert!(
        (count as f32 - expected).abs() <= 2.0,
        "saw {} crossings, expected about {}",
        count,
        expected
    );
    let zcr: f32 = count as f32 / (frame.len() - 1) as f32;
    let analytic: f32 = expected / (frame.len() - 1) as f32;
    assert!((zcr - analytic).abs() < 0.001);
}
