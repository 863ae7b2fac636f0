use speech_features::framing::frame_signal;
use speech_features::FeatureError;

fn sine_bits(rate: usize, freq: f32, seconds: f32) -> Vec<u32> {
    let n: usize = (rate as f32 * seconds) as usize;
    let mut out: Vec<u32> = Vec::new();
    for t in 0..n {
        let x: f32 = (2.0 * std::f32::consts::PI * freq * t as f32 / rate as f32).sin();
        out.push(x.to_bits());
    }
    out
}

#[test]
fn exact_cover_yields_k_plus_one_frames() {
    // L = frame_length + k * frame_shift with k = 3: exactly 4 frames.
    let frame_length: usize = 4;
    let frame_shift: usize = 2;
    let k: usize = 3;
    let signal: Vec<u32> = (0..(frame_length + k * frame_shift) as u32).collect();
    let frames = frame_signal(&signal, frame_length, frame_shift).unwrap();
    assert_eq!(frames.len(), k + 1);
    for (i, frame) in frames.iter().enumerate() {
        let start: usize = i * frame_shift;
        assert_eq!(frame.as_slice(), &signal[start..start + frame_length]);
    }
}

#[test]
fn frames_are_verbatim_slices_of_a_sine() {
    let signal: Vec<u32> = sine_bits(16000, 150.0, 0.1);
    let frames = frame_signal(&signal, 512, 256).unwrap();
    assert_eq!(frames.len(), 1 + (signal.len() - 512) / 256);
    for (i, frame) in frames.iter().enumerate() {
        assert_eq!(frame.len(), 512);
        assert_eq!(frame.as_slice(), &signal[i * 256..i * 256 + 512]);
    }
}

#[test]
fn leftover_samples_are_dropped() {
    // L = frame_length + k * frame_shift + 1: the trailing sample joins no frame.
    let signal: Vec<u32> = (0..11u32).collect();
    let frames = frame_signal(&signal, 4, 2).unwrap();
    assert_eq!(frames.len(), 4);
    assert_eq!(frames[3].as_slice(), &signal[6..10]);
}

#[test]
fn short_signal_is_insufficient_samples() {
    let signal: Vec<u32> = (0..7u32).collect();
    let r = frame_signal(&signal, 8, 2);
    assert_eq!(r, Err(FeatureError::InsufficientSamples));
}

#[test]
fn signal_of_exactly_one_frame() {
    let signal: Vec<u32> = (0..8u32).collect();
    let frames = frame_signal(&signal, 8, 3).unwrap();
    assert_eq!(frames.len(), 1);
    assert_eq!(frames[0].as_slice(), signal.as_slice());
}

#[test]
fn framing_is_deterministic() {
    let signal: Vec<u32> = sine_bits(8000, 100.0, 0.05);
    let a = frame_signal(&signal, 128, 64).unwrap();
    let b = frame_signal(&signal, 128, 64).unwrap();
    assert_eq!(a, b);
}
