use audio_processor::AudioProcessor;
use std::f32::consts::PI;

// The input passes through `black_box` so that no call of the curve is folded
// at compile time: every call then computes with the same runtime math
// library, and the curve is one deterministic function of its argument.
fn soft_clip(bits: u32) -> u32 {
    let x = std::hint::black_box(f32::from_bits(bits));
    (x * PI).tanh().to_bits()
}

#[test]
fn output_length_equals_input_length() {
    let p = AudioProcessor::new();
    for n in [0usize, 1, 7, 64] {
        let input: Vec<u32> = (0..n).map(|i| ((i as f32) / 8.0 - 2.0).to_bits()).collect();
        let out = p.process_buffer(&input, soft_clip);
        assert_eq!(out.len(), n);
    }
}

#[test]
fn single_sample_matches_tanh_formula() {
    let p = AudioProcessor::new();
    for x in [-2.5f32, -1.0, -0.25, 0.0, 0.1, 0.2, 0.5, 1.0, 3.0] {
        let out = p.process_buffer(&vec![x.to_bits()], soft_clip);
        let got = f32::from_bits(out[0]);
        let expected = (x * PI).tanh();
        assert!((got - expected).abs() <= 1e-6, "sample {x}: got {got}, expected {expected}");
    }
}

#[test]
fn zero_maps_to_zero_exactly() {
    let p = AudioProcessor::new();
    let out = p.process_buffer(&vec![0.0f32.to_bits()], soft_clip);
    assert_eq!(f32::from_bits(out[0]), 0.0);
    assert_eq!(out[0], 0.0f32.to_bits());
}

#[test]
fn repeated_processing_yields_identical_output() {
    let p = AudioProcessor::new();
    let input: Vec<u32> = [-1.5f32, -0.3, 0.0, 0.4, 2.0].iter().map(|x| x.to_bits()).collect();
    let first = p.process_buffer(&input, soft_clip);
    let second = p.process_buffer(&input, soft_clip);
    assert_eq!(first, second);
}

#[test]
fn large_samples_saturate() {
    let p = AudioProcessor::new();
    let out = p.process_buffer(&vec![10.0f32.to_bits(), (-10.0f32).to_bits()], soft_clip);
    let high = f32::from_bits(out[0]);
    let low = f32::from_bits(out[1]);
    assert!(high > 0.999 && high <= 1.0, "got {high}");
    assert!(low < -0.999 && low >= -1.0, "got {low}");
}

#[test]
fn processing_ignores_state_and_gain() {
    let input: Vec<u32> = [-0.8f32, 0.2, 1.1].iter().map(|x| x.to_bits()).collect();
    let idle = AudioProcessor::new();
    let mut running = AudioProcessor::new();
    running.start();
    running.set_gain(4.0f32.to_bits());
    let from_idle = idle.process_buffer(&input, soft_clip);
    let from_running = running.process_buffer(&input, soft_clip);
    assert_eq!(from_idle, from_running);
}
