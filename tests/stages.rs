use rosu_rate_changer::accumulator::SampleAccumulator;
use rosu_rate_changer::config::{Interpolation, PipelineConfig, Route, Window};
use rosu_rate_changer::quantize::{quantize_block, quantize_sample};

#[test]
fn standard_config_values() {
    let c = PipelineConfig::standard(Route::Direct);
    assert_eq!(c.target_rate, 44100);
    assert_eq!(c.bits_per_sample, 16);
    assert_eq!(c.sinc_len, 256);
    assert_eq!(c.oversampling_factor, 256);
    assert_eq!(c.cutoff_permille, 950);
    assert_eq!(c.headroom_permille, 950);
    assert_eq!(c.block_size, 1152);
    assert_eq!(c.route, Route::Direct);
}

#[test]
fn profiles_follow_route() {
    let fast = PipelineConfig::standard(Route::Direct).profile();
    assert_eq!(fast.interpolation, Interpolation::Linear);
    assert_eq!(fast.window, Window::Hann);
    let hq = PipelineConfig::standard(Route::TwoPhase).profile();
    assert_eq!(hq.interpolation, Interpolation::Cubic);
    assert_eq!(hq.window, Window::BlackmanHarris2);
}

#[test]
fn headroom_limit_is_95_percent_of_full_scale() {
    let c = PipelineConfig::standard(Route::Direct);
    assert_eq!(c.headroom_limit(), 31128);
}

#[test]
fn quantize_sample_clamps_both_sides() {
    assert_eq!(quantize_sample(40000, 31128), 31128);
    assert_eq!(quantize_sample(-40000, 31128), -31128);
    assert_eq!(quantize_sample(31129, 31128), 31128);
    assert_eq!(quantize_sample(-31129, 31128), -31128);
    assert_eq!(quantize_sample(1234, 31128), 1234);
    assert_eq!(quantize_sample(-1234, 31128), -1234);
    assert_eq!(quantize_sample(0, 31128), 0);
}

#[test]
fn quantized_samples_stay_within_headroom() {
    let limit = PipelineConfig::standard(Route::Direct).headroom_limit();
    for v in [i32::MIN, -1_000_000, -31129, -5, 0, 5, 31129, 1_000_000, i32::MAX] {
        let q = quantize_sample(v, limit) as f64;
        assert!(q.abs() <= 0.95 * 32767.0);
    }
}

#[test]
fn quantize_block_interleaves_frame_major() {
    let planar = vec![vec![1, 2, 3], vec![10, 20, 40000]];
    let out = quantize_block(&planar, 31128);
    assert_eq!(out, vec![1, 10, 2, 20, 3, 31128]);
}

#[test]
fn quantize_block_mono_keeps_order() {
    let planar = vec![vec![-50000, 7, 8]];
    assert_eq!(quantize_block(&planar, 100), vec![-100, 7, 8]);
}

#[test]
fn accumulator_drains_fifo_blocks() {
    let mut acc: SampleAccumulator<f32> = SampleAccumulator::new(2);
    assert_eq!(acc.channel_count(), 2);
    assert_eq!(acc.pending(), 0);
    acc.append_packet(&vec![vec![0.1, 0.2, 0.3], vec![-0.1, -0.2, -0.3]]);
    acc.append_packet(&vec![vec![0.4, 0.5], vec![-0.4, -0.5]]);
    assert_eq!(acc.pending(), 5);
    assert!(acc.has_block(4));
    assert!(!acc.has_block(6));
    let b = acc.drain_block(4);
    assert_eq!(b, vec![vec![0.1, 0.2, 0.3, 0.4], vec![-0.1, -0.2, -0.3, -0.4]]);
    assert_eq!(acc.pending(), 1);
    assert!(!acc.has_block(4));
}

#[test]
fn accumulator_pads_final_block_with_silence() {
    let mut acc: SampleAccumulator<f32> = SampleAccumulator::new(2);
    acc.append_packet(&vec![vec![0.5, 0.25], vec![-0.5, -0.25]]);
    let last = acc.drain_final(4, 0.0);
    assert_eq!(last, Some(vec![vec![0.5, 0.25, 0.0, 0.0], vec![-0.5, -0.25, 0.0, 0.0]]));
    assert_eq!(acc.pending(), 0);
    assert_eq!(acc.drain_final(4, 0.0), None);
}

#[test]
fn accumulator_empty_stream_has_no_final_block() {
    let mut acc: SampleAccumulator<i16> = SampleAccumulator::new(1);
    assert_eq!(acc.drain_final(1152, 0), None);
}

#[test]
fn accumulator_exact_block_leaves_nothing() {
    let mut acc: SampleAccumulator<i16> = SampleAccumulator::new(1);
    acc.append_packet(&vec![vec![1, 2, 3]]);
    assert_eq!(acc.drain_block(3), vec![vec![1, 2, 3]]);
    assert_eq!(acc.drain_final(3, 0), None);
}
