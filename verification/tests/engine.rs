use beatrice_lib::engine::convert_captured;
use beatrice_lib::engine::needs_conversion;
use beatrice_lib::engine::settle_block;
use beatrice_lib::engine::Controls;
use beatrice_lib::engine::DuplexAudioEngine;
use beatrice_lib::errors::BeatriceError;
use beatrice_lib::session::SessionAction;
use beatrice_lib::session::SessionEvent;
use beatrice_lib::session::SessionState;

#[test]
fn conversion_runs_only_above_threshold_with_a_model() {
    assert!(needs_conversion(true, true));
    assert!(!needs_conversion(true, false));
    assert!(!needs_conversion(false, true));
    assert!(!needs_conversion(false, false));
}

#[test]
fn below_threshold_plays_silence_of_input_length() {
    let block = settle_block(false, Some(Ok(vec![7, 8, 9])), 5);
    assert_eq!(block, vec![0; 5]);
}

#[test]
fn without_model_plays_silence() {
    assert_eq!(settle_block(true, None, 4), vec![0; 4]);
}

#[test]
fn failed_conversion_plays_silence() {
    assert_eq!(settle_block(true, Some(Err(BeatriceError::ModelNotLoaded)), 3), vec![0; 3]);
}

#[test]
fn successful_conversion_is_played_as_it_is() {
    let out = vec![1.0f32.to_bits(), 0.5f32.to_bits()];
    assert_eq!(settle_block(true, Some(Ok(out.clone())), 480), out);
}

#[test]
fn input_block_feeds_both_queues() {
    let mut e = DuplexAudioEngine::new();
    e.input_block(&[1, 2, 3]);
    assert_eq!(e.output_block(2), vec![1, 2]);
    assert_eq!(e.monitor_block(4), vec![1, 2, 3, 0]);
    assert_eq!(e.output_block(2), vec![3, 0]);
}

#[test]
fn underrun_during_startup_is_silence() {
    let mut e = DuplexAudioEngine::new();
    let d = e.start();
    assert_eq!(e.state(), SessionState::Starting);
    assert_eq!(e.current_session(), d.session);
    assert_eq!(e.output_block(480), vec![0; 480]);
    assert_eq!(e.monitor_block(16), vec![0; 16]);
}

#[test]
fn queues_keep_the_newest_samples_on_overflow() {
    let mut e = DuplexAudioEngine::new();
    let first: Vec<u32> = (0..4096).collect();
    e.input_block(&first);
    e.input_block(&[9000, 9001]);
    let out = e.output_block(4096);
    assert_eq!(out[0], 2);
    assert_eq!(out[4093], 4095);
    assert_eq!(out[4094], 9000);
    assert_eq!(out[4095], 9001);
}

#[test]
fn restart_stops_previous_session_and_clears_queues() {
    let mut e = DuplexAudioEngine::new();
    let first = e.start();
    assert_eq!(first.stop_previous, None);
    assert_eq!(e.on_event(first.session, SessionEvent::StreamsOpened), SessionAction::Play);
    e.input_block(&[5, 6]);
    let second = e.start();
    assert_eq!(second.stop_previous, Some(first.session));
    assert_eq!(e.output_block(2), vec![0, 0]);
    assert_eq!(e.monitor_block(2), vec![0, 0]);
    assert_eq!(e.on_event(first.session, SessionEvent::StreamsOpened), SessionAction::Release);
    assert_eq!(e.on_event(second.session, SessionEvent::StreamsOpened), SessionAction::Play);
    assert_eq!(e.state(), SessionState::Streaming);
}

#[test]
fn controls_start_at_one() {
    let c = Controls::new();
    assert_eq!(f32::from_bits(c.input_gain), 1.0);
    assert_eq!(f32::from_bits(c.output_gain), 1.0);
    assert_eq!(f32::from_bits(c.monitor_gain), 1.0);
    assert_eq!(f32::from_bits(c.input_threshold), 1.0);
    assert_eq!(f32::from_bits(c.mic_level), 1.0);
    assert!(!c.meter_running);
}

#[test]
fn meter_is_claimed_once() {
    let mut c = Controls::new();
    assert!(c.claim_meter());
    assert!(!c.claim_meter());
    assert!(!c.claim_meter());
    assert!(c.meter_running);
}

fn times(sample: u32, gain: u32) -> u32 {
    (f32::from_bits(sample) * f32::from_bits(gain)).to_bits()
}

fn peak(block: &Vec<u32>) -> u32 {
    block.iter().map(|b| f32::from_bits(*b).abs()).fold(0.0f32, f32::max).to_bits()
}

fn exceeds(level: u32, threshold: u32) -> bool {
    f32::from_bits(threshold) < f32::from_bits(level)
}

fn samples(values: &[f32]) -> Vec<u32> {
    values.iter().map(|v| v.to_bits()).collect()
}

#[test]
fn input_callback_applies_gain_measures_and_converts() {
    let mut e = DuplexAudioEngine::new();
    let mut c = Controls::new();
    c.input_gain = 2.0f32.to_bits();
    c.input_threshold = 0.5f32.to_bits();
    let captured = c.measure(&samples(&[0.25, -0.5]), times, peak, exceeds);
    assert_eq!(captured.input, samples(&[0.5, -1.0]));
    assert!(captured.loud_enough);
    assert_eq!(f32::from_bits(c.mic_level), 1.0);
    assert_eq!(f32::from_bits(c.input_gain), 2.0);
    let played = convert_captured(&captured, true, |input| {
        assert_eq!(*input, samples(&[0.5, -1.0]));
        Ok(samples(&[9.0, 8.0, 7.0]))
    });
    assert_eq!(played, samples(&[9.0, 8.0, 7.0]));
    e.input_block(&played);
    assert_eq!(e.output_block(4), samples(&[9.0, 8.0, 7.0, 0.0]));
    assert_eq!(e.monitor_block(3), samples(&[9.0, 8.0, 7.0]));
}

#[test]
fn input_at_the_threshold_plays_silence_and_converts_nothing() {
    let mut c = Controls::new();
    let captured = c.measure(&samples(&[0.25, 1.0, -0.5]), times, peak, exceeds);
    assert!(!captured.loud_enough);
    assert_eq!(f32::from_bits(c.mic_level), 1.0);
    let played = convert_captured(&captured, true, |_input| panic!("at the threshold nothing is converted"));
    assert_eq!(played, vec![0; 3]);
}

#[test]
fn input_without_model_or_after_failure_plays_silence() {
    let mut c = Controls::new();
    c.input_threshold = 0.0f32.to_bits();
    let captured = c.measure(&samples(&[0.5, 0.5]), times, peak, exceeds);
    assert!(captured.loud_enough);
    let played = convert_captured(&captured, false, |_input| panic!("without a model nothing is converted"));
    assert_eq!(played, vec![0; 2]);
    let played = convert_captured(&captured, true, |_input| Err(BeatriceError::ModelNotLoaded));
    assert_eq!(played, vec![0; 2]);
}

#[test]
fn output_callbacks_apply_their_gain() {
    let mut e = DuplexAudioEngine::new();
    e.input_block(&samples(&[1.0, -2.0]));
    assert_eq!(e.play_output(3, 0.5f32.to_bits(), times), samples(&[0.5, -1.0, 0.0]));
    assert_eq!(e.play_monitor(2, 3.0f32.to_bits(), times), samples(&[3.0, -6.0]));
    assert_eq!(e.play_monitor(1, 3.0f32.to_bits(), times), samples(&[0.0]));
}
