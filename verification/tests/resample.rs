use beatrice_lib::layout::split_stereo;
use beatrice_lib::layout::ResamplerPlan;
use beatrice_lib::layout::Resamplers;
use rubato::Resampler;
use rubato::SincFixedIn;
use rubato::SincInterpolationParameters;
use rubato::SincInterpolationType;
use rubato::WindowFunction;
use std::cell::RefCell;

fn make(plan: &ResamplerPlan) -> RefCell<SincFixedIn<f32>> {
    RefCell::new(
        SincFixedIn::<f32>::new(
            plan.to_rate as f64 / plan.from_rate as f64,
            2.0,
            SincInterpolationParameters {
                sinc_len: plan.sinc_len,
                f_cutoff: 0.95,
                interpolation: SincInterpolationType::Linear,
                oversampling_factor: plan.oversampling_factor,
                window: WindowFunction::BlackmanHarris2,
            },
            plan.chunk_size,
            plan.channels,
        )
        .unwrap(),
    )
}

fn floats(bits: &[u32]) -> Vec<f32> {
    bits.iter().map(|b| f32::from_bits(*b)).collect()
}

fn bits(values: &[f32]) -> Vec<u32> {
    values.iter().map(|v| v.to_bits()).collect()
}

fn process(resampler: &RefCell<SincFixedIn<f32>>, left: &Vec<u32>, right: &Vec<u32>) -> (Vec<u32>, Vec<u32>) {
    let out = resampler.borrow_mut().process(&[floats(left), floats(right)], None).unwrap();
    (bits(&out[0]), bits(&out[1]))
}

fn mean(left: u32, right: u32) -> u32 {
    ((f32::from_bits(left) + f32::from_bits(right)) * 0.5).to_bits()
}

/// The smallest root mean square of `original - processed` over the lags of
/// `processed` behind `original`, measured after the warm-up.
fn rms_at_best_lag(original: &[f32], processed: &[f32], warm_up: usize, max_lag: usize) -> f32 {
    let mut best = f32::MAX;
    for lag in 0..max_lag {
        let n = processed.len().min(original.len() + lag) - lag - warm_up;
        let mut sum = 0.0f64;
        for i in warm_up..warm_up + n {
            let d = (original[i] - processed[i + lag]) as f64;
            sum += d * d;
        }
        best = best.min((sum / n as f64).sqrt() as f32);
    }
    best
}

fn round_trip(rate: u32) -> f32 {
    let settings = Resamplers::new(rate, rate, 2, 2);
    let to_model = make(&settings.input_resampler());
    let from_model = make(&settings.output_resampler());
    // what stands between the two in this test: the model's step from 16 kHz to 24 kHz
    let step_up = make(&ResamplerPlan {
        from_rate: 16000,
        to_rate: 24000,
        sinc_len: 256,
        oversampling_factor: 256,
        chunk_size: 160,
        channels: 2,
    });

    let frames = rate as usize;
    let sine: Vec<f32> = (0..frames)
        .map(|i| (2.0 * std::f32::consts::PI * 1000.0 * i as f32 / rate as f32).sin() * 0.5)
        .collect();
    let interleaved: Vec<f32> = sine.iter().flat_map(|s| [*s, *s]).collect();

    let at_16k = settings
        .convert_from_beatrice_input(&bits(&interleaved), |l, r| process(&to_model, l, r), mean)
        .unwrap();
    let at_24k: Vec<u32> = at_16k
        .chunks_exact(160)
        .flat_map(|chunk| process(&step_up, &chunk.to_vec(), &chunk.to_vec()).0)
        .collect();
    let out = settings.convert_from_beatrice_output(&at_24k, |l, r| process(&from_model, l, r));
    let (left, right) = split_stereo(&out);
    assert_eq!(left, right);
    assert!(left.len() > frames * 9 / 10);
    rms_at_best_lag(&sine, &floats(&left), 4800, 2000)
}

#[test]
fn sine_survives_the_way_to_the_model_and_back_at_48_khz() {
    let error = round_trip(48000);
    assert!(error < 0.01, "rms error {error}");
}

#[test]
fn sine_survives_the_way_to_the_model_and_back_at_44_1_khz() {
    let error = round_trip(44100);
    assert!(error < 0.01, "rms error {error}");
}
