use beatrice_lib::generation::Generation;
use beatrice_lib::pitch::clamp_vq_num_neighbors;
use beatrice_lib::pitch::correction_curve;
use beatrice_lib::pitch::formant_shift_index;
use beatrice_lib::params::BeatriceInfo;
use beatrice_lib::pitch::quantize_pitch;
use beatrice_lib::pitch::transform_pitch;
use beatrice_lib::pitch::PitchCorrectionType;
use beatrice_lib::pitch::PitchKernels;

fn rounded(formant_shift: f64) -> i64 {
    (formant_shift * 2.0 + 4.0).round() as i64
}

#[test]
fn formant_shift_maps_to_nine_positions() {
    assert_eq!(formant_shift_index(rounded(-2.0)), 0);
    assert_eq!(formant_shift_index(rounded(-1.5)), 1);
    assert_eq!(formant_shift_index(rounded(0.0)), 4);
    assert_eq!(formant_shift_index(rounded(0.5)), 5);
    assert_eq!(formant_shift_index(rounded(2.0)), 8);
}

#[test]
fn formant_shift_out_of_range_is_clamped() {
    assert_eq!(formant_shift_index(rounded(-2.5)), 0);
    assert_eq!(formant_shift_index(rounded(-100.0)), 0);
    assert_eq!(formant_shift_index(rounded(2.5)), 8);
    assert_eq!(formant_shift_index(rounded(1e30)), 8);
    assert_eq!(formant_shift_index(i64::MIN), 0);
    assert_eq!(formant_shift_index(i64::MAX), 8);
    assert_eq!(formant_shift_index(rounded(f64::NAN)), 0);
}

#[test]
fn pitch_is_clamped_to_the_bins_of_the_generation() {
    assert_eq!(quantize_pitch(0, Generation::Beta1), 1);
    assert_eq!(quantize_pitch(-50, Generation::Beta1), 1);
    assert_eq!(quantize_pitch(1, Generation::Beta1), 1);
    assert_eq!(quantize_pitch(200, Generation::Beta1), 200);
    assert_eq!(quantize_pitch(383, Generation::Beta1), 383);
    assert_eq!(quantize_pitch(384, Generation::Beta1), 383);
    assert_eq!(quantize_pitch(384, Generation::Alpha), 383);
    assert_eq!(quantize_pitch(384, Generation::Rc0), 384);
    assert_eq!(quantize_pitch(447, Generation::Rc0), 447);
    assert_eq!(quantize_pitch(448, Generation::Rc0), 447);
    assert_eq!(quantize_pitch(i32::MAX, Generation::Rc0), 447);
    assert_eq!(quantize_pitch(i32::MIN, Generation::Rc0), 1);
}

#[test]
fn clamping_is_idempotent_and_contracting() {
    for g in [Generation::Alpha, Generation::Beta1, Generation::Rc0] {
        for v in [-1000, -1, 0, 1, 2, 100, 383, 384, 447, 448, 100000] {
            let q = quantize_pitch(v, g);
            assert_eq!(quantize_pitch(q, g), q);
            for target in [1, 8, 200, 383] {
                assert!((q - target).abs() <= (v - target).abs());
            }
        }
    }
}

#[test]
fn neighbour_count_is_clamped() {
    assert_eq!(clamp_vq_num_neighbors(-3), 0);
    assert_eq!(clamp_vq_num_neighbors(0), 0);
    assert_eq!(clamp_vq_num_neighbors(5), 5);
    assert_eq!(clamp_vq_num_neighbors(8), 8);
    assert_eq!(clamp_vq_num_neighbors(9), 8);
    assert_eq!(clamp_vq_num_neighbors(i32::MAX), 8);
}

#[test]
fn correction_is_off_at_zero_strength() {
    assert_eq!(correction_curve(0.0f64.to_bits(), 0), None);
    assert_eq!(correction_curve((-0.0f64).to_bits(), 1), None);
}

#[test]
fn correction_curve_follows_the_type_code() {
    assert_eq!(correction_curve(0.5f64.to_bits(), 0), Some(PitchCorrectionType::PowerCurve));
    assert_eq!(correction_curve(1.0f64.to_bits(), 1), Some(PitchCorrectionType::Exponential));
    assert_eq!(correction_curve((-1.0f64).to_bits(), 1), Some(PitchCorrectionType::Exponential));
    assert_eq!(correction_curve(f64::NAN.to_bits(), 0), Some(PitchCorrectionType::PowerCurve));
    assert_eq!(correction_curve(0.5f64.to_bits(), 2), None);
    assert_eq!(correction_curve(0.5f64.to_bits(), -1), None);
}

#[test]
fn correction_type_codes_round_trip() {
    assert_eq!(PitchCorrectionType::from_code(0), Some(PitchCorrectionType::PowerCurve));
    assert_eq!(PitchCorrectionType::from_code(1), Some(PitchCorrectionType::Exponential));
    assert_eq!(PitchCorrectionType::from_code(2), None);
    assert_eq!(PitchCorrectionType::PowerCurve.code(), 0);
    assert_eq!(PitchCorrectionType::Exponential.code(), 1);
}

fn shifted(q: i32, info: BeatriceInfo) -> u64 {
    let average = f64::from_bits(info.average_source_pitch);
    (average
        + (q as f64 - average) * f64::from_bits(info.intonation_intensity)
        + 8.0 * f64::from_bits(info.pitch_shift))
    .to_bits()
}

fn to_semitone(pitch: u64, _strength: u64) -> u64 {
    ((f64::from_bits(pitch) / 8.0).round() * 8.0).to_bits()
}

fn to_half_semitone(pitch: u64, _strength: u64) -> u64 {
    (((f64::from_bits(pitch) / 8.0).floor() + 0.5) * 8.0).to_bits()
}

fn nearest(pitch: u64) -> i32 {
    f64::from_bits(pitch).round() as i32
}

fn transformed(q: i32, info: BeatriceInfo, g: Generation) -> i32 {
    let kernels = PitchKernels {
        shift: shifted,
        power_curve: to_half_semitone,
        exponential: to_semitone,
        round: nearest,
    };
    transform_pitch(q, info, g, &kernels)
}

#[test]
fn pitch_is_shifted_by_eight_bins_per_semitone() {
    let mut info = BeatriceInfo::for_generation(Generation::Rc0);
    assert_eq!(transformed(100, info, Generation::Rc0), 100);
    info.pitch_shift = 2.0f64.to_bits();
    assert_eq!(transformed(100, info, Generation::Rc0), 116);
    info.pitch_shift = (-12.0f64).to_bits();
    assert_eq!(transformed(100, info, Generation::Rc0), 4);
    assert_eq!(transformed(90, info, Generation::Rc0), 1);
    info.pitch_shift = 48.0f64.to_bits();
    assert_eq!(transformed(100, info, Generation::Rc0), 447);
    assert_eq!(transformed(100, info, Generation::Beta1), 383);
}

#[test]
fn intonation_scales_about_the_average() {
    let mut info = BeatriceInfo::for_generation(Generation::Rc0);
    info.intonation_intensity = 0.5f64.to_bits();
    // average 52: 100 -> 52 + 48 * 0.5
    assert_eq!(transformed(100, info, Generation::Rc0), 76);
    info.intonation_intensity = 0.0f64.to_bits();
    assert_eq!(transformed(100, info, Generation::Rc0), 52);
    assert_eq!(transformed(300, info, Generation::Rc0), 52);
}

#[test]
fn correction_runs_only_the_selected_curve() {
    let mut info = BeatriceInfo::for_generation(Generation::Rc0);
    // strength zero: no curve
    info.pitch_correction_type = 1;
    assert_eq!(transformed(101, info, Generation::Rc0), 101);
    info.pitch_correction = 1.0f64.to_bits();
    assert_eq!(transformed(101, info, Generation::Rc0), 104);
    assert_eq!(transformed(99, info, Generation::Rc0), 96);
    info.pitch_correction_type = 0;
    assert_eq!(transformed(101, info, Generation::Rc0), 100);
    assert_eq!(transformed(99, info, Generation::Rc0), 100);
    // a code that names no curve leaves the pitch as it is
    info.pitch_correction_type = 7;
    assert_eq!(transformed(101, info, Generation::Rc0), 101);
}

fn power_curve(pitch: u64, strength: u64) -> u64 {
    let (p, s) = (f64::from_bits(pitch), f64::from_bits(strength));
    let c = ((p / 8.0).floor() + 0.5) * 8.0;
    let d = (p - c) * (2.0 / 8.0);
    let out = if d.abs() < 1e-4 { c } else { c + d * d.abs().powf(-s) * 4.0 };
    out.to_bits()
}

fn exponential(pitch: u64, strength: u64) -> u64 {
    let (p, s) = (f64::from_bits(pitch), f64::from_bits(strength));
    let c = (p / 8.0).round() * 8.0;
    let d = (p - c) * (2.0 / 8.0);
    let out = if s > 1.0 - 1e-4 {
        c
    } else if d >= 0.0 {
        c + d.powf(1.0 / (1.0 - s)) * 4.0
    } else {
        c - (-d).powf(1.0 / (1.0 - s)) * 4.0
    };
    out.to_bits()
}

fn corrected(q: i32, strength: f64, type_code: i32) -> i32 {
    let mut info = BeatriceInfo::for_generation(Generation::Rc0);
    info.pitch_correction = strength.to_bits();
    info.pitch_correction_type = type_code;
    let kernels = PitchKernels { shift: shifted, power_curve, exponential, round: nearest };
    transform_pitch(q, info, Generation::Rc0, &kernels)
}

fn nearest_semitone(q: i32) -> i32 {
    ((q as f64 / 8.0).round() * 8.0) as i32
}

#[test]
fn centred_pitch_is_left_where_it_is() {
    for strength in [0.0, 0.5, 1.0] {
        for k in 1..55 {
            // the exponential curve is centred on the semitones
            assert_eq!(corrected(8 * k, strength, 1), 8 * k);
            // the power curve is centred half way between them
            assert_eq!(corrected(8 * k + 4, strength, 0), 8 * k + 4);
        }
    }
}

#[test]
fn correction_never_moves_a_pitch_away_from_its_semitone() {
    for strength in [0.0, 0.5, 1.0] {
        for type_code in [0, 1] {
            for q in 8..440 {
                let out = corrected(q, strength, type_code);
                let target = nearest_semitone(out);
                assert!(
                    (out - target).abs() <= (q - target).abs(),
                    "strength {strength}, type {type_code}: {q} -> {out}"
                );
            }
        }
    }
}

#[test]
fn full_correction_lands_on_a_semitone() {
    for q in 8..440 {
        assert_eq!(corrected(q, 1.0, 1) % 8, 0);
        if q % 8 != 4 {
            assert_eq!(corrected(q, 1.0, 0) % 8, 0);
        }
    }
}
