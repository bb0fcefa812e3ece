//! The pitch transform and the formant shift.
//!
//! The arithmetic on real numbers is the host's and is handed in. What is
//! decided here is the order of the stages, which correction curve applies,
//! and where a rounded value lands once it is forced into the range that the
//! model accepts.

use crate::generation::Generation;
use crate::params::BeatriceInfo;
use crate::sample::Scalar;
use vstd::prelude::*;

verus! {

/// Number of positions of the formant-shift embedding table.
pub const FORMANT_SHIFT_POSITIONS: usize = 9;

/// Largest neighbour count that the newest generation accepts.
pub const MAX_VQ_NUM_NEIGHBORS: i32 = 8;

/// Bit pattern of negative zero.
pub const NEGATIVE_ZERO: Scalar = 0x8000_0000_0000_0000;

/// The curve by which a pitch is pulled towards a semitone.
#[derive(Debug, Clone, Copy, PartialEq, Eq, Structural)]
pub enum PitchCorrectionType {
    /// Pulls towards the centre of the semitone below, by a power of the distance.
    PowerCurve,
    /// Pulls towards the nearest semitone, by a root of the distance.
    Exponential,
}

/// `v` forced into `lo..=hi`.
pub open spec fn clamped(v: int, lo: int, hi: int) -> int {
    if v < lo {
        lo
    } else if v > hi {
        hi
    } else {
        v
    }
}

/// Whether a setting's value is zero, positive or negative.
pub open spec fn is_zero(value: Scalar) -> bool {
    value == 0 || value == NEGATIVE_ZERO
}

impl PitchCorrectionType {
    /// The curve that a type code names.
    pub open spec fn spec_from_code(code: i32) -> Option<PitchCorrectionType> {
        if code == 0 {
            Some(PitchCorrectionType::PowerCurve)
        } else if code == 1 {
            Some(PitchCorrectionType::Exponential)
        } else {
            None
        }
    }

    /// The curve that a type code names; `None` for a code that names none.
    pub fn from_code(code: i32) -> (r: Option<PitchCorrectionType>)
        ensures
            r == Self::spec_from_code(code),
    {
        if code == 0 {
            Some(PitchCorrectionType::PowerCurve)
        } else if code == 1 {
            Some(PitchCorrectionType::Exponential)
        } else {
            None
        }
    }

    /// The type code of the curve.
    pub fn code(self) -> (c: i32)
        ensures
            Self::spec_from_code(c) == Some(self),
    {
        match self {
            PitchCorrectionType::PowerCurve => 0,
            PitchCorrectionType::Exponential => 1,
        }
    }
}

/// The curve that corrects a frame's pitch: none while the correction
/// strength is zero, else the one that the type code names.
pub open spec fn spec_correction_curve(pitch_correction: Scalar, type_code: i32) -> Option<
    PitchCorrectionType,
> {
    if is_zero(pitch_correction) {
        None
    } else {
        PitchCorrectionType::spec_from_code(type_code)
    }
}

/// Decides which curve corrects a frame's pitch. A pitch is left as it is
/// while the correction strength is zero and where the type code names no
/// curve.
pub fn correction_curve(pitch_correction: Scalar, type_code: i32) -> (r: Option<
    PitchCorrectionType,
>)
    ensures
        r == spec_correction_curve(pitch_correction, type_code),
{
    if pitch_correction == 0 || pitch_correction == NEGATIVE_ZERO {
        None
    } else {
        PitchCorrectionType::from_code(type_code)
    }
}

/// Forces a rounded pitch into the bins that the generation's waveform
/// generator accepts: from 1 to the last bin.
pub fn quantize_pitch(rounded: i32, generation: Generation) -> (q: i32)
    ensures
        q == clamped(rounded as int, 1, generation.spec_pitch_bins() - 1),
        1 <= q < generation.spec_pitch_bins(),
{
    let last: i32 = (generation.pitch_bins() - 1) as i32;
    if rounded < 1 {
        1
    } else if rounded > last {
        last
    } else {
        rounded
    }
}

/// The arithmetic of the pitch transform, which the host hands in.
pub struct PitchKernels<S, P, E, R> {
    /// Rescales an estimated pitch about the average source pitch by the
    /// intonation intensity and shifts it by the pitch shift.
    pub shift: S,
    /// The power curve: pulls a pitch, given the correction strength.
    pub power_curve: P,
    /// The exponential curve: pulls a pitch, given the correction strength.
    pub exponential: E,
    /// Rounds a pitch to the nearest integer.
    pub round: R,
}

/// Whether `moved`, `corrected` and `rounded` are the stages of the
/// transform of an estimated pitch: the pitch is rescaled and shifted; the
/// curve that the settings select, if any, pulls it towards a semitone; and
/// the result is rounded.
pub open spec fn is_pitch_transform<
    S: Fn(i32, BeatriceInfo) -> Scalar,
    P: Fn(Scalar, Scalar) -> Scalar,
    E: Fn(Scalar, Scalar) -> Scalar,
    R: Fn(Scalar) -> i32,
>(
    kernels: PitchKernels<S, P, E, R>,
    quantized_pitch: i32,
    info: BeatriceInfo,
    moved: Scalar,
    corrected: Scalar,
    rounded: i32,
) -> bool {
    &&& call_ensures(kernels.shift, (quantized_pitch, info), moved)
    &&& match spec_correction_curve(info.pitch_correction, info.pitch_correction_type) {
        None => corrected == moved,
        Some(PitchCorrectionType::PowerCurve) => call_ensures(
            kernels.power_curve,
            (moved, info.pitch_correction),
            corrected,
        ),
        Some(PitchCorrectionType::Exponential) => call_ensures(
            kernels.exponential,
            (moved, info.pitch_correction),
            corrected,
        ),
    }
    &&& call_ensures(kernels.round, (corrected,), rounded)
}

/// Whether the kernels take every argument.
pub open spec fn kernels_are_total<
    S: Fn(i32, BeatriceInfo) -> Scalar,
    P: Fn(Scalar, Scalar) -> Scalar,
    E: Fn(Scalar, Scalar) -> Scalar,
    R: Fn(Scalar) -> i32,
>(kernels: PitchKernels<S, P, E, R>) -> bool {
    &&& forall|p: i32, i: BeatriceInfo| call_requires(kernels.shift, (p, i))
    &&& forall|p: Scalar, c: Scalar| call_requires(kernels.power_curve, (p, c))
    &&& forall|p: Scalar, c: Scalar| call_requires(kernels.exponential, (p, c))
    &&& forall|p: Scalar| call_requires(kernels.round, (p,))
}

/// Transforms the pitch that the engine estimated for a frame into the pitch
/// that the waveform is generated with. The arithmetic on real numbers is
/// handed in. Which curve runs, if any, is decided here, and the rounded
/// pitch is forced into the bins of the generation.
pub fn transform_pitch<
    S: Fn(i32, BeatriceInfo) -> Scalar,
    P: Fn(Scalar, Scalar) -> Scalar,
    E: Fn(Scalar, Scalar) -> Scalar,
    R: Fn(Scalar) -> i32,
>(
    quantized_pitch: i32,
    info: BeatriceInfo,
    generation: Generation,
    kernels: &PitchKernels<S, P, E, R>,
) -> (q: i32)
    requires
        kernels_are_total(*kernels),
    ensures
        1 <= q < generation.spec_pitch_bins(),
        exists|moved: Scalar, corrected: Scalar, rounded: i32| #[trigger]
            is_pitch_transform(*kernels, quantized_pitch, info, moved, corrected, rounded) && q
                == clamped(rounded as int, 1, generation.spec_pitch_bins() - 1),
{
    let moved = (kernels.shift)(quantized_pitch, info);
    let corrected = match correction_curve(info.pitch_correction, info.pitch_correction_type) {
        None => moved,
        Some(PitchCorrectionType::PowerCurve) => (kernels.power_curve)(
            moved,
            info.pitch_correction,
        ),
        Some(PitchCorrectionType::Exponential) => (kernels.exponential)(
            moved,
            info.pitch_correction,
        ),
    };
    let rounded = (kernels.round)(corrected);
    proof {
        assert(is_pitch_transform(*kernels, quantized_pitch, info, moved, corrected, rounded));
    }
    quantize_pitch(rounded, generation)
}

/// The position of the formant-shift embedding for a shift whose doubled
/// value plus four, rounded, is `rounded`: that number forced into the nine
/// positions of the table.
pub fn formant_shift_index(rounded: i64) -> (index: usize)
    ensures
        index == clamped(rounded as int, 0, FORMANT_SHIFT_POSITIONS - 1),
        index < FORMANT_SHIFT_POSITIONS,
{
    if rounded < 0 {
        0
    } else if rounded > 8 {
        8
    } else {
        rounded as usize
    }
}

/// Forces a neighbour count into the range that the newest generation accepts.
pub fn clamp_vq_num_neighbors(vq_num_neighbors: i32) -> (n: i32)
    ensures
        n == clamped(vq_num_neighbors as int, 0, MAX_VQ_NUM_NEIGHBORS as int),
        0 <= n <= MAX_VQ_NUM_NEIGHBORS,
{
    if vq_num_neighbors < 0 {
        0
    } else if vq_num_neighbors > MAX_VQ_NUM_NEIGHBORS {
        MAX_VQ_NUM_NEIGHBORS
    } else {
        vq_num_neighbors
    }
}

/// A value that lies in the range is not moved, and a forced value is not
/// moved again.
pub proof fn lemma_clamped_is_idempotent(v: int, lo: int, hi: int)
    requires
        lo <= hi,
    ensures
        lo <= clamped(v, lo, hi) <= hi,
        lo <= v <= hi ==> clamped(v, lo, hi) == v,
        clamped(clamped(v, lo, hi), lo, hi) == clamped(v, lo, hi),
{
}

/// Forcing into a range keeps the order of two values.
pub proof fn lemma_clamped_is_monotonic(a: int, b: int, lo: int, hi: int)
    requires
        a <= b,
        lo <= hi,
    ensures
        clamped(a, lo, hi) <= clamped(b, lo, hi),
{
}

/// Forcing into a range never moves a value away from a point of the range.
pub proof fn lemma_clamped_contracts(v: int, target: int, lo: int, hi: int)
    requires
        lo <= target <= hi,
    ensures
        vstd::math::abs(clamped(v, lo, hi) - target) <= vstd::math::abs(v - target),
{
}

} // verus!
