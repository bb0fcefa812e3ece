//! Channel layout and chunking around the resamplers.
//!
//! Devices deliver interleaved frames of one or two channels at their own
//! rate; the model takes and gives mono. The resampling itself is done by the
//! host. This module takes the frames apart and puts them together again, and
//! cuts a channel into the chunks that a resampler takes. Only whole chunks
//! are resampled: what is left over at the end of a block is dropped.

use crate::frames::joined;
use crate::generation::BEATRICE_IN_SAMPLE_RATE;
use crate::generation::BEATRICE_OUT_HOP_LENGTH;
use crate::generation::BEATRICE_OUT_SAMPLE_RATE;
use crate::sample::append_block;
use crate::sample::combine_blocks;
use crate::sample::copy_block;
use crate::sample::copy_range;
use crate::sample::is_combined;
use crate::sample::Sample;
use vstd::prelude::*;

verus! {

/// Length of the filter of the resampler on the input side.
pub const INPUT_SINC_LEN: usize = 256;

/// Length of the filter of the resampler on the output side.
pub const OUTPUT_SINC_LEN: usize = 120;

/// Oversampling factor of both resamplers.
pub const OVERSAMPLING_FACTOR: usize = 256;

/// What a resampler is made with. The ratio of the rates is `to_rate` over
/// `from_rate`.
#[derive(Debug, Clone, Copy, PartialEq, Eq, Structural)]
pub struct ResamplerPlan {
    pub from_rate: u32,
    pub to_rate: u32,
    pub sinc_len: usize,
    pub oversampling_factor: usize,
    /// Frames that the resampler takes per call.
    pub chunk_size: usize,
    pub channels: usize,
}

/// The number of frames that a device at `sample_rate` delivers in ten
/// milliseconds: the chunk that the input resampler takes.
pub open spec fn spec_input_chunk_len(sample_rate: u32) -> nat {
    (sample_rate / 100) as nat
}

/// The number of frames that a device at `sample_rate` delivers in ten
/// milliseconds: the chunk that the input resampler takes.
pub fn input_chunk_len(sample_rate: u32) -> (len: usize)
    ensures
        len == spec_input_chunk_len(sample_rate),
{
    (sample_rate / 100) as usize
}

/// The plan of the resampler from a device's rate to the model's input rate.
pub fn input_plan(sample_rate: u32, channels: usize) -> (plan: ResamplerPlan)
    ensures
        plan == (ResamplerPlan {
            from_rate: sample_rate,
            to_rate: BEATRICE_IN_SAMPLE_RATE as u32,
            sinc_len: INPUT_SINC_LEN,
            oversampling_factor: OVERSAMPLING_FACTOR,
            chunk_size: spec_input_chunk_len(sample_rate) as usize,
            channels,
        }),
{
    ResamplerPlan {
        from_rate: sample_rate,
        to_rate: BEATRICE_IN_SAMPLE_RATE as u32,
        sinc_len: INPUT_SINC_LEN,
        oversampling_factor: OVERSAMPLING_FACTOR,
        chunk_size: input_chunk_len(sample_rate),
        channels,
    }
}

/// The plan of the resampler from the model's output rate to a device's rate.
pub fn output_plan(sample_rate: u32, channels: usize) -> (plan: ResamplerPlan)
    ensures
        plan == (ResamplerPlan {
            from_rate: BEATRICE_OUT_SAMPLE_RATE as u32,
            to_rate: sample_rate,
            sinc_len: OUTPUT_SINC_LEN,
            oversampling_factor: OVERSAMPLING_FACTOR,
            chunk_size: BEATRICE_OUT_HOP_LENGTH,
            channels,
        }),
{
    ResamplerPlan {
        from_rate: BEATRICE_OUT_SAMPLE_RATE as u32,
        to_rate: sample_rate,
        sinc_len: OUTPUT_SINC_LEN,
        oversampling_factor: OVERSAMPLING_FACTOR,
        chunk_size: BEATRICE_OUT_HOP_LENGTH,
        channels,
    }
}

/// The samples of an interleaved stereo block at the even places (`phase`
/// 0, the left channel) or at the odd places (`phase` 1, the right channel).
pub open spec fn every_other(input: Seq<Sample>, phase: int) -> Seq<Sample> {
    Seq::new(((input.len() + 1 - phase) / 2) as nat, |i: int| input[2 * i + phase])
}

/// Two channels woven into interleaved frames, as many as both channels have.
pub open spec fn interleaved(left: Seq<Sample>, right: Seq<Sample>) -> Seq<Sample> {
    Seq::new(
        (2 * if left.len() <= right.len() {
            left.len()
        } else {
            right.len()
        }) as nat,
        |i: int|
            if i % 2 == 0 {
                left[i / 2]
            } else {
                right[i / 2]
            },
    )
}

/// The whole frames of an interleaved stereo block as pairs of left and right.
pub open spec fn paired(input: Seq<Sample>) -> Seq<(Sample, Sample)> {
    Seq::new((input.len() / 2) as nat, |i: int| (input[2 * i], input[2 * i + 1]))
}

/// The number of whole chunks in a channel.
pub open spec fn chunk_count(len: nat, chunk_len: nat) -> nat
    recommends
        chunk_len > 0,
{
    len / chunk_len
}

/// The chunk at position `k` of a channel.
pub open spec fn chunk_at(channel: Seq<Sample>, chunk_len: nat, k: int) -> Seq<Sample> {
    channel.subrange(k * chunk_len, k * chunk_len + chunk_len)
}

/// Takes an interleaved stereo block apart into its left and right channel.
pub fn split_stereo(input: &[Sample]) -> (r: (Vec<Sample>, Vec<Sample>))
    ensures
        r.0@ == every_other(input@, 0),
        r.1@ == every_other(input@, 1),
{
    let mut left: Vec<Sample> = Vec::new();
    let mut right: Vec<Sample> = Vec::new();
    let mut i: usize = 0;
    while i < input.len()
        invariant
            i <= input.len(),
            left@ == every_other(input@.subrange(0, i as int), 0),
            right@ == every_other(input@.subrange(0, i as int), 1),
        decreases input.len() - i,
    {
        if i % 2 == 0 {
            left.push(input[i]);
        } else {
            right.push(input[i]);
        }
        i = i + 1;
    }
    (left, right)
}

/// Takes a device's block apart into two channels: a stereo block into left
/// and right, a block of any other layout into two copies of itself.
pub fn to_deinterleave(input: &[Sample], input_channel: u32) -> (r: (Vec<Sample>, Vec<Sample>))
    ensures
        input_channel == 2 ==> r.0@ == every_other(input@, 0) && r.1@ == every_other(input@, 1),
        input_channel != 2 ==> r.0@ == input@ && r.1@ == input@,
{
    if input_channel == 2 {
        split_stereo(input)
    } else {
        (copy_block(input), copy_block(input))
    }
}

/// The whole frames of an interleaved stereo block as pairs of left and
/// right, for the host to mix down. A sample without its partner at the end
/// is dropped.
pub fn stereo_frames(input: &[Sample]) -> (frames: Vec<(Sample, Sample)>)
    ensures
        frames@ == paired(input@),
{
    let n = input.len();
    let pairs: usize = n / 2;
    let mut frames: Vec<(Sample, Sample)> = Vec::new();
    let mut i: usize = 0;
    while i < pairs
        invariant
            i <= pairs,
            n == input@.len(),
            pairs == n / 2,
            frames@.len() == i,
            forall|k: int| 0 <= k < i ==> #[trigger] frames@[k] == (input@[2 * k], input@[2 * k + 1]),
        decreases pairs - i,
    {
        frames.push((input[2 * i], input[2 * i + 1]));
        i = i + 1;
    }
    frames
}

/// Makes two channels of a mono block: both are the block.
pub fn mono_to_stereo_planer(input: Vec<Sample>) -> (r: (Vec<Sample>, Vec<Sample>))
    ensures
        r.0@ == input@,
        r.1@ == input@,
{
    let copy = copy_block(input.as_slice());
    (copy, input)
}

/// Weaves two channels into interleaved frames, as many as both channels have.
pub fn interleave(left: &[Sample], right: &[Sample]) -> (out: Vec<Sample>)
    ensures
        out@ == interleaved(left@, right@),
{
    let frames: usize = if left.len() <= right.len() {
        left.len()
    } else {
        right.len()
    };
    let mut out: Vec<Sample> = Vec::new();
    let mut i: usize = 0;
    while i < frames
        invariant
            i <= frames,
            frames <= left@.len(),
            frames <= right@.len(),
            out@.len() == 2 * i,
            forall|k: int|
                0 <= k < 2 * i ==> #[trigger] out@[k] == if k % 2 == 0 {
                    left@[k / 2]
                } else {
                    right@[k / 2]
                },
        decreases frames - i,
    {
        out.push(left[i]);
        out.push(right[i]);
        i = i + 1;
    }
    out
}

/// Lays two channels out for a device: interleaved frames for a stereo
/// device, the first channel alone for any other.
pub fn to_interleave(left: Vec<Sample>, right: Vec<Sample>, output_channel: u32) -> (out: Vec<
    Sample,
>)
    ensures
        output_channel == 2 ==> out@ == interleaved(left@, right@),
        output_channel != 2 ==> out@ == left@,
{
    if output_channel == 2 {
        interleave(left.as_slice(), right.as_slice())
    } else {
        left
    }
}

/// Lays a mono block out for a stereo device: every sample twice.
pub fn duplicate_frames(mono: &[Sample]) -> (out: Vec<Sample>)
    ensures
        out@ == interleaved(mono@, mono@),
        out@.len() == 2 * mono@.len(),
{
    interleave(mono, mono)
}

/// Cuts a channel into chunks of `chunk_len` samples. Only whole chunks come
/// out: the samples after the last whole chunk are dropped.
pub fn full_chunks(channel: &[Sample], chunk_len: usize) -> (chunks: Vec<Vec<Sample>>)
    requires
        chunk_len > 0,
    ensures
        chunks@.len() == chunk_count(channel@.len(), chunk_len as nat),
        forall|k: int|
            0 <= k < chunks@.len() ==> (#[trigger] chunks@[k])@ == chunk_at(
                channel@,
                chunk_len as nat,
                k,
            ),
        forall|k: int| 0 <= k < chunks@.len() ==> (#[trigger] chunks@[k])@.len() == chunk_len,
{
    let n = channel.len();
    let count: usize = n / chunk_len;
    let mut chunks: Vec<Vec<Sample>> = Vec::new();
    let mut k: usize = 0;
    while k < count
        invariant
            k <= count,
            chunk_len > 0,
            n == channel@.len(),
            count == n as int / (chunk_len as int),
            chunks@.len() == k,
            forall|h: int|
                0 <= h < k ==> (#[trigger] chunks@[h])@ == chunk_at(channel@, chunk_len as nat, h),
            forall|h: int| 0 <= h < k ==> (#[trigger] chunks@[h])@.len() == chunk_len,
        decreases count - k,
    {
        proof {
            lemma_chunk_in_bounds(channel@.len() as int, chunk_len as int, k as int);
        }
        let start: usize = k * chunk_len;
        let chunk = copy_range(channel, start, chunk_len);
        chunks.push(chunk);
        k = k + 1;
    }
    chunks
}

/// A whole chunk lies inside its channel.
proof fn lemma_chunk_in_bounds(len: int, chunk_len: int, k: int)
    requires
        0 <= len,
        0 < chunk_len,
        0 <= k < len / chunk_len,
    ensures
        0 <= k * chunk_len,
        k * chunk_len + chunk_len <= len,
{
    assert(k * chunk_len + chunk_len == (k + 1) * chunk_len) by (nonlinear_arith);
    assert((k + 1) * chunk_len <= (len / chunk_len) * chunk_len) by (nonlinear_arith)
        requires
            k + 1 <= len / chunk_len,
            0 < chunk_len,
    ;
    assert((len / chunk_len) * chunk_len <= len) by (nonlinear_arith)
        requires
            0 < chunk_len,
            0 <= len,
    ;
    assert(0 <= k * chunk_len) by (nonlinear_arith)
        requires
            0 <= k,
            0 < chunk_len,
    ;
}

/// Cuts a channel into chunks where the chunk length is not zero; with a
/// chunk length of zero there is nothing to cut into.
pub fn checked_full_chunks(channel: &[Sample], chunk_len: usize) -> (r: Option<Vec<Vec<Sample>>>)
    ensures
        r is Some <==> chunk_len > 0,
        r is Some ==> {
            &&& r->0@.len() == chunk_count(channel@.len(), chunk_len as nat)
            &&& forall|k: int|
                0 <= k < r->0@.len() ==> (#[trigger] r->0@[k])@ == chunk_at(
                    channel@,
                    chunk_len as nat,
                    k,
                )
        },
{
    if chunk_len == 0 {
        None
    } else {
        Some(full_chunks(channel, chunk_len))
    }
}

/// The channel layouts that a device may have.
#[derive(Debug, Clone, Copy, PartialEq, Eq, Structural)]
pub enum ChannelLayout {
    Mono,
    Stereo,
}

impl ChannelLayout {
    /// The layout of a device with `channels` channels; `None` for a number
    /// of channels that the pipeline does not handle.
    pub fn from_count(channels: u32) -> (r: Option<ChannelLayout>)
        ensures
            channels == 1 ==> r == Some(ChannelLayout::Mono),
            channels == 2 ==> r == Some(ChannelLayout::Stereo),
            channels != 1 && channels != 2 ==> r is None,
    {
        if channels == 1 {
            Some(ChannelLayout::Mono)
        } else if channels == 2 {
            Some(ChannelLayout::Stereo)
        } else {
            None
        }
    }

    /// The number of channels of the layout.
    pub fn count(self) -> (n: u32)
        ensures
            n == match self {
                ChannelLayout::Mono => 1u32,
                ChannelLayout::Stereo => 2u32,
            },
    {
        match self {
            ChannelLayout::Mono => 1,
            ChannelLayout::Stereo => 2,
        }
    }
}

/// The formats of the devices on both sides of the model.
#[derive(Debug, Clone, Copy, PartialEq, Eq, Structural)]
pub struct Resamplers {
    pub in_sample_rate: u32,
    pub out_sample_rate: u32,
    pub input_channel: u32,
    pub output_channel: u32,
}

/// The chunks of two channels that are resampled together: the first whole
/// chunks of each, as many as both have.
pub open spec fn paired_chunk_count(left: nat, right: nat, chunk_len: nat) -> nat
    recommends
        chunk_len > 0,
{
    if chunk_count(left, chunk_len) <= chunk_count(right, chunk_len) {
        chunk_count(left, chunk_len)
    } else {
        chunk_count(right, chunk_len)
    }
}

impl Resamplers {
    /// The formats as given.
    pub fn new(in_sample_rate: u32, out_sample_rate: u32, input_channel: u32, output_channel: u32) -> (r:
        Resamplers)
        ensures
            r == (Resamplers { in_sample_rate, out_sample_rate, input_channel, output_channel }),
    {
        Resamplers { in_sample_rate, out_sample_rate, input_channel, output_channel }
    }

    /// Takes the format of another input device and gives the plan of the
    /// resampler for it.
    pub fn set_input_setting(&mut self, sample_rate: u32, channel: u32) -> (plan: ResamplerPlan)
        ensures
            *final(self) == (Resamplers {
                in_sample_rate: sample_rate,
                input_channel: channel,
                ..*old(self)
            }),
            plan == final(self).spec_input_plan(),
    {
        self.in_sample_rate = sample_rate;
        self.input_channel = channel;
        self.input_resampler()
    }

    /// Takes the format of another output device and gives the plan of the
    /// resampler for it.
    pub fn set_output_setting(&mut self, sample_rate: u32, channel: u32) -> (plan: ResamplerPlan)
        ensures
            *final(self) == (Resamplers {
                out_sample_rate: sample_rate,
                output_channel: channel,
                ..*old(self)
            }),
            plan == final(self).spec_output_plan(),
    {
        self.out_sample_rate = sample_rate;
        self.output_channel = channel;
        self.output_resampler()
    }

    /// The plan of the resampler on the input side. It always works on two
    /// channels: a mono device's channel is doubled.
    pub open spec fn spec_input_plan(self) -> ResamplerPlan {
        ResamplerPlan {
            from_rate: self.in_sample_rate,
            to_rate: BEATRICE_IN_SAMPLE_RATE as u32,
            sinc_len: INPUT_SINC_LEN,
            oversampling_factor: OVERSAMPLING_FACTOR,
            chunk_size: spec_input_chunk_len(self.in_sample_rate) as usize,
            channels: 2,
        }
    }

    /// The plan of the resampler on the output side. It always works on two
    /// channels.
    pub open spec fn spec_output_plan(self) -> ResamplerPlan {
        ResamplerPlan {
            from_rate: BEATRICE_OUT_SAMPLE_RATE as u32,
            to_rate: self.out_sample_rate,
            sinc_len: OUTPUT_SINC_LEN,
            oversampling_factor: OVERSAMPLING_FACTOR,
            chunk_size: BEATRICE_OUT_HOP_LENGTH,
            channels: 2,
        }
    }

    /// The plan of the resampler on the input side.
    pub fn input_resampler(&self) -> (plan: ResamplerPlan)
        ensures
            plan == self.spec_input_plan(),
    {
        input_plan(self.in_sample_rate, 2)
    }

    /// The plan of the resampler on the output side.
    pub fn output_resampler(&self) -> (plan: ResamplerPlan)
        ensures
            plan == self.spec_output_plan(),
    {
        output_plan(self.out_sample_rate, 2)
    }

    /// The chunks of a captured block for the input resampler: the block is
    /// taken apart into two channels, which are cut into the chunks that are
    /// resampled together, ten milliseconds each. What is left over after the last
    /// whole chunk is dropped. `None` for a device so slow that ten
    /// milliseconds hold no frame.
    pub fn input_chunks(&self, input: &[Sample]) -> (r: Option<Vec<(Vec<Sample>, Vec<Sample>)>>)
        ensures
            r is Some <==> spec_input_chunk_len(self.in_sample_rate) > 0,
            r is Some ==> are_paired_chunks(
                r->0@,
                self.spec_left(input@),
                self.spec_right(input@),
                spec_input_chunk_len(self.in_sample_rate),
            ),
    {
        let chunk_len = input_chunk_len(self.in_sample_rate);
        if chunk_len == 0 {
            return None;
        }
        let (left, right) = to_deinterleave(input, self.input_channel);
        Some(paired_chunks(left.as_slice(), right.as_slice(), chunk_len))
    }

    /// The chunks of a block of the model for the output resampler: the block
    /// is doubled into two channels, which are cut into chunks of one hop.
    /// What is left over after the last whole chunk is dropped.
    pub fn output_chunks(&self, processed: &[Sample]) -> (chunks: Vec<(Vec<Sample>, Vec<Sample>)>)
        ensures
            are_paired_chunks(chunks@, processed@, processed@, BEATRICE_OUT_HOP_LENGTH as nat),
    {
        paired_chunks(processed, processed, BEATRICE_OUT_HOP_LENGTH)
    }

    /// The left channel of a captured block: the even samples of a stereo
    /// block, the block itself for any other layout.
    pub open spec fn spec_left(self, input: Seq<Sample>) -> Seq<Sample> {
        if self.input_channel == 2 {
            every_other(input, 0)
        } else {
            input
        }
    }

    /// The right channel of a captured block: the odd samples of a stereo
    /// block, the block itself for any other layout.
    pub open spec fn spec_right(self, input: Seq<Sample>) -> Seq<Sample> {
        if self.input_channel == 2 {
            every_other(input, 1)
        } else {
            input
        }
    }

    /// Brings a captured block to the model: takes it apart into two
    /// channels, hands them to `resample` in chunks of ten milliseconds, puts
    /// the resampled chunks together and mixes the two channels down to one
    /// with `mix`. What is left over after the last whole chunk is dropped.
    /// `None` for a device so slow that ten milliseconds hold no frame.
    pub fn convert_from_beatrice_input<
        R: Fn(&Vec<Sample>, &Vec<Sample>) -> (Vec<Sample>, Vec<Sample>),
        M: Fn(Sample, Sample) -> Sample,
    >(&self, input: &[Sample], resample: R, mix: M) -> (r: Option<Vec<Sample>>)
        requires
            forall|l: Vec<Sample>, r: Vec<Sample>| call_requires(resample, (&l, &r)),
            forall|l: Sample, r: Sample| call_requires(mix, (l, r)),
        ensures
            r is Some <==> spec_input_chunk_len(self.in_sample_rate) > 0,
            r is Some ==> exists|
                chunks: Seq<(Vec<Sample>, Vec<Sample>)>,
                resampled: Seq<(Vec<Sample>, Vec<Sample>)>,
            |
                {
                    &&& are_paired_chunks(
                        chunks,
                        self.spec_left(input@),
                        self.spec_right(input@),
                        spec_input_chunk_len(self.in_sample_rate),
                    )
                    &&& #[trigger] is_resampled(resample, chunks, resampled)
                    &&& is_combined(
                        mix,
                        joined(firsts(resampled)),
                        joined(seconds(resampled)),
                        r->0@,
                    )
                },
    {
        match self.input_chunks(input) {
            None => None,
            Some(chunks) => {
                let (left, right) = resample_chunks(&chunks, resample);
                Some(stereo_to_mono_planer(left.as_slice(), right.as_slice(), mix))
            },
        }
    }

    /// Brings a block of the model to the output device: doubles it into two
    /// channels, hands them to `resample` in chunks of one hop, puts the
    /// resampled chunks together and lays them out for the device. What is
    /// left over after the last whole chunk is dropped.
    pub fn convert_from_beatrice_output<
        R: Fn(&Vec<Sample>, &Vec<Sample>) -> (Vec<Sample>, Vec<Sample>),
    >(&self, processed: &[Sample], resample: R) -> (out: Vec<Sample>)
        requires
            forall|l: Vec<Sample>, r: Vec<Sample>| call_requires(resample, (&l, &r)),
        ensures
            exists|
                chunks: Seq<(Vec<Sample>, Vec<Sample>)>,
                resampled: Seq<(Vec<Sample>, Vec<Sample>)>,
            |
                {
                    &&& are_paired_chunks(
                        chunks,
                        processed@,
                        processed@,
                        BEATRICE_OUT_HOP_LENGTH as nat,
                    )
                    &&& #[trigger] is_resampled(resample, chunks, resampled)
                    &&& out@ == if self.output_channel == 2 {
                        interleaved(joined(firsts(resampled)), joined(seconds(resampled)))
                    } else {
                        joined(firsts(resampled))
                    }
                },
    {
        let chunks = self.output_chunks(processed);
        let (left, right) = resample_chunks(&chunks, resample);
        self.to_interleave(left, right)
    }

    /// Lays the resampled channels out for the output device.
    pub fn to_interleave(&self, left: Vec<Sample>, right: Vec<Sample>) -> (out: Vec<Sample>)
        ensures
            self.output_channel == 2 ==> out@ == interleaved(left@, right@),
            self.output_channel != 2 ==> out@ == left@,
    {
        to_interleave(left, right, self.output_channel)
    }
}

/// Whether `chunks` are the chunks of two channels that are resampled
/// together: the first whole chunks of each, as many as both have.
pub open spec fn are_paired_chunks(
    chunks: Seq<(Vec<Sample>, Vec<Sample>)>,
    left: Seq<Sample>,
    right: Seq<Sample>,
    chunk_len: nat,
) -> bool {
    &&& chunks.len() == paired_chunk_count(left.len(), right.len(), chunk_len)
    &&& forall|k: int|
        0 <= k < chunks.len() ==> {
            &&& (#[trigger] chunks[k]).0@ == chunk_at(left, chunk_len, k)
            &&& chunks[k].1@ == chunk_at(right, chunk_len, k)
        }
}

/// The first channels of a list of channel pairs.
pub open spec fn firsts(pairs: Seq<(Vec<Sample>, Vec<Sample>)>) -> Seq<Vec<Sample>> {
    Seq::new(pairs.len(), |i: int| pairs[i].0)
}

/// The second channels of a list of channel pairs.
pub open spec fn seconds(pairs: Seq<(Vec<Sample>, Vec<Sample>)>) -> Seq<Vec<Sample>> {
    Seq::new(pairs.len(), |i: int| pairs[i].1)
}

/// Whether `resampled` is what `resample` made of `chunks`, chunk by chunk.
pub open spec fn is_resampled<R: Fn(&Vec<Sample>, &Vec<Sample>) -> (Vec<Sample>, Vec<Sample>)>(
    resample: R,
    chunks: Seq<(Vec<Sample>, Vec<Sample>)>,
    resampled: Seq<(Vec<Sample>, Vec<Sample>)>,
) -> bool {
    &&& resampled.len() == chunks.len()
    &&& forall|k: int|
        0 <= k < chunks.len() ==> call_ensures(
            resample,
            (&chunks[k].0, &chunks[k].1),
            #[trigger] resampled[k],
        )
}

/// Mixes two channels down to one, frame by frame, as many frames as both
/// channels have. `mix` makes one sample of a left and a right sample.
pub fn stereo_to_mono_planer<M: Fn(Sample, Sample) -> Sample>(
    left: &[Sample],
    right: &[Sample],
    mix: M,
) -> (mono: Vec<Sample>)
    requires
        forall|l: Sample, r: Sample| call_requires(mix, (l, r)),
    ensures
        is_combined(mix, left@, right@, mono@),
{
    combine_blocks(left, right, mix)
}

/// Hands every pair of chunks to `resample` and puts what comes back one
/// after the other, channel by channel.
pub fn resample_chunks<R: Fn(&Vec<Sample>, &Vec<Sample>) -> (Vec<Sample>, Vec<Sample>)>(
    chunks: &Vec<(Vec<Sample>, Vec<Sample>)>,
    resample: R,
) -> (r: (Vec<Sample>, Vec<Sample>))
    requires
        forall|l: Vec<Sample>, r: Vec<Sample>| call_requires(resample, (&l, &r)),
    ensures
        exists|resampled: Seq<(Vec<Sample>, Vec<Sample>)>| #[trigger]
            is_resampled(resample, chunks@, resampled) && r.0@ == joined(firsts(resampled)) && r.1@
                == joined(seconds(resampled)),
{
    let mut left: Vec<Sample> = Vec::new();
    let mut right: Vec<Sample> = Vec::new();
    let ghost mut resampled: Seq<(Vec<Sample>, Vec<Sample>)> = Seq::empty();
    let mut k: usize = 0;
    while k < chunks.len()
        invariant
            k <= chunks.len(),
            forall|l: Vec<Sample>, r: Vec<Sample>| call_requires(resample, (&l, &r)),
            resampled.len() == k,
            forall|h: int|
                0 <= h < k ==> call_ensures(
                    resample,
                    (&chunks@[h].0, &chunks@[h].1),
                    #[trigger] resampled[h],
                ),
            left@ == joined(firsts(resampled)),
            right@ == joined(seconds(resampled)),
        decreases chunks.len() - k,
    {
        let pair = resample(&chunks[k].0, &chunks[k].1);
        let ghost before = resampled;
        proof {
            resampled = resampled.push(pair);
            assert(firsts(resampled).drop_last() =~= firsts(before));
            assert(seconds(resampled).drop_last() =~= seconds(before));
        }
        append_block(&mut left, pair.0.as_slice());
        append_block(&mut right, pair.1.as_slice());
        k = k + 1;
    }
    proof {
        assert(is_resampled(resample, chunks@, resampled));
    }
    (left, right)
}

/// Cuts two channels into the chunks that are resampled together: the first
/// whole chunks of each, as many as both have.
pub fn paired_chunks(left: &[Sample], right: &[Sample], chunk_len: usize) -> (chunks: Vec<
    (Vec<Sample>, Vec<Sample>),
>)
    requires
        chunk_len > 0,
    ensures
        are_paired_chunks(chunks@, left@, right@, chunk_len as nat),
{
    let left_len = left.len();
    let right_len = right.len();
    let left_count: usize = left_len / chunk_len;
    let right_count: usize = right_len / chunk_len;
    let count: usize = if left_count <= right_count {
        left_count
    } else {
        right_count
    };
    let mut chunks: Vec<(Vec<Sample>, Vec<Sample>)> = Vec::new();
    let mut k: usize = 0;
    while k < count
        invariant
            k <= count,
            chunk_len > 0,
            left_len == left@.len(),
            right_len == right@.len(),
            count <= left_len as int / (chunk_len as int),
            count <= right_len as int / (chunk_len as int),
            chunks@.len() == k,
            forall|h: int|
                0 <= h < k ==> {
                    &&& (#[trigger] chunks@[h]).0@ == chunk_at(left@, chunk_len as nat, h)
                    &&& chunks@[h].1@ == chunk_at(right@, chunk_len as nat, h)
                },
        decreases count - k,
    {
        proof {
            lemma_chunk_in_bounds(left_len as int, chunk_len as int, k as int);
            lemma_chunk_in_bounds(right_len as int, chunk_len as int, k as int);
        }
        let start: usize = k * chunk_len;
        let l = copy_range(left, start, chunk_len);
        let r = copy_range(right, start, chunk_len);
        chunks.push((l, r));
        k = k + 1;
    }
    chunks
}

/// Taking a stereo block apart and weaving it together again gives the block
/// back, up to a last sample without its partner.
pub proof fn lemma_split_then_interleave(input: Seq<Sample>)
    ensures
        interleaved(every_other(input, 0), every_other(input, 1)) == input.subrange(
            0,
            2 * (input.len() as int / 2),
        ),
{
}

/// Weaving two channels of one length and taking the frames apart again
/// gives the channels back.
pub proof fn lemma_interleave_then_split(left: Seq<Sample>, right: Seq<Sample>)
    requires
        left.len() == right.len(),
    ensures
        every_other(interleaved(left, right), 0) == left,
        every_other(interleaved(left, right), 1) == right,
{
}

/// The whole chunks of a channel hold its samples in order; at most one
/// chunk's length less one sample is dropped at the end.
pub proof fn lemma_chunks_drop_less_than_one(len: nat, chunk_len: nat)
    requires
        chunk_len > 0,
    ensures
        chunk_count(len, chunk_len) * chunk_len <= len,
        len - chunk_count(len, chunk_len) * chunk_len < chunk_len,
{
    assert((len / chunk_len) * chunk_len <= len && len - (len / chunk_len) * chunk_len
        < chunk_len) by (nonlinear_arith)
        requires
            chunk_len > 0,
    ;
}

} // verus!
