//! How the library carries audio samples and real-valued settings.

use vstd::prelude::*;

verus! {

/// One audio sample: the IEEE-754 binary32 bit pattern of its value.
pub type Sample = u32;

/// A real-valued setting: the IEEE-754 binary64 bit pattern of its value.
pub type Scalar = u64;

/// The sample whose value is zero.
pub const SILENCE: Sample = 0;

/// A block of `n` samples of silence.
pub open spec fn silence(n: nat) -> Seq<Sample> {
    Seq::new(n, |i: int| SILENCE)
}

/// A block of `n` samples of silence.
pub fn silence_block(n: usize) -> (block: Vec<Sample>)
    ensures
        block@ == silence(n as nat),
{
    let mut block: Vec<Sample> = Vec::new();
    let mut i: usize = 0;
    while i < n
        invariant
            i <= n,
            block@ == silence(i as nat),
        decreases n - i,
    {
        block.push(SILENCE);
        i = i + 1;
    }
    block
}

/// A copy of a block of samples.
pub fn copy_block(block: &[Sample]) -> (copy: Vec<Sample>)
    ensures
        copy@ == block@,
{
    let mut copy: Vec<Sample> = Vec::new();
    let mut i: usize = 0;
    while i < block.len()
        invariant
            i <= block.len(),
            copy@ == block@.subrange(0, i as int),
        decreases block.len() - i,
    {
        copy.push(block[i]);
        i = i + 1;
    }
    copy
}

/// A copy of `len` samples of a channel from `start` on.
pub fn copy_range(channel: &[Sample], start: usize, len: usize) -> (out: Vec<Sample>)
    requires
        start + len <= channel@.len(),
    ensures
        out@ == channel@.subrange(start as int, start + len),
        out@.len() == len,
{
    let n = channel.len();
    let mut out: Vec<Sample> = Vec::new();
    let mut j: usize = 0;
    while j < len
        invariant
            j <= len,
            start + len <= n,
            n == channel@.len(),
            out@ == channel@.subrange(start as int, start + j),
        decreases len - j,
    {
        out.push(channel[start + j]);
        j = j + 1;
    }
    out
}

/// Puts a block after what is already there.
pub fn append_block(out: &mut Vec<Sample>, block: &[Sample])
    ensures
        final(out)@ == old(out)@ + block@,
{
    let ghost before = out@;
    let mut j: usize = 0;
    while j < block.len()
        invariant
            j <= block.len(),
            out@ == before + block@.subrange(0, j as int),
        decreases block.len() - j,
    {
        out.push(block[j]);
        j = j + 1;
    }
}

/// Whether `out` is what `combine` made of two blocks, sample by sample,
/// as many samples as both blocks have.
pub open spec fn is_combined<F: Fn(Sample, Sample) -> Sample>(
    combine: F,
    left: Seq<Sample>,
    right: Seq<Sample>,
    out: Seq<Sample>,
) -> bool {
    &&& out.len() == if left.len() <= right.len() {
        left.len()
    } else {
        right.len()
    }
    &&& forall|i: int|
        0 <= i < out.len() ==> call_ensures(combine, (left[i], right[i]), #[trigger] out[i])
}

/// Whether `out` is what `apply` made of a block and one setting, sample by
/// sample.
pub open spec fn is_applied<F: Fn(Sample, Sample) -> Sample>(
    apply: F,
    block: Seq<Sample>,
    setting: Sample,
    out: Seq<Sample>,
) -> bool {
    &&& out.len() == block.len()
    &&& forall|i: int| 0 <= i < out.len() ==> call_ensures(apply, (block[i], setting), #[trigger] out[i])
}

/// Combines two blocks sample by sample, as many samples as both have.
/// `combine` makes one sample of two; the arithmetic is its own.
pub fn combine_blocks<F: Fn(Sample, Sample) -> Sample>(
    left: &[Sample],
    right: &[Sample],
    combine: F,
) -> (out: Vec<Sample>)
    requires
        forall|l: Sample, r: Sample| call_requires(combine, (l, r)),
    ensures
        is_combined(combine, left@, right@, out@),
{
    let frames: usize = if left.len() <= right.len() {
        left.len()
    } else {
        right.len()
    };
    let mut out: Vec<Sample> = Vec::new();
    let mut i: usize = 0;
    while i < frames
        invariant
            i <= frames,
            frames <= left@.len(),
            frames <= right@.len(),
            out@.len() == i,
            forall|l: Sample, r: Sample| call_requires(combine, (l, r)),
            forall|k: int|
                0 <= k < i ==> call_ensures(combine, (left@[k], right@[k]), #[trigger] out@[k]),
        decreases frames - i,
    {
        out.push(combine(left[i], right[i]));
        i = i + 1;
    }
    out
}

/// Applies one setting to every sample of a block. `apply` makes one sample
/// of a sample and the setting; the arithmetic is its own.
pub fn apply_to_block<F: Fn(Sample, Sample) -> Sample>(
    block: &[Sample],
    setting: Sample,
    apply: F,
) -> (out: Vec<Sample>)
    requires
        forall|s: Sample, g: Sample| call_requires(apply, (s, g)),
    ensures
        is_applied(apply, block@, setting, out@),
{
    let mut out: Vec<Sample> = Vec::new();
    let mut i: usize = 0;
    while i < block.len()
        invariant
            i <= block.len(),
            out@.len() == i,
            forall|s: Sample, g: Sample| call_requires(apply, (s, g)),
            forall|k: int| 0 <= k < i ==> call_ensures(apply, (block@[k], setting), #[trigger] out@[k]),
        decreases block.len() - i,
    {
        out.push(apply(block[i], setting));
        i = i + 1;
    }
    out
}

} // verus!
