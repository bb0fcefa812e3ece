//! Cutting a stream into the hops that the model converts.
//!
//! The model takes 160 samples at a time and gives 240 back. A stream comes
//! in blocks of any length. Only whole hops are converted: the samples after
//! the last whole hop are held and stand before the next block, so that no
//! sample is lost and none is made up.

use crate::generation::BEATRICE_IN_HOP_LENGTH;
use crate::generation::BEATRICE_OUT_HOP_LENGTH;
use crate::layout::chunk_at;
use crate::layout::chunk_count;
use crate::layout::full_chunks;
use crate::sample::append_block;
use crate::sample::copy_block;
use crate::sample::copy_range;
use crate::sample::Sample;
use vstd::prelude::*;

verus! {

/// The number of whole hops in a stream of `len` samples.
pub open spec fn hop_count(len: nat) -> nat {
    chunk_count(len, BEATRICE_IN_HOP_LENGTH as nat)
}

/// The hop at position `k` of a stream: its 160 samples from `160 * k` on.
pub open spec fn hop_at(stream: Seq<Sample>, k: int) -> Seq<Sample> {
    chunk_at(stream, BEATRICE_IN_HOP_LENGTH as nat, k)
}

/// What is held of a stream after its whole hops were taken: the samples
/// after the last whole hop, fewer than a hop.
pub open spec fn held_after(stream: Seq<Sample>) -> Seq<Sample> {
    stream.skip(BEATRICE_IN_HOP_LENGTH * hop_count(stream.len()))
}

/// The blocks of `hops` one after the other.
pub open spec fn joined(hops: Seq<Vec<Sample>>) -> Seq<Sample>
    decreases hops.len(),
{
    if hops.len() == 0 {
        Seq::empty()
    } else {
        joined(hops.drop_last()) + hops.last()@
    }
}

/// Cuts the stream that is made of the samples held so far and a new block
/// into its whole hops, and gives the samples after the last whole hop to
/// be held for the next block.
pub fn split_hops(held: &[Sample], input: &[Sample]) -> (r: (Vec<Vec<Sample>>, Vec<Sample>))
    ensures
        r.0@.len() == hop_count((held@ + input@).len()),
        forall|k: int| 0 <= k < r.0@.len() ==> (#[trigger] r.0@[k])@ == hop_at(held@ + input@, k),
        forall|k: int| 0 <= k < r.0@.len() ==> (#[trigger] r.0@[k])@.len() == BEATRICE_IN_HOP_LENGTH,
        r.1@ == held_after(held@ + input@),
        r.1@.len() < BEATRICE_IN_HOP_LENGTH,
{
    let mut stream = copy_block(held);
    append_block(&mut stream, input);
    let len = stream.len();
    let hops = full_chunks(stream.as_slice(), BEATRICE_IN_HOP_LENGTH);
    let taken: usize = (len / BEATRICE_IN_HOP_LENGTH) * BEATRICE_IN_HOP_LENGTH;
    let rest = copy_range(stream.as_slice(), taken, len - taken);
    (hops, rest)
}

/// Puts converted blocks one after the other.
pub fn join_hops(hops: &Vec<Vec<Sample>>) -> (out: Vec<Sample>)
    ensures
        out@ == joined(hops@),
{
    let mut out: Vec<Sample> = Vec::new();
    let mut i: usize = 0;
    while i < hops.len()
        invariant
            i <= hops.len(),
            out@ == joined(hops@.subrange(0, i as int)),
        decreases hops.len() - i,
    {
        append_block(&mut out, hops[i].as_slice());
        i = i + 1;
        assert(hops@.subrange(0, i as int).drop_last() =~= hops@.subrange(0, i - 1));
    }
    assert(hops@.subrange(0, hops@.len() as int) =~= hops@);
    out
}

/// No sample of a stream is lost or made up: every sample is in its hop at
/// its place or among the samples held, fewer than a hop are held, and the
/// hops and the held samples together are as long as the stream.
pub proof fn lemma_hops_and_held_are_the_stream(stream: Seq<Sample>, i: int)
    requires
        0 <= i < stream.len(),
    ensures
        held_after(stream).len() < BEATRICE_IN_HOP_LENGTH,
        hop_count(stream.len()) * BEATRICE_IN_HOP_LENGTH + held_after(stream).len()
            == stream.len(),
        i < hop_count(stream.len()) * BEATRICE_IN_HOP_LENGTH ==> hop_at(
            stream,
            i / (BEATRICE_IN_HOP_LENGTH as int),
        )[i % (BEATRICE_IN_HOP_LENGTH as int)] == stream[i],
        i >= hop_count(stream.len()) * BEATRICE_IN_HOP_LENGTH ==> held_after(stream)[i
            - hop_count(stream.len()) * BEATRICE_IN_HOP_LENGTH] == stream[i],
{
}

/// What is held after one block stands before the next: cutting two blocks
/// one after the other converts the same hops as cutting them as one
/// stream, and holds the same samples.
pub proof fn lemma_held_carries_over(held: Seq<Sample>, first: Seq<Sample>, second: Seq<Sample>)
    requires
        held.len() < BEATRICE_IN_HOP_LENGTH,
    ensures
        hop_count((held + first).len()) + hop_count((held_after(held + first) + second).len())
            == hop_count((held + first + second).len()),
        held_after(held_after(held + first) + second) == held_after(held + first + second),
        forall|k: int|
            0 <= k < hop_count((held_after(held + first) + second).len()) ==> #[trigger] hop_at(
                held_after(held + first) + second,
                k,
            ) == hop_at(held + first + second, hop_count((held + first).len()) + k),
{
}

/// Blocks of one length, put one after the other, are as long as their
/// number times that length: converted hops make 240 samples each.
pub proof fn lemma_joined_len(hops: Seq<Vec<Sample>>, len: nat)
    requires
        forall|k: int| 0 <= k < hops.len() ==> (#[trigger] hops[k])@.len() == len,
    ensures
        joined(hops).len() == hops.len() * len,
    decreases hops.len(),
{
    if hops.len() > 0 {
        lemma_joined_len(hops.drop_last(), len);
        assert(hops.len() * len == (hops.len() - 1) * len + len) by (nonlinear_arith);
    } else {
        assert(hops.len() * len == 0) by (nonlinear_arith)
            requires
                hops.len() == 0,
        ;
    }
}

/// The number of samples that the conversion of a stream gives back.
pub open spec fn converted_len(len: nat) -> nat {
    (hop_count(len) * BEATRICE_OUT_HOP_LENGTH) as nat
}

} // verus!
