//! Embedding tables and the warm-up of key/value speaker embeddings.
//!
//! A table is a flat array of rows of one width, one row per speaker or per
//! formant-shift position. Rows are addressed by position and every access
//! is proved to stay inside the table.

use crate::generation::BEATRICE_20RC0_N_BLOCKS;
use crate::sample::silence;
use crate::sample::silence_block;
use crate::sample::Sample;
use vstd::prelude::*;

verus! {

/// A table of `rows` rows of `width` samples each.
pub struct EmbeddingTable {
    data: Vec<Sample>,
    rows: usize,
    width: usize,
}

/// The product of two lengths is monotonic in the first.
proof fn lemma_row_bounds(row: int, rows: int, width: int)
    requires
        0 <= row < rows,
        0 <= width,
    ensures
        0 <= row * width,
        row * width + width <= rows * width,
{
    assert(row * width + width == (row + 1) * width) by (nonlinear_arith);
    assert((row + 1) * width <= rows * width) by (nonlinear_arith)
        requires
            row + 1 <= rows,
            0 <= width,
    ;
    assert(0 <= row * width) by (nonlinear_arith)
        requires
            0 <= row,
            0 <= width,
    ;
}

impl EmbeddingTable {
    /// The table holds exactly its rows.
    #[verifier::type_invariant]
    spec fn inv(&self) -> bool {
        self.data@.len() == self.rows * self.width
    }

    /// Number of rows.
    pub closed spec fn spec_rows(&self) -> nat {
        self.rows as nat
    }

    /// Length of each row.
    pub closed spec fn spec_width(&self) -> nat {
        self.width as nat
    }

    /// All samples of the table, row after row.
    pub closed spec fn samples(&self) -> Seq<Sample> {
        self.data@
    }

    /// The samples of one row.
    pub open spec fn spec_row(&self, row: int) -> Seq<Sample> {
        self.samples().subrange(row * self.spec_width(), row * self.spec_width() + self.spec_width())
    }

    /// A table of zeros. `None` where the table would not fit in memory.
    pub fn zeroed(rows: usize, width: usize) -> (r: Option<EmbeddingTable>)
        ensures
            r is Some <==> rows * width <= usize::MAX,
            r is Some ==> {
                &&& r->0.spec_rows() == rows
                &&& r->0.spec_width() == width
                &&& r->0.samples() == silence((rows * width) as nat)
            },
    {
        match rows.checked_mul(width) {
            Some(len) => Some(EmbeddingTable { data: silence_block(len), rows, width }),
            None => None,
        }
    }

    /// A table over the given samples. `None` where they are not `rows` rows
    /// of `width` samples.
    pub fn from_samples(rows: usize, width: usize, data: Vec<Sample>) -> (r: Option<
        EmbeddingTable,
    >)
        ensures
            r is Some <==> data@.len() == rows * width,
            r is Some ==> {
                &&& r->0.spec_rows() == rows
                &&& r->0.spec_width() == width
                &&& r->0.samples() == data@
            },
    {
        let given = data.len();
        match rows.checked_mul(width) {
            Some(len) => {
                if given == len {
                    Some(EmbeddingTable { data, rows, width })
                } else {
                    None
                }
            },
            None => None,
        }
    }

    /// Number of rows.
    pub fn rows(&self) -> (n: usize)
        ensures
            n == self.spec_rows(),
    {
        self.rows
    }

    /// Length of each row.
    pub fn width(&self) -> (n: usize)
        ensures
            n == self.spec_width(),
    {
        self.width
    }

    /// All samples of the table, row after row.
    pub fn as_slice(&self) -> (s: &[Sample])
        ensures
            s@ == self.samples(),
            s@.len() == self.spec_rows() * self.spec_width(),
    {
        proof {
            use_type_invariant(self);
        }
        self.data.as_slice()
    }

    /// Where a row begins in the flat array. `None` for a row that the table
    /// does not have.
    pub fn offset(&self, row: usize) -> (r: Option<usize>)
        ensures
            r is Some <==> row < self.spec_rows(),
            r is Some ==> r->0 == row * self.spec_width(),
            r is Some ==> r->0 + self.spec_width() <= self.samples().len(),
    {
        proof {
            use_type_invariant(self);
        }
        let len = self.data.len();
        if row < self.rows {
            proof {
                lemma_row_bounds(row as int, self.rows as int, self.width as int);
            }
            Some(row * self.width)
        } else {
            None
        }
    }

    /// The samples of one row. `None` for a row that the table does not have.
    pub fn row(&self, row: usize) -> (r: Option<Vec<Sample>>)
        ensures
            r is Some <==> row < self.spec_rows(),
            r is Some ==> r->0@ == self.spec_row(row as int),
            r is Some ==> r->0@.len() == self.spec_width(),
    {
        proof {
            use_type_invariant(self);
        }
        match self.offset(row) {
            None => None,
            Some(start) => {
                let len = self.data.len();
                let mut out: Vec<Sample> = Vec::new();
                let mut i: usize = 0;
                while i < self.width
                    invariant
                        i <= self.width,
                        len == self.data@.len(),
                        start + self.width <= self.data@.len(),
                        out@ == self.data@.subrange(start as int, start + i),
                    decreases self.width - i,
                {
                    out.push(self.data[start + i]);
                    i = i + 1;
                }
                Some(out)
            },
        }
    }
}

/// How far the key/value speaker embedding of the current speaker is
/// installed: the number of blocks that were fed, from none to all.
#[derive(Debug, Clone, Copy, PartialEq, Eq, Structural)]
pub struct KeyValueWarmup {
    pub warmed_count: usize,
}

impl KeyValueWarmup {
    /// Whether every block was fed.
    pub open spec fn spec_is_warm(self) -> bool {
        self.warmed_count >= BEATRICE_20RC0_N_BLOCKS
    }

    /// The warm-up after one more conversion step, and the block that the
    /// step has to feed.
    pub open spec fn spec_advance(self) -> (KeyValueWarmup, Option<usize>) {
        if self.warmed_count < BEATRICE_20RC0_N_BLOCKS {
            (
                KeyValueWarmup { warmed_count: (self.warmed_count + 1) as usize },
                Some(self.warmed_count),
            )
        } else {
            (self, None)
        }
    }

    /// The warm-up after `steps` conversion steps.
    pub open spec fn spec_after(self, steps: nat) -> KeyValueWarmup
        decreases steps,
    {
        if steps == 0 {
            self
        } else {
            self.spec_after((steps - 1) as nat).spec_advance().0
        }
    }

    /// A warm-up of which nothing was fed yet.
    pub fn new() -> (w: KeyValueWarmup)
        ensures
            w.warmed_count == 0,
    {
        KeyValueWarmup { warmed_count: 0 }
    }

    /// Starts over, as a change of speaker demands.
    pub fn reset(&mut self)
        ensures
            final(self).warmed_count == 0,
    {
        self.warmed_count = 0;
    }

    /// Whether every block was fed.
    pub fn is_warm(&self) -> (b: bool)
        ensures
            b == self.spec_is_warm(),
    {
        self.warmed_count >= BEATRICE_20RC0_N_BLOCKS
    }

    /// Takes one conversion step: names the block to feed, if one is left,
    /// and counts it.
    pub fn advance(&mut self) -> (block: Option<usize>)
        ensures
            (*final(self), block) == old(self).spec_advance(),
    {
        if self.warmed_count < BEATRICE_20RC0_N_BLOCKS {
            let block = self.warmed_count;
            self.warmed_count = self.warmed_count + 1;
            Some(block)
        } else {
            None
        }
    }
}

/// After a change of speaker it takes exactly as many conversion steps as
/// there are blocks until the embedding is installed: fewer steps leave it
/// cold, that many make it warm, and more leave it warm. The steps feed the
/// blocks in order.
pub proof fn lemma_warmup_takes_all_blocks(steps: nat)
    ensures
        (KeyValueWarmup { warmed_count: 0 }).spec_after(steps).warmed_count == if steps
            < BEATRICE_20RC0_N_BLOCKS {
            steps
        } else {
            BEATRICE_20RC0_N_BLOCKS as nat
        },
        (KeyValueWarmup { warmed_count: 0 }).spec_after(steps).spec_is_warm() <==> steps
            >= BEATRICE_20RC0_N_BLOCKS,
        steps < BEATRICE_20RC0_N_BLOCKS ==> (KeyValueWarmup { warmed_count: 0 }).spec_after(
            steps,
        ).spec_advance().1 == Some(steps as usize),
        steps >= BEATRICE_20RC0_N_BLOCKS ==> (KeyValueWarmup { warmed_count: 0 }).spec_after(
            steps,
        ).spec_advance().1 is None,
    decreases steps,
{
    if steps > 0 {
        lemma_warmup_takes_all_blocks((steps - 1) as nat);
    }
}

} // verus!
