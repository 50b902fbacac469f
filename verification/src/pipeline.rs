//! The sample pipeline of one capture session. Each hardware callback hands
//! it the callback's samples; the pipeline either forwards them unchanged
//! (pass-through, when the input rate already equals the target rate) or
//! accumulates them and hands out full fixed-size chunks for the rate
//! converter, keeping the remainder for the next callback. No sample is ever
//! dropped or duplicated across callback boundaries.
//!
//! A sample is carried as an opaque 32-bit word: the pipeline never inspects
//! sample values, only their count and order, so the process around it may
//! store the bit pattern of a normalized 32-bit sample in each word.

use vstd::arithmetic::div_mod::lemma_fundamental_div_mod_converse;
use vstd::prelude::*;

verus! {

/// Number of samples in one converter input chunk.
pub const CHUNK_SIZE: usize = 1024;

/// All chunks joined in order.
pub open spec fn concat_all(cs: Seq<Seq<u32>>) -> Seq<u32>
    decreases cs.len(),
{
    if cs.len() == 0 {
        seq![]
    } else {
        concat_all(cs.drop_last()) + cs.last()
    }
}

/// Per-session pipeline state: the accumulation buffer plus bookkeeping of
/// everything that has passed through it.
pub struct Pipeline {
    passthrough: bool,
    buffer: Vec<u32>,
    total_in: u64,
    chunks_out: u64,
    hist_in: Ghost<Seq<u32>>,
    hist_out: Ghost<Seq<u32>>,
}

impl Pipeline {
    /// Whether the pipeline forwards callbacks unchanged instead of chunking
    /// them for a converter.
    pub closed spec fn spec_passthrough(self) -> bool {
        self.passthrough
    }

    /// The samples accumulated and not yet handed out.
    pub closed spec fn spec_buffer(self) -> Seq<u32> {
        self.buffer@
    }

    /// How many samples the pipeline has accepted over its lifetime.
    pub closed spec fn spec_total_in(self) -> u64 {
        self.total_in
    }

    /// How many full chunks it has handed out for conversion.
    pub closed spec fn spec_chunks_out(self) -> u64 {
        self.chunks_out
    }

    /// Every sample ever accepted, in order.
    pub closed spec fn spec_hist_in(self) -> Seq<u32> {
        self.hist_in@
    }

    /// Every sample ever handed onward, in order.
    pub closed spec fn spec_hist_out(self) -> Seq<u32> {
        self.hist_out@
    }

    /// The pipeline's invariant: what was accepted is exactly what was handed
    /// onward followed by what is still buffered; in converter mode the
    /// buffer holds less than one chunk and the chunk count accounts for
    /// everything else; in pass-through mode nothing is ever held back.
    pub closed spec fn wf(self) -> bool {
        &&& self.hist_in@ == self.hist_out@ + self.buffer@
        &&& self.total_in == self.hist_in@.len()
        &&& (self.passthrough ==> self.buffer@.len() == 0 && self.chunks_out == 0)
        &&& (!self.passthrough ==> {
            &&& self.buffer@.len() < CHUNK_SIZE
            &&& self.total_in == self.chunks_out * (CHUNK_SIZE as u64) + self.buffer@.len()
        })
    }

    /// A fresh pipeline: pass-through exactly when no converter is in use.
    pub fn new(use_converter: bool) -> (p: Pipeline)
        ensures
            p.wf(),
            p.spec_passthrough() == !use_converter,
            p.spec_buffer().len() == 0,
            p.spec_total_in() == 0,
            p.spec_chunks_out() == 0,
            p.spec_hist_in() == Seq::<u32>::empty(),
            p.spec_hist_out() == Seq::<u32>::empty(),
    {
        Pipeline {
            passthrough: !use_converter,
            buffer: Vec::new(),
            total_in: 0,
            chunks_out: 0,
            hist_in: Ghost(Seq::empty()),
            hist_out: Ghost(Seq::empty()),
        }
    }

    /// Accept one callback's samples. The returned chunks are what goes
    /// onward, in order: in pass-through mode exactly one chunk holding the
    /// samples unchanged; in converter mode every full fixed-size chunk the
    /// buffer now covers, the remainder staying buffered.
    pub fn accept(&mut self, samples: &Vec<u32>) -> (chunks: Vec<Vec<u32>>)
        requires
            old(self).wf(),
            old(self).spec_total_in() + samples@.len() <= u64::MAX,
        ensures
            final(self).wf(),
            final(self).spec_passthrough() == old(self).spec_passthrough(),
            final(self).spec_total_in() == old(self).spec_total_in() + samples@.len(),
            final(self).spec_hist_in() == old(self).spec_hist_in() + samples@,
            final(self).spec_hist_out() == old(self).spec_hist_out() + concat_all(
                chunks.deep_view(),
            ),
            old(self).spec_passthrough() ==> {
                &&& chunks.deep_view() == seq![samples@]
                &&& final(self).spec_buffer().len() == 0
            },
            !old(self).spec_passthrough() ==> {
                &&& concat_all(chunks.deep_view()) + final(self).spec_buffer() == old(
                    self,
                ).spec_buffer() + samples@
                &&& forall|k: int|
                    0 <= k < chunks.deep_view().len() ==> (#[trigger] chunks.deep_view()[k]).len()
                        == CHUNK_SIZE
                &&& chunks@.len() == (old(self).spec_buffer().len() + samples@.len()) as int / (
                CHUNK_SIZE as int)
                &&& final(self).spec_buffer().len() == (old(self).spec_buffer().len()
                    + samples@.len()) as int % (CHUNK_SIZE as int)
                &&& final(self).spec_chunks_out() == old(self).spec_chunks_out() + chunks@.len()
            },
    {
        if self.passthrough {
            let chunk = sub_vec(samples, 0, samples.len());
            let mut chunks: Vec<Vec<u32>> = Vec::new();
            chunks.push(chunk);
            self.total_in = self.total_in + samples.len() as u64;
            proof {
                self.hist_in@ = self.hist_in@ + samples@;
                self.hist_out@ = self.hist_out@ + samples@;
                assert(samples@.subrange(0, samples@.len() as int) =~= samples@);
                assert(chunks.deep_view() =~~= seq![samples@]);
                assert(seq![samples@].drop_last() =~= Seq::<Seq<u32>>::empty());
                assert(concat_all(chunks.deep_view()) == concat_all(
                    chunks.deep_view().drop_last(),
                ) + chunks.deep_view().last());
                assert(concat_all(chunks.deep_view()) =~= samples@);
                assert(self.hist_out@ + self.buffer@ =~= self.hist_in@);
            }
            chunks
        } else {
            let ghost prior_buffer = self.buffer@;
            let mut incoming = sub_vec(samples, 0, samples.len());
            proof {
                assert(samples@.subrange(0, samples@.len() as int) =~= samples@);
            }
            self.buffer.append(&mut incoming);
            self.total_in = self.total_in + samples.len() as u64;
            proof {
                self.hist_in@ = self.hist_in@ + samples@;
            }
            let ghost combined = self.buffer@;
            let total = self.buffer.len();
            let mut chunks: Vec<Vec<u32>> = Vec::new();
            let mut start: usize = 0;
            proof {
                assert(chunks.deep_view() =~~= Seq::<Seq<u32>>::empty());
                assert(concat_all(chunks.deep_view()) =~= combined.subrange(0, 0));
            }
            while total - start >= CHUNK_SIZE
                invariant
                    self.buffer@ == combined,
                    total == combined.len(),
                    start <= total,
                    start == chunks@.len() * CHUNK_SIZE,
                    concat_all(chunks.deep_view()) == combined.subrange(0, start as int),
                    forall|k: int|
                        0 <= k < chunks.deep_view().len() ==> (
                        #[trigger] chunks.deep_view()[k]).len() == CHUNK_SIZE,
                decreases total - start,
            {
                let ghost before = chunks.deep_view();
                let chunk = sub_vec(&self.buffer, start, start + CHUNK_SIZE);
                chunks.push(chunk);
                start = start + CHUNK_SIZE;
                proof {
                    assert(chunks.deep_view().drop_last() =~~= before);
                    assert(chunks.deep_view().last() =~~= combined.subrange(
                        start - CHUNK_SIZE,
                        start as int,
                    ));
                    assert(combined.subrange(0, start as int) =~= combined.subrange(
                        0,
                        start - CHUNK_SIZE,
                    ) + combined.subrange(start - CHUNK_SIZE, start as int));
                    assert forall|k: int| 0 <= k < chunks.deep_view().len() implies (
                    #[trigger] chunks.deep_view()[k]).len() == CHUNK_SIZE by {
                        if k < chunks.deep_view().len() - 1 {
                            assert(chunks.deep_view()[k] == before[k]);
                        } else {
                            assert(chunks.deep_view()[k] == chunks.deep_view().last());
                        }
                    }
                }
            }
            let rest = sub_vec(&self.buffer, start, total);
            self.buffer = rest;
            proof {
                self.hist_out@ = self.hist_out@ + concat_all(chunks.deep_view());
                assert(combined.subrange(0, start as int) + combined.subrange(
                    start as int,
                    total as int,
                ) =~= combined);
                assert((self.chunks_out + chunks@.len()) * (CHUNK_SIZE as int) == self.chunks_out
                    * (CHUNK_SIZE as int) + chunks@.len() * (CHUNK_SIZE as int));
                lemma_fundamental_div_mod_converse(
                    combined.len() as int,
                    CHUNK_SIZE as int,
                    chunks@.len() as int,
                    combined.len() - start,
                );
                assert(self.hist_out@ + self.buffer@ =~= self.hist_in@);
            }
            self.chunks_out = self.chunks_out + chunks.len() as u64;
            chunks
        }
    }

    /// Whether the pipeline is in pass-through mode.
    pub fn is_passthrough(&self) -> (b: bool)
        ensures
            b == self.spec_passthrough(),
    {
        self.passthrough
    }

    /// How many samples are buffered, waiting for a full chunk.
    pub fn buffered(&self) -> (n: usize)
        ensures
            n == self.spec_buffer().len(),
    {
        self.buffer.len()
    }

    /// How many samples the pipeline has accepted over its lifetime.
    pub fn total_samples(&self) -> (n: u64)
        ensures
            n == self.spec_total_in(),
    {
        self.total_in
    }

    /// How many full chunks it has handed out for conversion.
    pub fn chunks_consumed(&self) -> (n: u64)
        ensures
            n == self.spec_chunks_out(),
    {
        self.chunks_out
    }
}

/// No loss and no duplication: everything a pipeline ever accepted is
/// exactly what it handed onward followed by what it still buffers. In
/// converter mode the handed-out chunk count is the total sample count
/// divided by the chunk size, with the remainder buffered; in pass-through
/// mode everything accepted has been handed onward already.
pub proof fn lemma_no_loss_no_duplication(p: Pipeline)
    requires
        p.wf(),
    ensures
        p.spec_hist_in() == p.spec_hist_out() + p.spec_buffer(),
        p.spec_total_in() == p.spec_hist_in().len(),
        !p.spec_passthrough() ==> {
            &&& p.spec_buffer().len() < CHUNK_SIZE
            &&& p.spec_chunks_out() as int == p.spec_total_in() as int / (CHUNK_SIZE as int)
            &&& p.spec_buffer().len() as int == p.spec_total_in() as int % (CHUNK_SIZE as int)
        },
        p.spec_passthrough() ==> p.spec_hist_out() == p.spec_hist_in(),
{
    if !p.spec_passthrough() {
        lemma_fundamental_div_mod_converse(
            p.spec_total_in() as int,
            CHUNK_SIZE as int,
            p.spec_chunks_out() as int,
            p.spec_buffer().len() as int,
        );
    } else {
        assert(p.spec_hist_in() =~= p.spec_hist_out());
    }
}

/// Copy of `v[start..end]`.
fn sub_vec(v: &Vec<u32>, start: usize, end: usize) -> (r: Vec<u32>)
    requires
        start <= end,
        end <= v@.len(),
    ensures
        r@ == v@.subrange(start as int, end as int),
{
    let mut r: Vec<u32> = Vec::new();
    let mut i: usize = start;
    while i < end
        invariant
            start <= i <= end,
            end <= v@.len(),
            r@ == v@.subrange(start as int, i as int),
        decreases end - i,
    {
        r.push(v[i]);
        i = i + 1;
        proof {
            assert(v@.subrange(start as int, i as int) =~= v@.subrange(start as int, i - 1)
                + seq![v@[i - 1]]);
        }
    }
    r
}

} // verus!
