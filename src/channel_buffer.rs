use vstd::prelude::*;

verus! {

/// Channel `k` of an interleaved block with `c` channels: the samples at
/// positions `k`, `k + c`, `k + 2c`, ... over the whole frames of `input`.
pub open spec fn deinterleave<T>(input: Seq<T>, c: nat, k: nat) -> Seq<T>
    recommends
        c > 0,
        k < c,
{
    Seq::new(input.len() / c, |i: int| input[i * c + k])
}

/// Chunk number `j` of `s` when it is cut into pieces of `size` samples.
pub open spec fn chunk_of<T>(s: Seq<T>, j: nat, size: nat) -> Seq<T> {
    s.subrange((j * size) as int, ((j + 1) * size) as int)
}

/// Each pending channel followed by its samples from the interleaved `input`.
pub open spec fn fed<T>(pending: Seq<Seq<T>>, input: Seq<T>) -> Seq<Seq<T>> {
    Seq::new(pending.len(), |k: int| pending[k] + deinterleave(input, pending.len(), k as nat))
}

/// Feeding `frames` new frames per channel to a buffer that holds `pending`
/// frames yields this many whole chunks of `chunk` frames, and leaves the
/// second component pending.
pub open spec fn feed_step(pending: nat, frames: nat, chunk: nat) -> (nat, nat)
    recommends
        chunk > 0,
{
    ((pending + frames) / chunk, (pending + frames) % chunk)
}

/// The frames pushed over a sequence of blocks, given the frames per channel
/// of each block.
pub open spec fn frames_total(blocks: Seq<nat>) -> nat
    decreases blocks.len(),
{
    if blocks.len() == 0 {
        0
    } else {
        frames_total(blocks.drop_last()) + blocks.last()
    }
}

/// Frames drained in whole chunks, and frames left pending, after the blocks
/// are fed in order to an empty buffer, each feed as `feed_step` gives it.
pub open spec fn feed_all(blocks: Seq<nat>, chunk: nat) -> (nat, nat)
    decreases blocks.len(),
{
    if blocks.len() == 0 {
        (0, 0)
    } else {
        let prev = feed_all(blocks.drop_last(), chunk);
        let step = feed_step(prev.1, blocks.last(), chunk);
        (prev.0 + step.0 * chunk, step.1)
    }
}

/// Chunk exactness: whatever the sizes of the blocks fed to an empty buffer,
/// the frames drained across all chunks equal the frames pushed rounded down to
/// a multiple of the chunk size, and the frames left pending equal the frames
/// pushed modulo the chunk size. Nothing is lost and nothing is invented.
pub proof fn lemma_chunk_exactness(blocks: Seq<nat>, chunk: nat)
    requires
        chunk > 0,
    ensures
        feed_all(blocks, chunk).0 + feed_all(blocks, chunk).1 == frames_total(blocks),
        feed_all(blocks, chunk).1 == frames_total(blocks) % chunk,
        feed_all(blocks, chunk).0 == frames_total(blocks) - frames_total(blocks) % chunk,
        feed_all(blocks, chunk).0 % chunk == 0,
    decreases blocks.len(),
{
    let total = frames_total(blocks);
    if blocks.len() > 0 {
        let rest = blocks.drop_last();
        lemma_chunk_exactness(rest, chunk);
        let prev = feed_all(rest, chunk);
        let n = blocks.last();
        let p = prev.1;
        let q = (p + n) / chunk;
        vstd::arithmetic::div_mod::lemma_fundamental_div_mod((p + n) as int, chunk as int);
        assert(q * chunk == chunk * q) by (nonlinear_arith);
        vstd::arithmetic::div_mod::lemma_add_mod_noop_right(
            n as int,
            frames_total(rest) as int,
            chunk as int,
        );
        assert(feed_all(blocks, chunk).1 == (p + n) % chunk);
        assert(total == frames_total(rest) + n);
    }
    vstd::arithmetic::div_mod::lemma_fundamental_div_mod(total as int, chunk as int);
    vstd::arithmetic::div_mod::lemma_mod_multiples_basic(total as int / chunk as int, chunk as int);
    assert((total as int / chunk as int) * chunk == chunk * (total as int / chunk as int))
        by (nonlinear_arith);
}

/// Accumulates de-interleaved samples, one sequence per input channel, and
/// hands them out in whole chunks of a fixed number of frames, the block size
/// a fixed-block resampler consumes. Whatever does not fill a chunk stays
/// pending for the next block.
pub struct ChannelBuffer<T> {
    channels: Vec<Vec<T>>,
    chunk_size: usize,
}

impl<T> View for ChannelBuffer<T> {
    type V = Seq<Seq<T>>;

    /// The pending samples of each channel, in arrival order.
    closed spec fn view(&self) -> Seq<Seq<T>> {
        Seq::new(self.channels@.len(), |k: int| self.channels@[k]@)
    }
}

impl<T: Copy> ChannelBuffer<T> {
    /// The number of channels.
    pub closed spec fn channel_count_spec(&self) -> nat {
        self.channels@.len()
    }

    /// The number of frames per channel in one chunk.
    pub closed spec fn chunk_size_spec(&self) -> nat {
        self.chunk_size as nat
    }

    /// At least one channel, a positive chunk size, all channels equally long,
    /// and less than one chunk pending.
    pub closed spec fn wf(&self) -> bool {
        &&& self.channels@.len() >= 1
        &&& self.chunk_size >= 1
        &&& forall|k: int|
            0 <= k < self.channels@.len() ==> #[trigger] self.channels@[k]@.len()
                == self.channels@[0]@.len()
        &&& self.channels@[0]@.len() < self.chunk_size
    }

    /// The number of frames pending per channel.
    pub open spec fn pending_spec(&self) -> nat {
        self@[0].len()
    }

    /// An empty buffer for `channels` channels, handing out chunks of
    /// `chunk_size` frames.
    pub fn new(channels: usize, chunk_size: usize) -> (r: Self)
        requires
            channels >= 1,
            chunk_size >= 1,
        ensures
            r.wf(),
            r.channel_count_spec() == channels,
            r.chunk_size_spec() == chunk_size,
            r@.len() == channels,
            forall|k: int| 0 <= k < channels ==> #[trigger] r@[k] == Seq::<T>::empty(),
    {
        let mut v: Vec<Vec<T>> = Vec::new();
        let mut i: usize = 0;
        while i < channels
            invariant
                i <= channels,
                v@.len() == i,
                forall|k: int| 0 <= k < i ==> #[trigger] v@[k]@ == Seq::<T>::empty(),
            decreases channels - i,
        {
            v.push(Vec::new());
            i = i + 1;
        }
        let r = ChannelBuffer { channels: v, chunk_size };
        assert(r@ =~= Seq::new(channels as nat, |k: int| Seq::<T>::empty()));
        r
    }

    /// The number of channels.
    pub fn channel_count(&self) -> (r: usize)
        ensures
            r == self.channel_count_spec(),
    {
        self.channels.len()
    }

    /// The number of frames per channel in one chunk.
    pub fn chunk_size(&self) -> (r: usize)
        ensures
            r == self.chunk_size_spec(),
    {
        self.chunk_size
    }

    /// The number of frames pending per channel.
    pub fn pending_frames(&self) -> (r: usize)
        requires
            self.wf(),
        ensures
            r == self.pending_spec(),
            r < self.chunk_size_spec(),
    {
        self.channels[0].len()
    }
    /// Appends one interleaved block (whole frames, channels in round-robin
    /// order) and takes out every whole chunk that is then available, oldest
    /// first. Each chunk holds one vector of `chunk_size` samples per channel;
    /// what is left, less than one chunk, stays pending.
    pub fn feed(&mut self, input: &[T]) -> (chunks: Vec<Vec<Vec<T>>>)
        requires
            old(self).wf(),
            input@.len() % old(self).channel_count_spec() == 0,
        ensures
            final(self).wf(),
            final(self).channel_count_spec() == old(self).channel_count_spec(),
            final(self).chunk_size_spec() == old(self).chunk_size_spec(),
            ({
                let c = old(self).channel_count_spec();
                let size = old(self).chunk_size_spec();
                let all = fed(old(self)@, input@);
                let step = feed_step(old(self).pending_spec(), input@.len() / c, size);
                &&& chunks@.len() == step.0
                &&& final(self).pending_spec() == step.1
                &&& final(self)@.len() == c
                &&& forall|k: int|
                    0 <= k < c ==> #[trigger] final(self)@[k] == all[k].subrange(
                        (step.0 * size) as int,
                        all[k].len() as int,
                    )
                &&& forall|j: int| 0 <= j < step.0 ==> #[trigger] chunks@[j]@.len() == c
                &&& forall|j: int, k: int|
                    0 <= j < step.0 && 0 <= k < c ==> #[trigger] chunks@[j]@[k]@ == chunk_of(
                        all[k],
                        j as nat,
                        size,
                    )
            }),
    {
        let c = self.channels.len();
        let frames = input.len() / c;
        let ghost old_view = self@;
        let ghost all = fed(old_view, input@);
        let ghost len0 = old_view[0].len();
        proof {
            vstd::arithmetic::div_mod::lemma_fundamental_div_mod(input@.len() as int, c as int);
        }
        let mut k: usize = 0;
        while k < c
            invariant
                self.channels@.len() == c,
                c >= 1,
                c == old_view.len(),
                frames == input@.len() / (c as nat),
                input@.len() == c * frames,
                self.chunk_size == old(self).chunk_size,
                old(self).wf(),
                old_view == old(self)@,
                all == fed(old_view, input@),
                len0 == old_view[0].len(),
                k <= c,
                forall|kk: int| 0 <= kk < k ==> #[trigger] self.channels@[kk]@ == all[kk],
                forall|kk: int| k <= kk < c ==> #[trigger] self.channels@[kk]@ == old_view[kk],
            decreases c - k,
        {
            let mut i: usize = 0;
            while i < frames
                invariant
                    self.channels@.len() == c,
                    c >= 1,
                    c == old_view.len(),
                    frames == input@.len() / (c as nat),
                    input@.len() == c * frames,
                    self.chunk_size == old(self).chunk_size,
                    old_view == old(self)@,
                    all == fed(old_view, input@),
                    k < c,
                    i <= frames,
                    forall|kk: int| 0 <= kk < k ==> #[trigger] self.channels@[kk]@ == all[kk],
                    forall|kk: int| k < kk < c ==> #[trigger] self.channels@[kk]@ == old_view[kk],
                    self.channels@[k as int]@ == old_view[k as int] + deinterleave(
                        input@,
                        c as nat,
                        k as nat,
                    ).take(i as int),
                decreases frames - i,
            {
                assert(i * c + k < input.len()) by (nonlinear_arith)
                    requires
                        i < frames,
                        input.len() == c * frames,
                        k < c,
                ;
                let x = input[i * c + k];
                self.channels[k].push(x);
                proof {
                    let d = deinterleave(input@, c as nat, k as nat);
                    assert(d.len() == frames);
                    assert(d[i as int] == x);
                    assert(d.take(i as int + 1) =~= d.take(i as int).push(x));
                }
                i = i + 1;
            }
            proof {
                let d = deinterleave(input@, c as nat, k as nat);
                assert(d.len() == frames);
                assert(d.take(frames as int) =~= d);
            }
            k = k + 1;
        }
        let size = self.chunk_size;
        let total = self.channels[0].len();
        assert(total == len0 + frames);
        assert forall|kk: int| 0 <= kk < c implies #[trigger] self.channels@[kk]@.len() == total by {
            assert(self.channels@[kk]@ == all[kk]);
            assert(old(self).channels@[kk]@.len() == len0);
        }
        let nchunks = total / size;
        proof {
            vstd::arithmetic::div_mod::lemma_fundamental_div_mod(total as int, size as int);
        }
        let mut chunks: Vec<Vec<Vec<T>>> = Vec::new();
        let mut j: usize = 0;
        while j < nchunks
            invariant
                self.channels@.len() == c,
                c >= 1,
                size >= 1,
                size == self.chunk_size,
                nchunks == total / size,
                total == size * nchunks + (total % size),
                forall|kk: int| 0 <= kk < c ==> #[trigger] self.channels@[kk]@.len() == total,
                j <= nchunks,
                chunks@.len() == j,
                forall|jj: int| 0 <= jj < j ==> #[trigger] chunks@[jj]@.len() == c,
                forall|jj: int, kk: int|
                    0 <= jj < j && 0 <= kk < c ==> #[trigger] chunks@[jj]@[kk]@ == chunk_of(
                        self.channels@[kk]@,
                        jj as nat,
                        size as nat,
                    ),
            decreases nchunks - j,
        {
            assert(j * size + size <= total) by (nonlinear_arith)
                requires
                    j < nchunks,
                    total == size * nchunks + (total % size),
                    (total % size) >= 0,
            ;
            let start = j * size;
            let mut chunk: Vec<Vec<T>> = Vec::new();
            let mut kk: usize = 0;
            while kk < c
                invariant
                    self.channels@.len() == c,
                    start + size <= total,
                    forall|q: int| 0 <= q < c ==> #[trigger] self.channels@[q]@.len() == total,
                    kk <= c,
                    chunk@.len() == kk,
                    forall|q: int|
                        0 <= q < kk ==> #[trigger] chunk@[q]@ == self.channels@[q]@.subrange(
                            start as int,
                            start + size,
                        ),
                decreases c - kk,
            {
                let mut piece: Vec<T> = Vec::new();
                let mut t: usize = 0;
                while t < size
                    invariant
                        self.channels@.len() == c,
                        kk < c,
                        start + size <= total,
                        self.channels@[kk as int]@.len() == total,
                        t <= size,
                        piece@ == self.channels@[kk as int]@.subrange(start as int, start + t),
                    decreases size - t,
                {
                    piece.push(self.channels[kk][start + t]);
                    proof {
                        assert(piece@ =~= self.channels@[kk as int]@.subrange(
                            start as int,
                            start + t + 1,
                        ));
                    }
                    t = t + 1;
                }
                chunk.push(piece);
                kk = kk + 1;
            }
            chunks.push(chunk);
            proof {
                assert((j + 1) * size == j * size + size) by (nonlinear_arith);
            }
            j = j + 1;
        }
        let cut = nchunks * size;
        assert(cut <= total) by (nonlinear_arith)
            requires
                cut == nchunks * size,
                total == size * nchunks + (total % size),
                (total % size) >= 0,
        ;
        let ghost full = self.channels@;
        let mut k2: usize = 0;
        while k2 < c
            invariant
                self.channels@.len() == c,
                full.len() == c,
                cut <= total,
                size == self.chunk_size,
                forall|q: int| 0 <= q < c ==> #[trigger] full[q]@.len() == total,
                k2 <= c,
                forall|q: int|
                    0 <= q < k2 ==> #[trigger] self.channels@[q]@ == full[q]@.subrange(
                        cut as int,
                        total as int,
                    ),
                forall|q: int| k2 <= q < c ==> #[trigger] self.channels@[q] == full[q],
            decreases c - k2,
        {
            let tail = self.channels[k2].split_off(cut);
            self.channels[k2] = tail;
            k2 = k2 + 1;
        }
        proof {
            assert(total - cut == (total % size));
            assert(self.channels@[0]@.len() == total - cut);
            assert forall|q: int| 0 <= q < c implies #[trigger] self@[q] == all[q].subrange(
                cut as int,
                all[q].len() as int,
            ) by {
                assert(full[q]@ == all[q]);
            }
        }
        chunks
    }
}

} // verus!
