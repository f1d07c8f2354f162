//! Sample buffer: a fixed-size ring of samples with downsampled reads.
use std::collections::VecDeque;
use vstd::prelude::*;

verus! {

/// The `size` samples that a read with stride `downsample` yields from `s`:
/// it starts `size * downsample` samples before the end and steps by `downsample`.
pub open spec fn strided<T>(s: Seq<T>, size: nat, downsample: nat) -> Seq<T> {
    if downsample == 0 {
        Seq::empty()
    } else {
        Seq::new(size, |k: int| s[s.len() - size * downsample + k * downsample])
    }
}

/// What a ring of capacity `s.len()` holds after `new` was pushed into it:
/// the newest `s.len()` samples of the two together.
pub open spec fn pushed<T>(s: Seq<T>, new: Seq<T>) -> Seq<T> {
    (s + new).subrange(new.len() as int, (s.len() + new.len()) as int)
}

/// What a ring holds after each chunk of `chunks` was pushed into it in turn.
pub open spec fn pushed_all<T>(s: Seq<T>, chunks: Seq<Seq<T>>) -> Seq<T>
    decreases chunks.len(),
{
    if chunks.len() == 0 {
        s
    } else {
        pushed_all(pushed(s, chunks[0]), chunks.drop_first())
    }
}

/// Pushing never resizes the ring: after any sequence of pushes it holds as
/// many samples as it was created with.
pub proof fn lemma_pushes_keep_length<T>(s: Seq<T>, chunks: Seq<Seq<T>>)
    ensures
        pushed_all(s, chunks).len() == s.len(),
    decreases chunks.len(),
{
    if chunks.len() > 0 {
        lemma_pushes_keep_length(pushed(s, chunks[0]), chunks.drop_first());
    }
}

proof fn lemma_stride_in_bounds(k: int, size: int, downsample: int)
    requires
        0 <= k < size,
        downsample > 0,
    ensures
        (k + 1) * downsample <= size * downsample,
        k * downsample >= 0,
{
    assert((k + 1) * downsample <= size * downsample) by (nonlinear_arith)
        requires
            k + 1 <= size,
            downsample > 0,
    ;
    assert(k * downsample >= 0) by (nonlinear_arith)
        requires
            k >= 0,
            downsample > 0,
    ;
}

/// A ring of samples of fixed length, tagged with the rate it was recorded at.
///
/// Pushing replaces the oldest samples one for one, so the length set at
/// construction never changes.
pub struct SampleBuffer<T> {
    buf: VecDeque<T>,
    rate: usize,
}

impl<T> View for SampleBuffer<T> {
    type V = Seq<T>;

    /// The samples, oldest first.
    closed spec fn view(&self) -> Seq<T> {
        self.buf@
    }
}

impl<T: Copy> SampleBuffer<T> {
    /// The recording rate this buffer was created with.
    pub closed spec fn spec_rate(&self) -> usize {
        self.rate
    }

    /// Create a buffer of `size` samples, all `silence`, for the given rate.
    pub fn new(size: usize, rate: usize, silence: T) -> (r: SampleBuffer<T>)
        ensures
            r@ == Seq::new(size as nat, |i: int| silence),
            r.spec_rate() == rate,
    {
        let mut buf: VecDeque<T> = VecDeque::new();
        let mut i: usize = 0;
        while i < size
            invariant
                i <= size,
                buf@ == Seq::new(i as nat, |j: int| silence),
            decreases size - i,
        {
            buf.push_back(silence);
            i = i + 1;
            assert(buf@ =~= Seq::new(i as nat, |j: int| silence));
        }
        SampleBuffer { buf, rate }
    }

    /// The recording rate.
    pub fn rate(&self) -> (r: usize)
        ensures
            r == self.spec_rate(),
    {
        self.rate
    }

    /// The number of samples held; fixed at construction.
    pub fn len(&self) -> (r: usize)
        ensures
            r == self@.len(),
    {
        self.buf.len()
    }

    /// Append `new`, dropping as many of the oldest samples.
    pub fn push(&mut self, new: &[T])
        requires
            old(self)@.len() > 0 || new@.len() == 0,
        ensures
            final(self)@ == pushed(old(self)@, new@),
            final(self)@.len() == old(self)@.len(),
            final(self).spec_rate() == old(self).spec_rate(),
    {
        let ghost start = self.buf@;
        let ghost n = start.len();
        let mut i: usize = 0;
        while i < new.len()
            invariant
                n == start.len(),
                n > 0 || new@.len() == 0,
                i <= new@.len(),
                self.buf@ == (start + new@.subrange(0, i as int)).subrange(i as int, n + i),
                self.rate == old(self).rate,
            decreases new@.len() - i,
        {
            let ghost before = self.buf@;
            self.buf.pop_front();
            self.buf.push_back(new[i]);
            assert(self.buf@ =~= (start + new@.subrange(0, i + 1)).subrange(i + 1, n + i + 1)) by {
                assert(before.len() == n);
                assert forall|j: int| 0 <= j < n implies #[trigger] self.buf@[j] == (start
                    + new@.subrange(0, i + 1))[i + 1 + j] by {
                    if j < n - 1 {
                        assert(self.buf@[j] == before[j + 1]);
                    } else {
                        assert(self.buf@[j] == new@[i as int]);
                    }
                }
            }
            i = i + 1;
        }
        assert(new@.subrange(0, new@.len() as int) =~= new@);
    }

    /// The last `size` samples at a stride of `downsample`, oldest first: the
    /// read starts `size * downsample` samples before the end of the buffer.
    pub fn iter(&self, size: usize, downsample: usize) -> (r: Vec<T>)
        requires
            size * downsample <= self@.len(),
        ensures
            r@ == strided(self@, size as nat, downsample as nat),
    {
        let mut out: Vec<T> = Vec::new();
        if downsample == 0 {
            return out;
        }
        let len = self.buf.len();
        let span = size * downsample;
        let ghost start = len - span;
        let mut index: usize = len - span;
        let mut k: usize = 0;
        while k < size
            invariant
                len == self@.len(),
                span == size * downsample,
                span <= len,
                downsample > 0,
                k <= size,
                index == start + k * downsample,
                start == len - span,
                out@ == strided(self@, size as nat, downsample as nat).subrange(0, k as int),
            decreases size - k,
        {
            proof {
                lemma_stride_in_bounds(k as int, size as int, downsample as int);
                assert((k + 1) * downsample == k * downsample + downsample) by (nonlinear_arith);
            }
            out.push(self.buf[index]);
            index = index + downsample;
            k = k + 1;
            assert(out@ =~= strided(self@, size as nat, downsample as nat).subrange(0, k as int));
        }
        assert(out@ =~= strided(self@, size as nat, downsample as nat));
        out
    }

    /// The most recent `rate / per_second` samples, oldest first: the window
    /// over which a volume of `1 / per_second` seconds is measured.
    pub fn volume_window(&self, per_second: usize) -> (r: Vec<T>)
        requires
            per_second > 0,
            self.spec_rate() / per_second <= self@.len(),
        ensures
            r@ == self@.subrange(self@.len() - self.spec_rate() / per_second, self@.len() as int),
    {
        let len = self.buf.len();
        let count = self.rate / per_second;
        let mut out: Vec<T> = Vec::new();
        let mut index: usize = len - count;
        while index < len
            invariant
                len == self@.len(),
                count == self.spec_rate() / per_second,
                count <= len,
                len - count <= index <= len,
                out@ == self@.subrange(len - count, index as int),
            decreases len - index,
        {
            out.push(self.buf[index]);
            index = index + 1;
            assert(out@ =~= self@.subrange(len - count, index as int));
        }
        out
    }
}

} // verus!
