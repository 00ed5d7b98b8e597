//! A byte buffer that keeps only the most recent bytes up to a ceiling.
use std::collections::VecDeque;
use vstd::prelude::*;

verus! {

/// The bytes a sink retains once `s` has been appended to an empty one:
/// all of `s` when there is no ceiling or it fits, else its last `c` bytes.
pub open spec fn retained(s: Seq<u8>, ceiling: Option<usize>) -> Seq<u8> {
    match ceiling {
        Some(c) => if s.len() > c {
            s.subrange(s.len() - c, s.len() as int)
        } else {
            s
        },
        None => s,
    }
}

/// The concatenation of `chunks`, in order.
pub open spec fn joined(chunks: Seq<Seq<u8>>) -> Seq<u8>
    decreases chunks.len(),
{
    if chunks.len() == 0 {
        Seq::<u8>::empty()
    } else {
        joined(chunks.drop_last()) + chunks.last()
    }
}

/// What a fresh sink with `ceiling` holds after one `append` per chunk.
pub open spec fn after_appends(chunks: Seq<Seq<u8>>, ceiling: Option<usize>) -> Seq<u8>
    decreases chunks.len(),
{
    if chunks.len() == 0 {
        Seq::<u8>::empty()
    } else {
        retained(after_appends(chunks.drop_last(), ceiling) + chunks.last(), ceiling)
    }
}

/// Trimming before a further append loses nothing that trimming after it keeps.
pub proof fn lemma_retained_absorbs(a: Seq<u8>, b: Seq<u8>, ceiling: Option<usize>)
    ensures
        retained(retained(a, ceiling) + b, ceiling) == retained(a + b, ceiling),
{
    if let Some(c) = ceiling {
        let ra = retained(a, ceiling);
        if a.len() > c {
            let ab = a + b;
            let rab = ra + b;
            assert(rab.len() > c || rab.len() == c);
            if rab.len() > c {
                assert(rab.subrange(rab.len() - c, rab.len() as int) =~= ab.subrange(
                    ab.len() - c,
                    ab.len() as int,
                ));
            } else {
                assert(b.len() == 0);
                assert(rab =~= ab.subrange(ab.len() - c, ab.len() as int));
            }
        }
    }
}

/// For every ceiling `c` and every run of appends to a fresh sink whose bytes
/// number more than `c`, the sink holds exactly the last `c` bytes appended,
/// in order.
pub proof fn law_sink_keeps_last_bytes(chunks: Seq<Seq<u8>>, c: usize)
    requires
        joined(chunks).len() > c,
    ensures
        after_appends(chunks, Some(c)) == joined(chunks).subrange(
            joined(chunks).len() - c,
            joined(chunks).len() as int,
        ),
{
    lemma_after_appends_is_retained(chunks, Some(c));
}

/// A run of appends to a fresh sink keeps what one append of all the bytes keeps.
pub proof fn lemma_after_appends_is_retained(chunks: Seq<Seq<u8>>, ceiling: Option<usize>)
    ensures
        after_appends(chunks, ceiling) == retained(joined(chunks), ceiling),
    decreases chunks.len(),
{
    if chunks.len() > 0 {
        let init = chunks.drop_last();
        lemma_after_appends_is_retained(init, ceiling);
        lemma_retained_absorbs(joined(init), chunks.last(), ceiling);
    }
}

/// An in-memory tail of a byte stream, trimmed from the front.
pub struct BoundedSink {
    buf: VecDeque<u8>,
    ceiling: Option<usize>,
}

impl View for BoundedSink {
    type V = Seq<u8>;

    closed spec fn view(&self) -> Seq<u8> {
        self.buf@
    }
}

impl BoundedSink {
    /// The ceiling this sink was made with (`None`: unbounded).
    pub closed spec fn spec_ceiling(&self) -> Option<usize> {
        self.ceiling
    }

    /// An empty sink; `None` disables trimming.
    pub fn new(ceiling: Option<usize>) -> (r: BoundedSink)
        ensures
            r@ == Seq::<u8>::empty(),
            r.spec_ceiling() == ceiling,
    {
        BoundedSink { buf: VecDeque::new(), ceiling }
    }

    /// The ceiling this sink was made with.
    pub fn ceiling(&self) -> (r: Option<usize>)
        ensures
            r == self.spec_ceiling(),
    {
        self.ceiling
    }

    /// Number of bytes retained.
    pub fn len(&self) -> (r: usize)
        ensures
            r == self@.len(),
    {
        self.buf.len()
    }

    /// Appends `bytes`, then drops the oldest bytes until the ceiling holds.
    pub fn append(&mut self, bytes: &[u8])
        ensures
            final(self)@ == retained(old(self)@ + bytes@, old(self).spec_ceiling()),
            final(self).spec_ceiling() == old(self).spec_ceiling(),
    {
        let ghost all = old(self)@ + bytes@;
        let mut i: usize = 0;
        while i < bytes.len()
            invariant
                i <= bytes@.len(),
                self.ceiling == old(self).ceiling,
                self.buf@ == old(self)@ + bytes@.subrange(0, i as int),
            decreases bytes@.len() - i,
        {
            self.buf.push_back(bytes[i]);
            i = i + 1;
            assert(bytes@.subrange(0, i as int) == bytes@.subrange(0, i - 1).push(bytes@[i - 1]));
        }
        assert(bytes@.subrange(0, bytes@.len() as int) == bytes@);
        if let Some(c) = self.ceiling {
            let ghost start: int = 0;
            while self.buf.len() > c
                invariant
                    self.ceiling == old(self).ceiling,
                    0 <= start <= all.len(),
                    self.buf@ == all.subrange(start, all.len() as int),
                    all.len() > c ==> start <= all.len() - c,
                    all.len() <= c ==> start == 0,
                decreases self.buf@.len(),
            {
                self.buf.pop_front();
                proof {
                    start = start + 1;
                }
            }
            assert(all.subrange(0, all.len() as int) == all);
        }
    }

    /// The retained bytes, oldest first.
    pub fn contents(&self) -> (r: Vec<u8>)
        ensures
            r@ == self@,
    {
        let mut out: Vec<u8> = Vec::new();
        let mut i: usize = 0;
        while i < self.buf.len()
            invariant
                i <= self.buf@.len(),
                out@ == self.buf@.subrange(0, i as int),
            decreases self.buf@.len() - i,
        {
            out.push(self.buf[i]);
            i = i + 1;
        }
        assert(self.buf@.subrange(0, self.buf@.len() as int) == self.buf@);
        out
    }
}

} // verus!
