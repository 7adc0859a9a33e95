//! What a session's terminal has shown, kept in a bounded buffer so that a
//! viewer who joins late first sees the latest output.

use vstd::prelude::*;

verus! {

/// How many chunks of output a session keeps for viewers who join late.
pub const HISTORY_CHUNKS: usize = 1024;

/// The last `limit` chunks of `chunks`, or all of them when there are
/// no more than `limit`.
pub open spec fn retained(chunks: Seq<Seq<u8>>, limit: nat) -> Seq<Seq<u8>> {
    if chunks.len() <= limit {
        chunks
    } else {
        chunks.subrange(chunks.len() - limit, chunks.len() as int)
    }
}

/// A bounded buffer of the chunks of output that a terminal has sent,
/// oldest first.
pub struct OutputHistory {
    chunks: Vec<Vec<u8>>,
    limit: usize,
}

impl View for OutputHistory {
    type V = Seq<Seq<u8>>;

    closed spec fn view(&self) -> Seq<Seq<u8>> {
        self.chunks@.map_values(|c: Vec<u8>| c@)
    }
}

impl OutputHistory {
    /// The buffer never holds more chunks than its limit.
    #[verifier::type_invariant]
    spec fn within_limit(self) -> bool {
        self.chunks.len() <= self.limit
    }

    /// The most chunks the buffer keeps.
    pub closed spec fn max_chunks(self) -> nat {
        self.limit as nat
    }

    /// An empty buffer that keeps at most `limit` chunks.
    pub fn new(limit: usize) -> (h: OutputHistory)
        ensures
            h@ == Seq::<Seq<u8>>::empty(),
            h.max_chunks() == limit,
    {
        let h = OutputHistory { chunks: Vec::new(), limit };
        assert(h@ =~= Seq::<Seq<u8>>::empty());
        h
    }

    /// The most chunks the buffer keeps.
    pub fn limit(&self) -> (n: usize)
        ensures
            n == self.max_chunks(),
    {
        self.limit
    }

    /// The number of chunks the buffer holds.
    pub fn len(&self) -> (n: usize)
        ensures
            n == self@.len(),
            n <= self.max_chunks(),
    {
        proof {
            use_type_invariant(self);
        }
        self.chunks.len()
    }

    /// Appends a chunk of output, dropping the oldest chunk when the buffer
    /// would hold more than its limit.
    pub fn record(&mut self, chunk: Vec<u8>)
        ensures
            final(self).max_chunks() == old(self).max_chunks(),
            final(self)@ == retained(old(self)@.push(chunk@), old(self).max_chunks()),
            final(self)@.len() <= final(self).max_chunks(),
    {
        proof {
            use_type_invariant(&*self);
        }
        let ghost before = self@;
        let ghost c = chunk@;
        if self.limit == 0 {
            assert(before.push(c).subrange(1, 1) =~= Seq::<Seq<u8>>::empty());
            assert(self@ =~= Seq::<Seq<u8>>::empty());
            return;
        }
        let mut chunks: Vec<Vec<u8>> = Vec::new();
        std::mem::swap(&mut chunks, &mut self.chunks);
        assert(chunks@.map_values(|v: Vec<u8>| v@) == before);
        chunks.push(chunk);
        assert(chunks@.map_values(|v: Vec<u8>| v@) =~= before.push(c));
        if chunks.len() > self.limit {
            let ghost pushed = chunks@;
            let _ = chunks.remove(0);
            assert(chunks@ =~= pushed.subrange(1, pushed.len() as int));
            assert(chunks@.map_values(|v: Vec<u8>| v@) =~= before.push(c).subrange(1, before.len() + 1int));
        }
        self.chunks = chunks;
    }

    /// Copies of the chunks the buffer holds, oldest first: what a viewer
    /// who joins now is sent before live output.
    pub fn replay(&self) -> (copy: Vec<Vec<u8>>)
        ensures
            copy@.map_values(|c: Vec<u8>| c@) == self@,
    {
        let mut copy: Vec<Vec<u8>> = Vec::new();
        let mut i: usize = 0;
        while i < self.chunks.len()
            invariant
                i <= self.chunks.len(),
                copy@.len() == i,
                forall|j: int| 0 <= j < i ==> (#[trigger] copy@[j])@ == self.chunks@[j]@,
            decreases self.chunks.len() - i,
        {
            let c = self.chunks[i].clone();
            assert(c@ =~= self.chunks@[i as int]@);
            copy.push(c);
            i = i + 1;
        }
        assert(copy@.map_values(|c: Vec<u8>| c@) =~= self@);
        copy
    }
}

/// Recording chunk by chunk keeps the last `limit` chunks of all the output
/// there has been: recording into what was retained retains what recording
/// into all of it would.
pub proof fn lemma_history_keeps_latest(all: Seq<Seq<u8>>, chunk: Seq<u8>, limit: nat)
    ensures
        retained(retained(all, limit).push(chunk), limit) == retained(all.push(chunk), limit),
        retained(all, limit).len() <= limit,
        retained(all, limit).len() == (if all.len() <= limit { all.len() } else { limit }),
        forall|i: int| 0 <= i < retained(all, limit).len() ==> #[trigger] retained(all, limit)[i]
            == all[all.len() - retained(all, limit).len() + i],
{
    let r = retained(all, limit);
    assert(retained(r.push(chunk), limit) =~= retained(all.push(chunk), limit));
}

} // verus!
