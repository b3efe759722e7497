//! Sources of chunks: a finite source backed by a list, and a counting
//! source that emits a fixed number of blank chunks.

use std::collections::VecDeque;
use vstd::prelude::*;

verus! {

/// A finite source: it yields the chunks it was built from, in order, and
/// then reports its end for ever.
pub struct ChunkSource<C> {
    pending: VecDeque<C>,
}

impl<C> View for ChunkSource<C> {
    type V = Seq<C>;

    /// The chunks that are still to come, next one first.
    closed spec fn view(&self) -> Seq<C> {
        self.pending@
    }
}

impl<C> ChunkSource<C> {
    /// A source that will yield `chunks` from first to last.
    pub fn from_vec(chunks: Vec<C>) -> (source: Self)
        ensures
            source@ == chunks@,
    {
        let mut rest = chunks;
        let mut pending: VecDeque<C> = VecDeque::new();
        while rest.len() > 0
            invariant
                rest@ + pending@ == chunks@,
            decreases rest.len(),
        {
            let ghost before = rest@;
            let ghost queued = pending@;
            match rest.pop() {
                Some(chunk) => {
                    pending.push_front(chunk);
                    assert(rest@ + pending@ =~= before + queued);
                },
                None => {},
            }
        }
        assert(pending@ =~= rest@ + pending@);
        ChunkSource { pending }
    }

    /// How many chunks are still to come.
    pub fn remaining(&self) -> (n: usize)
        ensures
            n == self@.len(),
    {
        self.pending.len()
    }

    /// The next chunk, or `None` once the source is exhausted.
    pub fn next_chunk(&mut self) -> (next: Option<C>)
        ensures
            old(self)@.len() > 0 ==> next == Some(old(self)@[0]) && final(self)@ == old(
                self,
            )@.drop_first(),
            old(self)@.len() == 0 ==> next.is_none() && final(self)@ == old(self)@,
    {
        let next = self.pending.pop_front();
        proof {
            if old(self)@.len() > 0 {
                assert(self@ =~= old(self)@.drop_first());
            }
        }
        next
    }
}

/// The number of chunks that the counting source emits.
pub const DATA_CHUNKS: u32 = 50;

/// The size in bytes of each chunk of the counting source.
pub const DATA_CHUNK_LEN: usize = 1024;

/// What the counting source yields when it has emitted `count` chunks: a
/// blank chunk while fewer than `DATA_CHUNKS` were emitted, then nothing.
pub open spec fn data_at(count: u32) -> Option<Seq<u8>> {
    if count < DATA_CHUNKS {
        Some(Seq::new(DATA_CHUNK_LEN as nat, |i: int| 0u8))
    } else {
        None
    }
}

/// The counting source. `counter` is the number of chunks emitted so far;
/// each chunk that is handed out advances it by one.
pub fn get_data(counter: &mut u32) -> (data: Option<Vec<u8>>)
    ensures
        match data {
            Some(chunk) => data_at(*old(counter)) == Some(chunk@),
            None => data_at(*old(counter)).is_none(),
        },
        *final(counter) == if *old(counter) < DATA_CHUNKS {
            (*old(counter) + 1) as u32
        } else {
            *old(counter)
        },
{
    let count = *counter;
    if count < DATA_CHUNKS {
        *counter = count + 1;
        let chunk = vec![0u8; DATA_CHUNK_LEN];
        assert(chunk@ =~= Seq::new(DATA_CHUNK_LEN as nat, |i: int| 0u8));
        Some(chunk)
    } else {
        None
    }
}

} // verus!
