//! Ordered buffers of text chunks.
//!
//! A parser owns three of these: network input, script input and prefetch
//! input. The queue never splits a chunk itself; splitting, if any, happens
//! inside tokenizer feeding.

use vstd::prelude::*;

verus! {

/// An ordered, poppable-in-chunks buffer of text fragments.
pub struct InputQueue {
    chunks: Vec<String>,
}

impl View for InputQueue {
    type V = Seq<Seq<char>>;

    closed spec fn view(&self) -> Seq<Seq<char>> {
        self.chunks@.map_values(|c: String| c@)
    }
}

impl InputQueue {
    /// The stream of characters the queue currently holds, in order,
    /// with chunk boundaries erased.
    pub open spec fn flat(&self) -> Seq<char> {
        self@.flatten()
    }

    pub fn new() -> (q: InputQueue)
        ensures
            q@ == Seq::<Seq<char>>::empty(),
    {
        let q = InputQueue { chunks: Vec::new() };
        proof {
            assert(q@ =~= Seq::<Seq<char>>::empty());
        }
        q
    }

    pub fn push_back(&mut self, chunk: String)
        ensures
            final(self)@ == old(self)@.push(chunk@),
    {
        let ghost prev = self@;
        self.chunks.push(chunk);
        proof {
            assert(self@ =~= prev.push(chunk@));
        }
    }

    pub fn pop_front(&mut self) -> (r: Option<String>)
        ensures
            old(self)@.len() == 0 ==> r is None && final(self)@ == old(self)@,
            old(self)@.len() > 0 ==> {
                &&& r matches Some(c) && c@ == old(self)@[0]
                &&& final(self)@ == old(self)@.drop_first()
            },
    {
        if self.chunks.len() == 0 {
            None
        } else {
            let ghost prev = self@;
            let c = self.chunks.remove(0);
            proof {
                assert(self@ =~= prev.drop_first());
            }
            Some(c)
        }
    }

    pub fn is_empty(&self) -> (r: bool)
        ensures
            r == (self@.len() == 0),
    {
        self.chunks.len() == 0
    }

    pub fn len(&self) -> (n: usize)
        ensures
            n == self@.len(),
    {
        self.chunks.len()
    }

    /// Empties the queue, handing its whole contents out in order.
    pub fn take_all(&mut self) -> (r: InputQueue)
        ensures
            r@ == old(self)@,
            final(self)@ == Seq::<Seq<char>>::empty(),
    {
        let mut taken = InputQueue { chunks: Vec::new() };
        core::mem::swap(&mut taken.chunks, &mut self.chunks);
        proof {
            assert(self@ =~= Seq::<Seq<char>>::empty());
            assert(taken@ =~= old(self)@);
        }
        taken
    }

    /// Moves every chunk of `other` to the back of this queue, in order.
    pub fn append_all(&mut self, other: InputQueue)
        ensures
            final(self)@ == old(self)@ + other@,
    {
        let ghost prev = self@;
        let mut rest = other.chunks;
        self.chunks.append(&mut rest);
        proof {
            assert(self@ =~= prev + other@);
        }
    }

    /// Discards the whole contents.
    pub fn clear(&mut self)
        ensures
            final(self)@ == Seq::<Seq<char>>::empty(),
    {
        self.chunks.clear();
        proof {
            assert(self@ =~= Seq::<Seq<char>>::empty());
        }
    }
}

/// The character stream of a queue is additive over `append_all`:
/// appending one buffer behind another concatenates their streams.
pub proof fn lemma_flat_of_concat(a: Seq<Seq<char>>, b: Seq<Seq<char>>)
    ensures
        (a + b).flatten() == a.flatten() + b.flatten(),
{
    vstd::seq_lib::lemma_flatten_concat(a, b);
}

/// Chunk boundaries do not matter to the character stream: pushing two
/// chunks one after the other yields the same stream as pushing their
/// concatenation as one chunk.
pub proof fn lemma_flat_split_invariant(q: Seq<Seq<char>>, a: Seq<char>, b: Seq<char>)
    ensures
        q.push(a).push(b).flatten() == q.push(a + b).flatten(),
{
    broadcast use Seq::lemma_flatten_push;

    assert(q.push(a).push(b).flatten() =~= q.flatten() + a + b);
    assert(q.push(a + b).flatten() =~= q.flatten() + (a + b));
    assert(q.flatten() + a + b =~= q.flatten() + (a + b));
}

} // verus!
