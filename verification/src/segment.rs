//! Segmented memory manager: an extensible table of variable-length word
//! blocks, with segment 0 reserved for the currently executing program.
//!
//! Freed addresses go on a reuse pool and are handed out again in
//! last-freed-first-reused (stack) order; the table only grows when the
//! pool is empty.

use vstd::prelude::*;
use vstd::pervasive::VecAdditionalExecFns;
use vstd::std_specs::vec::vec_index_mut;
use crate::um_instruction::{decoded, Instruction};

verus! {

/// A sequence of `size` zero words: the contents of a freshly mapped
/// segment.
pub open spec fn zero_seq(size: nat) -> Seq<u32> {
    Seq::new(size, |i: int| 0u32)
}

/// The segment table: the contents of every segment by address, plus the
/// pool of freed addresses eligible for reuse.
#[derive(Clone, Debug)]
pub struct Segment {
    addresses: Vec<usize>,
    instructions: Vec<Vec<u32>>,
}

impl Segment {
    /// The contents of every segment, by address.
    pub closed spec fn segs(&self) -> Seq<Seq<u32>> {
        Seq::new(self.instructions@.len(), |i: int| self.instructions@[i]@)
    }

    /// The freed addresses eligible for reuse, most recently freed last.
    pub closed spec fn pool(&self) -> Seq<usize> {
        self.addresses@
    }

    /// Well-formedness: segment 0 always exists, and every pooled address
    /// stays inside the table.
    pub open spec fn wf(&self) -> bool {
        &&& self.segs().len() >= 1
        &&& forall|i: int|
            0 <= i < self.pool().len() ==> (self.pool()[i] as int) < self.segs().len()
    }

    /// An address is live when it lies inside the table and is not on the
    /// reuse pool; only a live address may be read as a segment, freed, or
    /// copied over segment 0.
    pub open spec fn live(&self, some_address: usize) -> bool {
        &&& (some_address as int) < self.segs().len()
        &&& !self.pool().contains(some_address)
    }

    /// The address the next allocation will return: the most recently freed
    /// address if any is pooled, otherwise the next fresh table slot.
    pub open spec fn next_alloc(&self) -> int {
        if self.pool().len() == 0 {
            self.segs().len() as int
        } else {
            self.pool().last() as int
        }
    }

    /// How one allocation of `size` words changes the table: the returned
    /// address is the most recently freed one if the pool is non-empty
    /// (stack reuse), otherwise a fresh slot at the end of the table; the
    /// segment behind it holds `size` zero words whatever it held before.
    pub open spec fn map_segment_post(pre: Segment, post: Segment, size: nat, addr: usize) -> bool {
        &&& post.wf()
        &&& addr as int == pre.next_alloc()
        &&& if pre.pool().len() == 0 {
            &&& post.segs() == pre.segs().push(zero_seq(size))
            &&& post.pool() == pre.pool()
        } else {
            &&& post.segs() == pre.segs().update(addr as int, zero_seq(size))
            &&& post.pool() == pre.pool().drop_last()
        }
    }

    /// How freeing `addr` changes the table: the segment's contents are
    /// discarded and the address is pushed onto the reuse pool.
    pub open spec fn unmap_segment_post(pre: Segment, post: Segment, addr: usize) -> bool {
        &&& post.wf()
        &&& post.pool() == pre.pool().push(addr)
        &&& post.segs() == pre.segs().update(addr as int, Seq::<u32>::empty())
    }

    /// A fresh table whose only segment, segment 0, holds a copy of the
    /// given program, with an empty reuse pool.
    pub fn new(some_instruction: &Vec<u32>) -> (r: Segment)
        ensures
            r.wf(),
            r.pool().len() == 0,
            r.segs() == seq![some_instruction@],
    {
        let mut instructions: Vec<Vec<u32>> = Vec::new();
        instructions.push(some_instruction.clone());
        let r = Segment { addresses: Vec::new(), instructions };
        proof {
            assert(r.segs() =~= seq![some_instruction@]);
        }
        r
    }

    /// Allocate a segment of `size` zero words and return its address,
    /// reusing the most recently freed address before growing the table.
    pub fn map_segment(&mut self, size: usize) -> (addr: usize)
        requires
            old(self).wf(),
        ensures
            Self::map_segment_post(*old(self), *final(self), size as nat, addr),
    {
        let zero_vec = zero_words(size);
        if self.addresses.is_empty() {
            self.instructions.push(zero_vec);
            proof {
                assert(self.segs() =~= old(self).segs().push(zero_seq(size as nat)));
            }
            self.instructions.len() - 1
        } else {
            let this_address = self.addresses.pop().unwrap();
            proof {
                assert(old(self).pool()[old(self).pool().len() - 1] == this_address);
                assert((this_address as int) < old(self).segs().len());
            }
            self.instructions.set(this_address, zero_vec);
            proof {
                assert(self.segs() =~= old(self).segs().update(
                    this_address as int,
                    zero_seq(size as nat),
                ));
                assert(self.pool() =~= old(self).pool().drop_last());
            }
            this_address
        }
    }

    /// Free the live segment at `some_address`: its contents are discarded
    /// and the address becomes the next one allocation will reuse.
    pub fn unmap_segment(&mut self, some_address: usize)
        requires
            old(self).wf(),
            old(self).live(some_address),
        ensures
            Self::unmap_segment_post(*old(self), *final(self), some_address),
    {
        self.addresses.push(some_address);
        self.instructions.set(some_address, Vec::new());
        proof {
            assert(self.segs() =~= old(self).segs().update(
                some_address as int,
                Seq::<u32>::empty(),
            ));
        }
    }

    /// How many segment addresses the table currently covers.
    pub fn seg_count(&self) -> (n: usize)
        ensures
            n == self.segs().len(),
    {
        self.instructions.len()
    }

    /// How many freed addresses currently wait on the reuse pool.
    pub fn free_count(&self) -> (n: usize)
        ensures
            n == self.pool().len(),
    {
        self.addresses.len()
    }

    /// Whether `some_address` denotes a live segment: inside the table and
    /// not on the reuse pool.
    pub fn is_live(&self, some_address: usize) -> (r: bool)
        ensures
            r == self.live(some_address),
    {
        if some_address >= self.instructions.len() {
            return false;
        }
        let n = self.addresses.len();
        let mut i: usize = 0;
        while i < n
            invariant
                n == self.pool().len(),
                i <= n,
                forall|j: int| 0 <= j < i ==> self.pool()[j] != some_address,
            decreases n - i,
        {
            if self.addresses[i] == some_address {
                proof {
                    assert(self.pool().contains(some_address));
                }
                return false;
            }
            i += 1;
        }
        proof {
            assert(!self.pool().contains(some_address));
        }
        true
    }

    /// The contents of the segment at `some_address`, or `None` iff the
    /// address lies outside the table.
    pub fn get_segment_value(&self, some_address: usize) -> (r: Option<&Vec<u32>>)
        ensures
            match r {
                Some(v) => (some_address as int) < self.segs().len()
                    && v@ == self.segs()[some_address as int],
                None => (some_address as int) >= self.segs().len(),
            },
    {
        if some_address < self.instructions.len() {
            Some(&self.instructions[some_address])
        } else {
            None
        }
    }

    /// How many words the segment at `some_address` currently holds.
    pub fn word_count(&self, some_address: usize) -> (n: usize)
        requires
            (some_address as int) < self.segs().len(),
        ensures
            n == self.segs()[some_address as int].len(),
    {
        self.instructions[some_address].len()
    }

    /// Decode the instruction at word index `c` of segment 0, the running
    /// program.
    pub fn find_instruction(&self, c: usize) -> (r: Instruction)
        requires
            self.wf(),
            (c as int) < self.segs()[0].len(),
        ensures
            r == decoded(self.segs()[0][c as int]),
            r.wf(),
    {
        let seg0: &Vec<u32> = &self.instructions[0];
        Instruction::new(seg0[c])
    }

    /// Overwrite the word at `index` of the segment at `some_address` with
    /// `value`.
    pub fn set_segment_value(&mut self, some_address: usize, index: usize, value: u32)
        requires
            old(self).wf(),
            (some_address as int) < old(self).segs().len(),
            (index as int) < old(self).segs()[some_address as int].len(),
        ensures
            final(self).wf(),
            final(self).pool() == old(self).pool(),
            final(self).segs() == old(self).segs().update(
                some_address as int,
                old(self).segs()[some_address as int].update(index as int, value),
            ),
    {
        let current_segment = vec_index_mut(&mut self.instructions, some_address);
        current_segment.set(index, value);
        proof {
            assert(self.segs() =~= old(self).segs().update(
                some_address as int,
                old(self).segs()[some_address as int].update(index as int, value),
            ));
            assert forall|i: int|
                0 <= i < self.pool().len() implies (self.pool()[i] as int)
                < self.segs().len() by {
                assert(self.pool()[i] == old(self).pool()[i]);
                assert((old(self).pool()[i] as int) < old(self).segs().len());
            }
        }
    }

    /// Replace segment 0 with a full, independent copy of the contents of
    /// the segment at `some_address`; later changes to either segment leave
    /// the other untouched.
    pub fn insert_value(&mut self, some_address: usize)
        requires
            old(self).wf(),
            (some_address as int) < old(self).segs().len(),
        ensures
            final(self).wf(),
            final(self).pool() == old(self).pool(),
            final(self).segs() == old(self).segs().update(
                0,
                old(self).segs()[some_address as int],
            ),
    {
        let cloned_segment = self.instructions[some_address].clone();
        proof {
            assert(cloned_segment@ =~= old(self).segs()[some_address as int]);
        }
        self.instructions.set(0, cloned_segment);
        proof {
            assert(self.segs() =~= old(self).segs().update(
                0,
                old(self).segs()[some_address as int],
            ));
            assert forall|i: int|
                0 <= i < self.pool().len() implies (self.pool()[i] as int)
                < self.segs().len() by {
                assert(self.pool()[i] == old(self).pool()[i]);
                assert((old(self).pool()[i] as int) < old(self).segs().len());
            }
        }
    }
}

/// A vector of `size` zero words.
fn zero_words(size: usize) -> (v: Vec<u32>)
    ensures
        v@ == zero_seq(size as nat),
{
    let mut v: Vec<u32> = Vec::new();
    let mut i: usize = 0;
    while i < size
        invariant
            i <= size,
            v@.len() == i,
            forall|j: int| 0 <= j < i ==> v@[j] == 0u32,
        decreases size - i,
    {
        v.push(0);
        i += 1;
    }
    proof {
        assert(v@ =~= zero_seq(size as nat));
    }
    v
}

/// Law: allocating, freeing the address just returned, and allocating again
/// yields the same address back (reuse before growth), and the reallocated
/// segment holds only zero words whatever it held in between.
pub proof fn lemma_alloc_free_alloc(
    s0: Segment,
    s1: Segment,
    s2: Segment,
    s3: Segment,
    size1: nat,
    size2: nat,
    a1: usize,
    a2: usize,
)
    requires
        s0.wf(),
        Segment::map_segment_post(s0, s1, size1, a1),
        Segment::unmap_segment_post(s1, s2, a1),
        Segment::map_segment_post(s2, s3, size2, a2),
    ensures
        a2 == a1,
        s3.segs()[a1 as int] == zero_seq(size2),
{
}

/// Law: freeing address `x` and then address `y` makes the next two
/// allocations return `y` first and `x` second (last-freed-first-reused).
pub proof fn lemma_free_order_is_reuse_order(
    s0: Segment,
    s1: Segment,
    s2: Segment,
    s3: Segment,
    s4: Segment,
    x: usize,
    y: usize,
    size1: nat,
    size2: nat,
    a1: usize,
    a2: usize,
)
    requires
        s0.wf(),
        Segment::unmap_segment_post(s0, s1, x),
        Segment::unmap_segment_post(s1, s2, y),
        Segment::map_segment_post(s2, s3, size1, a1),
        Segment::map_segment_post(s3, s4, size2, a2),
    ensures
        a1 == y,
        a2 == x,
{
}

} // verus!
