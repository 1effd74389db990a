//! A segmented queue of tasks: values sit in fixed-size blocks chained in order.
//!
//! Values live in blocks of [`BLOCK_CAP`] slots. A position counts the slots of
//! all blocks with one extra position per block ([`LAP`] positions per block), so
//! the last position of each lap is never a slot: an index that reaches it has
//! just finished a block. An index is a position shifted left by [`SHIFT`]; the
//! head index keeps the [`HAS_NEXT`] bit in the freed low bit, set when a block
//! after the head's is known to exist.
use crate::runtime::Task;
use vstd::prelude::*;
use vstd::rwlock::RwLockPredicate;

verus! {

/// Positions per block: the slots and the one position that ends the block.
pub const LAP: u128 = 3;

/// The number of values a block can hold.
pub const BLOCK_CAP: u128 = 2;

/// How many low bits of an index are kept for metadata.
pub const SHIFT: u128 = 1;

/// The bit of the head index telling that the head's block is not the last one.
pub const HAS_NEXT: u128 = 1;

/// At most this many emptied blocks are kept for reuse.
pub const MAX_POOLED_BLOCKS: usize = 64;

/// A block of slots.
pub struct Block {
    slots: Vec<Option<Task>>,
}

/// The count of slots before position `p`, over all blocks: each block of
/// [`LAP`] positions holds [`BLOCK_CAP`] slots.
pub open spec fn slots_before(p: int) -> int {
    2 * (p / 3) + p % 3
}

/// The position of an index.
pub open spec fn position_of(index: u128) -> int {
    (index / 2) as int
}

/// Whether an index carries the [`HAS_NEXT`] bit.
pub open spec fn has_next_of(index: u128) -> bool {
    index % 2 == 1
}

/// The state of a segmented queue: the head and tail indices, the blocks from
/// the head's to the tail's, and emptied blocks kept for reuse.
///
/// Indices are counted from the head's block: when the head leaves a block, both
/// indices move back by one lap.
pub struct SegQueueState {
    head: u128,
    tail: u128,
    blocks: std::collections::VecDeque<Block>,
    pool: Vec<Block>,
}

impl Block {
    /// An empty block.
    fn empty() -> (b: Self)
        ensures
            b.slots@.len() == 2,
            forall|o: int| 0 <= o < 2 ==> #[trigger] b.slots@[o] is None,
    {
        let mut slots: Vec<Option<Task>> = Vec::new();
        slots.push(None);
        slots.push(None);
        Block { slots }
    }
}

/// The blocks kept for reuse hold [`BLOCK_CAP`] empty slots each.
pub closed spec fn pool_wf(pool: Seq<Block>) -> bool {
    &&& pool.len() <= MAX_POOLED_BLOCKS
    &&& forall|k: int| 0 <= k < pool.len() ==> #[trigger] pool[k].slots@.len() == 2
    &&& forall|k: int, o: int| 0 <= k < pool.len() && 0 <= o < 2 ==> #[trigger] pool[k].slots@[o] is None
}

/// Takes an empty block from the pool, or makes one.
fn take_block(pool: &mut Vec<Block>) -> (b: Block)
    requires
        pool_wf(old(pool)@),
    ensures
        pool_wf(final(pool)@),
        b.slots@.len() == 2,
        forall|o: int| 0 <= o < 2 ==> #[trigger] b.slots@[o] is None,
{
    let ghost before = pool@;
    match pool.pop() {
        Some(block) => {
            assert(before[before.len() - 1] == block);
            assert(block.slots@[0] is None && block.slots@[1] is None);
            assert forall|k: int| 0 <= k < pool@.len() implies #[trigger] pool@[k].slots@.len() == 2 by {
                assert(pool@[k] == before[k]);
            }
            assert forall|k: int, o: int| 0 <= k < pool@.len() && 0 <= o < 2 implies #[trigger] pool@[k].slots@[o] is None by {
                assert(pool@[k] == before[k]);
            }
            block
        },
        None => Block::empty(),
    }
}

impl View for SegQueueState {
    type V = Seq<Task>;

    /// The values in the queue, front first.
    closed spec fn view(&self) -> Seq<Task> {
        Seq::new(
            (slots_before(self.tail_position()) - self.head_position()) as nat,
            |i: int| self.slot(self.head_position() + i)->Some_0,
        )
    }
}

impl SegQueueState {
    /// The value in slot `q` of the blocks, counting slots from the head's block.
    pub closed spec fn slot(&self, q: int) -> Option<Task> {
        self.blocks@[q / 2].slots@[q % 2]
    }

    /// The head's position.
    pub closed spec fn head_position(&self) -> int {
        position_of(self.head)
    }

    /// The tail's position.
    pub closed spec fn tail_position(&self) -> int {
        position_of(self.tail)
    }

    /// The head index.
    pub closed spec fn head_index(&self) -> u128 {
        self.head
    }

    /// The tail index.
    pub closed spec fn tail_index(&self) -> u128 {
        self.tail
    }

    /// Well-formedness of the indices, the blocks and the pool.
    pub closed spec fn wf(&self) -> bool {
        let hp = self.head_position();
        let tp = self.tail_position();
        &&& hp < 2
        &&& self.tail % 2 == 0
        &&& tp % 3 != 2
        &&& hp <= tp
        &&& self.blocks@.len() == tp / 3 + 1
        &&& (has_next_of(self.head) ==> tp >= 3)
        &&& forall|k: int| 0 <= k < self.blocks@.len() ==> #[trigger] self.blocks@[k].slots@.len() == 2
        &&& forall|q: int|
            0 <= q < 2 * self.blocks@.len() ==> (#[trigger] self.slot(q) is Some <==> hp <= q
                < slots_before(tp))
        &&& pool_wf(self.pool@)
    }

    /// Creates the state of an empty queue.
    pub fn new() -> (s: Self)
        ensures
            s.wf(),
            s@ == Seq::<Task>::empty(),
    {
        let mut blocks = std::collections::VecDeque::new();
        blocks.push_back(Block::empty());
        let s = SegQueueState { head: 0, tail: 0, blocks, pool: Vec::new() };
        assert(s@ =~= Seq::<Task>::empty());
        s
    }

    /// Pushes a value at the back.
    pub fn push(&mut self, value: Task)
        requires
            old(self).wf(),
        ensures
            final(self).wf(),
            final(self)@ == old(self)@.push(value),
    {
        let ghost old_view = self@;
        let ghost hp = self.head_position();
        let number_of_blocks = self.blocks.len();
        let tail = self.tail;
        let offset = (tail / 2) % LAP;
        let new_tail = tail + 2;
        let mut last = match self.blocks.pop_back() {
            Some(block) => block,
            None => {
                assert(false);
                Block::empty()
            },
        };
        let ghost k_last = (number_of_blocks - 1) as int;
        let ghost old_blocks = old(self).blocks@;
        assert(last == old_blocks[k_last]);
        assert(last.slots@.len() == 2);
        let slot_index = offset as usize;
        let ghost old_slots = last.slots@;
        last.slots.set(slot_index, Some(value));
        self.blocks.push_back(last);
        assert(self.blocks@ =~= old_blocks.update(k_last, last));
        if offset + 1 == BLOCK_CAP {
            let next_block = take_block(&mut self.pool);
            self.blocks.push_back(next_block);
            self.tail = new_tail + 2;
        } else {
            self.tail = new_tail;
        }
        assert forall|k: int| 0 <= k < self.blocks@.len() implies #[trigger] self.blocks@[k].slots@.len() == 2 by {}
        assert forall|q: int| 0 <= q < 2 * self.blocks@.len() implies (#[trigger] self.slot(q) is Some
            <==> self.head_position() <= q < slots_before(self.tail_position())) by {
            if q / 2 != k_last || q % 2 != offset as int {
                if q < 2 * (number_of_blocks as int) {
                    if q / 2 != k_last {
                        assert(self.blocks@[q / 2] == old_blocks[q / 2]);
                    }
                    assert(old(self).slot(q) == self.slot(q));
                }
            }
        }
        assert(self@ =~= old_view.push(value)) by {
            assert forall|i: int| 0 <= i < old_view.len() implies self@[i] == old_view[i] by {
                assert(old(self).slot(hp + i) == self.slot(hp + i));
            }
        }
    }

    /// Pops the value at the front, or returns `None` if the queue is empty.
    pub fn pop(&mut self) -> (r: Option<Task>)
        requires
            old(self).wf(),
        ensures
            final(self).wf(),
            old(self)@.len() == 0 ==> r is None && final(self)@ == old(self)@,
            old(self)@.len() > 0 ==> r == Some(old(self)@[0]) && final(self)@ == old(self)@.drop_first(),
    {
        let ghost old_view = self@;
        let ghost hp = self.head_position();
        let ghost tp = self.tail_position();
        let ghost old_blocks = self.blocks@;
        let head = self.head;
        let offset = (head / 2) % LAP;
        let mut new_head = head + 2;
        if new_head % 2 == 0 {
            let tail = self.tail;
            if head / 2 == tail / 2 {
                assert(old_view.len() == 0);
                return None;
            }
            if (head / 2) / LAP != (tail / 2) / LAP {
                new_head = new_head + HAS_NEXT;
            }
        }
        assert(old_view.len() > 0);
        let number_of_blocks = self.blocks.len();
        let mut first = match self.blocks.pop_front() {
            Some(block) => block,
            None => {
                assert(false);
                Block::empty()
            },
        };
        assert(first == old_blocks[0]);
        assert(old(self).slot(hp) is Some);
        let mut taken: Option<Task> = None;
        let slot_index = offset as usize;
        first.slots.set_and_swap(slot_index, &mut taken);
        let value = match taken {
            Some(task) => task,
            None => {
                assert(false);
                Task::new(0, false)
            },
        };
        assert(value == old_view[0]);
        if offset + 1 == BLOCK_CAP {
            assert(first.slots@[0] is None) by {
                assert(old(self).slot(0) is None);
            }
            self.head = if self.blocks.len() > 1 {
                HAS_NEXT
            } else {
                0
            };
            self.tail = self.tail - 2 * LAP;
            if self.pool.len() < MAX_POOLED_BLOCKS {
                let ghost before = self.pool@;
                self.pool.push(first);
                assert forall|k: int| 0 <= k < self.pool@.len() implies #[trigger] self.pool@[k].slots@.len() == 2 by {
                    if k < before.len() {
                        assert(self.pool@[k] == before[k]);
                    }
                }
                assert forall|k: int, o: int| 0 <= k < self.pool@.len() && 0 <= o < 2 implies #[trigger] self.pool@[k].slots@[o] is None by {
                    if k < before.len() {
                        assert(self.pool@[k] == before[k]);
                    }
                }
            }
            assert forall|k: int| 0 <= k < self.blocks@.len() implies #[trigger] self.blocks@[k].slots@.len() == 2 by {
                assert(self.blocks@[k] == old_blocks[k + 1]);
            }
            assert forall|q: int| 0 <= q < 2 * self.blocks@.len() implies (#[trigger] self.slot(q) is Some
                <==> self.head_position() <= q < slots_before(self.tail_position())) by {
                assert(self.blocks@[q / 2] == old_blocks[q / 2 + 1]);
                assert(self.slot(q) == old(self).slot(q + 2));
            }
            assert(self@ =~= old_view.drop_first()) by {
                assert forall|i: int| 0 <= i < self@.len() implies self@[i] == old_view[i + 1] by {
                    assert(self.blocks@[i / 2] == old_blocks[i / 2 + 1]);
                    assert(self.slot(i) == old(self).slot(i + 2));
                }
            }
        } else {
            self.head = new_head;
            self.blocks.push_front(first);
            assert forall|k: int| 0 <= k < self.blocks@.len() implies #[trigger] self.blocks@[k].slots@.len() == 2 by {
                if k > 0 {
                    assert(self.blocks@[k] == old_blocks[k]);
                }
            }
            assert forall|q: int| 0 <= q < 2 * self.blocks@.len() implies (#[trigger] self.slot(q) is Some
                <==> self.head_position() <= q < slots_before(self.tail_position())) by {
                if q / 2 > 0 {
                    assert(self.blocks@[q / 2] == old_blocks[q / 2]);
                }
                if q != hp {
                    assert(self.slot(q) == old(self).slot(q));
                }
            }
            assert(self@ =~= old_view.drop_first()) by {
                assert forall|i: int| 0 <= i < self@.len() implies self@[i] == old_view[i + 1] by {
                    let q = self.head_position() + i;
                    if q / 2 > 0 {
                        assert(self.blocks@[q / 2] == old_blocks[q / 2]);
                    }
                    assert(self.slot(q) == old(self).slot(q));
                }
            }
        }
        Some(value)
    }

    /// Returns `true` if the queue is empty.
    pub fn is_empty(&self) -> (r: bool)
        requires
            self.wf(),
        ensures
            r == (self@.len() == 0),
    {
        self.head / 2 == self.tail / 2
    }

    /// Returns the number of values in the queue: the positions from head to tail
    /// minus the block ends among them.
    pub fn len(&self) -> (r: u128)
        requires
            self.wf(),
        ensures
            r == self@.len(),
    {
        let mut tail = self.tail / 2;
        let mut head = self.head / 2;
        if tail % LAP == LAP - 1 {
            tail = tail + 1;
        }
        if head % LAP == LAP - 1 {
            head = head + 1;
        }
        let lap = head / LAP;
        tail = tail - lap * LAP;
        head = head - lap * LAP;
        tail - head - tail / LAP
    }
}

/// The invariant of the state kept in a [`SegTaskQueue`]: it is well formed.
pub struct SegQueueIsWellFormed;

impl RwLockPredicate<SegQueueState> for SegQueueIsWellFormed {
    open spec fn inv(self, state: SegQueueState) -> bool {
        state.wf()
    }
}

/// A first-in first-out queue of tasks that can be shared between threads.
///
/// The segmented state ([`SegQueueState`]) is kept under a short spin lock. Since
/// other threads may change the queue between two calls, the contracts of these
/// methods state what holds of every outcome; those of [`SegQueueState`] state
/// what each operation does.
pub struct SegTaskQueue {
    inner: vstd::rwlock::RwLock<SegQueueState, SegQueueIsWellFormed>,
}

impl SegTaskQueue {
    /// Creates a new, empty queue.
    pub fn new() -> (q: Self) {
        SegTaskQueue { inner: vstd::rwlock::RwLock::new(SegQueueState::new(), Ghost(SegQueueIsWellFormed)) }
    }

    /// Pushes a task at the back of the queue.
    pub fn push(&self, value: Task) {
        let (mut state, handle) = self.inner.acquire_write();
        state.push(value);
        handle.release_write(state);
    }

    /// Pops the task at the front of the queue, or returns `None` if it is empty.
    pub fn pop(&self) -> Option<Task> {
        let (mut state, handle) = self.inner.acquire_write();
        let value = state.pop();
        handle.release_write(state);
        value
    }

    /// Returns `true` if the queue was empty when it was looked at.
    pub fn is_empty(&self) -> bool {
        let handle = self.inner.acquire_read();
        let empty = handle.borrow().is_empty();
        handle.release_read();
        empty
    }

    /// Returns the number of tasks in the queue when it was looked at, or
    /// `usize::MAX` if that number does not fit in a `usize`.
    pub fn len(&self) -> usize {
        let handle = self.inner.acquire_read();
        let len = handle.borrow().len();
        handle.release_read();
        if len <= usize::MAX as u128 {
            len as usize
        } else {
            usize::MAX
        }
    }
}

impl Default for SegTaskQueue {
    fn default() -> (q: Self) {
        Self::new()
    }
}

} // verus!
