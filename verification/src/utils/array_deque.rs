//! This module contains the [`ArrayDeque`].
use vstd::prelude::*;

verus! {

/// `ArrayDeque` is a deque over a fixed number `N` of slots: it never grows.
///
/// The values sit in a ring: the first one at slot `head`, the following ones
/// at the next slots, wrapping around after slot `N - 1`.
pub struct ArrayDeque<T, const N: usize> {
    stack: Vec<Option<T>>,
    len: usize,
    head: usize,
}

/// The slot that holds the value at logical position `i` of a ring of `n` slots
/// that starts at slot `head` (for `0 <= head < n` and `0 <= i <= n`).
pub open spec fn ring_slot(head: int, i: int, n: int) -> int {
    if head + i < n {
        head + i
    } else {
        head + i - n
    }
}

/// The logical position of slot `j` in a ring of `n` slots that starts at slot `head`.
pub open spec fn ring_offset(head: int, j: int, n: int) -> int {
    if j >= head {
        j - head
    } else {
        j - head + n
    }
}

/// Moves the values of an array into a vector, in order (`Vec::from` on an
/// array, which the standard library documents as moving the array's items
/// into a new vector).
#[verifier::external_body]
fn array_into_vec<T, const N: usize>(array: [T; N]) -> (v: Vec<T>)
    ensures
        v@ == array@,
{
    Vec::from(array)
}

impl<T, const N: usize> View for ArrayDeque<T, N> {
    type V = Seq<T>;

    /// The values in the deque, front first.
    closed spec fn view(&self) -> Seq<T> {
        Seq::new(
            self.len as nat,
            |i: int| self.stack@[ring_slot(self.head as int, i, N as int)]->Some_0,
        )
    }
}

impl<T, const N: usize> ArrayDeque<T, N> {
    /// The fixed number of slots, as a number.
    pub open spec fn capacity() -> nat {
        N as nat
    }

    /// Well-formedness: `N` slots, `head` inside them, at most `N` values, exactly
    /// the slots of the ring occupied.
    pub closed spec fn wf(&self) -> bool {
        &&& self.stack@.len() == N
        &&& self.len <= N
        &&& (N == 0 ==> self.head == 0)
        &&& (N > 0 ==> self.head < N)
        &&& forall|j: int|
            0 <= j < N ==> (#[trigger] self.stack@[j] is Some <==> self.occupied(j))
    }

    /// Slot `j` lies in the ring of values.
    closed spec fn occupied(&self, j: int) -> bool {
        ring_offset(self.head as int, j, N as int) < self.len
    }

    /// Creates an empty `ArrayDeque`.
    pub fn new() -> (d: Self)
        ensures
            d.wf(),
            d@ == Seq::<T>::empty(),
    {
        let mut stack: Vec<Option<T>> = Vec::new();
        let mut k: usize = 0;
        while k < N
            invariant
                k <= N,
                stack@.len() == k,
                forall|j: int| 0 <= j < k ==> #[trigger] stack@[j] is None,
            decreases N - k,
        {
            stack.push(None);
            k = k + 1;
        }
        let d = Self { stack, len: 0, head: 0 };
        assert(d@ =~= Seq::<T>::empty());
        d
    }

    /// Creates a full `ArrayDeque` that holds the values of `array`, in order.
    pub fn from_array(array: [T; N]) -> (d: Self)
        ensures
            d.wf(),
            d@ == array@,
    {
        let ghost values = array@;
        let mut rest = array_into_vec(array);
        let mut d = Self::new();
        while rest.len() > 0
            invariant
                d.wf(),
                values.len() == N,
                d@ + rest@ == values,
            decreases rest@.len(),
        {
            let ghost before = rest@;
            let value = rest.remove(0);
            assert(before == seq![value] + rest@);
            d.push_back(value);
            assert(d@ + rest@ =~= values);
        }
        assert(d@ =~= d@ + rest@);
        d
    }

    /// Returns the number of values in the deque.
    pub fn len(&self) -> (r: usize)
        requires
            self.wf(),
        ensures
            r == self@.len(),
    {
        self.len
    }

    /// Returns `true` if the deque is empty.
    pub fn is_empty(&self) -> (r: bool)
        requires
            self.wf(),
        ensures
            r == (self@.len() == 0),
    {
        self.len == 0
    }

    /// Returns the slot of the underlying array that holds logical position `idx`.
    #[inline]
    fn to_physical_idx(&self, idx: usize) -> (r: usize)
        requires
            self.wf(),
            N > 0,
            idx <= N,
        ensures
            r < N,
            r == ring_slot(self.head as int, idx as int, N as int),
    {
        if idx >= N - self.head {
            idx - (N - self.head)
        } else {
            self.head + idx
        }
    }

    /// Appends a value to the back of the deque.
    ///
    /// The deque must not be full.
    pub fn push_back(&mut self, value: T)
        requires
            old(self).wf(),
            old(self)@.len() < N,
        ensures
            final(self).wf(),
            final(self)@ == old(self)@.push(value),
    {
        let idx = self.to_physical_idx(self.len);
        let ghost old_stack = self.stack@;
        let ghost head = self.head as int;
        let ghost len = self.len as int;
        self.stack.set(idx, Some(value));
        self.len = self.len + 1;
        assert forall|j: int| 0 <= j < N implies (#[trigger] self.stack@[j] is Some
            <==> self.occupied(j)) by {
            if j != idx {
                assert(old_stack[j] is Some <==> ring_offset(head, j, N as int) < len);
            }
        }
        assert(self@ =~= old(self)@.push(value));
    }

    /// Removes the first value and returns it, or `None` if the deque is empty.
    pub fn pop_front(&mut self) -> (r: Option<T>)
        requires
            old(self).wf(),
        ensures
            final(self).wf(),
            old(self)@.len() == 0 ==> r is None && final(self)@ == old(self)@,
            old(self)@.len() > 0 ==> r == Some(old(self)@[0]) && final(self)@ == old(self)@.drop_first(),
    {
        if self.len == 0 {
            return None;
        }
        let ghost old_view = self@;
        let idx = self.head;
        let new_head = self.to_physical_idx(1);
        let mut taken: Option<T> = None;
        let ghost old_stack = self.stack@;
        let ghost head = self.head as int;
        let ghost len = self.len as int;
        self.stack.set_and_swap(idx, &mut taken);
        self.len = self.len - 1;
        self.head = new_head;
        assert forall|j: int| 0 <= j < N implies (#[trigger] self.stack@[j] is Some
            <==> self.occupied(j)) by {
            if j != idx {
                assert(old_stack[j] is Some <==> ring_offset(head, j, N as int) < len);
            }
        }
        assert(self@ =~= old_view.drop_first());
        taken
    }

    /// Drops all values in the deque; it is empty afterwards.
    pub fn clear(&mut self)
        requires
            old(self).wf(),
        ensures
            final(self).wf(),
            final(self)@ == Seq::<T>::empty(),
    {
        let mut k: usize = 0;
        while k < N
            invariant
                k <= N,
                self.stack@.len() == N,
                forall|j: int| 0 <= j < k ==> #[trigger] self.stack@[j] is None,
                self.len <= N,
                N == 0 ==> self.head == 0,
                N > 0 ==> self.head < N,
            decreases N - k,
        {
            self.stack.set(k, None);
            k = k + 1;
        }
        self.len = 0;
        assert(self@ =~= Seq::<T>::empty());
    }
}

impl<T, const N: usize> Default for ArrayDeque<T, N> {
    fn default() -> (d: Self)
        ensures
            d.wf(),
            d@ == Seq::<T>::empty(),
    {
        Self::new()
    }
}

/// Values leave the deque in the order they entered: after `push_back(v)` on a
/// deque holding `s`, `pop_front` returns the front of `s`, or `v` if `s` is empty.
pub proof fn lemma_fifo<T>(s: Seq<T>, v: T)
    ensures
        s.len() > 0 ==> s.push(v)[0] == s[0] && s.push(v).drop_first() == s.drop_first().push(v),
        s.len() == 0 ==> s.push(v)[0] == v && s.push(v).drop_first() == Seq::<T>::empty(),
{
    if s.len() > 0 {
        assert(s.push(v).drop_first() =~= s.drop_first().push(v));
    } else {
        assert(s.push(v).drop_first() =~= Seq::<T>::empty());
    }
}

} // verus!
