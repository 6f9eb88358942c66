use vstd::prelude::*;
use crate::ohlcv::Price;

verus! {

/// The slot `offset` places after slot `head` in a circle of `capacity`
/// slots.
pub open spec fn wrap(head: int, offset: int, capacity: int) -> int {
    if head + offset >= capacity {
        head + offset - capacity
    } else {
        head + offset
    }
}

/// A fixed-capacity circular store of prices.
///
/// Holds the most recent `capacity` values pushed. Its view lists them
/// oldest first.
#[derive(Debug)]
pub struct RingBuffer {
    buffer: Vec<Price>,
    head: usize,
    tail: usize,
    len: usize,
    capacity: usize,
}

impl View for RingBuffer {
    type V = Seq<Price>;

    /// The values held, oldest first.
    closed spec fn view(&self) -> Seq<Price> {
        Seq::new(
            self.len as nat,
            |i: int| self.buffer@[wrap(self.head as int, i, self.capacity as int)],
        )
    }
}

impl RingBuffer {
    /// The number of values the buffer can hold.
    pub closed spec fn spec_capacity(&self) -> nat {
        self.capacity as nat
    }

    /// The representation invariant: the slots form a circle of
    /// `capacity`, `head` is the next slot to overwrite once full, and
    /// `tail` the slot written last.
    pub closed spec fn wf(&self) -> bool {
        &&& self.buffer@.len() == self.capacity
        &&& self.len <= self.capacity
        &&& self.len < self.capacity ==> self.head == 0
        &&& self.head < self.capacity || self.capacity == 0
        &&& self.len > 0 ==> self.tail == wrap(
            self.head as int,
            self.len - 1,
            self.capacity as int,
        )
        &&& self.len == 0 ==> self.tail == 0 && self.head == 0
    }

    /// A well-formed buffer never holds more than its capacity.
    pub proof fn lemma_len_bounded(&self)
        requires
            self.wf(),
        ensures
            self@.len() <= self.spec_capacity(),
    {
    }

    /// An empty buffer of the given capacity.
    pub fn new(capacity: usize) -> (buffer: Self)
        ensures
            buffer.wf(),
            buffer.spec_capacity() == capacity,
            buffer@ == Seq::<Price>::empty(),
    {
        let mut slots: Vec<Price> = Vec::new();
        let mut i: usize = 0;
        while i < capacity
            invariant
                i <= capacity,
                slots@.len() == i,
            decreases capacity - i,
        {
            slots.push(0);
            i = i + 1;
        }
        let buffer = Self { buffer: slots, head: 0, tail: 0, len: 0, capacity };
        assert(buffer@ =~= Seq::<Price>::empty());
        buffer
    }

    /// Whether the buffer holds `capacity` values.
    pub fn is_ready(&self) -> (ready: bool)
        ensures
            ready == (self@.len() == self.spec_capacity()),
    {
        self.len == self.capacity
    }

    /// Appends `value` as the newest. Once full, the oldest value leaves
    /// and is returned; while filling, nothing leaves.
    pub fn push(&mut self, value: Price) -> (evicted: Option<Price>)
        requires
            old(self).wf(),
            old(self).spec_capacity() > 0,
        ensures
            final(self).wf(),
            final(self).spec_capacity() == old(self).spec_capacity(),
            old(self)@.len() == old(self).spec_capacity() ==> {
                &&& evicted == Some(old(self)@[0])
                &&& final(self)@ == old(self)@.drop_first().push(value)
            },
            old(self)@.len() < old(self).spec_capacity() ==> {
                &&& evicted is None
                &&& final(self)@ == old(self)@.push(value)
            },
    {
        if self.is_ready() {
            let old_value: Price = self.buffer[self.head];
            self.buffer.set(self.head, value);
            self.tail = self.head;
            self.head += 1;
            if self.head == self.capacity {
                self.head = 0;
            }
            assert(self@ =~= old(self)@.drop_first().push(value));
            Some(old_value)
        } else {
            self.buffer.set(self.len, value);
            self.tail = self.len;
            self.len += 1;
            assert(self@ =~= old(self)@.push(value));
            None
        }
    }

    /// Overwrites the newest value and returns the value it replaced. On a
    /// buffer that holds nothing the call changes nothing and returns zero.
    pub fn replace(&mut self, value: Price) -> (replaced: Price)
        requires
            old(self).wf(),
            old(self).spec_capacity() > 0,
        ensures
            final(self).wf(),
            final(self).spec_capacity() == old(self).spec_capacity(),
            old(self)@.len() > 0 ==> {
                &&& replaced == old(self)@.last()
                &&& final(self)@ == old(self)@.update(old(self)@.len() - 1, value)
            },
            old(self)@.len() == 0 ==> final(self)@ == old(self)@,
    {
        let old_value: Price = self.buffer[self.tail];
        self.buffer.set(self.tail, value);
        if self.len > 0 {
            assert(self@ =~= old(self)@.update(old(self)@.len() - 1, value));
        } else {
            assert(self@ =~= old(self)@);
        }
        old_value
    }
}

impl Clone for RingBuffer {
    /// A copy that holds the same values and shares nothing with `self`.
    fn clone(&self) -> (copy: Self)
        ensures
            copy@ == self@,
            copy.spec_capacity() == self.spec_capacity(),
            self.wf() ==> copy.wf(),
    {
        let copy = Self {
            buffer: self.buffer.clone(),
            head: self.head,
            tail: self.tail,
            len: self.len,
            capacity: self.capacity,
        };
        copy
    }
}

} // verus!
