//! A buffer of numbers with a fixed capacity, which is filled from the
//! front and never reads a place that was not written.

use vstd::prelude::*;

verus! {

/// How many numbers a `MyMemoryBuffer` holds at most.
pub const BUFFER_CAPACITY: usize = 64;

/// Up to `BUFFER_CAPACITY` numbers, in the order in which they were pushed.
pub struct MyMemoryBuffer {
    data: [i32; BUFFER_CAPACITY],
    len: usize,
}

impl View for MyMemoryBuffer {
    type V = Seq<i32>;

    closed spec fn view(&self) -> Seq<i32> {
        self.data@.take(self.len as int)
    }
}

impl MyMemoryBuffer {
    /// The buffer never holds more than its capacity.
    #[verifier::type_invariant]
    spec fn bounded(self) -> bool {
        self.len <= BUFFER_CAPACITY
    }

    /// An empty buffer.
    pub fn new() -> (buffer: Self)
        ensures
            buffer@ == Seq::<i32>::empty(),
    {
        let buffer = MyMemoryBuffer { data: [0i32; BUFFER_CAPACITY], len: 0 };
        buffer
    }

    /// Adds `value` behind the numbers that the buffer holds and returns
    /// how many it holds then; a full buffer stays as it is and returns
    /// nothing.
    pub fn push(&mut self, value: i32) -> (count: Option<usize>)
        ensures
            old(self)@.len() < BUFFER_CAPACITY ==> final(self)@ == old(self)@.push(value) && count
                == Some((old(self)@.len() + 1) as usize),
            old(self)@.len() >= BUFFER_CAPACITY ==> final(self)@ == old(self)@ && count is None,
    {
        proof {
            use_type_invariant(&*self);
        }
        if self.len >= BUFFER_CAPACITY {
            return None;
        }
        let mut data = self.data;
        data[self.len] = value;
        self.data = data;
        self.len = self.len + 1;
        Some(self.len)
    }

    /// How many numbers the buffer holds.
    pub fn len(&self) -> (n: usize)
        ensures
            n == self@.len(),
            n <= BUFFER_CAPACITY,
    {
        proof {
            use_type_invariant(self);
        }
        self.len
    }

    /// The numbers that the buffer holds, oldest first.
    pub fn as_slice(&self) -> (numbers: &[i32])
        ensures
            numbers@ == self@,
    {
        proof {
            use_type_invariant(self);
        }
        let all = self.data.as_slice();
        let numbers = &all[0..self.len];
        numbers
    }
}

} // verus!
