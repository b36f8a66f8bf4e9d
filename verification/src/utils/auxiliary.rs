//! The bounded, interrupt-safe FIFO used where more than a one-value cell
//! is needed: passing captured event records out of an interrupt handler.
//!
//! The queue's capacity is fixed at construction. Overflow is a signalled,
//! non-fatal error — never a block inside interrupt context, and never a
//! silent drop: the error itself is the record of the failure.

use std::collections::VecDeque;

use vstd::prelude::*;

verus! {

/// Errors related to ISR queue operations.
#[derive(Debug, Clone, Copy, PartialEq, Eq, Structural)]
pub enum ISRQueueError {
    /// The operation could not complete within the wait it was allowed.
    Timeout,
    /// There was nothing to receive.
    Empty,
}

/// How many system ticks elapse per second.
pub const TICK_RATE_HZ: u64 = 100;

/// Converts microseconds to system ticks, rounding down.
pub fn micro_to_ticks(time_us: u32) -> (ticks: u32)
    ensures
        ticks == TICK_RATE_HZ * time_us / 1_000_000,
{
    ((TICK_RATE_HZ * (time_us as u64)) / 1_000_000u64) as u32
}

/// A bounded FIFO that an interrupt handler can push onto without ever
/// blocking: entries are delivered to the consumer in order, and pushing
/// onto a full queue reports an error instead of waiting or overwriting.
pub struct ISRQueue<T: Copy> {
    q: VecDeque<T>,
    capacity: usize,
}

impl<T: Copy> ISRQueue<T> {
    /// The entries currently queued, front first.
    pub closed spec fn contents(self) -> Seq<T> {
        self.q@
    }

    /// The fixed capacity chosen at construction.
    pub closed spec fn capacity(self) -> usize {
        self.capacity
    }

    /// Creates a new empty queue that can hold `size` entries.
    pub fn new(size: usize) -> (queue: ISRQueue<T>)
        ensures
            queue.contents() == Seq::<T>::empty(),
            queue.capacity() == size,
    {
        ISRQueue { q: VecDeque::new(), capacity: size }
    }

    /// How many entries are queued right now.
    pub fn len(&self) -> (len: usize)
        ensures
            len == self.contents().len(),
    {
        self.q.len()
    }

    /// The fixed capacity chosen at construction.
    pub fn get_capacity(&self) -> (capacity: usize)
        ensures
            capacity == self.capacity(),
    {
        self.capacity
    }

    /// A borrow of the entry at position `i` from the front.
    pub fn get(&self, i: usize) -> (entry: &T)
        requires
            i < self.contents().len(),
        ensures
            *entry == self.contents()[i as int],
    {
        &self.q[i]
    }

    /// Appends an entry at the back, waiting up to `micro` microseconds for
    /// room. In the deterministic core nothing can drain the queue while
    /// the caller waits, so a full queue times out whatever the wait is;
    /// the entries already queued are left exactly as they were.
    pub fn send_timeout(&mut self, item: T, micro: u32) -> (result: Result<(), ISRQueueError>)
        ensures
            match result {
                Ok(()) => {
                    &&& old(self).contents().len() < old(self).capacity()
                    &&& final(self).contents() == old(self).contents().push(item)
                },
                Err(e) => {
                    &&& old(self).contents().len() >= old(self).capacity()
                    &&& e == ISRQueueError::Timeout
                    &&& final(self).contents() == old(self).contents()
                },
            },
            final(self).capacity() == old(self).capacity(),
    {
        if self.q.len() < self.capacity {
            self.q.push_back(item);
            Ok(())
        } else {
            Err(ISRQueueError::Timeout)
        }
    }

    /// Receives the entry at the front, waiting up to `micro` microseconds
    /// for one to arrive. In the deterministic core nothing can push while
    /// the caller waits, so an empty queue times out whatever the wait is.
    pub fn receive_timeout(&mut self, micro: u32) -> (result: Result<T, ISRQueueError>)
        ensures
            match result {
                Ok(item) => {
                    &&& old(self).contents().len() > 0
                    &&& item == old(self).contents()[0]
                    &&& final(self).contents() == old(self).contents().drop_first()
                },
                Err(e) => {
                    &&& old(self).contents().len() == 0
                    &&& e == ISRQueueError::Timeout
                    &&& final(self).contents() == old(self).contents()
                },
            },
            final(self).capacity() == old(self).capacity(),
    {
        match self.q.pop_front() {
            Some(item) => Ok(item),
            _ => Err(ISRQueueError::Timeout),
        }
    }

    /// Attempts to append an entry without blocking; a full queue reports
    /// an error at once, under the same variant the zero-wait receive path
    /// uses.
    pub fn try_send(&mut self, item: T) -> (result: Result<(), ISRQueueError>)
        ensures
            match result {
                Ok(()) => {
                    &&& old(self).contents().len() < old(self).capacity()
                    &&& final(self).contents() == old(self).contents().push(item)
                },
                Err(e) => {
                    &&& old(self).contents().len() >= old(self).capacity()
                    &&& e == ISRQueueError::Empty
                    &&& final(self).contents() == old(self).contents()
                },
            },
            final(self).capacity() == old(self).capacity(),
    {
        match self.send_timeout(item, 0) {
            Ok(()) => Ok(()),
            Err(_) => Err(ISRQueueError::Empty),
        }
    }

    /// Attempts to receive the front entry without blocking; an empty
    /// queue reports an error at once.
    pub fn try_recv(&mut self) -> (result: Result<T, ISRQueueError>)
        ensures
            match result {
                Ok(item) => {
                    &&& old(self).contents().len() > 0
                    &&& item == old(self).contents()[0]
                    &&& final(self).contents() == old(self).contents().drop_first()
                },
                Err(e) => {
                    &&& old(self).contents().len() == 0
                    &&& e == ISRQueueError::Empty
                    &&& final(self).contents() == old(self).contents()
                },
            },
            final(self).capacity() == old(self).capacity(),
    {
        match self.receive_timeout(0) {
            Ok(item) => Ok(item),
            Err(_) => Err(ISRQueueError::Empty),
        }
    }
}


/// The position of the first terminator in a sequence of byte slots, or the
/// length when there is none. Every slot before it holds a byte.
pub open spec fn first_terminator(s: Seq<Option<u8>>) -> int
    decreases s.len(),
{
    if s.len() == 0 {
        0
    } else if s[0] is None {
        0
    } else {
        1 + first_terminator(s.drop_first())
    }
}

/// The terminator search stops at exactly the first terminator slot: if the
/// first `j` slots hold bytes, and the one at `j` is a terminator (or `j`
/// is the length), the search yields `j`.
proof fn lemma_first_terminator_at(s: Seq<Option<u8>>, j: int)
    requires
        0 <= j <= s.len(),
        forall|i: int| 0 <= i < j ==> (#[trigger] s[i]) is Some,
        j < s.len() ==> s[j] is None,
    ensures
        first_terminator(s) == j,
    decreases s.len(),
{
    if s.len() > 0 && j > 0 {
        assert(forall|i: int| 0 <= i < j - 1 ==> (#[trigger] s.drop_first()[i]) is Some);
        lemma_first_terminator_at(s.drop_first(), j - 1);
    }
}

/// A wrapper of [`ISRQueue`] that moves whole byte vectors: each message is
/// queued as its bytes followed by one terminator slot. A message is queued
/// entirely or not at all, and received entirely or not at all, so no
/// message is ever corrupted by an overflow or an empty queue.
pub struct ISRByteArrayQueue {
    q: ISRQueue<Option<u8>>,
}

impl ISRByteArrayQueue {
    /// The byte slots currently queued, front first: each message's bytes
    /// followed by its terminator.
    pub closed spec fn contents(self) -> Seq<Option<u8>> {
        self.q.contents()
    }

    /// The fixed slot capacity chosen at construction.
    pub closed spec fn capacity(self) -> usize {
        self.q.capacity()
    }

    /// Creates a new empty queue capable of holding `size * 32` byte slots.
    pub fn new(size: usize) -> (queue: ISRByteArrayQueue)
        requires
            size * 32 <= usize::MAX,
        ensures
            queue.contents() == Seq::<Option<u8>>::empty(),
            queue.capacity() == size * 32,
    {
        ISRByteArrayQueue { q: ISRQueue::new(size * 32) }
    }

    /// Appends a whole byte vector: its bytes, then one terminator slot.
    /// A vector that does not fit alongside what is already queued is
    /// rejected whole, and the queued slots are left exactly as they were.
    pub fn send_timeout(&mut self, item: Vec<u8>, micro: u32) -> (result: Result<
        (),
        ISRQueueError,
    >)
        ensures
            final(self).capacity() == old(self).capacity(),
            match result {
                Ok(()) => {
                    &&& old(self).contents().len() + item@.len() + 1 <= old(self).capacity()
                    &&& final(self).contents() == old(self).contents() + item@.map_values(
                        |b: u8| Some(b),
                    ) + seq![Option::<u8>::None]
                },
                Err(e) => {
                    &&& old(self).contents().len() + item@.len() + 1 > old(self).capacity()
                    &&& e == ISRQueueError::Timeout
                    &&& final(self).contents() == old(self).contents()
                },
            },
    {
        let len = self.q.len();
        let capacity = self.q.get_capacity();
        let fits = match len.checked_add(item.len()) {
            Some(total) => match total.checked_add(1) {
                Some(total_slots) => total_slots <= capacity,
                _ => false,
            },
            _ => false,
        };
        if !fits {
            return Err(ISRQueueError::Timeout);
        }
        let mut i: usize = 0;
        while i < item.len()
            invariant
                i <= item@.len(),
                self.q.capacity() == old(self).capacity(),
                self.q.contents().len() == old(self).contents().len() + i,
                old(self).contents().len() + item@.len() + 1 <= old(self).capacity(),
                self.q.contents() == old(self).contents() + item@.take(i as int).map_values(
                    |b: u8| Some(b),
                ),
            decreases item@.len() - i,
        {
            let sent = self.q.send_timeout(Some(item[i]), micro);
            proof {
                assert(sent is Ok);
                assert(item@.take(i + 1).map_values(|b: u8| Some(b)) =~= item@.take(
                    i as int,
                ).map_values(|b: u8| Some(b)).push(Some(item@[i as int])));
            }
            i = i + 1;
        }
        let sent = self.q.send_timeout(Option::<u8>::None, micro);
        proof {
            assert(sent is Ok);
            assert(item@.take(item@.len() as int) =~= item@);
            assert(final(self).contents() =~= old(self).contents() + item@.map_values(
                |b: u8| Some(b),
            ) + seq![Option::<u8>::None]);
        }
        Ok(())
    }

    /// Receives one whole byte vector: the bytes up to the first
    /// terminator, consuming the terminator too. With no whole message
    /// queued — no terminator among the slots — nothing is consumed and
    /// the receive times out.
    pub fn receive_timeout(&mut self, micro: u32) -> (result: Result<Vec<u8>, ISRQueueError>)
        ensures
            final(self).capacity() == old(self).capacity(),
            match result {
                Ok(bytes) => {
                    let k = first_terminator(old(self).contents());
                    &&& k < old(self).contents().len()
                    &&& bytes@ == Seq::new(k as nat, |i: int| old(self).contents()[i]->0)
                    &&& final(self).contents() == old(self).contents().skip(k + 1)
                },
                Err(e) => {
                    &&& first_terminator(old(self).contents()) == old(self).contents().len()
                    &&& e == ISRQueueError::Timeout
                    &&& final(self).contents() == old(self).contents()
                },
            },
    {
        let len = self.q.len();
        let mut k: usize = 0;
        let mut found = false;
        while k < len && !found
            invariant
                k <= len,
                len == self.contents().len(),
                forall|i: int| 0 <= i < k ==> (#[trigger] self.contents()[i]) is Some,
                found ==> k < len && self.contents()[k as int] is None,
            decreases len - k + (if found { 0int } else { 1int }),
        {
            match self.q.get(k) {
                Some(_) => {
                    k = k + 1;
                },
                _ => {
                    found = true;
                },
            }
        }
        proof {
            lemma_first_terminator_at(self.contents(), k as int);
        }
        if !found {
            return Err(ISRQueueError::Timeout);
        }
        let mut bytes: Vec<u8> = Vec::new();
        let mut i: usize = 0;
        while i < k
            invariant
                i <= k,
                k < old(self).contents().len(),
                forall|p: int| 0 <= p < k ==> (#[trigger] old(self).contents()[p]) is Some,
                self.q.capacity() == old(self).capacity(),
                self.contents() == old(self).contents().skip(i as int),
                bytes@ == Seq::new(i as nat, |p: int| old(self).contents()[p]->0),
            decreases k - i,
        {
            let received = self.q.receive_timeout(micro);
            match received {
                Ok(slot) => {
                    match slot {
                        Some(byte) => {
                            bytes.push(byte);
                        },
                        _ => {
                            proof {
                                assert(old(self).contents()[i as int] is Some);
                                assert(false);
                            }
                        },
                    }
                },
                _ => {
                    proof {
                        assert(false);
                    }
                },
            }
            proof {
                assert(old(self).contents().skip(i as int).drop_first() =~= old(
                    self,
                ).contents().skip(i + 1));
                assert(bytes@ =~= Seq::new((i + 1) as nat, |p: int| old(self).contents()[p]->0));
            }
            i = i + 1;
        }
        let received = self.q.receive_timeout(micro);
        proof {
            assert(received is Ok);
            assert(old(self).contents().skip(k as int).drop_first() =~= old(self).contents().skip(
                k + 1,
            ));
        }
        Ok(bytes)
    }
}

} // verus!
