//! Bounded priority queue: highest priority first, first-in first-out
//! within a priority, with a fixed capacity and a closed state.

use vstd::prelude::*;

use crate::error::{OrcError, OrcResult};
use crate::types::{priority_weight, Priority};

verus! {

/// A work item: a payload with its priority.
struct WorkItem<T> {
    payload: T,
    priority: Priority,
}

/// `i` is the position the queue serves next in `s`: an item of the highest
/// priority present, and the earliest such item.
pub open spec fn is_next<T>(s: Seq<(T, Priority)>, i: int) -> bool {
    &&& 0 <= i < s.len()
    &&& forall|j: int| 0 <= j < s.len() ==> priority_weight(#[trigger] s[j].1) <= priority_weight(s[i].1)
    &&& forall|j: int| 0 <= j < i ==> priority_weight(#[trigger] s[j].1) < priority_weight(s[i].1)
}

/// Outcome of one attempt to take an item for a waiting consumer.
pub enum PopPoll<T> {
    /// An item was taken.
    Ready(T),
    /// The queue is closed and empty: nothing will come.
    Drained,
    /// The queue is open and empty: wait for a push.
    Pending,
}

/// Bounded priority queue.
///
/// - Priority ordering: Critical > High > Normal > Low
/// - Ties broken by enqueue order (FIFO within same priority)
/// - `try_push()` returns `QueueFull` at capacity and `QueueClosed` once closed
/// - `try_pop()` returns `None` when empty
pub struct BoundedPriorityQueue<T> {
    items: Vec<WorkItem<T>>,
    capacity: usize,
    closed: bool,
}

impl<T> BoundedPriorityQueue<T> {
    /// The queued items in enqueue order, each with its priority.
    pub closed spec fn contents(&self) -> Seq<(T, Priority)> {
        self.items@.map_values(|w: WorkItem<T>| (w.payload, w.priority))
    }

    /// The maximum number of items.
    pub closed spec fn cap(&self) -> nat {
        self.capacity as nat
    }

    /// Whether the queue has been closed.
    pub closed spec fn is_closed_spec(&self) -> bool {
        self.closed
    }

    /// The queue never holds more items than its capacity.
    pub open spec fn wf(&self) -> bool {
        self.contents().len() <= self.cap()
    }

    /// Create an open, empty queue with the given maximum capacity.
    pub fn new(capacity: usize) -> (q: Self)
        ensures
            q.wf(),
            q.contents() == Seq::<(T, Priority)>::empty(),
            q.cap() == capacity,
            !q.is_closed_spec(),
    {
        let q = BoundedPriorityQueue { items: Vec::new(), capacity, closed: false };
        assert(q.contents() =~= Seq::<(T, Priority)>::empty());
        q
    }

    /// Try to enqueue an item. Returns `QueueClosed` once closed, `QueueFull`
    /// at capacity; on either error the queue is unchanged.
    pub fn try_push(&mut self, item: T, priority: Priority) -> (r: OrcResult<()>)
        requires
            old(self).wf(),
        ensures
            final(self).wf(),
            final(self).cap() == old(self).cap(),
            final(self).is_closed_spec() == old(self).is_closed_spec(),
            old(self).is_closed_spec() ==> r == Err::<(), OrcError>(OrcError::QueueClosed)
                && final(self).contents() == old(self).contents(),
            !old(self).is_closed_spec() && old(self).contents().len() >= old(self).cap() ==> r
                == Err::<(), OrcError>(OrcError::QueueFull { capacity: old(self).cap() as usize })
                && final(self).contents() == old(self).contents(),
            !old(self).is_closed_spec() && old(self).contents().len() < old(self).cap() ==> r is Ok
                && final(self).contents() == old(self).contents().push((item, priority)),
    {
        match self.try_push_inner(item, priority) {
            Ok(()) => Ok(()),
            Err((_, e)) => Err(e),
        }
    }

    /// Try to enqueue an item, handing it back with the error on failure.
    pub fn try_push_inner(&mut self, item: T, priority: Priority) -> (r: Result<(), (T, OrcError)>)
        requires
            old(self).wf(),
        ensures
            final(self).wf(),
            final(self).cap() == old(self).cap(),
            final(self).is_closed_spec() == old(self).is_closed_spec(),
            old(self).is_closed_spec() ==> r == Err::<(), (T, OrcError)>((item, OrcError::QueueClosed))
                && final(self).contents() == old(self).contents(),
            !old(self).is_closed_spec() && old(self).contents().len() >= old(self).cap() ==> r
                == Err::<(), (T, OrcError)>((item, OrcError::QueueFull { capacity: old(self).cap() as usize }))
                && final(self).contents() == old(self).contents(),
            !old(self).is_closed_spec() && old(self).contents().len() < old(self).cap() ==> r is Ok
                && final(self).contents() == old(self).contents().push((item, priority)),
    {
        if self.closed {
            return Err((item, OrcError::QueueClosed));
        }
        if self.items.len() >= self.capacity {
            return Err((item, OrcError::QueueFull { capacity: self.capacity }));
        }
        let ghost before = self.items@;
        self.items.push(WorkItem { payload: item, priority });
        assert(self.contents() =~= before.map_values(|w: WorkItem<T>| (w.payload, w.priority)).push(
            (item, priority),
        ));
        Ok(())
    }

    /// Position of the next item to serve: the earliest among those of the
    /// highest priority.
    fn next_index(&self) -> (i: usize)
        requires
            self.contents().len() > 0,
        ensures
            is_next(self.contents(), i as int),
    {
        let n = self.items.len();
        let mut best: usize = 0;
        let mut i: usize = 1;
        while i < n
            invariant
                n == self.items@.len(),
                n == self.contents().len(),
                1 <= i <= n,
                best < i,
                forall|j: int| 0 <= j < i ==> priority_weight(#[trigger] self.contents()[j].1) <= priority_weight(
                    self.contents()[best as int].1),
                forall|j: int| 0 <= j < best ==> priority_weight(#[trigger] self.contents()[j].1) < priority_weight(
                    self.contents()[best as int].1),
            decreases n - i,
        {
            if self.items[i].priority.weight() > self.items[best].priority.weight() {
                best = i;
            }
            i = i + 1;
        }
        best
    }

    /// Dequeue the highest-priority item, earliest first among equals.
    /// Returns `None`, changing nothing, when the queue is empty.
    pub fn try_pop(&mut self) -> (r: Option<T>)
        requires
            old(self).wf(),
        ensures
            final(self).wf(),
            final(self).cap() == old(self).cap(),
            final(self).is_closed_spec() == old(self).is_closed_spec(),
            old(self).contents().len() == 0 ==> r is None && final(self).contents() == old(self).contents(),
            old(self).contents().len() > 0 ==> exists|i: int|
                #[trigger] is_next(old(self).contents(), i) && r == Some(old(self).contents()[i].0)
                    && final(self).contents() == old(self).contents().remove(i),
    {
        if self.items.len() == 0 {
            return None;
        }
        let i = self.next_index();
        let ghost before = self.items@;
        let w = self.items.remove(i);
        assert(self.contents() =~= before.map_values(|w: WorkItem<T>| (w.payload, w.priority)).remove(
            i as int,
        ));
        Some(w.payload)
    }

    /// One attempt to serve a waiting consumer: an item if there is one;
    /// otherwise `Drained` once closed, else `Pending`.
    pub fn poll_pop(&mut self) -> (r: PopPoll<T>)
        requires
            old(self).wf(),
        ensures
            final(self).wf(),
            final(self).cap() == old(self).cap(),
            final(self).is_closed_spec() == old(self).is_closed_spec(),
            old(self).contents().len() == 0 ==> final(self).contents() == old(self).contents() && (
            if old(self).is_closed_spec() {
                r is Drained
            } else {
                r is Pending
            }),
            old(self).contents().len() > 0 ==> exists|i: int|
                #[trigger] is_next(old(self).contents(), i) && r == PopPoll::Ready(old(self).contents()[i].0)
                    && final(self).contents() == old(self).contents().remove(i),
    {
        match self.try_pop() {
            Some(v) => PopPoll::Ready(v),
            None => {
                if self.closed {
                    PopPoll::Drained
                } else {
                    PopPoll::Pending
                }
            },
        }
    }

    /// Close the queue. No new items are accepted; remaining items can be drained.
    pub fn close(&mut self)
        requires
            old(self).wf(),
        ensures
            final(self).wf(),
            final(self).is_closed_spec(),
            final(self).contents() == old(self).contents(),
            final(self).cap() == old(self).cap(),
    {
        self.closed = true;
    }

    /// Current number of items in the queue.
    pub fn len(&self) -> (n: usize)
        ensures
            n == self.contents().len(),
    {
        self.items.len()
    }

    /// Whether the queue is empty.
    pub fn is_empty(&self) -> (b: bool)
        ensures
            b == (self.contents().len() == 0),
    {
        self.items.len() == 0
    }

    /// Whether the queue has been closed.
    pub fn is_closed(&self) -> (b: bool)
        ensures
            b == self.is_closed_spec(),
    {
        self.closed
    }

    /// Maximum capacity.
    pub fn capacity(&self) -> (c: usize)
        ensures
            c == self.cap(),
    {
        self.capacity
    }
}

} // verus!

verus! {

/// Only one position is served next.
pub proof fn lemma_next_unique<T>(s: Seq<(T, Priority)>, i: int, j: int)
    requires
        is_next(s, i),
        is_next(s, j),
    ensures
        i == j,
{
    if i < j {
        assert(priority_weight(s[i].1) < priority_weight(s[j].1));
        assert(priority_weight(s[j].1) <= priority_weight(s[i].1));
    } else if j < i {
        assert(priority_weight(s[j].1) < priority_weight(s[i].1));
        assert(priority_weight(s[i].1) <= priority_weight(s[j].1));
    }
}

/// A non-empty queue always has a position to serve next.
pub proof fn lemma_next_exists<T>(s: Seq<(T, Priority)>)
    requires
        s.len() > 0,
    ensures
        exists|i: int| #[trigger] is_next(s, i),
    decreases s.len(),
{
    if s.len() == 1 {
        assert(is_next(s, 0));
    } else {
        let t = s.drop_last();
        lemma_next_exists(t);
        let i = choose|i: int| #[trigger] is_next(t, i);
        let last = s.len() - 1;
        if priority_weight(s[last].1) > priority_weight(t[i].1) {
            assert forall|j: int| 0 <= j < s.len() implies priority_weight(#[trigger] s[j].1) <= priority_weight(s[last].1) by {
                if j < last {
                    assert(s[j] == t[j]);
                }
            }
            assert forall|j: int| 0 <= j < last implies priority_weight(#[trigger] s[j].1) < priority_weight(s[last].1) by {
                assert(s[j] == t[j]);
            }
            assert(is_next(s, last));
        } else {
            assert forall|j: int| 0 <= j < s.len() implies priority_weight(#[trigger] s[j].1) <= priority_weight(s[i].1) by {
                if j < last {
                    assert(s[j] == t[j]);
                }
                assert(s[i] == t[i]);
            }
            assert forall|j: int| 0 <= j < i implies priority_weight(#[trigger] s[j].1) < priority_weight(s[i].1) by {
                assert(s[j] == t[j]);
                assert(s[i] == t[i]);
            }
            assert(is_next(s, i));
        }
    }
}

/// First in, first out within a priority: no item is served before an
/// earlier item of the same priority.
pub proof fn lemma_fifo_within_priority<T>(s: Seq<(T, Priority)>, n: int, i: int)
    requires
        is_next(s, n),
        0 <= i < s.len(),
        s[i].1 == s[n].1,
    ensures
        n <= i,
{
    if i < n {
        assert(priority_weight(s[i].1) < priority_weight(s[n].1));
    }
}

/// Highest priority first: the item served next has a priority no lower
/// than that of any queued item.
pub proof fn lemma_highest_priority_first<T>(s: Seq<(T, Priority)>, n: int, i: int)
    requires
        is_next(s, n),
        0 <= i < s.len(),
    ensures
        priority_weight(s[i].1) <= priority_weight(s[n].1),
{
}

/// An item pushed into an empty queue is the one served, leaving it empty.
pub proof fn lemma_push_then_pop<T>(x: T, p: Priority)
    ensures
        is_next(Seq::<(T, Priority)>::empty().push((x, p)), 0),
        Seq::<(T, Priority)>::empty().push((x, p)).remove(0) == Seq::<(T, Priority)>::empty(),
{
    assert(Seq::<(T, Priority)>::empty().push((x, p)).remove(0) =~= Seq::<(T, Priority)>::empty());
}

} // verus!
