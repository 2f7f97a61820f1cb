//! The message bus: a bounded multi-consumer broadcast primitive.
//!
//! One bus serves one channel. Publishing never blocks and never fails:
//! when the buffer is full the oldest entry is evicted, strictly FIFO.
//! Each subscriber owns a cursor into the stream; a subscriber whose
//! cursor falls further behind the write head than the capacity is told
//! once how many messages it missed and resumes at the oldest message
//! still buffered.
//!
//! The bus is modelled by the full sequence of messages ever published
//! (`BusView::history`); the buffer holds the last `capacity` of them.
//! A cursor is a position in that sequence. What one read does to a
//! cursor, and what it returns, is fixed by the spec functions below;
//! the delivery-order laws in [`crate::delivery`] are stated over the
//! same functions.

use vstd::prelude::*;

verus! {

/// Where the cursor stands after one read, when it stood at `c`, the
/// history had `hlen` messages, and the bus buffers the last `cap` of
/// them.
pub open spec fn cursor_after(hlen: int, cap: int, c: int) -> int {
    if c == hlen {
        c
    } else if hlen - c <= cap {
        c + 1
    } else {
        hlen - cap
    }
}

/// A read at cursor `c` returns a message: something is unread and the
/// cursor has not been overtaken by eviction.
pub open spec fn reads_message(hlen: int, cap: int, c: int) -> bool {
    c < hlen && hlen - c <= cap
}

/// A read at cursor `c` reports lag: the message at `c` was evicted
/// before it was read.
pub open spec fn reads_lag(hlen: int, cap: int, c: int) -> bool {
    c < hlen && hlen - c > cap
}

/// How many messages a lagging read skips: the entries between the
/// cursor and the oldest message still buffered. Those are exactly the
/// messages this subscriber will never observe.
pub open spec fn lag_skip_count(hlen: int, cap: int, c: int) -> int {
    hlen - cap - c
}

/// The abstract state of a bus: everything ever published, the fixed
/// capacity, and whether the bus was closed.
pub struct BusView {
    /// Every message published on this bus, in publish order.
    pub history: Seq<Seq<char>>,
    /// How many of the newest messages stay buffered.
    pub capacity: nat,
    /// Whether the bus accepts no further messages.
    pub closed: bool,
}

/// A bounded broadcast buffer: the newest `capacity` published messages,
/// and the count of all messages ever published.
pub struct Bus {
    capacity: usize,
    buffer: Vec<String>,
    head: u64,
    closed: bool,
    history: Ghost<Seq<Seq<char>>>,
}

/// One subscriber's cursor into a bus's history.
pub struct Subscription {
    cursor: u64,
}

impl View for Bus {
    type V = BusView;

    closed spec fn view(&self) -> BusView {
        BusView { history: self.history@, capacity: self.capacity as nat, closed: self.closed }
    }
}

impl View for Subscription {
    type V = int;

    closed spec fn view(&self) -> int {
        self.cursor as int
    }
}

impl Subscription {
    /// Where this subscription's cursor stands in the bus's history.
    pub fn position(&self) -> (position: u64)
        ensures
            position == self@,
    {
        self.cursor
    }
}

/// What one read hands back.
#[derive(Debug, Clone, PartialEq, Eq)]
pub enum NextResult {
    /// The message at the cursor; the cursor moved past it.
    Message(String),
    /// The cursor was overtaken by eviction: this many messages were
    /// skipped, and the cursor now stands at the oldest buffered one.
    Lagged(u64),
    /// Nothing unread yet; the bus is still open.
    Pending,
    /// Nothing unread and the bus is closed: end of stream.
    Closed,
}

impl Bus {
    /// The buffer slots in use: the whole history until it outgrows the
    /// capacity.
    spec fn stored(&self) -> int {
        if self.history@.len() < self.capacity {
            self.history@.len() as int
        } else {
            self.capacity as int
        }
    }

    /// The bus's invariant: the buffer holds exactly the newest
    /// `stored()` messages of the history, in order.
    pub closed spec fn wf(&self) -> bool {
        &&& self.capacity >= 1
        &&& self.history@.len() == self.head
        &&& self.buffer@.len() == self.stored()
        &&& forall|j: int|
            0 <= j < self.buffer@.len() ==> self.buffer@[j]@ == self.history@[self.history@.len()
                - self.buffer@.len() + j]
    }

    /// An empty open bus that will keep the newest `capacity` messages.
    pub fn new(capacity: usize) -> (bus: Bus)
        requires
            capacity >= 1,
        ensures
            bus.wf(),
            bus@ == (BusView {
                history: Seq::<Seq<char>>::empty(),
                capacity: capacity as nat,
                closed: false,
            }),
    {
        Bus { capacity, buffer: Vec::new(), head: 0, closed: false, history: Ghost(Seq::empty()) }
    }

    /// How many messages were ever published on this bus.
    pub fn message_count(&self) -> (count: u64)
        requires
            self.wf(),
        ensures
            count == self@.history.len(),
    {
        self.head
    }

    /// The fixed capacity.
    pub fn capacity(&self) -> (capacity: usize)
        ensures
            capacity == self@.capacity,
    {
        self.capacity
    }

    /// Whether the bus was closed.
    pub fn is_closed(&self) -> (closed: bool)
        ensures
            closed == self@.closed,
    {
        self.closed
    }

    /// Enqueues `message`: never blocks, never fails. When the buffer is
    /// full the oldest entry is evicted first, so subscribers whose
    /// cursor pointed at it will report lag instead of reading it.
    pub fn publish(&mut self, message: String)
        requires
            old(self).wf(),
            old(self)@.history.len() < u64::MAX,
        ensures
            final(self).wf(),
            final(self)@ == (BusView {
                history: old(self)@.history.push(message@),
                ..old(self)@
            }),
    {
        let ghost entry: Seq<char> = message@;
        if self.buffer.len() == self.capacity {
            self.buffer.remove(0);
        }
        self.buffer.push(message);
        self.head = self.head + 1;
        self.history = Ghost(self.history@.push(entry));
    }

    /// Marks the end of the stream. Messages already buffered can still
    /// be read; after them every subscriber sees `Closed`.
    pub fn close(&mut self)
        requires
            old(self).wf(),
        ensures
            final(self).wf(),
            final(self)@ == (BusView { closed: true, ..old(self)@ }),
    {
        self.closed = true;
    }

    /// A new subscription, positioned at the current write head: it will
    /// observe only messages published after this call, never history.
    pub fn subscribe(&self) -> (subscription: Subscription)
        requires
            self.wf(),
        ensures
            subscription@ == self@.history.len(),
    {
        Subscription { cursor: self.head }
    }

    /// One read: the message at the cursor if it is still buffered, a
    /// lag report if it was evicted, `Pending` if nothing is unread, and
    /// `Closed` once the bus is closed and drained. Never blocks; a
    /// caller that sees `Pending` waits for the next publish and retries.
    pub fn next(&self, subscription: &mut Subscription) -> (outcome: NextResult)
        requires
            self.wf(),
            old(subscription)@ <= self@.history.len(),
        ensures
            final(subscription)@ == cursor_after(
                self@.history.len() as int,
                self@.capacity as int,
                old(subscription)@,
            ),
            old(subscription)@ == self@.history.len() ==> (outcome == if self@.closed {
                NextResult::Closed
            } else {
                NextResult::Pending
            }),
            reads_message(self@.history.len() as int, self@.capacity as int, old(subscription)@)
                ==> (outcome matches NextResult::Message(m) && m@ == self@.history[old(
                subscription,
            )@]),
            reads_lag(self@.history.len() as int, self@.capacity as int, old(subscription)@) ==> (
            outcome matches NextResult::Lagged(n) && n == lag_skip_count(
                self@.history.len() as int,
                self@.capacity as int,
                old(subscription)@,
            ) && n < self@.history.len()),
    {
        if subscription.cursor == self.head {
            if self.closed {
                NextResult::Closed
            } else {
                NextResult::Pending
            }
        } else {
            let capacity = self.capacity as u64;
            if self.head - subscription.cursor <= capacity {
                let base = self.head - self.buffer.len() as u64;
                let index = (subscription.cursor - base) as usize;
                let message = self.buffer[index].clone();
                subscription.cursor = subscription.cursor + 1;
                NextResult::Message(message)
            } else {
                let skipped = self.head - capacity - subscription.cursor;
                subscription.cursor = self.head - capacity;
                NextResult::Lagged(skipped)
            }
        }
    }
}

} // verus!
