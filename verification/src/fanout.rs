use vstd::prelude::*;
use crate::points::PointState;
use crate::points::RawMetrics;

verus! {

/// One published snapshot: the raw counters and the derived breakdown of
/// the same mutation generation.
#[derive(Clone, Copy, Debug, PartialEq, Eq, Structural)]
pub struct PointsPayload {
    pub points: PointState,
    pub metrics: RawMetrics,
}

/// A subscription's read position: the index into the publish history of
/// the next snapshot this subscriber wants.
#[derive(Clone, Copy, Debug, PartialEq, Eq, Structural)]
pub struct Cursor {
    pub next: u64,
}

/// The broadcast fan-out.  A publish appends to the (ghost) history,
/// always fills the single-slot "last known" delivery, and keeps only the
/// most recent `cap` snapshots for the multi-subscriber path: a publish
/// never waits for a reader, and a reader that has fallen more than `cap`
/// behind loses its oldest unread snapshots rather than holding the
/// publisher back.
pub struct Fanout {
    cap: usize,
    published: u64,
    buffer: Vec<PointsPayload>,
    last: Option<PointsPayload>,
    history: Ghost<Seq<PointsPayload>>,
}

impl Fanout {
    /// Everything ever published, in order.
    pub closed spec fn history(self) -> Seq<PointsPayload> {
        self.history@
    }

    /// The bound on retained snapshots.
    pub closed spec fn cap(self) -> usize {
        self.cap
    }

    /// The retained snapshots.
    pub closed spec fn buffer_view(self) -> Seq<PointsPayload> {
        self.buffer@
    }

    /// The single-slot delivery: the most recent snapshot, if any.
    pub closed spec fn last_view(self) -> Option<PointsPayload> {
        self.last
    }

    /// The retained snapshots are exactly the most recent ones: the suffix
    /// of the history of length `min(cap, len)`.
    pub closed spec fn wf(self) -> bool {
        &&& self.cap >= 1
        &&& self.published == self.history@.len()
        &&& self.buffer@.len() == if self.history@.len() <= self.cap as int {
            self.history@.len() as int
        } else {
            self.cap as int
        }
        &&& self.buffer@ == self.history@.skip(self.history@.len() - self.buffer@.len())
        &&& self.last == (if self.history@.len() == 0 {
            None::<PointsPayload>
        } else {
            Some(self.history@.last())
        })
    }

    pub fn new(cap: usize) -> (r: Fanout)
        requires
            cap >= 1,
        ensures
            r.wf(),
            r.cap() == cap,
            r.history().len() == 0,
    {
        let f = Fanout {
            cap,
            published: 0,
            buffer: Vec::new(),
            last: None,
            history: Ghost(Seq::empty()),
        };
        proof {
            assert(f.history@.skip(0) =~= f.buffer@);
        }
        f
    }

    /// Publishes one snapshot.  Publishing never blocks and never fails,
    /// however far behind any reader is: the history grows by one, the
    /// "last known" slot takes the new snapshot unconditionally, and the
    /// oldest retained snapshot is dropped once the bound is reached.
    pub fn publish(&mut self, s: PointsPayload)
        requires
            old(self).wf(),
            old(self).history().len() < u64::MAX,
        ensures
            final(self).wf(),
            final(self).cap() == old(self).cap(),
            final(self).history() == old(self).history().push(s),
            final(self).last_view() == Some(s),
            final(self).buffer_view() == if old(self).buffer_view().len() < old(self).cap() {
                old(self).buffer_view().push(s)
            } else {
                old(self).buffer_view().skip(1).push(s)
            },
    {
        proof {
            self.history@ = self.history@.push(s);
        }
        self.published = self.published + 1;
        self.last = Some(s);
        self.buffer.push(s);
        if self.buffer.len() > self.cap {
            self.buffer.remove(0);
            proof {
                assert(self.buffer@ =~= old(self).buffer_view().skip(1).push(s));
                assert(self.buffer@ =~= self.history@.skip(
                    self.history@.len() - self.buffer@.len(),
                ));
            }
        } else {
            proof {
                assert(self.buffer@ =~= self.history@.skip(
                    self.history@.len() - self.buffer@.len(),
                ));
            }
        }
    }

    /// Opens a subscription.  A new subscriber starts at the head of the
    /// history: it sees the next publish, with no backlog replay.
    pub fn subscribe(&self) -> (c: Cursor)
        requires
            self.wf(),
        ensures
            c.next == self.history().len(),
    {
        Cursor { next: self.published }
    }

    /// What a reader at position `c` receives: nothing while it has read
    /// everything (the reader suspends until the next publish); otherwise
    /// the snapshot at its position, or — where the reader has fallen
    /// behind the retained window — the oldest retained snapshot, skipping
    /// what was dropped.  The snapshot received is never more than `cap`
    /// behind the head of the history.
    pub fn recv(&self, c: Cursor) -> (r: Option<(PointsPayload, Cursor)>)
        requires
            self.wf(),
        ensures
            match r {
                None => c.next >= self.history().len(),
                Some((s, c2)) => {
                    let i = if c.next as int >= self.history().len() - self.buffer_view().len() {
                        c.next as int
                    } else {
                        self.history().len() - self.buffer_view().len()
                    };
                    &&& c.next < self.history().len()
                    &&& s == self.history()[i]
                    &&& c2.next == i + 1
                    &&& i >= c.next
                    &&& self.history().len() - i <= self.cap()
                },
            },
    {
        if c.next >= self.published {
            return None;
        }
        let blen = self.buffer.len() as u64;
        let oldest = self.published - blen;
        if c.next < oldest {
            let s = self.buffer[0];
            Some((s, Cursor { next: oldest + 1 }))
        } else {
            let idx = (c.next - oldest) as usize;
            let s = self.buffer[idx];
            Some((s, Cursor { next: c.next + 1 }))
        }
    }

    /// The single-slot delivery: always the most recent snapshot.
    pub fn last_known(&self) -> (r: Option<PointsPayload>)
        requires
            self.wf(),
        ensures
            r == self.last_view(),
            self.history().len() > 0 ==> r == Some(self.history().last()),
    {
        self.last
    }
}

/// Law: however far behind a reader is, what it receives next is at most
/// `cap` publishes behind the head, so a reader that never keeps up is
/// overtaken instead of slowing the publisher: the skipped snapshots are
/// simply dropped.
pub proof fn lemma_lagging_reader_is_overtaken(f: Fanout, c: Cursor)
    requires
        f.wf(),
        f.history().len() - c.next > f.cap(),
    ensures
        f.history().len() - f.cap() >= c.next + 1,
        f.buffer_view()[0] == f.history()[f.history().len() - f.cap()],
{
    assert(f.buffer_view().len() == f.cap());
    assert(f.buffer_view()[0] == f.history().skip(f.history().len() - f.cap())[0]);
}

} // verus!
