use vstd::prelude::*;
use crate::codec::RpcMethod;
use crate::codec::spec_request_line;
use crate::codec::encode_request;

verus! {

/// The default deadline of a call, in time units.
pub const DEFAULT_CALL_TIMEOUT: u64 = 30;

/// One in-flight request: its identifier, the method its caller issued,
/// and the instant at which it times out.
#[derive(Debug, PartialEq)]
pub struct PendingCall {
    pub id: u64,
    pub method: RpcMethod,
    pub deadline: u64,
}

/// The request/response correlator.  It allocates request identifiers,
/// remembers which requests are in flight, hands each reply to exactly the
/// caller that issued its identifier, and removes entries on timeout or
/// when the worker goes away.  An identifier is never reused: entries only
/// ever carry identifiers no larger than the allocation counter.
pub struct Correlator {
    next_id: u64,
    pending: Vec<PendingCall>,
}

impl Correlator {
    /// The in-flight entries, in order of registration.
    pub closed spec fn pending(self) -> Seq<PendingCall> {
        self.pending@
    }

    /// The last allocated request identifier; zero before the first call.
    pub closed spec fn next_id(self) -> u64 {
        self.next_id
    }

    /// In-flight identifiers are pairwise distinct, positive, and no
    /// larger than the allocation counter.
    pub closed spec fn wf(self) -> bool {
        &&& forall|a: int, b: int|
            0 <= a < b < self.pending@.len() ==> self.pending@[a].id != self.pending@[b].id
        &&& forall|a: int|
            0 <= a < self.pending@.len() ==> 1 <= #[trigger] self.pending@[a].id <= self.next_id
    }

    /// Whether some entry with this identifier is in flight.
    pub open spec fn has_pending(self, id: u64) -> bool {
        exists|k: int| 0 <= k < self.pending().len() && self.pending()[k].id == id
    }

    /// The last allocated request identifier, as a value.
    pub fn last_issued_id(&self) -> (r: u64)
        ensures
            r == self.next_id(),
    {
        self.next_id
    }

    pub fn new() -> (r: Correlator)
        ensures
            r.wf(),
            r.pending().len() == 0,
            r.next_id() == 0,
    {
        Correlator { next_id: 0, pending: Vec::new() }
    }

    /// Starts a call: allocates the next identifier, registers the entry
    /// with its deadline, and returns the identifier together with the
    /// encoded request line to write to the worker.  The identifier is
    /// fresh: no in-flight entry carries it.
    pub fn begin_call(&mut self, method: RpcMethod, now: u64, timeout: u64) -> (r: (u64, String))
        requires
            old(self).wf(),
            old(self).next_id() < u64::MAX,
            now + timeout <= u64::MAX,
        ensures
            final(self).wf(),
            r.0 == old(self).next_id() + 1,
            final(self).next_id() == r.0,
            r.1@ == spec_request_line(r.0 as nat, method),
            final(self).pending() == old(self).pending().push(
                PendingCall { id: r.0, method, deadline: (now + timeout) as u64 },
            ),
            forall|k: int|
                0 <= k < old(self).pending().len() ==> #[trigger] old(self).pending()[k].id != r.0,
            final(self).has_pending(r.0),
    {
        let id = self.next_id + 1;
        self.next_id = id;
        let line = encode_request(id, &method);
        let entry = PendingCall { id, method, deadline: now + timeout };
        self.pending.push(entry);
        proof {
            assert(self.pending()[self.pending().len() - 1].id == id);
        }
        (id, line)
    }

    /// The index of the entry with this identifier, if one is in flight.
    fn find_index(&self, id: u64) -> (r: Option<usize>)
        ensures
            match r {
                Some(k) => k < self.pending().len() && self.pending()[k as int].id == id,
                None => !self.has_pending(id),
            },
    {
        let mut i: usize = 0;
        while i < self.pending.len()
            invariant
                i <= self.pending().len(),
                forall|k: int| 0 <= k < i ==> #[trigger] self.pending()[k].id != id,
            decreases self.pending().len() - i,
        {
            if self.pending[i].id == id {
                return Some(i);
            }
            i = i + 1;
        }
        None
    }

    /// Hands a reply to its caller: removes and returns the entry
    /// registered under `id`.  A reply whose identifier is not in flight
    /// (already resolved, timed out, or never issued) changes nothing and
    /// returns nothing: resolving an entry a second time is a no-op.
    pub fn take(&mut self, id: u64) -> (r: Option<PendingCall>)
        requires
            old(self).wf(),
        ensures
            final(self).wf(),
            final(self).next_id() == old(self).next_id(),
            match r {
                Some(e) => {
                    &&& e.id == id
                    &&& exists|k: int|
                        0 <= k < old(self).pending().len() && old(self).pending()[k] == e
                            && final(self).pending() == old(self).pending().remove(k)
                    &&& forall|k: int|
                        0 <= k < old(self).pending().len() && #[trigger] old(
                            self,
                        ).pending()[k].id == id ==> old(self).pending()[k] == e
                    &&& !final(self).has_pending(id)
                },
                None => {
                    &&& !old(self).has_pending(id)
                    &&& *final(self) == *old(self)
                },
            },
    {
        match self.find_index(id) {
            Some(k) => {
                let e = self.pending.remove(k);
                proof {
                    let pre = old(self).pending();
                    let post = self.pending();
                    assert forall|a: int, b: int|
                        0 <= a < b < post.len() implies post[a].id != post[b].id by {
                        assert(post[a] == if a < k as int {
                            pre[a]
                        } else {
                            pre[a + 1]
                        });
                        assert(post[b] == if b < k as int {
                            pre[b]
                        } else {
                            pre[b + 1]
                        });
                    }
                    assert forall|a: int| 0 <= a < post.len() implies 1 <= #[trigger] post[a].id
                        <= self.next_id() by {
                        assert(post[a] == if a < k as int {
                            pre[a]
                        } else {
                            pre[a + 1]
                        });
                    }
                    assert forall|a: int|
                        0 <= a < post.len() implies #[trigger] post[a].id != id by {
                        assert(post[a] == if a < k as int {
                            pre[a]
                        } else {
                            pre[a + 1]
                        });
                    }
                }
                Some(e)
            },
            None => None,
        }
    }

    /// Expires a call whose deadline has passed: at or after its deadline,
    /// the entry is removed exactly as a reply would remove it, and the
    /// caller gets a timeout error.  Before the deadline, or for an
    /// identifier no longer in flight, nothing changes.
    pub fn expire(&mut self, id: u64, now: u64) -> (r: Option<PendingCall>)
        requires
            old(self).wf(),
        ensures
            final(self).wf(),
            final(self).next_id() == old(self).next_id(),
            match r {
                Some(e) => {
                    &&& e.id == id
                    &&& e.deadline <= now
                    &&& exists|k: int|
                        0 <= k < old(self).pending().len() && old(self).pending()[k] == e
                            && final(self).pending() == old(self).pending().remove(k)
                    &&& !final(self).has_pending(id)
                },
                None => {
                    &&& *final(self) == *old(self)
                    &&& forall|k: int|
                        0 <= k < old(self).pending().len() && #[trigger] old(
                            self,
                        ).pending()[k].id == id ==> old(self).pending()[k].deadline > now
                },
            },
    {
        let due = match self.find_index(id) {
            Some(k) => self.pending[k].deadline <= now,
            None => false,
        };
        if due {
            let r = self.take(id);
            proof {
                assert(r is Some);
            }
            r
        } else {
            proof {
                if old(self).has_pending(id) {
                    let k = choose|k: int|
                        0 <= k < old(self).pending().len() && old(self).pending()[k].id == id;
                    assert forall|m: int|
                        0 <= m < old(self).pending().len() && #[trigger] old(
                            self,
                        ).pending()[m].id == id implies old(self).pending()[m].deadline > now by {
                        if m != k {
                            assert(old(self).pending()[m].id != old(self).pending()[k].id);
                        }
                    }
                }
            }
            None
        }
    }

    /// The identifiers of the in-flight calls whose deadline has passed.
    /// The caller expires each in turn.
    pub fn due_ids(&self, now: u64) -> (r: Vec<u64>)
        ensures
            r@ == due_of(self.pending(), now),
    {
        let mut r: Vec<u64> = Vec::new();
        let mut i: usize = 0;
        assert(self.pending().take(0) =~= Seq::<PendingCall>::empty());
        while i < self.pending.len()
            invariant
                i <= self.pending().len(),
                r@ == due_of(self.pending().take(i as int), now),
            decreases self.pending().len() - i,
        {
            proof {
                lemma_due_snoc(self.pending().take(i as int), self.pending()[i as int], now);
                assert(self.pending().take(i as int).push(self.pending()[i as int])
                    =~= self.pending().take(i as int + 1));
            }
            if self.pending[i].deadline <= now {
                r.push(self.pending[i].id);
            }
            i = i + 1;
        }
        assert(self.pending().take(self.pending().len() as int) =~= self.pending());
        r
    }

    /// Fails every in-flight call at once, as worker termination does:
    /// returns all entries, in registration order, and leaves nothing in
    /// flight.  One call resolves all of them.
    pub fn fail_all(&mut self) -> (r: Vec<PendingCall>)
        requires
            old(self).wf(),
        ensures
            final(self).wf(),
            final(self).next_id() == old(self).next_id(),
            r@ == old(self).pending(),
            final(self).pending().len() == 0,
    {
        let mut out: Vec<PendingCall> = Vec::new();
        core::mem::swap(&mut self.pending, &mut out);
        out
    }
}

/// The identifiers, in registration order, of the entries in `s` whose
/// deadline has passed at `now`.
pub open spec fn due_of(s: Seq<PendingCall>, now: u64) -> Seq<u64>
    decreases s.len(),
{
    if s.len() == 0 {
        Seq::empty()
    } else if s[0].deadline <= now {
        seq![s[0].id] + due_of(s.drop_first(), now)
    } else {
        due_of(s.drop_first(), now)
    }
}

proof fn lemma_due_snoc(s: Seq<PendingCall>, e: PendingCall, now: u64)
    ensures
        due_of(s.push(e), now) == if e.deadline <= now {
            due_of(s, now).push(e.id)
        } else {
            due_of(s, now)
        },
    decreases s.len(),
{
    if s.len() == 0 {
        assert(s.push(e)[0] == e);
        assert(s.push(e).drop_first() =~= Seq::<PendingCall>::empty());
        assert(due_of(Seq::<PendingCall>::empty(), now) == Seq::<u64>::empty());
        if e.deadline <= now {
            assert(due_of(s.push(e), now) =~= due_of(s, now).push(e.id));
        }
    } else {
        lemma_due_snoc(s.drop_first(), e, now);
        assert(s.push(e)[0] == s[0]);
        assert(s.push(e).drop_first() =~= s.drop_first().push(e));
        if e.deadline <= now {
            assert(due_of(s.push(e), now) =~= due_of(s, now).push(e.id));
        }
    }
}

/// Law: in a well-formed correlator an identifier picks out at most one
/// in-flight entry, so a reply can never be delivered to a caller other
/// than the one that issued its identifier.
pub proof fn lemma_one_entry_per_id(c: Correlator, a: int, b: int)
    requires
        c.wf(),
        0 <= a < c.pending().len(),
        0 <= b < c.pending().len(),
        c.pending()[a].id == c.pending()[b].id,
    ensures
        a == b,
{
}

} // verus!
