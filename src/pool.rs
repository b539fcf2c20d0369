use vstd::prelude::*;

verus! {

/// Admission to a fixed number of database connections. A request that finds
/// every connection checked out joins a first-come first-served line under its
/// ticket; a release hands the freed connection straight to the head of the
/// line.
pub struct SlotPool {
    capacity: usize,
    in_use: usize,
    waiting: Vec<u64>,
}

pub ghost struct PoolView {
    pub capacity: nat,
    pub in_use: nat,
    pub waiting: Seq<u64>,
}

impl View for SlotPool {
    type V = PoolView;

    closed spec fn view(&self) -> PoolView {
        PoolView { capacity: self.capacity as nat, in_use: self.in_use as nat, waiting: self.waiting@ }
    }
}

/// What every reachable pool state satisfies: never more connections out than
/// the capacity, and nobody waits while a connection is free.
pub open spec fn pool_wf(v: PoolView) -> bool {
    &&& v.capacity > 0
    &&& v.in_use <= v.capacity
    &&& v.waiting.len() > 0 ==> v.in_use == v.capacity
}

/// A fresh pool of the given capacity.
pub open spec fn fresh(capacity: nat) -> PoolView {
    PoolView { capacity, in_use: 0, waiting: Seq::empty() }
}

/// An acquire under `ticket`: granted at once while a connection is free,
/// else the ticket joins the end of the line.
pub open spec fn acquire_step(v: PoolView, ticket: u64) -> (PoolView, bool) {
    if v.in_use < v.capacity {
        (PoolView { in_use: v.in_use + 1, ..v }, true)
    } else {
        (PoolView { waiting: v.waiting.push(ticket), ..v }, false)
    }
}

/// A release: the connection goes to the head of the line, whose ticket is
/// returned, or back to the pool when nobody waits.
pub open spec fn release_step(v: PoolView) -> (PoolView, Option<u64>) {
    if v.waiting.len() > 0 {
        (PoolView { waiting: v.waiting.drop_first(), ..v }, Some(v.waiting[0]))
    } else {
        (PoolView { in_use: (v.in_use - 1) as nat, ..v }, None)
    }
}

/// A waiter whose time ran out leaves the line; `true` when it was still in
/// it (the acquire then fails as exhausted), `false` when a release had
/// already handed it a connection.
pub open spec fn give_up_step(v: PoolView, ticket: u64) -> (PoolView, bool) {
    match v.waiting.index_of_first(ticket) {
        Some(i) => (PoolView { waiting: v.waiting.remove(i), ..v }, true),
        None => (v, false),
    }
}

/// The state after acquires under the given tickets, in order.
pub open spec fn after_acquires(v: PoolView, tickets: Seq<u64>) -> PoolView
    decreases tickets.len(),
{
    if tickets.len() == 0 {
        v
    } else {
        acquire_step(after_acquires(v, tickets.drop_last()), tickets.last()).0
    }
}

impl SlotPool {
    pub closed spec fn wf(&self) -> bool {
        &&& pool_wf(self@)
        &&& self.waiting@.len() <= usize::MAX
    }

    /// A pool of `capacity` connections, none checked out.
    pub fn new(capacity: usize) -> (p: SlotPool)
        requires
            capacity > 0,
        ensures
            p.wf(),
            p@ == fresh(capacity as nat),
    {
        SlotPool { capacity, in_use: 0, waiting: Vec::new() }
    }

    pub fn capacity(&self) -> (r: usize)
        ensures
            r == self@.capacity,
    {
        self.capacity
    }

    pub fn in_use(&self) -> (r: usize)
        ensures
            r == self@.in_use,
    {
        self.in_use
    }

    pub fn waiting_len(&self) -> (r: usize)
        ensures
            r == self@.waiting.len(),
    {
        self.waiting.len()
    }

    /// Asks for a connection under `ticket`; `true` when one was granted,
    /// `false` when the ticket now waits in line.
    pub fn acquire(&mut self, ticket: u64) -> (granted: bool)
        requires
            old(self).wf(),
            old(self)@.waiting.len() < usize::MAX,
        ensures
            final(self).wf(),
            (final(self)@, granted) == acquire_step(old(self)@, ticket),
    {
        if self.in_use < self.capacity {
            self.in_use = self.in_use + 1;
            true
        } else {
            self.waiting.push(ticket);
            false
        }
    }

    /// Gives a connection back; returns the ticket of the waiter that now
    /// holds it, if any.
    pub fn release(&mut self) -> (handed_to: Option<u64>)
        requires
            old(self).wf(),
            old(self)@.in_use > 0,
        ensures
            final(self).wf(),
            (final(self)@, handed_to) == release_step(old(self)@),
    {
        if self.waiting.len() > 0 {
            let t = self.waiting.remove(0);
            assert(self.waiting@ =~= old(self)@.waiting.drop_first());
            Some(t)
        } else {
            self.in_use = self.in_use - 1;
            None
        }
    }

    /// Takes `ticket` out of the line after its wait timed out; `true` when it
    /// was still waiting.
    pub fn give_up(&mut self, ticket: u64) -> (was_waiting: bool)
        requires
            old(self).wf(),
        ensures
            final(self).wf(),
            (final(self)@, was_waiting) == give_up_step(old(self)@, ticket),
    {
        let n = self.waiting.len();
        let mut i: usize = 0;
        while i < n
            invariant
                self == old(self),
                self.wf(),
                n == self.waiting@.len(),
                i <= n,
                forall|j: int| 0 <= j < i ==> self.waiting@[j] != ticket,
            decreases n - i,
        {
            if self.waiting[i] == ticket {
                let ghost w = self.waiting@;
                proof {
                    w.index_of_first_ensures(ticket);
                    assert(w.contains(ticket));
                    let k = w.index_of_first(ticket)->0;
                    if k < i as int {
                        assert(w[k] != ticket);
                    }
                    if k > i as int {
                        assert(w[i as int] != ticket);
                    }
                }
                assert(self@.in_use == self@.capacity);
                self.waiting.remove(i);
                return true;
            }
            i = i + 1;
        }
        proof {
            self.waiting@.index_of_first_ensures(ticket);
            if self.waiting@.contains(ticket) {
                let k = self.waiting@.index_of_first(ticket)->0;
                assert(self.waiting@[k] != ticket);
            }
        }
        false
    }
}

/// Every step keeps the pool well formed: at no point are more connections
/// checked out than the capacity.
pub proof fn lemma_steps_keep_bound(v: PoolView, ticket: u64)
    requires
        pool_wf(v),
    ensures
        pool_wf(acquire_step(v, ticket).0),
        acquire_step(v, ticket).0.in_use <= v.capacity,
        v.in_use > 0 ==> pool_wf(release_step(v).0),
        pool_wf(give_up_step(v, ticket).0),
{
    v.waiting.index_of_first_ensures(ticket);
}

/// From a fresh pool of capacity `n`, `n` acquires are all granted and
/// leave every connection out.
pub proof fn lemma_first_n_granted(n: nat, tickets: Seq<u64>)
    requires
        n > 0,
        tickets.len() <= n,
    ensures
        after_acquires(fresh(n), tickets) == (PoolView { capacity: n, in_use: tickets.len(), waiting: Seq::empty() }),
        forall|k: int| 0 <= k < tickets.len() ==>
            #[trigger] acquire_step(after_acquires(fresh(n), tickets.subrange(0, k)), tickets[k]).1,
    decreases tickets.len(),
{
    if tickets.len() > 0 {
        lemma_first_n_granted(n, tickets.drop_last());
        assert forall|k: int| 0 <= k < tickets.len() implies
            #[trigger] acquire_step(after_acquires(fresh(n), tickets.subrange(0, k)), tickets[k]).1 by {
            if k < tickets.len() - 1 {
                assert(tickets.subrange(0, k) =~= tickets.drop_last().subrange(0, k));
                assert(tickets[k] == tickets.drop_last()[k]);
            } else {
                assert(tickets.subrange(0, k) =~= tickets.drop_last());
            }
        }
    }
}

/// With all `n` connections out, the next acquire waits, and the next
/// release hands it the connection, keeping exactly `n` out.
pub proof fn lemma_next_waits_then_succeeds(n: nat, tickets: Seq<u64>, late: u64)
    requires
        n > 0,
        tickets.len() == n,
    ensures
        !acquire_step(after_acquires(fresh(n), tickets), late).1,
        release_step(acquire_step(after_acquires(fresh(n), tickets), late).0).1 == Some(late),
        release_step(acquire_step(after_acquires(fresh(n), tickets), late).0).0 == after_acquires(fresh(n), tickets),
{
    lemma_first_n_granted(n, tickets);
    let full = after_acquires(fresh(n), tickets);
    let queued = acquire_step(full, late).0;
    assert(queued.waiting =~= seq![late]);
    assert(release_step(queued).0.waiting =~= Seq::<u64>::empty());
}

} // verus!
