//! Subscriber bookkeeping of the broadcast channel.
//!
//! The channel assigns each accepted connection a fresh id and keeps the ids
//! in insertion order. One broadcast writes the message to every subscriber in
//! that order; the caller reports which writes succeeded, and exactly the
//! failing subscribers are removed — a failed write is the sole removal
//! mechanism.

use vstd::prelude::*;

verus! {

/// The well-known filesystem path of the rendezvous endpoint.
pub open spec fn spec_socket_path() -> Seq<char> {
    "/tmp/qmk-layer-monitor.sock"@
}

/// The well-known filesystem path subscribers connect to. The caller binds
/// the endpoint here, removing any stale artifact of a prior run first, and
/// removes it again on teardown.
pub fn socket_path() -> (r: &'static str)
    ensures
        r@ == spec_socket_path(),
{
    "/tmp/qmk-layer-monitor.sock"
}

/// The subscribers that survive one broadcast: the element at each position
/// is kept exactly when the write outcome at that position is a success.
pub open spec fn retained(subs: Seq<u64>, outcomes: Seq<bool>) -> Seq<u64>
    decreases subs.len(),
{
    if subs.len() == 0 || outcomes.len() == 0 {
        Seq::empty()
    } else if outcomes.last() {
        retained(subs.drop_last(), outcomes.drop_last()).push(subs.last())
    } else {
        retained(subs.drop_last(), outcomes.drop_last())
    }
}

/// How many write outcomes are successes.
pub open spec fn count_true(outcomes: Seq<bool>) -> nat
    decreases outcomes.len(),
{
    if outcomes.len() == 0 {
        0
    } else {
        count_true(outcomes.drop_last()) + if outcomes.last() {
            1nat
        } else {
            0nat
        }
    }
}

/// Owns the subscriber set: the ids of the currently connected subscribers,
/// in insertion order, and the counter that makes every new id fresh.
pub struct BroadcastChannel {
    subscribers: Vec<u64>,
    next_id: u64,
}

impl View for BroadcastChannel {
    type V = Seq<u64>;

    closed spec fn view(&self) -> Seq<u64> {
        self.subscribers@
    }
}

impl BroadcastChannel {
    /// Every held id was assigned by the counter, so new ids never collide.
    pub closed spec fn wf(&self) -> bool {
        forall|i: int| 0 <= i < self.subscribers@.len() ==> self.subscribers@[i] < self.next_id
    }

    /// The id counter has room for another subscriber.
    pub closed spec fn can_subscribe(&self) -> bool {
        self.next_id < u64::MAX
    }

    /// A channel with no subscribers.
    pub fn new() -> (c: BroadcastChannel)
        ensures
            c@ == Seq::<u64>::empty(),
            c.wf(),
    {
        BroadcastChannel { subscribers: Vec::new(), next_id: 0 }
    }

    /// Whether another subscriber can still be accepted (the id counter is
    /// not exhausted).
    pub fn has_capacity(&self) -> (b: bool)
        ensures
            b == self.can_subscribe(),
    {
        self.next_id < u64::MAX
    }

    /// Appends a newly accepted subscriber and returns its id, which is
    /// distinct from every id currently in the set.
    pub fn subscribe(&mut self) -> (id: u64)
        requires
            old(self).wf(),
            old(self).can_subscribe(),
        ensures
            final(self).wf(),
            final(self)@ == old(self)@.push(id),
            !old(self)@.contains(id),
    {
        let id = self.next_id;
        self.next_id = self.next_id + 1;
        self.subscribers.push(id);
        proof {
            assert forall|i: int| 0 <= i < old(self)@.len() implies old(self)@[i] != id by {
                assert(old(self)@[i] < id);
            }
        }
        id
    }

    /// The write plan of one broadcast: every current subscriber, in
    /// insertion order. The message is written once to each of these.
    pub fn subscriber_ids(&self) -> (ids: Vec<u64>)
        ensures
            ids@ == self@,
    {
        let mut ids: Vec<u64> = Vec::new();
        let n = self.subscribers.len();
        let mut i: usize = 0;
        while i < n
            invariant
                i <= n,
                n == self.subscribers@.len(),
                ids@ == self.subscribers@.take(i as int),
            decreases n - i,
        {
            ids.push(self.subscribers[i]);
            proof {
                assert(self.subscribers@.take(i + 1 as int) =~= self.subscribers@.take(
                    i as int,
                ).push(self.subscribers@[i as int]));
            }
            i = i + 1;
        }
        proof {
            assert(ids@ =~= self@);
        }
        ids
    }

    /// Applies the write outcomes of one broadcast, positionally aligned with
    /// the plan from `subscriber_ids`: retains exactly the subscribers whose
    /// write succeeded, in order, and removes all the others.
    pub fn apply_write_results(&mut self, outcomes: &Vec<bool>)
        requires
            old(self).wf(),
            outcomes@.len() == old(self)@.len(),
        ensures
            final(self).wf(),
            final(self)@ == retained(old(self)@, outcomes@),
    {
        let mut kept: Vec<u64> = Vec::new();
        let n = self.subscribers.len();
        let mut i: usize = 0;
        while i < n
            invariant
                i <= n,
                n == self.subscribers@.len(),
                outcomes@.len() == self.subscribers@.len(),
                kept@ == retained(self.subscribers@.take(i as int), outcomes@.take(i as int)),
                forall|k: int| 0 <= k < kept@.len() ==> kept@[k] < self.next_id,
                self.wf(),
            decreases n - i,
        {
            proof {
                assert(self.subscribers@.take(i + 1 as int).drop_last() =~= self.subscribers@.take(
                    i as int,
                ));
                assert(outcomes@.take(i + 1 as int).drop_last() =~= outcomes@.take(i as int));
                assert(self.subscribers@.take(i + 1 as int).last() == self.subscribers@[i as int]);
            }
            if outcomes[i] {
                kept.push(self.subscribers[i]);
            }
            i = i + 1;
        }
        proof {
            assert(self.subscribers@.take(n as int) =~= self.subscribers@);
            assert(outcomes@.take(n as int) =~= outcomes@);
        }
        self.subscribers = kept;
    }
}

/// Law (fan-out, healthy case): when every write of one broadcast succeeds,
/// every subscriber is retained, unchanged and in order.
pub proof fn lemma_all_ok_retained(subs: Seq<u64>, outcomes: Seq<bool>)
    requires
        outcomes.len() == subs.len(),
        forall|i: int| 0 <= i < outcomes.len() ==> outcomes[i],
    ensures
        retained(subs, outcomes) == subs,
    decreases subs.len(),
{
    if subs.len() == 0 {
        assert(retained(subs, outcomes) =~= subs);
    } else {
        lemma_all_ok_retained(subs.drop_last(), outcomes.drop_last());
        assert(outcomes[outcomes.len() - 1]);
        assert(retained(subs, outcomes) =~= subs);
    }
}

/// Law (fan-out, failing case): one broadcast to N subscribers retains
/// exactly as many subscribers as there were successful writes — the failing
/// subscribers, and only those, are removed.
pub proof fn lemma_retained_count(subs: Seq<u64>, outcomes: Seq<bool>)
    requires
        outcomes.len() == subs.len(),
    ensures
        retained(subs, outcomes).len() == count_true(outcomes),
    decreases subs.len(),
{
    if subs.len() > 0 {
        lemma_retained_count(subs.drop_last(), outcomes.drop_last());
    }
}

/// Law (fan-out, membership): everything retained by one broadcast was a
/// subscriber before it.
pub proof fn lemma_retained_subset(subs: Seq<u64>, outcomes: Seq<bool>)
    requires
        outcomes.len() == subs.len(),
    ensures
        forall|k: int|
            0 <= k < retained(subs, outcomes).len() ==> subs.contains(
                #[trigger] retained(subs, outcomes)[k],
            ),
    decreases subs.len(),
{
    if subs.len() > 0 {
        lemma_retained_subset(subs.drop_last(), outcomes.drop_last());
        assert forall|k: int|
            0 <= k < retained(subs, outcomes).len() implies subs.contains(
            #[trigger] retained(subs, outcomes)[k],
        ) by {
            let r = retained(subs, outcomes);
            let rd = retained(subs.drop_last(), outcomes.drop_last());
            if k < rd.len() {
                assert(rd[k] == r[k]);
                let j = choose|j: int| 0 <= j < subs.drop_last().len() && subs.drop_last()[j] == rd[k];
                assert(subs[j] == rd[k]);
            } else {
                assert(r[k] == subs.last());
            }
        }
    }
}

} // verus!
