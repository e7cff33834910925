use vstd::prelude::*;

verus! {

/// What one enqueue does to the queued packets `q` of a store that holds at most
/// `cap` packets: the packet goes to the back when there is room, and a full
/// store is left as it was.
pub open spec fn enqueue<T>(q: Seq<T>, cap: nat, p: T) -> Seq<T> {
    if q.len() < cap {
        q.push(p)
    } else {
        q
    }
}

/// The queued packets after enqueueing each packet of `ps` in turn.
pub open spec fn enqueue_all<T>(q: Seq<T>, cap: nat, ps: Seq<T>) -> Seq<T>
    decreases ps.len(),
{
    if ps.len() == 0 {
        q
    } else {
        enqueue_all(enqueue(q, cap, ps[0]), cap, ps.drop_first())
    }
}

/// The packets that `n` dequeues hand out, in the order they come out.
pub open spec fn dequeued<T>(q: Seq<T>, n: nat) -> Seq<T>
    decreases n,
{
    if n == 0 || q.len() == 0 {
        Seq::empty()
    } else {
        seq![q[0]] + dequeued(q.drop_first(), (n - 1) as nat)
    }
}

/// The outgoing-packet store: a bounded first-in first-out queue with many
/// producers and one consumer. A producer that finds it full gets its packet
/// back and retries later; nothing is dropped.
pub struct Packets<T> {
    items: Vec<T>,
    capacity: usize,
}

impl<T> View for Packets<T> {
    type V = Seq<T>;

    /// The queued packets, oldest first.
    closed spec fn view(&self) -> Seq<T> {
        self.items@
    }
}

impl<T> Packets<T> {
    /// The largest number of packets the store holds.
    pub closed spec fn cap(&self) -> nat {
        self.capacity as nat
    }

    pub open spec fn wf(&self) -> bool {
        self@.len() <= self.cap()
    }

    /// An empty store with room for `capacity` packets.
    pub fn new(capacity: usize) -> (r: Self)
        ensures
            r.wf(),
            r@ == Seq::<T>::empty(),
            r.cap() == capacity,
    {
        Packets { items: Vec::new(), capacity }
    }

    pub fn capacity(&self) -> (r: usize)
        ensures
            r == self.cap(),
    {
        self.capacity
    }

    pub fn len(&self) -> (r: usize)
        ensures
            r == self@.len(),
    {
        self.items.len()
    }

    pub fn is_empty(&self) -> (r: bool)
        ensures
            r == (self@.len() == 0),
    {
        self.items.len() == 0
    }

    pub fn is_full(&self) -> (r: bool)
        requires
            self.wf(),
        ensures
            r == (self@.len() == self.cap()),
    {
        self.items.len() >= self.capacity
    }

    /// Puts `p` at the back of the queue. A full store hands `p` back in `Err`
    /// and keeps its packets as they were.
    pub fn push(&mut self, p: T) -> (r: Result<(), T>)
        requires
            old(self).wf(),
        ensures
            final(self).wf(),
            final(self).cap() == old(self).cap(),
            final(self)@ == enqueue(old(self)@, old(self).cap(), p),
            r is Ok <==> old(self)@.len() < old(self).cap(),
            r is Err ==> r == Err::<(), T>(p),
    {
        if self.items.len() < self.capacity {
            self.items.push(p);
            Ok(())
        } else {
            Err(p)
        }
    }

    /// Takes the oldest packet out of the queue; `None` when it is empty.
    pub fn pop(&mut self) -> (r: Option<T>)
        requires
            old(self).wf(),
        ensures
            final(self).wf(),
            final(self).cap() == old(self).cap(),
            old(self)@.len() == 0 ==> r is None && final(self)@ == old(self)@,
            old(self)@.len() > 0 ==> r == Some(old(self)@[0]) && final(self)@
                == old(self)@.drop_first(),
    {
        if self.items.len() == 0 {
            None
        } else {
            let p = self.items.remove(0);
            assert(self.items@ =~= old(self)@.drop_first());
            Some(p)
        }
    }
}

/// Packets enqueued into a store with room for all of them stand behind the
/// packets already queued, in the order they were enqueued.
pub proof fn lemma_enqueue_all_fits<T>(q: Seq<T>, cap: nat, ps: Seq<T>)
    requires
        q.len() + ps.len() <= cap,
    ensures
        enqueue_all(q, cap, ps) == q + ps,
    decreases ps.len(),
{
    if ps.len() == 0 {
        assert(q + ps =~= q);
    } else {
        let q1 = q.push(ps[0]);
        lemma_enqueue_all_fits(q1, cap, ps.drop_first());
        assert(q1 + ps.drop_first() =~= q + ps);
    }
}

/// Dequeueing as many packets as are queued hands out the whole queue, oldest
/// first.
pub proof fn lemma_dequeue_all<T>(q: Seq<T>)
    ensures
        dequeued(q, q.len()) == q,
    decreases q.len(),
{
    if q.len() > 0 {
        lemma_dequeue_all(q.drop_first());
        assert(seq![q[0]] + q.drop_first() =~= q);
    }
}

/// First in, first out: packets enqueued into an empty store with room for
/// them come out in the order they went in.
pub proof fn lemma_fifo<T>(cap: nat, ps: Seq<T>)
    requires
        ps.len() <= cap,
    ensures
        dequeued(enqueue_all(Seq::<T>::empty(), cap, ps), ps.len()) == ps,
{
    lemma_enqueue_all_fits(Seq::<T>::empty(), cap, ps);
    assert(Seq::<T>::empty() + ps =~= ps);
    lemma_dequeue_all(ps);
}

/// Enqueueing into a full store changes nothing that is queued, whatever is
/// offered.
pub proof fn lemma_full_store_unchanged<T>(q: Seq<T>, cap: nat, ps: Seq<T>)
    requires
        q.len() >= cap,
    ensures
        enqueue_all(q, cap, ps) == q,
    decreases ps.len(),
{
    if ps.len() > 0 {
        lemma_full_store_unchanged(q, cap, ps.drop_first());
    }
}

/// Producers do not disturb one another: whatever the interleaving `ps` of
/// several producers' packets, the packets of one producer (those that
/// `from_producer` picks) stand in the store in the order that producer
/// enqueued them, behind its packets already queued.
pub proof fn lemma_producer_order<T>(
    q: Seq<T>,
    cap: nat,
    ps: Seq<T>,
    from_producer: spec_fn(T) -> bool,
)
    requires
        q.len() + ps.len() <= cap,
    ensures
        enqueue_all(q, cap, ps).filter(from_producer) == q.filter(from_producer) + ps.filter(
            from_producer,
        ),
{
    lemma_enqueue_all_fits(q, cap, ps);
    Seq::filter_distributes_over_add(q, ps, from_producer);
}

/// A dequeue takes the producer's oldest queued packet off the front of that
/// producer's sequence when the packet is its, and leaves its sequence alone
/// otherwise.
pub proof fn lemma_dequeue_producer_order<T>(q: Seq<T>, from_producer: spec_fn(T) -> bool)
    requires
        q.len() > 0,
    ensures
        from_producer(q[0]) ==> q.drop_first().filter(from_producer) == q.filter(
            from_producer,
        ).drop_first(),
        !from_producer(q[0]) ==> q.drop_first().filter(from_producer) == q.filter(
            from_producer,
        ),
{
    let rest = q.drop_first();
    assert(q =~= seq![q[0]] + rest);
    Seq::filter_distributes_over_add(seq![q[0]], rest, from_producer);
    reveal_with_fuel(Seq::filter, 2);
    assert(seq![q[0]].drop_first() =~= Seq::<T>::empty());
    if from_producer(q[0]) {
        assert(seq![q[0]].filter(from_producer) =~= seq![q[0]]);
        assert((seq![q[0]] + rest.filter(from_producer)).drop_first() =~= rest.filter(
            from_producer,
        ));
    } else {
        assert(seq![q[0]].filter(from_producer) =~= Seq::<T>::empty());
        assert(Seq::<T>::empty() + rest.filter(from_producer) =~= rest.filter(from_producer));
    }
}

} // verus!
