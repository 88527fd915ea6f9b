use vstd::prelude::*;

verus! {

/// A delivery: fact `fact` of the batch to listener `listener`.
#[derive(Clone, Copy, Debug, PartialEq, Eq, Structural)]
pub struct Delivery {
    pub fact: usize,
    pub listener: usize,
}

/// Whether delivery `a` comes before delivery `b`: facts in batch order, and
/// for one fact the listeners in the order they registered.
pub open spec fn precedes(a: Delivery, b: Delivery) -> bool {
    a.fact < b.fact || (a.fact == b.fact && a.listener < b.listener)
}

/// Delivery of a batch of facts to every registered listener, one
/// (listener, fact) pair at a time. The outcome of one delivery never changes
/// which deliveries follow it: a failure is recorded and the run goes on.
#[derive(Debug)]
pub struct DeliveryRun {
    listener_count: usize,
    fact_count: usize,
    cursor: Delivery,
    failures: Vec<Delivery>,
}

impl DeliveryRun {
    pub closed spec fn listener_count(&self) -> nat {
        self.listener_count as nat
    }

    pub closed spec fn fact_count(&self) -> nat {
        self.fact_count as nat
    }

    /// The next delivery to make; past the last fact once all are made.
    pub closed spec fn cursor(&self) -> Delivery {
        self.cursor
    }

    /// The deliveries that failed so far, in the order they were made.
    pub closed spec fn failures(&self) -> Seq<Delivery> {
        self.failures@
    }

    /// Whether every delivery has been made.
    pub open spec fn spec_finished(&self) -> bool {
        self.cursor().fact >= self.fact_count()
    }

    /// Whether delivery `d` has been made.
    pub open spec fn made(&self, d: Delivery) -> bool {
        d.fact < self.fact_count() && d.listener < self.listener_count() && precedes(
            d,
            self.cursor(),
        )
    }

    pub closed spec fn wf(&self) -> bool {
        &&& self.cursor.listener < self.listener_count || self.listener_count == 0
        &&& self.cursor.fact <= self.fact_count
        &&& self.cursor.fact == self.fact_count ==> self.cursor.listener == 0
        &&& self.listener_count == 0 ==> self.cursor.fact == self.fact_count
    }

    /// A run over `fact_count` facts and `listener_count` listeners, with no
    /// delivery made yet.
    pub fn new(listener_count: usize, fact_count: usize) -> (r: DeliveryRun)
        ensures
            r.wf(),
            r.listener_count() == listener_count,
            r.fact_count() == fact_count,
            r.failures() == Seq::<Delivery>::empty(),
            forall|d: Delivery| !#[trigger] r.made(d),
    {
        let first = if listener_count == 0 {
            Delivery { fact: fact_count, listener: 0 }
        } else {
            Delivery { fact: 0, listener: 0 }
        };
        DeliveryRun { listener_count, fact_count, cursor: first, failures: Vec::new() }
    }

    /// Whether every delivery has been made.
    pub fn is_finished(&self) -> (r: bool)
        ensures
            r == self.spec_finished(),
    {
        self.cursor.fact >= self.fact_count
    }

    /// The next delivery to make, if any remains.
    pub fn next(&self) -> (r: Option<Delivery>)
        requires
            self.wf(),
        ensures
            r == (if self.spec_finished() {
                None::<Delivery>
            } else {
                Some(self.cursor())
            }),
            r matches Some(d) ==> d.fact < self.fact_count() && d.listener < self.listener_count(),
    {
        if self.cursor.fact >= self.fact_count {
            None
        } else {
            Some(self.cursor)
        }
    }

    /// The failures recorded so far.
    pub fn failed(&self) -> (r: &Vec<Delivery>)
        ensures
            r@ == self.failures(),
    {
        &self.failures
    }

    /// Records how the current delivery went and moves on to the next one,
    /// whatever the outcome: the same listener's next fact and the same fact's
    /// other listeners are still delivered after a failure.
    pub fn report(&mut self, ok: bool)
        requires
            old(self).wf(),
            !old(self).spec_finished(),
        ensures
            final(self).wf(),
            final(self).listener_count() == old(self).listener_count(),
            final(self).fact_count() == old(self).fact_count(),
            forall|d: Delivery| #[trigger]
                final(self).made(d) <==> (old(self).made(d) || d == old(self).cursor()),
            final(self).failures() == (if ok {
                old(self).failures()
            } else {
                old(self).failures().push(old(self).cursor())
            }),
    {
        if !ok {
            self.failures.push(self.cursor);
        }
        if self.cursor.listener + 1 < self.listener_count {
            self.cursor = Delivery { fact: self.cursor.fact, listener: self.cursor.listener + 1 };
        } else {
            self.cursor = Delivery { fact: self.cursor.fact + 1, listener: 0 };
        }
    }
}

/// A failed delivery keeps no other delivery from being made: once a run is
/// finished, every (listener, fact) pair has been delivered, whatever failed.
pub proof fn lemma_finished_run_delivers_all(run: &DeliveryRun, d: Delivery)
    requires
        run.wf(),
        run.spec_finished(),
        d.fact < run.fact_count(),
        d.listener < run.listener_count(),
    ensures
        run.made(d),
{
}

} // verus!
