//! A registry of listeners that are told of random numbers. Listeners keep
//! their identifiers for good: unsubscribing marks a listener inactive
//! instead of removing it.

use vstd::prelude::*;

verus! {

/// Something that is told of events of type `T`.
pub trait Observer<T> {
    fn on_notify(&self, obj: &T);
}

/// The event: a number.
#[derive(Debug, PartialEq, Eq)]
pub struct RandomNumber(pub usize);

/// The identifiers of the active listeners among the first `n`, in order of
/// subscription.
pub open spec fn active_among<L>(observers: Seq<(bool, L)>, n: nat) -> Seq<usize>
    decreases n,
{
    if n == 0 {
        Seq::empty()
    } else {
        let rest = active_among(observers, (n - 1) as nat);
        if observers[n - 1].0 {
            rest.push((n - 1) as usize)
        } else {
            rest
        }
    }
}

/// The identifiers of all active listeners, in order of subscription.
pub open spec fn active_ids<L>(observers: Seq<(bool, L)>) -> Seq<usize> {
    active_among(observers, observers.len())
}

/// Every identifier among the first `n` is below `n`, and the identifiers
/// increase strictly.
pub proof fn lemma_active_among_bounded<L>(observers: Seq<(bool, L)>, n: nat)
    requires
        n <= usize::MAX,
    ensures
        forall|k: int| 0 <= k < active_among(observers, n).len() ==> #[trigger] active_among(observers, n)[k] < n,
        forall|j: int, k: int|
            0 <= j < k < active_among(observers, n).len() ==> active_among(observers, n)[j] < active_among(observers, n)[k],
    decreases n,
{
    if n > 0 {
        lemma_active_among_bounded(observers, (n - 1) as nat);
        let rest = active_among(observers, (n - 1) as nat);
        if observers[n - 1].0 {
            assert(active_among(observers, n) == rest.push((n - 1) as usize));
        }
    }
}

/// Relies on rand::random: a `usize` drawn from the thread-local generator.
/// Nothing is known of the value.
#[verifier::external_body]
fn draw_number() -> usize {
    rand::random()
}

/// Listeners in order of subscription, each with a flag that says whether it
/// is still active. A listener's identifier is its position.
pub struct RandomNumEvent<L> {
    observers: Vec<(bool, L)>,
}

impl<L> View for RandomNumEvent<L> {
    type V = Seq<(bool, L)>;

    closed spec fn view(&self) -> Seq<(bool, L)> {
        self.observers@
    }
}

impl<L: Observer<RandomNumber>> RandomNumEvent<L> {
    pub fn new() -> (r: RandomNumEvent<L>)
        ensures
            r@ == Seq::<(bool, L)>::empty(),
    {
        RandomNumEvent { observers: Vec::new() }
    }

    /// Adds an active listener; its identifier is the number of listeners
    /// before it, so no identifier is ever handed out twice.
    pub fn subscribe(&mut self, observer: L) -> (r: usize)
        requires
            old(self)@.len() < usize::MAX,
        ensures
            r == old(self)@.len(),
            final(self)@ == old(self)@.push((true, observer)),
    {
        self.observers.push((true, observer));
        self.observers.len() - 1
    }

    /// Marks listener `id` inactive; it stays in its place.
    pub fn unsubscribe(&mut self, id: usize)
        requires
            id < old(self)@.len(),
        ensures
            final(self)@ == old(self)@.update(id as int, (false, old(self)@[id as int].1)),
    {
        self.observers[id].0 = false;
    }

    /// The identifiers of the active listeners, in order of subscription.
    pub fn active(&self) -> (r: Vec<usize>)
        ensures
            r@ == active_ids(self@),
    {
        let mut ids: Vec<usize> = Vec::new();
        let mut i: usize = 0;
        while i < self.observers.len()
            invariant
                i <= self@.len(),
                ids@ == active_among(self@, i as nat),
            decreases self@.len() - i,
        {
            if self.observers[i].0 {
                ids.push(i);
            }
            i += 1;
        }
        ids
    }

    /// Tells each active listener of `obj`, in order of subscription.
    pub fn notify_observers(&self, obj: &RandomNumber) {
        let ids = self.active();
        let len: usize = self.observers.len();
        proof {
            lemma_active_among_bounded(self@, len as nat);
        }
        let mut k: usize = 0;
        while k < ids.len()
            invariant
                ids@ == active_ids(self@),
                forall|j: int| 0 <= j < ids@.len() ==> #[trigger] ids@[j] < self@.len(),
            decreases ids@.len() - k,
        {
            let id: usize = ids[k];
            self.observers[id].1.on_notify(obj);
            k += 1;
        }
    }

    /// Draws a number and tells each active listener of it.
    pub fn execute(&self) {
        let num: usize = draw_number();
        self.notify_observers(&RandomNumber(num));
    }
}

} // verus!
