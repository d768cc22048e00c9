//! The observer bridge: subscribers of the engine's signals, each with an
//! inbox of signals not yet taken.
//!
//! Publishing appends to every inbox and never waits for a subscriber, so a
//! slow or absent subscriber cannot hold up the engine. A subscriber that is
//! removed loses its inbox at once; nothing is delivered to it afterwards.
use vstd::prelude::*;

verus! {

/// A signal from the engine to its observers.
#[derive(Clone, Copy, Debug, PartialEq, Eq, Structural)]
pub enum TimerEvent {
    /// The remaining time changed to the carried number of seconds.
    Update(u32),
    /// The countdown reached zero.
    Completed,
}

struct Subscriber {
    id: u64,
    inbox: Vec<TimerEvent>,
}

/// The subscribers, in the order in which they subscribed.
pub struct ObserverBridge {
    subscribers: Vec<Subscriber>,
    next_id: u64,
}

/// Whether the identifiers of `entries` strictly increase and stay below
/// `bound`.
pub open spec fn ids_ordered_below(entries: Seq<(u64, Seq<TimerEvent>)>, bound: u64) -> bool {
    &&& forall|i: int, j: int| 0 <= i < j < entries.len() ==> entries[i].0 < entries[j].0
    &&& forall|i: int| 0 <= i < entries.len() ==> entries[i].0 < bound
}

/// Whether some subscriber of `entries` has identifier `id`.
pub open spec fn has_subscriber(entries: Seq<(u64, Seq<TimerEvent>)>, id: u64) -> bool {
    exists|k: int| 0 <= k < entries.len() && entries[k].0 == id
}

/// `entries` after `events` were appended, in order, to every inbox.
pub open spec fn delivered(
    entries: Seq<(u64, Seq<TimerEvent>)>,
    events: Seq<TimerEvent>,
) -> Seq<(u64, Seq<TimerEvent>)> {
    entries.map_values(|e: (u64, Seq<TimerEvent>)| (e.0, e.1 + events))
}

impl View for ObserverBridge {
    type V = Seq<(u64, Seq<TimerEvent>)>;

    /// Each subscriber's identifier with the signals in its inbox, oldest
    /// first.
    closed spec fn view(&self) -> Seq<(u64, Seq<TimerEvent>)> {
        self.subscribers@.map_values(|s: Subscriber| (s.id, s.inbox@))
    }
}

impl ObserverBridge {
    /// The identifier the next subscriber receives.
    pub closed spec fn next_id(&self) -> u64 {
        self.next_id
    }

    /// The invariant of the bridge: identifiers are unique, in order of
    /// subscription.
    pub open spec fn wf(&self) -> bool {
        ids_ordered_below(self@, self.next_id())
    }

    /// A bridge without subscribers.
    pub fn new() -> (r: ObserverBridge)
        ensures
            r@ == Seq::<(u64, Seq<TimerEvent>)>::empty(),
            r.next_id() == 0,
            r.wf(),
    {
        let r = ObserverBridge { subscribers: Vec::new(), next_id: 0 };
        assert(r@ =~= Seq::<(u64, Seq<TimerEvent>)>::empty());
        r
    }

    /// The number of subscribers.
    pub fn len(&self) -> (r: usize)
        ensures
            r == self@.len(),
    {
        self.subscribers.len()
    }

    /// Adds a subscriber with an empty inbox and returns its identifier, or
    /// `None`, with nothing changed, when identifiers are exhausted.
    pub fn subscribe(&mut self) -> (r: Option<u64>)
        requires
            old(self).wf(),
        ensures
            final(self).wf(),
            old(self).next_id() == u64::MAX ==> r is None && final(self)@ == old(self)@
                && final(self).next_id() == old(self).next_id(),
            old(self).next_id() < u64::MAX ==> r == Some(old(self).next_id()) && final(self)@
                == old(self)@.push((old(self).next_id(), Seq::<TimerEvent>::empty()))
                && final(self).next_id() == old(self).next_id() + 1,
    {
        if self.next_id == u64::MAX {
            return None;
        }
        let id = self.next_id;
        self.subscribers.push(Subscriber { id, inbox: Vec::new() });
        self.next_id = id + 1;
        assert(self@ =~= old(self)@.push((id, Seq::<TimerEvent>::empty())));
        Some(id)
    }

    /// Finds the position of subscriber `id`.
    fn position(&self, id: u64) -> (r: Option<usize>)
        requires
            self.wf(),
        ensures
            r matches Some(k) ==> k < self@.len() && self@[k as int].0 == id,
            r is None ==> !has_subscriber(self@, id),
    {
        let mut k: usize = 0;
        while k < self.subscribers.len()
            invariant
                k <= self.subscribers@.len(),
                self@.len() == self.subscribers@.len(),
                forall|j: int| 0 <= j < k ==> self@[j].0 != id,
            decreases self.subscribers@.len() - k,
        {
            if self.subscribers[k].id == id {
                return Some(k);
            }
            k = k + 1;
        }
        None
    }

    /// Removes subscriber `id` with its inbox. Returns whether it was there.
    pub fn unsubscribe(&mut self, id: u64) -> (r: bool)
        requires
            old(self).wf(),
        ensures
            final(self).wf(),
            final(self).next_id() == old(self).next_id(),
            r == has_subscriber(old(self)@, id),
            r ==> exists|k: int|
                0 <= k < old(self)@.len() && old(self)@[k].0 == id && final(self)@ == old(
                    self,
                )@.remove(k),
            !r ==> final(self)@ == old(self)@,
    {
        match self.position(id) {
            Some(k) => {
                let ghost before = self@;
                self.subscribers.remove(k);
                assert(self@ =~= before.remove(k as int));
                true
            },
            None => false,
        }
    }

    /// Appends `event` to every subscriber's inbox.
    pub fn publish(&mut self, event: TimerEvent)
        requires
            old(self).wf(),
        ensures
            final(self).wf(),
            final(self).next_id() == old(self).next_id(),
            final(self)@ == delivered(old(self)@, seq![event]),
    {
        let ghost before = self@;
        let n = self.subscribers.len();
        let mut k: usize = 0;
        while k < n
            invariant
                n == self.subscribers@.len(),
                k <= n,
                before.len() == n,
                self.next_id == old(self).next_id(),
                forall|j: int|
                    0 <= j < k ==> (#[trigger] self.subscribers@[j]).id == before[j].0
                        && self.subscribers@[j].inbox@ == before[j].1.push(event),
                forall|j: int|
                    k <= j < n ==> (#[trigger] self.subscribers@[j]).id == before[j].0
                        && self.subscribers@[j].inbox@ == before[j].1,
            decreases n - k,
        {
            let mut taken = Subscriber { id: 0, inbox: Vec::new() };
            self.subscribers.set_and_swap(k, &mut taken);
            taken.inbox.push(event);
            self.subscribers.set_and_swap(k, &mut taken);
            k = k + 1;
        }
        assert(self@ =~= delivered(before, seq![event])) by {
            assert forall|j: int| 0 <= j < n implies self@[j] == delivered(before, seq![event])[j] by {
                assert(before[j].1.push(event) =~= before[j].1 + seq![event]);
            }
        }
    }

    /// Takes the signals waiting for subscriber `id`, oldest first, and
    /// leaves its inbox empty. An unknown subscriber has none.
    pub fn take_events(&mut self, id: u64) -> (r: Vec<TimerEvent>)
        requires
            old(self).wf(),
        ensures
            final(self).wf(),
            final(self).next_id() == old(self).next_id(),
            !has_subscriber(old(self)@, id) ==> r@ == Seq::<TimerEvent>::empty() && final(self)@
                == old(self)@,
            has_subscriber(old(self)@, id) ==> exists|k: int|
                0 <= k < old(self)@.len() && old(self)@[k].0 == id && r@ == old(self)@[k].1
                    && final(self)@ == old(self)@.update(k, (id, Seq::<TimerEvent>::empty())),
    {
        match self.position(id) {
            Some(k) => {
                let ghost before = self@;
                let mut taken = Subscriber { id, inbox: Vec::new() };
                self.subscribers.set_and_swap(k, &mut taken);
                assert(self@ =~= before.update(k as int, (id, Seq::<TimerEvent>::empty())));
                taken.inbox
            },
            None => Vec::new(),
        }
    }
}

} // verus!
