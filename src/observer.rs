//! Notifications about the conversation on display, and a notifier that
//! hands them to a set of observers.

use vstd::prelude::*;

verus! {

/// A notification sent when the user commits a selection.
pub enum Event {
    /// Show the conversation with this identifier and name.
    ChangeConversation { id: String, name: String },
}

/// Something that reacts to notifications by changing its own state.
pub trait Observer: Sized {
    /// The state of `self` after it has been told of `event`.
    spec fn notified(self, event: Event) -> Self;

    fn notify(&mut self, event: &Event)
        ensures
            *final(self) == old(self).notified(*event),
    ;
}

/// Holds observers and tells each of them of every notification.
pub struct Notifier<O> {
    observers: Vec<O>,
}

impl<O: Observer> Notifier<O> {
    /// The observers, in the order they were added.
    pub closed spec fn subscribed(&self) -> Seq<O> {
        self.observers@
    }

    pub fn new() -> (r: Self)
        ensures
            r.subscribed() == Seq::<O>::empty(),
    {
        Notifier { observers: Vec::new() }
    }

    /// The observers, in the order they were added.
    pub fn observers(&self) -> (r: &Vec<O>)
        ensures
            r@ == self.subscribed(),
    {
        &self.observers
    }

    pub fn add_observer(&mut self, observer: O)
        ensures
            final(self).subscribed() == old(self).subscribed().push(observer),
    {
        self.observers.push(observer);
    }

    /// Tells every observer of `event`, in the order they were added.
    pub fn notify_observers(&mut self, event: Event)
        ensures
            final(self).subscribed().len() == old(self).subscribed().len(),
            forall|i: int|
                0 <= i < old(self).subscribed().len() ==> #[trigger] final(self).subscribed()[i]
                    == old(self).subscribed()[i].notified(event),
    {
        let n = self.observers.len();
        let mut i: usize = 0;
        while i < n
            invariant
                n == old(self).observers@.len(),
                self.observers@.len() == n,
                i <= n,
                forall|j: int| 0 <= j < i ==> #[trigger] self.observers@[j] == old(self).observers@[j].notified(event),
                forall|j: int| i <= j < n ==> #[trigger] self.observers@[j] == old(self).observers@[j],
            decreases n - i,
        {
            let mut observer = self.observers.remove(i);
            observer.notify(&event);
            self.observers.insert(i, observer);
            i += 1;
        }
    }
}

} // verus!
