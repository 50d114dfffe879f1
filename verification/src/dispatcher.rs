//! Fan-out of accepted changes to a fixed, ordered list of listeners.

use crate::store::StateChange;
use vstd::prelude::*;

verus! {

/// Why a listener could not process a change.
#[derive(Debug, Clone, PartialEq, Eq)]
pub enum ListenerError {
    General(String),
    Mqtt(String),
}

/// A downstream consumer of accepted changes.
pub trait StateListener {
    /// Every change handed to this listener so far, oldest first, whether or
    /// not the listener could process it.
    spec fn received(&self) -> Seq<StateChange>;

    /// Whether this listener, as it stands, may give `answer` to `change`.
    spec fn may_answer(&self, change: StateChange, answer: Result<(), ListenerError>) -> bool;

    /// Takes one change. The listener may fail; it has been handed the
    /// change either way.
    fn on_event(&mut self, change: StateChange) -> (result: Result<(), ListenerError>)
        ensures
            final(self).received() == old(self).received().push(change),
            old(self).may_answer(change, result),
    ;
}

/// A listener made of a callback: every change is handed to the callback,
/// and the callback's answer is the listener's.
pub struct CallbackListener<F: Fn(StateChange) -> Result<(), ListenerError>> {
    callback: F,
    seen: Ghost<Seq<StateChange>>,
}

impl<F: Fn(StateChange) -> Result<(), ListenerError>> CallbackListener<F> {
    #[verifier::type_invariant]
    spec fn callable(self) -> bool {
        forall|change: StateChange| call_requires(self.callback, (change,))
    }

    /// The callback.
    pub closed spec fn callback(&self) -> F {
        self.callback
    }

    /// A listener that hands every change to `callback`, which must take
    /// any change.
    pub fn new(callback: F) -> (listener: Self)
        requires
            forall|change: StateChange| call_requires(callback, (change,)),
        ensures
            listener.callback() == callback,
            listener.received().len() == 0,
    {
        CallbackListener { callback, seen: Ghost(Seq::empty()) }
    }
}

impl<F: Fn(StateChange) -> Result<(), ListenerError>> StateListener for CallbackListener<F> {
    closed spec fn received(&self) -> Seq<StateChange> {
        self.seen@
    }

    open spec fn may_answer(&self, change: StateChange, answer: Result<(), ListenerError>) -> bool {
        call_ensures(self.callback(), (change,), answer)
    }

    /// Calls the callback on `change` and answers what it answers.
    fn on_event(&mut self, change: StateChange) -> (result: Result<(), ListenerError>)
        ensures
            final(self).callback() == old(self).callback(),
    {
        proof {
            use_type_invariant(&*self);
            self.seen@ = self.seen@.push(change);
        }
        (self.callback)(change)
    }
}

/// Holds the listeners, in the order in which they are notified.
pub struct Dispatcher<L: StateListener> {
    listeners: Vec<L>,
}

impl<L: StateListener> Dispatcher<L> {
    /// The listeners, in registration order.
    pub closed spec fn listeners(&self) -> Seq<L> {
        self.listeners@
    }

    /// A dispatcher over `listeners`, which are notified in the given order.
    pub fn new(listeners: Vec<L>) -> (dispatcher: Self)
        ensures
            dispatcher.listeners() == listeners@,
    {
        Self { listeners }
    }

    /// The number of listeners.
    pub fn len(&self) -> (n: usize)
        ensures
            n == self.listeners().len(),
    {
        self.listeners.len()
    }

    /// The listener at `index`, counted in registration order.
    pub fn listener(&self, index: usize) -> (listener: &L)
        requires
            index < self.listeners().len(),
        ensures
            *listener == self.listeners()[index as int],
    {
        &self.listeners[index]
    }

    /// Gives the listeners back, in registration order.
    pub fn into_listeners(self) -> (listeners: Vec<L>)
        ensures
            listeners@ == self.listeners(),
    {
        self.listeners
    }

    /// Hands `change` to every listener, in registration order, exactly once.
    ///
    /// A listener that fails is passed over: those after it are still
    /// notified, and nothing is retried. The result holds what each listener
    /// answered, by its position.
    pub fn dispatch(&mut self, change: StateChange) -> (answers: Vec<Result<(), ListenerError>>)
        ensures
            final(self).listeners().len() == old(self).listeners().len(),
            answers@.len() == old(self).listeners().len(),
            forall|i: int|
                0 <= i < old(self).listeners().len() ==> (#[trigger] final(self).listeners()[i])
                    .received() == old(self).listeners()[i].received().push(change),
            forall|i: int|
                0 <= i < old(self).listeners().len() ==> old(self).listeners()[i].may_answer(
                    change,
                    #[trigger] answers@[i],
                ),
    {
        let mut answers: Vec<Result<(), ListenerError>> = Vec::new();
        let n = self.listeners.len();
        let mut i: usize = 0;
        while i < n
            invariant
                i <= n,
                n == self.listeners@.len(),
                n == old(self).listeners@.len(),
                answers@.len() == i,
                forall|k: int|
                    0 <= k < i ==> (#[trigger] self.listeners@[k]).received() == old(self)
                        .listeners@[k].received().push(change),
                forall|k: int| i <= k < n ==> self.listeners@[k] == old(self).listeners@[k],
                forall|k: int|
                    0 <= k < i ==> old(self).listeners@[k].may_answer(
                        change,
                        #[trigger] answers@[k],
                    ),
            decreases n - i,
        {
            let answer = self.listeners[i].on_event(change);
            answers.push(answer);
            i += 1;
        }
        answers
    }
}

} // verus!
