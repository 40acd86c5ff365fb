//! Synchronous publish/subscribe notifications.
//!
//! [`EngineEvent`] names everything the engine can report during a frame;
//! [`EventBus`] hands each emitted event to every registered [`Listener`],
//! in registration order, on the calling thread, before `emit` returns.
//! Listeners cannot be unregistered; the bus never stores events.

use crate::input::Key;
use vstd::prelude::*;

verus! {

/// A notification about something that happened this frame.
#[derive(Debug, Clone)]
pub enum EngineEvent {
    /// A new game object entered the scene; carries its index in the
    /// engine's object list.
    ObjectSpawned(usize),
    /// An object changed position; carries (object index, new x, new y),
    /// with the coordinates already clamped into the grid.
    ObjectMoved(usize, usize, usize),
    /// Some input was received (catch-all variant).
    InputRecieved(Key),
    /// A key went down this frame that was up last frame.
    KeyPressed(Key),
    /// A key is down this frame and was down last frame too.
    KeyHeld(Key),
    /// A key is up this frame that was down last frame.
    KeyReleased(Key),
    /// An application-defined notification with a free-form payload.
    Custom(String),
}

/// A callback registered with the [`EventBus`].
///
/// Implementations live in the embedding application; the bus promises
/// them nothing and asks nothing of them.  A listener that panics unwinds
/// through `emit`, so the listeners after it do not run for that event.
pub trait Listener {
    /// Receives one emitted event.
    fn notify(&self, event: &EngineEvent);
}

/// Central event bus for publish/subscribe communication.
///
/// Listeners are invoked in the order they were subscribed.
pub struct EventBus<L: Listener> {
    /// The registered listeners, in subscription order.
    pub subscribers: Vec<L>,
}

impl<L: Listener> EventBus<L> {
    /// Creates a bus with no listeners.
    pub fn new() -> (r: EventBus<L>)
        ensures
            r.subscribers@ == Seq::<L>::empty(),
    {
        let r = EventBus { subscribers: Vec::new() };
        proof {
            assert(r.subscribers@ =~= Seq::<L>::empty());
        }
        r
    }

    /// Registers an event listener behind any already registered.
    /// Listeners cannot currently be unregistered.
    pub fn subscribe(&mut self, callback: L)
        ensures
            final(self).subscribers@ == old(self).subscribers@.push(callback),
    {
        self.subscribers.push(callback);
    }

    /// Broadcasts `event`: invokes every listener with it, in
    /// subscription order, and returns once all have run.
    pub fn emit(&self, event: EngineEvent) {
        let n = self.subscribers.len();
        let mut i: usize = 0;
        while i < n
            invariant
                n == self.subscribers@.len(),
                i <= n,
            decreases n - i,
        {
            self.subscribers[i].notify(&event);
            i += 1;
        }
    }
}

} // verus!
