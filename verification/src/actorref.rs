//! The handle family: what a spawn call hands back. Each handle carries
//! exactly the endpoints the caller did not already supply — a sender to
//! talk to the actor, a receiver to read its output, both, or neither.
//! A handle never owns actor state, and dropping one says nothing about
//! whether the actor is still running.

use vstd::prelude::*;

verus! {

/// Marker for the handle family returned by the spawn entry points.
pub trait ActorRef {

}

/// Handle from a spawn that created both endpoints: carries the sender to
/// the actor's mailbox and the receiver for its output.
pub struct ActorRefWithStream<P2, C1> {
    pub port: P2,
    pub chan: C1,
}

impl<P2, C1> ActorRef for ActorRefWithStream<P2, C1> {

}

/// Handle from a spawn onto an existing output sender: carries only the
/// sender to the actor's mailbox.
pub struct ActorRefWithChan<C1> {
    pub chan: C1,
}

impl<C1> ActorRef for ActorRefWithChan<C1> {

}

/// Handle from a spawn onto an existing mailbox receiver: carries only the
/// receiver for the actor's output.
pub struct ActorRefWithPort<P2> {
    pub port: P2,
}

impl<P2> ActorRef for ActorRefWithPort<P2> {

}

/// Handle from a spawn where the caller supplied both endpoints: an opaque
/// token carrying nothing.
pub struct ActorRefWithoutPortAndChan;

impl ActorRef for ActorRefWithoutPortAndChan {

}

} // verus!
