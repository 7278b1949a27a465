//! The behavior contract an actor type implements: one required message
//! handler and three optional lifecycle hooks with no-op defaults.

use vstd::prelude::*;

verus! {

/// The handler's verdict on each message: keep running, or stop the loop.
#[derive(Clone, Copy, Debug)]
pub enum SurviveOrDie {
    Survive,
    Die,
}

/// An actor: isolated state reachable only through its mailbox. Implement
/// this for the state struct; the runtime loop owns the value exclusively
/// from construction to termination and calls these methods strictly in
/// sequence, never concurrently.
pub trait Actor<T1, T2>: Sized {
    /// React to one message. May emit any number of messages on `chan`,
    /// the actor's outbound sender.
    fn on_receive(&mut self, msg: T1, chan: &std::sync::mpsc::Sender<T2>) -> SurviveOrDie;

    /// Runs exactly once, before any handler or mailbox-closed call.
    /// The default is a no-op that leaves the actor value unchanged;
    /// overriding impls are free of that clause.
    fn on_start(&mut self)
        default_ensures
            *final(self) == *old(self),
    {
    }

    /// Runs exactly once, unconditionally, as the last action before the
    /// actor and its endpoints are released. The default is a no-op that
    /// leaves the actor value unchanged; overriding impls are free of
    /// that clause.
    fn on_stop(&mut self)
        default_ensures
            *final(self) == *old(self),
    {
    }

    /// Runs at most once, when the mailbox reports closed: every sender to
    /// it is gone, so no further message can arrive. Normal upstream
    /// shutdown, not a failure. The default is a no-op that leaves the
    /// actor value unchanged; overriding impls are free of that clause.
    fn on_missing_port(&mut self)
        default_ensures
            *final(self) == *old(self),
    {
    }
}

} // verus!
