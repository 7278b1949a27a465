//! A minimal actor-model toolkit: an actor is a plain state value plus a
//! message handler, spawned onto its own thread with a private mailbox and an
//! outbound sender. The runtime loop that drives every actor is verified: its
//! contract pins down the lifecycle protocol (start hook first, one handler
//! call per delivered message in delivery order, the mailbox-closed hook at
//! most once, the stop hook last and exactly once on every termination path).

pub mod actor;

pub mod actorref;

pub mod channel;

pub mod system;
