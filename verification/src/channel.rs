//! The typed channel primitive the runtime consumes: a single-reader,
//! multi-writer link between a `Sender` and a `Receiver`. The standard
//! library provides it; the declarations and wrappers here are what the
//! verified code is allowed to assume about it.

use vstd::prelude::*;

verus! {

/// Declares `std::sync::mpsc::Sender` so that it may stand in signatures
/// and fields of verified code. The value is opaque to the verifier.
#[verifier::external_type_specification]
#[verifier::external_body]
#[verifier::reject_recursive_types(T)]
pub struct ExSender<T>(std::sync::mpsc::Sender<T>);

/// Declares `std::sync::mpsc::Receiver` so that it may stand in signatures
/// and fields of verified code. The value is opaque to the verifier.
#[verifier::external_type_specification]
#[verifier::external_body]
#[verifier::reject_recursive_types(T)]
pub struct ExReceiver<T>(std::sync::mpsc::Receiver<T>);

/// What one blocking wait on a mailbox yields: the next message, or the
/// report that the mailbox is closed because every sender to it is gone.
pub enum MailboxEvent<T> {
    Message(T),
    Closed,
}

/// Relies on `std::sync::mpsc::channel`: creates a linked receiver/sender
/// pair; messages sent on the sender arrive at the receiver in send order.
#[verifier::external_body]
pub fn channel<T>() -> (endpoints: (std::sync::mpsc::Receiver<T>, std::sync::mpsc::Sender<T>)) {
    let (tx, rx) = std::sync::mpsc::channel();
    (rx, tx)
}

/// Relies on `std::sync::mpsc::Receiver::recv`: blocks until a message is
/// available and returns it, or reports closure once the channel is empty
/// and every corresponding sender has been dropped; it never returns
/// closure while an undelivered message remains. Which of the two comes
/// back depends on the threads holding the senders, so nothing more is
/// promised of the outcome.
#[verifier::external_body]
pub fn mailbox_wait<T>(mailbox: &std::sync::mpsc::Receiver<T>) -> (event: MailboxEvent<T>) {
    match mailbox.recv() {
        Ok(msg) => MailboxEvent::Message(msg),
        Err(_) => MailboxEvent::Closed,
    }
}

} // verus!
