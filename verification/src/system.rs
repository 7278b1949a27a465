//! The spawn facade and the one generic runtime loop behind it. The loop
//! owns construction, dispatch and termination for every actor; its
//! contract pins the lifecycle protocol down as a ghost event log.

use vstd::prelude::*;
use vstd as vs;

use crate::actor::{Actor, SurviveOrDie};
use crate::actorref::{
    ActorRefWithChan, ActorRefWithPort, ActorRefWithStream, ActorRefWithoutPortAndChan,
};
use crate::channel::{channel, mailbox_wait, MailboxEvent};

verus! {

/// One observable step in an actor's life, in the order the runtime loop
/// performs them: the start hook, one handler call per delivered message,
/// the mailbox-closed hook, the stop hook.
pub enum Event<T> {
    Started,
    Received(T),
    MailboxClosed,
    Stopped,
}

/// The handler events of a run, one per delivered message, in delivery
/// order.
pub open spec fn received_events<T>(delivered: Seq<T>) -> Seq<Event<T>> {
    delivered.map_values(|m: T| Event::Received(m))
}

/// The complete event log of a run that delivered `delivered` to the
/// handler and ended by mailbox closure (`closed` true) or by a `Die`
/// verdict (`closed` false): the start hook first, then the handler calls
/// in delivery order, then on closure the mailbox-closed hook, then the
/// stop hook, always and last.
pub open spec fn lifecycle_log<T>(delivered: Seq<T>, closed: bool) -> Seq<Event<T>> {
    seq![Event::<T>::Started] + received_events(delivered) + (if closed {
        seq![Event::<T>::MailboxClosed, Event::<T>::Stopped]
    } else {
        seq![Event::<T>::Stopped]
    })
}

/// What one run of the loop did, as ghost data: the messages the mailbox
/// delivered in delivery order, the handler's verdict on each, whether the
/// run ended by mailbox closure, and the hook calls in the order they ran.
pub struct RunRecord<T> {
    pub delivered: Ghost<Seq<T>>,
    pub verdicts: Ghost<Seq<SurviveOrDie>>,
    pub closed: Ghost<bool>,
    pub log: Ghost<Seq<Event<T>>>,
}

proof fn lemma_received_events_push<T>(s: Seq<T>, m: T)
    ensures
        received_events(s.push(m)) == received_events(s).push(Event::Received(m)),
{
    assert(received_events(s.push(m)) =~= received_events(s).push(Event::Received(m)));
}

/// The lifecycle law, read off the log of any run:
/// - the start event stands first and nowhere else;
/// - each delivered message appears as exactly one handler event, at the
///   position of its delivery, with none skipped, duplicated or reordered;
/// - the mailbox-closed event appears exactly on runs ended by closure,
///   once, directly before the stop event;
/// - the stop event stands last and nowhere else, on every ending.
pub proof fn lemma_lifecycle_log_form<T>(delivered: Seq<T>, closed: bool)
    ensures
        lifecycle_log(delivered, closed).len() == delivered.len() + (if closed {
            3int
        } else {
            2int
        }),
        lifecycle_log(delivered, closed)[0] is Started,
        forall|i: int|
            1 <= i <= delivered.len() ==> lifecycle_log(delivered, closed)[i] == Event::Received(
                delivered[i - 1],
            ),
        lifecycle_log(delivered, closed).last() is Stopped,
        forall|i: int|
            0 < i < lifecycle_log(delivered, closed).len() ==> !((#[trigger] lifecycle_log(
                delivered,
                closed,
            )[i]) is Started),
        forall|i: int|
            0 <= i < lifecycle_log(delivered, closed).len() - 1 ==> !((#[trigger] lifecycle_log(
                delivered,
                closed,
            )[i]) is Stopped),
        forall|i: int|
            0 <= i < lifecycle_log(delivered, closed).len() ==> ((#[trigger] lifecycle_log(
                delivered,
                closed,
            )[i]) is MailboxClosed <==> closed && i == delivered.len() + 1),
{
}

/// The voluntary-shutdown law, over the ghost record of a run as
/// `run_actor` hands it out: if the handler's verdict on the `k`-th
/// delivered message was `Die`, that message is the last one ever
/// delivered — everything still enqueued behind it stays undelivered —
/// the run did not end by closure, and the event directly after that
/// handler call is the stop event.
pub proof fn lemma_die_halts_delivery<T>(
    delivered: Seq<T>,
    verdicts: Seq<SurviveOrDie>,
    closed: bool,
    k: int,
)
    requires
        verdicts.len() == delivered.len(),
        forall|i: int| 0 <= i < verdicts.len() - 1 ==> (#[trigger] verdicts[i]) is Survive,
        closed ==> (verdicts.len() == 0 || verdicts.last() is Survive),
        0 <= k < verdicts.len(),
        verdicts[k] is Die,
    ensures
        k == delivered.len() - 1,
        !closed,
        lifecycle_log(delivered, closed) == seq![Event::<T>::Started] + received_events(delivered)
            + seq![Event::<T>::Stopped],
        lifecycle_log(delivered, closed)[k + 1] == Event::Received(delivered[k]),
        lifecycle_log(delivered, closed)[k + 2] is Stopped,
        k + 2 == lifecycle_log(delivered, closed).len() - 1,
{
}

/// Construct nothing, own everything: drive an already constructed actor
/// to termination. The start hook runs first; then one blocking mailbox
/// wait per iteration — a delivered message goes to the handler, whose
/// `Die` verdict ends the loop at once; closure runs the mailbox-closed
/// hook and ends the loop — and the stop hook runs on every path, last.
/// The verifier demands a bound on every loop, so a run performs at most
/// `budget` mailbox waits; the spawn facade passes the largest bound the
/// machine can hold, which no real mailbox exhausts.
///
/// The returned ghost record ties the hook order to the deliveries: the
/// log is exactly `lifecycle_log`, the handler saw every delivered message
/// once in delivery order, every verdict before the last was `Survive`,
/// and a run that ended neither by closure nor by exhausting `budget`
/// ended on a final `Die`. A run ended by closure spent one wait on the
/// closure report itself, so it delivered strictly fewer messages than
/// `budget` — in particular, a run with no budget at all reports no
/// closure.
pub fn run_actor<T1, T2, A: Actor<T1, T2>>(
    actor: A,
    port: std::sync::mpsc::Receiver<T1>,
    chan: std::sync::mpsc::Sender<T2>,
    budget: usize,
) -> (r: RunRecord<T1>)
    ensures
        r.log@ == lifecycle_log(r.delivered@, r.closed@),
        r.verdicts@.len() == r.delivered@.len(),
        r.delivered@.len() <= budget,
        forall|i: int|
            0 <= i < r.verdicts@.len() - 1 ==> (#[trigger] r.verdicts@[i]) is Survive,
        r.closed@ ==> (r.verdicts@.len() == 0 || r.verdicts@.last() is Survive),
        r.closed@ ==> r.delivered@.len() < budget,
        !r.closed@ ==> (r.verdicts@.len() > 0 && r.verdicts@.last() is Die) || r.delivered@.len()
            == budget,
{
    let mut actor = actor;
    let ghost mut delivered: Seq<T1> = Seq::empty();
    let ghost mut verdicts: Seq<SurviveOrDie> = Seq::empty();
    let ghost mut closed: bool = false;
    let ghost mut log: Seq<Event<T1>> = Seq::empty();

    actor.on_start();
    proof {
        log = log.push(Event::Started);
        assert(log =~= seq![Event::<T1>::Started] + received_events(delivered));
    }

    let mut waits: usize = 0;
    let mut running: bool = true;
    while running && waits < budget
        invariant
            delivered.len() <= waits <= budget,
            closed ==> delivered.len() < budget,
            running ==> delivered.len() == waits,
            running ==> !closed && verdicts.len() == delivered.len() && log == seq![
                Event::<T1>::Started,
            ] + received_events(delivered),
            running ==> forall|i: int|
                0 <= i < verdicts.len() ==> (#[trigger] verdicts[i]) is Survive,
            !running ==> log == seq![Event::<T1>::Started] + received_events(delivered) + (
            if closed {
                seq![Event::<T1>::MailboxClosed]
            } else {
                Seq::<Event<T1>>::empty()
            }),
            !running ==> verdicts.len() == delivered.len(),
            !running ==> forall|i: int|
                0 <= i < verdicts.len() - 1 ==> (#[trigger] verdicts[i]) is Survive,
            !running && closed ==> (verdicts.len() == 0 || verdicts.last() is Survive),
            !running && !closed ==> verdicts.len() > 0 && verdicts.last() is Die,
        decreases budget - waits,
    {
        waits = waits + 1;
        match mailbox_wait(&port) {
            MailboxEvent::Closed => {
                actor.on_missing_port();
                proof {
                    log = log.push(Event::MailboxClosed);
                    closed = true;
                    assert(log =~= seq![Event::<T1>::Started] + received_events(delivered)
                        + seq![Event::<T1>::MailboxClosed]);
                }
                running = false;
            },
            MailboxEvent::Message(msg) => {
                let ghost m = msg;
                let verdict = actor.on_receive(msg, &chan);
                proof {
                    lemma_received_events_push(delivered, m);
                    delivered = delivered.push(m);
                    verdicts = verdicts.push(verdict);
                    log = log.push(Event::Received(m));
                    assert(log =~= seq![Event::<T1>::Started] + received_events(delivered));
                    assert(log =~= seq![Event::<T1>::Started] + received_events(delivered)
                        + Seq::<Event<T1>>::empty());
                }
                match verdict {
                    SurviveOrDie::Die => {
                        running = false;
                    },
                    SurviveOrDie::Survive => {},
                }
            },
        }
    }
    actor.on_stop();
    proof {
        log = log.push(Event::Stopped);
        assert(log =~= lifecycle_log(delivered, closed));
    }
    RunRecord {
        delivered: Ghost(delivered),
        verdicts: Ghost(verdicts),
        closed: Ghost(closed),
        log: Ghost(log),
    }
}

/// A system of actors: the stateless facade holding the spawn entry
/// points. It keeps no registry of live actors; every call is an
/// independent spawn.
pub struct System;

impl System {
    pub fn new() -> (s: System)
        ensures
            s == System,
    {
        System
    }

    /// Spawns an actor with a fresh mailbox and a fresh output channel;
    /// the handle carries the sender to the mailbox and the receiver for
    /// the output.
    pub fn add_actor<InitArgs, T1, T2, A, F>(&mut self, args: InitArgs, init: F) -> (actor_ref:
        ActorRefWithStream<std::sync::mpsc::Receiver<T2>, std::sync::mpsc::Sender<T1>>) where
        InitArgs: Send + 'static,
        T1: Send + 'static,
        T2: Send + 'static,
        A: Actor<T1, T2> + Send + 'static,
        F: FnOnce(InitArgs) -> A + Send + 'static,

        requires
            call_requires(init, (args,)),
        ensures
            *final(self) == *old(self),
    {
        let (in_port, in_chan) = channel::<T1>();
        let (out_port, out_chan) = channel::<T2>();
        self.spawn_actor(in_port, out_chan, args, init);
        ActorRefWithStream { port: out_port, chan: in_chan }
    }

    /// Spawns an actor that listens to an existing mailbox receiver and
    /// gets a fresh output channel; the handle carries the output
    /// receiver.
    pub fn add_actor_from_port<T1, T2, InitArgs, A, F>(
        &mut self,
        port: std::sync::mpsc::Receiver<T1>,
        args: InitArgs,
        init: F,
    ) -> (actor_ref: ActorRefWithPort<std::sync::mpsc::Receiver<T2>>) where
        T1: Send + 'static,
        T2: Send + 'static,
        InitArgs: Send + 'static,
        A: Actor<T1, T2> + Send + 'static,
        F: FnOnce(InitArgs) -> A + Send + 'static,

        requires
            call_requires(init, (args,)),
        ensures
            *final(self) == *old(self),
    {
        let (out_port, out_chan) = channel::<T2>();
        self.spawn_actor(port, out_chan, args, init);
        ActorRefWithPort { port: out_port }
    }

    /// Spawns an actor with a fresh mailbox that sends to an existing
    /// output sender; the handle carries the sender to the mailbox.
    pub fn add_actor_from_chan<T1, T2, InitArgs, A, F>(
        &mut self,
        chan: std::sync::mpsc::Sender<T2>,
        args: InitArgs,
        init: F,
    ) -> (actor_ref: ActorRefWithChan<std::sync::mpsc::Sender<T1>>) where
        T1: Send + 'static,
        T2: Send + 'static,
        InitArgs: Send + 'static,
        A: Actor<T1, T2> + Send + 'static,
        F: FnOnce(InitArgs) -> A + Send + 'static,

        requires
            call_requires(init, (args,)),
        ensures
            *final(self) == *old(self),
    {
        let (in_port, in_chan) = channel::<T1>();
        self.spawn_actor(in_port, chan, args, init);
        ActorRefWithChan { chan: in_chan }
    }

    /// Spawns an actor onto an existing mailbox receiver and an existing
    /// output sender; the handle carries nothing.
    pub fn add_actor_from_port_and_chan<T1, T2, InitArgs, A, F>(
        &mut self,
        port: std::sync::mpsc::Receiver<T1>,
        chan: std::sync::mpsc::Sender<T2>,
        args: InitArgs,
        init: F,
    ) -> (actor_ref: ActorRefWithoutPortAndChan) where
        T1: Send + 'static,
        T2: Send + 'static,
        InitArgs: Send + 'static,
        A: Actor<T1, T2> + Send + 'static,
        F: FnOnce(InitArgs) -> A + Send + 'static,

        requires
            call_requires(init, (args,)),
        ensures
            *final(self) == *old(self),
    {
        self.spawn_actor(port, chan, args, init);
        ActorRefWithoutPortAndChan
    }

    /// Spawns the one execution context an actor gets and returns at once:
    /// fire and forget, no join handle. The constructor runs inside the
    /// new context, not the caller's, so construction never blocks the
    /// caller; the context then runs `run_actor` to termination.
    fn spawn_actor<T1, T2, InitArgs, A, F>(
        &mut self,
        port: std::sync::mpsc::Receiver<T1>,
        chan: std::sync::mpsc::Sender<T2>,
        args: InitArgs,
        init: F,
    ) where
        T1: Send + 'static,
        T2: Send + 'static,
        InitArgs: Send + 'static,
        A: Actor<T1, T2> + Send + 'static,
        F: FnOnce(InitArgs) -> A + Send + 'static,

        requires
            call_requires(init, (args,)),
        ensures
            *final(self) == *old(self),
    {
        let _handle = vs::thread::spawn(
            move ||
                {
                    let actor = init(args);
                    let _record = run_actor(actor, port, chan, usize::MAX);
                },
        );
    }
}

} // verus!
