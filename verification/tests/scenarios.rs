use actor::actor::{Actor, SurviveOrDie};
use actor::system::System;
use std::sync::mpsc::Sender;

/// One half of a cross-wired pair: its output sender feeds the peer's
/// mailbox. Each delivery lowers the countdown; at zero it makes one last
/// forward, reports its id on the shared result channel, and dies.
struct PingPong {
    countdown: i32,
    id: u8,
    done: Sender<u8>,
}

impl Actor<i32, i32> for PingPong {
    fn on_receive(&mut self, msg: i32, chan: &Sender<i32>) -> SurviveOrDie {
        self.countdown -= 1;
        if self.countdown == 0 {
            // The peer may already be gone; a failed send is the expected
            // way a terminated neighbour shows itself.
            let _ = chan.send(msg + 1);
            self.done.send(self.id).unwrap();
            SurviveOrDie::Die
        } else {
            chan.send(msg + 1).unwrap();
            SurviveOrDie::Survive
        }
    }
}

#[test]
fn test_cross_wired_pair() {
    let (a_chan, a_port) = std::sync::mpsc::channel::<i32>();
    let (b_chan, b_port) = std::sync::mpsc::channel::<i32>();
    let (done_chan, done_port) = std::sync::mpsc::channel::<u8>();

    let mut system = System::new();
    system.add_actor_from_port_and_chan::<i32, i32, _, PingPong, _>(
        a_port,
        b_chan,
        (10i32, 1u8, done_chan.clone()),
        |(countdown, id, done)| PingPong { countdown, id, done },
    );
    system.add_actor_from_port_and_chan::<i32, i32, _, PingPong, _>(
        b_port,
        a_chan.clone(),
        (10i32, 2u8, done_chan),
        |(countdown, id, done)| PingPong { countdown, id, done },
    );

    a_chan.send(0).unwrap();
    drop(a_chan);

    let mut ids = vec![done_port.recv().unwrap(), done_port.recv().unwrap()];
    ids.sort();
    assert_eq!(ids, vec![1, 2]);
    // Exactly once each: every result sender is gone once both are dead.
    assert!(done_port.recv().is_err());
}

const CHAIN_LIMIT: u32 = 3;

enum ChainMsg {
    Data(i32),
    Stop,
}

/// A link in a lazily grown chain: the first forward spawns the next link,
/// later data reuses it, and a terminal message propagates down the chain
/// once, makes every link report its depth, and terminates it.
struct ChainActor {
    depth: u32,
    next: Option<Sender<ChainMsg>>,
}

impl Actor<ChainMsg, u32> for ChainActor {
    fn on_receive(&mut self, msg: ChainMsg, chan: &Sender<u32>) -> SurviveOrDie {
        match msg {
            ChainMsg::Data(v) => {
                if self.next.is_none() && self.depth < CHAIN_LIMIT {
                    let mut system = System::new();
                    let next_ref = system.add_actor_from_chan::<ChainMsg, u32, _, ChainActor, _>(
                        chan.clone(),
                        self.depth + 1,
                        |depth| ChainActor { depth, next: None },
                    );
                    self.next = Some(next_ref.chan);
                }
                if let Some(next) = &self.next {
                    next.send(ChainMsg::Data(v)).unwrap();
                }
                SurviveOrDie::Survive
            }
            ChainMsg::Stop => {
                if let Some(next) = &self.next {
                    next.send(ChainMsg::Stop).unwrap();
                }
                chan.send(self.depth).unwrap();
                SurviveOrDie::Die
            }
        }
    }
}

#[test]
fn test_dynamic_chain() {
    let (report_chan, report_port) = std::sync::mpsc::channel::<u32>();

    let mut system = System::new();
    let root = system.add_actor_from_chan::<ChainMsg, u32, _, ChainActor, _>(
        report_chan.clone(),
        0u32,
        |depth| ChainActor { depth, next: None },
    );
    drop(report_chan);

    root.chan.send(ChainMsg::Data(7)).unwrap();
    root.chan.send(ChainMsg::Data(8)).unwrap();
    root.chan.send(ChainMsg::Stop).unwrap();

    let mut depths = Vec::new();
    while let Ok(d) = report_port.recv() {
        depths.push(d);
    }
    depths.sort();
    // The terminal message reached every link in the chain exactly once.
    assert_eq!(depths, vec![0, 1, 2, 3]);
}

/// An independent worker: replies with an affine transform of its input.
struct Doubler {
    bias: i32,
}

impl Actor<i32, i32> for Doubler {
    fn on_receive(&mut self, msg: i32, chan: &Sender<i32>) -> SurviveOrDie {
        chan.send(2 * msg + self.bias).unwrap();
        SurviveOrDie::Survive
    }
}

#[test]
fn test_fan_out() {
    let mut system = System::new();
    let mut handles = Vec::new();
    for k in 0..4i32 {
        handles.push(system.add_actor::<i32, i32, i32, Doubler, _>(k, |bias| Doubler { bias }));
    }

    for (k, handle) in handles.iter().enumerate() {
        let input: i32 = 10 * (k as i32 + 1);
        handle.chan.send(input).unwrap();
    }

    let mut sum: i32 = 0;
    let mut expected: i32 = 0;
    for (k, handle) in handles.iter().enumerate() {
        let k_i: i32 = k as i32;
        sum += handle.port.recv().unwrap();
        expected += 2 * (10 * (k_i + 1)) + k_i;
    }
    // No cross-talk between independently spawned actors: each reply came
    // back on its own isolated pair of endpoints.
    assert_eq!(sum, expected);
}
