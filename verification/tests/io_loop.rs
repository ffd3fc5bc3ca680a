//! The loop of the I/O thread.

use srt_transport::config::SocketStatus;
use srt_transport::epoll_bridge::commands::IoCommand;
use srt_transport::epoll_bridge::io_loop::{
    backoff_ms, Directive, IoLoop, Phase, PollEvent, Rest, Taken, Task, STATE_POLL_INTERVAL,
};
use srt_transport::epoll_bridge::{
    Call, Effect, Endpoints, Next, Step, SRT_EPOLL_CONNECT, SRT_EPOLL_ERR, SRT_EPOLL_IN,
};
use srt_transport::error::SrtError;

struct Numbered;

impl Endpoints for Numbered {
    type RecvTx = u32;
    type SendRx = u32;
    type StatusTx = u32;
    type AcceptTx = u32;
    type Policy = u32;
    type Reply = u32;
}

type Loop = IoLoop<Numbered>;

/// A loop that looks after sockets in the given raw states.
fn with_sockets(states: &[(i32, i32)]) -> Loop {
    let mut io: Loop = IoLoop::new();
    for (id, raw) in states {
        assert!(matches!(io.next(), Directive::AwaitCommand | Directive::TryCommand));
        io.command_taken(Taken::Command(IoCommand::RegisterSocket {
            id: *id,
            recv_tx: 1,
            send_rx: 2,
            status_tx: 3,
        }));
        io.bridge.registered_state_read(*id, *raw);
    }
    io
}

/// Goes on until the loop waits for events.
fn until_poll(io: &mut Loop) -> i64 {
    loop {
        match io.next() {
            Directive::TryCommand => {
                io.command_taken(Taken::Empty);
            }
            Directive::Poll { timeout_ms } => return timeout_ms,
            _ => panic!("the loop looks for commands first"),
        }
    }
}

fn work(io: &mut Loop) -> Step<Numbered> {
    match io.next() {
        Directive::Work(step) => step,
        _ => panic!("there is work to do"),
    }
}

fn pause(io: &mut Loop) -> Rest {
    match io.next() {
        Directive::Pause(rest) => rest,
        _ => panic!("the agenda is done"),
    }
}

#[test]
fn a_loop_without_sockets_sleeps_until_a_command_comes() {
    let mut io: Loop = IoLoop::new();
    assert!(matches!(io.next(), Directive::AwaitCommand));
    assert_eq!(io.phase, Phase::Parked);
    io.command_taken(Taken::Command(IoCommand::GetState { id: 1, reply: 8 }));
    assert_eq!(io.phase, Phase::Top);
    assert!(matches!(io.next(), Directive::AwaitCommand));
    let step = io.command_taken(Taken::Disconnected);
    assert!(matches!(step.next, Next::Shutdown));
}

#[test]
fn the_timeout_follows_the_busiest_socket() {
    assert_eq!(until_poll(&mut with_sockets(&[(1, 4), (2, 5)])), 10);
    assert_eq!(until_poll(&mut with_sockets(&[(1, 4), (2, 3)])), 100);
    assert_eq!(until_poll(&mut with_sockets(&[(1, 3), (2, 6)])), 0);
}

#[test]
fn an_idle_loop_sweeps_and_rests() {
    let mut io = with_sockets(&[(1, 3)]);
    until_poll(&mut io);
    io.events_polled(-1, &[]);
    assert_eq!(io.agenda.len(), 1);
    assert_eq!(io.agenda[0], Task::SweepZombies);
    while let Directive::Work(_) = {
        let d = io.next();
        if let Directive::Pause(rest) = &d {
            assert_eq!(*rest, Rest { sleep_ms: 100, warn: false });
        }
        d
    } {}
    assert_eq!(io.phase, Phase::Top);
    assert_eq!(io.consecutive_epoll_errors, 0);
}

#[test]
fn failures_in_a_row_make_the_rest_grow() {
    let mut io = with_sockets(&[(1, 5)]);
    let expected = [2, 4, 8, 16, 32, 64, 128, 128, 128, 128, 128];
    for (i, ms) in expected.iter().enumerate() {
        until_poll(&mut io);
        io.events_polled(-1, &[]);
        assert_eq!(pause(&mut io), Rest { sleep_ms: *ms, warn: i + 1 == 10 });
    }
    until_poll(&mut io);
    io.events_polled(0, &[]);
    assert_eq!(io.consecutive_epoll_errors, 0);
}

#[test]
fn backoff_doubles_up_to_its_limit() {
    assert_eq!(backoff_ms(0), 1);
    assert_eq!(backoff_ms(1), 2);
    assert_eq!(backoff_ms(6), 64);
    assert_eq!(backoff_ms(7), 128);
    assert_eq!(backoff_ms(8), 128);
    assert_eq!(backoff_ms(u32::MAX), 128);
}

#[test]
fn events_are_sorted_out_in_order() {
    let mut io = with_sockets(&[(1, 5)]);
    until_poll(&mut io);
    let events = [
        PollEvent { fd: 1, events: SRT_EPOLL_IN | SRT_EPOLL_CONNECT | SRT_EPOLL_ERR },
        PollEvent { fd: 9, events: SRT_EPOLL_IN },
    ];
    io.events_polled(1, &events);
    let all: Vec<Task> = io.agenda.iter().copied().collect();
    assert_eq!(all, vec![Task::Event { event: events[0] }, Task::DrainSends, Task::PollTick]);
    assert!(matches!(work(&mut io).next, Next::Done));
    let all: Vec<Task> = io.agenda.iter().copied().collect();
    assert_eq!(
        all,
        vec![
            Task::FinishConnect { id: 1 },
            Task::Receive { id: 1 },
            Task::Send { id: 1 },
            Task::Fail { id: 1 },
            Task::DrainSends,
            Task::PollTick,
        ]
    );
    assert!(matches!(work(&mut io).next, Next::Done));
    assert!(matches!(work(&mut io).next, Next::Call(Call::CountReceived { id: 1 })));
    assert!(matches!(work(&mut io).next, Next::Call(Call::TakeOutgoing { id: 1 })));
    assert_eq!(work(&mut io).effects.len(), 3);
    assert_eq!(io.bridge.get(1).map(|s| s.last_status), Some(SocketStatus::Broken));
    // The sweep finds the socket broken and sends nothing.
    assert!(matches!(work(&mut io).next, Next::Done));
    assert!(matches!(work(&mut io).next, Next::Done));
    assert_eq!(io.agenda.len(), 1);
    work(&mut io);
    assert_eq!(pause(&mut io), Rest { sleep_ms: 0, warn: false });
}

#[test]
fn a_listener_only_accepts() {
    let mut io: Loop = IoLoop::new();
    io.next();
    io.command_taken(Taken::Command(IoCommand::RegisterListener {
        id: 1,
        accept_tx: 9,
        access_control: None,
    }));
    until_poll(&mut io);
    io.events_polled(1, &[PollEvent { fd: 1, events: SRT_EPOLL_IN | SRT_EPOLL_ERR }]);
    work(&mut io);
    assert!(matches!(work(&mut io).next, Next::Call(Call::Accept { id: 1 })));
    assert_eq!(io.agenda.len(), 1);
}

#[test]
fn connected_sockets_are_drained_every_turn() {
    let mut io = with_sockets(&[(1, 5)]);
    until_poll(&mut io);
    io.events_polled(0, &[]);
    work(&mut io);
    assert_eq!(io.agenda[0], Task::SweepSend { id: 1 });
    assert!(matches!(work(&mut io).next, Next::Call(Call::TakeOutgoing { id: 1 })));
}

#[test]
fn states_are_polled_at_intervals() {
    let mut io = with_sockets(&[(1, 4)]);
    for turn in 1..=STATE_POLL_INTERVAL {
        until_poll(&mut io);
        io.events_polled(0, &[]);
        work(&mut io);
        if turn < STATE_POLL_INTERVAL {
            assert_eq!(io.state_poll_counter, turn);
            pause(&mut io);
        }
    }
    assert_eq!(io.state_poll_counter, 0);
    assert!(matches!(work(&mut io).next, Next::Call(Call::ReadPolledState { id: 1 })));
    assert_eq!(io.agenda[0], Task::SweepZombies);
}

#[test]
fn dead_sockets_that_nobody_reads_are_closed() {
    let mut io = with_sockets(&[(1, 9), (2, 3)]);
    until_poll(&mut io);
    io.events_polled(0, &[]);
    work(&mut io);
    work(&mut io);
    work(&mut io);
    assert_eq!(io.zombies, vec![1]);
    let reaped = work(&mut io);
    assert_eq!(reaped.effects.len(), 3);
    assert!(matches!(reaped.effects[1], Effect::CloseSocket { id: 1 }));
    assert!(matches!(reaped.effects[2], Effect::Release { id: 1, .. }));
    assert!(io.bridge.get(1).is_none());
    assert!(io.bridge.get(2).is_some());
    assert!(io.zombies.is_empty());
}

#[test]
fn a_dead_socket_with_a_reader_is_asked_about() {
    let mut io = with_sockets(&[(1, 9)]);
    // Registered anew, its reader is back although the state is the same.
    io.next();
    io.command_taken(Taken::Command(IoCommand::RegisterSocket {
        id: 1,
        recv_tx: 1,
        send_rx: 2,
        status_tx: 3,
    }));
    io.bridge.registered_state_read(1, 9);
    until_poll(&mut io);
    io.events_polled(0, &[]);
    work(&mut io);
    assert!(matches!(work(&mut io).next, Next::Call(Call::ProbeRecv { id: 1 })));
    io.recv_probed(1, false);
    assert!(io.zombies.is_empty());
    io.recv_probed(1, true);
    assert_eq!(io.zombies, vec![1]);
    let reaped = work(&mut io);
    assert!(matches!(reaped.effects[1], Effect::CloseSocket { id: 1 }));
    assert!(io.bridge.get(1).is_none());
}

#[test]
fn a_sweep_closes_each_abandoned_socket_once() {
    // Dead without a reader, dead with one that is gone, dead with one that is not,
    // and alive.
    let mut io = with_sockets(&[(1, 9), (2, 9), (3, 9), (4, 3)]);
    for id in [2, 3] {
        io.next();
        io.command_taken(Taken::Command(IoCommand::RegisterSocket {
            id,
            recv_tx: 1,
            send_rx: 2,
            status_tx: 3,
        }));
        io.bridge.registered_state_read(id, 9);
    }
    until_poll(&mut io);
    io.events_polled(0, &[]);
    let mut closed = Vec::new();
    loop {
        let step = match io.next() {
            Directive::Work(step) => step,
            Directive::Pause(_) => break,
            _ => panic!("the agenda is worked through"),
        };
        for effect in &step.effects {
            if let Effect::CloseSocket { id } = effect {
                closed.push(*id);
            }
        }
        if let Next::Call(Call::ProbeRecv { id }) = step.next {
            io.recv_probed(id, id == 2);
        }
    }
    closed.sort();
    assert_eq!(closed, vec![1, 2]);
    let mut left = io.bridge.ids();
    left.sort();
    assert_eq!(left, vec![3, 4]);
}

#[test]
fn reaping_tells_who_waits() {
    let mut io = with_sockets(&[(1, 2)]);
    io.bridge.connect_state_read(1, 8, 4);
    io.bridge.polled_state_read(1, 9);
    until_poll(&mut io);
    io.events_polled(0, &[]);
    work(&mut io);
    work(&mut io);
    let reaped = work(&mut io);
    assert!(matches!(
        &reaped.effects[2],
        Effect::Answer {
            reply: 8,
            answer: srt_transport::epoll_bridge::Answer::Done(Err(SrtError::ConnectionLost)),
        }
    ));
}

#[test]
fn shutting_down_closes_all() {
    let mut io = with_sockets(&[(1, 5), (2, 3)]);
    let step = io.command_taken(Taken::Command(IoCommand::Shutdown));
    assert!(matches!(step.next, Next::Shutdown));
    let effects = io.shutdown();
    assert!(io.bridge.is_empty());
    assert_eq!(effects.len(), 7);
    assert!(matches!(effects[6], Effect::ReleaseEpoll));
}
