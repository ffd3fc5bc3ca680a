//! The loop of the I/O thread.
//!
//! A turn of the loop takes up commands, waits for events, and then works
//! through an agenda of tasks. A task may put others in front of the agenda.
//! Whoever runs the loop asks [`IoLoop::next`] what to do, does it, and hands
//! back what came of it.

use std::collections::VecDeque;
use vstd::prelude::*;

use crate::config::SocketStatus;
use crate::epoll_bridge as bridge;
use crate::epoll_bridge::commands;
use crate::epoll_bridge::commands::{call_step, done_step, empty_step, stop_step, IoCommand};
use crate::epoll_bridge::traffic;
use crate::epoll_bridge::{
    is_terminal_status, Bridge, Call, CallView, Effect, Endpoints, SocketId, SocketView, Sockets,
    Step, StepView, SRT_EPOLL_CONNECT, SRT_EPOLL_ERR, SRT_EPOLL_IN, SRT_EPOLL_OUT,
};
use crate::error::SrtError;

verus! {

/// How many events are taken at a time.
pub const MAX_EPOLL_EVENTS: usize = 64;

/// How many bytes a message may have.
pub const RECV_BUF_SIZE: usize = 65536;

/// After how many turns the states of all sockets are polled.
pub const STATE_POLL_INTERVAL: u32 = 100;

/// How long an idle loop rests, in milliseconds.
pub const IDLE_REST_MS: u64 = 100;

/// After how many failures in a row a warning is due.
pub const EPOLL_ERROR_WARNING: u32 = 10;

/// The failures after which the rest no longer grows.
pub const MAX_BACKOFF_STEPS: u32 = 7;

/// An event that libsrt reports.
#[derive(Debug, Clone, Copy, PartialEq, Eq, Structural)]
pub struct PollEvent {
    pub fd: SocketId,
    pub events: u32,
}

/// Something the loop has to do.
#[derive(Debug, Clone, Copy, PartialEq, Eq, Structural)]
pub enum Task {
    /// Sort out an event.
    Event { event: PollEvent },
    /// A connection attempt has ended.
    FinishConnect { id: SocketId },
    /// Receive all there is.
    Receive { id: SocketId },
    /// Send all there is.
    Send { id: SocketId },
    /// libsrt reports an error.
    Fail { id: SocketId },
    /// Accept a caller.
    Accept { id: SocketId },
    /// Send on all connected sockets.
    DrainSends,
    /// Send on a socket, if it is connected.
    SweepSend { id: SocketId },
    /// Count the turn, and poll when it is time.
    PollTick,
    /// Poll the state of a socket.
    PollState { id: SocketId },
    /// Look for dead sockets that nobody reads.
    SweepZombies,
    /// Look whether a socket is dead and nobody reads it.
    ProbeZombie { id: SocketId },
    /// Close the dead sockets that were found.
    ReapZombies,
}

/// How busy the sockets are.
#[derive(Debug, Clone, Copy, PartialEq, Eq, Structural)]
pub enum Activity {
    /// At least one is connected.
    Connected,
    /// None is connected, but one is about to be.
    Connecting,
    /// Neither.
    Idle,
}

/// What follows when the agenda is done.
#[derive(Debug, Clone, Copy, PartialEq, Eq, Structural)]
pub struct Rest {
    /// How long to sleep, in milliseconds.
    pub sleep_ms: u64,
    /// Whether to warn that waiting fails again and again.
    pub warn: bool,
}

/// Where the loop is in its turn.
#[derive(Debug, Clone, Copy, PartialEq, Eq, Structural)]
pub enum Phase {
    /// At the beginning of a turn.
    Top,
    /// Without sockets: asleep until a command comes.
    Parked,
    /// Taking up commands.
    Draining,
    /// Waiting for events.
    Polling { activity: Activity },
    /// Working through the agenda, with a rest to follow.
    Working { rest: Rest },
}

/// What came of looking for a command.
#[verifier::reject_recursive_types(E)]
pub enum Taken<E: Endpoints> {
    /// A command.
    Command(IoCommand<E>),
    /// There is none at the moment.
    Empty,
    /// There will never be another.
    Disconnected,
}

/// What the loop is to do.
#[verifier::reject_recursive_types(E)]
pub enum Directive<E: Endpoints> {
    /// Wait for a command; goes on with [`IoLoop::command_taken`].
    AwaitCommand,
    /// Look for a command; goes on with [`IoLoop::command_taken`].
    TryCommand,
    /// Wait for events; goes on with [`IoLoop::events_polled`].
    Poll { timeout_ms: i64 },
    /// Carry out a step, and those that follow from it.
    Work(Step<E>),
    /// Sleep.
    Pause(Rest),
}

/// Whether a socket has this status.
pub open spec fn some_with<E: Endpoints>(m: Sockets<E>, status: SocketStatus) -> bool {
    exists|id: SocketId| m.contains_key(id) && (#[trigger] m[id]).last_status == status
}

/// How busy the sockets are.
pub open spec fn activity_of<E: Endpoints>(m: Sockets<E>) -> Activity {
    if some_with(m, SocketStatus::Connected) {
        Activity::Connected
    } else if some_with(m, SocketStatus::Connecting) {
        Activity::Connecting
    } else {
        Activity::Idle
    }
}

impl Activity {
    /// How long to wait for events, in milliseconds.
    pub open spec fn timeout(self) -> i64 {
        match self {
            Activity::Connected => 10,
            Activity::Connecting => 100,
            Activity::Idle => 0,
        }
    }

    /// How long to wait for events, in milliseconds. An idle loop does not wait
    /// but rests.
    pub fn timeout_ms(self) -> (ms: i64)
        ensures
            ms == self.timeout(),
    {
        match self {
            Activity::Connected => 10,
            Activity::Connecting => 100,
            Activity::Idle => 0,
        }
    }
}

/// How long to rest after failures in a row: the time doubles up to a limit.
pub open spec fn backoff(failures: nat) -> nat
    decreases failures,
{
    if failures == 0 {
        1
    } else if failures > MAX_BACKOFF_STEPS {
        backoff(MAX_BACKOFF_STEPS as nat)
    } else {
        2 * backoff((failures - 1) as nat)
    }
}

/// How long to rest after failures in a row, in milliseconds.
pub fn backoff_ms(failures: u32) -> (ms: u64)
    ensures
        ms == backoff(failures as nat),
        1 <= ms <= 128,
{
    let steps: u32 = if failures > MAX_BACKOFF_STEPS {
        MAX_BACKOFF_STEPS
    } else {
        failures
    };
    let mut ms: u64 = 1;
    let mut i: u32 = 0;
    proof {
        reveal_with_fuel(backoff, 9);
    }
    while i < steps
        invariant
            i <= steps <= 7,
            ms == backoff(i as nat),
            backoff(0) == 1,
            backoff(1) == 2,
            backoff(2) == 4,
            backoff(3) == 8,
            backoff(4) == 16,
            backoff(5) == 32,
            backoff(6) == 64,
            backoff(7) == 128,
        decreases steps - i,
    {
        ms = ms * 2;
        i = i + 1;
    }
    ms
}

/// The tasks of the events that libsrt reports.
pub open spec fn event_tasks(n: i32, events: Seq<PollEvent>) -> Seq<Task> {
    Seq::new(
        if n > 0 {
            n as nat
        } else {
            0
        },
        |i: int| Task::Event { event: events[i] },
    )
}

/// One task, where it is due.
pub open spec fn task_if(due: bool, task: Task) -> Seq<Task> {
    if due {
        seq![task]
    } else {
        Seq::empty()
    }
}

/// The tasks of an event. A listener accepts; for any other socket the end of a
/// connection attempt comes before data, and an error comes last.
pub open spec fn event_plan<E: Endpoints>(m: Sockets<E>, event: PollEvent) -> Seq<Task> {
    let id = event.fd;
    if m.contains_key(id) && m[id].is_listener && event.events & SRT_EPOLL_IN != 0 {
        seq![Task::Accept { id }]
    } else {
        task_if(event.events & SRT_EPOLL_CONNECT != 0, Task::FinishConnect { id }) + task_if(
            event.events & SRT_EPOLL_IN != 0,
            Task::Receive { id },
        ) + task_if(event.events & SRT_EPOLL_OUT != 0, Task::Send { id }) + task_if(
            event.events & SRT_EPOLL_ERR != 0,
            Task::Fail { id },
        )
    }
}

/// Whether a sweep sends on a socket.
pub open spec fn sends_in_sweep<E: Endpoints>(m: Sockets<E>, id: SocketId) -> bool {
    m.contains_key(id) && m[id].send_rx is Some && m[id].last_status == SocketStatus::Connected
}

/// A task for each socket.
pub open spec fn send_sweep(ids: Seq<SocketId>) -> Seq<Task> {
    Seq::new(ids.len(), |i: int| Task::SweepSend { id: ids[i] })
}

/// A task for each socket.
pub open spec fn poll_sweep(ids: Seq<SocketId>) -> Seq<Task> {
    Seq::new(ids.len(), |i: int| Task::PollState { id: ids[i] })
}

/// A task for each socket.
pub open spec fn zombie_sweep(ids: Seq<SocketId>) -> Seq<Task> {
    Seq::new(ids.len(), |i: int| Task::ProbeZombie { id: ids[i] })
}

/// The state of the loop, with lists as sequences.
#[verifier::ext_equal]
#[verifier::reject_recursive_types(E)]
pub struct LoopView<E: Endpoints> {
    pub phase: Phase,
    pub sockets: Sockets<E>,
    pub agenda: Seq<Task>,
    pub zombies: Seq<SocketId>,
    pub consecutive_epoll_errors: u32,
    pub state_poll_counter: u32,
}

/// The state of the loop after a task was begun; `ids` lists the sockets.
pub open spec fn state_after_task<E: Endpoints>(
    v: LoopView<E>,
    task: Task,
    ids: Seq<SocketId>,
) -> LoopView<E> {
    match task {
        Task::Event { event } => LoopView {
            agenda: event_plan(v.sockets, event) + v.agenda,
            ..v
        },
        Task::FinishConnect { id } => LoopView {
            sockets: traffic::without_reply(v.sockets, id),
            ..v
        },
        Task::Receive { .. } => v,
        Task::Send { id } => LoopView { sockets: traffic::sockets_after_send(v.sockets, id), ..v },
        Task::Fail { id } => LoopView {
            sockets: bridge::with_status(v.sockets, id, SocketStatus::Broken),
            ..v
        },
        Task::Accept { .. } => v,
        Task::DrainSends => LoopView { agenda: send_sweep(ids) + v.agenda, ..v },
        Task::SweepSend { id } => if sends_in_sweep(v.sockets, id) {
            LoopView { sockets: traffic::sockets_after_send(v.sockets, id), ..v }
        } else {
            v
        },
        Task::PollTick => if v.state_poll_counter + 1 >= STATE_POLL_INTERVAL {
            LoopView {
                state_poll_counter: 0,
                agenda: poll_sweep(ids) + seq![Task::SweepZombies] + v.agenda,
                ..v
            }
        } else {
            LoopView { state_poll_counter: (v.state_poll_counter + 1) as u32, ..v }
        },
        Task::PollState { .. } => v,
        Task::SweepZombies => LoopView {
            zombies: Seq::empty(),
            agenda: zombie_sweep(ids) + seq![Task::ReapZombies] + v.agenda,
            ..v
        },
        Task::ProbeZombie { id } => if v.sockets.contains_key(id) && traffic::is_dead(
            v.sockets[id],
        ) && v.sockets[id].recv_tx is None {
            LoopView { zombies: v.zombies.push(id), ..v }
        } else {
            v
        },
        Task::ReapZombies => LoopView {
            sockets: traffic::without(v.sockets, v.zombies),
            zombies: Seq::empty(),
            ..v
        },
    }
}

/// The state of the loop after it was asked whether the reader of a dead socket is
/// gone.
pub open spec fn state_after_probe<E: Endpoints>(
    v: LoopView<E>,
    id: SocketId,
    closed: bool,
) -> LoopView<E> {
    if closed {
        LoopView { zombies: v.zombies.push(id), ..v }
    } else {
        v
    }
}

/// The first step of a task.
pub open spec fn task_step<E: Endpoints>(v: LoopView<E>, task: Task) -> StepView<E> {
    match task {
        Task::FinishConnect { id } => if traffic::is_awaited(v.sockets, id) {
            bridge::calling(
                CallView::ReadCompletedConnect {
                    id,
                    reply: v.sockets[id].connect_reply->Some_0,
                },
            )
        } else {
            bridge::done(Seq::empty())
        },
        Task::Receive { id } => bridge::calling(CallView::CountReceived { id }),
        Task::Send { id } => traffic::send_step(v.sockets, id),
        Task::Fail { id } => bridge::done(
            bridge::with_status_effects(v.sockets, id, SocketStatus::Broken),
        ),
        Task::Accept { id } => bridge::calling(CallView::Accept { id }),
        Task::SweepSend { id } => if sends_in_sweep(v.sockets, id) {
            traffic::send_step(v.sockets, id)
        } else {
            bridge::done(Seq::empty())
        },
        Task::PollState { id } => bridge::calling(CallView::ReadPolledState { id }),
        Task::ProbeZombie { id } => if v.sockets.contains_key(id) && traffic::is_dead(
            v.sockets[id],
        ) && v.sockets[id].recv_tx is Some {
            bridge::calling(CallView::ProbeRecv { id })
        } else {
            bridge::done(Seq::empty())
        },
        Task::ReapZombies => bridge::done(
            traffic::closing_effects(v.sockets, v.zombies, SrtError::ConnectionLost),
        ),
        _ => bridge::done(Seq::empty()),
    }
}

/// The rest that follows a turn. An idle loop rests for a fixed time. After a
/// failure the rest grows with the failures in a row.
pub open spec fn rest_after_wait(activity: Activity, n: i32, failures: u32) -> Rest {
    if activity == Activity::Idle {
        Rest { sleep_ms: IDLE_REST_MS, warn: false }
    } else if n < 0 {
        Rest {
            sleep_ms: backoff((failures + 1) as nat) as u64,
            warn: failures + 1 == EPOLL_ERROR_WARNING,
        }
    } else {
        Rest { sleep_ms: 0, warn: false }
    }
}

/// The state of the loop after waiting for events: `n` is what libsrt returned.
pub open spec fn state_after_wait<E: Endpoints>(
    v: LoopView<E>,
    activity: Activity,
    n: i32,
    events: Seq<PollEvent>,
) -> LoopView<E> {
    let phase = Phase::Working { rest: rest_after_wait(activity, n, v.consecutive_epoll_errors) };
    if activity == Activity::Idle {
        LoopView {
            phase,
            agenda: v.agenda + event_tasks(n, events) + seq![Task::SweepZombies],
            ..v
        }
    } else if n < 0 {
        LoopView { phase, consecutive_epoll_errors: (v.consecutive_epoll_errors + 1) as u32, ..v }
    } else {
        LoopView {
            phase,
            consecutive_epoll_errors: 0,
            agenda: v.agenda + event_tasks(n, events) + task_if(
                activity == Activity::Connected,
                Task::DrainSends,
            ) + seq![Task::PollTick],
            ..v
        }
    }
}

/// The phase after looking for a command. A loop that was parked begins its turn
/// anew; one that found no more commands goes on to wait for events.
pub open spec fn phase_after_command<E: Endpoints>(v: LoopView<E>, taken: Taken<E>) -> Phase {
    match taken {
        Taken::Command(_) => if v.phase == Phase::Parked {
            Phase::Top
        } else {
            v.phase
        },
        Taken::Empty => if v.phase == Phase::Draining {
            Phase::Polling { activity: activity_of(v.sockets) }
        } else {
            v.phase
        },
        Taken::Disconnected => v.phase,
    }
}

/// The phase of the loop when it has a turn to begin.
pub open spec fn first_phase<E: Endpoints>(v: LoopView<E>) -> Phase {
    if v.sockets.dom() =~= Set::empty() {
        Phase::Parked
    } else {
        Phase::Draining
    }
}

/// The I/O thread's loop.
#[verifier::reject_recursive_types(E)]
pub struct IoLoop<E: Endpoints> {
    pub phase: Phase,
    pub bridge: Bridge<E>,
    pub agenda: VecDeque<Task>,
    /// Dead sockets that were found so far.
    pub zombies: Vec<SocketId>,
    pub consecutive_epoll_errors: u32,
    pub state_poll_counter: u32,
}

impl<E: Endpoints> View for IoLoop<E> {
    type V = LoopView<E>;

    open spec fn view(&self) -> LoopView<E> {
        LoopView {
            phase: self.phase,
            sockets: self.bridge@,
            agenda: self.agenda@,
            zombies: self.zombies@,
            consecutive_epoll_errors: self.consecutive_epoll_errors,
            state_poll_counter: self.state_poll_counter,
        }
    }
}

impl<E: Endpoints> IoLoop<E> {
    /// The turns since the last poll stay below the interval, and there is an
    /// agenda only while it is worked through.
    pub open spec fn wf(&self) -> bool {
        &&& self.state_poll_counter < STATE_POLL_INTERVAL
        &&& self.phase is Working || self@.agenda.len() == 0
    }

    /// A loop without sockets.
    pub fn new() -> (io: IoLoop<E>)
        ensures
            io.wf(),
            io@ == (LoopView {
                phase: Phase::Top,
                sockets: Map::<SocketId, SocketView<E>>::empty(),
                agenda: Seq::empty(),
                zombies: Seq::empty(),
                consecutive_epoll_errors: 0,
                state_poll_counter: 0,
            }),
    {
        let io = IoLoop {
            phase: Phase::Top,
            bridge: Bridge::new(),
            agenda: VecDeque::new(),
            zombies: Vec::new(),
            consecutive_epoll_errors: 0,
            state_poll_counter: 0,
        };
        assert(io@.agenda =~= Seq::empty());
        assert(io@.zombies =~= Seq::empty());
        io
    }

    /// Whether a socket has this status.
    fn any_with(&self, status: SocketStatus) -> (b: bool)
        ensures
            b == some_with(self@.sockets, status),
    {
        let ids = self.bridge.ids();
        for i in 0..ids.len()
            invariant
                traffic::lists(ids@, self@.sockets),
                forall|j: int|
                    0 <= j < i ==> self@.sockets[#[trigger] ids@[j]].last_status != status,
        {
            assert(ids@.to_set().contains(ids@[i as int]));
            match self.bridge.get(ids[i]) {
                Some(state) => {
                    if state.last_status == status {
                        return true;
                    }
                },
                None => {},
            }
        }
        assert(!some_with(self@.sockets, status)) by {
            assert forall|id: SocketId| self@.sockets.contains_key(id) implies (
            #[trigger] self@.sockets[id]).last_status != status by {
                assert(ids@.to_set().contains(id));
                let j = choose|j: int| 0 <= j < ids@.len() && ids@[j] == id;
                assert(self@.sockets[ids@[j]].last_status != status);
            }
        }
        false
    }

    /// How busy the sockets are.
    fn activity(&self) -> (activity: Activity)
        ensures
            activity == activity_of(self@.sockets),
    {
        if self.any_with(SocketStatus::Connected) {
            Activity::Connected
        } else if self.any_with(SocketStatus::Connecting) {
            Activity::Connecting
        } else {
            Activity::Idle
        }
    }

    /// What to do next.
    pub fn next(&mut self) -> (directive: Directive<E>)
        requires
            old(self).wf(),
        ensures
            final(self).wf(),
            match old(self)@.phase {
                Phase::Top => final(self)@ == (LoopView {
                    phase: first_phase(old(self)@),
                    ..old(self)@
                }) && (if first_phase(old(self)@) == Phase::Parked {
                    directive is AwaitCommand
                } else {
                    directive is TryCommand
                }),
                Phase::Parked => final(self)@ == old(self)@ && directive is AwaitCommand,
                Phase::Draining => final(self)@ == old(self)@ && directive is TryCommand,
                Phase::Polling { activity } => final(self)@ == old(self)@ && directive
                    == (Directive::<E>::Poll { timeout_ms: activity.timeout() }),
                Phase::Working { rest } => if old(self)@.agenda.len() == 0 {
                    final(self)@ == (LoopView { phase: Phase::Top, ..old(self)@ }) && directive
                        == Directive::<E>::Pause(rest)
                } else {
                    let task = old(self)@.agenda[0];
                    let v = LoopView { agenda: old(self)@.agenda.skip(1), ..old(self)@ };
                    &&& directive is Work
                    &&& directive->Work_0@ == task_step(v, task)
                    &&& exists|ids: Seq<SocketId>|
                        traffic::lists(ids, v.sockets) && final(self)@
                            == #[trigger] state_after_task(v, task, ids)
                },
            },
    {
        match self.phase {
            Phase::Top => {
                if self.bridge.is_empty() {
                    self.phase = Phase::Parked;
                    Directive::AwaitCommand
                } else {
                    self.phase = Phase::Draining;
                    Directive::TryCommand
                }
            },
            Phase::Parked => Directive::AwaitCommand,
            Phase::Draining => Directive::TryCommand,
            Phase::Polling { activity } => Directive::Poll { timeout_ms: activity.timeout_ms() },
            Phase::Working { rest } => match self.agenda.pop_front() {
                Some(task) => {
                    assert(self@ =~= (LoopView { agenda: old(self)@.agenda.skip(1), ..old(self)@ }));
                    Directive::Work(self.begin(task))
                },
                None => {
                    self.phase = Phase::Top;
                    Directive::Pause(rest)
                },
            },
        }
    }

    /// Goes on when the loop has looked for a command.
    pub fn command_taken(&mut self, taken: Taken<E>) -> (step: Step<E>)
        requires
            old(self).wf(),
        ensures
            final(self).wf(),
            final(self)@ == (LoopView {
                phase: phase_after_command(old(self)@, taken),
                sockets: match taken {
                    Taken::Command(cmd) => commands::sockets_after_command(
                        old(self)@.sockets,
                        cmd@,
                    ),
                    _ => old(self)@.sockets,
                },
                ..old(self)@
            }),
            step@ == (match taken {
                Taken::Command(cmd) => commands::command_step(old(self)@.sockets, cmd@),
                Taken::Empty => bridge::done(Seq::empty()),
                Taken::Disconnected => bridge::stopping(),
            }),
    {
        match taken {
            Taken::Command(cmd) => {
                match self.phase {
                    Phase::Parked => {
                        self.phase = Phase::Top;
                    },
                    _ => {},
                }
                self.bridge.process_command(cmd)
            },
            Taken::Empty => {
                match self.phase {
                    Phase::Draining => {
                        self.phase = Phase::Polling { activity: self.activity() };
                    },
                    _ => {},
                }
                empty_step()
            },
            Taken::Disconnected => stop_step(),
        }
    }

    /// Goes on when the loop has waited for events: `n` is what libsrt returned,
    /// and that many of the events were filled in.
    pub fn events_polled(&mut self, n: i32, events: &[PollEvent])
        requires
            old(self).wf(),
            old(self).phase is Polling,
            n <= events@.len(),
            n < 0 ==> old(self).consecutive_epoll_errors < u32::MAX,
        ensures
            final(self).wf(),
            final(self)@ == state_after_wait(
                old(self)@,
                old(self).phase->Polling_activity,
                n,
                events@,
            ),
    {
        let activity = match self.phase {
            Phase::Polling { activity } => activity,
            _ => Activity::Idle,
        };
        let rest = if activity == Activity::Idle {
            self.add_events(n, events);
            self.agenda.push_back(Task::SweepZombies);
            Rest { sleep_ms: IDLE_REST_MS, warn: false }
        } else if n < 0 {
            self.consecutive_epoll_errors = self.consecutive_epoll_errors + 1;
            Rest {
                sleep_ms: backoff_ms(self.consecutive_epoll_errors),
                warn: self.consecutive_epoll_errors == EPOLL_ERROR_WARNING,
            }
        } else {
            self.consecutive_epoll_errors = 0;
            self.add_events(n, events);
            if activity == Activity::Connected {
                self.agenda.push_back(Task::DrainSends);
            }
            self.agenda.push_back(Task::PollTick);
            Rest { sleep_ms: 0, warn: false }
        };
        self.phase = Phase::Working { rest };
        assert(self@ =~= state_after_wait(old(self)@, activity, n, events@));
    }

    /// Ends the loop: every socket is closed, and the watch list given back.
    pub fn shutdown(&mut self) -> (effects: Vec<Effect<E>>)
        ensures
            final(self)@ == (LoopView {
                sockets: Map::<SocketId, SocketView<E>>::empty(),
                ..old(self)@
            }),
            exists|ids: Seq<SocketId>|
                traffic::lists(ids, old(self)@.sockets) && bridge::effects_view(effects@)
                    == #[trigger] traffic::cleanup_effects(old(self)@.sockets, ids),
    {
        let ghost m = self.bridge@;
        let effects = self.bridge.cleanup();
        proof {
            let ids = choose|ids: Seq<SocketId>|
                traffic::lists(ids, m) && bridge::effects_view(effects@)
                    == #[trigger] traffic::cleanup_effects(m, ids);
            assert(traffic::lists(ids, old(self)@.sockets) && bridge::effects_view(effects@)
                == traffic::cleanup_effects(old(self)@.sockets, ids));
        }
        effects
    }

    /// Puts events at the end of the agenda.
    fn add_events(&mut self, n: i32, events: &[PollEvent])
        requires
            n <= events@.len(),
        ensures
            final(self)@ == (LoopView {
                agenda: old(self)@.agenda + event_tasks(n, events@),
                ..old(self)@
            }),
    {
        let ghost before = self@;
        let mut i: i32 = 0;
        assert(self@.agenda =~= before.agenda + event_tasks(0, events@));
        while i < n
            invariant
                0 <= i,
                i <= n || (i == 0 && n < 0),
                n <= events@.len(),
                self@ == (LoopView {
                    agenda: before.agenda + event_tasks(i, events@),
                    ..before
                }),
            decreases n - i,
        {
            self.agenda.push_back(Task::Event { event: events[i as usize] });
            i = i + 1;
            assert(self@.agenda =~= before.agenda + event_tasks(i, events@));
        }
        assert(event_tasks(i, events@) =~= event_tasks(n, events@));
    }

    /// Puts tasks in front of the agenda.
    fn schedule(&mut self, tasks: Vec<Task>)
        ensures
            final(self)@ == (LoopView { agenda: tasks@ + old(self)@.agenda, ..old(self)@ }),
    {
        let ghost before = self@;
        let mut i: usize = tasks.len();
        assert(self@.agenda =~= tasks@.skip(i as int) + before.agenda);
        while i > 0
            invariant
                i <= tasks@.len(),
                self@ == (LoopView { agenda: tasks@.skip(i as int) + before.agenda, ..before }),
            decreases i,
        {
            i = i - 1;
            self.agenda.push_front(tasks[i]);
            assert(self@.agenda =~= tasks@.skip(i as int) + before.agenda);
        }
        assert(tasks@.skip(0) =~= tasks@);
    }

    /// The tasks of an event.
    fn plan(&self, event: PollEvent) -> (tasks: Vec<Task>)
        ensures
            tasks@ == event_plan(self@.sockets, event),
    {
        let id = event.fd;
        let listening = match self.bridge.get(id) {
            Some(state) => state.is_listener,
            None => false,
        };
        let mut tasks: Vec<Task> = Vec::new();
        if listening && event.events & SRT_EPOLL_IN != 0 {
            tasks.push(Task::Accept { id });
        } else {
            if event.events & SRT_EPOLL_CONNECT != 0 {
                tasks.push(Task::FinishConnect { id });
            }
            if event.events & SRT_EPOLL_IN != 0 {
                tasks.push(Task::Receive { id });
            }
            if event.events & SRT_EPOLL_OUT != 0 {
                tasks.push(Task::Send { id });
            }
            if event.events & SRT_EPOLL_ERR != 0 {
                tasks.push(Task::Fail { id });
            }
        }
        assert(tasks@ =~= event_plan(self@.sockets, event));
        tasks
    }

    /// Begins with a task.
    fn begin(&mut self, task: Task) -> (step: Step<E>)
        requires
            old(self).state_poll_counter < STATE_POLL_INTERVAL,
        ensures
            final(self).state_poll_counter < STATE_POLL_INTERVAL,
            step@ == task_step(old(self)@, task),
            exists|ids: Seq<SocketId>|
                traffic::lists(ids, old(self)@.sockets) && final(self)@
                    == #[trigger] state_after_task(old(self)@, task, ids),
    {
        let ids = self.bridge.ids();
        let ghost v = self@;
        let step = match task {
            Task::Event { event } => {
                let tasks = self.plan(event);
                self.schedule(tasks);
                empty_step()
            },
            Task::FinishConnect { id } => self.bridge.finish_connect(id),
            Task::Receive { id } => Bridge::handle_recv(id),
            Task::Send { id } => self.bridge.handle_send(id),
            Task::Fail { id } => self.bridge.handle_error(id),
            Task::Accept { id } => Bridge::handle_accept(id),
            Task::DrainSends => {
                let mut tasks: Vec<Task> = Vec::new();
                for i in 0..ids.len()
                    invariant
                        tasks@ == send_sweep(ids@.take(i as int)),
                {
                    tasks.push(Task::SweepSend { id: ids[i] });
                    assert(tasks@ =~= send_sweep(ids@.take(i + 1)));
                }
                assert(ids@.take(ids@.len() as int) =~= ids@);
                self.schedule(tasks);
                empty_step()
            },
            Task::SweepSend { id } => {
                let due = match self.bridge.get(id) {
                    Some(state) => state.send_rx.is_some() && state.last_status
                        == SocketStatus::Connected,
                    None => false,
                };
                if due {
                    self.bridge.handle_send(id)
                } else {
                    empty_step()
                }
            },
            Task::PollTick => {
                self.state_poll_counter = self.state_poll_counter + 1;
                if self.state_poll_counter >= STATE_POLL_INTERVAL {
                    self.state_poll_counter = 0;
                    let mut tasks: Vec<Task> = Vec::new();
                    for i in 0..ids.len()
                        invariant
                            tasks@ == poll_sweep(ids@.take(i as int)),
                    {
                        tasks.push(Task::PollState { id: ids[i] });
                        assert(tasks@ =~= poll_sweep(ids@.take(i + 1)));
                    }
                    assert(ids@.take(ids@.len() as int) =~= ids@);
                    tasks.push(Task::SweepZombies);
                    self.schedule(tasks);
                    assert(self@.agenda =~= poll_sweep(ids@) + seq![Task::SweepZombies] + v.agenda);
                }
                empty_step()
            },
            Task::PollState { id } => call_step(Call::ReadPolledState { id }),
            Task::SweepZombies => {
                self.zombies = Vec::new();
                let mut tasks: Vec<Task> = Vec::new();
                for i in 0..ids.len()
                    invariant
                        tasks@ == zombie_sweep(ids@.take(i as int)),
                {
                    tasks.push(Task::ProbeZombie { id: ids[i] });
                    assert(tasks@ =~= zombie_sweep(ids@.take(i + 1)));
                }
                assert(ids@.take(ids@.len() as int) =~= ids@);
                tasks.push(Task::ReapZombies);
                self.schedule(tasks);
                assert(self@.agenda =~= zombie_sweep(ids@) + seq![Task::ReapZombies] + v.agenda);
                assert(self@.zombies =~= Seq::empty());
                empty_step()
            },
            Task::ProbeZombie { id } => {
                let (dead, unread) = match self.bridge.get(id) {
                    Some(state) => (
                        is_terminal_status(state.last_status) && !state.is_listener
                            && !state.is_group,
                        state.recv_tx.is_none(),
                    ),
                    None => (false, false),
                };
                if dead && unread {
                    self.zombies.push(id);
                    empty_step()
                } else if dead {
                    call_step(Call::ProbeRecv { id })
                } else {
                    empty_step()
                }
            },
            Task::ReapZombies => {
                let mut found: Vec<SocketId> = Vec::new();
                std::mem::swap(&mut found, &mut self.zombies);
                let mut effects: Vec<Effect<E>> = Vec::new();
                self.bridge.close_all(&found, SrtError::ConnectionLost, &mut effects);
                assert(bridge::effects_view(effects@) =~= traffic::closing_effects(
                    v.sockets,
                    v.zombies,
                    SrtError::ConnectionLost,
                ));
                assert(self@.zombies =~= Seq::empty());
                done_step(effects)
            },
        };
        assert(self@ =~= state_after_task(v, task, ids@));
        step
    }

    /// Goes on when it was asked whether the reader of a dead socket is gone.
    pub fn recv_probed(&mut self, id: SocketId, closed: bool) -> (step: Step<E>)
        requires
            old(self).wf(),
        ensures
            final(self).wf(),
            final(self)@ == state_after_probe(old(self)@, id, closed),
            step@ == bridge::done::<E>(Seq::empty()),
    {
        if closed {
            self.zombies.push(id);
        }
        empty_step()
    }
}

} // verus!
