//! What the loop of the I/O thread does at each turn.

use vstd::prelude::*;

use crate::config::SocketStatus;
use crate::epoll_bridge;
use crate::epoll_bridge::commands::IoCommand;
use crate::epoll_bridge::io_loop::{
    backoff_ms, Activity, Directive, IoLoop, LoopView, Phase, PollEvent, Rest, Taken, Task,
};
use crate::epoll_bridge::{Bridge, CallView, Effect, Endpoints, SocketId, Sockets, Step, StepView};
use crate::error::SrtError;
use crate::laws::commands;
use crate::laws::status;
use crate::laws::traffic;

verus! {

/// Waiting for events takes longest while something is about to connect, and no time where
/// nothing is.
pub proof fn law_waiting_times(activity: Activity, ms: i64)
    requires
        call_ensures(Activity::timeout_ms, (activity,), ms),
    ensures
        activity == Activity::Connected ==> ms == 10,
        activity == Activity::Connecting ==> ms == 100,
        activity == Activity::Idle ==> ms == 0,
{
}

/// The rest after failures in a row begins with one millisecond, doubles with each failure
/// and grows to 128 milliseconds at most.
pub proof fn law_rests_double(failures: u32, ms: u64, more: u64)
    requires
        failures < u32::MAX,
        call_ensures(backoff_ms, (failures,), ms),
        call_ensures(backoff_ms, ((failures + 1) as u32,), more),
    ensures
        failures == 0 ==> ms == 1,
        failures < 7 ==> more == 2 * ms,
        failures >= 7 ==> ms == 128 && more == 128,
{
    reveal_with_fuel(epoll_bridge::io_loop::backoff, 9);
}

/// A new loop has nothing to look after and nothing to do.
pub proof fn law_a_new_loop<E: Endpoints>(io: IoLoop<E>, id: SocketId)
    requires
        call_ensures(IoLoop::<E>::new, (), io),
    ensures
        io@.phase is Top,
        !io@.sockets.contains_key(id),
        io@.agenda.len() == 0,
        io@.zombies.len() == 0,
        io@.consecutive_epoll_errors == 0,
        io@.state_poll_counter == 0,
{
}

/// The loop is in order where fewer turns than a hundred have been counted since the last
/// poll, and there is an agenda only while it is worked through. It begins so, and stays
/// so whatever it is told.
pub proof fn law_the_loop_stays_in_order<E: Endpoints>(
    io: &mut IoLoop<E>,
    new: IoLoop<E>,
    directive: Directive<E>,
    taken: Taken<E>,
    n: i32,
    events: &[PollEvent],
    id: SocketId,
    closed: bool,
    step: Step<E>,
    out: (),
)
    ensures
        old(io).wf() <==> old(io)@.state_poll_counter < 100 && (old(io)@.phase is Working
            || old(io)@.agenda.len() == 0),
        call_ensures(IoLoop::<E>::new, (), new) ==> new.wf(),
        call_ensures(IoLoop::<E>::next, (io,), directive) ==> final(io).wf(),
        call_ensures(IoLoop::<E>::command_taken, (io, taken), step) ==> final(io).wf(),
        call_ensures(IoLoop::<E>::events_polled, (io, n, events), out) ==> final(io).wf(),
        call_ensures(IoLoop::<E>::recv_probed, (io, id, closed), step) ==> final(io).wf(),
{
}

/// A turn begins with waiting for a command where there is no socket, and with looking for
/// one where there is.
pub proof fn law_a_turn_begins<E: Endpoints>(io: &mut IoLoop<E>, directive: Directive<E>)
    requires
        old(io).wf(),
        old(io)@.phase is Top,
        call_ensures(IoLoop::<E>::next, (io,), directive),
    ensures
        final(io)@ == (LoopView { phase: final(io)@.phase, ..old(io)@ }),
        (forall|id: SocketId| !old(io)@.sockets.contains_key(id)) ==> final(io)@.phase is Parked
            && directive is AwaitCommand,
        forall|id: SocketId| #[trigger]
            old(io)@.sockets.contains_key(id) ==> final(io)@.phase is Draining
                && directive is TryCommand,
{
    if forall|id: SocketId| !old(io)@.sockets.contains_key(id) {
        assert(old(io)@.sockets.dom() =~= Set::empty());
    }
    assert forall|id: SocketId| #[trigger] old(io)@.sockets.contains_key(id) implies final(
        io)@.phase is Draining && directive is TryCommand by {
        assert(old(io)@.sockets.dom().contains(id));
    }
}

/// In the midst of a turn the loop waits for a command where it is parked, looks for one
/// where it takes commands up, and waits for events for as long as it is busy. When the
/// agenda is done it rests, and begins anew.
pub proof fn law_a_turn_goes_on<E: Endpoints>(
    io: &mut IoLoop<E>,
    directive: Directive<E>,
    activity: Activity,
    ms: i64,
    rest: Rest,
)
    requires
        old(io).wf(),
        call_ensures(IoLoop::<E>::next, (io,), directive),
        call_ensures(Activity::timeout_ms, (activity,), ms),
    ensures
        old(io)@.phase is Parked ==> final(io)@ == old(io)@ && directive is AwaitCommand,
        old(io)@.phase is Draining ==> final(io)@ == old(io)@ && directive is TryCommand,
        old(io)@.phase == (Phase::Polling { activity }) ==> final(io)@ == old(io)@ && directive == (
        Directive::<E>::Poll { timeout_ms: ms }),
        old(io)@.phase == (Phase::Working { rest }) && old(io)@.agenda.len() == 0 ==> final(io)@
            == (LoopView { phase: Phase::Top, ..old(io)@ }) && directive
            == Directive::<E>::Pause(rest),
{
}

/// Whether the loop has taken up the first task of its agenda: it works on, and has put
/// these tasks in front of those that were left.
pub open spec fn works_on<E: Endpoints>(
    before: LoopView<E>,
    after: LoopView<E>,
    planned: Seq<Task>,
) -> bool {
    &&& after.phase == before.phase
    &&& after.agenda == planned + before.agenda.skip(1)
    &&& after.consecutive_epoll_errors == before.consecutive_epoll_errors
}

/// Whether the loop is about to take up a task.
pub open spec fn is_due<E: Endpoints>(v: LoopView<E>, task: Task) -> bool {
    v.phase is Working && v.agenda.len() > 0 && v.agenda[0] == task
}

/// In which order the tasks of an event come.
pub open spec fn rank(task: Task) -> int {
    match task {
        Task::Accept { .. } => 0,
        Task::FinishConnect { .. } => 1,
        Task::Receive { .. } => 2,
        Task::Send { .. } => 3,
        Task::Fail { .. } => 4,
        _ => 5,
    }
}

/// The tasks of an event, one for each thing that it reports. A socket that is no listener
/// receives if and only if the event says that it is readable, whatever else it says; a
/// listener accepts in its place, and does nothing else then. The end of a connection
/// attempt comes before data, what was received before what is to be sent, and an error
/// last. No task comes twice.
pub proof fn law_events_are_sorted_out<E: Endpoints>(
    io: &mut IoLoop<E>,
    event: PollEvent,
    directive: Directive<E>,
) -> (planned: Seq<Task>)
    requires
        old(io).wf(),
        is_due(old(io)@, Task::Event { event }),
        call_ensures(IoLoop::<E>::next, (io,), directive),
    ensures
        ({
            let id = event.fd;
            let readable = event.events & 0x1 != 0;
            let listening = old(io)@.sockets.contains_key(id) && old(io)@.sockets[id].is_listener;
            &&& directive matches Directive::Work(step) && commands::does_nothing(step@)
            &&& works_on(old(io)@, final(io)@, planned)
            &&& final(io)@.sockets == old(io)@.sockets
            &&& final(io)@.zombies == old(io)@.zombies
            &&& final(io)@.state_poll_counter == old(io)@.state_poll_counter
            &&& planned.contains(Task::Receive { id }) <==> readable && !listening
            &&& planned.contains(Task::Accept { id }) <==> readable && listening
            &&& planned.contains(Task::FinishConnect { id }) <==> event.events & 0x4 != 0 && !(
            readable && listening)
            &&& planned.contains(Task::Send { id }) <==> event.events & 0x4 != 0 && !(readable
                && listening)
            &&& planned.contains(Task::Fail { id }) <==> event.events & 0x8 != 0 && !(readable
                && listening)
            &&& forall|i: int|
                0 <= i < planned.len() ==> #[trigger] planned[i] == (Task::Receive { id })
                    || planned[i] == (Task::Accept { id }) || planned[i] == (Task::FinishConnect {
                    id,
                }) || planned[i] == (Task::Send { id }) || planned[i] == (Task::Fail { id })
            &&& forall|i: int, j: int|
                0 <= i < j < planned.len() ==> rank(#[trigger] planned[i]) < rank(
                    #[trigger] planned[j],
                )
        }),
{
    let id = event.fd;
    let e = event.events;
    let listening = old(io)@.sockets.contains_key(id) && old(io)@.sockets[id].is_listener;
    let planned = epoll_bridge::io_loop::event_plan(old(io)@.sockets, event);
    if e & 0x1 != 0 && listening {
        assert(planned[0] == (Task::Accept { id }));
    } else {
        let connected: int = if e & 0x4 != 0 {
            1
        } else {
            0
        };
        let received: int = if e & 0x1 != 0 {
            1
        } else {
            0
        };
        assert(e & 0x4 != 0 ==> planned[0] == (Task::FinishConnect { id }));
        assert(e & 0x1 != 0 ==> planned[connected] == (Task::Receive { id }));
        assert(e & 0x4 != 0 ==> planned[connected + received] == (Task::Send { id }));
        assert(e & 0x8 != 0 ==> planned[2 * connected + received] == (Task::Fail { id }));
    }
    planned
}

/// The tasks that data, errors and connections come to: each is begun for its own socket,
/// and nothing else changes.
pub proof fn law_tasks_are_begun<E: Endpoints>(
    io: &mut IoLoop<E>,
    id: SocketId,
    directive: Directive<E>,
)
    requires
        old(io).wf(),
        call_ensures(IoLoop::<E>::next, (io,), directive),
    ensures
        ({
            let begun = works_on(old(io)@, final(io)@, Seq::empty()) && final(io)@.zombies
                == old(io)@.zombies && final(io)@.state_poll_counter
                == old(io)@.state_poll_counter
                && directive is Work;
            let step = directive->Work_0@;
            &&& is_due(old(io)@, Task::FinishConnect { id }) ==> begun && traffic::finishes(
                old(io)@.sockets,
                final(io)@.sockets,
                id,
                step,
            )
            &&& is_due(old(io)@, Task::Receive { id }) ==> begun && final(io)@.sockets
                == old(io)@.sockets && commands::only_calls(step, CallView::CountReceived { id })
            &&& is_due(old(io)@, Task::Send { id }) ==> begun && traffic::sends_on(
                old(io)@.sockets,
                final(io)@.sockets,
                id,
                step,
            )
            &&& is_due(old(io)@, Task::Fail { id }) ==> begun && step.next is Done
                && status::turns_to(
                old(io)@.sockets,
                final(io)@.sockets,
                id,
                SocketStatus::Broken,
                step.effects,
            )
            &&& is_due(old(io)@, Task::Accept { id }) ==> begun && final(io)@.sockets
                == old(io)@.sockets && commands::only_calls(step, CallView::Accept { id })
            &&& is_due(old(io)@, Task::PollState { id }) ==> begun && final(io)@.sockets
                == old(io)@.sockets && commands::only_calls(step, CallView::ReadPolledState { id })
        }),
{
    let m = old(io)@.sockets;
    assert(Seq::<Task>::empty() + old(io)@.agenda.skip(1) =~= old(io)@.agenda.skip(1));
    status::lemma_turns_to(m, id, SocketStatus::Broken);
    if m.contains_key(id) && m[id].send_backlog.len() > 0 {
        let backlog = m[id].send_backlog;
        assert(backlog =~= seq![backlog[0]] + backlog.skip(1));
    }
}

/// The tasks that were put in front of the agenda when its first was taken up.
pub open spec fn planned<E: Endpoints>(before: LoopView<E>, after: LoopView<E>) -> Seq<Task> {
    after.agenda.take(after.agenda.len() - before.agenda.len() + 1)
}

/// Whether tasks are one for each socket, and no other.
pub open spec fn one_each<E: Endpoints>(
    m: Sockets<E>,
    tasks: Seq<Task>,
    kind: spec_fn(SocketId) -> Task,
) -> bool {
    &&& tasks.no_duplicates()
    &&& forall|id: SocketId| #[trigger] m.contains_key(id) <==> tasks.contains(kind(id))
    &&& forall|task: Task| #[trigger]
        tasks.contains(task) ==> exists|id: SocketId| task == #[trigger] kind(id)
}

proof fn lemma_one_each<E: Endpoints>(
    m: Sockets<E>,
    tasks: Seq<Task>,
    ids: Seq<SocketId>,
    kind: spec_fn(SocketId) -> Task,
)
    requires
        epoll_bridge::traffic::lists(ids, m),
        tasks.len() == ids.len(),
        forall|i: int| 0 <= i < ids.len() ==> #[trigger] tasks[i] == kind(ids[i]),
        forall|x: SocketId, y: SocketId| #[trigger] kind(x) == #[trigger] kind(y) ==> x == y,
    ensures
        one_each(m, tasks, kind),
{
    assert forall|id: SocketId| #[trigger] m.contains_key(id) <==> tasks.contains(kind(id)) by {
        assert(ids.to_set().contains(id) <==> m.dom().contains(id));
        if m.contains_key(id) {
            let i = choose|i: int| 0 <= i < ids.len() && ids[i] == id;
            assert(tasks[i] == kind(id));
        }
        if tasks.contains(kind(id)) {
            let i = choose|i: int| 0 <= i < tasks.len() && tasks[i] == kind(id);
            assert(kind(ids[i]) == kind(id));
            assert(ids.contains(ids[i]));
        }
    }
    assert forall|task: Task| #[trigger] tasks.contains(task) implies exists|id: SocketId|
        task == #[trigger] kind(id) by {
        let i = choose|i: int| 0 <= i < tasks.len() && tasks[i] == task;
        assert(task == kind(ids[i]));
    }
    assert forall|i: int, j: int|
        0 <= i < tasks.len() && 0 <= j < tasks.len() && i != j implies tasks[i] != tasks[j] by {
        assert(ids[i] != ids[j]);
        assert(kind(ids[i]) != kind(ids[j]));
    }
}

/// Sending on all sockets is a task for each socket that is looked after, groups and
/// listeners among them, before all that was planned.
pub proof fn law_all_sockets_are_swept<E: Endpoints>(
    io: &mut IoLoop<E>,
    directive: Directive<E>,
)
    requires
        old(io).wf(),
        is_due(old(io)@, Task::DrainSends),
        call_ensures(IoLoop::<E>::next, (io,), directive),
    ensures
        directive matches Directive::Work(step) && commands::does_nothing(step@),
        works_on(old(io)@, final(io)@, planned(old(io)@, final(io)@)),
        one_each(
            old(io)@.sockets,
            planned(old(io)@, final(io)@),
            |id: SocketId| Task::SweepSend { id },
        ),
        final(io)@.sockets == old(io)@.sockets,
        final(io)@.zombies == old(io)@.zombies,
        final(io)@.state_poll_counter == old(io)@.state_poll_counter,
{
    let task = old(io)@.agenda[0];
    let v = LoopView { agenda: old(io)@.agenda.skip(1), ..old(io)@ };
    let ids = choose|ids: Seq<SocketId>|
        epoll_bridge::traffic::lists(ids, v.sockets) && final(io)@
            == #[trigger] epoll_bridge::io_loop::state_after_task(v, task, ids);
    let tasks = epoll_bridge::io_loop::send_sweep(ids);
    assert(planned(old(io)@, final(io)@) =~= tasks);
    lemma_one_each(v.sockets, tasks, ids, |id: SocketId| Task::SweepSend { id });
}

/// A sweep sends on every socket that is connected and has a sending channel, be it a
/// group or not, and whatever else is kept for it: what waits is sent first, then what the
/// channel holds. It sends on no other socket.
pub proof fn law_sweeps_send_on_connected_sockets<E: Endpoints>(
    io: &mut IoLoop<E>,
    id: SocketId,
    directive: Directive<E>,
)
    requires
        old(io).wf(),
        is_due(old(io)@, Task::SweepSend { id }),
        call_ensures(IoLoop::<E>::next, (io,), directive),
    ensures
        directive is Work,
        works_on(old(io)@, final(io)@, Seq::empty()),
        final(io)@.zombies == old(io)@.zombies,
        final(io)@.state_poll_counter == old(io)@.state_poll_counter,
        ({
            let m = old(io)@.sockets;
            let step = directive->Work_0@;
            if m.contains_key(id) && m[id].send_rx is Some && m[id].last_status
                == SocketStatus::Connected {
                traffic::sends_on(m, final(io)@.sockets, id, step) && step.next is Call
            } else {
                final(io)@.sockets == m && commands::does_nothing(step)
            }
        }),
{
    let m = old(io)@.sockets;
    assert(Seq::<Task>::empty() + old(io)@.agenda.skip(1) =~= old(io)@.agenda.skip(1));
    if m.contains_key(id) && m[id].send_backlog.len() > 0 {
        let backlog = m[id].send_backlog;
        assert(backlog =~= seq![backlog[0]] + backlog.skip(1));
    }
}

/// The states of all sockets are polled at every hundredth turn, and dead sockets looked
/// for then; the turns between are counted.
pub proof fn law_states_are_polled_now_and_then<E: Endpoints>(
    io: &mut IoLoop<E>,
    directive: Directive<E>,
)
    requires
        old(io).wf(),
        is_due(old(io)@, Task::PollTick),
        call_ensures(IoLoop::<E>::next, (io,), directive),
    ensures
        directive matches Directive::Work(step) && commands::does_nothing(step@),
        final(io)@.sockets == old(io)@.sockets,
        final(io)@.zombies == old(io)@.zombies,
        works_on(old(io)@, final(io)@, planned(old(io)@, final(io)@)),
        old(io)@.state_poll_counter < 99 ==> final(io)@.state_poll_counter
            == old(io)@.state_poll_counter + 1 && planned(old(io)@, final(io)@).len() == 0,
        old(io)@.state_poll_counter >= 99 ==> {
            let tasks = planned(old(io)@, final(io)@);
            &&& final(io)@.state_poll_counter == 0
            &&& tasks.len() > 0 && tasks.last() == Task::SweepZombies
            &&& one_each(
                old(io)@.sockets,
                tasks.drop_last(),
                |id: SocketId| Task::PollState { id },
            )
        },
{
    let task = old(io)@.agenda[0];
    let v = LoopView { agenda: old(io)@.agenda.skip(1), ..old(io)@ };
    let ids = choose|ids: Seq<SocketId>|
        epoll_bridge::traffic::lists(ids, v.sockets) && final(io)@
            == #[trigger] epoll_bridge::io_loop::state_after_task(v, task, ids);
    assert(Seq::<Task>::empty() + v.agenda =~= v.agenda);
    if old(io)@.state_poll_counter >= 99 {
        let tasks = epoll_bridge::io_loop::poll_sweep(ids);
        assert(final(io)@.agenda =~= tasks.push(Task::SweepZombies) + v.agenda);
        assert(planned(old(io)@, final(io)@) =~= tasks.push(Task::SweepZombies));
        assert(tasks.push(Task::SweepZombies).drop_last() =~= tasks);
        lemma_one_each(v.sockets, tasks, ids, |id: SocketId| Task::PollState { id });
    } else {
        assert(planned(old(io)@, final(io)@) =~= Seq::empty());
    }
}

/// Looking for dead sockets asks after each socket, and closes those that were found at the
/// end; nothing of an earlier search is left.
pub proof fn law_all_sockets_are_looked_at<E: Endpoints>(
    io: &mut IoLoop<E>,
    directive: Directive<E>,
)
    requires
        old(io).wf(),
        is_due(old(io)@, Task::SweepZombies),
        call_ensures(IoLoop::<E>::next, (io,), directive),
    ensures
        directive matches Directive::Work(step) && commands::does_nothing(step@),
        final(io)@.sockets == old(io)@.sockets,
        final(io)@.zombies.len() == 0,
        final(io)@.state_poll_counter == old(io)@.state_poll_counter,
        works_on(old(io)@, final(io)@, planned(old(io)@, final(io)@)),
        planned(old(io)@, final(io)@).len() > 0,
        planned(old(io)@, final(io)@).last() == Task::ReapZombies,
        one_each(
            old(io)@.sockets,
            planned(old(io)@, final(io)@).drop_last(),
            |id: SocketId| Task::ProbeZombie { id },
        ),
{
    let task = old(io)@.agenda[0];
    let v = LoopView { agenda: old(io)@.agenda.skip(1), ..old(io)@ };
    let ids = choose|ids: Seq<SocketId>|
        epoll_bridge::traffic::lists(ids, v.sockets) && final(io)@
            == #[trigger] epoll_bridge::io_loop::state_after_task(v, task, ids);
    let tasks = epoll_bridge::io_loop::zombie_sweep(ids);
    assert(final(io)@.agenda =~= tasks.push(Task::ReapZombies) + v.agenda);
    assert(planned(old(io)@, final(io)@) =~= tasks.push(Task::ReapZombies));
    assert(tasks.push(Task::ReapZombies).drop_last() =~= tasks);
    lemma_one_each(v.sockets, tasks, ids, |id: SocketId| Task::ProbeZombie { id });
}

/// A socket is dead where it has come to its end and is neither a listener nor a group. One
/// without a receiving channel is found at once; of one with a channel it is asked whether
/// its reader is gone. Any other is left alone.
pub proof fn law_dead_sockets_are_found<E: Endpoints>(
    io: &mut IoLoop<E>,
    id: SocketId,
    directive: Directive<E>,
)
    requires
        old(io).wf(),
        is_due(old(io)@, Task::ProbeZombie { id }),
        call_ensures(IoLoop::<E>::next, (io,), directive),
    ensures
        directive is Work,
        works_on(old(io)@, final(io)@, Seq::empty()),
        final(io)@.sockets == old(io)@.sockets,
        final(io)@.state_poll_counter == old(io)@.state_poll_counter,
        ({
            let m = old(io)@.sockets;
            let step = directive->Work_0@;
            let dead = m.contains_key(id) && status::has_ended(m[id].last_status)
                && !m[id].is_listener && !m[id].is_group;
            &&& dead && m[id].recv_tx is None ==> final(io)@.zombies == old(io)@.zombies.push(id)
                && commands::does_nothing(step)
            &&& dead && m[id].recv_tx is Some ==> final(io)@.zombies == old(io)@.zombies
                && commands::only_calls(step, CallView::ProbeRecv { id })
            &&& !dead ==> final(io)@.zombies == old(io)@.zombies && commands::does_nothing(step)
        }),
{
    assert(Seq::<Task>::empty() + old(io)@.agenda.skip(1) =~= old(io)@.agenda.skip(1));
}

/// A dead socket whose reader is gone is found.
pub proof fn law_gone_readers<E: Endpoints>(
    io: &mut IoLoop<E>,
    id: SocketId,
    closed: bool,
    step: Step<E>,
)
    requires
        old(io).wf(),
        call_ensures(IoLoop::<E>::recv_probed, (io, id, closed), step),
    ensures
        commands::does_nothing(step@),
        closed ==> final(io)@ == (LoopView { zombies: old(io)@.zombies.push(id), ..old(io)@ }),
        !closed ==> final(io)@ == old(io)@,
{
}

/// The dead sockets that were found are closed, one after the other, and are looked after
/// no more; whoever waits for one learns that the connection is lost. All others stay.
pub proof fn law_dead_sockets_are_closed<E: Endpoints>(
    io: &mut IoLoop<E>,
    directive: Directive<E>,
)
    requires
        old(io).wf(),
        is_due(old(io)@, Task::ReapZombies),
        call_ensures(IoLoop::<E>::next, (io,), directive),
    ensures
        directive is Work,
        directive->Work_0@.next is Done,
        traffic::rids_of_all(
            old(io)@.sockets,
            old(io)@.zombies,
            SrtError::ConnectionLost,
            directive->Work_0@.effects,
        ),
        works_on(old(io)@, final(io)@, Seq::empty()),
        final(io)@.zombies.len() == 0,
        final(io)@.state_poll_counter == old(io)@.state_poll_counter,
        forall|id: SocketId| #[trigger]
            final(io)@.sockets.contains_key(id) <==> old(io)@.sockets.contains_key(id)
                && !old(io)@.zombies.contains(id),
        forall|id: SocketId| #[trigger]
            final(io)@.sockets.contains_key(id) ==> final(io)@.sockets[id] == old(io)@.sockets[id],
{
    traffic::lemma_rids_of_all(old(io)@.sockets, old(io)@.zombies, SrtError::ConnectionLost);
    assert(Seq::<Task>::empty() + old(io)@.agenda.skip(1) =~= old(io)@.agenda.skip(1));
    assert forall|id: SocketId| #[trigger]
        final(io)@.sockets.contains_key(id) <==> old(io)@.sockets.contains_key(id)
                && !old(io)@.zombies.contains(id) by {
        assert(old(io)@.zombies.to_set().contains(id) <==> old(io)@.zombies.contains(id));
    }
}

/// A command that was taken is taken up by the bridge; a loop that was parked begins its
/// turn anew, any other goes on as it was.
pub proof fn law_commands_are_taken_up<E: Endpoints>(
    io: &mut IoLoop<E>,
    b: &mut Bridge<E>,
    cmd: IoCommand<E>,
    step: Step<E>,
    taken_up: Step<E>,
)
    requires
        old(io).wf(),
        call_ensures(IoLoop::<E>::command_taken, (io, Taken::Command(cmd)), step),
        *old(b) == old(io).bridge,
        call_ensures(Bridge::<E>::process_command, (b, cmd), taken_up),
    ensures
        step@ == taken_up@,
        final(io)@.sockets == final(b)@,
        old(io)@.phase is Parked ==> final(io)@.phase is Top,
        old(io)@.phase !is Parked ==> final(io)@.phase == old(io)@.phase,
        final(io)@ == (LoopView {
            phase: final(io)@.phase,
            sockets: final(io)@.sockets,
            ..old(io)@
        }),
{
}

/// Whether a socket that is looked after has this status.
pub open spec fn has_one<E: Endpoints>(m: Sockets<E>, status: SocketStatus) -> bool {
    exists|id: SocketId| #[trigger] m.contains_key(id) && m[id].last_status == status
}

proof fn lemma_has_one<E: Endpoints>(m: Sockets<E>, status: SocketStatus)
    ensures
        has_one(m, status) <==> epoll_bridge::io_loop::some_with(m, status),
{
    if has_one(m, status) {
        let id = choose|id: SocketId| #[trigger] m.contains_key(id) && m[id].last_status == status;
        assert(m.contains_key(id) && m[id].last_status == status);
    }
    if epoll_bridge::io_loop::some_with(m, status) {
        let id = choose|id: SocketId|
            m.contains_key(id) && (#[trigger] m[id]).last_status == status;
        assert(m.contains_key(id) && m[id].last_status == status);
    }
}

/// When there are no more commands the loop waits for events: as one that is connected
/// where any socket is, else as one that connects where any socket does, else as idle.
pub proof fn law_no_more_commands<E: Endpoints>(io: &mut IoLoop<E>, step: Step<E>)
    requires
        old(io).wf(),
        call_ensures(IoLoop::<E>::command_taken, (io, Taken::<E>::Empty), step),
    ensures
        commands::does_nothing(step@),
        final(io)@ == (LoopView { phase: final(io)@.phase, ..old(io)@ }),
        old(io)@.phase !is Draining ==> final(io)@.phase == old(io)@.phase,
        old(io)@.phase is Draining ==> final(io)@.phase is Polling && {
            let activity = final(io)@.phase->Polling_activity;
            let connected = has_one(old(io)@.sockets, SocketStatus::Connected);
            let connecting = has_one(old(io)@.sockets, SocketStatus::Connecting);
            &&& activity == Activity::Connected <==> connected
            &&& activity == Activity::Connecting <==> connecting && !connected
            &&& activity == Activity::Idle <==> !connecting && !connected
        },
{
    lemma_has_one(old(io)@.sockets, SocketStatus::Connected);
    lemma_has_one(old(io)@.sockets, SocketStatus::Connecting);
}

/// When nobody can send commands any more the bridge shuts down.
pub proof fn law_nobody_left<E: Endpoints>(io: &mut IoLoop<E>, step: Step<E>)
    requires
        old(io).wf(),
        call_ensures(IoLoop::<E>::command_taken, (io, Taken::<E>::Disconnected), step),
    ensures
        final(io)@ == old(io)@,
        step@.effects.len() == 0,
        step@.next is Shutdown,
{
}

/// Whether tasks are the events that were reported, in their order.
pub open spec fn are_events(tasks: Seq<Task>, n: i32, events: Seq<PollEvent>) -> bool {
    &&& tasks.len() == if n > 0 {
        n as int
    } else {
        0int
    }
    &&& forall|i: int|
        0 <= i < tasks.len() ==> #[trigger] tasks[i] == (Task::Event { event: events[i] })
}

/// An idle loop works through its events, looks for dead sockets, and rests for a tenth of
/// a second.
pub proof fn law_an_idle_wait<E: Endpoints>(
    io: &mut IoLoop<E>,
    n: i32,
    events: &[PollEvent],
    out: (),
)
    requires
        old(io).wf(),
        old(io)@.phase == (Phase::Polling { activity: Activity::Idle }),
        n <= events@.len(),
        call_ensures(IoLoop::<E>::events_polled, (io, n, events), out),
    ensures
        final(io)@.phase == (Phase::Working { rest: Rest { sleep_ms: 100, warn: false } }),
        final(io)@.agenda.len() > 0,
        are_events(final(io)@.agenda.drop_last(), n, events@),
        final(io)@.agenda.last() == Task::SweepZombies,
        final(io)@ == (LoopView {
            phase: final(io)@.phase,
            agenda: final(io)@.agenda,
            ..old(io)@
        }),
{
}

/// A wait that failed is counted; the loop rests the longer the more have failed in a row,
/// and warns at the tenth.
pub proof fn law_a_failed_wait<E: Endpoints>(
    io: &mut IoLoop<E>,
    n: i32,
    events: &[PollEvent],
    out: (),
    ms: u64,
)
    requires
        old(io).wf(),
        old(io)@.phase is Polling,
        old(io)@.phase->Polling_activity != Activity::Idle,
        n < 0,
        old(io)@.consecutive_epoll_errors < u32::MAX,
        call_ensures(IoLoop::<E>::events_polled, (io, n, events), out),
        call_ensures(backoff_ms, ((old(io)@.consecutive_epoll_errors + 1) as u32,), ms),
    ensures
        final(io)@.consecutive_epoll_errors == old(io)@.consecutive_epoll_errors + 1,
        final(io)@.phase == (Phase::Working {
            rest: Rest { sleep_ms: ms, warn: old(io)@.consecutive_epoll_errors == 9 },
        }),
        final(io)@.agenda.len() == 0,
        final(io)@ == (LoopView {
            phase: final(io)@.phase,
            consecutive_epoll_errors: final(io)@.consecutive_epoll_errors,
            ..old(io)@
        }),
{
}

/// After a wait that did not fail, the failures are forgotten. The loop works through its
/// events, sends on all sockets where one is connected, counts the turn, and does not rest.
pub proof fn law_a_busy_wait<E: Endpoints>(
    io: &mut IoLoop<E>,
    n: i32,
    events: &[PollEvent],
    out: (),
)
    requires
        old(io).wf(),
        old(io)@.phase is Polling,
        old(io)@.phase->Polling_activity != Activity::Idle,
        0 <= n <= events@.len(),
        call_ensures(IoLoop::<E>::events_polled, (io, n, events), out),
    ensures
        final(io)@.consecutive_epoll_errors == 0,
        final(io)@.phase == (Phase::Working { rest: Rest { sleep_ms: 0, warn: false } }),
        final(io)@.agenda.len() >= n + 1,
        are_events(final(io)@.agenda.take(n as int), n, events@),
        final(io)@.agenda.last() == Task::PollTick,
        old(io)@.phase->Polling_activity == Activity::Connected ==> final(io)@.agenda.len() == n + 2
            && final(io)@.agenda[n as int] == Task::DrainSends,
        old(io)@.phase->Polling_activity == Activity::Connecting ==> final(io)@.agenda.len() == n
            + 1,
        final(io)@ == (LoopView {
            phase: final(io)@.phase,
            agenda: final(io)@.agenda,
            consecutive_epoll_errors: 0,
            ..old(io)@
        }),
{
}

/// Shutting down is rid of every socket, each once, and gives the watch list back last.
pub proof fn law_shutdown<E: Endpoints>(
    io: &mut IoLoop<E>,
    effects: Vec<Effect<E>>,
) -> (ids: Seq<SocketId>)
    requires
        call_ensures(IoLoop::<E>::shutdown, (io,), effects),
    ensures
        forall|id: SocketId| !final(io)@.sockets.contains_key(id),
        final(io)@ == (LoopView { sockets: final(io)@.sockets, ..old(io)@ }),
        ids.no_duplicates(),
        forall|id: SocketId| ids.contains(id) <==> #[trigger] old(io)@.sockets.contains_key(id),
        ({
            let told = epoll_bridge::effects_view(effects@);
            told.len() > 0 && told.last() is ReleaseEpoll && traffic::rids_of_all(
                old(io)@.sockets,
                ids,
                SrtError::SocketClosed,
                told.drop_last(),
            )
        }),
{
    let m = old(io)@.sockets;
    let ids = choose|ids: Seq<SocketId>|
        epoll_bridge::traffic::lists(ids, m) && epoll_bridge::effects_view(effects@)
            == #[trigger] epoll_bridge::traffic::cleanup_effects(m, ids);
    traffic::lemma_rids_of_all(m, ids, SrtError::SocketClosed);
    assert(epoll_bridge::effects_view(effects@).drop_last()
        =~= epoll_bridge::traffic::closing_effects(m, ids, SrtError::SocketClosed));
    assert forall|id: SocketId| ids.contains(id) <==> #[trigger] m.contains_key(id) by {
        assert(ids.to_set().contains(id) <==> m.dom().contains(id));
    }
    ids
}

} // verus!
