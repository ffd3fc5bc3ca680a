//! What the bridge does when a call into libsrt has returned.

use vstd::prelude::*;

use crate::addr::{sockaddr_to_socket_addr, RawSockAddr, SocketAddr};
use crate::config::{MemberStatus, SocketStatus, SrtConfig};
use crate::epoll_bridge;
use crate::epoll_bridge::results::nonblocking_settings;
use crate::epoll_bridge::{
    map_member_status, raw_state_to_status, AnswerView, Bridge, CallView, EffectView, Endpoints,
    NextView, RawMember, SocketId, SocketView, Sockets, Step, StepView,
};
use crate::error::SrtError;
use crate::group::GroupMemberStats;
use crate::laws::commands;
use crate::laws::status;
use crate::laws::texts;
use crate::options;
use crate::options::{apply_config, OptionSetting, OptionValueView, SettingView, SocketOption};
use crate::stats;
use crate::stats::{convert_perfmon_to_stats, PerfMon, SrtStats};
use crate::text;

verus! {

/// Whether settings keep calls from blocking, in both directions.
pub open spec fn unblocks(settings: Seq<SettingView>) -> bool {
    &&& settings.len() == 2
    &&& settings[0].option == SocketOption::RcvSyn && settings[0].value == OptionValueView::Int(0)
    &&& settings[1].option == SocketOption::SndSyn && settings[1].value == OptionValueView::Int(0)
}

/// A socket of which calls do not block waits neither for data nor for room.
pub proof fn law_nonblocking(list: Vec<OptionSetting>)
    requires
        call_ensures(nonblocking_settings, (), list),
    ensures
        unblocks(options::settings(list@)),
{
}

/// Whether a step follows a new socket: its calls do not block; then it has every option
/// that its configuration asks for, in their order; then it is answered. Where there is no
/// socket the error is answered.
pub open spec fn is_set_up<E: Endpoints>(
    step: StepView<E>,
    wanted: Seq<OptionSetting>,
    reply: E::Reply,
    created: Result<SocketId, SrtError>,
) -> bool {
    match created {
        Ok(id) => {
            &&& step.next is Done
            &&& step.effects.len() == 2
            &&& step.effects[0] matches EffectView::SetOptions { id: named, settings } && named == id
                && settings.len() == wanted.len() + 2 && unblocks(settings.take(2)) && forall|i: int|
                0 <= i < wanted.len() ==> settings[i + 2] == (#[trigger] wanted[i])@
            &&& step.effects[1] == (EffectView::<E>::Answer {
                reply,
                answer: AnswerView::Socket(Ok(id)),
            })
        },
        Err(error) => commands::only_answers(step, reply, AnswerView::Socket(Err(error))),
    }
}

/// A new socket is set up before it is answered.
pub proof fn law_a_new_socket_is_set_up<E: Endpoints>(
    config: &SrtConfig,
    reply: E::Reply,
    created: Result<SocketId, SrtError>,
    step: Step<E>,
    wanted: Vec<OptionSetting>,
)
    requires
        call_ensures(Bridge::<E>::socket_created, (config, reply, created), step),
        call_ensures(apply_config, (config,), wanted),
    ensures
        is_set_up(step@, wanted@, reply, created),
{
    if created is Ok {
        let settings = step@.effects[0]->SetOptions_settings;
        assert(settings.len() == wanted@.len() + 2);
        assert forall|i: int| 0 <= i < wanted@.len() implies settings[i + 2] == (
        #[trigger] wanted@[i])@ by {
            assert(options::settings(wanted@)[i] == wanted@[i]@);
        }
    }
}

/// A new group is set up like a socket, and looked after from then on as a group of which
/// nothing is known yet. Where there is none nothing changes.
pub proof fn law_a_new_group_is_set_up<E: Endpoints>(
    b: &mut Bridge<E>,
    config: &SrtConfig,
    reply: E::Reply,
    created: Result<SocketId, SrtError>,
    step: Step<E>,
    wanted: Vec<OptionSetting>,
)
    requires
        call_ensures(Bridge::<E>::group_created, (b, config, reply, created), step),
        call_ensures(apply_config, (config,), wanted),
    ensures
        is_set_up(step@, wanted@, reply, created),
        created is Err ==> final(b)@ == old(b)@,
        created matches Ok(id) ==> status::others_stay(old(b)@, final(b)@, id)
            && final(b)@.contains_key(id) && status::is_new(final(b)@[id], false, true),
{
    if created is Ok {
        let settings = step@.effects[0]->SetOptions_settings;
        assert(settings.len() == wanted@.len() + 2);
        assert forall|i: int| 0 <= i < wanted@.len() implies settings[i + 2] == (
        #[trigger] wanted@[i])@ by {
            assert(options::settings(wanted@)[i] == wanted@[i]@);
        }
    }
}

/// What came of binding is answered as it is.
pub proof fn law_binding_is_answered<E: Endpoints>(
    reply: E::Reply,
    result: Result<(), SrtError>,
    step: Step<E>,
)
    requires
        call_ensures(Bridge::<E>::bind_finished, (reply, result), step),
    ensures
        commands::only_answers(step@, reply, AnswerView::Done(result)),
{
}

/// Whether a listener that cannot listen is closed and let go of, before the error is
/// answered.
pub open spec fn is_refused<E: Endpoints>(
    before: Sockets<E>,
    after: Sockets<E>,
    id: SocketId,
    reply: E::Reply,
    error: SrtError,
    step: StepView<E>,
) -> bool {
    &&& !after.contains_key(id)
    &&& status::others_stay(before, after, id)
    &&& step.next is Done
    &&& step.effects.len() == if before.contains_key(id) {
        4int
    } else {
        3int
    }
    &&& step.effects[0] == (EffectView::<E>::RemoveFromEpoll { id })
    &&& step.effects[1] == (EffectView::<E>::CloseSocket { id })
    &&& before.contains_key(id) ==> step.effects[2] == (EffectView::<E>::Release {
        id,
        state: before[id],
    })
    &&& step.effects.last() == (EffectView::<E>::Answer {
        reply,
        answer: AnswerView::Done(Err(error)),
    })
}

/// A listener whose policy was armed listens next, with the backlog that was asked for. One
/// whose policy could not be armed is refused.
pub proof fn law_arming<E: Endpoints>(
    b: &mut Bridge<E>,
    id: SocketId,
    backlog: i32,
    reply: E::Reply,
    result: Result<(), SrtError>,
    step: Step<E>,
)
    requires
        call_ensures(Bridge::<E>::accept_hook_armed, (b, id, backlog, reply, result), step),
    ensures
        result is Ok ==> final(b)@ == old(b)@ && commands::only_calls(
            step@,
            CallView::Listen { id, backlog, reply },
        ),
        result matches Err(error) ==> is_refused(
            old(b)@,
            final(b)@,
            id,
            reply,
            error,
            step@,
        ),
{
}

/// A socket that listens is watched for callers and errors, counts as a listener whose
/// status is to listen, and keeps all else that was kept for it; then success is answered.
/// One that cannot listen is refused.
pub proof fn law_listening<E: Endpoints>(
    b: &mut Bridge<E>,
    id: SocketId,
    reply: E::Reply,
    result: Result<(), SrtError>,
    step: Step<E>,
)
    requires
        call_ensures(Bridge::<E>::listen_finished, (b, id, reply, result), step),
    ensures
        result matches Err(error) ==> is_refused(
            old(b)@,
            final(b)@,
            id,
            reply,
            error,
            step@,
        ),
        result is Ok ==> {
            &&& status::others_stay(old(b)@, final(b)@, id)
            &&& final(b)@.contains_key(id) <==> old(b)@.contains_key(id)
            &&& old(b)@.contains_key(id) ==> final(b)@[id] == (SocketView {
                is_listener: true,
                last_status: SocketStatus::Listening,
                ..old(b)@[id]
            })
            &&& step@.next is Done
            &&& step@.effects.len() == if old(b)@.contains_key(id) && old(b)@[id].status_tx is Some {
                3int
            } else {
                2int
            }
            &&& step@.effects[0] == (EffectView::<E>::AddToEpoll { id, events: 0x9 })
            &&& old(b)@.contains_key(id) && old(b)@[id].status_tx is Some ==> step@.effects[1] == (
            EffectView::<E>::PublishStatus { id, status: SocketStatus::Listening })
            &&& step@.effects.last() == (EffectView::<E>::Answer {
                reply,
                answer: AnswerView::Done(Ok(())),
            })
        },
{
}

/// A connect that could not begin is answered with its error. One that has begun, or says
/// that it is under way, is looked at again.
pub proof fn law_connecting_begins<E: Endpoints>(
    id: SocketId,
    reply: E::Reply,
    result: Result<(), SrtError>,
    step: Step<E>,
)
    requires
        call_ensures(Bridge::<E>::connect_returned, (id, reply, result), step),
    ensures
        result is Ok || result->Err_0 == SrtError::AsyncFail ==> commands::only_calls(
            step@,
            CallView::ReadConnectState { id, reply },
        ),
        result is Err && result->Err_0 != SrtError::AsyncFail ==> commands::only_answers(
            step@,
            reply,
            AnswerView::Done(Err(result->Err_0)),
        ),
{
}

/// The middle of a list of effects.
pub open spec fn inner<E: Endpoints>(
    effects: Seq<EffectView<E>>,
    first: int,
    last: int,
) -> Seq<EffectView<E>> {
    effects.subrange(first, effects.len() - last)
}

/// A socket found connected is watched for data and errors, takes that status over, and
/// success is answered last.
pub proof fn law_connected_at_once<E: Endpoints>(
    b: &mut Bridge<E>,
    id: SocketId,
    reply: E::Reply,
    step: Step<E>,
)
    requires
        call_ensures(Bridge::<E>::connect_state_read, (b, id, reply, 5i32), step),
    ensures
        step@.next is Done,
        step@.effects.len() >= 2,
        step@.effects[0] == (EffectView::<E>::AddToEpoll { id, events: 0x8000_0009 }),
        step@.effects.last() == (EffectView::<E>::Answer { reply, answer: AnswerView::Done(Ok(())) }),
        status::turns_to(
            old(b)@,
            final(b)@,
            id,
            SocketStatus::Connected,
            inner(step@.effects, 1, 1),
        ),
{
    status::lemma_turns_to(old(b)@, id, SocketStatus::Connected);
    assert(inner(step@.effects, 1, 1) =~= epoll_bridge::with_status_effects(
        old(b)@,
        id,
        SocketStatus::Connected,
    ));
}

/// A socket whose handshake is under way is watched for its end too. Who asked is kept, and
/// nobody is answered yet.
pub proof fn law_connection_under_way<E: Endpoints>(
    b: &mut Bridge<E>,
    id: SocketId,
    reply: E::Reply,
    raw: i32,
    step: Step<E>,
)
    requires
        raw == 1 || raw == 2 || raw == 4,
        call_ensures(Bridge::<E>::connect_state_read, (b, id, reply, raw), step),
    ensures
        step@.next is Done,
        step@.effects.len() >= 1,
        step@.effects[0] == (EffectView::<E>::AddToEpoll { id, events: 0x8000_000d }),
        old(b)@.contains_key(id) ==> status::turns_to(
            old(b)@.insert(id, SocketView { connect_reply: Some(reply), ..old(b)@[id] }),
            final(b)@,
            id,
            SocketStatus::Connecting,
            inner(step@.effects, 1, 0),
        ),
        !old(b)@.contains_key(id) ==> final(b)@ == old(b)@ && step@.effects.len() == 1,
{
    if old(b)@.contains_key(id) {
        let m = old(b)@.insert(id, SocketView { connect_reply: Some(reply), ..old(b)@[id] });
        status::lemma_turns_to(m, id, SocketStatus::Connecting);
        assert(inner(step@.effects, 1, 0) =~= epoll_bridge::with_status_effects(
            m,
            id,
            SocketStatus::Connecting,
        ));
    }
}

/// In any other state the connection has failed: the last error is answered, and nothing
/// changes.
pub proof fn law_connection_failed<E: Endpoints>(
    b: &mut Bridge<E>,
    id: SocketId,
    reply: E::Reply,
    raw: i32,
    step: Step<E>,
)
    requires
        raw != 1 && raw != 2 && raw != 4 && raw != 5,
        call_ensures(Bridge::<E>::connect_state_read, (b, id, reply, raw), step),
    ensures
        final(b)@ == old(b)@,
        step@.next is Done,
        step@.effects.len() == 1,
        step@.effects[0] == (EffectView::<E>::AnswerLastError { reply }),
{
}

/// A registered socket takes over the state that libsrt has for it, unless it has that
/// status already.
pub proof fn law_registered_state<E: Endpoints>(
    b: &mut Bridge<E>,
    id: SocketId,
    raw: i32,
    step: Step<E>,
    new: SocketStatus,
)
    requires
        call_ensures(Bridge::<E>::registered_state_read, (b, id, raw), step),
        call_ensures(raw_state_to_status, (raw,), new),
    ensures
        step@.next is Done,
        old(b)@.contains_key(id) && old(b)@[id].last_status != new ==> status::turns_to(
            old(b)@,
            final(b)@,
            id,
            new,
            step@.effects,
        ),
        !old(b)@.contains_key(id) || old(b)@[id].last_status == new ==> final(b)@ == old(b)@
            && step@.effects.len() == 0,
{
    status::lemma_turns_to(old(b)@, id, new);
}

/// Statistics, states and addresses are answered to who asked, as they were read.
pub proof fn law_readings_are_answered<E: Endpoints>(
    reply: E::Reply,
    perf: PerfMon,
    stats: SrtStats,
    error: SrtError,
    raw: i32,
    state: SocketStatus,
    name: RawSockAddr,
    addr: Option<SocketAddr>,
    step: Step<E>,
)
    requires
        call_ensures(convert_perfmon_to_stats, (&perf,), stats),
        call_ensures(raw_state_to_status, (raw,), state),
        call_ensures(sockaddr_to_socket_addr, (&name,), addr),
    ensures
        call_ensures(Bridge::<E>::stats_read, (reply, Ok::<PerfMon, SrtError>(perf)), step)
            ==> commands::only_answers(step@, reply, AnswerView::Stats(Ok(stats))),
        call_ensures(Bridge::<E>::stats_read, (reply, Err::<PerfMon, SrtError>(error)), step)
            ==> commands::only_answers(step@, reply, AnswerView::Stats(Err(error))),
        call_ensures(Bridge::<E>::state_read, (reply, raw), step) ==> commands::only_answers(
            step@,
            reply,
            AnswerView::State(state),
        ),
        call_ensures(Bridge::<E>::name_read, (reply, Some(name)), step) ==> commands::only_answers(
            step@,
            reply,
            AnswerView::Addr(addr),
        ),
        call_ensures(Bridge::<E>::name_read, (reply, None::<RawSockAddr>), step)
            ==> commands::only_answers(step@, reply, AnswerView::Addr(None)),
{
}

/// The Stream ID that is answered is the text that libsrt gave, up to the zeros behind it;
/// and empty where libsrt gave none.
pub proof fn law_stream_ids_are_answered<E: Endpoints>(
    reply: E::Reply,
    ret: i32,
    len: i32,
    buf: &[u8],
    step: Step<E>,
)
    requires
        ret >= 0 ==> len <= buf@.len(),
        call_ensures(Bridge::<E>::stream_id_read, (reply, ret, len, buf), step),
    ensures
        step@.next is Done,
        step@.effects.len() == 1,
        step@.effects[0] matches EffectView::Answer {
            reply: to,
            answer: AnswerView::StreamId(found),
        } && to == reply && (ret < 0 || len <= 0 ==> found.len() == 0) && (ret >= 0 && len > 0 ==> {
            let all = text::lossy_text(buf@.take(len as int));
            &&& found.len() <= all.len()
            &&& found == all.take(found.len() as int)
            &&& found.len() > 0 ==> found.last() != '\0'
            &&& forall|i: int| found.len() <= i < all.len() ==> #[trigger] all[i] == '\0'
        }),
{
    if ret >= 0 && len > 0 {
        texts::lemma_without_trailing(text::lossy_text(buf@.take(len as int)), '\0');
    }
}

/// A group that is connected is watched for data and errors and takes that status over; in
/// any case what came of it is answered last.
pub proof fn law_connecting_a_group<E: Endpoints>(
    b: &mut Bridge<E>,
    id: SocketId,
    reply: E::Reply,
    result: Result<(), SrtError>,
    step: Step<E>,
)
    requires
        call_ensures(Bridge::<E>::group_connected, (b, id, reply, result), step),
    ensures
        step@.next is Done,
        step@.effects.len() >= 1,
        step@.effects.last() == (EffectView::<E>::Answer { reply, answer: AnswerView::Done(result) }),
        result is Err ==> final(b)@ == old(b)@ && step@.effects.len() == 1,
        result is Ok ==> step@.effects.len() >= 2 && step@.effects[0] == (
        EffectView::<E>::AddToEpoll { id, events: 0x8000_0009 }) && status::turns_to(
            old(b)@,
            final(b)@,
            id,
            SocketStatus::Connected,
            inner(step@.effects, 1, 1),
        ),
{
    if result is Ok {
        status::lemma_turns_to(old(b)@, id, SocketStatus::Connected);
        assert(inner(step@.effects, 1, 1) =~= epoll_bridge::with_status_effects(
            old(b)@,
            id,
            SocketStatus::Connected,
        ));
    }
}

/// A group without members has an empty list; else as many members are read as there are.
pub proof fn law_members_are_counted<E: Endpoints>(
    id: SocketId,
    reply: E::Reply,
    count: usize,
    step: Step<E>,
)
    requires
        call_ensures(Bridge::<E>::members_counted, (id, reply, count), step),
    ensures
        count == 0 ==> step@.next is Done && step@.effects.len() == 1 && (
        step@.effects[0] matches EffectView::Answer { reply: to, answer: AnswerView::Members(list) }
            && to == reply && list.len() == 0),
        count > 0 ==> commands::only_calls(
            step@,
            CallView::ReadMembers { id, capacity: count, reply },
        ),
{
}

/// Whether an entry says of a member what libsrt says of it, with the statistics given.
pub open spec fn describes(entry: GroupMemberStats, member: RawMember, stats: SrtStats) -> bool {
    &&& entry.id == member.id
    &&& entry.weight == member.weight
    &&& entry.stats == stats
    &&& forall|addr: Option<SocketAddr>| #[trigger]
        call_ensures(sockaddr_to_socket_addr, (&member.peeraddr,), addr) ==> entry.peer_addr == addr
    &&& forall|s: SocketStatus| #[trigger]
        call_ensures(raw_state_to_status, (member.sockstate,), s) ==> entry.socket_status == s
    &&& forall|s: MemberStatus| #[trigger]
        call_ensures(map_member_status, (member.memberstate,), s) ==> entry.member_status == s
}

/// Whether a list of entries goes on from those given with members that are broken, of
/// which no statistics are asked for.
pub open spec fn goes_on(
    list: Seq<GroupMemberStats>,
    given: Seq<GroupMemberStats>,
    members: Seq<RawMember>,
    zero: SrtStats,
) -> bool {
    &&& given.len() <= list.len() <= members.len()
    &&& list.take(given.len() as int) == given
    &&& forall|i: int|
        given.len() <= i < list.len() ==> (#[trigger] members[i]).memberstate == 3 && describes(
            list[i],
            members[i],
            zero,
        )
}

/// Whether a step goes on with the members of a group after some entries: it asks for the
/// statistics of the first member that is not broken, or answers where there is none.
pub open spec fn looks_on<E: Endpoints>(
    step: StepView<E>,
    id: SocketId,
    members: Seq<RawMember>,
    given: Seq<GroupMemberStats>,
    reply: E::Reply,
    zero: SrtStats,
) -> bool {
    match step.next {
        NextView::Call(call) => {
            &&& step.effects.len() == 0
            &&& call matches CallView::ReadMemberStats { id: i, members: all, done, reply: to } && i
                == id && all == members && to == reply && goes_on(done, given, members, zero)
                && done.len() < members.len() && members[done.len() as int].memberstate != 3
        },
        NextView::Done => {
            &&& step.effects.len() == 1
            &&& step.effects[0] matches EffectView::Answer {
                reply: to,
                answer: AnswerView::Members(list),
            } && to == reply && goes_on(list, given, members, zero) && list.len() == members.len()
        },
        NextView::Shutdown => false,
    }
}

proof fn lemma_looks_on<E: Endpoints>(
    id: SocketId,
    members: Seq<RawMember>,
    given: Seq<GroupMemberStats>,
    reply: E::Reply,
    zero: SrtStats,
)
    requires
        given.len() <= members.len(),
        call_ensures(SrtStats::default, (), zero),
    ensures
        looks_on(
            epoll_bridge::results::members_step::<E>(id, members, given, reply),
            id,
            members,
            given,
            reply,
            zero,
        ),
    decreases members.len() - given.len(),
{
    let step = epoll_bridge::results::members_step::<E>(id, members, given, reply);
    assert(given.take(given.len() as int) =~= given);
    if given.len() < members.len() && members[given.len() as int].memberstate == 3 {
        let n = given.len() as int;
        let entry = epoll_bridge::results::member_entry(members[n], stats::zeroed());
        let more = given.push(entry);
        lemma_looks_on::<E>(id, members, more, reply, zero);
        let list = match step.next {
            NextView::Call(call) => call->ReadMemberStats_done,
            _ => step.effects[0]->Answer_answer->Members_0,
        };
        assert(goes_on(list, more, members, zero));
        assert(list.take(n) =~= more.take(n));
        assert(more.take(n) =~= given);
        assert(list[n] == list.take(n + 1)[n]);
        assert(describes(entry, members[n], zero));
    }
}

/// The members of a group that were read are all listed, in their order, with their
/// statistics; of those that are broken the statistics are zero.
pub proof fn law_members_are_read<E: Endpoints>(
    id: SocketId,
    reply: E::Reply,
    ret: i32,
    count: usize,
    members: Vec<RawMember>,
    step: Step<E>,
    zero: SrtStats,
)
    requires
        call_ensures(Bridge::<E>::members_read, (id, reply, ret, count, members), step),
        call_ensures(SrtStats::default, (), zero),
    ensures
        ret < 0 ==> step@.next is Done && step@.effects.len() == 1 && (
        step@.effects[0] matches EffectView::Answer { reply: to, answer: AnswerView::Members(list) }
            && to == reply && list.len() == 0),
        ret >= 0 && count < members@.len() ==> looks_on(
            step@,
            id,
            members@.take(count as int),
            Seq::empty(),
            reply,
            zero,
        ),
        ret >= 0 && count >= members@.len() ==> looks_on(
            step@,
            id,
            members@,
            Seq::empty(),
            reply,
            zero,
        ),
{
    lemma_looks_on::<E>(id, members@, Seq::empty(), reply, zero);
    if count < members@.len() {
        lemma_looks_on::<E>(id, members@.take(count as int), Seq::empty(), reply, zero);
    }
}

/// A member whose statistics were read has an entry with them, or with zeros where they
/// could not be read; and the members after it are gone on with.
pub proof fn law_member_statistics<E: Endpoints>(
    id: SocketId,
    members: Vec<RawMember>,
    done: Vec<GroupMemberStats>,
    reply: E::Reply,
    result: Result<PerfMon, SrtError>,
    step: Step<E>,
    zero: SrtStats,
    stats: SrtStats,
) -> (entry: GroupMemberStats)
    requires
        done@.len() < members@.len(),
        call_ensures(Bridge::<E>::member_stats_read, (id, members, done, reply, result), step),
        call_ensures(SrtStats::default, (), zero),
        result is Ok ==> call_ensures(convert_perfmon_to_stats, (&result->Ok_0,), stats),
        result is Err ==> stats == zero,
    ensures
        describes(entry, members@[done@.len() as int], stats),
        looks_on(step@, id, members@, done@.push(entry), reply, zero),
{
    let entry = epoll_bridge::results::member_entry(members@[done@.len() as int], stats);
    lemma_looks_on::<E>(id, members@, done@.push(entry), reply, zero);
    entry
}

} // verus!
