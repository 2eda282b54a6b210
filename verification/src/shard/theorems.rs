//! What holds of every shard, whatever the gateway sends.

use vstd::prelude::*;

use crate::errors::Fault;
use crate::shard::error::{GatewayErrorView, INVALID_AUTH};
use crate::shard::types::{GatewayEvent, ReconnectType, ShardAction, Stage};
use crate::shard::{advanced, ShardView};

verus! {

/// The session after each of `events` has been handled in its turn, each at
/// the instant that stands beside it.
pub open spec fn replay(shard: ShardView, events: Seq<(GatewayEvent, u64)>) -> ShardView
    decreases events.len(),
{
    if events.len() == 0 {
        shard
    } else {
        replay(shard, events.drop_last()).handle_event(Ok(events.last().0), events.last().1).0
    }
}

/// Whether `events` is a Hello, then any number of dispatches, then the answer
/// to a heartbeat.
pub open spec fn is_handshake(events: Seq<(GatewayEvent, u64)>) -> bool {
    &&& events.len() >= 2
    &&& events[0].0 is Hello
    &&& events.last().0 is HeartbeatAck
    &&& forall|k: int| 0 < k < events.len() - 1 ==> (#[trigger] events[k]).0 is Dispatch
}

/// No event, and no failure to receive one, moves a session back: its stage
/// stays or advances, a connected session stays connected or ends, and a
/// session that has ended stays so.
pub proof fn theorem_stage_never_regresses(
    shard: ShardView,
    incoming: Result<GatewayEvent, Fault>,
    now: u64,
)
    ensures
        shard.stage.progress() <= shard.handle_event(incoming, now).0.stage.progress(),
        shard.stage == Stage::Connected ==> shard.handle_event(incoming, now).0.stage
            == Stage::Connected || shard.handle_event(incoming, now).0.stage
            == Stage::Disconnected,
        shard.stage == Stage::Disconnected ==> shard.handle_event(incoming, now).0.stage
            == Stage::Disconnected,
{
}

/// Neither the check of the heartbeat, nor a heartbeat, nor a shutdown moves
/// a session to any stage but `Disconnected`; and once a session has ended,
/// identifying does not revive it.
pub proof fn theorem_only_events_advance(shard: ShardView, tag: Option<Seq<char>>, now: u64)
    ensures
        shard.check_heartbeat(now).0.stage == shard.stage || shard.check_heartbeat(now).0.stage
            == Stage::Disconnected,
        shard.heartbeat(tag, now).0.stage == shard.stage || shard.heartbeat(tag, now).0.stage
            == Stage::Disconnected,
        shard.disconnect().stage == Stage::Disconnected,
        shard.stage == Stage::Disconnected ==> shard.identify().0.stage == Stage::Disconnected,
{
}

proof fn lemma_handshake_prefix(shard: ShardView, events: Seq<(GatewayEvent, u64)>, k: int)
    requires
        shard.stage.awaits_hello(),
        is_handshake(events),
        1 <= k <= events.len(),
    ensures
        replay(shard, events.take(k)).stage == if k == 1 {
            Stage::Identifying
        } else {
            Stage::Connected
        },
    decreases k,
{
    let prefix = events.take(k);
    assert(prefix.drop_last() =~= events.take(k - 1));
    assert(prefix.last() == events[k - 1]);
    if k == 1 {
        assert(replay(shard, events.take(0)) == shard);
    } else {
        lemma_handshake_prefix(shard, events, k - 1);
        if k < events.len() {
            assert(events[k - 1].0 is Dispatch);
        } else {
            assert(events[k - 1] == events.last());
        }
    }
}

/// A session that waits for the Hello and is sent a Hello, then any number of
/// dispatches, then the answer to a heartbeat, is `Identifying` after the
/// Hello and `Connected` after every event that follows: it moves from
/// `Connecting` through `Identifying` to `Connected` and never back.
pub proof fn theorem_handshake_connects(shard: ShardView, events: Seq<(GatewayEvent, u64)>)
    requires
        shard.stage.awaits_hello(),
        is_handshake(events),
    ensures
        replay(shard, events.take(1)).stage == Stage::Identifying,
        forall|k: int|
            2 <= k <= events.len() ==> (#[trigger] replay(shard, events.take(k))).stage
                == Stage::Connected,
        replay(shard, events).stage == Stage::Connected,
        forall|j: int, k: int|
            0 <= j <= k <= events.len() ==> (#[trigger] replay(
                shard,
                events.take(j),
            )).stage.progress() <= (#[trigger] replay(shard, events.take(k))).stage.progress(),
{
    lemma_handshake_prefix(shard, events, 1);
    assert forall|k: int| 2 <= k <= events.len() implies (#[trigger] replay(
        shard,
        events.take(k),
    )).stage == Stage::Connected by {
        lemma_handshake_prefix(shard, events, k);
    }
    assert(events.take(events.len() as int) =~= events);
    assert forall|j: int, k: int| 0 <= j <= k <= events.len() implies (#[trigger] replay(
        shard,
        events.take(j),
    )).stage.progress() <= (#[trigger] replay(shard, events.take(k))).stage.progress() by {
        if j == 0 {
            assert(replay(shard, events.take(0)) == shard);
        } else {
            lemma_handshake_prefix(shard, events, j);
        }
        if k == 0 {
            assert(replay(shard, events.take(0)) == shard);
        } else {
            lemma_handshake_prefix(shard, events, k);
        }
    }
}

/// When a heartbeat is due and the last one has not been answered, the check
/// fails and the session ends.
pub proof fn theorem_missed_answer_fails_check(shard: ShardView, now: u64)
    requires
        shard.beat_due(now),
        !shard.last_heartbeat_acknowledged,
    ensures
        shard.check_heartbeat(now) == (shard.disconnect(), false),
{
}

/// A heartbeat that went out at `sent_at` and has found no answer makes every
/// check fail that comes more than one interval later.
pub proof fn theorem_unanswered_heartbeat_is_noticed(
    shard: ShardView,
    tag: Option<Seq<char>>,
    sent_at: u64,
    now: u64,
)
    requires
        shard.heartbeat(tag, sent_at).1 is Ok,
        shard.heartbeat_interval matches Some(interval) && now - sent_at > interval,
    ensures
        shard.heartbeat(tag, sent_at).0.check_heartbeat(now).1 == false,
{
}

/// While a heartbeat waits for its answer, a second one is not sent: the
/// attempt ends the session.
pub proof fn theorem_heartbeats_alternate(
    shard: ShardView,
    tag: Option<Seq<char>>,
    again: Option<Seq<char>>,
    sent_at: u64,
    now: u64,
)
    requires
        shard.heartbeat(tag, sent_at).1 is Ok,
    ensures
        shard.heartbeat(tag, sent_at).0.heartbeat(again, now).1 == Err::<(), Fault>(
            Fault::Gateway(GatewayErrorView::HeartbeatFailed),
        ),
        shard.heartbeat(tag, sent_at).0.heartbeat(again, now).0.stage == Stage::Disconnected,
        shard.heartbeat(tag, sent_at).0.heartbeat(again, now).0.client.outbound
            == shard.heartbeat(tag, sent_at).0.client.outbound,
{
}

/// Before the Hello no heartbeat is sent and no credentials.
pub proof fn theorem_nothing_sent_before_hello(shard: ShardView, tag: Option<Seq<char>>, now: u64)
    requires
        shard.heartbeat_interval is None,
    ensures
        shard.heartbeat(tag, now) == (
            shard,
            Err::<(), Fault>(Fault::Gateway(GatewayErrorView::ExpectedHello)),
        ),
        shard.identify() == (
            shard,
            Err::<(), Fault>(Fault::Gateway(GatewayErrorView::ExpectedHello)),
        ),
        shard.check_heartbeat(now) == (shard, true),
{
}

/// `InvalidSession` and `Reconnect` always call for `Reconnect(Reidentify)`
/// and end the session, whatever its state.
pub proof fn theorem_reconnect_events_reidentify(shard: ShardView, now: u64)
    ensures
        shard.handle_event(Ok(GatewayEvent::InvalidSession), now) == (
            shard.disconnect(),
            Ok::<Option<ShardAction>, Fault>(
                Some(ShardAction::Reconnect(ReconnectType::Reidentify)),
            ),
        ),
        shard.handle_event(Ok(GatewayEvent::Reconnect), now) == (
            shard.disconnect(),
            Ok::<Option<ShardAction>, Fault>(
                Some(ShardAction::Reconnect(ReconnectType::Reidentify)),
            ),
        ),
{
}

/// A close frame with the code `INVALID_AUTH` is the rejection of the
/// credentials, and no other input is: the shard reports
/// `InvalidAuthentication` for it alone, calls for no reconnect, and leaves
/// the session as it is.
pub proof fn theorem_rejection_is_told_apart(
    shard: ShardView,
    incoming: Result<GatewayEvent, Fault>,
    now: u64,
)
    ensures
        shard.handle_event(incoming, now).1 == Err::<Option<ShardAction>, Fault>(
            Fault::Gateway(GatewayErrorView::InvalidAuthentication),
        ) <==> (incoming matches Err(Fault::Gateway(GatewayErrorView::Closed(Some(frame))))
            && frame.code == INVALID_AUTH) || incoming == Err::<GatewayEvent, Fault>(
            Fault::Gateway(GatewayErrorView::InvalidAuthentication),
        ),
        shard.handle_event(incoming, now).1 is Err ==> shard.handle_event(incoming, now).0
            == shard,
{
}

/// After the Hello a dispatch is never an error, whatever its number: the
/// recorded number becomes the greater of the two and so never falls.
pub proof fn theorem_dispatch_records_sequence(
    shard: ShardView,
    sequence: u64,
    payload: serde_json::Value,
    now: u64,
)
    requires
        !shard.stage.awaits_hello(),
    ensures
        shard.handle_event(Ok(GatewayEvent::Dispatch { sequence, payload }), now).1 == Ok::<
            Option<ShardAction>,
            Fault,
        >(None),
        shard.handle_event(Ok(GatewayEvent::Dispatch { sequence, payload }), now).0.seq == Some(
            advanced(shard.seq, sequence),
        ),
        advanced(shard.seq, sequence) >= sequence,
        shard.seq matches Some(recorded) ==> advanced(shard.seq, sequence) >= recorded,
{
}

/// Of two dispatches in a row, the second with the greater number, the second
/// number is the one recorded, however far the two are apart.
pub proof fn theorem_later_dispatch_is_recorded(
    shard: ShardView,
    first: (u64, serde_json::Value, u64),
    second: (u64, serde_json::Value, u64),
)
    requires
        !shard.stage.awaits_hello(),
        shard.seq matches Some(recorded) ==> recorded <= second.0,
        first.0 <= second.0,
    ensures
        ({
            let after_first = shard.handle_event(
                Ok(GatewayEvent::Dispatch { sequence: first.0, payload: first.1 }),
                first.2,
            );
            let after_second = after_first.0.handle_event(
                Ok(GatewayEvent::Dispatch { sequence: second.0, payload: second.1 }),
                second.2,
            );
            &&& after_first.1 is Ok
            &&& after_second.1 is Ok
            &&& after_second.0.seq == Some(second.0)
        }),
{
}

/// The answer to a heartbeat clears the outstanding beat and measures the
/// latency from the beat to the answer.
pub proof fn theorem_answer_measures_latency(shard: ShardView, sent_at: u64, now: u64)
    requires
        !shard.stage.awaits_hello(),
        shard.last_heartbeat_sent == Some(sent_at),
        sent_at <= now,
    ensures
        shard.handle_event(Ok(GatewayEvent::HeartbeatAck), now).1 == Ok::<
            Option<ShardAction>,
            Fault,
        >(Some(ShardAction::Update)),
        shard.handle_event(Ok(GatewayEvent::HeartbeatAck), now).0.latency == Some(
            (now - sent_at) as u64,
        ),
        shard.handle_event(Ok(GatewayEvent::HeartbeatAck), now).0.last_heartbeat_acknowledged,
{
}

} // verus!
