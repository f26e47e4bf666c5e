//! What the passing of time does to a tunnel, told by what is there before and after.
//!
//! Times are in nanoseconds. `now` is the later of the clock and the time that it was.

use vstd::prelude::*;

use crate::noise::handshake::HandshakeStatus;
use crate::noise::model::{StepModel, TunnModel};
use crate::noise::session::Session;
use crate::noise::timer_laws::{same_settings, same_timeouts};
use crate::noise::timers::{TimerName, TimersModel};
use crate::noise::tunn_laws::{same_counts, same_keys};
use crate::packet::PacketModel;

verus! {

/// How long ago a timer ticked once it is `now`.
pub open spec fn age<K>(tunn: TunnModel<K>, name: TimerName, now: nat) -> int {
    now - tunn.timers.at(name)
}

/// The error comes exactly where the connection was given up before, where no keys were exchanged
/// for 540 seconds, or where an attempt is 90 seconds old and has no response.
pub proof fn law_update_gives_up<K>(tunn: TunnModel<K>, elapsed: nat, since_init_sent: nat)
    requires
        tunn.wf(),
    ensures
        ({
            let now = tunn.timers.now(elapsed);
            let state = tunn.handshake.status.state;
            tunn.update_timers(elapsed, since_init_sent).1 is Err <==> {
                ||| state is Expired
                ||| age(tunn, TimerName::TimeSessionEstablished, now) >= 540 * 1_000_000_000
                ||| state is InitSent && age(tunn, TimerName::TimeLastHandshakeStarted, now) >= 90
                    * 1_000_000_000
            }
        }),
{
}

/// Giving up drops the sessions and the queue and clears the timers. Keys and counters stay.
pub proof fn law_giving_up_drops_all<K>(
    tunn: TunnModel<K>,
    elapsed: nat,
    since_init_sent: nat,
    name: TimerName,
    slot: int,
)
    requires
        tunn.wf(),
        tunn.update_timers(elapsed, since_init_sent).1 is Err,
        !(tunn.handshake.status.state is Expired),
        !(name is Top),
        0 <= slot < 8,
    ensures
        ({
            let (next, outcome) = tunn.update_timers(elapsed, since_init_sent);
            let (t, n) = (tunn.timers, next.timers);
            &&& outcome->Err_0 is ConnectionExpired
            &&& next.handshake.status.state is Expired
            &&& next.handshake.status.has_cookie == (tunn.handshake.status.has_cookie && age(
                tunn,
                TimerName::TimeCookieReceived,
                t.now(elapsed),
            ) < 120 * 1_000_000_000)
            &&& next.handshake.status.last_rtt == tunn.handshake.status.last_rtt
            &&& same_keys(next.handshake, tunn.handshake)
            &&& next.sessions.len() == 8
            &&& next.sessions[slot] is None
            &&& next.queue.len() == 0
            &&& n.at(name) == t.now(elapsed)
            &&& n.want_keepalive is None
            &&& n.want_handshake is None
            &&& n.persistent_keepalive_due == (t.persistent_keepalive is Some)
            &&& n.keepalive_timeout == t.params.keepalive_timeout.start
            &&& n.new_handshake_timeout == t.params.new_handshake_timeout.start
            &&& n.rekey_timeout == t.params.rekey_timeout.start
            &&& n.rekey_after_time == t.params.rekey_after_time.end
            &&& n.session_times[slot] == (if t.now(elapsed) - t.session_times[slot] <= 180
                * 1_000_000_000 {
                t.session_times[slot]
            } else {
                t.now(elapsed)
            })
            &&& n.is_initiator == t.is_initiator
            &&& same_settings(n, t)
            &&& next.current == tunn.current
            &&& next.session_counter == tunn.session_counter
            &&& same_counts(next, tunn)
        }),
{
}

/// A connection that was given up before stays as it is, but that the clock moves and old sessions
/// are dropped.
pub proof fn law_given_up_stays<K>(
    tunn: TunnModel<K>,
    elapsed: nat,
    since_init_sent: nat,
    name: TimerName,
    slot: int,
)
    requires
        tunn.wf(),
        tunn.handshake.status.state is Expired,
        !(name is Top),
        0 <= slot < 8,
    ensures
        ({
            let (next, outcome) = tunn.update_timers(elapsed, since_init_sent);
            let now = tunn.timers.now(elapsed);
            let (t, n) = (tunn.timers, next.timers);
            &&& outcome is Err && outcome->Err_0 is ConnectionExpired
            &&& next.handshake == tunn.handshake
            &&& next.sessions[slot] == (if now - t.session_times[slot] <= 180 * 1_000_000_000 {
                tunn.sessions[slot]
            } else {
                None
            })
            &&& n.current() == now
            &&& !(name is TimeCurrent) ==> n.at(name) == t.at(name)
            &&& n.session_times[slot] == (if now - t.session_times[slot] <= 180 * 1_000_000_000 {
                t.session_times[slot]
            } else {
                now
            })
            &&& n == (TimersModel { times: n.times, session_times: n.session_times, ..t })
            &&& next.queue == tunn.queue
            &&& next.current == tunn.current
            &&& next.session_counter == tunn.session_counter
            &&& same_counts(next, tunn)
        }),
{
}

/// While the connection is not given up, every session that is at most 180 seconds old stays in its
/// slot, whatever other sessions there are, and every older one goes.
pub proof fn law_update_keeps_young_sessions<K>(
    tunn: TunnModel<K>,
    elapsed: nat,
    since_init_sent: nat,
    slot: int,
)
    requires
        tunn.wf(),
        tunn.update_timers(elapsed, since_init_sent).1 is Ok,
        0 <= slot < 8,
    ensures
        ({
            let next = tunn.update_timers(elapsed, since_init_sent).0;
            let now = tunn.timers.now(elapsed);
            let old = now - tunn.timers.session_times[slot] > 180 * 1_000_000_000;
            &&& next.sessions.len() == 8
            &&& !old ==> next.sessions[slot] == tunn.sessions[slot]
            &&& old ==> next.sessions[slot] is None
            &&& next.timers.session_times[slot] == (if old {
                now
            } else {
                tunn.timers.session_times[slot]
            })
            &&& next.current == tunn.current
            &&& next.session_counter == tunn.session_counter
        }),
{
}

/// What else an update leaves alone while the connection is not given up: keys, counters, settings,
/// timeouts, and all timers but the clock and the persistent keepalive. A cookie goes when it is
/// 120 seconds old.
pub proof fn law_update_leaves_the_rest<K>(
    tunn: TunnModel<K>,
    elapsed: nat,
    since_init_sent: nat,
    name: TimerName,
)
    requires
        tunn.wf(),
        tunn.update_timers(elapsed, since_init_sent).1 is Ok,
        !(name is Top),
    ensures
        ({
            let next = tunn.update_timers(elapsed, since_init_sent).0;
            let now = tunn.timers.now(elapsed);
            let (t, n) = (tunn.timers, next.timers);
            &&& n.current() == now
            &&& !(name is TimeCurrent) && !(name is TimePersistentKeepalive) ==> n.at(name)
                == t.at(name)
            &&& n.is_initiator == t.is_initiator
            &&& same_settings(n, t)
            &&& same_timeouts(n, t)
            &&& same_keys(next.handshake, tunn.handshake)
            &&& next.handshake.status.state == tunn.handshake.status.state
            &&& next.handshake.status.last_rtt == tunn.handshake.status.last_rtt
            &&& next.handshake.status.has_cookie == (tunn.handshake.status.has_cookie && age(
                tunn,
                TimerName::TimeCookieReceived,
                now,
            ) < 120 * 1_000_000_000)
            &&& same_counts(next, tunn)
        }),
{
}

/// While an initiation awaits its response, it is sent again once its timeout is over, and nothing
/// else is done.
pub proof fn law_update_retries<K>(tunn: TunnModel<K>, elapsed: nat, since_init_sent: nat)
    requires
        tunn.wf(),
        tunn.update_timers(elapsed, since_init_sent).1 is Ok,
        tunn.handshake.status.state is InitSent,
    ensures
        ({
            let (next, outcome) = tunn.update_timers(elapsed, since_init_sent);
            let (t, n) = (tunn.timers, next.timers);
            &&& since_init_sent >= t.rekey_timeout ==> outcome->Ok_0 == Some(StepModel::Initiate)
            &&& since_init_sent < t.rekey_timeout ==> outcome->Ok_0 is None
            &&& n.want_keepalive == t.want_keepalive
            &&& n.want_handshake == t.want_handshake
            &&& n.persistent_keepalive_due == t.persistent_keepalive_due
            &&& n.at(TimerName::TimePersistentKeepalive) == t.at(
                TimerName::TimePersistentKeepalive,
            )
            &&& next.queue == tunn.queue
        }),
{
}

/// Whether our session is to be replaced once it is `now`: we initiated it, and it has the age
/// drawn for that and data was sent on it, or it is 165 seconds old and data was received on it.
pub open spec fn is_to_be_replaced<K>(tunn: TunnModel<K>, now: nat) -> bool {
    let established = tunn.timers.at(TimerName::TimeSessionEstablished);
    &&& tunn.timers.is_initiator
    &&& {
        ||| now - established >= tunn.timers.rekey_after_time && tunn.timers.at(
            TimerName::TimeLastDataPacketSent,
        ) > established
        ||| now - established >= 165 * 1_000_000_000 && tunn.timers.at(
            TimerName::TimeLastDataPacketReceived,
        ) > established
    }
}

/// Whether the peer has been silent for too long once it is `now`.
pub open spec fn has_been_silent<K>(tunn: TunnModel<K>, now: nat) -> bool {
    tunn.timers.want_handshake is Some && now - tunn.timers.want_handshake->0
        >= tunn.timers.new_handshake_timeout
}

/// Whether the peer has waited for too long once it is `now`.
pub open spec fn has_kept_waiting<K>(tunn: TunnModel<K>, now: nat) -> bool {
    tunn.timers.want_keepalive is Some && now - tunn.timers.want_keepalive->0
        >= tunn.timers.keepalive_timeout
}

/// Whether a persistent keepalive is due once it is `now`.
pub open spec fn is_to_be_kept_alive<K>(tunn: TunnModel<K>, now: nat) -> bool {
    &&& tunn.timers.persistent_keepalive is Some
    &&& tunn.timers.persistent_keepalive_due || now - tunn.timers.at(
        TimerName::TimePersistentKeepalive,
    ) >= tunn.timers.persistent_keepalive->0
}

/// A handshake that is not under way is started where our session is to be replaced or the peer has
/// been silent for too long. The wait for it ends then, and no keepalive is sent.
pub proof fn law_update_starts_handshake<K>(tunn: TunnModel<K>, elapsed: nat, since_init_sent: nat)
    requires
        tunn.wf(),
        tunn.update_timers(elapsed, since_init_sent).1 is Ok,
        tunn.handshake.status.state is Idle,
        is_to_be_replaced(tunn, tunn.timers.now(elapsed)) || has_been_silent(
            tunn,
            tunn.timers.now(elapsed),
        ),
    ensures
        ({
            let (next, outcome) = tunn.update_timers(elapsed, since_init_sent);
            let (t, n) = (tunn.timers, next.timers);
            &&& outcome->Ok_0 == Some(StepModel::Initiate)
            &&& n.want_handshake == (if has_been_silent(tunn, t.now(elapsed)) {
                None
            } else {
                t.want_handshake
            })
            &&& n.want_keepalive == t.want_keepalive
            &&& n.persistent_keepalive_due == t.persistent_keepalive_due
            &&& n.at(TimerName::TimePersistentKeepalive) == t.at(
                TimerName::TimePersistentKeepalive,
            )
            &&& next.queue == tunn.queue
        }),
{
}

/// Where no handshake is to be started, an empty packet is sent if the peer has waited for too long
/// or a persistent keepalive is due, and else nothing. Without a session the empty packet waits and
/// a handshake is started.
pub proof fn law_update_sends_keepalive<K>(tunn: TunnModel<K>, elapsed: nat, since_init_sent: nat)
    requires
        tunn.wf(),
        tunn.update_timers(elapsed, since_init_sent).1 is Ok,
        tunn.handshake.status.state is Idle,
        !is_to_be_replaced(tunn, tunn.timers.now(elapsed)),
        !has_been_silent(tunn, tunn.timers.now(elapsed)),
    ensures
        ({
            let (next, outcome) = tunn.update_timers(elapsed, since_init_sent);
            let now = tunn.timers.now(elapsed);
            let (t, n) = (tunn.timers, next.timers);
            let empty = PacketModel { bytes: Seq::empty(), pool: None };
            let due = has_kept_waiting(tunn, now) || is_to_be_kept_alive(tunn, now);
            let ready = next.sessions[tunn.current] is Some;
            &&& !due ==> outcome->Ok_0 is None && next.queue == tunn.queue
            &&& due && ready ==> outcome->Ok_0 == Some(
                StepModel::Seal { slot: tunn.current, packet: empty },
            ) && next.queue == tunn.queue
            &&& due && !ready ==> outcome->Ok_0 == Some(StepModel::Initiate)
            &&& due && !ready && tunn.queue.len() < 256 ==> next.queue == tunn.queue + seq![empty]
            &&& due && !ready && tunn.queue.len() >= 256 ==> next.queue == tunn.queue
            &&& n.want_keepalive == (if has_kept_waiting(tunn, now) {
                None
            } else {
                t.want_keepalive
            })
            &&& n.want_handshake == t.want_handshake
            &&& n.persistent_keepalive_due == (t.persistent_keepalive_due && !is_to_be_kept_alive(
                tunn,
                now,
            ))
            &&& n.at(TimerName::TimePersistentKeepalive) == (if is_to_be_kept_alive(tunn, now) {
                now
            } else {
                t.at(TimerName::TimePersistentKeepalive)
            })
        }),
{
    let empty = PacketModel { bytes: Seq::<u8>::empty(), pool: None };
    assert(tunn.queue.push(empty) == tunn.queue + seq![empty]);
}

/// An attempt lasts 90 seconds from its first initiation: no update before that gives it up, and
/// the first one after does. A session in its slot is kept all the while it is young enough.
pub proof fn law_attempt_lasts<K>(
    tunn: TunnModel<K>,
    elapsed: nat,
    sample: nat,
    later: nat,
    since_init_sent: nat,
    slot: int,
)
    requires
        tunn.wf(),
        !(tunn.handshake.status.state is InitSent),
        0 <= slot < 8,
    ensures
        ({
            let sent = tunn.initiated(elapsed, sample);
            let (next, outcome) = sent.update_timers(later, since_init_sent);
            let start = sent.timers.current();
            let now = sent.timers.now(later);
            let alive = now - sent.timers.at(TimerName::TimeSessionEstablished) < 540
                * 1_000_000_000;
            &&& sent.timers.at(TimerName::TimeLastHandshakeStarted) == start
            &&& alive && now - start < 90 * 1_000_000_000 ==> outcome is Ok
            &&& alive && now - start < 90 * 1_000_000_000 && since_init_sent < sample
                ==> outcome->Ok_0 is None
            &&& now - start >= 90 * 1_000_000_000 ==> outcome is Err
            &&& outcome is Ok && now - tunn.timers.session_times[slot] <= 180 * 1_000_000_000
                ==> next.sessions[slot] == tunn.sessions[slot]
        }),
{
}

/// However often an initiation is sent again, the attempt ends 90 seconds after the first.
pub proof fn law_attempt_ends<K>(
    tunn: TunnModel<K>,
    elapsed: nat,
    sample: nat,
    again: nat,
    resample: nat,
    later: nat,
    since_init_sent: nat,
)
    requires
        tunn.wf(),
        !(tunn.handshake.status.state is InitSent),
    ensures
        ({
            let sent = tunn.initiated(elapsed, sample);
            let waited = sent.update_timers(again, sample).0;
            let resent = waited.initiated(again, resample);
            waited.handshake.status.state is InitSent && resent.timers.now(later)
                - sent.timers.current() >= 90 * 1_000_000_000 ==> resent.update_timers(
                later,
                since_init_sent,
            ).1 is Err
        }),
{
}

/// A connection lasts 540 seconds from the last handshake, in either role: no update before that
/// gives it up while no attempt is under way, and the first one after does.
pub proof fn law_connection_lasts<K>(
    tunn: TunnModel<K>,
    status: HandshakeStatus,
    session: Session<K>,
    message: Seq<u8>,
    sample: nat,
    later: nat,
    since_init_sent: nat,
)
    requires
        tunn.wf(),
        tunn.handshake.status.state is Idle,
        status.state is Idle,
    ensures
        ({
            let answered = tunn.init_answered(status, session, sample);
            let confirmed = tunn.response_confirmed(session, message, sample);
            let over = tunn.timers.now(later) - tunn.timers.current() >= 540 * 1_000_000_000;
            &&& answered.timers.at(TimerName::TimeSessionEstablished) == tunn.timers.current()
            &&& confirmed.timers.at(TimerName::TimeSessionEstablished) == tunn.timers.current()
            &&& answered.update_timers(later, since_init_sent).1 is Err <==> over
            &&& confirmed.update_timers(later, since_init_sent).1 is Err <==> over
        }),
{
}

/// While keys are replaced both sessions are there: the new one does not put out the old one, in
/// either role, until that is 180 seconds old.
pub proof fn law_key_transition<K>(
    tunn: TunnModel<K>,
    status: HandshakeStatus,
    session: Session<K>,
    message: Seq<u8>,
    sample: nat,
    later: nat,
    since_init_sent: nat,
    slot: int,
)
    requires
        tunn.wf(),
        0 <= slot < 8,
        slot != tunn.session_counter % 8,
        tunn.timers.now(later) - tunn.timers.session_times[slot] <= 180 * 1_000_000_000,
    ensures
        ({
            let answered = tunn.init_answered(status, session, sample).update_timers(
                later,
                since_init_sent,
            );
            let confirmed = tunn.response_confirmed(session, message, sample).update_timers(
                later,
                since_init_sent,
            );
            let new_slot = tunn.session_counter % 8;
            let young = tunn.timers.now(later) - tunn.timers.current() <= 180 * 1_000_000_000;
            &&& answered.1 is Ok ==> answered.0.sessions[slot] == tunn.sessions[slot]
            &&& confirmed.1 is Ok ==> confirmed.0.sessions[slot] == tunn.sessions[slot]
            &&& answered.1 is Ok && young ==> answered.0.sessions[new_slot] == Some(session)
            &&& confirmed.1 is Ok && young ==> confirmed.0.sessions[new_slot] == Some(session)
        }),
{
}

/// Two updates at one time do no more than one, but for what the first asked to be sent.
pub proof fn law_second_update_changes_nothing<K>(
    tunn: TunnModel<K>,
    elapsed: nat,
    since_init_sent: nat,
)
    requires
        tunn.wf(),
        tunn.update_timers(elapsed, since_init_sent).1 is Ok,
        tunn.update_timers(elapsed, since_init_sent).1->Ok_0 is None,
    ensures
        ({
            let first = tunn.update_timers(elapsed, since_init_sent);
            first.0.update_timers(elapsed, since_init_sent) == first
        }),
{
    let first = tunn.update_timers(elapsed, since_init_sent).0;
    let second = first.update_timers(elapsed, since_init_sent).0;
    assert(second.timers.times == first.timers.times);
    assert(second.timers.session_times == first.timers.session_times);
    assert(second.sessions == first.sessions);
    assert(second == first);
}

} // verus!
