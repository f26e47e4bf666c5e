//! What the timers do, told by what they show before and after.
//!
//! Every law speaks of all timers, by name, and of all that the timers remember, so that what is
//! not said to change is said to stay.

use vstd::prelude::*;

use crate::noise::timers::{
    default_params, keepalive_interval, millis, new_timers, range_model, secs, valid_interval,
    ParamsModel, TimeoutRange, TimerName, TimerParams, Timeout, TimersModel,
    COOKIE_EXPIRATION_TIME, KEEPALIVE_TIMEOUT, MAX_JITTER, N_TIMERS, REJECT_AFTER_TIME,
    REKEY_AFTER_TIME, REKEY_ATTEMPT_TIME, REKEY_TIMEOUT,
};
use crate::noise::{MAX_QUEUE_DEPTH, N_SESSIONS};

verus! {

/// Times are counted in nanoseconds.
pub proof fn law_units(n: int)
    requires
        n >= 0,
    ensures
        secs(n) == n * 1_000_000_000,
        millis(n) == n * 1_000_000,
{
}

/// The constants of the protocol.
pub proof fn law_protocol_times()
    ensures
        REKEY_AFTER_TIME == 120,
        REJECT_AFTER_TIME == 180,
        REKEY_ATTEMPT_TIME == 90,
        REKEY_TIMEOUT == 5,
        KEEPALIVE_TIMEOUT == 10,
        COOKIE_EXPIRATION_TIME == 120,
        MAX_JITTER == 333,
        N_TIMERS == 9,
        N_SESSIONS == 8,
        MAX_QUEUE_DEPTH == 256,
{
}

/// Every timer has a place of its own.
pub proof fn law_timers_are_apart(a: TimerName, b: TimerName)
    ensures
        a.position() == b.position() <==> a == b,
        0 <= a.position() <= 9,
        a.position() == 9 <==> a is Top,
        a.position() == 0 <==> a is TimeCurrent,
{
}

/// What timers show is what was last written to their place, and the time is the later of what it
/// was and what the clock says.
pub proof fn law_timers_show(t: TimersModel, name: TimerName, elapsed: nat)
    ensures
        t.at(name) == t.times[name.position()],
        t.current() == t.at(TimerName::TimeCurrent),
        t.since(name) == t.times[0] - t.times[name.position()],
        t.now(elapsed) >= elapsed,
        t.now(elapsed) >= t.times[0],
        t.now(elapsed) == elapsed || t.now(elapsed) == t.times[0],
{
}

/// In valid timers nothing lies in the future.
pub proof fn law_nothing_lies_in_the_future(t: TimersModel, name: TimerName, slot: int)
    requires
        t.wf(),
        !(name is Top),
        0 <= slot < 8,
    ensures
        t.times.len() == 9,
        t.session_times.len() == 8,
        t.at(name) <= t.current(),
        t.session_times[slot] <= t.current(),
        t.want_keepalive matches Some(since) ==> since <= t.current(),
        t.want_handshake matches Some(since) ==> since <= t.current(),
{
}

/// The settings that only settings change.
pub open spec fn same_settings(a: TimersModel, b: TimersModel) -> bool {
    &&& a.params == b.params
    &&& a.persistent_keepalive == b.persistent_keepalive
}

/// The timeouts that are drawn.
pub open spec fn same_timeouts(a: TimersModel, b: TimersModel) -> bool {
    &&& a.keepalive_timeout == b.keepalive_timeout
    &&& a.new_handshake_timeout == b.new_handshake_timeout
    &&& a.rekey_timeout == b.rekey_timeout
    &&& a.rekey_after_time == b.rekey_after_time
}

/// A timer that ticks shows the current time. A packet either way restarts the persistent
/// keepalive, and no other timer moves.
pub proof fn law_tick_moves_timers(t: TimersModel, ticked: TimerName, name: TimerName, sample: nat)
    requires
        t.wf(),
        !(ticked is Top),
        !(name is Top),
    ensures
        ({
            let next = t.tick(ticked, sample);
            let packet = ticked is TimeLastPacketReceived || ticked is TimeLastPacketSent;
            &&& name == ticked ==> next.at(name) == t.current()
            &&& name is TimePersistentKeepalive && packet ==> next.at(name) == t.current()
            &&& name != ticked && !(name is TimePersistentKeepalive && packet) ==> next.at(name)
                == t.at(name)
            &&& next.current() == t.current()
            &&& next.session_times == t.session_times
            &&& next.wf()
        }),
{
}

/// What a tick arms and disarms: a packet that is sent answers the peer, one that is received is an
/// answer, and data that comes or goes waits for one from then on, unless some does already.
pub proof fn law_tick_arms(t: TimersModel, ticked: TimerName, sample: nat)
    requires
        t.wf(),
        !(ticked is Top),
    ensures
        ({
            let next = t.tick(ticked, sample);
            let first_in = ticked is TimeLastDataPacketReceived && t.want_keepalive is None;
            let first_out = ticked is TimeLastDataPacketSent && t.want_handshake is None;
            &&& ticked is TimeLastPacketSent ==> next.want_keepalive is None
            &&& first_in ==> next.want_keepalive == Some(t.current()) && next.keepalive_timeout
                == sample
            &&& !(ticked is TimeLastPacketSent) && !first_in ==> next.want_keepalive
                == t.want_keepalive
            &&& !first_in ==> next.keepalive_timeout == t.keepalive_timeout
            &&& ticked is TimeLastPacketReceived ==> next.want_handshake is None
            &&& first_out ==> next.want_handshake == Some(t.current())
                && next.new_handshake_timeout == sample
            &&& !(ticked is TimeLastPacketReceived) && !first_out ==> next.want_handshake
                == t.want_handshake
            &&& !first_out ==> next.new_handshake_timeout == t.new_handshake_timeout
            &&& next.persistent_keepalive_due == (t.persistent_keepalive_due && !(
            ticked is TimeLastPacketReceived) && !(ticked is TimeLastPacketSent))
            &&& next.rekey_timeout == t.rekey_timeout
            &&& next.rekey_after_time == t.rekey_after_time
            &&& next.is_initiator == t.is_initiator
            &&& same_settings(next, t)
        }),
{
}

/// Only the first data packet either way draws a timeout.
pub proof fn law_tick_draws(t: TimersModel, ticked: TimerName)
    ensures
        t.draws(ticked) == Some(Timeout::Keepalive) <==> ticked is TimeLastDataPacketReceived
            && t.want_keepalive is None,
        t.draws(ticked) == Some(Timeout::NewHandshake) <==> ticked is TimeLastDataPacketSent
            && t.want_handshake is None,
        t.draws(ticked) != Some(Timeout::Rekey),
        t.draws(ticked) != Some(Timeout::RekeyAfter),
{
}

/// Cleared timers show the time of that, wait for nothing, and have every timeout at a bound of its
/// range. A persistent keepalive is due where they are enabled.
pub proof fn law_clear(t: TimersModel, elapsed: nat, name: TimerName)
    requires
        t.wf(),
        !(name is Top),
    ensures
        ({
            let next = t.clear(elapsed);
            &&& next.at(name) == t.now(elapsed)
            &&& next.session_times == t.session_times
            &&& next.want_keepalive is None
            &&& next.want_handshake is None
            &&& next.persistent_keepalive_due == (t.persistent_keepalive is Some)
            &&& next.keepalive_timeout == t.params.keepalive_timeout.start
            &&& next.new_handshake_timeout == t.params.new_handshake_timeout.start
            &&& next.rekey_timeout == t.params.rekey_timeout.start
            &&& next.rekey_after_time == t.params.rekey_after_time.end
            &&& next.is_initiator == t.is_initiator
            &&& same_settings(next, t)
            &&& next.wf()
        }),
{
}

/// New params set every timeout to a bound of its range and touch nothing else.
pub proof fn law_set_params(t: TimersModel, params: ParamsModel)
    requires
        t.wf(),
    ensures
        ({
            let next = t.set_params(params);
            &&& next.params == params
            &&& next.keepalive_timeout == params.keepalive_timeout.start
            &&& next.new_handshake_timeout == params.new_handshake_timeout.start
            &&& next.rekey_timeout == params.rekey_timeout.start
            &&& next.rekey_after_time == params.rekey_after_time.end
            &&& next.times == t.times
            &&& next.session_times == t.session_times
            &&& next.want_keepalive == t.want_keepalive
            &&& next.want_handshake == t.want_handshake
            &&& next.persistent_keepalive == t.persistent_keepalive
            &&& next.persistent_keepalive_due == t.persistent_keepalive_due
            &&& next.is_initiator == t.is_initiator
        }),
{
}

/// A session counts from when it was established, for either role, and so does the connection.
pub proof fn law_session_counts_from_now(
    t: TimersModel,
    is_initiator: bool,
    slot: int,
    sample: nat,
    name: TimerName,
    other: int,
)
    requires
        t.wf(),
        0 <= slot < 8,
        0 <= other < 8,
        !(name is Top),
    ensures
        ({
            let next = t.session_established(is_initiator, slot, sample);
            &&& next.at(TimerName::TimeSessionEstablished) == t.current()
            &&& !(name is TimeSessionEstablished) ==> next.at(name) == t.at(name)
            &&& next.session_times[slot] == t.current()
            &&& other != slot ==> next.session_times[other] == t.session_times[other]
            &&& next.is_initiator == is_initiator
            &&& next.rekey_after_time == sample
            &&& next.keepalive_timeout == t.keepalive_timeout
            &&& next.new_handshake_timeout == t.new_handshake_timeout
            &&& next.rekey_timeout == t.rekey_timeout
            &&& next.want_keepalive == t.want_keepalive
            &&& next.want_handshake == t.want_handshake
            &&& next.persistent_keepalive_due == t.persistent_keepalive_due
            &&& same_settings(next, t)
            &&& next.wf()
        }),
{
}

/// A session is good for 180 seconds, whatever other sessions there are.
pub proof fn law_sessions_are_good_for_their_time(t: TimersModel, slot: int)
    requires
        t.wf(),
        0 <= slot < 8,
    ensures
        t.session_rejected(slot) <==> t.times[0] - t.session_times[slot] > 180 * 1_000_000_000,
        t.reject_old_sessions().session_times[slot] == (if t.times[0] - t.session_times[slot] > 180
            * 1_000_000_000 {
            t.times[0]
        } else {
            t.session_times[slot]
        }),
        t.reject_old_sessions().session_times.len() == 8,
        t.reject_old_sessions() == (TimersModel {
            session_times: t.reject_old_sessions().session_times,
            ..t
        }),
{
}

/// Letting time come moves the clock and nothing else.
pub proof fn law_advance_moves_the_clock(t: TimersModel, elapsed: nat, name: TimerName)
    requires
        t.wf(),
        !(name is Top),
    ensures
        t.advance(elapsed).current() == t.now(elapsed),
        !(name is TimeCurrent) ==> t.advance(elapsed).at(name) == t.at(name),
        t.advance(elapsed) == (TimersModel { times: t.advance(elapsed).times, ..t }),
        t.advance(elapsed).wf(),
{
}

/// When a cookie, a connection and an attempt are over: 120, 540 and 90 seconds after what the
/// timers show.
pub proof fn law_waits_end(t: TimersModel)
    ensures
        t.cookie_expired() <==> t.times[0] - t.at(TimerName::TimeCookieReceived) >= 120
            * 1_000_000_000,
        t.connection_expired() <==> t.times[0] - t.at(TimerName::TimeSessionEstablished) >= 540
            * 1_000_000_000,
        t.attempt_expired() <==> t.times[0] - t.at(TimerName::TimeLastHandshakeStarted) >= 90
            * 1_000_000_000,
{
}

/// When the initiator of a session replaces it: at the age drawn for that if data was sent on it,
/// and at 165 seconds if data was received on it. The responder never does.
pub proof fn law_sessions_are_replaced(t: TimersModel)
    ensures
        ({
            let established = t.at(TimerName::TimeSessionEstablished);
            let age = t.times[0] - established;
            &&& t.rekey_after_send() <==> {
                &&& t.is_initiator
                &&& t.at(TimerName::TimeLastDataPacketSent) > established
                &&& age >= t.rekey_after_time
            }
            &&& t.rekey_after_receive() <==> {
                &&& t.is_initiator
                &&& t.at(TimerName::TimeLastDataPacketReceived) > established
                &&& age >= 165 * 1_000_000_000
            }
        }),
{
}

/// When a wait for the peer, the peer's wait, and the interval of persistent keepalives are over.
pub proof fn law_answers_are_due(t: TimersModel)
    ensures
        t.peer_is_silent() <==> t.want_handshake is Some && t.times[0] - t.want_handshake->0
            >= t.new_handshake_timeout,
        t.keepalive_is_due() <==> t.want_keepalive is Some && t.times[0] - t.want_keepalive->0
            >= t.keepalive_timeout,
        t.persistent_keepalive_is_due() <==> t.persistent_keepalive is Some && (
        t.persistent_keepalive_due || t.times[0] - t.at(TimerName::TimePersistentKeepalive)
            >= t.persistent_keepalive->0),
{
}

/// Setting persistent keepalives sets their interval and restarts it. One is due if one was, or if
/// they were off; turned off, none is.
pub proof fn law_set_persistent_keepalive(
    t: TimersModel,
    seconds: Option<u16>,
    name: TimerName,
)
    requires
        t.wf(),
        !(name is Top),
    ensures
        ({
            let next = t.set_persistent_keepalive(seconds);
            let on = seconds is Some && seconds->0 > 0;
            &&& on ==> next.persistent_keepalive == Some((seconds->0 * 1_000_000_000) as nat)
            &&& !on ==> next.persistent_keepalive is None
            &&& next.persistent_keepalive_due == (on && (t.persistent_keepalive_due
                || t.persistent_keepalive is None))
            &&& on ==> next.at(TimerName::TimePersistentKeepalive) == t.current()
            &&& !on ==> next.at(TimerName::TimePersistentKeepalive) == 0
            &&& !(name is TimePersistentKeepalive) ==> next.at(name) == t.at(name)
            &&& next.session_times == t.session_times
            &&& next.want_keepalive == t.want_keepalive
            &&& next.want_handshake == t.want_handshake
            &&& next.is_initiator == t.is_initiator
            &&& next.params == t.params
            &&& same_timeouts(next, t)
            &&& next.wf()
        }),
{
}

/// The interval that a number of seconds asks for.
pub proof fn law_keepalive_interval(seconds: Option<u16>)
    ensures
        keepalive_interval(seconds) is Some <==> seconds is Some && seconds->0 > 0,
        keepalive_interval(seconds) is Some ==> keepalive_interval(seconds)->0 == seconds->0
            * 1_000_000_000,
        valid_interval(keepalive_interval(seconds)),
{
}

/// New timers show zero, wait for nothing, and have the default timeouts.
pub proof fn law_new_timers(persistent_keepalive: Option<u16>, name: TimerName, slot: int)
    requires
        !(name is Top),
        0 <= slot < 8,
    ensures
        ({
            let t = new_timers(persistent_keepalive);
            let on = persistent_keepalive is Some && persistent_keepalive->0 > 0;
            &&& t.at(name) == 0
            &&& t.session_times[slot] == 0
            &&& t.want_keepalive is None
            &&& t.want_handshake is None
            &&& !t.is_initiator
            &&& t.persistent_keepalive is Some <==> on
            &&& on ==> t.persistent_keepalive->0 == persistent_keepalive->0 * 1_000_000_000
            &&& t.persistent_keepalive_due == on
            &&& t.params == default_params()
            &&& t.keepalive_timeout == 10 * 1_000_000_000
            &&& t.new_handshake_timeout == 15 * 1_000_000_000
            &&& t.rekey_timeout == 5 * 1_000_000_000
            &&& t.rekey_after_time == 120 * 1_000_000_000
            &&& t.wf()
        }),
{
}

/// A range gives what lies between its bounds, and its start where that is all there is or there is
/// nothing between them.
pub proof fn law_ranges(r: TimeoutRange, d: nat)
    ensures
        r.start < r.end ==> (r.gives(d) <==> r.start <= d <= r.end),
        r.start >= r.end ==> (r.gives(d) <==> d == r.start),
        r.is_fixed() <==> !(r.start < r.end),
        r.gives(r.start),
{
}

/// Every timeout has the range of its name.
pub proof fn law_params(params: TimerParams, timeout: Timeout)
    ensures
        ({
            let r = match timeout {
                Timeout::Keepalive => params.keepalive_timeout,
                Timeout::NewHandshake => params.new_handshake_timeout,
                Timeout::Rekey => params.rekey_timeout,
                Timeout::RekeyAfter => params.rekey_after_time,
            };
            &&& params@.range(timeout).start == r@.start@
            &&& params@.range(timeout).end == r@.end@
            &&& range_model(r) == params@.range(timeout)
            &&& params.wf() ==> !r@.exhausted
        }),
{
}

/// The default ranges, in milliseconds.
pub proof fn law_default_params()
    ensures
        ({
            let p = default_params();
            &&& p.keepalive_timeout.start == 10_000 * 1_000_000
            &&& p.keepalive_timeout.end == 10_000 * 1_000_000
            &&& p.new_handshake_timeout.start == 15_000 * 1_000_000
            &&& p.new_handshake_timeout.end == 15_333 * 1_000_000
            &&& p.rekey_timeout.start == 5_000 * 1_000_000
            &&& p.rekey_timeout.end == 5_333 * 1_000_000
            &&& p.rekey_after_time.start == 120_000 * 1_000_000
            &&& p.rekey_after_time.end == 120_000 * 1_000_000
        }),
{
}

} // verus!
