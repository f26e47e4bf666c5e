//! What happens to a tunnel, told by what is there before and after.
//!
//! Each law takes one event and says of every part of the tunnel what becomes of it: its timers by
//! name, its sessions by slot, its queue, its counters and its handshake.

use vstd::prelude::*;

use crate::noise::errors::WireGuardError;
use crate::noise::handshake::{fresh_status, Handshake, HandshakeStatus};
use crate::noise::model::{keepalive_packet, new_tunn, StepModel, TunnModel};
use crate::noise::padding::padded;
use crate::noise::random::Jitter;
use crate::noise::session::Session;
use crate::noise::timer_laws::{same_settings, same_timeouts};
use crate::noise::timers::{new_timers, TimeoutRange, TimerName, TimersModel};
use crate::noise::tunn::{
    data_result, drawn, incoming_result, opening_result, prepared, received_drawn, sent_drawn,
    span_model, step_model, tick_drawn, Incoming, Opening, Step, TunnResult,
};
use crate::packet::wg::{data_receiver_idx, WgData, WgKind};
use crate::packet::{Packet, PacketModel};
use crate::time::Duration;

verus! {

/// The keys that go into handshakes.
pub open spec fn same_keys(a: Handshake, b: Handshake) -> bool {
    &&& a.static_private == b.static_private
    &&& a.static_public == b.static_public
    &&& a.peer_static_public == b.peer_static_public
    &&& a.preshared_key == b.preshared_key
}

/// The sessions, the slot in use and the slot in turn.
pub open spec fn same_slots<K>(a: TunnModel<K>, b: TunnModel<K>) -> bool {
    &&& a.sessions == b.sessions
    &&& a.current == b.current
    &&& a.session_counter == b.session_counter
}

/// The counters of bytes.
pub open spec fn same_counts<K>(a: TunnModel<K>, b: TunnModel<K>) -> bool {
    &&& a.tx_bytes == b.tx_bytes
    &&& a.rx_bytes == b.rx_bytes
}

/// A new tunnel has no session and no packet, has counted nothing, and its timers start now.
pub proof fn law_new_tunn<K>(handshake: Handshake, persistent_keepalive: Option<u16>, slot: int)
    requires
        0 <= slot < 8,
    ensures
        ({
            let tunn = new_tunn::<K>(handshake, persistent_keepalive);
            &&& tunn.handshake == handshake
            &&& tunn.sessions.len() == 8
            &&& tunn.sessions[slot] is None
            &&& tunn.current == 0
            &&& tunn.session_counter == 0
            &&& tunn.queue.len() == 0
            &&& tunn.tx_bytes == 0
            &&& tunn.rx_bytes == 0
            &&& tunn.timers == new_timers(persistent_keepalive)
            &&& tunn.wf()
        }),
{
}

/// A handshake with nothing behind it awaits nothing, has no cookie and no round-trip time.
pub proof fn law_fresh_status()
    ensures
        fresh_status().state is Idle,
        !fresh_status().has_cookie,
        fresh_status().last_rtt is None,
{
}

/// What is there in a valid tunnel.
pub proof fn law_valid_tunnel<K>(tunn: TunnModel<K>)
    requires
        tunn.wf(),
    ensures
        tunn.sessions.len() == 8,
        0 <= tunn.current < 8,
        tunn.queue.len() <= 256,
        tunn.current_session() == tunn.sessions[tunn.current],
        tunn.handshake_state() == tunn.handshake.status.state,
        tunn.timers.wf(),
{
}

/// A packet to send is sealed with the session in use, where there is one, and changes nothing
/// then. Where there is none it goes to the end of the queue, if fewer than 256 wait, and an
/// initiation is asked for unless one awaits its response.
pub proof fn law_outgoing<K>(tunn: TunnModel<K>, packet: PacketModel)
    requires
        tunn.wf(),
    ensures
        ({
            let (next, step) = tunn.outgoing(packet);
            let ready = tunn.sessions[tunn.current] is Some;
            &&& ready ==> next == tunn && step == Some(
                StepModel::Seal { slot: tunn.current, packet },
            )
            &&& !ready ==> (next, step) == tunn.unsealed(packet)
            &&& next.queue.len() <= 256
        }),
{
}

/// What becomes of a packet that is not sealed.
pub proof fn law_unsealed<K>(tunn: TunnModel<K>, packet: PacketModel)
    requires
        tunn.wf(),
    ensures
        ({
            let (next, step) = tunn.unsealed(packet);
            &&& tunn.queue.len() < 256 ==> next.queue == tunn.queue + seq![packet]
            &&& tunn.queue.len() >= 256 ==> next.queue == tunn.queue
            &&& tunn.handshake.status.state is InitSent ==> step is None
            &&& !(tunn.handshake.status.state is InitSent) ==> step == Some(StepModel::Initiate)
            &&& next == (TunnModel { queue: next.queue, ..tunn })
        }),
{
    assert(tunn.queue.push(packet) == tunn.queue + seq![packet]);
}

/// An initiation is asked for unless one awaits its response, and always where it is forced.
pub proof fn law_initiation<K>(tunn: TunnModel<K>, force_resend: bool)
    ensures
        tunn.initiation(force_resend) is None <==> tunn.handshake.status.state is InitSent
            && !force_resend,
        tunn.initiation(force_resend) is Some ==> tunn.initiation(force_resend)->0 is Initiate,
{
}

/// The packet that waits longest is taken out and treated as one to send, padded. Without one there
/// is nothing to do.
pub proof fn law_next_queued<K>(tunn: TunnModel<K>, mtu: int)
    requires
        tunn.wf(),
        mtu >= 0,
    ensures
        ({
            let (next, step) = tunn.next_queued(mtu);
            let first = padded(tunn.queue[0], mtu);
            let rest = tunn.queue.subrange(1, tunn.queue.len() as int);
            &&& tunn.queue.len() == 0 ==> next == tunn && step is None
            &&& tunn.queue.len() > 0 && tunn.sessions[tunn.current] is Some ==> {
                &&& next.queue == rest
                &&& step == Some(StepModel::Seal { slot: tunn.current, packet: first })
            }
            &&& tunn.queue.len() > 0 && tunn.sessions[tunn.current] is None ==> {
                &&& next.queue == rest + seq![first]
                &&& step is Some <==> !(tunn.handshake.status.state is InitSent)
                &&& step is Some ==> step->0 is Initiate
            }
            &&& next == (TunnModel { queue: next.queue, ..tunn })
        }),
{
    if tunn.queue.len() > 0 {
        let first = padded(tunn.queue[0], mtu);
        assert(tunn.queue.skip(1) == tunn.queue.subrange(1, tunn.queue.len() as int));
        assert(tunn.queue.skip(1).push(first) == tunn.queue.skip(1) + seq![first]);
    }
}

/// A data message that is sent counts as one, answers the peer and restarts the persistent
/// keepalive. One that is no keepalive is data, too, and an answer to it is waited for.
pub proof fn law_sealed<K>(tunn: TunnModel<K>, message: Seq<u8>, sample: nat, name: TimerName)
    requires
        tunn.wf(),
        !(name is Top),
    ensures
        ({
            let next = tunn.sealed(message, sample);
            let data = message.len() != 32;
            let (t, n) = (tunn.timers, next.timers);
            &&& name is TimeLastPacketSent || name is TimePersistentKeepalive || (data
                && name is TimeLastDataPacketSent) ==> n.at(name) == t.current()
            &&& !(name is TimeLastPacketSent) && !(name is TimePersistentKeepalive) && !(data
                && name is TimeLastDataPacketSent) ==> n.at(name) == t.at(name)
            &&& n.session_times == t.session_times
            &&& n.want_keepalive is None
            &&& n.want_handshake == (if data && t.want_handshake is None {
                Some(t.current())
            } else {
                t.want_handshake
            })
            &&& n.new_handshake_timeout == (if data && t.want_handshake is None {
                sample
            } else {
                t.new_handshake_timeout
            })
            &&& !n.persistent_keepalive_due
            &&& n.keepalive_timeout == t.keepalive_timeout
            &&& n.rekey_timeout == t.rekey_timeout
            &&& n.rekey_after_time == t.rekey_after_time
            &&& n.is_initiator == t.is_initiator
            &&& same_settings(n, t)
            &&& next.tx_bytes == tunn.tx_bytes + message.len()
            &&& next.rx_bytes == tunn.rx_bytes
            &&& next.queue == tunn.queue
            &&& next.handshake == tunn.handshake
            &&& same_slots(next, tunn)
        }),
{
}

/// An initiation that was written counts as sent. It starts an attempt, unless it is one more of
/// the same attempt, and everything anew where the connection was given up.
pub proof fn law_initiated<K>(tunn: TunnModel<K>, elapsed: nat, sample: nat, name: TimerName)
    requires
        tunn.wf(),
        !(name is Top),
    ensures
        ({
            let next = tunn.initiated(elapsed, sample);
            let (t, n) = (tunn.timers, next.timers);
            let was_expired = tunn.handshake.status.state is Expired;
            let again = tunn.handshake.status.state is InitSent;
            let time = if was_expired {
                t.now(elapsed)
            } else {
                t.current()
            };
            &&& n.current() == time
            &&& was_expired ==> n.at(name) == time
            &&& name is TimeLastPacketSent || name is TimePersistentKeepalive ==> n.at(name) == time
            &&& name is TimeLastHandshakeStarted && !again ==> n.at(name) == time
            &&& name is TimeLastHandshakeStarted && again ==> n.at(name) == t.at(name)
            &&& !was_expired && !(name is TimeLastPacketSent) && !(
            name is TimePersistentKeepalive) && !(name is TimeLastHandshakeStarted) ==> n.at(name)
                == t.at(name)
            &&& n.session_times == t.session_times
            &&& n.want_keepalive is None
            &&& n.want_handshake == (if was_expired {
                None
            } else {
                t.want_handshake
            })
            &&& !n.persistent_keepalive_due
            &&& n.rekey_timeout == sample
            &&& was_expired ==> n.keepalive_timeout == t.params.keepalive_timeout.start
            &&& was_expired ==> n.new_handshake_timeout == t.params.new_handshake_timeout.start
            &&& was_expired ==> n.rekey_after_time == t.params.rekey_after_time.end
            &&& !was_expired ==> n.keepalive_timeout == t.keepalive_timeout
            &&& !was_expired ==> n.new_handshake_timeout == t.new_handshake_timeout
            &&& !was_expired ==> n.rekey_after_time == t.rekey_after_time
            &&& n.is_initiator == t.is_initiator
            &&& same_settings(n, t)
            &&& next.handshake.status.state is InitSent
            &&& next.handshake.status.has_cookie == tunn.handshake.status.has_cookie
            &&& next.handshake.status.last_rtt == tunn.handshake.status.last_rtt
            &&& same_keys(next.handshake, tunn.handshake)
            &&& next.tx_bytes == tunn.tx_bytes + 148
            &&& next.rx_bytes == tunn.rx_bytes
            &&& next.queue == tunn.queue
            &&& same_slots(next, tunn)
        }),
{
}

/// A new session goes into the slot in turn and into no other, and the next slot is in turn then.
pub proof fn law_put_session<K>(tunn: TunnModel<K>, session: Session<K>, slot: int)
    requires
        tunn.wf(),
        0 <= slot < 8,
    ensures
        ({
            let next = tunn.put_session(session);
            &&& tunn.next_slot() == tunn.session_counter % 8
            &&& next.sessions.len() == 8
            &&& next.sessions[tunn.session_counter % 8] == Some(session)
            &&& slot != tunn.session_counter % 8 ==> next.sessions[slot] == tunn.sessions[slot]
            &&& next.session_counter == (if tunn.session_counter < usize::MAX {
                tunn.session_counter + 1
            } else {
                0
            })
            &&& next == (TunnModel {
                sessions: next.sessions,
                session_counter: next.session_counter,
                ..tunn
            })
        }),
{
}

/// Packets are sent with a session from when it is in use, unless they are with one that was
/// established later.
pub proof fn law_use_session<K>(tunn: TunnModel<K>, slot: int)
    requires
        tunn.wf(),
        0 <= slot < 8,
    ensures
        ({
            let next = tunn.use_session(slot);
            let younger = tunn.timers.session_times[tunn.current] > tunn.timers.session_times[slot];
            &&& tunn.sessions[tunn.current] is None || !younger ==> next.current == slot
            &&& tunn.sessions[tunn.current] is Some && younger ==> next.current == tunn.current
            &&& next == (TunnModel { current: next.current, ..tunn })
        }),
{
}

/// An answered initiation: a packet came and one went, and a session that the peer initiated is
/// established now in the slot in turn. Packets are still sent with the slot that they were.
pub proof fn law_init_answered<K>(
    tunn: TunnModel<K>,
    status: HandshakeStatus,
    session: Session<K>,
    sample: nat,
    name: TimerName,
    slot: int,
)
    requires
        tunn.wf(),
        !(name is Top),
        0 <= slot < 8,
    ensures
        ({
            let next = tunn.init_answered(status, session, sample);
            let (t, n) = (tunn.timers, next.timers);
            let new_slot = tunn.session_counter % 8;
            &&& name is TimeLastPacketReceived || name is TimeLastPacketSent
                || name is TimePersistentKeepalive || name is TimeSessionEstablished ==> n.at(name)
                == t.current()
            &&& !(name is TimeLastPacketReceived) && !(name is TimeLastPacketSent) && !(
            name is TimePersistentKeepalive) && !(name is TimeSessionEstablished) ==> n.at(name)
                == t.at(name)
            &&& n.session_times[slot] == (if slot == new_slot {
                t.current()
            } else {
                t.session_times[slot]
            })
            &&& next.sessions[slot] == (if slot == new_slot {
                Some(session)
            } else {
                tunn.sessions[slot]
            })
            &&& next.session_counter == tunn.put_session(session).session_counter
            &&& next.current == tunn.current
            &&& n.want_keepalive is None
            &&& n.want_handshake is None
            &&& !n.persistent_keepalive_due
            &&& !n.is_initiator
            &&& n.rekey_after_time == sample
            &&& n.keepalive_timeout == t.keepalive_timeout
            &&& n.new_handshake_timeout == t.new_handshake_timeout
            &&& n.rekey_timeout == t.rekey_timeout
            &&& same_settings(n, t)
            &&& next.handshake.status == status
            &&& same_keys(next.handshake, tunn.handshake)
            &&& next.rx_bytes == tunn.rx_bytes + 148
            &&& next.tx_bytes == tunn.tx_bytes + 92
            &&& next.queue == tunn.queue
        }),
{
}

/// An accepted response counts as received, and the handshake stands where it says.
pub proof fn law_response_accepted<K>(tunn: TunnModel<K>, status: HandshakeStatus)
    ensures
        ({
            let next = tunn.response_accepted(status);
            &&& next.handshake.status == status
            &&& same_keys(next.handshake, tunn.handshake)
            &&& next.rx_bytes == tunn.rx_bytes + 92
            &&& next.tx_bytes == tunn.tx_bytes
            &&& next.timers == tunn.timers
            &&& next.queue == tunn.queue
            &&& same_slots(next, tunn)
        }),
{
}

/// A confirmed response: a packet came and one goes, and a session that we initiated is established
/// now in the slot in turn, with which packets are sent from then on.
pub proof fn law_response_confirmed<K>(
    tunn: TunnModel<K>,
    session: Session<K>,
    message: Seq<u8>,
    sample: nat,
    name: TimerName,
    slot: int,
)
    requires
        tunn.wf(),
        !(name is Top),
        0 <= slot < 8,
    ensures
        ({
            let next = tunn.response_confirmed(session, message, sample);
            let (t, n) = (tunn.timers, next.timers);
            let new_slot = tunn.session_counter % 8;
            &&& name is TimeLastPacketReceived || name is TimeLastPacketSent
                || name is TimePersistentKeepalive || name is TimeSessionEstablished ==> n.at(name)
                == t.current()
            &&& !(name is TimeLastPacketReceived) && !(name is TimeLastPacketSent) && !(
            name is TimePersistentKeepalive) && !(name is TimeSessionEstablished) ==> n.at(name)
                == t.at(name)
            &&& n.session_times[slot] == (if slot == new_slot {
                t.current()
            } else {
                t.session_times[slot]
            })
            &&& next.sessions[slot] == (if slot == new_slot {
                Some(session)
            } else {
                tunn.sessions[slot]
            })
            &&& next.session_counter == tunn.put_session(session).session_counter
            &&& next.current == new_slot
            &&& n.want_keepalive is None
            &&& n.want_handshake is None
            &&& !n.persistent_keepalive_due
            &&& n.is_initiator
            &&& n.rekey_after_time == sample
            &&& n.keepalive_timeout == t.keepalive_timeout
            &&& n.new_handshake_timeout == t.new_handshake_timeout
            &&& n.rekey_timeout == t.rekey_timeout
            &&& same_settings(n, t)
            &&& next.handshake == tunn.handshake
            &&& next.tx_bytes == tunn.tx_bytes + message.len()
            &&& next.rx_bytes == tunn.rx_bytes
            &&& next.queue == tunn.queue
        }),
{
}

/// A cookie that was taken: its timer shows that, and nothing else moves.
pub proof fn law_cookie_received<K>(tunn: TunnModel<K>, status: HandshakeStatus, name: TimerName)
    requires
        tunn.wf(),
        !(name is Top),
    ensures
        ({
            let next = tunn.cookie_received(status);
            let (t, n) = (tunn.timers, next.timers);
            &&& name is TimeCookieReceived ==> n.at(name) == t.current()
            &&& !(name is TimeCookieReceived) ==> n.at(name) == t.at(name)
            &&& n == (TimersModel { times: n.times, ..t })
            &&& next.handshake.status == status
            &&& same_keys(next.handshake, tunn.handshake)
            &&& next.queue == tunn.queue
            &&& same_slots(next, tunn)
            &&& same_counts(next, tunn)
        }),
{
}

/// A message that the handshake refused changes only where the handshake stands.
pub proof fn law_refused<K>(tunn: TunnModel<K>, status: HandshakeStatus)
    ensures
        ({
            let next = tunn.with_status(status);
            &&& next.handshake.status == status
            &&& same_keys(next.handshake, tunn.handshake)
            &&& next.timers == tunn.timers
            &&& next.queue == tunn.queue
            &&& same_slots(next, tunn)
            &&& same_counts(next, tunn)
        }),
{
}

/// A session receives what carries its index.
pub proof fn law_receives<K>(tunn: TunnModel<K>, slot: int, idx: int)
    ensures
        tunn.receives(slot, idx) <==> tunn.sessions[slot] is Some
            && tunn.sessions[slot]->0.receiving_index == idx,
{
}

/// A data message goes to the first session whose index it carries in its bytes, and is refused
/// where there is none.
pub proof fn law_data_finds_its_session<K>(
    tunn: TunnModel<K>,
    packet: Packet<WgData>,
    result: Result<Opening, WireGuardError>,
    slot: int,
)
    requires
        tunn.wf(),
        opening_result(tunn, packet, result),
        0 <= slot < 8,
    ensures
        ({
            let p = packet@;
            let idx = p[4] + 256 * (p[5] + 256 * (p[6] + 256 * p[7]));
            let fits = tunn.sessions[slot] is Some && tunn.sessions[slot]->0.receiving_index == idx;
            &&& fits ==> result is Ok && result->Ok_0.slot <= slot
            &&& result matches Ok(opening) ==> {
                &&& 0 <= opening.slot < 8
                &&& opening.packet == packet
                &&& slot == opening.slot ==> fits
                &&& slot < opening.slot ==> !fits
            }
            &&& result matches Err(e) ==> e is NoCurrentSession && !fits
        }),
{
    let p = packet@;
    let idx = p[4] + 256 * (p[5] + 256 * (p[6] + 256 * p[7]));
    assert(idx == data_receiver_idx(p));
    if tunn.receives(slot, data_receiver_idx(p)) {
        assert(tunn.sessions[slot] is Some);
    }
}

/// Messages of the handshake go to the handshake as they are, data messages to their session, and
/// nothing else comes of them at once but that a data message is refused.
pub proof fn law_incoming<K>(tunn: TunnModel<K>, packet: WgKind, result: Incoming)
    requires
        incoming_result(tunn, packet, result),
    ensures
        packet is HandshakeInit <==> result is HandshakeInit,
        packet is HandshakeResp <==> result is HandshakeResp,
        packet is CookieReply <==> result is CookieReply,
        packet matches WgKind::HandshakeInit(p) ==> result == Incoming::HandshakeInit(p),
        packet matches WgKind::HandshakeResp(p) ==> result == Incoming::HandshakeResp(p),
        packet matches WgKind::CookieReply(p) ==> result == Incoming::CookieReply(p),
        packet is Data <==> result is Open || result is Finished,
        packet matches WgKind::Data(p) ==> {
            &&& result matches Incoming::Open(o) ==> opening_result(tunn, p, Ok(o))
            &&& result matches Incoming::Finished(r) ==> r == TunnResult::Error(
                WireGuardError::NoCurrentSession,
            ) && opening_result(tunn, p, Err(WireGuardError::NoCurrentSession))
        },
{
}

/// What was opened is written to the tunnel as it is, and an error is handed on.
pub proof fn law_data_result(opened: Result<Packet, WireGuardError>)
    ensures
        opened is Ok <==> data_result(opened) is Ok,
        opened matches Ok(p) ==> data_result(opened)->Ok_0 == TunnResult::WriteToTunnel(p),
        opened matches Err(e) ==> data_result(opened)->Err_0 == e,
{
}

/// A data message that was opened: a packet came, its bytes count, and its session is in use. One
/// that is not empty is data, too, and an answer to it is owed.
pub proof fn law_data_received<K>(
    tunn: TunnModel<K>,
    slot: int,
    packet: Seq<u8>,
    sample: nat,
    name: TimerName,
)
    requires
        tunn.wf(),
        !(name is Top),
        0 <= slot < 8,
    ensures
        ({
            let next = tunn.data_received(slot, packet, sample);
            let data = packet.len() > 0;
            let (t, n) = (tunn.timers, next.timers);
            &&& name is TimeLastPacketReceived || name is TimePersistentKeepalive || (data
                && name is TimeLastDataPacketReceived) ==> n.at(name) == t.current()
            &&& !(name is TimeLastPacketReceived) && !(name is TimePersistentKeepalive) && !(data
                && name is TimeLastDataPacketReceived) ==> n.at(name) == t.at(name)
            &&& n.session_times == t.session_times
            &&& n.want_handshake is None
            &&& n.want_keepalive == (if data && t.want_keepalive is None {
                Some(t.current())
            } else {
                t.want_keepalive
            })
            &&& n.keepalive_timeout == (if data && t.want_keepalive is None {
                sample
            } else {
                t.keepalive_timeout
            })
            &&& !n.persistent_keepalive_due
            &&& n.new_handshake_timeout == t.new_handshake_timeout
            &&& n.rekey_timeout == t.rekey_timeout
            &&& n.rekey_after_time == t.rekey_after_time
            &&& n.is_initiator == t.is_initiator
            &&& same_settings(n, t)
            &&& next.rx_bytes == tunn.rx_bytes + packet.len()
            &&& next.tx_bytes == tunn.tx_bytes
            &&& next.queue == tunn.queue
            &&& next.handshake == tunn.handshake
            &&& next.sessions == tunn.sessions
            &&& next.session_counter == tunn.session_counter
            &&& next.current == tunn.use_session(slot).current
        }),
{
}

/// Opening a message for its packet alone is the same but for what data brings.
pub proof fn law_opened<K>(tunn: TunnModel<K>, slot: int, packet: Seq<u8>, name: TimerName)
    requires
        tunn.wf(),
        !(name is Top),
        0 <= slot < 8,
    ensures
        ({
            let next = tunn.opened(slot, packet);
            let (t, n) = (tunn.timers, next.timers);
            &&& name is TimeLastPacketReceived || name is TimePersistentKeepalive ==> n.at(name)
                == t.current()
            &&& !(name is TimeLastPacketReceived) && !(name is TimePersistentKeepalive) ==> n.at(
                name,
            ) == t.at(name)
            &&& n.session_times == t.session_times
            &&& n.want_handshake is None
            &&& n.want_keepalive == t.want_keepalive
            &&& !n.persistent_keepalive_due
            &&& n.is_initiator == t.is_initiator
            &&& same_timeouts(n, t)
            &&& same_settings(n, t)
            &&& next.rx_bytes == tunn.rx_bytes + packet.len()
            &&& next.tx_bytes == tunn.tx_bytes
            &&& next.queue == tunn.queue
            &&& next.handshake == tunn.handshake
            &&& next.sessions == tunn.sessions
            &&& next.session_counter == tunn.session_counter
            &&& next.current == tunn.use_session(slot).current
        }),
{
}

/// A reset drops the sessions and the queue, clears the timers, and forgets where the handshake
/// stood. Keys, counters and the slot in turn stay.
pub proof fn law_reset<K>(tunn: TunnModel<K>, elapsed: nat, name: TimerName, slot: int)
    requires
        tunn.wf(),
        !(name is Top),
        0 <= slot < 8,
    ensures
        ({
            let next = tunn.reset(elapsed);
            &&& next.sessions.len() == 8
            &&& next.sessions[slot] is None
            &&& next.queue.len() == 0
            &&& next.timers.at(name) == tunn.timers.now(elapsed)
            &&& next.timers == tunn.timers.clear(elapsed)
            &&& next.handshake.status.state is Idle
            &&& !next.handshake.status.has_cookie
            &&& next.handshake.status.last_rtt is None
            &&& same_keys(next.handshake, tunn.handshake)
            &&& next.current == tunn.current
            &&& next.session_counter == tunn.session_counter
            &&& same_counts(next, tunn)
        }),
{
}

/// A new preshared key is the only thing that changes with it.
pub proof fn law_with_preshared_key<K>(tunn: TunnModel<K>, preshared_key: Option<[u8; 32]>)
    ensures
        ({
            let next = tunn.with_preshared_key(preshared_key);
            &&& next.handshake.preshared_key == preshared_key
            &&& next.handshake.static_private == tunn.handshake.static_private
            &&& next.handshake.static_public == tunn.handshake.static_public
            &&& next.handshake.peer_static_public == tunn.handshake.peer_static_public
            &&& next.handshake.status == tunn.handshake.status
            &&& next.timers == tunn.timers
            &&& next.queue == tunn.queue
            &&& same_slots(next, tunn)
            &&& same_counts(next, tunn)
        }),
{
}

/// A new key pair comes with the loss of all sessions, and nothing else changes.
pub proof fn law_with_static_private<K>(
    tunn: TunnModel<K>,
    static_private: [u8; 32],
    static_public: [u8; 32],
    slot: int,
)
    requires
        tunn.wf(),
        0 <= slot < 8,
    ensures
        ({
            let next = tunn.with_static_private(static_private, static_public);
            &&& next.handshake.static_private == static_private
            &&& next.handshake.static_public == static_public
            &&& next.handshake.peer_static_public == tunn.handshake.peer_static_public
            &&& next.handshake.preshared_key == tunn.handshake.preshared_key
            &&& next.handshake.status == tunn.handshake.status
            &&& next.sessions.len() == 8
            &&& next.sessions[slot] is None
            &&& next.current == tunn.current
            &&& next.session_counter == tunn.session_counter
            &&& next.timers == tunn.timers
            &&& next.queue == tunn.queue
            &&& same_counts(next, tunn)
        }),
{
}

/// Persistent keepalives are a matter of the timers alone.
pub proof fn law_tunn_set_persistent_keepalive<K>(tunn: TunnModel<K>, seconds: Option<u16>)
    ensures
        ({
            let next = tunn.set_persistent_keepalive(seconds);
            &&& next.timers == tunn.timers.set_persistent_keepalive(seconds)
            &&& next == (TunnModel { timers: next.timers, ..tunn })
        }),
{
}

/// The time since a timer ticked is shown while the slot in use has a session, and grows with the
/// clock.
pub proof fn law_time_since<K>(tunn: TunnModel<K>, name: TimerName, elapsed: nat)
    ensures
        tunn.time_since(name, elapsed) is Some <==> tunn.sessions[tunn.current] is Some,
        tunn.time_since(name, elapsed) is Some && elapsed >= tunn.timers.times[0]
            ==> tunn.time_since(name, elapsed)->0 == elapsed - tunn.timers.at(name),
        tunn.time_since(name, elapsed) is Some && elapsed < tunn.timers.times[0]
            ==> tunn.time_since(name, elapsed)->0 == tunn.timers.times[0] - tunn.timers.at(name),
{
}

/// After a handshake, in either role, no time has passed since it.
pub proof fn law_no_time_since_new_session<K>(
    tunn: TunnModel<K>,
    status: HandshakeStatus,
    session: Session<K>,
    message: Seq<u8>,
    sample: nat,
)
    requires
        tunn.wf(),
    ensures
        ({
            let name = TimerName::TimeSessionEstablished;
            let time = tunn.timers.current();
            let answered = tunn.init_answered(status, session, sample).opened(
                tunn.next_slot(),
                Seq::empty(),
            );
            let confirmed = tunn.response_confirmed(session, message, sample);
            &&& answered.time_since(name, time) == Some(0int)
            &&& confirmed.time_since(name, time) == Some(0int)
        }),
{
}

/// The slots with a session, each once, nearest first on the way back from the slot in use.
pub proof fn law_sessions_by_use<K>(tunn: TunnModel<K>, slot: int, i: int, j: int)
    requires
        tunn.wf(),
        0 <= slot < 8,
    ensures
        ({
            let slots = tunn.sessions_by_use();
            &&& slots.contains(slot) <==> tunn.sessions[slot] is Some
            &&& 0 <= i < slots.len() ==> 0 <= slots[i] < 8
            &&& 0 <= i < j < slots.len() ==> (tunn.current - slots[i]) % 8 < (tunn.current
                - slots[j]) % 8
            &&& tunn.sessions[tunn.current] is Some ==> slots.len() > 0 && slots[0] == tunn.current
        }),
{
    let c = tunn.current;
    let occupied = |s: int| tunn.sessions[s] is Some;
    let order = tunn.slots_by_use();
    let expected = seq![
        c % 8,
        (c - 1) % 8,
        (c - 2) % 8,
        (c - 3) % 8,
        (c - 4) % 8,
        (c - 5) % 8,
        (c - 6) % 8,
        (c - 7) % 8,
    ];
    assert(order == expected);
    lemma_filtered(order, occupied, c);
    let slots = tunn.sessions_by_use();
    assert(order[(c - slot) % 8] == slot);
    if tunn.sessions[c] is Some {
        assert(order[0] == c);
        assert(occupied(order[0]));
        lemma_filter_keeps_first(order, occupied);
    }
}

/// Filtering keeps what fits, and the order.
proof fn lemma_filtered(order: Seq<int>, keep: spec_fn(int) -> bool, c: int)
    requires
        order.len() <= 8,
        forall|i: int| 0 <= i < order.len() ==> #[trigger] order[i] == (c - i) % 8,
    ensures
        ({
            let kept = order.filter(keep);
            &&& kept.len() <= order.len()
            &&& forall|s: int| #[trigger] kept.contains(s) <==> order.contains(s) && keep(s)
            &&& forall|i: int| 0 <= i < kept.len() ==> 0 <= #[trigger] kept[i] < 8
            &&& forall|i: int|
                0 <= i < kept.len() ==> 0 <= (c - #[trigger] kept[i]) % 8 < order.len()
            &&& forall|i: int, j: int|
                0 <= i < j < kept.len() ==> (c - #[trigger] kept[i]) % 8 < (c
                    - #[trigger] kept[j]) % 8
        }),
    decreases order.len(),
{
    reveal(Seq::filter);
    if order.len() > 0 {
        let shorter = order.drop_last();
        let last = order.last();
        lemma_filtered(shorter, keep, c);
        let before = shorter.filter(keep);
        let kept = order.filter(keep);
        assert((c - last) % 8 == order.len() - 1);
        assert(order == shorter.push(last));
        assert forall|s: int| #[trigger] kept.contains(s) <==> order.contains(s) && keep(s) by {
            if order.contains(s) && keep(s) {
                if shorter.contains(s) {
                    assert(before.contains(s));
                    let k = choose|k: int| 0 <= k < before.len() && before[k] == s;
                    assert(kept[k] == s);
                } else {
                    let k = choose|k: int| 0 <= k < order.len() && order[k] == s;
                    assert(k == order.len() - 1) by {
                        if k < shorter.len() {
                            assert(shorter[k] == s);
                        }
                    }
                    assert(kept[kept.len() - 1] == s);
                }
            }
            if kept.contains(s) {
                let k = choose|k: int| 0 <= k < kept.len() && kept[k] == s;
                if k < before.len() {
                    assert(before[k] == s);
                    assert(before.contains(s));
                    let m = choose|m: int| 0 <= m < shorter.len() && shorter[m] == s;
                    assert(order[m] == s);
                } else {
                    assert(s == last);
                    assert(order[order.len() - 1] == s);
                }
            }
        }
    }
}

/// Filtering keeps the first in front.
proof fn lemma_filter_keeps_first(order: Seq<int>, keep: spec_fn(int) -> bool)
    requires
        order.len() > 0,
        keep(order[0]),
    ensures
        order.filter(keep).len() > 0,
        order.filter(keep)[0] == order[0],
    decreases order.len(),
{
    reveal(Seq::filter);
    if order.len() > 1 {
        lemma_filter_keeps_first(order.drop_last(), keep);
    } else {
        assert(order.drop_last() == Seq::<int>::empty());
        assert(order.drop_last().filter(keep) == Seq::<int>::empty());
    }
}

/// A packet is padded where the MTU is known, and else left as it is.
pub proof fn law_prepared(packet: PacketModel, mtu: u16)
    ensures
        prepared(packet, Some(mtu)) == padded(packet, mtu as int),
        prepared(packet, None) == packet,
{
}

/// The packet that makes a keepalive is empty and belongs to no pool.
pub proof fn law_keepalive_packet()
    ensures
        keepalive_packet().bytes.len() == 0,
        keepalive_packet().pool is None,
{
}

/// What a step asks for, in mathematical values.
pub proof fn law_steps(slot: usize, packet: Packet, span: Duration)
    ensures
        step_model(None) is None,
        step_model(Some(Step::Initiate)) == Some(StepModel::Initiate),
        step_model(Some(Step::Seal { slot, packet })) == Some(
            StepModel::Seal { slot: slot as int, packet: packet.model() },
        ),
        packet.model().bytes == packet@,
        packet.model().pool == packet.pool(),
        span_model(None) is None,
        span_model(Some(span)) == Some(span@ as int),
{
}

/// A draw from a range with a choice is what the source gave for it, within the range. One without
/// leaves the source alone and gives the start.
pub proof fn law_draws<R: Jitter>(range: TimeoutRange, before: R, after: R, d: nat)
    requires
        drawn(range, before, after, d),
    ensures
        range.start < range.end ==> before.gave(after, range.start, range.end, d) && range.start
            <= d <= range.end,
        range.start >= range.end ==> after == before && d == range.start,
{
}

/// What ticks and messages draw, and from which range.
pub proof fn law_events_draw<R: Jitter>(
    t: TimersModel,
    name: TimerName,
    bytes: Seq<u8>,
    before: R,
    after: R,
    d: nat,
)
    ensures
        ({
            let in_range = drawn(t.params.keepalive_timeout, before, after, d);
            let out_range = drawn(t.params.new_handshake_timeout, before, after, d);
            &&& name is TimeLastDataPacketReceived && t.want_keepalive is None ==> tick_drawn(
                t,
                name,
                before,
                after,
                d,
            ) == in_range
            &&& name is TimeLastDataPacketSent && t.want_handshake is None ==> tick_drawn(
                t,
                name,
                before,
                after,
                d,
            ) == out_range
            &&& !(name is TimeLastDataPacketReceived && t.want_keepalive is None) && !(
            name is TimeLastDataPacketSent && t.want_handshake is None) ==> tick_drawn(
                t,
                name,
                before,
                after,
                d,
            ) == (after == before)
            &&& sent_drawn(t, bytes, before, after, d) == (if bytes.len() != 32
                && t.want_handshake is None {
                out_range
            } else {
                after == before
            })
            &&& received_drawn(t, bytes, before, after, d) == (if bytes.len() > 0
                && t.want_keepalive is None {
                in_range
            } else {
                after == before
            })
        }),
{
}

} // verus!
