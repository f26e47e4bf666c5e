//! The operations of a tunnel, by what they are called and what they give.
//!
//! The laws on events say what becomes of a tunnel; these say which operation brings which event
//! about, and what comes back to the caller.

use vstd::prelude::*;

use crate::noise::errors::WireGuardError;
use crate::noise::handshake::HandshakeStatus;
use crate::noise::model::{StepModel, TunnModel};
use crate::noise::padding::{pad_to_x16, padded};
use crate::noise::random::Jitter;
use crate::noise::session::Session;
use crate::noise::timers::{new_timers, TimerName, TimerParams, Timeout, Timers};
use crate::noise::tunn::{
    drawn, incoming_result, opening_result, received_drawn, sent_drawn, step_model, Incoming,
    Opening, Outgoing, Step, Tunn, TunnResult,
};
use crate::noise::x25519::x25519_public_key;
use crate::packet::wg::{WgData, WgHandshakeInit, WgHandshakeResp, WgKind};
use crate::packet::Packet;
use crate::time::Duration;

verus! {

/// A packet to send comes back as a step to seal it, padded, with the session in use. Without one
/// it waits, and the step is to initiate, unless that was done.
pub proof fn law_handle_outgoing_packet<K, R: Jitter>(
    packet: Packet,
    tun_mtu: Option<u16>,
    step: Option<Step>,
)
    ensures
        forall|t: &mut Tunn<K, R>| #[trigger]
            call_ensures(Tunn::<K, R>::handle_outgoing_packet, (t, packet, tun_mtu), step) ==> {
                let ready = (*t)@.sessions[(*t)@.current] is Some;
                let waiting = (*t)@.handshake.status.state is InitSent;
                let plain = match tun_mtu {
                    Some(mtu) => padded(packet.model(), mtu as int),
                    None => packet.model(),
                };
                &&& ready ==> (*final(t))@ == (*t)@
                &&& ready ==> step_model(step) == Some(
                    StepModel::Seal { slot: (*t)@.current, packet: plain },
                )
                &&& !ready && (*t)@.queue.len() < 256 ==> (*final(t))@.queue == (*t)@.queue.push(
                    plain,
                )
                &&& !ready && (*t)@.queue.len() >= 256 ==> (*final(t))@.queue == (*t)@.queue
                &&& !ready && waiting ==> step is None
                &&& !ready && !waiting ==> step == Some(Step::Initiate)
                &&& (*final(t))@ == (TunnModel { queue: (*final(t))@.queue, ..(*t)@ })
                &&& (*final(t)).jitter() == (*t).jitter()
            },
{
}

/// An initiation is to be written unless one awaits its response, or it is forced.
pub proof fn law_format_handshake_initiation<K, R: Jitter>(
    t: Tunn<K, R>,
    force_resend: bool,
    step: Option<Step>,
)
    requires
        call_ensures(Tunn::<K, R>::format_handshake_initiation, (&t, force_resend), step),
    ensures
        step is None <==> t@.handshake.status.state is InitSent && !force_resend,
        step is Some ==> step->0 is Initiate,
{
}

/// A written initiation comes back as the message to send, with a timeout drawn for sending it
/// again.
pub proof fn law_finish_handshake_initiation<K, R: Jitter>(
    packet: Packet<WgHandshakeInit>,
    elapsed: Duration,
    message: WgKind,
)
    ensures
        forall|t: &mut Tunn<K, R>| #[trigger]
            call_ensures(Tunn::<K, R>::finish_handshake_initiation, (t, packet, elapsed), message)
                ==> {
                let sample = (*final(t))@.timers.rekey_timeout;
                &&& message == WgKind::HandshakeInit(packet)
                &&& (*final(t))@ == (*t)@.initiated(elapsed@, sample)
                &&& drawn(
                    (*t)@.timers.params.rekey_timeout,
                    (*t).jitter(),
                    (*final(t)).jitter(),
                    sample,
                )
            },
{
}

/// A packet is to be sealed with the session in use, and comes back where there is none.
pub proof fn law_encapsulate_with_session<K, R: Jitter>(
    t: Tunn<K, R>,
    packet: Packet,
    result: Result<Step, Packet>,
)
    requires
        call_ensures(Tunn::<K, R>::encapsulate_with_session, (&t, packet), result),
    ensures
        result is Ok <==> t@.sessions[t@.current] is Some,
        result matches Ok(step) ==> step@ == (StepModel::Seal {
            slot: t@.current,
            packet: packet.model(),
        }),
        result matches Err(p) ==> p == packet,
{
}

/// A sealed message comes back and is accounted for. What was refused comes back, and nothing
/// changes.
pub proof fn law_finish_encapsulation<K, R: Jitter>(
    sealed: Result<Packet<WgData>, Packet>,
    result: Result<Packet<WgData>, Packet>,
)
    ensures
        forall|t: &mut Tunn<K, R>| #[trigger]
            call_ensures(Tunn::<K, R>::finish_encapsulation, (t, sealed), result) ==> {
                &&& result == sealed
                &&& sealed matches Ok(p) ==> exists|sample: nat|
                    #[trigger] sent_drawn(
                        (*t)@.timers,
                        p@,
                        (*t).jitter(),
                        (*final(t)).jitter(),
                        sample,
                    ) && (*final(t))@ == (*t)@.sealed(p@, sample)
                &&& sealed is Err ==> (*final(t))@ == (*t)@ && (*final(t)).jitter()
                    == (*t).jitter()
            },
{
}

/// A sealed message is to be sent. What was refused waits as if there were no session.
pub proof fn law_finish_outgoing_packet<K, R: Jitter>(
    sealed: Result<Packet<WgData>, Packet>,
    result: Outgoing,
)
    ensures
        forall|t: &mut Tunn<K, R>| #[trigger]
            call_ensures(Tunn::<K, R>::finish_outgoing_packet, (t, sealed), result) ==> {
                &&& sealed matches Ok(p) ==> {
                    &&& result == Outgoing::Send(WgKind::Data(p))
                    &&& exists|sample: nat|
                        #[trigger] sent_drawn(
                            (*t)@.timers,
                            p@,
                            (*t).jitter(),
                            (*final(t)).jitter(),
                            sample,
                        ) && (*final(t))@ == (*t)@.sealed(p@, sample)
                }
                &&& sealed matches Err(p) ==> {
                    &&& result matches Outgoing::Next(step)
                    &&& step is None <==> (*t)@.handshake.status.state is InitSent
                    &&& step is Some ==> step->0 is Initiate
                    &&& (*final(t))@ == (*t)@.unsealed(p.model()).0
                    &&& (*final(t)).jitter() == (*t).jitter()
                }
            },
{
}

/// The packet that waits longest is next, padded.
pub proof fn law_get_queued_packets<K, R: Jitter>(tun_mtu: u16, step: Option<Step>)
    ensures
        forall|t: &mut Tunn<K, R>| #[trigger]
            call_ensures(Tunn::<K, R>::get_queued_packets, (t, tun_mtu), step) ==> {
                &&& (*final(t))@ == (*t)@.next_queued(tun_mtu as int).0
                &&& step_model(step) == (*t)@.next_queued(tun_mtu as int).1
                &&& (*t)@.queue.len() == 0 ==> step is None
                &&& (*t)@.queue.len() > 0 && (*t)@.sessions[(*t)@.current] is Some ==> step_model(
                    step,
                ) == Some(
                    StepModel::Seal {
                        slot: (*t)@.current,
                        packet: padded((*t)@.queue[0], tun_mtu as int),
                    },
                )
                &&& (*final(t)).jitter() == (*t).jitter()
            },
{
}

/// Padding as such.
pub proof fn law_pad_to_x16(packet: Packet, tun_mtu: u16, result: Packet, multiple: int)
    requires
        call_ensures(pad_to_x16, (packet, tun_mtu), result),
        multiple % 16 == 0,
        packet@.len() <= multiple < packet@.len() + 16,
    ensures
        multiple <= tun_mtu ==> result@.len() == multiple,
        multiple > tun_mtu && tun_mtu >= packet@.len() ==> result@.len() == tun_mtu,
        multiple > tun_mtu && tun_mtu < packet@.len() ==> result@.len() == packet@.len(),
        result@.take(packet@.len() as int) == packet@,
        forall|i: int| packet@.len() <= i < result@.len() ==> #[trigger] result@[i] == 0,
        result.pool() == packet.pool(),
{
    assert(result.model().bytes == padded(packet.model(), tun_mtu as int).bytes);
}

/// What the handshake made of an initiation: the response is to be sent and the session is there,
/// or the error comes back and only the handshake's own standing changes.
pub proof fn law_handle_handshake_init<K, R: Jitter>(
    status: HandshakeStatus,
    outcome: Result<(Packet<WgHandshakeResp>, Session<K>), WireGuardError>,
    result: Result<TunnResult, WireGuardError>,
)
    ensures
        forall|t: &mut Tunn<K, R>| #[trigger]
            call_ensures(Tunn::<K, R>::handle_handshake_init, (t, status, outcome), result) ==> {
                let sample = (*final(t))@.timers.rekey_after_time;
                &&& outcome matches Ok((packet, session)) ==> {
                    &&& result matches Ok(TunnResult::WriteToNetwork(WgKind::HandshakeResp(p)))
                    &&& p == packet
                    &&& (*final(t))@ == (*t)@.init_answered(status, session, sample)
                    &&& drawn(
                        (*t)@.timers.params.rekey_after_time,
                        (*t).jitter(),
                        (*final(t)).jitter(),
                        sample,
                    )
                }
                &&& outcome matches Err(e) ==> {
                    &&& result matches Err(r)
                    &&& r == e
                    &&& (*final(t))@ == (*t)@.with_status(status)
                    &&& (*final(t)).jitter() == (*t).jitter()
                }
            },
{
}

/// What the handshake made of a response: the session comes back with an empty packet to seal, or
/// the error does.
pub proof fn law_accept_handshake_response<K, R: Jitter>(
    packet: Packet<WgHandshakeResp>,
    status: HandshakeStatus,
    outcome: Result<Session<K>, WireGuardError>,
    result: Result<(Session<K>, Packet), WireGuardError>,
)
    ensures
        forall|t: &mut Tunn<K, R>| #[trigger]
            call_ensures(
                Tunn::<K, R>::accept_handshake_response,
                (t, packet, status, outcome),
                result,
            ) ==> {
                &&& outcome matches Ok(session) ==> {
                    &&& result matches Ok((s, p))
                    &&& s == session
                    &&& p@.len() == 0
                    &&& p.pool() == packet.pool()
                    &&& (*final(t))@ == (*t)@.response_accepted(status)
                }
                &&& outcome matches Err(e) ==> {
                    &&& result matches Err(r)
                    &&& r == e
                    &&& (*final(t))@ == (*t)@.with_status(status)
                }
                &&& (*final(t)).jitter() == (*t).jitter()
            },
{
}

/// The keepalive of an accepted response is to be sent, and its session is the one in use.
pub proof fn law_handle_handshake_response<K, R: Jitter>(
    session: Session<K>,
    keepalive: Packet<WgData>,
    result: Result<TunnResult, WireGuardError>,
)
    ensures
        forall|t: &mut Tunn<K, R>| #[trigger]
            call_ensures(Tunn::<K, R>::handle_handshake_response, (t, session, keepalive), result)
                ==> {
                let sample = (*final(t))@.timers.rekey_after_time;
                &&& result matches Ok(TunnResult::WriteToNetwork(WgKind::Data(p)))
                &&& p == keepalive
                &&& (*final(t))@ == (*t)@.response_confirmed(session, keepalive@, sample)
                &&& drawn(
                    (*t)@.timers.params.rekey_after_time,
                    (*t).jitter(),
                    (*final(t)).jitter(),
                    sample,
                )
            },
{
}

/// What the handshake made of a cookie reply.
pub proof fn law_handle_cookie_reply<K, R: Jitter>(
    status: HandshakeStatus,
    outcome: Result<(), WireGuardError>,
    result: Result<TunnResult, WireGuardError>,
)
    ensures
        forall|t: &mut Tunn<K, R>| #[trigger]
            call_ensures(Tunn::<K, R>::handle_cookie_reply, (t, status, outcome), result) ==> {
                &&& outcome is Ok ==> {
                    &&& result matches Ok(r)
                    &&& r is Done
                    &&& (*final(t))@ == (*t)@.cookie_received(status)
                }
                &&& outcome matches Err(e) ==> {
                    &&& result matches Err(r)
                    &&& r == e
                    &&& (*final(t))@ == (*t)@.with_status(status)
                }
                &&& (*final(t)).jitter() == (*t).jitter()
            },
{
}

/// A message from the network is sorted by its kind, and a data message by the session that it is
/// for.
pub proof fn law_handle_incoming_packet<K, R: Jitter>(
    t: Tunn<K, R>,
    packet: WgKind,
    result: Incoming,
    data: Packet<WgData>,
    opening: Result<Opening, WireGuardError>,
)
    requires
        call_ensures(Tunn::<K, R>::handle_incoming_packet, (&t, packet), result),
        call_ensures(Tunn::<K, R>::decapsulate_with_session, (&t, data), opening),
    ensures
        incoming_result(t@, packet, result),
        opening_result(t@, data, opening),
{
}

/// What a session opened comes back, is accounted for, and is written to the tunnel.
pub proof fn law_handle_data<K, R: Jitter>(
    slot: usize,
    opened: Result<Packet, WireGuardError>,
    packet: Result<Packet, WireGuardError>,
    result: Result<TunnResult, WireGuardError>,
)
    ensures
        forall|t: &mut Tunn<K, R>| #[trigger]
            call_ensures(Tunn::<K, R>::handle_data, (t, slot, opened), result) ==> {
                &&& opened matches Ok(p) ==> {
                    &&& result matches Ok(TunnResult::WriteToTunnel(w))
                    &&& w == p
                    &&& exists|sample: nat|
                        #[trigger] received_drawn(
                            (*t)@.timers,
                            p@,
                            (*t).jitter(),
                            (*final(t)).jitter(),
                            sample,
                        ) && (*final(t))@ == (*t)@.data_received(slot as int, p@, sample)
                }
                &&& opened matches Err(e) ==> {
                    &&& result matches Err(r)
                    &&& r == e
                    &&& (*final(t))@ == (*t)@
                    &&& (*final(t)).jitter() == (*t).jitter()
                }
            },
        forall|t: &mut Tunn<K, R>| #[trigger]
            call_ensures(Tunn::<K, R>::finish_decapsulation, (t, slot, opened), packet) ==> {
                &&& packet == opened
                &&& opened matches Ok(p) ==> (*final(t))@ == (*t)@.opened(slot as int, p@)
                &&& opened is Err ==> (*final(t))@ == (*t)@
                &&& (*final(t)).jitter() == (*t).jitter()
            },
{
}

/// Updating the timers gives what the passing of time asks for, or the one error, and draws
/// nothing.
pub proof fn law_update_timers<K, R: Jitter>(
    elapsed: Duration,
    since_init_sent: Duration,
    result: Result<Option<Step>, WireGuardError>,
)
    ensures
        forall|t: &mut Tunn<K, R>| #[trigger]
            call_ensures(Tunn::<K, R>::update_timers, (t, elapsed, since_init_sent), result) ==> {
                let (next, outcome) = (*t)@.update_timers(elapsed@, since_init_sent@);
                &&& (*final(t))@ == next
                &&& result is Ok <==> outcome is Ok
                &&& result matches Ok(step) ==> step_model(step) == outcome->Ok_0
                &&& result matches Err(e) ==> e is ConnectionExpired
                &&& (*final(t)).jitter() == (*t).jitter()
            },
{
}

/// What is set is set, and a reset is one.
pub proof fn law_settings<K, R: Jitter>(
    elapsed: Duration,
    static_private: [u8; 32],
    static_public: [u8; 32],
    preshared_key: Option<[u8; 32]>,
    seconds: Option<u16>,
    params: TimerParams,
)
    ensures
        forall|t: &mut Tunn<K, R>| #[trigger]
            call_ensures(Tunn::<K, R>::reset, (t, elapsed), ()) ==> (*final(t))@ == (*t)@.reset(
                elapsed@,
            ),
        forall|t: &mut Tunn<K, R>| #[trigger]
            call_ensures(Tunn::<K, R>::set_static_private, (t, static_private, static_public), ())
                ==> (*final(t))@ == (*t)@.with_static_private(static_private, static_public),
        forall|t: &mut Tunn<K, R>| #[trigger]
            call_ensures(Tunn::<K, R>::set_preshared_key, (t, preshared_key), ()) ==> (*final(t))@
                == (*t)@.with_preshared_key(preshared_key),
        forall|t: &mut Tunn<K, R>| #[trigger]
            call_ensures(Tunn::<K, R>::set_persistent_keepalive, (t, seconds), ()) ==> (*final(
                t))@ == (*t)@.set_persistent_keepalive(seconds),
        forall|t: &mut Tunn<K, R>| #[trigger]
            call_ensures(Tunn::<K, R>::dangerously_set_timer_params, (t, params), ()) ==> (*final(
                t))@ == (TunnModel { timers: (*t)@.timers.set_params(params@), ..(*t)@ }),
{
}

/// What a tunnel shows of itself.
pub proof fn law_readings<K, R: Jitter>(
    t: Tunn<K, R>,
    elapsed: Duration,
    expired: bool,
    preshared_key: Option<[u8; 32]>,
    seconds: Option<u16>,
    handshake: Option<Duration>,
    received: Option<Duration>,
    slot: usize,
    queued: Option<usize>,
)
    requires
        t@.wf(),
        call_ensures(Tunn::<K, R>::is_expired, (&t,), expired),
        call_ensures(Tunn::<K, R>::preshared_key, (&t,), preshared_key),
        call_ensures(Tunn::<K, R>::persistent_keepalive, (&t,), seconds),
        call_ensures(Tunn::<K, R>::time_since_last_handshake, (&t, elapsed), handshake),
        call_ensures(Tunn::<K, R>::time_since_last_packet_received, (&t, elapsed), received),
        call_ensures(Tunn::<K, R>::current_slot, (&t,), slot),
        call_ensures(Tunn::<K, R>::queued_packet_len, (&t,), queued),
    ensures
        expired <==> t@.handshake.status.state is Expired,
        preshared_key == t@.handshake.preshared_key,
        seconds is Some <==> t@.timers.persistent_keepalive is Some,
        seconds is Some ==> seconds->0 * 1_000_000_000 == t@.timers.persistent_keepalive->0
            && seconds->0 > 0,
        handshake is Some <==> t@.sessions[t@.current] is Some,
        handshake is Some ==> handshake->0@ == t@.timers.now(elapsed@) - t@.timers.at(
            TimerName::TimeSessionEstablished,
        ),
        received is Some <==> t@.sessions[t@.current] is Some,
        received is Some ==> received->0@ == t@.timers.now(elapsed@) - t@.timers.at(
            TimerName::TimeLastPacketReceived,
        ),
        slot == t@.current,
        queued is Some <==> t@.queue.len() > 0,
        queued is Some ==> queued->0 == t@.queue[0].bytes.len(),
{
}

/// The statistics of a tunnel are its counters, the time since its last handshake, the slots that
/// have a session, and the last round-trip time.
pub proof fn law_stats<K, R: Jitter>(
    t: Tunn<K, R>,
    elapsed: Duration,
    stats: (Option<Duration>, usize, usize, Vec<usize>, Option<u32>),
    slot: usize,
)
    requires
        t@.wf(),
        call_ensures(Tunn::<K, R>::stats, (&t, elapsed), stats),
        slot < 8,
    ensures
        stats.0 is Some <==> t@.sessions[t@.current] is Some,
        stats.0 is Some ==> stats.0->0@ == t@.timers.now(elapsed@) - t@.timers.at(
            TimerName::TimeSessionEstablished,
        ),
        stats.1 == t@.tx_bytes,
        stats.2 == t@.rx_bytes,
        stats.3@.contains(slot) <==> t@.sessions[slot as int] is Some,
        stats.4 == t@.handshake.status.last_rtt,
{
    let as_int = |s: usize| s as int;
    let slots = stats.3@.map_values(as_int);
    crate::noise::tunn_laws::law_sessions_by_use(t@, slot as int, 0, 1);
    if stats.3@.contains(slot) {
        let i = choose|i: int| 0 <= i < stats.3@.len() && stats.3@[i] == slot;
        assert(slots[i] == slot);
    }
    if slots.contains(slot as int) {
        let i = choose|i: int| 0 <= i < slots.len() && slots[i] == slot;
        assert(stats.3@[i] == slot);
    }
}

/// A new tunnel has our keys and the peer's, and nothing has happened to it.
pub proof fn law_new_with_rng<K, R: Jitter>(
    static_private: [u8; 32],
    peer_static_public: [u8; 32],
    preshared_key: Option<[u8; 32]>,
    persistent_keepalive: Option<u16>,
    jitter_rng: R,
    tunn: Tunn<K, R>,
)
    requires
        call_ensures(
            Tunn::<K, R>::new_with_rng,
            (static_private, peer_static_public, preshared_key, persistent_keepalive, jitter_rng),
            tunn,
        ),
    ensures
        tunn@.handshake.static_private == static_private,
        tunn@.handshake.static_public@ == x25519_public_key(static_private@),
        tunn@.handshake.peer_static_public == peer_static_public,
        tunn@.handshake.preshared_key == preshared_key,
        tunn@.handshake.status.state is Idle,
        !tunn@.handshake.status.has_cookie,
        tunn@.handshake.status.last_rtt is None,
        tunn@.current == 0,
        tunn@.session_counter == 0,
        tunn@.timers == new_timers(persistent_keepalive),
        tunn@.sessions.len() == 8,
        forall|slot: int| 0 <= slot < 8 ==> (#[trigger] tunn@.sessions[slot]) is None,
        tunn@.queue.len() == 0,
        tunn@.tx_bytes == 0,
        tunn@.rx_bytes == 0,
        tunn@.timers.current() == 0,
        tunn.jitter() == jitter_rng,
{
}

/// A drawn timeout is one of its range, and what the source gave where there is a choice.
pub proof fn law_sample_timer<K, R: Jitter>(timeout: Timeout, d: Duration)
    ensures
        forall|t: &mut Tunn<K, R>| #[trigger]
            call_ensures(Tunn::<K, R>::sample_timer, (t, timeout), d) ==> {
                let range = (*t)@.timers.params.range(timeout);
                &&& (*final(t))@ == (*t)@
                &&& range.start < range.end ==> range.start <= d@ <= range.end && (
                *t).jitter().gave((*final(t)).jitter(), range.start, range.end, d@)
                &&& range.start >= range.end ==> d@ == range.start && (*final(t)).jitter() == (
                *t).jitter()
            },
{
}

/// The timers on their own: each operation brings about the change of its name.
pub proof fn law_timer_operations(
    elapsed: Duration,
    name: TimerName,
    sample: Duration,
    is_initiator: bool,
    slot: usize,
    seconds: Option<u16>,
    due: bool,
)
    ensures
        forall|t: &mut Timers| #[trigger]
            call_ensures(Timers::tick, (t, name, sample), ()) ==> (*final(t))@ == (*t)@.tick(
                name,
                sample@,
            ),
        forall|t: &mut Timers| #[trigger]
            call_ensures(Timers::clear, (t, elapsed), ()) ==> (*final(t))@ == (*t)@.clear(elapsed@),
        forall|t: &mut Timers| #[trigger]
            call_ensures(Timers::advance, (t, elapsed), ()) ==> (*final(t))@ == (*t)@.advance(
                elapsed@,
            ),
        forall|t: &mut Timers| #[trigger]
            call_ensures(Timers::session_established, (t, is_initiator, slot, sample), ())
                ==> (*final(t))@ == (*t)@.session_established(is_initiator, slot as int, sample@),
        forall|t: &mut Timers| #[trigger]
            call_ensures(Timers::set_persistent_keepalive, (t, seconds), ()) ==> (*final(t))@
                == (*t)@.set_persistent_keepalive(seconds),
        forall|t: &mut Timers| #[trigger]
            call_ensures(Timers::reject_session, (t, slot), due) ==> (due <==> (*t)@.times[0] - (
            *t)@.session_times[slot as int] > 180 * 1_000_000_000),
        forall|t: &mut Timers| #[trigger]
            call_ensures(Timers::take_silence, (t,), due) ==> {
                &&& due == (*t)@.peer_is_silent()
                &&& due ==> (*final(t))@.want_handshake is None
                &&& !due ==> (*final(t))@ == (*t)@
            },
        forall|t: &mut Timers| #[trigger]
            call_ensures(Timers::take_keepalive, (t,), due) ==> {
                &&& due == (*t)@.keepalive_is_due()
                &&& due ==> (*final(t))@.want_keepalive is None
                &&& !due ==> (*final(t))@ == (*t)@
            },
        forall|t: &mut Timers| #[trigger]
            call_ensures(Timers::take_persistent_keepalive, (t,), due) ==> {
                &&& due == (*t)@.persistent_keepalive_is_due()
                &&& due ==> !(*final(t))@.persistent_keepalive_due
                &&& !due ==> (*final(t))@ == (*t)@
            },
{
}

/// A step that a tunnel asks for names a slot with a session.
pub proof fn law_steps_name_sessions<K>(tunn: TunnModel<K>, elapsed: nat, since_init_sent: nat)
    requires
        tunn.wf(),
    ensures
        ({
            let (next, outcome) = tunn.update_timers(elapsed, since_init_sent);
            outcome matches Ok(Some(StepModel::Seal { slot, .. })) ==> 0 <= slot < 8
                && next.sessions[slot] is Some
        }),
{
}

} // verus!
