//! What can be relied on of a tunnel, whatever happens to it.

use vstd::prelude::*;

use crate::noise::errors::WireGuardError;
use crate::noise::handshake::{Handshake, HandshakeStatus};
use crate::noise::model::{keepalive_packet, new_tunn, StepModel, TunnModel};
use crate::noise::padding::{padded, padded_len};
use crate::noise::session::Session;
use crate::noise::timers::{
    default_params, keepalive_interval, millis, secs, TimerName, Timeout,
    COOKIE_EXPIRATION_TIME, REJECT_AFTER_TIME, REKEY_ATTEMPT_TIME,
};
use crate::noise::tunn::{data_result, opening_result, prepared, Opening, TunnResult};
use crate::noise::{MAX_QUEUE_DEPTH, N_SESSIONS};
use crate::packet::wg::{data_is_keepalive, data_receiver_idx, WgData};
use crate::packet::{Packet, PacketModel};

verus! {

/// The current time never goes back: not when the timers are updated, not when they are cleared.
pub proof fn law_time_never_goes_back<K>(
    tunn: TunnModel<K>,
    elapsed: nat,
    since_init_sent: nat,
    sample: nat,
)
    requires
        tunn.wf(),
    ensures
        tunn.update_timers(elapsed, since_init_sent).0.timers.current() == tunn.timers.now(elapsed),
        tunn.reset(elapsed).timers.current() == tunn.timers.now(elapsed),
        tunn.initiated(elapsed, sample).timers.current() >= tunn.timers.current(),
        tunn.timers.now(elapsed) >= tunn.timers.current(),
{
}

/// While a clock that was set back catches up, the time stands still.
pub proof fn law_time_freezes<K>(tunn: TunnModel<K>, elapsed: nat, since_init_sent: nat)
    requires
        tunn.wf(),
        elapsed <= tunn.timers.current(),
    ensures
        tunn.update_timers(elapsed, since_init_sent).0.timers.current() == tunn.timers.current(),
{
}

/// However the clock jumps, the time since the last handshake never decreases while the session
/// lives.
pub proof fn law_time_since_handshake_never_decreases<K>(
    tunn: TunnModel<K>,
    before: nat,
    after: nat,
    since_init_sent: nat,
)
    requires
        tunn.wf(),
        tunn.update_timers(before, since_init_sent).0.current_session() is Some,
    ensures
        ({
            let first = tunn.update_timers(before, since_init_sent).0;
            let second = first.update_timers(after, since_init_sent).0;
            let shown = first.time_since(TimerName::TimeSessionEstablished, before);
            let then = second.time_since(TimerName::TimeSessionEstablished, after);
            &&& shown is Some
            &&& then matches Some(t) ==> t >= shown->0
            &&& after <= before ==> (then is Some ==> then == shown)
        }),
{
}

/// What was received and sent, and what was set up, stays as it is however often the timers are
/// updated, while the connection is not given up: an update only drops sessions that are too old
/// and disarms what it has taken care of.
pub proof fn law_update_keeps_history<K>(
    tunn: TunnModel<K>,
    elapsed: nat,
    since_init_sent: nat,
    name: TimerName,
)
    requires
        tunn.wf(),
        tunn.update_timers(elapsed, since_init_sent).1 is Ok,
        !(name is TimeCurrent),
        !(name is TimePersistentKeepalive),
        !(name is Top),
    ensures
        ({
            let next = tunn.update_timers(elapsed, since_init_sent).0;
            &&& next.timers.at(name) == tunn.timers.at(name)
            &&& next.current == tunn.current
            &&& next.tx_bytes == tunn.tx_bytes
            &&& next.rx_bytes == tunn.rx_bytes
            &&& next.handshake_state() == tunn.handshake_state()
            &&& forall|i: int|
                0 <= i < N_SESSIONS ==> #[trigger] next.sessions[i] is None || next.sessions[i]
                    == tunn.sessions[i]
        }),
{
}

/// A session that is too old to be used is gone once the timers are updated.
pub proof fn law_old_sessions_are_dropped<K>(
    tunn: TunnModel<K>,
    elapsed: nat,
    since_init_sent: nat,
    slot: int,
)
    requires
        tunn.wf(),
        0 <= slot < N_SESSIONS,
    ensures
        ({
            let next = tunn.update_timers(elapsed, since_init_sent).0;
            next.sessions[slot] is Some ==> next.timers.current() - next.timers.session_times[slot]
                <= secs(REJECT_AFTER_TIME as int)
        }),
{
}

/// A cookie that is no longer good is gone once the timers are updated, unless the connection is
/// given up.
pub proof fn law_old_cookies_are_dropped<K>(
    tunn: TunnModel<K>,
    elapsed: nat,
    since_init_sent: nat,
)
    requires
        tunn.wf(),
        tunn.update_timers(elapsed, since_init_sent).1 is Ok,
    ensures
        ({
            let next = tunn.update_timers(elapsed, since_init_sent).0;
            next.handshake.status.has_cookie ==> next.timers.since(TimerName::TimeCookieReceived)
                < secs(COOKIE_EXPIRATION_TIME as int)
        }),
{
}

/// Once the connection is given up, no session and no packet is left, and only the one error
/// comes back however often the timers are updated.
pub proof fn law_expired_stays_expired<K>(
    tunn: TunnModel<K>,
    elapsed: nat,
    since_init_sent: nat,
    later: nat,
)
    requires
        tunn.wf(),
        tunn.update_timers(elapsed, since_init_sent).1 is Err,
    ensures
        ({
            let (next, outcome) = tunn.update_timers(elapsed, since_init_sent);
            &&& outcome == Err::<Option<StepModel>, _>(WireGuardError::ConnectionExpired)
            &&& next.handshake_state() is Expired
            &&& !(tunn.handshake_state() is Expired) ==> {
                &&& next.queue.len() == 0
                &&& forall|i: int| 0 <= i < N_SESSIONS ==> (#[trigger] next.sessions[i]) is None
            }
            &&& next.update_timers(later, since_init_sent).1 == outcome
        }),
{
}

/// A packet to send revives a connection that was given up: it starts a handshake, and once the
/// initiation is written the timers start over.
pub proof fn law_packet_revives_expired<K>(
    tunn: TunnModel<K>,
    packet: PacketModel,
    elapsed: nat,
    sample: nat,
    since_init_sent: nat,
)
    requires
        tunn.wf(),
        tunn.handshake_state() is Expired,
        tunn.current_session() is None,
    ensures
        tunn.outgoing(packet).1 == Some(StepModel::Initiate),
        tunn.initiated(elapsed, sample).update_timers(elapsed, since_init_sent).1 is Ok,
        !(tunn.initiated(elapsed, sample).handshake_state() is Expired),
{
}

/// An initiation is written for a connection that was given up, forced or not. Every timer then
/// shows the time of that, so that both the attempt and the life of the connection start over:
/// there is nothing to do at that time, as long as the initiation need not be sent again.
pub proof fn law_initiation_revives_expired<K>(
    tunn: TunnModel<K>,
    force_resend: bool,
    elapsed: nat,
    sample: nat,
    since_init_sent: nat,
    name: TimerName,
)
    requires
        tunn.wf(),
        tunn.handshake_state() is Expired,
        !(name is Top),
    ensures
        tunn.initiation(force_resend) == Some(StepModel::Initiate),
        ({
            let revived = tunn.initiated(elapsed, sample);
            &&& !(revived.handshake_state() is Expired)
            &&& revived.timers.at(name) == tunn.timers.now(elapsed)
            &&& since_init_sent < sample ==> revived.update_timers(elapsed, since_init_sent).1
                == Ok::<Option<StepModel>, WireGuardError>(None)
            &&& tunn.timers.params == default_params() && tunn.timers.params.rekey_timeout.gives(
                sample,
            ) ==> revived.update_timers(elapsed, 0).1 == Ok::<Option<StepModel>, WireGuardError>(
                None,
            )
        }),
{
}

/// Whether the timers show that a packet was just sent: the peer is not owed a keepalive.
pub open spec fn has_just_sent<K>(tunn: TunnModel<K>) -> bool {
    &&& tunn.timers.since(TimerName::TimeLastPacketSent) == 0
    &&& tunn.timers.want_keepalive is None
}

/// Whether the timers show that a packet was just received: the peer is not silent.
pub open spec fn has_just_received<K>(tunn: TunnModel<K>) -> bool {
    &&& tunn.timers.since(TimerName::TimeLastPacketReceived) == 0
    &&& tunn.timers.want_handshake is None
}

/// Whatever is sent shows in the timers: an initiation, the answer to one, the first message of a
/// new session, and every data message.
pub proof fn law_sent_packets_show_in_timers<K>(
    tunn: TunnModel<K>,
    elapsed: nat,
    status: HandshakeStatus,
    session: Session<K>,
    message: Seq<u8>,
    sample: nat,
)
    requires
        tunn.wf(),
    ensures
        has_just_sent(tunn.initiated(elapsed, sample)),
        has_just_sent(tunn.init_answered(status, session, sample)),
        has_just_sent(tunn.response_confirmed(session, message, sample)),
        has_just_sent(tunn.sealed(message, sample)),
{
}

/// Whatever is received on a session, and whatever establishes one, shows in the timers: an
/// initiation that was answered, a response, and every data message.
pub proof fn law_received_packets_show_in_timers<K>(
    tunn: TunnModel<K>,
    status: HandshakeStatus,
    session: Session<K>,
    message: Seq<u8>,
    slot: int,
    packet: Seq<u8>,
    sample: nat,
)
    requires
        tunn.wf(),
        0 <= slot < N_SESSIONS,
    ensures
        has_just_received(tunn.init_answered(status, session, sample)),
        has_just_received(tunn.response_confirmed(session, message, sample)),
        has_just_received(tunn.data_received(slot, packet, sample)),
{
}

/// A packet that one side sends without padding is written to the tunnel on the other side byte by
/// byte, where the session opens what the peer's session seals: the sender has exactly that packet
/// sealed, the message goes to the session that receives it, and what was opened is handed on.
pub proof fn law_packet_round_trip<K>(
    sender: TunnModel<K>,
    receiver: TunnModel<K>,
    packet: Packet,
    open: spec_fn(Seq<u8>) -> Seq<u8>,
    message: Packet<WgData>,
    slot: int,
    opening: Result<Opening, WireGuardError>,
    opened: Packet,
)
    requires
        sender.wf(),
        receiver.wf(),
        sender.current_session() is Some,
        // The message opens to what the sender asked to be sealed.
        sender.outgoing(prepared(packet.model(), None)).1 matches Some(
            StepModel::Seal { packet: plain, .. },
        ) ==> open(message@) == plain.bytes,
        // The receiver has the session that the message is for, and says what to open.
        receiver.receives_first(slot, data_receiver_idx(message@)),
        opening_result(receiver, message, opening),
        opening matches Ok(o) ==> opened@ == open(o.packet@),
    ensures
        opening matches Ok(o) && o.slot == slot,
        data_result(Ok(opened)) matches Ok(TunnResult::WriteToTunnel(written)) && written@
            == packet@,
{
    match opening {
        Ok(o) => {
            if o.slot < slot {
                assert(receiver.receives(o.slot as int, data_receiver_idx(message@)));
            }
        },
        Err(_) => {
            assert(receiver.receives(slot, data_receiver_idx(message@)));
        },
    }
}

/// After a reset the next packet to send starts a handshake and waits, as in a new tunnel.
pub proof fn law_reset_starts_over<K>(tunn: TunnModel<K>, elapsed: nat, packet: PacketModel)
    requires
        tunn.wf(),
    ensures
        ({
            let reset = tunn.reset(elapsed);
            let fresh = new_tunn::<K>(reset.handshake, None);
            &&& reset.wf()
            &&& reset.sessions == fresh.sessions
            &&& reset.queue == fresh.queue
            &&& reset.outgoing(packet).1 == Some(StepModel::Initiate)
            &&& reset.outgoing(packet).0.queue == seq![packet]
            &&& fresh.outgoing(packet).1 == reset.outgoing(packet).1
            &&& fresh.outgoing(packet).0.queue == reset.outgoing(packet).0.queue
        }),
{
    assert(tunn.reset(elapsed).outgoing(packet).0.queue == seq![packet]);
}

/// After a reset nothing is armed and every timer shows the current time, as in a new tunnel whose
/// time frame starts now.
pub proof fn law_reset_disarms_timers<K>(tunn: TunnModel<K>, elapsed: nat, name: TimerName)
    requires
        tunn.wf(),
        !(name is Top),
    ensures
        ({
            let timers = tunn.reset(elapsed).timers;
            &&& timers.since(name) == 0
            &&& timers.want_keepalive is None
            &&& timers.want_handshake is None
            &&& timers.persistent_keepalive == tunn.timers.persistent_keepalive
            &&& timers.persistent_keepalive_due == (timers.persistent_keepalive is Some)
        }),
{
}

/// With persistent keepalives enabled, a new tunnel and one that was reset start a handshake the
/// next time their timers are updated.
pub proof fn law_persistent_keepalive_starts_handshake<K>(
    tunn: TunnModel<K>,
    handshake: Handshake,
    seconds: u16,
    elapsed: nat,
    since_init_sent: nat,
)
    requires
        tunn.wf(),
        tunn.timers.persistent_keepalive is Some,
        handshake.status.state is Idle,
        seconds > 0,
    ensures
        tunn.reset(elapsed).update_timers(elapsed, since_init_sent).1 == Ok::<_, WireGuardError>(
            Some(StepModel::Initiate),
        ),
        new_tunn::<K>(handshake, Some(seconds)).update_timers(0, since_init_sent).1 == Ok::<
            _,
            WireGuardError,
        >(Some(StepModel::Initiate)),
{
}

/// A new preshared key is for the handshakes to come: packets go out, messages find their
/// session, and timers fire as they would without it.
pub proof fn law_preshared_key_keeps_traffic<K>(
    tunn: TunnModel<K>,
    preshared_key: Option<[u8; 32]>,
    packet: PacketModel,
    slot: int,
    idx: int,
    elapsed: nat,
    since_init_sent: nat,
)
    requires
        tunn.wf(),
    ensures
        ({
            let changed = tunn.with_preshared_key(preshared_key);
            &&& changed.handshake.preshared_key == preshared_key
            &&& changed.sessions == tunn.sessions
            &&& changed.outgoing(packet).1 == tunn.outgoing(packet).1
            &&& changed.receives(slot, idx) == tunn.receives(slot, idx)
            &&& changed.update_timers(elapsed, since_init_sent).1 == tunn.update_timers(
                elapsed,
                since_init_sent,
            ).1
        }),
{
    let changed = tunn.with_preshared_key(preshared_key);
    let advanced = tunn.advance(elapsed);
    assert(changed.advance(elapsed) == advanced.with_preshared_key(preshared_key));
    let kept = advanced.drop_old_cookie();
    assert(changed.advance(elapsed).drop_old_cookie() == kept.with_preshared_key(preshared_key));
}

/// A new key pair ends all sessions: no packet goes out until a handshake has established one.
pub proof fn law_new_key_pair_ends_sessions<K>(
    tunn: TunnModel<K>,
    static_private: [u8; 32],
    static_public: [u8; 32],
    packet: PacketModel,
    slot: int,
    idx: int,
)
    requires
        tunn.wf(),
        0 <= slot < N_SESSIONS,
    ensures
        ({
            let changed = tunn.with_static_private(static_private, static_public);
            &&& !(changed.outgoing(packet).1 matches Some(StepModel::Seal { .. }))
            &&& !changed.receives(slot, idx)
        }),
{
}

/// A keepalive is no data: it never arms the passive keepalive that data would.
pub proof fn law_received_keepalive_arms_nothing<K>(tunn: TunnModel<K>, slot: int, sample: nat)
    requires
        tunn.wf(),
        0 <= slot < N_SESSIONS,
    ensures
        ({
            let next = tunn.data_received(slot, Seq::empty(), sample);
            next.timers.want_keepalive == tunn.timers.want_keepalive
        }),
{
}

/// Whether a tunnel has no reason to send a keepalive: it waits for no passive one, and has no
/// persistent ones.
pub open spec fn has_no_keepalive<K>(tunn: TunnModel<K>) -> bool {
    &&& tunn.timers.want_keepalive is None
    &&& tunn.timers.persistent_keepalive is None
}

/// What happens to a tunnel between two packets of data: its timers are updated, or it receives
/// a keepalive.
pub enum Idling {
    /// The timers are updated.
    Update {
        /// Time since the tunnel started.
        elapsed: nat,
        /// Time since an initiation was sent that awaits its response.
        since_init_sent: nat,
    },
    /// A keepalive is received on the session of a slot.
    Keepalive {
        /// The slot of the session.
        slot: int,
        /// A timeout that nothing comes of.
        sample: nat,
    },
}

/// The state of a tunnel after a number of such events.
pub open spec fn idled<K>(tunn: TunnModel<K>, events: Seq<Idling>) -> TunnModel<K>
    decreases events.len(),
{
    if events.len() == 0 {
        tunn
    } else {
        let before = idled(tunn, events.drop_last());
        match events.last() {
            Idling::Update { elapsed, since_init_sent } => before.update_timers(
                elapsed,
                since_init_sent,
            ).0,
            Idling::Keepalive { slot, sample } => before.data_received(slot, Seq::empty(), sample),
        }
    }
}

/// A tunnel that has no reason to send a keepalive does not get one from receiving keepalives or
/// from waiting, however long: two idle peers do not keep each other busy. Nothing is sealed when
/// its timers are updated.
pub proof fn law_keepalive_is_not_answered<K>(
    tunn: TunnModel<K>,
    events: Seq<Idling>,
    elapsed: nat,
    since_init_sent: nat,
)
    requires
        has_no_keepalive(tunn),
    ensures
        has_no_keepalive(idled(tunn, events)),
        !(idled(tunn, events).update_timers(elapsed, since_init_sent).1 matches Ok(
            Some(StepModel::Seal { .. }),
        )),
    decreases events.len(),
{
    if events.len() > 0 {
        law_keepalive_is_not_answered(tunn, events.drop_last(), elapsed, since_init_sent);
    }
}

/// Data that is left without an answer is answered by a keepalive as soon as the passive timeout
/// is over, and not before, on a session that nothing else happens on.
pub proof fn law_passive_keepalive_fires_on_time<K>(
    tunn: TunnModel<K>,
    slot: int,
    packet: Seq<u8>,
    sample: nat,
    elapsed: nat,
    since_init_sent: nat,
)
    requires
        tunn.wf(),
        0 <= slot < N_SESSIONS,
        has_no_keepalive(tunn),
        packet.len() > 0,
        tunn.handshake_state() is Idle,
        ({
            let next = tunn.data_received(slot, packet, sample).advance(elapsed);
            &&& next.current_session() is Some
            &&& !next.is_lost()
            &&& !next.handshake_is_due()
        }),
    ensures
        ({
            let received = tunn.data_received(slot, packet, sample);
            let step = received.update_timers(elapsed, since_init_sent).1;
            step == Ok::<_, WireGuardError>(
                if received.timers.now(elapsed) - tunn.timers.current() >= sample {
                    Some(
                        StepModel::Seal { slot: received.current, packet: keepalive_packet() },
                    )
                } else {
                    None
                },
            )
        }),
{
    let received = tunn.data_received(slot, packet, sample);
    assert(received.timers.want_keepalive == Some(tunn.timers.current()));
    assert(received.timers.keepalive_timeout == sample);
}

/// An initiation without a response is sent again as soon as its timeout is over, and not before,
/// until the attempt is given up.
pub proof fn law_retry_fires_on_time<K>(
    tunn: TunnModel<K>,
    elapsed: nat,
    sample: nat,
    later: nat,
    since_init_sent: nat,
)
    requires
        tunn.wf(),
        !tunn.initiated(elapsed, sample).advance(later).is_lost(),
    ensures
        tunn.initiated(elapsed, sample).update_timers(later, since_init_sent).1 == Ok::<
            _,
            WireGuardError,
        >(
            if since_init_sent >= sample {
                Some(StepModel::Initiate)
            } else {
                None
            },
        ),
{
}

/// With the default ranges chance adds no more than 333 milliseconds to a timeout, and never takes
/// anything from it: an initiation is sent again after 5 seconds, silence is answered after 15,
/// data after exactly 10, and a session is replaced after exactly 120.
pub proof fn law_default_jitter_is_bounded(timeout: Timeout, sample: nat)
    requires
        default_params().range(timeout).gives(sample),
    ensures
        match timeout {
            Timeout::Rekey => secs(5) <= sample <= secs(5) + millis(333),
            Timeout::NewHandshake => secs(15) <= sample <= secs(15) + millis(333),
            Timeout::Keepalive => sample == secs(10),
            Timeout::RekeyAfter => sample == secs(120),
        },
{
}

/// Sending an initiation again does not prolong the attempt: it is given up when it is due by its
/// first initiation, however many followed.
pub proof fn law_retries_do_not_prolong_attempt<K>(
    tunn: TunnModel<K>,
    elapsed: nat,
    sample: nat,
    later: nat,
    since_init_sent: nat,
)
    requires
        tunn.wf(),
        tunn.handshake_state() is InitSent,
    ensures
        ({
            let retried = tunn.initiated(elapsed, sample);
            let started = tunn.timers.at(TimerName::TimeLastHandshakeStarted);
            &&& retried.timers.at(TimerName::TimeLastHandshakeStarted) == started
            &&& tunn.timers.now(later) - started >= secs(REKEY_ATTEMPT_TIME as int)
                ==> retried.update_timers(later, since_init_sent).1 is Err
        }),
{
}

/// Packets wait in the order in which they came, and no more than there is room for.
pub proof fn law_queue_is_bounded_and_in_order<K>(tunn: TunnModel<K>, packet: PacketModel)
    requires
        tunn.wf(),
    ensures
        ({
            let next = tunn.queue_packet(packet);
            &&& next.wf()
            &&& tunn.queue.len() < MAX_QUEUE_DEPTH ==> next.queue == tunn.queue.push(packet)
            &&& tunn.queue.len() == MAX_QUEUE_DEPTH ==> next == tunn
        }),
{
}

/// What is asked for when a number of waiting packets are taken out of the line one by one, where
/// each is sealed into a message before the next is taken.
pub open spec fn drained<K>(tunn: TunnModel<K>, mtu: int, sealed: Seq<(Seq<u8>, nat)>) -> (
    TunnModel<K>,
    Seq<Option<StepModel>>,
)
    decreases sealed.len(),
{
    if sealed.len() == 0 {
        (tunn, Seq::empty())
    } else {
        let (before, steps) = drained(tunn, mtu, sealed.drop_last());
        let (taken, step) = before.next_queued(mtu);
        (taken.sealed(sealed.last().0, sealed.last().1), steps.push(step))
    }
}

/// With a session, the packets that wait are sealed with it in the order in which they came, each
/// padded, and none is left out.
pub proof fn law_queue_is_drained_in_order<K>(
    tunn: TunnModel<K>,
    mtu: int,
    sealed: Seq<(Seq<u8>, nat)>,
)
    requires
        tunn.wf(),
        tunn.current_session() is Some,
        sealed.len() <= tunn.queue.len(),
    ensures
        ({
            let (next, steps) = drained(tunn, mtu, sealed);
            &&& next.queue == tunn.queue.skip(sealed.len() as int)
            &&& next.sessions == tunn.sessions
            &&& next.current == tunn.current
            &&& steps.len() == sealed.len()
            &&& forall|i: int|
                0 <= i < sealed.len() ==> #[trigger] steps[i] == Some(
                    StepModel::Seal { slot: tunn.current, packet: padded(tunn.queue[i], mtu) },
                )
        }),
    decreases sealed.len(),
{
    if sealed.len() > 0 {
        law_queue_is_drained_in_order(tunn, mtu, sealed.drop_last());
        let (before, steps) = drained(tunn, mtu, sealed.drop_last());
        assert(before.queue[0] == tunn.queue[sealed.len() - 1]);
        assert(before.queue.skip(1) == tunn.queue.skip(sealed.len() as int));
    } else {
        assert(tunn.queue.skip(0) == tunn.queue);
    }
}

/// Padding only adds zeros. It makes the length a multiple of 16, or as much as the MTU allows,
/// and leaves a packet alone that exceeds the MTU or needs no padding.
pub proof fn law_padding(packet: PacketModel, mtu: int)
    requires
        mtu >= 0,
    ensures
        ({
            let len = packet.bytes.len() as int;
            let result = padded(packet, mtu);
            &&& result.pool == packet.pool
            &&& result.bytes.take(len) == packet.bytes
            &&& forall|i: int| len <= i < result.bytes.len() ==> #[trigger] result.bytes[i] == 0
            &&& result.bytes.len() < len + 16
            &&& result.bytes.len() % 16 == 0 || result.bytes.len() == mtu || result.bytes.len()
                == len
            &&& len <= mtu ==> result.bytes.len() <= mtu
            &&& len > mtu || len % 16 == 0 ==> result == packet
        }),
{
    let len = packet.bytes.len() as int;
    assert(padded_len(len, mtu) >= len);
    assert(padded(packet, mtu).bytes.take(len) == packet.bytes);
    if len > mtu || len % 16 == 0 {
        assert(padded(packet, mtu).bytes == packet.bytes);
    }
}

/// Slots are used in turn, across the wrap of the counter too.
pub proof fn law_slots_are_used_in_turn<K>(tunn: TunnModel<K>, session: Session<K>)
    requires
        tunn.wf(),
    ensures
        0 <= tunn.next_slot() < N_SESSIONS,
        tunn.put_session(session).next_slot() == (tunn.next_slot() + 1) % N_SESSIONS as int,
{
}

/// The state of a tunnel after a number of sessions were put into slots.
pub open spec fn put_all<K>(tunn: TunnModel<K>, sessions: Seq<Session<K>>) -> TunnModel<K>
    decreases sessions.len(),
{
    if sessions.len() == 0 {
        tunn
    } else {
        put_all(tunn, sessions.drop_last()).put_session(sessions.last())
    }
}

/// The most recent sessions are kept, as many as there are slots, and the slots after them are
/// used in turn.
pub proof fn law_recent_sessions_are_kept<K>(tunn: TunnModel<K>, sessions: Seq<Session<K>>)
    requires
        tunn.wf(),
    ensures
        put_all(tunn, sessions).wf(),
        put_all(tunn, sessions).next_slot() == (tunn.next_slot() + sessions.len())
            % N_SESSIONS as int,
        forall|i: int|
            0 <= i < sessions.len() && sessions.len() - N_SESSIONS <= i ==> put_all(
                tunn,
                sessions,
            ).sessions[(tunn.next_slot() + i) % N_SESSIONS as int] == Some(#[trigger] sessions[i]),
    decreases sessions.len(),
{
    if sessions.len() > 0 {
        let earlier = sessions.drop_last();
        law_recent_sessions_are_kept(tunn, earlier);
        let before = put_all(tunn, earlier);
        law_slots_are_used_in_turn(before, sessions.last());
        assert forall|i: int|
            0 <= i < sessions.len() && sessions.len() - N_SESSIONS <= i implies put_all(
            tunn,
            sessions,
        ).sessions[(tunn.next_slot() + i) % N_SESSIONS as int] == Some(#[trigger] sessions[i]) by {
            if i < earlier.len() {
                assert(earlier[i] == sessions[i]);
            }
        }
    }
}

/// A session that a response established is the one that packets are sent with from then on.
pub proof fn law_confirmed_session_is_used<K>(
    tunn: TunnModel<K>,
    session: Session<K>,
    message: Seq<u8>,
    sample: nat,
    packet: PacketModel,
)
    requires
        tunn.wf(),
    ensures
        ({
            let next = tunn.response_confirmed(session, message, sample);
            &&& next.current_session() == Some(session)
            &&& next.timers.is_initiator
            &&& next.outgoing(packet).1 == Some(StepModel::Seal { slot: next.current, packet })
        }),
{
}

/// A session that answers an initiation is not used for sending at once: packets are still sent
/// with the session that they were sent with, unless its slot was the one in turn.
pub proof fn law_answered_session_waits<K>(
    tunn: TunnModel<K>,
    status: HandshakeStatus,
    session: Session<K>,
    sample: nat,
)
    requires
        tunn.wf(),
    ensures
        ({
            let next = tunn.init_answered(status, session, sample);
            &&& next.sessions[tunn.next_slot()] == Some(session)
            &&& tunn.next_slot() != tunn.current ==> next.current_session()
                == tunn.current_session()
            &&& !next.timers.is_initiator
        }),
{
}

/// Packets are never sent with an older session than before, as long as there is one: late
/// messages on old sessions do not bring these back.
pub proof fn law_sending_session_never_gets_older<K>(
    tunn: TunnModel<K>,
    slot: int,
    packet: Seq<u8>,
    sample: nat,
)
    requires
        tunn.wf(),
        0 <= slot < N_SESSIONS,
        tunn.current_session() is Some,
    ensures
        ({
            let next = tunn.data_received(slot, packet, sample);
            &&& next.timers.session_times[next.current] >= tunn.timers.session_times[tunn.current]
            &&& tunn.timers.session_times[slot] >= tunn.timers.session_times[tunn.current]
                ==> next.current == slot
        }),
{
}

/// A peer that does not answer data is sent an initiation as soon as the timeout is over, and not
/// before, where the session itself needs no replacing.
pub proof fn law_silence_starts_handshake_on_time<K>(
    tunn: TunnModel<K>,
    message: Seq<u8>,
    sample: nat,
    elapsed: nat,
    since_init_sent: nat,
)
    requires
        tunn.wf(),
        tunn.timers.want_handshake is None,
        !data_is_keepalive(message),
        tunn.handshake_state() is Idle,
        ({
            let next = tunn.sealed(message, sample).advance(elapsed);
            &&& !next.is_lost()
            &&& !next.timers.rekey_after_send()
            &&& !next.timers.rekey_after_receive()
            &&& next.current_session() is Some
        }),
    ensures
        ({
            let sent = tunn.sealed(message, sample);
            let step = sent.update_timers(elapsed, since_init_sent).1;
            step == Ok::<_, WireGuardError>(Some(StepModel::Initiate)) <==> sent.timers.now(elapsed)
                - tunn.timers.current() >= sample
        }),
{
    let sent = tunn.sealed(message, sample);
    assert(sent.timers.want_handshake == Some(tunn.timers.current()));
    assert(sent.timers.new_handshake_timeout == sample);
}

/// Any packet from the peer ends the wait for one, and any packet to it ends its wait.
pub proof fn law_packets_end_waits<K>(
    tunn: TunnModel<K>,
    slot: int,
    packet: Seq<u8>,
    message: Seq<u8>,
    sample: nat,
)
    requires
        tunn.wf(),
        0 <= slot < N_SESSIONS,
    ensures
        tunn.data_received(slot, packet, sample).timers.want_handshake is None,
        tunn.sealed(message, sample).timers.want_keepalive is None,
        data_is_keepalive(message) ==> tunn.sealed(message, sample).timers.want_handshake
            == tunn.timers.want_handshake,
{
}

/// The initiator of a session replaces it as soon as it has the age for it, if data was sent since
/// it was established, and the connection is not given up.
pub proof fn law_initiator_rekeys_on_time<K>(
    tunn: TunnModel<K>,
    elapsed: nat,
    since_init_sent: nat,
)
    requires
        tunn.wf(),
        tunn.handshake_state() is Idle,
        tunn.timers.is_initiator,
        tunn.timers.at(TimerName::TimeSessionEstablished) < tunn.timers.at(
            TimerName::TimeLastDataPacketSent,
        ),
        tunn.timers.now(elapsed) - tunn.timers.at(TimerName::TimeSessionEstablished)
            >= tunn.timers.rekey_after_time,
        !tunn.advance(elapsed).is_lost(),
    ensures
        tunn.update_timers(elapsed, since_init_sent).1 == Ok::<_, WireGuardError>(
            Some(StepModel::Initiate),
        ),
{
}

/// The responder of a session never replaces it for its age: while the peer is not silent and the
/// session is there, no handshake is started.
pub proof fn law_responder_does_not_rekey<K>(
    tunn: TunnModel<K>,
    elapsed: nat,
    since_init_sent: nat,
)
    requires
        tunn.wf(),
        tunn.handshake_state() is Idle,
        !tunn.timers.is_initiator,
        !tunn.advance(elapsed).timers.peer_is_silent(),
        tunn.advance(elapsed).current_session() is Some,
    ensures
        tunn.update_timers(elapsed, since_init_sent).1 != Ok::<_, WireGuardError>(
            Some(StepModel::Initiate),
        ),
{
}

/// While an initiation awaits its response, packets to send do not start another handshake.
pub proof fn law_one_handshake_at_a_time<K>(tunn: TunnModel<K>, packet: PacketModel)
    requires
        tunn.handshake_state() is InitSent,
    ensures
        tunn.outgoing(packet).1 != Some(StepModel::Initiate),
        tunn.current_session() is None && tunn.queue.len() < MAX_QUEUE_DEPTH ==> tunn.outgoing(
            packet,
        ).0.queue == tunn.queue.push(packet),
{
}

/// The interval of persistent keepalives reads as it was set, with zero read as none.
pub proof fn law_persistent_keepalive_reads_back<K>(
    tunn: TunnModel<K>,
    seconds: Option<u16>,
    read: Option<u16>,
)
    requires
        read != Some(0u16),
        keepalive_interval(read) == tunn.set_persistent_keepalive(
            seconds,
        ).timers.persistent_keepalive,
    ensures
        read == (if seconds == Some(0u16) {
            None
        } else {
            seconds
        }),
{
}

/// Persistent keepalives that were just enabled are due at once; changing their interval does not
/// make one due.
pub proof fn law_enabled_keepalive_is_due_at_once<K>(tunn: TunnModel<K>, seconds: u16)
    requires
        tunn.wf(),
        seconds > 0,
    ensures
        ({
            let next = tunn.set_persistent_keepalive(Some(seconds)).timers;
            if tunn.timers.persistent_keepalive is None {
                next.persistent_keepalive_is_due()
            } else {
                next.persistent_keepalive_is_due() == tunn.timers.persistent_keepalive_due
            }
        }),
{
}

/// The state of the initiator after a handshake: it wrote an initiation, took the response, and
/// sent a first message.
pub open spec fn after_initiating<K>(
    tunn: TunnModel<K>,
    elapsed: nat,
    status: HandshakeStatus,
    session: Session<K>,
    message: Seq<u8>,
    samples: (nat, nat),
) -> TunnModel<K> {
    tunn.initiated(elapsed, samples.0).response_accepted(status).response_confirmed(
        session,
        message,
        samples.1,
    )
}

/// The state of the responder after a handshake: it answered an initiation, and received the first
/// message, a keepalive.
pub open spec fn after_responding<K>(
    tunn: TunnModel<K>,
    status: HandshakeStatus,
    session: Session<K>,
    sample: nat,
) -> TunnModel<K> {
    tunn.init_answered(status, session, sample).data_received(tunn.next_slot(), Seq::empty(), 0)
}

/// After a handshake both sides send packets with the session that it established, and know which
/// of them initiated it.
pub proof fn law_handshake_establishes_session<K>(
    initiator: TunnModel<K>,
    responder: TunnModel<K>,
    elapsed: nat,
    statuses: (HandshakeStatus, HandshakeStatus),
    sessions: (Session<K>, Session<K>),
    message: Seq<u8>,
    samples: (nat, nat),
    sample: nat,
    packet: PacketModel,
)
    requires
        initiator.wf(),
        responder.wf(),
    ensures
        ({
            let a = after_initiating(
                initiator,
                elapsed,
                statuses.0,
                sessions.0,
                message,
                samples,
            );
            let b = after_responding(responder, statuses.1, sessions.1, sample);
            &&& a.current_session() == Some(sessions.0)
            &&& b.current_session() == Some(sessions.1)
            &&& a.timers.is_initiator
            &&& !b.timers.is_initiator
            &&& a.outgoing(packet).1 == Some(StepModel::Seal { slot: a.current, packet })
            &&& b.outgoing(packet).1 == Some(StepModel::Seal { slot: b.current, packet })
        }),
{
}

/// After the first handshake of two new tunnels there is nothing to do until time passes.
pub proof fn law_handshake_leaves_nothing_to_do<K>(
    handshakes: (Handshake, Handshake),
    statuses: (HandshakeStatus, HandshakeStatus),
    sessions: (Session<K>, Session<K>),
    message: Seq<u8>,
    samples: (nat, nat),
    sample: nat,
    since_init_sent: nat,
)
    requires
        handshakes.0.status.state is Idle,
        statuses.0.state is Idle,
        statuses.1.state is Idle,
    ensures
        after_initiating(
            new_tunn(handshakes.0, None),
            0,
            statuses.0,
            sessions.0,
            message,
            samples,
        ).update_timers(0, since_init_sent).1 == Ok::<Option<StepModel>, WireGuardError>(None),
        after_responding(
            new_tunn(handshakes.1, None),
            statuses.1,
            sessions.1,
            sample,
        ).update_timers(0, since_init_sent).1 == Ok::<Option<StepModel>, WireGuardError>(None),
{
}

} // verus!
