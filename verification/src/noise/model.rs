//! What a tunnel does, told over mathematical values.
//!
//! A [`TunnModel`] is the whole state of a [`Tunn`](crate::noise::Tunn) but for its source of
//! randomness. Each event of a tunnel is a function from one state to the next; the contracts of
//! the tunnel speak of these functions. Timeouts that chance decides come in as arguments.

use vstd::prelude::*;

use crate::noise::errors::WireGuardError;
use crate::noise::handshake::{fresh_status, Handshake, HandshakeState, HandshakeStatus};
use crate::noise::padding::padded;
use crate::noise::session::Session;
use crate::noise::timers::{new_timers, TimerName, TimersModel};
use crate::noise::{MAX_QUEUE_DEPTH, N_SESSIONS};
use crate::packet::wg::{data_is_keepalive, HANDSHAKE_INIT_LEN, HANDSHAKE_RESP_LEN};
use crate::packet::PacketModel;

verus! {

/// What a tunnel asks for so that it can send something.
pub enum StepModel {
    /// To seal a packet with the session of a slot.
    Seal {
        /// The slot of the session.
        slot: int,
        /// The packet to seal.
        packet: PacketModel,
    },
    /// To write a handshake initiation.
    Initiate,
}

/// The state of a tunnel.
#[verifier::ext_equal]
#[verifier::reject_recursive_types(K)]
pub struct TunnModel<K> {
    /// The keys, and where the handshake stands.
    pub handshake: Handshake,
    /// The sessions, by slot.
    pub sessions: Seq<Option<Session<K>>>,
    /// The slot of the session that packets are sent with.
    pub current: int,
    /// How many sessions were put into slots, modulo the range of the counter.
    pub session_counter: int,
    /// The packets that wait for a session, first to last.
    pub queue: Seq<PacketModel>,
    /// The timers.
    pub timers: TimersModel,
    /// How many bytes were sent.
    pub tx_bytes: int,
    /// How many bytes were received.
    pub rx_bytes: int,
}

/// The empty packet that makes a keepalive.
pub open spec fn keepalive_packet() -> PacketModel {
    PacketModel { bytes: Seq::empty(), pool: None }
}

/// A tunnel that starts now.
pub open spec fn new_tunn<K>(handshake: Handshake, persistent_keepalive: Option<u16>) -> TunnModel<
    K,
> {
    TunnModel {
        handshake,
        sessions: Seq::new(N_SESSIONS as nat, |i: int| None),
        current: 0,
        session_counter: 0,
        queue: Seq::empty(),
        timers: new_timers(persistent_keepalive),
        tx_bytes: 0,
        rx_bytes: 0,
    }
}

impl<K> TunnModel<K> {
    /// What holds of every tunnel at all times.
    pub open spec fn wf(self) -> bool {
        &&& self.sessions.len() == N_SESSIONS
        &&& 0 <= self.current < N_SESSIONS
        &&& 0 <= self.session_counter <= usize::MAX
        &&& self.queue.len() <= MAX_QUEUE_DEPTH
        &&& self.timers.wf()
        &&& 0 <= self.tx_bytes <= usize::MAX
        &&& 0 <= self.rx_bytes <= usize::MAX
    }

    /// How far the handshake has come.
    pub open spec fn handshake_state(self) -> HandshakeState {
        self.handshake.status.state
    }

    /// The session that packets are sent with, if there is one.
    pub open spec fn current_session(self) -> Option<Session<K>> {
        self.sessions[self.current]
    }

    /// The handshake in another status.
    pub open spec fn with_status(self, status: HandshakeStatus) -> TunnModel<K> {
        TunnModel { handshake: Handshake { status, ..self.handshake }, ..self }
    }

    /// The handshake in another state.
    pub open spec fn with_state(self, state: HandshakeState) -> TunnModel<K> {
        self.with_status(HandshakeStatus { state, ..self.handshake.status })
    }

    /// Another preshared key for the handshakes to come.
    pub open spec fn with_preshared_key(self, preshared_key: Option<[u8; 32]>) -> TunnModel<K> {
        TunnModel { handshake: Handshake { preshared_key, ..self.handshake }, ..self }
    }

    /// Another key pair of ours. Sessions of the old one are dropped.
    pub open spec fn with_static_private(
        self,
        static_private: [u8; 32],
        static_public: [u8; 32],
    ) -> TunnModel<K> {
        TunnModel {
            handshake: Handshake { static_private, static_public, ..self.handshake },
            ..self.without_sessions()
        }
    }

    /// Persistent keepalives every so many seconds.
    pub open spec fn set_persistent_keepalive(self, seconds: Option<u16>) -> TunnModel<K> {
        TunnModel { timers: self.timers.set_persistent_keepalive(seconds), ..self }
    }

    /// A timer ticked.
    pub open spec fn tick(self, name: TimerName, sample: nat) -> TunnModel<K> {
        TunnModel { timers: self.timers.tick(name, sample), ..self }
    }

    /// No session in any slot.
    pub open spec fn without_sessions(self) -> TunnModel<K> {
        TunnModel { sessions: Seq::new(N_SESSIONS as nat, |i: int| None), ..self }
    }

    /// No session, no packet that waits, and no timer armed.
    pub open spec fn clear_all(self, elapsed: nat) -> TunnModel<K> {
        TunnModel {
            queue: Seq::empty(),
            timers: self.timers.clear(elapsed),
            ..self.without_sessions()
        }
    }

    /// All cleared, with a handshake that has not started.
    pub open spec fn reset(self, elapsed: nat) -> TunnModel<K> {
        self.clear_all(elapsed).with_status(fresh_status())
    }

    /// All cleared, with a handshake that was given up.
    pub open spec fn expire(self, elapsed: nat) -> TunnModel<K> {
        self.clear_all(elapsed).with_state(HandshakeState::Expired)
    }

    /// A packet put in line for a session, unless too many wait.
    pub open spec fn queue_packet(self, packet: PacketModel) -> TunnModel<K> {
        if self.queue.len() < MAX_QUEUE_DEPTH {
            TunnModel { queue: self.queue.push(packet), ..self }
        } else {
            self
        }
    }

    /// Whether to write an initiation: not while one awaits its response, unless forced to.
    pub open spec fn initiation(self, force_resend: bool) -> Option<StepModel> {
        if self.handshake_state() is InitSent && !force_resend {
            None
        } else {
            Some(StepModel::Initiate)
        }
    }

    /// A packet that there is no session for: it waits, and a handshake is started.
    pub open spec fn unsealed(self, packet: PacketModel) -> (TunnModel<K>, Option<StepModel>) {
        (self.queue_packet(packet), self.initiation(false))
    }

    /// A packet to send: it is sealed with the current session, where there is one.
    pub open spec fn outgoing(self, packet: PacketModel) -> (TunnModel<K>, Option<StepModel>) {
        if self.current_session() is Some {
            (self, Some(StepModel::Seal { slot: self.current, packet }))
        } else {
            self.unsealed(packet)
        }
    }

    /// The packet that waits longest: it is taken out of the line, padded to `mtu`, and is one to
    /// send.
    pub open spec fn next_queued(self, mtu: int) -> (TunnModel<K>, Option<StepModel>) {
        if self.queue.len() == 0 {
            (self, None)
        } else {
            (TunnModel { queue: self.queue.skip(1), ..self }).outgoing(padded(self.queue[0], mtu))
        }
    }

    /// A data message was sealed and is sent.
    pub open spec fn sealed(self, message: Seq<u8>, sample: nat) -> TunnModel<K> {
        let sent = self.tick(TimerName::TimeLastPacketSent, 0);
        TunnModel {
            tx_bytes: self.tx_bytes + message.len(),
            ..if data_is_keepalive(message) {
                sent
            } else {
                sent.tick(TimerName::TimeLastDataPacketSent, sample)
            }
        }
    }

    /// An initiation was written and is sent. The next is due after `sample`.
    pub open spec fn initiated(self, elapsed: nat, sample: nat) -> TunnModel<K> {
        let cleared = if self.handshake_state() is Expired {
            TunnModel { timers: self.timers.clear(elapsed), ..self }
        } else {
            self
        };
        let started = if self.handshake_state() is InitSent {
            cleared
        } else {
            cleared.tick(TimerName::TimeLastHandshakeStarted, 0)
        };
        let sent = started.tick(TimerName::TimeLastPacketSent, 0);
        TunnModel {
            timers: TimersModel { rekey_timeout: sample, ..sent.timers },
            tx_bytes: self.tx_bytes + HANDSHAKE_INIT_LEN,
            ..sent.with_state(HandshakeState::InitSent)
        }
    }

    /// The slot for the next session.
    pub open spec fn next_slot(self) -> int {
        self.session_counter % N_SESSIONS as int
    }

    /// A new session in the next slot.
    pub open spec fn put_session(self, session: Session<K>) -> TunnModel<K> {
        TunnModel {
            sessions: self.sessions.update(self.next_slot(), Some(session)),
            session_counter: if self.session_counter == usize::MAX {
                0
            } else {
                self.session_counter + 1
            },
            ..self
        }
    }

    /// A session established in `slot`, to be replaced after `sample`.
    pub open spec fn session_established(
        self,
        is_initiator: bool,
        slot: int,
        sample: nat,
    ) -> TunnModel<K> {
        TunnModel {
            timers: self.timers.session_established(is_initiator, slot, sample),
            ..self
        }
    }

    /// The session of `slot` is in use. Packets are sent with it from now on, unless the one that
    /// they are sent with is younger.
    pub open spec fn use_session(self, slot: int) -> TunnModel<K> {
        if self.current_session() is None || self.timers.session_times[slot]
            >= self.timers.session_times[self.current] {
            TunnModel { current: slot, ..self }
        } else {
            self
        }
    }

    /// The handshake answered an initiation with a response and a session.
    pub open spec fn init_answered(
        self,
        status: HandshakeStatus,
        session: Session<K>,
        sample: nat,
    ) -> TunnModel<K> {
        TunnModel {
            rx_bytes: self.rx_bytes + HANDSHAKE_INIT_LEN,
            tx_bytes: self.tx_bytes + HANDSHAKE_RESP_LEN,
            ..self.with_status(status).put_session(session).tick(
                TimerName::TimeLastPacketReceived,
                0,
            ).tick(TimerName::TimeLastPacketSent, 0).session_established(
                false,
                self.next_slot(),
                sample,
            )
        }
    }

    /// The handshake accepted a response.
    pub open spec fn response_accepted(self, status: HandshakeStatus) -> TunnModel<K> {
        TunnModel { rx_bytes: self.rx_bytes + HANDSHAKE_RESP_LEN, ..self.with_status(status) }
    }

    /// The session of an accepted response is established, and its first message is sent: a
    /// packet came from the peer, and one goes to it.
    pub open spec fn response_confirmed(
        self,
        session: Session<K>,
        message: Seq<u8>,
        sample: nat,
    ) -> TunnModel<K> {
        TunnModel {
            tx_bytes: self.tx_bytes + message.len(),
            ..self.put_session(session).tick(TimerName::TimeLastPacketReceived, 0).tick(
                TimerName::TimeLastPacketSent,
                0,
            ).session_established(true, self.next_slot(), sample).use_session(self.next_slot())
        }
    }

    /// The handshake took a cookie.
    pub open spec fn cookie_received(self, status: HandshakeStatus) -> TunnModel<K> {
        self.with_status(status).tick(TimerName::TimeCookieReceived, 0)
    }

    /// Whether the session of a slot receives data messages with index `idx`.
    pub open spec fn receives(self, slot: int, idx: int) -> bool {
        self.sessions[slot] matches Some(session) && session.receiving_index == idx
    }

    /// Whether `slot` is the first that receives data messages with index `idx`.
    pub open spec fn receives_first(self, slot: int, idx: int) -> bool {
        &&& 0 <= slot < N_SESSIONS
        &&& self.receives(slot, idx)
        &&& forall|i: int| 0 <= i < slot ==> !self.receives(i, idx)
    }

    /// The session of a slot opened a data message with `packet` in it.
    pub open spec fn opened(self, slot: int, packet: Seq<u8>) -> TunnModel<K> {
        TunnModel {
            rx_bytes: self.rx_bytes + packet.len(),
            ..self.use_session(slot).tick(TimerName::TimeLastPacketReceived, 0)
        }
    }

    /// A data message was received. One with an empty packet in it is a keepalive, not data.
    pub open spec fn data_received(self, slot: int, packet: Seq<u8>, sample: nat) -> TunnModel<K> {
        let opened = self.opened(slot, packet);
        if packet.len() == 0 {
            opened
        } else {
            opened.tick(TimerName::TimeLastDataPacketReceived, sample)
        }
    }

    /// The time `elapsed` after the start has come: sessions that are too old are dropped.
    pub open spec fn advance(self, elapsed: nat) -> TunnModel<K> {
        let timers = self.timers.advance(elapsed);
        TunnModel {
            sessions: Seq::new(
                N_SESSIONS as nat,
                |i: int|
                    if timers.session_rejected(i) {
                        None
                    } else {
                        self.sessions[i]
                    },
            ),
            timers: timers.reject_old_sessions(),
            ..self
        }
    }

    /// A cookie is dropped once it is no longer good.
    pub open spec fn drop_old_cookie(self) -> TunnModel<K> {
        if self.handshake.status.has_cookie && self.timers.cookie_expired() {
            self.with_status(HandshakeStatus { has_cookie: false, ..self.handshake.status })
        } else {
            self
        }
    }

    /// Whether the connection is given up: no keys were exchanged for too long, or a handshake
    /// was tried for too long.
    pub open spec fn is_lost(self) -> bool {
        ||| self.timers.connection_expired()
        ||| self.handshake_state() is InitSent && self.timers.attempt_expired()
    }

    /// Whether a handshake is to be started that is not under way: because our session is to be
    /// replaced, or because the peer is silent.
    pub open spec fn handshake_is_due(self) -> bool {
        ||| self.timers.rekey_after_send()
        ||| self.timers.rekey_after_receive()
        ||| self.timers.peer_is_silent()
    }

    /// The wait for a silent peer ends.
    pub open spec fn end_silence(self) -> TunnModel<K> {
        if self.timers.peer_is_silent() {
            TunnModel { timers: TimersModel { want_handshake: None, ..self.timers }, ..self }
        } else {
            self
        }
    }

    /// Whether an empty packet is to be sent.
    pub open spec fn keepalive_is_due(self) -> bool {
        self.timers.keepalive_is_due() || self.timers.persistent_keepalive_is_due()
    }

    /// The keepalives that are due are taken care of.
    pub open spec fn end_keepalives(self) -> TunnModel<K> {
        let passive = if self.timers.keepalive_is_due() {
            TimersModel { want_keepalive: None, ..self.timers }
        } else {
            self.timers
        };
        let persistent = if self.timers.persistent_keepalive_is_due() {
            TimersModel { persistent_keepalive_due: false, ..passive }.set(
                TimerName::TimePersistentKeepalive,
                self.timers.current(),
            )
        } else {
            passive
        };
        TunnModel { timers: persistent, ..self }
    }

    /// What the passing of time asks for, where the connection is not given up. An initiation
    /// that awaits its response was sent `since_init_sent` ago.
    pub open spec fn timer_step(self, since_init_sent: nat) -> (TunnModel<K>, Option<StepModel>) {
        if self.handshake_state() is InitSent {
            if since_init_sent >= self.timers.rekey_timeout {
                (self, Some(StepModel::Initiate))
            } else {
                (self, None)
            }
        } else if self.handshake_is_due() {
            (self.end_silence(), Some(StepModel::Initiate))
        } else if self.keepalive_is_due() {
            self.end_keepalives().outgoing(keepalive_packet())
        } else {
            (self, None)
        }
    }

    /// What the passing of time brings about: the next state, and what it asks for. A connection
    /// that was given up stays so until an initiation is written.
    pub open spec fn update_timers(self, elapsed: nat, since_init_sent: nat) -> (
        TunnModel<K>,
        Result<Option<StepModel>, WireGuardError>,
    ) {
        let advanced = self.advance(elapsed);
        if advanced.handshake_state() is Expired {
            (advanced, Err(WireGuardError::ConnectionExpired))
        } else {
            let kept = advanced.drop_old_cookie();
            if kept.is_lost() {
                (kept.expire(elapsed), Err(WireGuardError::ConnectionExpired))
            } else {
                let (next, step) = kept.timer_step(since_init_sent);
                (next, Ok(step))
            }
        }
    }

    /// The slots from the current one back in round-robin order.
    pub open spec fn slots_by_use(self) -> Seq<int> {
        Seq::new(N_SESSIONS as nat, |i: int| (self.current - i) % N_SESSIONS as int)
    }

    /// The slots with a session in them, from the current one back in round-robin order.
    pub open spec fn sessions_by_use(self) -> Seq<int> {
        self.slots_by_use().filter(|slot: int| self.sessions[slot] is Some)
    }

    /// How long ago a timer ticked, where packets are sent with a session.
    pub open spec fn time_since(self, name: TimerName, elapsed: nat) -> Option<int> {
        if self.current_session() is Some {
            Some(self.timers.now(elapsed) - self.timers.at(name))
        } else {
            None
        }
    }
}

} // verus!
