//! A point-to-point WireGuard connection.
//!
//! A [`Tunn`] decides; it neither reads a clock nor computes on keys. What only its owner can do
//! comes back to it as an argument: where the tunnel returns a [`Step`] or an [`Incoming`], the
//! owner does what it says and hands the outcome to the function that it names.

use rand::rngs::StdRng;
use std::collections::VecDeque;
use vstd::prelude::*;
use vstd::std_specs::convert::FromSpecImpl;

use crate::noise::errors::WireGuardError;
use crate::noise::handshake::{fresh_status, Handshake, HandshakeState, HandshakeStatus};
use crate::noise::model::{new_tunn, StepModel, TunnModel};
use crate::noise::padding::{pad_to_x16, padded};
use crate::noise::random::{std_rng_from_os, Jitter};
use crate::noise::session::Session;
use crate::noise::timers::{
    keepalive_interval, TimeoutRange, TimerName, TimerParams, Timeout, Timers, TimersModel,
};
use crate::noise::x25519::{public_key, x25519_public_key};
use crate::noise::{MAX_QUEUE_DEPTH, N_SESSIONS};
use crate::packet::wg::{
    data_is_keepalive, data_receiver_idx, WgCookieReply, WgData, WgHandshakeInit, WgHandshakeResp,
    WgKind, HANDSHAKE_INIT_LEN, HANDSHAKE_RESP_LEN,
};
use crate::packet::{Packet, PacketModel};
use crate::time::Duration;

verus! {

/// Result of processing a message through the tunnel.
#[derive(Debug)]
pub enum TunnResult {
    /// Operation completed successfully with no further action needed.
    Done,
    /// An error occurred during processing.
    Error(WireGuardError),
    /// A message should be written to the network.
    WriteToNetwork(WgKind),
    /// A decrypted packet should be written to the tunnel.
    WriteToTunnel(Packet),
}

impl From<WireGuardError> for TunnResult {
    fn from(err: WireGuardError) -> (result: TunnResult) {
        TunnResult::Error(err)
    }
}

impl TunnResult {
    /// The result of handling a message, with an error as one of the results.
    pub fn from_outcome(outcome: Result<TunnResult, WireGuardError>) -> (result: TunnResult)
        ensures
            result == (match outcome {
                Ok(r) => r,
                Err(e) => TunnResult::Error(e),
            }),
    {
        match outcome {
            Ok(result) => result,
            Err(e) => TunnResult::from(e),
        }
    }
}

impl FromSpecImpl<WireGuardError> for TunnResult {
    open spec fn obeys_from_spec() -> bool {
        true
    }

    open spec fn from_spec(err: WireGuardError) -> TunnResult {
        TunnResult::Error(err)
    }
}

/// What the owner of a tunnel has to do so that the tunnel can send something.
#[derive(Debug)]
pub enum Step {
    /// Seal a packet with the session of a slot, then call [`Tunn::finish_outgoing_packet`].
    Seal {
        /// The slot of the session.
        slot: usize,
        /// The packet to seal.
        packet: Packet,
    },
    /// Write a handshake initiation, then call [`Tunn::finish_handshake_initiation`].
    Initiate,
}

impl View for Step {
    type V = StepModel;

    open spec fn view(&self) -> StepModel {
        match *self {
            Step::Seal { slot, packet } => StepModel::Seal {
                slot: slot as int,
                packet: packet.model(),
            },
            Step::Initiate => StepModel::Initiate,
        }
    }
}

/// A step, or none, in mathematical values.
pub open spec fn step_model(step: Option<Step>) -> Option<StepModel> {
    match step {
        Some(s) => Some(s@),
        None => None,
    }
}

/// What comes of a packet that was to be sealed.
#[derive(Debug)]
pub enum Outgoing {
    /// Send the sealed packet.
    Send(WgKind),
    /// The packet waits for another session. Do this, if anything.
    Next(Option<Step>),
}

/// A packet padded to the MTU of the tunnel device, where that is known.
pub open spec fn prepared(packet: PacketModel, tun_mtu: Option<u16>) -> PacketModel {
    match tun_mtu {
        Some(mtu) => padded(packet, mtu as int),
        None => packet,
    }
}

/// What the owner of a tunnel has to do with a message from the network.
#[derive(Debug)]
pub enum Incoming {
    /// Let the handshake answer an initiation, then call [`Tunn::handle_handshake_init`].
    HandshakeInit(Packet<WgHandshakeInit>),
    /// Let the handshake take a response, then call [`Tunn::accept_handshake_response`].
    HandshakeResp(Packet<WgHandshakeResp>),
    /// Let the handshake take a cookie reply, then call [`Tunn::handle_cookie_reply`].
    CookieReply(Packet<WgCookieReply>),
    /// Open a data message with the session of a slot, then call [`Tunn::handle_data`].
    Open(Opening),
    /// Nothing: this is the result.
    Finished(TunnResult),
}

/// A data message to be opened with the session of a slot.
#[derive(Debug)]
pub struct Opening {
    /// The slot of the session.
    pub slot: usize,
    /// The message to open.
    pub packet: Packet<WgData>,
}

/// What is to be done with a message from the network: a data message that no session receives
/// is refused, everything else goes to the handshake or to the first session that receives it.
pub open spec fn incoming_result<K>(tunn: TunnModel<K>, packet: WgKind, result: Incoming) -> bool {
    match packet {
        WgKind::HandshakeInit(p) => result == Incoming::HandshakeInit(p),
        WgKind::HandshakeResp(p) => result == Incoming::HandshakeResp(p),
        WgKind::CookieReply(p) => result == Incoming::CookieReply(p),
        WgKind::Data(p) => match result {
            Incoming::Open(opening) => opening_result(tunn, p, Ok(opening)),
            Incoming::Finished(TunnResult::Error(e)) => opening_result(tunn, p, Err(e)),
            _ => false,
        },
    }
}

/// A data message goes to the first session that receives it, and is refused where none does.
pub open spec fn opening_result<K>(
    tunn: TunnModel<K>,
    packet: Packet<WgData>,
    result: Result<Opening, WireGuardError>,
) -> bool {
    match result {
        Ok(opening) => {
            &&& tunn.receives_first(opening.slot as int, data_receiver_idx(packet@))
            &&& opening.packet == packet
        },
        Err(e) => {
            &&& e == WireGuardError::NoCurrentSession
            &&& forall|slot: int|
                0 <= slot < N_SESSIONS ==> !tunn.receives(slot, data_receiver_idx(packet@))
        },
    }
}

/// The packet in an opened data message is written to the tunnel as it is, empty or not.
pub open spec fn data_result(opened: Result<Packet, WireGuardError>) -> Result<
    TunnResult,
    WireGuardError,
> {
    match opened {
        Ok(packet) => Ok(TunnResult::WriteToTunnel(packet)),
        Err(e) => Err(e),
    }
}

/// A span of time, or none, in nanoseconds.
pub open spec fn span_model(span: Option<Duration>) -> Option<int> {
    match span {
        Some(d) => Some(d@ as int),
        None => None,
    }
}

/// Whether drawing from `range` can give the timeout `d` and turn the source `before` into `after`:
/// a range with a choice asks the source, and a fixed one leaves it alone.
pub open spec fn drawn<R: Jitter>(range: TimeoutRange, before: R, after: R, d: nat) -> bool {
    &&& range.gives(d)
    &&& if range.is_fixed() {
        after == before
    } else {
        before.gave(after, range.start, range.end, d)
    }
}

/// Whether the tick of a timer can come with the timeout `sample` and turn the source `before` into
/// `after`: a tick that arms a timeout draws it, and any other leaves the source alone.
pub open spec fn tick_drawn<R: Jitter>(
    timers: TimersModel,
    name: TimerName,
    before: R,
    after: R,
    sample: nat,
) -> bool {
    match timers.draws(name) {
        Some(timeout) => drawn(timers.params.range(timeout), before, after, sample),
        None => after == before,
    }
}

/// What sending a data message draws: nothing for a keepalive, and else what the tick does.
pub open spec fn sent_drawn<R: Jitter>(
    timers: TimersModel,
    message: Seq<u8>,
    before: R,
    after: R,
    sample: nat,
) -> bool {
    if data_is_keepalive(message) {
        after == before
    } else {
        tick_drawn(timers, TimerName::TimeLastDataPacketSent, before, after, sample)
    }
}

/// What receiving a packet draws: nothing for an empty one, and else what the tick does.
pub open spec fn received_drawn<R: Jitter>(
    timers: TimersModel,
    packet: Seq<u8>,
    before: R,
    after: R,
    sample: nat,
) -> bool {
    if packet.len() == 0 {
        after == before
    } else {
        tick_drawn(timers, TimerName::TimeLastDataPacketReceived, before, after, sample)
    }
}

/// Tunnel represents a point-to-point WireGuard connection.
///
/// `K` is what a session seals and opens data messages with, and `R` gives random timeouts. The
/// view of a tunnel is its state.
#[verifier::reject_recursive_types(K)]
#[verifier::reject_recursive_types(R)]
pub struct Tunn<K, R = StdRng> {
    /// The keys, and where the handshake stands.
    handshake: Handshake,
    /// The most recent sessions.
    sessions: [Option<Session<K>>; N_SESSIONS],
    /// Slot of the most recently used session.
    current: usize,
    /// Counter for slot selection when inserting new sessions.
    session_counter: usize,
    /// Packets that wait for a session.
    packet_queue: VecDeque<Packet>,
    /// Keeps tabs on the expiring timers.
    timers: Timers,
    tx_bytes: usize,
    rx_bytes: usize,
    /// Gives random timeouts.
    jitter_rng: R,
}

impl<K, R> View for Tunn<K, R> {
    type V = TunnModel<K>;

    closed spec fn view(&self) -> TunnModel<K> {
        TunnModel {
            handshake: self.handshake,
            sessions: self.sessions@,
            current: self.current as int,
            session_counter: self.session_counter as int,
            queue: Seq::new(self.packet_queue@.len(), |i: int| self.packet_queue@[i].model()),
            timers: self.timers@,
            tx_bytes: self.tx_bytes as int,
            rx_bytes: self.rx_bytes as int,
        }
    }
}

impl<K> Tunn<K, StdRng> {
    /// Creates a tunnel from our private key and the peer's public key.
    pub fn new(
        static_private: [u8; 32],
        peer_static_public: [u8; 32],
        preshared_key: Option<[u8; 32]>,
        persistent_keepalive: Option<u16>,
    ) -> (tunn: Self)
        ensures
            tunn.wf(),
            tunn@ == new_tunn::<K>(tunn@.handshake, persistent_keepalive),
            tunn@.handshake.static_private == static_private,
            tunn@.handshake.static_public@ == x25519_public_key(static_private@),
            tunn@.handshake.peer_static_public == peer_static_public,
            tunn@.handshake.preshared_key == preshared_key,
            tunn@.handshake.status == fresh_status(),
    {
        Self::new_with_rng(
            static_private,
            peer_static_public,
            preshared_key,
            persistent_keepalive,
            std_rng_from_os(),
        )
    }
}

impl<K, R: Jitter> Tunn<K, R> {
    /// What holds of every tunnel at all times.
    pub closed spec fn wf(&self) -> bool {
        &&& self@.wf()
        &&& self.timers.wf()
    }

    /// In every tunnel no time lies in the future, no more packets wait than there is room for, and
    /// packets are sent with the session of a slot that exists.
    pub proof fn law_invariant(&self)
        requires
            self.wf(),
        ensures
            self@.wf(),
    {
    }

    /// The source of random timeouts.
    pub closed spec fn jitter(&self) -> R {
        self.jitter_rng
    }

    /// Creates a tunnel from our private key and the peer's public key, with a source of random
    /// timeouts.
    pub fn new_with_rng(
        static_private: [u8; 32],
        peer_static_public: [u8; 32],
        preshared_key: Option<[u8; 32]>,
        persistent_keepalive: Option<u16>,
        jitter_rng: R,
    ) -> (tunn: Self)
        ensures
            tunn.wf(),
            tunn.jitter() == jitter_rng,
            tunn@ == new_tunn::<K>(tunn@.handshake, persistent_keepalive),
            tunn@.handshake.static_private == static_private,
            tunn@.handshake.static_public@ == x25519_public_key(static_private@),
            tunn@.handshake.peer_static_public == peer_static_public,
            tunn@.handshake.preshared_key == preshared_key,
            tunn@.handshake.status == fresh_status(),
    {
        let static_public = public_key(static_private);
        let tunn = Tunn {
            handshake: Handshake::new(
                static_private,
                static_public,
                peer_static_public,
                preshared_key,
            ),
            sessions: [None, None, None, None, None, None, None, None],
            current: 0,
            session_counter: 0,
            packet_queue: VecDeque::new(),
            timers: Timers::new(persistent_keepalive),
            tx_bytes: 0,
            rx_bytes: 0,
            jitter_rng,
        };
        assert(tunn@.sessions == new_tunn::<K>(tunn@.handshake, persistent_keepalive).sessions);
        assert(tunn@.queue == Seq::<PacketModel>::empty());
        tunn
    }

    /// Draws a timeout uniformly from its range. A range that gives only one takes no randomness.
    pub fn sample_timer(&mut self, timeout: Timeout) -> (d: Duration)
        requires
            old(self).wf(),
        ensures
            final(self).wf(),
            final(self)@ == old(self)@,
            drawn(
                old(self)@.timers.params.range(timeout),
                old(self).jitter(),
                final(self).jitter(),
                d@,
            ),
    {
        let range = self.timers.params().range(timeout);
        let start = *range.start();
        let end = *range.end();
        if start.at_least(&end) {
            // Fixed timeouts take no randomness.
            start
        } else {
            self.jitter_rng.span_between(start, end)
        }
    }

    /// Lets a timer tick. A tick that arms a timeout draws it from its range; any other takes no
    /// randomness.
    fn timer_tick(&mut self, name: TimerName)
        requires
            old(self).wf(),
            !(name is Top),
        ensures
            final(self).wf(),
            exists|sample: nat|
                #[trigger] tick_drawn(
                    old(self)@.timers,
                    name,
                    old(self).jitter(),
                    final(self).jitter(),
                    sample,
                ) && final(self)@ == old(self)@.tick(name, sample),
            old(self)@.timers.draws(name) is None ==> final(self)@ == old(self)@.tick(name, 0),
    {
        let sample = match self.timers.draws(name) {
            Some(timeout) => self.sample_timer(timeout),
            None => Duration::zero(),
        };
        self.timers.tick(name, sample);
        assert(tick_drawn(old(self)@.timers, name, old(self).jitter(), self.jitter(), sample@));
        assert(self@ == old(self)@.tick(name, sample@));
    }

    /// Records a session established in `slot`, and draws the age at which it is replaced.
    fn timer_tick_session_established(&mut self, is_initiator: bool, slot: usize)
        requires
            old(self).wf(),
            slot < N_SESSIONS,
        ensures
            final(self).wf(),
            exists|sample: nat|
                #[trigger] drawn(
                    old(self)@.timers.params.rekey_after_time,
                    old(self).jitter(),
                    final(self).jitter(),
                    sample,
                ) && final(self)@ == old(self)@.session_established(
                    is_initiator,
                    slot as int,
                    sample,
                ),
    {
        let sample = self.sample_timer(Timeout::RekeyAfter);
        self.timers.session_established(is_initiator, slot, sample);
        assert(drawn(
            old(self)@.timers.params.rekey_after_time,
            old(self).jitter(),
            self.jitter(),
            sample@,
        ));
        assert(self@ == old(self)@.session_established(is_initiator, slot as int, sample@));
    }

    /// Draws how long to wait before an initiation is sent again.
    fn update_rekey_timeout(&mut self)
        requires
            old(self).wf(),
        ensures
            final(self).wf(),
            exists|sample: nat|
                #[trigger] drawn(
                    old(self)@.timers.params.rekey_timeout,
                    old(self).jitter(),
                    final(self).jitter(),
                    sample,
                ) && final(self)@ == (TunnModel {
                    timers: TimersModel { rekey_timeout: sample, ..old(self)@.timers },
                    ..old(self)@
                }),
    {
        let sample = self.sample_timer(Timeout::Rekey);
        self.timers.set_rekey_timeout(sample);
        assert(drawn(
            old(self)@.timers.params.rekey_timeout,
            old(self).jitter(),
            self.jitter(),
            sample@,
        ));
        assert(self@.timers == (TimersModel { rekey_timeout: sample@, ..old(self)@.timers }));
        assert(self@.queue == old(self)@.queue);
    }

    /// Where the handshake stands, and the keys that go into it.
    pub fn handshake(&self) -> (handshake: &Handshake)
        ensures
            *handshake == self@.handshake,
    {
        &self.handshake
    }

    /// The session of a slot, if there is one.
    pub fn session(&self, slot: usize) -> (session: Option<&Session<K>>)
        requires
            slot < N_SESSIONS,
        ensures
            match session {
                Some(s) => self@.sessions[slot as int] == Some(*s),
                None => self@.sessions[slot as int] is None,
            },
    {
        self.sessions[slot].as_ref()
    }

    /// The slot of the session that packets are sent with.
    pub fn current_slot(&self) -> (slot: usize)
        ensures
            slot == self@.current,
    {
        self.current
    }

    /// The timers of the tunnel.
    pub fn timers(&self) -> (timers: &Timers)
        requires
            self.wf(),
        ensures
            timers@ == self@.timers,
            timers.wf(),
    {
        &self.timers
    }

    /// Whether the handshake was given up.
    pub fn is_expired(&self) -> (b: bool)
        ensures
            b == (self@.handshake_state() is Expired),
    {
        self.handshake.is_expired()
    }

    /// Drops all sessions.
    fn clear_sessions(&mut self)
        requires
            old(self).wf(),
        ensures
            final(self).wf(),
            final(self)@ == old(self)@.without_sessions(),
            final(self).jitter() == old(self).jitter(),
    {
        for i in 0..N_SESSIONS
            invariant
                self.wf(),
                forall|j: int| 0 <= j < i ==> (#[trigger] self@.sessions[j]) is None,
                self@ == (TunnModel { sessions: self@.sessions, ..old(self)@ }),
                self.jitter() == old(self).jitter(),
        {
            let ghost before = *self;
            self.sessions[i] = None;
            assert(self@.sessions == before@.sessions.update(i as int, None));
            assert(self@.queue == before@.queue);
        }
        assert(self@.sessions == old(self)@.without_sessions().sessions);
    }

    /// Drops all sessions and all packets that wait, and disarms the timers.
    fn clear_all(&mut self, elapsed: Duration)
        requires
            old(self).wf(),
        ensures
            final(self).wf(),
            final(self)@ == old(self)@.clear_all(elapsed@),
            final(self).jitter() == old(self).jitter(),
    {
        self.clear_sessions();
        self.packet_queue.clear();
        self.timers.clear(elapsed);
        assert(self@.queue == Seq::<PacketModel>::empty());
    }

    /// Drops all sessions and resets the handshake and timing state.
    ///
    /// After this, the tunnel behaves as if freshly created: the next outgoing packet, or
    /// persistent keepalive, initiates a new handshake.
    pub fn reset(&mut self, elapsed: Duration)
        requires
            old(self).wf(),
        ensures
            final(self).wf(),
            final(self)@ == old(self)@.reset(elapsed@),
            final(self).jitter() == old(self).jitter(),
    {
        self.clear_all(elapsed);
        self.handshake.status = HandshakeStatus::new();
    }

    /// Updates the private key and drops all sessions.
    pub fn set_static_private(&mut self, static_private: [u8; 32], static_public: [u8; 32])
        requires
            old(self).wf(),
        ensures
            final(self).wf(),
            final(self)@ == old(self)@.with_static_private(static_private, static_public),
            final(self).jitter() == old(self).jitter(),
    {
        self.handshake.static_private = static_private;
        self.handshake.static_public = static_public;
        self.clear_sessions();
    }

    /// Updates the preshared key used for future handshakes.
    ///
    /// The current session keeps working until it is replaced, so changing the key does not
    /// interrupt traffic.
    pub fn set_preshared_key(&mut self, preshared_key: Option<[u8; 32]>)
        requires
            old(self).wf(),
        ensures
            final(self).wf(),
            final(self)@ == old(self)@.with_preshared_key(preshared_key),
            final(self).jitter() == old(self).jitter(),
    {
        self.handshake.preshared_key = preshared_key;
        assert(self@.queue == old(self)@.queue);
    }

    /// The current preshared key.
    pub fn preshared_key(&self) -> (preshared_key: Option<[u8; 32]>)
        ensures
            preshared_key == self@.handshake.preshared_key,
    {
        self.handshake.preshared_key
    }

    /// Puts a packet in line for a session, unless too many wait.
    fn queue_packet(&mut self, packet: Packet)
        requires
            old(self).wf(),
        ensures
            final(self).wf(),
            final(self)@ == old(self)@.queue_packet(packet.model()),
            final(self).jitter() == old(self).jitter(),
    {
        if self.packet_queue.len() < MAX_QUEUE_DEPTH {
            self.packet_queue.push_back(packet);
        }
        assert(self@.queue == old(self)@.queue_packet(packet.model()).queue);
    }

    /// Takes the packet that waits longest out of the line.
    fn dequeue_packet(&mut self) -> (packet: Option<Packet>)
        requires
            old(self).wf(),
        ensures
            final(self).wf(),
            match packet {
                Some(p) => {
                    &&& old(self)@.queue.len() > 0
                    &&& p.model() == old(self)@.queue[0]
                    &&& final(self)@ == (TunnModel {
                        queue: old(self)@.queue.skip(1),
                        ..old(self)@
                    })
                },
                None => old(self)@.queue.len() == 0 && final(self)@ == old(self)@,
            },
            final(self).jitter() == old(self).jitter(),
    {
        let packet = self.packet_queue.pop_front();
        if packet.is_some() {
            assert(self@.queue == old(self)@.queue.skip(1));
        } else {
            assert(self@.queue == old(self)@.queue);
        }
        packet
    }

    /// Whether to write a handshake initiation.
    ///
    /// With `force_resend` one is written even if a handshake is already in progress, for
    /// example when a handshake times out. The owner then calls
    /// [`Tunn::finish_handshake_initiation`].
    pub fn format_handshake_initiation(&self, force_resend: bool) -> (step: Option<Step>)
        ensures
            step_model(step) == self@.initiation(force_resend),
    {
        if self.handshake.is_in_progress() && !force_resend {
            return None;
        }
        Some(Step::Initiate)
    }

    /// Records that a handshake initiation was written, and gives it back to be sent.
    pub fn finish_handshake_initiation(
        &mut self,
        packet: Packet<WgHandshakeInit>,
        elapsed: Duration,
    ) -> (message: WgKind)
        requires
            old(self).wf(),
            packet.wf(),
            old(self)@.tx_bytes + HANDSHAKE_INIT_LEN <= usize::MAX,
        ensures
            final(self).wf(),
            message == WgKind::HandshakeInit(packet),
            exists|sample: nat|
                #[trigger] drawn(
                    old(self)@.timers.params.rekey_timeout,
                    old(self).jitter(),
                    final(self).jitter(),
                    sample,
                ) && final(self)@ == old(self)@.initiated(elapsed@, sample),
    {
        if self.handshake.is_expired() {
            self.timers.clear(elapsed);
        }
        assert(self@.queue == old(self)@.queue);
        let starting_new_handshake = !self.handshake.is_in_progress();
        self.handshake.status.state = HandshakeState::InitSent;
        if starting_new_handshake {
            self.timer_tick(TimerName::TimeLastHandshakeStarted);
        }
        self.timer_tick(TimerName::TimeLastPacketSent);
        self.update_rekey_timeout();
        self.tx_bytes = self.tx_bytes + packet.len();
        proof {
            let sample = self@.timers.rekey_timeout;
            assert(drawn(
                old(self)@.timers.params.rekey_timeout,
                old(self).jitter(),
                self.jitter(),
                sample,
            ));
            assert(self@ == old(self)@.initiated(elapsed@, sample));
        }
        WgKind::HandshakeInit(packet)
    }

    /// Finds the session to seal a packet with.
    ///
    /// Returns `Err(packet)` if there is no active session. Otherwise the owner seals the packet
    /// and calls [`Tunn::finish_encapsulation`] or [`Tunn::finish_outgoing_packet`].
    pub fn encapsulate_with_session(&self, packet: Packet) -> (result: Result<Step, Packet>)
        requires
            self.wf(),
        ensures
            match result {
                Ok(step) => {
                    &&& self@.current_session() is Some
                    &&& step@ == (StepModel::Seal {
                        slot: self@.current,
                        packet: packet.model(),
                    })
                },
                Err(p) => self@.current_session() is None && p == packet,
            },
    {
        if self.sessions[self.current].is_some() {
            Ok(Step::Seal { slot: self.current, packet })
        } else {
            Err(packet)
        }
    }

    /// Records what came of sealing a packet, and gives it back.
    ///
    /// A session that has sealed as many packets as it may refuses to seal another one, and
    /// returns `Err` with the packet.
    pub fn finish_encapsulation(&mut self, sealed: Result<Packet<WgData>, Packet>) -> (result:
        Result<Packet<WgData>, Packet>)
        requires
            old(self).wf(),
            sealed matches Ok(p) ==> p.wf() && old(self)@.tx_bytes + p@.len() <= usize::MAX,
        ensures
            final(self).wf(),
            result == sealed,
            match sealed {
                Ok(p) => exists|sample: nat|
                    #[trigger] sent_drawn(
                        old(self)@.timers,
                        p@,
                        old(self).jitter(),
                        final(self).jitter(),
                        sample,
                    ) && final(self)@ == old(self)@.sealed(p@, sample),
                Err(_) => final(self)@ == old(self)@ && final(self).jitter() == old(self).jitter(),
            },
    {
        let packet = sealed?;
        self.timer_tick(TimerName::TimeLastPacketSent);
        let ghost sent = *self;
        // Keepalives are no data.
        if !packet.is_keepalive() {
            self.timer_tick(TimerName::TimeLastDataPacketSent);
        }
        let ghost ticked = self@;
        self.tx_bytes = self.tx_bytes + packet.len();
        proof {
            let sample = if data_is_keepalive(packet@) {
                0
            } else {
                choose|sample: nat|
                    tick_drawn(
                        sent@.timers,
                        TimerName::TimeLastDataPacketSent,
                        sent.jitter(),
                        self.jitter(),
                        sample,
                    ) && ticked == sent@.tick(TimerName::TimeLastDataPacketSent, sample)
            };
            assert(sent_drawn(
                old(self)@.timers,
                packet@,
                old(self).jitter(),
                self.jitter(),
                sample,
            ));
            assert(self@ == old(self)@.sealed(packet@, sample));
        }
        Ok(packet)
    }

    /// Takes a packet to send.
    ///
    /// If there is an active session, the packet is to be sealed with it. Otherwise the packet is
    /// added to a queue, and a handshake initiation is to be written unless a handshake is already
    /// in progress.
    ///
    /// If `tun_mtu` is `Some`, the packet is padded with zeros to a multiple of 16 bytes, clamped
    /// to not exceed the MTU.
    pub fn handle_outgoing_packet(&mut self, packet: Packet, tun_mtu: Option<u16>) -> (step: Option<
        Step,
    >)
        requires
            old(self).wf(),
        ensures
            final(self).wf(),
            (final(self)@, step_model(step)) == old(self)@.outgoing(
                prepared(packet.model(), tun_mtu),
            ),
            final(self).jitter() == old(self).jitter(),
    {
        let packet = match tun_mtu {
            Some(mtu) => pad_to_x16(packet, mtu),
            None => packet,
        };
        match self.encapsulate_with_session(packet) {
            Ok(step) => Some(step),
            Err(packet) => self.wait_for_session(packet),
        }
    }

    /// Queues a packet for future retry, and initiates a new handshake if none is in progress.
    fn wait_for_session(&mut self, packet: Packet) -> (step: Option<Step>)
        requires
            old(self).wf(),
        ensures
            final(self).wf(),
            (final(self)@, step_model(step)) == old(self)@.unsealed(packet.model()),
            final(self).jitter() == old(self).jitter(),
    {
        self.queue_packet(packet);
        self.format_handshake_initiation(false)
    }

    /// Takes what came of sealing a packet.
    ///
    /// A sealed packet is to be sent. One that the session refused to seal is treated as if there
    /// were no session.
    pub fn finish_outgoing_packet(&mut self, sealed: Result<Packet<WgData>, Packet>) -> (result:
        Outgoing)
        requires
            old(self).wf(),
            sealed matches Ok(p) ==> p.wf() && old(self)@.tx_bytes + p@.len() <= usize::MAX,
        ensures
            final(self).wf(),
            match sealed {
                Ok(p) => {
                    &&& result == Outgoing::Send(WgKind::Data(p))
                    &&& exists|sample: nat|
                        #[trigger] sent_drawn(
                            old(self)@.timers,
                            p@,
                            old(self).jitter(),
                            final(self).jitter(),
                            sample,
                        ) && final(self)@ == old(self)@.sealed(p@, sample)
                },
                Err(p) => {
                    &&& result matches Outgoing::Next(step)
                    &&& (final(self)@, step_model(step)) == old(self)@.unsealed(p.model())
                    &&& final(self).jitter() == old(self).jitter()
                },
            },
    {
        match self.finish_encapsulation(sealed) {
            Ok(packet) => Outgoing::Send(WgKind::Data(packet)),
            Err(packet) => Outgoing::Next(self.wait_for_session(packet)),
        }
    }

    /// The length of the packet that waits longest, if any does. It tells whether the packet will
    /// be padded, and so whether the MTU is needed.
    pub fn queued_packet_len(&self) -> (len: Option<usize>)
        ensures
            match len {
                Some(n) => self@.queue.len() > 0 && n == self@.queue[0].bytes.len(),
                None => self@.queue.len() == 0,
            },
    {
        if self.packet_queue.len() == 0 {
            None
        } else {
            Some(self.packet_queue[0].len())
        }
    }

    /// Takes the packet that waits longest out of the queue and treats it as one to send.
    ///
    /// The owner goes on until there is no step left to do.
    pub fn get_queued_packets(&mut self, tun_mtu: u16) -> (step: Option<Step>)
        requires
            old(self).wf(),
        ensures
            final(self).wf(),
            (final(self)@, step_model(step)) == old(self)@.next_queued(tun_mtu as int),
            final(self).jitter() == old(self).jitter(),
    {
        match self.dequeue_packet() {
            Some(packet) => self.handle_outgoing_packet(packet, Some(tun_mtu)),
            None => None,
        }
    }

    /// Updates the slot of the session that packets are sent with, if needed.
    fn set_current_session(&mut self, new_slot: usize)
        requires
            old(self).wf(),
            new_slot < N_SESSIONS,
        ensures
            final(self).wf(),
            final(self)@ == old(self)@.use_session(new_slot as int),
            final(self).jitter() == old(self).jitter(),
    {
        let cur_slot = self.current;
        if cur_slot == new_slot {
            // Already using this session, this is the common case.
            return;
        }
        if self.sessions[cur_slot].is_none() || self.timers.session_is_no_older(
            new_slot,
            cur_slot,
        ) {
            self.current = new_slot;
            assert(self@.queue == old(self)@.queue);
        }
    }

    /// The next slot, in round-robin order.
    fn next_session_slot(&mut self) -> (slot: usize)
        requires
            old(self).wf(),
        ensures
            final(self).wf(),
            slot == old(self)@.next_slot(),
            final(self)@ == (TunnModel {
                session_counter: if old(self)@.session_counter == usize::MAX {
                    0
                } else {
                    old(self)@.session_counter + 1
                },
                ..old(self)@
            }),
            final(self).jitter() == old(self).jitter(),
    {
        let slot = self.session_counter % N_SESSIONS;
        self.session_counter = self.session_counter.wrapping_add(1);
        assert(self@.queue == old(self)@.queue);
        slot
    }

    /// Places a session into a slot. A session that was there is dropped.
    fn put_session(&mut self, slot: usize, session: Session<K>)
        requires
            old(self).wf(),
            slot < N_SESSIONS,
        ensures
            final(self).wf(),
            final(self)@ == (TunnModel {
                sessions: old(self)@.sessions.update(slot as int, Some(session)),
                ..old(self)@
            }),
            final(self).jitter() == old(self).jitter(),
    {
        self.sessions[slot] = Some(session);
        assert(self@.queue == old(self)@.queue);
    }

    /// Takes what the handshake made of an initiation: its response and the new session, or an
    /// error.
    pub fn handle_handshake_init(
        &mut self,
        status: HandshakeStatus,
        outcome: Result<(Packet<WgHandshakeResp>, Session<K>), WireGuardError>,
    ) -> (result: Result<TunnResult, WireGuardError>)
        requires
            old(self).wf(),
            outcome matches Ok((packet, _)) ==> {
                &&& packet.wf()
                &&& old(self)@.rx_bytes + HANDSHAKE_INIT_LEN <= usize::MAX
                &&& old(self)@.tx_bytes + HANDSHAKE_RESP_LEN <= usize::MAX
            },
        ensures
            final(self).wf(),
            match outcome {
                Ok((packet, session)) => {
                    &&& result == Ok::<_, WireGuardError>(
                        TunnResult::WriteToNetwork(WgKind::HandshakeResp(packet)),
                    )
                    &&& exists|sample: nat|
                        #[trigger] drawn(
                            old(self)@.timers.params.rekey_after_time,
                            old(self).jitter(),
                            final(self).jitter(),
                            sample,
                        ) && final(self)@ == old(self)@.init_answered(status, session, sample)
                },
                Err(e) => {
                    &&& result == Err::<TunnResult, _>(e)
                    &&& final(self)@ == old(self)@.with_status(status)
                    &&& final(self).jitter() == old(self).jitter()
                },
            },
    {
        self.handshake.status = status;
        assert(self@ == old(self)@.with_status(status));
        let (packet, session) = match outcome {
            Ok(accepted) => accepted,
            Err(e) => return Err(e),
        };
        self.rx_bytes = self.rx_bytes + HANDSHAKE_INIT_LEN;
        let slot = self.next_session_slot();
        self.put_session(slot, session);
        self.timer_tick(TimerName::TimeLastPacketReceived);
        self.timer_tick(TimerName::TimeLastPacketSent);
        // We are not the initiator of the new session.
        self.timer_tick_session_established(false, slot);
        self.tx_bytes = self.tx_bytes + packet.len();
        proof {
            let sample = self@.timers.rekey_after_time;
            assert(drawn(
                old(self)@.timers.params.rekey_after_time,
                old(self).jitter(),
                self.jitter(),
                sample,
            ));
            assert(self@ == old(self)@.init_answered(status, session, sample));
        }
        Ok(TunnResult::WriteToNetwork(WgKind::HandshakeResp(packet)))
    }

    /// Takes what the handshake made of a response: the new session, or an error.
    ///
    /// The owner seals the empty packet that comes back with the session, and calls
    /// [`Tunn::handle_handshake_response`].
    pub fn accept_handshake_response(
        &mut self,
        packet: Packet<WgHandshakeResp>,
        status: HandshakeStatus,
        outcome: Result<Session<K>, WireGuardError>,
    ) -> (result: Result<(Session<K>, Packet), WireGuardError>)
        requires
            old(self).wf(),
            packet.wf(),
            outcome is Ok ==> old(self)@.rx_bytes + HANDSHAKE_RESP_LEN <= usize::MAX,
        ensures
            final(self).wf(),
            match outcome {
                Ok(session) => {
                    &&& result matches Ok((s, p))
                    &&& s == session
                    &&& p@ == Seq::<u8>::empty()
                    &&& p.pool() == packet.pool()
                    &&& final(self)@ == old(self)@.response_accepted(status)
                },
                Err(e) => {
                    &&& result == Err::<(Session<K>, Packet), _>(e)
                    &&& final(self)@ == old(self)@.with_status(status)
                },
            },
            final(self).jitter() == old(self).jitter(),
    {
        self.handshake.status = status;
        assert(self@ == old(self)@.with_status(status));
        let session = match outcome {
            Ok(session) => session,
            Err(e) => return Err(e),
        };
        self.rx_bytes = self.rx_bytes + packet.len();
        assert(self@ == old(self)@.response_accepted(status));
        let mut keepalive = packet.into_bytes();
        keepalive.truncate(0);
        Ok((session, keepalive))
    }

    /// Takes the session of an accepted response and its first message, which is to be sent: the
    /// empty packet that came with the session, sealed.
    pub fn handle_handshake_response(
        &mut self,
        session: Session<K>,
        keepalive_packet: Packet<WgData>,
    ) -> (result: Result<TunnResult, WireGuardError>)
        requires
            old(self).wf(),
            data_is_keepalive(keepalive_packet@),
            old(self)@.tx_bytes + keepalive_packet@.len() <= usize::MAX,
        ensures
            final(self).wf(),
            result == Ok::<_, WireGuardError>(
                TunnResult::WriteToNetwork(WgKind::Data(keepalive_packet)),
            ),
            exists|sample: nat|
                #[trigger] drawn(
                    old(self)@.timers.params.rekey_after_time,
                    old(self).jitter(),
                    final(self).jitter(),
                    sample,
                ) && final(self)@ == old(self)@.response_confirmed(
                    session,
                    keepalive_packet@,
                    sample,
                ),
    {
        let slot = self.next_session_slot();
        self.put_session(slot, session);
        self.timer_tick(TimerName::TimeLastPacketReceived);
        // The keepalive is sent, too.
        self.timer_tick(TimerName::TimeLastPacketSent);
        // We are the initiator of the new session.
        self.timer_tick_session_established(true, slot);
        self.set_current_session(slot);
        self.tx_bytes = self.tx_bytes + keepalive_packet.len();
        proof {
            let sample = self@.timers.rekey_after_time;
            assert(drawn(
                old(self)@.timers.params.rekey_after_time,
                old(self).jitter(),
                self.jitter(),
                sample,
            ));
            assert(self@ == old(self)@.response_confirmed(session, keepalive_packet@, sample));
        }
        Ok(TunnResult::WriteToNetwork(WgKind::Data(keepalive_packet)))
    }

    /// Takes what the handshake made of a cookie reply.
    pub fn handle_cookie_reply(
        &mut self,
        status: HandshakeStatus,
        outcome: Result<(), WireGuardError>,
    ) -> (result: Result<TunnResult, WireGuardError>)
        requires
            old(self).wf(),
        ensures
            final(self).wf(),
            match outcome {
                Ok(_) => {
                    &&& result == Ok::<_, WireGuardError>(TunnResult::Done)
                    &&& final(self)@ == old(self)@.cookie_received(status)
                },
                Err(e) => {
                    &&& result == Err::<TunnResult, _>(e)
                    &&& final(self)@ == old(self)@.with_status(status)
                },
            },
            final(self).jitter() == old(self).jitter(),
    {
        self.handshake.status = status;
        assert(self@ == old(self)@.with_status(status));
        match outcome {
            Ok(_) => {
                self.timer_tick(TimerName::TimeCookieReceived);
                Ok(TunnResult::Done)
            },
            Err(e) => Err(e),
        }
    }

    /// Takes a message from the network, and says what is to be done with it by its kind.
    pub fn handle_incoming_packet(&self, packet: WgKind) -> (result: Incoming)
        requires
            self.wf(),
            packet.wf(),
        ensures
            incoming_result(self@, packet, result),
    {
        match packet {
            WgKind::HandshakeInit(p) => Incoming::HandshakeInit(p),
            WgKind::HandshakeResp(p) => Incoming::HandshakeResp(p),
            WgKind::CookieReply(p) => Incoming::CookieReply(p),
            WgKind::Data(p) => match self.decapsulate_with_session(p) {
                Ok(opening) => Incoming::Open(opening),
                Err(e) => Incoming::Finished(TunnResult::from(e)),
            },
        }
    }

    /// Finds the session to open a data message with: the first one whose index it carries.
    ///
    /// # Errors
    ///
    /// [`WireGuardError::NoCurrentSession`] if there is none.
    pub fn decapsulate_with_session(&self, packet: Packet<WgData>) -> (result: Result<
        Opening,
        WireGuardError,
    >)
        requires
            self.wf(),
            packet.wf(),
        ensures
            opening_result(self@, packet, result),
    {
        let r_idx = packet.receiver_idx();
        for slot in 0..N_SESSIONS
            invariant
                self.wf(),
                r_idx == data_receiver_idx(packet@),
                forall|i: int| 0 <= i < slot ==> !self@.receives(i, r_idx as int),
        {
            if let Some(session) = &self.sessions[slot] {
                if session.receiving_index == r_idx {
                    assert(self@.receives(slot as int, r_idx as int));
                    return Ok(Opening { slot, packet });
                }
            }
        }
        Err(WireGuardError::NoCurrentSession)
    }

    /// Takes what came of opening a data message with the session of `slot`, and gives it back.
    ///
    /// # Errors
    ///
    /// The error that the session gave, if it did not open the message.
    pub fn finish_decapsulation(&mut self, slot: usize, opened: Result<Packet, WireGuardError>) -> (
    result: Result<Packet, WireGuardError>)
        requires
            old(self).wf(),
            slot < N_SESSIONS,
            opened matches Ok(p) ==> old(self)@.rx_bytes + p@.len() <= usize::MAX,
        ensures
            final(self).wf(),
            result == opened,
            match opened {
                Ok(p) => final(self)@ == old(self)@.opened(slot as int, p@),
                Err(_) => final(self)@ == old(self)@,
            },
            final(self).jitter() == old(self).jitter(),
    {
        let packet = match opened {
            Ok(packet) => packet,
            Err(e) => return Err(e),
        };
        self.set_current_session(slot);
        self.timer_tick(TimerName::TimeLastPacketReceived);
        self.rx_bytes = self.rx_bytes + packet.len();
        assert(self@ == old(self)@.opened(slot as int, packet@));
        Ok(packet)
    }

    /// Takes what came of opening a data message with the session of `slot`. The packet in it is
    /// to be written to the tunnel.
    pub fn handle_data(&mut self, slot: usize, opened: Result<Packet, WireGuardError>) -> (result:
        Result<TunnResult, WireGuardError>)
        requires
            old(self).wf(),
            slot < N_SESSIONS,
            opened matches Ok(p) ==> old(self)@.rx_bytes + p@.len() <= usize::MAX,
        ensures
            final(self).wf(),
            result == data_result(opened),
            match opened {
                Ok(p) => exists|sample: nat|
                    #[trigger] received_drawn(
                        old(self)@.timers,
                        p@,
                        old(self).jitter(),
                        final(self).jitter(),
                        sample,
                    ) && final(self)@ == old(self)@.data_received(slot as int, p@, sample),
                Err(_) => final(self)@ == old(self)@ && final(self).jitter() == old(self).jitter(),
            },
    {
        let packet = match self.finish_decapsulation(slot, opened) {
            Ok(packet) => packet,
            Err(e) => return Err(e),
        };
        let ghost before_tick = *self;
        if !packet.is_empty() {
            self.timer_tick(TimerName::TimeLastDataPacketReceived);
        }
        proof {
            let sample = if packet@.len() == 0 {
                0
            } else {
                choose|sample: nat|
                    tick_drawn(
                        before_tick@.timers,
                        TimerName::TimeLastDataPacketReceived,
                        before_tick.jitter(),
                        self.jitter(),
                        sample,
                    ) && self@ == before_tick@.tick(TimerName::TimeLastDataPacketReceived, sample)
            };
            assert(received_drawn(
                old(self)@.timers,
                packet@,
                old(self).jitter(),
                self.jitter(),
                sample,
            ));
            assert(self@ == old(self)@.data_received(slot as int, packet@, sample));
        }
        Ok(TunnResult::WriteToTunnel(packet))
    }

    /// Drops the sessions that are too old to be used.
    fn update_session_timers(&mut self)
        requires
            old(self).wf(),
        ensures
            final(self).wf(),
            final(self)@ == (TunnModel {
                sessions: Seq::new(
                    N_SESSIONS as nat,
                    |i: int|
                        if old(self)@.timers.session_rejected(i) {
                            None
                        } else {
                            old(self)@.sessions[i]
                        },
                ),
                timers: old(self)@.timers.reject_old_sessions(),
                ..old(self)@
            }),
            final(self).jitter() == old(self).jitter(),
    {
        let ghost rejected = old(self)@.timers.reject_old_sessions().session_times;
        for i in 0..N_SESSIONS
            invariant
                self.wf(),
                rejected == old(self)@.timers.reject_old_sessions().session_times,
                self@ == (TunnModel {
                    sessions: self@.sessions,
                    timers: TimersModel {
                        session_times: self@.timers.session_times,
                        ..old(self)@.timers
                    },
                    ..old(self)@
                }),
                forall|j: int|
                    0 <= j < N_SESSIONS ==> #[trigger] self@.sessions[j] == (if j < i && old(
                        self,
                    )@.timers.session_rejected(j) {
                        None
                    } else {
                        old(self)@.sessions[j]
                    }),
                forall|j: int|
                    0 <= j < N_SESSIONS ==> #[trigger] self@.timers.session_times[j] == (if j < i {
                        rejected[j]
                    } else {
                        old(self)@.timers.session_times[j]
                    }),
                self.jitter() == old(self).jitter(),
        {
            let ghost before = *self;
            if self.timers.reject_session(i) {
                self.sessions[i] = None;
                assert(self@.sessions == before@.sessions.update(i as int, None));
            }
            assert(self@.queue == before@.queue);
        }
        assert(self@.timers.session_times == rejected);
        assert(self@.timers == old(self)@.timers.reject_old_sessions());
        assert(self@.sessions == Seq::new(
            N_SESSIONS as nat,
            |i: int|
                if old(self)@.timers.session_rejected(i) {
                    None
                } else {
                    old(self)@.sessions[i]
                },
        ));
    }

    /// Gives the connection up.
    fn expire(&mut self, elapsed: Duration)
        requires
            old(self).wf(),
        ensures
            final(self).wf(),
            final(self)@ == old(self)@.expire(elapsed@),
            final(self).jitter() == old(self).jitter(),
    {
        self.clear_all(elapsed);
        self.handshake.status.state = HandshakeState::Expired;
    }

    /// Updates the timers of the tunnel.
    ///
    /// `elapsed` is the time since the tunnel started, and `since_init_sent` the time since the
    /// initiation was sent that awaits its response, if there is one. This returns `Ok(None)` if
    /// no action is needed, `Ok(Some(step))` if a keepalive or a handshake initiation should be
    /// sent, or an error if the connection was given up.
    pub fn update_timers(&mut self, elapsed: Duration, since_init_sent: Duration) -> (result:
        Result<Option<Step>, WireGuardError>)
        requires
            old(self).wf(),
        ensures
            final(self).wf(),
            ({
                let (next, outcome) = old(self)@.update_timers(elapsed@, since_init_sent@);
                &&& final(self)@ == next
                &&& match result {
                    Ok(step) => outcome == Ok::<_, WireGuardError>(step_model(step)),
                    Err(e) => outcome == Err::<Option<StepModel>, _>(e),
                }
            }),
            final(self).jitter() == old(self).jitter(),
    {
        self.timers.advance(elapsed);
        assert(self@.queue == old(self)@.queue);
        self.update_session_timers();
        assert(self@ == old(self)@.advance(elapsed@));

        if self.handshake.is_expired() {
            return Err(WireGuardError::ConnectionExpired);
        }
        if self.handshake.status.has_cookie && self.timers.cookie_expired() {
            self.handshake.status.has_cookie = false;
        }
        let ghost kept = self@;
        assert(kept == old(self)@.advance(elapsed@).drop_old_cookie());

        // Keys are dropped if no new ones have been exchanged for too long.
        if self.timers.connection_expired() {
            self.expire(elapsed);
            return Err(WireGuardError::ConnectionExpired);
        }
        if self.handshake.is_in_progress() {
            // After too many attempts to start a handshake the retries cease. A packet that is
            // queued up to be sent starts over.
            if self.timers.attempt_expired() {
                self.expire(elapsed);
                return Err(WireGuardError::ConnectionExpired);
            }
            if self.timers.retry_due(since_init_sent) {
                return Ok(self.format_handshake_initiation(true));
            }
            return Ok(None);
        }
        // Only the initiator of a session replaces it by age.
        let rekey = self.timers.rekey_after_send() || self.timers.rekey_after_receive();
        let silent = self.timers.take_silence();
        assert(self@ == kept.end_silence());
        if rekey || silent {
            return Ok(self.format_handshake_initiation(true));
        }
        let passive = self.timers.take_keepalive();
        let persistent = self.timers.take_persistent_keepalive();
        if passive || persistent {
            assert(self@ == kept.end_keepalives());
            return Ok(self.handle_outgoing_packet(Packet::default(), None));
        }
        assert(self@ == kept);
        Ok(None)
    }

    /// The time since the last successful handshake, `elapsed` after the tunnel started.
    ///
    /// Returns `None` if no session has been established.
    pub fn time_since_last_handshake(&self, elapsed: Duration) -> (time: Option<Duration>)
        requires
            self.wf(),
        ensures
            span_model(time) == self@.time_since(
                TimerName::TimeSessionEstablished,
                elapsed@,
            ),
    {
        self.time_since(TimerName::TimeSessionEstablished, elapsed)
    }

    /// The time since the last authenticated packet was received, `elapsed` after the tunnel
    /// started.
    ///
    /// Returns `None` if no session has been established.
    pub fn time_since_last_packet_received(&self, elapsed: Duration) -> (time: Option<Duration>)
        requires
            self.wf(),
        ensures
            span_model(time) == self@.time_since(
                TimerName::TimeLastPacketReceived,
                elapsed@,
            ),
    {
        self.time_since(TimerName::TimeLastPacketReceived, elapsed)
    }

    /// The time since a timer ticked, `elapsed` after the tunnel started, where packets are sent
    /// with a session.
    fn time_since(&self, name: TimerName, elapsed: Duration) -> (time: Option<Duration>)
        requires
            self.wf(),
            !(name is Top),
        ensures
            span_model(time) == self@.time_since(name, elapsed@),
    {
        if self.sessions[self.current].is_some() {
            let now = self.timers.now(elapsed);
            assert(self@.timers.times[name.position()] <= self@.timers.current());
            Some(now.saturating_sub(self.timers[name]))
        } else {
            None
        }
    }

    /// The interval of persistent keepalives in seconds.
    ///
    /// Returns `None` if persistent keepalives are disabled.
    pub fn persistent_keepalive(&self) -> (seconds: Option<u16>)
        requires
            self.wf(),
        ensures
            keepalive_interval(seconds) == self@.timers.persistent_keepalive,
            seconds != Some(0u16),
    {
        self.timers.persistent_keepalive()
    }

    /// The timer params of this tunnel.
    pub fn timer_params(&self) -> (params: &TimerParams)
        requires
            self.wf(),
        ensures
            params@ == self@.timers.params,
            params.wf(),
    {
        self.timers.params()
    }

    /// Sets the timer params of this tunnel, which control when timers fire.
    pub fn dangerously_set_timer_params(&mut self, params: TimerParams)
        requires
            old(self).wf(),
            params.wf(),
        ensures
            final(self).wf(),
            final(self)@ == (TunnModel {
                timers: old(self)@.timers.set_params(params@),
                ..old(self)@
            }),
            final(self).jitter() == old(self).jitter(),
    {
        self.timers.dangerously_set_params(params);
        assert(self@.queue == old(self)@.queue);
    }

    /// Sets the interval of persistent keepalives in seconds.
    ///
    /// `None` or `Some(0)` disable persistent keepalives.
    pub fn set_persistent_keepalive(&mut self, seconds: Option<u16>)
        requires
            old(self).wf(),
        ensures
            final(self).wf(),
            final(self)@ == old(self)@.set_persistent_keepalive(seconds),
            final(self).jitter() == old(self).jitter(),
    {
        self.timers.set_persistent_keepalive(seconds);
        assert(self@.queue == old(self)@.queue);
    }

    /// The slots whose sessions go into an estimate of packet loss, heaviest first: from the
    /// current one back in round-robin order.
    pub fn sessions_by_use(&self) -> (slots: Vec<usize>)
        requires
            self.wf(),
        ensures
            slots@.map_values(|slot: usize| slot as int) == self@.sessions_by_use(),
    {
        let mut slots: Vec<usize> = Vec::new();
        let ghost order = self@.slots_by_use();
        let ghost occupied = |slot: int| self@.sessions[slot] is Some;
        let ghost as_int = |slot: usize| slot as int;
        assert(order.take(0) == Seq::<int>::empty());
        reveal(Seq::filter);
        assert(slots@.map_values(as_int) == order.take(0).filter(occupied));
        for i in 0..N_SESSIONS
            invariant
                self.wf(),
                order == self@.slots_by_use(),
                occupied == (|slot: int| self@.sessions[slot] is Some),
                as_int == (|slot: usize| slot as int),
                slots@.map_values(as_int) == order.take(i as int).filter(occupied),
        {
            let slot = self.current.wrapping_sub(i) % N_SESSIONS;
            let ghost before = slots@;
            assert(slot == order[i as int]);
            assert(order.take(i + 1) == order.take(i as int).push(slot as int));
            proof {
                reveal(Seq::filter);
                assert(order.take(i + 1).drop_last() == order.take(i as int));
            }
            if self.sessions[slot].is_some() {
                slots.push(slot);
                assert(slots@.map_values(as_int) == before.map_values(as_int).push(slot as int));
            }
        }
        assert(order.take(N_SESSIONS as int) == order);
        slots
    }

    /// Statistics of the tunnel, `elapsed` after it started:
    /// - time since the last handshake;
    /// - bytes sent;
    /// - bytes received;
    /// - slots whose sessions go into an estimate of packet loss, heaviest first;
    /// - round-trip time of the last handshake.
    pub fn stats(&self, elapsed: Duration) -> (stats: (
        Option<Duration>,
        usize,
        usize,
        Vec<usize>,
        Option<u32>,
    ))
        requires
            self.wf(),
        ensures
            span_model(stats.0) == self@.time_since(
                TimerName::TimeSessionEstablished,
                elapsed@,
            ),
            stats.1 == self@.tx_bytes,
            stats.2 == self@.rx_bytes,
            stats.3@.map_values(|slot: usize| slot as int) == self@.sessions_by_use(),
            stats.4 == self@.handshake.status.last_rtt,
    {
        (
            self.time_since_last_handshake(elapsed),
            self.tx_bytes,
            self.rx_bytes,
            self.sessions_by_use(),
            self.handshake.status.last_rtt,
        )
    }
}

} // verus!
