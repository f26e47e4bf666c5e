//! Two tunnels that talk to each other, driven by a clock that the test sets.

use std::cell::Cell;
use std::time::Duration;

use gotatun::noise::errors::WireGuardError;
use gotatun::noise::handshake::{Handshake, HandshakeState, HandshakeStatus};
use gotatun::noise::random::Jitter;
use gotatun::noise::session::Session;
use gotatun::noise::timers::{TimerName, TimerParams, Timeout};
use gotatun::noise::tunn::{Incoming, Outgoing, Step};
use gotatun::noise::{Tunn, TunnResult};
use gotatun::packet::wg::{HANDSHAKE_INIT_LEN, HANDSHAKE_RESP_LEN};
use gotatun::packet::{
    Ipv4, Ipvx, Packet, WgCookieReply, WgData, WgHandshakeInit, WgHandshakeResp, WgKind,
};
use gotatun::time::Duration as Span;
use mock_instant::thread_local::{Instant, MockClock};
use rand::rngs::StdRng;

const REKEY_AFTER_TIME: Duration = Duration::from_secs(120);
const REKEY_TIMEOUT: Duration = Duration::from_secs(5);
const MAX_JITTER: Duration = Duration::from_millis(333);

/// How many messages a session of the stand-in seals.
const REJECT_AFTER_MESSAGES: u64 = 1 << 60;

fn span(d: Duration) -> Span {
    Span::new(d.as_secs(), d.subsec_nanos())
}

fn duration(s: Span) -> Duration {
    Duration::new(s.as_secs(), s.subsec_nanos())
}

/// A stand-in for the keys of a session: messages are masked and tagged by a shared number.
struct Keys {
    peer_index: u32,
    secret: u64,
    counter: Cell<u64>,
}

fn tag(secret: u64, counter: u64, bytes: &[u8]) -> [u8; 16] {
    let mut a: u64 = secret ^ 0x9e37_79b9_7f4a_7c15;
    let mut b: u64 = counter;
    for byte in bytes {
        a = (a ^ u64::from(*byte)).wrapping_mul(0x0100_0000_01b3);
        b = b.rotate_left(7) ^ a;
    }
    let mut out = [0u8; 16];
    out[..8].copy_from_slice(&a.to_le_bytes());
    out[8..].copy_from_slice(&b.to_le_bytes());
    out
}

fn mask(secret: u64, counter: u64, bytes: &[u8]) -> Vec<u8> {
    let key = (secret ^ counter).to_le_bytes();
    bytes
        .iter()
        .enumerate()
        .map(|(i, b)| b ^ key[i % 8])
        .collect()
}

impl Keys {
    fn seal(&self, packet: Packet) -> Result<Packet<WgData>, Packet> {
        let counter = self.counter.get();
        if counter >= REJECT_AFTER_MESSAGES {
            return Err(packet);
        }
        self.counter.set(counter + 1);
        let mut bytes = vec![4, 0, 0, 0];
        bytes.extend_from_slice(&self.peer_index.to_le_bytes());
        bytes.extend_from_slice(&counter.to_le_bytes());
        bytes.extend(mask(self.secret, counter, packet.as_bytes()));
        bytes.extend_from_slice(&tag(self.secret, counter, packet.as_bytes()));
        Ok(packet.overwrite_with::<WgData>(&bytes))
    }

    fn open(&self, packet: Packet<WgData>) -> Result<Packet, WireGuardError> {
        let bytes = packet.as_bytes();
        let counter = u64::from_le_bytes(bytes[8..16].try_into().unwrap());
        let plain = mask(self.secret, counter, &bytes[16..bytes.len() - 16]);
        if tag(self.secret, counter, &plain) != bytes[bytes.len() - 16..] {
            return Err(WireGuardError::InvalidAeadTag);
        }
        Ok(packet.overwrite_with::<[u8]>(&plain))
    }
}

/// A stand-in for the handshake: who is who is sent in the clear, and the response is tagged with
/// the preshared key.
struct Engine {
    next_index: u32,
    pending: Option<(u32, Instant)>,
    cookie: bool,
}

fn psk_tag(preshared_key: Option<[u8; 32]>, a: u32, b: u32) -> [u8; 16] {
    tag(
        u64::from(a) << 32 | u64::from(b),
        0,
        &preshared_key.unwrap_or([0; 32]),
    )
}

fn session(ours: u32, theirs: u32) -> Session<Keys> {
    Session {
        receiving_index: ours,
        keys: Keys {
            peer_index: theirs,
            secret: u64::from(ours) * u64::from(theirs) + 1,
            counter: Cell::new(0),
        },
    }
}

impl Engine {
    fn index(&mut self) -> u32 {
        self.next_index += 1;
        self.next_index
    }

    fn status(&self) -> HandshakeStatus {
        HandshakeStatus {
            state: if self.pending.is_some() {
                HandshakeState::InitSent
            } else {
                HandshakeState::Idle
            },
            has_cookie: self.cookie,
            last_rtt: None,
        }
    }

    fn format_handshake_initiation(&mut self, h: &Handshake) -> Packet<WgHandshakeInit> {
        let index = self.index();
        self.pending = Some((index, Instant::now()));
        let mut bytes = [0u8; HANDSHAKE_INIT_LEN];
        bytes[0] = 1;
        bytes[4..8].copy_from_slice(&index.to_le_bytes());
        bytes[8..40].copy_from_slice(&h.static_public);
        Packet::copy_from(&bytes)
    }

    fn receive_handshake_initialization(
        &mut self,
        h: &Handshake,
        p: Packet<WgHandshakeInit>,
    ) -> Result<(Packet<WgHandshakeResp>, Session<Keys>), WireGuardError> {
        let theirs = u32::from_le_bytes(p.as_bytes()[4..8].try_into().unwrap());
        if p.as_bytes()[8..40] != h.peer_static_public {
            return Err(WireGuardError::Refused(1));
        }
        let ours = self.index();
        let mut bytes = [0u8; HANDSHAKE_RESP_LEN];
        bytes[0] = 2;
        bytes[4..8].copy_from_slice(&ours.to_le_bytes());
        bytes[8..12].copy_from_slice(&theirs.to_le_bytes());
        bytes[12..28].copy_from_slice(&psk_tag(h.preshared_key, ours, theirs));
        Ok((p.overwrite_with::<WgHandshakeResp>(&bytes), session(ours, theirs)))
    }

    fn receive_handshake_response(
        &mut self,
        h: &Handshake,
        p: &Packet<WgHandshakeResp>,
    ) -> Result<Session<Keys>, WireGuardError> {
        let theirs = u32::from_le_bytes(p.as_bytes()[4..8].try_into().unwrap());
        let ours = u32::from_le_bytes(p.as_bytes()[8..12].try_into().unwrap());
        match self.pending {
            Some((index, _)) if index == ours => {}
            _ => return Err(WireGuardError::Refused(2)),
        }
        if p.as_bytes()[12..28] != psk_tag(h.preshared_key, theirs, ours) {
            return Err(WireGuardError::InvalidAeadTag);
        }
        self.pending = None;
        Ok(session(ours, theirs))
    }
}

/// A tunnel with all that it needs.
struct Tun<R = StdRng> {
    tunn: Tunn<Keys, R>,
    engine: Engine,
    started: Instant,
}

impl<R: Jitter> Tun<R> {
    fn elapsed(&self) -> Span {
        span(
            Instant::now()
                .checked_duration_since(self.started)
                .unwrap_or(Duration::ZERO),
        )
    }

    fn keys(&self, slot: usize) -> &Keys {
        &self.tunn.session(slot).expect("session in slot").keys
    }

    fn run(&mut self, step: Option<Step>) -> Option<WgKind> {
        let mut step = step;
        loop {
            match step? {
                Step::Initiate => {
                    let packet = self
                        .engine
                        .format_handshake_initiation(self.tunn.handshake());
                    let elapsed = self.elapsed();
                    return Some(self.tunn.finish_handshake_initiation(packet, elapsed));
                }
                Step::Seal { slot, packet } => {
                    let sealed = self.keys(slot).seal(packet);
                    match self.tunn.finish_outgoing_packet(sealed) {
                        Outgoing::Send(message) => return Some(message),
                        Outgoing::Next(next) => step = next,
                    }
                }
            }
        }
    }

    fn format_handshake_initiation(
        &mut self,
        force_resend: bool,
    ) -> Option<Packet<WgHandshakeInit>> {
        let step = self.tunn.format_handshake_initiation(force_resend);
        match self.run(step)? {
            WgKind::HandshakeInit(packet) => Some(packet),
            other => panic!("expected an initiation, got {other:?}"),
        }
    }

    fn handle_outgoing_packet(&mut self, packet: Packet, tun_mtu: Option<u16>) -> Option<WgKind> {
        let step = self.tunn.handle_outgoing_packet(packet, tun_mtu);
        self.run(step)
    }

    fn get_queued_packets(&mut self, tun_mtu: u16) -> Vec<WgKind> {
        let mut messages = Vec::new();
        loop {
            let step = self.tunn.get_queued_packets(tun_mtu);
            match self.run(step) {
                Some(message) => messages.push(message),
                None => return messages,
            }
        }
    }

    fn handle_incoming_packet(&mut self, packet: WgKind) -> TunnResult {
        let outcome = match self.tunn.handle_incoming_packet(packet) {
            Incoming::HandshakeInit(p) => {
                let outcome = self
                    .engine
                    .receive_handshake_initialization(self.tunn.handshake(), p);
                self.tunn.handle_handshake_init(self.engine.status(), outcome)
            }
            Incoming::HandshakeResp(p) => {
                let outcome = self
                    .engine
                    .receive_handshake_response(self.tunn.handshake(), &p);
                let status = self.engine.status();
                match self.tunn.accept_handshake_response(p, status, outcome) {
                    Ok((session, empty)) => {
                        let keepalive = session.keys.seal(empty).expect("a fresh session seals");
                        self.tunn.handle_handshake_response(session, keepalive)
                    }
                    Err(e) => Err(e),
                }
            }
            Incoming::CookieReply(p) => {
                let outcome = if p.as_bytes()[0] == 3 {
                    self.engine.cookie = true;
                    Ok(())
                } else {
                    Err(WireGuardError::Refused(3))
                };
                self.tunn.handle_cookie_reply(self.engine.status(), outcome)
            }
            Incoming::Open(opening) => {
                let opened = self.keys(opening.slot).open(opening.packet);
                self.tunn.handle_data(opening.slot, opened)
            }
            Incoming::Finished(result) => Ok(result),
        };
        TunnResult::from_outcome(outcome)
    }

    fn update_timers(&mut self) -> Result<Option<WgKind>, WireGuardError> {
        let elapsed = self.elapsed();
        let since_init_sent = match self.engine.pending {
            Some((_, sent)) => span(
                Instant::now()
                    .checked_duration_since(sent)
                    .unwrap_or(Duration::ZERO),
            ),
            None => Span::zero(),
        };
        let result = self.tunn.update_timers(elapsed, since_init_sent);
        let status = self.tunn.handshake().status;
        self.engine.cookie = status.has_cookie;
        if self.tunn.is_expired() {
            self.engine.pending = None;
        }
        result.map(|step| self.run(step))
    }

    fn time_since_last_handshake(&self) -> Option<Duration> {
        self.tunn
            .time_since_last_handshake(self.elapsed())
            .map(duration)
    }

    fn time(&self, name: TimerName) -> Duration {
        duration(self.tunn.timers()[name])
    }
}

fn public_key(secret: [u8; 32]) -> [u8; 32] {
    x25519_dalek::PublicKey::from(&x25519_dalek::StaticSecret::from(secret)).to_bytes()
}

fn with_engine<R>(tunn: Tunn<Keys, R>, first_index: u32) -> Tun<R> {
    Tun {
        tunn,
        engine: Engine {
            next_index: first_index,
            pending: None,
            cookie: false,
        },
        started: Instant::now(),
    }
}

fn create_two_tuns() -> (Tun, Tun) {
    let my_secret_key: [u8; 32] = rand::random();
    let their_secret_key: [u8; 32] = rand::random();
    let my_tun = Tunn::new(my_secret_key, public_key(their_secret_key), None, None);
    let their_tun = Tunn::new(their_secret_key, public_key(my_secret_key), None, None);
    (with_engine(my_tun, 1000), with_engine(their_tun, 2000))
}

fn create_handshake_init(tun: &mut Tun) -> Packet<WgHandshakeInit> {
    tun.format_handshake_initiation(false)
        .expect("expected handshake init")
}

fn create_handshake_response(
    tun: &mut Tun,
    handshake_init: Packet<WgHandshakeInit>,
) -> Packet<WgHandshakeResp> {
    let handshake_resp = tun.handle_incoming_packet(WgKind::HandshakeInit(handshake_init));
    assert!(
        matches!(handshake_resp, TunnResult::WriteToNetwork(_)),
        "expected WriteToNetwork, {handshake_resp:?}"
    );

    let TunnResult::WriteToNetwork(handshake_resp) = handshake_resp else {
        unreachable!("expected WriteToNetwork");
    };

    let WgKind::HandshakeResp(handshake_resp) = handshake_resp else {
        unreachable!("expected WgHandshakeResp, got {handshake_resp:?}");
    };

    handshake_resp
}

fn parse_keepalive(tun: &mut Tun, keepalive: Packet<WgData>) {
    let result = tun.handle_incoming_packet(WgKind::Data(keepalive));
    assert!(matches!(result, TunnResult::WriteToTunnel(p) if p.is_empty()));
}

fn create_two_tuns_and_handshake() -> (Tun, Tun) {
    let (mut my_tun, mut their_tun) = create_two_tuns();
    complete_handshake(&mut my_tun, &mut their_tun);
    (my_tun, their_tun)
}

fn complete_handshake(my_tun: &mut Tun, their_tun: &mut Tun) {
    let result = try_handshake(my_tun, their_tun);
    let TunnResult::WriteToNetwork(WgKind::Data(keepalive)) = result else {
        panic!("expected a keepalive packet after the handshake, got {result:?}");
    };
    parse_keepalive(their_tun, keepalive);
}

/// Drive a handshake up to the point where the initiator processes the
/// response, returning that result so callers can assert success or failure.
fn try_handshake(my_tun: &mut Tun, their_tun: &mut Tun) -> TunnResult {
    let init = create_handshake_init(my_tun);
    let resp = create_handshake_response(their_tun, init);
    my_tun.handle_incoming_packet(WgKind::HandshakeResp(resp))
}

fn create_ipv4_udp_packet() -> Packet<Ipv4> {
    let header =
        etherparse::PacketBuilder::ipv4([192, 168, 1, 2], [192, 168, 1, 3], 5).udp(5678, 23);
    let payload = [0, 1, 2, 3];
    let mut packet = Vec::<u8>::with_capacity(header.size(payload.len()));
    header.write(&mut packet, &payload).unwrap();
    let packet = Packet::from_bytes(bytes::BytesMut::from(&packet[..]));

    match packet.try_into_ipvx().unwrap() {
        Ipvx::V4(packet) => packet,
        Ipvx::V6(_) => panic!("expected an IPv4 packet"),
    }
}

fn update_timer_results_in_handshake(tun: &mut Tun) {
    let packet = tun
        .update_timers()
        .expect("update_timers should succeed")
        .unwrap();
    assert!(matches!(packet, WgKind::HandshakeInit(..)));
}

#[test]
fn create_two_tunnels_linked_to_eachother() {
    let (_my_tun, _their_tun) = create_two_tuns();
}

#[test]
fn handshake_init() {
    let (mut my_tun, _their_tun) = create_two_tuns();
    let _init = create_handshake_init(&mut my_tun);
}

#[test]
fn handshake_init_and_response() {
    let (mut my_tun, mut their_tun) = create_two_tuns();
    let init = create_handshake_init(&mut my_tun);
    let _resp = create_handshake_response(&mut their_tun, init);
}

#[test]
fn full_handshake() {
    let (mut my_tun, mut their_tun) = create_two_tuns();
    let result = try_handshake(&mut my_tun, &mut their_tun);
    assert!(
        matches!(result, TunnResult::WriteToNetwork(WgKind::Data(_))),
        "expected a keepalive after the handshake, got {result:?}"
    );
}

#[test]
fn full_handshake_plus_timers() {
    let (mut my_tun, mut their_tun) = create_two_tuns_and_handshake();
    // Time has not yet advanced so there is nothing to do
    assert!(matches!(my_tun.update_timers(), Ok(None)));
    assert!(matches!(their_tun.update_timers(), Ok(None)));
}

#[test]
fn new_handshake_after_two_mins() {
    let (mut my_tun, mut their_tun) = create_two_tuns_and_handshake();

    // Advance time 1 second and "send" 1 packet so that we send a handshake
    // after the timeout
    MockClock::advance(Duration::from_secs(1));
    assert!(matches!(their_tun.update_timers(), Ok(None)));
    assert!(matches!(my_tun.update_timers(), Ok(None)));
    let sent_packet_buf = create_ipv4_udp_packet();
    let _data = my_tun
        .handle_outgoing_packet(sent_packet_buf.into_bytes(), None)
        .expect("expected encapsulated packet");

    //Advance to timeout
    MockClock::advance(REKEY_AFTER_TIME);
    assert!(matches!(their_tun.update_timers(), Ok(None)));
    update_timer_results_in_handshake(&mut my_tun);
}

#[test]
fn handshake_no_resp_rekey_timeout() {
    let (mut my_tun, _their_tun) = create_two_tuns();

    let _init = create_handshake_init(&mut my_tun);

    // Advance past REKEY_TIMEOUT + max possible jitter to guarantee the retry fires.
    MockClock::advance(REKEY_TIMEOUT + MAX_JITTER + Duration::from_millis(1));
    update_timer_results_in_handshake(&mut my_tun)
}

/// The send path must use the last in-limit counter (REJECT_AFTER_MESSAGES - 1) but then
/// refuse to encapsulate any more data, beginning a fresh handshake instead.
#[test]
fn outgoing_packet_refused_after_message_limit() {
    let (mut my_tun, _their_tun) = create_two_tuns_and_handshake();

    // Fast-forward the established session to its last usable counter value.
    let slot = my_tun.tunn.current_slot();
    my_tun.keys(slot).counter.set(REJECT_AFTER_MESSAGES - 1);

    // The last in-limit packet is still encapsulated and sent.
    let last = my_tun.handle_outgoing_packet(create_ipv4_udp_packet().into_bytes(), None);
    assert!(
        matches!(last, Some(WgKind::Data(_))),
        "expected the last in-limit packet to be sent, got {last:?}"
    );

    // The next packet hits the limit: no data is sent, a new handshake begins instead.
    let over = my_tun.handle_outgoing_packet(create_ipv4_udp_packet().into_bytes(), None);
    assert!(
        matches!(over, Some(WgKind::HandshakeInit(_))),
        "expected a new handshake instead of an encapsulated data packet, got {over:?}"
    );
}

#[test]
fn one_ip_packet() {
    let (mut my_tun, mut their_tun) = create_two_tuns_and_handshake();
    assert_packet_roundtrip(&mut my_tun, &mut their_tun);
}

/// Changing the preshared key only affects the next session, never the
/// current one.
#[test]
fn set_preshared_key_only_affects_next_session() {
    let (mut my_tun, mut their_tun) = create_two_tuns_and_handshake();

    // Only one side adopts a new key.
    my_tun.tunn.set_preshared_key(Some([7; 32]));

    // The established session is unaffected and keeps working.
    assert_packet_roundtrip(&mut my_tun, &mut their_tun);

    MockClock::advance(Duration::from_micros(1));

    // The next handshake mixes in the new key, so the diverged PSK breaks it.
    let result = try_handshake(&mut my_tun, &mut their_tun);
    assert!(
        matches!(result, TunnResult::Error(WireGuardError::InvalidAeadTag)),
        "expected the rekey to fail on the diverged PSK, got {result:?}"
    );
}

/// Send one IP packet over the established session and assert it round-trips.
fn assert_packet_roundtrip(from: &mut Tun, to: &mut Tun) {
    let sent = create_ipv4_udp_packet();
    let data = from
        .handle_outgoing_packet(sent.clone().into_bytes(), None)
        .expect("session should encrypt the packet");
    let TunnResult::WriteToTunnel(received) = to.handle_incoming_packet(data) else {
        panic!("session should decrypt the packet");
    };
    assert_eq!(sent.as_bytes(), received.as_bytes());
}

/// A handshake completes when both sides set the same preshared key.
#[test]
fn handshake_completes_with_matching_preshared_key() {
    let (mut my_tun, mut their_tun) = create_two_tuns();
    my_tun.tunn.set_preshared_key(Some([7; 32]));
    their_tun.tunn.set_preshared_key(Some([7; 32]));
    complete_handshake(&mut my_tun, &mut their_tun);
}

/// A handshake fails to authenticate when only one side set a preshared key.
#[test]
fn handshake_fails_with_one_sided_preshared_key() {
    let (mut my_tun, mut their_tun) = create_two_tuns();
    my_tun.tunn.set_preshared_key(Some([7; 32]));
    let result = try_handshake(&mut my_tun, &mut their_tun);
    assert!(
        matches!(result, TunnResult::Error(WireGuardError::InvalidAeadTag)),
        "expected the handshake to fail on the one-sided PSK, got {result:?}"
    );
}

/// A handshake fails to authenticate when each side set a different preshared key.
#[test]
fn handshake_fails_with_different_preshared_key() {
    let (mut my_tun, mut their_tun) = create_two_tuns();
    my_tun.tunn.set_preshared_key(Some([7; 32]));
    their_tun.tunn.set_preshared_key(Some([4; 32]));
    let result = try_handshake(&mut my_tun, &mut their_tun);
    assert!(
        matches!(result, TunnResult::Error(WireGuardError::InvalidAeadTag)),
        "expected the handshake to fail on the one-sided PSK, got {result:?}"
    );
}

/// Test that updating the timers does not panic if clock jumps back.
#[test]
fn update_timers_handles_backward_time_jump() {
    const PRESENT: Duration = Duration::from_secs(10);
    const PAST: Duration = Duration::from_secs(5);

    MockClock::set_time(Duration::ZERO);

    let (mut my_tun, mut _their_tun) = create_two_tuns_and_handshake();

    // Advance time and update timers
    MockClock::advance(PRESENT);
    my_tun.update_timers().unwrap();

    let time_current_before = my_tun.time(TimerName::TimeCurrent);
    assert_eq!(time_current_before, PRESENT);
    // Jump back in time
    MockClock::set_time(PAST);

    my_tun.update_timers().unwrap();

    // TimeCurrent timer should never decrease
    let time_current_after = my_tun.time(TimerName::TimeCurrent);
    assert_eq!(
        time_current_after, PRESENT,
        "TimeCurrent should never decrease"
    );
}

/// Test that the time since the last handshake never decreases if clock jumps back.
#[test]
fn time_since_last_handshake_doesnt_decrease_on_backward_jump() {
    const PRESENT: Duration = Duration::from_secs(60);

    MockClock::set_time(Duration::ZERO);

    let (mut my_tun, mut _their_tun) = create_two_tuns_and_handshake();

    MockClock::advance(PRESENT);
    my_tun.update_timers().unwrap();

    // Verify we have a valid time_since_last_handshake
    let time_since = my_tun.time_since_last_handshake().expect("have handshake");
    assert!(time_since >= PRESENT);
    assert!(time_since > Duration::ZERO);

    // Verify that `time_since_last_handshake` doesn't decrease
    MockClock::set_time(Duration::ZERO);
    my_tun.update_timers().unwrap();

    let time_since_after_jump = my_tun.time_since_last_handshake();
    assert_eq!(
        time_since_after_jump,
        Some(PRESENT),
        "time_since_last_handshake should never decrease"
    );
}

/// A deterministic source that always draws from the same number.
struct FixedRng(u32);

impl rand::RngCore for FixedRng {
    fn next_u32(&mut self) -> u32 {
        self.0
    }

    fn next_u64(&mut self) -> u64 {
        u64::from(self.0)
    }

    fn fill_bytes(&mut self, dest: &mut [u8]) {
        dest.fill(0);
    }
}

impl Jitter for FixedRng {
    fn span_between(&mut self, start: Span, end: Span) -> Span {
        span(rand::Rng::random_range(
            self,
            duration(start)..=duration(end),
        ))
    }
}

/// Verify that jitter is applied to the handshake retry timeout.
///
/// The retry must not fire before `REKEY_TIMEOUT + jitter` but must fire after.
#[test]
fn handshake_jitter_applied() {
    MockClock::set_time(Duration::ZERO);

    let my_secret_key: [u8; 32] = rand::random();
    let their_public_key = public_key(rand::random());

    let mut my_tun = with_engine(
        Tunn::new_with_rng(
            my_secret_key,
            their_public_key,
            None,
            None,
            // Use a predictable RNG for the jitter
            FixedRng(200),
        ),
        1000,
    );

    // The FixedRng makes this draw identical to the one made when the handshake is sent.
    let expected_deadline = duration(my_tun.tunn.sample_timer(Timeout::Rekey));
    assert!(expected_deadline >= REKEY_TIMEOUT);
    assert!(expected_deadline <= REKEY_TIMEOUT + MAX_JITTER);

    // Trigger the initial handshake via handle_outgoing_packet, which samples the deadline.
    let packet = create_ipv4_udp_packet();
    let _ = my_tun.handle_outgoing_packet(packet.into_bytes(), None);

    // Just before REKEY_TIMEOUT + jitter: no retry yet.
    MockClock::advance(expected_deadline - Duration::from_millis(1));
    assert!(
        matches!(my_tun.update_timers(), Ok(None)),
        "retry should not fire before REKEY_TIMEOUT + jitter"
    );

    // At REKEY_TIMEOUT + jitter: retry fires.
    MockClock::advance(Duration::from_millis(1));
    assert!(
        matches!(my_tun.update_timers(), Ok(Some(WgKind::HandshakeInit(..)))),
        "retry should fire at REKEY_TIMEOUT + jitter"
    );
}

/// Verify that custom [`TimerParams`] move the rekey-after-time and passive keepalive
/// deadlines.
#[test]
fn custom_timer_params_applied() {
    const REKEY_AFTER: Duration = Duration::from_secs(100);
    const KEEPALIVE: Duration = Duration::from_secs(8);
    // Far enough away to never interfere with the deadlines under test.
    const NEW_HANDSHAKE: Duration = Duration::from_secs(1000);
    const MS: Duration = Duration::from_millis(1);

    MockClock::set_time(Duration::ZERO);

    let (mut my_tun, mut their_tun) = create_two_tuns();
    my_tun.tunn.dangerously_set_timer_params(TimerParams {
        keepalive_timeout: span(KEEPALIVE)..=span(KEEPALIVE),
        new_handshake_timeout: span(NEW_HANDSHAKE)..=span(NEW_HANDSHAKE),
        rekey_after_time: span(REKEY_AFTER)..=span(REKEY_AFTER),
        ..TimerParams::default()
    });

    complete_handshake(&mut my_tun, &mut their_tun);

    // Receive a data packet at t = 1 s without answering. The passive keepalive
    // should fire KEEPALIVE (rather than the default 10 s) after the data arrived.
    MockClock::advance(Duration::from_secs(1));
    assert!(matches!(my_tun.update_timers(), Ok(None)));

    let sent_packet_buf = create_ipv4_udp_packet();
    let data = their_tun
        .handle_outgoing_packet(sent_packet_buf.into_bytes(), None)
        .expect("expected encapsulated packet");
    let _ = my_tun.handle_incoming_packet(data);

    MockClock::advance(KEEPALIVE - MS);
    assert!(
        matches!(my_tun.update_timers(), Ok(None)),
        "keepalive should not fire before the custom timeout"
    );
    MockClock::advance(MS);
    assert!(
        matches!(my_tun.update_timers(), Ok(Some(WgKind::Data(p))) if p.is_keepalive()),
        "keepalive should fire at the custom timeout"
    );

    // Send a data packet on the aging session (t = 1 s + KEEPALIVE). As the initiator,
    // we should start a new handshake REKEY_AFTER (rather than the default 120 s) after
    // session establishment (t = 0).
    let sent_packet_buf = create_ipv4_udp_packet();
    let _ = my_tun
        .handle_outgoing_packet(sent_packet_buf.into_bytes(), None)
        .expect("expected encapsulated packet");

    MockClock::advance(REKEY_AFTER - KEEPALIVE - Duration::from_secs(1) - MS);
    assert!(
        matches!(my_tun.update_timers(), Ok(None)),
        "rekey should not fire before the custom rekey-after-time"
    );
    MockClock::advance(MS);
    update_timer_results_in_handshake(&mut my_tun);
}

/// Verify that a received keepalive is not answered with a passive keepalive.
///
/// Only *data* packets must arm the passive keepalive timer. If keepalives counted as
/// received data, two idle peers would exchange keepalives indefinitely.
#[test]
fn keepalive_is_not_answered_with_keepalive() {
    const KEEPALIVE: Duration = Duration::from_secs(10); // KEEPALIVE_TIMEOUT

    MockClock::set_time(Duration::ZERO);
    let (mut my_tun, mut their_tun) = create_two_tuns_and_handshake();

    MockClock::advance(Duration::from_secs(1));
    assert!(matches!(my_tun.update_timers(), Ok(None)));
    assert!(matches!(their_tun.update_timers(), Ok(None)));

    // Send a data packet at t = 1 s, leaving it unanswered.
    let data = my_tun
        .handle_outgoing_packet(create_ipv4_udp_packet().into_bytes(), None)
        .expect("expected encapsulated packet");
    let result = their_tun.handle_incoming_packet(data);
    assert!(matches!(result, TunnResult::WriteToTunnel(..)));

    MockClock::advance(KEEPALIVE - Duration::from_millis(1));
    let nothing = their_tun
        .update_timers()
        .expect("update_timers should succeed");
    assert!(nothing.is_none(), "expect no packet or keepalive yet");

    // The peer answers with a passive keepalive KEEPALIVE after the data arrived.
    MockClock::advance(Duration::from_millis(1));
    let packet = their_tun
        .update_timers()
        .expect("update_timers should succeed")
        .expect("expected some timer packet");
    assert!(
        matches!(&packet, WgKind::Data(p) if p.is_keepalive()),
        "expected keepalive packet, got {packet:?}"
    );

    assert!(matches!(my_tun.update_timers(), Ok(None)));
    let result = my_tun.handle_incoming_packet(packet);
    assert!(matches!(result, TunnResult::WriteToTunnel(p) if p.is_empty()));

    // The received keepalive must not be answered with another keepalive, no matter
    // how long we wait.
    for _ in 0..30 {
        MockClock::advance(Duration::from_secs(1));
        assert!(
            matches!(my_tun.update_timers(), Ok(None)),
            "keepalive must not be answered with a keepalive"
        );
    }
}

/// Test that timers "freeze" if clock jumps back.
#[test]
fn timers_freeze_during_backward_jump() {
    const INITIAL_TIME: Duration = Duration::from_secs(100);
    const JUMPED_BACK_TIME: Duration = Duration::from_secs(95);
    const RESUMED_TIME: Duration = Duration::from_secs(105);

    MockClock::set_time(Duration::ZERO);

    let (mut my_tun, mut _their_tun) = create_two_tuns_and_handshake();

    MockClock::set_time(INITIAL_TIME);
    my_tun.update_timers().unwrap();
    assert_eq!(my_tun.time(TimerName::TimeCurrent), INITIAL_TIME);

    // Jump backward
    MockClock::set_time(JUMPED_BACK_TIME);
    my_tun.update_timers().unwrap();
    // Time should be frozen at `INITIAL_TIME`
    assert_eq!(my_tun.time(TimerName::TimeCurrent), INITIAL_TIME);

    // Time should resume after `INITIAL_TIME`
    MockClock::set_time(RESUMED_TIME);
    my_tun.update_timers().unwrap();
    assert_eq!(my_tun.time(TimerName::TimeCurrent), RESUMED_TIME);
}

/// A cookie reply that the stand-in takes, or one that it refuses.
fn cookie_reply(good: bool) -> WgKind {
    let mut bytes = [0u8; 64];
    bytes[0] = if good { 3 } else { 0 };
    WgKind::CookieReply(Packet::<WgCookieReply>::copy_from(&bytes))
}

fn data_to(index: u32) -> WgKind {
    let mut bytes = [0u8; 48];
    bytes[0] = 4;
    bytes[4..8].copy_from_slice(&index.to_le_bytes());
    WgKind::Data(Packet::<WgData>::copy_from(&bytes))
}

fn numbered(n: usize) -> Packet {
    let mut bytes = [0xaa; 16];
    bytes[..8].copy_from_slice(&(n as u64).to_le_bytes());
    Packet::copy_from(&bytes)
}

fn open(tun: &mut Tun, message: WgKind) -> Packet {
    match tun.handle_incoming_packet(message) {
        TunnResult::WriteToTunnel(packet) => packet,
        other => panic!("expected a packet, got {other:?}"),
    }
}

#[test]
fn public_keys_are_those_of_the_curve() {
    let mut secret = [0u8; 32];
    secret[0] = 9;
    let tunn: Tunn<Keys> = Tunn::new(secret, [5; 32], Some([6; 32]), Some(7));
    let expected = [
        0x42, 0x2c, 0x8e, 0x7a, 0x62, 0x27, 0xd7, 0xbc, 0xa1, 0x35, 0x0b, 0x3e, 0x2b, 0xb7, 0x27,
        0x9f, 0x78, 0x97, 0xb8, 0x7b, 0xb6, 0x85, 0x4b, 0x78, 0x3c, 0x60, 0xe8, 0x03, 0x11, 0xae,
        0x30, 0x79,
    ];
    assert_eq!(tunn.handshake().static_private, secret);
    assert_eq!(tunn.handshake().static_public, expected);
    assert_eq!(tunn.handshake().peer_static_public, [5; 32]);
    assert_eq!(tunn.preshared_key(), Some([6; 32]));
    assert_eq!(tunn.persistent_keepalive(), Some(7));
    assert!(!tunn.is_expired());
}

#[test]
fn packets_wait_in_order_and_the_latest_are_dropped() {
    let (mut my_tun, mut their_tun) = create_two_tuns();
    let first = my_tun.handle_outgoing_packet(numbered(0), None);
    let Some(WgKind::HandshakeInit(init)) = first else {
        panic!("expected an initiation, got {first:?}");
    };
    for n in 1..300 {
        assert!(my_tun.handle_outgoing_packet(numbered(n), None).is_none());
    }
    let resp = create_handshake_response(&mut their_tun, init);
    my_tun.handle_incoming_packet(WgKind::HandshakeResp(resp));

    assert_eq!(my_tun.tunn.queued_packet_len(), Some(16));
    let messages = my_tun.get_queued_packets(1420);
    assert_eq!(messages.len(), 256);
    assert_eq!(my_tun.tunn.queued_packet_len(), None);
    for (n, message) in messages.into_iter().enumerate() {
        let packet = open(&mut their_tun, message);
        assert_eq!(packet.as_bytes(), numbered(n).as_bytes());
    }
    assert!(my_tun.get_queued_packets(1420).is_empty());
}

#[test]
fn queued_packets_without_a_session_start_one_handshake() {
    let (mut my_tun, _their_tun) = create_two_tuns();
    assert!(my_tun.handle_outgoing_packet(numbered(0), None).is_some());
    assert!(my_tun.get_queued_packets(1420).is_empty());
    my_tun.tunn.reset(my_tun.elapsed());
    my_tun.engine.pending = None;
    assert!(my_tun.get_queued_packets(1420).is_empty());
}

#[test]
fn outgoing_packets_are_padded_to_the_mtu() {
    let (mut my_tun, mut their_tun) = create_two_tuns_and_handshake();
    let data = my_tun.handle_outgoing_packet(Packet::copy_from(&[1, 2, 3]), Some(1420));
    let packet = open(&mut their_tun, data.unwrap());
    assert_eq!(packet.as_bytes(), &[1, 2, 3, 0, 0, 0, 0, 0, 0, 0, 0, 0, 0, 0, 0, 0]);
    let data = my_tun.handle_outgoing_packet(Packet::copy_from(&[1, 2, 3]), Some(5));
    assert_eq!(open(&mut their_tun, data.unwrap()).as_bytes(), &[1, 2, 3, 0, 0]);
    let data = my_tun.handle_outgoing_packet(Packet::copy_from(&[1, 2, 3]), None);
    assert_eq!(open(&mut their_tun, data.unwrap()).as_bytes(), &[1, 2, 3]);
}

#[test]
fn encapsulating_needs_a_session() {
    let (mut my_tun, mut their_tun) = create_two_tuns();
    let refused = my_tun.tunn.encapsulate_with_session(numbered(1));
    assert!(matches!(refused, Err(p) if p.as_bytes() == numbered(1).as_bytes()));
    complete_handshake(&mut my_tun, &mut their_tun);
    let Ok(Step::Seal { slot, packet }) = my_tun.tunn.encapsulate_with_session(numbered(1)) else {
        panic!("expected a packet to seal");
    };
    let sealed = my_tun.keys(slot).seal(packet);
    let tx_bytes = my_tun.tunn.stats(Span::zero()).1;
    let message = my_tun.tunn.finish_encapsulation(sealed).unwrap();
    assert_eq!(my_tun.tunn.stats(Span::zero()).1, tx_bytes + 48);
    assert!(my_tun.tunn.finish_encapsulation(Err(numbered(2))).is_err());
    assert_eq!(my_tun.tunn.stats(Span::zero()).1, tx_bytes + 48);

    let opening = their_tun.tunn.decapsulate_with_session(message).unwrap();
    let opened = their_tun.keys(opening.slot).open(opening.packet);
    let packet = their_tun
        .tunn
        .finish_decapsulation(opening.slot, opened)
        .unwrap();
    assert_eq!(packet.as_bytes(), numbered(1).as_bytes());
}

#[test]
fn bytes_are_counted() {
    let (mut my_tun, mut their_tun) = create_two_tuns_and_handshake();
    // An initiation and a keepalive one way, a response the other way.
    assert_eq!(my_tun.tunn.stats(Span::zero()).1, 148 + 32);
    assert_eq!(my_tun.tunn.stats(Span::zero()).2, 92);
    assert_eq!(their_tun.tunn.stats(Span::zero()).1, 92);
    assert_eq!(their_tun.tunn.stats(Span::zero()).2, 148);
    let data = my_tun.handle_outgoing_packet(numbered(1), None).unwrap();
    open(&mut their_tun, data);
    assert_eq!(my_tun.tunn.stats(Span::zero()).1, 148 + 32 + 48);
    assert_eq!(their_tun.tunn.stats(Span::zero()).2, 148 + 16);
}

#[test]
fn messages_for_unknown_sessions_are_refused() {
    let (mut my_tun, _their_tun) = create_two_tuns_and_handshake();
    let result = my_tun.handle_incoming_packet(data_to(99));
    assert!(matches!(
        result,
        TunnResult::Error(WireGuardError::NoCurrentSession)
    ));
}

#[test]
fn forged_messages_change_nothing() {
    let (mut my_tun, _their_tun) = create_two_tuns_and_handshake();
    MockClock::advance(Duration::from_secs(3));
    my_tun.update_timers().unwrap();
    let before = my_tun.time(TimerName::TimeLastPacketReceived);
    let rx_bytes = my_tun.tunn.stats(Span::zero()).2;
    let index = my_tun.tunn.session(my_tun.tunn.current_slot()).unwrap().receiving_index;
    let result = my_tun.handle_incoming_packet(data_to(index));
    assert!(matches!(
        result,
        TunnResult::Error(WireGuardError::InvalidAeadTag)
    ));
    assert_eq!(my_tun.time(TimerName::TimeLastPacketReceived), before);
    assert_eq!(my_tun.tunn.stats(Span::zero()).2, rx_bytes);
}

#[test]
fn initiations_of_strangers_are_refused() {
    let (mut my_tun, _) = create_two_tuns();
    let (_, mut stranger) = create_two_tuns();
    let init = create_handshake_init(&mut my_tun);
    let result = stranger.handle_incoming_packet(WgKind::HandshakeInit(init));
    assert!(matches!(
        result,
        TunnResult::Error(WireGuardError::Refused(1))
    ));
    assert!(stranger.tunn.session(0).is_none());
    assert_eq!(stranger.tunn.stats(Span::zero()).2, 0);
}

#[test]
fn responses_come_once() {
    let (mut my_tun, mut their_tun) = create_two_tuns();
    let init = create_handshake_init(&mut my_tun);
    let resp = create_handshake_response(&mut their_tun, init);
    let result = my_tun.handle_incoming_packet(WgKind::HandshakeResp(resp.clone()));
    assert!(matches!(result, TunnResult::WriteToNetwork(WgKind::Data(p)) if p.is_keepalive()));
    let result = my_tun.handle_incoming_packet(WgKind::HandshakeResp(resp));
    assert!(matches!(
        result,
        TunnResult::Error(WireGuardError::Refused(2))
    ));
}

#[test]
fn cookies_expire() {
    MockClock::set_time(Duration::ZERO);
    let (mut my_tun, _their_tun) = create_two_tuns();
    let result = my_tun.handle_incoming_packet(cookie_reply(false));
    assert!(matches!(
        result,
        TunnResult::Error(WireGuardError::Refused(3))
    ));
    MockClock::advance(Duration::from_secs(10));
    my_tun.update_timers().unwrap();
    let result = my_tun.handle_incoming_packet(cookie_reply(true));
    assert!(matches!(result, TunnResult::Done));
    assert!(my_tun.tunn.handshake().status.has_cookie);
    MockClock::advance(Duration::from_millis(119_999));
    my_tun.update_timers().unwrap();
    assert!(my_tun.tunn.handshake().status.has_cookie);
    MockClock::advance(Duration::from_millis(1));
    my_tun.update_timers().unwrap();
    assert!(!my_tun.tunn.handshake().status.has_cookie);
}

#[test]
fn attempts_are_given_up_and_taken_up_again() {
    MockClock::set_time(Duration::ZERO);
    let (mut my_tun, _their_tun) = create_two_tuns();
    assert!(my_tun.handle_outgoing_packet(numbered(0), None).is_some());
    // Retries do not prolong the attempt.
    for _ in 0..14 {
        MockClock::advance(Duration::from_secs(6));
        update_timer_results_in_handshake(&mut my_tun);
    }
    MockClock::set_time(Duration::from_secs(90));
    assert!(matches!(
        my_tun.update_timers(),
        Err(WireGuardError::ConnectionExpired)
    ));
    assert!(my_tun.tunn.is_expired());
    MockClock::advance(Duration::from_secs(1));
    assert!(matches!(
        my_tun.update_timers(),
        Err(WireGuardError::ConnectionExpired)
    ));
    // The packet that waited is gone; another one starts over.
    let message = my_tun.handle_outgoing_packet(numbered(1), None);
    assert!(matches!(message, Some(WgKind::HandshakeInit(_))));
    assert!(!my_tun.tunn.is_expired());
    assert!(matches!(my_tun.update_timers(), Ok(None)));
    assert_eq!(
        my_tun.time(TimerName::TimeLastHandshakeStarted),
        Duration::from_secs(91)
    );
}

#[test]
fn connections_without_new_keys_are_given_up() {
    MockClock::set_time(Duration::ZERO);
    let (mut my_tun, _their_tun) = create_two_tuns_and_handshake();
    MockClock::set_time(Duration::from_millis(539_999));
    assert!(matches!(my_tun.update_timers(), Ok(None)));
    MockClock::set_time(Duration::from_secs(540));
    assert!(matches!(
        my_tun.update_timers(),
        Err(WireGuardError::ConnectionExpired)
    ));
}

#[test]
fn sessions_are_dropped_when_they_are_too_old() {
    MockClock::set_time(Duration::ZERO);
    let (mut my_tun, _their_tun) = create_two_tuns_and_handshake();
    assert_eq!(my_tun.time_since_last_handshake(), Some(Duration::ZERO));
    MockClock::set_time(Duration::from_secs(180));
    my_tun.update_timers().unwrap();
    assert_eq!(
        my_tun.time_since_last_handshake(),
        Some(Duration::from_secs(180))
    );
    MockClock::set_time(Duration::from_millis(180_001));
    my_tun.update_timers().unwrap();
    assert_eq!(my_tun.time_since_last_handshake(), None);
    assert_eq!(
        my_tun
            .tunn
            .time_since_last_packet_received(my_tun.elapsed())
            .map(duration),
        None
    );
}

#[test]
fn a_reset_starts_over() {
    MockClock::set_time(Duration::ZERO);
    let (mut my_tun, _their_tun) = create_two_tuns_and_handshake();
    MockClock::advance(Duration::from_secs(7));
    let elapsed = my_tun.elapsed();
    my_tun.tunn.reset(elapsed);
    my_tun.engine.pending = None;
    assert_eq!(my_tun.time_since_last_handshake(), None);
    assert_eq!(
        my_tun.time(TimerName::TimeSessionEstablished),
        Duration::from_secs(7)
    );
    assert!(matches!(my_tun.update_timers(), Ok(None)));
    let message = my_tun.handle_outgoing_packet(numbered(0), None);
    assert!(matches!(message, Some(WgKind::HandshakeInit(_))));
}

#[test]
fn persistent_keepalives_start_a_handshake_and_keep_it() {
    MockClock::set_time(Duration::ZERO);
    let (mut my_tun, mut their_tun) = create_two_tuns();
    my_tun.tunn.set_persistent_keepalive(Some(25));
    assert_eq!(my_tun.tunn.persistent_keepalive(), Some(25));
    let message = my_tun.update_timers().unwrap();
    let Some(WgKind::HandshakeInit(init)) = message else {
        panic!("expected an initiation, got {message:?}");
    };
    let resp = create_handshake_response(&mut their_tun, init);
    my_tun.handle_incoming_packet(WgKind::HandshakeResp(resp));
    // The empty packet that asked for the handshake waits.
    assert_eq!(my_tun.get_queued_packets(1420).len(), 1);
    MockClock::advance(Duration::from_millis(24_999));
    assert!(matches!(my_tun.update_timers(), Ok(None)));
    MockClock::advance(Duration::from_millis(1));
    assert!(matches!(my_tun.update_timers(), Ok(Some(WgKind::Data(p))) if p.is_keepalive()));
    my_tun.tunn.set_persistent_keepalive(None);
    MockClock::advance(Duration::from_secs(100));
    assert!(matches!(my_tun.update_timers(), Ok(None)));
}

#[test]
fn a_reset_with_persistent_keepalives_starts_a_handshake() {
    let (mut my_tun, mut their_tun) = create_two_tuns();
    my_tun.tunn.set_persistent_keepalive(Some(25));
    complete_handshake(&mut my_tun, &mut their_tun);
    assert!(matches!(my_tun.update_timers(), Ok(None)));
    let elapsed = my_tun.elapsed();
    my_tun.tunn.reset(elapsed);
    update_timer_results_in_handshake(&mut my_tun);
}

#[test]
fn silence_starts_a_handshake() {
    MockClock::set_time(Duration::ZERO);
    let (mut my_tun, mut their_tun) = create_two_tuns();
    my_tun.tunn.dangerously_set_timer_params(TimerParams {
        new_handshake_timeout: Span::from_secs(15)..=Span::from_secs(15),
        ..TimerParams::default()
    });
    complete_handshake(&mut my_tun, &mut their_tun);
    my_tun.handle_outgoing_packet(numbered(0), None);
    MockClock::advance(Duration::from_millis(14_999));
    assert!(matches!(my_tun.update_timers(), Ok(None)));
    MockClock::advance(Duration::from_millis(1));
    update_timer_results_in_handshake(&mut my_tun);
}

#[test]
fn retries_fall_within_the_jitter() {
    for _ in 0..50 {
        let (mut my_tun, _their_tun) = create_two_tuns();
        let sampled = duration(my_tun.tunn.sample_timer(Timeout::Rekey));
        assert!(sampled >= REKEY_TIMEOUT && sampled <= REKEY_TIMEOUT + MAX_JITTER);
        assert_eq!(
            duration(my_tun.tunn.sample_timer(Timeout::RekeyAfter)),
            REKEY_AFTER_TIME
        );
    }
}

#[test]
fn an_inverted_range_gives_its_start() {
    let (mut my_tun, _their_tun) = create_two_tuns();
    my_tun.tunn.dangerously_set_timer_params(TimerParams {
        rekey_timeout: Span::from_secs(9)..=Span::from_secs(3),
        ..TimerParams::default()
    });
    assert_eq!(my_tun.tunn.sample_timer(Timeout::Rekey), Span::from_secs(9));
    assert_eq!(
        my_tun.tunn.timer_params().rekey_timeout,
        Span::from_secs(9)..=Span::from_secs(3)
    );
}

#[test]
fn a_new_key_pair_ends_all_sessions() {
    let (mut my_tun, _their_tun) = create_two_tuns_and_handshake();
    my_tun.tunn.set_static_private([1; 32], public_key([1; 32]));
    assert_eq!(my_tun.tunn.handshake().static_private, [1; 32]);
    assert_eq!(my_tun.tunn.handshake().static_public, public_key([1; 32]));
    let message = my_tun.handle_outgoing_packet(numbered(0), None);
    assert!(matches!(message, Some(WgKind::HandshakeInit(_))));
}

#[test]
fn the_preshared_key_reads_back() {
    let (mut my_tun, _their_tun) = create_two_tuns();
    assert_eq!(my_tun.tunn.preshared_key(), None);
    my_tun.tunn.set_preshared_key(Some([7; 32]));
    assert_eq!(my_tun.tunn.preshared_key(), Some([7; 32]));
    my_tun.tunn.set_preshared_key(None);
    assert_eq!(my_tun.tunn.preshared_key(), None);
}

#[test]
fn the_most_recent_sessions_are_kept() {
    let (mut my_tun, mut their_tun) = create_two_tuns();
    let mut indices = Vec::new();
    for n in 0..11 {
        complete_handshake(&mut my_tun, &mut their_tun);
        assert_eq!(my_tun.tunn.current_slot(), n % 8);
        indices.push(my_tun.tunn.session(n % 8).unwrap().receiving_index);
    }
    for (n, index) in indices.iter().enumerate() {
        let kept = (0..8).any(|slot| my_tun.tunn.session(slot).unwrap().receiving_index == *index);
        assert_eq!(kept, n >= 3);
    }
    // Newest first: slot 2 holds the eleventh session.
    assert_eq!(
        my_tun.tunn.stats(Span::zero()).3,
        vec![2, 1, 0, 7, 6, 5, 4, 3]
    );
}

#[test]
fn late_messages_do_not_bring_old_sessions_back() {
    MockClock::set_time(Duration::ZERO);
    let (mut my_tun, mut their_tun) = create_two_tuns_and_handshake();
    let late = my_tun.handle_outgoing_packet(numbered(1), None).unwrap();
    MockClock::advance(Duration::from_secs(1));
    my_tun.update_timers().unwrap();
    their_tun.update_timers().unwrap();
    complete_handshake(&mut my_tun, &mut their_tun);
    assert_eq!(their_tun.tunn.current_slot(), 1);
    assert_eq!(open(&mut their_tun, late).as_bytes(), numbered(1).as_bytes());
    assert_eq!(their_tun.tunn.current_slot(), 1);
}

#[test]
fn an_answered_session_waits_for_its_first_message() {
    MockClock::set_time(Duration::ZERO);
    let (mut my_tun, mut their_tun) = create_two_tuns_and_handshake();
    MockClock::advance(Duration::from_secs(1));
    my_tun.update_timers().unwrap();
    their_tun.update_timers().unwrap();
    let init = my_tun.format_handshake_initiation(true).unwrap();
    let resp = create_handshake_response(&mut their_tun, init);
    assert_eq!(their_tun.tunn.current_slot(), 0);
    let TunnResult::WriteToNetwork(WgKind::Data(keepalive)) =
        my_tun.handle_incoming_packet(WgKind::HandshakeResp(resp))
    else {
        panic!("expected a keepalive");
    };
    assert_eq!(my_tun.tunn.current_slot(), 1);
    parse_keepalive(&mut their_tun, keepalive);
    assert_eq!(their_tun.tunn.current_slot(), 1);
    assert_eq!(their_tun.tunn.stats(Span::zero()).3, vec![1, 0]);
}

#[test]
fn time_since_the_last_packet_is_shown() {
    MockClock::set_time(Duration::ZERO);
    let (mut my_tun, mut their_tun) = create_two_tuns_and_handshake();
    MockClock::advance(Duration::from_secs(4));
    their_tun.update_timers().unwrap();
    let data = my_tun.handle_outgoing_packet(numbered(1), None).unwrap();
    open(&mut their_tun, data);
    MockClock::advance(Duration::from_secs(3));
    assert_eq!(
        their_tun
            .tunn
            .time_since_last_packet_received(their_tun.elapsed())
            .map(duration),
        Some(Duration::from_secs(3))
    );
    assert_eq!(
        their_tun.tunn.stats(their_tun.elapsed()).0.map(duration),
        Some(Duration::from_secs(7))
    );
    assert_eq!(their_tun.tunn.stats(their_tun.elapsed()).4, None);
}

#[test]
fn samples_are_left_to_chance() {
    let (mut my_tun, mut their_tun) = create_two_tuns();
    let mut draws = Vec::new();
    for _ in 0..50 {
        draws.push(my_tun.tunn.sample_timer(Timeout::NewHandshake));
        draws.push(their_tun.tunn.sample_timer(Timeout::NewHandshake));
    }
    draws.sort();
    draws.dedup();
    // A hundred draws out of 333 million nanoseconds do not all coincide.
    assert!(draws.len() > 50);
    for draw in draws {
        assert!(draw >= Span::from_secs(15) && draw <= Span::from_millis(15_333));
    }
}

#[test]
fn updates_keep_what_happened() {
    MockClock::set_time(Duration::ZERO);
    let (mut my_tun, mut their_tun) = create_two_tuns_and_handshake();
    MockClock::advance(Duration::from_secs(2));
    my_tun.update_timers().unwrap();
    let data = my_tun.handle_outgoing_packet(numbered(1), None).unwrap();
    open(&mut their_tun, data);
    let answer = their_tun.handle_outgoing_packet(numbered(2), None).unwrap();
    open(&mut my_tun, answer);
    let stats = my_tun.tunn.stats(Span::zero());
    MockClock::advance(Duration::from_secs(5));
    assert!(matches!(my_tun.update_timers(), Ok(None)));
    for name in [
        TimerName::TimeLastPacketSent,
        TimerName::TimeLastDataPacketSent,
        TimerName::TimeLastPacketReceived,
        TimerName::TimeLastDataPacketReceived,
    ] {
        assert_eq!(my_tun.time(name), Duration::from_secs(2));
    }
    assert_eq!(my_tun.time(TimerName::TimeSessionEstablished), Duration::ZERO);
    assert_eq!(my_tun.tunn.stats(Span::zero()).1, stats.1);
    assert_eq!(my_tun.tunn.stats(Span::zero()).2, stats.2);
    assert_eq!(my_tun.tunn.current_slot(), 0);
}

#[test]
fn the_keepalive_after_a_handshake_counts_as_sent() {
    MockClock::set_time(Duration::ZERO);
    let (mut my_tun, mut their_tun) = create_two_tuns_and_handshake();
    MockClock::advance(Duration::from_secs(1));
    my_tun.update_timers().unwrap();
    their_tun.update_timers().unwrap();
    let init = my_tun.format_handshake_initiation(true).unwrap();
    // Data that arrives meanwhile is owed an answer.
    MockClock::advance(Duration::from_secs(2));
    my_tun.update_timers().unwrap();
    let data = their_tun.handle_outgoing_packet(numbered(1), None).unwrap();
    open(&mut my_tun, data);
    MockClock::advance(Duration::from_secs(1));
    my_tun.update_timers().unwrap();
    assert_eq!(my_tun.time(TimerName::TimeLastPacketSent), Duration::from_secs(1));
    let resp = create_handshake_response(&mut their_tun, init);
    let result = my_tun.handle_incoming_packet(WgKind::HandshakeResp(resp));
    assert!(matches!(result, TunnResult::WriteToNetwork(WgKind::Data(p)) if p.is_keepalive()));
    assert_eq!(my_tun.time(TimerName::TimeLastPacketSent), Duration::from_secs(4));
    assert_eq!(my_tun.time(TimerName::TimeLastPacketReceived), Duration::from_secs(4));
    // The keepalive was the answer: no other follows.
    MockClock::advance(Duration::from_secs(30));
    assert!(matches!(my_tun.update_timers(), Ok(None)));
}

/// A source that draws each time one nanosecond more than the last time.
struct Counting(u32);

impl Jitter for Counting {
    fn span_between(&mut self, start: Span, _end: Span) -> Span {
        self.0 += 1;
        span(duration(start) + Duration::from_nanos(u64::from(self.0)))
    }
}

#[test]
fn only_timeouts_with_a_choice_take_randomness() {
    let (_, mut their_tun) = create_two_tuns();
    let secret: [u8; 32] = rand::random();
    let peer = their_tun.tunn.handshake().static_public;
    let mut my_tun = with_engine(Tunn::new_with_rng(secret, peer, None, None, Counting(0)), 1000);
    their_tun = with_engine(
        Tunn::new(their_tun.tunn.handshake().static_private, public_key(secret), None, None),
        2000,
    );
    let nth = |n: u64| span(Duration::from_secs(5) + Duration::from_nanos(n));

    // Writing an initiation draws once.
    let init = my_tun.format_handshake_initiation(false).unwrap();
    assert_eq!(my_tun.tunn.sample_timer(Timeout::Rekey), nth(2));
    // A response has a session replaced after a fixed time.
    let resp = create_handshake_response(&mut their_tun, init);
    my_tun.handle_incoming_packet(WgKind::HandshakeResp(resp));
    // The first data packet arms the new handshake, later ones and keepalives draw nothing.
    for n in 0..5 {
        my_tun.handle_outgoing_packet(numbered(n), None).unwrap();
        my_tun.handle_outgoing_packet(Packet::default(), None).unwrap();
    }
    // Received data is answered after a fixed time.
    let data = their_tun.handle_outgoing_packet(numbered(9), None).unwrap();
    my_tun.handle_incoming_packet(data);
    my_tun.handle_incoming_packet(cookie_reply(true));
    my_tun.update_timers().unwrap();
    assert_eq!(my_tun.tunn.sample_timer(Timeout::Rekey), nth(4));
}
