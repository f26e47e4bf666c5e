//! Timers on their own, and spans of time.

use gotatun::noise::timers::{TimerName, TimerParams, Timeout, Timers};
use gotatun::time::Duration;

fn s(secs: u64) -> Duration {
    Duration::from_secs(secs)
}

const NAMES: [TimerName; 9] = [
    TimerName::TimeCurrent,
    TimerName::TimeSessionEstablished,
    TimerName::TimeLastHandshakeStarted,
    TimerName::TimeLastPacketReceived,
    TimerName::TimeLastPacketSent,
    TimerName::TimeLastDataPacketReceived,
    TimerName::TimeLastDataPacketSent,
    TimerName::TimeCookieReceived,
    TimerName::TimePersistentKeepalive,
];

#[test]
fn spans_are_exact() {
    let d = Duration::new(3, 1_500_000_000);
    assert_eq!(d.as_secs(), 4);
    assert_eq!(d.subsec_nanos(), 500_000_000);
    assert_eq!(d, Duration::from_millis(4500));
    assert!(d > s(4));
    assert!(d.exceeds(&s(4)) && !d.exceeds(&d) && d.at_least(&d));
    assert_eq!(s(4).max_with(d), d);
    assert_eq!(d.max_with(s(4)), d);
    assert_eq!(d.minus(s(4)), Duration::from_millis(500));
    assert_eq!(s(4).saturating_sub(d), Duration::zero());
    assert_eq!(d.saturating_sub(s(4)), Duration::from_millis(500));
    assert_eq!(s(u64::MAX).as_secs(), u64::MAX);
}

#[test]
fn default_params_are_those_of_the_paper() {
    let params = TimerParams::default();
    assert_eq!(params.keepalive_timeout, s(10)..=s(10));
    assert_eq!(
        params.new_handshake_timeout,
        s(15)..=Duration::from_millis(15_333)
    );
    assert_eq!(params.rekey_timeout, s(5)..=Duration::from_millis(5333));
    assert_eq!(params.rekey_after_time, s(120)..=s(120));
    assert_eq!(params.clone(), params);
    assert_eq!(*params.range(Timeout::Keepalive), params.keepalive_timeout);
    assert_eq!(*params.range(Timeout::NewHandshake), params.new_handshake_timeout);
    assert_eq!(*params.range(Timeout::Rekey), params.rekey_timeout);
    assert_eq!(*params.range(Timeout::RekeyAfter), params.rekey_after_time);
}

#[test]
fn new_timers_start_at_zero() {
    let timers = Timers::new(Some(25));
    for name in NAMES {
        assert_eq!(timers[name], Duration::zero());
    }
    assert!(!timers.is_initiator());
    assert_eq!(timers.persistent_keepalive(), Some(25));
    assert_eq!(Timers::new(Some(0)).persistent_keepalive(), None);
    assert_eq!(Timers::new(None).persistent_keepalive(), None);
}

#[test]
fn every_timer_ticks_at_the_current_time() {
    for name in NAMES {
        let mut timers = Timers::new(None);
        timers.advance(s(42));
        timers.tick(name, s(1));
        assert_eq!(timers[name], s(42));
        assert_eq!(timers[TimerName::TimeCurrent], s(42));
    }
}

#[test]
fn time_never_goes_back() {
    let mut timers = Timers::new(None);
    timers.advance(s(100));
    timers.advance(s(95));
    assert_eq!(timers[TimerName::TimeCurrent], s(100));
    assert_eq!(timers.now(s(95)), s(100));
    assert_eq!(timers.now(s(105)), s(105));
    timers.clear(s(90));
    assert_eq!(timers[TimerName::TimeCookieReceived], s(100));
}

#[test]
fn received_data_arms_the_passive_keepalive_once() {
    let mut timers = Timers::new(None);
    timers.advance(s(10));
    assert_eq!(
        timers.draws(TimerName::TimeLastDataPacketReceived),
        Some(Timeout::Keepalive)
    );
    timers.tick(TimerName::TimeLastDataPacketReceived, s(7));
    assert_eq!(timers.draws(TimerName::TimeLastDataPacketReceived), None);
    timers.advance(s(12));
    timers.tick(TimerName::TimeLastDataPacketReceived, s(1));
    timers.advance(Duration::from_millis(16_999));
    assert!(!timers.take_keepalive());
    timers.advance(s(17));
    assert!(timers.take_keepalive());
    assert!(!timers.take_keepalive());
}

#[test]
fn sending_disarms_the_passive_keepalive() {
    let mut timers = Timers::new(None);
    timers.tick(TimerName::TimeLastDataPacketReceived, s(7));
    timers.tick(TimerName::TimeLastPacketSent, Duration::zero());
    timers.advance(s(100));
    assert!(!timers.take_keepalive());
}

#[test]
fn sent_data_arms_the_new_handshake_until_a_packet_comes() {
    let mut timers = Timers::new(None);
    assert_eq!(
        timers.draws(TimerName::TimeLastDataPacketSent),
        Some(Timeout::NewHandshake)
    );
    timers.tick(TimerName::TimeLastDataPacketSent, s(15));
    assert_eq!(timers.draws(TimerName::TimeLastDataPacketSent), None);
    timers.advance(Duration::from_millis(14_999));
    assert!(!timers.take_silence());
    timers.advance(s(15));
    assert!(timers.take_silence());
    assert!(!timers.take_silence());

    timers.tick(TimerName::TimeLastDataPacketSent, s(15));
    timers.tick(TimerName::TimeLastPacketReceived, Duration::zero());
    timers.advance(s(100));
    assert!(!timers.take_silence());
}

#[test]
fn persistent_keepalives_are_due_at_once_and_then_by_interval() {
    let mut timers = Timers::new(Some(25));
    assert!(timers.take_persistent_keepalive());
    assert!(!timers.take_persistent_keepalive());
    timers.advance(Duration::from_millis(24_999));
    assert!(!timers.take_persistent_keepalive());
    timers.advance(s(25));
    assert!(timers.take_persistent_keepalive());
    timers.advance(s(40));
    timers.tick(TimerName::TimeLastPacketReceived, Duration::zero());
    timers.advance(s(60));
    assert!(!timers.take_persistent_keepalive());
    timers.tick(TimerName::TimeLastPacketSent, Duration::zero());
    timers.advance(s(84));
    assert!(!timers.take_persistent_keepalive());
    timers.advance(s(85));
    assert!(timers.take_persistent_keepalive());
}

#[test]
fn persistent_keepalives_can_be_changed() {
    let mut timers = Timers::new(None);
    timers.advance(s(10));
    timers.set_persistent_keepalive(Some(5));
    assert_eq!(timers.persistent_keepalive(), Some(5));
    assert_eq!(timers[TimerName::TimePersistentKeepalive], s(10));
    assert!(timers.take_persistent_keepalive());
    timers.set_persistent_keepalive(Some(65535));
    assert_eq!(timers.persistent_keepalive(), Some(65535));
    assert!(!timers.take_persistent_keepalive());
    timers.set_persistent_keepalive(Some(0));
    assert_eq!(timers.persistent_keepalive(), None);
    assert_eq!(timers[TimerName::TimePersistentKeepalive], Duration::zero());
    timers.advance(s(100_000));
    assert!(!timers.take_persistent_keepalive());
}

#[test]
fn sessions_are_rejected_when_they_are_too_old() {
    let mut timers = Timers::new(None);
    timers.advance(s(20));
    timers.session_established(true, 3, s(120));
    assert!(timers.is_initiator());
    assert_eq!(timers[TimerName::TimeSessionEstablished], s(20));
    assert!(timers.session_is_no_older(3, 0));
    assert!(!timers.session_is_no_older(0, 3));
    timers.advance(s(200));
    assert!(!timers.reject_session(3));
    assert!(timers.reject_session(0));
    assert!(!timers.reject_session(0));
    timers.advance(Duration::from_millis(200_001));
    assert!(timers.reject_session(3));
}

#[test]
fn sessions_are_replaced_on_time() {
    let mut timers = Timers::new(None);
    timers.session_established(true, 0, s(120));
    timers.advance(s(1));
    assert!(!timers.rekey_after_send());
    timers.tick(TimerName::TimeLastDataPacketSent, s(1));
    timers.advance(Duration::from_millis(119_999));
    assert!(!timers.rekey_after_send());
    timers.advance(s(120));
    assert!(timers.rekey_after_send());
    assert!(!timers.rekey_after_receive());
    timers.tick(TimerName::TimeLastDataPacketReceived, s(1));
    timers.advance(Duration::from_millis(164_999));
    assert!(!timers.rekey_after_receive());
    timers.advance(s(165));
    assert!(timers.rekey_after_receive());
    timers.session_established(false, 1, s(120));
    timers.advance(s(500));
    assert!(!timers.rekey_after_send() && !timers.rekey_after_receive());
}

#[test]
fn long_waits_end() {
    let mut timers = Timers::new(None);
    timers.advance(Duration::from_millis(89_999));
    assert!(!timers.attempt_expired());
    timers.advance(s(90));
    assert!(timers.attempt_expired());
    timers.advance(Duration::from_millis(119_999));
    assert!(!timers.cookie_expired());
    timers.advance(s(120));
    assert!(timers.cookie_expired());
    timers.advance(Duration::from_millis(539_999));
    assert!(!timers.connection_expired());
    timers.advance(s(540));
    assert!(timers.connection_expired());
    assert_eq!(timers.since(TimerName::TimeCookieReceived), s(540));
}

#[test]
fn params_reset_the_timeouts() {
    let mut timers = Timers::new(None);
    assert!(timers.retry_due(s(5)));
    timers.set_rekey_timeout(s(6));
    assert!(!timers.retry_due(s(5)));
    assert!(timers.retry_due(s(6)));
    timers.dangerously_set_params(TimerParams {
        rekey_timeout: s(8)..=s(9),
        ..TimerParams::default()
    });
    assert!(!timers.retry_due(Duration::from_millis(7999)));
    assert!(timers.retry_due(s(8)));
    assert_eq!(timers.params().rekey_timeout, s(8)..=s(9));
    timers.set_rekey_timeout(s(100));
    timers.clear(s(1));
    assert!(timers.retry_due(s(8)));
    assert_eq!(timers.params().rekey_timeout, s(8)..=s(9));
}
