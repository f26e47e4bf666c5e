//! The timers of a tunnel.
//!
//! All times are counted from the start of the tunnel. [`Timers`] never reads a clock: whoever
//! does hands in the time that has passed since the tunnel started, and [`Timers::now`] makes it
//! monotonic. The contracts speak of a [`TimersModel`], in which every time is a number of
//! nanoseconds.

use core::ops::{Index, RangeInclusive};
use vstd::prelude::*;

use crate::noise::N_SESSIONS;
use crate::time::{Duration, NANOS_PER_MILLI, NANOS_PER_SEC};

verus! {

/// Age at which the initiator of a session replaces it once it sends data, in seconds.
pub const REKEY_AFTER_TIME: u64 = 120;

/// Age beyond which a session is not used any more, in seconds.
pub const REJECT_AFTER_TIME: u64 = 180;

/// How long to go on starting a handshake before giving up, in seconds.
pub const REKEY_ATTEMPT_TIME: u64 = 90;

/// How long to wait for the response to an initiation, in seconds.
pub const REKEY_TIMEOUT: u64 = 5;

/// How long to keep a peer that sent data without an answer, in seconds.
pub const KEEPALIVE_TIMEOUT: u64 = 10;

/// How long a cookie is good for, in seconds.
pub const COOKIE_EXPIRATION_TIME: u64 = 120;

/// The most that chance adds to a timeout, in milliseconds.
pub const MAX_JITTER: u64 = 333;

/// How many timers there are.
pub const N_TIMERS: usize = 9;

/// Names the timers of a tunnel.
#[derive(Clone, Copy, Debug, PartialEq, Eq, Structural)]
pub enum TimerName {
    /// Current time, updated each time the timers are.
    TimeCurrent,
    /// Time when the last handshake was completed.
    TimeSessionEstablished,
    /// Time the last attempt for a new handshake began.
    TimeLastHandshakeStarted,
    /// Time we last received and authenticated a packet.
    TimeLastPacketReceived,
    /// Time we last sent a packet.
    TimeLastPacketSent,
    /// Time we last received a valid data message, except keepalives.
    TimeLastDataPacketReceived,
    /// Time we last sent a data message, except keepalives.
    TimeLastDataPacketSent,
    /// Time we last received a cookie.
    TimeCookieReceived,
    /// Time we last sent a persistent keepalive.
    TimePersistentKeepalive,
    /// Names no timer: it comes behind the last one.
    Top,
}

impl TimerName {
    /// The place of the timer among all timers.
    pub open spec fn position(self) -> int {
        match self {
            TimerName::TimeCurrent => 0,
            TimerName::TimeSessionEstablished => 1,
            TimerName::TimeLastHandshakeStarted => 2,
            TimerName::TimeLastPacketReceived => 3,
            TimerName::TimeLastPacketSent => 4,
            TimerName::TimeLastDataPacketReceived => 5,
            TimerName::TimeLastDataPacketSent => 6,
            TimerName::TimeCookieReceived => 7,
            TimerName::TimePersistentKeepalive => 8,
            TimerName::Top => 9,
        }
    }

    fn as_usize(self) -> (i: usize)
        ensures
            i == self.position(),
    {
        match self {
            TimerName::TimeCurrent => 0,
            TimerName::TimeSessionEstablished => 1,
            TimerName::TimeLastHandshakeStarted => 2,
            TimerName::TimeLastPacketReceived => 3,
            TimerName::TimeLastPacketSent => 4,
            TimerName::TimeLastDataPacketReceived => 5,
            TimerName::TimeLastDataPacketSent => 6,
            TimerName::TimeCookieReceived => 7,
            TimerName::TimePersistentKeepalive => 8,
            TimerName::Top => 9,
        }
    }
}

/// `RangeInclusive::start`: the lower bound of the range. It is unspecified once the range was
/// iterated over to its end.
pub assume_specification<Idx>[ RangeInclusive::<Idx>::start ](r: &RangeInclusive<Idx>) -> (start:
    &Idx)
    ensures
        !r@.exhausted ==> *start == r@.start,
;

/// `RangeInclusive::end`: the upper bound of the range. It is unspecified once the range was
/// iterated over to its end.
pub assume_specification<Idx>[ RangeInclusive::<Idx>::end ](r: &RangeInclusive<Idx>) -> (end: &Idx)
    ensures
        !r@.exhausted ==> *end == r@.end,
;

/// Names the timeouts that are drawn at random.
#[derive(Clone, Copy, Debug, PartialEq, Eq, Structural)]
pub enum Timeout {
    /// Until a passive keepalive is sent.
    Keepalive,
    /// Until silence is answered by a new handshake.
    NewHandshake,
    /// Until an unanswered initiation is sent again.
    Rekey,
    /// Until a session is replaced.
    RekeyAfter,
}

/// Tuning of WireGuard timers.
///
/// Each timeout is sampled uniformly from its range when the corresponding timer is armed. The
/// defaults match the timings from the WireGuard paper; with other values a tunnel deviates from
/// the protocol.
#[derive(Debug, PartialEq, Eq)]
pub struct TimerParams {
    /// How long to wait, after receiving a data packet without sending anything back, before
    /// sending a passive keepalive. Sampled when the passive keepalive timer is armed.
    pub keepalive_timeout: RangeInclusive<Duration>,
    /// How long to wait, after sending a data packet without hearing anything back, before
    /// initiating a new handshake. Sampled when the new-handshake timer is armed.
    pub new_handshake_timeout: RangeInclusive<Duration>,
    /// How long to wait before retransmitting an unanswered handshake initiation. Sampled each
    /// time a handshake initiation is sent.
    pub rekey_timeout: RangeInclusive<Duration>,
    /// Session age after which the initiator initiates a new handshake when sending data.
    /// Sampled when a session is established.
    pub rekey_after_time: RangeInclusive<Duration>,
}

/// A range of timeouts in nanoseconds, both bounds included.
pub struct TimeoutRange {
    /// The lower bound.
    pub start: nat,
    /// The upper bound.
    pub end: nat,
}

impl TimeoutRange {
    /// Whether the range leaves nothing to chance.
    pub open spec fn is_fixed(self) -> bool {
        self.start >= self.end
    }

    /// Whether `d` can be drawn from the range. A range that holds no two timeouts, or none,
    /// always gives its start.
    pub open spec fn gives(self, d: nat) -> bool {
        if self.is_fixed() {
            d == self.start
        } else {
            self.start <= d <= self.end
        }
    }
}

/// The ranges of [`TimerParams`] in nanoseconds.
pub struct ParamsModel {
    /// See [`TimerParams::keepalive_timeout`].
    pub keepalive_timeout: TimeoutRange,
    /// See [`TimerParams::new_handshake_timeout`].
    pub new_handshake_timeout: TimeoutRange,
    /// See [`TimerParams::rekey_timeout`].
    pub rekey_timeout: TimeoutRange,
    /// See [`TimerParams::rekey_after_time`].
    pub rekey_after_time: TimeoutRange,
}

impl ParamsModel {
    /// The range that a timeout is drawn from.
    pub open spec fn range(self, timeout: Timeout) -> TimeoutRange {
        match timeout {
            Timeout::Keepalive => self.keepalive_timeout,
            Timeout::NewHandshake => self.new_handshake_timeout,
            Timeout::Rekey => self.rekey_timeout,
            Timeout::RekeyAfter => self.rekey_after_time,
        }
    }
}

/// A number of seconds in nanoseconds.
pub open spec fn secs(s: int) -> nat {
    (s * NANOS_PER_SEC) as nat
}

/// A number of milliseconds in nanoseconds.
pub open spec fn millis(ms: int) -> nat {
    (ms * NANOS_PER_MILLI) as nat
}

/// The ranges of the WireGuard paper.
pub open spec fn default_params() -> ParamsModel {
    ParamsModel {
        keepalive_timeout: TimeoutRange { start: secs(10), end: secs(10) },
        new_handshake_timeout: TimeoutRange { start: secs(15), end: secs(15) + millis(333) },
        rekey_timeout: TimeoutRange { start: secs(5), end: secs(5) + millis(333) },
        rekey_after_time: TimeoutRange { start: secs(120), end: secs(120) },
    }
}

/// The bounds of a range of spans.
pub open spec fn range_model(r: RangeInclusive<Duration>) -> TimeoutRange {
    TimeoutRange { start: r@.start@, end: r@.end@ }
}

impl View for TimerParams {
    type V = ParamsModel;

    open spec fn view(&self) -> ParamsModel {
        ParamsModel {
            keepalive_timeout: range_model(self.keepalive_timeout),
            new_handshake_timeout: range_model(self.new_handshake_timeout),
            rekey_timeout: range_model(self.rekey_timeout),
            rekey_after_time: range_model(self.rekey_after_time),
        }
    }
}

impl TimerParams {
    /// No range was iterated over to its end. Spans of time cannot be iterated over, so this
    /// holds of all params.
    pub open spec fn wf(&self) -> bool {
        &&& !self.keepalive_timeout@.exhausted
        &&& !self.new_handshake_timeout@.exhausted
        &&& !self.rekey_timeout@.exhausted
        &&& !self.rekey_after_time@.exhausted
    }

    /// The range that a timeout is drawn from.
    pub fn range(&self, timeout: Timeout) -> (range: &RangeInclusive<Duration>)
        requires
            self.wf(),
        ensures
            range_model(*range) == self@.range(timeout),
            !range@.exhausted,
    {
        match timeout {
            Timeout::Keepalive => &self.keepalive_timeout,
            Timeout::NewHandshake => &self.new_handshake_timeout,
            Timeout::Rekey => &self.rekey_timeout,
            Timeout::RekeyAfter => &self.rekey_after_time,
        }
    }
}

/// A range with the same bounds.
fn copy_range(r: &RangeInclusive<Duration>) -> (copy: RangeInclusive<Duration>)
    ensures
        !copy@.exhausted,
        !r@.exhausted ==> range_model(copy) == range_model(*r),
{
    RangeInclusive::new(*r.start(), *r.end())
}

impl Clone for TimerParams {
    fn clone(&self) -> (copy: Self)
        ensures
            copy.wf(),
            self.wf() ==> copy@ == self@,
    {
        TimerParams {
            keepalive_timeout: copy_range(&self.keepalive_timeout),
            new_handshake_timeout: copy_range(&self.new_handshake_timeout),
            rekey_timeout: copy_range(&self.rekey_timeout),
            rekey_after_time: copy_range(&self.rekey_after_time),
        }
    }
}

impl Default for TimerParams {
    /// The ranges of the WireGuard paper.
    fn default() -> (params: Self)
        ensures
            params.wf(),
            params@ == default_params(),
    {
        let keepalive = Duration::from_secs(KEEPALIVE_TIMEOUT);
        let new_handshake = Duration::from_secs(KEEPALIVE_TIMEOUT + REKEY_TIMEOUT);
        let rekey = Duration::from_secs(REKEY_TIMEOUT);
        let rekey_after = Duration::from_secs(REKEY_AFTER_TIME);
        TimerParams {
            keepalive_timeout: RangeInclusive::new(keepalive, keepalive),
            new_handshake_timeout: RangeInclusive::new(
                new_handshake,
                Duration::from_millis((KEEPALIVE_TIMEOUT + REKEY_TIMEOUT) * 1000 + MAX_JITTER),
            ),
            rekey_timeout: RangeInclusive::new(
                rekey,
                Duration::from_millis(REKEY_TIMEOUT * 1000 + MAX_JITTER),
            ),
            rekey_after_time: RangeInclusive::new(rekey_after, rekey_after),
        }
    }
}

/// The state of [`Timers`], with every time in nanoseconds since the tunnel started.
#[verifier::ext_equal]
pub struct TimersModel {
    /// Whether we initiated the last handshake.
    pub is_initiator: bool,
    /// The time of each timer, by [`TimerName::position`].
    pub times: Seq<nat>,
    /// When the session of each slot was established, or when its slot was last emptied.
    pub session_times: Seq<nat>,
    /// When the first data packet arrived that nothing was sent back on, if any.
    pub want_keepalive: Option<nat>,
    /// When the first data packet was sent that nothing came back on, if any.
    pub want_handshake: Option<nat>,
    /// The interval of persistent keepalives, if they are enabled.
    pub persistent_keepalive: Option<nat>,
    /// Whether a persistent keepalive is due whatever the time.
    pub persistent_keepalive_due: bool,
    /// The ranges that timeouts are drawn from.
    pub params: ParamsModel,
    /// The current timeout for a passive keepalive.
    pub keepalive_timeout: nat,
    /// The current timeout for a new handshake after silence.
    pub new_handshake_timeout: nat,
    /// The current timeout for sending an initiation again.
    pub rekey_timeout: nat,
    /// The current age at which a session is replaced.
    pub rekey_after_time: nat,
}

/// The interval of persistent keepalives that a number of seconds asks for. Zero asks for none.
pub open spec fn keepalive_interval(seconds: Option<u16>) -> Option<nat> {
    match seconds {
        Some(s) => if s > 0 {
            Some(secs(s as int))
        } else {
            None
        },
        None => None,
    }
}

/// Whether `interval` is one that a number of seconds can ask for.
pub open spec fn valid_interval(interval: Option<nat>) -> bool {
    interval matches Some(d) ==> 0 < d <= secs(u16::MAX as int) && d % NANOS_PER_SEC as nat == 0
}

impl TimersModel {
    /// Nothing lies in the future: no time is later than the current one.
    pub open spec fn wf(self) -> bool {
        &&& self.times.len() == N_TIMERS
        &&& self.session_times.len() == N_SESSIONS
        &&& forall|i: int| 0 <= i < N_TIMERS ==> #[trigger] self.times[i] <= self.current()
        &&& forall|i: int|
            0 <= i < N_SESSIONS ==> #[trigger] self.session_times[i] <= self.current()
        &&& self.want_keepalive matches Some(t) ==> t <= self.current()
        &&& self.want_handshake matches Some(t) ==> t <= self.current()
        &&& valid_interval(self.persistent_keepalive)
    }

    /// The time of a timer.
    pub open spec fn at(self, name: TimerName) -> nat {
        self.times[name.position()]
    }

    /// The current time, as of the last update.
    pub open spec fn current(self) -> nat {
        self.times[0]
    }

    /// The time that it is `elapsed` after the start of the tunnel. A clock that was set back
    /// holds the time where it is.
    pub open spec fn now(self, elapsed: nat) -> nat {
        if elapsed >= self.current() {
            elapsed
        } else {
            self.current()
        }
    }

    /// A timer set to `time`.
    pub open spec fn set(self, name: TimerName, time: nat) -> TimersModel {
        TimersModel { times: self.times.update(name.position(), time), ..self }
    }

    /// New ranges, with every timeout back at a bound of its range.
    pub open spec fn set_params(self, params: ParamsModel) -> TimersModel {
        TimersModel {
            params,
            keepalive_timeout: params.keepalive_timeout.start,
            new_handshake_timeout: params.new_handshake_timeout.start,
            rekey_timeout: params.rekey_timeout.start,
            rekey_after_time: params.rekey_after_time.end,
            ..self
        }
    }

    /// All timers at the current time, with nothing armed but a persistent keepalive.
    pub open spec fn clear(self, elapsed: nat) -> TimersModel {
        TimersModel {
            times: Seq::new(N_TIMERS as nat, |i: int| self.now(elapsed)),
            want_handshake: None,
            want_keepalive: None,
            persistent_keepalive_due: self.persistent_keepalive is Some,
            ..self.set_params(self.params)
        }
    }

    /// Which timeout the tick of a timer draws.
    pub open spec fn draws(self, name: TimerName) -> Option<Timeout> {
        if name is TimeLastDataPacketReceived && self.want_keepalive is None {
            Some(Timeout::Keepalive)
        } else if name is TimeLastDataPacketSent && self.want_handshake is None {
            Some(Timeout::NewHandshake)
        } else {
            None
        }
    }

    /// What happens when a timer ticks: it shows the current time, and
    /// - any packet from the peer ends the wait for one and restarts the persistent keepalive;
    /// - any packet to the peer ends the wait for sending one and restarts it, too;
    /// - the first data packet since the last packet to the peer arms the passive keepalive;
    /// - the first data packet to the peer since its last packet arms the new handshake.
    pub open spec fn tick(self, name: TimerName, sample: nat) -> TimersModel {
        let time = self.current();
        let armed = match name {
            TimerName::TimeLastPacketReceived => TimersModel {
                want_handshake: None,
                persistent_keepalive_due: false,
                ..self.set(TimerName::TimePersistentKeepalive, time)
            },
            TimerName::TimeLastPacketSent => TimersModel {
                want_keepalive: None,
                persistent_keepalive_due: false,
                ..self.set(TimerName::TimePersistentKeepalive, time)
            },
            TimerName::TimeLastDataPacketReceived if self.want_keepalive is None => TimersModel {
                keepalive_timeout: sample,
                want_keepalive: Some(time),
                ..self
            },
            TimerName::TimeLastDataPacketSent if self.want_handshake is None => TimersModel {
                new_handshake_timeout: sample,
                want_handshake: Some(time),
                ..self
            },
            _ => self,
        };
        armed.set(name, time)
    }

    /// A session established in `slot`, to be replaced after `sample`.
    pub open spec fn session_established(
        self,
        is_initiator: bool,
        slot: int,
        sample: nat,
    ) -> TimersModel {
        TimersModel {
            session_times: self.session_times.update(slot, self.current()),
            is_initiator,
            rekey_after_time: sample,
            ..self.set(TimerName::TimeSessionEstablished, self.current())
        }
    }

    /// Whether the session of a slot is too old to be used.
    pub open spec fn session_rejected(self, slot: int) -> bool {
        self.current() - self.session_times[slot] > secs(REJECT_AFTER_TIME as int)
    }

    /// The time `elapsed` after the start of the tunnel has come.
    pub open spec fn advance(self, elapsed: nat) -> TimersModel {
        self.set(TimerName::TimeCurrent, self.now(elapsed))
    }

    /// Slots whose sessions are too old count from now on.
    pub open spec fn reject_old_sessions(self) -> TimersModel {
        TimersModel {
            session_times: Seq::new(
                N_SESSIONS as nat,
                |i: int|
                    if self.session_rejected(i) {
                        self.current()
                    } else {
                        self.session_times[i]
                    },
            ),
            ..self
        }
    }

    /// How long ago a timer last ticked.
    pub open spec fn since(self, name: TimerName) -> int {
        self.current() - self.at(name)
    }

    /// A cookie that came when the timer says is no longer good.
    pub open spec fn cookie_expired(self) -> bool {
        self.since(TimerName::TimeCookieReceived) >= secs(COOKIE_EXPIRATION_TIME as int)
    }

    /// No keys were exchanged for so long that the connection is given up.
    pub open spec fn connection_expired(self) -> bool {
        self.since(TimerName::TimeSessionEstablished) >= 3 * secs(REJECT_AFTER_TIME as int)
    }

    /// A handshake was tried for so long that it is given up.
    pub open spec fn attempt_expired(self) -> bool {
        self.since(TimerName::TimeLastHandshakeStarted) >= secs(REKEY_ATTEMPT_TIME as int)
    }

    /// We initiated the session, it reached the age at which it is replaced, and data was sent
    /// since it was established.
    pub open spec fn rekey_after_send(self) -> bool {
        &&& self.is_initiator
        &&& self.at(TimerName::TimeSessionEstablished) < self.at(
            TimerName::TimeLastDataPacketSent,
        )
        &&& self.since(TimerName::TimeSessionEstablished) >= self.rekey_after_time
    }

    /// We initiated the session, it is about to be rejected, and data was received since it was
    /// established.
    pub open spec fn rekey_after_receive(self) -> bool {
        &&& self.is_initiator
        &&& self.at(TimerName::TimeSessionEstablished) < self.at(
            TimerName::TimeLastDataPacketReceived,
        )
        &&& self.since(TimerName::TimeSessionEstablished) >= secs(
            REJECT_AFTER_TIME - KEEPALIVE_TIMEOUT - REKEY_TIMEOUT,
        )
    }

    /// Data was sent and nothing came back for as long as we wait.
    pub open spec fn peer_is_silent(self) -> bool {
        self.want_handshake matches Some(t) && self.current() - t >= self.new_handshake_timeout
    }

    /// Data was received and nothing was sent back for as long as the peer may wait.
    pub open spec fn keepalive_is_due(self) -> bool {
        self.want_keepalive matches Some(t) && self.current() - t >= self.keepalive_timeout
    }

    /// Persistent keepalives are enabled and one is due.
    pub open spec fn persistent_keepalive_is_due(self) -> bool {
        self.persistent_keepalive matches Some(interval) && (self.persistent_keepalive_due
            || self.since(TimerName::TimePersistentKeepalive) >= interval)
    }

    /// Persistent keepalives every so many seconds. The first is due at once where there were
    /// none before.
    pub open spec fn set_persistent_keepalive(self, seconds: Option<u16>) -> TimersModel {
        let interval = keepalive_interval(seconds);
        TimersModel {
            persistent_keepalive: interval,
            persistent_keepalive_due: interval is Some && (self.persistent_keepalive_due
                || self.persistent_keepalive is None),
            ..self.set(
                TimerName::TimePersistentKeepalive,
                if interval is Some {
                    self.current()
                } else {
                    0
                },
            )
        }
    }
}

/// The timers of a tunnel.
#[derive(Debug)]
pub struct Timers {
    /// Is the owner of the timers the initiator or the responder of the last handshake?
    is_initiator: bool,
    timers: [Duration; N_TIMERS],
    session_timers: [Duration; N_SESSIONS],
    /// Time the first data packet was received without us sending anything back, if any.
    want_keepalive: Option<Duration>,
    /// Time the first data packet was sent without hearing back, if any.
    want_handshake: Option<Duration>,
    persistent_keepalive: Option<Duration>,
    persistent_keepalive_due: bool,
    /// The ranges that the timeouts below are drawn from.
    params: TimerParams,
    keepalive_timeout: Duration,
    new_handshake_timeout: Duration,
    rekey_timeout: Duration,
    rekey_after_time: Duration,
}

spec fn time_of(t: Option<Duration>) -> Option<nat> {
    match t {
        Some(d) => Some(d@),
        None => None,
    }
}

impl View for Timers {
    type V = TimersModel;

    closed spec fn view(&self) -> TimersModel {
        TimersModel {
            is_initiator: self.is_initiator,
            times: Seq::new(N_TIMERS as nat, |i: int| self.timers@[i]@),
            session_times: Seq::new(N_SESSIONS as nat, |i: int| self.session_timers@[i]@),
            want_keepalive: time_of(self.want_keepalive),
            want_handshake: time_of(self.want_handshake),
            persistent_keepalive: time_of(self.persistent_keepalive),
            persistent_keepalive_due: self.persistent_keepalive_due,
            params: self.params@,
            keepalive_timeout: self.keepalive_timeout@,
            new_handshake_timeout: self.new_handshake_timeout@,
            rekey_timeout: self.rekey_timeout@,
            rekey_after_time: self.rekey_after_time@,
        }
    }
}

/// The timers of a tunnel that starts now.
pub open spec fn new_timers(persistent_keepalive: Option<u16>) -> TimersModel {
    TimersModel {
        is_initiator: false,
        times: Seq::new(N_TIMERS as nat, |i: int| 0),
        session_times: Seq::new(N_SESSIONS as nat, |i: int| 0),
        want_keepalive: None,
        want_handshake: None,
        persistent_keepalive: keepalive_interval(persistent_keepalive),
        persistent_keepalive_due: keepalive_interval(persistent_keepalive) is Some,
        params: default_params(),
        keepalive_timeout: secs(10),
        new_handshake_timeout: secs(15),
        rekey_timeout: secs(5),
        rekey_after_time: secs(120),
    }
}

/// The interval of persistent keepalives that a number of seconds asks for.
fn interval_of(seconds: Option<u16>) -> (interval: Option<Duration>)
    ensures
        time_of(interval) == keepalive_interval(seconds),
{
    match seconds {
        Some(s) => if s > 0 {
            Some(Duration::from_secs(s as u64))
        } else {
            None
        },
        None => None,
    }
}

impl Timers {
    /// Nothing lies in the future, and the ranges can be read.
    pub closed spec fn wf(&self) -> bool {
        &&& self@.wf()
        &&& self.params.wf()
    }

    /// No timer ever shows a time in the future.
    pub proof fn law_invariant(&self)
        requires
            self.wf(),
        ensures
            self@.wf(),
    {
    }

    /// The timers of a tunnel that starts now.
    pub fn new(persistent_keepalive: Option<u16>) -> (timers: Timers)
        ensures
            timers.wf(),
            timers@ == new_timers(persistent_keepalive),
    {
        let zero = Duration::zero();
        let interval = interval_of(persistent_keepalive);
        let mut timers = Timers {
            is_initiator: false,
            timers: [zero; N_TIMERS],
            session_timers: [zero; N_SESSIONS],
            want_keepalive: None,
            want_handshake: None,
            persistent_keepalive: interval,
            persistent_keepalive_due: interval.is_some(),
            params: TimerParams::default(),
            keepalive_timeout: zero,
            new_handshake_timeout: zero,
            rekey_timeout: zero,
            rekey_after_time: zero,
        };
        timers.dangerously_set_params(TimerParams::default());
        timers
    }

    /// Replaces the ranges and resets all timeouts.
    pub fn dangerously_set_params(&mut self, params: TimerParams)
        requires
            old(self).wf(),
            params.wf(),
        ensures
            final(self).wf(),
            final(self)@ == old(self)@.set_params(params@),
    {
        self.keepalive_timeout = *params.keepalive_timeout.start();
        self.new_handshake_timeout = *params.new_handshake_timeout.start();
        self.rekey_timeout = *params.rekey_timeout.start();
        self.rekey_after_time = *params.rekey_after_time.end();
        self.params = params;
    }

    /// Whether we initiated the last handshake.
    pub fn is_initiator(&self) -> (b: bool)
        ensures
            b == self@.is_initiator,
    {
        self.is_initiator
    }

    /// The ranges that timeouts are drawn from.
    pub fn params(&self) -> (params: &TimerParams)
        requires
            self.wf(),
        ensures
            params@ == self@.params,
            params.wf(),
    {
        &self.params
    }

    /// The time that it is `elapsed` after the start of the tunnel. It is never earlier than the
    /// current time of the timers.
    pub fn now(&self, elapsed: Duration) -> (now: Duration)
        ensures
            now@ == self@.now(elapsed@),
    {
        elapsed.max_with(self.timers[0])
    }

    /// Sets all timers to the current time, so that the reference time frame is the same, and
    /// disarms them.
    pub fn clear(&mut self, elapsed: Duration)
        requires
            old(self).wf(),
        ensures
            final(self).wf(),
            final(self)@ == old(self)@.clear(elapsed@),
    {
        let now = self.now(elapsed);
        self.timers = [now; N_TIMERS];
        self.want_handshake = None;
        self.want_keepalive = None;
        self.persistent_keepalive_due = self.persistent_keepalive.is_some();
        let params = self.params.clone();
        self.dangerously_set_params(params);
        assert(self@.times == old(self)@.clear(elapsed@).times);
    }

    /// Sets a timer to `time`.
    fn set(&mut self, name: TimerName, time: Duration)
        requires
            old(self).wf(),
            !(name is Top),
            time@ <= old(self)@.current(),
            name is TimeCurrent ==> time@ == old(self)@.current(),
        ensures
            final(self).wf(),
            final(self)@ == old(self)@.set(name, time@),
    {
        self.timers[name.as_usize()] = time;
        assert(self@.times == old(self)@.set(name, time@).times);
    }

    /// Lets a timer tick. `sample` is the timeout that the tick draws, where it draws one.
    pub fn tick(&mut self, name: TimerName, sample: Duration)
        requires
            old(self).wf(),
            !(name is Top),
        ensures
            final(self).wf(),
            final(self)@ == old(self)@.tick(name, sample@),
    {
        let time = self.timers[0];
        match name {
            TimerName::TimeLastPacketReceived => {
                self.want_handshake = None;
                self.persistent_keepalive_due = false;
                self.set(TimerName::TimePersistentKeepalive, time);
            },
            TimerName::TimeLastDataPacketReceived => {
                if self.want_keepalive.is_none() {
                    self.keepalive_timeout = sample;
                    self.want_keepalive = Some(time);
                }
            },
            TimerName::TimeLastPacketSent => {
                self.want_keepalive = None;
                self.persistent_keepalive_due = false;
                self.set(TimerName::TimePersistentKeepalive, time);
            },
            TimerName::TimeLastDataPacketSent => {
                if self.want_handshake.is_none() {
                    self.new_handshake_timeout = sample;
                    self.want_handshake = Some(time);
                }
            },
            _ => {},
        }
        self.set(name, time);
    }

    /// The timeout that the tick of a timer draws, if it draws one.
    pub fn draws(&self, name: TimerName) -> (timeout: Option<Timeout>)
        ensures
            timeout == self@.draws(name),
    {
        match name {
            TimerName::TimeLastDataPacketReceived => if self.want_keepalive.is_none() {
                Some(Timeout::Keepalive)
            } else {
                None
            },
            TimerName::TimeLastDataPacketSent => if self.want_handshake.is_none() {
                Some(Timeout::NewHandshake)
            } else {
                None
            },
            _ => None,
        }
    }

    /// Records a session established in `slot`, to be replaced after `sample`.
    pub fn session_established(&mut self, is_initiator: bool, slot: usize, sample: Duration)
        requires
            old(self).wf(),
            slot < N_SESSIONS,
        ensures
            final(self).wf(),
            final(self)@ == old(self)@.session_established(is_initiator, slot as int, sample@),
    {
        let time = self.timers[0];
        self.set(TimerName::TimeSessionEstablished, time);
        self.session_timers[slot] = time;
        self.is_initiator = is_initiator;
        self.rekey_after_time = sample;
        assert(self@.session_times == old(self)@.session_times.update(slot as int, time@));
    }

    /// Sets how long to wait before an initiation is sent again.
    pub fn set_rekey_timeout(&mut self, sample: Duration)
        requires
            old(self).wf(),
        ensures
            final(self).wf(),
            final(self)@ == (TimersModel { rekey_timeout: sample@, ..old(self)@ }),
    {
        self.rekey_timeout = sample;
    }

    /// Lets the time come that it is `elapsed` after the start of the tunnel.
    pub fn advance(&mut self, elapsed: Duration)
        requires
            old(self).wf(),
        ensures
            final(self).wf(),
            final(self)@ == old(self)@.advance(elapsed@),
    {
        let now = self.now(elapsed);
        self.timers[0] = now;
        assert(self@.times == old(self)@.advance(elapsed@).times);
    }

    /// Whether the session of a slot is too old to be used. If so, the slot counts from now on.
    pub fn reject_session(&mut self, slot: usize) -> (rejected: bool)
        requires
            old(self).wf(),
            slot < N_SESSIONS,
        ensures
            final(self).wf(),
            rejected == old(self)@.session_rejected(slot as int),
            final(self)@ == (TimersModel {
                session_times: if rejected {
                    old(self)@.session_times.update(slot as int, old(self)@.current())
                } else {
                    old(self)@.session_times
                },
                ..old(self)@
            }),
    {
        let now = self.timers[0];
        assert(self@.session_times[slot as int] <= self@.current());
        let age = now.minus(self.session_timers[slot]);
        if age.exceeds(&Duration::from_secs(REJECT_AFTER_TIME)) {
            self.session_timers[slot] = now;
            assert(self@.session_times == old(self)@.session_times.update(
                slot as int,
                old(self)@.current(),
            ));
            true
        } else {
            false
        }
    }

    /// Whether the session of slot `a` was established no earlier than that of slot `b`.
    pub fn session_is_no_older(&self, a: usize, b: usize) -> (r: bool)
        requires
            a < N_SESSIONS,
            b < N_SESSIONS,
        ensures
            r == (self@.session_times[a as int] >= self@.session_times[b as int]),
    {
        self.session_timers[a].at_least(&self.session_timers[b])
    }

    /// How long ago a timer last ticked.
    pub fn since(&self, name: TimerName) -> (d: Duration)
        requires
            self.wf(),
            !(name is Top),
        ensures
            d@ == self@.since(name),
    {
        assert(self@.times[name.position()] <= self@.current());
        self.timers[0].minus(self.timers[name.as_usize()])
    }

    /// Whether a cookie that came when the timer says is no longer good.
    pub fn cookie_expired(&self) -> (b: bool)
        requires
            self.wf(),
        ensures
            b == self@.cookie_expired(),
    {
        self.since(TimerName::TimeCookieReceived).at_least(
            &Duration::from_secs(COOKIE_EXPIRATION_TIME),
        )
    }

    /// Whether no keys were exchanged for so long that the connection is given up.
    pub fn connection_expired(&self) -> (b: bool)
        requires
            self.wf(),
        ensures
            b == self@.connection_expired(),
    {
        self.since(TimerName::TimeSessionEstablished).at_least(
            &Duration::from_secs(REJECT_AFTER_TIME * 3),
        )
    }

    /// Whether a handshake was tried for so long that it is given up.
    pub fn attempt_expired(&self) -> (b: bool)
        requires
            self.wf(),
        ensures
            b == self@.attempt_expired(),
    {
        self.since(TimerName::TimeLastHandshakeStarted).at_least(
            &Duration::from_secs(REKEY_ATTEMPT_TIME),
        )
    }

    /// Whether an initiation sent `since_init_sent` ago is to be sent again.
    pub fn retry_due(&self, since_init_sent: Duration) -> (b: bool)
        ensures
            b == (since_init_sent@ >= self@.rekey_timeout),
    {
        since_init_sent.at_least(&self.rekey_timeout)
    }

    /// Whether our session is to be replaced because data was sent.
    pub fn rekey_after_send(&self) -> (b: bool)
        requires
            self.wf(),
        ensures
            b == self@.rekey_after_send(),
    {
        self.is_initiator && self[TimerName::TimeLastDataPacketSent].exceeds(
            &self[TimerName::TimeSessionEstablished],
        ) && self.since(TimerName::TimeSessionEstablished).at_least(&self.rekey_after_time)
    }

    /// Whether our session is to be replaced because data was received.
    pub fn rekey_after_receive(&self) -> (b: bool)
        requires
            self.wf(),
        ensures
            b == self@.rekey_after_receive(),
    {
        self.is_initiator && self[TimerName::TimeLastDataPacketReceived].exceeds(
            &self[TimerName::TimeSessionEstablished],
        ) && self.since(TimerName::TimeSessionEstablished).at_least(
            &Duration::from_secs(REJECT_AFTER_TIME - KEEPALIVE_TIMEOUT - REKEY_TIMEOUT),
        )
    }

    /// Whether data was sent and nothing came back for as long as we wait. If so, the wait ends.
    pub fn take_silence(&mut self) -> (due: bool)
        requires
            old(self).wf(),
        ensures
            final(self).wf(),
            due == old(self)@.peer_is_silent(),
            final(self)@ == (if due {
                TimersModel { want_handshake: None, ..old(self)@ }
            } else {
                old(self)@
            }),
    {
        if let Some(since) = self.want_handshake {
            if self.timers[0].saturating_sub(since).at_least(&self.new_handshake_timeout) {
                self.want_handshake = None;
                return true;
            }
        }
        false
    }

    /// Whether data was received and nothing was sent back for as long as the peer may wait. If
    /// so, the wait ends.
    pub fn take_keepalive(&mut self) -> (due: bool)
        requires
            old(self).wf(),
        ensures
            final(self).wf(),
            due == old(self)@.keepalive_is_due(),
            final(self)@ == (if due {
                TimersModel { want_keepalive: None, ..old(self)@ }
            } else {
                old(self)@
            }),
    {
        if let Some(since) = self.want_keepalive {
            if self.timers[0].saturating_sub(since).at_least(&self.keepalive_timeout) {
                self.want_keepalive = None;
                return true;
            }
        }
        false
    }

    /// Whether a persistent keepalive is due. If so, the next is due after its interval.
    pub fn take_persistent_keepalive(&mut self) -> (due: bool)
        requires
            old(self).wf(),
        ensures
            final(self).wf(),
            due == old(self)@.persistent_keepalive_is_due(),
            final(self)@ == (if due {
                TimersModel { persistent_keepalive_due: false, ..old(self)@ }.tick(
                    TimerName::TimePersistentKeepalive,
                    0,
                )
            } else {
                old(self)@
            }),
    {
        if let Some(interval) = self.persistent_keepalive {
            if self.persistent_keepalive_due || self.since(
                TimerName::TimePersistentKeepalive,
            ).at_least(&interval) {
                self.persistent_keepalive_due = false;
                self.tick(TimerName::TimePersistentKeepalive, Duration::zero());
                return true;
            }
        }
        false
    }

    /// The interval of persistent keepalives in seconds, if they are enabled.
    pub fn persistent_keepalive(&self) -> (seconds: Option<u16>)
        requires
            self.wf(),
        ensures
            keepalive_interval(seconds) == self@.persistent_keepalive,
            seconds != Some(0u16),
    {
        match self.persistent_keepalive {
            Some(interval) => Some(interval.as_secs() as u16),
            None => None,
        }
    }

    /// Sets the interval of persistent keepalives in seconds. `None` or `Some(0)` disable them.
    pub fn set_persistent_keepalive(&mut self, seconds: Option<u16>)
        requires
            old(self).wf(),
        ensures
            final(self).wf(),
            final(self)@ == old(self)@.set_persistent_keepalive(seconds),
    {
        let was_enabled = self.persistent_keepalive.is_some();
        self.persistent_keepalive = interval_of(seconds);
        self.persistent_keepalive_due = self.persistent_keepalive.is_some() && (
        self.persistent_keepalive_due || !was_enabled);
        let time = if self.persistent_keepalive.is_none() {
            Duration::zero()
        } else {
            self.timers[0]
        };
        self.set(TimerName::TimePersistentKeepalive, time);
    }
}

impl Index<TimerName> for Timers {
    type Output = Duration;

    fn index(&self, name: TimerName) -> (time: &Duration)
        ensures
            time@ == self@.at(name),
    {
        &self.timers[name.as_usize()]
    }
}

impl vstd::std_specs::core::IndexSpecImpl<TimerName> for Timers {
    open spec fn index_req(&self, name: &TimerName) -> bool {
        !(*name is Top)
    }
}

} // verus!
