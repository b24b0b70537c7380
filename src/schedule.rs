use vstd::prelude::*;

use vstd::arithmetic::div_mod::{lemma_fundamental_div_mod, lemma_mod_pos_bound};

use crate::error::{ConfigError, SendError};

verus! {

/// Milliseconds in one minute: the frequency is given in sends per minute.
pub const MS_PER_MINUTE: u64 = 60000;

/// Nanoseconds in one millisecond.
pub const NS_PER_MS: u128 = 1000000;

/// Nanoseconds in one second.
pub const NS_PER_SEC: u128 = 1000000000;

/// The gap between two ticks, in milliseconds, for a positive frequency.
pub open spec fn interval_ms_of(frequency: nat) -> nat {
    60000nat / frequency
}

/// The tick interval for `frequency` sends per minute; zero is refused.
pub fn interval_ms(frequency: u64) -> (r: Result<u64, ConfigError>)
    ensures
        frequency == 0 ==> r == Err::<u64, ConfigError>(ConfigError::ZeroFrequency),
        frequency > 0 ==> r == Ok::<u64, ConfigError>(interval_ms_of(frequency as nat) as u64),
{
    if frequency == 0 {
        Err(ConfigError::ZeroFrequency)
    } else {
        Ok(MS_PER_MINUTE / frequency)
    }
}

/// An elapsed-time budget: whole seconds and the nanoseconds beyond them.
#[derive(Clone, Copy, Debug, PartialEq, Eq, Structural)]
pub struct Span {
    pub secs: u64,
    pub nanos: u32,
}

impl Span {
    /// The span in nanoseconds.
    pub open spec fn total_ns(self) -> nat {
        self.secs as nat * 1000000000 + self.nanos as nat
    }

    pub fn as_nanos(&self) -> (r: u128)
        ensures
            r as nat == self.total_ns(),
            r < BUDGET_CAP_NS,
    {
        proof {
            assert(self.secs as nat * 1000000000 <= 0xffff_ffff_ffff_ffffnat * 1000000000)
                by (nonlinear_arith)
                requires
                    self.secs <= 0xffff_ffff_ffff_ffffu64,
            ;
        }
        self.secs as u128 * NS_PER_SEC + self.nanos as u128
    }
}

/// What humantime reads from a duration text: whole seconds and the
/// nanoseconds beyond them, or nothing where the text is not a time span.
pub uninterp spec fn parsed_span(s: Seq<char>) -> Option<(u64, u32)>;

/// The budget that a duration text gives, if any.
pub open spec fn span_of(s: Seq<char>) -> Option<Span> {
    match parsed_span(s) {
        Some((secs, nanos)) => Some(Span { secs, nanos }),
        None => None,
    }
}

/// The longest duration text this library reads. humantime panics on a text
/// whose parts add up to exactly `u64::MAX` seconds and one full second of
/// sub-second parts; every such text is longer than this.
pub const MAX_DURATION_CHARS: usize = 20;

/// Relies on humantime::parse_duration to read a time span such as `10s`,
/// `1m` or `1h 30m`; its result depends on the text alone.
#[verifier::external_body]
fn parse_span(s: &str) -> (r: Option<(u64, u32)>)
    requires
        s@.len() <= MAX_DURATION_CHARS,
    ensures
        r == parsed_span(s@),
{
    match humantime::parse_duration(s) {
        Ok(d) => Some((d.as_secs(), d.subsec_nanos())),
        Err(_) => None,
    }
}

/// Where a session stands: it runs at most once.
#[derive(Clone, Copy, Debug, PartialEq, Eq, Structural)]
pub enum Phase {
    Idle,
    Running,
    Stopped,
}

/// What the driver of a session does on a tick.
#[derive(Clone, Copy, Debug, PartialEq, Eq, Structural)]
pub enum Action {
    /// Build one payload and send it.
    Send,
    /// The tick came before it was due: send nothing, tick again when due.
    Wait,
    /// The session is over: send nothing more.
    Stop,
}

/// The state of a session in mathematical terms (times in nanoseconds).
pub struct SessionView {
    pub interval: nat,
    pub budget: nat,
    pub phase: Phase,
    pub sends: nat,
    pub failures: nat,
    pub in_flight: bool,
    pub next_due: nat,
}

/// A fresh session, before it starts.
pub open spec fn fresh_view(interval: nat, budget: nat) -> SessionView {
    SessionView {
        interval,
        budget,
        phase: Phase::Idle,
        sends: 0,
        failures: 0,
        in_flight: false,
        next_due: 0,
    }
}

/// Starting moves an idle session to running, and nothing else.
pub open spec fn start_spec(v: SessionView) -> SessionView {
    if v.phase == Phase::Idle {
        SessionView { phase: Phase::Running, ..v }
    } else {
        v
    }
}

/// The tick after one taken at `elapsed`: the first multiple of the
/// interval above it, so that ticks missed by a late one are skipped, not
/// replayed. With a zero interval every moment is due.
pub open spec fn next_due_after(elapsed: nat, interval: nat) -> nat {
    if interval == 0 {
        elapsed
    } else {
        (elapsed / interval + 1) * interval
    }
}

/// One tick at `elapsed` nanoseconds after the start: a running session
/// whose budget is spent stops; a tick before its due time waits; otherwise
/// the session sends once and the next tick falls on the schedule's next
/// multiple of the interval.
pub open spec fn tick_spec(v: SessionView, elapsed: nat) -> (SessionView, Action) {
    if v.phase != Phase::Running {
        (v, Action::Stop)
    } else if elapsed >= v.budget {
        (SessionView { phase: Phase::Stopped, in_flight: false, ..v }, Action::Stop)
    } else if elapsed < v.next_due {
        (v, Action::Wait)
    } else {
        (
            SessionView {
                sends: v.sends + 1,
                in_flight: true,
                next_due: next_due_after(elapsed, v.interval),
                ..v
            },
            Action::Send,
        )
    }
}

/// The outcome of the send in flight is recorded; a failure is counted and
/// changes nothing else.
pub open spec fn record_spec(v: SessionView, ok: bool) -> SessionView {
    if v.in_flight {
        SessionView { failures: if ok { v.failures } else { v.failures + 1 }, in_flight: false, ..v }
    } else {
        v
    }
}

/// Cancellation stops the session wherever it stands.
pub open spec fn cancel_spec(v: SessionView) -> SessionView {
    SessionView { phase: Phase::Stopped, in_flight: false, ..v }
}

/// When the next tick is due, measured from the start.
pub open spec fn deadline_spec(v: SessionView) -> nat {
    v.next_due
}

/// Above any budget a `Span` can give, in nanoseconds.
pub const BUDGET_CAP_NS: u128 = 0x1_0000_0000_0000_0000_0000_0000;

/// One bounded run of the scheduler over one sink: fixed cadence, a duration
/// budget, and failures that are counted but never end the run.
pub struct Session {
    interval_ns: u128,
    budget_ns: u128,
    phase: Phase,
    sends: u64,
    failures: u64,
    in_flight: bool,
    next_due_ns: u128,
}

impl View for Session {
    type V = SessionView;

    closed spec fn view(&self) -> SessionView {
        SessionView {
            interval: self.interval_ns as nat,
            budget: self.budget_ns as nat,
            phase: self.phase,
            sends: self.sends as nat,
            failures: self.failures as nat,
            in_flight: self.in_flight,
            next_due: self.next_due_ns as nat,
        }
    }
}

/// The session that a positive frequency and a budget give.
pub open spec fn session_view_of(frequency: nat, budget: Span) -> SessionView {
    fresh_view(interval_ms_of(frequency) * 1000000, budget.total_ns())
}

impl Session {
    /// Failures are only counted for sends that were made, and a send in
    /// flight has not been counted yet.
    pub closed spec fn wf(&self) -> bool {
        &&& self.failures as nat + (if self.in_flight { 1nat } else { 0nat }) <= self.sends as nat
        &&& self.interval_ns <= 60000 * NS_PER_MS
        &&& self.budget_ns < BUDGET_CAP_NS
        &&& self.next_due_ns <= self.budget_ns + self.interval_ns
    }

    /// A session for `frequency` sends per minute and the given budget; a zero
    /// frequency is refused before anything runs.
    pub fn new(frequency: u64, budget: Span) -> (r: Result<Session, ConfigError>)
        ensures
            frequency == 0 <==> r is Err,
            frequency == 0 ==> r == Err::<Session, ConfigError>(ConfigError::ZeroFrequency),
            r is Ok ==> r->Ok_0.wf() && r->Ok_0@ == session_view_of(frequency as nat, budget),
    {
        match interval_ms(frequency) {
            Err(e) => Err(e),
            Ok(ms) => Ok(
                Session {
                    interval_ns: ms as u128 * NS_PER_MS,
                    budget_ns: budget.as_nanos(),
                    phase: Phase::Idle,
                    sends: 0,
                    failures: 0,
                    in_flight: false,
                    next_due_ns: 0,
                },
            ),
        }
    }

    /// A session for a task's frequency and duration text: a zero frequency
    /// is refused first, then a text that is not a time span.
    pub fn open(frequency: u64, duration: &str) -> (r: Result<Session, ConfigError>)
        requires
            duration@.len() <= MAX_DURATION_CHARS,
        ensures
            frequency == 0 ==> r == Err::<Session, ConfigError>(ConfigError::ZeroFrequency),
            frequency > 0 && span_of(duration@) is None ==> r == Err::<Session, ConfigError>(
                ConfigError::BadDuration,
            ),
            frequency > 0 && span_of(duration@) is Some ==> r is Ok && r->Ok_0.wf() && r->Ok_0@
                == session_view_of(frequency as nat, span_of(duration@)->Some_0),
    {
        if frequency == 0 {
            return Err(ConfigError::ZeroFrequency);
        }
        match parse_span(duration) {
            None => Err(ConfigError::BadDuration),
            Some((secs, nanos)) => Session::new(frequency, Span { secs, nanos }),
        }
    }

    pub fn phase(&self) -> (r: Phase)
        ensures
            r == self@.phase,
    {
        self.phase
    }

    /// Sends attempted so far.
    pub fn sends(&self) -> (r: u64)
        ensures
            r as nat == self@.sends,
    {
        self.sends
    }

    /// Sends that failed so far.
    pub fn failures(&self) -> (r: u64)
        ensures
            r as nat == self@.failures,
    {
        self.failures
    }

    /// The tick interval in nanoseconds.
    pub fn interval_ns(&self) -> (r: u128)
        ensures
            r as nat == self@.interval,
    {
        self.interval_ns
    }

    /// The duration budget in nanoseconds.
    pub fn budget_ns(&self) -> (r: u128)
        ensures
            r as nat == self@.budget,
    {
        self.budget_ns
    }

    /// Whether the tick counter still has room for one more send.
    pub fn can_tick(&self) -> (r: bool)
        ensures
            r == (self@.sends < u64::MAX),
    {
        self.sends < u64::MAX
    }

    /// Idle to running; a stopped session never runs again.
    pub fn start(&mut self)
        requires
            old(self).wf(),
        ensures
            final(self).wf(),
            final(self)@ == start_spec(old(self)@),
    {
        if self.phase == Phase::Idle {
            self.phase = Phase::Running;
        }
    }

    /// When the next tick is due, in nanoseconds after the start: the first
    /// at once, each later one on the next multiple of the interval after
    /// the tick before it.
    pub fn next_deadline_ns(&self) -> (r: u128)
        ensures
            r as nat == deadline_spec(self@),
    {
        self.next_due_ns
    }

    /// A tick at `elapsed_ns` after the start: checks the budget first, then
    /// allows one send.
    pub fn on_tick(&mut self, elapsed_ns: u128) -> (r: Action)
        requires
            old(self).wf(),
            old(self)@.sends < u64::MAX,
        ensures
            final(self).wf(),
            (final(self)@, r) == tick_spec(old(self)@, elapsed_ns as nat),
    {
        if self.phase != Phase::Running {
            Action::Stop
        } else if elapsed_ns >= self.budget_ns {
            self.phase = Phase::Stopped;
            self.in_flight = false;
            Action::Stop
        } else if elapsed_ns < self.next_due_ns {
            Action::Wait
        } else {
            let next = if self.interval_ns == 0 {
                elapsed_ns
            } else {
                proof {
                    let e = elapsed_ns as int;
                    let i = self.interval_ns as int;
                    lemma_fundamental_div_mod(e, i);
                    lemma_mod_pos_bound(e, i);
                    assert((e / i + 1) * i <= e + i) by (nonlinear_arith)
                        requires
                            e == i * (e / i) + e % i,
                            e % i >= 0,
                    ;
                }
                (elapsed_ns / self.interval_ns + 1) * self.interval_ns
            };
            self.sends = self.sends + 1;
            self.in_flight = true;
            self.next_due_ns = next;
            Action::Send
        }
    }

    /// Records how the send in flight went. A failure is counted and the
    /// session goes on as before.
    pub fn record_outcome(&mut self, outcome: &Result<(), SendError>)
        requires
            old(self).wf(),
        ensures
            final(self).wf(),
            final(self)@ == record_spec(old(self)@, outcome is Ok),
    {
        if self.in_flight {
            if outcome.is_err() {
                self.failures = self.failures + 1;
            }
            self.in_flight = false;
        }
    }

    /// An outside shutdown: the session stops and sends nothing more.
    pub fn cancel(&mut self)
        requires
            old(self).wf(),
        ensures
            final(self).wf(),
            final(self)@ == cancel_spec(old(self)@),
    {
        self.phase = Phase::Stopped;
        self.in_flight = false;
    }
}

} // verus!
