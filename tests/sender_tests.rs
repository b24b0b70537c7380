use barrage::error::{ConfigError, SendError};
use barrage::schedule::{interval_ms, Action, Phase, Session, Span};

/// Drives a started session with a clock that jumps to each tick's due time
/// and stands still at `clock_end_ns`; every send succeeds unless `fail`.
fn drive(session: &mut Session, clock_end_ns: u128, fail: bool) {
    session.start();
    while session.can_tick() {
        let due = session.next_deadline_ns();
        let now = if due > clock_end_ns { clock_end_ns } else { due };
        match session.on_tick(now) {
            Action::Stop => break,
            Action::Wait => panic!("a tick at its due time must not wait"),
            Action::Send => {
                let outcome = if fail {
                    Err(SendError::Transport("connection refused".to_string()))
                } else {
                    Ok(())
                };
                session.record_outcome(&outcome);
            }
        }
    }
}

const SEC: u128 = 1_000_000_000;

#[test]
fn test_run_periodic_stops_after_duration() {
    let mut session = Session::open(60, "10s").unwrap();
    drive(&mut session, 11 * SEC, false);
    assert_eq!(session.phase(), Phase::Stopped);
    assert!(session.sends() >= 10);
}

#[test]
fn interval_is_a_minute_divided_by_frequency() {
    assert_eq!(interval_ms(60), Ok(1000));
    assert_eq!(interval_ms(1), Ok(60000));
    assert_eq!(interval_ms(7), Ok(8571));
    assert_eq!(interval_ms(60000), Ok(1));
}

#[test]
fn zero_frequency_is_refused() {
    assert_eq!(interval_ms(0), Err(ConfigError::ZeroFrequency));
    assert!(matches!(Session::open(0, "10s"), Err(ConfigError::ZeroFrequency)));
    assert!(matches!(Session::open(0, "not a span"), Err(ConfigError::ZeroFrequency)));
    assert!(matches!(
        Session::new(0, Span { secs: 1, nanos: 0 }),
        Err(ConfigError::ZeroFrequency)
    ));
}

#[test]
fn bad_duration_is_refused() {
    assert!(matches!(Session::open(60, "soon"), Err(ConfigError::BadDuration)));
    assert!(matches!(Session::open(60, ""), Err(ConfigError::BadDuration)));
}

#[test]
fn duration_text_sets_the_budget() {
    let s = Session::open(60, "1m").unwrap();
    assert_eq!(s.budget_ns(), 60 * SEC);
    assert_eq!(s.interval_ns(), 1_000_000_000);
    let s = Session::open(120, "1500ms").unwrap();
    assert_eq!(s.budget_ns(), 1_500_000_000);
    assert_eq!(s.interval_ns(), 500_000_000);
    assert_eq!(s.phase(), Phase::Idle);
}

#[test]
fn send_count_matches_budget_over_interval() {
    // 10 s at 1 s: ticks at 0..9 s send, the tick at 10 s stops.
    let mut s = Session::open(60, "10s").unwrap();
    drive(&mut s, 10 * SEC + 1, false);
    assert_eq!(s.sends(), 10);
    // 2.5 s at 1 s: ticks at 0, 1, 2 s send.
    let mut s = Session::new(60, Span { secs: 2, nanos: 500_000_000 }).unwrap();
    drive(&mut s, 3 * SEC, false);
    assert_eq!(s.sends(), 3);
    assert_eq!(s.phase(), Phase::Stopped);
}

#[test]
fn failing_sink_runs_the_full_duration() {
    let mut failing = Session::open(60, "5s").unwrap();
    drive(&mut failing, 6 * SEC, true);
    let mut working = Session::open(60, "5s").unwrap();
    drive(&mut working, 6 * SEC, false);
    assert_eq!(failing.phase(), Phase::Stopped);
    assert_eq!(failing.sends(), 5);
    assert_eq!(failing.sends(), working.sends());
    assert_eq!(failing.failures(), 5);
    assert_eq!(working.failures(), 0);
}

#[test]
fn end_to_end_two_seconds_at_sixty_per_minute() {
    let mut s = Session::open(60, "2s").unwrap();
    drive(&mut s, 2 * SEC + 1_000_000, false);
    assert!(s.sends() >= 2 && s.sends() <= 3);
    assert_eq!(s.phase(), Phase::Stopped);
    assert_eq!(s.failures(), 0);
}

#[test]
fn zero_duration_sends_nothing() {
    let mut s = Session::open(60, "0s").unwrap();
    drive(&mut s, SEC, false);
    assert_eq!(s.sends(), 0);
    assert_eq!(s.phase(), Phase::Stopped);
}

#[test]
fn duration_below_one_interval_sends_once() {
    let mut s = Session::open(1, "10s").unwrap();
    drive(&mut s, 120 * SEC, false);
    assert_eq!(s.sends(), 1);
    assert_eq!(s.phase(), Phase::Stopped);
}

#[test]
fn ticks_are_due_on_a_fixed_schedule() {
    let mut s = Session::open(120, "10s").unwrap();
    s.start();
    assert_eq!(s.next_deadline_ns(), 0);
    assert_eq!(s.on_tick(0), Action::Send);
    assert_eq!(s.next_deadline_ns(), 500_000_000);
    // A slow send does not move the schedule.
    assert_eq!(s.on_tick(900_000_000), Action::Send);
    assert_eq!(s.next_deadline_ns(), 1_000_000_000);
}

#[test]
fn missed_ticks_are_skipped_not_replayed() {
    let mut s = Session::open(60, "10s").unwrap();
    s.start();
    assert_eq!(s.on_tick(0), Action::Send);
    // The next tick is taken late, at 5.3 intervals: ticks 1 to 5 are missed.
    assert_eq!(s.on_tick(5_300_000_000), Action::Send);
    assert_eq!(s.next_deadline_ns(), 6 * SEC);
    // A tick at that same moment is not due: no burst of catch-up sends.
    assert_eq!(s.on_tick(5_300_000_000), Action::Wait);
    assert_eq!(s.on_tick(5_999_999_999), Action::Wait);
    assert_eq!(s.sends(), 2);
    assert_eq!(s.on_tick(6 * SEC), Action::Send);
    assert_eq!(s.next_deadline_ns(), 7 * SEC);
    assert_eq!(s.sends(), 3);
}

#[test]
fn a_tick_exactly_on_a_multiple_moves_to_the_next_one() {
    let mut s = Session::open(60, "10s").unwrap();
    s.start();
    assert_eq!(s.on_tick(0), Action::Send);
    assert_eq!(s.on_tick(3 * SEC), Action::Send);
    assert_eq!(s.next_deadline_ns(), 4 * SEC);
}

#[test]
fn budget_is_checked_before_the_due_time() {
    let mut s = Session::open(1, "10s").unwrap();
    s.start();
    assert_eq!(s.on_tick(0), Action::Send);
    assert_eq!(s.on_tick(5 * SEC), Action::Wait);
    assert_eq!(s.on_tick(10 * SEC), Action::Stop);
    assert_eq!(s.phase(), Phase::Stopped);
}

#[test]
fn late_ticks_end_within_an_interval_of_the_budget() {
    // Every tick observed 0.4 s after it is due, 1 s interval, 10 s budget.
    let mut s = Session::open(60, "10s").unwrap();
    s.start();
    let mut last = 0u128;
    while s.phase() != Phase::Stopped {
        last = s.next_deadline_ns() + 400_000_000;
        if s.on_tick(last) == Action::Send {
            s.record_outcome(&Ok(()));
        }
    }
    assert_eq!(s.sends(), 10);
    assert!(last >= 10 * SEC && last < 10 * SEC + SEC + 400_000_000);
}

#[test]
fn an_idle_session_does_not_send() {
    let mut s = Session::open(60, "10s").unwrap();
    assert_eq!(s.on_tick(0), Action::Stop);
    assert_eq!(s.sends(), 0);
    assert_eq!(s.phase(), Phase::Idle);
}

#[test]
fn a_stopped_session_never_runs_again() {
    let mut s = Session::open(60, "10s").unwrap();
    s.start();
    assert_eq!(s.on_tick(0), Action::Send);
    s.cancel();
    assert_eq!(s.phase(), Phase::Stopped);
    s.start();
    assert_eq!(s.phase(), Phase::Stopped);
    assert_eq!(s.on_tick(SEC), Action::Stop);
    assert_eq!(s.sends(), 1);
}

#[test]
fn outcome_without_a_send_is_ignored() {
    let mut s = Session::open(60, "10s").unwrap();
    s.start();
    s.record_outcome(&Err(SendError::Status(500)));
    assert_eq!(s.failures(), 0);
    assert_eq!(s.on_tick(0), Action::Send);
    s.record_outcome(&Err(SendError::Status(500)));
    s.record_outcome(&Err(SendError::Status(500)));
    assert_eq!(s.failures(), 1);
}

#[test]
fn span_in_nanoseconds() {
    assert_eq!(Span { secs: 3, nanos: 7 }.as_nanos(), 3_000_000_007);
}
