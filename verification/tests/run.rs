use heartbeat::endpoint::{BASE_HEALTH_URL, UPDATE_FREQ};
use heartbeat::outcome::{LogLine, LogStream, PingOutcome};
use heartbeat::schedule::{Action, Event, Heartbeat, OutOfTurn, Phase};

fn outcome_of_attempt(n: usize) -> PingOutcome {
    match n % 4 {
        0 => PingOutcome::Posted { status: 200, body: "OK".to_string() },
        1 => PingOutcome::SendFailed { cause: "connection refused".to_string() },
        2 => PingOutcome::Posted { status: 500, body: "error".to_string() },
        _ => PingOutcome::BodyUnreadable { cause: "error decoding response body".to_string() },
    }
}

#[test]
fn fresh_heartbeat_owes_a_ping_of_the_base_url() {
    let hb = Heartbeat::standard();
    assert_eq!(hb.phase(), Phase::Due);
    assert_eq!(hb.base_url(), BASE_HEALTH_URL);
    assert_eq!(hb.interval_secs(), 600);
    assert_eq!(hb.next_action(), Action::Ping { url: BASE_HEALTH_URL.to_string() });
    assert_eq!(hb, Heartbeat::new(BASE_HEALTH_URL, UPDATE_FREQ));
}

#[test]
fn asking_for_the_action_changes_nothing() {
    let hb = Heartbeat::new("http://h", 5);
    let before = hb.clone();
    assert_eq!(hb.next_action(), hb.next_action());
    assert_eq!(hb, before);
}

#[test]
fn delivered_ping_is_logged_then_the_full_interval_is_slept() {
    let mut hb = Heartbeat::standard();
    let line = hb.advance(Event::Pinged(outcome_of_attempt(0)));
    assert_eq!(
        line,
        Ok(Some(LogLine {
            stream: LogStream::Stdout,
            text: format!("Posted to {}: OK", BASE_HEALTH_URL),
        }))
    );
    assert_eq!(hb.phase(), Phase::Resting);
    assert_eq!(hb.next_action(), Action::Sleep { secs: 600 });
    assert_eq!(hb.advance(Event::Slept), Ok(None));
    assert_eq!(hb, Heartbeat::standard());
}

#[test]
fn refused_connection_is_logged_and_the_next_tick_proceeds() {
    let mut hb = Heartbeat::standard();
    let line = hb
        .advance(Event::Pinged(PingOutcome::SendFailed {
            cause: "Connection refused (os error 111)".to_string(),
        }))
        .expect("a ping was owed")
        .expect("a ping is logged");
    assert_eq!(line.stream, LogStream::Stderr);
    assert!(line.text.contains(BASE_HEALTH_URL));
    assert!(line.text.contains("Connection refused"));
    assert_eq!(hb.next_action(), Action::Sleep { secs: UPDATE_FREQ });
    assert_eq!(hb.advance(Event::Slept), Ok(None));
    assert_eq!(hb.next_action(), Action::Ping { url: BASE_HEALTH_URL.to_string() });
    let next = hb.advance(Event::Pinged(outcome_of_attempt(0)));
    assert_eq!(
        next,
        Ok(Some(LogLine {
            stream: LogStream::Stdout,
            text: format!("Posted to {}: OK", BASE_HEALTH_URL),
        }))
    );
}

#[test]
fn server_error_does_not_change_the_schedule() {
    let mut after_500 = Heartbeat::standard();
    let mut after_200 = Heartbeat::standard();
    let a = after_500.advance(Event::Pinged(PingOutcome::Posted {
        status: 500,
        body: "error".to_string(),
    }));
    let b = after_200.advance(Event::Pinged(PingOutcome::Posted {
        status: 200,
        body: "error".to_string(),
    }));
    assert_eq!(a, b);
    assert_eq!(after_500, after_200);
    assert_eq!(after_500.next_action(), Action::Sleep { secs: 600 });
}

#[test]
fn every_tick_issues_exactly_one_get() {
    let mut hb = Heartbeat::new("http://monitor.test/beat", 7);
    let mut gets_this_tick = 0u32;
    let mut gets = 0usize;
    let mut ticks = 0usize;
    let mut clock = 0u64;
    let mut ping_times = Vec::new();
    while ticks < 50 {
        match hb.next_action() {
            Action::Ping { url } => {
                assert_eq!(url, "http://monitor.test/beat");
                gets_this_tick += 1;
                ping_times.push(clock);
                let logged = hb.advance(Event::Pinged(outcome_of_attempt(gets)));
                assert!(matches!(logged, Ok(Some(_))));
                gets += 1;
            }
            Action::Sleep { secs } => {
                assert_eq!(secs, 7);
                assert_eq!(gets_this_tick, 1);
                gets_this_tick = 0;
                clock += secs;
                assert_eq!(hb.advance(Event::Slept), Ok(None));
                ticks += 1;
            }
        }
    }
    assert_eq!(gets, 50);
    assert_eq!(ticks, 50);
    for (i, at) in ping_times.iter().enumerate() {
        assert_eq!(*at, 7 * i as u64);
    }
}

#[test]
fn the_loop_survives_a_run_of_failures() {
    let mut hb = Heartbeat::standard();
    for attempt in 0..20 {
        assert_eq!(hb.next_action(), Action::Ping { url: BASE_HEALTH_URL.to_string() });
        let line = hb
            .advance(Event::Pinged(PingOutcome::SendFailed { cause: format!("down {}", attempt) }))
            .expect("a ping was owed")
            .expect("a ping is logged");
        assert_eq!(
            line.text,
            format!("Failed to post to {}: down {}", BASE_HEALTH_URL, attempt)
        );
        assert_eq!(hb.next_action(), Action::Sleep { secs: 600 });
        assert_eq!(hb.advance(Event::Slept), Ok(None));
    }
    assert_eq!(hb, Heartbeat::standard());
}

#[test]
fn unreadable_body_is_logged_apart_and_the_loop_goes_on() {
    let mut hb = Heartbeat::standard();
    let line = hb
        .advance(Event::Pinged(PingOutcome::BodyUnreadable { cause: "bad utf-8".to_string() }))
        .expect("a ping was owed")
        .expect("a ping is logged");
    assert_eq!(
        line,
        LogLine {
            stream: LogStream::Stderr,
            text: format!("Failed to read body from {}: bad utf-8", BASE_HEALTH_URL),
        }
    );
    assert_eq!(hb.next_action(), Action::Sleep { secs: 600 });
}

#[test]
fn sleep_reported_while_a_ping_is_owed_is_refused() {
    let mut hb = Heartbeat::standard();
    assert_eq!(hb.advance(Event::Slept), Err(OutOfTurn));
    assert_eq!(hb, Heartbeat::standard());
    assert_eq!(hb.next_action(), Action::Ping { url: BASE_HEALTH_URL.to_string() });
}

#[test]
fn ping_reported_while_a_sleep_is_owed_is_refused() {
    let mut hb = Heartbeat::standard();
    assert!(hb.advance(Event::Pinged(outcome_of_attempt(0))).is_ok());
    let resting = hb.clone();
    assert_eq!(hb.advance(Event::Pinged(outcome_of_attempt(0))), Err(OutOfTurn));
    assert_eq!(hb.advance(Event::Pinged(outcome_of_attempt(1))), Err(OutOfTurn));
    assert_eq!(hb, resting);
    assert_eq!(hb.next_action(), Action::Sleep { secs: 600 });
}

#[test]
fn interval_is_passed_through_at_its_limits() {
    let mut zero = Heartbeat::new("http://h", 0);
    assert!(zero.advance(Event::Pinged(outcome_of_attempt(0))).is_ok());
    assert_eq!(zero.next_action(), Action::Sleep { secs: 0 });
    let mut longest = Heartbeat::new("http://h", u64::MAX);
    assert!(longest.advance(Event::Pinged(outcome_of_attempt(0))).is_ok());
    assert_eq!(longest.next_action(), Action::Sleep { secs: u64::MAX });
}

#[test]
fn the_loop_only_ever_signals_healthy() {
    let mut hb = Heartbeat::standard();
    for attempt in 0..8 {
        match hb.next_action() {
            Action::Ping { url } => {
                assert!(!url.ends_with("/fail"));
                assert!(hb.advance(Event::Pinged(outcome_of_attempt(attempt))).is_ok());
            }
            Action::Sleep { .. } => panic!("a ping was owed"),
        }
        assert_eq!(hb.advance(Event::Slept), Ok(None));
    }
}
