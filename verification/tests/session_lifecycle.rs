use mitschreiber_sampler::config::DEFAULT_POLL_INTERVAL_MS;
use mitschreiber_sampler::worker::Cadence;
use mitschreiber_sampler::{
    attach_worker, poll_state, retire_session, start_session, stop_session, ConfigValue,
    OsContextState, Probe, Registry, SessionConfig, SessionError, StubSampler, Worker,
    WorkerAction, WorkerEvent, X11Sampler,
};

/// Runs one iteration of a worker with the synthetic probe, without the
/// sleep, and returns what the worker asked for last.
fn run_iteration(worker: &mut Worker, probe: &mut StubSampler) -> WorkerAction {
    match worker.wake() {
        WorkerAction::Probe { tick } => {
            let state = probe.probe(tick);
            worker.deliver(state)
        }
        other => other,
    }
}

fn start_worker(registry: &mut Registry<u32>, id: &str, millis: u64) -> Worker {
    let cfg = SessionConfig::with_poll_interval_ms(millis);
    start_session(registry, id, &cfg).unwrap().unwrap()
}

fn assert_well_formed(state: &OsContextState) {
    assert!(!state.ts.is_empty());
    assert!(!state.app.is_empty());
    assert!(!state.window.is_empty());
}

#[test]
fn start_stop_cycle() {
    let sid = "test-session-1";
    let mut registry: Registry<u32> = Registry::new();
    let cfg = SessionConfig::with_poll_interval_ms(10);

    let mut worker = start_session(&mut registry, sid, &cfg).unwrap().unwrap();
    assert!(attach_worker(&mut registry, sid, 7).is_ok());
    let mut probe = StubSampler;

    let mut received_state = false;
    for _ in 0..5 {
        assert_eq!(run_iteration(&mut worker, &mut probe), WorkerAction::Sleep { millis: 10 });
        let events = poll_state(&registry, sid);
        if !events.is_empty() {
            received_state = true;
            break;
        }
    }
    assert!(received_state, "Did not receive state from the session");

    assert_eq!(stop_session(&mut registry, sid), Some(7));
    assert_eq!(worker.wake(), WorkerAction::Exit);
    assert!(retire_session(&mut registry, sid));

    assert!(!registry.is_live(sid), "Session was not removed after stopping");
}

#[test]
fn second_start_makes_no_worker() {
    let mut registry: Registry<u32> = Registry::new();
    let first = start_session(&mut registry, "a", &SessionConfig::new()).unwrap();
    assert!(first.is_some());
    assert!(registry.is_live("a"));
    let second = start_session(&mut registry, "a", &SessionConfig::new()).unwrap();
    assert!(second.is_none());
    let third = start_session(&mut registry, "a", &SessionConfig::with_poll_interval_ms(3)).unwrap();
    assert!(third.is_none());
    assert!(registry.is_live("a"));

    // the worker of the first start is still the one that feeds the session
    let mut worker = first.unwrap();
    let mut probe = StubSampler;
    run_iteration(&mut worker, &mut probe);
    assert_eq!(poll_state(&registry, "a").len(), 1);
}

#[test]
fn start_after_stop_makes_a_new_worker() {
    let mut registry: Registry<u32> = Registry::new();
    let _first = start_worker(&mut registry, "a", 10);
    assert_eq!(stop_session(&mut registry, "a"), None);
    assert!(retire_session(&mut registry, "a"));
    let again = start_session(&mut registry, "a", &SessionConfig::new()).unwrap();
    assert!(again.is_some());
    assert_eq!(again.unwrap().tick(), 0);
}

#[test]
fn unknown_session_is_a_no_op() {
    let mut registry: Registry<u32> = Registry::new();
    let _worker = start_worker(&mut registry, "known", 10);
    assert!(!registry.is_live("typo"));
    assert_eq!(stop_session(&mut registry, "typo"), None);
    assert!(!retire_session(&mut registry, "typo"));
    assert!(poll_state(&registry, "typo").is_empty());
    assert_eq!(attach_worker(&mut registry, "typo", 9), Err(9));
    assert!(registry.is_live("known"));
    assert!(!registry.is_live("typo"));
}

#[test]
fn empty_registry_has_no_sessions() {
    let mut registry: Registry<u32> = Registry::new();
    assert!(!registry.is_live(""));
    assert!(!registry.is_live("a"));
    assert!(poll_state(&registry, "a").is_empty());
    assert_eq!(stop_session(&mut registry, "a"), None);
}

#[test]
fn samples_are_well_formed() {
    let mut registry: Registry<u32> = Registry::new();
    let mut worker = start_worker(&mut registry, "s", 10);
    let mut probe = StubSampler;
    for _ in 0..6 {
        run_iteration(&mut worker, &mut probe);
    }
    let samples = poll_state(&registry, "s");
    assert_eq!(samples.len(), 6);
    for state in samples.iter() {
        assert_well_formed(state);
        assert!(state.clipboard.is_none());
        assert!(chrono::DateTime::parse_from_rfc3339(&state.ts).is_ok());
    }
}

#[test]
fn stub_probe_cycles_by_counter() {
    let mut probe = StubSampler;
    let expected = [
        (0u64, "firefox", "README.md"),
        (1u64, "vscode", "Editor"),
        (2u64, "vscode", "Editor"),
        (3u64, "firefox", "Editor"),
        (5u64, "vscode", "README.md"),
        (15u64, "firefox", "README.md"),
        (u64::MAX, "firefox", "README.md"),
    ];
    for (counter, app, window) in expected.iter() {
        let state = probe.probe(*counter);
        assert_eq!(state.app, *app);
        assert_eq!(state.window, *window);
        assert_eq!(state.clipboard, None);
        assert!(!state.ts.is_empty());
    }
}

#[test]
fn stub_state_keeps_the_timestamp() {
    let state = mitschreiber_sampler::sampler::stub_state(10, "then".to_string());
    assert_eq!(state.ts, "then");
    assert_eq!(state.app, "vscode");
    assert_eq!(state.window, "README.md");
    assert_eq!(state.clipboard, None);
}

#[test]
fn consecutive_polls_are_disjoint_and_in_order() {
    let mut registry: Registry<u32> = Registry::new();
    let mut worker = start_worker(&mut registry, "s", 10);
    let mut probe = StubSampler;

    for _ in 0..3 {
        run_iteration(&mut worker, &mut probe);
    }
    let first = poll_state(&registry, "s");
    for _ in 0..4 {
        run_iteration(&mut worker, &mut probe);
    }
    let second = poll_state(&registry, "s");
    let third = poll_state(&registry, "s");

    assert_eq!(first.len(), 3);
    assert_eq!(second.len(), 4);
    assert!(third.is_empty());

    // ticks 0..7 in production order: the synthetic names tell them apart
    let apps: Vec<String> = first.iter().chain(second.iter()).map(|s| s.app.clone()).collect();
    let windows: Vec<String> =
        first.iter().chain(second.iter()).map(|s| s.window.clone()).collect();
    assert_eq!(
        apps,
        vec!["firefox", "vscode", "vscode", "firefox", "vscode", "vscode", "firefox"]
    );
    assert_eq!(
        windows,
        vec!["README.md", "Editor", "Editor", "Editor", "Editor", "README.md", "Editor"]
    );
    let stamps: Vec<String> = first.iter().chain(second.iter()).map(|s| s.ts.clone()).collect();
    let mut sorted = stamps.clone();
    sorted.sort();
    assert_eq!(stamps.len(), 7);
    assert!(stamps.iter().all(|ts| chrono::DateTime::parse_from_rfc3339(ts).is_ok()));
    let parsed: Vec<_> =
        stamps.iter().map(|ts| chrono::DateTime::parse_from_rfc3339(ts).unwrap()).collect();
    assert!(parsed.windows(2).all(|pair| pair[0] <= pair[1]));
}

#[test]
fn unpolled_samples_accumulate() {
    let mut registry: Registry<u32> = Registry::new();
    let mut worker = start_worker(&mut registry, "s", 1);
    let mut probe = StubSampler;
    for _ in 0..1000 {
        assert_eq!(run_iteration(&mut worker, &mut probe), WorkerAction::Sleep { millis: 1 });
    }
    assert_eq!(worker.tick(), 1000);
    assert_eq!(poll_state(&registry, "s").len(), 1000);
    assert!(poll_state(&registry, "s").is_empty());
}

#[test]
fn stopped_session_produces_nothing_more() {
    let mut registry: Registry<u32> = Registry::new();
    let mut worker = start_worker(&mut registry, "s", 10);
    assert!(attach_worker(&mut registry, "s", 41).is_ok());
    let mut probe = StubSampler;
    run_iteration(&mut worker, &mut probe);
    assert_eq!(worker.tick(), 1);

    assert_eq!(stop_session(&mut registry, "s"), Some(41));
    // the handle was handed out once
    assert_eq!(stop_session(&mut registry, "s"), None);
    // the worker sees the cleared flag and stops without another sample
    assert_eq!(run_iteration(&mut worker, &mut probe), WorkerAction::Exit);
    assert_eq!(worker.tick(), 1);
    // the session is still registered until it is retired
    assert!(registry.is_live("s"));
    assert_eq!(poll_state(&registry, "s").len(), 1);

    assert!(retire_session(&mut registry, "s"));
    assert!(!registry.is_live("s"));
    assert!(poll_state(&registry, "s").is_empty());
    assert!(poll_state(&registry, "s").is_empty());
}

#[test]
fn closed_channel_stops_the_worker() {
    let mut registry: Registry<u32> = Registry::new();
    let mut worker = start_worker(&mut registry, "s", 10);
    // retiring without a stop request drops the receiving end
    assert!(retire_session(&mut registry, "s"));
    let mut probe = StubSampler;
    assert_eq!(worker.wake(), WorkerAction::Probe { tick: 0 });
    let state = probe.probe(0);
    assert_eq!(worker.deliver(state), WorkerAction::Exit);
    assert_eq!(worker.tick(), 0);
}

#[test]
fn sessions_are_independent() {
    let mut registry: Registry<u32> = Registry::new();
    let mut a = start_worker(&mut registry, "a", 10);
    let mut b = start_worker(&mut registry, "b", 20);
    assert_eq!(a.poll_interval_ms(), 10);
    assert_eq!(b.poll_interval_ms(), 20);
    let mut probe = StubSampler;
    run_iteration(&mut a, &mut probe);
    run_iteration(&mut a, &mut probe);
    run_iteration(&mut b, &mut probe);
    assert_eq!(stop_session(&mut registry, "a"), None);
    assert!(retire_session(&mut registry, "a"));
    assert!(registry.is_live("b"));
    assert_eq!(b.wake(), WorkerAction::Probe { tick: 1 });
    assert_eq!(poll_state(&registry, "b").len(), 1);
    assert!(poll_state(&registry, "a").is_empty());
}

#[test]
fn fallback_probe_yields_well_formed_samples() {
    let unavailable: Option<X11Sampler> = None;
    let mut probe = Probe::select(unavailable);
    let mut registry: Registry<u32> = Registry::new();
    let mut worker = start_worker(&mut registry, "s", 10);
    match &mut probe {
        Probe::Stub(stub) => {
            run_iteration(&mut worker, stub);
            run_iteration(&mut worker, stub);
        }
        Probe::Windowing(_) => panic!("no windowing probe was opened"),
    }
    let samples = poll_state(&registry, "s");
    assert_eq!(samples.len(), 2);
    for state in samples.iter() {
        assert_well_formed(state);
    }
}

#[test]
fn opened_windowing_probe_is_selected() {
    let sampler = X11Sampler::new(1, Some(2), Some(3), Some(4), Some(5), Some(6)).unwrap();
    match Probe::select(Some(sampler)) {
        Probe::Windowing(chosen) => assert_eq!(chosen, sampler),
        Probe::Stub(_) => panic!("the windowing probe was opened"),
    }
}

#[test]
fn poll_interval_defaults_to_500() {
    assert_eq!(DEFAULT_POLL_INTERVAL_MS, 500);
    assert_eq!(SessionConfig::new().resolve(), Ok(500));
    let mut registry: Registry<u32> = Registry::new();
    let worker = start_session(&mut registry, "s", &SessionConfig::new()).unwrap().unwrap();
    assert_eq!(worker.poll_interval_ms(), 500);
    assert_eq!(worker.tick(), 0);
}

#[test]
fn poll_interval_is_taken_from_the_option() {
    assert_eq!(SessionConfig::with_poll_interval_ms(10).resolve(), Ok(10));
    assert_eq!(SessionConfig::with_poll_interval_ms(1).resolve(), Ok(1));
    assert_eq!(SessionConfig::with_poll_interval_ms(u64::MAX).resolve(), Ok(u64::MAX));
    let cfg = SessionConfig { poll_interval_ms: ConfigValue::Integer(18_446_744_073_709_551_615) };
    assert_eq!(cfg.resolve(), Ok(u64::MAX));
}

#[test]
fn malformed_poll_interval_is_refused() {
    let bad = [
        ConfigValue::Integer(0),
        ConfigValue::Integer(-1),
        ConfigValue::Integer(i128::MIN),
        ConfigValue::Integer(18_446_744_073_709_551_616),
        ConfigValue::Integer(i128::MAX),
        ConfigValue::NotAnInteger,
    ];
    for value in bad.iter() {
        let cfg = SessionConfig { poll_interval_ms: *value };
        assert_eq!(cfg.resolve(), Err(SessionError::InvalidPollInterval));
        let mut registry: Registry<u32> = Registry::new();
        let refused = start_session(&mut registry, "s", &cfg);
        assert!(matches!(refused, Err(SessionError::InvalidPollInterval)));
        assert!(!registry.is_live("s"));
    }
    assert_eq!(SessionConfig::with_poll_interval_ms(0).resolve(), Err(SessionError::InvalidPollInterval));
}

#[test]
fn malformed_poll_interval_is_refused_for_a_live_session_too() {
    let mut registry: Registry<u32> = Registry::new();
    let _worker = start_worker(&mut registry, "s", 10);
    let cfg = SessionConfig { poll_interval_ms: ConfigValue::NotAnInteger };
    assert!(matches!(
        start_session(&mut registry, "s", &cfg),
        Err(SessionError::InvalidPollInterval)
    ));
    assert!(registry.is_live("s"));
}

#[test]
fn error_message_names_the_option() {
    assert_eq!(
        SessionError::InvalidPollInterval.message(),
        "poll_interval_ms must be a positive integer"
    );
}

#[test]
fn cadence_follows_events() {
    let mut cadence = Cadence::new(25);
    assert_eq!(cadence, Cadence { tick: 0, poll_interval_ms: 25 });
    assert_eq!(cadence.step(WorkerEvent::Woke { alive: true }), WorkerAction::Probe { tick: 0 });
    assert_eq!(cadence.tick, 0);
    assert_eq!(
        cadence.step(WorkerEvent::Sent { delivered: true }),
        WorkerAction::Sleep { millis: 25 }
    );
    assert_eq!(cadence.tick, 1);
    assert_eq!(cadence.step(WorkerEvent::Woke { alive: true }), WorkerAction::Probe { tick: 1 });
    assert_eq!(cadence.step(WorkerEvent::Sent { delivered: false }), WorkerAction::Exit);
    assert_eq!(cadence.tick, 1);
    assert_eq!(cadence.step(WorkerEvent::Woke { alive: false }), WorkerAction::Exit);
    assert_eq!(cadence, Cadence { tick: 1, poll_interval_ms: 25 });
}

#[test]
fn tick_counter_wraps() {
    let mut cadence = Cadence { tick: u64::MAX, poll_interval_ms: 5 };
    assert_eq!(
        cadence.step(WorkerEvent::Woke { alive: true }),
        WorkerAction::Probe { tick: u64::MAX }
    );
    assert_eq!(
        cadence.step(WorkerEvent::Sent { delivered: true }),
        WorkerAction::Sleep { millis: 5 }
    );
    assert_eq!(cadence.tick, 0);
}

#[test]
fn attached_handle_replaces_the_previous_one() {
    let mut registry: Registry<u32> = Registry::new();
    let _worker = start_worker(&mut registry, "s", 10);
    assert_eq!(attach_worker(&mut registry, "s", 1), Ok(()));
    assert_eq!(attach_worker(&mut registry, "s", 2), Ok(()));
    assert_eq!(stop_session(&mut registry, "s"), Some(2));
}

#[test]
fn second_start_keeps_buffered_samples() {
    let mut registry: Registry<u32> = Registry::new();
    let mut worker = start_worker(&mut registry, "s", 10);
    let mut probe = StubSampler;
    for _ in 0..3 {
        run_iteration(&mut worker, &mut probe);
    }

    let again = start_session(&mut registry, "s", &SessionConfig::with_poll_interval_ms(20));
    assert!(matches!(again, Ok(None)));

    // the worker keeps its cadence and still obeys the session's flag
    assert_eq!(worker.poll_interval_ms(), 10);
    assert_eq!(worker.tick(), 3);
    assert_eq!(worker.wake(), WorkerAction::Probe { tick: 3 });

    // the samples buffered before the second start are still there, in order
    let samples = poll_state(&registry, "s");
    let apps: Vec<String> = samples.iter().map(|s| s.app.clone()).collect();
    let windows: Vec<String> = samples.iter().map(|s| s.window.clone()).collect();
    assert_eq!(apps, vec!["firefox", "vscode", "vscode"]);
    assert_eq!(windows, vec!["README.md", "Editor", "Editor"]);

    // and the session still takes what its first worker sends
    run_iteration(&mut worker, &mut probe);
    assert_eq!(poll_state(&registry, "s").len(), 1);
}

#[test]
fn stopping_one_session_leaves_the_other_untouched() {
    let mut registry: Registry<u32> = Registry::new();
    let mut a = start_worker(&mut registry, "a", 10);
    let mut b = start_worker(&mut registry, "b", 20);
    assert!(attach_worker(&mut registry, "a", 1).is_ok());
    assert!(attach_worker(&mut registry, "b", 2).is_ok());
    let mut probe = StubSampler;
    run_iteration(&mut a, &mut probe);
    for _ in 0..4 {
        run_iteration(&mut b, &mut probe);
    }

    assert_eq!(stop_session(&mut registry, "a"), Some(1));
    assert!(retire_session(&mut registry, "a"));

    // b is live, its worker runs on with its interval and counter
    assert!(registry.is_live("b"));
    assert_eq!(b.poll_interval_ms(), 20);
    assert_eq!(b.tick(), 4);
    assert_eq!(b.wake(), WorkerAction::Probe { tick: 4 });
    assert_eq!(a.wake(), WorkerAction::Exit);

    // b's buffered samples are all there, in order, and its handle too
    let samples = poll_state(&registry, "b");
    let apps: Vec<String> = samples.iter().map(|s| s.app.clone()).collect();
    assert_eq!(apps, vec!["firefox", "vscode", "vscode", "firefox"]);
    assert_eq!(stop_session(&mut registry, "b"), Some(2));
    assert_eq!(b.wake(), WorkerAction::Exit);
}

#[test]
fn attaching_a_handle_keeps_the_channel_and_the_flag() {
    let mut registry: Registry<u32> = Registry::new();
    let mut worker = start_worker(&mut registry, "s", 10);
    let mut probe = StubSampler;
    run_iteration(&mut worker, &mut probe);
    assert!(attach_worker(&mut registry, "s", 3).is_ok());
    run_iteration(&mut worker, &mut probe);
    assert_eq!(poll_state(&registry, "s").len(), 2);
    assert_eq!(stop_session(&mut registry, "s"), Some(3));
    assert_eq!(worker.wake(), WorkerAction::Exit);
}

#[test]
fn timestamps_carry_the_utc_offset() {
    let mut probe = StubSampler;
    let state = probe.probe(4);
    assert!(state.ts.ends_with("+00:00"));
    assert!(state.ts.len() >= 25);
    let parsed = chrono::DateTime::parse_from_rfc3339(&state.ts).unwrap();
    assert_eq!(parsed.offset().local_minus_utc(), 0);
}

#[test]
fn well_formed_record_is_delivered_unchanged() {
    let mut registry: Registry<u32> = Registry::new();
    let mut worker = start_worker(&mut registry, "s", 10);
    let state = OsContextState {
        ts: "2024-05-01T09:30:00+02:00".to_string(),
        app: "editor".to_string(),
        window: "notes.txt".to_string(),
        clipboard: Some("copied".to_string()),
    };
    assert_eq!(worker.deliver(state), WorkerAction::Sleep { millis: 10 });
    let samples = poll_state(&registry, "s");
    assert_eq!(samples.len(), 1);
    assert_eq!(samples[0].ts, "2024-05-01T09:30:00+02:00");
    assert_eq!(samples[0].app, "editor");
    assert_eq!(samples[0].window, "notes.txt");
    assert_eq!(samples[0].clipboard, Some("copied".to_string()));
}

#[test]
fn incomplete_record_is_filled_before_it_is_sent() {
    let mut registry: Registry<u32> = Registry::new();
    let mut worker = start_worker(&mut registry, "s", 10);
    let state = OsContextState {
        ts: String::new(),
        app: String::new(),
        window: String::new(),
        clipboard: Some(String::new()),
    };
    assert_eq!(worker.deliver(state), WorkerAction::Sleep { millis: 10 });
    let samples = poll_state(&registry, "s");
    assert_eq!(samples.len(), 1);
    assert_eq!(samples[0].app, "Unknown");
    assert_eq!(samples[0].window, "Unknown");
    assert_eq!(samples[0].clipboard, Some(String::new()));
    assert!(samples[0].ts.ends_with("+00:00"));
    assert!(chrono::DateTime::parse_from_rfc3339(&samples[0].ts).is_ok());
}

#[test]
fn filling_touches_only_what_is_missing() {
    let state = OsContextState {
        ts: "then".to_string(),
        app: String::new(),
        window: "title".to_string(),
        clipboard: None,
    };
    let filled = state.filled();
    assert_eq!(filled.ts, "then");
    assert_eq!(filled.app, "Unknown");
    assert_eq!(filled.window, "title");
    assert_eq!(filled.clipboard, None);

    let whole = OsContextState {
        ts: "then".to_string(),
        app: "a".to_string(),
        window: "w".to_string(),
        clipboard: Some("c".to_string()),
    };
    let same = whole.clone().filled();
    assert_eq!(same.ts, whole.ts);
    assert_eq!(same.app, whole.app);
    assert_eq!(same.window, whole.window);
    assert_eq!(same.clipboard, whole.clipboard);
}

#[test]
fn every_polled_sample_is_well_formed() {
    let mut registry: Registry<u32> = Registry::new();
    let mut worker = start_worker(&mut registry, "s", 10);
    let mut probe = StubSampler;
    run_iteration(&mut worker, &mut probe);
    let blank = OsContextState {
        ts: String::new(),
        app: String::new(),
        window: "w".to_string(),
        clipboard: None,
    };
    worker.deliver(blank);
    run_iteration(&mut worker, &mut probe);
    let samples = poll_state(&registry, "s");
    assert_eq!(samples.len(), 3);
    for state in samples.iter() {
        assert_well_formed(state);
    }
    assert_eq!(samples[0].app, "firefox");
    assert_eq!(samples[1].app, "Unknown");
    assert_eq!(samples[1].window, "w");
    assert_eq!(samples[2].app, "vscode");
}
