use sysmon::controller::{
    launch, step, Action, Event, Phase, Step, EXIT_FAILURE, EXIT_SUCCESS, QUIT_KEY, TICK_SECONDS,
};

const NO_KEY: i32 = -1;

#[test]
fn the_program_begins_by_configuring_the_terminal() {
    assert_eq!(launch(), Step { phase: Phase::Init, action: Action::Configure });
}

#[test]
fn a_configured_terminal_starts_the_loop() {
    assert_eq!(
        step(Phase::Init, Event::Configured),
        Some(Step { phase: Phase::Running, action: Action::Refresh })
    );
}

#[test]
fn q_quits_within_one_tick() {
    assert_eq!(QUIT_KEY, 'q' as i32);
    assert_eq!(EXIT_SUCCESS, 0);
    assert_eq!(
        step(Phase::Running, Event::Polled { key: 'q' as i32 }),
        Some(Step { phase: Phase::Shutdown, action: Action::Restore { exit_code: 0 } })
    );
}

#[test]
fn q_quits_on_any_tick() {
    let mut state = launch();
    assert_eq!(state.action, Action::Configure);
    state = step(state.phase, Event::Configured).unwrap();
    for tick in 0..50 {
        assert_eq!(state, Step { phase: Phase::Running, action: Action::Refresh });
        let key = if tick == 49 { 'q' as i32 } else { NO_KEY };
        state = step(state.phase, Event::Polled { key }).unwrap();
        if tick < 49 {
            assert_eq!(state, Step { phase: Phase::Running, action: Action::Sleep { seconds: 1 } });
            state = step(state.phase, Event::Woke).unwrap();
        }
    }
    assert_eq!(state, Step { phase: Phase::Shutdown, action: Action::Restore { exit_code: 0 } });
    assert_eq!(step(state.phase, Event::Woke), None);
}

#[test]
fn other_keys_are_ignored() {
    assert_eq!(TICK_SECONDS, 1);
    for key in [NO_KEY, 0, 'Q' as i32, 'x' as i32, 27, 10, 112, 114, i32::MAX, i32::MIN] {
        assert_eq!(
            step(Phase::Running, Event::Polled { key }),
            Some(Step { phase: Phase::Running, action: Action::Sleep { seconds: 1 } })
        );
    }
}

#[test]
fn after_the_sleep_comes_the_next_refresh() {
    assert_eq!(
        step(Phase::Running, Event::Woke),
        Some(Step { phase: Phase::Running, action: Action::Refresh })
    );
}

#[test]
fn a_failed_sample_restores_the_terminal_and_fails() {
    assert_ne!(EXIT_FAILURE, 0);
    assert_eq!(
        step(Phase::Running, Event::SampleFailed),
        Some(Step { phase: Phase::Shutdown, action: Action::Restore { exit_code: EXIT_FAILURE } })
    );
}

#[test]
fn there_are_no_other_transitions() {
    let events = [
        Event::Configured,
        Event::Polled { key: 'q' as i32 },
        Event::Polled { key: NO_KEY },
        Event::SampleFailed,
        Event::Woke,
    ];
    for event in events {
        assert_eq!(step(Phase::Shutdown, event), None);
        if event != Event::Configured {
            assert_eq!(step(Phase::Init, event), None);
        }
    }
    assert_eq!(step(Phase::Running, Event::Configured), None);
}

#[test]
fn every_way_out_restores_the_terminal() {
    let phases = [Phase::Init, Phase::Running, Phase::Shutdown];
    let events = [
        Event::Configured,
        Event::Polled { key: 'q' as i32 },
        Event::Polled { key: NO_KEY },
        Event::SampleFailed,
        Event::Woke,
    ];
    for phase in phases {
        for event in events {
            if let Some(next) = step(phase, event) {
                assert_ne!(next.phase, Phase::Init);
                assert_ne!(next.action, Action::Configure);
                let restores = matches!(next.action, Action::Restore { .. });
                assert_eq!(next.phase == Phase::Shutdown, restores);
            }
        }
    }
}
