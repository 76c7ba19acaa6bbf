use timer_res::menu::{parse_choice, MenuChoice};
use timer_res::period::{SetOutcome, TimerCaps};
use timer_res::session::{Average, Command, Event, Phase, Report, Resolution, Session};

/// Feeds the events one by one and collects the command due after each.
fn drive(s: &mut Session, events: &[Event]) -> Vec<Command> {
    let mut out = Vec::new();
    for e in events {
        s.step(*e);
        assert!(s.is_well_formed());
        out.push(s.command());
    }
    out
}

fn started(rounds: u32) -> Session {
    let mut s = Session::new(rounds);
    assert_eq!(s.command(), Command::AcquireLock);
    let cmds = drive(
        &mut s,
        &[
            Event::Lock { created: true, already_existed: false },
            Event::Elevation { token_opened: true, queried: true, token_is_elevated: 1 },
        ],
    );
    assert_eq!(cmds, vec![Command::CheckElevation, Command::ShowMenu]);
    s
}

fn is_timer_call(c: &Command) -> bool {
    matches!(c, Command::BeginPeriod(_) | Command::EndPeriod(_))
}

fn res(current: u32) -> Resolution {
    Resolution { current, minimum: 156250, maximum: 5000 }
}

#[test]
fn second_instance_is_refused_without_timer_calls() {
    let mut s = Session::new(100);
    let cmds = drive(
        &mut s,
        &[
            Event::Lock { created: true, already_existed: true },
            Event::Done,
            Event::Choice(MenuChoice::SetCustom),
            Event::CapsRead(TimerCaps { min_period: 1, max_period: 1000 }),
            Event::Choice(MenuChoice::Reset),
        ],
    );
    assert_eq!(cmds[0], Command::RefuseRunning);
    assert_eq!(cmds[1], Command::Exit);
    assert!(cmds.iter().all(|c| !is_timer_call(c)));
    assert_eq!(s.phase, Phase::Exited);
}

#[test]
fn failed_lock_creation_is_refused() {
    let mut s = Session::new(100);
    let cmds = drive(&mut s, &[Event::Lock { created: false, already_existed: false }]);
    assert_eq!(cmds, vec![Command::RefuseRunning]);
}

#[test]
fn unelevated_process_is_refused() {
    let mut s = Session::new(100);
    let cmds = drive(
        &mut s,
        &[
            Event::Lock { created: true, already_existed: false },
            Event::Elevation { token_opened: true, queried: true, token_is_elevated: 0 },
            Event::Done,
        ],
    );
    assert_eq!(cmds, vec![Command::CheckElevation, Command::RefuseUnelevated, Command::Exit]);
}

#[test]
fn unreadable_token_counts_as_unelevated() {
    let mut s = Session::new(100);
    let cmds = drive(
        &mut s,
        &[
            Event::Lock { created: true, already_existed: false },
            Event::Elevation { token_opened: false, queried: false, token_is_elevated: 1 },
        ],
    );
    assert_eq!(cmds[1], Command::RefuseUnelevated);
}

#[test]
fn invalid_inputs_give_the_same_report() {
    for line in ["5", "", "abc"] {
        let mut s = started(100);
        let cmds = drive(&mut s, &[Event::Choice(parse_choice(line)), Event::Done]);
        assert_eq!(
            cmds,
            vec![Command::ReportAndPause(Report::InvalidOption), Command::ShowMenu]
        );
        assert!(!s.library_loaded);
    }
}

#[test]
fn set_reset_close_end_to_end() {
    let mut s = started(100);
    let events = [
        Event::Choice(parse_choice("1")),
        Event::CapsRead(TimerCaps { min_period: 1, max_period: 1000000 }),
        Event::PeriodStatus(true),
        Event::Done,
        Event::Choice(parse_choice("4")),
        Event::Done,
        Event::PeriodStatus(true),
        Event::Done,
        Event::Choice(parse_choice("3")),
    ];
    let cmds = drive(&mut s, &events);
    assert_eq!(
        cmds,
        vec![
            Command::QueryCaps,
            Command::BeginPeriod(1),
            Command::ReportAndPause(Report::SetApplied(SetOutcome::Exact(1))),
            Command::ShowMenu,
            Command::EndPeriod(1),
            Command::BeginPeriod(16),
            Command::ReportAndPause(Report::ResetDone),
            Command::ShowMenu,
            Command::Close,
        ]
    );
    assert_eq!(cmds.iter().filter(|c| matches!(c, Command::BeginPeriod(_))).count(), 2);
    assert!(!s.library_loaded);
    assert_eq!(s.phase, Phase::Closing);
    s.step(Event::Done);
    assert_eq!(s.command(), Command::Close);
}

#[test]
fn set_with_high_minimum_requests_minimum() {
    let mut s = started(100);
    let cmds = drive(
        &mut s,
        &[
            Event::Choice(MenuChoice::SetCustom),
            Event::CapsRead(TimerCaps { min_period: 2, max_period: 1000000 }),
            Event::PeriodStatus(true),
        ],
    );
    assert_eq!(cmds[1], Command::BeginPeriod(2));
    assert_eq!(cmds[2], Command::ReportAndPause(Report::SetApplied(SetOutcome::RaisedToMin(2))));
}

#[test]
fn rejected_set_request_is_reported_as_failure() {
    let mut s = started(100);
    let cmds = drive(
        &mut s,
        &[
            Event::Choice(MenuChoice::SetCustom),
            Event::CapsRead(TimerCaps { min_period: 2, max_period: 1000000 }),
            Event::PeriodStatus(false),
            Event::Done,
        ],
    );
    assert_eq!(cmds[3], Command::ShowMenu);
    assert_eq!(cmds[1], Command::BeginPeriod(2));
    assert_eq!(cmds[2], Command::ReportAndPause(Report::SetRejected(SetOutcome::RaisedToMin(2))));
}

#[test]
fn set_with_low_maximum_requests_maximum() {
    let mut s = started(100);
    let cmds = drive(
        &mut s,
        &[
            Event::Choice(MenuChoice::SetCustom),
            Event::CapsRead(TimerCaps { min_period: 0, max_period: 0 }),
            Event::PeriodStatus(true),
        ],
    );
    assert_eq!(cmds[1], Command::BeginPeriod(0));
    assert_eq!(cmds[2], Command::ReportAndPause(Report::SetApplied(SetOutcome::LoweredToMax(0))));
}

#[test]
fn set_without_caps_fails() {
    let mut s = started(100);
    let cmds = drive(&mut s, &[Event::Choice(MenuChoice::SetCustom), Event::CapsFailed, Event::Done]);
    assert_eq!(
        cmds,
        vec![Command::QueryCaps, Command::ReportAndPause(Report::SetFailed), Command::ShowMenu]
    );
}

#[test]
fn reset_failure_is_reported() {
    let mut s = started(100);
    let cmds = drive(
        &mut s,
        &[Event::Choice(MenuChoice::Reset), Event::Done, Event::PeriodStatus(false)],
    );
    assert_eq!(
        cmds,
        vec![
            Command::EndPeriod(1),
            Command::BeginPeriod(16),
            Command::ReportAndPause(Report::ResetFailed)
        ]
    );
}

#[test]
fn menu_read_failure_ends_the_session() {
    let mut s = started(100);
    let cmds = drive(&mut s, &[Event::InputFailed]);
    assert_eq!(cmds, vec![Command::Exit]);
}

#[test]
fn unexpected_event_repeats_the_command() {
    let mut s = started(100);
    let cmds = drive(&mut s, &[Event::Done, Event::Choice(MenuChoice::SetCustom), Event::Done]);
    assert_eq!(cmds, vec![Command::ShowMenu, Command::QueryCaps, Command::QueryCaps]);
}

fn measure_events(rounds: u32) -> Vec<Event> {
    let mut ev = vec![
        Event::Choice(MenuChoice::Measure),
        Event::Loaded(true),
        Event::Resolved(true),
        Event::FrequencyRead(10_000_000),
    ];
    for i in 0..rounds {
        ev.push(Event::ResolutionRead(res(5000 + i)));
        ev.push(Event::Sampled { start: 1000 * i as i64, end: 1000 * i as i64 + 15_000 + i as i64 });
    }
    ev
}

#[test]
fn measure_averages_over_all_rounds() {
    let mut s = started(3);
    let mut ev = measure_events(3);
    ev.push(Event::ResolutionRead(res(10000)));
    ev.push(Event::Done);
    ev.push(Event::Done);
    let cmds = drive(&mut s, &ev);
    let n = cmds.len();
    let average = Average {
        samples: 3,
        total_ticks: 45_003,
        frequency: 10_000_000,
        resolution: res(10000),
    };
    assert_eq!(
        cmds[..4].to_vec(),
        vec![
            Command::LoadLibrary,
            Command::ResolveEntry,
            Command::QueryFrequency,
            Command::QueryResolution
        ]
    );
    assert_eq!(cmds.iter().filter(|c| **c == Command::SampleSleep).count(), 3);
    assert_eq!(cmds.iter().filter(|c| **c == Command::FreeLibrary).count(), 1);
    assert_eq!(cmds[n - 3], Command::FreeLibrary);
    assert_eq!(cmds[n - 2], Command::ReportAndPause(Report::Average(average)));
    assert_eq!(cmds[n - 1], Command::ShowMenu);
    assert!(!s.library_loaded);
}

#[test]
fn measure_keeps_last_resolution_when_final_query_fails() {
    let mut s = started(2);
    let mut ev = measure_events(2);
    ev.push(Event::ResolutionFailed);
    let cmds = drive(&mut s, &ev);
    assert_eq!(*cmds.last().unwrap(), Command::FreeLibrary);
    s.step(Event::Done);
    match s.command() {
        Command::ReportAndPause(Report::Average(a)) => {
            assert_eq!(a.samples, 2);
            assert_eq!(a.resolution, res(5001));
            assert_eq!(a.total_ticks, 30_001);
        }
        other => panic!("unexpected command {:?}", other),
    }
}

#[test]
fn measure_with_negative_sample_sums_exactly() {
    let mut s = started(1);
    let cmds = drive(
        &mut s,
        &[
            Event::Choice(MenuChoice::Measure),
            Event::Loaded(true),
            Event::Resolved(true),
            Event::FrequencyRead(1),
            Event::ResolutionRead(res(1)),
            Event::Sampled { start: i64::MAX, end: i64::MIN },
            Event::ResolutionRead(res(2)),
            Event::Done,
        ],
    );
    let expected = i64::MIN as i128 - i64::MAX as i128;
    assert_eq!(
        *cmds.last().unwrap(),
        Command::ReportAndPause(Report::Average(Average {
            samples: 1,
            total_ticks: expected,
            frequency: 1,
            resolution: res(2),
        }))
    );
}

#[test]
fn measure_query_failure_on_second_round_frees_once() {
    let mut s = started(5);
    let mut ev = measure_events(1);
    ev.push(Event::ResolutionFailed);
    ev.push(Event::Done);
    ev.push(Event::Done);
    let cmds = drive(&mut s, &ev);
    let n = cmds.len();
    assert_eq!(cmds.iter().filter(|c| **c == Command::FreeLibrary).count(), 1);
    assert!(!cmds.iter().any(|c| matches!(c, Command::ReportAndPause(Report::Average(_)))));
    assert_eq!(cmds[n - 2], Command::ReportAndPause(Report::ResolutionFailed));
    assert_eq!(cmds[n - 1], Command::ShowMenu);
    assert!(!s.library_loaded);
}

#[test]
fn measure_load_failure_frees_nothing() {
    let mut s = started(100);
    let cmds = drive(&mut s, &[Event::Choice(MenuChoice::Measure), Event::Loaded(false), Event::Done]);
    assert_eq!(
        cmds,
        vec![Command::LoadLibrary, Command::ReportAndPause(Report::LoadFailed), Command::ShowMenu]
    );
}

#[test]
fn measure_missing_entry_frees_library() {
    let mut s = started(100);
    let cmds = drive(
        &mut s,
        &[Event::Choice(MenuChoice::Measure), Event::Loaded(true), Event::Resolved(false), Event::Done],
    );
    assert_eq!(
        cmds,
        vec![
            Command::LoadLibrary,
            Command::ResolveEntry,
            Command::FreeLibrary,
            Command::ReportAndPause(Report::EntryMissing)
        ]
    );
}

#[test]
fn measure_frequency_failure_frees_library() {
    for e in [Event::FrequencyFailed, Event::FrequencyRead(0), Event::FrequencyRead(-5)] {
        let mut s = started(100);
        let cmds = drive(
            &mut s,
            &[Event::Choice(MenuChoice::Measure), Event::Loaded(true), Event::Resolved(true), e, Event::Done],
        );
        assert_eq!(cmds[3], Command::FreeLibrary);
        assert_eq!(cmds[4], Command::ReportAndPause(Report::FrequencyFailed));
        assert!(!s.library_loaded);
    }
}

#[test]
fn measure_of_zero_rounds_reports_no_samples() {
    let mut s = started(0);
    let cmds = drive(
        &mut s,
        &[
            Event::Choice(MenuChoice::Measure),
            Event::Loaded(true),
            Event::Resolved(true),
            Event::FrequencyRead(3),
            Event::ResolutionRead(res(7)),
            Event::Done,
        ],
    );
    assert_eq!(cmds[3], Command::QueryResolution);
    assert_eq!(
        cmds[5],
        Command::ReportAndPause(Report::Average(Average {
            samples: 0,
            total_ticks: 0,
            frequency: 3,
            resolution: res(7),
        }))
    );
}

#[test]
fn second_measurement_starts_afresh() {
    let mut s = started(2);
    let mut ev = measure_events(2);
    ev.push(Event::ResolutionRead(res(1)));
    ev.push(Event::Done);
    ev.push(Event::Done);
    drive(&mut s, &ev);
    let cmds = drive(&mut s, &ev);
    match cmds[cmds.len() - 2] {
        Command::ReportAndPause(Report::Average(a)) => {
            assert_eq!(a.samples, 2);
            assert_eq!(a.total_ticks, 30_001);
        }
        other => panic!("unexpected command {:?}", other),
    }
}

#[test]
fn menu_measure_takes_one_hundred_samples() {
    let mut s = started(100);
    let mut ev = measure_events(100);
    ev.push(Event::ResolutionRead(res(9)));
    ev.push(Event::Done);
    let cmds = drive(&mut s, &ev);
    assert_eq!(cmds.iter().filter(|c| **c == Command::SampleSleep).count(), 100);
    assert_eq!(cmds.iter().filter(|c| **c == Command::QueryResolution).count(), 101);
    let expected: i128 = (0..100).map(|i| 15_000 + i as i128).sum();
    match cmds.last().unwrap() {
        Command::ReportAndPause(Report::Average(a)) => {
            assert_eq!(a.samples, 100);
            assert_eq!(a.total_ticks, expected);
        }
        other => panic!("unexpected command {:?}", other),
    }
}

#[test]
fn reset_after_set_still_ends_first() {
    let mut s = started(100);
    let cmds = drive(
        &mut s,
        &[
            Event::Choice(MenuChoice::SetCustom),
            Event::CapsRead(TimerCaps { min_period: 1, max_period: 10 }),
            Event::PeriodStatus(true),
            Event::Done,
            Event::Choice(MenuChoice::Reset),
            Event::Done,
        ],
    );
    assert_eq!(cmds[4], Command::EndPeriod(1));
    assert_eq!(cmds[5], Command::BeginPeriod(16));
}
