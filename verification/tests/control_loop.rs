use sby_buoy::control::{Action, ControlLoop, Phase, Record, PAUSE_MS};
use sby_buoy::facade::Severity;
use sby_buoy::probe::{present, BusReply};

/// Runs `iterations` whole iterations; every probe meets `bus`.
fn run(control: &mut ControlLoop, iterations: usize, bus: BusReply) -> Vec<Action> {
    let mut actions = Vec::new();
    let mut verdict = false;
    for _ in 0..6 * iterations {
        assert!(!control.is_exhausted());
        let action = control.step(verdict);
        if action == Action::Probe {
            verdict = present(bus);
        }
        actions.push(action);
    }
    actions
}

#[test]
fn probe_is_present_only_on_acknowledgement() {
    assert!(present(BusReply::Acknowledged));
    assert!(!present(BusReply::NotAcknowledged));
    assert!(!present(BusReply::TimedOut));
    assert!(!present(BusReply::Fault));
}

#[test]
fn probe_gives_the_same_verdict_every_time() {
    for _ in 0..50 {
        assert!(!present(BusReply::NotAcknowledged));
        assert!(present(BusReply::Acknowledged));
    }
}

#[test]
fn fresh_loop_greets_first_and_counts_from_zero() {
    let mut control = ControlLoop::new();
    assert_eq!(control.counter(), 0);
    assert_eq!(control.phase(), Phase::Greet);
    assert!(!control.is_exhausted());
    assert_eq!(control.step(false), Action::Emit(Record::Hello(0)));
    assert_eq!(control.counter(), 1);
    assert_eq!(control.phase(), Phase::Toggle);
}

#[test]
fn one_iteration_is_six_actions_in_order() {
    let mut control = ControlLoop::new();
    let actions = run(&mut control, 1, BusReply::Acknowledged);
    assert_eq!(
        actions,
        vec![
            Action::Emit(Record::Hello(0)),
            Action::ToggleIndicator,
            Action::Delay(300),
            Action::Probe,
            Action::Emit(Record::NoteboardFound),
            Action::Delay(300),
        ]
    );
    assert_eq!(control.phase(), Phase::Greet);
    assert_eq!(control.counter(), 1);
}

#[test]
fn phases_follow_each_other_round_the_iteration() {
    let mut control = ControlLoop::new();
    let mut phases = Vec::new();
    for _ in 0..7 {
        phases.push(control.phase());
        control.step(false);
    }
    assert_eq!(
        phases,
        vec![
            Phase::Greet,
            Phase::Toggle,
            Phase::Settle,
            Phase::Probe,
            Phase::Report,
            Phase::Rest,
            Phase::Greet,
        ]
    );
}

#[test]
fn pause_is_three_hundred_milliseconds() {
    assert_eq!(PAUSE_MS, 300);
}

#[test]
fn verdict_is_read_only_where_the_report_is_due() {
    let mut with = ControlLoop::new();
    let mut without = ControlLoop::new();
    for step in 0..4 {
        assert_eq!(with.step(true), without.step(false), "step {}", step);
    }
    assert_eq!(with.step(true), Action::Emit(Record::NoteboardFound));
    assert_eq!(without.step(false), Action::Emit(Record::NoteboardNotFound));
    assert_eq!(with.step(true), without.step(false));
}

#[test]
fn loop_without_device_reports_not_found_every_iteration() {
    let n = 25;
    let mut control = ControlLoop::new();
    let actions = run(&mut control, n, BusReply::NotAcknowledged);
    let mut greetings = Vec::new();
    let mut reports = Vec::new();
    let mut records = Vec::new();
    for action in &actions {
        if let Action::Emit(record) = action {
            records.push(*record);
            match record {
                Record::Hello(number) => greetings.push(*number),
                other => reports.push(*other),
            }
        }
    }
    assert_eq!(reports.len(), n);
    for report in &reports {
        assert_eq!(*report, Record::NoteboardNotFound);
        assert_eq!(report.severity(), Severity::Error);
        assert!(report.template().contains("not found"));
    }
    let expected: Vec<i32> = (0..n as i32).collect();
    assert_eq!(greetings, expected);
    assert_eq!(records.len(), 2 * n);
    for (i, record) in records.iter().enumerate() {
        if i % 2 == 0 {
            assert_eq!(*record, Record::Hello((i / 2) as i32));
        } else {
            assert_eq!(*record, Record::NoteboardNotFound);
        }
    }
    assert_eq!(control.counter(), n as i32);
}

#[test]
fn loop_with_device_warns_every_iteration() {
    let mut control = ControlLoop::new();
    let actions = run(&mut control, 3, BusReply::Acknowledged);
    let reports: Vec<&Action> =
        actions.iter().filter(|a| matches!(a, Action::Emit(Record::NoteboardFound))).collect();
    assert_eq!(reports.len(), 3);
    assert!(!actions.contains(&Action::Emit(Record::NoteboardNotFound)));
}

#[test]
fn loop_follows_a_device_that_comes_and_goes() {
    let mut control = ControlLoop::new();
    let mut actions = run(&mut control, 1, BusReply::TimedOut);
    actions.extend(run(&mut control, 1, BusReply::Acknowledged));
    actions.extend(run(&mut control, 1, BusReply::Fault));
    assert_eq!(actions[4], Action::Emit(Record::NoteboardNotFound));
    assert_eq!(actions[10], Action::Emit(Record::NoteboardFound));
    assert_eq!(actions[16], Action::Emit(Record::NoteboardNotFound));
    assert_eq!(actions[12], Action::Emit(Record::Hello(2)));
}

#[test]
fn records_carry_their_severity() {
    assert_eq!(Record::Hello(5).severity(), Severity::Info);
    assert_eq!(Record::NoteboardFound.severity(), Severity::Warn);
    assert_eq!(Record::NoteboardNotFound.severity(), Severity::Error);
}

#[test]
fn records_carry_their_text() {
    assert_eq!(Record::Hello(5).template(), "hello world {}!");
    assert_eq!(Record::NoteboardFound.template(), "noteboard found!");
    assert_eq!(Record::NoteboardNotFound.template(), "noteboard not found!");
}
