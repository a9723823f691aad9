use fe2o3_log::format::{diagnostic, fatal, format_line, prelude};
use fe2o3_log::protocol::{Delivery, Stage, Step};
use fe2o3_log::severity::Severity;
use fe2o3_log::sink::{registration_result, InitError, Sink};

const ALL: [Severity; 5] = [
    Severity::Error,
    Severity::Warn,
    Severity::Info,
    Severity::Debug,
    Severity::Trace,
];

/// A destination that accepts `capacity` writes and refuses every one after.
struct Flaky {
    capacity: usize,
    lines: Vec<String>,
}

impl Flaky {
    fn write(&mut self, text: &str) -> Result<(), String> {
        if self.lines.len() < self.capacity {
            self.lines.push(text.to_string());
            Ok(())
        } else {
            Err("disk full".to_string())
        }
    }
}

/// Runs one delivery against `primary`, switching to `fallback` when told to.
/// Returns the abort reason, if the protocol asked to stop.
fn drive(
    mut delivery: Delivery,
    mut step: Step,
    on_fallback: &mut bool,
    primary: &mut Flaky,
    fallback: &mut Flaky,
) -> Option<String> {
    loop {
        let outcome = match step {
            Step::Write(text) => {
                if *on_fallback {
                    fallback.write(&text)
                } else {
                    primary.write(&text)
                }
            }
            Step::SwitchToFallback(text) => {
                *on_fallback = true;
                fallback.write(&text)
            }
            Step::Done => return None,
            Step::Abort(reason) => return Some(reason),
        };
        step = delivery.advance(outcome);
    }
}

#[test]
fn enabled_exactly_at_or_above_threshold() {
    let sink = Sink::open_at(Severity::Info, 0, "1.0.0").0;
    assert!(sink.is_enabled(Severity::Error));
    assert!(sink.is_enabled(Severity::Warn));
    assert!(sink.is_enabled(Severity::Info));
    assert!(!sink.is_enabled(Severity::Debug));
    assert!(!sink.is_enabled(Severity::Trace));
}

#[test]
fn enablement_is_monotonic() {
    for (t, threshold) in ALL.iter().enumerate() {
        let sink = Sink::open_at(*threshold, 0, "1.0.0").0;
        for (i, level) in ALL.iter().enumerate() {
            assert_eq!(sink.is_enabled(*level), i <= t);
        }
    }
}

#[test]
fn level_names() {
    let names: Vec<&str> = ALL.iter().map(|l| l.name()).collect();
    assert_eq!(names, vec!["ERROR", "WARN", "INFO", "DEBUG", "TRACE"]);
}

#[test]
fn line_format_example() {
    assert_eq!(
        format_line(Severity::Info, 421_000, "Starting up"),
        "[0.00042100] (INFO)\tStarting up\n"
    );
}

#[test]
fn seconds_round_to_eight_digits() {
    assert_eq!(format_line(Severity::Error, 0, "a"), "[0.00000000] (ERROR)\ta\n");
    assert_eq!(format_line(Severity::Error, 4, "a"), "[0.00000000] (ERROR)\ta\n");
    assert_eq!(format_line(Severity::Error, 5, "a"), "[0.00000001] (ERROR)\ta\n");
    assert_eq!(
        format_line(Severity::Warn, 1_234_567_894, "b"),
        "[1.23456789] (WARN)\tb\n"
    );
    assert_eq!(
        format_line(Severity::Warn, 1_234_567_895, "b"),
        "[1.23456790] (WARN)\tb\n"
    );
    assert_eq!(
        format_line(Severity::Trace, 9_999_999_996, ""),
        "[10.00000000] (TRACE)\t\n"
    );
}

#[test]
fn largest_duration() {
    assert_eq!(
        format_line(Severity::Debug, u64::MAX, "x"),
        "[18446744073.70955162] (DEBUG)\tx\n"
    );
}

#[test]
fn elapsed_counts_from_the_epoch() {
    let sink = Sink::open_at(Severity::Trace, 5_000_000_000, "1.0.0").0;
    assert_eq!(sink.elapsed_ns(7_500_000_000), 2_500_000_000);
    assert_eq!(sink.elapsed_ns(5_000_000_000), 0);
    assert_eq!(sink.elapsed_ns(4_000_000_000), 0);
    assert_eq!(
        sink.record(Severity::Info, 7_500_000_000, "later"),
        Some("[2.50000000] (INFO)\tlater\n".to_string())
    );
}

#[test]
fn first_record_reflects_time_since_opening() {
    let (sink, _, _) = Sink::open(Severity::Trace, "1.0.0");
    let start = time::precise_time_ns();
    while time::precise_time_ns() - start < 20_000_000 {}
    let (delivery, _) = sink.emit(Severity::Info, "first").unwrap();
    let stamp = &delivery.text[1..delivery.text.find(']').unwrap()];
    let (secs, frac) = stamp.split_once('.').unwrap();
    assert_eq!(frac.len(), 8);
    let tens_of_nanos: u64 = secs.parse::<u64>().unwrap() * 100_000_000 + frac.parse::<u64>().unwrap();
    assert!(tens_of_nanos >= 2_000_000);
    assert!(delivery.text.ends_with(" (INFO)\tfirst\n"));
}

#[test]
fn disabled_severity_produces_nothing() {
    let sink = Sink::open_at(Severity::Info, 0, "1.0.0").0;
    assert_eq!(sink.record(Severity::Debug, 10, "x"), None);
    assert!(sink.emit_at(Severity::Debug, 10, "x").is_none());
    assert!(sink.emit(Severity::Trace, "x").is_none());
    let mut dest = Flaky { capacity: 10, lines: vec![] };
    if let Some((d, s)) = sink.emit_at(Severity::Debug, 10, "x") {
        drive(d, s, &mut false, &mut dest, &mut Flaky { capacity: 10, lines: vec![] });
    }
    assert!(dest.lines.is_empty());
}

#[test]
fn stamps_never_go_down() {
    let sink = Sink::open_at(Severity::Trace, 100, "1.0.0").0;
    let mut last = String::new();
    for now in [100u64, 104, 105, 1_000, 999_999_999, 1_000_000_105, 50_000_000_000] {
        let line = sink.record(Severity::Trace, now, "m").unwrap();
        let stamp = line[1..line.find(']').unwrap()].to_string();
        let key = |s: &str| {
            let (a, b) = s.split_once('.').unwrap();
            (a.parse::<u64>().unwrap(), b.parse::<u64>().unwrap())
        };
        if !last.is_empty() {
            assert!(key(&last) <= key(&stamp));
        }
        assert_eq!(line.matches('\n').count(), 1);
        last = stamp;
    }
}

#[test]
fn working_destination_gets_one_line_per_record() {
    let (sink, d, s) = Sink::open_at(Severity::Trace, 0, "2.3.4");
    let mut primary = Flaky { capacity: 100, lines: vec![] };
    let mut fallback = Flaky { capacity: 100, lines: vec![] };
    let mut on_fallback = false;
    assert_eq!(drive(d, s, &mut on_fallback, &mut primary, &mut fallback), None);
    for i in 0..20u64 {
        let (d, s) = sink.emit_at(Severity::Info, i * 1_000, "tick").unwrap();
        assert_eq!(drive(d, s, &mut on_fallback, &mut primary, &mut fallback), None);
    }
    assert_eq!(primary.lines.len(), 21);
    assert!(fallback.lines.is_empty());
    assert_eq!(primary.lines[0], "Fe2o3 Desktop Environment\nVersion: 2.3.4\n");
    assert_eq!(primary.lines[20], "[0.00001900] (INFO)\ttick\n");
}

#[test]
fn fallback_gets_diagnostic_then_original() {
    let n = 3;
    let (sink, d, s) = Sink::open_at(Severity::Trace, 0, "1.0.0");
    // the banner takes one write, then `n` records go through
    let mut primary = Flaky { capacity: n + 1, lines: vec![] };
    let mut fallback = Flaky { capacity: 100, lines: vec![] };
    let mut on_fallback = false;
    assert_eq!(drive(d, s, &mut on_fallback, &mut primary, &mut fallback), None);
    for i in 0..n as u64 {
        let (d, s) = sink.emit_at(Severity::Warn, i, "ok").unwrap();
        assert_eq!(drive(d, s, &mut on_fallback, &mut primary, &mut fallback), None);
    }
    assert!(!on_fallback);
    assert_eq!(primary.lines.len(), n + 1);
    let (d, s) = sink.emit_at(Severity::Error, 10_000_000, "lost?").unwrap();
    assert_eq!(drive(d, s, &mut on_fallback, &mut primary, &mut fallback), None);
    assert!(on_fallback);
    assert_eq!(
        fallback.lines,
        vec![
            "Error writing to log: disk full\n".to_string(),
            "[0.01000000] (ERROR)\tlost?\n".to_string(),
        ]
    );
    let (d, s) = sink.emit_at(Severity::Error, 20_000_000, "after").unwrap();
    assert_eq!(drive(d, s, &mut on_fallback, &mut primary, &mut fallback), None);
    assert_eq!(fallback.lines.len(), 3);
    assert_eq!(primary.lines.len(), n + 1);
}

#[test]
fn broken_destination_at_opening_falls_back_with_prelude() {
    let (_, d, s) = Sink::open_at(Severity::Trace, 0, "0.9.1");
    let mut primary = Flaky { capacity: 0, lines: vec![] };
    let mut fallback = Flaky { capacity: 100, lines: vec![] };
    let mut on_fallback = false;
    assert_eq!(drive(d, s, &mut on_fallback, &mut primary, &mut fallback), None);
    assert_eq!(
        fallback.lines,
        vec![
            "Error writing to log: disk full\n".to_string(),
            "Fe2o3 Desktop Environment\nVersion: 0.9.1\n".to_string(),
        ]
    );
}

#[test]
fn failing_fallback_aborts_on_diagnostic() {
    let (sink, _, _) = Sink::open_at(Severity::Trace, 0, "1.0.0");
    let (d, s) = sink.emit_at(Severity::Info, 0, "m").unwrap();
    let mut primary = Flaky { capacity: 0, lines: vec![] };
    let mut fallback = Flaky { capacity: 0, lines: vec![] };
    let reason = drive(d, s, &mut false, &mut primary, &mut fallback);
    assert_eq!(reason, Some("Cannot write to standard output: disk full".to_string()));
}

#[test]
fn failing_fallback_aborts_on_retry() {
    let (sink, _, _) = Sink::open_at(Severity::Trace, 0, "1.0.0");
    let (mut d, s) = sink.emit_at(Severity::Info, 0, "m").unwrap();
    assert_eq!(s, Step::Write("[0.00000000] (INFO)\tm\n".to_string()));
    assert_eq!(d.stage, Stage::Primary);
    let s = d.advance(Err("broken pipe".to_string()));
    assert_eq!(s, Step::SwitchToFallback("Error writing to log: broken pipe\n".to_string()));
    let s = d.advance(Ok(()));
    assert_eq!(s, Step::Write("[0.00000000] (INFO)\tm\n".to_string()));
    assert_eq!(d.stage, Stage::Retry);
    let s = d.advance(Err("closed".to_string()));
    assert_eq!(s, Step::Abort("Cannot write to standard output: closed".to_string()));
    assert_eq!(d.stage, Stage::Aborted);
    assert!(d.is_finished());
}

#[test]
fn prelude_and_messages() {
    assert_eq!(prelude("0.1.0"), "Fe2o3 Desktop Environment\nVersion: 0.1.0\n");
    assert_eq!(diagnostic("e"), "Error writing to log: e\n");
    assert_eq!(fatal("e"), "Cannot write to standard output: e");
}

struct Quiet;

impl log::Log for Quiet {
    fn enabled(&self, _: &log::LogMetadata) -> bool {
        false
    }
    fn log(&self, _: &log::LogRecord) {}
}

#[test]
fn second_registration_is_refused() {
    let first = log::set_logger(|max| {
        max.set(log::LogLevelFilter::Info);
        Box::new(Quiet)
    });
    assert_eq!(registration_result(first), Ok(()));
    let mut second_built = false;
    let second = log::set_logger(|max| {
        second_built = true;
        max.set(log::LogLevelFilter::Trace);
        Box::new(Quiet)
    });
    assert_eq!(registration_result(second), Err(InitError::AlreadyInitialized));
    assert!(!second_built);
    assert_eq!(log::max_log_level(), log::LogLevelFilter::Info);
}
