use execution_time::{elapsed_report, DurationExtension, ExecutionTime, Time};
use std::time::Duration;

#[test]
fn basic_timing() {
    let timer = ExecutionTime::start();
    let wait = Duration::from_nanos(50);
    while timer.get_duration() < wait {}
    let elapsed = timer.get_duration();
    assert!(elapsed >= Duration::from_nanos(45));
}

#[test]
fn main() {
    let timer = ExecutionTime::start();

    let duration = timer.get_duration();
    println!("duration: {duration:?}");

    let time = duration.get_time();
    println!("time: {time:?}");
    println!("time: {time:#?}");
}

fn check(duration: Duration, expected_time: Time, expected: &str) {
    let time = duration.get_time();
    let formatted_output = format!("{} ({duration:?})", time.format_time());
    println!("formatted_output: {formatted_output}");
    assert_eq!(time, expected_time);
    assert_eq!(formatted_output, expected);
}

fn time(days: u64, hours: u8, minutes: u8, nanos: i64) -> Time {
    Time { days, hours, minutes, seconds: execution_time::Seconds::from_nanos(nanos) }
}

#[test]
fn elapsed_time_more_than_nanosecond() {
    check(Duration::new(0, 57), time(0, 0, 0, 57), "0.000000057 second (57ns)");
}

#[test]
fn elapsed_time_more_than_microsecond() {
    check(Duration::new(0, 80_057), time(0, 0, 0, 80_057), "0.000080057 second (80.057\u{b5}s)");
}

#[test]
fn elapsed_time_more_than_millisecond() {
    check(Duration::new(0, 15_200_000), time(0, 0, 0, 15_200_000), "0.015200 second (15.2ms)");
}

#[test]
fn elapsed_time_more_than_second() {
    check(Duration::new(5, 80_012_045), time(0, 0, 0, 5_080_012_045), "5.080 seconds (5.080012045s)");
}

#[test]
fn elapsed_time_more_than_minute() {
    check(Duration::new(65, 12_345), time(0, 0, 1, 5_000_012_345), "1 minute, 5.000 seconds (65.000012345s)");
}

#[test]
fn elapsed_time_more_than_hour() {
    check(
        Duration::new(3700, 56_891_730),
        time(0, 1, 1, 40_056_891_730),
        "1 hour, 1 minute, 40.057 seconds (3700.05689173s)",
    );
}

#[test]
fn elapsed_time_more_than_day() {
    let seconds = 86400.0 + 2.0 * 3600.0 + 5.0 * 60.0 + 28.03;
    check(
        Duration::from_secs_f64(seconds),
        time(1, 2, 5, 28_030_000_000),
        "1 day, 2 hours, 5 minutes, 28.030 seconds (93928.03s)",
    );
}

#[test]
fn report_joins_text_and_raw_duration() {
    assert_eq!(elapsed_report(0, 57), "0.000000057 second (57ns)");
    assert_eq!(elapsed_report(0, 15_200_000), "0.015200 second (15.2ms)");
    assert_eq!(elapsed_report(3700, 56_891_730), "1 hour, 1 minute, 40.057 seconds (3700.05689173s)");
    assert_eq!(elapsed_report(0, 0), "0.0 second (0ns)");
}

#[test]
fn consecutive_reads_do_not_decrease() {
    let timer = ExecutionTime::start();
    let first = timer.get_duration();
    let second = timer.get_duration();
    assert!(second >= first);
    let t = timer.get_time();
    assert!(t.hours < 24 && t.minutes < 60);
    let report = timer.get_elapsed_time();
    assert!(report.ends_with(")"));
    assert!(report.contains("second"));
}
