use std::cell::Cell;

use db_query_log::policy::{Channel, Template};
use db_query_log::{DbLogMode, LoggingConnection};

/// A stand-in for a driver session: it answers each statement from a fixed
/// table and fails on the rest.
struct FakeDriver {
    rows: u32,
}

impl FakeDriver {
    fn execute(&self, sql: &str) -> Result<u32, String> {
        if sql.starts_with("UPDATE") {
            Ok(self.rows)
        } else {
            Err(format!("syntax error near {}", sql))
        }
    }
}

#[test]
fn nolog_neither_renders_nor_records() {
    let conn = LoggingConnection::new(FakeDriver { rows: 3 }, DbLogMode::NoLog);
    let rendered = Cell::new(false);
    let (result, rec) = conn.run_logged(
        "UPDATE t SET a = 1",
        |q: &&str| {
            rendered.set(true);
            q.to_string()
        },
        |c: &FakeDriver, q: &str| c.execute(q),
    );
    assert_eq!(result, Ok(3));
    assert!(rec.is_none());
    assert!(!rendered.get());
}

#[test]
fn result_passes_through_on_success() {
    for mode in [DbLogMode::NoLog, DbLogMode::Standard, DbLogMode::Verbose, DbLogMode::Excessive, DbLogMode::ExcessiveMini] {
        let conn = LoggingConnection::new(FakeDriver { rows: 7 }, mode);
        let (result, rec) = conn.run_logged("UPDATE t SET a = 1", |q: &&str| q.to_string(), |c: &FakeDriver, q: &str| c.execute(q));
        assert_eq!(result, FakeDriver { rows: 7 }.execute("UPDATE t SET a = 1"));
        assert_eq!(rec.is_some(), mode != DbLogMode::NoLog);
    }
}

#[test]
fn result_passes_through_on_failure() {
    for mode in [DbLogMode::NoLog, DbLogMode::Standard, DbLogMode::Verbose, DbLogMode::Excessive, DbLogMode::ExcessiveMini] {
        let conn = LoggingConnection::new(FakeDriver { rows: 7 }, mode);
        let (result, rec) = conn.run_logged("DROP x", |q: &&str| q.to_string(), |c: &FakeDriver, q: &str| c.execute(q));
        assert_eq!(result, Err("syntax error near DROP x".to_string()));
        assert_eq!(rec.is_some(), mode != DbLogMode::NoLog);
    }
}

#[test]
fn failed_call_is_still_logged() {
    let conn = LoggingConnection::new(FakeDriver { rows: 0 }, DbLogMode::Standard);
    let (result, rec) = conn.run_logged("DROP x", |q: &&str| q.to_string(), |c: &FakeDriver, q: &str| c.execute(q));
    assert!(result.is_err());
    let rec = rec.unwrap();
    assert_eq!(rec.query, "DROP x");
    assert_eq!(rec.channel, Channel::Debug);
    assert_eq!(rec.template, Template::Millis);
}

#[test]
fn record_follows_the_mode_and_the_rendering() {
    let long: String = "UPDATE accounts SET balance = balance - 10 WHERE id = 1".to_string();
    let conn = LoggingConnection::new(FakeDriver { rows: 1 }, DbLogMode::ExcessiveMini);
    let (result, rec) = conn.run_logged(long.as_str(), |q: &&str| q.to_string(), |c: &FakeDriver, q: &str| c.execute(q));
    assert_eq!(result, Ok(1));
    let rec = rec.unwrap();
    assert_eq!(rec.channel, Channel::Console);
    assert_eq!(rec.query, long.chars().take(40).collect::<String>());
    assert!(rec.elapsed.subsec_nanos < 1_000_000_000);
    assert_eq!(rec.template, if rec.elapsed.secs >= 1 { Template::Seconds } else { Template::Millis });
}

#[test]
fn started_at_is_the_utc_wall_clock() {
    let conn = LoggingConnection::new(FakeDriver { rows: 1 }, DbLogMode::Excessive);
    let (_, rec) = conn.run_logged("UPDATE t", |q: &&str| q.to_string(), |c: &FakeDriver, q: &str| c.execute(q));
    let rec = rec.unwrap();
    let started_at = rec.started_at.clone().unwrap();
    assert!(started_at.ends_with(" UTC"));
    assert!(started_at.starts_with("20"));
    assert!(rec.message("1.0").starts_with(&format!("[{}]: ", started_at)));
}

#[test]
fn set_log_mode_governs_the_next_call() {
    let mut conn = LoggingConnection::new(FakeDriver { rows: 2 }, DbLogMode::NoLog);
    let (first, first_rec) = conn.run_logged("UPDATE t", |q: &&str| q.to_string(), |c: &FakeDriver, q: &str| c.execute(q));
    conn.set_log_mode(DbLogMode::Verbose);
    assert_eq!(conn.log_mode, DbLogMode::Verbose);
    assert_eq!(conn.conn.rows, 2);
    let (second, second_rec) = conn.run_logged("UPDATE t", |q: &&str| q.to_string(), |c: &FakeDriver, q: &str| c.execute(q));
    assert_eq!(first, Ok(2));
    assert!(first_rec.is_none());
    assert_eq!(second, Ok(2));
    assert_eq!(second_rec.unwrap().channel, Channel::Warn);
    conn.set_log_mode(DbLogMode::NoLog);
    let (third, third_rec) = conn.run_logged("UPDATE t", |q: &&str| q.to_string(), |c: &FakeDriver, q: &str| c.execute(q));
    assert_eq!(third, Ok(2));
    assert!(third_rec.is_none());
}

#[test]
fn execute_logged_uses_the_text_itself() {
    let conn = LoggingConnection::new(FakeDriver { rows: 4 }, DbLogMode::Standard);
    let (result, rec) = conn.execute_logged("UPDATE t SET b = 2", |c: &FakeDriver, q: &str| c.execute(q));
    assert_eq!(result, Ok(4));
    let rec = rec.unwrap();
    assert_eq!(rec.query, "UPDATE t SET b = 2");
    assert_eq!(rec.channel, Channel::Debug);

    let quiet = LoggingConnection::new(FakeDriver { rows: 4 }, DbLogMode::NoLog);
    let (result, rec) = quiet.execute_logged("SELECT 1", |c: &FakeDriver, q: &str| c.execute(q));
    assert_eq!(result, Err("syntax error near SELECT 1".to_string()));
    assert!(rec.is_none());
}

fn spin_for(d: std::time::Duration) {
    let start = std::time::Instant::now();
    while start.elapsed() < d {}
}

fn millis_figure(e: &db_query_log::policy::Elapsed) -> f32 {
    (e.secs as f32) * 1000.0 + (e.subsec_nanos as f32 / 1_000_000.0)
}

#[test]
fn standard_slow_call_end_to_end() {
    let conn = LoggingConnection::new(FakeDriver { rows: 5 }, DbLogMode::Standard);
    let query = "UPDATE jobs SET state = 'done' WHERE id = 12";
    let (result, rec) = conn.run_logged(query, |q: &&str| q.to_string(), |c: &FakeDriver, q: &str| {
        spin_for(std::time::Duration::from_millis(1200));
        c.execute(q)
    });
    assert_eq!(result, Ok(5));
    let rec = rec.unwrap();
    assert_eq!(rec.elapsed.secs, 1);
    assert_eq!(rec.channel, Channel::Info);
    assert_eq!(rec.template, Template::Seconds);
    let text = rec.message(&format!("{:.2}", millis_figure(&rec.elapsed) / 1000.0));
    assert!(text.contains("Slow query ran in 1.2"));
    assert!(text.contains(query));
}

#[test]
fn excessive_mini_fast_call_end_to_end() {
    let conn = LoggingConnection::new(FakeDriver { rows: 5 }, DbLogMode::ExcessiveMini);
    let query: String = "UPDATE sessions SET last_seen = now() WHERE user_id = 123456".to_string();
    assert_eq!(query.chars().count(), 60);
    let (result, rec) = conn.run_logged(query.as_str(), |q: &&str| q.to_string(), |c: &FakeDriver, q: &str| {
        spin_for(std::time::Duration::from_millis(10));
        c.execute(q)
    });
    assert_eq!(result, Ok(5));
    let rec = rec.unwrap();
    assert_eq!(rec.channel, Channel::Console);
    assert_eq!(rec.template, Template::Millis);
    let figure = format!("{:.1}", millis_figure(&rec.elapsed));
    let head: String = query.chars().take(40).collect();
    let text = rec.message(&figure);
    assert_eq!(text, format!("[{}]: Query ran in {} ms: {}", rec.started_at.clone().unwrap(), figure, head));
    assert!(text.ends_with(&format!(" ms: {}", head)));
}
