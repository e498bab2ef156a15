use chrono::NaiveDate;
use time_tracker::datetime::DateTime;
use time_tracker::db::{stored_texts, total_seconds};

// The formulas that the library states of `chrono`, written out in plain Rust.

fn padded(n: u64, width: usize) -> String {
    format!("{:0width$}", n, width = width)
}

fn year_text(year: i64) -> String {
    if (0..=9999).contains(&year) {
        padded(year as u64, 4)
    } else if year < 0 {
        format!("-{}", padded((-year) as u64, 4))
    } else {
        format!("+{}", padded(year as u64, 4))
    }
}

fn fraction_text(nano: i64) -> String {
    if nano == 0 {
        String::new()
    } else if nano % 1_000_000 == 0 {
        format!(".{}", padded((nano / 1_000_000) as u64, 3))
    } else if nano % 1_000 == 0 {
        format!(".{}", padded((nano / 1_000) as u64, 6))
    } else {
        format!(".{}", padded(nano as u64, 9))
    }
}

fn display_text(dt: &DateTime) -> String {
    let leap = dt.nanosecond >= 1_000_000_000;
    let second = if leap { dt.second + 1 } else { dt.second };
    let nano = if leap { dt.nanosecond - 1_000_000_000 } else { dt.nanosecond };
    format!(
        "{}-{}-{} {}:{}:{}{}",
        year_text(dt.year as i64),
        padded(dt.month as u64, 2),
        padded(dt.day as u64, 2),
        padded(dt.hour as u64, 2),
        padded(dt.minute as u64, 2),
        padded(second as u64, 2),
        fraction_text(nano as i64)
    )
}

fn is_leap_year(y: i64) -> bool {
    y.rem_euclid(4) == 0 && (y.rem_euclid(100) != 0 || y.rem_euclid(400) == 0)
}

fn days_before_year(y: i64) -> i64 {
    365 * y + (y + 3).div_euclid(4) - (y + 99).div_euclid(100) + (y + 399).div_euclid(400)
}

fn days_before_month(y: i64, m: i64) -> i64 {
    let table = [0, 0, 31, 59, 90, 120, 151, 181, 212, 243, 273, 304, 334];
    table[m as usize] + if m > 2 && is_leap_year(y) { 1 } else { 0 }
}

fn day_number(dt: &DateTime) -> i64 {
    days_before_year(dt.year as i64) + days_before_month(dt.year as i64, dt.month as i64) + dt.day as i64 - 1
}

fn seconds_of_day(dt: &DateTime) -> i64 {
    dt.hour as i64 * 3600 + dt.minute as i64 * 60 + dt.second as i64
}

fn seconds_between(later: &DateTime, earlier: &DateTime) -> i64 {
    let days = day_number(later) - day_number(earlier);
    let a = seconds_of_day(later);
    let b = seconds_of_day(earlier);
    let leap = if a > b && earlier.nanosecond >= 1_000_000_000 {
        1
    } else if a < b && later.nanosecond >= 1_000_000_000 {
        -1
    } else {
        0
    };
    let frac = later.nanosecond as i64 - earlier.nanosecond as i64;
    let secs = days * 86400 + (a - b) + leap + frac.div_euclid(1_000_000_000);
    let nanos = frac.rem_euclid(1_000_000_000);
    if secs < 0 && nanos > 0 { secs + 1 } else { secs }
}

fn chrono_value(dt: &DateTime) -> chrono::NaiveDateTime {
    NaiveDate::from_ymd_opt(dt.year, dt.month, dt.day)
        .unwrap()
        .and_hms_nano_opt(dt.hour, dt.minute, dt.second, dt.nanosecond)
        .unwrap()
}

fn samples() -> Vec<DateTime> {
    let mut out = Vec::new();
    let years = [-262143, -10000, -401, -400, -101, -100, -5, -4, -1, 0, 1, 99, 100, 400, 999, 1900, 1970, 2000, 2023, 2024, 9999, 10000, 262142];
    let dates = [(1, 1), (2, 28), (3, 1), (6, 30), (12, 31)];
    let times = [(0, 0, 0, 0), (23, 59, 59, 0), (12, 30, 15, 500_000_000), (8, 5, 59, 1_250_000_000), (17, 0, 1, 1_000)];
    for &y in years.iter() {
        for &(m, d) in dates.iter() {
            for &(h, mi, s, n) in times.iter() {
                let dt = DateTime { year: y, month: m, day: d, hour: h, minute: mi, second: s, nanosecond: n };
                assert!(dt.check());
                out.push(dt);
            }
        }
        let feb29 = DateTime { year: y, month: 2, day: 29, hour: 6, minute: 7, second: 8, nanosecond: 123_456_789 };
        if feb29.check() {
            out.push(feb29);
        }
    }
    out
}

#[test]
fn display_text_is_chrono_display() {
    for dt in samples() {
        assert_eq!(chrono_value(&dt).to_string(), display_text(&dt));
        let (text, _) = stored_texts(&dt, &dt);
        assert_eq!(text, display_text(&dt));
    }
}

#[test]
fn seconds_between_is_chrono_duration() {
    let all = samples();
    for (i, a) in all.iter().enumerate() {
        for b in all.iter().skip(i % 7).step_by(7) {
            let chrono_secs = chrono_value(a).signed_duration_since(chrono_value(b)).num_seconds();
            assert_eq!(chrono_secs, seconds_between(a, b), "{:?} {:?}", a, b);
        }
    }
}

#[test]
fn totals_follow_seconds_between() {
    let rows: Vec<(String, String)> = vec![
        ("-0001-12-31 23:00:00".to_string(), "0000-01-01 01:00:00".to_string()),
        ("1999-12-31 23:59:60".to_string(), "2000-01-01 00:00:00".to_string()),
        ("2024-02-28 12:00:00".to_string(), "2023-02-28 12:00:00".to_string()),
    ];
    assert_eq!(total_seconds(&rows).unwrap(), 7200 + 0 - 365 * 86400);
}
