use time_tracker::datetime::{Date, DateTime};
use time_tracker::db::{month_texts, periods_from_rows, read_stored, stored_texts, total_seconds, Period};
use time_tracker::error::AppError;
use time_tracker::text::{padded_two_text, push_decimal, signed_decimal_text};

fn dt(year: i32, month: u32, day: u32, hour: u32, minute: u32, second: u32) -> DateTime {
    DateTime { year, month, day, hour, minute, second, nanosecond: 0 }
}

fn rows(pairs: &[(&str, &str)]) -> Vec<(String, String)> {
    pairs.iter().map(|(a, b)| (a.to_string(), b.to_string())).collect()
}

#[test]
fn and_hms_builds_the_time_of_day() {
    let d = Date { year: 2024, month: 2, day: 29 };
    assert_eq!(d.and_hms(0, 0, 0), Some(dt(2024, 2, 29, 0, 0, 0)));
    assert_eq!(d.and_hms(23, 59, 59), Some(dt(2024, 2, 29, 23, 59, 59)));
    assert_eq!(d.and_hms(24, 0, 0), None);
    assert_eq!(d.and_hms(12, 60, 0), None);
    assert_eq!(d.and_hms(12, 0, 60), None);
}

#[test]
fn validity_follows_the_calendar() {
    assert!(dt(2024, 2, 29, 12, 0, 0).check());
    assert!(!dt(2023, 2, 29, 12, 0, 0).check());
    assert!(dt(2000, 2, 29, 12, 0, 0).check());
    assert!(!dt(1900, 2, 29, 12, 0, 0).check());
    assert!(!dt(2024, 4, 31, 12, 0, 0).check());
    assert!(!dt(2024, 13, 1, 12, 0, 0).check());
    assert!(!dt(2024, 1, 0, 12, 0, 0).check());
    assert!(!dt(2024, 1, 1, 24, 0, 0).check());
    assert!(dt(-4, 2, 29, 0, 0, 0).check());
    assert!(!dt(262143, 1, 1, 0, 0, 0).check());
    assert!(dt(262142, 12, 31, 0, 0, 0).check());
    let mut leap = dt(2016, 12, 31, 23, 59, 59);
    leap.nanosecond = 1_000_000_000;
    assert!(leap.check());
    leap.second = 58;
    assert!(!leap.check());
}

#[test]
fn stored_texts_are_the_iso_form() {
    let (a, b) = stored_texts(&dt(2024, 1, 5, 9, 3, 7), &dt(999, 12, 31, 23, 59, 59));
    assert_eq!(a, "2024-01-05 09:03:07");
    assert_eq!(b, "0999-12-31 23:59:59");
}

#[test]
fn stored_text_reads_back() {
    let d = dt(2023, 11, 30, 17, 45, 0);
    let (text, _) = stored_texts(&d, &d);
    assert_eq!(read_stored(&text).unwrap(), d);
}

#[test]
fn read_stored_rejects_other_texts() {
    assert!(matches!(read_stored("2024-01-15 09:00"), Err(AppError::DateTimeParse(_))));
    assert!(matches!(read_stored("2024-02-30 09:00:00"), Err(AppError::DateTimeParse(_))));
    assert!(matches!(read_stored("yesterday"), Err(AppError::DateTimeParse(_))));
    assert!(matches!(read_stored(""), Err(AppError::DateTimeParse(_))));
}

#[test]
fn total_of_one_day_period() {
    let r = rows(&[("2024-01-15 09:00:00", "2024-01-15 17:30:00")]);
    assert_eq!(total_seconds(&r).unwrap(), 30600);
}

#[test]
fn total_sums_all_rows() {
    let r = rows(&[
        ("2024-01-15 09:00:00", "2024-01-15 17:30:00"),
        ("2024-01-16 22:00:00", "2024-01-17 06:00:00"),
        ("2024-02-28 12:00:00", "2024-03-01 12:00:00"),
    ]);
    assert_eq!(total_seconds(&r).unwrap(), 30600 + 28800 + 2 * 86400);
}

#[test]
fn total_is_additive_on_concrete_rows() {
    let a = rows(&[("2024-01-15 09:00:00", "2024-01-15 17:30:00")]);
    let b = rows(&[("2024-01-16 08:00:00", "2024-01-16 08:00:59"), ("2024-01-17 10:00:00", "2024-01-17 09:00:00")]);
    let mut both = a.clone();
    both.extend(b.clone());
    assert_eq!(
        total_seconds(&both).unwrap(),
        total_seconds(&a).unwrap() + total_seconds(&b).unwrap()
    );
}

#[test]
fn total_counts_backwards_periods_negatively() {
    let r = rows(&[("2024-01-17 10:00:00", "2024-01-17 09:00:00")]);
    assert_eq!(total_seconds(&r).unwrap(), -3600);
}

#[test]
fn total_of_no_rows_is_zero() {
    assert_eq!(total_seconds(&Vec::new()).unwrap(), 0);
}

#[test]
fn total_fails_on_a_bad_row() {
    let r = rows(&[("2024-01-15 09:00:00", "2024-01-15 17:30:00"), ("2024-01-16 09:00:00", "later")]);
    assert!(matches!(total_seconds(&r), Err(AppError::DateTimeParse(_))));
}

#[test]
fn periods_keep_ids_and_order() {
    let r = vec![
        (7, "2024-03-02 09:00:00".to_string(), "2024-03-02 12:00:00".to_string()),
        (3, "2024-03-01 08:30:00".to_string(), "2024-03-01 16:00:00".to_string()),
    ];
    let periods = periods_from_rows(&r).unwrap();
    assert_eq!(
        periods,
        vec![
            Period { id: 7, enter_time: dt(2024, 3, 2, 9, 0, 0), exit_time: dt(2024, 3, 2, 12, 0, 0) },
            Period { id: 3, enter_time: dt(2024, 3, 1, 8, 30, 0), exit_time: dt(2024, 3, 1, 16, 0, 0) },
        ]
    );
}

#[test]
fn periods_fail_on_a_bad_row() {
    let r = vec![(1, "2024-03-02 09:00:00".to_string(), "2024-03-02 25:00:00".to_string())];
    assert!(matches!(periods_from_rows(&r), Err(AppError::DateTimeParse(_))));
    assert_eq!(periods_from_rows(&Vec::new()).unwrap(), Vec::new());
}

#[test]
fn month_texts_pad_the_month() {
    assert_eq!(month_texts(2024, 3), ("2024".to_string(), "03".to_string()));
    assert_eq!(month_texts(2024, 12), ("2024".to_string(), "12".to_string()));
    assert_eq!(month_texts(-5, 0), ("-5".to_string(), "00".to_string()));
    assert_eq!(month_texts(i32::MIN, 123), (i32::MIN.to_string(), "123".to_string()));
}

#[test]
fn decimal_numerals() {
    assert_eq!(signed_decimal_text(0), "0");
    assert_eq!(signed_decimal_text(i32::MAX), "2147483647");
    assert_eq!(signed_decimal_text(-40), "-40");
    assert_eq!(padded_two_text(7), "07");
    let mut s = String::from("n=");
    push_decimal(&mut s, u64::MAX);
    assert_eq!(s, format!("n={}", u64::MAX));
}

#[test]
fn stored_texts_sort_as_time() {
    let times = [
        dt(999, 12, 31, 23, 59, 59),
        dt(2023, 12, 31, 23, 59, 59),
        dt(2024, 1, 1, 0, 0, 0),
        dt(2024, 1, 1, 0, 0, 1),
        dt(2024, 1, 1, 0, 1, 0),
        dt(2024, 1, 1, 10, 0, 0),
        dt(2024, 1, 2, 9, 0, 0),
        dt(2024, 10, 1, 0, 0, 0),
    ];
    for a in times.iter() {
        for b in times.iter() {
            let (ta, tb) = stored_texts(a, b);
            let earlier = (a.year, a.month, a.day, a.hour, a.minute, a.second)
                < (b.year, b.month, b.day, b.hour, b.minute, b.second);
            assert_eq!(ta < tb, earlier);
            assert_eq!(ta == tb, a == b);
        }
    }
}
