//! The values that go into the database and what is made of the rows that
//! come out of it. Periods are stored as two texts, `enter_time` and
//! `exit_time`, in the form `YYYY-MM-DD HH:MM:SS`.

use vstd::prelude::*;

use crate::datetime::{
    chrono_parse_datetime, display_text, naive_datetime_text, naive_seconds_between,
    parse_naive_datetime, plain_display_text, second_text, seconds_between, stored_datetime_format,
    DateTime,
};
use crate::error::{AppError, AppResult};
use crate::text::{padded_two, padded_two_text, signed_decimal, signed_decimal_text};

verus! {

/// A registered period of work.
#[derive(Clone, Copy, Debug, PartialEq, Eq, Structural)]
pub struct Period {
    pub id: i32,
    pub enter_time: DateTime,
    pub exit_time: DateTime,
}

/// What a stored text reads as, if anything.
pub open spec fn stored_value(text: Seq<char>) -> Option<DateTime> {
    chrono_parse_datetime(text, stored_datetime_format())
}

/// The two texts of a row as plain sequences.
pub open spec fn pair_texts(rows: Seq<(String, String)>) -> Seq<(Seq<char>, Seq<char>)> {
    rows.map_values(|r: (String, String)| (r.0@, r.1@))
}

/// Both texts of a row read as date-times.
pub open spec fn pair_reads(row: (Seq<char>, Seq<char>)) -> bool {
    stored_value(row.0) is Some && stored_value(row.1) is Some
}

/// The whole seconds from the enter time to the exit time of a row.
pub open spec fn pair_seconds(row: (Seq<char>, Seq<char>)) -> int {
    seconds_between(stored_value(row.1)->Some_0, stored_value(row.0)->Some_0)
}

/// Every row reads as a period.
pub open spec fn all_pairs_read(rows: Seq<(Seq<char>, Seq<char>)>) -> bool {
    forall|i: int| 0 <= i < rows.len() ==> #[trigger] pair_reads(rows[i])
}

/// The sum of the seconds of the rows.
pub open spec fn total_of(rows: Seq<(Seq<char>, Seq<char>)>) -> int
    decreases rows.len(),
{
    if rows.len() == 0 {
        0
    } else {
        total_of(rows.drop_last()) + pair_seconds(rows.last())
    }
}

/// The total of two lists of rows taken together is the sum of their totals:
/// splitting the stored periods in any two parts does not change the hours.
pub proof fn total_is_additive(a: Seq<(Seq<char>, Seq<char>)>, b: Seq<(Seq<char>, Seq<char>)>)
    ensures
        total_of(a + b) == total_of(a) + total_of(b),
    decreases b.len(),
{
    if b.len() == 0 {
        assert(a + b =~= a);
    } else {
        total_is_additive(a, b.drop_last());
        assert((a + b).drop_last() =~= a + b.drop_last());
        assert((a + b).last() == b.last());
    }
}

/// The texts of the rows are the texts of the rows, one pair for each row,
/// in order.
pub proof fn pair_texts_are_the_row_texts(rows: Seq<(String, String)>, i: int)
    requires
        0 <= i < rows.len(),
    ensures
        pair_texts(rows).len() == rows.len(),
        pair_texts(rows)[i] == (rows[i].0@, rows[i].1@),
{
}

/// No rows make no seconds, and each further row adds the whole seconds from
/// its enter time to its exit time.
pub proof fn total_grows_by_each_period(
    rows: Seq<(Seq<char>, Seq<char>)>,
    row: (Seq<char>, Seq<char>),
)
    ensures
        total_of(Seq::empty()) == 0,
        total_of(rows.push(row)) == total_of(rows) + seconds_between(
            stored_value(row.1)->Some_0,
            stored_value(row.0)->Some_0,
        ),
{
    assert(rows.push(row).drop_last() =~= rows);
}

/// The three values of a row of a month listing as plain sequences.
pub open spec fn row_texts(rows: Seq<(i32, String, String)>) -> Seq<(i32, Seq<char>, Seq<char>)> {
    rows.map_values(|r: (i32, String, String)| (r.0, r.1@, r.2@))
}

/// Both texts of a row of a month listing read as date-times.
pub open spec fn row_reads(row: (i32, Seq<char>, Seq<char>)) -> bool {
    stored_value(row.1) is Some && stored_value(row.2) is Some
}

/// The period that a row of a month listing stands for.
pub open spec fn row_period(row: (i32, Seq<char>, Seq<char>)) -> Period {
    Period {
        id: row.0,
        enter_time: stored_value(row.1)->Some_0,
        exit_time: stored_value(row.2)->Some_0,
    }
}

/// The texts under which two date-times are stored or compared: those of
/// the enter and exit time of a period, or those of the bounds of a range.
pub fn stored_texts(first: &DateTime, second: &DateTime) -> (res: (String, String))
    requires
        first.is_valid(),
        second.is_valid(),
    ensures
        res.0@ == display_text(*first),
        res.1@ == display_text(*second),
        first.is_plain() ==> res.0@ == second_text(*first),
        second.is_plain() ==> res.1@ == second_text(*second),
{
    proof {
        if first.is_plain() {
            plain_display_text(*first);
        }
        if second.is_plain() {
            plain_display_text(*second);
        }
    }
    (naive_datetime_text(first), naive_datetime_text(second))
}

/// Reads a stored text. A text written as `YYYY-MM-DD HH:MM:SS` for a valid
/// date-time with a four-digit year reads back as that date-time.
pub fn read_stored(text: &str) -> (res: AppResult<DateTime>)
    ensures
        res is Ok <==> stored_value(text@) is Some,
        res is Ok ==> stored_value(text@) == Some(res->Ok_0) && res->Ok_0.is_valid(),
        res is Err ==> res->Err_0 is DateTimeParse,
        forall|d: DateTime|
            d.is_valid() && d.is_plain() && text@ == #[trigger] second_text(d) ==> res is Ok
                && res->Ok_0 == d,
{
    match parse_naive_datetime(text, "%Y-%m-%d %H:%M:%S") {
        Ok(d) => Ok(d),
        Err(e) => Err(AppError::DateTimeParse(e)),
    }
}

/// The total number of seconds of the stored periods `(enter_time,
/// exit_time)`: the sum over the rows of the whole seconds from the enter to
/// the exit time. Fails with `DateTimeParse` exactly when a text does not
/// read as a date-time.
pub fn total_seconds(rows: &Vec<(String, String)>) -> (res: AppResult<i128>)
    ensures
        res is Ok <==> forall|i: int|
            0 <= i < rows@.len() ==> stored_value(#[trigger] rows@[i].0@) is Some && stored_value(
                rows@[i].1@,
            ) is Some,
        res is Ok ==> res->Ok_0 == total_of(pair_texts(rows@)),
        res is Err ==> res->Err_0 is DateTimeParse,
{
    let ghost texts = pair_texts(rows@);
    let mut total: i128 = 0;
    let mut i: usize = 0;
    while i < rows.len()
        invariant
            texts == pair_texts(rows@),
            texts.len() == rows@.len(),
            forall|j: int| 0 <= j < rows@.len() ==> #[trigger] texts[j] == (rows@[j].0@, rows@[j].1@),
            i <= rows.len(),
            forall|j: int|
                #![trigger rows@[j]]
                0 <= j < i ==> stored_value(rows@[j].0@) is Some && stored_value(rows@[j].1@) is Some,
            total == total_of(texts.take(i as int)),
            -(i * 0x8000_0000_0000_0000) <= total <= i * 0x8000_0000_0000_0000,
        decreases rows.len() - i,
    {
        let enter = match read_stored(rows[i].0.as_str()) {
            Ok(d) => d,
            Err(e) => {
                proof {
                    assert(stored_value(rows@[i as int].0@) is None);
                }
                return Err(e);
            },
        };
        let exit = match read_stored(rows[i].1.as_str()) {
            Ok(d) => d,
            Err(e) => {
                proof {
                    assert(stored_value(rows@[i as int].1@) is None);
                }
                return Err(e);
            },
        };
        let seconds: i64 = naive_seconds_between(&exit, &enter);
        proof {
            assert(texts.take(i + 1).drop_last() =~= texts.take(i as int));
            assert(texts.take(i + 1).last() == texts[i as int]);
        }
        total = total + seconds as i128;
        i = i + 1;
    }
    proof {
        assert(texts.take(rows.len() as int) =~= texts);
    }
    Ok(total)
}

/// The periods of the rows `(id, enter_time, exit_time)` of a month listing,
/// in the order of the rows. Fails with `DateTimeParse` exactly when a text
/// does not read as a date-time.
pub fn periods_from_rows(rows: &Vec<(i32, String, String)>) -> (res: AppResult<Vec<Period>>)
    ensures
        res is Ok <==> forall|i: int|
            0 <= i < rows@.len() ==> stored_value(#[trigger] rows@[i].1@) is Some && stored_value(
                rows@[i].2@,
            ) is Some,
        res is Ok ==> res->Ok_0@.len() == rows@.len(),
        res is Ok ==> forall|i: int|
            0 <= i < rows@.len() ==> #[trigger] res->Ok_0@[i] == (Period {
                id: rows@[i].0,
                enter_time: stored_value(rows@[i].1@)->Some_0,
                exit_time: stored_value(rows@[i].2@)->Some_0,
            }),
        res is Err ==> res->Err_0 is DateTimeParse,
{
    let mut periods: Vec<Period> = Vec::new();
    let mut i: usize = 0;
    while i < rows.len()
        invariant
            i <= rows.len(),
            periods@.len() == i,
            forall|j: int|
                #![trigger rows@[j]]
                0 <= j < i ==> stored_value(rows@[j].1@) is Some && stored_value(rows@[j].2@) is Some,
            forall|j: int|
                0 <= j < i ==> #[trigger] periods@[j] == (Period {
                    id: rows@[j].0,
                    enter_time: stored_value(rows@[j].1@)->Some_0,
                    exit_time: stored_value(rows@[j].2@)->Some_0,
                }),
        decreases rows.len() - i,
    {
        let enter_time = match read_stored(rows[i].1.as_str()) {
            Ok(d) => d,
            Err(e) => {
                proof {
                    assert(stored_value(rows@[i as int].1@) is None);
                }
                return Err(e);
            },
        };
        let exit_time = match read_stored(rows[i].2.as_str()) {
            Ok(d) => d,
            Err(e) => {
                proof {
                    assert(stored_value(rows@[i as int].2@) is None);
                }
                return Err(e);
            },
        };
        periods.push(Period { id: rows[i].0, enter_time, exit_time });
        i = i + 1;
    }
    Ok(periods)
}

/// The year and the month of a month listing as they are compared with the
/// stored texts: the year in decimal, the month in two digits.
pub fn month_texts(year: i32, month: u32) -> (res: (String, String))
    ensures
        res.0@ == signed_decimal(year as int),
        res.1@ == padded_two(month as nat),
{
    (signed_decimal_text(year), padded_two_text(month))
}

} // verus!
