//! The text of a one-month calendar: a title, the weekday names, and one line
//! for each week, Monday first.
//!
//! The weekday on which a month starts and the number of its days come from
//! `chrono`. Everything after that (laying the days out in weeks and
//! formatting the lines) is computed here from those two numbers.

use chrono::Datelike;
use chrono::Month;
use chrono::NaiveDate;
use chrono::Weekday;
use num_traits::FromPrimitive;
use vstd::prelude::*;
use vstd::string::*;

verus! {

/// The first year that `chrono` can represent as a date.
pub const MIN_YEAR: i32 = -262143;

/// The last year that `chrono` can represent as a date.
pub const MAX_YEAR: i32 = 262142;

/// Leap years of the proleptic Gregorian calendar.
pub open spec fn is_leap_year(year: int) -> bool {
    year % 4 == 0 && (year % 100 != 0 || year % 400 == 0)
}

/// The number of days of a month of the proleptic Gregorian calendar.
pub open spec fn month_length(year: int, month: int) -> int {
    if month == 2 {
        if is_leap_year(year) {
            29
        } else {
            28
        }
    } else if month == 4 || month == 6 || month == 9 || month == 11 {
        30
    } else {
        31
    }
}

/// The calendar dates that `chrono` can represent.
pub open spec fn date_exists(year: int, month: int, day: int) -> bool {
    &&& MIN_YEAR <= year <= MAX_YEAR
    &&& 1 <= month <= 12
    &&& 1 <= day <= month_length(year, month)
}

/// Both dates are dates that `chrono` can represent.
pub open spec fn both_exist(
    year: i32,
    month: u32,
    day: u32,
    since_year: i32,
    since_month: u32,
    since_day: u32,
) -> bool {
    &&& date_exists(year as int, month as int, day as int)
    &&& date_exists(since_year as int, since_month as int, since_day as int)
}

/// The months for which a calendar can be drawn: the first day of the month
/// and the first day of the month after it must both be representable.
pub open spec fn calendar_month(year: int, month: int) -> bool {
    &&& 1 <= month <= 12
    &&& MIN_YEAR <= year <= MAX_YEAR
    &&& month == 12 ==> year < MAX_YEAR
}

/// The year in which the month after `month` of `year` lies.
pub open spec fn following_year(year: i32, month: u32) -> i32 {
    if month == 12 {
        (year + 1) as i32
    } else {
        year
    }
}

/// The month after `month`.
pub open spec fn following_month(month: u32) -> u32 {
    if month == 12 {
        1
    } else {
        (month + 1) as u32
    }
}

/// A calendar can be drawn exactly where the first day of the month and the
/// first day of the month after it both exist.
pub proof fn lemma_calendar_month(year: i32, month: u32)
    ensures
        calendar_month(year as int, month as int) <==> {
            &&& date_exists(year as int, month as int, 1)
            &&& date_exists(
                following_year(year, month) as int,
                following_month(month) as int,
                1,
            )
        },
{
}

/// The weekday of a date as `chrono` computes it, counted from Monday = 0.
pub uninterp spec fn days_from_monday(year: i32, month: u32, day: u32) -> u32;

/// The number of whole days from the second date to the first, as `chrono`
/// computes it.
pub uninterp spec fn days_between(
    year: i32,
    month: u32,
    day: u32,
    since_year: i32,
    since_month: u32,
    since_day: u32,
) -> i64;

/// The English name of a month, January being month 1.
pub open spec fn month_name_spec(month: u32) -> Seq<char> {
    if month == 1 {
        "January"@
    } else if month == 2 {
        "February"@
    } else if month == 3 {
        "March"@
    } else if month == 4 {
        "April"@
    } else if month == 5 {
        "May"@
    } else if month == 6 {
        "June"@
    } else if month == 7 {
        "July"@
    } else if month == 8 {
        "August"@
    } else if month == 9 {
        "September"@
    } else if month == 10 {
        "October"@
    } else if month == 11 {
        "November"@
    } else {
        "December"@
    }
}

/// The character of a decimal digit.
pub open spec fn digit_char(d: int) -> char {
    if d == 0 {
        '0'
    } else if d == 1 {
        '1'
    } else if d == 2 {
        '2'
    } else if d == 3 {
        '3'
    } else if d == 4 {
        '4'
    } else if d == 5 {
        '5'
    } else if d == 6 {
        '6'
    } else if d == 7 {
        '7'
    } else if d == 8 {
        '8'
    } else {
        '9'
    }
}

/// The decimal digits of a natural number, without leading zeros.
pub open spec fn digits(n: nat) -> Seq<char>
    decreases n,
{
    if n < 10 {
        seq![digit_char(n as int)]
    } else {
        digits(n / 10).push(digit_char((n % 10) as int))
    }
}

/// An integer written in decimal, with a minus sign if it is negative.
pub open spec fn decimal_text(n: int) -> Seq<char> {
    if n < 0 {
        seq!['-'] + digits((-n) as nat)
    } else {
        digits(n as nat)
    }
}

/// The contents of a list of strings.
pub open spec fn texts(v: Seq<String>) -> Seq<Seq<char>> {
    v.map_values(|s: String| s@)
}

/// The number of days that are shown: none where the count is not positive.
pub open spec fn shown_days(days: int) -> int {
    if days > 0 {
        days
    } else {
        0
    }
}

/// The number of cells of the grid: the blanks before the first day and the
/// days, rounded up to whole weeks.
pub open spec fn grid_len(offset: int, days: int) -> int {
    ((offset + shown_days(days) + 6) / 7) * 7
}

/// The cells of the grid, week after week: `offset` blanks, the days from 1
/// on, and blanks up to the end of the last week.
pub open spec fn grid_cells(offset: int, days: int) -> Seq<Seq<char>> {
    Seq::new(
        grid_len(offset, days) as nat,
        |k: int|
            if offset <= k < offset + shown_days(days) {
                decimal_text(k - offset + 1)
            } else {
                Seq::<char>::empty()
            },
    )
}

/// The grid holds whole weeks, and no more of them than the blanks before the
/// first day and the days need.
pub proof fn lemma_grid_is_whole_weeks(offset: int, days: int)
    requires
        0 <= offset,
    ensures
        grid_len(offset, days) % 7 == 0,
        offset + shown_days(days) <= grid_len(offset, days) < offset + shown_days(days) + 7,
        grid_cells(offset, days).len() == grid_len(offset, days),
{
}

/// A calendar has two lines above the weeks and one line for each week of
/// the grid.
pub proof fn lemma_line_count(year: int, month: u32, offset: int, days: int)
    requires
        0 <= offset,
    ensures
        month_lines(year, month, offset, days).len() == 2 + grid_len(offset, days) / 7,
{
}

/// A cell filled up with spaces on the right to three characters; a longer
/// cell is left as it is.
pub open spec fn padded(cell: Seq<char>) -> Seq<char> {
    if cell.len() >= 3 {
        cell
    } else {
        cell + Seq::new((3 - cell.len()) as nat, |i: int| ' ')
    }
}

/// The line of week `row`: its seven cells, padded, with bars between them.
pub open spec fn week_line(cells: Seq<Seq<char>>, row: int) -> Seq<char> {
    padded(cells[7 * row]) + " | "@ + padded(cells[7 * row + 1]) + " | "@ + padded(
        cells[7 * row + 2],
    ) + " | "@ + padded(cells[7 * row + 3]) + " | "@ + padded(cells[7 * row + 4]) + " | "@
        + padded(cells[7 * row + 5]) + " | "@ + padded(cells[7 * row + 6])
}

/// The first line: the month's name and the year.
pub open spec fn title_line(year: int, month: u32) -> Seq<char> {
    "Calendar for "@ + month_name_spec(month) + " "@ + decimal_text(year)
}

/// The second line: the weekday names, Monday first.
pub open spec fn header_line() -> Seq<char> {
    "Mon | Tue | Wed | Thu | Fri | Sat | Sun"@
}

/// All lines of the calendar of a month that starts `offset` days after a
/// Monday and has `days` days.
pub open spec fn month_lines(year: int, month: u32, offset: int, days: int) -> Seq<Seq<char>> {
    let cells = grid_cells(offset, days);
    seq![title_line(year, month), header_line()] + Seq::new(
        (cells.len() / 7) as nat,
        |row: int| week_line(cells, row),
    )
}

/// Calls `NaiveDate::from_ymd_opt`, then `Datelike::weekday` and
/// `Weekday::num_days_from_monday` on the date. Claimed: a result comes
/// exactly for the dates of the proleptic Gregorian calendar within
/// `chrono`'s range of years, and it is the weekday that `chrono` computes
/// for that date.
#[verifier::external_body]
fn weekday_index(year: i32, month: u32, day: u32) -> (index: Option<u32>)
    ensures
        index is Some <==> date_exists(year as int, month as int, day as int),
        index is Some ==> index == Some(days_from_monday(year, month, day)),
{
    match NaiveDate::from_ymd_opt(year, month, day) {
        Some(date) => Some(date.weekday().num_days_from_monday()),
        None => None,
    }
}

/// Calls `NaiveDate::from_ymd_opt` on both dates, then
/// `NaiveDate::signed_duration_since` and `TimeDelta::num_days`. Claimed: a
/// result comes exactly where both dates exist, and it is the number of days
/// that `chrono` computes between them.
#[verifier::external_body]
fn days_between_dates(
    year: i32,
    month: u32,
    day: u32,
    since_year: i32,
    since_month: u32,
    since_day: u32,
) -> (count: Option<i64>)
    ensures
        count is Some <==> both_exist(year, month, day, since_year, since_month, since_day),
        count is Some ==> count == Some(
            days_between(year, month, day, since_year, since_month, since_day),
        ),
{
    match (
        NaiveDate::from_ymd_opt(year, month, day),
        NaiveDate::from_ymd_opt(since_year, since_month, since_day),
    ) {
        (Some(date), Some(since)) => Some(date.signed_duration_since(since).num_days()),
        _ => None,
    }
}

/// Calls `Month::from_u32` (the `FromPrimitive` impl of `chrono`) and formats
/// the month with its derived `Debug`. Claimed: a name comes exactly for the
/// months 1 to 12, and it is the English name of the month.
#[verifier::external_body]
fn month_name(month: u32) -> (name: Option<String>)
    ensures
        name is Some <==> 1 <= month <= 12,
        name is Some ==> name.unwrap()@ == month_name_spec(month),
{
    match Month::from_u32(month) {
        Some(m) => Some(format!("{:?}", m)),
        None => None,
    }
}

/// Formats the seven `Weekday` values of `chrono` with their `Display`,
/// Monday first, with bars between them. Claimed: each is written as its
/// three-letter English abbreviation.
#[verifier::external_body]
fn weekday_header() -> (line: String)
    ensures
        line@ == header_line(),
{
    format!(
        "{} | {} | {} | {} | {} | {} | {}",
        Weekday::Mon,
        Weekday::Tue,
        Weekday::Wed,
        Weekday::Thu,
        Weekday::Fri,
        Weekday::Sat,
        Weekday::Sun
    )
}

/// Calls `i64::to_string`. Claimed: the result is the number in decimal,
/// without leading zeros, with a minus sign before a negative number.
#[verifier::external_body]
fn decimal_string(n: i64) -> (text: String)
    ensures
        text@ == decimal_text(n as int),
{
    n.to_string()
}

/// Whether a calendar can be drawn for this month.
pub fn is_calendar_month(year: i32, month: u32) -> (b: bool)
    ensures
        b == calendar_month(year as int, month as int),
{
    1 <= month && month <= 12 && MIN_YEAR <= year && year <= MAX_YEAR && (month != 12 || year
        < MAX_YEAR)
}

/// The number of days of a month: the days from its first day to the first
/// day of the month after it.
pub fn get_days_in_month(year: i32, month: u32) -> (days: i64)
    requires
        calendar_month(year as int, month as int),
    ensures
        days == days_between(following_year(year, month), following_month(month), 1, year, month, 1),
{
    let next_year: i32 = if month == 12 {
        year + 1
    } else {
        year
    };
    let next_month: u32 = if month == 12 {
        1
    } else {
        month + 1
    };
    match days_between_dates(next_year, next_month, 1, year, month, 1) {
        Some(days) => days,
        None => vstd::pervasive::unreached(),
    }
}

/// The cells of the grid of a month that starts `offset` days after a Monday
/// and has `days` days.
pub fn month_cells(offset: u32, days: i64) -> (cells: Vec<String>)
    ensures
        texts(cells@) == grid_cells(offset as int, days as int),
{
    let ghost goal = grid_cells(offset as int, days as int);
    let mut cells: Vec<String> = Vec::new();
    let mut blanks: u32 = 0;
    while blanks < offset
        invariant
            blanks <= offset,
            goal == grid_cells(offset as int, days as int),
            cells@.len() == blanks,
            forall|k: int| 0 <= k < cells@.len() ==> cells@[k]@ == goal[k],
        decreases offset - blanks,
    {
        cells.push(String::new());
        blanks += 1;
    }
    let mut day: i64 = 0;
    while day < days
        invariant
            0 <= day <= shown_days(days as int),
            goal == grid_cells(offset as int, days as int),
            cells@.len() == offset + day,
            forall|k: int| 0 <= k < cells@.len() ==> cells@[k]@ == goal[k],
        decreases days - day,
    {
        cells.push(decimal_string(day + 1));
        day += 1;
    }
    let filled: u64 = offset as u64 + day as u64;
    let fill: u64 = (7 - filled % 7) % 7;
    let mut added: u64 = 0;
    while added < fill
        invariant
            added <= fill,
            filled == offset + shown_days(days as int),
            filled + fill == grid_len(offset as int, days as int),
            goal == grid_cells(offset as int, days as int),
            cells@.len() == filled + added,
            forall|k: int| 0 <= k < cells@.len() ==> cells@[k]@ == goal[k],
        decreases fill - added,
    {
        cells.push(String::new());
        added += 1;
    }
    assert(texts(cells@) =~= goal);
    cells
}

/// A cell filled up with spaces to three characters.
fn padded_cell(cell: &String) -> (out: String)
    ensures
        out@ == padded(cell@),
{
    let width: usize = cell.as_str().unicode_len();
    let mut out = cell.clone();
    let mut n: usize = width;
    assert(out@ =~= cell@ + Seq::new(0, |i: int| ' '));
    while n < 3
        invariant
            width <= n,
            n <= 3 || n == width,
            width == cell@.len(),
            out@ == cell@ + Seq::new((n - width) as nat, |i: int| ' '),
        decreases 3 - n,
    {
        proof {
            reveal_strlit(" ");
        }
        out.append(" ");
        n += 1;
        assert(out@ =~= cell@ + Seq::new((n - width) as nat, |i: int| ' '));
    }
    out
}

/// The line of week `row` of the grid.
pub fn week_row(cells: &Vec<String>, row: usize) -> (line: String)
    requires
        7 * row + 6 < cells.len(),
    ensures
        line@ == week_line(texts(cells@), row as int),
{
    let first: usize = 7 * row;
    let mut line = padded_cell(&cells[first]);
    line.append(" | ");
    line.append(padded_cell(&cells[first + 1]).as_str());
    line.append(" | ");
    line.append(padded_cell(&cells[first + 2]).as_str());
    line.append(" | ");
    line.append(padded_cell(&cells[first + 3]).as_str());
    line.append(" | ");
    line.append(padded_cell(&cells[first + 4]).as_str());
    line.append(" | ");
    line.append(padded_cell(&cells[first + 5]).as_str());
    line.append(" | ");
    line.append(padded_cell(&cells[first + 6]).as_str());
    line
}

/// The lines of the calendar of a month, given the weekday on which it
/// starts (days after Monday) and the number of its days.
pub fn render_month(year: i32, month: u32, offset: u32, days: i64) -> (lines: Vec<String>)
    requires
        1 <= month <= 12,
    ensures
        texts(lines@) == month_lines(year as int, month, offset as int, days as int),
{
    let ghost goal = month_lines(year as int, month, offset as int, days as int);
    let mut title = String::from_str("Calendar for ");
    match month_name(month) {
        Some(name) => title.append(name.as_str()),
        None => vstd::pervasive::unreached(),
    }
    title.append(" ");
    title.append(decimal_string(year as i64).as_str());
    let mut lines: Vec<String> = Vec::new();
    lines.push(title);
    lines.push(weekday_header());
    let cells = month_cells(offset, days);
    let weeks: usize = cells.len() / 7;
    let mut row: usize = 0;
    while row < weeks
        invariant
            row <= weeks,
            weeks == cells@.len() / 7,
            texts(cells@) == grid_cells(offset as int, days as int),
            goal == month_lines(year as int, month, offset as int, days as int),
            lines@.len() == 2 + row,
            forall|k: int| 0 <= k < lines@.len() ==> lines@[k]@ == goal[k],
        decreases weeks - row,
    {
        lines.push(week_row(&cells, row));
        row += 1;
    }
    assert(texts(lines@) =~= goal);
    lines
}

/// The lines of the calendar of a month: the title, the weekday names, and
/// the weeks.
pub fn calendar(year: i32, month: u32) -> (lines: Vec<String>)
    requires
        calendar_month(year as int, month as int),
    ensures
        texts(lines@) == month_lines(
            year as int,
            month,
            days_from_monday(year, month, 1) as int,
            days_between(
                following_year(year, month),
                following_month(month),
                1,
                year,
                month,
                1,
            ) as int,
        ),
{
    let offset: u32 = match weekday_index(year, month, 1) {
        Some(index) => index,
        None => vstd::pervasive::unreached(),
    };
    let days = get_days_in_month(year, month);
    render_month(year, month, offset, days)
}

} // verus!
