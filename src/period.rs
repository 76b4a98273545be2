use chrono::Datelike;
use vstd::prelude::*;

use crate::error::ExtractError;
use crate::roster::option_view;

verus! {

/// The character between the two dates of the heading.
pub const WINDOW_SEPARATOR: char = '\u{FF5E}';

/// The month/day part of each side of the window.
pub const MONTH_DAY_PATTERN: &'static str = "\\d+/\\d+";

/// How a year and a month/day are read together.
pub const DATE_INPUT_FORMAT: &'static str = "%Y/%m/%d";

/// How each end of the window is written out.
pub const DATE_OUTPUT_FORMAT: &'static str = "%Y%m%d";

/// Offset of the campaign's time zone east of UTC, in seconds.
pub const CAMPAIGN_UTC_OFFSET_SECS: i32 = 9 * 3600;

pub const MIN_CALENDAR_YEAR: i32 = -262143;

pub const MAX_CALENDAR_YEAR: i32 = 262142;

/// A day of the proleptic Gregorian calendar.
#[derive(Clone, Copy, Debug, PartialEq, Eq, Structural)]
pub struct CalendarDate {
    pub year: i32,
    pub month: u32,
    pub day: u32,
}

pub open spec fn is_leap_year(y: int) -> bool {
    y % 4 == 0 && (y % 100 != 0 || y % 400 == 0)
}

pub open spec fn days_in_month(y: int, m: int) -> int {
    if m == 2 {
        if is_leap_year(y) {
            29
        } else {
            28
        }
    } else if m == 4 || m == 6 || m == 9 || m == 11 {
        30
    } else {
        31
    }
}

impl CalendarDate {
    /// The fields name a real day within the representable years.
    pub open spec fn wf(&self) -> bool {
        MIN_CALENDAR_YEAR <= self.year <= MAX_CALENDAR_YEAR && 1 <= self.month <= 12 && 1
            <= self.day <= days_in_month(self.year as int, self.month as int)
    }
}

pub open spec fn digit_char(d: int) -> char {
    if d == 0 {
        '0'
    } else if d == 1 {
        '1'
    } else if d == 2 {
        '2'
    } else if d == 3 {
        '3'
    } else if d == 4 {
        '4'
    } else if d == 5 {
        '5'
    } else if d == 6 {
        '6'
    } else if d == 7 {
        '7'
    } else if d == 8 {
        '8'
    } else {
        '9'
    }
}

pub open spec fn is_digit(c: char) -> bool {
    '0' <= c <= '9'
}

/// `n` written in decimal without leading zeros.
pub open spec fn decimal(n: nat) -> Seq<char>
    decreases n,
{
    if n < 10 {
        seq![digit_char(n as int)]
    } else {
        decimal(n / 10) + seq![digit_char((n % 10) as int)]
    }
}

/// The last `width` decimal digits of `n`, zero-padded.
pub open spec fn padded(n: nat, width: nat) -> Seq<char>
    decreases width,
{
    if width == 0 {
        Seq::empty()
    } else {
        padded(n / 10, (width - 1) as nat) + seq![digit_char((n % 10) as int)]
    }
}

/// A date written as eight digits: year, month, day.
pub open spec fn compact_date(y: int, m: int, d: int) -> Seq<char> {
    padded(y as nat, 4) + padded(m as nat, 2) + padded(d as nat, 2)
}

/// What `regex::Regex::new(pattern)` followed by `find(hay)` yields as text.
pub uninterp spec fn pattern_match(pattern: Seq<char>, hay: Seq<char>) -> Option<Seq<char>>;

/// What `chrono::NaiveDate::parse_from_str(text, fmt)` yields, as year, month, day.
pub uninterp spec fn parsed_date(text: Seq<char>, fmt: Seq<char>) -> Option<(int, int, int)>;

/// What chrono writes for a date under the output format.
pub uninterp spec fn formatted_date(y: int, m: int, d: int) -> Seq<char>;

/// Relies on regex::Regex::new and Regex::find: the text of the leftmost match
/// of `pattern` in `hay`, or `None` where there is none or the pattern does not
/// compile. The outcome depends on the two texts alone.
#[verifier::external_body]
fn first_match(pattern: &str, hay: &str) -> (r: Option<String>)
    ensures
        option_view(r) == pattern_match(pattern@, hay@),
{
    match regex::Regex::new(pattern) {
        Ok(re) => re.find(hay).map(|m| m.as_str().to_string()),
        Err(_) => None,
    }
}

/// Relies on chrono::NaiveDate::parse_from_str: the date that `text` spells
/// under `fmt`. A `NaiveDate` is always a real day within chrono's years.
/// Under `%Y/%m/%d`, chrono reads an unsigned `%Y` as at most four digits, so
/// a year written in decimal before the first `/` comes back as itself (a
/// longer one leaves a digit where the `/` is due, and the parse fails).
#[verifier::external_body]
fn parse_date(text: &str, fmt: &str) -> (r: Option<CalendarDate>)
    ensures
        match r {
            Some(d) => d.wf() && parsed_date(text@, fmt@) == Some(
                (d.year as int, d.month as int, d.day as int),
            ),
            None => parsed_date(text@, fmt@) is None,
        },
        forall|y: nat, md: Seq<char>|
            text@ == #[trigger] dated_text(y, md) && fmt@ == DATE_INPUT_FORMAT@ ==> (r matches Some(
                d,
            ) ==> d.year as int == y),
{
    match chrono::NaiveDate::parse_from_str(text, fmt) {
        Ok(d) => Some(CalendarDate { year: d.year(), month: d.month(), day: d.day() }),
        Err(_) => None,
    }
}

/// Relies on chrono::NaiveDate::from_ymd_opt and NaiveDate::format with
/// `%Y%m%d`: chrono documents `%Y` as the year zero-padded to four digits (a
/// sign is added only outside 0 to 9999), `%m` and `%d` as zero-padded to two.
#[verifier::external_body]
fn format_date(date: &CalendarDate, fmt: &str) -> (r: String)
    requires
        date.wf(),
        fmt@ == DATE_OUTPUT_FORMAT@,
    ensures
        r@ == formatted_date(date.year as int, date.month as int, date.day as int),
        0 <= date.year <= 9999 ==> r@ == compact_date(
            date.year as int,
            date.month as int,
            date.day as int,
        ),
{
    chrono::NaiveDate::from_ymd_opt(date.year, date.month, date.day).unwrap().format(fmt).to_string()
}

/// Relies on chrono::Utc::now, seen at a fixed offset east of UTC: the
/// calendar year there at the moment of the call. The UTC time lies within
/// chrono's years; the offset moves it by less than a day, so at most one
/// year past either end.
#[verifier::external_body]
fn year_now(east_secs: i32) -> (r: i32)
    requires
        -86400 < east_secs < 86400,
    ensures
        MIN_CALENDAR_YEAR - 1 <= r <= MAX_CALENDAR_YEAR + 1,
{
    chrono::Utc::now().with_timezone(&chrono::FixedOffset::east_opt(east_secs).unwrap()).year()
}

/// A calendar year as a year to read headings in; `None` before year 0.
pub fn year_from(y: i32) -> (r: Option<u32>)
    ensures
        y >= 0 ==> r == Some(y as u32),
        y < 0 ==> r is None,
{
    if y >= 0 {
        Some(y as u32)
    } else {
        None
    }
}

/// The current year in the campaign's time zone, the year that a heading's
/// dates are read in by default; `None` before year 0.
pub fn resolution_year() -> (r: Option<u32>)
    ensures
        r matches Some(y) ==> y <= MAX_CALENDAR_YEAR + 1,
{
    year_from(year_now(CAMPAIGN_UTC_OFFSET_SECS))
}

/// The whitespace that separates the heading's first word from the rest.
pub open spec fn is_ascii_space(c: char) -> bool {
    c == ' ' || c == '\t' || c == '\n' || c == '\x0C' || c == '\r'
}

/// The first position at or after `i` that holds no whitespace.
pub open spec fn skip_space_from(s: Seq<char>, i: int) -> int
    decreases s.len() - i,
{
    if 0 <= i < s.len() && is_ascii_space(s[i]) {
        skip_space_from(s, i + 1)
    } else {
        i
    }
}

/// The first position at or after `i` that holds whitespace, or the end.
pub open spec fn word_end_from(s: Seq<char>, i: int) -> int
    decreases s.len() - i,
{
    if 0 <= i < s.len() && !is_ascii_space(s[i]) {
        word_end_from(s, i + 1)
    } else {
        i
    }
}

/// The first whitespace-delimited word of `s`; empty where `s` has none.
pub open spec fn first_word(s: Seq<char>) -> Seq<char> {
    let a = skip_space_from(s, 0);
    s.subrange(a, word_end_from(s, a))
}

/// The first position at or after `i` that holds `c`.
pub open spec fn find_char_from(s: Seq<char>, c: char, i: int) -> Option<int>
    decreases s.len() - i,
{
    if i < 0 || i >= s.len() {
        None
    } else if s[i] == c {
        Some(i)
    } else {
        find_char_from(s, c, i + 1)
    }
}

/// The two sides of a window, where `token` holds the separator exactly once.
pub open spec fn window_sides(token: Seq<char>) -> Option<(Seq<char>, Seq<char>)> {
    match find_char_from(token, WINDOW_SEPARATOR, 0) {
        None => None,
        Some(p) => if find_char_from(token, WINDOW_SEPARATOR, p + 1) is Some {
            None
        } else {
            Some((token.subrange(0, p), token.subrange(p + 1, token.len() as int)))
        },
    }
}

/// The text that one side's month/day is read from, in `year`.
pub open spec fn dated_text(year: nat, month_day: Seq<char>) -> Seq<char> {
    decimal(year) + seq!['/'] + month_day
}

/// One end of the window, as written out, or `None` where the side holds no
/// readable date.
pub open spec fn window_end(side: Seq<char>, year: nat) -> Option<Seq<char>> {
    match pattern_match(MONTH_DAY_PATTERN@, side) {
        None => None,
        Some(md) => match parsed_date(dated_text(year, md), DATE_INPUT_FORMAT@) {
            None => None,
            Some((y, m, d)) => Some(formatted_date(y, m, d)),
        },
    }
}

/// Eight decimal digits.
pub open spec fn is_eight_digits(s: Seq<char>) -> bool {
    s.len() == 8 && forall|i: int| 0 <= i < 8 ==> is_digit(#[trigger] s[i])
}

/// Eight digits, `-`, eight digits.
pub open spec fn is_period_shape(s: Seq<char>) -> bool {
    s.len() == 17 && s[8] == '-' && is_eight_digits(s.subrange(0, 8)) && is_eight_digits(
        s.subrange(9, 17),
    )
}

/// Zero-padding to `width` digits gives exactly `width` decimal digits.
pub proof fn lemma_padded_digits(n: nat, width: nat)
    ensures
        padded(n, width).len() == width,
        forall|i: int| 0 <= i < width ==> is_digit(#[trigger] padded(n, width)[i]),
    decreases width,
{
    if width > 0 {
        lemma_padded_digits(n / 10, (width - 1) as nat);
        let d = (n % 10) as int;
        assert(is_digit(digit_char(d)));
        let p = padded(n, width);
        assert forall|i: int| 0 <= i < width implies is_digit(#[trigger] p[i]) by {
            if i < width - 1 {
                assert(p[i] == padded(n / 10, (width - 1) as nat)[i]);
            }
        };
    }
}

/// A written-out date is eight digits.
pub proof fn lemma_compact_date_digits(y: int, m: int, d: int)
    ensures
        is_eight_digits(compact_date(y, m, d)),
{
    lemma_padded_digits(y as nat, 4);
    lemma_padded_digits(m as nat, 2);
    lemma_padded_digits(d as nat, 2);
    let s = compact_date(y, m, d);
    assert forall|i: int| 0 <= i < 8 implies is_digit(#[trigger] s[i]) by {
        if i < 4 {
            assert(s[i] == padded(y as nat, 4)[i]);
        } else if i < 6 {
            assert(s[i] == padded(m as nat, 2)[i - 4]);
        } else {
            assert(s[i] == padded(d as nat, 2)[i - 6]);
        }
    };
}

/// The normalized window `start-end` that a heading gives in `year`.
pub open spec fn period_of(heading: Seq<char>, year: nat) -> Result<Seq<char>, ExtractError> {
    match window_sides(first_word(heading)) {
        None => Err(ExtractError::DateParseError),
        Some((l, r)) => match (window_end(l, year), window_end(r, year)) {
            (Some(a), Some(b)) => Ok(a + seq!['-'] + b),
            _ => Err(ExtractError::DateParseError),
        },
    }
}

/// The text of one decimal digit.
fn digit_text(d: u32) -> (r: String)
    requires
        d < 10,
    ensures
        r@ == seq![digit_char(d as int)],
{
    proof {
        reveal_strlit("0");
        reveal_strlit("1");
        reveal_strlit("2");
        reveal_strlit("3");
        reveal_strlit("4");
        reveal_strlit("5");
        reveal_strlit("6");
        reveal_strlit("7");
        reveal_strlit("8");
        reveal_strlit("9");
    }
    let r = if d == 0 {
        String::from_str("0")
    } else if d == 1 {
        String::from_str("1")
    } else if d == 2 {
        String::from_str("2")
    } else if d == 3 {
        String::from_str("3")
    } else if d == 4 {
        String::from_str("4")
    } else if d == 5 {
        String::from_str("5")
    } else if d == 6 {
        String::from_str("6")
    } else if d == 7 {
        String::from_str("7")
    } else if d == 8 {
        String::from_str("8")
    } else {
        String::from_str("9")
    };
    assert(r@ =~= seq![digit_char(d as int)]);
    r
}

/// `n` written in decimal.
pub fn decimal_text(n: u32) -> (r: String)
    ensures
        r@ == decimal(n as nat),
    decreases n,
{
    if n < 10 {
        digit_text(n)
    } else {
        let mut s = decimal_text(n / 10);
        let last = digit_text(n % 10);
        s.append(last.as_str());
        s
    }
}

/// The first whitespace-delimited word of a heading.
pub fn first_word_of(s: &str) -> (r: &str)
    ensures
        r@ == first_word(s@),
{
    let n = s.unicode_len();
    let mut a: usize = 0;
    while a < n && is_space(s.get_char(a))
        invariant
            n == s@.len(),
            a <= n,
            skip_space_from(s@, a as int) == skip_space_from(s@, 0),
        decreases n - a,
    {
        a = a + 1;
    }
    let mut b: usize = a;
    while b < n && !is_space(s.get_char(b))
        invariant
            n == s@.len(),
            a <= b <= n,
            a == skip_space_from(s@, 0),
            word_end_from(s@, b as int) == word_end_from(s@, a as int),
        decreases n - b,
    {
        b = b + 1;
    }
    s.substring_char(a, b)
}

fn is_space(c: char) -> (r: bool)
    ensures
        r == is_ascii_space(c),
{
    c == ' ' || c == '\t' || c == '\n' || c == '\x0C' || c == '\r'
}

fn find_separator(s: &str, from: usize) -> (r: Option<usize>)
    requires
        from <= s@.len(),
    ensures
        match r {
            Some(p) => p < s@.len() && find_char_from(s@, WINDOW_SEPARATOR, from as int) == Some(
                p as int,
            ),
            None => find_char_from(s@, WINDOW_SEPARATOR, from as int) is None,
        },
{
    let n = s.unicode_len();
    let mut i: usize = from;
    while i < n
        invariant
            n == s@.len(),
            from <= i <= n,
            find_char_from(s@, WINDOW_SEPARATOR, i as int) == find_char_from(
                s@,
                WINDOW_SEPARATOR,
                from as int,
            ),
        decreases n - i,
    {
        if s.get_char(i) == WINDOW_SEPARATOR {
            return Some(i);
        }
        i = i + 1;
    }
    None
}

/// Splits a window token at its one separator.
pub fn split_window(token: &str) -> (r: Option<(String, String)>)
    ensures
        match (r, window_sides(token@)) {
            (Some((a, b)), Some((x, y))) => a@ == x && b@ == y,
            (None, None) => true,
            _ => false,
        },
{
    let n = token.unicode_len();
    match find_separator(token, 0) {
        None => None,
        Some(p) => {
            if find_separator(token, p + 1).is_some() {
                None
            } else {
                let left = String::from_str(token.substring_char(0, p));
                let right = String::from_str(token.substring_char(p + 1, n));
                Some((left, right))
            }
        },
    }
}

/// The text that a month/day is read from in `year`: `year/month_day`.
pub fn dated_text_of(year: u32, month_day: &str) -> (r: String)
    ensures
        r@ == dated_text(year as nat, month_day@),
{
    proof {
        reveal_strlit("/");
    }
    let mut s = decimal_text(year);
    s.append("/");
    s.append(month_day);
    assert(s@ =~= dated_text(year as nat, month_day@));
    s
}

/// Reads one side of the window in `year` and writes it out as eight digits.
pub fn resolve_window_end(side: &str, year: u32) -> (r: Result<String, ExtractError>)
    ensures
        match (r, window_end(side@, year as nat)) {
            (Ok(a), Some(b)) => a@ == b,
            (Err(e), None) => e == ExtractError::DateParseError,
            _ => false,
        },
        r is Ok && year <= 9999 ==> is_eight_digits(r->Ok_0@) && r->Ok_0@.subrange(0, 4)
            == padded(year as nat, 4),
{
    let md = match first_match(MONTH_DAY_PATTERN, side) {
        Some(m) => m,
        None => {
            return Err(ExtractError::DateParseError);
        },
    };
    let text = dated_text_of(year, md.as_str());
    let date = match parse_date(text.as_str(), DATE_INPUT_FORMAT) {
        Some(d) => d,
        None => {
            return Err(ExtractError::DateParseError);
        },
    };
    assert(text@ == dated_text(year as nat, md@));
    let out = format_date(&date, DATE_OUTPUT_FORMAT);
    proof {
        lemma_compact_date_digits(date.year as int, date.month as int, date.day as int);
        lemma_padded_digits(date.year as nat, 4);
        lemma_padded_digits(date.month as nat, 2);
        if year <= 9999 {
            assert(out@.subrange(0, 4) =~= padded(year as nat, 4));
        }
    }
    Ok(out)
}

/// Reads the campaign window from the heading's text, both dates in `year`:
/// the first word of the heading is split at the separator, and each side's
/// month/day is read and written out as `YYYYMMDD`, joined by `-`. Both ends
/// carry `year` even where the window runs across the end of a year.
pub fn resolve_period(heading: &str, year: u32) -> (r: Result<String, ExtractError>)
    ensures
        match (r, period_of(heading@, year as nat)) {
            (Ok(a), Ok(b)) => a@ == b,
            (Err(e), Err(f)) => e == f,
            _ => false,
        },
        r is Ok && year <= 9999 ==> is_period_shape(r->Ok_0@) && r->Ok_0@.subrange(0, 4)
            == padded(year as nat, 4) && r->Ok_0@.subrange(9, 13) == padded(year as nat, 4),
{
    let token = first_word_of(heading);
    let (left, right) = match split_window(token) {
        Some(sides) => sides,
        None => {
            return Err(ExtractError::DateParseError);
        },
    };
    let start = resolve_window_end(left.as_str(), year);
    let end = resolve_window_end(right.as_str(), year);
    match (start, end) {
        (Ok(mut a), Ok(b)) => {
            let ghost start_text = a@;
            proof {
                reveal_strlit("-");
            }
            a.append("-");
            a.append(b.as_str());
            assert(a@ =~= period_of(heading@, year as nat)->Ok_0);
            assert(year <= 9999 ==> a@.subrange(0, 8) =~= start_text && a@.subrange(9, 17)
                =~= b@);
            assert(year <= 9999 ==> a@.subrange(0, 4) =~= start_text.subrange(0, 4)
                && a@.subrange(9, 13) =~= b@.subrange(0, 4));
            Ok(a)
        },
        _ => Err(ExtractError::DateParseError),
    }
}

} // verus!
