//! The records that the notifier keeps about feeds and livestreams, and the
//! reading of a video's page.

use crate::clock::{read_utc, representable};
use crate::text::{chars_of, decimal_value, is_digit, occurs_at, stands_at};
use vstd::prelude::*;

pub mod models;

verus! {

/// What stands before the scheduled start in the page of a video.
pub const START_MARKER: &'static str = "\"scheduledStartTime\":\"";

/// Why the page of a video gives no scheduled start.
#[derive(Clone, Copy, Debug, PartialEq, Eq, Structural)]
pub enum ScrapeError {
    /// The page names no scheduled start.
    NoTimestamp,
    /// The number that the page gives is no instant that the calendar can
    /// hold.
    OutOfRange,
}

/// Whether the marker and a digit stand at `i`.
pub open spec fn start_at(page: Seq<char>, i: int) -> bool {
    occurs_at(page, START_MARKER@, i) && i + START_MARKER@.len() < page.len() && is_digit(
        page[i + START_MARKER@.len()],
    )
}

/// Whether `i` is the first place at which the marker and a digit stand.
pub open spec fn first_start_at(page: Seq<char>, i: int) -> bool {
    start_at(page, i) && forall|j: int| 0 <= j < i ==> !start_at(page, j)
}

/// Whether the characters from `from` up to `end` are digits, and `end` is
/// where the page ends or something other than a digit stands.
pub open spec fn digits_until(page: Seq<char>, from: int, end: int) -> bool {
    &&& 0 <= from <= end <= page.len()
    &&& forall|k: int| from <= k < end ==> is_digit(#[trigger] page[k])
    &&& end == page.len() || !is_digit(page[end])
}

/// Whether the first scheduled start of the page is written from `from` up
/// to `end`.
pub open spec fn start_written(page: Seq<char>, from: int, end: int) -> bool {
    first_start_at(page, from - START_MARKER@.len()) && digits_until(page, from, end)
}

/// Whether `r` is what the page comes to: the instant that follows the
/// first marker, in seconds since the epoch, where the calendar can hold it.
pub open spec fn scraped(page: Seq<char>, r: Result<i64, ScrapeError>) -> bool {
    match r {
        Ok(secs) => representable(secs) && exists|from: int, end: int| #[trigger]
            start_written(page, from, end) && decimal_value(page.subrange(from, end)) == secs,
        Err(ScrapeError::NoTimestamp) => forall|i: int| !start_at(page, i),
        Err(ScrapeError::OutOfRange) => exists|from: int, end: int| #[trigger]
            start_written(page, from, end) && (decimal_value(page.subrange(from, end)) > i64::MAX
                || !representable(decimal_value(page.subrange(from, end)) as i64)),
    }
}

/// The reader of a video's page.
pub struct Scraper {}

impl Scraper {
    /// A reader.
    pub fn new() -> Self {
        Scraper {  }
    }

    /// The scheduled start that the page of a video names: the decimal
    /// number that follows the first `"scheduledStartTime":"` with a digit
    /// behind it, as seconds since the epoch.
    pub fn get_stream_dt(&self, page: &str) -> (r: Result<i64, ScrapeError>)
        ensures
            scraped(page@, r),
    {
        let chars = chars_of(page);
        let marker = chars_of(START_MARKER);
        let n: usize = chars.len();
        let m: usize = marker.len();
        let mut i: usize = 0;
        while i < n
            invariant
                n == chars@.len(),
                m == marker@.len(),
                chars@ == page@,
                marker@ == START_MARKER@,
                forall|j: int| 0 <= j < i ==> !start_at(page@, j),
            decreases n - i,
        {
            if stands_at(&chars, &marker, i) && n - i > m && is_ascii_digit(chars[i + m]) {
                assert(first_start_at(page@, i as int));
                return read_start(&chars, i + m, Ghost(page@));
            }
            i += 1;
        }
        Err(ScrapeError::NoTimestamp)
    }
}

/// Whether `c` is one of the digits `0` to `9`.
fn is_ascii_digit(c: char) -> (r: bool)
    ensures
        r == is_digit(c),
{
    '0' <= c && c <= '9'
}

/// Reads the number whose first digit stands at `from`.
fn read_start(chars: &Vec<char>, from: usize, Ghost(page): Ghost<Seq<char>>) -> (r: Result<
    i64,
    ScrapeError,
>)
    requires
        chars@ == page,
        first_start_at(page, from - START_MARKER@.len()),
        from < chars@.len(),
    ensures
        scraped(page, r),
        r != Err::<i64, ScrapeError>(ScrapeError::NoTimestamp),
{
    let n: usize = chars.len();
    let mut end: usize = from;
    let mut value: i64 = 0;
    let mut fits: bool = true;
    while end < n && is_ascii_digit(chars[end])
        invariant
            n == chars@.len(),
            chars@ == page,
            from <= end <= n,
            forall|k: int| from <= k < end ==> is_digit(#[trigger] page[k]),
            fits ==> value == decimal_value(page.subrange(from as int, end as int)),
            !fits ==> decimal_value(page.subrange(from as int, end as int)) > i64::MAX,
            0 <= value,
        decreases n - end,
    {
        let c = chars[end];
        let d: i64 = (c as u32 - '0' as u32) as i64;
        proof {
            let longer = page.subrange(from as int, end + 1);
            assert(longer.drop_last() =~= page.subrange(from as int, end as int));
            assert(longer.last() == c);
        }
        if fits && value <= (i64::MAX - d) / 10 {
            value = value * 10 + d;
        } else {
            fits = false;
        }
        end += 1;
    }
    assert(digits_until(page, from as int, end as int));
    assert(start_written(page, from as int, end as int));
    if !fits {
        return Err(ScrapeError::OutOfRange);
    }
    match read_utc(value) {
        Some(_) => Ok(value),
        None => Err(ScrapeError::OutOfRange),
    }
}

} // verus!
