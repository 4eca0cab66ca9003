//! Where the page cache keeps its files: one directory per calendar day under
//! the user's cache directory, one `cache.db` index in it, and one
//! `<base64url(url)>.html` file per cached page.

use base64::Engine;
use vstd::prelude::*;
use crate::encoding::{base64_url_no_pad, is_url_safe_base64_char, lemma_base64_alphabet};
use crate::path::{is_plain_name, join_path, joined};
use vstd::string::StringExecFns;
use vstd::string::StringSliceAdditionalSpecFns;

verus! {

/// The text that `NaiveDate`'s `Display` gives for a date, `None` where
/// `NaiveDate::from_ymd_opt` refuses the year, month and day.
pub uninterp spec fn naive_date_text(year: i32, month: u32, day: u32) -> Option<Seq<char>>;

/// A leap year of the proleptic Gregorian calendar.
pub open spec fn is_leap_year(year: int) -> bool {
    year % 4 == 0 && (year % 100 != 0 || year % 400 == 0)
}

/// The number of days of `month` (1 to 12) in `year`.
pub open spec fn days_in_month(year: int, month: int) -> int {
    if month == 2 {
        if is_leap_year(year) { 29 } else { 28 }
    } else if month == 4 || month == 6 || month == 9 || month == 11 {
        30
    } else {
        31
    }
}

/// A day that exists in the proleptic Gregorian calendar.
pub open spec fn is_calendar_date(year: int, month: int, day: int) -> bool {
    1 <= month <= 12 && 1 <= day <= days_in_month(year, month)
}

/// The character of the decimal digit `d` (0 to 9).
pub open spec fn digit_char(d: int) -> char {
    (('0' as u32) + d) as char
}

/// `n` (0 to 99) written with two digits.
pub open spec fn two_digits(n: int) -> Seq<char> {
    seq![digit_char(n / 10), digit_char(n % 10)]
}

/// The decimal digits of `n`.
pub open spec fn decimal(n: nat) -> Seq<char>
    decreases n,
{
    if n < 10 {
        seq![digit_char(n as int)]
    } else {
        decimal(n / 10).push(digit_char((n % 10) as int))
    }
}

/// The decimal digits of `n`, with zeros in front up to four digits.
pub open spec fn four_or_more_digits(n: nat) -> Seq<char> {
    let d = decimal(n);
    Seq::new(if d.len() < 4 { (4 - d.len()) as nat } else { 0 }, |i: int| '0') + d
}

/// The first year and the last year that chrono's `NaiveDate` holds.
pub open spec fn first_year() -> int {
    -262143
}

pub open spec fn last_year() -> int {
    262142
}

/// A year outside 0 to 9999 as ISO 8601 writes it: always a sign, then at
/// least four digits (`{:+05}`).
pub open spec fn signed_year(year: int) -> Seq<char> {
    (if year < 0 { seq!['-'] } else { seq!['+'] }) + four_or_more_digits((if year < 0 { -year } else { year }) as nat)
}

/// A date with a year outside 0 to 9999: the signed year, then `-MM-DD`.
pub open spec fn extended_iso_date(year: int, month: int, day: int) -> Seq<char> {
    signed_year(year) + seq!['-'] + two_digits(month) + seq!['-'] + two_digits(day)
}

/// `year-month-day`, the year with four digits and the others with two.
pub open spec fn iso_date(year: int, month: int, day: int) -> Seq<char> {
    two_digits(year / 100) + two_digits(year % 100) + seq!['-'] + two_digits(month) + seq!['-']
        + two_digits(day)
}

/// `chrono::NaiveDate::from_ymd_opt` and the date's `Display`. The contract
/// claims that the result is the named text; that there is a text exactly
/// for days that exist in the years chrono holds (`MIN_YEAR` to `MAX_YEAR`,
/// -262143 to 262142); and that it is written `YYYY-MM-DD` for years 0 to
/// 9999 and with a sign and at least four year digits otherwise (the
/// `Debug` form that `Display` uses).
#[verifier::external_body]
fn naive_date_display(year: i32, month: u32, day: u32) -> (r: Option<String>)
    ensures
        match r {
            Some(s) => naive_date_text(year, month, day) == Some(s@),
            None => naive_date_text(year, month, day) is None,
        },
        first_year() <= year <= last_year() ==> (r is Some <==> is_calendar_date(year as int, month as int, day as int)),
        !(first_year() <= year <= last_year()) ==> r is None,
        0 <= year <= 9999 && r is Some ==> r->Some_0@ == iso_date(year as int, month as int, day as int),
        !(0 <= year <= 9999) && r is Some ==> r->Some_0@ == extended_iso_date(year as int, month as int, day as int),
{
    chrono::NaiveDate::from_ymd_opt(year, month, day).map(|d| d.to_string())
}

/// `base64::engine::general_purpose::URL_SAFE_NO_PAD.encode` on the UTF-8
/// bytes of `s`. The contract claims that the result is the RFC 4648
/// URL-safe encoding of those bytes without padding, which is what that
/// engine is configured for. The engine panics when the encoded length
/// overflows `usize`; the bound in `requires` rules that out.
#[verifier::external_body]
fn encode_base64_url(s: &str) -> (r: String)
    requires
        s.spec_bytes().len() <= usize::MAX / 2,
    ensures
        r@ == base64_url_no_pad(s.spec_bytes()),
{
    base64::engine::general_purpose::URL_SAFE_NO_PAD.encode(s)
}

/// The directory, under the user's cache directory, that holds all days.
pub open spec fn cache_root(sep: char, base_cache_dir: Seq<char>) -> Seq<char> {
    joined(sep, base_cache_dir, "web-content-extract"@)
}

/// The directory of one day's cache.
pub open spec fn day_dir(sep: char, base_cache_dir: Seq<char>, today: Seq<char>) -> Seq<char> {
    joined(sep, cache_root(sep, base_cache_dir), today)
}

/// The file that caches the page of `url` fetched on the day `today`.
pub open spec fn page_file_path(sep: char, base_cache_dir: Seq<char>, today: Seq<char>, url: &str) -> Seq<char> {
    joined(sep, day_dir(sep, base_cache_dir, today), page_file_name(url))
}

/// The name of the file that caches the page of `url`.
pub open spec fn page_file_name(url: &str) -> Seq<char> {
    base64_url_no_pad(url.spec_bytes()) + ".html"@
}

/// The text of today's date, `YYYY-MM-DD`, or `None` for a day that does not
/// exist. The caller reads the calendar date from the clock.
pub fn today_text(year: i32, month: u32, day: u32) -> (r: Option<String>)
    ensures
        match r {
            Some(s) => naive_date_text(year, month, day) == Some(s@),
            None => naive_date_text(year, month, day) is None,
        },
        first_year() <= year <= last_year() ==> (r is Some <==> is_calendar_date(year as int, month as int, day as int)),
        !(first_year() <= year <= last_year()) ==> r is None,
        0 <= year <= 9999 && r is Some ==> r->Some_0@ == iso_date(year as int, month as int, day as int),
        !(0 <= year <= 9999) && r is Some ==> r->Some_0@ == extended_iso_date(year as int, month as int, day as int),
{
    naive_date_display(year, month, day)
}

/// The directory that holds today's cache: `<base>/web-content-extract/<today>`,
/// joined with the platform's main separator `sep`. The day's text is a
/// plain name, as a date is.
pub fn cache_dir_for_today(base_cache_dir: &str, today: &str, sep: char) -> (r: String)
    requires
        sep == '/' || sep == '\\',
        is_plain_name(today@),
    ensures
        r@ == day_dir(sep, base_cache_dir@, today@),
{
    proof {
        lemma_cache_names_plain();
    }
    let root = join_path(base_cache_dir, "web-content-extract", sep);
    join_path(root.as_str(), today, sep)
}

/// The fixed names of the cache layout are plain names.
proof fn lemma_cache_names_plain()
    ensures
        is_plain_name("web-content-extract"@),
        is_plain_name("cache.db"@),
{
    reveal_strlit("web-content-extract");
    reveal_strlit("cache.db");
    assert("web-content-extract"@ != seq!['.'] && "web-content-extract"@ != seq!['.', '.']) by {
        assert("web-content-extract"@.len() != 1 && "web-content-extract"@.len() != 2);
    }
    assert("cache.db"@ != seq!['.'] && "cache.db"@ != seq!['.', '.']) by {
        assert("cache.db"@.len() != 1 && "cache.db"@.len() != 2);
    }
}

/// The index database of a day's cache directory.
pub fn cache_db_path(dir: &str, sep: char) -> (r: String)
    requires
        sep == '/' || sep == '\\',
    ensures
        r@ == joined(sep, dir@, "cache.db"@),
{
    proof {
        lemma_cache_names_plain();
    }
    join_path(dir, "cache.db", sep)
}

/// The file name under which the page of `url` is cached.
pub fn cache_file_name(url: &str) -> (r: String)
    requires
        url.spec_bytes().len() <= usize::MAX / 2,
    ensures
        r@ == page_file_name(url),
        forall|i: int| 0 <= i < r@.len() - 5 ==> is_url_safe_base64_char(#[trigger] r@[i]),
        forall|i: int| 0 <= i < r@.len() ==> #[trigger] r@[i] != '/',
        is_plain_name(r@),
{
    let encoded = encode_base64_url(url);
    let r = encoded.concat(".html");
    proof {
        reveal_strlit(".html");
    }
    proof {
        lemma_base64_alphabet(url.spec_bytes());
    }
    assert forall|i: int| 0 <= i < r@.len() - 5 implies is_url_safe_base64_char(#[trigger] r@[i]) by {
        assert(r@[i] == encoded@[i]);
    }
    assert forall|i: int| 0 <= i < r@.len() implies #[trigger] r@[i] != '/' by {
        if i < r@.len() - 5 {
            assert(r@[i] == encoded@[i]);
            assert(is_url_safe_base64_char(encoded@[i]));
        } else {
            assert(r@[i] == ".html"@[i - encoded@.len()]);
        }
    }
    assert forall|i: int| 0 <= i < r@.len() implies #[trigger] r@[i] != '/' && r@[i] != '\\' && r@[i] != ':' by {
        if i < r@.len() - 5 {
            assert(r@[i] == encoded@[i]);
            assert(is_url_safe_base64_char(encoded@[i]));
        } else {
            assert(r@[i] == ".html"@[i - encoded@.len()]);
        }
    }
    assert(r@.len() >= 5);
    r
}

/// A row of the cache index: which file holds the page of a URL, and on
/// which day it was stored.
pub struct CacheRow {
    pub url: String,
    pub date: String,
    pub file_path: String,
}

/// Everything that storing one page touches.
pub struct CacheEntry {
    /// The day's directory, created before anything is written.
    pub dir: String,
    /// The file that receives the page's HTML.
    pub file_path: String,
    /// The day's index database.
    pub db_path: String,
    /// The row that is inserted into (or replaces the URL's row in) the index.
    pub row: CacheRow,
}

/// Where the page of `url`, fetched today, is stored, and the index row that
/// points at it.
pub fn cache_entry_for(base_cache_dir: &str, today: &str, url: &str, sep: char) -> (e: CacheEntry)
    requires
        url.spec_bytes().len() <= usize::MAX / 2,
        sep == '/' || sep == '\\',
        is_plain_name(today@),
    ensures
        e.dir@ == day_dir(sep, base_cache_dir@, today@),
        e.file_path@ == page_file_path(sep, base_cache_dir@, today@, url),
        e.db_path@ == joined(sep, day_dir(sep, base_cache_dir@, today@), "cache.db"@),
        e.row.url@ == url@,
        e.row.date@ == today@,
        e.row.file_path@ == e.file_path@,
{
    let dir = cache_dir_for_today(base_cache_dir, today, sep);
    let name = cache_file_name(url);
    let file_path = join_path(dir.as_str(), name.as_str(), sep);
    let db_path = cache_db_path(dir.as_str(), sep);
    let row = CacheRow {
        url: String::from_str(url),
        date: String::from_str(today),
        file_path: file_path.clone(),
    };
    CacheEntry { dir, file_path, db_path, row }
}

/// The file to read for a cache lookup: the row's file when the row was
/// stored today, nothing otherwise (no row, or a row of another day).
pub open spec fn file_to_read(row: Option<CacheRow>, today: Seq<char>) -> Option<Seq<char>> {
    match row {
        Some(r) => if r.date@ == today { Some(r.file_path@) } else { None },
        None => None,
    }
}

/// Decides a cache lookup from the index row found for the URL.
pub fn cached_file_for(row: Option<CacheRow>, today: &str) -> (r: Option<String>)
    ensures
        match r {
            Some(p) => file_to_read(row, today@) == Some(p@),
            None => file_to_read(row, today@) is None,
        },
{
    match row {
        Some(r) => {
            let t = String::from_str(today);
            if r.date == t {
                Some(r.file_path)
            } else {
                None
            }
        },
        None => None,
    }
}

} // verus!
