//! The default marker date: tomorrow under the local clock, rendered
//! `MM/DD` with both fields zero-padded to two digits.

use chrono::Datelike;
use vstd::prelude::*;
use vstd::string::StringExecFns;

verus! {

/// The digit character for `d` (0 through 9).
pub open spec fn digit_char(d: int) -> char
    recommends
        0 <= d <= 9,
{
    (((d + 48) as u8) as char)
}

/// The `MM/DD` rendering of month `m` and day `d`, both zero-padded to
/// two digits.
pub open spec fn mm_dd_spec(m: int, d: int) -> Seq<char> {
    seq![digit_char(m / 10), digit_char(m % 10), '/', digit_char(d / 10), digit_char(d % 10)]
}

/// `s` is the `MM/DD` rendering of some calendar month and day.
pub open spec fn is_mm_dd(s: Seq<char>) -> bool {
    exists|m: int, d: int| 1 <= m <= 12 && 1 <= d <= 31 && s == mm_dd_spec(m, d)
}

/// Relies on chrono: `Local::now` for the current local instant,
/// `DateTime::checked_add_signed` of `TimeDelta::days(1)` for the next
/// day (`None` exactly when that day falls outside the representable
/// range), and `Datelike::month` and `Datelike::day`, documented to
/// range over 1 to 12 and 1 to 31.
#[verifier::external_body]
fn tomorrow_month_day() -> (r: Option<(u8, u8)>)
    ensures
        r matches Some(md) ==> 1 <= md.0 <= 12 && 1 <= md.1 <= 31,
{
    match chrono::Local::now().checked_add_signed(chrono::TimeDelta::days(1)) {
        Some(t) => Some((t.month() as u8, t.day() as u8)),
        None => None,
    }
}

fn digit_str(d: u8) -> (r: &'static str)
    requires
        d <= 9,
    ensures
        r@ == seq![digit_char(d as int)],
{
    let r: &'static str = match d {
        0 => "0",
        1 => "1",
        2 => "2",
        3 => "3",
        4 => "4",
        5 => "5",
        6 => "6",
        7 => "7",
        8 => "8",
        _ => "9",
    };
    proof {
        reveal_strlit("0");
        reveal_strlit("1");
        reveal_strlit("2");
        reveal_strlit("3");
        reveal_strlit("4");
        reveal_strlit("5");
        reveal_strlit("6");
        reveal_strlit("7");
        reveal_strlit("8");
        reveal_strlit("9");
        assert(r@ =~= seq![digit_char(d as int)]);
    }
    r
}

/// Renders `month` and `day` as `MM/DD`, each zero-padded to two
/// digits.
pub fn format_mm_dd(month: u8, day: u8) -> (r: String)
    requires
        1 <= month <= 12,
        1 <= day <= 31,
    ensures
        r@ == mm_dd_spec(month as int, day as int),
{
    proof {
        reveal_strlit("/");
    }
    let r = String::from_str(digit_str(month / 10)).concat(digit_str(month % 10)).concat(
        "/",
    ).concat(digit_str(day / 10)).concat(digit_str(day % 10));
    proof {
        assert(r@ =~= mm_dd_spec(month as int, day as int));
    }
    r
}

/// Tomorrow's date under the local clock, rendered `MM/DD` — the
/// default date when the caller supplies none. `None` comes only when
/// the next day cannot be represented by the date library.
pub fn tomorrow() -> (r: Option<String>)
    ensures
        r matches Some(t) ==> is_mm_dd(t@),
{
    match tomorrow_month_day() {
        Some((m, d)) => {
            let t = format_mm_dd(m, d);
            proof {
                assert(is_mm_dd(t@));
            }
            Some(t)
        },
        None => None,
    }
}

/// The date the entering flow tags the marker with: the caller's date
/// when one was given — taken as it is, unvalidated — and tomorrow's
/// `MM/DD` otherwise. `None` only when no date was given and tomorrow
/// cannot be represented.
pub fn marker_date(given: Option<String>) -> (r: Option<String>)
    ensures
        given matches Some(d) ==> r == Some(d),
        given is None ==> (r matches Some(t) ==> is_mm_dd(t@)),
{
    match given {
        Some(d) => Some(d),
        None => tomorrow(),
    }
}

} // verus!
