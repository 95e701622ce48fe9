use vstd::prelude::*;
use crate::text::{chars_of, digits_end, eq_at, exec_digits_end, lemma_digits_end_bounds, match_at, num_val, parse_u64_range};

verus! {

// ---------------------------------------------------------------------------
// Comment timestamps.  The service writes them as, for instance,
// `24 September 2020, 09:55`; they are normalized to seconds since the
// epoch, in UTC, by the standard civil-calendar day count.
// ---------------------------------------------------------------------------

pub open spec fn is_leap_year(y: int) -> bool {
    y % 4 == 0 && (y % 100 != 0 || y % 400 == 0)
}

pub open spec fn days_in_month(y: int, m: int) -> int {
    if m == 2 {
        if is_leap_year(y) {
            29
        } else {
            28
        }
    } else if m == 4 || m == 6 || m == 9 || m == 11 {
        30
    } else {
        31
    }
}

/// Days from the epoch to the given civil date (Gregorian, era-based).
pub open spec fn civil_days(y: int, m: int, d: int) -> int {
    let yy = if m <= 2 {
        y - 1
    } else {
        y
    };
    let era = yy / 400;
    let yoe = yy - era * 400;
    let mp = if m > 2 {
        m - 3
    } else {
        m + 9
    };
    let doy = (153 * mp + 2) / 5 + d - 1;
    let doe = yoe * 365 + yoe / 4 - yoe / 100 + doy;
    era * 146097 + doe - 719468
}

pub open spec fn epoch_of(y: int, m: int, d: int, hh: int, mm: int) -> int {
    civil_days(y, m, d) * 86400 + hh * 3600 + mm * 60
}

/// Seconds since the epoch of a civil date and a wall-clock time, UTC.
pub fn epoch_seconds(y: u64, m: u64, d: u64, hh: u64, mm: u64) -> (r: i64)
    requires
        1 <= y <= 9999,
        1 <= m <= 12,
        1 <= d <= 31,
        hh < 24,
        mm < 60,
    ensures
        r == epoch_of(y as int, m as int, d as int, hh as int, mm as int),
{
    let yy: u64 = if m <= 2 {
        y - 1
    } else {
        y
    };
    let era: u64 = yy / 400;
    let yoe: u64 = yy - era * 400;
    let mp: u64 = if m > 2 {
        m - 3
    } else {
        m + 9
    };
    let doy: u64 = (153 * mp + 2) / 5 + d - 1;
    let doe: u64 = yoe * 365 + yoe / 4 - yoe / 100 + doy;
    let days: i64 = (era * 146097 + doe) as i64 - 719468;
    days * 86400 + (hh * 3600 + mm * 60) as i64
}

// ---------------------------------------------------------------------------
// The textual form
// ---------------------------------------------------------------------------

pub open spec fn month_lit(m: int) -> Seq<char> {
    if m == 1 {
        "January"@
    } else if m == 2 {
        "February"@
    } else if m == 3 {
        "March"@
    } else if m == 4 {
        "April"@
    } else if m == 5 {
        "May"@
    } else if m == 6 {
        "June"@
    } else if m == 7 {
        "July"@
    } else if m == 8 {
        "August"@
    } else if m == 9 {
        "September"@
    } else if m == 10 {
        "October"@
    } else if m == 11 {
        "November"@
    } else {
        "December"@
    }
}

/// The first month whose English name stands at `i`, with the position
/// after the name.
pub open spec fn month_at_from(s: Seq<char>, i: int, m: int) -> Option<(int, int)>
    decreases 13 - m when 1 <= m <= 13
{
    if m > 12 {
        None
    } else if match_at(s, month_lit(m), i) {
        Some((m, i + month_lit(m).len()))
    } else {
        month_at_from(s, i, m + 1)
    }
}

pub open spec fn month_at(s: Seq<char>, i: int) -> Option<(int, int)> {
    month_at_from(s, i, 1)
}

fn month_text(m: u64) -> (r: &'static str)
    requires
        1 <= m <= 12,
    ensures
        r@ == month_lit(m as int),
{
    match m {
        1 => "January",
        2 => "February",
        3 => "March",
        4 => "April",
        5 => "May",
        6 => "June",
        7 => "July",
        8 => "August",
        9 => "September",
        10 => "October",
        11 => "November",
        _ => "December",
    }
}

fn exec_month_at(v: &Vec<char>, i: usize) -> (r: Option<(u64, usize)>)
    requires
        i <= v@.len(),
    ensures
        match r {
            Some(p) => month_at(v@, i as int) == Some((p.0 as int, p.1 as int)) && 1 <= p.0 <= 12
                && i <= p.1 <= v@.len(),
            None => month_at(v@, i as int) is None,
        },
{
    let n = v.len();
    let mut m: u64 = 1;
    while m <= 12
        invariant
            1 <= m <= 13,
            n == v@.len(),
            i <= n,
            month_at(v@, i as int) == month_at_from(v@, i as int, m as int),
        decreases 13 - m,
    {
        let name = chars_of(month_text(m));
        if name.len() <= n - i && eq_at(v, i, &name) {
            return Some((m, i + name.len()));
        }
        m += 1;
    }
    None
}

/// The numeric parts of a date text `<d> <Month> <y>, <hh>:<mm>` that
/// spans the whole of `s`, with calendar validity enforced: the day must
/// exist in the month, the year must have at most four digits and not be
/// zero, and hours and minutes must be two digits and in range.
pub open spec fn date_parts(s: Seq<char>) -> Option<(int, int, int, int, int)> {
    let de = digits_end(s, 0);
    if 1 <= de <= 2 && de < s.len() && s[de] == ' ' {
        match month_at(s, de + 1) {
            None => None,
            Some((m, after)) => {
                if after < s.len() && s[after] == ' ' {
                    let y0 = after + 1;
                    let ye = digits_end(s, y0);
                    if 1 <= ye - y0 <= 4 && match_at(s, ", "@, ye) {
                        let h0 = ye + ", "@.len();
                        let he = digits_end(s, h0);
                        if he - h0 == 2 && he < s.len() && s[he] == ':' {
                            let m0 = he + 1;
                            let me = digits_end(s, m0);
                            if me - m0 == 2 && me == s.len() {
                                let d = num_val(s.subrange(0, de));
                                let y = num_val(s.subrange(y0, ye));
                                let hh = num_val(s.subrange(h0, he));
                                let mm = num_val(s.subrange(m0, me));
                                if 1 <= y && 1 <= d <= days_in_month(y as int, m) && hh < 24 && mm
                                    < 60 {
                                    Some((y as int, m, d as int, hh as int, mm as int))
                                } else {
                                    None
                                }
                            } else {
                                None
                            }
                        } else {
                            None
                        }
                    } else {
                        None
                    }
                } else {
                    None
                }
            },
        }
    } else {
        None
    }
}

pub open spec fn posted_epoch(s: Seq<char>) -> Option<int> {
    match date_parts(s) {
        None => None,
        Some((y, m, d, hh, mm)) => Some(epoch_of(y, m, d, hh, mm)),
    }
}

fn exec_days_in_month(y: u64, m: u64) -> (r: u64)
    requires
        1 <= m <= 12,
    ensures
        r == days_in_month(y as int, m as int),
{
    if m == 2 {
        if y % 4 == 0 && (y % 100 != 0 || y % 400 == 0) {
            29
        } else {
            28
        }
    } else if m == 4 || m == 6 || m == 9 || m == 11 {
        30
    } else {
        31
    }
}

/// Decode a whole date text to seconds since the epoch.
pub fn parse_posted(s: &str) -> (r: Option<i64>)
    ensures
        match r {
            Some(t) => posted_epoch(s@) == Some(t as int),
            None => posted_epoch(s@) is None,
        },
{
    let v = chars_of(s);
    let n = v.len();
    let de = exec_digits_end(&v, 0);
    proof {
        lemma_digits_end_bounds(v@, 0);
    }
    if !(1 <= de && de <= 2 && de < n && v[de] == ' ') {
        return None;
    }
    let (m, after) = match exec_month_at(&v, de + 1) {
        None => {
            return None;
        },
        Some(x) => x,
    };
    if !(after < n && v[after] == ' ') {
        return None;
    }
    let y0 = after + 1;
    let ye = exec_digits_end(&v, y0);
    proof {
        lemma_digits_end_bounds(v@, y0 as int);
    }
    let comma = chars_of(", ");
    if !(1 <= ye - y0 && ye - y0 <= 4 && comma.len() <= n - ye && eq_at(&v, ye, &comma)) {
        return None;
    }
    let h0 = ye + comma.len();
    let he = exec_digits_end(&v, h0);
    proof {
        lemma_digits_end_bounds(v@, h0 as int);
    }
    if !(he - h0 == 2 && he < n && v[he] == ':') {
        return None;
    }
    let m0 = he + 1;
    let me = exec_digits_end(&v, m0);
    proof {
        lemma_digits_end_bounds(v@, m0 as int);
    }
    if !(me - m0 == 2 && me == n) {
        return None;
    }
    proof {
        crate::text::lemma_num_val_bounded(v@.subrange(0, de as int));
        crate::text::lemma_num_val_bounded(v@.subrange(y0 as int, ye as int));
        crate::text::lemma_num_val_bounded(v@.subrange(h0 as int, he as int));
        crate::text::lemma_num_val_bounded(v@.subrange(m0 as int, me as int));
    }
    let d = match parse_u64_range(&v, 0, de) {
        None => {
            return None;
        },
        Some(x) => x,
    };
    let y = match parse_u64_range(&v, y0, ye) {
        None => {
            return None;
        },
        Some(x) => x,
    };
    let hh = match parse_u64_range(&v, h0, he) {
        None => {
            return None;
        },
        Some(x) => x,
    };
    let mm = match parse_u64_range(&v, m0, me) {
        None => {
            return None;
        },
        Some(x) => x,
    };
    if !(1 <= y && 1 <= d && d <= exec_days_in_month(y, m) && hh < 24 && mm < 60) {
        return None;
    }
    Some(epoch_seconds(y, m, d, hh, mm))
}

} // verus!
