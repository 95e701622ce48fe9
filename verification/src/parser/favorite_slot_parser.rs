use vstd::prelude::*;
use crate::error::{EhParseResult, ParseError};
use crate::structures::FavoriteSlot;
use crate::text::{
    chars_of, digits_end, eq_chars, exec_digits_end, extract, find_from, find_sub,
    lemma_digits_end_bounds,
};

verus! {

// ---------------------------------------------------------------------------
// Favorite-slot decoding: a style fragment carries an `rgba(R,G,B,...)`
// triple, matched by exact string equality against a fixed, ordered table
// of ten colors.  The matching row index is the slot.  No nearest-color
// fallback exists: an unknown triple is a data-integrity error, which is
// distinct from "not favorited" (that is signaled one level up, by the
// style attribute being absent altogether).
// ---------------------------------------------------------------------------

pub open spec fn rgba_pre_lit() -> Seq<char> {
    "background-color:rgba("@
}

/// The three decimal captures of the rgba fragment, when the style string
/// carries a well-formed one: three non-empty digit runs separated by
/// commas and followed by a comma.
pub open spec fn rgba_captures(s: Seq<char>) -> Option<(Seq<char>, Seq<char>, Seq<char>)> {
    match find_from(s, rgba_pre_lit(), 0) {
        None => None,
        Some(p) => {
            let i1 = p + rgba_pre_lit().len();
            let e1 = digits_end(s, i1);
            let i2 = e1 + 1;
            let e2 = digits_end(s, i2);
            let i3 = e2 + 1;
            let e3 = digits_end(s, i3);
            if e1 > i1 && e1 < s.len() && s[e1] == ',' && e2 > i2 && e2 < s.len() && s[e2] == ','
                && e3 > i3 && e3 < s.len() && s[e3] == ',' {
                Some((s.subrange(i1, e1), s.subrange(i2, e2), s.subrange(i3, e3)))
            } else {
                None
            }
        },
    }
}

/// Row `k` of the fixed slot color table.
pub open spec fn slot_red(k: int) -> Seq<char> {
    if k == 0 {
        "0"@
    } else if k == 1 {
        "240"@
    } else if k == 2 {
        "240"@
    } else if k == 3 {
        "208"@
    } else if k == 4 {
        "0"@
    } else if k == 5 {
        "144"@
    } else if k == 6 {
        "64"@
    } else if k == 7 {
        "0"@
    } else if k == 8 {
        "80"@
    } else {
        "224"@
    }
}

pub open spec fn slot_green(k: int) -> Seq<char> {
    if k == 0 {
        "0"@
    } else if k == 1 {
        "0"@
    } else if k == 2 {
        "160"@
    } else if k == 3 {
        "208"@
    } else if k == 4 {
        "128"@
    } else if k == 5 {
        "240"@
    } else if k == 6 {
        "176"@
    } else if k == 7 {
        "0"@
    } else if k == 8 {
        "0"@
    } else {
        "128"@
    }
}

pub open spec fn slot_blue(k: int) -> Seq<char> {
    if k == 0 {
        "0"@
    } else if k == 1 {
        "0"@
    } else if k == 2 {
        "0"@
    } else if k == 3 {
        "0"@
    } else if k == 4 {
        "0"@
    } else if k == 5 {
        "64"@
    } else if k == 6 {
        "240"@
    } else if k == 7 {
        "240"@
    } else if k == 8 {
        "128"@
    } else {
        "224"@
    }
}

pub open spec fn slot_row_matches(a: Seq<char>, b: Seq<char>, c: Seq<char>, k: int) -> bool {
    slot_red(k) == a && slot_green(k) == b && slot_blue(k) == c
}

/// The slot whose color triple equals the captures exactly, if any.
pub open spec fn slot_of_from(a: Seq<char>, b: Seq<char>, c: Seq<char>, k: int) -> Option<int>
    decreases 10 - k when 0 <= k <= 10
{
    if k >= 10 {
        None
    } else if slot_row_matches(a, b, c, k) {
        Some(k)
    } else {
        slot_of_from(a, b, c, k + 1)
    }
}

pub open spec fn slot_of(a: Seq<char>, b: Seq<char>, c: Seq<char>) -> Option<int> {
    slot_of_from(a, b, c, 0)
}

fn slot_row_exec(a: &Vec<char>, b: &Vec<char>, c: &Vec<char>, k: usize) -> (r: bool)
    requires
        k < 10,
    ensures
        r == slot_row_matches(a@, b@, c@, k as int),
{
    let (rr, gg, bb): (&'static str, &'static str, &'static str) = match k {
        0 => ("0", "0", "0"),
        1 => ("240", "0", "0"),
        2 => ("240", "160", "0"),
        3 => ("208", "208", "0"),
        4 => ("0", "128", "0"),
        5 => ("144", "240", "64"),
        6 => ("64", "176", "240"),
        7 => ("0", "0", "240"),
        8 => ("80", "0", "128"),
        _ => ("224", "128", "224"),
    };
    eq_chars(&chars_of(rr), a) && eq_chars(&chars_of(gg), b) && eq_chars(&chars_of(bb), c)
}

impl FavoriteSlot {
    /// Decode a favorite slot from a style fragment.  The rgba captures are
    /// matched by exact string equality against the ten-row table; a style
    /// without a well-formed rgba triple fails the pattern, and a triple
    /// outside the table is out of range.
    pub fn from_style(s: &str) -> (r: EhParseResult<FavoriteSlot>)
        ensures
            rgba_captures(s@) is None ==> r == Err::<FavoriteSlot, ParseError>(
                ParseError::RegexMatchFailed,
            ),
            rgba_captures(s@) matches Some(caps) ==> match slot_of(caps.0, caps.1, caps.2) {
                Some(k) => r matches Ok(slot) && slot.r@ == caps.0 && slot.g@ == caps.1 && slot.b@
                    == caps.2 && slot.value == k,
                None => r == Err::<FavoriteSlot, ParseError>(ParseError::OutOfRange),
            },
    {
        let v = chars_of(s);
        let pre = chars_of("background-color:rgba(");
        let p = match find_sub(&v, &pre, 0) {
            None => {
                return Err(ParseError::RegexMatchFailed);
            },
            Some(p) => p,
        };
        let i1 = p + pre.len();
        let e1 = exec_digits_end(&v, i1);
        proof {
            lemma_digits_end_bounds(v@, i1 as int);
        }
        if !(e1 > i1 && e1 < v.len() && v[e1] == ',') {
            return Err(ParseError::RegexMatchFailed);
        }
        let i2 = e1 + 1;
        let e2 = exec_digits_end(&v, i2);
        proof {
            lemma_digits_end_bounds(v@, i2 as int);
        }
        if !(e2 > i2 && e2 < v.len() && v[e2] == ',') {
            return Err(ParseError::RegexMatchFailed);
        }
        let i3 = e2 + 1;
        let e3 = exec_digits_end(&v, i3);
        proof {
            lemma_digits_end_bounds(v@, i3 as int);
        }
        if !(e3 > i3 && e3 < v.len() && v[e3] == ',') {
            return Err(ParseError::RegexMatchFailed);
        }
        let ca = chars_range(&v, i1, e1);
        let cb = chars_range(&v, i2, e2);
        let cc = chars_range(&v, i3, e3);
        proof {
            assert(rgba_captures(s@) == Some((ca@, cb@, cc@)));
        }
        let mut k: usize = 0;
        while k < 10
            invariant
                k <= 10,
                v@ == s@,
                i1 <= e1 <= v@.len(),
                i2 <= e2 <= v@.len(),
                i3 <= e3 <= v@.len(),
                rgba_captures(s@) == Some((ca@, cb@, cc@)),
                ca@ == v@.subrange(i1 as int, e1 as int),
                cb@ == v@.subrange(i2 as int, e2 as int),
                cc@ == v@.subrange(i3 as int, e3 as int),
                slot_of(ca@, cb@, cc@) == slot_of_from(ca@, cb@, cc@, k as int),
            decreases 10 - k,
        {
            if slot_row_exec(&ca, &cb, &cc, k) {
                return Ok(
                    FavoriteSlot {
                        r: extract(s, i1, e1),
                        g: extract(s, i2, e2),
                        b: extract(s, i3, e3),
                        value: k as u32,
                    },
                );
            }
            k += 1;
        }
        Err(ParseError::OutOfRange)
    }
}

impl crate::parser::Parser for FavoriteSlot {
    fn parse(s: &str) -> EhParseResult<FavoriteSlot> {
        FavoriteSlot::from_style(s)
    }
}

/// Copy the characters `[from, to)` of `v`.
fn chars_range(v: &Vec<char>, from: usize, to: usize) -> (r: Vec<char>)
    requires
        from <= to <= v@.len(),
    ensures
        r@ == v@.subrange(from as int, to as int),
{
    let mut r: Vec<char> = Vec::new();
    let mut i = from;
    while i < to
        invariant
            from <= i <= to <= v@.len(),
            r@ == v@.subrange(from as int, i as int),
        decreases to - i,
    {
        r.push(v[i]);
        i += 1;
    }
    proof {
        assert(r@ =~= v@.subrange(from as int, to as int));
    }
    r
}

// ---------------------------------------------------------------------------
// Laws
// ---------------------------------------------------------------------------

proof fn lemma_slot_scan(a: Seq<char>, b: Seq<char>, c: Seq<char>, i: int, k: int)
    requires
        0 <= i <= k < 10,
        forall|j: int| i <= j < k ==> !slot_row_matches(a, b, c, j),
        slot_row_matches(a, b, c, k),
    ensures
        slot_of_from(a, b, c, i) == Some(k),
    decreases k - i,
{
    if i < k {
        lemma_slot_scan(a, b, c, i + 1, k);
    }
}

/// Every row of the fixed color table decodes to its own index: the table
/// rows are pairwise distinct, so the first matching row is the row itself.
pub proof fn lemma_slot_table_decodes(k: int)
    requires
        0 <= k < 10,
    ensures
        slot_of(slot_red(k), slot_green(k), slot_blue(k)) == Some(k),
{
    reveal_strlit("0");
    reveal_strlit("240");
    reveal_strlit("160");
    reveal_strlit("208");
    reveal_strlit("128");
    reveal_strlit("144");
    reveal_strlit("64");
    reveal_strlit("176");
    reveal_strlit("80");
    reveal_strlit("224");
    let a = slot_red(k);
    let b = slot_green(k);
    let c = slot_blue(k);
    assert(slot_row_matches(a, b, c, k));
    assert forall|j: int| 0 <= j < k implies !slot_row_matches(a, b, c, j) by {
        if slot_row_matches(a, b, c, j) {
            assert(slot_red(j)[0] == a[0] && slot_red(j)[1] == a[1] && slot_red(j)[2] == a[2]
                && slot_green(j)[0] == b[0] && slot_green(j)[1] == b[1] && slot_green(j)[2] == b[2]
                && slot_blue(j)[0] == c[0] && slot_blue(j)[1] == c[1] && slot_blue(j)[2] == c[2]);
        }
    };
    lemma_slot_scan(a, b, c, 0, k);
}

} // verus!
