use vstd::prelude::*;
use crate::error::{EhParseResult, ParseError};
use crate::structures::{Archive, ArchiveItem};
use crate::text::{
    chars_of, digits_end, eq_at, exec_digits_end, extract, find_char, find_char_from, find_from,
    find_sub, lemma_digits_end_bounds, match_at, unescape, unescape_from,
};

verus! {

// ---------------------------------------------------------------------------
// The archive popup: a form token `or`, and one download link per offered
// resolution.
// ---------------------------------------------------------------------------

/// The `or` capture of the archive form: the value between `or=` and the
/// closing of the action attribute, free of quotes and equals signs.
pub open spec fn archive_or_caps(s: Seq<char>) -> Option<(int, int)> {
    match find_from(s, "<form id=\"hathdl_form\" action=\""@, 0) {
        None => None,
        Some(p) => {
            let a0 = p + "<form id=\"hathdl_form\" action=\""@.len();
            match find_from(s, "or="@, a0) {
                None => None,
                Some(o) => {
                    let c0 = o + "or="@.len();
                    match find_from(s, "\" method=\"post\">"@, c0) {
                        None => None,
                        Some(m) => if forall|k: int|
                            c0 <= k < m ==> s[k] != '"' && s[k] != '=' {
                            Some((c0, m))
                        } else {
                            None
                        },
                    }
                },
            }
        },
    }
}

/// The resolution token of a download link: a plain number, or `org` for
/// the original files.
pub open spec fn archive_res_valid(s: Seq<char>, c0: int, qe: int) -> bool {
    ||| (0 <= c0 <= qe <= s.len() && digits_end(s, c0) >= qe)
    ||| s.subrange(c0, qe) == "org"@
}

/// Captures of the first download link at or after `i`: the resolution
/// token, the display name, and the position its scan ended at.
pub open spec fn archive_item_at(s: Seq<char>, i: int) -> Option<((int, int), (int, int), int)> {
    match find_from(s, "onclick=\"return do_hathdl('"@, i) {
        None => None,
        Some(p) => {
            let c0 = p + "onclick=\"return do_hathdl('"@.len();
            match find_char_from(s, '\'', c0) {
                None => None,
                Some(qe) => if qe > c0 && archive_res_valid(s, c0, qe) && match_at(
                    s,
                    ")\">"@,
                    qe + 1,
                ) {
                    let n0 = qe + 1 + ")\">"@.len();
                    match find_char_from(s, '<', n0) {
                        None => None,
                        Some(lt) => if lt > n0 && match_at(s, "/a>"@, lt + 1) {
                            Some(((c0, qe), (n0, lt), lt))
                        } else {
                            None
                        },
                    }
                } else {
                    None
                },
            }
        },
    }
}

pub open spec fn archive_items_from(s: Seq<char>, i: int) -> Seq<((int, int), (int, int))>
    decreases s.len() - i when 0 <= i <= s.len()
{
    match archive_item_at(s, i) {
        None => Seq::empty(),
        Some(c) => {
            let next = c.2 + 1;
            if i < next <= s.len() {
                seq![(c.0, c.1)] + archive_items_from(s, next)
            } else {
                seq![(c.0, c.1)]
            }
        },
    }
}

fn exec_archive_item_at(v: &Vec<char>, i: usize) -> (r: Option<
    ((usize, usize), (usize, usize), usize),
>)
    requires
        i <= v@.len(),
    ensures
        match r {
            Some(c) => {
                &&& archive_item_at(v@, i as int) == Some(
                    (
                        (c.0.0 as int, c.0.1 as int),
                        (c.1.0 as int, c.1.1 as int),
                        c.2 as int,
                    ),
                )
                &&& c.0.0 <= c.0.1 <= v@.len()
                &&& c.1.0 <= c.1.1 <= v@.len()
                &&& i < c.2 + 1 <= v@.len()
            },
            None => archive_item_at(v@, i as int) is None,
        },
{
    let vn = v.len();
    proof {
        assert(v@.len() == vn);
    }
    let pre = chars_of("onclick=\"return do_hathdl('");
    let p = match find_sub(v, &pre, i) {
        None => {
            return None;
        },
        Some(p) => p,
    };
    let c0 = p + pre.len();
    let qe = match find_char(v, '\'', c0) {
        None => {
            return None;
        },
        Some(x) => x,
    };
    let de = exec_digits_end(v, c0);
    proof {
        lemma_digits_end_bounds(v@, c0 as int);
    }
    let org = chars_of("org");
    let is_org = if qe - c0 == org.len() {
        eq_at(v, c0, &org)
    } else {
        false
    };
    proof {
        if is_org {
            assert(v@.subrange(c0 as int, qe as int) =~= "org"@);
        } else {
            if v@.subrange(c0 as int, qe as int) == "org"@ {
                assert(v@.subrange(c0 as int, qe as int).len() == 3);
                assert(match_at(v@, "org"@, c0 as int));
            }
        }
    }
    let res_ok = de >= qe || is_org;
    let close = chars_of(")\">");
    let close_ok = if close.len() <= vn - (qe + 1) {
        eq_at(v, qe + 1, &close)
    } else {
        false
    };
    if !(qe > c0 && res_ok && close_ok) {
        return None;
    }
    let n0 = qe + 1 + close.len();
    let lt = match find_char(v, '<', n0) {
        None => {
            return None;
        },
        Some(x) => x,
    };
    let tail = chars_of("/a>");
    let tail_ok = if tail.len() <= vn - (lt + 1) {
        eq_at(v, lt + 1, &tail)
    } else {
        false
    };
    if !(lt > n0 && tail_ok) {
        return None;
    }
    Some(((c0, qe), (n0, lt), lt))
}

impl Archive {
    /// Decode the archive popup: the `or` form token, then every download
    /// link as a resolution/name pair, both entity-unescaped, in document
    /// order.
    pub fn parse(s: &str) -> (r: EhParseResult<Archive>)
        ensures
            archive_or_caps(s@) is None ==> r == Err::<Archive, ParseError>(
                ParseError::RegexMatchFailed,
            ),
            archive_or_caps(s@) matches Some(oc) ==> (r matches Ok(a) && a.or@ == s@.subrange(
                oc.0,
                oc.1,
            ) && ({
                let items = archive_items_from(s@, 0);
                &&& a.items@.len() == items.len()
                &&& forall|j: int|
                    0 <= j < items.len() ==> {
                        &&& a.items@[j].res@ == unescape_from(
                            s@.subrange((#[trigger] items[j]).0.0, items[j].0.1),
                            0,
                        )
                        &&& a.items@[j].name@ == unescape_from(
                            s@.subrange(items[j].1.0, items[j].1.1),
                            0,
                        )
                    }
            })),
    {
        let v = chars_of(s);
        let n = v.len();
        proof {
            assert(v@.len() == n);
        }
        let form_pre = chars_of("<form id=\"hathdl_form\" action=\"");
        let p = match find_sub(&v, &form_pre, 0) {
            None => {
                return Err(ParseError::RegexMatchFailed);
            },
            Some(p) => p,
        };
        let a0 = p + form_pre.len();
        let or_lit = chars_of("or=");
        let o = match find_sub(&v, &or_lit, a0) {
            None => {
                return Err(ParseError::RegexMatchFailed);
            },
            Some(o) => o,
        };
        let c0 = o + or_lit.len();
        let method_lit = chars_of("\" method=\"post\">");
        let m = match find_sub(&v, &method_lit, c0) {
            None => {
                return Err(ParseError::RegexMatchFailed);
            },
            Some(m) => m,
        };
        if !range_free(&v, c0, m) {
            return Err(ParseError::RegexMatchFailed);
        }
        let or = extract(s, c0, m);
        proof {
            assert(archive_or_caps(s@) == Some((c0 as int, m as int)));
        }
        let mut items: Vec<ArchiveItem> = Vec::new();
        let mut cur: usize = 0;
        loop
            invariant
                cur <= n,
                n == v@.len(),
                v@ == s@,
                archive_or_caps(s@) == Some((c0 as int, m as int)),
                c0 <= m <= v@.len(),
                or@ == s@.subrange(c0 as int, m as int),
                items@.len() + archive_items_from(s@, cur as int).len() == archive_items_from(
                    s@,
                    0,
                ).len(),
                archive_items_from(s@, cur as int) =~= archive_items_from(s@, 0).skip(
                    items@.len() as int,
                ),
                forall|j: int|
                    0 <= j < items@.len() ==> {
                        &&& items@[j].res@ == unescape_from(
                            s@.subrange(
                                (#[trigger] archive_items_from(s@, 0)[j]).0.0,
                                archive_items_from(s@, 0)[j].0.1,
                            ),
                            0,
                        )
                        &&& items@[j].name@ == unescape_from(
                            s@.subrange(
                                archive_items_from(s@, 0)[j].1.0,
                                archive_items_from(s@, 0)[j].1.1,
                            ),
                            0,
                        )
                    },
            decreases n - cur,
        {
            let c = match exec_archive_item_at(&v, cur) {
                None => {
                    return Ok(Archive { or, items });
                },
                Some(c) => c,
            };
            let res = unescape(extract(s, c.0.0, c.0.1).as_str());
            let name = unescape(extract(s, c.1.0, c.1.1).as_str());
            proof {
                let all = archive_items_from(s@, 0);
                let k2 = items@.len() as int;
                let rest = archive_items_from(s@, cur as int);
                let next = (c.2 + 1) as int;
                assert(archive_item_at(s@, cur as int) is Some);
                assert(rest.len() > 0);
                assert(rest == all.skip(k2));
                assert(rest[0] == all.skip(k2)[0]);
                assert(all.skip(k2)[0] == all[k2]);
                assert(rest.drop_first() =~= archive_items_from(s@, next));
                assert forall|m2: int|
                    0 <= m2 < archive_items_from(s@, next).len() implies archive_items_from(
                    s@,
                    next,
                )[m2] == all.skip(k2 + 1)[m2] by {
                    assert(archive_items_from(s@, next)[m2] == rest[m2 + 1]);
                    assert(rest[m2 + 1] == all.skip(k2)[m2 + 1]);
                    assert(all.skip(k2)[m2 + 1] == all[k2 + 1 + m2]);
                    assert(all.skip(k2 + 1)[m2] == all[k2 + 1 + m2]);
                }
                assert(archive_items_from(s@, next) =~= all.skip(k2 + 1));
            }
            items.push(ArchiveItem { res, name });
            cur = c.2 + 1;
        }
    }
}

/// No quote and no equals sign anywhere in `[from, to)`.
fn range_free(v: &Vec<char>, from: usize, to: usize) -> (r: bool)
    requires
        from <= to <= v@.len(),
    ensures
        r == forall|t: int| from <= t < to ==> v@[t] != '"' && v@[t] != '=',
{
    let mut k = from;
    while k < to
        invariant
            from <= k <= to <= v@.len(),
            forall|t: int| from <= t < k ==> v@[t] != '"' && v@[t] != '=',
        decreases to - k,
    {
        if v[k] == '"' || v[k] == '=' {
            return false;
        }
        k += 1;
    }
    true
}

impl crate::parser::Parser for Archive {
    fn parse(s: &str) -> EhParseResult<Archive> {
        Archive::parse(s)
    }
}

} // verus!
