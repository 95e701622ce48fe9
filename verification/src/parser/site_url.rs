use vstd::prelude::*;
use crate::text::{chars_of, eq_at, is_hex_digit, match_at};

verus! {

// ---------------------------------------------------------------------------
// The common head of every gallery URL: a scheme and one of the three
// hosts the service answers under.
// ---------------------------------------------------------------------------

pub open spec fn after_scheme(s: Seq<char>, p: int) -> Option<int> {
    if match_at(s, "http://"@, p) {
        Some(p + "http://"@.len())
    } else if match_at(s, "https://"@, p) {
        Some(p + "https://"@.len())
    } else {
        None
    }
}

pub open spec fn after_host(s: Seq<char>, p: int) -> Option<int> {
    match after_scheme(s, p) {
        None => None,
        Some(h) => if match_at(s, "exhentai.org/"@, h) {
            Some(h + "exhentai.org/"@.len())
        } else if match_at(s, "e-hentai.org/"@, h) {
            Some(h + "e-hentai.org/"@.len())
        } else if match_at(s, "lofi.e-hentai.org/"@, h) {
            Some(h + "lofi.e-hentai.org/"@.len())
        } else {
            None
        },
    }
}

/// Ten hexadecimal digits at `t`: the shape of every gallery token.
pub open spec fn hex10(s: Seq<char>, t: int) -> bool {
    &&& 0 <= t
    &&& t + 10 <= s.len()
    &&& forall|k: int| 0 <= k < 10 ==> is_hex_digit(#[trigger] s[t + k])
}

fn try_lit(v: &Vec<char>, p: usize, lit: &Vec<char>) -> (r: bool)
    requires
        p <= v@.len(),
    ensures
        r == match_at(v@, lit@, p as int),
{
    if lit.len() <= v.len() - p {
        eq_at(v, p, lit)
    } else {
        false
    }
}

pub fn exec_after_host(v: &Vec<char>, p: usize) -> (r: Option<usize>)
    requires
        p <= v@.len(),
    ensures
        match r {
            Some(h) => after_host(v@, p as int) == Some(h as int) && h <= v@.len(),
            None => after_host(v@, p as int) is None,
        },
{
    let n = v.len();
    let plain = chars_of("http://");
    let tls = chars_of("https://");
    let h = if try_lit(v, p, &plain) {
        p + plain.len()
    } else if try_lit(v, p, &tls) {
        p + tls.len()
    } else {
        return None;
    };
    let ex_host = chars_of("exhentai.org/");
    let e_host = chars_of("e-hentai.org/");
    let lofi_host = chars_of("lofi.e-hentai.org/");
    if try_lit(v, h, &ex_host) {
        Some(h + ex_host.len())
    } else if try_lit(v, h, &e_host) {
        Some(h + e_host.len())
    } else if try_lit(v, h, &lofi_host) {
        Some(h + lofi_host.len())
    } else {
        None
    }
}

pub fn exec_hex10(v: &Vec<char>, t: usize) -> (r: bool)
    requires
        t <= v@.len(),
    ensures
        r == hex10(v@, t as int),
{
    let n = v.len();
    if n - t < 10 {
        return false;
    }
    let mut k: usize = 0;
    while k < 10
        invariant
            k <= 10,
            n == v@.len(),
            t + 10 <= n,
            forall|m: int| 0 <= m < k ==> is_hex_digit(#[trigger] v@[t + m]),
        decreases 10 - k,
    {
        if !crate::text::exec_is_hex_digit(v[t + k]) {
            return false;
        }
        k += 1;
    }
    true
}

} // verus!
