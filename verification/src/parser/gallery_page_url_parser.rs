use vstd::prelude::*;
use crate::error::{EhParseResult, ParseError};
use crate::parser::site_url::{after_host, exec_after_host, exec_hex10, hex10};
use crate::structures::GalleryPageUrl;
use crate::text::{
    chars_of, digits_end, eq_at, exec_digits_end, extract, find_from, find_sub,
    lemma_digits_end_bounds, match_at, num_val, parse_u64_range,
};

verus! {

// ---------------------------------------------------------------------------
// A picture page URL: `http(s)://<host>/s/<ten-digit token>/<gid>-<page>`.
// ---------------------------------------------------------------------------

/// Captures of the first such URL in `s`: the token start, and the digit
/// runs of the gid and of the page number.
pub open spec fn page_url_parts(s: Seq<char>) -> Option<(int, (int, int), (int, int))> {
    match find_from(s, "http"@, 0) {
        None => None,
        Some(p) => match after_host(s, p) {
            None => None,
            Some(h) => if match_at(s, "s/"@, h) && hex10(s, h + "s/"@.len()) {
                page_url_tail(s, h + "s/"@.len())
            } else {
                None
            },
        },
    }
}

pub open spec fn page_url_tail(s: Seq<char>, t: int) -> Option<(int, (int, int), (int, int))> {
    if t + 10 < s.len() && s[t + 10] == '/' {
        let g0 = t + 11;
        let ge = digits_end(s, g0);
        if ge > g0 && ge < s.len() && s[ge] == '-' {
            let p0 = ge + 1;
            let pe = digits_end(s, p0);
            if pe > p0 {
                Some((t, (g0, ge), (p0, pe)))
            } else {
                None
            }
        } else {
            None
        }
    } else {
        None
    }
}

impl GalleryPageUrl {
    /// Decode a picture page URL into its gallery id, page token and page
    /// number, the 1-based trailing number normalized to a 0-based index.
    /// A number too large for its type, or a page number of zero, is a
    /// numeric failure.
    pub fn parse(s: &str) -> (r: EhParseResult<GalleryPageUrl>)
        ensures
            page_url_parts(s@) is None ==> r == Err::<GalleryPageUrl, ParseError>(
                ParseError::RegexMatchFailed,
            ),
            page_url_parts(s@) matches Some(p) ==> ({
                if num_val(s@.subrange(p.1.0, p.1.1)) > u64::MAX || num_val(
                    s@.subrange(p.2.0, p.2.1),
                ) > u32::MAX || num_val(s@.subrange(p.2.0, p.2.1)) == 0 {
                    r matches Err(ParseError::Other(_))
                } else {
                    r matches Ok(u) && u.gid == num_val(s@.subrange(p.1.0, p.1.1)) && u.p_token@
                        == s@.subrange(p.0, p.0 + 10) && u.page == num_val(
                        s@.subrange(p.2.0, p.2.1),
                    ) - 1
                }
            }),
    {
        let v = chars_of(s);
        let p = match find_sub(&v, &chars_of("http"), 0) {
            None => {
                return Err(ParseError::RegexMatchFailed);
            },
            Some(p) => p,
        };
        let h = match exec_after_host(&v, p) {
            None => {
                return Err(ParseError::RegexMatchFailed);
            },
            Some(h) => h,
        };
        let s_lit = chars_of("s/");
        if !(s_lit.len() <= v.len() - h && eq_at(&v, h, &s_lit)) {
            return Err(ParseError::RegexMatchFailed);
        }
        let t = h + s_lit.len();
        if !exec_hex10(&v, t) {
            return Err(ParseError::RegexMatchFailed);
        }
        if !(t + 10 < v.len() && v[t + 10] == '/') {
            return Err(ParseError::RegexMatchFailed);
        }
        let g0 = t + 11;
        let ge = exec_digits_end(&v, g0);
        proof {
            lemma_digits_end_bounds(v@, g0 as int);
        }
        if !(ge > g0 && ge < v.len() && v[ge] == '-') {
            return Err(ParseError::RegexMatchFailed);
        }
        let p0 = ge + 1;
        let pe = exec_digits_end(&v, p0);
        proof {
            lemma_digits_end_bounds(v@, p0 as int);
        }
        if !(pe > p0) {
            return Err(ParseError::RegexMatchFailed);
        }
        let gid = match parse_u64_range(&v, g0, ge) {
            None => {
                return Err(ParseError::Other(String::from_str("gid is out of range")));
            },
            Some(x) => x,
        };
        let page64 = match parse_u64_range(&v, p0, pe) {
            None => {
                return Err(ParseError::Other(String::from_str("page is out of range")));
            },
            Some(x) => x,
        };
        if page64 > u32::MAX as u64 || page64 == 0 {
            return Err(ParseError::Other(String::from_str("page is out of range")));
        }
        Ok(GalleryPageUrl { gid, p_token: extract(s, t, t + 10), page: (page64 - 1) as u32 })
    }
}

impl crate::parser::Parser for GalleryPageUrl {
    fn parse(s: &str) -> EhParseResult<GalleryPageUrl> {
        GalleryPageUrl::parse(s)
    }
}

} // verus!
