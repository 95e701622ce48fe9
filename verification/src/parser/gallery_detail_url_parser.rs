use vstd::prelude::*;
use crate::error::{EhParseResult, ParseError};
use crate::parser::site_url::{after_host, exec_after_host, exec_hex10, hex10};
use crate::structures::{GalleryDetailUrl, GalleryIdentity};
use crate::text::{
    chars_of, digits_end, exec_digits_end, extract, find_from, find_sub, lemma_digits_end_bounds,
    match_at, num_val, parse_u64_range,
};

verus! {

// ---------------------------------------------------------------------------
// A gallery identity read from a detail or multi-page-viewer URL:
// `http(s)://<host>/(g|mpv)/<gid>/<ten-digit token>`.
// ---------------------------------------------------------------------------

/// The capture bounds of the first such URL in `s`: the digit run of the
/// gid and the start of the ten-character token.
pub open spec fn detail_url_parts(s: Seq<char>) -> Option<((int, int), int)> {
    match find_from(s, "http"@, 0) {
        None => None,
        Some(p) => match after_host(s, p) {
            None => None,
            Some(h) => if match_at(s, "g/"@, h) {
                detail_url_tail(s, h + "g/"@.len())
            } else if match_at(s, "mpv/"@, h) {
                detail_url_tail(s, h + "mpv/"@.len())
            } else {
                None
            },
        },
    }
}

pub open spec fn detail_url_tail(s: Seq<char>, g0: int) -> Option<((int, int), int)> {
    let ge = digits_end(s, g0);
    if ge > g0 && ge < s.len() && s[ge] == '/' && hex10(s, ge + 1) {
        Some(((g0, ge), ge + 1))
    } else {
        None
    }
}

fn exec_detail_url_tail(v: &Vec<char>, g0: usize) -> (r: Option<((usize, usize), usize)>)
    requires
        g0 <= v@.len(),
    ensures
        match r {
            Some(p) => detail_url_tail(v@, g0 as int) == Some(
                ((p.0.0 as int, p.0.1 as int), p.1 as int),
            ) && p.0.0 <= p.0.1 <= v@.len() && p.1 + 10 <= v@.len(),
            None => detail_url_tail(v@, g0 as int) is None,
        },
{
    let ge = exec_digits_end(v, g0);
    proof {
        lemma_digits_end_bounds(v@, g0 as int);
    }
    if ge > g0 && ge < v.len() && v[ge] == '/' && exec_hex10(v, ge + 1) {
        Some(((g0, ge), ge + 1))
    } else {
        None
    }
}

impl GalleryDetailUrl {
    /// Decode a gallery identity from a URL.  A string without a
    /// well-formed gallery URL fails the pattern; a gid too large for
    /// `u64` is a numeric failure.
    pub fn parse(s: &str) -> (r: EhParseResult<GalleryDetailUrl>)
        ensures
            detail_url_parts(s@) is None ==> r == Err::<GalleryDetailUrl, ParseError>(
                ParseError::RegexMatchFailed,
            ),
            detail_url_parts(s@) matches Some(p) ==> ({
                if num_val(s@.subrange(p.0.0, p.0.1)) > u64::MAX {
                    r matches Err(ParseError::Other(_))
                } else {
                    r matches Ok(u) && u.gid == num_val(s@.subrange(p.0.0, p.0.1)) && u.token@
                        == s@.subrange(p.1, p.1 + 10)
                }
            }),
    {
        let v = chars_of(s);
        let p = match find_sub(&v, &chars_of("http"), 0) {
            None => {
                return Err(ParseError::RegexMatchFailed);
            },
            Some(p) => p,
        };
        let h = match exec_after_host(&v, p) {
            None => {
                return Err(ParseError::RegexMatchFailed);
            },
            Some(h) => h,
        };
        let g_lit = chars_of("g/");
        let mpv_lit = chars_of("mpv/");
        let g0 = if g_lit.len() <= v.len() - h && crate::text::eq_at(&v, h, &g_lit) {
            h + g_lit.len()
        } else if mpv_lit.len() <= v.len() - h && crate::text::eq_at(&v, h, &mpv_lit) {
            h + mpv_lit.len()
        } else {
            return Err(ParseError::RegexMatchFailed);
        };
        let ((gs, ge), t) = match exec_detail_url_tail(&v, g0) {
            None => {
                return Err(ParseError::RegexMatchFailed);
            },
            Some(x) => x,
        };
        let gid = match parse_u64_range(&v, gs, ge) {
            None => {
                return Err(ParseError::Other(String::from_str("gid is out of range")));
            },
            Some(x) => x,
        };
        Ok(GalleryDetailUrl { gid, token: extract(s, t, t + 10) })
    }
}

/// A decoded identity carries exactly the gid digits and the token of the
/// first gallery URL in `u`.
pub open spec fn identity_matches(idn: GalleryIdentity, u: Seq<char>) -> bool {
    detail_url_parts(u) matches Some(p) && idn.gid == num_val(u.subrange(p.0.0, p.0.1))
        && idn.token@ == u.subrange(p.1, p.1 + 10)
}

impl GalleryIdentity {
    /// Decode an identity from a URL; the same pattern as the detail URL.
    pub fn parse(s: &str) -> (r: EhParseResult<GalleryIdentity>)
        ensures
            detail_url_parts(s@) is None ==> r == Err::<GalleryIdentity, ParseError>(
                ParseError::RegexMatchFailed,
            ),
            detail_url_parts(s@) matches Some(p) ==> ({
                if num_val(s@.subrange(p.0.0, p.0.1)) > u64::MAX {
                    r matches Err(ParseError::Other(_))
                } else {
                    r matches Ok(u) && identity_matches(u, s@)
                }
            }),
    {
        match GalleryDetailUrl::parse(s) {
            Ok(u) => Ok(GalleryIdentity { gid: u.gid, token: u.token }),
            Err(e) => Err(e),
        }
    }
}

impl crate::parser::Parser for GalleryDetailUrl {
    fn parse(s: &str) -> EhParseResult<GalleryDetailUrl> {
        GalleryDetailUrl::parse(s)
    }
}

} // verus!
