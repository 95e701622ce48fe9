use vstd::prelude::*;
use crate::error::{EhParseResult, ParseError};
use crate::structures::Torrent;
use crate::text::{
    chars_of, eq_at, extract, find_char, find_char_from, find_from, find_sub, match_at,
};

verus! {

// ---------------------------------------------------------------------------
// One row of the torrent list: the tracker URL inside the click handler,
// and the display filename of the link.
// ---------------------------------------------------------------------------

/// Captures of the first torrent row in `s`: download URL and filename.
pub open spec fn torrent_caps(s: Seq<char>) -> Option<((int, int), (int, int))> {
    match find_from(s, "onclick=\"sument.location='"@, 0) {
        None => None,
        Some(p) => {
            let c0 = p + "onclick=\"sument.location='"@.len();
            match find_char_from(s, '\'', c0) {
                None => None,
                Some(qe) => if qe > c0 {
                    match find_char_from(s, '>', qe) {
                        None => None,
                        Some(gt) => {
                            let n0 = gt + 1;
                            match find_char_from(s, '<', n0) {
                                None => None,
                                Some(lt) => if lt > n0 && match_at(s, "/a></td>"@, lt + 1) {
                                    Some(((c0, qe), (n0, lt)))
                                } else {
                                    None
                                },
                            }
                        },
                    }
                } else {
                    None
                },
            }
        },
    }
}

impl Torrent {
    /// Decode one torrent row into its download URL and filename.
    pub fn parse(s: &str) -> (r: EhParseResult<Torrent>)
        ensures
            torrent_caps(s@) is None ==> r == Err::<Torrent, ParseError>(
                ParseError::RegexMatchFailed,
            ),
            torrent_caps(s@) matches Some(c) ==> (r matches Ok(t) && t.download_url@ == s@.subrange(
                c.0.0,
                c.0.1,
            ) && t.filename@ == s@.subrange(c.1.0, c.1.1)),
    {
        let v = chars_of(s);
        let pre = chars_of("onclick=\"sument.location='");
        let p = match find_sub(&v, &pre, 0) {
            None => {
                return Err(ParseError::RegexMatchFailed);
            },
            Some(p) => p,
        };
        let c0 = p + pre.len();
        let qe = match find_char(&v, '\'', c0) {
            None => {
                return Err(ParseError::RegexMatchFailed);
            },
            Some(x) => x,
        };
        if !(qe > c0) {
            return Err(ParseError::RegexMatchFailed);
        }
        let gt = match find_char(&v, '>', qe) {
            None => {
                return Err(ParseError::RegexMatchFailed);
            },
            Some(x) => x,
        };
        let n0 = gt + 1;
        let lt = match find_char(&v, '<', n0) {
            None => {
                return Err(ParseError::RegexMatchFailed);
            },
            Some(x) => x,
        };
        let close = chars_of("/a></td>");
        if !(lt > n0 && close.len() <= v.len() - (lt + 1) && eq_at(&v, lt + 1, &close)) {
            return Err(ParseError::RegexMatchFailed);
        }
        Ok(Torrent { filename: extract(s, n0, lt), download_url: extract(s, c0, qe) })
    }
}

impl crate::parser::Parser for Torrent {
    fn parse(s: &str) -> EhParseResult<Torrent> {
        Torrent::parse(s)
    }
}

} // verus!
