use vstd::prelude::*;
use crate::error::{EhParseResult, ParseError};
use crate::structures::Rating;
use crate::text::{chars_of, find_num_before, lemma_num_before_props, num_before_from, num_val, parse_u64_range};

verus! {

// ---------------------------------------------------------------------------
// Rating decoding: a style fragment carries two pixel offsets (a sprite
// offset and an overlay offset) written as `<n>px` tokens.  The rating is
// five stars minus one per sixteen pixels of the first offset, minus half
// a star when the second offset is the fixed sentinel 21.
// ---------------------------------------------------------------------------

/// The bounds of the two offset tokens: the first digit run followed by
/// `px`, and the next one after it.  Fewer than two tokens is a failure.
pub open spec fn rating_offsets(s: Seq<char>) -> Option<((int, int), (int, int))> {
    match num_before_from(s, "px"@, 0) {
        None => None,
        Some((a1, e1)) => match num_before_from(s, "px"@, e1 + 2) {
            None => None,
            Some((a2, e2)) => Some(((a1, e1), (a2, e2))),
        },
    }
}

/// Hundredths of a star from the two decoded offsets.
pub open spec fn rating_centi(n1: int, n2: int) -> int {
    500 - (n1 / 16) * 100 - (if n2 == 21 {
        50int
    } else {
        0int
    })
}

/// A rating style decodes: both offset tokens exist and fit.
pub open spec fn rating_decodes(s: Seq<char>) -> bool {
    rating_offsets(s) matches Some(o) && num_val(s.subrange(o.0.0, o.0.1)) <= i32::MAX && num_val(
        s.subrange(o.1.0, o.1.1),
    ) <= i32::MAX
}

/// What a decoded rating guarantees against its style fragment.
pub open spec fn rating_matches(rt: Rating, s: Seq<char>) -> bool {
    rating_offsets(s) matches Some(o) && rt.centi == rating_centi(
        num_val(s.subrange(o.0.0, o.0.1)) as int,
        num_val(s.subrange(o.1.0, o.1.1)) as int,
    )
}

impl Rating {
    /// Decode a rating from a style fragment.  Offsets too large for `i32`
    /// are numeric failures, as the service never writes them.
    pub fn from_style(s: &str) -> (r: EhParseResult<Rating>)
        ensures
            rating_offsets(s@) is None ==> r == Err::<Rating, ParseError>(
                ParseError::RegexMatchFailed,
            ),
            rating_offsets(s@) matches Some(o) ==> ({
                let n1 = num_val(s@.subrange(o.0.0, o.0.1));
                let n2 = num_val(s@.subrange(o.1.0, o.1.1));
                if n1 > i32::MAX || n2 > i32::MAX {
                    r matches Err(ParseError::Other(_))
                } else {
                    r == Ok::<Rating, ParseError>(
                        Rating { centi: rating_centi(n1 as int, n2 as int) as i64 },
                    )
                }
            }),
    {
        let v = chars_of(s);
        let px = chars_of("px");
        proof {
            reveal_strlit("px");
        }
        let (a1, e1) = match find_num_before(&v, &px, 0) {
            None => {
                return Err(ParseError::RegexMatchFailed);
            },
            Some(p) => p,
        };
        proof {
            lemma_num_before_props(v@, px@, 0, a1 as int, e1 as int);
        }
        let (a2, e2) = match find_num_before(&v, &px, e1 + 2) {
            None => {
                return Err(ParseError::RegexMatchFailed);
            },
            Some(p) => p,
        };
        let n1 = match parse_u64_range(&v, a1, e1) {
            None => {
                return Err(ParseError::Other(String::from_str("offset out of range")));
            },
            Some(x) => x,
        };
        let n2 = match parse_u64_range(&v, a2, e2) {
            None => {
                return Err(ParseError::Other(String::from_str("offset out of range")));
            },
            Some(x) => x,
        };
        if n1 > i32::MAX as u64 || n2 > i32::MAX as u64 {
            return Err(ParseError::Other(String::from_str("offset out of range")));
        }
        let q = n1 / 16;
        let extra: i64 = if n2 == 21 {
            50
        } else {
            0
        };
        let centi: i64 = 500 - ((q * 100) as i64) - extra;
        Ok(Rating { centi })
    }
}

impl crate::parser::Parser for Rating {
    fn parse(s: &str) -> EhParseResult<Rating> {
        Rating::from_style(s)
    }
}

} // verus!
