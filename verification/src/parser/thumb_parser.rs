use vstd::prelude::*;
use crate::error::{EhParseResult, ParseError};
use crate::structures::Thumb;
use crate::text::{
    chars_of, digits_end, exec_digits_end, extract, find_char, find_char_from, find_from, find_sub,
    lemma_digits_end_bounds, match_at, num_val, parse_u64_range, eq_at,
};

verus! {

// ---------------------------------------------------------------------------
// A thumbnail image tag: the height and width are carried in the style
// attribute as `height:<h>px;width:<w>px`, and the image URL in `src`.
// ---------------------------------------------------------------------------

/// Capture bounds of the first thumbnail in `s`: height digits, width
/// digits and the source URL.
pub open spec fn thumb_parts(s: Seq<char>) -> Option<((int, int), (int, int), (int, int))> {
    match find_from(s, "style=\"height:"@, 0) {
        None => None,
        Some(p) => {
            let h0 = p + "style=\"height:"@.len();
            let he = digits_end(s, h0);
            if he > h0 && match_at(s, "px;width:"@, he) {
                let w0 = he + "px;width:"@.len();
                let we = digits_end(s, w0);
                if we > w0 && match_at(s, "px"@, we) {
                    match find_char_from(s, '"', we) {
                        None => None,
                        Some(q) => match find_from(s, "src=\""@, q) {
                            None => None,
                            Some(sp) => {
                                let u0 = sp + "src=\""@.len();
                                match find_char_from(s, '"', u0) {
                                    None => None,
                                    Some(ue) => if ue > u0 {
                                        Some(((h0, he), (w0, we), (u0, ue)))
                                    } else {
                                        None
                                    },
                                }
                            },
                        },
                    }
                } else {
                    None
                }
            } else {
                None
            }
        },
    }
}

/// A thumbnail's markup decodes: the captures exist and the dimensions
/// fit their type.
pub open spec fn thumb_decodes(s: Seq<char>) -> bool {
    thumb_parts(s) matches Some(p) && num_val(s.subrange(p.0.0, p.0.1)) <= u32::MAX && num_val(
        s.subrange(p.1.0, p.1.1),
    ) <= u32::MAX
}

/// What a decoded thumbnail guarantees against its markup.
pub open spec fn thumb_matches(t: Thumb, s: Seq<char>) -> bool {
    thumb_parts(s) matches Some(p) && t.height == num_val(s.subrange(p.0.0, p.0.1)) && t.width
        == num_val(s.subrange(p.1.0, p.1.1)) && t.src@ == s.subrange(p.2.0, p.2.1)
}

impl Thumb {
    /// Decode a thumbnail from an image tag.  A dimension too large for
    /// `u32` is a numeric failure.
    pub fn parse(s: &str) -> (r: EhParseResult<Thumb>)
        ensures
            thumb_parts(s@) is None ==> r == Err::<Thumb, ParseError>(ParseError::RegexMatchFailed),
            thumb_parts(s@) matches Some(p) ==> ({
                if num_val(s@.subrange(p.0.0, p.0.1)) > u32::MAX || num_val(
                    s@.subrange(p.1.0, p.1.1),
                ) > u32::MAX {
                    r matches Err(ParseError::Other(_))
                } else {
                    r matches Ok(t) && t.height == num_val(s@.subrange(p.0.0, p.0.1)) && t.width
                        == num_val(s@.subrange(p.1.0, p.1.1)) && t.src@ == s@.subrange(
                        p.2.0,
                        p.2.1,
                    )
                }
            }),
    {
        let v = chars_of(s);
        let style_lit = chars_of("style=\"height:");
        let p = match find_sub(&v, &style_lit, 0) {
            None => {
                return Err(ParseError::RegexMatchFailed);
            },
            Some(p) => p,
        };
        let h0 = p + style_lit.len();
        let he = exec_digits_end(&v, h0);
        proof {
            lemma_digits_end_bounds(v@, h0 as int);
        }
        let mid_lit = chars_of("px;width:");
        if !(he > h0 && mid_lit.len() <= v.len() - he && eq_at(&v, he, &mid_lit)) {
            return Err(ParseError::RegexMatchFailed);
        }
        let w0 = he + mid_lit.len();
        let we = exec_digits_end(&v, w0);
        proof {
            lemma_digits_end_bounds(v@, w0 as int);
        }
        let px_lit = chars_of("px");
        if !(we > w0 && px_lit.len() <= v.len() - we && eq_at(&v, we, &px_lit)) {
            return Err(ParseError::RegexMatchFailed);
        }
        let q = match find_char(&v, '"', we) {
            None => {
                return Err(ParseError::RegexMatchFailed);
            },
            Some(q) => q,
        };
        let src_lit = chars_of("src=\"");
        let sp = match find_sub(&v, &src_lit, q) {
            None => {
                return Err(ParseError::RegexMatchFailed);
            },
            Some(sp) => sp,
        };
        let u0 = sp + src_lit.len();
        let ue = match find_char(&v, '"', u0) {
            None => {
                return Err(ParseError::RegexMatchFailed);
            },
            Some(ue) => ue,
        };
        if !(ue > u0) {
            return Err(ParseError::RegexMatchFailed);
        }
        let height64 = match parse_u64_range(&v, h0, he) {
            None => {
                return Err(ParseError::Other(String::from_str("height is out of range")));
            },
            Some(x) => x,
        };
        let width64 = match parse_u64_range(&v, w0, we) {
            None => {
                return Err(ParseError::Other(String::from_str("width is out of range")));
            },
            Some(x) => x,
        };
        if height64 > u32::MAX as u64 || width64 > u32::MAX as u64 {
            return Err(ParseError::Other(String::from_str("dimension is out of range")));
        }
        Ok(Thumb { src: extract(s, u0, ue), width: width64 as u32, height: height64 as u32 })
    }
}

impl crate::parser::Parser for Thumb {
    fn parse(s: &str) -> EhParseResult<Thumb> {
        Thumb::parse(s)
    }
}

} // verus!
