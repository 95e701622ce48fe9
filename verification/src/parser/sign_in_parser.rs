use vstd::prelude::*;
use crate::error::{EhParseResult, ParseError};
use crate::structures::SignIn;
use crate::text::{
    chars_of, eq_at, exec_class_end, class_end, extract, find_char, find_char_from, find_from,
    find_sub, match_at,
};

verus! {

// ---------------------------------------------------------------------------
// The sign-in response: either a greeting with the account name, or one of
// two error shapes whose message is surfaced verbatim.
// ---------------------------------------------------------------------------

/// The account name capture of a successful sign-in page.
pub open spec fn signin_name_caps(s: Seq<char>) -> Option<(int, int)> {
    match find_from(s, "<p>You are now logged in as: "@, 0) {
        None => None,
        Some(p) => {
            let c0 = p + "<p>You are now logged in as: "@.len();
            match find_char_from(s, '<', c0) {
                None => None,
                Some(lt) => if lt > c0 {
                    Some((c0, lt))
                } else {
                    None
                },
            }
        },
    }
}

/// The error message capture of a failed sign-in page: the paragraph under
/// the error heading, or failing that, the highlighted span.
pub open spec fn signin_error_caps(s: Seq<char>) -> Option<(int, int)> {
    match signin_h4_caps(s) {
        Some(c) => Some(c),
        None => signin_span_caps(s),
    }
}

pub open spec fn signin_h4_caps(s: Seq<char>) -> Option<(int, int)> {
    match find_from(s, "<h4>The error returned was:</h4>"@, 0) {
        None => None,
        Some(p) => {
            let a = class_end(s, 5, p + "<h4>The error returned was:</h4>"@.len());
            if match_at(s, "<p>"@, a) {
                let c0 = a + "<p>"@.len();
                match find_from(s, "</p>"@, c0) {
                    None => None,
                    Some(e) => if e > c0 {
                        Some((c0, e))
                    } else {
                        None
                    },
                }
            } else {
                None
            }
        },
    }
}

pub open spec fn signin_span_caps(s: Seq<char>) -> Option<(int, int)> {
    match find_from(s, "<span class=\"postcolor\">"@, 0) {
        None => None,
        Some(p) => {
            let c0 = p + "<span class=\"postcolor\">"@.len();
            match find_from(s, "</span>"@, c0) {
                None => None,
                Some(e) => if e > c0 {
                    Some((c0, e))
                } else {
                    None
                },
            }
        },
    }
}

impl SignIn {
    /// Decode a sign-in response.  A greeting yields the account name; an
    /// error page yields the server's message verbatim; anything else
    /// fails the pattern.
    pub fn parse(s: &str) -> (r: EhParseResult<SignIn>)
        ensures
            signin_name_caps(s@) matches Some(c) ==> (r matches Ok(x) && x.username@
                == s@.subrange(c.0, c.1)),
            signin_name_caps(s@) is None && signin_error_caps(s@) is Some ==> (signin_error_caps(
                s@,
            ) matches Some(c) && r matches Err(ParseError::FromServer(m)) && m@ == s@.subrange(
                c.0,
                c.1,
            )),
            signin_name_caps(s@) is None && signin_error_caps(s@) is None ==> r == Err::<
                SignIn,
                ParseError,
            >(ParseError::RegexMatchFailed),
    {
        let v = chars_of(s);
        let name_pre = chars_of("<p>You are now logged in as: ");
        match find_sub(&v, &name_pre, 0) {
            Some(p) => {
                let c0 = p + name_pre.len();
                match find_char(&v, '<', c0) {
                    Some(lt) if lt > c0 => {
                        return Ok(SignIn { username: extract(s, c0, lt) });
                    },
                    _ => {},
                }
            },
            None => {},
        }
        let h4_pre = chars_of("<h4>The error returned was:</h4>");
        match find_sub(&v, &h4_pre, 0) {
            Some(p) => {
                let a = exec_class_end(&v, 5, p + h4_pre.len());
                let p_lit = chars_of("<p>");
                if p_lit.len() <= v.len() - a && eq_at(&v, a, &p_lit) {
                    let c0 = a + p_lit.len();
                    match find_sub(&v, &chars_of("</p>"), c0) {
                        Some(e) if e > c0 => {
                            return Err(ParseError::FromServer(extract(s, c0, e)));
                        },
                        _ => {},
                    }
                }
            },
            None => {},
        }
        let span_pre = chars_of("<span class=\"postcolor\">");
        match find_sub(&v, &span_pre, 0) {
            Some(p) => {
                let c0 = p + span_pre.len();
                match find_sub(&v, &chars_of("</span>"), c0) {
                    Some(e) if e > c0 => {
                        return Err(ParseError::FromServer(extract(s, c0, e)));
                    },
                    _ => {},
                }
            },
            None => {},
        }
        Err(ParseError::RegexMatchFailed)
    }
}

impl crate::parser::Parser for SignIn {
    fn parse(s: &str) -> EhParseResult<SignIn> {
        SignIn::parse(s)
    }
}

} // verus!
