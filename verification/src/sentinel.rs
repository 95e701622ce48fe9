use vstd::prelude::*;
use crate::error::ParseError;
use crate::text::{
    chars_of, contains_seq, contains_sub, eq_at, extract, find_char, find_char_from, find_from,
    find_sub, match_at,
};

verus! {

// ---------------------------------------------------------------------------
// Server-state sentinel
//
// A full page is classified before any structural decoding: a page that
// carries one of the known non-content banners must never reach a record
// assembler.  Detection is plain substring matching, because the signaling
// markup is stable even when the surrounding layout is not.
// ---------------------------------------------------------------------------

pub open spec fn signin_lit() -> Seq<char> {
    "This page requires you to log on.</p>"@
}

pub open spec fn offensive_lit() -> Seq<char> {
    "<p>(And if you choose to ignore this warning, you lose all rights to complain about it in the future.)</p>"@
}

pub open spec fn offensive_msg() -> Seq<char> {
    "if you choose to ignore this warning, you lose all rights to complain about it in the future."@
}

pub open spec fn pining_lit() -> Seq<char> {
    "<p>This gallery_list is pining for the fjords.</p>"@
}

pub open spec fn pining_msg() -> Seq<char> {
    "this gallery_list is pining for the fjords."@
}

pub open spec fn banner_pre_lit() -> Seq<char> {
    "<div class=\"d\">\n<p>"@
}

/// The bounds of the message inside the generic error banner, when the page
/// carries one: the text between the banner opening and the next `<`, which
/// must begin the closing `</p>`.
pub open spec fn banner_msg_at(page: Seq<char>) -> Option<(int, int)> {
    match find_from(page, banner_pre_lit(), 0) {
        None => None,
        Some(p) => {
            let c0 = p + banner_pre_lit().len();
            match find_char_from(page, '<', c0) {
                None => None,
                Some(d) => if d > c0 && match_at(page, "/p>"@, d + 1) {
                    Some((c0, d))
                } else {
                    None
                },
            }
        },
    }
}

/// A page that carries none of the known non-content banners.
pub open spec fn server_state_ok(page: Seq<char>) -> bool {
    &&& !contains_seq(page, signin_lit())
    &&& !contains_seq(page, offensive_lit())
    &&& !contains_seq(page, pining_lit())
    &&& banner_msg_at(page) is None
}

/// What every decoder of full pages promises about the sentinel: the
/// sign-in banner wins over everything, then the content-warning gate,
/// the removed-gallery notice, and the generic server banner, whose
/// message is surfaced verbatim; no banner may yield a record.
pub open spec fn sentinel_verdict_matches<T>(r: Result<T, ParseError>, page: Seq<char>) -> bool {
    &&& contains_seq(page, signin_lit()) ==> r == Err::<T, ParseError>(ParseError::SignInRequired)
    &&& !contains_seq(page, signin_lit()) && contains_seq(page, offensive_lit()) ==> (r matches Err(
        ParseError::FromServer(m),
    ) && m@ == offensive_msg())
    &&& !contains_seq(page, signin_lit()) && !contains_seq(page, offensive_lit()) && contains_seq(
        page,
        pining_lit(),
    ) ==> (r matches Err(ParseError::FromServer(m)) && m@ == pining_msg())
    &&& !contains_seq(page, signin_lit()) && !contains_seq(page, offensive_lit()) && !contains_seq(
        page,
        pining_lit(),
    ) && banner_msg_at(page) is Some ==> (r matches Err(ParseError::FromServer(m)) && (banner_msg_at(
        page,
    ) matches Some(c) && m@ == page.subrange(c.0, c.1)))
    &&& !server_state_ok(page) ==> r is Err
}

/// Classify a full page before structural decoding.
///
/// The sign-in banner takes precedence over everything else on the page;
/// after it, in order: the content-warning gate, the removed-gallery notice,
/// and the generic server error banner, whose message is surfaced verbatim.
pub fn check_server_state(s: &str) -> (r: Result<(), ParseError>)
    ensures
        r is Ok <==> server_state_ok(s@),
        contains_seq(s@, signin_lit()) ==> r == Err::<(), ParseError>(ParseError::SignInRequired),
        !contains_seq(s@, signin_lit()) && contains_seq(s@, offensive_lit()) ==> (r matches Err(
            ParseError::FromServer(m),
        ) && m@ == offensive_msg()),
        !contains_seq(s@, signin_lit()) && !contains_seq(s@, offensive_lit()) && contains_seq(
            s@,
            pining_lit(),
        ) ==> (r matches Err(ParseError::FromServer(m)) && m@ == pining_msg()),
        !contains_seq(s@, signin_lit()) && !contains_seq(s@, offensive_lit()) && !contains_seq(
            s@,
            pining_lit(),
        ) && banner_msg_at(s@) is Some ==> (r matches Err(ParseError::FromServer(m)) && (
        banner_msg_at(s@) matches Some(c) && m@ == s@.subrange(c.0, c.1))),
{
    let v = chars_of(s);
    if contains_sub(&v, &chars_of("This page requires you to log on.</p>")) {
        return Err(ParseError::SignInRequired);
    }
    if contains_sub(
        &v,
        &chars_of(
            "<p>(And if you choose to ignore this warning, you lose all rights to complain about it in the future.)</p>",
        ),
    ) {
        return Err(
            ParseError::FromServer(
                String::from_str(
                    "if you choose to ignore this warning, you lose all rights to complain about it in the future.",
                ),
            ),
        );
    }
    if contains_sub(&v, &chars_of("<p>This gallery_list is pining for the fjords.</p>")) {
        return Err(
            ParseError::FromServer(String::from_str("this gallery_list is pining for the fjords.")),
        );
    }
    let n = v.len();
    proof {
        assert(v@.len() == n);
    }
    let pre = chars_of("<div class=\"d\">\n<p>");
    match find_sub(&v, &pre, 0) {
        None => Ok(()),
        Some(p) => {
            let c0 = p + pre.len();
            match find_char(&v, '<', c0) {
                None => Ok(()),
                Some(d) => {
                    let close = chars_of("/p>");
                    let closed = if close.len() <= v.len() - (d + 1) {
                        eq_at(&v, d + 1, &close)
                    } else {
                        false
                    };
                    if d > c0 && closed {
                        Err(ParseError::FromServer(extract(s, c0, d)))
                    } else {
                        Ok(())
                    }
                },
            }
        },
    }
}

} // verus!
