use vstd::prelude::*;
use crate::dom::{attr_at, vis_attr};
use crate::error::{EhParseResult, ParseError};
use crate::structures::SearchNav;
use crate::text::{chars_of, class_end, exec_class_end, extract, find_from, find_sub, opt_view_is};

verus! {

// ---------------------------------------------------------------------------
// Navigation state of a list page: previous/next cursors from the two
// pager links, jump and seek tokens from the layout selector's handler.
// ---------------------------------------------------------------------------

/// The value following `<key>` in a URL or handler string: a run of the
/// given character class, which must be non-empty.
pub open spec fn nav_token(s: Seq<char>, key: Seq<char>, cls: int) -> Option<(int, int)> {
    match find_from(s, key, 0) {
        None => None,
        Some(p) => {
            let k0 = p + key.len();
            let e = class_end(s, cls, k0);
            if e > k0 {
                Some((k0, e))
            } else {
                None
            }
        },
    }
}

/// The token value itself, when the key and a non-empty run are present.
pub open spec fn nav_token_of(s: Seq<char>, key: Seq<char>, cls: int) -> Option<Seq<char>> {
    match nav_token(s, key, cls) {
        None => None,
        Some(c) => Some(s.subrange(c.0, c.1)),
    }
}

/// A pager link is present but carries no cursor: the failure the
/// decoder reports.
pub open spec fn cursor_fail(a: Option<Seq<char>>, key: Seq<char>) -> bool {
    a matches Some(h) && nav_token(h, key, 4) is None
}

/// The cursor of an optional pager link: absent links mean the first or
/// last page, not an error.
pub open spec fn cursor_of(a: Option<Seq<char>>, key: Seq<char>) -> Option<Seq<char>> {
    match a {
        None => None,
        Some(h) => nav_token_of(h, key, 4),
    }
}

/// The whole pager decodes: both present cursors carry their tokens and
/// the selector's handler attribute exists.
pub open spec fn search_nav_decodes(h: Seq<char>) -> bool {
    &&& !cursor_fail(vis_attr(h, "#uprev"@, "href"@), "prev="@)
    &&& !cursor_fail(vis_attr(h, "#unext"@, "href"@), "next="@)
    &&& vis_attr(h, "select[onchange]"@, "onchange"@) is Some
}

/// Extract a `<key>=<value>` token from an attribute string.
pub fn nav_capture(h: &str, key: &str, cls: usize) -> (r: Option<String>)
    requires
        cls <= 5,
    ensures
        opt_view_is(r, nav_token_of(h@, key@, cls as int)),
{
    let v = chars_of(h);
    let n = v.len();
    proof {
        assert(v@.len() == n);
    }
    let kv = chars_of(key);
    let p = match find_sub(&v, &kv, 0) {
        None => {
            return None;
        },
        Some(p) => p,
    };
    let k0 = p + kv.len();
    let e = exec_class_end(&v, cls, k0);
    if e > k0 {
        Some(extract(h, k0, e))
    } else {
        None
    }
}

impl SearchNav {
    /// Decode the pager: a missing previous or next link means the first
    /// or last page; a present link must carry its cursor.  Jump and seek
    /// tokens are optional parts of the selector's handler, which itself
    /// must be present.
    pub fn parse(s: &str) -> (r: EhParseResult<SearchNav>)
        ensures
            search_nav_decodes(s@) ==> r is Ok,
            cursor_fail(vis_attr(s@, "#uprev"@, "href"@), "prev="@) ==> r == Err::<
                SearchNav,
                ParseError,
            >(ParseError::RegexMatchFailed),
            !cursor_fail(vis_attr(s@, "#uprev"@, "href"@), "prev="@) && cursor_fail(
                vis_attr(s@, "#unext"@, "href"@),
                "next="@,
            ) ==> r == Err::<SearchNav, ParseError>(ParseError::RegexMatchFailed),
            !cursor_fail(vis_attr(s@, "#uprev"@, "href"@), "prev="@) && !cursor_fail(
                vis_attr(s@, "#unext"@, "href"@),
                "next="@,
            ) && vis_attr(s@, "select[onchange]"@, "onchange"@) is None ==> r == Err::<
                SearchNav,
                ParseError,
            >(ParseError::AttributeNotFound),
            !cursor_fail(vis_attr(s@, "#uprev"@, "href"@), "prev="@) && !cursor_fail(
                vis_attr(s@, "#unext"@, "href"@),
                "next="@,
            ) && vis_attr(s@, "select[onchange]"@, "onchange"@) is Some ==> (r matches Ok(n) && (
            vis_attr(s@, "select[onchange]"@, "onchange"@) matches Some(oc) && {
                &&& opt_view_is(n.prev_opt, cursor_of(vis_attr(s@, "#uprev"@, "href"@), "prev="@))
                &&& opt_view_is(n.next_opt, cursor_of(vis_attr(s@, "#unext"@, "href"@), "next="@))
                &&& opt_view_is(n.jump_opt, nav_token_of(oc, "jump="@, 2))
                &&& opt_view_is(n.seek_opt, nav_token_of(oc, "seek="@, 3))
            })),
    {
        let prev_opt = match attr_at(s, "#uprev", "href") {
            None => None,
            Some(href) => match nav_capture(href.as_str(), "prev=", 4) {
                None => {
                    return Err(ParseError::RegexMatchFailed);
                },
                Some(x) => Some(x),
            },
        };
        let next_opt = match attr_at(s, "#unext", "href") {
            None => None,
            Some(href) => match nav_capture(href.as_str(), "next=", 4) {
                None => {
                    return Err(ParseError::RegexMatchFailed);
                },
                Some(x) => Some(x),
            },
        };
        let onchange = match attr_at(s, "select[onchange]", "onchange") {
            None => {
                return Err(ParseError::AttributeNotFound);
            },
            Some(x) => x,
        };
        let jump_opt = nav_capture(onchange.as_str(), "jump=", 2);
        let seek_opt = nav_capture(onchange.as_str(), "seek=", 3);
        Ok(SearchNav { prev_opt, next_opt, jump_opt, seek_opt })
    }
}

impl crate::parser::Parser for SearchNav {
    fn parse(s: &str) -> EhParseResult<SearchNav> {
        SearchNav::parse(s)
    }
}

} // verus!
