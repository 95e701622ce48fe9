use vstd::prelude::*;
use crate::error::{EhParseResult, ParseError};
use crate::structures::GalleryPage;
use crate::text::{
    capture_with_suffix, capture_with_suffix_from, chars_of, class_end, exec_class_end, extract,
    find_char, find_char_from, find_from, find_sub, unescape, unescape_from,
};

verus! {

// ---------------------------------------------------------------------------
// A picture page: the displayed image, the "load from another server"
// key, the original-file link, and the API show key.
// ---------------------------------------------------------------------------

/// The source URL of the displayed image: the first `src` attribute that
/// is directly followed by a style attribute.
pub open spec fn image_url_caps(s: Seq<char>) -> Option<(int, int)> {
    capture_with_suffix_from(s, "src=\""@, '"', " style"@, 0)
}

/// The token inside the `nl(...)` click handler.
pub open spec fn skip_key_caps(s: Seq<char>) -> Option<(int, int)> {
    capture_with_suffix_from(s, "onclick=\"return nl('"@, '\'', ")"@, 0)
}

/// The two halves of the original-file link, split around the download
/// endpoint: the first anchor whose quoted target passes through it.
pub open spec fn origin_caps_from(s: Seq<char>, i: int) -> Option<((int, int), (int, int))>
    decreases s.len() - i when 0 <= i <= s.len()
{
    match find_from(s, "<a href=\""@, i) {
        None => None,
        Some(p) => {
            let c0 = p + "<a href=\""@.len();
            match find_char_from(s, '"', c0) {
                None => None,
                Some(qe) => match find_from(s, "fullimg.php"@, c0) {
                    None => None,
                    Some(f) => {
                        let f1 = f + "fullimg.php"@.len();
                        if c0 < f && f1 < qe && qe + 1 < s.len() && s[qe + 1] == '>' {
                            Some(((c0, f), (f1, qe)))
                        } else if i + 1 <= s.len() {
                            origin_caps_from(s, i + 1)
                        } else {
                            None
                        }
                    },
                },
            }
        },
    }
}

pub open spec fn origin_caps(s: Seq<char>) -> Option<((int, int), (int, int))> {
    origin_caps_from(s, 0)
}

proof fn lemma_origin_step(s: Seq<char>, i: int, p: int)
    requires
        0 <= i <= s.len(),
        find_from(s, "<a href=\""@, i) == Some(p),
        "<a href=\""@.len() > 0,
        ({
            let c0 = p + "<a href=\""@.len();
            &&& find_char_from(s, '"', c0) matches Some(qe) && (
            find_from(s, "fullimg.php"@, c0) matches Some(f) && !(c0 < f && f
                + "fullimg.php"@.len() < qe && qe + 1 < s.len() && s[qe + 1] == '>'))
        }),
    ensures
        origin_caps_from(s, i) == origin_caps_from(s, p + 1),
    decreases p - i,
{
    crate::text::lemma_find_from_is_match(s, "<a href=\""@, i, p);
    if i < p {
        lemma_origin_step(s, i + 1, p);
    }
}

/// The show key: quoted lower-case letters and digits after its variable
/// assignment.
pub open spec fn show_key_caps(s: Seq<char>) -> Option<(int, int)> {
    match capture_with_suffix_from(s, "var showkey=\""@, '"', ";"@, 0) {
        None => None,
        Some(c) => if c.1 > c.0 && class_end(s, 6, c.0) >= c.1 {
            Some(c)
        } else {
            None
        },
    }
}

/// Decode the displayed image URL out of a page or API fragment.
pub fn image_url_of(s: &str) -> (r: EhParseResult<String>)
    ensures
        image_url_caps(s@) is None ==> r == Err::<String, ParseError>(ParseError::RegexMatchFailed),
        image_url_caps(s@) matches Some(c) ==> (r matches Ok(u) && u@ == s@.subrange(c.0, c.1)),
{
    let v = chars_of(s);
    proof {
        reveal_strlit("src=\"");
    }
    match capture_with_suffix(&v, &chars_of("src=\""), '"', &chars_of(" style"), 0) {
        None => Err(ParseError::RegexMatchFailed),
        Some(c) => Ok(extract(s, c.0, c.1)),
    }
}

/// Decode the skip-server key out of a page or API fragment.
pub fn skip_key_of(s: &str) -> (r: EhParseResult<String>)
    ensures
        skip_key_caps(s@) is None ==> r == Err::<String, ParseError>(ParseError::RegexMatchFailed),
        skip_key_caps(s@) matches Some(c) ==> (r matches Ok(u) && u@ == s@.subrange(c.0, c.1)),
{
    let v = chars_of(s);
    proof {
        reveal_strlit("onclick=\"return nl('");
    }
    match capture_with_suffix(&v, &chars_of("onclick=\"return nl('"), '\'', &chars_of(")"), 0) {
        None => Err(ParseError::RegexMatchFailed),
        Some(c) => Ok(extract(s, c.0, c.1)),
    }
}

/// Decode the original-file URL out of a page or API fragment: the two
/// link halves around the download endpoint, the tail entity-unescaped.
pub fn origin_url_of(s: &str) -> (r: EhParseResult<String>)
    ensures
        origin_caps(s@) is None ==> r == Err::<String, ParseError>(ParseError::RegexMatchFailed),
        origin_caps(s@) matches Some(c) ==> (r matches Ok(u) && u@ == s@.subrange(c.0.0, c.0.1)
            + "fullimg.php"@ + unescape_from(s@.subrange(c.1.0, c.1.1), 0)),
{
    let v = chars_of(s);
    let n = v.len();
    proof {
        assert(v@.len() == n);
        reveal_strlit("<a href=\"");
    }
    let href_pre = chars_of("<a href=\"");
    let full_lit = chars_of("fullimg.php");
    let mut i: usize = 0;
    loop
        invariant
            i <= n,
            n == v@.len(),
            v@ == s@,
            href_pre@ == "<a href=\""@,
            href_pre@.len() > 0,
            full_lit@ == "fullimg.php"@,
            origin_caps(s@) == origin_caps_from(s@, i as int),
        decreases n - i,
    {
        let p = match find_sub(&v, &href_pre, i) {
            None => {
                return Err(ParseError::RegexMatchFailed);
            },
            Some(p) => p,
        };
        let c0 = p + href_pre.len();
        let qe = match find_char(&v, '"', c0) {
            None => {
                return Err(ParseError::RegexMatchFailed);
            },
            Some(x) => x,
        };
        let f = match find_sub(&v, &full_lit, c0) {
            None => {
                return Err(ParseError::RegexMatchFailed);
            },
            Some(x) => x,
        };
        let f1 = f + full_lit.len();
        if c0 < f && f1 < qe && qe + 1 < n && v[qe + 1] == '>' {
            let mut u = extract(s, c0, f);
            u.append("fullimg.php");
            let tail = unescape(extract(s, f1, qe).as_str());
            u.append(tail.as_str());
            return Ok(u);
        }
        proof {
            lemma_origin_step(s@, i as int, p as int);
        }
        i = p + 1;
    }
}

/// Decode the show key out of a page.
pub fn show_key_of(s: &str) -> (r: EhParseResult<String>)
    ensures
        show_key_caps(s@) is None ==> r == Err::<String, ParseError>(ParseError::RegexMatchFailed),
        show_key_caps(s@) matches Some(c) ==> (r matches Ok(u) && u@ == s@.subrange(c.0, c.1)),
{
    let v = chars_of(s);
    proof {
        reveal_strlit("var showkey=\"");
    }
    match capture_with_suffix(&v, &chars_of("var showkey=\""), '"', &chars_of(";"), 0) {
        None => Err(ParseError::RegexMatchFailed),
        Some(c) => {
            if c.1 > c.0 && exec_class_end(&v, 6, c.0) >= c.1 {
                Ok(extract(s, c.0, c.1))
            } else {
                Err(ParseError::RegexMatchFailed)
            }
        },
    }
}

impl GalleryPage {
    /// Decode a picture page into its four fields, failing on the first
    /// missing pattern.
    pub fn parse(s: &str) -> (r: EhParseResult<GalleryPage>)
        ensures
            r is Ok <==> (image_url_caps(s@) is Some && skip_key_caps(s@) is Some && origin_caps(
                s@,
            ) is Some && show_key_caps(s@) is Some),
            r matches Ok(g) ==> ({
                &&& image_url_caps(s@) matches Some(c) && g.image_url@ == s@.subrange(c.0, c.1)
                &&& skip_key_caps(s@) matches Some(c) && g.skip_hath_key@ == s@.subrange(c.0, c.1)
                &&& origin_caps(s@) matches Some(c) && g.origin_image_url@ == s@.subrange(
                    c.0.0,
                    c.0.1,
                ) + "fullimg.php"@ + unescape_from(s@.subrange(c.1.0, c.1.1), 0)
                &&& show_key_caps(s@) matches Some(c) && g.show_key@ == s@.subrange(c.0, c.1)
            }),
    {
        let image_url = match image_url_of(s) {
            Ok(u) => u,
            Err(e) => {
                return Err(e);
            },
        };
        let skip_hath_key = match skip_key_of(s) {
            Ok(u) => u,
            Err(e) => {
                return Err(e);
            },
        };
        let origin_image_url = match origin_url_of(s) {
            Ok(u) => u,
            Err(e) => {
                return Err(e);
            },
        };
        let show_key = match show_key_of(s) {
            Ok(u) => u,
            Err(e) => {
                return Err(e);
            },
        };
        Ok(GalleryPage { image_url, skip_hath_key, origin_image_url, show_key })
    }
}

impl crate::parser::Parser for GalleryPage {
    fn parse(s: &str) -> EhParseResult<GalleryPage> {
        GalleryPage::parse(s)
    }
}

} // verus!
