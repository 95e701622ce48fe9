use vstd::prelude::*;
use crate::error::{EhParseResult, ParseError};
use crate::jsonval::{json_root_item_str, json_root_list_len, root_item_str, root_list_len};
use crate::structures::GalleryMultiPageViewerPToken;
use crate::text::{chars_of, extract, find_char, find_char_from, find_from, find_sub};

verus! {

/// The bounds of the image-list text: the JSON assigned to the script
/// variable, up to the closing semicolon.
pub open spec fn mpv_caps(s: Seq<char>) -> Option<(int, int)> {
    match find_from(s, "var imagelist = "@, 0) {
        None => None,
        Some(p) => {
            let c0 = p + "var imagelist = "@.len();
            match find_char_from(s, ';', c0) {
                None => None,
                Some(e) => Some((c0, e)),
            }
        },
    }
}

/// The embedded list decodes: the captured text is a JSON array whose
/// every element is a string.
pub open spec fn mpv_decodes(s: Seq<char>) -> bool {
    mpv_caps(s) matches Some(c) && ({
        let doc = s.subrange(c.0, c.1);
        json_root_list_len(doc) matches Some(n) && forall|i: int|
            0 <= i < n ==> #[trigger] json_root_item_str(doc, i) is Some
    })
}

impl GalleryMultiPageViewerPToken {
    /// Decode the image list embedded in the multi-page viewer: the JSON
    /// array assigned to its script variable.
    pub fn parse(s: &str) -> (r: EhParseResult<GalleryMultiPageViewerPToken>)
        ensures
            mpv_caps(s@) is None ==> r == Err::<GalleryMultiPageViewerPToken, ParseError>(
                ParseError::RegexMatchFailed,
            ),
            r is Ok <==> mpv_decodes(s@),
            r matches Ok(t) ==> (mpv_caps(s@) matches Some(c) && ({
                let doc = s@.subrange(c.0, c.1);
                &&& json_root_list_len(doc) == Some(t.image_vec@.len() as nat)
                &&& forall|i: int|
                    0 <= i < t.image_vec@.len() ==> #[trigger] json_root_item_str(doc, i) == Some(
                        t.image_vec@[i]@,
                    )
            })),
    {
        let v = chars_of(s);
        let n = v.len();
        proof {
            assert(v@.len() == n);
        }
        let pre = chars_of("var imagelist = ");
        let p = match find_sub(&v, &pre, 0) {
            None => {
                return Err(ParseError::RegexMatchFailed);
            },
            Some(p) => p,
        };
        let c0 = p + pre.len();
        let e = match find_char(&v, ';', c0) {
            None => {
                return Err(ParseError::RegexMatchFailed);
            },
            Some(e) => e,
        };
        let list_text = extract(s, c0, e);
        let ln = match root_list_len(list_text.as_str()) {
            None => {
                return Err(ParseError::Other(String::from_str("image list is no array")));
            },
            Some(x) => x,
        };
        let mut image_vec: Vec<String> = Vec::new();
        let mut i: usize = 0;
        while i < ln
            invariant
                i <= ln,
                mpv_caps(s@) == Some((c0 as int, e as int)),
                json_root_list_len(list_text@) == Some(ln as nat),
                list_text@ == s@.subrange(c0 as int, e as int),
                image_vec@.len() == i,
                forall|j: int|
                    0 <= j < i ==> #[trigger] json_root_item_str(list_text@, j) == Some(
                        image_vec@[j]@,
                    ),
            decreases ln - i,
        {
            match root_item_str(list_text.as_str(), i) {
                None => {
                    proof {
                        assert(json_root_item_str(s@.subrange(c0 as int, e as int), i as int)
                            is None);
                    }
                    return Err(ParseError::Other(String::from_str("image entry is no string")));
                },
                Some(x) => {
                    image_vec.push(x);
                },
            }
            i += 1;
        }
        proof {
            let doc = s@.subrange(c0 as int, e as int);
            assert(doc == list_text@);
            assert forall|i2: int|
                0 <= i2 < image_vec@.len() implies #[trigger] json_root_item_str(doc, i2) == Some(
                image_vec@[i2]@,
            ) by {
                assert(json_root_item_str(list_text@, i2) == Some(image_vec@[i2]@));
            }
        }
        Ok(GalleryMultiPageViewerPToken { image_vec })
    }
}

impl crate::parser::Parser for GalleryMultiPageViewerPToken {
    fn parse(s: &str) -> EhParseResult<GalleryMultiPageViewerPToken> {
        GalleryMultiPageViewerPToken::parse(s)
    }
}

} // verus!
