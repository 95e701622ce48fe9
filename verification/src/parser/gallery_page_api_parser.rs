use vstd::prelude::*;
use crate::error::{EhParseResult, ParseError};
use crate::jsonval::{json_str_field, str_field};
use crate::parser::gallery_page_parser::{
    image_url_caps, image_url_of, origin_caps, origin_url_of, skip_key_caps, skip_key_of,
};
use crate::structures::GalleryPageApi;
use crate::text::unescape_from;

verus! {

/// The picture API response decodes: the three markup fragments are
/// present as strings and each carries its field.
pub open spec fn page_api_decodes(doc: Seq<char>) -> bool {
    &&& json_str_field(doc, "i3"@) matches Some(i3) && image_url_caps(i3) is Some
    &&& json_str_field(doc, "i6"@) matches Some(i6) && skip_key_caps(i6) is Some
    &&& json_str_field(doc, "i7"@) matches Some(i7) && origin_caps(i7) is Some
}

impl GalleryPageApi {
    /// Decode the picture API response: three markup fragments delivered
    /// as JSON strings, each decoded by the picture-page field decoders.
    pub fn parse(s: &str) -> (r: EhParseResult<GalleryPageApi>)
        ensures
            r is Ok <==> page_api_decodes(s@),
            r matches Ok(g) ==> ({
                &&& json_str_field(s@, "i3"@) matches Some(i3) && (image_url_caps(i3)
                    matches Some(c) && g.image_url@ == i3.subrange(c.0, c.1))
                &&& json_str_field(s@, "i6"@) matches Some(i6) && (skip_key_caps(i6)
                    matches Some(c) && g.skip_hath_key@ == i6.subrange(c.0, c.1))
                &&& json_str_field(s@, "i7"@) matches Some(i7) && (origin_caps(i7) matches Some(c)
                    && g.origin_image_url@ == i7.subrange(c.0.0, c.0.1) + "fullimg.php"@
                    + unescape_from(i7.subrange(c.1.0, c.1.1), 0))
            }),
    {
        let i3 = match str_field(s, "i3") {
            None => {
                return Err(ParseError::Other(String::from_str("i3 cannot be read")));
            },
            Some(x) => x,
        };
        let i6 = match str_field(s, "i6") {
            None => {
                return Err(ParseError::Other(String::from_str("i6 cannot be read")));
            },
            Some(x) => x,
        };
        let i7 = match str_field(s, "i7") {
            None => {
                return Err(ParseError::Other(String::from_str("i7 cannot be read")));
            },
            Some(x) => x,
        };
        let image_url = match image_url_of(i3.as_str()) {
            Ok(u) => u,
            Err(e) => {
                return Err(e);
            },
        };
        let skip_hath_key = match skip_key_of(i6.as_str()) {
            Ok(u) => u,
            Err(e) => {
                return Err(e);
            },
        };
        let origin_image_url = match origin_url_of(i7.as_str()) {
            Ok(u) => u,
            Err(e) => {
                return Err(e);
            },
        };
        Ok(GalleryPageApi { image_url, skip_hath_key, origin_image_url })
    }
}

impl crate::parser::Parser for GalleryPageApi {
    fn parse(s: &str) -> EhParseResult<GalleryPageApi> {
        GalleryPageApi::parse(s)
    }
}

} // verus!
