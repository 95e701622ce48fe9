use vstd::prelude::*;
use crate::error::{EhParseResult, ParseError};
use crate::jsonval::{i64_field, json_i64_field, json_num_text_field, num_text_field};
use crate::structures::RateGallery;
use crate::text::{centi_val, chars_of, decimal_at, scan_centi};

verus! {

/// The rate-gallery response decodes: the average is a number whose
/// fixed-point value fits, and the count fits its type.
pub open spec fn rate_gallery_decodes(doc: Seq<char>) -> bool {
    &&& json_num_text_field(doc, "rating_avg"@) matches Some(t) && (decimal_at(t, 0)
        matches Some(parts) && centi_val(
        t.subrange(parts.0.0, parts.0.1),
        t.subrange(parts.1.0, parts.1.1),
    ) <= i64::MAX)
    &&& json_i64_field(doc, "rating_cnt"@) matches Some(c) && i32::MIN <= c <= i32::MAX
}

impl RateGallery {
    /// Decode the rate-gallery response `{rating_avg, rating_cnt}`.  The
    /// average arrives as a decimal number and is held in hundredths.
    pub fn parse(s: &str) -> (r: EhParseResult<RateGallery>)
        ensures
            r is Ok <==> rate_gallery_decodes(s@),
            r matches Ok(v) ==> ({
                &&& json_num_text_field(s@, "rating_avg"@) matches Some(t) && (decimal_at(t, 0)
                    matches Some(parts) && v.rating_centi as int == centi_val(
                    t.subrange(parts.0.0, parts.0.1),
                    t.subrange(parts.1.0, parts.1.1),
                ))
                &&& json_i64_field(s@, "rating_cnt"@) == Some(v.rating_count as i64)
            }),
    {
        let avg_text = match num_text_field(s, "rating_avg") {
            None => {
                return Err(ParseError::Other(String::from_str("rating_avg cannot be read")));
            },
            Some(x) => x,
        };
        let avg_chars = chars_of(avg_text.as_str());
        let rating_centi = match scan_centi(&avg_chars, 0) {
            Some(Ok(c)) => c,
            _ => {
                return Err(ParseError::Other(String::from_str("rating_avg is out of range")));
            },
        };
        let cnt64 = match i64_field(s, "rating_cnt") {
            None => {
                return Err(ParseError::Other(String::from_str("rating_cnt cannot be read")));
            },
            Some(x) => x,
        };
        if cnt64 > i32::MAX as i64 || cnt64 < i32::MIN as i64 {
            return Err(ParseError::Other(String::from_str("rating_cnt is out of range")));
        }
        Ok(RateGallery { rating_centi, rating_count: cnt64 as i32 })
    }
}

impl crate::parser::Parser for RateGallery {
    fn parse(s: &str) -> EhParseResult<RateGallery> {
        RateGallery::parse(s)
    }
}

} // verus!
