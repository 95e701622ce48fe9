use vstd::prelude::*;
use crate::dom::{text_at, vis_text};
use crate::error::EhParseResult;
use crate::structures::GalleryNotAvailable;

verus! {

impl GalleryNotAvailable {
    /// Decode the removal notice of an unavailable gallery: the first
    /// paragraph of the error box, verbatim.  Total: a page without the
    /// box yields the empty notice.
    pub fn parse(s: &str) -> (r: EhParseResult<GalleryNotAvailable>)
        ensures
            r matches Ok(n) && n.error@ == vis_text(s@, ".d p:first-child"@),
    {
        Ok(GalleryNotAvailable { error: text_at(s, ".d p:first-child") })
    }
}

impl crate::parser::Parser for GalleryNotAvailable {
    fn parse(s: &str) -> EhParseResult<GalleryNotAvailable> {
        GalleryNotAvailable::parse(s)
    }
}

} // verus!
