use vstd::prelude::*;
use crate::dom::{count_at, nth_text_at, text_at, vis_count, vis_nth_text, vis_text};
use crate::error::{EhParseResult, ParseError};
use crate::structures::GalleryTagGroup;

verus! {

/// What a decoded tag row guarantees against its markup: the group label
/// from the label cell, one tag per anchor, in document order.
pub open spec fn tag_group_matches(g: GalleryTagGroup, row: Seq<char>) -> bool {
    &&& g.tag_group_name@ == vis_text(row, ".tc"@)
    &&& g.tag_vec@.len() == vis_count(row, "div > a"@)
    &&& forall|i: int|
        0 <= i < g.tag_vec@.len() ==> (#[trigger] g.tag_vec@[i])@ == vis_nth_text(
            row,
            "div > a"@,
            i,
        )
}

impl GalleryTagGroup {
    /// Decode one tag-table row: the group label cell, then one anchor per
    /// tag, in document order; a row without anchors is no tag row.
    pub fn parse(s: &str) -> (r: EhParseResult<GalleryTagGroup>)
        ensures
            vis_count(s@, "div > a"@) == 0 <==> r == Err::<GalleryTagGroup, ParseError>(
                ParseError::DomNotFound,
            ),
            vis_count(s@, "div > a"@) > 0 ==> r is Ok,
            r matches Ok(g) ==> tag_group_matches(g, s@) && g.tag_vec@.len() > 0,
    {
        let tag_group_name = text_at(s, ".tc");
        let n = count_at(s, "div > a");
        if n == 0 {
            return Err(ParseError::DomNotFound);
        }
        let mut tag_vec: Vec<String> = Vec::new();
        let mut i: usize = 0;
        while i < n
            invariant
                i <= n,
                n == vis_count(s@, "div > a"@),
                n > 0,
                tag_vec@.len() == i,
                forall|j: int|
                    0 <= j < i ==> (#[trigger] tag_vec@[j])@ == vis_nth_text(s@, "div > a"@, j),
            decreases n - i,
        {
            tag_vec.push(nth_text_at(s, "div > a", i));
            i += 1;
        }
        Ok(GalleryTagGroup { tag_group_name, tag_vec })
    }
}

impl crate::parser::Parser for GalleryTagGroup {
    fn parse(s: &str) -> EhParseResult<GalleryTagGroup> {
        GalleryTagGroup::parse(s)
    }
}

} // verus!
