use vstd::prelude::*;
use crate::dom::{count_at, nth_outer_html_at, vis_count, vis_nth_outer_html};
use crate::error::{EhParseResult, ParseError};
use crate::parser::gallery_tag_group_parser::tag_group_matches;
use crate::structures::{GalleryTagGroup, GalleryTagGroupList};

verus! {

/// Every table row decodes: each carries at least one tag anchor.
pub open spec fn tag_rows_decode(t: Seq<char>) -> bool {
    forall|i: int|
        0 <= i < vis_count(t, "tr"@) ==> vis_count(
            #[trigger] vis_nth_outer_html(t, "tr"@, i),
            "div > a"@,
        ) > 0
}

impl GalleryTagGroupList {
    /// Decode the whole tag table: one group per table row, in document
    /// order; the first malformed row aborts.
    pub fn parse(s: &str) -> (r: EhParseResult<GalleryTagGroupList>)
        ensures
            tag_rows_decode(s@) ==> r is Ok,
            r matches Ok(l) ==> ({
                &&& l.group_vec@.len() == vis_count(s@, "tr"@)
                &&& forall|i: int|
                    0 <= i < l.group_vec@.len() ==> tag_group_matches(
                        #[trigger] l.group_vec@[i],
                        vis_nth_outer_html(s@, "tr"@, i),
                    )
            }),
    {
        let n = count_at(s, "tr");
        let mut group_vec: Vec<GalleryTagGroup> = Vec::new();
        let mut i: usize = 0;
        while i < n
            invariant
                i <= n,
                n == vis_count(s@, "tr"@),
                group_vec@.len() == i,
                forall|j: int|
                    0 <= j < i ==> tag_group_matches(
                        #[trigger] group_vec@[j],
                        vis_nth_outer_html(s@, "tr"@, j),
                    ),
            decreases n - i,
        {
            let row = nth_outer_html_at(s, "tr", i);
            match GalleryTagGroup::parse(row.as_str()) {
                Ok(g) => {
                    group_vec.push(g);
                },
                Err(e) => {
                    proof {
                        assert(vis_count(vis_nth_outer_html(s@, "tr"@, i as int), "div > a"@)
                            == 0);
                    }
                    return Err(e);
                },
            }
            i += 1;
        }
        Ok(GalleryTagGroupList { group_vec })
    }
}

impl crate::parser::Parser for GalleryTagGroupList {
    fn parse(s: &str) -> EhParseResult<GalleryTagGroupList> {
        GalleryTagGroupList::parse(s)
    }
}

} // verus!
