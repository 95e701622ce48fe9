use vstd::prelude::*;
use crate::dom::{count_at, nth_child_text_at, vis_count, vis_nth_child_text};
use crate::error::{EhParseResult, ParseError};
use crate::parser::gallery_detail_parser::{plain_num, plain_u32};
use crate::parser::gallery_list_parser::{gallery_list_matches, list_decodes};
use crate::sentinel::{check_server_state, sentinel_verdict_matches, server_state_ok};
use crate::structures::{Favorite, GalleryList, SearchNav};

verus! {

/// The ten slot rows decode: the container carries exactly ten of them,
/// and each row's first cell is a plain count.
pub open spec fn favorite_slots_decode(s: Seq<char>) -> bool {
    &&& vis_count(s, ".ido [class=fp]"@) == 10
    &&& forall|i: int|
        0 <= i < 10 ==> plain_num(#[trigger] vis_nth_child_text(s, ".ido [class=fp]"@, i, 0))
            is Some
}

impl Favorite {
    /// Decode the favorites page: the sentinel first — this page above all
    /// requires a signed-in visitor — then the ten slot counts and names,
    /// read from each slot row's first and third cell, the pager, and the
    /// gallery list the page also carries.
    pub fn parse(s: &str) -> (r: EhParseResult<Favorite>)
        ensures
            sentinel_verdict_matches(r, s@),
            server_state_ok(s@) && favorite_slots_decode(s@) && list_decodes(s@) ==> r is Ok,
            server_state_ok(s@) && vis_count(s@, ".ido [class=fp]"@) != 10 ==> r == Err::<
                Favorite,
                ParseError,
            >(ParseError::DomNotFound),
            r matches Ok(f) ==> ({
                &&& f.cat_vec@.len() == 10 && f.count_vec@.len() == 10
                &&& vis_count(s@, ".ido [class=fp]"@) == 10
                &&& forall|i: int|
                    0 <= i < 10 ==> plain_num(
                        #[trigger] vis_nth_child_text(s@, ".ido [class=fp]"@, i, 0),
                    ) == Some(f.count_vec@[i] as int) && f.cat_vec@[i]@ == vis_nth_child_text(
                        s@,
                        ".ido [class=fp]"@,
                        i,
                        2,
                    )
                &&& gallery_list_matches(f.gallery_list, s@)
            }),
    {
        match check_server_state(s) {
            Err(e) => {
                return Err(e);
            },
            Ok(()) => {},
        }
        if count_at(s, ".ido [class=fp]") != 10 {
            return Err(ParseError::DomNotFound);
        }
        let mut cat_vec: Vec<String> = Vec::new();
        let mut count_vec: Vec<u32> = Vec::new();
        let mut i: usize = 0;
        while i < 10
            invariant
                i <= 10,
                server_state_ok(s@),
                vis_count(s@, ".ido [class=fp]"@) == 10,
                cat_vec@.len() == i,
                count_vec@.len() == i,
                forall|j: int|
                    0 <= j < i ==> plain_num(
                        #[trigger] vis_nth_child_text(s@, ".ido [class=fp]"@, j, 0),
                    ) == Some(count_vec@[j] as int) && cat_vec@[j]@ == vis_nth_child_text(
                        s@,
                        ".ido [class=fp]"@,
                        j,
                        2,
                    ),
            decreases 10 - i,
        {
            let count_text = nth_child_text_at(s, ".ido [class=fp]", i, 0);
            let count = match plain_u32(count_text.as_str()) {
                Ok(c) => c,
                Err(e) => {
                    return Err(e);
                },
            };
            count_vec.push(count);
            cat_vec.push(nth_child_text_at(s, ".ido [class=fp]", i, 2));
            i += 1;
        }
        let search_nav = match SearchNav::parse(
            crate::dom::nth_outer_html_at(s, ".searchnav", 0).as_str(),
        ) {
            Ok(n) => n,
            Err(e) => {
                return Err(e);
            },
        };
        let gallery_list = match GalleryList::parse(s) {
            Ok(l) => l,
            Err(e) => {
                return Err(e);
            },
        };
        Ok(Favorite { search_nav, cat_vec, count_vec, gallery_list })
    }
}

impl crate::parser::Parser for Favorite {
    fn parse(s: &str) -> EhParseResult<Favorite> {
        Favorite::parse(s)
    }
}

} // verus!
