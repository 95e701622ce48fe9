use vstd::prelude::*;
use crate::dom::{count_at, nth_outer_html_at, nth_text_at, vis_count, vis_nth_outer_html, vis_nth_text};
use crate::error::{EhParseResult, ParseError};
use crate::parser::gallery_info_parser::{gallery_info_decodes, gallery_info_matches};
use crate::parser::search_nav_parser::search_nav_decodes;
use crate::sentinel::{check_server_state, sentinel_verdict_matches, server_state_ok};
use crate::structures::{GalleryInfo, GalleryList, SearchNav};

verus! {

// ---------------------------------------------------------------------------
// The gallery-list dispatcher: read the selected layout label, collect the
// rows the way that layout arranges them, excise the advertisement row a
// signed-out visitor gets, and hand each row to the row assembler.
// ---------------------------------------------------------------------------

/// The layout label the page carries: the text of the last selected
/// option of the layout selector.
pub open spec fn layout_label(s: Seq<char>) -> Seq<char> {
    vis_nth_text(
        s,
        ".searchnav select[onchange*=inline_set] > option[selected]"@,
        vis_count(s, ".searchnav select[onchange*=inline_set] > option[selected]"@) - 1,
    )
}

pub open spec fn known_layout(l: Seq<char>) -> bool {
    l == "Minimal"@ || l == "Minimal+"@ || l == "Compact"@ || l == "Extended"@ || l == "Thumbnail"@
}

/// The selector that collects a layout's rows.
pub open spec fn list_row_sel(l: Seq<char>) -> Seq<char> {
    if l == "Thumbnail"@ {
        ".itg > .gl1t"@
    } else {
        ".itg > tr"@
    }
}

/// How many leading nodes the layout spends on a header row.
pub open spec fn header_skip(l: Seq<char>) -> int {
    if l == "Thumbnail"@ || l == "Extended"@ {
        0int
    } else {
        1int
    }
}

/// How many data rows the page carries under its layout.
pub open spec fn raw_row_count(s: Seq<char>) -> int {
    vis_count(s, list_row_sel(layout_label(s))) - header_skip(layout_label(s))
}

/// The source node index of the `i`-th decoded row: past the header, and
/// past the advertisement at data index 13 when one was injected.
pub open spec fn list_row_index(s: Seq<char>, i: int) -> int {
    header_skip(layout_label(s)) + (if raw_row_count(s) == 26 && i >= 13 {
        i + 1
    } else {
        i
    })
}

/// The whole list page decodes: the pager, a known layout, 25 rows (26
/// with the advertisement), every row decodable.
pub open spec fn list_decodes(s: Seq<char>) -> bool {
    &&& search_nav_decodes(vis_nth_outer_html(s, ".searchnav"@, 0))
    &&& vis_count(s, ".searchnav select[onchange*=inline_set] > option[selected]"@) > 0
    &&& known_layout(layout_label(s))
    &&& raw_row_count(s) == 25 || raw_row_count(s) == 26
    &&& forall|i: int|
        0 <= i < 25 ==> gallery_info_decodes(
            #[trigger] vis_nth_outer_html(
                s,
                list_row_sel(layout_label(s)),
                list_row_index(s, i),
            ),
        )
}

/// Remove the advertisement row, when one was injected, and insist on the
/// fixed page size: a plain page holds exactly 25 rows; a page with the
/// advertisement holds 26, with the advertisement at index 13.  Any other
/// count does not match the service's layout.
pub fn normalize_rows(rows: Vec<String>) -> (r: Option<Vec<String>>)
    ensures
        rows@.len() == 25 ==> (r matches Some(v) && v@ == rows@),
        rows@.len() == 26 ==> (r matches Some(v) && v@ == rows@.subrange(0, 13) + rows@.subrange(
            14,
            26,
        )),
        rows@.len() != 25 && rows@.len() != 26 ==> r is None,
        r matches Some(v) ==> v@.len() == 25,
{
    if rows.len() == 25 {
        return Some(rows);
    }
    if rows.len() == 26 {
        let ghost orig = rows@;
        let mut trimmed = rows;
        trimmed.remove(13);
        proof {
            assert(trimmed@ =~= orig.subrange(0, 13) + orig.subrange(14, 26));
        }
        return Some(trimmed);
    }
    None
}

/// What a decoded list page guarantees: a known layout, the fixed row
/// count, and every record decoded from its own row node.
pub open spec fn gallery_list_matches(l: GalleryList, s: Seq<char>) -> bool {
    &&& l.gallery_info_vec@.len() == 25
    &&& known_layout(layout_label(s))
    &&& raw_row_count(s) == 25 || raw_row_count(s) == 26
    &&& forall|i: int|
        0 <= i < 25 ==> gallery_info_matches(
            #[trigger] l.gallery_info_vec@[i],
            vis_nth_outer_html(s, list_row_sel(layout_label(s)), list_row_index(s, i)),
        )
}

impl GalleryList {
    /// Decode a whole gallery-list page: the sentinel first, then the
    /// pager, then the 25 rows of whichever of the five layouts the page
    /// was rendered in.  A missing selector or a label outside the five
    /// known ones is a structural error.
    pub fn parse(s: &str) -> (r: EhParseResult<GalleryList>)
        ensures
            sentinel_verdict_matches(r, s@),
            server_state_ok(s@) && search_nav_decodes(vis_nth_outer_html(s@, ".searchnav"@, 0))
                && vis_count(
                s@,
                ".searchnav select[onchange*=inline_set] > option[selected]"@,
            ) == 0 ==> r == Err::<GalleryList, ParseError>(ParseError::DomNotFound),
            server_state_ok(s@) && search_nav_decodes(vis_nth_outer_html(s@, ".searchnav"@, 0))
                && vis_count(
                s@,
                ".searchnav select[onchange*=inline_set] > option[selected]"@,
            ) > 0 && !known_layout(layout_label(s@)) ==> r == Err::<GalleryList, ParseError>(
                ParseError::DomNotFound,
            ),
            server_state_ok(s@) && list_decodes(s@) ==> r is Ok,
            r matches Ok(l) ==> gallery_list_matches(l, s@),
    {
        match check_server_state(s) {
            Err(e) => {
                return Err(e);
            },
            Ok(()) => {},
        }
        let nav_src = nth_outer_html_at(s, ".searchnav", 0);
        let search_nav = match SearchNav::parse(nav_src.as_str()) {
            Ok(n) => n,
            Err(e) => {
                return Err(e);
            },
        };
        let option_sel = ".searchnav select[onchange*=inline_set] > option[selected]";
        let cnt = count_at(s, option_sel);
        if cnt == 0 {
            return Err(ParseError::DomNotFound);
        }
        let label = nth_text_at(s, option_sel, cnt - 1);
        proof {
            reveal_strlit("Minimal");
            reveal_strlit("Minimal+");
            reveal_strlit("Compact");
            reveal_strlit("Extended");
            reveal_strlit("Thumbnail");
            assert("Minimal+"@[0] == 'M' && "Extended"@[0] == 'E');
            assert("Minimal"@.len() == 7 && "Minimal+"@.len() == 8 && "Compact"@.len() == 7
                && "Extended"@.len() == 8 && "Thumbnail"@.len() == 9);
        }
        let (row_sel, skip): (&str, usize) = if label == String::from_str("Minimal") || label
            == String::from_str("Minimal+") || label == String::from_str("Compact") {
            // The first table row is the header.
            (".itg > tr", 1)
        } else if label == String::from_str("Extended") {
            (".itg > tr", 0)
        } else if label == String::from_str("Thumbnail") {
            (".itg > .gl1t", 0)
        } else {
            return Err(ParseError::DomNotFound);
        };
        proof {
            assert(label@ == vis_nth_text(
                s@,
                ".searchnav select[onchange*=inline_set] > option[selected]"@,
                cnt - 1,
            ));
            assert(label@ == layout_label(s@));
            assert(row_sel@ == list_row_sel(layout_label(s@)));
            assert(skip == header_skip(layout_label(s@)));
        }
        let raw = collect_rows(s, row_sel, skip);
        let ghost raw_n = raw@.len() as int;
        let rows = match normalize_rows(raw) {
            None => {
                return Err(ParseError::DomNotFound);
            },
            Some(v) => v,
        };
        proof {
            assert(raw_n == raw_row_count(s@));
            assert forall|j: int| 0 <= j < 25 implies (#[trigger] rows@[j])@ == vis_nth_outer_html(
                s@,
                list_row_sel(layout_label(s@)),
                list_row_index(s@, j),
            ) by {
                if raw_n == 26 && j >= 13 {
                    assert(rows@[j] == rows@.subrange(13, 25)[j - 13]);
                } else {
                }
            }
        }
        let n = rows.len();
        let mut gallery_info_vec: Vec<GalleryInfo> = Vec::new();
        let mut i: usize = 0;
        while i < n
            invariant
                i <= n,
                n == 25,
                n == rows@.len(),
                server_state_ok(s@),
                vis_count(s@, ".searchnav select[onchange*=inline_set] > option[selected]"@) > 0,
                known_layout(layout_label(s@)),
                raw_row_count(s@) == 25 || raw_row_count(s@) == 26,
                forall|j: int|
                    0 <= j < 25 ==> (#[trigger] rows@[j])@ == vis_nth_outer_html(
                        s@,
                        list_row_sel(layout_label(s@)),
                        list_row_index(s@, j),
                    ),
                gallery_info_vec@.len() == i,
                forall|j: int|
                    0 <= j < i ==> gallery_info_matches(
                        #[trigger] gallery_info_vec@[j],
                        vis_nth_outer_html(
                            s@,
                            list_row_sel(layout_label(s@)),
                            list_row_index(s@, j),
                        ),
                    ),
            decreases n - i,
        {
            match GalleryInfo::parse(rows[i].as_str()) {
                Ok(g) => {
                    gallery_info_vec.push(g);
                },
                Err(e) => {
                    proof {
                        assert(!gallery_info_decodes(
                            vis_nth_outer_html(
                                s@,
                                list_row_sel(layout_label(s@)),
                                list_row_index(s@, i as int),
                            ),
                        ));
                    }
                    return Err(e);
                },
            }
            i += 1;
        }
        Ok(GalleryList { search_nav, gallery_info_vec })
    }
}

/// The outer markup of the rows matching `sel`, from index `from` on.
fn collect_rows(s: &str, sel: &str, from: usize) -> (r: Vec<String>)
    requires
        crate::dom::benign_selector(sel@),
    ensures
        r@.len() == (if from as int <= vis_count(s@, sel@) {
            vis_count(s@, sel@) - from as int
        } else {
            0int
        }),
        forall|j: int|
            0 <= j < r@.len() ==> (#[trigger] r@[j])@ == vis_nth_outer_html(s@, sel@, from + j),
{
    let n = count_at(s, sel);
    let mut out: Vec<String> = Vec::new();
    let mut i = from;
    while i < n
        invariant
            crate::dom::benign_selector(sel@),
            from <= i,
            i <= n || i == from,
            n == vis_count(s@, sel@),
            out@.len() == (if from <= i {
                i - from
            } else {
                0
            }),
            forall|j: int|
                0 <= j < out@.len() ==> (#[trigger] out@[j])@ == vis_nth_outer_html(
                    s@,
                    sel@,
                    from + j,
                ),
        decreases n - i,
    {
        out.push(nth_outer_html_at(s, sel, i));
        i += 1;
    }
    out
}

impl crate::parser::Parser for GalleryList {
    fn parse(s: &str) -> EhParseResult<GalleryList> {
        GalleryList::parse(s)
    }
}

} // verus!
