use vstd::prelude::*;
use crate::dom::{
    attr_at, count_at, html_at, nth_attr_at, nth_outer_html_at, nth_text_at, outer_html_at,
    text_at, vis_attr, vis_count, vis_html, vis_nth_attr, vis_nth_outer_html, vis_nth_text,
    vis_outer_html, vis_text,
};
use crate::date::posted_epoch;
use crate::error::{EhParseResult, ParseError};
use crate::parser::category_parser::{cat_index_of, cat_value};
use crate::parser::favorite_slot_parser::{rgba_captures, slot_of};
use crate::parser::gallery_detail_url_parser::identity_matches;
use crate::sentinel::sentinel_verdict_matches;
use crate::structures::{
    GalleryComment, GalleryCommentList, GalleryDetailDetail, GalleryPreviewLarge,
    GalleryPreviewMedium, GalleryTagGroup,
};
use crate::text::{
    centi_val, chars_of, class_end, contains_seq, contains_sub, dec_str, decimal_at, digits_end,
    eq_at, exec_class_end, exec_digits_end, exec_trim_back, extract, find_char, find_char_from,
    find_from, find_num_before, find_sub, lemma_digits_end_bounds, match_at, num_before_from,
    num_val, opt_view_is, parse_u64_range, trim_back,
};

verus! {

// ---------------------------------------------------------------------------
// Comments.  A comment arrives as an anchor marker `<a name="c<id>"></a>`
// followed by a content block; the marker carries the numeric id.
// ---------------------------------------------------------------------------

/// The digit capture of the first comment marker in `s`.
pub open spec fn comment_id_caps(s: Seq<char>) -> Option<(int, int)> {
    match find_from(s, "<a name=\"c"@, 0) {
        None => None,
        Some(p) => {
            let d0 = p + "<a name=\"c"@.len();
            let de = digits_end(s, d0);
            if de > d0 && match_at(s, "\"></a>"@, de) {
                Some((d0, de))
            } else {
                None
            }
        },
    }
}

/// The date capture of the posting line `Posted on <date> by: ...`.
pub open spec fn posted_caps(t: Seq<char>) -> Option<(int, int)> {
    match find_from(t, "Posted"@, 0) {
        None => None,
        Some(q) => {
            let a = class_end(t, 5, q + "Posted"@.len());
            if match_at(t, "on"@, a) {
                let c0 = class_end(t, 5, a + "on"@.len());
                if c0 < t.len() {
                    match find_from(t, "by"@, c0 + 1) {
                        None => None,
                        Some(b) => {
                            let ce = trim_back(t, c0, b);
                            if ce > c0 {
                                Some((c0, ce))
                            } else {
                                None
                            }
                        },
                    }
                } else {
                    None
                }
            } else {
                None
            }
        },
    }
}

/// The selector of a comment's score span.
pub open spec fn score_sel(id: u64) -> Seq<char> {
    ".c5 #comment_score_"@ + dec_str(id as nat)
}

/// The numeric value of a score text: a sign character stripped, the rest
/// a plain number that fits the score type.
pub open spec fn score_text_val(t: Seq<char>) -> Option<int> {
    if t.len() >= 2 && digits_end(t, 1) == t.len() && num_val(t.subrange(1, t.len() as int))
        <= u32::MAX {
        Some(num_val(t.subrange(1, t.len() as int)) as int)
    } else {
        None
    }
}

/// The `i`-th action anchor carries the given label, with or without a
/// style attribute.
pub open spec fn anchor_flag(s: Seq<char>, i: int, label: Seq<char>, styled: bool) -> bool {
    &&& 0 <= i < vis_count(s, ".c4 > a"@)
    &&& vis_nth_text(s, ".c4 > a"@, i) == label
    &&& (vis_nth_attr(s, ".c4 > a"@, i, "style"@) is Some) == styled
}

/// The `i`-th action anchor carries the given label and a non-empty style:
/// the already-voted state.
pub open spec fn anchor_voted(s: Seq<char>, i: int, label: Seq<char>) -> bool {
    &&& 0 <= i < vis_count(s, ".c4 > a"@)
    &&& vis_nth_text(s, ".c4 > a"@, i) == label
    &&& vis_nth_attr(s, ".c4 > a"@, i, "style"@) matches Some(st) && st.len() > 0
}

/// The already-voted state after scanning the first `i` action anchors:
/// the style emptiness of the last styled anchor carrying the label, as
/// the decoder overwrites the flag per anchor.
pub open spec fn voted_state(s: Seq<char>, label: Seq<char>, i: int) -> bool
    decreases i when i >= 0
{
    if i <= 0 {
        false
    } else if anchor_flag(s, i - 1, label, true) {
        anchor_voted(s, i - 1, label)
    } else {
        voted_state(s, label, i - 1)
    }
}

/// What every decoded comment guarantees against its markup: the id from
/// the first marker; the posted timestamp normalized from the posting
/// line; author, body and vote state from their blocks; the uploader flag
/// from the action row's exact text; vote and edit affordances from the
/// labeled action anchors; and the sign-stripped score — the latter only
/// for non-uploader comments, which alone carry them.
pub open spec fn comment_matches(c: GalleryComment, s: Seq<char>) -> bool {
    &&& comment_id_caps(s) matches Some(cap) && c.id == num_val(s.subrange(cap.0, cap.1))
    &&& posted_caps(vis_text(s, ".c3"@)) matches Some(pc) && posted_epoch(
        vis_text(s, ".c3"@).subrange(pc.0, pc.1),
    ) == Some(c.posted_timestamp as int)
    &&& c.user@ == vis_text(s, ".c3 > a"@)
    &&& c.comment@ == vis_html(s, ".c6"@)
    &&& c.last_edited_timestamp_opt == (if vis_count(s, ".c8"@) > 0 {
        Some(c.posted_timestamp)
    } else {
        None::<i64>
    })
    &&& c.is_uploader == (vis_text(s, ".c4"@) == "Uploader Comment"@)
    &&& c.is_uploader ==> (c.score_opt is None && c.vote_state_opt is None && !c.vote_up_able
        && !c.vote_up_ed && !c.vote_down_able && !c.vote_down_ed && !c.editable)
    &&& !c.is_uploader ==> ({
        &&& c.vote_state_opt matches Some(vs) && vs@ == vis_text(s, ".c7"@)
        &&& c.score_opt matches Some(sc) && score_text_val(vis_text(s, score_sel(c.id))) == Some(
            sc as int,
        )
        &&& c.vote_up_able == (exists|i: int| anchor_flag(s, i, "Vote+"@, true))
        &&& c.vote_down_able == (exists|i: int| anchor_flag(s, i, "Vote-"@, true))
        &&& c.editable == (exists|i: int| anchor_flag(s, i, "Edit"@, false))
        &&& c.vote_up_ed == voted_state(s, "Vote+"@, vis_count(s, ".c4 > a"@) as int)
        &&& c.vote_down_ed == voted_state(s, "Vote-"@, vis_count(s, ".c4 > a"@) as int)
    })
}

/// A comment's markup decodes: the marker id fits, the posting line holds
/// a valid date, and a non-uploader comment carries a well-formed score.
pub open spec fn comment_decodes(s: Seq<char>) -> bool {
    &&& comment_id_caps(s) matches Some(cap) && ({
        &&& num_val(s.subrange(cap.0, cap.1)) <= u64::MAX
        &&& posted_caps(vis_text(s, ".c3"@)) matches Some(pc) && posted_epoch(
            vis_text(s, ".c3"@).subrange(pc.0, pc.1),
        ) is Some
        &&& (vis_text(s, ".c4"@) == "Uploader Comment"@ || score_text_val(
            vis_text(s, score_sel((num_val(s.subrange(cap.0, cap.1)) as u64))),
        ) is Some)
    })
}

impl GalleryComment {
    /// Decode one comment from its marker plus content block.  The posted
    /// date is normalized to seconds since the epoch; vote affordances are
    /// decoded only for non-uploader comments.
    pub fn parse(s: &str) -> (r: EhParseResult<GalleryComment>)
        ensures
            r matches Ok(c) ==> comment_matches(c, s@),
            comment_id_caps(s@) is None ==> r == Err::<GalleryComment, ParseError>(
                ParseError::RegexMatchFailed,
            ),
            comment_decodes(s@) ==> r is Ok,
    {
        let v = chars_of(s);
        let marker = chars_of("<a name=\"c");
        let p = match find_sub(&v, &marker, 0) {
            None => {
                return Err(ParseError::RegexMatchFailed);
            },
            Some(p) => p,
        };
        let d0 = p + marker.len();
        let de = exec_digits_end(&v, d0);
        proof {
            lemma_digits_end_bounds(v@, d0 as int);
        }
        let close = chars_of("\"></a>");
        if !(de > d0 && close.len() <= v.len() - de && eq_at(&v, de, &close)) {
            return Err(ParseError::RegexMatchFailed);
        }
        let id = match parse_u64_range(&v, d0, de) {
            None => {
                return Err(ParseError::Other(String::from_str("id is out of range")));
            },
            Some(x) => x,
        };
        // The posting line reads `Posted on <date> by: <author>`.
        let posted = text_at(s, ".c3");
        let pv = chars_of(posted.as_str());
        let pvn = pv.len();
        proof {
            assert(pv@.len() == pvn);
        }
        let posted_lit = chars_of("Posted");
        let q = match find_sub(&pv, &posted_lit, 0) {
            None => {
                return Err(ParseError::RegexMatchFailed);
            },
            Some(q) => q,
        };
        let a = exec_class_end(&pv, 5, q + posted_lit.len());
        let on_lit = chars_of("on");
        if !(on_lit.len() <= pv.len() - a && eq_at(&pv, a, &on_lit)) {
            return Err(ParseError::RegexMatchFailed);
        }
        let c0 = exec_class_end(&pv, 5, a + on_lit.len());
        if !(c0 < pv.len()) {
            return Err(ParseError::RegexMatchFailed);
        }
        let b = match find_sub(&pv, &chars_of("by"), c0 + 1) {
            None => {
                return Err(ParseError::RegexMatchFailed);
            },
            Some(b) => b,
        };
        let ce = exec_trim_back(&pv, c0, b);
        if !(ce > c0) {
            return Err(ParseError::RegexMatchFailed);
        }
        let date_text = extract(posted.as_str(), c0, ce);
        let posted_timestamp = match crate::date::parse_posted(date_text.as_str()) {
            None => {
                return Err(ParseError::Other(String::from_str("date cannot be decoded")));
            },
            Some(t) => t,
        };
        let user = text_at(s, ".c3 > a");
        let comment = html_at(s, ".c6");
        let last_edited_timestamp_opt = if count_at(s, ".c8") > 0 {
            Some(posted_timestamp)
        } else {
            None
        };
        let is_uploader = text_at(s, ".c4") == String::from_str("Uploader Comment");
        let mut vote_up_able = false;
        let mut vote_up_ed = false;
        let mut vote_down_able = false;
        let mut vote_down_ed = false;
        let mut editable = false;
        let mut vote_state_opt: Option<String> = None;
        let mut score_opt: Option<u32> = None;
        if !is_uploader {
            let an = count_at(s, ".c4 > a");
            let mut i: usize = 0;
            while i < an
                invariant
                    i <= an,
                    an == vis_count(s@, ".c4 > a"@),
                    vote_up_able == (exists|j: int| j < i && anchor_flag(s@, j, "Vote+"@, true)),
                    vote_down_able == (exists|j: int| j < i && anchor_flag(s@, j, "Vote-"@, true)),
                    editable == (exists|j: int| j < i && anchor_flag(s@, j, "Edit"@, false)),
                    vote_up_ed == voted_state(s@, "Vote+"@, i as int),
                    vote_down_ed == voted_state(s@, "Vote-"@, i as int),
                decreases an - i,
            {
                proof {
                    reveal_strlit("Vote+");
                    reveal_strlit("Vote-");
                    reveal_strlit("Edit");
                    assert("Vote+"@[4] == '+' && "Vote-"@[4] == '-');
                    assert("Vote+"@.len() == 5 && "Vote-"@.len() == 5 && "Edit"@.len() == 4);
                }
                let t = nth_text_at(s, ".c4 > a", i);
                match nth_attr_at(s, ".c4 > a", i, "style") {
                    Some(style) => {
                        if t == String::from_str("Vote+") {
                            vote_up_able = true;
                            vote_up_ed = !style.as_str().is_empty();
                            proof {
                                assert(anchor_flag(s@, i as int, "Vote+"@, true));
                                if vote_up_ed {
                                    assert(anchor_voted(s@, i as int, "Vote+"@));
                                }
                            }
                        } else if t == String::from_str("Vote-") {
                            vote_down_able = true;
                            vote_down_ed = !style.as_str().is_empty();
                            proof {
                                assert(anchor_flag(s@, i as int, "Vote-"@, true));
                                if vote_down_ed {
                                    assert(anchor_voted(s@, i as int, "Vote-"@));
                                }
                            }
                        }
                    },
                    None => {
                        if t == String::from_str("Edit") {
                            editable = true;
                            proof {
                                assert(anchor_flag(s@, i as int, "Edit"@, false));
                            }
                        }
                    },
                }
                i += 1;
            }
            vote_state_opt = Some(text_at(s, ".c7"));
            let mut sel = String::from_str(".c5 #comment_score_");
            crate::text::push_dec(&mut sel, id);
            let score_text = text_at(s, sel.as_str());
            let sv = chars_of(score_text.as_str());
            if sv.len() < 2 {
                return Err(ParseError::Other(String::from_str("score cannot be decoded")));
            }
            let se = exec_digits_end(&sv, 1);
            proof {
                lemma_digits_end_bounds(sv@, 1);
            }
            if se != sv.len() {
                return Err(ParseError::Other(String::from_str("score cannot be decoded")));
            }
            let score64 = match parse_u64_range(&sv, 1, se) {
                None => {
                    return Err(ParseError::Other(String::from_str("score is out of range")));
                },
                Some(x) => x,
            };
            if score64 > u32::MAX as u64 {
                return Err(ParseError::Other(String::from_str("score is out of range")));
            }
            score_opt = Some(score64 as u32);
        }
        Ok(
            GalleryComment {
                id,
                score_opt,
                editable,
                vote_up_able,
                vote_up_ed,
                vote_down_able,
                vote_down_ed,
                is_uploader,
                vote_state_opt,
                posted_timestamp,
                user,
                comment,
                last_edited_timestamp_opt,
            },
        )
    }
}

/// Pair anchor markers with content blocks positionally: the first marker
/// with the first block, and so on, in document order.  The result holds
/// one comment per pair, each decoded from its own marker and block; order
/// is preserved, never re-sorted.
pub fn pair_comments(markers: &Vec<String>, blocks: &Vec<String>) -> (r: EhParseResult<
    Vec<GalleryComment>,
>)
    ensures
        r matches Ok(v) ==> ({
            &&& v@.len() == (if markers@.len() <= blocks@.len() {
                markers@.len()
            } else {
                blocks@.len()
            })
            &&& forall|i: int|
                0 <= i < v@.len() ==> comment_matches(v@[i], markers@[i]@ + blocks@[i]@)
        }),
        (forall|i: int|
            0 <= i < (if markers@.len() <= blocks@.len() {
                markers@.len()
            } else {
                blocks@.len()
            }) ==> comment_decodes(#[trigger] markers@[i]@ + blocks@[i]@)) ==> r is Ok,
{
    let n = if markers.len() <= blocks.len() {
        markers.len()
    } else {
        blocks.len()
    };
    let mut out: Vec<GalleryComment> = Vec::new();
    let mut i: usize = 0;
    while i < n
        invariant
            i <= n,
            n == (if markers@.len() <= blocks@.len() {
                markers@.len()
            } else {
                blocks@.len()
            }),
            out@.len() == i,
            forall|j: int| 0 <= j < i ==> comment_matches(out@[j], markers@[j]@ + blocks@[j]@),
        decreases n - i,
    {
        let mut combined = markers[i].clone();
        combined.append(blocks[i].as_str());
        match GalleryComment::parse(combined.as_str()) {
            Ok(c) => {
                out.push(c);
            },
            Err(e) => {
                proof {
                    assert(!comment_decodes(markers@[i as int]@ + blocks@[i as int]@));
                }
                return Err(e);
            },
        }
        i += 1;
    }
    Ok(out)
}

/// What a decoded comment thread guarantees against the container markup:
/// markers pair with blocks positionally, each comment decoded from its
/// own pair, and the below-threshold flag from the show-all affordance.
pub open spec fn comment_list_matches(l: GalleryCommentList, s: Seq<char>) -> bool {
    &&& l.comment_vec@.len() == (if vis_count(s, "a[name^=c][name!=cnew]"@) <= vis_count(
        s,
        ".c1"@,
    ) {
        vis_count(s, "a[name^=c][name!=cnew]"@)
    } else {
        vis_count(s, ".c1"@)
    })
    &&& forall|i: int|
        0 <= i < l.comment_vec@.len() ==> comment_matches(
            #[trigger] l.comment_vec@[i],
            vis_nth_outer_html(s, "a[name^=c][name!=cnew]"@, i) + vis_nth_outer_html(s, ".c1"@, i),
        )
    &&& l.has_more == (vis_count(s, "#chd [rel=nofollow]"@) > 0)
}

/// Every marker/block pair of the container decodes as a comment.
pub open spec fn comment_thread_decodes(t: Seq<char>) -> bool {
    forall|i: int|
        0 <= i < (if vis_count(t, "a[name^=c][name!=cnew]"@) <= vis_count(t, ".c1"@) {
            vis_count(t, "a[name^=c][name!=cnew]"@)
        } else {
            vis_count(t, ".c1"@)
        }) ==> comment_decodes(
            (#[trigger] vis_nth_outer_html(t, "a[name^=c][name!=cnew]"@, i)) + vis_nth_outer_html(
                t,
                ".c1"@,
                i,
            ),
        )
}

impl GalleryCommentList {
    /// Decode the comment container: collect the markers (the new-comment
    /// anchor excluded) and the content blocks in document order, pair
    /// them positionally, and note whether more comments sit below the
    /// display threshold.
    pub fn parse(s: &str) -> (r: EhParseResult<GalleryCommentList>)
        ensures
            r matches Ok(l) ==> comment_list_matches(l, s@),
            comment_thread_decodes(s@) ==> r is Ok,
    {
        let m = count_at(s, "a[name^=c][name!=cnew]");
        let b = count_at(s, ".c1");
        let mut markers: Vec<String> = Vec::new();
        let mut i: usize = 0;
        while i < m
            invariant
                i <= m,
                m == vis_count(s@, "a[name^=c][name!=cnew]"@),
                markers@.len() == i,
                forall|j: int|
                    0 <= j < i ==> (#[trigger] markers@[j])@ == vis_nth_outer_html(
                        s@,
                        "a[name^=c][name!=cnew]"@,
                        j,
                    ),
            decreases m - i,
        {
            markers.push(nth_outer_html_at(s, "a[name^=c][name!=cnew]", i));
            i += 1;
        }
        let mut blocks: Vec<String> = Vec::new();
        let mut k: usize = 0;
        while k < b
            invariant
                k <= b,
                m == vis_count(s@, "a[name^=c][name!=cnew]"@),
                b == vis_count(s@, ".c1"@),
                markers@.len() == m,
                forall|j: int|
                    0 <= j < m ==> (#[trigger] markers@[j])@ == vis_nth_outer_html(
                        s@,
                        "a[name^=c][name!=cnew]"@,
                        j,
                    ),
                blocks@.len() == k,
                forall|j: int|
                    0 <= j < k ==> (#[trigger] blocks@[j])@ == vis_nth_outer_html(s@, ".c1"@, j),
            decreases b - k,
        {
            blocks.push(nth_outer_html_at(s, ".c1", k));
            k += 1;
        }
        let comment_vec = match pair_comments(&markers, &blocks) {
            Ok(v) => v,
            Err(e) => {
                proof {
                    if comment_thread_decodes(s@) {
                        assert forall|i3: int|
                            0 <= i3 < (if markers@.len() <= blocks@.len() {
                                markers@.len()
                            } else {
                                blocks@.len()
                            }) implies comment_decodes(
                            #[trigger] markers@[i3]@ + blocks@[i3]@,
                        ) by {
                            assert(markers@[i3]@ == vis_nth_outer_html(
                                s@,
                                "a[name^=c][name!=cnew]"@,
                                i3,
                            ));
                            assert(blocks@[i3]@ == vis_nth_outer_html(s@, ".c1"@, i3));
                            assert(comment_decodes(
                                vis_nth_outer_html(s@, "a[name^=c][name!=cnew]"@, i3)
                                    + vis_nth_outer_html(s@, ".c1"@, i3),
                            ));
                        }
                        assert(false);
                    }
                }
                return Err(e);
            },
        };
        let has_more = count_at(s, "#chd [rel=nofollow]") > 0;
        Ok(GalleryCommentList { comment_vec, has_more })
    }
}

// ---------------------------------------------------------------------------
// The detail table: label cells and value cells, paired positionally and
// folded row by row into the record.
// ---------------------------------------------------------------------------

/// The first digit run of `t` directly followed by ` pages`, decoded; the
/// page count of a detail table's Length row.
pub fn pages_of_text(t: &str) -> (r: EhParseResult<u32>)
    ensures
        num_before_from(t@, " pages"@, 0) is None ==> r == Err::<u32, ParseError>(
            ParseError::RegexMatchFailed,
        ),
        num_before_from(t@, " pages"@, 0) matches Some(p) ==> ({
            if num_val(t@.subrange(p.0, p.1)) > u32::MAX {
                r matches Err(ParseError::Other(_))
            } else {
                r == Ok::<u32, ParseError>(num_val(t@.subrange(p.0, p.1)) as u32)
            }
        }),
{
    let v = chars_of(t);
    num_before(&v, &chars_of(" pages"))
}

/// The first digit run of `t` directly followed by ` times`; how often a
/// gallery was favorited.
pub fn times_of_text(t: &str) -> (r: EhParseResult<u32>)
    ensures
        num_before_from(t@, " times"@, 0) is None ==> r == Err::<u32, ParseError>(
            ParseError::RegexMatchFailed,
        ),
        num_before_from(t@, " times"@, 0) matches Some(p) ==> ({
            if num_val(t@.subrange(p.0, p.1)) > u32::MAX {
                r matches Err(ParseError::Other(_))
            } else {
                r == Ok::<u32, ParseError>(num_val(t@.subrange(p.0, p.1)) as u32)
            }
        }),
{
    let v = chars_of(t);
    num_before(&v, &chars_of(" times"))
}

fn num_before(v: &Vec<char>, suf: &Vec<char>) -> (r: EhParseResult<u32>)
    ensures
        num_before_from(v@, suf@, 0) is None ==> r == Err::<u32, ParseError>(
            ParseError::RegexMatchFailed,
        ),
        num_before_from(v@, suf@, 0) matches Some(p) ==> ({
            if num_val(v@.subrange(p.0, p.1)) > u32::MAX {
                r matches Err(ParseError::Other(_))
            } else {
                r == Ok::<u32, ParseError>(num_val(v@.subrange(p.0, p.1)) as u32)
            }
        }),
{
    let (a, e) = match find_num_before(v, suf, 0) {
        None => {
            return Err(ParseError::RegexMatchFailed);
        },
        Some(p) => p,
    };
    let x = match parse_u64_range(v, a, e) {
        None => {
            return Err(ParseError::Other(String::from_str("count is out of range")));
        },
        Some(x) => x,
    };
    if x > u32::MAX as u64 {
        return Err(ParseError::Other(String::from_str("count is out of range")));
    }
    Ok(x as u32)
}

pub open spec fn opt_str_view(o: Option<String>) -> Option<Seq<char>> {
    match o {
        None => None,
        Some(x) => Some(x@),
    }
}

pub open spec fn opt_u32_int(o: Option<u32>) -> Option<int> {
    match o {
        None => None,
        Some(x) => Some(x as int),
    }
}

/// One step of the detail-table fold: apply a label/value row to the
/// partial record; an unknown label or an unreadable count fails.
pub open spec fn dd_step(
    acc: (
        Option<Seq<char>>,
        Option<Seq<char>>,
        Option<Seq<char>>,
        Option<Seq<char>>,
        Option<Seq<char>>,
        Option<int>,
        Option<int>,
    ),
    label: Seq<char>,
    value: Seq<char>,
    href: Option<Seq<char>>,
) -> Option<
    (
        Option<Seq<char>>,
        Option<Seq<char>>,
        Option<Seq<char>>,
        Option<Seq<char>>,
        Option<Seq<char>>,
        Option<int>,
        Option<int>,
    ),
> {
    if label == "Posted:"@ {
        Some((Some(value), acc.1, acc.2, acc.3, acc.4, acc.5, acc.6))
    } else if label == "Parent:"@ {
        Some((acc.0, href, acc.2, acc.3, acc.4, acc.5, acc.6))
    } else if label == "Visible:"@ {
        Some((acc.0, acc.1, Some(value), acc.3, acc.4, acc.5, acc.6))
    } else if label == "Language:"@ {
        Some((acc.0, acc.1, acc.2, Some(value), acc.4, acc.5, acc.6))
    } else if label == "File Size:"@ {
        Some((acc.0, acc.1, acc.2, acc.3, Some(value), acc.5, acc.6))
    } else if label == "Length:"@ {
        match num_before_from(value, " pages"@, 0) {
            None => None,
            Some(p) => if num_val(value.subrange(p.0, p.1)) <= u32::MAX {
                Some(
                    (
                        acc.0,
                        acc.1,
                        acc.2,
                        acc.3,
                        acc.4,
                        Some(num_val(value.subrange(p.0, p.1)) as int),
                        acc.6,
                    ),
                )
            } else {
                None
            },
        }
    } else if label == "Favorited:"@ {
        match num_before_from(value, " times"@, 0) {
            None => None,
            Some(p) => if num_val(value.subrange(p.0, p.1)) <= u32::MAX {
                Some(
                    (
                        acc.0,
                        acc.1,
                        acc.2,
                        acc.3,
                        acc.4,
                        acc.5,
                        Some(num_val(value.subrange(p.0, p.1)) as int),
                    ),
                )
            } else {
                None
            },
        }
    } else {
        None
    }
}

/// Fold the detail-table rows from `i` on into a partial record.
pub open spec fn dd_fold(
    s: Seq<char>,
    i: int,
    acc: (
        Option<Seq<char>>,
        Option<Seq<char>>,
        Option<Seq<char>>,
        Option<Seq<char>>,
        Option<Seq<char>>,
        Option<int>,
        Option<int>,
    ),
) -> Option<
    (
        Option<Seq<char>>,
        Option<Seq<char>>,
        Option<Seq<char>>,
        Option<Seq<char>>,
        Option<Seq<char>>,
        Option<int>,
        Option<int>,
    ),
>
    decreases vis_count(s, ".gdt1"@) - i when 0 <= i <= vis_count(s, ".gdt1"@)
{
    if i >= vis_count(s, ".gdt1"@) {
        Some(acc)
    } else {
        match dd_step(
            acc,
            vis_nth_text(s, ".gdt1"@, i),
            vis_nth_text(s, ".gdt2"@, i),
            vis_nth_attr(s, ".gdt2"@, i, "href"@),
        ) {
            None => None,
            Some(a2) => dd_fold(s, i + 1, a2),
        }
    }
}

pub open spec fn dd_result(s: Seq<char>) -> Option<
    (
        Option<Seq<char>>,
        Option<Seq<char>>,
        Option<Seq<char>>,
        Option<Seq<char>>,
        Option<Seq<char>>,
        Option<int>,
        Option<int>,
    ),
> {
    dd_fold(s, 0, (None, None, None, None, None, None, None))
}

/// All six required rows were seen; only Parent may be missing.
pub open spec fn dd_complete(
    acc: (
        Option<Seq<char>>,
        Option<Seq<char>>,
        Option<Seq<char>>,
        Option<Seq<char>>,
        Option<Seq<char>>,
        Option<int>,
        Option<int>,
    ),
) -> bool {
    acc.0 is Some && acc.2 is Some && acc.3 is Some && acc.4 is Some && acc.5 is Some
        && acc.6 is Some
}

/// What a decoded detail table guarantees against its markup: label and
/// value cells pair positionally, the fold over all rows succeeds and
/// covers the six required rows, and the record holds its result.
pub open spec fn detail_table_matches(d: GalleryDetailDetail, s: Seq<char>) -> bool {
    &&& vis_count(s, ".gdt1"@) == vis_count(s, ".gdt2"@)
    &&& dd_result(s) matches Some(acc) && dd_complete(acc) && ({
        &&& acc.0 == Some(d.posted@)
        &&& opt_view_is(d.parent_opt, acc.1)
        &&& acc.2 == Some(d.visible@)
        &&& acc.3 == Some(d.language@)
        &&& acc.4 == Some(d.file_size@)
        &&& acc.5 == Some(d.pages as int)
        &&& acc.6 == Some(d.favorite_count as int)
    })
}

impl GalleryDetailDetail {
    /// Decode the detail table: `.gdt1` label cells paired positionally
    /// with `.gdt2` value cells.  Every label must be one of the seven the
    /// service writes; the row set must cover all but Parent, which alone
    /// is optional.
    pub fn parse(s: &str) -> (r: EhParseResult<GalleryDetailDetail>)
        ensures
            vis_count(s@, ".gdt1"@) != vis_count(s@, ".gdt2"@) ==> r == Err::<
                GalleryDetailDetail,
                ParseError,
            >(ParseError::DomNotFound),
            vis_count(s@, ".gdt1"@) == vis_count(s@, ".gdt2"@) ==> match dd_result(s@) {
                None => r is Err,
                Some(acc) => if dd_complete(acc) {
                    r matches Ok(d) && detail_table_matches(d, s@)
                } else {
                    r == Err::<GalleryDetailDetail, ParseError>(ParseError::DomNotFound)
                },
            },
    {
        let n = count_at(s, ".gdt1");
        if count_at(s, ".gdt2") != n {
            return Err(ParseError::DomNotFound);
        }
        let mut posted: Option<String> = None;
        let mut parent_opt: Option<String> = None;
        let mut visible: Option<String> = None;
        let mut language: Option<String> = None;
        let mut file_size: Option<String> = None;
        let mut pages: Option<u32> = None;
        let mut favorite_count: Option<u32> = None;
        let mut i: usize = 0;
        while i < n
            invariant
                i <= n,
                n == vis_count(s@, ".gdt1"@),
                vis_count(s@, ".gdt1"@) == vis_count(s@, ".gdt2"@),
                dd_result(s@) == dd_fold(
                    s@,
                    i as int,
                    (
                        opt_str_view(posted),
                        opt_str_view(parent_opt),
                        opt_str_view(visible),
                        opt_str_view(language),
                        opt_str_view(file_size),
                        opt_u32_int(pages),
                        opt_u32_int(favorite_count),
                    ),
                ),
            decreases n - i,
        {
            let label = nth_text_at(s, ".gdt1", i);
            if label == String::from_str("Posted:") {
                posted = Some(nth_text_at(s, ".gdt2", i));
            } else if label == String::from_str("Parent:") {
                parent_opt = nth_attr_at(s, ".gdt2", i, "href");
            } else if label == String::from_str("Visible:") {
                visible = Some(nth_text_at(s, ".gdt2", i));
            } else if label == String::from_str("Language:") {
                language = Some(nth_text_at(s, ".gdt2", i));
            } else if label == String::from_str("File Size:") {
                file_size = Some(nth_text_at(s, ".gdt2", i));
            } else if label == String::from_str("Length:") {
                let t = nth_text_at(s, ".gdt2", i);
                match pages_of_text(t.as_str()) {
                    Ok(p) => {
                        pages = Some(p);
                    },
                    Err(e) => {
                        return Err(e);
                    },
                }
            } else if label == String::from_str("Favorited:") {
                let t = nth_text_at(s, ".gdt2", i);
                match times_of_text(t.as_str()) {
                    Ok(c) => {
                        favorite_count = Some(c);
                    },
                    Err(e) => {
                        return Err(e);
                    },
                }
            } else {
                return Err(ParseError::DomNotFound);
            }
            i += 1;
        }
        match (posted, visible, language, file_size, pages, favorite_count) {
            (
                Some(posted),
                Some(visible),
                Some(language),
                Some(file_size),
                Some(pages),
                Some(favorite_count),
            ) => Ok(
                GalleryDetailDetail {
                    posted,
                    parent_opt,
                    visible,
                    language,
                    file_size,
                    pages,
                    favorite_count,
                },
            ),
            _ => Err(ParseError::DomNotFound),
        }
    }
}

// ---------------------------------------------------------------------------
// Large preview tiles: one independent link/image pair per tile.
// ---------------------------------------------------------------------------

/// The 0-based position encoded in a tile image's `alt` text, which is
/// 1-based: `01` is position 0.
pub open spec fn alt_position(a: Seq<char>) -> Option<int> {
    if a.len() > 0 && digits_end(a, 0) == a.len() && 1 <= num_val(a) <= u32::MAX {
        Some(num_val(a) - 1)
    } else {
        None
    }
}

/// Decode a 1-based `alt` text to a 0-based position.  An `alt` that is
/// not a plain positive number is a numeric failure.
pub fn position_of_alt(alt: &str) -> (r: EhParseResult<u32>)
    ensures
        alt_position(alt@) is None ==> r matches Err(ParseError::Other(_)),
        alt_position(alt@) matches Some(p) ==> r matches Ok(x) && p == x as int,
{
    let v = chars_of(alt);
    let n = v.len();
    if n == 0 || exec_digits_end(&v, 0) != n {
        proof {
            lemma_digits_end_bounds(v@, 0);
        }
        return Err(ParseError::Other(String::from_str("position is no number")));
    }
    proof {
        assert(v@.subrange(0, n as int) =~= v@);
    }
    let x = match parse_u64_range(&v, 0, n) {
        None => {
            return Err(ParseError::Other(String::from_str("position is out of range")));
        },
        Some(x) => x,
    };
    if x > u32::MAX as u64 || x == 0 {
        return Err(ParseError::Other(String::from_str("position is out of range")));
    }
    Ok((x - 1) as u32)
}

/// The filename inside an image title of the shape `Page <n>: <name>`.
pub open spec fn filename_caps(t: Seq<char>) -> Option<int> {
    match find_from(t, "Page "@, 0) {
        None => None,
        Some(p) => {
            let d0 = p + "Page "@.len();
            let de = digits_end(t, d0);
            if de > d0 && match_at(t, ": "@, de) && de + ": "@.len() < t.len() {
                Some(de + ": "@.len())
            } else {
                None
            }
        },
    }
}

pub fn filename_of_title(t: &str) -> (r: EhParseResult<String>)
    ensures
        filename_caps(t@) is None ==> r == Err::<String, ParseError>(ParseError::RegexMatchFailed),
        filename_caps(t@) matches Some(f0) ==> (r matches Ok(name) && name@ == t@.subrange(
            f0,
            t@.len() as int,
        )),
{
    let v = chars_of(t);
    let page_lit = chars_of("Page ");
    let p = match find_sub(&v, &page_lit, 0) {
        None => {
            return Err(ParseError::RegexMatchFailed);
        },
        Some(p) => p,
    };
    let d0 = p + page_lit.len();
    let de = exec_digits_end(&v, d0);
    proof {
        lemma_digits_end_bounds(v@, d0 as int);
    }
    let sep = chars_of(": ");
    if !(de > d0 && sep.len() <= v.len() - de && eq_at(&v, de, &sep) && de + sep.len() < v.len()) {
        return Err(ParseError::RegexMatchFailed);
    }
    Ok(extract(t, de + sep.len(), v.len()))
}

/// What a decoded discrete tile guarantees against its markup.
pub open spec fn large_tile_matches(t: GalleryPreviewLarge, s: Seq<char>) -> bool {
    &&& vis_attr(s, "a"@, "href"@) == Some(t.page_url@)
    &&& vis_attr(s, "a > img"@, "src"@) == Some(t.image_url@)
    &&& vis_attr(s, "a > img"@, "title"@) matches Some(ti) && (filename_caps(ti) matches Some(f0)
        && t.filename@ == ti.subrange(f0, ti.len() as int))
    &&& vis_attr(s, "a > img"@, "alt"@) matches Some(al) && alt_position(al) == Some(
        t.position as int,
    )
}

/// A discrete tile's markup decodes: link, image, a well-shaped title and
/// a plain positive alt number.
pub open spec fn large_tile_decodes(s: Seq<char>) -> bool {
    &&& vis_attr(s, "a"@, "href"@) is Some
    &&& vis_attr(s, "a > img"@, "src"@) is Some
    &&& vis_attr(s, "a > img"@, "title"@) matches Some(ti) && filename_caps(ti) is Some
    &&& vis_attr(s, "a > img"@, "alt"@) matches Some(al) && alt_position(al) is Some
}

impl GalleryPreviewLarge {
    /// Decode one discrete preview tile: page link, image URL, filename
    /// from the image title, and 0-based position from the alt text.
    pub fn parse(s: &str) -> (r: EhParseResult<GalleryPreviewLarge>)
        ensures
            r is Ok <==> large_tile_decodes(s@),
            r matches Ok(t) ==> large_tile_matches(t, s@),
    {
        let page_url = match attr_at(s, "a", "href") {
            None => {
                return Err(ParseError::AttributeNotFound);
            },
            Some(h) => h,
        };
        let image_url = match attr_at(s, "a > img", "src") {
            None => {
                return Err(ParseError::AttributeNotFound);
            },
            Some(x) => x,
        };
        let title = match attr_at(s, "a > img", "title") {
            None => {
                return Err(ParseError::AttributeNotFound);
            },
            Some(x) => x,
        };
        let filename = match filename_of_title(title.as_str()) {
            Ok(f) => f,
            Err(e) => {
                return Err(e);
            },
        };
        let alt = match attr_at(s, "a > img", "alt") {
            None => {
                return Err(ParseError::AttributeNotFound);
            },
            Some(x) => x,
        };
        let position = match position_of_alt(alt.as_str()) {
            Ok(p) => p,
            Err(e) => {
                return Err(e);
            },
        };
        Ok(GalleryPreviewLarge { position, filename, page_url, image_url })
    }
}

/// What a decoded set of discrete tiles guarantees: one record per
/// `.gdtl` tile, each against its own markup, in document order.
pub open spec fn large_set_matches(tiles: Seq<GalleryPreviewLarge>, s: Seq<char>) -> bool {
    &&& tiles.len() == vis_count(s, ".gdtl"@)
    &&& forall|i: int|
        0 <= i < tiles.len() ==> large_tile_matches(
            #[trigger] tiles[i],
            vis_nth_outer_html(s, ".gdtl"@, i),
        )
}

/// Decode every `.gdtl` tile of a preview container, in document order;
/// the first malformed tile aborts with its own error.
pub fn parse_large(s: &str) -> (r: EhParseResult<Vec<GalleryPreviewLarge>>)
    ensures
        r matches Ok(v) ==> large_set_matches(v@, s@),
        (forall|i: int|
            0 <= i < vis_count(s@, ".gdtl"@) ==> large_tile_decodes(
                #[trigger] vis_nth_outer_html(s@, ".gdtl"@, i),
            )) ==> r is Ok,
{
    let n = count_at(s, ".gdtl");
    let mut out: Vec<GalleryPreviewLarge> = Vec::new();
    let mut i: usize = 0;
    while i < n
        invariant
            i <= n,
            n == vis_count(s@, ".gdtl"@),
            out@.len() == i,
            forall|j: int|
                0 <= j < i ==> large_tile_matches(
                    #[trigger] out@[j],
                    vis_nth_outer_html(s@, ".gdtl"@, j),
                ),
        decreases n - i,
    {
        let tile = nth_outer_html_at(s, ".gdtl", i);
        match GalleryPreviewLarge::parse(tile.as_str()) {
            Ok(t) => {
                out.push(t);
            },
            Err(e) => {
                proof {
                    assert(!large_tile_decodes(vis_nth_outer_html(s@, ".gdtl"@, i as int)));
                }
                return Err(e);
            },
        }
        i += 1;
    }
    Ok(out)
}

// ---------------------------------------------------------------------------
// Medium preview tiles: the whole container is one sprite mosaic, every
// tile a pixel clip of a shared sheet laid out in a single row.
// ---------------------------------------------------------------------------

/// The capture bounds of one mosaic tile at or after `i`, in order: clip
/// width, clip height, sprite URL, horizontal pixel offset, page link,
/// 1-based position, filename.
pub open spec fn medium_tile_at(s: Seq<char>, i: int) -> Option<
    ((int, int), (int, int), (int, int), (int, int), (int, int), (int, int), (int, int)),
> {
    match find_from(s, "<div class=\"gdtm\""@, i) {
        None => None,
        Some(p) => match find_from(s, "width:"@, p) {
            None => None,
            Some(wp) => {
                let w0 = wp + "width:"@.len();
                let we = digits_end(s, w0);
                if we > w0 {
                    match find_from(s, "height:"@, we) {
                        None => None,
                        Some(hp) => {
                            let h0 = hp + "height:"@.len();
                            let he = digits_end(s, h0);
                            if he > h0 {
                                match find_char_from(s, '(', he) {
                                    None => None,
                                    Some(op) => {
                                        let u0 = op + 1;
                                        match find_char_from(s, ')', u0) {
                                            None => None,
                                            Some(cl) => if cl > u0 {
                                                medium_tile_tail(s, (w0, we), (h0, he), (u0, cl))
                                            } else {
                                                None
                                            },
                                        }
                                    },
                                }
                            } else {
                                None
                            }
                        },
                    }
                } else {
                    None
                }
            },
        },
    }
}

pub open spec fn medium_tile_tail(
    s: Seq<char>,
    w: (int, int),
    h: (int, int),
    img: (int, int),
) -> Option<((int, int), (int, int), (int, int), (int, int), (int, int), (int, int), (int, int))> {
    match find_char_from(s, '-', img.1) {
        None => None,
        Some(dh) => {
            let x0 = dh + 1;
            let xe = digits_end(s, x0);
            if xe > x0 && match_at(s, "px"@, xe) {
                match find_from(s, "href=\""@, xe) {
                    None => None,
                    Some(hp) => {
                        let p0 = hp + "href=\""@.len();
                        match find_char_from(s, '"', p0) {
                            None => None,
                            Some(pe) => if pe > p0 {
                                match find_from(s, "alt=\""@, pe) {
                                    None => None,
                                    Some(ap) => {
                                        let a0 = ap + "alt=\""@.len();
                                        let ae = digits_end(s, a0);
                                        if ae > a0 && ae < s.len() && s[ae] == '"' {
                                            match find_from(s, "title=\"Page "@, ae) {
                                                None => None,
                                                Some(tp) => {
                                                    let d0 = tp + "title=\"Page "@.len();
                                                    let de = digits_end(s, d0);
                                                    if de > d0 && match_at(s, ": "@, de) {
                                                        let f0 = de + ": "@.len();
                                                        match find_char_from(s, '"', f0) {
                                                            None => None,
                                                            Some(fe) => if fe > f0 {
                                                                Some(
                                                                    (
                                                                        w,
                                                                        h,
                                                                        img,
                                                                        (x0, xe),
                                                                        (p0, pe),
                                                                        (a0, ae),
                                                                        (f0, fe),
                                                                    ),
                                                                )
                                                            } else {
                                                                None
                                                            },
                                                        }
                                                    } else {
                                                        None
                                                    }
                                                },
                                            }
                                        } else {
                                            None
                                        }
                                    },
                                }
                            } else {
                                None
                            },
                        }
                    },
                }
            } else {
                None
            }
        },
    }
}

/// Every mosaic tile of the container, in document order.
pub open spec fn medium_tiles(s: Seq<char>, i: int) -> Seq<
    ((int, int), (int, int), (int, int), (int, int), (int, int), (int, int), (int, int)),
>
    decreases s.len() - i when 0 <= i <= s.len()
{
    match medium_tile_at(s, i) {
        None => Seq::empty(),
        Some(t) => {
            let next = t.6.1 + 1;
            if i < next <= s.len() {
                seq![t] + medium_tiles(s, next)
            } else {
                seq![t]
            }
        },
    }
}

/// What every decoded mosaic tile guarantees, against its capture bounds.
pub open spec fn medium_tile_matches(
    t: GalleryPreviewMedium,
    s: Seq<char>,
    c: ((int, int), (int, int), (int, int), (int, int), (int, int), (int, int), (int, int)),
) -> bool {
    &&& t.clip_width == num_val(s.subrange(c.0.0, c.0.1))
    &&& t.clip_height == num_val(s.subrange(c.1.0, c.1.1))
    &&& t.image_url@ == s.subrange(c.2.0, c.2.1)
    &&& t.offset_x == num_val(s.subrange(c.3.0, c.3.1))
    &&& t.offset_y == 0
    &&& t.page_url@ == s.subrange(c.4.0, c.4.1)
    &&& num_val(s.subrange(c.5.0, c.5.1)) >= 1
    &&& t.position == num_val(s.subrange(c.5.0, c.5.1)) - 1
    &&& t.filename@ == s.subrange(c.6.0, c.6.1)
}

/// A mosaic tile's numeric captures fit their fields.
pub open spec fn medium_tile_fits(
    s: Seq<char>,
    c: ((int, int), (int, int), (int, int), (int, int), (int, int), (int, int), (int, int)),
) -> bool {
    &&& num_val(s.subrange(c.0.0, c.0.1)) <= u32::MAX
    &&& num_val(s.subrange(c.1.0, c.1.1)) <= u32::MAX
    &&& num_val(s.subrange(c.3.0, c.3.1)) <= u32::MAX
    &&& 1 <= num_val(s.subrange(c.5.0, c.5.1)) <= u32::MAX
}

/// What a decoded set of mosaic tiles guarantees: one record per captured
/// tile, in document order.
pub open spec fn medium_set_matches(tiles: Seq<GalleryPreviewMedium>, s: Seq<char>) -> bool {
    &&& tiles.len() == medium_tiles(s, 0).len()
    &&& forall|j: int|
        0 <= j < tiles.len() ==> medium_tile_matches(tiles[j], s, #[trigger] medium_tiles(s, 0)[j])
}

fn exec_medium_tile_at(v: &Vec<char>, i: usize) -> (r: Option<
    ((usize, usize), (usize, usize), (usize, usize), (usize, usize), (usize, usize), (
        usize,
        usize,
    ), (usize, usize)),
>)
    requires
        i <= v@.len(),
    ensures
        match r {
            Some(c) => {
                &&& medium_tile_at(v@, i as int) == Some(
                    (
                        (c.0.0 as int, c.0.1 as int),
                        (c.1.0 as int, c.1.1 as int),
                        (c.2.0 as int, c.2.1 as int),
                        (c.3.0 as int, c.3.1 as int),
                        (c.4.0 as int, c.4.1 as int),
                        (c.5.0 as int, c.5.1 as int),
                        (c.6.0 as int, c.6.1 as int),
                    ),
                )
                &&& c.0.0 <= c.0.1 <= v@.len()
                &&& c.1.0 <= c.1.1 <= v@.len()
                &&& c.2.0 <= c.2.1 <= v@.len()
                &&& c.3.0 <= c.3.1 <= v@.len()
                &&& c.4.0 <= c.4.1 <= v@.len()
                &&& c.5.0 <= c.5.1 <= v@.len()
                &&& c.6.0 <= c.6.1 <= v@.len()
                &&& i < c.6.1 + 1 <= v@.len()
            },
            None => medium_tile_at(v@, i as int) is None,
        },
{
    let vn = v.len();
    proof {
        assert(v@.len() == vn);
    }
    let tile_lit = chars_of("<div class=\"gdtm\"");
    let p = match find_sub(v, &tile_lit, i) {
        None => {
            return None;
        },
        Some(p) => p,
    };
    let width_lit = chars_of("width:");
    let wp = match find_sub(v, &width_lit, p) {
        None => {
            return None;
        },
        Some(x) => x,
    };
    let w0 = wp + width_lit.len();
    let we = exec_digits_end(v, w0);
    proof {
        lemma_digits_end_bounds(v@, w0 as int);
    }
    if !(we > w0) {
        return None;
    }
    let height_lit = chars_of("height:");
    let hp = match find_sub(v, &height_lit, we) {
        None => {
            return None;
        },
        Some(x) => x,
    };
    let h0 = hp + height_lit.len();
    let he = exec_digits_end(v, h0);
    proof {
        lemma_digits_end_bounds(v@, h0 as int);
    }
    if !(he > h0) {
        return None;
    }
    let op = match find_char(v, '(', he) {
        None => {
            return None;
        },
        Some(x) => x,
    };
    let u0 = op + 1;
    let cl = match find_char(v, ')', u0) {
        None => {
            return None;
        },
        Some(x) => x,
    };
    if !(cl > u0) {
        return None;
    }
    let dh = match find_char(v, '-', cl) {
        None => {
            return None;
        },
        Some(x) => x,
    };
    let x0 = dh + 1;
    let xe = exec_digits_end(v, x0);
    proof {
        lemma_digits_end_bounds(v@, x0 as int);
    }
    let px_lit = chars_of("px");
    if !(xe > x0 && px_lit.len() <= v.len() - xe && eq_at(v, xe, &px_lit)) {
        return None;
    }
    let href_lit = chars_of("href=\"");
    let hp2 = match find_sub(v, &href_lit, xe) {
        None => {
            return None;
        },
        Some(x) => x,
    };
    let p0 = hp2 + href_lit.len();
    let pe = match find_char(v, '"', p0) {
        None => {
            return None;
        },
        Some(x) => x,
    };
    if !(pe > p0) {
        return None;
    }
    let alt_lit = chars_of("alt=\"");
    let ap = match find_sub(v, &alt_lit, pe) {
        None => {
            return None;
        },
        Some(x) => x,
    };
    let a0 = ap + alt_lit.len();
    let ae = exec_digits_end(v, a0);
    proof {
        lemma_digits_end_bounds(v@, a0 as int);
    }
    if !(ae > a0 && ae < v.len() && v[ae] == '"') {
        return None;
    }
    let title_lit = chars_of("title=\"Page ");
    let tp = match find_sub(v, &title_lit, ae) {
        None => {
            return None;
        },
        Some(x) => x,
    };
    let d0 = tp + title_lit.len();
    let de = exec_digits_end(v, d0);
    proof {
        lemma_digits_end_bounds(v@, d0 as int);
    }
    let sep = chars_of(": ");
    if !(de > d0 && sep.len() <= v.len() - de && eq_at(v, de, &sep)) {
        return None;
    }
    let f0 = de + sep.len();
    let fe = match find_char(v, '"', f0) {
        None => {
            return None;
        },
        Some(x) => x,
    };
    if !(fe > f0) {
        return None;
    }
    Some(((w0, we), (h0, he), (u0, cl), (x0, xe), (p0, pe), (a0, ae), (f0, fe)))
}

/// Decode every mosaic tile of a preview container, in document order.
/// A page without mosaic tiles yields the empty list; a tile whose
/// numbers do not fit aborts.  The vertical offset of every tile is zero:
/// the sprite sheet is a single row.
pub fn parse_medium(s: &str) -> (r: EhParseResult<Vec<GalleryPreviewMedium>>)
    ensures
        r matches Ok(v) ==> medium_set_matches(v@, s@),
        (forall|j: int|
            0 <= j < medium_tiles(s@, 0).len() ==> medium_tile_fits(
                s@,
                #[trigger] medium_tiles(s@, 0)[j],
            )) ==> r is Ok,
{
    let v = chars_of(s);
    let n = v.len();
    let mut out: Vec<GalleryPreviewMedium> = Vec::new();
    let mut cur: usize = 0;
    loop
        invariant
            cur <= n,
            n == v@.len(),
            v@ == s@,
            out@.len() + medium_tiles(s@, cur as int).len() == medium_tiles(s@, 0).len(),
            medium_tiles(s@, cur as int) =~= medium_tiles(s@, 0).skip(out@.len() as int),
            forall|j: int|
                0 <= j < out@.len() ==> medium_tile_matches(
                    out@[j],
                    s@,
                    #[trigger] medium_tiles(s@, 0)[j],
                ),
        decreases n - cur,
    {
        let c = match exec_medium_tile_at(&v, cur) {
            None => {
                return Ok(out);
            },
            Some(c) => c,
        };
        proof {
            let tiles0 = medium_tiles(s@, 0);
            let k = out@.len() as int;
            let rest = medium_tiles(s@, cur as int);
            let next = (c.6.1 + 1) as int;
            assert(medium_tile_at(s@, cur as int) is Some);
            assert(rest.len() > 0);
            assert(rest == tiles0.skip(k));
            assert(rest[0] == tiles0.skip(k)[0]);
            assert(tiles0.skip(k)[0] == tiles0[k]);
            assert(rest.drop_first() =~= medium_tiles(s@, next));
            assert forall|m: int| 0 <= m < medium_tiles(s@, next).len() implies medium_tiles(
                s@,
                next,
            )[m] == tiles0.skip(k + 1)[m] by {
                assert(medium_tiles(s@, next)[m] == rest[m + 1]);
                assert(rest[m + 1] == tiles0.skip(k)[m + 1]);
                assert(tiles0.skip(k)[m + 1] == tiles0[k + 1 + m]);
                assert(tiles0.skip(k + 1)[m] == tiles0[k + 1 + m]);
            }
            assert(medium_tiles(s@, next) =~= tiles0.skip(k + 1));
        }
        let clip_width64 = match parse_u64_range(&v, c.0.0, c.0.1) {
            None => {
                return Err(ParseError::Other(String::from_str("width is out of range")));
            },
            Some(x) => x,
        };
        let clip_height64 = match parse_u64_range(&v, c.1.0, c.1.1) {
            None => {
                return Err(ParseError::Other(String::from_str("height is out of range")));
            },
            Some(x) => x,
        };
        let offset64 = match parse_u64_range(&v, c.3.0, c.3.1) {
            None => {
                return Err(ParseError::Other(String::from_str("offset is out of range")));
            },
            Some(x) => x,
        };
        let pos64 = match parse_u64_range(&v, c.5.0, c.5.1) {
            None => {
                return Err(ParseError::Other(String::from_str("position is out of range")));
            },
            Some(x) => x,
        };
        if clip_width64 > u32::MAX as u64 || clip_height64 > u32::MAX as u64 || offset64
            > u32::MAX as u64 || pos64 > u32::MAX as u64 || pos64 == 0 {
            return Err(ParseError::Other(String::from_str("tile value is out of range")));
        }
        let tile = GalleryPreviewMedium {
            position: (pos64 - 1) as u32,
            filename: extract(s, c.6.0, c.6.1),
            page_url: extract(s, c.4.0, c.4.1),
            image_url: extract(s, c.2.0, c.2.1),
            offset_x: offset64 as u32,
            offset_y: 0,
            clip_width: clip_width64 as u32,
            clip_height: clip_height64 as u32,
        };
        out.push(tile);
        cur = c.6.1 + 1;
    }
}

// ---------------------------------------------------------------------------
// The gallery detail page.  Identity and API credentials sit in an inline
// script; torrent and archive links in click handlers; everything else in
// the document structure.
// ---------------------------------------------------------------------------

/// Captures of the identity variables of the inline script: gid digits,
/// token, api uid (optionally signed) and api key, separated by
/// whitespace.
pub open spec fn detail_vars(s: Seq<char>) -> Option<((int, int), (int, int), (int, int), (int, int))> {
    match find_from(s, "var gid = "@, 0) {
        None => None,
        Some(p) => {
            let g0 = p + "var gid = "@.len();
            let ge = digits_end(s, g0);
            if ge > g0 && ge < s.len() && s[ge] == ';' {
                let a1 = class_end(s, 5, ge + 1);
                if match_at(s, "var token = \""@, a1) {
                    let t0 = a1 + "var token = \""@.len();
                    let te = class_end(s, 1, t0);
                    if te > t0 && match_at(s, "\";"@, te) {
                        let a2 = class_end(s, 5, te + "\";"@.len());
                        if match_at(s, "var apiuid = "@, a2) {
                            let u0 = a2 + "var apiuid = "@.len();
                            let ue = class_end(s, 4, u0);
                            if ue > u0 && ue < s.len() && s[ue] == ';' {
                                let a3 = class_end(s, 5, ue + 1);
                                if match_at(s, "var apikey = \""@, a3) {
                                    let k0 = a3 + "var apikey = \""@.len();
                                    let ke = class_end(s, 1, k0);
                                    if ke > k0 && match_at(s, "\";"@, ke) {
                                        Some(((g0, ge), (t0, te), (u0, ue), (k0, ke)))
                                    } else {
                                        None
                                    }
                                } else {
                                    None
                                }
                            } else {
                                None
                            }
                        } else {
                            None
                        }
                    } else {
                        None
                    }
                } else {
                    None
                }
            } else {
                None
            }
        },
    }
}

fn exec_detail_vars(v: &Vec<char>) -> (r: Option<
    ((usize, usize), (usize, usize), (usize, usize), (usize, usize)),
>)
    ensures
        match r {
            Some(c) => {
                &&& detail_vars(v@) == Some(
                    (
                        (c.0.0 as int, c.0.1 as int),
                        (c.1.0 as int, c.1.1 as int),
                        (c.2.0 as int, c.2.1 as int),
                        (c.3.0 as int, c.3.1 as int),
                    ),
                )
                &&& c.0.0 <= c.0.1 <= v@.len()
                &&& c.1.0 <= c.1.1 <= v@.len()
                &&& c.2.0 <= c.2.1 <= v@.len()
                &&& c.3.0 <= c.3.1 <= v@.len()
            },
            None => detail_vars(v@) is None,
        },
{
    let vn = v.len();
    proof {
        assert(v@.len() == vn);
    }
    let gid_lit = chars_of("var gid = ");
    let p = match find_sub(v, &gid_lit, 0) {
        None => {
            return None;
        },
        Some(p) => p,
    };
    let g0 = p + gid_lit.len();
    let ge = exec_digits_end(v, g0);
    proof {
        lemma_digits_end_bounds(v@, g0 as int);
    }
    if !(ge > g0 && ge < vn && v[ge] == ';') {
        return None;
    }
    let a1 = exec_class_end(v, 5, ge + 1);
    let token_lit = chars_of("var token = \"");
    if !(token_lit.len() <= vn - a1 && eq_at(v, a1, &token_lit)) {
        return None;
    }
    let t0 = a1 + token_lit.len();
    let te = exec_class_end(v, 1, t0);
    let quote_semi = chars_of("\";");
    if !(te > t0 && quote_semi.len() <= vn - te && eq_at(v, te, &quote_semi)) {
        return None;
    }
    let a2 = exec_class_end(v, 5, te + quote_semi.len());
    let uid_lit = chars_of("var apiuid = ");
    if !(uid_lit.len() <= vn - a2 && eq_at(v, a2, &uid_lit)) {
        return None;
    }
    let u0 = a2 + uid_lit.len();
    let ue = exec_class_end(v, 4, u0);
    if !(ue > u0 && ue < vn && v[ue] == ';') {
        return None;
    }
    let a3 = exec_class_end(v, 5, ue + 1);
    let key_lit = chars_of("var apikey = \"");
    if !(key_lit.len() <= vn - a3 && eq_at(v, a3, &key_lit)) {
        return None;
    }
    let k0 = a3 + key_lit.len();
    let ke = exec_class_end(v, 1, k0);
    if !(ke > k0 && quote_semi.len() <= vn - ke && eq_at(v, ke, &quote_semi)) {
        return None;
    }
    Some(((g0, ge), (t0, te), (u0, ue), (k0, ke)))
}

/// Captures of the torrent popup link: the popup URL and the torrent
/// count written in the link text.
pub open spec fn torrent_link_caps(s: Seq<char>) -> Option<((int, int), (int, int))> {
    match find_from(s, "onclick=\"return popUp('"@, 0) {
        None => None,
        Some(p) => {
            let c0 = p + "onclick=\"return popUp('"@.len();
            match find_char_from(s, '\'', c0) {
                None => None,
                Some(qe) => if qe > c0 {
                    match find_char_from(s, ')', qe + 1) {
                        None => None,
                        Some(rp) => if rp > qe + 1 && match_at(s, "\">Torrent Download"@, rp + 1) {
                            let td = rp + 1 + "\">Torrent Download"@.len();
                            match find_char_from(s, '<', td) {
                                None => None,
                                Some(lt) => match crate::text::first_digit_from(s, td) {
                                    None => None,
                                    Some(d0) => {
                                        let de = digits_end(s, d0);
                                        if td < d0 && de < lt && match_at(s, "</a"@, lt) {
                                            Some(((c0, qe), (d0, de)))
                                        } else {
                                            None
                                        }
                                    },
                                },
                            }
                        } else {
                            None
                        },
                    }
                } else {
                    None
                },
            }
        },
    }
}

/// The archive popup URL: among all popup links, the one whose link text
/// reads Archive Download.
pub open spec fn archive_link_caps_from(s: Seq<char>, i: int) -> Option<(int, int)>
    decreases s.len() - i when 0 <= i <= s.len()
{
    match find_from(s, "onclick=\"return popUp('"@, i) {
        None => None,
        Some(p) => {
            let c0 = p + "onclick=\"return popUp('"@.len();
            match find_char_from(s, '\'', c0) {
                None => None,
                Some(qe) => if qe > c0 && (match find_char_from(s, ')', qe + 1) {
                    None => false,
                    Some(rp) => rp > qe + 1 && match_at(s, "\">Archive Download</a>"@, rp + 1),
                }) {
                    Some((c0, qe))
                } else if i + 1 <= s.len() {
                    archive_link_caps_from(s, i + 1)
                } else {
                    None
                },
            }
        },
    }
}

proof fn lemma_archive_link_step(s: Seq<char>, i: int, p: int)
    requires
        0 <= i <= s.len(),
        find_from(s, "onclick=\"return popUp('"@, i) == Some(p),
        "onclick=\"return popUp('"@.len() > 0,
        ({
            let c0 = p + "onclick=\"return popUp('"@.len();
            find_char_from(s, '\'', c0) matches Some(qe) && !(qe > c0 && (
            match find_char_from(s, ')', qe + 1) {
                None => false,
                Some(rp) => rp > qe + 1 && match_at(s, "\">Archive Download</a>"@, rp + 1),
            }))
        }),
    ensures
        archive_link_caps_from(s, i) == archive_link_caps_from(s, p + 1),
    decreases p - i,
{
    crate::text::lemma_find_from_is_match(s, "onclick=\"return popUp('"@, i, p);
    if i < p {
        lemma_archive_link_step(s, i + 1, p);
    }
}

fn exec_archive_link(v: &Vec<char>) -> (r: Option<(usize, usize)>)
    ensures
        match r {
            Some(c) => archive_link_caps_from(v@, 0) == Some((c.0 as int, c.1 as int)) && c.0 <= c.1
                <= v@.len(),
            None => archive_link_caps_from(v@, 0) is None,
        },
{
    let n = v.len();
    proof {
        assert(v@.len() == n);
        reveal_strlit("onclick=\"return popUp('");
    }
    let pre = chars_of("onclick=\"return popUp('");
    let mut i: usize = 0;
    loop
        invariant
            i <= n,
            n == v@.len(),
            pre@ == "onclick=\"return popUp('"@,
            pre@.len() > 0,
            archive_link_caps_from(v@, 0) == archive_link_caps_from(v@, i as int),
        decreases n - i,
    {
        let p = match find_sub(v, &pre, i) {
            None => {
                return None;
            },
            Some(p) => p,
        };
        let c0 = p + pre.len();
        let qe = match find_char(v, '\'', c0) {
            None => {
                return None;
            },
            Some(x) => x,
        };
        let suffix = chars_of("\">Archive Download</a>");
        let good = if qe > c0 {
            match find_char(v, ')', qe + 1) {
                None => false,
                Some(rp) => rp > qe + 1 && suffix.len() <= n - (rp + 1) && eq_at(v, rp + 1, &suffix),
            }
        } else {
            false
        };
        if good {
            return Some((c0, qe));
        }
        proof {
            lemma_archive_link_step(v@, i as int, p as int);
        }
        i = p + 1;
    }
}

/// Captures of the cover style: the background image URL.
pub open spec fn cover_caps(s: Seq<char>) -> Option<(int, int)> {
    match find_from(s, "width:"@, 0) {
        None => None,
        Some(wp) => {
            let w0 = wp + "width:"@.len();
            let we = digits_end(s, w0);
            if we > w0 && match_at(s, "px; height:"@, we) {
                let h0 = we + "px; height:"@.len();
                let he = digits_end(s, h0);
                if he > h0 && match_at(s, "px"@, he) {
                    match find_from(s, "url("@, he) {
                        None => None,
                        Some(up) => {
                            let u0 = up + "url("@.len();
                            match find_char_from(s, ')', u0) {
                                None => None,
                                Some(ue) => if ue > u0 {
                                    Some((u0, ue))
                                } else {
                                    None
                                },
                            }
                        },
                    }
                } else {
                    None
                }
            } else {
                None
            }
        },
    }
}

fn exec_cover_caps(v: &Vec<char>) -> (r: Option<(usize, usize)>)
    ensures
        match r {
            Some(c) => cover_caps(v@) == Some((c.0 as int, c.1 as int)) && c.0 <= c.1 <= v@.len(),
            None => cover_caps(v@) is None,
        },
{
    let n = v.len();
    proof {
        assert(v@.len() == n);
    }
    let width_lit = chars_of("width:");
    let wp = match find_sub(v, &width_lit, 0) {
        None => {
            return None;
        },
        Some(x) => x,
    };
    let w0 = wp + width_lit.len();
    let we = exec_digits_end(v, w0);
    proof {
        lemma_digits_end_bounds(v@, w0 as int);
    }
    let mid_lit = chars_of("px; height:");
    if !(we > w0 && mid_lit.len() <= n - we && eq_at(v, we, &mid_lit)) {
        return None;
    }
    let h0 = we + mid_lit.len();
    let he = exec_digits_end(v, h0);
    proof {
        lemma_digits_end_bounds(v@, h0 as int);
    }
    let px_lit = chars_of("px");
    if !(he > h0 && px_lit.len() <= n - he && eq_at(v, he, &px_lit)) {
        return None;
    }
    let url_lit = chars_of("url(");
    let up = match find_sub(v, &url_lit, he) {
        None => {
            return None;
        },
        Some(x) => x,
    };
    let u0 = up + url_lit.len();
    let ue = match find_char(v, ')', u0) {
        None => {
            return None;
        },
        Some(x) => x,
    };
    if !(ue > u0) {
        return None;
    }
    Some((u0, ue))
}

/// The date capture of one newer-version line at or after `i`, with the
/// position its scan ended at.
pub open spec fn newer_date_at(s: Seq<char>, i: int) -> Option<((int, int), int)> {
    match find_from(s, ", added "@, i) {
        None => None,
        Some(p) => {
            let c0 = p + ", added "@.len();
            match find_from(s, "<br />"@, c0) {
                None => None,
                Some(b) => if b > c0 {
                    Some(((c0, b), b + "<br />"@.len()))
                } else {
                    None
                },
            }
        },
    }
}

pub open spec fn newer_dates_from(s: Seq<char>, i: int) -> Seq<(int, int)>
    decreases s.len() - i when 0 <= i <= s.len()
{
    match newer_date_at(s, i) {
        None => Seq::empty(),
        Some(c) => if i < c.1 <= s.len() {
            seq![c.0] + newer_dates_from(s, c.1)
        } else {
            seq![c.0]
        },
    }
}

fn exec_newer_dates(v: &Vec<char>, s: &str) -> (r: Vec<String>)
    requires
        v@ == s@,
    ensures
        r@.len() == newer_dates_from(s@, 0).len(),
        forall|j: int|
            0 <= j < r@.len() ==> r@[j]@ == s@.subrange(
                (#[trigger] newer_dates_from(s@, 0)[j]).0,
                newer_dates_from(s@, 0)[j].1,
            ),
{
    let n = v.len();
    proof {
        assert(v@.len() == n);
    }
    let pre = chars_of(", added ");
    let br = chars_of("<br />");
    let mut out: Vec<String> = Vec::new();
    let mut cur: usize = 0;
    loop
        invariant
            cur <= n,
            n == v@.len(),
            v@ == s@,
            pre@ == ", added "@,
            br@ == "<br />"@,
            out@.len() + newer_dates_from(s@, cur as int).len() == newer_dates_from(s@, 0).len(),
            newer_dates_from(s@, cur as int) =~= newer_dates_from(s@, 0).skip(out@.len() as int),
            forall|j: int|
                0 <= j < out@.len() ==> out@[j]@ == s@.subrange(
                    (#[trigger] newer_dates_from(s@, 0)[j]).0,
                    newer_dates_from(s@, 0)[j].1,
                ),
        decreases n - cur,
    {
        let p = match find_sub(v, &pre, cur) {
            None => {
                return out;
            },
            Some(p) => p,
        };
        let c0 = p + pre.len();
        let b = match find_sub(v, &br, c0) {
            None => {
                return out;
            },
            Some(b) => b,
        };
        if !(b > c0) {
            return out;
        }
        let next = b + br.len();
        proof {
            let all = newer_dates_from(s@, 0);
            let k = out@.len() as int;
            let rest = newer_dates_from(s@, cur as int);
            assert(newer_date_at(s@, cur as int) is Some);
            assert(rest.len() > 0);
            assert(rest == all.skip(k));
            assert(rest[0] == all.skip(k)[0]);
            assert(all.skip(k)[0] == all[k]);
            assert(rest.drop_first() =~= newer_dates_from(s@, next as int));
            assert forall|m2: int|
                0 <= m2 < newer_dates_from(s@, next as int).len() implies newer_dates_from(
                s@,
                next as int,
            )[m2] == all.skip(k + 1)[m2] by {
                assert(newer_dates_from(s@, next as int)[m2] == rest[m2 + 1]);
                assert(rest[m2 + 1] == all.skip(k)[m2 + 1]);
                assert(all.skip(k)[m2 + 1] == all[k + 1 + m2]);
                assert(all.skip(k + 1)[m2] == all[k + 1 + m2]);
            }
            assert(newer_dates_from(s@, next as int) =~= all.skip(k + 1));
        }
        out.push(extract(s, c0, b));
        cur = next;
    }
}

/// A text that is nothing but a decimal number fitting `u32`.
pub open spec fn plain_num(t: Seq<char>) -> Option<int> {
    if t.len() > 0 && digits_end(t, 0) == t.len() && num_val(t) <= u32::MAX {
        Some(num_val(t) as int)
    } else {
        None
    }
}

/// Decode a text that is nothing but a decimal number.
pub(crate) fn plain_u32(t: &str) -> (r: EhParseResult<u32>)
    ensures
        plain_num(t@) is None ==> r matches Err(ParseError::Other(_)),
        plain_num(t@) matches Some(x) ==> r matches Ok(y) && x == y as int,
{
    let tv = chars_of(t);
    let n = tv.len();
    if n == 0 || exec_digits_end(&tv, 0) != n {
        proof {
            lemma_digits_end_bounds(tv@, 0);
        }
        return Err(ParseError::Other(String::from_str("text is no number")));
    }
    proof {
        assert(tv@.subrange(0, n as int) =~= tv@);
    }
    let x = match parse_u64_range(&tv, 0, n) {
        None => {
            return Err(ParseError::Other(String::from_str("number is out of range")));
        },
        Some(x) => x,
    };
    if x > u32::MAX as u64 {
        return Err(ParseError::Other(String::from_str("number is out of range")));
    }
    Ok(x as u32)
}

/// The detail table decodes: cells pair up, the fold succeeds, the six
/// required rows are covered.
pub open spec fn detail_table_decodes(t: Seq<char>) -> bool {
    &&& vis_count(t, ".gdt1"@) == vis_count(t, ".gdt2"@)
    &&& dd_result(t) matches Some(acc) && dd_complete(acc)
}

/// Every newer-version link decodes: a date is harvested for it and its
/// target is a well-formed gallery URL.
pub open spec fn newer_decodes(s: Seq<char>) -> bool {
    &&& vis_count(s, "#gnd a"@) <= newer_dates_from(s, 0).len()
    &&& forall|i: int|
        0 <= i < vis_count(s, "#gnd a"@) ==> (#[trigger] vis_nth_attr(s, "#gnd a"@, i, "href"@)
            matches Some(h) && (crate::parser::gallery_detail_url_parser::detail_url_parts(h)
            matches Some(p) && num_val(h.subrange(p.0.0, p.0.1)) <= u64::MAX))
}

/// The preview toggle reads Large or Normal and every tile of the chosen
/// shape decodes.
pub open spec fn preview_decodes(s: Seq<char>) -> bool {
    ||| (vis_text(s, "#gdo4 > [onclick]"@) == "Large"@ && (forall|i: int|
        0 <= i < vis_count(vis_outer_html(s, "#gdt"@), ".gdtl"@) ==> large_tile_decodes(
            #[trigger] vis_nth_outer_html(vis_outer_html(s, "#gdt"@), ".gdtl"@, i),
        )))
    ||| (vis_text(s, "#gdo4 > [onclick]"@) == "Normal"@ && (forall|j: int|
        0 <= j < medium_tiles(vis_outer_html(s, "#gdt"@), 0).len() ==> medium_tile_fits(
            vis_outer_html(s, "#gdt"@),
            #[trigger] medium_tiles(vis_outer_html(s, "#gdt"@), 0)[j],
        )))
}

/// The whole detail page decodes: no banner, the identity script, the
/// torrent and archive links, the cover, the detail table, the rating
/// fields, the favorite state, the newer-version list, the comment
/// thread, the pager cells, the tag table and the preview set all carry
/// well-formed values.
pub open spec fn detail_decodes(s: Seq<char>) -> bool {
    &&& crate::sentinel::server_state_ok(s)
    &&& detail_vars(s) matches Some(dv) && ({
        &&& num_val(s.subrange(dv.0.0, dv.0.1)) <= u64::MAX
        &&& crate::text::int_val_of(s.subrange(dv.2.0, dv.2.1)) matches Some(x) && -(
        i64::MAX as int) <= x <= i64::MAX
    })
    &&& torrent_link_caps(s) matches Some(tc) && num_val(s.subrange(tc.1.0, tc.1.1)) <= u32::MAX
    &&& archive_link_caps_from(s, 0) is Some
    &&& vis_attr(s, "#gd1 div:first-child"@, "style"@) matches Some(st) && cover_caps(st) is Some
    &&& detail_table_decodes(vis_html(s, "#gdd"@))
    &&& plain_num(vis_text(s, "#rating_count"@)) is Some
    &&& (vis_text(s, "#rating_label"@) == "Not Yet Rated"@ || (decimal_at(
        vis_text(s, "#rating_label"@),
        0,
    ) matches Some(parts) && centi_val(
        vis_text(s, "#rating_label"@).subrange(parts.0.0, parts.0.1),
        vis_text(s, "#rating_label"@).subrange(parts.1.0, parts.1.1),
    ) <= i64::MAX))
    &&& !contains_seq(vis_text(s, "#favoritelink"@), "Add to Favorites"@) ==> (vis_attr(
        s,
        "#gdf .i"@,
        "style"@,
    ) matches Some(ss) && (rgba_captures(ss) matches Some(caps) && slot_of(
        caps.0,
        caps.1,
        caps.2,
    ) is Some))
    &&& vis_count(s, "#gnd"@) > 0 ==> newer_decodes(s)
    &&& comment_thread_decodes(vis_outer_html(s, "#cdiv"@))
    &&& plain_num(vis_text(s, ".ptt td:nth-last-child(2) > a"@)) is Some
    &&& vis_attr(s, ".ptt td:nth-child(2) > a"@, "href"@) is Some
    &&& crate::parser::gallery_tag_group_list_parser::tag_rows_decode(
        vis_outer_html(s, "#taglist"@),
    )
    &&& preview_decodes(s)
}

/// What a decoded detail record guarantees against the page structure:
/// every field the document carries is tied to its place in the page.
pub open spec fn detail_structure_matches(
    d: crate::structures::GalleryDetail,
    s: Seq<char>,
) -> bool {
    &&& d.title@ == vis_text(s, "#gn"@)
    &&& d.title_jpn@ == vis_text(s, "#gj"@)
    &&& d.uploader@ == vis_text(s, "#gdn"@)
    &&& d.category == cat_value(cat_index_of(vis_text(s, "#gdc > .cs"@)))
    &&& vis_attr(s, "#gd1 div:first-child"@, "style"@) matches Some(st) && (cover_caps(st)
        matches Some(cc) && d.thumb@ == st.subrange(cc.0, cc.1))
    &&& plain_num(vis_text(s, "#rating_count"@)) == Some(d.rating_count as int)
    &&& ({
        let lt = vis_text(s, "#rating_label"@);
        if lt == "Not Yet Rated"@ {
            d.rating_opt is None
        } else {
            d.rating_opt matches Some(rt) && (decimal_at(lt, 0) matches Some(parts) && centi_val(
                lt.subrange(parts.0.0, parts.0.1),
                lt.subrange(parts.1.0, parts.1.1),
            ) == rt.centi as int)
        }
    })
    &&& d.is_favorited == !contains_seq(vis_text(s, "#favoritelink"@), "Add to Favorites"@)
    &&& d.is_favorited ==> (vis_attr(s, "#gdf .i"@, "style"@) matches Some(ss) && (rgba_captures(
        ss,
    ) matches Some(caps) && slot_of(caps.0, caps.1, caps.2) matches Some(k)
        && d.favorite_slot_opt == Some(k as u32)) && (d.favorite_name_opt matches Some(nm) && nm@
        == vis_text(s, "#favoritelink"@)))
    &&& !d.is_favorited ==> (d.favorite_slot_opt is None && d.favorite_name_opt is None)
    &&& plain_num(vis_text(s, ".ptt td:nth-last-child(2) > a"@)) == Some(d.preview_pages as int)
    &&& vis_attr(s, ".ptt td:nth-child(2) > a"@, "href"@) == Some(d.url@)
    &&& (d.newer_version_map_opt is Some) == (vis_count(s, "#gnd"@) > 0)
    &&& d.newer_version_map_opt matches Some(nv) ==> ({
        &&& nv@.len() == vis_count(s, "#gnd a"@)
        &&& nv@.len() <= newer_dates_from(s, 0).len()
        &&& forall|i: int|
            0 <= i < nv@.len() ==> ({
                &&& (#[trigger] nv@[i]).0@ == s.subrange(
                    (newer_dates_from(s, 0)[i]).0,
                    (newer_dates_from(s, 0)[i]).1,
                )
                &&& vis_nth_attr(s, "#gnd a"@, i, "href"@) matches Some(h) && identity_matches(
                    nv@[i].1,
                    h,
                )
            })
    })
    &&& detail_table_matches(d.detail, vis_html(s, "#gdd"@))
    &&& comment_list_matches(d.comment_list, vis_outer_html(s, "#cdiv"@))
    &&& tag_group_list_matches(d.tag_group_vec@, vis_outer_html(s, "#taglist"@))
    &&& ({
        let mode = vis_text(s, "#gdo4 > [onclick]"@);
        &&& mode == "Large"@ ==> (d.preview_set matches crate::structures::GalleryPreviewSet::Large(
            tiles,
        ) && large_set_matches(tiles@, vis_outer_html(s, "#gdt"@)))
        &&& mode == "Normal"@ && mode != "Large"@ ==> (d.preview_set
            matches crate::structures::GalleryPreviewSet::Medium(tiles) && medium_set_matches(
            tiles@,
            vis_outer_html(s, "#gdt"@),
        ))
    })
}

/// What a decoded tag-group list guarantees: one group per table row.
pub open spec fn tag_group_list_matches(gv: Seq<GalleryTagGroup>, s: Seq<char>) -> bool {
    &&& gv.len() == vis_count(s, "tr"@)
    &&& forall|i: int|
        0 <= i < gv.len() ==> crate::parser::gallery_tag_group_parser::tag_group_matches(
            #[trigger] gv[i],
            vis_nth_outer_html(s, "tr"@, i),
        )
}

impl crate::structures::GalleryDetail {
    /// Decode a whole gallery detail page.  The sentinel runs first and
    /// wins over any content; then the identity script, the torrent and
    /// archive links, and the structural fields, composing the full
    /// record; extraction aborts on the first missing field.
    #[verifier::rlimit(100)]
    pub fn parse(s: &str) -> (r: EhParseResult<crate::structures::GalleryDetail>)
        ensures
            sentinel_verdict_matches(r, s@),
            detail_decodes(s@) ==> r is Ok,
            crate::sentinel::server_state_ok(s@) && detail_vars(s@) is None ==> r == Err::<
                crate::structures::GalleryDetail,
                ParseError,
            >(ParseError::RegexMatchFailed),
            r matches Ok(d) ==> ({
                &&& detail_vars(s@) matches Some(dv) && d.identity.gid == num_val(
                    s@.subrange(dv.0.0, dv.0.1),
                ) && d.identity.token@ == s@.subrange(dv.1.0, dv.1.1) && crate::text::int_val_of(
                    s@.subrange(dv.2.0, dv.2.1),
                ) == Some(d.api_uid as int) && d.api_key@ == s@.subrange(dv.3.0, dv.3.1)
                &&& torrent_link_caps(s@) matches Some(tc) && d.torrent_url@
                    == crate::text::unescape_from(s@.subrange(tc.0.0, tc.0.1), 0)
                    && d.torrent_count == num_val(s@.subrange(tc.1.0, tc.1.1))
                &&& archive_link_caps_from(s@, 0) matches Some(ac) && d.archive_url@
                    == crate::text::unescape_from(s@.subrange(ac.0, ac.1), 0)
                &&& d.is_favorited <==> d.favorite_slot_opt is Some
                &&& detail_structure_matches(d, s@)
            }),
    {
        match crate::sentinel::check_server_state(s) {
            Err(e) => {
                return Err(e);
            },
            Ok(()) => {},
        }
        let v = chars_of(s);
        let dv = match exec_detail_vars(&v) {
            None => {
                return Err(ParseError::RegexMatchFailed);
            },
            Some(c) => c,
        };
        let gid = match parse_u64_range(&v, dv.0.0, dv.0.1) {
            None => {
                return Err(ParseError::Other(String::from_str("gid is out of range")));
            },
            Some(x) => x,
        };
        let token = extract(s, dv.1.0, dv.1.1);
        let api_uid = match crate::text::parse_i64_range(&v, dv.2.0, dv.2.1) {
            None => {
                return Err(ParseError::Other(String::from_str("apiuid cannot be decoded")));
            },
            Some(x) => x,
        };
        let api_key = extract(s, dv.3.0, dv.3.1);
        // Torrent link.
        let tc = match exec_torrent_link(&v) {
            None => {
                return Err(ParseError::RegexMatchFailed);
            },
            Some(c) => c,
        };
        let torrent_url = crate::text::unescape(extract(s, tc.0.0, tc.0.1).as_str());
        let torrent_count64 = match parse_u64_range(&v, tc.1.0, tc.1.1) {
            None => {
                return Err(ParseError::Other(String::from_str("torrent count is out of range")));
            },
            Some(x) => x,
        };
        if torrent_count64 > u32::MAX as u64 {
            return Err(ParseError::Other(String::from_str("torrent count is out of range")));
        }
        // Archive link.
        let ac = match exec_archive_link(&v) {
            None => {
                return Err(ParseError::RegexMatchFailed);
            },
            Some(c) => c,
        };
        let archive_url = crate::text::unescape(extract(s, ac.0, ac.1).as_str());
        // Structure.
        let cover_style = match attr_at(s, "#gd1 div:first-child", "style") {
            None => {
                return Err(ParseError::AttributeNotFound);
            },
            Some(x) => x,
        };
        let cv = chars_of(cover_style.as_str());
        let thumb = match exec_cover_caps(&cv) {
            None => {
                return Err(ParseError::RegexMatchFailed);
            },
            Some(c) => extract(cover_style.as_str(), c.0, c.1),
        };
        let title = text_at(s, "#gn");
        let title_jpn = text_at(s, "#gj");
        let category = crate::structures::Category::from_text(
            text_at(s, "#gdc > .cs").as_str(),
        ).value;
        let uploader = text_at(s, "#gdn");
        let gdd_html = html_at(s, "#gdd");
        let detail = match GalleryDetailDetail::parse(gdd_html.as_str()) {
            Ok(d) => d,
            Err(e) => {
                return Err(e);
            },
        };
        let rating_count = match plain_u32(text_at(s, "#rating_count").as_str()) {
            Ok(x) => x,
            Err(e) => {
                return Err(e);
            },
        };
        let label_text = text_at(s, "#rating_label");
        let rating_opt: Option<crate::structures::Rating> = if label_text == String::from_str(
            "Not Yet Rated",
        ) {
            None
        } else {
            let lv = chars_of(label_text.as_str());
            match crate::text::scan_centi(&lv, 0) {
                None => {
                    return Err(ParseError::RegexMatchFailed);
                },
                Some(Err(())) => {
                    return Err(ParseError::Other(String::from_str("rating is out of range")));
                },
                Some(Ok(c)) => Some(crate::structures::Rating { centi: c }),
            }
        };
        let fav_text = text_at(s, "#favoritelink");
        let link_text = chars_of(fav_text.as_str());
        let is_favorited = !contains_sub(&link_text, &chars_of("Add to Favorites"));
        let (favorite_slot_opt, favorite_name_opt): (Option<u32>, Option<String>) = if is_favorited {
            let slot_style = match attr_at(s, "#gdf .i", "style") {
                None => {
                    return Err(ParseError::AttributeNotFound);
                },
                Some(x) => x,
            };
            match crate::structures::FavoriteSlot::from_style(slot_style.as_str()) {
                Ok(slot) => (Some(slot.value), Some(fav_text.clone())),
                Err(e) => {
                    return Err(e);
                },
            }
        } else {
            (None, None)
        };
        let newer_version_map_opt: Option<Vec<(String, crate::structures::GalleryIdentity)>> = if count_at(
            s,
            "#gnd",
        ) > 0 {
            let dates = exec_newer_dates(&v, s);
            match exec_newer_map(s, &dates) {
                Ok(map) => Some(map),
                Err(e) => {
                    return Err(e);
                },
            }
        } else {
            None
        };
        let cdiv_html = outer_html_at(s, "#cdiv");
        let comment_list = match GalleryCommentList::parse(cdiv_html.as_str()) {
            Ok(l) => l,
            Err(e) => {
                return Err(e);
            },
        };
        let preview_pages = match plain_u32(text_at(s, ".ptt td:nth-last-child(2) > a").as_str()) {
            Ok(x) => x,
            Err(e) => {
                return Err(e);
            },
        };
        let url = match attr_at(s, ".ptt td:nth-child(2) > a", "href") {
            None => {
                return Err(ParseError::AttributeNotFound);
            },
            Some(x) => x,
        };
        let mode_text = text_at(s, "#gdo4 > [onclick]");
        let gdt_html = outer_html_at(s, "#gdt");
        proof {
            reveal_strlit("Large");
            reveal_strlit("Normal");
        }
        let preview_set: crate::structures::GalleryPreviewSet = if mode_text == String::from_str(
            "Large",
        ) {
            match parse_large(gdt_html.as_str()) {
                Ok(tiles) => crate::structures::GalleryPreviewSet::Large(tiles),
                Err(e) => {
                    proof {
                        if detail_decodes(s@) {
                            reveal_strlit("Large");
                            reveal_strlit("Normal");
                            assert(vis_text(s@, "#gdo4 > [onclick]"@) == "Large"@);
                            assert("Large"@.len() == 5 && "Normal"@.len() == 6);
                            assert(forall|i9: int|
                                0 <= i9 < vis_count(vis_outer_html(s@, "#gdt"@), ".gdtl"@)
                                    ==> large_tile_decodes(
                                    #[trigger] vis_nth_outer_html(
                                        vis_outer_html(s@, "#gdt"@),
                                        ".gdtl"@,
                                        i9,
                                    ),
                                ));
                            assert forall|i2: int|
                                0 <= i2 < vis_count(gdt_html@, ".gdtl"@) implies large_tile_decodes(
                                #[trigger] vis_nth_outer_html(gdt_html@, ".gdtl"@, i2),
                            ) by {
                                assert(large_tile_decodes(
                                    vis_nth_outer_html(vis_outer_html(s@, "#gdt"@), ".gdtl"@, i2),
                                ));
                            }
                            assert(false);
                        }
                    }
                    return Err(e);
                },
            }
        } else if mode_text == String::from_str("Normal") {
            match parse_medium(gdt_html.as_str()) {
                Ok(tiles) => crate::structures::GalleryPreviewSet::Medium(tiles),
                Err(e) => {
                    proof {
                        if detail_decodes(s@) {
                            reveal_strlit("Large");
                            reveal_strlit("Normal");
                            assert(vis_text(s@, "#gdo4 > [onclick]"@) == "Normal"@);
                            assert("Large"@.len() == 5 && "Normal"@.len() == 6);
                            assert(forall|j9: int|
                                0 <= j9 < medium_tiles(vis_outer_html(s@, "#gdt"@), 0).len()
                                    ==> medium_tile_fits(
                                    vis_outer_html(s@, "#gdt"@),
                                    #[trigger] medium_tiles(vis_outer_html(s@, "#gdt"@), 0)[j9],
                                ));
                            assert forall|j2: int|
                                0 <= j2 < medium_tiles(gdt_html@, 0).len() implies medium_tile_fits(
                                gdt_html@,
                                #[trigger] medium_tiles(gdt_html@, 0)[j2],
                            ) by {
                                assert(medium_tile_fits(
                                    vis_outer_html(s@, "#gdt"@),
                                    medium_tiles(vis_outer_html(s@, "#gdt"@), 0)[j2],
                                ));
                            }
                            assert(false);
                        }
                    }
                    return Err(e);
                },
            }
        } else {
            return Err(ParseError::DomNotFound);
        };
        let tag_src = outer_html_at(s, "#taglist");
        let tag_group_list = match crate::structures::GalleryTagGroupList::parse(tag_src.as_str()) {
            Ok(l) => l,
            Err(e) => {
                return Err(e);
            },
        };
        let result = crate::structures::GalleryDetail {
            identity: crate::structures::GalleryIdentity { gid, token },
            api_uid,
            api_key,
            torrent_count: torrent_count64 as u32,
            torrent_url,
            archive_url,
            thumb,
            newer_version_map_opt,
            is_favorited,
            favorite_name_opt,
            favorite_slot_opt,
            rating_count,
            tag_group_vec: tag_group_list.group_vec,
            comment_list,
            preview_pages,
            preview_set,
            url,
            title,
            title_jpn,
            category,
            uploader,
            rating_opt,
            detail,
        };
        proof {
            assert(result.title@ == vis_text(s@, "#gn"@));
            assert(result.is_favorited == !contains_seq(
                vis_text(s@, "#favoritelink"@),
                "Add to Favorites"@,
            ));
            assert(detail_table_matches(result.detail, vis_html(s@, "#gdd"@)));
            assert(comment_list_matches(result.comment_list, vis_outer_html(s@, "#cdiv"@)));
            assert(tag_group_list_matches(result.tag_group_vec@, vis_outer_html(s@, "#taglist"@)));
            assert(result.newer_version_map_opt matches Some(nv) ==> nv@.len() == vis_count(
                s@,
                "#gnd a"@,
            ));
            assert(detail_structure_matches(result, s@));
        }
        Ok(result)
    }
}

fn exec_torrent_link(v: &Vec<char>) -> (r: Option<((usize, usize), (usize, usize))>)
    ensures
        match r {
            Some(c) => torrent_link_caps(v@) == Some(
                ((c.0.0 as int, c.0.1 as int), (c.1.0 as int, c.1.1 as int)),
            ) && c.0.0 <= c.0.1 <= v@.len() && c.1.0 <= c.1.1 <= v@.len(),
            None => torrent_link_caps(v@) is None,
        },
{
    let n = v.len();
    proof {
        assert(v@.len() == n);
    }
    let pre = chars_of("onclick=\"return popUp('");
    let p = match find_sub(v, &pre, 0) {
        None => {
            return None;
        },
        Some(p) => p,
    };
    let c0 = p + pre.len();
    let qe = match find_char(v, '\'', c0) {
        None => {
            return None;
        },
        Some(x) => x,
    };
    if !(qe > c0) {
        return None;
    }
    let rp = match find_char(v, ')', qe + 1) {
        None => {
            return None;
        },
        Some(x) => x,
    };
    let mid = chars_of("\">Torrent Download");
    if !(rp > qe + 1 && mid.len() <= n - (rp + 1) && eq_at(v, rp + 1, &mid)) {
        return None;
    }
    let td = rp + 1 + mid.len();
    let lt = match find_char(v, '<', td) {
        None => {
            return None;
        },
        Some(x) => x,
    };
    let d0 = match crate::text::exec_first_digit(v, td) {
        None => {
            return None;
        },
        Some(x) => x,
    };
    let de = exec_digits_end(v, d0);
    proof {
        lemma_digits_end_bounds(v@, d0 as int);
    }
    let close = chars_of("</a");
    let close_ok = if close.len() <= n - lt {
        eq_at(v, lt, &close)
    } else {
        false
    };
    if !(td < d0 && de < lt && close_ok) {
        return None;
    }
    Some(((c0, qe), (d0, de)))
}

/// Pair the newer-version links with the harvested date strings, in
/// document order.
fn exec_newer_map(s: &str, dates: &Vec<String>) -> (r: EhParseResult<
    Vec<(String, crate::structures::GalleryIdentity)>,
>)
    ensures
        newer_decodes(s@) && vis_count(s@, "#gnd a"@) <= dates@.len() ==> r is Ok,
        r matches Ok(map) ==> ({
            &&& map@.len() == vis_count(s@, "#gnd a"@)
            &&& map@.len() <= dates@.len()
            &&& forall|i: int|
                0 <= i < map@.len() ==> ({
                    &&& (#[trigger] map@[i]).0@ == dates@[i]@
                    &&& vis_nth_attr(s@, "#gnd a"@, i, "href"@) matches Some(h)
                        && identity_matches(map@[i].1, h)
                })
        }),
{
    let hn = count_at(s, "#gnd a");
    let mut map: Vec<(String, crate::structures::GalleryIdentity)> = Vec::new();
    let mut i: usize = 0;
    while i < hn
        invariant
            i <= hn,
            hn == vis_count(s@, "#gnd a"@),
            map@.len() == i,
            i <= dates@.len(),
            forall|j: int|
                0 <= j < i ==> ({
                    &&& (#[trigger] map@[j]).0@ == dates@[j]@
                    &&& vis_nth_attr(s@, "#gnd a"@, j, "href"@) matches Some(h)
                        && identity_matches(map@[j].1, h)
                }),
        decreases hn - i,
    {
        let href = match nth_attr_at(s, "#gnd a", i, "href") {
            None => {
                return Err(ParseError::AttributeNotFound);
            },
            Some(h) => h,
        };
        let identity = match crate::structures::GalleryIdentity::parse(href.as_str()) {
            Ok(x) => x,
            Err(e) => {
                return Err(e);
            },
        };
        if i >= dates.len() {
            return Err(ParseError::DomNotFound);
        }
        map.push((dates[i].clone(), identity));
        i += 1;
    }
    Ok(map)
}

impl crate::parser::Parser for GalleryComment {
    fn parse(s: &str) -> EhParseResult<GalleryComment> {
        GalleryComment::parse(s)
    }
}

impl crate::parser::Parser for GalleryCommentList {
    fn parse(s: &str) -> EhParseResult<GalleryCommentList> {
        GalleryCommentList::parse(s)
    }
}

impl crate::parser::Parser for GalleryDetailDetail {
    fn parse(s: &str) -> EhParseResult<GalleryDetailDetail> {
        GalleryDetailDetail::parse(s)
    }
}

impl crate::parser::Parser for GalleryPreviewLarge {
    fn parse(s: &str) -> EhParseResult<GalleryPreviewLarge> {
        GalleryPreviewLarge::parse(s)
    }
}

impl crate::parser::Parser for crate::structures::GalleryDetail {
    fn parse(s: &str) -> EhParseResult<crate::structures::GalleryDetail> {
        crate::structures::GalleryDetail::parse(s)
    }
}

} // verus!
