use vstd::prelude::*;
use crate::error::{EhParseResult, ParseError};
use crate::structures::Category;
use crate::text::{chars_of, eq_ignore_case, lower_seq};

verus! {

// ---------------------------------------------------------------------------
// The category table: eleven rows, each with up to three accepted spellings,
// a fixed numeric value and a fixed 32-bit display color.
// ---------------------------------------------------------------------------

pub open spec fn cat_value(i: int) -> u32 {
    if i == 0 {
        1
    } else if i == 1 {
        2
    } else if i == 2 {
        4
    } else if i == 3 {
        8
    } else if i == 4 {
        16
    } else if i == 5 {
        32
    } else if i == 6 {
        64
    } else if i == 7 {
        128
    } else if i == 8 {
        256
    } else if i == 9 {
        512
    } else {
        0x400
    }
}

pub open spec fn cat_color(i: int) -> u32 {
    if i == 0 {
        0xfff06292
    } else if i == 1 {
        0xfff44336
    } else if i == 2 {
        0xffff9800
    } else if i == 3 {
        0xfffbc02d
    } else if i == 4 {
        0xff4caf50
    } else if i == 5 {
        0xff3f51b5
    } else if i == 6 {
        0xff9c27b0
    } else if i == 7 {
        0xff9575cd
    } else if i == 8 {
        0xff2196f3
    } else if i == 9 {
        0xff8bc34a
    } else {
        0
    }
}

/// The `j`-th accepted spelling of row `i`; the empty sequence where the
/// row has fewer than three spellings.
pub open spec fn cat_label(i: int, j: int) -> Seq<char> {
    if i == 0 && j == 0 {
        "misc"@
    } else if i == 1 && j == 0 {
        "doujinshi"@
    } else if i == 2 && j == 0 {
        "manga"@
    } else if i == 3 && j == 0 {
        "artistcg"@
    } else if i == 3 && j == 1 {
        "Artist CG Sets"@
    } else if i == 3 && j == 2 {
        "Artist CG"@
    } else if i == 4 && j == 0 {
        "gamecg"@
    } else if i == 4 && j == 1 {
        "Game CG Sets"@
    } else if i == 4 && j == 2 {
        "Game CG"@
    } else if i == 5 && j == 0 {
        "imageset"@
    } else if i == 5 && j == 1 {
        "Image Sets"@
    } else if i == 5 && j == 2 {
        "Image Set"@
    } else if i == 6 && j == 0 {
        "cosplay"@
    } else if i == 7 && j == 0 {
        "asianporn"@
    } else if i == 7 && j == 1 {
        "Asian Porn"@
    } else if i == 8 && j == 0 {
        "non-h"@
    } else if i == 9 && j == 0 {
        "western"@
    } else if i == 10 && j == 0 {
        "unknown"@
    } else {
        Seq::<char>::empty()
    }
}

/// Row `i` accepts `s`: one of its non-empty spellings equals `s` after
/// ASCII case folding.
pub open spec fn row_matches(s: Seq<char>, i: int) -> bool {
    ||| (cat_label(i, 0).len() > 0 && lower_seq(cat_label(i, 0)) == lower_seq(s))
    ||| (cat_label(i, 1).len() > 0 && lower_seq(cat_label(i, 1)) == lower_seq(s))
    ||| (cat_label(i, 2).len() > 0 && lower_seq(cat_label(i, 2)) == lower_seq(s))
}

/// The first of the eleven rows accepting `s`, if any.
pub open spec fn cat_match_from(s: Seq<char>, i: int) -> Option<int>
    decreases 11 - i when 0 <= i <= 11
{
    if i >= 11 {
        None
    } else if row_matches(s, i) {
        Some(i)
    } else {
        cat_match_from(s, i + 1)
    }
}

pub open spec fn cat_match(s: Seq<char>) -> Option<int> {
    cat_match_from(s, 0)
}

/// Every input decodes to a row: an unmatched input falls to the last row.
pub open spec fn cat_index_of(s: Seq<char>) -> int {
    match cat_match(s) {
        Some(i) => i,
        None => 10,
    }
}

fn row_matches_exec(v: &Vec<char>, i: usize) -> (r: bool)
    requires
        i < 11,
    ensures
        r == row_matches(v@, i as int),
{
    proof {
        reveal_strlit("misc");
        reveal_strlit("doujinshi");
        reveal_strlit("manga");
        reveal_strlit("artistcg");
        reveal_strlit("Artist CG Sets");
        reveal_strlit("Artist CG");
        reveal_strlit("gamecg");
        reveal_strlit("Game CG Sets");
        reveal_strlit("Game CG");
        reveal_strlit("imageset");
        reveal_strlit("Image Sets");
        reveal_strlit("Image Set");
        reveal_strlit("cosplay");
        reveal_strlit("asianporn");
        reveal_strlit("Asian Porn");
        reveal_strlit("non-h");
        reveal_strlit("western");
        reveal_strlit("unknown");
    }
    let r = if i == 0 {
        eq_ignore_case(v, &chars_of("misc"))
    } else if i == 1 {
        eq_ignore_case(v, &chars_of("doujinshi"))
    } else if i == 2 {
        eq_ignore_case(v, &chars_of("manga"))
    } else if i == 3 {
        eq_ignore_case(v, &chars_of("artistcg")) || eq_ignore_case(v, &chars_of("Artist CG Sets"))
            || eq_ignore_case(v, &chars_of("Artist CG"))
    } else if i == 4 {
        eq_ignore_case(v, &chars_of("gamecg")) || eq_ignore_case(v, &chars_of("Game CG Sets"))
            || eq_ignore_case(v, &chars_of("Game CG"))
    } else if i == 5 {
        eq_ignore_case(v, &chars_of("imageset")) || eq_ignore_case(v, &chars_of("Image Sets"))
            || eq_ignore_case(v, &chars_of("Image Set"))
    } else if i == 6 {
        eq_ignore_case(v, &chars_of("cosplay"))
    } else if i == 7 {
        eq_ignore_case(v, &chars_of("asianporn")) || eq_ignore_case(v, &chars_of("Asian Porn"))
    } else if i == 8 {
        eq_ignore_case(v, &chars_of("non-h"))
    } else if i == 9 {
        eq_ignore_case(v, &chars_of("western"))
    } else {
        eq_ignore_case(v, &chars_of("unknown"))
    };
    r
}

fn cat_value_exec(i: usize) -> (r: u32)
    requires
        i <= 10,
    ensures
        r == cat_value(i as int),
{
    match i {
        0 => 1,
        1 => 2,
        2 => 4,
        3 => 8,
        4 => 16,
        5 => 32,
        6 => 64,
        7 => 128,
        8 => 256,
        9 => 512,
        _ => 0x400,
    }
}

fn cat_color_exec(i: usize) -> (r: u32)
    requires
        i <= 10,
    ensures
        r == cat_color(i as int),
{
    match i {
        0 => 0xfff06292,
        1 => 0xfff44336,
        2 => 0xffff9800,
        3 => 0xfffbc02d,
        4 => 0xff4caf50,
        5 => 0xff3f51b5,
        6 => 0xff9c27b0,
        7 => 0xff9575cd,
        8 => 0xff2196f3,
        9 => 0xff8bc34a,
        _ => 0,
    }
}

impl Category {
    /// Decode a category from its display text.  Total: an unrecognized
    /// text yields the Unknown row, never an error.
    pub fn from_text(s: &str) -> (r: Category)
        ensures
            r.value == cat_value(cat_index_of(s@)),
            r.color == cat_color(cat_index_of(s@)),
            cat_match(s@) is Some ==> r.string@ == s@,
            cat_match(s@) is None ==> r.string@ == "unknown"@,
    {
        let v = chars_of(s);
        let mut i: usize = 0;
        while i < 11
            invariant
                i <= 11,
                v@ == s@,
                cat_match(s@) == cat_match_from(s@, i as int),
            decreases 11 - i,
        {
            if row_matches_exec(&v, i) {
                return Category {
                    string: s.to_owned(),
                    color: cat_color_exec(i),
                    value: cat_value_exec(i),
                };
            }
            i += 1;
        }
        Category { string: String::from_str("unknown"), color: 0, value: 0x400 }
    }

    /// Decode a category from its numeric value; an unknown value yields
    /// the Unknown row with its canonical spelling.
    pub fn from_value(u: u32) -> (r: Category)
        ensures
            cat_value_match(u) matches Some(i) ==> r.value == u && r.color == cat_color(i)
                && r.string@ == cat_label(i, 0),
            cat_value_match(u) is None ==> r.value == 0x400 && r.color == 0 && r.string@
                == "unknown"@,
    {
        let mut i: usize = 0;
        while i < 11
            invariant
                i <= 11,
                cat_value_match(u) == cat_value_match_from(u, i as int),
            decreases 11 - i,
        {
            if cat_value_exec(i) == u {
                return Category {
                    string: cat_label_text(i),
                    color: cat_color_exec(i),
                    value: u,
                };
            }
            i += 1;
        }
        Category { string: String::from_str("unknown"), color: 0, value: 0x400 }
    }
}

/// The first row whose numeric value is `u`, if any.
pub open spec fn cat_value_match_from(u: u32, i: int) -> Option<int>
    decreases 11 - i when 0 <= i <= 11
{
    if i >= 11 {
        None
    } else if cat_value(i) == u {
        Some(i)
    } else {
        cat_value_match_from(u, i + 1)
    }
}

pub open spec fn cat_value_match(u: u32) -> Option<int> {
    cat_value_match_from(u, 0)
}

fn cat_label_text(i: usize) -> (r: String)
    requires
        i <= 10,
    ensures
        r@ == cat_label(i as int, 0),
{
    match i {
        0 => String::from_str("misc"),
        1 => String::from_str("doujinshi"),
        2 => String::from_str("manga"),
        3 => String::from_str("artistcg"),
        4 => String::from_str("gamecg"),
        5 => String::from_str("imageset"),
        6 => String::from_str("cosplay"),
        7 => String::from_str("asianporn"),
        8 => String::from_str("non-h"),
        9 => String::from_str("western"),
        _ => String::from_str("unknown"),
    }
}

impl crate::parser::Parser for Category {
    fn parse(s: &str) -> EhParseResult<Category> {
        Ok(Category::from_text(s))
    }
}

/// Decoding by numeric value, offered as a conversion trait so that callers
/// holding a raw `u32` can ask for any type that declares one.
pub trait FromU32: Sized {
    type Err;

    fn from_u32(u: u32) -> Result<Self, Self::Err>;
}

impl FromU32 for Category {
    type Err = ParseError;

    fn from_u32(u: u32) -> Result<Category, ParseError> {
        Ok(Category::from_value(u))
    }
}

pub trait U32ParseEx {
    fn parse<F: FromU32>(self) -> Result<F, F::Err>;
}

impl U32ParseEx for u32 {
    fn parse<F: FromU32>(self) -> Result<F, F::Err> {
        FromU32::from_u32(self)
    }
}

// ---------------------------------------------------------------------------
// Laws
// ---------------------------------------------------------------------------

proof fn lemma_rows_agree(s1: Seq<char>, s2: Seq<char>, i: int)
    requires
        0 <= i <= 11,
        lower_seq(s1) == lower_seq(s2),
    ensures
        cat_match_from(s1, i) == cat_match_from(s2, i),
    decreases 11 - i,
{
    if i < 11 {
        assert(row_matches(s1, i) == row_matches(s2, i));
        lemma_rows_agree(s1, s2, i + 1);
    }
}

/// Category decoding is ASCII-case-insensitive: two texts equal after case
/// folding decode to the same row, so to the same value and color.
pub proof fn lemma_category_case_insensitive(s1: Seq<char>, s2: Seq<char>)
    requires
        lower_seq(s1) == lower_seq(s2),
    ensures
        cat_index_of(s1) == cat_index_of(s2),
        cat_match(s1) == cat_match(s2),
{
    lemma_rows_agree(s1, s2, 0);
}

/// Category decoding is total and always lands on one of the eleven rows;
/// an input no row accepts lands exactly on the Unknown row.
pub proof fn lemma_category_total(s: Seq<char>)
    ensures
        0 <= cat_index_of(s) <= 10,
        (forall|i: int| 0 <= i < 11 ==> !row_matches(s, i)) ==> cat_index_of(s) == 10,
{
    lemma_cat_match_bounds(s, 0);
    if forall|i: int| 0 <= i < 11 ==> !row_matches(s, i) {
        lemma_cat_match_none(s, 0);
    }
}

proof fn lemma_cat_scan(s: Seq<char>, i: int, k: int)
    requires
        0 <= i <= k < 11,
        forall|j: int| i <= j < k ==> !row_matches(s, j),
        row_matches(s, k),
    ensures
        cat_match_from(s, i) == Some(k),
    decreases k - i,
{
    if i < k {
        lemma_cat_scan(s, i + 1, k);
    }
}

/// Every canonical label decodes to its own row: the spellings of the
/// eleven rows are pairwise distinct even after case folding, so the first
/// matching row is the label's own.
pub proof fn lemma_canonical_labels_decode(i: int)
    requires
        0 <= i <= 10,
    ensures
        cat_match(cat_label(i, 0)) == Some(i),
        cat_index_of(cat_label(i, 0)) == i,
{
    reveal_strlit("misc");
    reveal_strlit("doujinshi");
    reveal_strlit("manga");
    reveal_strlit("artistcg");
    reveal_strlit("Artist CG Sets");
    reveal_strlit("Artist CG");
    reveal_strlit("gamecg");
    reveal_strlit("Game CG Sets");
    reveal_strlit("Game CG");
    reveal_strlit("imageset");
    reveal_strlit("Image Sets");
    reveal_strlit("Image Set");
    reveal_strlit("cosplay");
    reveal_strlit("asianporn");
    reveal_strlit("Asian Porn");
    reveal_strlit("non-h");
    reveal_strlit("western");
    reveal_strlit("unknown");
    let l = cat_label(i, 0);
    assert(row_matches(l, i));
    assert forall|j: int| 0 <= j < i implies !row_matches(l, j) by {
        if row_matches(l, j) {
            if lower_seq(cat_label(j, 0)) == lower_seq(l) {
                assert(lower_seq(cat_label(j, 0))[0] == lower_seq(l)[0]
                    && lower_seq(cat_label(j, 0))[1] == lower_seq(l)[1] && lower_seq(
                    cat_label(j, 0),
                )[4] == lower_seq(l)[4]);
            }
            if lower_seq(cat_label(j, 1)) == lower_seq(l) {
                assert(lower_seq(cat_label(j, 1))[0] == lower_seq(l)[0]
                    && lower_seq(cat_label(j, 1))[1] == lower_seq(l)[1]);
            }
            if lower_seq(cat_label(j, 2)) == lower_seq(l) {
                assert(lower_seq(cat_label(j, 2))[0] == lower_seq(l)[0]
                    && lower_seq(cat_label(j, 2))[1] == lower_seq(l)[1]);
            }
        }
    };
    lemma_cat_scan(l, 0, i);
}

proof fn lemma_cat_match_bounds(s: Seq<char>, i: int)
    requires
        0 <= i <= 11,
    ensures
        cat_match_from(s, i) matches Some(k) ==> i <= k <= 10,
    decreases 11 - i,
{
    if i < 11 && !row_matches(s, i) {
        lemma_cat_match_bounds(s, i + 1);
    }
}

proof fn lemma_cat_match_none(s: Seq<char>, i: int)
    requires
        0 <= i <= 11,
        forall|k: int| 0 <= k < 11 ==> !row_matches(s, k),
    ensures
        cat_match_from(s, i) is None,
    decreases 11 - i,
{
    if i < 11 {
        lemma_cat_match_none(s, i + 1);
    }
}

} // verus!
