use vstd::prelude::*;
use crate::dom::{
    attr_at, count_at, nth_attr_at, outer_html_at, parent_attr_at, text_at, vis_attr, vis_count,
    vis_nth_attr, vis_outer_html, vis_parent_attr, vis_text,
};
use crate::error::{EhParseResult, ParseError};
use crate::parser::category_parser::{cat_index_of, cat_value};
use crate::parser::favorite_slot_parser::{rgba_captures, slot_of};
use crate::parser::gallery_detail_url_parser::identity_matches;
use crate::parser::gallery_detail_url_parser::detail_url_parts;
use crate::parser::rating_parser::{rating_decodes, rating_matches};
use crate::parser::thumb_parser::{thumb_decodes, thumb_matches};
use crate::structures::{Category, FavoriteSlot, GalleryIdentity, GalleryInfo, Rating, Thumb};
use crate::text::{
    chars_of, contains_seq, contains_sub, eq_chars, find_num_before, num_before_from, num_val,
    opt_view_is, parse_u64_range,
};

verus! {

// ---------------------------------------------------------------------------
// One gallery-list row, whatever of the five layouts produced it.  Field
// locations vary with the layout, so each lookup tries the layout-specific
// spot and falls back where the row shapes differ.
// ---------------------------------------------------------------------------

/// The language code of row `i` of the fixed language table.
pub open spec fn lang_code(i: int) -> Seq<char> {
    if i == 0 {
        "S_LANG_EN"@
    } else if i == 1 {
        "S_LANG_ZH"@
    } else if i == 2 {
        "S_LANG_ES"@
    } else if i == 3 {
        "S_LANG_KO"@
    } else if i == 4 {
        "S_LANG_RU"@
    } else if i == 5 {
        "S_LANG_FR"@
    } else if i == 6 {
        "S_LANG_PT"@
    } else if i == 7 {
        "S_LANG_TH"@
    } else if i == 8 {
        "S_LANG_DE"@
    } else if i == 9 {
        "S_LANG_IT"@
    } else if i == 10 {
        "S_LANG_VI"@
    } else if i == 11 {
        "S_LANG_PL"@
    } else if i == 12 {
        "S_LANG_HU"@
    } else {
        "S_LANG_NL"@
    }
}

/// The tag that marks row `i`'s language.
pub open spec fn lang_tag(i: int) -> Seq<char> {
    if i == 0 {
        "language:english"@
    } else if i == 1 {
        "language:chinese"@
    } else if i == 2 {
        "language:spanish"@
    } else if i == 3 {
        "language:korean"@
    } else if i == 4 {
        "language:russian"@
    } else if i == 5 {
        "language:french"@
    } else if i == 6 {
        "language:portuguese"@
    } else if i == 7 {
        "language:thai"@
    } else if i == 8 {
        "language:german"@
    } else if i == 9 {
        "language:italian"@
    } else if i == 10 {
        "language:vietnamese"@
    } else if i == 11 {
        "language:polish"@
    } else if i == 12 {
        "language:hungarian"@
    } else {
        "language:dutch"@
    }
}

pub open spec fn tag_lang_index(t: Seq<char>) -> Option<int> {
    if t == lang_tag(0) {
        Some(0)
    } else if t == lang_tag(1) {
        Some(1)
    } else if t == lang_tag(2) {
        Some(2)
    } else if t == lang_tag(3) {
        Some(3)
    } else if t == lang_tag(4) {
        Some(4)
    } else if t == lang_tag(5) {
        Some(5)
    } else if t == lang_tag(6) {
        Some(6)
    } else if t == lang_tag(7) {
        Some(7)
    } else if t == lang_tag(8) {
        Some(8)
    } else if t == lang_tag(9) {
        Some(9)
    } else if t == lang_tag(10) {
        Some(10)
    } else if t == lang_tag(11) {
        Some(11)
    } else if t == lang_tag(12) {
        Some(12)
    } else if t == lang_tag(13) {
        Some(13)
    } else {
        None
    }
}

/// The first tag of the row that names a language, scanned in tag order.
pub open spec fn tags_lang_from(tags: Seq<Seq<char>>, i: int) -> Option<int>
    decreases tags.len() - i when 0 <= i <= tags.len()
{
    if i >= tags.len() {
        None
    } else {
        match tag_lang_index(tags[i]) {
            Some(k) => Some(k),
            None => tags_lang_from(tags, i + 1),
        }
    }
}

fn exec_tag_lang_index(t: &Vec<char>) -> (r: Option<usize>)
    ensures
        match r {
            Some(k) => tag_lang_index(t@) == Some(k as int) && k < 14,
            None => tag_lang_index(t@) is None,
        },
{
    let mut k: usize = 0;
    while k < 14
        invariant
            k <= 14,
            forall|j: int| 0 <= j < k ==> t@ != lang_tag(j),
        decreases 14 - k,
    {
        if eq_chars(t, &chars_of(lang_tag_text(k))) {
            return Some(k);
        }
        k += 1;
    }
    None
}

fn lang_tag_text(i: usize) -> (r: &'static str)
    requires
        i < 14,
    ensures
        r@ == lang_tag(i as int),
{
    match i {
        0 => "language:english",
        1 => "language:chinese",
        2 => "language:spanish",
        3 => "language:korean",
        4 => "language:russian",
        5 => "language:french",
        6 => "language:portuguese",
        7 => "language:thai",
        8 => "language:german",
        9 => "language:italian",
        10 => "language:vietnamese",
        11 => "language:polish",
        12 => "language:hungarian",
        _ => "language:dutch",
    }
}

fn lang_code_text(i: usize) -> (r: &'static str)
    requires
        i < 14,
    ensures
        r@ == lang_code(i as int),
{
    match i {
        0 => "S_LANG_EN",
        1 => "S_LANG_ZH",
        2 => "S_LANG_ES",
        3 => "S_LANG_KO",
        4 => "S_LANG_RU",
        5 => "S_LANG_FR",
        6 => "S_LANG_PT",
        7 => "S_LANG_TH",
        8 => "S_LANG_DE",
        9 => "S_LANG_IT",
        10 => "S_LANG_VI",
        11 => "S_LANG_PL",
        12 => "S_LANG_HU",
        _ => "S_LANG_NL",
    }
}

/// Infer the language from the row's tags: the first tag naming one wins.
pub fn language_of_tags(tags: &Vec<String>) -> (r: Option<String>)
    ensures
        match r {
            Some(code) => tags_lang_from(tags@.map_values(|t: String| t@), 0) matches Some(k)
                && code@ == lang_code(k),
            None => tags_lang_from(tags@.map_values(|t: String| t@), 0) is None,
        },
{
    let ghost views = tags@.map_values(|t: String| t@);
    let n = tags.len();
    let mut i: usize = 0;
    while i < n
        invariant
            i <= n,
            n == tags@.len(),
            views == tags@.map_values(|t: String| t@),
            tags_lang_from(views, 0) == tags_lang_from(views, i as int),
        decreases n - i,
    {
        let tv = chars_of(tags[i].as_str());
        match exec_tag_lang_index(&tv) {
            Some(k) => {
                return Some(String::from_str(lang_code_text(k)));
            },
            None => {},
        }
        i += 1;
    }
    None
}

/// The title markers of language `i`, as `(j)`-indexed literals — the
/// Latin bracket forms first, then the service's native-script tag forms;
/// an empty sequence where the language has fewer markers.
pub open spec fn lang_marker(i: int, j: int) -> Seq<char> {
    if i == 0 && j == 0 {
        "(eng)"@
    } else if i == 0 && j == 1 {
        "[eng]"@
    } else if i == 0 && j == 2 {
        "(english)"@
    } else if i == 0 && j == 3 {
        "[english]"@
    } else if i == 1 && j == 0 {
        "(ch)"@
    } else if i == 1 && j == 1 {
        "[ch]"@
    } else if i == 1 && j == 2 {
        "(chinese)"@
    } else if i == 1 && j == 3 {
        "[chinese]"@
    } else if i == 2 && j == 0 {
        "(spanish)"@
    } else if i == 2 && j == 1 {
        "[spanish]"@
    } else if i == 3 && j == 0 {
        "(korea)"@
    } else if i == 3 && j == 1 {
        "[korea]"@
    } else if i == 3 && j == 2 {
        "(korean)"@
    } else if i == 3 && j == 3 {
        "[korean]"@
    } else if i == 4 && j == 0 {
        "(rus)"@
    } else if i == 4 && j == 1 {
        "[rus]"@
    } else if i == 4 && j == 2 {
        "(russian)"@
    } else if i == 4 && j == 3 {
        "[russian]"@
    } else if i == 5 && j == 0 {
        "(fr)"@
    } else if i == 5 && j == 1 {
        "[fr]"@
    } else if i == 5 && j == 2 {
        "(french)"@
    } else if i == 5 && j == 3 {
        "[french]"@
    } else if i == 6 && j == 0 {
        "(portuguese"@
    } else if i == 6 && j == 1 {
        "[portuguese"@
    } else if i == 7 && j == 0 {
        "(thai)"@
    } else if i == 7 && j == 1 {
        "[thai]"@
    } else if i == 8 && j == 0 {
        "(german)"@
    } else if i == 8 && j == 1 {
        "[german]"@
    } else if i == 9 && j == 0 {
        "(italian)"@
    } else if i == 9 && j == 1 {
        "[italian]"@
    } else if i == 9 && j == 2 {
        "(italiano)"@
    } else if i == 9 && j == 3 {
        "[italiano]"@
    } else if i == 10 && j == 0 {
        "(vietnamese)"@
    } else if i == 10 && j == 1 {
        "[vietnamese]"@
    } else if i == 11 && j == 0 {
        "(polish)"@
    } else if i == 11 && j == 1 {
        "[polish]"@
    } else if i == 12 && j == 0 {
        "(hun)"@
    } else if i == 12 && j == 1 {
        "[hun]"@
    } else if i == 12 && j == 2 {
        "(hungarian)"@
    } else if i == 12 && j == 3 {
        "[hungarian]"@
    } else if i == 13 && j == 0 {
        "(dutch)"@
    } else if i == 13 && j == 1 {
        "[dutch]"@
    } else if i == 0 && j == 4 {
        "英訳"@
    } else if i == 1 && j == 4 {
        "汉化"@
    } else if i == 1 && j == 5 {
        "漢化"@
    } else if i == 1 && j == 6 {
        "中国翻訳"@
    } else if i == 1 && j == 7 {
        "中國翻譯"@
    } else if i == 2 && j == 4 {
        "スペイン翻訳"@
    } else if i == 3 && j == 4 {
        "韓国翻訳"@
    } else if i == 4 && j == 4 {
        "ロシア翻訳"@
    } else if i == 5 && j == 4 {
        "フランス翻訳"@
    } else if i == 6 && j == 4 {
        "ポルトガル翻訳"@
    } else if i == 7 && j == 4 {
        "タイ翻訳"@
    } else if i == 8 && j == 4 {
        "ドイツ翻訳"@
    } else if i == 9 && j == 4 {
        "イタリア翻訳"@
    } else if i == 10 && j == 4 {
        "ベトナム翻訳"@
    } else if i == 11 && j == 4 {
        "ポーランド翻訳"@
    } else if i == 12 && j == 4 {
        "ハンガリー翻訳"@
    } else if i == 13 && j == 4 {
        "オランダ翻訳"@
    } else {
        Seq::<char>::empty()
    }
}

pub open spec fn title_lang_matches(t: Seq<char>, i: int) -> bool {
    ||| (lang_marker(i, 0).len() > 0 && contains_seq(t, lang_marker(i, 0)))
    ||| (lang_marker(i, 1).len() > 0 && contains_seq(t, lang_marker(i, 1)))
    ||| (lang_marker(i, 2).len() > 0 && contains_seq(t, lang_marker(i, 2)))
    ||| (lang_marker(i, 3).len() > 0 && contains_seq(t, lang_marker(i, 3)))
    ||| (lang_marker(i, 4).len() > 0 && contains_seq(t, lang_marker(i, 4)))
    ||| (lang_marker(i, 5).len() > 0 && contains_seq(t, lang_marker(i, 5)))
    ||| (lang_marker(i, 6).len() > 0 && contains_seq(t, lang_marker(i, 6)))
    ||| (lang_marker(i, 7).len() > 0 && contains_seq(t, lang_marker(i, 7)))
}

pub open spec fn title_lang_from(t: Seq<char>, i: int) -> Option<int>
    decreases 14 - i when 0 <= i <= 14
{
    if i >= 14 {
        None
    } else if title_lang_matches(t, i) {
        Some(i)
    } else {
        title_lang_from(t, i + 1)
    }
}

fn exec_title_lang_matches(tv: &Vec<char>, i: usize) -> (r: bool)
    requires
        i < 14,
    ensures
        r == title_lang_matches(tv@, i as int),
{
    proof {
        reveal_strlit("(eng)");
        reveal_strlit("[eng]");
        reveal_strlit("(english)");
        reveal_strlit("[english]");
        reveal_strlit("(ch)");
        reveal_strlit("[ch]");
        reveal_strlit("(chinese)");
        reveal_strlit("[chinese]");
        reveal_strlit("(spanish)");
        reveal_strlit("[spanish]");
        reveal_strlit("(korea)");
        reveal_strlit("[korea]");
        reveal_strlit("(korean)");
        reveal_strlit("[korean]");
        reveal_strlit("(rus)");
        reveal_strlit("[rus]");
        reveal_strlit("(russian)");
        reveal_strlit("[russian]");
        reveal_strlit("(fr)");
        reveal_strlit("[fr]");
        reveal_strlit("(french)");
        reveal_strlit("[french]");
        reveal_strlit("(portuguese");
        reveal_strlit("[portuguese");
        reveal_strlit("(thai)");
        reveal_strlit("[thai]");
        reveal_strlit("(german)");
        reveal_strlit("[german]");
        reveal_strlit("(italian)");
        reveal_strlit("[italian]");
        reveal_strlit("(italiano)");
        reveal_strlit("[italiano]");
        reveal_strlit("(vietnamese)");
        reveal_strlit("[vietnamese]");
        reveal_strlit("(polish)");
        reveal_strlit("[polish]");
        reveal_strlit("(hun)");
        reveal_strlit("[hun]");
        reveal_strlit("(hungarian)");
        reveal_strlit("[hungarian]");
        reveal_strlit("(dutch)");
        reveal_strlit("[dutch]");
        reveal_strlit("英訳");
        reveal_strlit("汉化");
        reveal_strlit("漢化");
        reveal_strlit("中国翻訳");
        reveal_strlit("中國翻譯");
        reveal_strlit("スペイン翻訳");
        reveal_strlit("韓国翻訳");
        reveal_strlit("ロシア翻訳");
        reveal_strlit("フランス翻訳");
        reveal_strlit("ポルトガル翻訳");
        reveal_strlit("タイ翻訳");
        reveal_strlit("ドイツ翻訳");
        reveal_strlit("イタリア翻訳");
        reveal_strlit("ベトナム翻訳");
        reveal_strlit("ポーランド翻訳");
        reveal_strlit("ハンガリー翻訳");
        reveal_strlit("オランダ翻訳");
    }
    if i == 0 {
        contains_sub(tv, &chars_of("(eng)")) || contains_sub(tv, &chars_of("[eng]")) || contains_sub(
            tv,
            &chars_of("(english)"),
        ) || contains_sub(tv, &chars_of("[english]")) || contains_sub(tv, &chars_of("英訳"))
    } else if i == 1 {
        contains_sub(tv, &chars_of("(ch)")) || contains_sub(tv, &chars_of("[ch]")) || contains_sub(
            tv,
            &chars_of("(chinese)"),
        ) || contains_sub(tv, &chars_of("[chinese]")) || contains_sub(tv, &chars_of("汉化"))
            || contains_sub(tv, &chars_of("漢化")) || contains_sub(tv, &chars_of("中国翻訳"))
            || contains_sub(tv, &chars_of("中國翻譯"))
    } else if i == 2 {
        contains_sub(tv, &chars_of("(spanish)")) || contains_sub(tv, &chars_of("[spanish]"))
            || contains_sub(tv, &chars_of("スペイン翻訳"))
    } else if i == 3 {
        contains_sub(tv, &chars_of("(korea)")) || contains_sub(tv, &chars_of("[korea]"))
            || contains_sub(tv, &chars_of("(korean)")) || contains_sub(tv, &chars_of("[korean]"))
            || contains_sub(tv, &chars_of("韓国翻訳"))
    } else if i == 4 {
        contains_sub(tv, &chars_of("(rus)")) || contains_sub(tv, &chars_of("[rus]"))
            || contains_sub(tv, &chars_of("(russian)")) || contains_sub(tv, &chars_of("[russian]"))
            || contains_sub(tv, &chars_of("ロシア翻訳"))
    } else if i == 5 {
        contains_sub(tv, &chars_of("(fr)")) || contains_sub(tv, &chars_of("[fr]")) || contains_sub(
            tv,
            &chars_of("(french)"),
        ) || contains_sub(tv, &chars_of("[french]")) || contains_sub(
            tv,
            &chars_of("フランス翻訳"),
        )
    } else if i == 6 {
        contains_sub(tv, &chars_of("(portuguese")) || contains_sub(tv, &chars_of("[portuguese"))
            || contains_sub(tv, &chars_of("ポルトガル翻訳"))
    } else if i == 7 {
        contains_sub(tv, &chars_of("(thai)")) || contains_sub(tv, &chars_of("[thai]"))
            || contains_sub(tv, &chars_of("タイ翻訳"))
    } else if i == 8 {
        contains_sub(tv, &chars_of("(german)")) || contains_sub(tv, &chars_of("[german]"))
            || contains_sub(tv, &chars_of("ドイツ翻訳"))
    } else if i == 9 {
        contains_sub(tv, &chars_of("(italian)")) || contains_sub(tv, &chars_of("[italian]"))
            || contains_sub(tv, &chars_of("(italiano)")) || contains_sub(
            tv,
            &chars_of("[italiano]"),
        ) || contains_sub(tv, &chars_of("イタリア翻訳"))
    } else if i == 10 {
        contains_sub(tv, &chars_of("(vietnamese)")) || contains_sub(tv, &chars_of("[vietnamese]"))
            || contains_sub(tv, &chars_of("ベトナム翻訳"))
    } else if i == 11 {
        contains_sub(tv, &chars_of("(polish)")) || contains_sub(tv, &chars_of("[polish]"))
            || contains_sub(tv, &chars_of("ポーランド翻訳"))
    } else if i == 12 {
        contains_sub(tv, &chars_of("(hun)")) || contains_sub(tv, &chars_of("[hun]"))
            || contains_sub(tv, &chars_of("(hungarian)")) || contains_sub(
            tv,
            &chars_of("[hungarian]"),
        ) || contains_sub(tv, &chars_of("ハンガリー翻訳"))
    } else {
        contains_sub(tv, &chars_of("(dutch)")) || contains_sub(tv, &chars_of("[dutch]"))
            || contains_sub(tv, &chars_of("オランダ翻訳"))
    }
}

/// Infer the language from the display title: the first language of the
/// fixed table whose marker the title contains.
pub fn language_of_title(title: &str) -> (r: Option<String>)
    ensures
        match r {
            Some(code) => title_lang_from(title@, 0) matches Some(k) && code@ == lang_code(k),
            None => title_lang_from(title@, 0) is None,
        },
{
    let tv = chars_of(title);
    let mut i: usize = 0;
    while i < 14
        invariant
            i <= 14,
            tv@ == title@,
            title_lang_from(title@, 0) == title_lang_from(title@, i as int),
        decreases 14 - i,
    {
        if exec_title_lang_matches(&tv, i) {
            return Some(String::from_str(lang_code_text(i)));
        }
        i += 1;
    }
    None
}

/// What a decoded gallery-list row guarantees against its markup: every
/// field is tied to the layout-dependent place it was read from.
pub open spec fn gallery_info_matches(g: GalleryInfo, s: Seq<char>) -> bool {
    &&& vis_count(s, ".glname a"@) > 0 ==> (vis_attr(s, ".glname a"@, "href"@) matches Some(h)
        && identity_matches(g.identity, h))
    &&& vis_count(s, ".glname a"@) == 0 ==> (vis_parent_attr(s, ".glname"@, "a"@, "href"@)
        matches Some(h) && identity_matches(g.identity, h))
    &&& ({
        let tn = vis_count(s, ".glname .gt"@);
        if tn == 0 {
            g.simple_tag_vec_opt is None
        } else {
            g.simple_tag_vec_opt matches Some(tags) && tags@.len() == tn && forall|i: int|
                0 <= i < tags@.len() ==> vis_nth_attr(s, ".glname .gt"@, i, "title"@) == Some(
                    (#[trigger] tags@[i])@,
                )
        }
    })
    &&& g.category == cat_value(
        cat_index_of(
            if vis_count(s, ".gl1m > .cs"@) > 0 {
                vis_text(s, ".gl1m > .cs"@)
            } else {
                vis_text(s, ".cn"@)
            },
        ),
    )
    &&& num_before_from(vis_text(s, "div:contains('pages')"@), " page"@, 0) matches Some(p)
        && g.pages == num_val(vis_text(s, "div:contains('pages')"@).subrange(p.0, p.1))
    &&& thumb_matches(g.thumb, vis_outer_html(s, "img"@))
    &&& vis_attr(s, ".ir"@, "style"@) matches Some(rs) && rating_matches(g.rating, rs)
    &&& g.posted@ == vis_text(s, "[id^=posted_]"@)
    &&& g.is_favorited == (vis_attr(s, "[id^=posted_]"@, "style"@) is Some)
    &&& g.is_favorited ==> (vis_attr(s, "[id^=posted_]"@, "style"@) matches Some(ps) && (
    rgba_captures(ps) matches Some(caps) && slot_of(caps.0, caps.1, caps.2) matches Some(k)
        && g.favorite_slot_opt == Some(k as u32)))
    &&& !g.is_favorited ==> g.favorite_slot_opt is None
    &&& opt_view_is(g.favorite_name_opt, vis_attr(s, "[id^=posted_]"@, "title"@))
    &&& ({
        let un = vis_count(s, "[href^=\"https://e-hentai.org/uploader/\"]"@);
        if un == 0 {
            g.uploader_opt is None
        } else {
            g.uploader_opt matches Some(u) && u@ == vis_text(
                s,
                "[href^=\"https://e-hentai.org/uploader/\"]"@,
            )
        }
    })
    &&& g.title@ == vis_text(s, ".glink"@)
    &&& ({
        match g.simple_tag_vec_opt {
            Some(tags) => match tags_lang_from(tags@.map_values(|t: String| t@), 0) {
                Some(k) => g.simple_language_opt matches Some(c) && c@ == lang_code(k),
                None => g.simple_language_opt is None,
            },
            None => match title_lang_from(g.title@, 0) {
                Some(k) => g.simple_language_opt matches Some(c) && c@ == lang_code(k),
                None => g.simple_language_opt is None,
            },
        }
    })
}

/// A gallery-list row decodes: the identity link resolves to a gallery
/// URL, every tag marker carries its title, the page count, thumbnail
/// dimensions and rating offsets fit, and a favorited row's color is in
/// the slot table.
pub open spec fn gallery_info_decodes(s: Seq<char>) -> bool {
    &&& (if vis_count(s, ".glname a"@) > 0 {
        vis_attr(s, ".glname a"@, "href"@)
    } else {
        vis_parent_attr(s, ".glname"@, "a"@, "href"@)
    }) matches Some(h) && (detail_url_parts(h) matches Some(p) && num_val(
        h.subrange(p.0.0, p.0.1),
    ) <= u64::MAX)
    &&& forall|i: int|
        0 <= i < vis_count(s, ".glname .gt"@) ==> #[trigger] vis_nth_attr(
            s,
            ".glname .gt"@,
            i,
            "title"@,
        ) is Some
    &&& num_before_from(vis_text(s, "div:contains('pages')"@), " page"@, 0) matches Some(p2)
        && num_val(vis_text(s, "div:contains('pages')"@).subrange(p2.0, p2.1)) <= u32::MAX
    &&& thumb_decodes(vis_outer_html(s, "img"@))
    &&& vis_attr(s, ".ir"@, "style"@) matches Some(rs) && rating_decodes(rs)
    &&& vis_attr(s, "[id^=posted_]"@, "style"@) matches Some(ps) ==> (rgba_captures(ps)
        matches Some(caps) && slot_of(caps.0, caps.1, caps.2) is Some)
}

impl GalleryInfo {
    /// Decode one gallery-list row.  The identity link, category cell and
    /// tag markers sit in layout-dependent places; the favorite state is
    /// decoded from the posted cell's style, whose absence means "not
    /// favorited" and whose unknown color is a data error.
    #[verifier::rlimit(50)]
    pub fn parse(s: &str) -> (r: EhParseResult<GalleryInfo>)
        ensures
            r matches Ok(g) ==> gallery_info_matches(g, s@),
            r matches Ok(g) ==> (g.is_favorited <==> g.favorite_slot_opt is Some),
            gallery_info_decodes(s@) ==> r is Ok,
    {
        let an = count_at(s, ".glname a");
        let href_opt = if an > 0 {
            attr_at(s, ".glname a", "href")
        } else {
            parent_attr_at(s, ".glname", "a", "href")
        };
        let href = match href_opt {
            None => {
                return Err(ParseError::AttributeNotFound);
            },
            Some(h) => h,
        };
        let identity = match GalleryIdentity::parse(href.as_str()) {
            Ok(x) => x,
            Err(e) => {
                return Err(e);
            },
        };
        let tn = count_at(s, ".glname .gt");
        let simple_tag_vec_opt: Option<Vec<String>> = if tn == 0 {
            None
        } else {
            let mut tags: Vec<String> = Vec::new();
            let mut i: usize = 0;
            while i < tn
                invariant
                    i <= tn,
                    tn == vis_count(s@, ".glname .gt"@),
                    tags@.len() == i,
                    forall|j: int|
                        0 <= j < i ==> vis_nth_attr(s@, ".glname .gt"@, j, "title"@) == Some(
                            (#[trigger] tags@[j])@,
                        ),
                decreases tn - i,
            {
                match nth_attr_at(s, ".glname .gt", i, "title") {
                    None => {
                        return Err(ParseError::AttributeNotFound);
                    },
                    Some(t) => {
                        tags.push(t);
                    },
                }
                i += 1;
            }
            Some(tags)
        };
        let cs_cnt = count_at(s, ".gl1m > .cs");
        let cat_text = if cs_cnt > 0 {
            text_at(s, ".gl1m > .cs")
        } else {
            text_at(s, ".cn")
        };
        let category = Category::from_text(cat_text.as_str()).value;
        let pages_text = text_at(s, "div:contains('pages')");
        let ptv = chars_of(pages_text.as_str());
        let page_suf = chars_of(" page");
        let pages64 = match find_num_before(&ptv, &page_suf, 0) {
            None => {
                return Err(ParseError::RegexMatchFailed);
            },
            Some(p) => match parse_u64_range(&ptv, p.0, p.1) {
                None => {
                    return Err(ParseError::Other(String::from_str("pages is out of range")));
                },
                Some(x) => x,
            },
        };
        if pages64 > u32::MAX as u64 {
            return Err(ParseError::Other(String::from_str("pages is out of range")));
        }
        let thumb_src = outer_html_at(s, "img");
        let thumb = match Thumb::parse(thumb_src.as_str()) {
            Ok(t) => t,
            Err(e) => {
                return Err(e);
            },
        };
        let ir_style = match attr_at(s, ".ir", "style") {
            None => {
                return Err(ParseError::AttributeNotFound);
            },
            Some(x) => x,
        };
        let rating = match Rating::from_style(ir_style.as_str()) {
            Ok(x) => x,
            Err(e) => {
                return Err(e);
            },
        };
        let posted = text_at(s, "[id^=posted_]");
        let posted_style = attr_at(s, "[id^=posted_]", "style");
        let (is_favorited, favorite_slot_opt): (bool, Option<u32>) = match posted_style {
            Some(style) => {
                match FavoriteSlot::from_style(style.as_str()) {
                    Ok(slot) => (true, Some(slot.value)),
                    Err(e) => {
                        return Err(e);
                    },
                }
            },
            None => (false, None),
        };
        let favorite_name_opt = attr_at(s, "[id^=posted_]", "title");
        let un = count_at(s, "[href^=\"https://e-hentai.org/uploader/\"]");
        let uploader_opt = if un == 0 {
            None
        } else {
            Some(text_at(s, "[href^=\"https://e-hentai.org/uploader/\"]"))
        };
        let title = text_at(s, ".glink");
        let simple_language_opt = match &simple_tag_vec_opt {
            Some(tags) => language_of_tags(tags),
            None => language_of_title(title.as_str()),
        };
        Ok(
            GalleryInfo {
                identity,
                title,
                thumb,
                category,
                posted,
                uploader_opt,
                simple_tag_vec_opt,
                rating,
                pages: pages64 as u32,
                simple_language_opt,
                is_favorited,
                favorite_slot_opt,
                favorite_name_opt,
            },
        )
    }
}

impl crate::parser::Parser for GalleryInfo {
    fn parse(s: &str) -> EhParseResult<GalleryInfo> {
        GalleryInfo::parse(s)
    }
}

} // verus!
