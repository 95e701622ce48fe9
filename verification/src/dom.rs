//! The document abstraction behind the structural decoders: a trusted
//! facade over the `visdom` CSS-selector engine.
//!
//! The engine is deterministic: what a query returns is a function of the
//! page text and the selector alone.  Each query below therefore carries a
//! named result (`vis_text`, `vis_attr`, ...) that the decoders' contracts
//! speak of, tying record fields to the pages they came from.  Nothing is
//! assumed about the named values themselves.
//!
//! The engine's selector parser has failure paths that stop the process —
//! an unrecognized selector on a non-empty node set, or an `nth-child`
//! index beyond `isize`.  Every wrapper therefore requires its selector to
//! be one of the fixed queries of `benign_selector`, each of which the
//! parser accepts; callers pass those literals verbatim, so no verified
//! function can reach a panic in the engine.

use vstd::prelude::*;
use visdom::Vis;

verus! {

/// The selectors this crate queries with: fixed literals, plus the one
/// computed selector, a comment's score span addressed by its decimal id.
/// Each is accepted by visdom's selector grammar.
pub open spec fn benign_selector(sel: Seq<char>) -> bool {
    ||| sel == "#cdiv"@
    ||| sel == "#chd [rel=nofollow]"@
    ||| sel == "#eventpane"@
    ||| sel == "#favoritelink"@
    ||| sel == "#gd1 div:first-child"@
    ||| sel == "#gdc > .cs"@
    ||| sel == "#gdd"@
    ||| sel == "#gdf .i"@
    ||| sel == "#gdn"@
    ||| sel == "#gdo4 > [onclick]"@
    ||| sel == "#gdt"@
    ||| sel == "#gj"@
    ||| sel == "#gn"@
    ||| sel == "#gnd"@
    ||| sel == "#gnd a"@
    ||| sel == "#profilename > font"@
    ||| sel == "#rating_count"@
    ||| sel == "#rating_label"@
    ||| sel == "#taglist"@
    ||| sel == "#unext"@
    ||| sel == "#uprev"@
    ||| sel == "#userlinks a"@
    ||| sel == ".c1"@
    ||| sel == ".c3"@
    ||| sel == ".c3 > a"@
    ||| sel == ".c4"@
    ||| sel == ".c4 > a"@
    ||| sel == ".c6"@
    ||| sel == ".c7"@
    ||| sel == ".c8"@
    ||| sel == ".cn"@
    ||| sel == ".d p:first-child"@
    ||| sel == ".gdt1"@
    ||| sel == ".gdt2"@
    ||| sel == ".gdtl"@
    ||| sel == ".gl1m > .cs"@
    ||| sel == ".glink"@
    ||| sel == ".glname"@
    ||| sel == ".glname .gt"@
    ||| sel == ".glname a"@
    ||| sel == ".ido [class=fp]"@
    ||| sel == ".ipbtable img"@
    ||| sel == ".ir"@
    ||| sel == ".itg > .gl1t"@
    ||| sel == ".itg > tr"@
    ||| sel == ".ptt td:nth-child(2) > a"@
    ||| sel == ".ptt td:nth-last-child(2) > a"@
    ||| sel == ".searchnav"@
    ||| sel == ".searchnav select[onchange*=inline_set] > option[selected]"@
    ||| sel == ".tc"@
    ||| sel == "a"@
    ||| sel == "a > img"@
    ||| sel == "a[name^=c][name!=cnew]"@
    ||| sel == "div > a"@
    ||| sel == "div:contains('pages')"@
    ||| sel == "img"@
    ||| sel == "select[onchange]"@
    ||| sel == "tr"@
    ||| sel == "[id^=posted_]"@
    ||| sel == "[href^=\"https://e-hentai.org/uploader/\"]"@
    ||| (exists|n: nat| sel == ".c5 #comment_score_"@ + crate::text::dec_str(n))
}

// ---------------------------------------------------------------------------
// Named query results
// ---------------------------------------------------------------------------

/// The concatenated text content of the nodes matching `sel` in `page`.
pub uninterp spec fn vis_text(page: Seq<char>, sel: Seq<char>) -> Seq<char>;

/// The inner markup of the first node matching `sel` in `page`.
pub uninterp spec fn vis_html(page: Seq<char>, sel: Seq<char>) -> Seq<char>;

/// The outer markup of the first node matching `sel` in `page`.
pub uninterp spec fn vis_outer_html(page: Seq<char>, sel: Seq<char>) -> Seq<char>;

/// The named attribute of the first node matching `sel` in `page`.
pub uninterp spec fn vis_attr(page: Seq<char>, sel: Seq<char>, name: Seq<char>) -> Option<
    Seq<char>,
>;

/// How many nodes match `sel` in `page`.
pub uninterp spec fn vis_count(page: Seq<char>, sel: Seq<char>) -> nat;

/// The text content of the `i`-th node matching `sel` in `page`.
pub uninterp spec fn vis_nth_text(page: Seq<char>, sel: Seq<char>, i: int) -> Seq<char>;

/// The outer markup of the `i`-th node matching `sel` in `page`.
pub uninterp spec fn vis_nth_outer_html(page: Seq<char>, sel: Seq<char>, i: int) -> Seq<char>;

/// The named attribute of the `i`-th node matching `sel` in `page`.
pub uninterp spec fn vis_nth_attr(
    page: Seq<char>,
    sel: Seq<char>,
    i: int,
    name: Seq<char>,
) -> Option<Seq<char>>;

/// The named attribute of the closest `psel` ancestor of the nodes
/// matching `sel` in `page`.
pub uninterp spec fn vis_parent_attr(
    page: Seq<char>,
    sel: Seq<char>,
    psel: Seq<char>,
    name: Seq<char>,
) -> Option<Seq<char>>;

/// The text content of the `j`-th child of the `i`-th node matching `sel`
/// in `page`.
pub uninterp spec fn vis_nth_child_text(
    page: Seq<char>,
    sel: Seq<char>,
    i: int,
    j: int,
) -> Seq<char>;

// ---------------------------------------------------------------------------
// Queries.  Each body parses the page and runs one query path.
// ---------------------------------------------------------------------------

/// Relies on visdom's Vis::load, Elements::find and Elements::text: the
/// concatenated text of the matching nodes, entities decoded; empty when
/// the page does not load.
#[verifier::external_body]
pub(crate) fn text_at(page: &str, sel: &str) -> (r: String)
    requires
        benign_selector(sel@),
    ensures
        r@ == vis_text(page@, sel@),
{
    match Vis::load(page) {
        Ok(root) => root.find(sel).text(),
        Err(_) => String::new(),
    }
}

/// Relies on visdom's Vis::load, Elements::find and Elements::html: the
/// inner markup of the first matching node; empty when the page does not
/// load or nothing matches.
#[verifier::external_body]
pub(crate) fn html_at(page: &str, sel: &str) -> (r: String)
    requires
        benign_selector(sel@),
    ensures
        r@ == vis_html(page@, sel@),
{
    match Vis::load(page) {
        Ok(root) => root.find(sel).html(),
        Err(_) => String::new(),
    }
}

/// Relies on visdom's Vis::load, Elements::find and Elements::outer_html.
#[verifier::external_body]
pub(crate) fn outer_html_at(page: &str, sel: &str) -> (r: String)
    requires
        benign_selector(sel@),
    ensures
        r@ == vis_outer_html(page@, sel@),
{
    match Vis::load(page) {
        Ok(root) => root.find(sel).outer_html(),
        Err(_) => String::new(),
    }
}

/// Relies on visdom's Vis::load, Elements::find and Elements::attr.  A
/// bare boolean attribute reads as the empty string, exactly as its
/// display form writes it.
#[verifier::external_body]
pub(crate) fn attr_at(page: &str, sel: &str, name: &str) -> (r: Option<String>)
    requires
        benign_selector(sel@),
    ensures
        r is Some <==> vis_attr(page@, sel@, name@) is Some,
        r matches Some(x) ==> vis_attr(page@, sel@, name@) == Some(x@),
{
    match Vis::load(page) {
        Ok(root) => match root.find(sel).attr(name) {
            Some(visdom::types::IAttrValue::Value(v, _)) => Some(v),
            Some(visdom::types::IAttrValue::True) => Some(String::new()),
            None => None,
        },
        Err(_) => None,
    }
}

/// Relies on visdom's Vis::load, Elements::find and Elements::length.
#[verifier::external_body]
pub(crate) fn count_at(page: &str, sel: &str) -> (r: usize)
    requires
        benign_selector(sel@),
    ensures
        r == vis_count(page@, sel@),
{
    match Vis::load(page) {
        Ok(root) => root.find(sel).length(),
        Err(_) => 0,
    }
}

/// Relies on visdom's Vis::load, Elements::find, Elements::eq and
/// Elements::text; empty when the index is out of range.
#[verifier::external_body]
pub(crate) fn nth_text_at(page: &str, sel: &str, i: usize) -> (r: String)
    requires
        benign_selector(sel@),
    ensures
        r@ == vis_nth_text(page@, sel@, i as int),
{
    match Vis::load(page) {
        Ok(root) => root.find(sel).eq(i).text(),
        Err(_) => String::new(),
    }
}

/// Relies on visdom's Vis::load, Elements::find, Elements::eq and
/// Elements::outer_html; empty when the index is out of range.
#[verifier::external_body]
pub(crate) fn nth_outer_html_at(page: &str, sel: &str, i: usize) -> (r: String)
    requires
        benign_selector(sel@),
    ensures
        r@ == vis_nth_outer_html(page@, sel@, i as int),
{
    match Vis::load(page) {
        Ok(root) => root.find(sel).eq(i).outer_html(),
        Err(_) => String::new(),
    }
}

/// Relies on visdom's Vis::load, Elements::find, Elements::eq and
/// Elements::attr.
#[verifier::external_body]
pub(crate) fn nth_attr_at(page: &str, sel: &str, i: usize, name: &str) -> (r: Option<String>)
    requires
        benign_selector(sel@),
    ensures
        r is Some <==> vis_nth_attr(page@, sel@, i as int, name@) is Some,
        r matches Some(x) ==> vis_nth_attr(page@, sel@, i as int, name@) == Some(x@),
{
    match Vis::load(page) {
        Ok(root) => match root.find(sel).eq(i).attr(name) {
            Some(visdom::types::IAttrValue::Value(v, _)) => Some(v),
            Some(visdom::types::IAttrValue::True) => Some(String::new()),
            None => None,
        },
        Err(_) => None,
    }
}

/// Relies on visdom's Vis::load, Elements::find, Elements::parent and
/// Elements::attr: the named attribute of the closest matching ancestor.
#[verifier::external_body]
pub(crate) fn parent_attr_at(page: &str, sel: &str, psel: &str, name: &str) -> (r: Option<String>)
    requires
        benign_selector(sel@),
        benign_selector(psel@),
    ensures
        r is Some <==> vis_parent_attr(page@, sel@, psel@, name@) is Some,
        r matches Some(x) ==> vis_parent_attr(page@, sel@, psel@, name@) == Some(x@),
{
    match Vis::load(page) {
        Ok(root) => match root.find(sel).parent(psel).attr(name) {
            Some(visdom::types::IAttrValue::Value(v, _)) => Some(v),
            Some(visdom::types::IAttrValue::True) => Some(String::new()),
            None => None,
        },
        Err(_) => None,
    }
}

/// Relies on visdom's Vis::load, Elements::find, Elements::eq,
/// Elements::children and Elements::text.  The empty child selector takes
/// the engine's unfiltered fast path, which parses nothing.
#[verifier::external_body]
pub(crate) fn nth_child_text_at(page: &str, sel: &str, i: usize, j: usize) -> (r: String)
    requires
        benign_selector(sel@),
    ensures
        r@ == vis_nth_child_text(page@, sel@, i as int, j as int),
{
    match Vis::load(page) {
        Ok(root) => root.find(sel).eq(i).children("").eq(j).text(),
        Err(_) => String::new(),
    }
}

} // verus!
