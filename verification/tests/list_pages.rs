use ehparse::error::ParseError;
use ehparse::parser::gallery_list_parser::normalize_rows;
use ehparse::parser::gallery_info_parser::language_of_title;
use ehparse::structures::{Favorite, GalleryList, SearchNav};

fn nav_block(label: &str) -> String {
    format!(
        r#"<div class="searchnav">
            <div><a id="ufirst" href="https://e-hentai.org/">&lt;&lt; First</a></div>
            <div><a id="uprev" href="https://e-hentai.org/?prev=2458771">&lt; Prev</a></div>
            <div><a id="unext" href="https://e-hentai.org/?next=2458743">Next &gt;</a></div>
            <div><select onchange="sument.location='https://e-hentai.org/?inline_set=dm_'+this.value+'&amp;prev=2458732'">
                    <option value="m" selected="selected">{}</option>
                    <option value="p">Other</option>
                </select></div>
        </div>"#,
        label
    )
}

fn row_cells(i: usize, tag: &str) -> String {
    format!(
        r#"<{t} class="gl1m"><div class="cs">Manga</div></{t}>
        <{t}><div class="glthumb"><img style="height:376px;width:250px" src="https://ehgt.org/t{i}.jpg"></div>
            <div class="ir" style="background-position:0px -21px"></div>
            <div id="posted_{i}">2023-01-01 00:00</div>
            <div>{pages} pages</div></{t}>
        <{t} class="glname"><a href="https://e-hentai.org/g/{gid}/0123456789/"><div class="glink">Sample Title {i}</div></a></{t}>"#,
        t = tag,
        i = i,
        pages = 20 + i,
        gid = 1000 + i,
    )
}

fn table_rows(count: usize, with_header: bool) -> String {
    let mut body = String::new();
    if with_header {
        body.push_str("<tr><th>Posted</th><th>Title</th></tr>");
    }
    for i in 0..count {
        body.push_str(&format!("<tr>{}</tr>", row_cells(i, "td")));
    }
    body
}

fn list_page(label: &str, row_count: usize) -> String {
    let rows = if label == "Thumbnail" {
        let mut body = String::new();
        for i in 0..row_count {
            body.push_str(&format!(r#"<div class="gl1t">{}</div>"#, row_cells(i, "div")));
        }
        format!(r#"<div class="itg gld">{}</div>"#, body)
    } else if label == "Extended" {
        format!(r#"<table class="itg glte">{}</table>"#, table_rows(row_count, false))
    } else {
        format!(r#"<table class="itg gltc">{}</table>"#, table_rows(row_count, true))
    };
    format!(
        "<html><body>{}{}{}</body></html>",
        nav_block(label),
        rows,
        nav_block(label)
    )
}

#[test]
fn parse_gallery_list_test() {
    let s = list_page("Minimal", 25);
    let _result = GalleryList::parse(&s);

    let s = list_page("Minimal+", 25);
    let _result = GalleryList::parse(&s);

    let s = list_page("Compact", 25);
    let _result = GalleryList::parse(&s);

    let s = list_page("Extended", 25);
    let _result = GalleryList::parse(&s);

    let s = list_page("Thumbnail", 25);
    let _result = GalleryList::parse(&s);
}

#[test]
fn every_layout_yields_exactly_25_rows() {
    for label in ["Minimal", "Minimal+", "Compact", "Extended", "Thumbnail"] {
        let s = list_page(label, 25);
        let list = GalleryList::parse(&s).unwrap();
        assert_eq!(list.gallery_info_vec.len(), 25);
        assert_eq!(list.gallery_info_vec[3].identity.gid, 1003);
        assert_eq!(list.gallery_info_vec[3].pages, 23);
        assert_eq!(list.gallery_info_vec[3].category, 4);
        assert_eq!(list.gallery_info_vec[3].rating.centi, 450);
        assert_eq!(list.gallery_info_vec[3].is_favorited, false);
    }
}

#[test]
fn advertisement_row_is_excised() {
    // A visitor who is not signed in gets one advertisement row injected,
    // so the page holds 26 rows; the decoder removes index 13.
    let s = list_page("Compact", 26);
    let list = GalleryList::parse(&s).unwrap();
    assert_eq!(list.gallery_info_vec.len(), 25);
    // Row 13 of the 26 raw rows is gone: the 14th decoded row is raw row 14.
    assert_eq!(list.gallery_info_vec[13].identity.gid, 1014);
    assert_eq!(list.gallery_info_vec[12].identity.gid, 1012);
}

#[test]
fn wrong_row_count_is_rejected() {
    let s = list_page("Minimal", 24);
    assert_eq!(GalleryList::parse(&s).is_err(), true);
    let s = list_page("Minimal", 27);
    assert_eq!(GalleryList::parse(&s).is_err(), true);
}

#[test]
fn normalize_rows_is_exact() {
    let mk = |n: usize| -> Vec<String> {
        (0..n).map(|i| format!("row {}", i)).collect()
    };
    let v = normalize_rows(mk(25)).unwrap();
    assert_eq!(v.len(), 25);
    assert_eq!(v[13], "row 13");
    let v = normalize_rows(mk(26)).unwrap();
    assert_eq!(v.len(), 25);
    assert_eq!(v[12], "row 12");
    assert_eq!(v[13], "row 14");
    assert_eq!(normalize_rows(mk(24)).is_none(), true);
    assert_eq!(normalize_rows(mk(27)).is_none(), true);
}

#[test]
fn unknown_layout_label_is_rejected() {
    let s = list_page("Mosaic", 25);
    assert_eq!(GalleryList::parse(&s), Err(ParseError::DomNotFound));
}

#[test]
fn search_nav_parser_parse_test() {
    let ele = r#"
        <div class="searchnav">
            <div></div>
            <div><a id="ufirst" href="https://e-hentai.org/">&lt;&lt; First</a></div>
            <div><a id="uprev" href="https://e-hentai.org/?prev=2458771">&lt; Prev</a></div>
            <div id="ujumpbox" class="jumpbox"><a id="ujump" href="javascript:enable_jump_mode('u')">Jump/Seek</a></div>
            <div><a id="unext" href="https://e-hentai.org/?next=2458743">Next &gt;</a></div>
            <div><a id="ulast" href="https://e-hentai.org/?prev=1">Last &gt;&gt;</a></div>
            <div><select onchange="sument.location='https://e-hentai.org/?inline_set=dm_'+this.value+'&amp;prev=2458732'">
                    <option value="m" selected="selected">Minimal</option>
                    <option value="p">Minimal+</option>
                    <option value="l">Compact</option>
                    <option value="e">Extended</option>
                    <option value="t">Thumbnail</option>
                </select></div>
        </div>
    "#;
    assert_eq!(SearchNav::parse(ele).is_ok(), true);

    let jump_ele = r#"
        <div class="searchnav">
            <div></div>
            <div><a id="ufirst" href="https://e-hentai.org/">&lt;&lt; First</a></div>
            <div><a id="uprev" href="https://e-hentai.org/?prev=2458732">&lt; Prev</a></div>
            <div id="ujumpbox" class="jumpbox"><a id="ujump" href="javascript:enable_jump_mode('u')">Jump/Seek</a></div>
            <div><a id="unext" href="https://e-hentai.org/?next=2458691">Next &gt;</a></div>
            <div><a id="ulast" href="https://e-hentai.org/?prev=1">Last &gt;&gt;</a></div>
            <div><select
                    onchange="sument.location='https://e-hentai.org/?inline_set=dm_'+this.value+'&amp;next=2458743&amp;jump=1d'">
                    <option value="m" selected="selected">Minimal</option>
                    <option value="p">Minimal+</option>
                    <option value="l">Compact</option>
                    <option value="e">Extended</option>
                    <option value="t">Thumbnail</option>
                </select></div>
        </div>
    "#;
    let result = SearchNav::parse(jump_ele);
    assert_eq!(result.is_ok(), true);
    assert_eq!(result.unwrap().jump_opt.is_some(), true);

    let seek_ele = r#"
        <div class="searchnav">
            <div></div>
            <div><a id="ufirst" href="https://e-hentai.org/">&lt;&lt; First</a></div>
            <div><a id="uprev" href="https://e-hentai.org/?prev=2458732">&lt; Prev</a></div>
            <div id="ujumpbox" class="jumpbox"><a id="ujump" href="javascript:enable_jump_mode('u')">Jump/Seek</a></div>
            <div><a id="unext" href="https://e-hentai.org/?next=2458691">Next &gt;</a></div>
            <div><a id="ulast" href="https://e-hentai.org/?prev=1">Last &gt;&gt;</a></div>
            <div><select
                    onchange="sument.location='https://e-hentai.org/?inline_set=dm_'+this.value+'&amp;next=2464570&amp;seek=2023-02-06'">
                    <option value="m" selected="selected">Minimal</option>
                    <option value="p">Minimal+</option>
                    <option value="l">Compact</option>
                    <option value="e">Extended</option>
                    <option value="t">Thumbnail</option>
                </select></div>
        </div>
    "#;
    let result = SearchNav::parse(seek_ele);
    assert_eq!(result.is_ok(), true);
    assert_eq!(result.unwrap().seek_opt.is_some(), true);
}

fn favorites_page() -> String {
    let mut fps = String::new();
    for i in 0..10 {
        fps.push_str(&format!(
            r#"<div class="fp"><div>{}</div><div><div class="i"></div></div><div>Favorites {}</div></div>"#,
            i * 3,
            i
        ));
    }
    let list = list_page("Thumbnail", 25);
    format!(
        r#"<html><body><div class="ido">{}<div class="fp fps"><div></div></div>{}</div></body></html>"#,
        fps,
        &list[12..list.len() - 14]
    )
}

#[test]
fn parse_sign_in_required_test() {
    let s = "<html><body><p>This page requires you to log on.</p></body></html>";
    assert_eq!(Favorite::parse(s).is_err(), true);
}

#[test]
fn favorites_parser_parse_test() {
    let s = favorites_page();
    let fav = Favorite::parse(&s);
    assert_eq!(fav.is_ok(), true);
    let fav = fav.unwrap();
    assert_eq!(fav.cat_vec.len(), 10);
    assert_eq!(fav.count_vec.len(), 10);
    assert_eq!(fav.count_vec[2], 6);
    assert_eq!(fav.cat_vec[2], "Favorites 2");
    assert_eq!(fav.gallery_list.gallery_info_vec.len(), 25);
}

#[test]
fn sign_in_wins_over_valid_content() {
    // The sentinel takes precedence: even a page that also carries a
    // structurally valid list yields the sign-in error, never a record.
    let mut s = list_page("Minimal", 25);
    s.push_str("<p>This page requires you to log on.</p>");
    assert_eq!(GalleryList::parse(&s), Err(ParseError::SignInRequired));
    assert_eq!(Favorite::parse(&s), Err(ParseError::SignInRequired));
}

#[test]
fn favorited_row_carries_its_slot() {
    let row = r##"<div class="gl1t"><div class="gl1m"><div class="cs">Non-H</div></div>
        <div><div class="glthumb"><img style="height:376px;width:250px" src="https://ehgt.org/x.jpg"></div>
        <div class="ir" style="background-position:16px 0px"></div>
        <div id="posted_9" style="border-color:#000;background-color:rgba(240,0,0,.1)" title="Slot one">2023-01-01 00:00</div>
        <div>8 pages</div></div>
        <div class="glname"><a href="https://e-hentai.org/g/99/abcdef0123/"><div class="glink">[Eng] something</div></a></div></div>"##;
    let g = ehparse::structures::GalleryInfo::parse(row).unwrap();
    assert_eq!(g.is_favorited, true);
    assert_eq!(g.favorite_slot_opt, Some(1));
    assert_eq!(g.favorite_name_opt, Some(String::from("Slot one")));
    assert_eq!(g.category, 256);
    assert_eq!(g.rating.centi, 400);
    assert_eq!(g.pages, 8);
    assert_eq!(g.simple_tag_vec_opt, None);
}

#[test]
fn language_is_inferred_from_tags_first() {
    let tags: Vec<String> = vec![
        String::from("parody:x"),
        String::from("language:chinese"),
        String::from("language:english"),
    ];
    let code = ehparse::parser::gallery_info_parser::language_of_tags(&tags);
    assert_eq!(code, Some(String::from("S_LANG_ZH")));
    let none = ehparse::parser::gallery_info_parser::language_of_tags(&vec![String::from("parody:x")]);
    assert_eq!(none, None);
}

#[test]
fn language_is_inferred_from_the_title() {
    assert_eq!(language_of_title("Some Comic (english)"), Some(String::from("S_LANG_EN")));
    assert_eq!(language_of_title("[rus] translated work"), Some(String::from("S_LANG_RU")));
    assert_eq!(language_of_title("untagged title"), None);
}

#[test]
fn native_script_titles_yield_a_language() {
    assert_eq!(language_of_title("作品 [汉化]"), Some(String::from("S_LANG_ZH")));
    assert_eq!(language_of_title("何か 中国翻訳"), Some(String::from("S_LANG_ZH")));
    assert_eq!(language_of_title("something 英訳"), Some(String::from("S_LANG_EN")));
    assert_eq!(language_of_title("作品 ロシア翻訳"), Some(String::from("S_LANG_RU")));
}

#[test]
fn pager_without_selector_handler_is_rejected() {
    let ele = r#"<div class="searchnav"><div><a id="uprev" href="https://e-hentai.org/?prev=2">p</a></div></div>"#;
    assert_eq!(SearchNav::parse(ele), Err(ParseError::AttributeNotFound));
    let ele = r#"<div class="searchnav"><div><a id="uprev" href="https://e-hentai.org/">p</a></div></div>"#;
    assert_eq!(SearchNav::parse(ele), Err(ParseError::RegexMatchFailed));
}

#[test]
fn favorites_with_a_bad_slot_count_is_rejected() {
    let s = favorites_page().replace(r#"<div class="fp"><div>6</div>"#, r#"<div class="fp"><div>six</div>"#);
    assert_eq!(matches!(Favorite::parse(&s), Err(ParseError::Other(_))), true);
    // Fewer than ten slot rows is a structural error.
    let s = favorites_page().replacen(r#"<div class="fp">"#, r#"<div class="fx">"#, 1);
    assert_eq!(Favorite::parse(&s), Err(ParseError::DomNotFound));
}
