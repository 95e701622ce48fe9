use ehparse::error::ParseError;
use ehparse::parser::gallery_detail_parser::{parse_large, parse_medium, position_of_alt};
use ehparse::structures::{GalleryDetail, GalleryDetailDetail, GalleryPreviewLarge, GalleryPreviewSet};

fn detail_page() -> String {
    let script = "<script type=\"text/javascript\">var gid = 2062874;\nvar token = \"03037d8698\";\nvar apiuid = -1;\nvar apikey = \"abc123\";</script>";
    let links = r##"<p><a href="#" onclick="return popUp('https://e-hentai.org/gallerytorrents.php?gid=2062874&amp;t=03037d8698',610,590)">Torrent Download ( 2 )</a></p><p><a href="#" onclick="return popUp('https://e-hentai.org/archiver.php?gid=2062874&amp;token=03037d8698&amp;or=abc',450,730)">Archive Download</a></p>"##;
    let gm = r##"<div class="gm">
        <div id="gd1"><div style="width:250px; height:354px; background:transparent url(https://ehgt.org/cover.jpg) no-repeat"></div></div>
        <h1 id="gn">Sample Gallery</h1>
        <h1 id="gj">Japanese Title</h1>
        <div id="gdc"><div class="cs">Manga</div></div>
        <div id="gdn">uploader-name</div>
        <div id="gdd"><table>
            <tr><td class="gdt1">Posted:</td><td class="gdt2">2023-02-07 07:33</td></tr>
            <tr><td class="gdt1">Parent:</td><td class="gdt2">None</td></tr>
            <tr><td class="gdt1">Visible:</td><td class="gdt2">Yes</td></tr>
            <tr><td class="gdt1">Language:</td><td class="gdt2">Japanese &nbsp;</td></tr>
            <tr><td class="gdt1">File Size:</td><td class="gdt2">225.5 MB</td></tr>
            <tr><td class="gdt1">Length:</td><td class="gdt2">75 pages</td></tr>
            <tr><td class="gdt1">Favorited:</td><td class="gdt2" id="favcount">23 times</td></tr>
        </table></div>
        <div id="rating_count">1337</div>
        <p id="rating_label">Average: 4.54</p>
        <div id="gdf"><a id="favoritelink" href="#"> Add to Favorites</a></div>
    </div>"##;
    let cdiv = r##"<div id="cdiv" class="gm"></div>"##;
    let ptt = r##"<table class="ptt"><tr><td>&lt;</td><td><a href="https://e-hentai.org/g/2062874/03037d8698/">1</a></td><td><a href="https://e-hentai.org/g/2062874/03037d8698/?p=1">2</a></td><td>&gt;</td></tr></table>"##;
    let gdo = r##"<div id="gdo4"><div onclick="return load_pane()">Large</div></div>"##;
    let gdt = r##"<div id="gdt">
        <div class="gdtl" style="height:307px"><a href="https://e-hentai.org/s/5bf9580b3b/1496103-1"><img alt="01" title="Page 1: AnMMSC_2_001_1.png" src="https://ehgt.org/5b/f9/first-png_l.jpg"></a></div>
        <div class="gdtl" style="height:307px"><a href="https://e-hentai.org/s/ad7a3b7014/1496103-2"><img alt="02" title="Page 2: AnMMSC_2_001_2.jpg" src="https://ehgt.org/ad/7a/second-jpg_l.jpg"></a></div>
        <div class="c"></div>
    </div>"##;
    let taglist = r##"<div id="taglist"><table><tbody>
        <tr><td class="tc">language:</td><td><div id="td_language:chinese" class="gt" style="opacity:1.0"><a id="ta_language:chinese" href="https://e-hentai.org/tag/language:chinese">chinese</a></div></td></tr>
        <tr><td class="tc">parody:</td><td><div id="td_parody:x" class="gt" style="opacity:1.0"><a id="ta_parody:x" href="https://e-hentai.org/tag/parody:x">some parody</a></div></td></tr>
    </tbody></table></div>"##;
    format!(
        "<html><body>{}{}{}{}{}{}{}{}</body></html>",
        script, links, gm, cdiv, ptt, gdo, gdt, taglist
    )
}

#[test]
fn parse_detail_test() {
    let s = detail_page();
    assert_eq!(GalleryDetail::parse(&s).is_ok(), true);
}

// The round trip of the identity script: the embedded variables decode
// into the identity and the API credentials.
#[test]
fn detail_identity_round_trip() {
    let s = detail_page();
    let d = GalleryDetail::parse(&s).unwrap();
    assert_eq!(d.identity.gid, 2062874);
    assert_eq!(d.identity.token, "03037d8698");
    assert_eq!(d.api_uid, -1);
    assert_eq!(d.api_key, "abc123");
    assert_eq!(d.torrent_count, 2);
    assert_eq!(
        d.torrent_url,
        "https://e-hentai.org/gallerytorrents.php?gid=2062874&t=03037d8698"
    );
    assert_eq!(
        d.archive_url,
        "https://e-hentai.org/archiver.php?gid=2062874&token=03037d8698&or=abc"
    );
    assert_eq!(d.thumb, "https://ehgt.org/cover.jpg");
    assert_eq!(d.title, "Sample Gallery");
    assert_eq!(d.title_jpn, "Japanese Title");
    assert_eq!(d.category, 4);
    assert_eq!(d.uploader, "uploader-name");
    assert_eq!(d.rating_count, 1337);
    assert_eq!(d.rating_opt.unwrap().centi, 454);
    assert_eq!(d.is_favorited, false);
    assert_eq!(d.favorite_slot_opt, None);
    assert_eq!(d.detail.pages, 75);
    assert_eq!(d.detail.favorite_count, 23);
    assert_eq!(d.preview_pages, 2);
    assert_eq!(d.tag_group_vec.len(), 2);
    assert_eq!(d.tag_group_vec[0].tag_group_name, "language:");
    assert_eq!(d.tag_group_vec[0].tag_vec, vec!["chinese"]);
    match d.preview_set {
        GalleryPreviewSet::Large(tiles) => {
            assert_eq!(tiles.len(), 2);
            assert_eq!(tiles[0].position, 0);
            assert_eq!(tiles[0].filename, "AnMMSC_2_001_1.png");
            assert_eq!(tiles[1].position, 1);
        },
        GalleryPreviewSet::Medium(_) => panic!("expected large tiles"),
    }
}

// The sentinel wins over structurally valid content.
#[test]
fn sign_in_banner_wins_over_detail_content() {
    let mut s = detail_page();
    s.push_str("<p>This page requires you to log on.</p>");
    assert_eq!(GalleryDetail::parse(&s), Err(ParseError::SignInRequired));
}

#[test]
fn content_warning_is_surfaced() {
    let s = "<html><body><p>(And if you choose to ignore this warning, you lose all rights to complain about it in the future.)</p></body></html>";
    match GalleryDetail::parse(s) {
        Err(ParseError::FromServer(m)) => {
            assert_eq!(
                m,
                "if you choose to ignore this warning, you lose all rights to complain about it in the future."
            );
        },
        _ => panic!("expected a server condition"),
    }
}

#[test]
fn removed_gallery_is_surfaced() {
    let s = "<html><body><p>This gallery_list is pining for the fjords.</p></body></html>";
    assert_eq!(
        GalleryDetail::parse(s),
        Err(ParseError::FromServer(String::from(
            "this gallery_list is pining for the fjords."
        )))
    );
}

#[test]
fn error_banner_is_surfaced_verbatim() {
    let s = "<html><body><div class=\"d\">\n<p>You have exceeded your quota.</p></div></body></html>";
    assert_eq!(
        GalleryDetail::parse(s),
        Err(ParseError::FromServer(String::from("You have exceeded your quota.")))
    );
}

#[test]
fn parse_detail_detail_test() {
    let table = r#"
    <table>
        <tr>
            <td class="gdt1">Posted:</td>
            <td class="gdt2">2023-02-07 07:33</td>
        </tr>
        <tr>
            <td class="gdt1">Parent:</td>
            <td class="gdt2">None</td>
        </tr>
        <tr>
            <td class="gdt1">Visible:</td>
            <td class="gdt2">Yes</td>
        </tr>
        <tr>
            <td class="gdt1">Language:</td>
            <td class="gdt2">Japanese &nbsp;</td>
        </tr>
        <tr>
            <td class="gdt1">File Size:</td>
            <td class="gdt2">225.5 MB</td>
        </tr>
        <tr>
            <td class="gdt1">Length:</td>
            <td class="gdt2">75 pages</td>
        </tr>
        <tr>
            <td class="gdt1">Favorited:</td>
            <td class="gdt2" id="favcount">23 times</td>
        </tr>
    </table>
    "#;

    assert_eq!(GalleryDetailDetail::parse(table).is_ok(), true);
}

#[test]
fn parse_preview_set_test() {
    let ele = r#"
        <div id="gdt">
            <div class="gdtl" style="height:307px"><a href="https://e-hentai.org/s/5bf9580b3b/1496103-1"><img alt="01"
                        title="Page 1: AnMMSC_2_001_1.png"
                        src="https://ehgt.org/5b/f9/5bf9580b3b1f63c508a8af85fc73c0567fe93722-12830376-2458-3497-png_l.jpg"></a>
            </div>
            <div class="gdtl" style="height:307px"><a href="https://e-hentai.org/s/ad7a3b7014/1496103-2"><img alt="02"
                        title="Page 2: AnMMSC_2_001_2.jpg"
                        src="https://ehgt.org/ad/7a/ad7a3b7014372ce64193c118b1cfcbcf7ea68ee0-2507700-2458-3497-jpg_l.jpg"></a>
            </div>
            <div class="c"></div>
        </div>
    "#;

    assert_eq!(parse_large(ele).is_ok(), true);

    let ele = r#"
        <div id="gdt">
            <div class="gdtm" style="height:167px">
                <div
                    style="margin:1px auto 0; width:100px; height:143px; background:transparent url(https://ehgt.org/m/001496/1496103-00.jpg) -0px 0 no-repeat">
                    <a href="https://e-hentai.org/s/5bf9580b3b/1496103-1"><img alt="01" title="Page 1: AnMMSC_2_001_1.png"
                            src="https://ehgt.org/g/blank.gif" style="width:100px; height:142px; margin:-1px 0 0 -1px"></a>
                </div>
            </div>
            <div class="gdtm" style="height:167px">
                <div
                    style="margin:1px auto 0; width:100px; height:143px; background:transparent url(https://ehgt.org/m/001496/1496103-00.jpg) -100px 0 no-repeat">
                    <a href="https://e-hentai.org/s/ad7a3b7014/1496103-2"><img alt="02" title="Page 2: AnMMSC_2_001_2.jpg"
                            src="https://ehgt.org/g/blank.gif" style="width:100px; height:142px; margin:-1px 0 0 -1px"></a>
                </div>
            </div>
            <div class="c"></div>
        </div>
    "#;

    assert_eq!(parse_medium(ele).is_ok(), true);
}

#[test]
fn medium_tiles_decode_exactly() {
    let ele = r#"<div id="gdt"><div class="gdtm" style="height:167px"><div style="margin:1px auto 0; width:100px; height:143px; background:transparent url(https://ehgt.org/m/001496/1496103-00.jpg) -200px 0 no-repeat"><a href="https://e-hentai.org/s/5bf9580b3b/1496103-3"><img alt="03" title="Page 3: name_3.png" src="https://ehgt.org/g/blank.gif"></a></div></div></div>"#;
    let tiles = parse_medium(ele).unwrap();
    assert_eq!(tiles.len(), 1);
    assert_eq!(tiles[0].clip_width, 100);
    assert_eq!(tiles[0].clip_height, 143);
    assert_eq!(tiles[0].image_url, "https://ehgt.org/m/001496/1496103-00.jpg");
    assert_eq!(tiles[0].offset_x, 200);
    assert_eq!(tiles[0].offset_y, 0);
    assert_eq!(tiles[0].page_url, "https://e-hentai.org/s/5bf9580b3b/1496103-3");
    assert_eq!(tiles[0].position, 2);
    assert_eq!(tiles[0].filename, "name_3.png");
}

#[test]
fn parse_preview_large_test() {
    let ele = r#"
        <div class="gdtl" style="height:307px"><a href="https://e-hentai.org/s/5bf9580b3b/1496103-1"><img alt="01"
            title="Page 1: AnMMSC_2_001_1.png"
            src="https://ehgt.org/5b/f9/5bf9580b3b1f63c508a8af85fc73c0567fe93722-12830376-2458-3497-png_l.jpg"></a>
        </div>
    "#;

    assert_eq!(GalleryPreviewLarge::parse(ele).is_ok(), true);
}

// Tile positions are written 1-based in the alt text and held 0-based.
#[test]
fn preview_positions_normalize() {
    assert_eq!(position_of_alt("01").unwrap(), 0);
    assert_eq!(position_of_alt("25").unwrap(), 24);
    assert_eq!(position_of_alt("0").is_err(), true);
    assert_eq!(position_of_alt("x1").is_err(), true);
}

#[test]
fn gallery_tag_group_list_parser_parse_test() {
    let ele = r#"
        <div id="taglist">
            <table>
                <tbody>
                    <tr>
                        <td class="tc">language:</td>
                        <td>
                            <div id="td_language:chinese" class="gt" style="opacity:1.0"><a id="ta_language:chinese"
                                    href="https://e-hentai.org/tag/language:chinese" class=""
                                    onclick="return toggle_tagmenu('language:chinese',this)">chinese</a></div>
                            <div id="td_language:translated" class="gt" style="opacity:1.0"><a id="ta_language:translated"
                                    href="https://e-hentai.org/tag/language:translated" class=""
                                    onclick="return toggle_tagmenu('language:translated',this)">translated</a></div>
                        </td>
                    </tr>
                    <tr>
                        <td class="tc">parody:</td>
                        <td>
                            <div id="td_parody:dragon_quest_vi" class="gt" style="opacity:1.0"><a id="ta_parody:dragon_quest_vi"
                                    href="https://e-hentai.org/tag/parody:dragon+quest+vi" class=""
                                    onclick="return toggle_tagmenu('parody:dragon quest vi',this)">dragon quest vi</a></div>
                            <div id="td_parody:dragon_quest_vii" class="gtw" style="opacity:1.0"><a
                                    id="ta_parody:dragon_quest_vii" href="https://e-hentai.org/tag/parody:dragon+quest+vii"
                                    class="" onclick="return toggle_tagmenu('parody:dragon quest vii',this)">dragon quest
                                    vii</a></div>
                        </td>
                    </tr>
                    <tr>
                        <td class="tc">character:</td>
                        <td>
                            <div id="td_character:maribel" class="gt" style="opacity:1.0"><a id="ta_character:maribel"
                                    href="https://e-hentai.org/tag/character:maribel" class=""
                                    onclick="return toggle_tagmenu('character:maribel',this)">maribel</a></div>
                        </td>
                    </tr>
                </tbody>
            </table>
        </div>
    "#;

    assert_eq!(ehparse::structures::GalleryTagGroupList::parse(ele).is_ok(), true);
}

#[test]
fn favorited_detail_carries_slot_and_name() {
    let s = detail_page().replace(
        r##"<div id="gdf"><a id="favoritelink" href="#"> Add to Favorites</a></div>"##,
        r##"<div id="gdf"><a id="favoritelink" href="#">My favorites slot</a><div class="i" style="border-color:#000;background-color:rgba(240,160,0,.1)"></div></div>"##,
    );
    let d = GalleryDetail::parse(&s).unwrap();
    assert_eq!(d.is_favorited, true);
    assert_eq!(d.favorite_slot_opt, Some(2));
    assert_eq!(d.favorite_name_opt, Some(String::from("My favorites slot")));
}

#[test]
fn not_yet_rated_detail_has_no_rating() {
    let s = detail_page().replace("Average: 4.54", "Not Yet Rated");
    let d = GalleryDetail::parse(&s).unwrap();
    assert_eq!(d.rating_opt, None);
}

#[test]
fn newer_versions_pair_dates_with_links() {
    let s = detail_page().replace(
        r##"<div id="cdiv" class="gm"></div>"##,
        r##"<div id="gnd"><a href="https://e-hentai.org/g/2462306/48a4b74e43/">New Version Here</a>, added 2023-02-01 12:00<br /></div><div id="cdiv" class="gm"></div>"##,
    );
    let d = GalleryDetail::parse(&s).unwrap();
    let newer = d.newer_version_map_opt.unwrap();
    assert_eq!(newer.len(), 1);
    assert_eq!(newer[0].0, "2023-02-01 12:00");
    assert_eq!(newer[0].1.gid, 2462306);
    assert_eq!(newer[0].1.token, "48a4b74e43");
}

#[test]
fn editable_comment_is_detected() {
    let ele = r##"
        <a name="c42"></a>
        <div class="c1">
            <div class="c2">
                <div class="c3">Posted on 24 September 2020, 09:55 by: <a href="https://e-hentai.org/uploader/me">me</a></div>
                <div class="c4 nosel">[<a id="comment_vote_up_42" style="" href="#">Vote+</a>] [<a
                        id="comment_vote_down_42" style="" href="#">Vote-</a>] [<a href="#">Edit</a>]</div>
                <div class="c5 nosel">Score <span id="comment_score_42" style="opacity:1.0">+1</span></div>
            </div>
            <div class="c6" id="comment_42">mine</div>
            <div class="c7" id="cvotes_42"></div>
        </div>
    "##;
    let c = ehparse::structures::GalleryComment::parse(ele).unwrap();
    assert_eq!(c.editable, true);
    assert_eq!(c.score_opt, Some(1));
}
