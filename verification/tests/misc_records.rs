use ehparse::error::ParseError;
use ehparse::parser::forums_parser::Forums;
use ehparse::structures::{
    Archive, GalleryNotAvailable, GalleryToken, GalleryTokenList, Profile, RateGallery, SignIn,
    Torrent, VoteComment, VoteTag,
};

#[test]
fn top_level_constants() {
    const SALUTATION: &str = "Hello";
    const TARGET: &str = "world";
    let greeting = format!("{}{}{}{}", SALUTATION, ", ", TARGET, "!");
    let greeting_trailing_comma = format!("{}{}{}{}", SALUTATION, ", ", TARGET, "!");
    assert_eq!(greeting, "Hello, world!");
    assert_eq!(greeting_trailing_comma, "Hello, world!");
}

#[test]
fn archive_parser_parse_test() {
    let s = r##"<p>How would you like to download archive.html?</p><form id="hathdl_form" action="https://e-hentai.org/archiver.php?gid=1&token=a0&or=abc--123" method="post"><div><a href="#" onclick="return do_hathdl('org')">Original Archive</a></div><div><a href="#" onclick="return do_hathdl('780')">Resample Archive</a></div></form>"##;
    let archive = Archive::parse(s);
    assert_eq!(archive.is_ok(), true);
    let archive = archive.unwrap();
    assert_eq!(archive.or, "abc--123");
    assert_eq!(archive.items.len(), 2);
    assert_eq!(archive.items[0].res, "org");
    assert_eq!(archive.items[0].name, "Original Archive");
    assert_eq!(archive.items[1].res, "780");
}

#[test]
fn forums_parser_forums_parse_test() {
    let s = r#"<div id="userlinks"><p class="home"><b>Logged in as:  <a href="https://forums.e-hentai.org/index.php?showuser=12345">someone</a></b></p></div>"#;
    assert_eq!(Forums::parse(s).is_ok(), true);
}

#[test]
fn profile_parser_forums_parse_test() {
    let s = r#"<div id="profilename"><font>xxxx</font></div><table class="ipbtable"><tr><td><img src="style_images/ambience/warn0.gif"></td></tr></table>"#;
    assert_eq!(
        Profile::parse(s).unwrap(),
        Profile {
            display_name: String::from("xxxx"),
            avatar: format!("{}{}", "https://forums.e-hentai.org/", "style_images/ambience/warn0.gif"),
        }
    );
}

#[test]
fn gallery_not_available_parser_parse_test() {
    let s = r#"<div class="d"><p>This gallery_list has been removed or is unavailable.</p></div>"#;
    assert_eq!(
        GalleryNotAvailable::parse(s).unwrap(),
        GalleryNotAvailable {
            error: String::from("This gallery_list has been removed or is unavailable.")
        }
    );
}

#[test]
fn gallery_token_api_parser_parse_test() {
    let json = r#"
        {
            "tokenlist": [
                {
                    "gid": 2062874,
                    "token": "03037d8698"
                }
            ]
        }
    "#;
    assert_eq!(
        GalleryTokenList::parse(json).unwrap(),
        GalleryTokenList {
            token_vec_opt: Some(vec![GalleryToken {
                gid: 2062874,
                token: String::from("03037d8698"),
            }]),
            error_opt: None,
        }
    );

    let json = r#"
        {
            "error": "maomao is moe~"
        }
    "#;
    assert_eq!(
        GalleryTokenList::parse(json).unwrap(),
        GalleryTokenList {
            token_vec_opt: None,
            error_opt: Some(String::from(r#"maomao is moe~"#)),
        }
    );
}

#[test]
fn sign_in_parser_parse_test() {
    let error_page = "<html><body><h4>The error returned was:</h4>\n<p>Username or password incorrect</p></body></html>";
    assert_eq!(SignIn::parse(error_page).is_err(), true);

    let success_page = r#"<html><body><p>You are now logged in as: someone<br/></p></body></html>"#;
    assert_eq!(SignIn::parse(success_page).is_ok(), true);
}

#[test]
fn sign_in_error_message_is_verbatim() {
    let page = r#"<span class="postcolor">wrong password</span>"#;
    assert_eq!(
        SignIn::parse(page),
        Err(ParseError::FromServer(String::from("wrong password")))
    );
}

#[test]
fn torrent_parser_parse_test() {
    let ele = r#"
        <tr>
            <td colspan="5"> &nbsp; <a href="https://ehtracker.org/get/2257278/9a16691657fb9ec9ad124298af12eaaf86fa614c.torrent" onclick="sument.location='https://ehtracker.org/get/xxxx/xxxx.torrent?p=xxxx'; return false">xxxx.zip</a></td>
        </tr>
    "#;
    assert_eq!(
        Torrent::parse(ele).unwrap(),
        Torrent {
            filename: String::from(r#"xxxx.zip"#),
            download_url: String::from("https://ehtracker.org/get/xxxx/xxxx.torrent?p=xxxx"),
        }
    );
}

#[test]
fn gallery_multi_page_viewer_p_token_parser_parse_test() {}

#[test]
fn gallery_page_api_parser_parse_test() {}

#[test]
fn gallery_page_parser_parse_test() {}

#[test]
fn multi_page_viewer_list_decodes() {
    let s = r#"<script>var imagelist = ["a","b","c"];</script>"#;
    let t = ehparse::structures::GalleryMultiPageViewerPToken::parse(s).unwrap();
    assert_eq!(t.image_vec, vec!["a", "b", "c"]);
}

#[test]
fn vote_comment_decodes() {
    let json = r#"{"comment_id": 1253922, "comment_score": -19, "comment_vote": 0}"#;
    let v = VoteComment::parse(json).unwrap();
    assert_eq!(v.id, 1253922);
    assert_eq!(v.score, -19);
    assert_eq!(v.vote, 0);
}

#[test]
fn vote_tag_decodes() {
    let json = r#"{"error": "The tag is not allowed"}"#;
    let v = VoteTag::parse(json).unwrap();
    assert_eq!(v.error_opt, Some(String::from("The tag is not allowed")));
    let v = VoteTag::parse("{}").unwrap();
    assert_eq!(v.error_opt, None);
}

#[test]
fn rate_gallery_decodes() {
    let json = r#"{"rating_avg": 4.54, "rating_cnt": 1337}"#;
    let v = RateGallery::parse(json).unwrap();
    assert_eq!(v.rating_centi, 454);
    assert_eq!(v.rating_count, 1337);
}

#[test]
fn malformed_json_is_an_error() {
    assert_eq!(VoteComment::parse("not json").is_err(), true);
    assert_eq!(GalleryTokenList::parse("[1,2").is_err(), true);
}

#[test]
fn gallery_page_fields_decode() {
    let page = r##"<html><body>
        <div><a id="prev" href="https://e-hentai.org/s/aaaaaaaaaa/7-1"><img src="https://host/nav.png"></a></div>
        <div id="i3"><a onclick="return load_image(2)"><img id="img" src="https://host/full/image-page.jpg" style="height:1000px;width:700px" alt="page"></a></div>
        <div id="i6"><a href="#" onclick="return nl('12345-6789')">Click here if the image fails loading</a>
        <a href="https://e-hentai.org/fullimg.php?gid=7&amp;page=2&amp;key=abc">Download original</a></div>
        <script>var showkey="abc123xyz";</script>
    </body></html>"##;
    let g = ehparse::structures::GalleryPage::parse(page).unwrap();
    assert_eq!(g.image_url, "https://host/full/image-page.jpg");
    assert_eq!(g.skip_hath_key, "12345-6789");
    assert_eq!(g.origin_image_url, "https://e-hentai.org/fullimg.php?gid=7&page=2&key=abc");
    assert_eq!(g.show_key, "abc123xyz");
}

#[test]
fn gallery_page_api_fields_decode() {
    let json = r##"{
        "i3": "<a onclick=\"return load_image(2)\"><img id=\"img\" src=\"https://host/full/image.jpg\" style=\"height:1000px\" alt=\"p\"></a>",
        "i6": "<a href=\"#\" onclick=\"return nl('999-888')\">failover</a>",
        "i7": "<a href=\"https://e-hentai.org/fullimg.php?gid=7&amp;key=k\">Download original</a>"
    }"##;
    let g = ehparse::structures::GalleryPageApi::parse(json).unwrap();
    assert_eq!(g.image_url, "https://host/full/image.jpg");
    assert_eq!(g.skip_hath_key, "999-888");
    assert_eq!(g.origin_image_url, "https://e-hentai.org/fullimg.php?gid=7&key=k");
}

#[test]
fn missing_attribute_is_reported_as_such() {
    // A preview tile whose image lacks its title attribute.
    let ele = r#"<div class="gdtl"><a href="https://e-hentai.org/s/5bf9580b3b/1496103-1"><img alt="01" src="https://host/t.jpg"></a></div>"#;
    assert_eq!(
        ehparse::structures::GalleryPreviewLarge::parse(ele),
        Err(ParseError::AttributeNotFound)
    );
}

#[test]
fn secondary_failures_wrap_as_other() {
    let r = VoteComment::parse("not json");
    assert_eq!(matches!(r, Err(ParseError::Other(_))), true);
    let r = ehparse::structures::Rating::from_style("99999999999999999999px 0px");
    assert_eq!(matches!(r, Err(ParseError::Other(_))), true);
}

#[test]
fn token_list_rejects_malformed_entries() {
    let json = r#"{"tokenlist": [{"gid": "not a number", "token": "abc"}]}"#;
    assert_eq!(matches!(GalleryTokenList::parse(json), Err(ParseError::Other(_))), true);
    let json = r#"{"tokenlist": 7}"#;
    assert_eq!(matches!(GalleryTokenList::parse(json), Err(ParseError::Other(_))), true);
    let json = r#"{}"#;
    let l = GalleryTokenList::parse(json).unwrap();
    assert_eq!(l.token_vec_opt, None);
    assert_eq!(l.error_opt, None);
}

#[test]
fn tag_row_without_anchors_is_rejected() {
    let row = r#"<tr><td class="tc">language:</td><td></td></tr>"#;
    assert_eq!(
        ehparse::structures::GalleryTagGroup::parse(row),
        Err(ParseError::DomNotFound)
    );
}

#[test]
fn forums_without_link_is_rejected() {
    assert_eq!(Forums::parse("<p>nothing here</p>"), Err(ParseError::AttributeNotFound));
}

#[test]
fn integral_rating_average_decodes() {
    let json = r#"{"rating_avg": 5, "rating_cnt": 2}"#;
    let v = RateGallery::parse(json).unwrap();
    assert_eq!(v.rating_centi, 500);
}
