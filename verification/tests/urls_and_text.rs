use ehparse::date::parse_posted;
use ehparse::eh_url::EhUrl;
use ehparse::settings::{GallerySites, Settings};
use ehparse::structures::{GalleryDetailUrl, GalleryPageUrl, Thumb};
use ehparse::text::unescape;

#[test]
fn gallery_detail_url_parser_parse_test() {
    let url = "https://e-hentai.org/g/2455981/acc72caed0/";
    assert_eq!(GalleryDetailUrl::parse(url).is_ok(), true);
}

#[test]
fn detail_url_fields_decode() {
    let url = "https://e-hentai.org/g/2455981/acc72caed0/";
    let u = GalleryDetailUrl::parse(url).unwrap();
    assert_eq!(u.gid, 2455981);
    assert_eq!(u.token, "acc72caed0");
    let u = GalleryDetailUrl::parse("http://lofi.e-hentai.org/mpv/7/0123456789/").unwrap();
    assert_eq!(u.gid, 7);
    let bad = GalleryDetailUrl::parse("https://e-hentai.org/g/12/short/");
    assert_eq!(bad.is_err(), true);
}

#[test]
fn gallery_page_url_parser_parse_test() {
    let url = r#"https://e-hentai.org/s/35142216f7/2062874-16"#;
    assert_eq!(
        GalleryPageUrl::parse(url).unwrap(),
        GalleryPageUrl {
            gid: 2062874,
            p_token: String::from("35142216f7"),
            page: 15,
        }
    );
}

#[test]
fn page_url_round_trips_through_the_builder() {
    let u = EhUrl::new(Settings::new());
    let built = u.page(2062874, 15, "35142216f7");
    let parsed = GalleryPageUrl::parse(&built).unwrap();
    assert_eq!(parsed.gid, 2062874);
    assert_eq!(parsed.p_token, "35142216f7");
    assert_eq!(parsed.page, 15);
    assert_eq!(GalleryPageUrl::parse("https://e-hentai.org/s/0123456789/7-0").is_err(), true);
}

#[test]
fn thumb_parser_parse_test() {
    let img = r#"<img style="height:376px;width:250px;top:-18px" alt="[Pixiv] Moca (7010167) [AI Generated]" title="[Pixiv] Moca (7010167) [AI Generated]" src="https://ehgt.org/08/be/08be4188d5b91a484fc7eeb2a952f5d7eeeec5a3-463202-512-768-png_250.jpg">"#;
    let t = Thumb::parse(img).unwrap();
    assert_eq!(t.height, 376);
    assert_eq!(t.width, 250);
    assert_eq!(
        t.src,
        "https://ehgt.org/08/be/08be4188d5b91a484fc7eeb2a952f5d7eeeec5a3-463202-512-768-png_250.jpg"
    );
}

#[test]
fn url_builder_writes_expected_urls() {
    let u = EhUrl::new(Settings::new());
    assert_eq!(
        u.gallery_detail(2062874, "03037d8698", false, None),
        "https://e-hentai.org//g/2062874/03037d8698/"
    );
    assert_eq!(
        u.gallery_detail(1, "aaaaaaaaaa", true, Some(3)),
        "https://e-hentai.org//g/1/aaaaaaaaaa?hc=1&p=3/"
    );
    assert_eq!(u.page(2062874, 15, "35142216f7"), "https://e-hentai.org/s/35142216f7/2062874-16");
    assert_eq!(u.favorites(), "https://e-hentai.org/favorites.php");
    assert_eq!(u.api(), "https://e-hentai.org/api.php");
    assert_eq!(u.referer(), "https://e-hentai.org");
    assert_eq!(u.origin(), "https://e-hentai.org");
    assert_eq!(u.my_tag(), "https://e-hentai.org/mytags");
    assert_eq!(u.uconfig(), "https://e-hentai.org/uconfig.php");
    assert_eq!(u.popular(), "https://e-hentai.org/popular");
    assert_eq!(u.image_search(), "https://upload.e-hentai.org/image_lookup.php");
    assert_eq!(u.watched(), "https://e-hentai.org/watched");
    assert_eq!(u.thumb_prefix(), "https://ehgt.org/");
    assert_eq!(u.tag_definition("dragon quest vi"), "https://ehwiki.org/wiki/dragon_quest_vi");
    assert_eq!(
        u.add_favorites(7, "t0"),
        "https://e-hentai.org/gallerypopups.php?gid=7&t=t0&act=addfav"
    );
    assert_eq!(
        u.download_archive(7, "t0", "or0"),
        "https://e-hentai.org/archiver.php?gid=7&token=t0&or=or0"
    );
    assert_eq!(
        u.gallery_multi_page_viewer(7, "t0"),
        "https://e-hentai.org/?mpv/7/t0/"
    );
}

#[test]
fn posted_dates_normalize_to_epoch_seconds() {
    assert_eq!(parse_posted("01 January 1970, 00:00"), Some(0));
    assert_eq!(parse_posted("24 September 2020, 09:55"), Some(1600941300));
    assert_eq!(parse_posted("02 July 2019, 11:50"), Some(1562068200));
    assert_eq!(parse_posted("29 February 2000, 23:59"), Some(951868740));
    // Not a leap year, and nonsense hours, are rejected.
    assert_eq!(parse_posted("29 February 1900, 00:00"), None);
    assert_eq!(parse_posted("01 January 2020, 25:00"), None);
    assert_eq!(parse_posted("32 January 2020, 00:00"), None);
}

#[test]
fn unescape_decodes_the_standard_entities() {
    assert_eq!(unescape("a&amp;b&lt;c&gt;d&quot;e&#39;f"), "a&b<c>d\"e'f");
    assert_eq!(unescape("plain"), "plain");
    assert_eq!(unescape("&amp;&amp;"), "&&");
    assert_eq!(unescape("&broken;"), "&broken;");
}

#[test]
fn mirror_site_urls_use_the_other_host() {
    let u = EhUrl::new(Settings { site: GallerySites::EX });
    assert_eq!(u.favorites(), "https://exhentai.org/favorites.php");
    assert_eq!(u.referer(), "https://exhentai.org");
    assert_eq!(u.popular(), "https://exhentai.org/popular");
    assert_eq!(Settings::new().site(), GallerySites::E);
}
