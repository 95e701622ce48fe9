use ehparse::error::ParseError;
use ehparse::structures::{Category, FavoriteSlot, Rating};

#[test]
fn parse_rating_test() {
    let rating_style = "background-position:0px -21px;opacity:0.53333333333333";
    let rating = Rating::from_style(rating_style).unwrap();
    assert_eq!(rating.centi as f32 / 100.0, 4.5 as f32);
}

#[test]
fn rating_full_stars() {
    let rating = Rating::from_style("background-position:16px 0px").unwrap();
    assert_eq!(rating.centi, 400);
}

#[test]
fn rating_needs_two_offsets() {
    let r = Rating::from_style("background-position:16px");
    assert_eq!(r, Err(ParseError::RegexMatchFailed));
    let r = Rating::from_style("no offsets at all");
    assert_eq!(r, Err(ParseError::RegexMatchFailed));
}

#[test]
fn favorite_slot_parser_parse_test() {
    let style_in_gallery_list = r#"border-color:#000;background-color:rgba(0,0,0,.1)"#;
    assert_eq!(FavoriteSlot::from_style(style_in_gallery_list).is_ok(), true);
}

#[test]
fn favorite_slot_whole_table() {
    let table: [(&str, &str, &str); 10] = [
        ("0", "0", "0"),
        ("240", "0", "0"),
        ("240", "160", "0"),
        ("208", "208", "0"),
        ("0", "128", "0"),
        ("144", "240", "64"),
        ("64", "176", "240"),
        ("0", "0", "240"),
        ("80", "0", "128"),
        ("224", "128", "224"),
    ];
    for (i, (r, g, b)) in table.iter().enumerate() {
        let style = format!("background-color:rgba({},{},{},.1)", r, g, b);
        let slot = FavoriteSlot::from_style(&style).unwrap();
        assert_eq!(slot.value, i as u32);
        assert_eq!(slot.r, *r);
        assert_eq!(slot.g, *g);
        assert_eq!(slot.b, *b);
    }
}

#[test]
fn favorite_slot_unknown_color_is_out_of_range() {
    let style = "background-color:rgba(1,2,3,.1)";
    assert_eq!(FavoriteSlot::from_style(style), Err(ParseError::OutOfRange));
}

#[test]
fn favorite_slot_requires_the_pattern() {
    assert_eq!(
        FavoriteSlot::from_style("border-color:#000"),
        Err(ParseError::RegexMatchFailed)
    );
}

#[test]
fn category_canonical_labels() {
    let rows: [(&str, u32); 11] = [
        ("misc", 1),
        ("doujinshi", 2),
        ("manga", 4),
        ("artistcg", 8),
        ("gamecg", 16),
        ("imageset", 32),
        ("cosplay", 64),
        ("asianporn", 128),
        ("non-h", 256),
        ("western", 512),
        ("unknown", 0x400),
    ];
    for (label, value) in rows.iter() {
        let c = Category::from_text(label);
        assert_eq!(c.value, *value);
        let upper = label.to_uppercase();
        let c2 = Category::from_text(&upper);
        assert_eq!(c2.value, *value);
    }
}

#[test]
fn category_alternate_spellings() {
    assert_eq!(Category::from_text("Artist CG Sets").value, 8);
    assert_eq!(Category::from_text("Game CG").value, 16);
    assert_eq!(Category::from_text("Image Sets").value, 32);
    assert_eq!(Category::from_text("Asian Porn").value, 128);
}

#[test]
fn category_unknown_is_total() {
    let c = Category::from_text("does not exist");
    assert_eq!(c.value, 0x400);
    assert_eq!(c.color, 0);
    let c = Category::from_text("");
    assert_eq!(c.value, 0x400);
    assert_eq!(c.string, "unknown");
}

#[test]
fn category_from_value_round_trip() {
    let c = Category::from_value(256);
    assert_eq!(c.string, "non-h");
    assert_eq!(c.value, 256);
    let c = Category::from_value(3);
    assert_eq!(c.value, 0x400);
}
