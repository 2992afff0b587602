use bingwallpaper::date::MalformedDate;
use bingwallpaper::picture::{image_of_the_day, BingImage, ImageOfTheDayError, Market, UnknownMarket};
use bingwallpaper::text::{has_prefix, join_path, same_text};

fn image(start: &str, end: &str, title: &str) -> BingImage {
    BingImage {
        start_date: start.to_string(),
        full_start_date: format!("{}0800", start),
        end_date: end.to_string(),
        url: "/th?id=OHR.Foo_EN-US123_1920x1080.jpg".to_string(),
        url_base: "/th?id=OHR.Foo_EN-US123".to_string(),
        title: title.to_string(),
    }
}

#[test]
fn file_name_is_start_date_and_title() {
    let a = image("20240115", "20240116", "Foo");
    assert_eq!(a.get_image_file_name(), "20240115-Foo.jpg");
    let b = image("20240115", "20991231", "Foo");
    assert_eq!(a.get_image_file_name(), b.get_image_file_name());
}

#[test]
fn image_url_is_full_resolution() {
    let a = image("20240115", "20240116", "Foo");
    assert_eq!(a.get_image_url(), "https://www.bing.com/th?id=OHR.Foo_EN-US123_UHD.jpg");
}

#[test]
fn end_date_decodes() {
    assert_eq!(image("20240115", "20240116", "Foo").get_end_date(), Ok(1705302000 + 86400));
    assert_eq!(image("20240115", "tomorrow", "Foo").get_end_date(), Err(MalformedDate));
}

#[test]
fn first_listed_image_is_the_picture_of_the_day() {
    let r = image_of_the_day(vec![image("20240115", "20240116", "A"), image("20240114", "20240115", "B")]);
    assert_eq!(r, Ok(image("20240115", "20240116", "A")));
}

#[test]
fn empty_listing_has_no_picture() {
    assert_eq!(image_of_the_day(Vec::new()), Err(ImageOfTheDayError::NoImagesFound));
}

#[test]
fn market_tags_round_trip() {
    for m in [Market::DanishDenmark, Market::EnglishGB, Market::EnglishUS] {
        assert_eq!(Market::from_str(&m.to_string()), Ok(m));
    }
    assert_eq!(Market::EnglishGB.to_string(), "en-GB");
    assert_eq!(Market::default(), Market::EnglishUS);
}

#[test]
fn unknown_market_is_rejected() {
    assert_eq!(Market::from_str("fr-FR"), Err(UnknownMarket("fr-FR".to_string())));
    assert_eq!(Market::from_str("en-us"), Err(UnknownMarket("en-us".to_string())));
}

#[test]
fn paths_join_with_one_separator() {
    assert_eq!(join_path("/a", "b.jpg"), "/a/b.jpg");
    assert_eq!(join_path("/a/", "b.jpg"), "/a/b.jpg");
    assert_eq!(join_path("", "b.jpg"), "b.jpg");
}

#[test]
fn text_helpers() {
    assert!(has_prefix("20240115-Foo.jpg", "20240115"));
    assert!(!has_prefix("2024", "20240115"));
    assert!(has_prefix("abc", ""));
    assert!(same_text("ab", "ab"));
    assert!(!same_text("ab", "abc"));
}
