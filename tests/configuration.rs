use bingwallpaper::config::{config_directory, pictures_directory, Configuration};
use bingwallpaper::picture::Market;

#[test]
fn explicit_pictures_directory_wins() {
    let r = pictures_directory(Some("/data/pics".to_string()), Some("/home/u/Pictures".to_string()), None);
    assert_eq!(r, "/data/pics");
    let c = Configuration { market: Market::EnglishUS, pictures_directory: Some("/data/pics".to_string()) };
    assert_eq!(c.get_pictures_directory(Some("/home/u/Pictures".to_string()), None), "/data/pics");
}

#[test]
fn platform_pictures_directory_is_next() {
    let r = pictures_directory(None, Some("/home/u/Pictures".to_string()), Some("/home/u/.config".to_string()));
    assert_eq!(r, "/home/u/Pictures/Bing Wallpapers");
}

#[test]
fn configuration_directory_is_last() {
    let r = pictures_directory(None, None, Some("/home/u/.config".to_string()));
    assert_eq!(r, "/home/u/.config/bingwallpaper/bing-wallpaper-cache");
    let r = pictures_directory(None, None, None);
    assert_eq!(r, "~/.config/bingwallpaper/bing-wallpaper-cache");
    assert_eq!(config_directory(None), "~/.config/bingwallpaper");
}

#[test]
fn default_configuration() {
    let c = Configuration::default();
    assert_eq!(c.market, Market::EnglishUS);
    assert_eq!(c.pictures_directory, None);
    assert!(!Configuration::get_config_directory().is_empty());
}

#[test]
fn configuration_falls_back_to_platform_directories() {
    let c = Configuration::default();
    assert_eq!(
        c.get_pictures_directory(Some("/home/u/Pictures".to_string()), Some("/home/u/.config".to_string())),
        "/home/u/Pictures/Bing Wallpapers"
    );
    assert_eq!(
        c.get_pictures_directory(None, Some("/home/u/.config".to_string())),
        "/home/u/.config/bingwallpaper/bing-wallpaper-cache"
    );
}
