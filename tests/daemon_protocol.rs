use bingwallpaper::hyprpaper::{retry_connect, single_line, Hyprpaper, HyprpaperError};

#[test]
fn socket_path_without_instance() {
    let h = Hyprpaper::new(None).unwrap();
    assert_eq!(h.socket_path, "/tmp/hypr/.hyprpaper.sock");
}

#[test]
fn socket_path_of_instance() {
    let h = Hyprpaper::new(Some("abc_123".to_string())).unwrap();
    assert_eq!(h.socket_path, "/tmp/hypr/abc_123/.hyprpaper.sock");
}

#[test]
fn request_texts() {
    let h = Hyprpaper::new(None).unwrap();
    assert_eq!(h.preload("/p/a b.jpg"), Ok("preload /p/a b.jpg".to_string()));
    assert_eq!(h.set_wallpaper("eDP-1", "/p/a.jpg"), Ok("wallpaper eDP-1,/p/a.jpg".to_string()));
    assert_eq!(h.unload("/p/a.jpg"), Ok("unload /p/a.jpg".to_string()));
}

#[test]
fn multi_line_texts_are_refused() {
    let h = Hyprpaper::new(None).unwrap();
    assert_eq!(h.preload("/p/a\n.jpg"), Err(HyprpaperError::InvalidPath));
    assert_eq!(h.unload("/p/a\0.jpg"), Err(HyprpaperError::InvalidPath));
    assert_eq!(h.set_wallpaper("eDP-1\n", "/p/a.jpg"), Err(HyprpaperError::InvalidMonitor));
    assert_eq!(h.set_wallpaper("eDP-1", "/p/\na.jpg"), Err(HyprpaperError::InvalidPath));
    assert!(single_line("plain text"));
    assert!(!single_line("two\nlines"));
}

#[test]
fn only_ok_acknowledges() {
    assert_eq!(Hyprpaper::read_reply(b"ok"), Ok("ok".to_string()));
    assert_eq!(Hyprpaper::read_reply(b"o"), Err(HyprpaperError::Hyprpaper));
    assert_eq!(Hyprpaper::read_reply(b"no"), Err(HyprpaperError::Hyprpaper));
    assert_eq!(Hyprpaper::read_reply(b""), Err(HyprpaperError::Hyprpaper));
    assert_eq!(Hyprpaper::read_reply(b"okay"), Err(HyprpaperError::Hyprpaper));
}

#[test]
fn connection_is_tried_five_times() {
    assert!(retry_connect(1));
    assert!(retry_connect(4));
    assert!(!retry_connect(5));
}
