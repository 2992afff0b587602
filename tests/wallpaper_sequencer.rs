use bingwallpaper::hyprpaper::{Hyprpaper, HyprpaperError};
use bingwallpaper::sequencer::{DaemonCommand, WallpaperSequencer};

fn monitors(list: &[&str]) -> Vec<String> {
    list.iter().map(|s| s.to_string()).collect()
}

/// Runs the change in progress, with the given outcome for each request.
fn run(seq: &mut WallpaperSequencer, outcomes: &[bool]) -> Vec<DaemonCommand> {
    let mut sent = Vec::new();
    let mut k = 0;
    while let Some(c) = seq.next_command() {
        sent.push(c);
        seq.command_done(outcomes.get(k).copied().unwrap_or(true));
        k += 1;
    }
    sent
}

fn preload(p: &str) -> DaemonCommand {
    DaemonCommand::Preload { path: p.to_string() }
}

fn wallpaper(m: &str, p: &str) -> DaemonCommand {
    DaemonCommand::Wallpaper { monitor: m.to_string(), path: p.to_string() }
}

fn unload(p: &str) -> DaemonCommand {
    DaemonCommand::Unload { path: p.to_string() }
}

#[test]
fn first_picture_is_loaded_and_shown_everywhere() {
    let mut s = WallpaperSequencer::new("/bliss.jpg".to_string());
    s.set_new_wallpaper("/bliss.jpg".to_string(), monitors(&["DP-1", "HDMI-A-1"]));
    let sent = run(&mut s, &[]);
    assert_eq!(sent, vec![preload("/bliss.jpg"), wallpaper("DP-1", "/bliss.jpg"), wallpaper("HDMI-A-1", "/bliss.jpg")]);
    assert!(s.is_idle());
}

#[test]
fn change_loads_shows_then_unloads_old() {
    let mut s = WallpaperSequencer::new("/bliss.jpg".to_string());
    s.set_new_wallpaper("/a.jpg".to_string(), monitors(&["DP-1"]));
    run(&mut s, &[]);
    s.set_new_wallpaper("/b.jpg".to_string(), monitors(&["DP-1", "DP-2"]));
    let sent = run(&mut s, &[true, false, true, true]);
    assert_eq!(sent, vec![preload("/b.jpg"), wallpaper("DP-1", "/b.jpg"), wallpaper("DP-2", "/b.jpg"), unload("/a.jpg")]);
    assert_eq!(s.applied_picture(), "/b.jpg");
}

#[test]
fn failed_load_keeps_old_picture() {
    let mut s = WallpaperSequencer::new("/bliss.jpg".to_string());
    s.set_new_wallpaper("/a.jpg".to_string(), monitors(&["DP-1"]));
    run(&mut s, &[]);
    s.set_new_wallpaper("/b.jpg".to_string(), monitors(&["DP-1"]));
    let sent = run(&mut s, &[false]);
    assert_eq!(sent, vec![preload("/b.jpg")]);
    assert_eq!(s.applied_picture(), "/a.jpg");
    assert!(s.is_idle());
}

#[test]
fn same_picture_needs_no_request() {
    let mut s = WallpaperSequencer::new("/bliss.jpg".to_string());
    s.set_new_wallpaper("/a.jpg".to_string(), monitors(&["DP-1"]));
    run(&mut s, &[]);
    s.set_new_wallpaper("/a.jpg".to_string(), monitors(&["DP-1"]));
    assert_eq!(s.next_command(), None);
}

#[test]
fn applied_picture_changes_only_after_every_output() {
    let mut s = WallpaperSequencer::new("/bliss.jpg".to_string());
    s.set_new_wallpaper("/a.jpg".to_string(), monitors(&["DP-1"]));
    run(&mut s, &[]);
    s.set_new_wallpaper("/b.jpg".to_string(), monitors(&["DP-1", "DP-2"]));
    s.command_done(true);
    s.command_done(true);
    assert_eq!(s.applied_picture(), "/a.jpg");
    s.command_done(true);
    assert_eq!(s.applied_picture(), "/b.jpg");
    assert_eq!(s.next_command(), Some(unload("/a.jpg")));
}

#[test]
fn new_output_gets_the_applied_picture_only() {
    let mut s = WallpaperSequencer::new("/bliss.jpg".to_string());
    assert_eq!(s.on_monitor_added("DP-3".to_string()), wallpaper("DP-3", "/bliss.jpg"));
    s.set_new_wallpaper("/a.jpg".to_string(), monitors(&["DP-1"]));
    run(&mut s, &[]);
    assert_eq!(s.on_monitor_added("DP-3".to_string()), wallpaper("DP-3", "/a.jpg"));
    assert_eq!(s.next_command(), None);
}

#[test]
fn commands_render_in_daemon_protocol() {
    let h = Hyprpaper::new(None).unwrap();
    assert_eq!(preload("/a.jpg").message(&h), Ok("preload /a.jpg".to_string()));
    assert_eq!(wallpaper("DP-1", "/a.jpg").message(&h), Ok("wallpaper DP-1,/a.jpg".to_string()));
    assert_eq!(unload("/a.jpg").message(&h), Ok("unload /a.jpg".to_string()));
    assert_eq!(unload("/a\n.jpg").message(&h), Err(HyprpaperError::InvalidPath));
    assert_eq!(wallpaper("DP\0", "/a.jpg").message(&h), Err(HyprpaperError::InvalidMonitor));
}
