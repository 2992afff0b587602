use bingwallpaper::cache::{find_local_picture, poll_local_picture, LocalPicture};

const NOON_JAN_15_2024: i64 = 1705320000;

fn names(list: &[&str]) -> Vec<String> {
    list.iter().map(|s| s.to_string()).collect()
}

#[test]
fn yesterdays_picture_when_today_is_missing() {
    let r = poll_local_picture("/pics", &names(&["notes.txt", "20240114-Foo.jpg"]), NOON_JAN_15_2024);
    assert_eq!(r, Some(LocalPicture::Yesterday("/pics/20240114-Foo.jpg".to_string())));
}

#[test]
fn todays_picture_wins_over_yesterdays() {
    let dir = names(&["20240114-Foo.jpg", "20240115-Bar.jpg"]);
    let r = poll_local_picture("/pics", &dir, NOON_JAN_15_2024);
    assert_eq!(r, Some(LocalPicture::Today("/pics/20240115-Bar.jpg".to_string())));
    let dir = names(&["20240115-Bar.jpg", "20240114-Foo.jpg"]);
    let r = poll_local_picture("/pics/", &dir, NOON_JAN_15_2024);
    assert_eq!(r, Some(LocalPicture::Today("/pics/20240115-Bar.jpg".to_string())));
}

#[test]
fn yesterday_is_twenty_four_hours_back() {
    // Just after midnight of March 1st, yesterday is February 29th.
    let dir = names(&["20240229-Leap.jpg"]);
    let r = poll_local_picture("d", &dir, 1709251200 + 60);
    assert_eq!(r, Some(LocalPicture::Yesterday("d/20240229-Leap.jpg".to_string())));
}

#[test]
fn nothing_found_in_empty_or_unrelated_directory() {
    assert_eq!(poll_local_picture("/pics", &Vec::new(), NOON_JAN_15_2024), None);
    let dir = names(&["20240113-Old.jpg", "x20240115.jpg"]);
    assert_eq!(poll_local_picture("/pics", &dir, NOON_JAN_15_2024), None);
}

#[test]
fn first_match_of_today_and_last_of_yesterday() {
    let dir = names(&["20240114-A.jpg", "20240115-B.jpg", "20240114-C.jpg", "20240115-D.jpg"]);
    let r = find_local_picture("p", &dir, "20240115", "20240114");
    assert_eq!(r, Some(LocalPicture::Today("p/20240115-B.jpg".to_string())));
    let dir = names(&["20240114-A.jpg", "20240114-C.jpg"]);
    let r = find_local_picture("p", &dir, "20240115", "20240114");
    assert_eq!(r, Some(LocalPicture::Yesterday("p/20240114-C.jpg".to_string())));
}
