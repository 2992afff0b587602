use bingwallpaper::date::{
    instant_in_range, parse_bing_date, predict_next_poll_time, MalformedDate, MAX_INSTANT, MIN_INSTANT,
};

const JAN_15_2024_MIDNIGHT: i64 = 1705276800;

#[test]
fn date_without_time_is_seven_utc() {
    assert_eq!(parse_bing_date("20240115"), Ok(JAN_15_2024_MIDNIGHT + 7 * 3600));
    assert_eq!(parse_bing_date("20240115"), Ok(1705302000));
}

#[test]
fn date_with_time_is_that_time() {
    assert_eq!(parse_bing_date("202401150930"), Ok(JAN_15_2024_MIDNIGHT + 9 * 3600 + 30 * 60));
    assert_eq!(parse_bing_date("202401150930"), Ok(1705311000));
}

#[test]
fn date_shorter_than_eight_digits_is_malformed() {
    assert_eq!(parse_bing_date("2024011"), Err(MalformedDate));
    assert_eq!(parse_bing_date(""), Err(MalformedDate));
}

#[test]
fn impossible_calendar_date_is_malformed() {
    assert_eq!(parse_bing_date("20240230"), Err(MalformedDate));
    assert_eq!(parse_bing_date("20231301"), Err(MalformedDate));
    assert_eq!(parse_bing_date("20240100"), Err(MalformedDate));
    assert_eq!(parse_bing_date("20230229"), Err(MalformedDate));
}

#[test]
fn non_numeric_date_is_malformed() {
    assert_eq!(parse_bing_date("2024O115"), Err(MalformedDate));
    assert_eq!(parse_bing_date("+2024011"), Err(MalformedDate));
}

#[test]
fn leap_days_decode() {
    assert_eq!(parse_bing_date("20240229"), Ok(1709164800 + 7 * 3600));
    assert_eq!(parse_bing_date("200002290000"), Ok(951782400));
    assert_eq!(parse_bing_date("000002290000"), Ok(-62167219200 + 59 * 86400));
}

#[test]
fn epoch_and_far_dates_decode() {
    assert_eq!(parse_bing_date("197001010000"), Ok(0));
    assert_eq!(parse_bing_date("200003010000"), Ok(951868800));
    assert_eq!(parse_bing_date("999912312359"), Ok(253402300740));
    assert_eq!(parse_bing_date("00000101"), Ok(-62167219200 + 7 * 3600));
}

#[test]
fn unusable_time_falls_back_to_seven() {
    assert_eq!(parse_bing_date("202401152460"), Ok(1705302000));
    assert_eq!(parse_bing_date("202401150960"), Ok(1705302000));
    assert_eq!(parse_bing_date("2024011509"), Ok(1705302000));
    assert_eq!(parse_bing_date("20240115093"), Ok(1705302000));
    assert_eq!(parse_bing_date("2024011509300"), Ok(1705302000));
    assert_eq!(parse_bing_date("20240115ab30"), Ok(1705302000));
}

#[test]
fn next_poll_before_seven_is_today() {
    assert_eq!(predict_next_poll_time(JAN_15_2024_MIDNIGHT), 1705302000);
    assert_eq!(predict_next_poll_time(1705302000 - 1), 1705302000);
}

#[test]
fn next_poll_from_seven_on_is_tomorrow() {
    assert_eq!(predict_next_poll_time(1705302000), 1705302000 + 86400);
    assert_eq!(predict_next_poll_time(JAN_15_2024_MIDNIGHT + 86399), 1705302000 + 86400);
}

#[test]
fn next_poll_before_the_epoch() {
    assert_eq!(predict_next_poll_time(-1), 7 * 3600);
    assert_eq!(predict_next_poll_time(-86400), -86400 + 7 * 3600);
}

#[test]
fn instants_of_four_digit_years_are_in_range() {
    assert_eq!(instant_in_range(1705320000), Some(1705320000));
    assert_eq!(instant_in_range(MAX_INSTANT), Some(MAX_INSTANT));
    assert_eq!(instant_in_range(MAX_INSTANT + 1), None);
    assert_eq!(instant_in_range(MIN_INSTANT + 86400), Some(MIN_INSTANT + 86400));
    assert_eq!(instant_in_range(MIN_INSTANT + 86399), None);
    assert_eq!(instant_in_range(i64::MIN), None);
}
