use rssbot::config::check_interval;
use rssbot::config::parse_check_interval;
use rssbot::feed::Feed;
use rssbot::feed::Item;
use rssbot::fetch::item_link;
use rssbot::fetch::item_title;
use rssbot::fetch::on_fetch_failure;
use rssbot::fetch::FailureAction;

const DAY: u64 = 24 * 60 * 60;

#[test]
fn five_days_and_a_second_is_reported() {
    assert_eq!(on_fetch_failure(Some(5 * DAY + 1)), FailureAction::Report);
}

#[test]
fn exactly_five_days_is_still_silent() {
    assert_eq!(on_fetch_failure(Some(5 * DAY)), FailureAction::Ignore);
}

#[test]
fn four_days_is_silent() {
    assert_eq!(on_fetch_failure(Some(4 * DAY)), FailureAction::Ignore);
    assert_eq!(on_fetch_failure(Some(0)), FailureAction::Ignore);
}

#[test]
fn untracked_feed_aborts() {
    assert_eq!(on_fetch_failure(None), FailureAction::Abort);
}

#[test]
fn very_long_down_time_is_reported() {
    assert_eq!(on_fetch_failure(Some(u64::MAX)), FailureAction::Report);
}

#[test]
fn item_falls_back_to_feed_title_and_link() {
    let feed = Feed {
        link: "https://a.example/feed".to_string(),
        title: "A".to_string(),
        ttl: None,
        subscribers: vec![],
    };
    let bare = Item { title: None, link: None };
    assert_eq!(item_title(&bare, &feed), "A");
    assert_eq!(item_link(&bare, &feed), "https://a.example/feed");
    let full = Item {
        title: Some("post".to_string()),
        link: Some("https://a.example/post".to_string()),
    };
    assert_eq!(item_title(&full, &feed), "post");
    assert_eq!(item_link(&full, &feed), "https://a.example/post");
}

#[test]
fn interval_option_accepts_positive_numbers() {
    assert_eq!(parse_check_interval("300"), Ok(300));
    assert_eq!(parse_check_interval("1"), Ok(1));
    assert_eq!(parse_check_interval("+7"), Ok(7));
    assert_eq!(parse_check_interval("4294967295"), Ok(u32::MAX));
}

#[test]
fn interval_option_rejects_zero() {
    assert_eq!(parse_check_interval("0"), Err("must >= 1".to_string()));
}

#[test]
fn interval_option_rejects_what_is_no_number() {
    assert_eq!(
        parse_check_interval("abc"),
        Err("invalid digit found in string".to_string())
    );
    assert_eq!(
        parse_check_interval(""),
        Err("cannot parse integer from empty string".to_string())
    );
    assert_eq!(
        parse_check_interval("4294967296"),
        Err("number too large to fit in target type".to_string())
    );
    assert!(parse_check_interval("-1").is_err());
}

#[test]
fn interval_rule_on_parsed_values() {
    assert_eq!(check_interval(Ok(0)), Err("must >= 1".to_string()));
    assert_eq!(check_interval(Ok(43200)), Ok(43200));
    assert_eq!(check_interval(Err("bad".to_string())), Err("bad".to_string()));
}
