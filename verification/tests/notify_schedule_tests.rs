use evertext_runner::account::Settings;
use evertext_runner::notify::notification_target;
use evertext_runner::schedule::is_daily_reset_moment;

fn settings(mute: Option<bool>, channel: Option<&str>) -> Settings {
    Settings {
        cookies: None,
        admin_role_id: None,
        log_channel_id: channel.map(str::to_string),
        mute_bot_messages: mute,
    }
}

#[test]
fn routed_to_configured_channel() {
    let s = settings(None, Some("123"));
    assert_eq!(notification_target(&s, &None).as_deref(), Some("123"));
    let s2 = settings(Some(false), Some("123"));
    assert_eq!(notification_target(&s2, &None).as_deref(), Some("123"));
}

#[test]
fn muted_notifications_go_nowhere() {
    let s = settings(Some(true), Some("123"));
    assert_eq!(notification_target(&s, &None), None);
}

#[test]
fn unconfigured_channel_goes_nowhere() {
    let s = settings(None, None);
    assert_eq!(notification_target(&s, &None), None);
}

#[test]
fn skip_channel_suppresses_the_mirror() {
    let s = settings(None, Some("123"));
    assert_eq!(notification_target(&s, &Some("123".to_string())), None);
    assert_eq!(
        notification_target(&s, &Some("999".to_string())).as_deref(),
        Some("123")
    );
}

#[test]
fn reset_fires_only_in_the_midnight_minute() {
    assert!(is_daily_reset_moment(0, 0));
    assert!(!is_daily_reset_moment(0, 1));
    assert!(!is_daily_reset_moment(1, 0));
    assert!(!is_daily_reset_moment(23, 59));
}
