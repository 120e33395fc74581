use mm_status_sync::{
    CommandOutput, Config, ConfigError, OptionalSetting, RequiredSetting, SleepWarning,
};

#[test]
fn test_validate_mattermost_status_valid() {
    // It should accept exact matches
    assert_eq!(Config::validate_mattermost_status("online").unwrap(), "online");
    assert_eq!(Config::validate_mattermost_status("offline").unwrap(), "offline");

    // It should handle mixed-case gracefully
    assert_eq!(Config::validate_mattermost_status("DND").unwrap(), "dnd");
    assert_eq!(Config::validate_mattermost_status("Away").unwrap(), "away");
    assert_eq!(Config::validate_mattermost_status("oNlInE").unwrap(), "online");
}

#[test]
fn test_validate_mattermost_status_invalid() {
    // It should reject completely wrong words
    assert!(Config::validate_mattermost_status("busy").is_err());
    assert!(Config::validate_mattermost_status("in-a-meeting").is_err());

    // It should reject empty strings
    assert!(Config::validate_mattermost_status("").is_err());
}

#[test]
fn test_validate_sleep_seconds_valid() {
    // Normal values should pass through unchanged
    assert_eq!(Config::validate_sleep_seconds("300"), 300);
    assert_eq!(Config::validate_sleep_seconds("60"), 60);
    assert_eq!(Config::validate_sleep_seconds("10"), 10); // Exact minimum
}

#[test]
fn test_validate_sleep_seconds_too_low() {
    // Values below 10 should be forced up to the minimum (10)
    assert_eq!(Config::validate_sleep_seconds("9"), 10);
    assert_eq!(Config::validate_sleep_seconds("1"), 10);
    assert_eq!(Config::validate_sleep_seconds("0"), 10);
}

#[test]
fn test_validate_sleep_seconds_invalid_text() {
    // Garbage text or empty strings should trigger the default (300)
    assert_eq!(Config::validate_sleep_seconds("five"), 300);
    assert_eq!(Config::validate_sleep_seconds(""), 300);

    // Negative numbers will fail to parse as u64 and also trigger the default
    assert_eq!(Config::validate_sleep_seconds("-5"), 300);
}

#[test]
fn sleep_seconds_follow_integer_parsing() {
    assert_eq!(Config::validate_sleep_seconds("+45"), 45);
    assert_eq!(Config::validate_sleep_seconds("+"), 300);
    assert_eq!(Config::validate_sleep_seconds(" 60"), 300);
    assert_eq!(Config::validate_sleep_seconds("007"), 10);
    assert_eq!(Config::validate_sleep_seconds("18446744073709551615"), u64::MAX);
    assert_eq!(Config::validate_sleep_seconds("18446744073709551616"), 300);
    assert_eq!(Config::validate_sleep_seconds("99999999999999999999x"), 300);
}

#[test]
fn invalid_status_is_reported_with_its_text() {
    match Config::validate_mattermost_status("Busy") {
        Err(e) => {
            assert!(matches!(e, ConfigError::InvalidStatus { .. }));
            assert_eq!(
                e.message(),
                "Invalid status 'Busy'. Must be one of: online, away, dnd, offline"
            );
        }
        Ok(_) => panic!("busy is no availability"),
    }
    // A non-ASCII letter never folds to an ASCII one, not even the Kelvin sign.
    assert!(Config::validate_mattermost_status("onlİne").is_err());
    assert!(Config::validate_mattermost_status(" online").is_err());
}

fn output(success: bool, stdout: &[u8], stderr: &[u8]) -> CommandOutput {
    CommandOutput { success, stdout: stdout.to_vec(), stderr: stderr.to_vec() }
}

#[test]
fn snap_setting_trims_the_printed_value() {
    let v = Config::snap_setting("url", &output(true, b"  https://chat.example.com\n", b""));
    assert_eq!(v.unwrap(), "https://chat.example.com");
}

#[test]
fn snap_setting_rejects_an_empty_value() {
    let e = Config::snap_setting("token", &output(true, b" \n\t", b"")).unwrap_err();
    assert!(matches!(&e, ConfigError::EmptyValue { key } if key == "token"));
    assert_eq!(e.message(), "'token' is empty.");
}

#[test]
fn snap_setting_reports_a_failed_snapctl() {
    let e = Config::snap_setting("url", &output(false, b"x", b"error: no such key\n")).unwrap_err();
    assert_eq!(e.message(), "snapctl error: error: no such key\n");
}

#[test]
fn snap_setting_replaces_invalid_utf8() {
    let v = Config::snap_setting("user-id", &output(true, b"ab\xffcd\n", b"")).unwrap();
    assert_eq!(v, "ab\u{FFFD}cd");
}

#[test]
fn snap_setting_or_falls_back_to_the_default() {
    assert_eq!(Config::snap_setting_or(None, "300"), "300");
    assert_eq!(Config::snap_setting_or(Some(&output(false, b"60", b"")), "300"), "300");
    assert_eq!(Config::snap_setting_or(Some(&output(true, b"   ", b"")), "dnd"), "dnd");
    assert_eq!(Config::snap_setting_or(Some(&output(true, b" 60 \n", b"")), "300"), "60");
}

#[test]
fn unavailable_snapctl_message() {
    let e = ConfigError::SnapctlUnavailable { key: "url".to_string() };
    assert_eq!(e.message(), "Failed to call snapctl for key: url");
}

#[test]
fn settings_are_validated_with_fallbacks() {
    let c = Config::from_snap_values(
        "https://chat".to_string(),
        "tok".to_string(),
        "uid".to_string(),
        "3",
        " [In a meeting]".to_string(),
        "Busy",
        "TRUE",
    );
    assert_eq!(c.url, "https://chat");
    assert_eq!(c.token, "tok");
    assert_eq!(c.user_id, "uid");
    assert_eq!(c.sleep_seconds, 10);
    assert_eq!(c.meeting_message, " [In a meeting]");
    assert_eq!(c.meeting_status, "dnd");
    assert!(c.ignore_if_offline);

    let c = Config::from_snap_values(
        String::new(),
        String::new(),
        String::new(),
        "120",
        String::new(),
        "AWAY",
        "yes",
    );
    assert_eq!(c.sleep_seconds, 120);
    assert_eq!(c.meeting_status, "away");
    assert!(!c.ignore_if_offline);
}

#[test]
fn endpoints_and_authorization() {
    let c = Config::from_snap_values(
        "https://chat.example.com".to_string(),
        "secret".to_string(),
        "u1".to_string(),
        "300",
        String::new(),
        "dnd",
        "true",
    );
    assert_eq!(c.status_endpoint(), "https://chat.example.com/api/v4/users/u1/status");
    assert_eq!(c.custom_status_endpoint(), "https://chat.example.com/api/v4/users/u1/status/custom");
    assert_eq!(c.profile_endpoint(), "https://chat.example.com/api/v4/users/me");
    assert_eq!(c.authorization(), "Bearer secret");
}

#[test]
fn optional_settings_fall_back_to_their_defaults() {
    assert_eq!(OptionalSetting::SleepSeconds.value_from(None), "300");
    assert_eq!(OptionalSetting::MeetingMessage.value_from(None), " [In a meeting]");
    assert_eq!(OptionalSetting::MeetingStatus.value_from(None), "dnd");
    assert_eq!(OptionalSetting::IgnoreIfOffline.value_from(None), "true");
    assert_eq!(
        OptionalSetting::MeetingStatus.value_from(Some(&output(true, b"away\n", b""))),
        "away"
    );
    assert_eq!(OptionalSetting::SleepSeconds.key(), "sleep-seconds");
    assert_eq!(OptionalSetting::MeetingMessage.key(), "meeting-message");
    assert_eq!(OptionalSetting::MeetingStatus.key(), "meeting-status");
    assert_eq!(OptionalSetting::IgnoreIfOffline.key(), "ignore-if-offline");
    assert_eq!(RequiredSetting::Url.key(), "url");
    assert_eq!(RequiredSetting::Token.key(), "token");
    assert_eq!(RequiredSetting::UserId.key(), "user-id");
}

#[test]
fn sleep_warnings() {
    assert!(matches!(Config::sleep_seconds_warning("five"), Some(SleepWarning::NotANumber)));
    assert!(matches!(Config::sleep_seconds_warning("3"), Some(SleepWarning::TooLow { seconds: 3 })));
    assert!(Config::sleep_seconds_warning("10").is_none());
    assert!(Config::sleep_seconds_warning("300").is_none());
}

#[test]
fn first_interval_without_config_is_a_minute() {
    assert_eq!(Config::first_interval(None), 60);
    let c = Config::from_snap_values(String::new(), String::new(), String::new(), "45", String::new(), "dnd", "true");
    assert_eq!(Config::first_interval(Some(&c)), 45);
}
