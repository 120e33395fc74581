use mm_status_sync::{build_meeting_text, is_process_dir_name, is_video_device, parse_unsigned};

#[test]
fn test_build_meeting_text_appends_correctly() {
    let old = "Focusing";
    let msg = "[In a meeting]";
    assert_eq!(build_meeting_text(old, msg), "Focusing [In a meeting]");
}

#[test]
fn test_build_meeting_text_prevents_duplicates() {
    let old = "Focusing [In a meeting]";
    let msg = "[In a meeting]";
    assert_eq!(build_meeting_text(old, msg), "Focusing [In a meeting]");
}

#[test]
fn meeting_text_is_trimmed() {
    assert_eq!(build_meeting_text("", " [In a meeting]"), "[In a meeting]");
    assert_eq!(build_meeting_text("  Lunch ", " [In a meeting]"), "Lunch   [In a meeting]");
    assert_eq!(build_meeting_text("\u{3000}Busy", "call\u{a0}"), "Busy call");
    assert_eq!(build_meeting_text("a", ""), "a");
}

#[test]
fn meeting_text_marks_once() {
    let once = build_meeting_text("Focusing", "[In a meeting]");
    let twice = build_meeting_text(&once, "[In a meeting]");
    assert_eq!(once, twice);
    assert!(once.ends_with("[In a meeting]"));
}

#[test]
fn unsigned_numbers_parse_like_std() {
    for s in ["0", "+7", "4294967295", "4294967296", "", "+", "-1", "1 ", "١٢"] {
        assert_eq!(parse_unsigned(s, u32::MAX as u64), s.parse::<u32>().ok().map(u64::from), "{s}");
    }
    assert_eq!(parse_unsigned("18446744073709551615", u64::MAX), Some(u64::MAX));
    assert_eq!(parse_unsigned("18446744073709551616", u64::MAX), None);
}

#[test]
fn process_directories_and_video_devices() {
    assert!(is_process_dir_name("1234"));
    assert!(!is_process_dir_name("self"));
    assert!(!is_process_dir_name("4294967296"));
    assert!(is_video_device("/dev/video0"));
    assert!(is_video_device("/dev/video"));
    assert!(!is_video_device("/dev/vide"));
    assert!(!is_video_device("/dev/snd/pcmC0D0c"));
}
