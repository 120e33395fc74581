use mm_status_sync::{
    availability_to_restore, current_state_from, plan_status_update, user_is_offline,
    state_from_parsed, CustomStatusChange, JsonDoc,
};

#[test]
fn offline_only_when_read_as_offline() {
    assert!(user_is_offline(Some("offline")));
    assert!(!user_is_offline(Some("Offline")));
    assert!(!user_is_offline(Some("away")));
    assert!(!user_is_offline(Some("")));
    assert!(!user_is_offline(None));
}

#[test]
fn current_state_parses_the_custom_status() {
    let d = current_state_from(Some(r#"{"emoji":"calendar","text":"Focusing","duration":"today"}"#), Some("away"));
    assert_eq!(d.str_member("emoji").as_deref(), Some("calendar"));
    assert_eq!(d.str_member("text").as_deref(), Some("Focusing"));
    assert_eq!(d.str_member("duration").as_deref(), Some("today"));
    assert_eq!(d.str_member("availability").as_deref(), Some("away"));
}

#[test]
fn current_state_falls_back_to_a_blank_status() {
    let d = current_state_from(None, None);
    assert_eq!(d.str_member("emoji").as_deref(), Some(""));
    assert_eq!(d.str_member("text").as_deref(), Some(""));
    assert_eq!(d.str_member("availability").as_deref(), Some("online"));

    let d = current_state_from(Some("not json"), Some(""));
    assert_eq!(d.str_member("text").as_deref(), Some(""));
    assert_eq!(d.str_member("availability").as_deref(), Some("online"));

    let d = current_state_from(Some(""), Some("dnd"));
    assert_eq!(d.str_member("availability").as_deref(), Some("dnd"));
}

#[test]
fn current_state_keeps_a_non_object_as_it_is() {
    let d = current_state_from(Some("[1, 2]"), Some("away"));
    assert!(!d.is_object());
    assert_eq!(d.str_member("availability"), None);

    let d = current_state_from(Some(r#"{"text": 5, "availability": "dnd"}"#), Some("away"));
    assert_eq!(d.str_member("text"), None);
    assert_eq!(d.str_member("availability").as_deref(), Some("away"));
}

#[test]
fn parsed_state_gets_the_availability() {
    let d = state_from_parsed(None, Some("away"));
    assert!(d.is_object());
    assert_eq!(d.str_member("emoji").as_deref(), Some(""));
    assert_eq!(d.str_member("text").as_deref(), Some(""));
    assert_eq!(d.str_member("availability").as_deref(), Some("away"));

    let parsed = current_state_from(Some(r#"{"text":"x","availability":"dnd"}"#), None);
    let d = state_from_parsed(Some(parsed), Some(""));
    assert_eq!(d.str_member("text").as_deref(), Some("x"));
    assert_eq!(d.str_member("availability").as_deref(), Some("online"));

    let not_object = current_state_from(Some("true"), None);
    let d = state_from_parsed(Some(not_object), Some("away"));
    assert!(!d.is_object());
}

#[test]
fn update_plan_clears_an_empty_custom_status() {
    let d = JsonDoc::status("  ".to_string(), "\n".to_string());
    let u = plan_status_update(&d, "online");
    assert!(matches!(u.custom, CustomStatusChange::Clear));
    assert_eq!(u.availability, "online");

    let d = current_state_from(Some("42"), None);
    assert!(matches!(plan_status_update(&d, "away").custom, CustomStatusChange::Clear));
}

#[test]
fn update_plan_trims_text_and_emoji() {
    let d = JsonDoc::status(" meet ".to_string(), " Focusing [In a meeting] ".to_string());
    let u = plan_status_update(&d, "dnd");
    match u.custom {
        CustomStatusChange::Replace { emoji, text } => {
            assert_eq!(emoji, "meet");
            assert_eq!(text, "Focusing [In a meeting]");
        }
        CustomStatusChange::Clear => panic!("the status has a text"),
    }
    assert_eq!(u.availability, "dnd");
}

#[test]
fn saved_state_brings_back_its_availability() {
    let saved = current_state_from(Some(r#"{"emoji":"sword","text":"Defending"}"#), Some("away"));
    assert_eq!(availability_to_restore(&saved), "away");
    let blank = current_state_from(Some("[]"), Some("away"));
    assert_eq!(availability_to_restore(&blank), "online");
}
