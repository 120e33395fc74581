use mm_status_sync::{
    current_state_from, meeting_end, meeting_start, step, Action, Config, Event, Outcome, Phase,
};
use serde_json::Value;

fn backup_member<'a>(text: &'a str, key: &str) -> Value {
    let v: Value = serde_json::from_str(text).expect("the backup is JSON");
    v[key].clone()
}

fn config(ignore_if_offline: bool) -> Config {
    Config::from_snap_values(
        "https://chat".to_string(),
        "tok".to_string(),
        "uid".to_string(),
        "300",
        "[In a meeting]".to_string(),
        "dnd",
        if ignore_if_offline { "true" } else { "false" },
    )
}

fn run(p: Phase, e: Event, c: &Config) -> (Phase, Action) {
    assert!(p.accepts(&e));
    step(p, e, c)
}

#[test]
fn start_marks_the_meeting_after_the_backup() {
    let c = config(false);
    let (p, a) = meeting_start();
    assert!(matches!(a, Action::CheckBackup));
    let (p, a) = run(p, Event::BackupExists(false), &c);
    assert!(matches!(a, Action::FetchCurrentState));
    let current = current_state_from(Some(r#"{"emoji":"calendar","text":"Focusing"}"#), Some("away"));
    let (p, a) = run(p, Event::CurrentState(Some(current)), &c);
    match &a {
        Action::WriteBackup(t) => {
            assert_eq!(backup_member(t, "text"), "Focusing");
            assert_eq!(backup_member(t, "emoji"), "calendar");
            assert_eq!(backup_member(t, "availability"), "away");
        }
        other => panic!("unexpected {other:?}"),
    }
    let (p, a) = run(p, Event::BackupWritten(true), &c);
    match &a {
        Action::UpdateStatus { status, availability } => {
            assert_eq!(status.str_member("emoji").as_deref(), Some("meet"));
            assert_eq!(status.str_member("text").as_deref(), Some("Focusing [In a meeting]"));
            assert_eq!(availability, "dnd");
        }
        other => panic!("unexpected {other:?}"),
    }
    let (p, a) = run(p, Event::StatusUpdated(true), &c);
    assert!(matches!(p, Phase::Finished));
    assert!(matches!(a, Action::Finish(Outcome::MeetingStatusSet)));
}

#[test]
fn start_does_nothing_when_already_marked() {
    let c = config(true);
    let (p, _) = meeting_start();
    let (p, a) = run(p, Event::BackupExists(true), &c);
    assert!(matches!(p, Phase::Finished));
    assert!(matches!(a, Action::Finish(Outcome::AlreadyMarked)));
}

#[test]
fn start_leaves_an_offline_user_alone() {
    let c = config(true);
    let (p, _) = meeting_start();
    let (p, a) = run(p, Event::BackupExists(false), &c);
    assert!(matches!(a, Action::CheckOffline));
    let (_, a) = run(p, Event::UserOffline(true), &c);
    assert!(matches!(a, Action::Finish(Outcome::SkippedOffline)));
}

#[test]
fn start_saves_a_fallback_when_the_status_is_unknown() {
    let c = config(true);
    let (p, _) = meeting_start();
    let (p, _) = run(p, Event::BackupExists(false), &c);
    let (p, a) = run(p, Event::UserOffline(false), &c);
    assert!(matches!(a, Action::FetchCurrentState));
    let (p, a) = run(p, Event::CurrentState(None), &c);
    match &a {
        Action::WriteBackup(t) => {
            assert_eq!(backup_member(t, "emoji"), "");
            assert_eq!(backup_member(t, "text"), "");
            assert_eq!(backup_member(t, "availability"), "online");
        }
        other => panic!("unexpected {other:?}"),
    }
    let (_, a) = run(p, Event::BackupWritten(false), &c);
    assert!(matches!(a, Action::Finish(Outcome::BackupWriteFailed)));
}

#[test]
fn end_restores_the_saved_status() {
    let c = config(true);
    let (p, _) = meeting_end();
    let (p, a) = run(p, Event::BackupExists(true), &c);
    assert!(matches!(a, Action::CheckOffline));
    let (p, a) = run(p, Event::UserOffline(false), &c);
    assert!(matches!(a, Action::ReadBackup));
    let backup = r#"{"availability":"away","emoji":"sword","text":"Defending"}"#.to_string();
    let (p, a) = run(p, Event::BackupRead(Some(backup)), &c);
    match &a {
        Action::UpdateStatus { status, availability } => {
            assert_eq!(status.str_member("text").as_deref(), Some("Defending"));
            assert_eq!(status.str_member("emoji").as_deref(), Some("sword"));
            assert_eq!(availability, "away");
        }
        other => panic!("unexpected {other:?}"),
    }
    let (p, a) = run(p, Event::StatusUpdated(true), &c);
    assert!(matches!(a, Action::RemoveBackup));
    let (p, a) = run(p, Event::BackupRemoved, &c);
    assert!(matches!(p, Phase::Finished));
    assert!(matches!(a, Action::Finish(Outcome::Restored { ref availability }) if availability == "away"));
}

#[test]
fn end_keeps_the_backup_when_restoring_fails() {
    let c = config(false);
    let (p, _) = meeting_end();
    let (p, a) = run(p, Event::BackupExists(true), &c);
    assert!(matches!(a, Action::ReadBackup));
    let (p, a) = run(p, Event::BackupRead(Some("{}".to_string())), &c);
    assert!(matches!(&a, Action::UpdateStatus { availability, .. } if availability == "online"));
    let (_, a) = run(p, Event::StatusUpdated(false), &c);
    assert!(matches!(a, Action::Finish(Outcome::RestoreFailed)));
}

#[test]
fn end_removes_the_backup_of_an_offline_user() {
    let c = config(true);
    let (p, _) = meeting_end();
    let (p, _) = run(p, Event::BackupExists(true), &c);
    let (p, a) = run(p, Event::UserOffline(true), &c);
    assert!(matches!(a, Action::RemoveBackup));
    let (_, a) = run(p, Event::BackupRemoved, &c);
    assert!(matches!(a, Action::Finish(Outcome::RestoreSkippedOffline)));
}

#[test]
fn end_without_backup_or_with_a_broken_one() {
    let c = config(false);
    let (p, _) = meeting_end();
    let (_, a) = run(p, Event::BackupExists(false), &c);
    assert!(matches!(a, Action::Finish(Outcome::NoBackup)));

    let (p, _) = meeting_end();
    let (p, _) = run(p, Event::BackupExists(true), &c);
    let (_, a) = run(p, Event::BackupRead(None), &c);
    assert!(matches!(a, Action::Finish(Outcome::BackupReadFailed)));

    let (p, _) = meeting_end();
    let (p, _) = run(p, Event::BackupExists(true), &c);
    let (_, a) = run(p, Event::BackupRead(Some("{broken".to_string())), &c);
    assert!(matches!(a, Action::Finish(Outcome::BackupUnparsable)));
}

#[test]
fn phases_accept_only_their_answer() {
    let (p, _) = meeting_start();
    assert!(p.accepts(&Event::BackupExists(true)));
    assert!(!p.accepts(&Event::BackupRemoved));
    assert!(!Phase::Finished.accepts(&Event::BackupRemoved));
}

#[test]
fn a_meeting_brings_the_status_back_when_it_ends() {
    let c = config(false);
    let (p, _) = meeting_start();
    let (p, _) = run(p, Event::BackupExists(false), &c);
    let current = current_state_from(
        Some(r#"{"emoji":"palm_tree","text":"On holiday ","expires_at":"2030-01-01T00:00:00Z","duration":{"days":[1,2.5,null]}}"#),
        Some("away"),
    );
    let (p, a) = run(p, Event::CurrentState(Some(current)), &c);
    let saved = match a {
        Action::WriteBackup(t) => t,
        other => panic!("unexpected {other:?}"),
    };
    assert_eq!(backup_member(&saved, "duration")["days"][1], 2.5);
    let (p, _) = run(p, Event::BackupWritten(true), &c);
    let (_, a) = run(p, Event::StatusUpdated(true), &c);
    assert!(matches!(a, Action::Finish(Outcome::MeetingStatusSet)));

    let (p, _) = meeting_end();
    let (p, _) = run(p, Event::BackupExists(true), &c);
    let (_, a) = run(p, Event::BackupRead(Some(saved)), &c);
    match a {
        Action::UpdateStatus { status, availability } => {
            assert_eq!(availability, "away");
            assert_eq!(status.str_member("emoji").as_deref(), Some("palm_tree"));
            assert_eq!(status.str_member("text").as_deref(), Some("On holiday "));
            assert_eq!(status.str_member("expires_at").as_deref(), Some("2030-01-01T00:00:00Z"));
            assert_eq!(status.str_member("duration"), None);
        }
        other => panic!("unexpected {other:?}"),
    }
}
