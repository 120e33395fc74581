//! The decisions taken on each look at the camera, as a state machine.
//!
//! When the camera is on, a meeting starts: unless a backup already exists
//! (the meeting was already marked) or the user is offline and offline users
//! are left alone, the current status is saved to the backup file, and only
//! once it is saved is the meeting status set.  When the camera is off, a
//! meeting ends: when a backup exists, the status it holds is restored and
//! the backup removed, or, for an offline user left alone, the backup is just
//! removed.
//!
//! The caller runs the machine: it performs each `Action`, answers with the
//! matching `Event`, and stops at `Action::Finish`.
use vstd::prelude::*;

use crate::config::Config;
use crate::json::{
    json_text, keys_distinct, lookup, parse_json, reads_back_as, spec_parse_json, str_member,
    JsonDoc, MembersView,
};
use crate::status::{
    availability_to_restore, blank_status_with, lemma_blank_keys_distinct, saved_availability, shown,
    state_from_parsed,
};
use crate::text::{
    build_meeting_text, is_whitespace, lemma_meeting_text_marks_once, meeting_text, occurs_in,
};

verus! {

/// Where a run of the machine stands: the answer it waits for.
#[derive(Debug)]
pub enum Phase {
    /// Meeting start: does the backup exist?
    StartAwaitBackupCheck,
    /// Meeting start: is the user offline?
    StartAwaitOfflineCheck,
    /// Meeting start: the current status.
    StartAwaitCurrentState,
    /// Meeting start: was the backup written?  Holds the meeting text.
    StartAwaitBackupWrite { new_text: String },
    /// Meeting start: was the meeting status set?
    StartAwaitStatusUpdate,
    /// Meeting end: does the backup exist?
    EndAwaitBackupCheck,
    /// Meeting end: is the user offline?
    EndAwaitOfflineCheck,
    /// Meeting end, user offline: the backup was removed.
    EndAwaitOfflineRemoval,
    /// Meeting end: the backup's content.
    EndAwaitBackupRead,
    /// Meeting end: was the saved status restored?  Holds its availability.
    EndAwaitRestore { availability: String },
    /// Meeting end: the backup was removed.  Holds the restored availability.
    EndAwaitBackupRemoval { availability: String },
    /// The run is over.
    Finished,
}

/// What the caller is asked to do next.
#[derive(Debug)]
pub enum Action {
    /// Tell whether the backup file exists.
    CheckBackup,
    /// Tell whether the user is offline.
    CheckOffline,
    /// Fetch the current status.
    FetchCurrentState,
    /// Write this JSON text, the status to save, to the backup file.
    WriteBackup(String),
    /// Set this status with this availability.
    UpdateStatus { status: JsonDoc, availability: String },
    /// Read the backup file.
    ReadBackup,
    /// Remove the backup file.
    RemoveBackup,
    /// Stop: the run ended this way.
    Finish(Outcome),
}

/// How a run ended.
#[derive(Debug)]
pub enum Outcome {
    /// Meeting start: a backup exists, the meeting is already marked.
    AlreadyMarked,
    /// Meeting start: the user is offline; nothing was changed.
    SkippedOffline,
    /// Meeting start: the backup could not be written; nothing was changed.
    BackupWriteFailed,
    /// Meeting start: the meeting status is set.
    MeetingStatusSet,
    /// Meeting start: setting the meeting status failed.
    MeetingStatusFailed,
    /// Meeting end: no backup, nothing to restore.
    NoBackup,
    /// Meeting end: the user is offline; the backup was removed, the status
    /// left as it is.
    RestoreSkippedOffline,
    /// Meeting end: the backup could not be read.
    BackupReadFailed,
    /// Meeting end: the backup holds no JSON; it is left in place.
    BackupUnparsable,
    /// Meeting end: the saved status, with this availability, is back and the
    /// backup removed.
    Restored { availability: String },
    /// Meeting end: restoring the status failed; the backup is kept.
    RestoreFailed,
}

/// What the caller answers.
#[derive(Debug)]
pub enum Event {
    /// The backup file exists, or not.
    BackupExists(bool),
    /// The user is offline, or not.
    UserOffline(bool),
    /// The current status, or `None` when it could not be fetched.
    CurrentState(Option<JsonDoc>),
    /// The backup was written, or not.
    BackupWritten(bool),
    /// The status was set, or not.
    StatusUpdated(bool),
    /// The backup's content, or `None` when it could not be read.
    BackupRead(Option<String>),
    /// The backup removal was attempted.
    BackupRemoved,
}

// ---------------------------------------------------------------------------
// Specifications
// ---------------------------------------------------------------------------

/// The phase waits for this kind of event.
pub open spec fn accepts_spec(p: Phase, e: Event) -> bool {
    match p {
        Phase::StartAwaitBackupCheck | Phase::EndAwaitBackupCheck => e is BackupExists,
        Phase::StartAwaitOfflineCheck | Phase::EndAwaitOfflineCheck => e is UserOffline,
        Phase::StartAwaitCurrentState => e is CurrentState,
        Phase::StartAwaitBackupWrite { .. } => e is BackupWritten,
        Phase::StartAwaitStatusUpdate | Phase::EndAwaitRestore { .. } => e is StatusUpdated,
        Phase::EndAwaitOfflineRemoval | Phase::EndAwaitBackupRemoval { .. } => e is BackupRemoved,
        Phase::EndAwaitBackupRead => e is BackupRead,
        Phase::Finished => false,
    }
}

/// The event is the answer to the action.
pub open spec fn answers(a: Action, e: Event) -> bool {
    match a {
        Action::CheckBackup => e is BackupExists,
        Action::CheckOffline => e is UserOffline,
        Action::FetchCurrentState => e is CurrentState,
        Action::WriteBackup(_) => e is BackupWritten,
        Action::UpdateStatus { .. } => e is StatusUpdated,
        Action::ReadBackup => e is BackupRead,
        Action::RemoveBackup => e is BackupRemoved,
        Action::Finish(_) => false,
    }
}

/// The status saved when the current one could not be fetched: a blank
/// custom status, online.
pub open spec fn fallback_state() -> Option<MembersView> {
    blank_status_with("online"@)
}

/// The status saved at the start of a meeting: the one fetched, or the
/// fallback when none could be.
pub open spec fn saved_state(fetched: Option<JsonDoc>) -> Option<MembersView> {
    match fetched {
        Some(d) => d@,
        None => fallback_state(),
    }
}

/// The status set during a meeting: the `meet` emoji with the meeting text.
pub open spec fn meeting_state(new_text: Seq<char>) -> Option<MembersView> {
    Some(seq![("emoji"@, Some("meet"@)), ("text"@, Some(new_text))])
}

/// The meeting text made from the text of a saved status.
pub open spec fn new_text_for(saved: Option<MembersView>, c: Config) -> Seq<char> {
    let old = match str_member(saved, "text"@) {
        Some(t) => t,
        None => Seq::empty(),
    };
    meeting_text(old, c.meeting_message@)
}

/// One step: from phase `p`, on event `e`, with settings `c`, the machine goes
/// to phase `np` and asks for action `a`.
pub open spec fn next(p: Phase, e: Event, c: Config, np: Phase, a: Action) -> bool {
    match (p, e) {
        (Phase::StartAwaitBackupCheck, Event::BackupExists(exists)) => if exists {
            np is Finished && a == Action::Finish(Outcome::AlreadyMarked)
        } else if c.ignore_if_offline {
            np is StartAwaitOfflineCheck && a is CheckOffline
        } else {
            np is StartAwaitCurrentState && a is FetchCurrentState
        },
        (Phase::StartAwaitOfflineCheck, Event::UserOffline(offline)) => if offline {
            np is Finished && a == Action::Finish(Outcome::SkippedOffline)
        } else {
            np is StartAwaitCurrentState && a is FetchCurrentState
        },
        (Phase::StartAwaitCurrentState, Event::CurrentState(fetched)) => {
            &&& a matches Action::WriteBackup(t) && reads_back_as(saved_state(fetched), t@)
            &&& np matches Phase::StartAwaitBackupWrite { new_text } && new_text@ == new_text_for(
                saved_state(fetched),
                c,
            )
        },
        (Phase::StartAwaitBackupWrite { new_text }, Event::BackupWritten(written)) => if written {
            &&& np is StartAwaitStatusUpdate
            &&& a matches Action::UpdateStatus { status, availability } && status@ == meeting_state(
                new_text@,
            ) && availability@ == c.meeting_status@
        } else {
            np is Finished && a == Action::Finish(Outcome::BackupWriteFailed)
        },
        (Phase::StartAwaitStatusUpdate, Event::StatusUpdated(ok)) => np is Finished && if ok {
            a == Action::Finish(Outcome::MeetingStatusSet)
        } else {
            a == Action::Finish(Outcome::MeetingStatusFailed)
        },
        (Phase::EndAwaitBackupCheck, Event::BackupExists(exists)) => if !exists {
            np is Finished && a == Action::Finish(Outcome::NoBackup)
        } else if c.ignore_if_offline {
            np is EndAwaitOfflineCheck && a is CheckOffline
        } else {
            np is EndAwaitBackupRead && a is ReadBackup
        },
        (Phase::EndAwaitOfflineCheck, Event::UserOffline(offline)) => if offline {
            np is EndAwaitOfflineRemoval && a is RemoveBackup
        } else {
            np is EndAwaitBackupRead && a is ReadBackup
        },
        (Phase::EndAwaitOfflineRemoval, Event::BackupRemoved) => np is Finished && a
            == Action::Finish(Outcome::RestoreSkippedOffline),
        (Phase::EndAwaitBackupRead, Event::BackupRead(content)) => match content {
            None => np is Finished && a == Action::Finish(Outcome::BackupReadFailed),
            Some(text) => match spec_parse_json(text@) {
                None => np is Finished && a == Action::Finish(Outcome::BackupUnparsable),
                Some(saved) => {
                    &&& a matches Action::UpdateStatus { status, availability } && status@
                        == saved && availability@ == saved_availability(saved)
                    &&& np matches Phase::EndAwaitRestore { availability } && availability@
                        == saved_availability(saved)
                },
            },
        },
        (Phase::EndAwaitRestore { availability }, Event::StatusUpdated(ok)) => if ok {
            &&& a is RemoveBackup
            &&& np matches Phase::EndAwaitBackupRemoval { availability: kept } && kept
                == availability
        } else {
            np is Finished && a == Action::Finish(Outcome::RestoreFailed)
        },
        (Phase::EndAwaitBackupRemoval { availability }, Event::BackupRemoved) => np is Finished
            && a == Action::Finish(Outcome::Restored { availability }),
        _ => false,
    }
}

/// How far a phase is from the end of its run.
pub open spec fn rank(p: Phase) -> nat {
    match p {
        Phase::StartAwaitBackupCheck => 5,
        Phase::StartAwaitOfflineCheck => 4,
        Phase::StartAwaitCurrentState => 3,
        Phase::StartAwaitBackupWrite { .. } => 2,
        Phase::StartAwaitStatusUpdate => 1,
        Phase::EndAwaitBackupCheck => 6,
        Phase::EndAwaitOfflineCheck => 5,
        Phase::EndAwaitOfflineRemoval => 1,
        Phase::EndAwaitBackupRead => 4,
        Phase::EndAwaitRestore { .. } => 3,
        Phase::EndAwaitBackupRemoval { .. } => 2,
        Phase::Finished => 0,
    }
}

/// The phase belongs to the run that starts a meeting.
pub open spec fn is_start_phase(p: Phase) -> bool {
    p is StartAwaitBackupCheck || p is StartAwaitOfflineCheck || p is StartAwaitCurrentState
        || p is StartAwaitBackupWrite || p is StartAwaitStatusUpdate
}

// ---------------------------------------------------------------------------
// Laws
// ---------------------------------------------------------------------------

/// Every step brings the run closer to its end, the run ends exactly when
/// `Finish` is asked for, and the next phase waits for exactly the answer to
/// the action asked for: a caller that answers each action never gets stuck.
pub proof fn lemma_step_progress(p: Phase, e: Event, c: Config, np: Phase, a: Action)
    requires
        next(p, e, c, np, a),
    ensures
        rank(np) < rank(p),
        np is Finished <==> a is Finish,
        forall|e2: Event| #[trigger] accepts_spec(np, e2) <==> answers(a, e2),
{
}

/// The phases of a run in which an offline user is left alone.
pub open spec fn leaves_user_alone(p: Phase) -> bool {
    p is Finished || p is EndAwaitOfflineRemoval
}

/// Once the user is found offline, the run never sets a status: it ends, at
/// most removing the backup.
pub proof fn lemma_offline_user_left_alone(p: Phase, e: Event, c: Config, np: Phase, a: Action)
    requires
        next(p, e, c, np, a),
        e == Event::UserOffline(true) || leaves_user_alone(p),
    ensures
        !(a is UpdateStatus),
        !(a is WriteBackup),
        leaves_user_alone(np),
{
}

/// When a meeting starts, the status is changed only right after the backup
/// was written successfully.
pub proof fn lemma_meeting_status_after_backup(
    p: Phase,
    e: Event,
    c: Config,
    np: Phase,
    a: Action,
)
    requires
        next(p, e, c, np, a),
        is_start_phase(p),
        a is UpdateStatus,
    ensures
        p is StartAwaitBackupWrite,
        e == Event::BackupWritten(true),
{
}

/// The backup is removed only once the saved status was restored, or when an
/// offline user is left alone.
pub proof fn lemma_backup_removed_after_restore(
    p: Phase,
    e: Event,
    c: Config,
    np: Phase,
    a: Action,
)
    requires
        next(p, e, c, np, a),
        a is RemoveBackup,
    ensures
        (p is EndAwaitRestore && e == Event::StatusUpdated(true)) || (p is EndAwaitOfflineCheck
            && e == Event::UserOffline(true)),
{
}

/// When a meeting ends, the status set is the one read from the backup, with
/// the availability it saved.
pub proof fn lemma_restore_uses_backup(
    text: String,
    c: Config,
    np: Phase,
    a: Action,
)
    requires
        next(Phase::EndAwaitBackupRead, Event::BackupRead(Some(text)), c, np, a),
        spec_parse_json(text@) is Some,
    ensures
        a matches Action::UpdateStatus { status, availability } && status@ == spec_parse_json(
            text@,
        )->0 && availability@ == saved_availability(status@),
{
}

/// The backup written when a meeting starts holds the saved status: its text
/// parses back to a document with the saved status's shape and, member by
/// member, its keys and string values.  Every status the library fetches
/// (`current_state_from`) and the fallback have distinct keys.
pub proof fn lemma_backup_holds_saved_state(
    fetched: Option<JsonDoc>,
    c: Config,
    np: Phase,
    text: String,
)
    requires
        next(Phase::StartAwaitCurrentState, Event::CurrentState(fetched), c, np, Action::WriteBackup(text)),
        fetched matches Some(d) ==> keys_distinct(d@),
    ensures
        spec_parse_json(text@) matches Some(p) && (p is None <==> saved_state(fetched) is None) && (
        saved_state(fetched) matches Some(m) ==> forall|k: Seq<char>|
            #[trigger] lookup(p->0, k) == lookup(m, k)),
{
    lemma_fallback_keys_distinct();
}

/// A meeting gives back the status it found: when the backup text that the
/// start of a meeting wrote is what its end reads, the end sets again the
/// text, emoji and availability that were saved.
pub proof fn lemma_backup_round_trip(
    fetched: Option<JsonDoc>,
    c: Config,
    np: Phase,
    text: String,
    c2: Config,
    np2: Phase,
    a2: Action,
)
    requires
        next(Phase::StartAwaitCurrentState, Event::CurrentState(fetched), c, np, Action::WriteBackup(text)),
        fetched matches Some(d) ==> keys_distinct(d@),
        next(Phase::EndAwaitBackupRead, Event::BackupRead(Some(text)), c2, np2, a2),
    ensures
        a2 matches Action::UpdateStatus { status, availability } && {
            &&& availability@ == saved_availability(saved_state(fetched))
            &&& shown(status@, "text"@) == shown(saved_state(fetched), "text"@)
            &&& shown(status@, "emoji"@) == shown(saved_state(fetched), "emoji"@)
        },
{
    lemma_backup_holds_saved_state(fetched, c, np, text);
    let saved = saved_state(fetched);
    let p = spec_parse_json(text@)->0;
    if let Some(m) = saved {
        let pm = p->0;
        assert(lookup(pm, "availability"@) == lookup(m, "availability"@));
        assert(lookup(pm, "text"@) == lookup(m, "text"@));
        assert(lookup(pm, "emoji"@) == lookup(m, "emoji"@));
    }
}

/// Once the backup is written at a meeting's start, the status asked for is
/// the `meet` emoji with the meeting text, and the availability asked for is
/// the meeting status of the settings the step was given.
pub proof fn lemma_meeting_status_is_configured(new_text: String, c: Config, np: Phase, a: Action)
    requires
        next(Phase::StartAwaitBackupWrite { new_text }, Event::BackupWritten(true), c, np, a),
    ensures
        a matches Action::UpdateStatus { status, availability } && {
            &&& availability@ == c.meeting_status@
            &&& str_member(status@, "emoji"@) == Some("meet"@)
            &&& str_member(status@, "text"@) == Some(new_text@)
        },
{
    reveal_strlit("emoji");
    reveal_strlit("text");
    let m = meeting_state(new_text@)->0;
    assert("emoji"@.len() != "text"@.len());
    assert(m[0].0 == "emoji"@);
    assert(lookup(m, "emoji"@) == Some(Some("meet"@)));
    assert(m.drop_first()[0] == m[1]);
    assert(lookup(m.drop_first(), "text"@) == Some(Some(new_text@)));
    assert(lookup(m, "text"@) == Some(Some(new_text@)));
}

/// The meeting text prepared when the current status arrives is the saved
/// text when it already shows the meeting message; otherwise, for a message
/// with no whitespace at either end, it shows the message.
pub proof fn lemma_meeting_text_prepared(fetched: Option<JsonDoc>, c: Config, np: Phase, a: Action)
    requires
        next(Phase::StartAwaitCurrentState, Event::CurrentState(fetched), c, np, a),
    ensures
        np matches Phase::StartAwaitBackupWrite { new_text } && {
            let old = match str_member(saved_state(fetched), "text"@) {
                Some(t) => t,
                None => Seq::empty(),
            };
            &&& occurs_in(c.meeting_message@, old) ==> new_text@ == old
            &&& (c.meeting_message@.len() > 0 && !is_whitespace(c.meeting_message@[0])
                && !is_whitespace(c.meeting_message@.last())) ==> occurs_in(
                c.meeting_message@,
                new_text@,
            )
        },
{
    let old = match str_member(saved_state(fetched), "text"@) {
        Some(t) => t,
        None => Seq::empty(),
    };
    if c.meeting_message@.len() > 0 && !is_whitespace(c.meeting_message@[0])
        && !is_whitespace(c.meeting_message@.last()) {
        lemma_meeting_text_marks_once(old, c.meeting_message@);
    }
}

/// The status saved when none could be fetched has an empty text and emoji
/// and is online.
pub proof fn lemma_fallback_state()
    ensures
        str_member(fallback_state(), "text"@) == Some(Seq::<char>::empty()),
        str_member(fallback_state(), "emoji"@) == Some(Seq::<char>::empty()),
        str_member(fallback_state(), "availability"@) == Some("online"@),
{
    let m = fallback_state()->0;
    reveal_strlit("emoji");
    reveal_strlit("text");
    reveal_strlit("availability");
    assert("emoji"@.len() != "text"@.len());
    assert("emoji"@.len() != "availability"@.len());
    assert("text"@.len() != "availability"@.len());
    assert(m[0].0 == "emoji"@);
    assert(lookup(m, "emoji"@) == Some(Some(Seq::<char>::empty())));
    let m1 = m.drop_first();
    assert(m1[0] == m[1]);
    assert(lookup(m1, "text"@) == Some(Some(Seq::<char>::empty())));
    let m2 = m1.drop_first();
    assert(m2[0] == m[2]);
    assert(lookup(m2, "availability"@) == Some(Some("online"@)));
    assert(lookup(m1, "availability"@) == lookup(m2, "availability"@));
}

/// The fallback status has distinct keys.
pub proof fn lemma_fallback_keys_distinct()
    ensures
        keys_distinct(fallback_state()),
{
    lemma_blank_keys_distinct("online"@);
}

// ---------------------------------------------------------------------------
// Executable
// ---------------------------------------------------------------------------

/// The first step of the run when the camera is on.
pub fn meeting_start() -> (r: (Phase, Action))
    ensures
        r.0 is StartAwaitBackupCheck,
        r.1 is CheckBackup,
{
    (Phase::StartAwaitBackupCheck, Action::CheckBackup)
}

/// The first step of the run when the camera is off.
pub fn meeting_end() -> (r: (Phase, Action))
    ensures
        r.0 is EndAwaitBackupCheck,
        r.1 is CheckBackup,
{
    (Phase::EndAwaitBackupCheck, Action::CheckBackup)
}

impl Phase {
    /// Whether the phase waits for this kind of event.
    pub fn accepts(&self, e: &Event) -> (b: bool)
        ensures
            b == accepts_spec(*self, *e),
    {
        match self {
            Phase::StartAwaitBackupCheck | Phase::EndAwaitBackupCheck => matches!(e, Event::BackupExists(_)),
            Phase::StartAwaitOfflineCheck | Phase::EndAwaitOfflineCheck => matches!(e, Event::UserOffline(_)),
            Phase::StartAwaitCurrentState => matches!(e, Event::CurrentState(_)),
            Phase::StartAwaitBackupWrite { .. } => matches!(e, Event::BackupWritten(_)),
            Phase::StartAwaitStatusUpdate | Phase::EndAwaitRestore { .. } => matches!(e, Event::StatusUpdated(_)),
            Phase::EndAwaitOfflineRemoval | Phase::EndAwaitBackupRemoval { .. } => matches!(e, Event::BackupRemoved),
            Phase::EndAwaitBackupRead => matches!(e, Event::BackupRead(_)),
            Phase::Finished => false,
        }
    }
}

/// The status saved when the current one could not be fetched.
fn fallback_doc() -> (d: JsonDoc)
    ensures
        d@ == fallback_state(),
{
    state_from_parsed(None, None)
}

/// Takes one step of the machine.
pub fn step(p: Phase, e: Event, c: &Config) -> (r: (Phase, Action))
    requires
        accepts_spec(p, e),
    ensures
        next(p, e, *c, r.0, r.1),
{
    match p {
        Phase::StartAwaitBackupCheck => {
            let exists = match e {
                Event::BackupExists(b) => b,
                _ => false,
            };
            if exists {
                (Phase::Finished, Action::Finish(Outcome::AlreadyMarked))
            } else if c.ignore_if_offline {
                (Phase::StartAwaitOfflineCheck, Action::CheckOffline)
            } else {
                (Phase::StartAwaitCurrentState, Action::FetchCurrentState)
            }
        },
        Phase::StartAwaitOfflineCheck => {
            let offline = match e {
                Event::UserOffline(b) => b,
                _ => false,
            };
            if offline {
                (Phase::Finished, Action::Finish(Outcome::SkippedOffline))
            } else {
                (Phase::StartAwaitCurrentState, Action::FetchCurrentState)
            }
        },
        Phase::StartAwaitCurrentState => {
            let saved = match e {
                Event::CurrentState(Some(d)) => d,
                _ => fallback_doc(),
            };
            let old_text = match saved.str_member("text") {
                Some(t) => t,
                None => String::new(),
            };
            let new_text = build_meeting_text(old_text.as_str(), c.meeting_message.as_str());
            let text = json_text(saved);
            (Phase::StartAwaitBackupWrite { new_text }, Action::WriteBackup(text))
        },
        Phase::StartAwaitBackupWrite { new_text } => {
            let written = match e {
                Event::BackupWritten(b) => b,
                _ => false,
            };
            if written {
                let status = JsonDoc::status(String::from_str("meet"), new_text);
                (
                    Phase::StartAwaitStatusUpdate,
                    Action::UpdateStatus { status, availability: c.meeting_status.clone() },
                )
            } else {
                (Phase::Finished, Action::Finish(Outcome::BackupWriteFailed))
            }
        },
        Phase::StartAwaitStatusUpdate => {
            let ok = match e {
                Event::StatusUpdated(b) => b,
                _ => false,
            };
            if ok {
                (Phase::Finished, Action::Finish(Outcome::MeetingStatusSet))
            } else {
                (Phase::Finished, Action::Finish(Outcome::MeetingStatusFailed))
            }
        },
        Phase::EndAwaitBackupCheck => {
            let exists = match e {
                Event::BackupExists(b) => b,
                _ => false,
            };
            if !exists {
                (Phase::Finished, Action::Finish(Outcome::NoBackup))
            } else if c.ignore_if_offline {
                (Phase::EndAwaitOfflineCheck, Action::CheckOffline)
            } else {
                (Phase::EndAwaitBackupRead, Action::ReadBackup)
            }
        },
        Phase::EndAwaitOfflineCheck => {
            let offline = match e {
                Event::UserOffline(b) => b,
                _ => false,
            };
            if offline {
                (Phase::EndAwaitOfflineRemoval, Action::RemoveBackup)
            } else {
                (Phase::EndAwaitBackupRead, Action::ReadBackup)
            }
        },
        Phase::EndAwaitOfflineRemoval => (
            Phase::Finished,
            Action::Finish(Outcome::RestoreSkippedOffline),
        ),
        Phase::EndAwaitBackupRead => {
            let content = match e {
                Event::BackupRead(c) => c,
                _ => None,
            };
            match content {
                None => (Phase::Finished, Action::Finish(Outcome::BackupReadFailed)),
                Some(text) => match parse_json(text.as_str()) {
                    None => (Phase::Finished, Action::Finish(Outcome::BackupUnparsable)),
                    Some(saved) => {
                        let availability = availability_to_restore(&saved);
                        let kept = availability.clone();
                        (
                            Phase::EndAwaitRestore { availability: kept },
                            Action::UpdateStatus { status: saved, availability },
                        )
                    },
                },
            }
        },
        Phase::EndAwaitRestore { availability } => {
            let ok = match e {
                Event::StatusUpdated(b) => b,
                _ => false,
            };
            if ok {
                (Phase::EndAwaitBackupRemoval { availability }, Action::RemoveBackup)
            } else {
                (Phase::Finished, Action::Finish(Outcome::RestoreFailed))
            }
        },
        Phase::EndAwaitBackupRemoval { availability } => (
            Phase::Finished,
            Action::Finish(Outcome::Restored { availability }),
        ),
        // A finished run accepts no event, so `requires` rules this arm out.
        Phase::Finished => (Phase::Finished, Action::Finish(Outcome::NoBackup)),
    }
}

} // verus!
