//! The daemon's settings, read from `snapctl get`, and their validation.
use vstd::prelude::*;
use vstd::utf8::{decode_utf8, valid_utf8};

use crate::number::{parse_unsigned, parse_unsigned_spec};
use crate::text::{folds_to, text_folds_to, trim, trim_text};

verus! {

/// The settings the daemon runs with.
#[derive(Debug)]
pub struct Config {
    /// Base URL of the Mattermost server.
    pub url: String,
    /// Personal access token.
    pub token: String,
    /// Id of the user whose status is kept in step.
    pub user_id: String,
    /// Seconds between two looks at the camera (at least 10).
    pub sleep_seconds: u64,
    /// Text appended to the custom status during a meeting.
    pub meeting_message: String,
    /// Availability set during a meeting: `online`, `away`, `dnd` or `offline`.
    pub meeting_status: String,
    /// Leave the status alone while the user is offline.
    pub ignore_if_offline: bool,
}

/// Why a setting could not be read.
#[derive(Debug)]
pub enum ConfigError {
    /// `snapctl` could not be run at all.
    SnapctlUnavailable { key: String },
    /// `snapctl` gave an empty value for a required key.
    EmptyValue { key: String },
    /// `snapctl` failed; what it wrote to standard error.
    SnapctlFailed { stderr: String },
    /// A status that is none of `online`, `away`, `dnd`, `offline`.
    InvalidStatus { status: String },
}

/// What a run of `snapctl get <key>` gave back.
#[derive(Debug)]
pub struct CommandOutput {
    /// The process exited successfully.
    pub success: bool,
    /// Its standard output.
    pub stdout: Vec<u8>,
    /// Its standard error.
    pub stderr: Vec<u8>,
}

/// A setting that must be given.
#[derive(Debug)]
pub enum RequiredSetting {
    /// `url`.
    Url,
    /// `token`.
    Token,
    /// `user-id`.
    UserId,
}

/// A setting with a default.
#[derive(Debug)]
pub enum OptionalSetting {
    /// `sleep-seconds`, by default `300`.
    SleepSeconds,
    /// `meeting-message`, by default ` [In a meeting]`.
    MeetingMessage,
    /// `meeting-status`, by default `dnd`.
    MeetingStatus,
    /// `ignore-if-offline`, by default `true`.
    IgnoreIfOffline,
}

/// Why the `sleep-seconds` setting was not taken as it is.
#[derive(Debug)]
pub enum SleepWarning {
    /// It is no number; the default is used.
    NotANumber,
    /// It is below the minimum, which is used instead.
    TooLow { seconds: u64 },
}

/// The smallest interval between two looks at the camera.
pub const MIN_SLEEP_SECONDS: u64 = 10;

/// The interval used when the setting is not a number.
pub const DEFAULT_SLEEP_SECONDS: u64 = 300;

/// The interval of the first look at the camera when the settings cannot be
/// read at start-up.
pub const FIRST_INTERVAL_WITHOUT_CONFIG: u64 = 60;

// ---------------------------------------------------------------------------
// Specifications
// ---------------------------------------------------------------------------

/// The text of an error, as the daemon reports it.
pub open spec fn error_message(e: ConfigError) -> Seq<char> {
    match e {
        ConfigError::SnapctlUnavailable { key } => "Failed to call snapctl for key: "@ + key@,
        ConfigError::EmptyValue { key } => "'"@ + key@ + "' is empty."@,
        ConfigError::SnapctlFailed { stderr } => "snapctl error: "@ + stderr@,
        ConfigError::InvalidStatus { status } => "Invalid status '"@ + status@
            + "'. Must be one of: online, away, dnd, offline"@,
    }
}

/// The availability named by `s`, ignoring ASCII case, if it names one.
pub open spec fn status_word(s: Seq<char>) -> Option<Seq<char>> {
    if folds_to(s, "online"@) {
        Some("online"@)
    } else if folds_to(s, "away"@) {
        Some("away"@)
    } else if folds_to(s, "dnd"@) {
        Some("dnd"@)
    } else if folds_to(s, "offline"@) {
        Some("offline"@)
    } else {
        None
    }
}

/// The four availabilities Mattermost knows.
pub open spec fn is_availability(s: Seq<char>) -> bool {
    s == "online"@ || s == "away"@ || s == "dnd"@ || s == "offline"@
}

/// The interval a `sleep-seconds` setting gives: its number, raised to the
/// minimum, or the default when it is no number.
pub open spec fn sleep_seconds_for(s: Seq<char>) -> u64 {
    match parse_unsigned_spec(s, u64::MAX as nat) {
        Some(n) => if n < MIN_SLEEP_SECONDS {
            MIN_SLEEP_SECONDS
        } else {
            n as u64
        },
        None => DEFAULT_SLEEP_SECONDS,
    }
}

/// The meeting availability a `meeting-status` setting gives, `dnd` when it
/// names none.
pub open spec fn meeting_status_for(s: Seq<char>) -> Seq<char> {
    match status_word(s) {
        Some(w) => w,
        None => "dnd"@,
    }
}

/// The `snapctl` key of a required setting.
pub open spec fn required_key(s: RequiredSetting) -> Seq<char> {
    match s {
        RequiredSetting::Url => "url"@,
        RequiredSetting::Token => "token"@,
        RequiredSetting::UserId => "user-id"@,
    }
}

/// The `snapctl` key of an optional setting.
pub open spec fn optional_key(s: OptionalSetting) -> Seq<char> {
    match s {
        OptionalSetting::SleepSeconds => "sleep-seconds"@,
        OptionalSetting::MeetingMessage => "meeting-message"@,
        OptionalSetting::MeetingStatus => "meeting-status"@,
        OptionalSetting::IgnoreIfOffline => "ignore-if-offline"@,
    }
}

/// The default of an optional setting.
pub open spec fn optional_default(s: OptionalSetting) -> Seq<char> {
    match s {
        OptionalSetting::SleepSeconds => "300"@,
        OptionalSetting::MeetingMessage => " [In a meeting]"@,
        OptionalSetting::MeetingStatus => "dnd"@,
        OptionalSetting::IgnoreIfOffline => "true"@,
    }
}

/// The value of an optional setting from what `snapctl` gave, if it ran.
pub open spec fn optional_value(output: Option<CommandOutput>, default: Seq<char>) -> Seq<char> {
    match output {
        Some(o) => if o.success && printed_value(o).len() > 0 {
            printed_value(o)
        } else {
            default
        },
        None => default,
    }
}

/// The text `String::from_utf8_lossy` makes of `bytes`.
pub uninterp spec fn spec_utf8_lossy(bytes: Seq<u8>) -> Seq<char>;

/// The value `snapctl` printed: its output as text, trimmed.
pub open spec fn printed_value(output: CommandOutput) -> Seq<char> {
    trim(spec_utf8_lossy(output.stdout@))
}

// ---------------------------------------------------------------------------
// Trusted
// ---------------------------------------------------------------------------

/// `String::from_utf8_lossy`.  Trusted: the result is the named result
/// `spec_utf8_lossy(bytes@)`, and for valid UTF-8 it is the decoded text, as
/// the documentation says.
#[verifier::external_body]
fn utf8_lossy(bytes: &[u8]) -> (s: String)
    ensures
        s@ == spec_utf8_lossy(bytes@),
        valid_utf8(bytes@) ==> s@ == decode_utf8(bytes@),
{
    String::from_utf8_lossy(bytes).into_owned()
}

// ---------------------------------------------------------------------------
// Executable
// ---------------------------------------------------------------------------

impl ConfigError {
    /// The text of the error.
    pub fn message(&self) -> (m: String)
        ensures
            m@ == error_message(*self),
    {
        match self {
            ConfigError::SnapctlUnavailable { key } => {
                let mut m = String::from_str("Failed to call snapctl for key: ");
                m.append(key.as_str());
                m
            },
            ConfigError::EmptyValue { key } => {
                let mut m = String::from_str("'");
                m.append(key.as_str());
                m.append("' is empty.");
                m
            },
            ConfigError::SnapctlFailed { stderr } => {
                let mut m = String::from_str("snapctl error: ");
                m.append(stderr.as_str());
                m
            },
            ConfigError::InvalidStatus { status } => {
                let mut m = String::from_str("Invalid status '");
                m.append(status.as_str());
                m.append("'. Must be one of: online, away, dnd, offline");
                m
            },
        }
    }
}

impl Config {
    /// Checks a Mattermost availability, ignoring case; gives it back in lower
    /// case.
    pub fn validate_mattermost_status(status: &str) -> (r: Result<String, ConfigError>)
        ensures
            r is Ok <==> status_word(status@) is Some,
            r matches Ok(w) ==> Some(w@) == status_word(status@),
            r matches Err(e) ==> e matches ConfigError::InvalidStatus { status: s } && s@
                == status@,
    {
        if text_folds_to(status, "online") {
            Ok(String::from_str("online"))
        } else if text_folds_to(status, "away") {
            Ok(String::from_str("away"))
        } else if text_folds_to(status, "dnd") {
            Ok(String::from_str("dnd"))
        } else if text_folds_to(status, "offline") {
            Ok(String::from_str("offline"))
        } else {
            Err(ConfigError::InvalidStatus { status: String::from_str(status) })
        }
    }

    /// Reads the `sleep-seconds` setting: a number of seconds, raised to
    /// `MIN_SLEEP_SECONDS`, or `DEFAULT_SLEEP_SECONDS` when it is no number.
    pub fn validate_sleep_seconds(sleep_str: &str) -> (n: u64)
        ensures
            n == sleep_seconds_for(sleep_str@),
            n >= MIN_SLEEP_SECONDS,
    {
        match parse_unsigned(sleep_str, u64::MAX) {
            Some(seconds) => {
                if seconds < MIN_SLEEP_SECONDS {
                    MIN_SLEEP_SECONDS
                } else {
                    seconds
                }
            },
            None => DEFAULT_SLEEP_SECONDS,
        }
    }

    /// The value of a required setting from the output of `snapctl get key`.
    pub fn snap_setting(key: &str, output: &CommandOutput) -> (r: Result<String, ConfigError>)
        ensures
            output.success && printed_value(*output).len() > 0 <==> r is Ok,
            r matches Ok(v) ==> v@ == printed_value(*output),
            r matches Err(e) ==> if output.success {
                e matches ConfigError::EmptyValue { key: k } && k@ == key@
            } else {
                e matches ConfigError::SnapctlFailed { stderr } && stderr@ == spec_utf8_lossy(
                    output.stderr@,
                )
            },
    {
        if output.success {
            let text = utf8_lossy(output.stdout.as_slice());
            let value = trim_text(text.as_str());
            if value.as_str().unicode_len() == 0 {
                Err(ConfigError::EmptyValue { key: String::from_str(key) })
            } else {
                Ok(value)
            }
        } else {
            Err(ConfigError::SnapctlFailed { stderr: utf8_lossy(output.stderr.as_slice()) })
        }
    }

    /// The value of an optional setting: what `snapctl get` printed, when it
    /// ran, succeeded and printed something, else `default`.
    pub fn snap_setting_or(output: Option<&CommandOutput>, default: &str) -> (v: String)
        ensures
            v@ == optional_value(
                match output {
                    Some(o) => Some(*o),
                    None => None,
                },
                default@,
            ),
    {
        if let Some(o) = output {
            if o.success {
                let text = utf8_lossy(o.stdout.as_slice());
                let value = trim_text(text.as_str());
                if value.as_str().unicode_len() != 0 {
                    return value;
                }
            }
        }
        String::from_str(default)
    }

    /// The settings made of the values read: the interval and the meeting
    /// status are validated, falling back to their defaults, and
    /// `ignore-if-offline` holds when it reads `true` in any case.
    pub fn from_snap_values(
        url: String,
        token: String,
        user_id: String,
        sleep_str: &str,
        meeting_message: String,
        raw_status: &str,
        ignore_str: &str,
    ) -> (c: Config)
        ensures
            c.url@ == url@,
            c.token@ == token@,
            c.user_id@ == user_id@,
            c.sleep_seconds == sleep_seconds_for(sleep_str@),
            c.meeting_message@ == meeting_message@,
            c.meeting_status@ == meeting_status_for(raw_status@),
            c.ignore_if_offline == folds_to(ignore_str@, "true"@),
            c.sleep_seconds >= MIN_SLEEP_SECONDS,
            is_availability(c.meeting_status@),
    {
        let sleep_seconds = Self::validate_sleep_seconds(sleep_str);
        let meeting_status = match Self::validate_mattermost_status(raw_status) {
            Ok(valid_status) => valid_status,
            Err(_) => String::from_str("dnd"),
        };
        let ignore_if_offline = text_folds_to(ignore_str, "true");
        Config {
            url,
            token,
            user_id,
            sleep_seconds,
            meeting_message,
            meeting_status,
            ignore_if_offline,
        }
    }

    /// Why a `sleep-seconds` setting is not taken as it is, if it is not.
    pub fn sleep_seconds_warning(sleep_str: &str) -> (w: Option<SleepWarning>)
        ensures
            match parse_unsigned_spec(sleep_str@, u64::MAX as nat) {
                None => w matches Some(SleepWarning::NotANumber),
                Some(n) => if n < MIN_SLEEP_SECONDS {
                    w matches Some(SleepWarning::TooLow { seconds }) && seconds == n
                } else {
                    w is None
                },
            },
    {
        match parse_unsigned(sleep_str, u64::MAX) {
            None => Some(SleepWarning::NotANumber),
            Some(seconds) => if seconds < MIN_SLEEP_SECONDS {
                Some(SleepWarning::TooLow { seconds })
            } else {
                None
            },
        }
    }

    /// The interval before the first look at the camera: the configured one,
    /// or `FIRST_INTERVAL_WITHOUT_CONFIG` when the settings could not be read.
    pub fn first_interval(first_load: Option<&Config>) -> (n: u64)
        ensures
            n == match first_load {
                Some(c) => c.sleep_seconds,
                None => FIRST_INTERVAL_WITHOUT_CONFIG,
            },
    {
        match first_load {
            Some(c) => c.sleep_seconds,
            None => FIRST_INTERVAL_WITHOUT_CONFIG,
        }
    }
}

impl RequiredSetting {
    /// The `snapctl` key.
    pub fn key(&self) -> (k: &'static str)
        ensures
            k@ == required_key(*self),
    {
        match self {
            RequiredSetting::Url => "url",
            RequiredSetting::Token => "token",
            RequiredSetting::UserId => "user-id",
        }
    }
}

impl OptionalSetting {
    /// The `snapctl` key.
    pub fn key(&self) -> (k: &'static str)
        ensures
            k@ == optional_key(*self),
    {
        match self {
            OptionalSetting::SleepSeconds => "sleep-seconds",
            OptionalSetting::MeetingMessage => "meeting-message",
            OptionalSetting::MeetingStatus => "meeting-status",
            OptionalSetting::IgnoreIfOffline => "ignore-if-offline",
        }
    }

    /// The default value.
    pub fn default_value(&self) -> (d: &'static str)
        ensures
            d@ == optional_default(*self),
    {
        match self {
            OptionalSetting::SleepSeconds => "300",
            OptionalSetting::MeetingMessage => " [In a meeting]",
            OptionalSetting::MeetingStatus => "dnd",
            OptionalSetting::IgnoreIfOffline => "true",
        }
    }

    /// The value of the setting from what `snapctl get` gave, if it ran: the
    /// printed value, or the default when there is none.
    pub fn value_from(&self, output: Option<&CommandOutput>) -> (v: String)
        ensures
            v@ == optional_value(
                match output {
                    Some(o) => Some(*o),
                    None => None,
                },
                optional_default(*self),
            ),
    {
        Config::snap_setting_or(output, self.default_value())
    }
}

// ---------------------------------------------------------------------------
// Laws
// ---------------------------------------------------------------------------

/// With none of the optional settings given, the daemon looks at the camera
/// every 300 seconds, appends ` [In a meeting]`, sets `dnd` during meetings
/// and leaves offline users alone.
pub proof fn lemma_default_settings()
    ensures
        sleep_seconds_for(optional_default(OptionalSetting::SleepSeconds)) == DEFAULT_SLEEP_SECONDS,
        optional_default(OptionalSetting::MeetingMessage) == " [In a meeting]"@,
        meeting_status_for(optional_default(OptionalSetting::MeetingStatus)) == "dnd"@,
        folds_to(optional_default(OptionalSetting::IgnoreIfOffline), "true"@),
{
    reveal_strlit("300");
    reveal_strlit("dnd");
    reveal_strlit("online");
    reveal_strlit("away");
    reveal_strlit("true");
    let s = "300"@;
    assert(crate::number::unsigned_digits(s) == s);
    assert(s.drop_last().drop_last().drop_last() =~= Seq::<char>::empty());
    assert(crate::number::decimal_value(Seq::<char>::empty()) == 0);
    assert(s.drop_last().drop_last().last() == '3');
    assert(s.drop_last().last() == '0');
    assert(s.last() == '0');
    assert(('3' as u32) == 0x33 && ('0' as u32) == 0x30);
    assert(crate::number::decimal_value(s.drop_last().drop_last()) == 3);
    assert(crate::number::decimal_value(s.drop_last()) == 30);
    assert(crate::number::decimal_value(s) == 300);
    assert(!folds_to("dnd"@, "online"@));
    assert(!folds_to("dnd"@, "away"@));
    assert(folds_to("dnd"@, "dnd"@));
    assert(folds_to("true"@, "true"@));
}

/// A `meeting-status` setting that names an availability, in any ASCII case,
/// is kept as that availability in lower case; `dnd` stands in only for a
/// setting that names none.
pub proof fn lemma_meeting_status_kept(s: Seq<char>)
    ensures
        folds_to(s, "online"@) ==> meeting_status_for(s) == "online"@,
        folds_to(s, "away"@) ==> meeting_status_for(s) == "away"@,
        folds_to(s, "dnd"@) ==> meeting_status_for(s) == "dnd"@,
        folds_to(s, "offline"@) ==> meeting_status_for(s) == "offline"@,
        !folds_to(s, "online"@) && !folds_to(s, "away"@) && !folds_to(s, "dnd"@) && !folds_to(
            s,
            "offline"@,
        ) ==> meeting_status_for(s) == "dnd"@,
{
    reveal_strlit("online");
    reveal_strlit("away");
    reveal_strlit("dnd");
    reveal_strlit("offline");
}

/// The interval is the number set when it is at least 10, 10 when the number
/// is lower, and 300 when the setting is no number.
pub proof fn lemma_sleep_seconds(s: Seq<char>)
    ensures
        parse_unsigned_spec(s, u64::MAX as nat) matches Some(n) && n >= 10 ==> sleep_seconds_for(s)
            == parse_unsigned_spec(s, u64::MAX as nat)->0,
        parse_unsigned_spec(s, u64::MAX as nat) matches Some(n) && n < 10 ==> sleep_seconds_for(s)
            == 10,
        parse_unsigned_spec(s, u64::MAX as nat) is None ==> sleep_seconds_for(s) == 300,
{
}

/// A text names an availability exactly when it spells one of `online`,
/// `away`, `dnd`, `offline` in any ASCII case, and it names that one.
pub proof fn lemma_status_words(s: Seq<char>)
    ensures
        folds_to(s, "online"@) ==> status_word(s) == Some("online"@),
        folds_to(s, "away"@) ==> status_word(s) == Some("away"@),
        folds_to(s, "dnd"@) ==> status_word(s) == Some("dnd"@),
        folds_to(s, "offline"@) ==> status_word(s) == Some("offline"@),
        !folds_to(s, "online"@) && !folds_to(s, "away"@) && !folds_to(s, "dnd"@) && !folds_to(
            s,
            "offline"@,
        ) ==> status_word(s) is None,
{
    reveal_strlit("online");
    reveal_strlit("away");
    reveal_strlit("dnd");
    reveal_strlit("offline");
}

} // verus!
