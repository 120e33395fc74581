//! Keeps a Mattermost status in step with the use of the webcam.
mod camera;
mod config;
mod json;
mod number;
mod status;
mod sync;
mod text;

pub use camera::{is_process_dir_name, is_video_device};
pub use config::{
    CommandOutput, Config, ConfigError, OptionalSetting, RequiredSetting, SleepWarning,
    DEFAULT_SLEEP_SECONDS, FIRST_INTERVAL_WITHOUT_CONFIG, MIN_SLEEP_SECONDS,
};
pub use json::JsonDoc;
pub use number::parse_unsigned;
pub use status::{
    availability_to_restore, current_state_from, plan_status_update, state_from_parsed,
    user_is_offline,
    CustomStatusChange, StatusUpdate,
};
pub use sync::{meeting_end, meeting_start, step, Action, Event, Outcome, Phase};
pub use text::build_meeting_text;
