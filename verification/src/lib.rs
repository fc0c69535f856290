//! The verified core of a desktop camera application for Galaxy Book
//! laptops: configuration, localization, paths, frame handling, the ffmpeg
//! command lines, and the decisions of the capture controls and the camera
//! worker.

use vstd::prelude::*;

pub mod audio;
pub mod capture;
pub mod cli;
pub mod clock;
pub mod config;
pub mod ffmpeg;
pub mod frame;
pub mod localization;
pub mod paths;
pub mod photo;
pub mod resolution;
pub mod singleton;
pub mod text;
pub mod worker;

pub use audio::{detect_audio_sources, selected_audio_index, selected_audio_source_label, AudioSourceOption};
pub use capture::{CaptureMode, PendingCaptureAction};
pub use config::{CameraConfig, Preset};
pub use ffmpeg::{preferred_video_encoder_backend, VideoEncoderBackend};
pub use frame::OwnedFrame;
pub use localization::{localized_app_name, localized_app_name_for_locale, localized_camera_word_for_locale};
pub use paths::{default_config_path, photo_library_dir, video_library_dir};
pub use resolution::{
    countdown_options, normalize_countdown_seconds, preview_resolution_options, PreviewZoomOption,
    ResolutionOption,
};
pub use singleton::SingletonState;

verus! {

pub const APP_ID: &'static str = "com.caioregis.GalaxyBookCamera";
pub const APP_NAME: &'static str = "Galaxy Book Camera";

} // verus!
