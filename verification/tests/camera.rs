use galaxybook_camera::ffmpeg::normalize_ffmpeg_stderr;
use galaxybook_camera::frame::{preview_dimensions, OwnedFrame};
use galaxybook_camera::localization::{
    first_locale_candidate, localized_app_name_for_locale, localized_camera_word_for_locale,
    NameTranslations,
};
use galaxybook_camera::resolution::{
    derive_preview_zoom_options_from, fallback_preview_resolution_options, normalize_countdown_seconds,
};

fn frame_from_pixels(width: usize, height: usize, pixels: &[(u8, u8, u8)]) -> OwnedFrame {
    let mut data = Vec::with_capacity(width * height * 4);
    for (red, green, blue) in pixels {
        data.extend_from_slice(&[*red, *green, *blue, 255]);
    }
    OwnedFrame { width, height, data }
}

fn rgb_at(frame: &OwnedFrame, x: usize, y: usize) -> (u8, u8, u8) {
    let index = (y * frame.width + x) * 4;
    (frame.data[index], frame.data[index + 1], frame.data[index + 2])
}

#[test]
fn normalize_ffmpeg_stderr_ignores_libva_info() {
    let normalized = normalize_ffmpeg_stderr(
        b"libva info: VA-API version 1.23.0\nreal warning\nlibva info: driver loaded\n",
    );
    assert_eq!(normalized, "real warning");
}

#[test]
fn scaled_preview_samples_expected_pixels() {
    let frame = frame_from_pixels(
        4,
        2,
        &[
            (10, 0, 0),
            (20, 0, 0),
            (30, 0, 0),
            (40, 0, 0),
            (50, 0, 0),
            (60, 0, 0),
            (70, 0, 0),
            (80, 0, 0),
        ],
    );

    let scaled = frame.scaled_nearest(2, 1);
    assert_eq!(scaled.width, 2);
    assert_eq!(scaled.height, 1);
    assert_eq!(rgb_at(&scaled, 0, 0), (10, 0, 0));
    assert_eq!(rgb_at(&scaled, 1, 0), (30, 0, 0));
}

#[test]
fn localized_app_name_uses_portuguese_camera_word() {
    assert_eq!(
        localized_app_name_for_locale(&NameTranslations::new(), "pt_BR.UTF-8"),
        "Galaxy Book Câmera"
    );
}

#[test]
fn localized_app_name_uses_first_language_candidate() {
    assert_eq!(
        first_locale_candidate("C:pt_BR.UTF-8:en_US.UTF-8"),
        Some("pt_BR.UTF-8")
    );
}

#[test]
fn localized_camera_word_supports_traditional_chinese() {
    assert_eq!(
        localized_camera_word_for_locale(&NameTranslations::new(), "zh_TW.UTF-8"),
        "相機"
    );
}

#[test]
fn normalize_countdown_seconds_accepts_snapshot_values() {
    assert_eq!(normalize_countdown_seconds(0), 0);
    assert_eq!(normalize_countdown_seconds(3), 3);
    assert_eq!(normalize_countdown_seconds(10), 10);
    assert_eq!(normalize_countdown_seconds(5), 0);
}

#[test]
fn preview_zoom_options_start_with_one_x() {
    let resolution_options = fallback_preview_resolution_options();
    let zoom_options = derive_preview_zoom_options_from(&resolution_options);
    assert_eq!(zoom_options.len(), 5);
    assert_eq!(zoom_options[0].label, "1x");
    assert_eq!(zoom_options[1].label, "2x");
    assert_eq!(zoom_options[2].label, "3x");
    assert_eq!(zoom_options[3].label, "5x");
    assert_eq!(zoom_options[4].label, "10x");
    assert!(zoom_options[0].factor >= 1);
}

#[test]
fn preview_dimensions_downscale_large_stream_preserving_aspect_ratio() {
    let (width, height) = preview_dimensions(1920, 1092);
    assert_eq!(width, 1280);
    assert_eq!(height, 728);
}

#[test]
fn preview_dimensions_keep_small_streams_and_round() {
    assert_eq!(preview_dimensions(1280, 720), (1280, 720));
    assert_eq!(preview_dimensions(3, 1536), (3, 1280));
    assert_eq!(preview_dimensions(2560, 1), (1280, 1));
    assert_eq!(preview_dimensions(2592, 1944), (1280, 960));
}
