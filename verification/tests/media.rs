use galaxybook_camera::audio::audio_source_id_at;
use galaxybook_camera::audio::{
    audio_listing_is_safe, default_audio_sources, detect_audio_sources, parse_audio_sources,
    selected_audio_index, selected_audio_source_label, AudioSourceOption,
};
use galaxybook_camera::ffmpeg::{
    available_ffmpeg_encoders, command_stderr_or, ffmpeg_has_encoder, first_present,
    normalize_ffmpeg_stderr, preferred_video_encoder_backend, rawvideo_args, recorder_accepts_frame,
    recording_outcome, smoke_video_args, video_recorder_args, ProcessOutput, VideoEncoderBackend,
};
use galaxybook_camera::frame::OwnedFrame;

const LISTING: &str = "Auto-detected sources for pulse:\n  alsa_output.pci.monitor [Monitor of Built-in]\n* alsa_input.pci.analog-stereo [Built-in Audio Analog Stereo]\n  bluez_input.headset [ Headset ]\n  lonely\n  mic something\n  alsa_input.pci.analog-stereo [Duplicate]\n";

fn pairs(sources: &[AudioSourceOption]) -> Vec<(String, String)> {
    sources.iter().map(|s| (s.id.clone(), s.label.clone())).collect()
}

#[test]
fn audio_listing_gives_default_then_distinct_inputs() {
    let sources = parse_audio_sources(LISTING);
    assert_eq!(
        pairs(&sources),
        vec![
            ("default".to_string(), "Padrao do sistema".to_string()),
            (
                "alsa_input.pci.analog-stereo".to_string(),
                "Built-in Audio Analog Stereo (padrao atual)".to_string()
            ),
            ("bluez_input.headset".to_string(), "Headset".to_string()),
            ("mic".to_string(), "mic".to_string()),
        ]
    );
}

#[test]
fn audio_listing_default_line_without_brackets_uses_id() {
    let sources = parse_audio_sources("*  usb_mic descr\n");
    assert_eq!(pairs(&sources)[1], ("usb_mic".to_string(), "usb_mic (padrao atual)".to_string()));
}

#[test]
fn audio_listing_with_reversed_brackets_is_unsafe() {
    assert!(!audio_listing_is_safe("  src ]x[\n"));
    assert!(audio_listing_is_safe(LISTING));
    let output = ProcessOutput {
        success: true,
        stdout: b"  src ]x[\n".to_vec(),
        stderr: Vec::new(),
    };
    assert!(detect_audio_sources(Some(output)).is_none());
}

#[test]
fn detect_audio_sources_falls_back_to_default() {
    let only_default = pairs(&default_audio_sources());
    assert_eq!(pairs(&detect_audio_sources(None).unwrap()), only_default);
    let silent_failure = ProcessOutput { success: false, stdout: Vec::new(), stderr: Vec::new() };
    assert_eq!(pairs(&detect_audio_sources(Some(silent_failure)).unwrap()), only_default);
}

#[test]
fn detect_audio_sources_reads_both_streams() {
    let output = ProcessOutput {
        success: false,
        stdout: b"  first [One]".to_vec(),
        stderr: b"  second [Two]\n".to_vec(),
    };
    let sources = detect_audio_sources(Some(output)).unwrap();
    assert_eq!(
        pairs(&sources),
        vec![
            ("default".to_string(), "Padrao do sistema".to_string()),
            ("first".to_string(), "One".to_string()),
            ("second".to_string(), "Two".to_string()),
        ]
    );
}

#[test]
fn selected_audio_source_label_and_index() {
    let sources = parse_audio_sources(LISTING);
    assert_eq!(selected_audio_source_label(&sources, "bluez_input.headset"), "Headset");
    assert_eq!(selected_audio_source_label(&sources, "unknown"), "unknown");
    assert_eq!(selected_audio_index(&sources, "bluez_input.headset"), 2);
    assert_eq!(selected_audio_index(&sources, "unknown"), 0);
}

#[test]
fn ffmpeg_encoder_tokens_must_match_whole() {
    let listing = " V....D h264_nvenc           NVIDIA NVENC H.264 encoder (codec h264)\n V....D h264_vaapi           H.264/AVC (VAAPI) (codec h264)\n";
    assert!(ffmpeg_has_encoder(listing, "h264_nvenc"));
    assert!(ffmpeg_has_encoder(listing, "h264_vaapi"));
    assert!(!ffmpeg_has_encoder(listing, "nvenc"));
    assert!(!ffmpeg_has_encoder(listing, "h264_qsv"));
    assert!(!ffmpeg_has_encoder(listing, ""));
}

#[test]
fn preferred_backend_follows_hardware_and_listing() {
    let listing = " V....D h264_nvenc x\n V....D h264_qsv y\n V....D h264_vaapi z\n";
    assert_eq!(preferred_video_encoder_backend(listing, true, true), VideoEncoderBackend::NvidiaNvenc);
    assert_eq!(preferred_video_encoder_backend(listing, false, true), VideoEncoderBackend::IntelQsv);
    assert_eq!(
        preferred_video_encoder_backend(" V h264_vaapi z\n", false, true),
        VideoEncoderBackend::Vaapi
    );
    assert_eq!(preferred_video_encoder_backend(listing, false, false), VideoEncoderBackend::CpuX264);
    assert_eq!(preferred_video_encoder_backend("", true, true), VideoEncoderBackend::CpuX264);
}

#[test]
fn available_encoders_joins_streams() {
    assert_eq!(available_ffmpeg_encoders(None), "");
    let output = ProcessOutput { success: true, stdout: b"out".to_vec(), stderr: b"err".to_vec() };
    assert_eq!(available_ffmpeg_encoders(Some(output)), "out\nerr");
    let only_err = ProcessOutput { success: true, stdout: Vec::new(), stderr: b"err".to_vec() };
    assert_eq!(available_ffmpeg_encoders(Some(only_err)), "err");
}

#[test]
fn recorder_arguments_with_audio_and_vaapi() {
    let args = video_recorder_args(1280, 720, true, "  ", VideoEncoderBackend::Vaapi, Some("/dev/dri/renderD128"));
    let expected = [
        "-hide_banner", "-loglevel", "error", "-y", "-vaapi_device", "/dev/dri/renderD128",
        "-use_wallclock_as_timestamps", "1", "-fflags", "+genpts", "-f", "rawvideo", "-pix_fmt", "rgba",
        "-video_size", "1280x720", "-framerate", "30", "-i", "pipe:0", "-thread_queue_size", "512", "-f",
        "pulse", "-i", "default", "-fps_mode:v", "vfr", "-vf", "format=nv12,hwupload", "-c:v",
        "h264_vaapi", "-af", "aresample=async=1:first_pts=0", "-c:a", "aac", "-b:a", "160k", "-shortest",
    ];
    assert_eq!(args, expected.iter().map(|s| s.to_string()).collect::<Vec<_>>());
}

#[test]
fn recorder_arguments_without_audio_and_nvenc() {
    let args = video_recorder_args(640, 480, false, "mic", VideoEncoderBackend::NvidiaNvenc, None);
    let expected = [
        "-hide_banner", "-loglevel", "error", "-y", "-use_wallclock_as_timestamps", "1", "-fflags",
        "+genpts", "-f", "rawvideo", "-pix_fmt", "rgba", "-video_size", "640x480", "-framerate", "30",
        "-i", "pipe:0", "-an", "-fps_mode:v", "vfr", "-c:v", "h264_nvenc", "-preset", "p5", "-tune",
        "hq", "-pix_fmt", "yuv420p",
    ];
    assert_eq!(args, expected.iter().map(|s| s.to_string()).collect::<Vec<_>>());
    let with_source = video_recorder_args(640, 480, true, "mic", VideoEncoderBackend::IntelQsv, Some("/dev/dri/renderD128"));
    assert_eq!(with_source[with_source.iter().position(|a| a == "pulse").unwrap() + 2], "mic");
    assert!(!with_source.iter().any(|a| a == "-vaapi_device"));
}

#[test]
fn smoke_video_arguments() {
    let args = smoke_video_args(320, 180);
    let expected = [
        "-hide_banner", "-loglevel", "error", "-y", "-f", "rawvideo", "-pix_fmt", "rgba", "-video_size",
        "320x180", "-framerate", "30", "-i", "pipe:0", "-an", "-fps_mode:v", "vfr", "-c:v", "libx264",
        "-preset", "ultrafast", "-pix_fmt", "yuv420p",
    ];
    assert_eq!(args, expected.iter().map(|s| s.to_string()).collect::<Vec<_>>());
    assert_eq!(rawvideo_args(1, 2, false, VideoEncoderBackend::Vaapi, None).len(), 14);
}

#[test]
fn ffmpeg_stderr_is_decoded_lossily_and_joined() {
    assert_eq!(normalize_ffmpeg_stderr(b"  first  \r\n\n second\n"), "first; second");
    assert_eq!(normalize_ffmpeg_stderr(b"bad \xff byte"), "bad \u{FFFD} byte");
    assert_eq!(normalize_ffmpeg_stderr(b""), "");
}

#[test]
fn command_stderr_or_falls_back_when_blank() {
    assert_eq!(command_stderr_or(b"  \n", "fallback"), "fallback");
    assert_eq!(command_stderr_or(b" failed here \n", "fallback"), "failed here");
}

#[test]
fn recording_outcome_combines_reports() {
    assert_eq!(recording_outcome(false, "", b"boom\n"), (false, "boom".to_string()));
    assert_eq!(recording_outcome(true, "", b"noise\n"), (true, String::new()));
    assert_eq!(recording_outcome(true, "write failed", b"x"), (false, "write failed; x".to_string()));
    assert_eq!(recording_outcome(false, "write failed", b"libva info: y\n"), (false, "write failed".to_string()));
}

#[test]
fn recorder_takes_only_frames_of_its_size() {
    let frame = OwnedFrame { width: 4, height: 2, data: vec![0; 32] };
    assert!(recorder_accepts_frame(4, 2, &frame));
    assert!(!recorder_accepts_frame(2, 4, &frame));
}

#[test]
fn first_present_render_node() {
    let nodes = vec!["/dev/dri/renderD128", "/dev/dri/renderD129"];
    assert_eq!(first_present(&nodes, &vec![false, true]), Some("/dev/dri/renderD129"));
    assert_eq!(first_present(&nodes, &vec![false, false]), None);
}

#[test]
fn encoder_messages_name_the_encoders() {
    assert_eq!(VideoEncoderBackend::CpuX264.ui_message_id(), "CPU (libx264)");
    assert_eq!(VideoEncoderBackend::NvidiaNvenc.ui_message_id(), "GPU NVIDIA (NVENC)");
    assert_eq!(VideoEncoderBackend::IntelQsv.ui_message_id(), "hardware Intel (Quick Sync)");
    assert_eq!(VideoEncoderBackend::Vaapi.ui_message_id(), "hardware VA-API");
}

#[test]
fn listings_without_spaced_lines_offer_only_the_default() {
    let sources = parse_audio_sources("Auto-detected sources for pulse:\n  lonely\n* alone\n");
    assert_eq!(pairs(&sources), pairs(&default_audio_sources()));
    let spaced = parse_audio_sources("  mic descr\n");
    assert!(spaced.iter().all(|s| !s.id.contains(' ')));
}

#[test]
fn audio_choice_by_row() {
    let sources = parse_audio_sources(LISTING);
    assert_eq!(audio_source_id_at(&sources, 2), "bluez_input.headset");
    assert_eq!(audio_source_id_at(&sources, 20), "default");
}

