use galaxybook_camera::worker::{window_update, WindowEvent};
use galaxybook_camera::resolution::zoom_resolution_at;
use galaxybook_camera::worker::plan_config_change;
use galaxybook_camera::capture::{
    begin_recording, cancel_countdown, capture_button_look, capture_step, capture_tooltip_message,
    countdown_status_message, countdown_tick, end_recording, start_countdown, CaptureButtonLook,
    CaptureMode, CaptureState, CaptureStep, CountdownTick, PendingCaptureAction,
};
use galaxybook_camera::cli::parse_args;
use galaxybook_camera::clock::format_timestamp;
use galaxybook_camera::config::{CameraConfig, Preset, ToneSetting};
use galaxybook_camera::frame::{mirror_frame_horizontal, synthetic_smoke_frame, OwnedFrame};
use galaxybook_camera::localization::{
    localized_app_name, localized_app_name_for_locale, snapshot_camera_translations,
    snapshot_desktop_candidates, substitute_placeholders,
};
use galaxybook_camera::paths::{
    capture_file_path, default_config_path, default_user_dir, first_existing_file, photo_library_dir,
    simple_tuning_file_candidates, singleton_socket_path, tuning_env_needs_setting, video_library_dir,
};
use galaxybook_camera::photo::{encode_photo_jpeg, is_warmup_frame, largest_still_size, photo_from_encoding};
use galaxybook_camera::resolution::{
    countdown_options, derive_preview_zoom_options_from, fallback_preview_resolution_options,
    preview_resolution_options, selected_zoom_label,
};
use galaxybook_camera::singleton::{singleton_step, SingletonStep};
use galaxybook_camera::worker::{
    apply_worker_report, photo_finished_message, plan_frame, plan_worker_command,
    recording_finished_message, SessionState, WorkerCommandKind, WorkerReport, WorkerStep,
};

fn tone_texts() -> Vec<String> {
    (0..12).map(|i| format!("{i}.50")).collect()
}

#[test]
fn config_written_then_read_gives_it_back() {
    let mut config = CameraConfig::default();
    config.softisp_mode = "gpu".to_string();
    config.width = Some(1280);
    config.height = None;
    config.countdown_seconds = 10;
    config.show_grid = false;
    config.mirror = true;
    config.record_audio = false;
    config.audio_source = "alsa_input.usb".to_string();
    let text = config.to_config_text(&tone_texts());
    let parsed = CameraConfig::parse_config_text(&text);
    assert_eq!(parsed.config.softisp_mode, "gpu");
    assert_eq!(parsed.config.width, Some(1280));
    assert_eq!(parsed.config.height, None);
    assert_eq!(parsed.config.countdown_seconds, 10);
    assert!(!parsed.config.show_grid);
    assert!(parsed.config.mirror);
    assert!(!parsed.config.record_audio);
    assert_eq!(parsed.config.audio_source, "alsa_input.usb");
    assert_eq!(parsed.tones.len(), 12);
    assert_eq!(parsed.tones[0], (ToneSetting::Brightness, "0.50".to_string()));
    assert_eq!(parsed.tones[11], (ToneSetting::Sharpness, "11.50".to_string()));
}

#[test]
fn config_text_normalizes_countdown_and_lists_keys() {
    let mut config = CameraConfig::default();
    config.countdown_seconds = 7;
    let text = config.to_config_text(&tone_texts());
    assert!(text.starts_with("# Camera tuning used by:\n#   galaxybook-camera (Rust + libcamera)\n\nLIBCAMERA_SOFTISP_MODE=cpu\n"));
    assert!(text.contains("\nCAMERA_WIDTH=1920\nCAMERA_HEIGHT=1092\n\nCAMERA_COUNTDOWN=0\n"));
    assert!(text.ends_with("CAMERA_RECORD_AUDIO=true\nCAMERA_AUDIO_SOURCE=default\n"));
}

#[test]
fn config_reading_keeps_defaults_and_skips_noise() {
    let parsed = CameraConfig::parse_config_text(
        "# comment\nnot a pair\nCAMERA_WIDTH = abc\n UNKNOWN=1\nCAMERA_COUNTDOWN=5\nCAMERA_SHOW_GRID=maybe\nCAMERA_MIRROR=yes\nCAMERA_GAMMA= 1.20 \n",
    );
    assert_eq!(parsed.config.width, None);
    assert_eq!(parsed.config.height, Some(1092));
    assert_eq!(parsed.config.countdown_seconds, 0);
    assert!(parsed.config.show_grid);
    assert!(parsed.config.mirror);
    assert_eq!(parsed.tones, vec![(ToneSetting::Gamma, "1.20".to_string())]);
}

#[test]
fn presets_and_labels() {
    assert_eq!(Preset::all(), [Preset::Natural, Preset::Indoor, Preset::Daylight]);
    assert_eq!(Preset::Indoor.label(), "Interno claro");
    assert_eq!(Preset::from_index(2), Preset::Daylight);
    assert_eq!(Preset::from_index(9), Preset::Natural);
}

#[test]
fn startup_resolution_falls_back_to_first_zoom_level() {
    let zoom = derive_preview_zoom_options_from(&fallback_preview_resolution_options());
    let mut config = CameraConfig::default();
    config.width = Some(640);
    config.height = Some(364);
    config.apply_validated_startup_resolution(&zoom);
    assert_eq!((config.width, config.height), (Some(640), Some(364)));
    assert_eq!(config.resolution_index(&zoom), 2);
    assert_eq!(config.zoom_text(&zoom), "3x");
    config.width = Some(1);
    config.apply_validated_startup_resolution(&zoom);
    assert_eq!((config.width, config.height), (Some(1920), Some(1092)));
    assert_eq!(config.resolution_text(), "1920x1092");
    config.height = None;
    assert_eq!(config.resolution_text(), "automatico");
}

#[test]
fn zoom_levels_divide_and_keep_even_sizes() {
    let zoom = derive_preview_zoom_options_from(&fallback_preview_resolution_options());
    let sizes: Vec<(u32, u32)> = zoom.iter().map(|z| (z.width, z.height)).collect();
    assert_eq!(sizes, vec![(1920, 1092), (960, 546), (640, 364), (384, 218), (192, 108)]);
    assert_eq!(selected_zoom_label(&zoom, 4), "10x");
    assert_eq!(selected_zoom_label(&zoom, 40), "1x");
    assert_eq!(selected_zoom_label(&[], 0), "1x");
}

#[test]
fn preview_resolutions_sorted_largest_first_without_repeats() {
    let options = preview_resolution_options(Some(vec![(640, 480), (1920, 1080), (1080, 1920), (640, 480)]));
    let sizes: Vec<(u32, u32)> = options.iter().map(|o| (o.width, o.height)).collect();
    assert_eq!(sizes, vec![(1920, 1080), (1080, 1920), (640, 480)]);
    assert_eq!(options[0].label, "1920 x 1080");
    let fallback = preview_resolution_options(Some(Vec::new()));
    assert_eq!(fallback, fallback_preview_resolution_options());
    assert_eq!(countdown_options(), vec![0, 3, 10]);
}

#[test]
fn mirroring_twice_restores_the_frame() {
    let original = OwnedFrame { width: 3, height: 1, data: (0..12).collect() };
    let mut frame = original.clone();
    mirror_frame_horizontal(&mut frame);
    assert_eq!(frame.data, vec![8, 9, 10, 11, 4, 5, 6, 7, 0, 1, 2, 3]);
    mirror_frame_horizontal(&mut frame);
    assert_eq!(frame.data, original.data);
}

#[test]
fn strided_frames_are_packed_with_opaque_alpha() {
    let source = [1, 2, 3, 4, 9, 9, 5, 6, 7, 8, 9, 9];
    let frame = OwnedFrame::from_strided_rgba(1, 2, 6, &source).unwrap();
    assert_eq!(frame.data, vec![1, 2, 3, 255, 5, 6, 7, 255]);
    assert_eq!(
        OwnedFrame::from_strided_rgba(1, 3, 6, &source).unwrap_err(),
        "Frame invalido: dados insuficientes para a resolucao atual."
    );
    assert_eq!(
        OwnedFrame::from_strided_rgba(1, usize::MAX, 2, &source).unwrap_err(),
        "Frame invalido: overflow ao calcular o tamanho do buffer."
    );
    assert!(OwnedFrame::from_strided_rgba(0, 1, 4, &source).is_err());
    let scaled = OwnedFrame::from_strided_rgba_scaled(1, 2, 6, &source, 1, 1).unwrap();
    assert_eq!(scaled.data, vec![1, 2, 3, 255]);
}

#[test]
fn smoke_frame_is_a_gradient() {
    let frame = synthetic_smoke_frame();
    assert_eq!((frame.width, frame.height, frame.data.len()), (320, 180, 320 * 180 * 4));
    assert_eq!(&frame.data[0..4], &[0, 0, 180, 255]);
    let last = (179 * 320 + 319) * 4;
    assert_eq!(&frame.data[last..last + 4], &[254, 253, 180, 255]);
}

#[test]
fn countdown_fires_after_its_seconds() {
    let mut state = CaptureState::new();
    state.preview_active = true;
    start_countdown(&mut state, PendingCaptureAction::Photo, 3);
    assert_eq!(countdown_tick(&mut state), CountdownTick::Continue(2));
    assert_eq!(countdown_tick(&mut state), CountdownTick::Continue(1));
    assert_eq!(countdown_tick(&mut state), CountdownTick::Fire(Some(PendingCaptureAction::Photo)));
    assert_eq!(state.countdown_remaining, None);
    assert_eq!(state.pending_capture_action, None);
    assert_eq!(countdown_tick(&mut state), CountdownTick::Stopped);
    assert!(state.preview_active);
}

#[test]
fn capture_button_decisions() {
    let mut state = CaptureState::new();
    assert_eq!(capture_step(&state, 0), CaptureStep::CapturePhotoNow);
    assert_eq!(capture_step(&state, 3), CaptureStep::StartCountdown(PendingCaptureAction::Photo, 3));
    assert_eq!(capture_step(&state, 5), CaptureStep::CapturePhotoNow);
    state.capture_mode = CaptureMode::Video;
    assert_eq!(capture_step(&state, 0), CaptureStep::NeedPreview);
    assert!(!begin_recording(&mut state));
    state.preview_active = true;
    assert_eq!(capture_step(&state, 10), CaptureStep::StartCountdown(PendingCaptureAction::StartRecording, 10));
    assert_eq!(capture_step(&state, 0), CaptureStep::StartRecordingNow);
    assert!(begin_recording(&mut state));
    assert_eq!(capture_step(&state, 3), CaptureStep::StopRecordingNow);
    assert_eq!(capture_button_look(CaptureMode::Video, true), CaptureButtonLook::Recording);
    assert_eq!(capture_tooltip_message(CaptureMode::Video, true, false), "Parar gravação");
    assert!(end_recording(&mut state));
    assert!(!end_recording(&mut state));
    start_countdown(&mut state, PendingCaptureAction::StartRecording, 3);
    assert_eq!(capture_step(&state, 3), CaptureStep::CancelCountdown);
    assert_eq!(capture_tooltip_message(CaptureMode::Photo, false, true), "Cancelar contagem regressiva");
    assert!(cancel_countdown(&mut state));
    assert!(!cancel_countdown(&mut state));
    assert_eq!(countdown_status_message(PendingCaptureAction::Photo, 3), "Foto em 3s...");
    assert_eq!(countdown_status_message(PendingCaptureAction::StartRecording, 10), "Vídeo em 10s...");
}

#[test]
fn worker_plans_follow_the_session() {
    let idle = SessionState { active: false, recording: false, pending_recording: false };
    let live = SessionState { active: true, recording: false, pending_recording: false };
    let recording = SessionState { active: true, recording: true, pending_recording: false };
    assert_eq!(plan_worker_command(idle, WorkerCommandKind::StopPreview), vec![WorkerStep::ReportPreviewStopped]);
    assert_eq!(
        plan_worker_command(live, WorkerCommandKind::CapturePhoto),
        vec![WorkerStep::StopSession, WorkerStep::CapturePhoto, WorkerStep::RestartSession, WorkerStep::ReportPhotoResult]
    );
    assert_eq!(plan_worker_command(recording, WorkerCommandKind::CapturePhoto), vec![WorkerStep::RejectPhotoWhileRecording]);
    assert_eq!(plan_worker_command(idle, WorkerCommandKind::StartRecording), vec![WorkerStep::ReportNeedPreview]);
    assert_eq!(plan_worker_command(recording, WorkerCommandKind::StartRecording), vec![]);
    assert_eq!(
        plan_worker_command(recording, WorkerCommandKind::StopRecording),
        vec![WorkerStep::ClearPendingRecording, WorkerStep::FinishRecorder]
    );
    assert_eq!(
        plan_worker_command(live, WorkerCommandKind::ApplyConfig { restart: true }),
        vec![WorkerStep::ReplaceConfig, WorkerStep::UpdateProfile, WorkerStep::RestartSession]
    );
    assert_eq!(plan_worker_command(idle, WorkerCommandKind::ApplyConfig { restart: true }), vec![WorkerStep::ReplaceConfig]);
    assert_eq!(plan_worker_command(live, WorkerCommandKind::Shutdown), vec![WorkerStep::Exit]);
    let frame = plan_frame(SessionState { active: true, recording: false, pending_recording: true });
    assert!(frame.full_output && frame.start_recorder);
}

#[test]
fn worker_reports_update_the_window() {
    let mut state = CaptureState::new();
    apply_worker_report(&mut state, WorkerReport::PreviewStarted);
    assert!(state.preview_active);
    state.is_recording = true;
    apply_worker_report(&mut state, WorkerReport::PreviewStopped);
    assert!(!state.preview_active && !state.is_recording);
    assert_eq!(
        photo_finished_message(true, "/p/a.jpg", "", Some((1920, 1080))),
        "Foto máxima salva em /p/a.jpg (1920x1080)."
    );
    assert_eq!(photo_finished_message(true, "/p/a.jpg", "", None), "Foto salva em /p/a.jpg.");
    assert_eq!(photo_finished_message(false, "/p/a.jpg", "", None), "Falha ao salvar foto.");
    assert_eq!(photo_finished_message(false, "/p", "disk", None), "Falha ao salvar foto: disk");
    assert_eq!(recording_finished_message(true, "/v.mp4", ""), "Vídeo salvo em /v.mp4.");
    assert_eq!(recording_finished_message(false, "/v.mp4", "x"), "Falha ao gravar vídeo: x");
}

#[test]
fn command_line_options() {
    let args: Vec<String> = ["--config", "/tmp/c.env", "--bogus", "--smoke-test", "--capture-photo-once"]
        .iter()
        .map(|s| s.to_string())
        .collect();
    let parsed = parse_args(&args);
    assert!(parsed.smoke_test);
    assert_eq!(parsed.config_path.as_deref(), Some("/tmp/c.env"));
    assert_eq!(parsed.capture_photo_once, None);
    let later: Vec<String> = ["--capture-photo-once", "/a.jpg", "--capture-photo-once", "/b.jpg"]
        .iter()
        .map(|s| s.to_string())
        .collect();
    assert_eq!(parse_args(&later).capture_photo_once.as_deref(), Some("/b.jpg"));
}

#[test]
fn timestamps_pad_like_chrono() {
    assert_eq!(format_timestamp(2024, 3, 5, 7, 8, 9), "20240305-070809");
    assert_eq!(format_timestamp(42, 12, 31, 23, 59, 59), "00421231-235959");
    assert_eq!(format_timestamp(12345, 1, 1, 0, 0, 0), "+123450101-000000");
    assert_eq!(format_timestamp(-5, 1, 1, 0, 0, 0), "-00050101-000000");
}

#[test]
fn folders_and_files() {
    let home = Some(b"/home/u".to_vec());
    assert_eq!(default_config_path(&home), b"/home/u/.config/camera-tuned.env".to_vec());
    assert_eq!(default_config_path(&None), b"/tmp/.config/camera-tuned.env".to_vec());
    assert_eq!(photo_library_dir(&None, &home), b"/home/u/Pictures/Camera".to_vec());
    assert_eq!(video_library_dir(&Some(b"/media/v/".to_vec()), &home), b"/media/v/Camera".to_vec());
    assert_eq!(
        capture_file_path(&b"/x/".to_vec(), "20240101-000000", "jpg"),
        b"/x/camera-20240101-000000.jpg".to_vec()
    );
    assert_eq!(
        singleton_socket_path(&Some(Vec::new()), &None, &home),
        b"/home/u/.cache/galaxybook-camera.sock".to_vec()
    );
    assert_eq!(default_user_dir(&Some(Vec::new()), &Some(b" /home/u/Fotos \n".to_vec())), Some(b"/home/u/Fotos".to_vec()));
    assert_eq!(default_user_dir(&None, &Some(b"  ".to_vec())), None);
}

#[test]
fn tuning_file_candidates_in_order() {
    let candidates = simple_tuning_file_candidates(&None, &Some(b"/src".to_vec()), &None, &b"/proj".to_vec());
    assert_eq!(
        candidates,
        vec![
            b"/usr/share/galaxybook-camera/libcamera/simple/ov02c10.yaml".to_vec(),
            b"/tmp/.local/share/galaxybook-camera/libcamera/simple/ov02c10.yaml".to_vec(),
            b"/src/data/libcamera/simple/ov02c10.yaml".to_vec(),
            b"/proj/data/libcamera/simple/ov02c10.yaml".to_vec(),
        ]
    );
    assert_eq!(first_existing_file(&candidates, &vec![false, false, true, true]), Some(candidates[2].clone()));
    assert!(tuning_env_needs_setting(&None));
    assert!(tuning_env_needs_setting(&Some(Vec::new())));
    assert!(!tuning_env_needs_setting(&Some(b"x".to_vec())));
}

#[test]
fn camera_name_from_desktop_files() {
    assert_eq!(snapshot_desktop_candidates(&None).len(), 3);
    let contents = vec![
        None,
        Some("[Desktop Entry]\nExec=x\n".to_string()),
        Some("[Desktop Entry]\nName=Camera\nName[de]=Kamera\n".to_string()),
    ];
    let translations = snapshot_camera_translations(&contents);
    assert_eq!(localized_app_name_for_locale(&translations, "de_DE.UTF-8"), "Galaxy Book Kamera");
    assert_eq!(localized_app_name_for_locale(&translations, "fr_FR.UTF-8"), "Galaxy Book Camera");
    let values = vec![None, Some("C".to_string()), Some("de_AT.UTF-8:en".to_string())];
    assert_eq!(localized_app_name(&translations, &values), "Galaxy Book Kamera");
    assert_eq!(localized_app_name(&translations, &vec![None]), "Galaxy Book Camera");
    let text = substitute_placeholders("Preview em {width}x{height}", &[("width", "640".to_string()), ("height", "480".to_string())]);
    assert_eq!(text, "Preview em 640x480");
}

#[test]
fn photos_encode_as_jpeg() {
    let frame = OwnedFrame { width: 2, height: 2, data: vec![200; 16] };
    let bytes = encode_photo_jpeg(&frame).unwrap();
    assert_eq!(&bytes[0..2], &[0xFF, 0xD8]);
    let empty = OwnedFrame { width: 0, height: 2, data: Vec::new() };
    assert_eq!(encode_photo_jpeg(&empty).unwrap_err(), "Ainda nao ha frame valido para salvar como foto.");
    let longer = OwnedFrame { width: 2, height: 2, data: vec![200; 40] };
    assert_eq!(encode_photo_jpeg(&longer).unwrap(), bytes);
    assert_eq!(photo_from_encoding(Err("bad".to_string())), Err("Falha ao codificar a foto em JPEG: bad".to_string()));
    assert_eq!(photo_from_encoding(Ok(vec![1, 2])), Ok(vec![1, 2]));
    let short = OwnedFrame { width: 4, height: 4, data: vec![0; 8] };
    assert_eq!(encode_photo_jpeg(&short).unwrap_err(), "Falha ao montar a imagem RGBA da foto.");
}

#[test]
fn still_capture_size_and_warmup() {
    assert_eq!(largest_still_size(&vec![(640, 480), (1080, 1920), (1920, 1080)]), Some((1920, 1080)));
    assert_eq!(largest_still_size(&Vec::new()), None);
    assert!(is_warmup_frame(5));
    assert!(!is_warmup_frame(6));
}

#[test]
fn singleton_steps() {
    assert_eq!(singleton_step(true, true), SingletonStep::DeferToRunning);
    assert_eq!(singleton_step(false, true), SingletonStep::ReplaceStaleSocket);
    assert_eq!(singleton_step(false, false), SingletonStep::Listen);
}

#[test]
fn config_changes_apply_or_wait() {
    let live_restart = plan_config_change(true, true, true, true);
    assert_eq!(live_restart.send_restart, Some(true));
    assert!(!live_restart.restart_pending);
    assert_eq!(live_restart.message, "Reiniciando o preview para aplicar a nova resolução ou preset...");
    let idle_restart = plan_config_change(true, true, false, false);
    assert_eq!(idle_restart.send_restart, Some(false));
    let tweak = plan_config_change(true, false, true, true);
    assert_eq!((tweak.send_restart, tweak.restart_pending, tweak.message), (Some(false), true, "Ajustes aplicados."));
    let manual = plan_config_change(false, true, false, true);
    assert_eq!(manual.send_restart, None);
    assert!(manual.restart_pending);
    let manual_tweak = plan_config_change(false, false, false, true);
    assert_eq!(manual_tweak.message, "Configuração salva. Clique em Aplicar para enviar ao preview.");
}

#[test]
fn zoom_choice_falls_back_to_first_level() {
    let zoom = derive_preview_zoom_options_from(&fallback_preview_resolution_options());
    assert_eq!(zoom_resolution_at(&zoom, 1), Some((960, 546)));
    assert_eq!(zoom_resolution_at(&zoom, 9), Some((1920, 1092)));
    assert_eq!(zoom_resolution_at(&[], 0), None);
}

#[test]
fn scaled_packing_matches_packing_then_scaling() {
    let source: Vec<u8> = (0..48).collect();
    let direct = OwnedFrame::from_strided_rgba_scaled(3, 2, 24, &source, 2, 1).unwrap();
    let packed = OwnedFrame::from_strided_rgba(3, 2, 24, &source).unwrap();
    let scaled = packed.scaled_nearest(2, 1);
    assert_eq!((direct.width, direct.height), (scaled.width, scaled.height));
    assert_eq!(direct.data, scaled.data);
    assert!(OwnedFrame::from_strided_rgba_scaled(3, 2, 24, &source, 0, 1).is_err());
}

#[test]
fn worker_reports_set_the_status_line() {
    let started = window_update(WindowEvent::PreviewStarted { width: 640, height: 480 }, None, None);
    assert_eq!(started.report, WorkerReport::PreviewStarted);
    assert_eq!(started.status.as_deref(), Some("Preview ativo em 640x480."));
    assert_eq!(started.label.as_deref(), Some("Preview ativo."));
    let kept = window_update(
        WindowEvent::PreviewStopped { reason: "Preview parado.".to_string() },
        Some("Reiniciando...".to_string()),
        Some(b"/p/a.jpg".to_vec()),
    );
    assert_eq!(kept.status.as_deref(), Some("Reiniciando..."));
    assert_eq!(kept.post_stop_status, None);
    assert_eq!(kept.last_media_path, Some(b"/p/a.jpg".to_vec()));
    let stopped = window_update(WindowEvent::PreviewStopped { reason: "sem câmera".to_string() }, None, None);
    assert_eq!(stopped.label.as_deref(), Some("sem câmera"));
    let saved = window_update(
        WindowEvent::RecordingFinished {
            success: true,
            path: b"/v/b.mp4".to_vec(),
            shown_path: "/v/b.mp4".to_string(),
            stderr: String::new(),
        },
        None,
        Some(b"/p/a.jpg".to_vec()),
    );
    assert!(saved.toast);
    assert_eq!(saved.report, WorkerReport::RecordingFinished);
    assert_eq!(saved.last_media_path, Some(b"/v/b.mp4".to_vec()));
    let failed = window_update(
        WindowEvent::PhotoFinished {
            success: false,
            path: b"/p/c.jpg".to_vec(),
            shown_path: "/p/c.jpg".to_string(),
            stderr: "disk".to_string(),
            resolution: None,
        },
        Some("kept".to_string()),
        Some(b"/p/a.jpg".to_vec()),
    );
    assert_eq!(failed.status.as_deref(), Some("Falha ao salvar foto: disk"));
    assert_eq!(failed.last_media_path, Some(b"/p/a.jpg".to_vec()));
    assert_eq!(failed.post_stop_status.as_deref(), Some("kept"));
    let frame = window_update(WindowEvent::PreviewFrame, None, None);
    assert_eq!(frame.status, None);
}
