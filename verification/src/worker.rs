//! The camera worker's decisions: what each command does to the preview
//! session, what each frame needs, and how the window reads the worker's
//! reports.

use vstd::prelude::*;

use crate::capture::CaptureState;
use crate::text::{append_chars, append_str, chars_of, decimal, decimal_chars, string_from_chars};

verus! {

/// What the worker knows of its preview session.
#[derive(Clone, Copy, Debug, PartialEq, Eq, Structural)]
pub struct SessionState {
    /// A preview session runs.
    pub active: bool,
    /// The session feeds a running recorder.
    pub recording: bool,
    /// A recording waits for the next frame to start.
    pub pending_recording: bool,
}

/// The commands the window sends to the worker (their payloads, the
/// configuration and the photo's path, stay with the caller).
#[derive(Clone, Copy, Debug, PartialEq, Eq, Structural)]
pub enum WorkerCommandKind {
    StartPreview,
    StopPreview,
    ApplyConfig { restart: bool },
    CapturePhoto,
    StartRecording,
    StopRecording,
    Shutdown,
}

/// One thing the worker does while handling a command, in order.
#[derive(Clone, Copy, Debug, PartialEq, Eq, Structural)]
pub enum WorkerStep {
    /// Stop the running session (and any recorder it feeds).
    StopSession,
    /// Stop the running session, if any, and start a new one, reporting how
    /// that went.
    RestartSession,
    /// Report that the preview was stopped on request.
    ReportPreviewStopped,
    /// Take the new configuration.
    ReplaceConfig,
    /// Rebuild the running session's image adjustments from the configuration.
    UpdateProfile,
    /// Refuse the photo: a recording runs or waits.
    RejectPhotoWhileRecording,
    /// Take the full-resolution photo.
    CapturePhoto,
    /// Report how the photo went.
    ReportPhotoResult,
    /// Say that video needs a running preview.
    ReportNeedPreview,
    /// Choose the video's file and wait for the next frame to start recording.
    BeginPendingRecording,
    /// Forget a recording that waits to start.
    ClearPendingRecording,
    /// Close the running recorder, which finishes the file, and say so.
    FinishRecorder,
    /// Stop the session, if any, and end the worker.
    Exit,
}

/// The steps that a command takes, given the session.
pub open spec fn worker_steps(session: SessionState, command: WorkerCommandKind) -> Seq<WorkerStep> {
    match command {
        WorkerCommandKind::StartPreview => seq![WorkerStep::RestartSession],
        WorkerCommandKind::StopPreview => (if session.active {
            seq![WorkerStep::StopSession]
        } else {
            seq![]
        }) + seq![WorkerStep::ReportPreviewStopped],
        WorkerCommandKind::ApplyConfig { restart } => seq![WorkerStep::ReplaceConfig] + (if session.active {
            seq![WorkerStep::UpdateProfile]
        } else {
            seq![]
        }) + (if restart && session.active {
            seq![WorkerStep::RestartSession]
        } else {
            seq![]
        }),
        WorkerCommandKind::CapturePhoto => if session.active && (session.recording || session.pending_recording) {
            seq![WorkerStep::RejectPhotoWhileRecording]
        } else if session.active {
            seq![
                WorkerStep::StopSession,
                WorkerStep::CapturePhoto,
                WorkerStep::RestartSession,
                WorkerStep::ReportPhotoResult,
            ]
        } else {
            seq![WorkerStep::CapturePhoto, WorkerStep::ReportPhotoResult]
        },
        WorkerCommandKind::StartRecording => if !session.active {
            seq![WorkerStep::ReportNeedPreview]
        } else if session.recording || session.pending_recording {
            seq![]
        } else {
            seq![WorkerStep::BeginPendingRecording]
        },
        WorkerCommandKind::StopRecording => if !session.active {
            seq![]
        } else if session.recording {
            seq![WorkerStep::ClearPendingRecording, WorkerStep::FinishRecorder]
        } else {
            seq![WorkerStep::ClearPendingRecording]
        },
        WorkerCommandKind::Shutdown => seq![WorkerStep::Exit],
    }
}

/// The steps that a command takes (see `worker_steps`).
pub fn plan_worker_command(session: SessionState, command: WorkerCommandKind) -> (r: Vec<WorkerStep>)
    ensures
        r@ == worker_steps(session, command),
{
    let mut steps: Vec<WorkerStep> = Vec::new();
    match command {
        WorkerCommandKind::StartPreview => {
            steps.push(WorkerStep::RestartSession);
        },
        WorkerCommandKind::StopPreview => {
            if session.active {
                steps.push(WorkerStep::StopSession);
            }
            steps.push(WorkerStep::ReportPreviewStopped);
        },
        WorkerCommandKind::ApplyConfig { restart } => {
            steps.push(WorkerStep::ReplaceConfig);
            if session.active {
                steps.push(WorkerStep::UpdateProfile);
            }
            if restart && session.active {
                steps.push(WorkerStep::RestartSession);
            }
        },
        WorkerCommandKind::CapturePhoto => {
            if session.active && (session.recording || session.pending_recording) {
                steps.push(WorkerStep::RejectPhotoWhileRecording);
            } else {
                if session.active {
                    steps.push(WorkerStep::StopSession);
                }
                steps.push(WorkerStep::CapturePhoto);
                if session.active {
                    steps.push(WorkerStep::RestartSession);
                }
                steps.push(WorkerStep::ReportPhotoResult);
            }
        },
        WorkerCommandKind::StartRecording => {
            if !session.active {
                steps.push(WorkerStep::ReportNeedPreview);
            } else if !(session.recording || session.pending_recording) {
                steps.push(WorkerStep::BeginPendingRecording);
            }
        },
        WorkerCommandKind::StopRecording => {
            if session.active {
                steps.push(WorkerStep::ClearPendingRecording);
                if session.recording {
                    steps.push(WorkerStep::FinishRecorder);
                }
            }
        },
        WorkerCommandKind::Shutdown => {
            steps.push(WorkerStep::Exit);
        },
    }
    assert(steps@ =~= worker_steps(session, command));
    steps
}

/// A photo is never taken while a recording runs or waits, and the worker
/// ends only on `Shutdown`.
pub proof fn lemma_worker_steps_guard(session: SessionState, command: WorkerCommandKind)
    ensures
        session.active && (session.recording || session.pending_recording)
            ==> !worker_steps(session, command).contains(WorkerStep::CapturePhoto),
        worker_steps(session, command).contains(WorkerStep::Exit) <==> command == WorkerCommandKind::Shutdown,
{
    let steps = worker_steps(session, command);
    if command == WorkerCommandKind::Shutdown {
        assert(steps[0] == WorkerStep::Exit);
    }
    if steps.contains(WorkerStep::Exit) {
        let i = choose|i: int| 0 <= i < steps.len() && steps[i] == WorkerStep::Exit;
        assert(steps[i] == WorkerStep::Exit);
    }
    if steps.contains(WorkerStep::CapturePhoto) && session.active && (session.recording || session.pending_recording) {
        let i = choose|i: int| 0 <= i < steps.len() && steps[i] == WorkerStep::CapturePhoto;
        assert(steps[i] == WorkerStep::CapturePhoto);
    }
}

/// What a finished camera frame needs.
#[derive(Clone, Copy, Debug, PartialEq, Eq, Structural)]
pub struct FramePlan {
    /// Build the full-resolution frame (for the recorder), then scale it
    /// down for the preview; else build the preview-sized frame directly.
    pub full_output: bool,
    /// Start the recorder that waits for this frame.
    pub start_recorder: bool,
}

/// What a finished camera frame needs, given the session.
pub fn plan_frame(session: SessionState) -> (r: FramePlan)
    ensures
        r.full_output == (session.recording || session.pending_recording),
        r.start_recorder == session.pending_recording,
{
    FramePlan {
        full_output: session.recording || session.pending_recording,
        start_recorder: session.pending_recording,
    }
}

// ---------------------------------------------------------------------------
// The window's side
// ---------------------------------------------------------------------------

/// The worker's reports as the window's capture state sees them.
#[derive(Clone, Copy, Debug, PartialEq, Eq, Structural)]
pub enum WorkerReport {
    PreviewStarted,
    PreviewStopped,
    RecordingFinished,
    /// Frames, status lines and photo results leave the capture state alone.
    Other,
}

/// The capture state after a report from the worker: a started preview is
/// active; a stopped one is neither active nor recording; a finished
/// recording no longer records.
pub open spec fn after_report(state: CaptureState, report: WorkerReport) -> CaptureState {
    match report {
        WorkerReport::PreviewStarted => CaptureState { preview_active: true, ..state },
        WorkerReport::PreviewStopped => CaptureState { preview_active: false, is_recording: false, ..state },
        WorkerReport::RecordingFinished => CaptureState { is_recording: false, ..state },
        WorkerReport::Other => state,
    }
}

/// Updates the capture state for a report from the worker (see `after_report`).
pub fn apply_worker_report(state: &mut CaptureState, report: WorkerReport)
    ensures
        *final(state) == after_report(*old(state), report),
{
    match report {
        WorkerReport::PreviewStarted => {
            state.preview_active = true;
        },
        WorkerReport::PreviewStopped => {
            state.preview_active = false;
            state.is_recording = false;
        },
        WorkerReport::RecordingFinished => {
            state.is_recording = false;
        },
        WorkerReport::Other => {},
    }
}

/// The status line for a finished photo, given the displayed path.
pub open spec fn photo_message(
    success: bool,
    path: Seq<char>,
    stderr: Seq<char>,
    resolution: Option<(usize, usize)>,
) -> Seq<char> {
    if success {
        match resolution {
            Some((w, h)) => "Foto máxima salva em "@ + path + " ("@ + decimal(w as nat) + "x"@
                + decimal(h as nat) + ")."@,
            None => "Foto salva em "@ + path + "."@,
        }
    } else if stderr.len() == 0 {
        "Falha ao salvar foto."@
    } else {
        "Falha ao salvar foto: "@ + stderr
    }
}

/// The status line for a finished photo (see `photo_message`).
pub fn photo_finished_message(
    success: bool,
    path: &str,
    stderr: &str,
    resolution: Option<(usize, usize)>,
) -> (r: String)
    ensures
        r@ == photo_message(success, path@, stderr@, resolution),
{
    let mut text: Vec<char>;
    if success {
        match resolution {
            Some((w, h)) => {
                text = chars_of("Foto máxima salva em ");
                append_str(&mut text, path);
                append_str(&mut text, " (");
                let wd = decimal_chars(w as u64);
                append_chars(&mut text, &wd);
                append_str(&mut text, "x");
                let hd = decimal_chars(h as u64);
                append_chars(&mut text, &hd);
                append_str(&mut text, ").");
            },
            None => {
                text = chars_of("Foto salva em ");
                append_str(&mut text, path);
                append_str(&mut text, ".");
            },
        }
    } else if stderr.unicode_len() == 0 {
        text = chars_of("Falha ao salvar foto.");
    } else {
        text = chars_of("Falha ao salvar foto: ");
        append_str(&mut text, stderr);
    }
    string_from_chars(&text)
}

/// The status line for a finished recording, given the displayed path.
pub open spec fn recording_message(success: bool, path: Seq<char>, stderr: Seq<char>) -> Seq<char> {
    if success {
        "Vídeo salvo em "@ + path + "."@
    } else if stderr.len() == 0 {
        "Falha ao gravar vídeo."@
    } else {
        "Falha ao gravar vídeo: "@ + stderr
    }
}

/// The status line for a finished recording (see `recording_message`).
pub fn recording_finished_message(success: bool, path: &str, stderr: &str) -> (r: String)
    ensures
        r@ == recording_message(success, path@, stderr@),
{
    let mut text: Vec<char>;
    if success {
        text = chars_of("Vídeo salvo em ");
        append_str(&mut text, path);
        append_str(&mut text, ".");
    } else if stderr.unicode_len() == 0 {
        text = chars_of("Falha ao gravar vídeo.");
    } else {
        text = chars_of("Falha ao gravar vídeo: ");
        append_str(&mut text, stderr);
    }
    string_from_chars(&text)
}

/// What the window does once a setting changed and the configuration was
/// saved.
#[derive(Clone, Copy, Debug)]
pub struct ConfigChangePlan {
    /// Send the configuration to the worker, asking it to restart the
    /// preview or not; `None` keeps it in the file only.
    pub send_restart: Option<bool>,
    /// Whether a restart is still owed after this change.
    pub restart_pending: bool,
    /// The status line to show.
    pub message: &'static str,
}

/// After a change: with automatic application on, the configuration goes to
/// the worker (restarting a running preview when the change needs it) and
/// no restart stays owed; otherwise it only stays in the file, and a change
/// that needs a restart leaves one owed.
pub open spec fn config_change(
    auto_apply: bool,
    restart_required: bool,
    restart_was_pending: bool,
    preview_active: bool,
) -> (Option<bool>, bool, Seq<char>) {
    if auto_apply {
        if restart_required {
            (
                Some(preview_active),
                false,
                if preview_active {
                    "Reiniciando o preview para aplicar a nova resolução ou preset..."@
                } else {
                    "Nova resolução ou preset salvo. O próximo preview já abrirá com a nova configuração."@
                },
            )
        } else {
            (Some(false), restart_was_pending, "Ajustes aplicados."@)
        }
    } else if restart_required {
        (None, true, "Configuração salva. A nova resolução ou preset será aplicada no próximo preview."@)
    } else {
        (None, restart_was_pending, "Configuração salva. Clique em Aplicar para enviar ao preview."@)
    }
}

/// What the window does once a setting changed (see `config_change`).
pub fn plan_config_change(
    auto_apply: bool,
    restart_required: bool,
    restart_was_pending: bool,
    preview_active: bool,
) -> (r: ConfigChangePlan)
    ensures
        (r.send_restart, r.restart_pending, r.message@) == config_change(
            auto_apply,
            restart_required,
            restart_was_pending,
            preview_active,
        ),
{
    if auto_apply {
        if restart_required {
            ConfigChangePlan {
                send_restart: Some(preview_active),
                restart_pending: false,
                message: if preview_active {
                    "Reiniciando o preview para aplicar a nova resolução ou preset..."
                } else {
                    "Nova resolução ou preset salvo. O próximo preview já abrirá com a nova configuração."
                },
            }
        } else {
            ConfigChangePlan { send_restart: Some(false), restart_pending: restart_was_pending, message: "Ajustes aplicados." }
        }
    } else if restart_required {
        ConfigChangePlan {
            send_restart: None,
            restart_pending: true,
            message: "Configuração salva. A nova resolução ou preset será aplicada no próximo preview.",
        }
    } else {
        ConfigChangePlan {
            send_restart: None,
            restart_pending: restart_was_pending,
            message: "Configuração salva. Clique em Aplicar para enviar ao preview.",
        }
    }
}

/// A report of the worker with what the window reads of it; a path comes
/// as its bytes and as the text shown for it.
pub enum WindowEvent {
    PreviewStarted { width: usize, height: usize },
    PreviewStopped { reason: String },
    PreviewFrame,
    Status { message: String },
    PhotoFinished {
        success: bool,
        path: Vec<u8>,
        shown_path: String,
        stderr: String,
        resolution: Option<(usize, usize)>,
    },
    RecordingFinished { success: bool, path: Vec<u8>, shown_path: String, stderr: String },
}

/// What the window changes for a report.
pub struct WindowUpdate {
    /// How the capture state changes (see `after_report`).
    pub report: WorkerReport,
    /// The new status text, when it changes.
    pub status: Option<String>,
    /// The text put on the status line, when it changes.
    pub label: Option<String>,
    /// Whether the status also pops up as a toast.
    pub toast: bool,
    /// The message kept to show when the preview stops.
    pub post_stop_status: Option<String>,
    /// The last photo or video saved.
    pub last_media_path: Option<Vec<u8>>,
}

/// The views of what the window changes: capture report, status text,
/// status line, toast, post-stop message and last saved media.
pub type WindowUpdateView = (WorkerReport, Option<Seq<char>>, Option<Seq<char>>, bool, Option<Seq<char>>, Option<Seq<u8>>);

pub open spec fn opt_text(v: Option<String>) -> Option<Seq<char>> {
    match v {
        Some(t) => Some(t@),
        None => None,
    }
}

pub open spec fn opt_bytes(v: Option<Vec<u8>>) -> Option<Seq<u8>> {
    match v {
        Some(b) => Some(b@),
        None => None,
    }
}

/// What the window changes for a report. A started preview shows its size
/// in the status text and `Preview ativo.` on the status line. A stopped
/// preview shows the message kept for it, if any, else the reason, and the
/// kept message is used up. A status message is shown. A finished photo or
/// recording is shown with a toast, and on success becomes the last saved
/// media. Frames change nothing here.
pub open spec fn window_update_of(
    event: WindowEvent,
    post_stop_status: Option<Seq<char>>,
    last_media_path: Option<Seq<u8>>,
) -> WindowUpdateView {
    match event {
        WindowEvent::PreviewStarted { width, height } => (
            WorkerReport::PreviewStarted,
            Some("Preview ativo em "@ + decimal(width as nat) + "x"@ + decimal(height as nat) + "."@),
            Some("Preview ativo."@),
            false,
            post_stop_status,
            last_media_path,
        ),
        WindowEvent::PreviewStopped { reason } => {
            let text = match post_stop_status {
                Some(kept) => kept,
                None => reason@,
            };
            (WorkerReport::PreviewStopped, Some(text), Some(text), false, None, last_media_path)
        },
        WindowEvent::PreviewFrame => (WorkerReport::Other, None, None, false, post_stop_status, last_media_path),
        WindowEvent::Status { message } => (
            WorkerReport::Other,
            Some(message@),
            Some(message@),
            false,
            post_stop_status,
            last_media_path,
        ),
        WindowEvent::PhotoFinished { success, path, shown_path, stderr, resolution } => {
            let text = photo_message(success, shown_path@, stderr@, resolution);
            (
                WorkerReport::Other,
                Some(text),
                Some(text),
                true,
                post_stop_status,
                if success { Some(path@) } else { last_media_path },
            )
        },
        WindowEvent::RecordingFinished { success, path, shown_path, stderr } => {
            let text = recording_message(success, shown_path@, stderr@);
            (
                WorkerReport::RecordingFinished,
                Some(text),
                Some(text),
                true,
                post_stop_status,
                if success { Some(path@) } else { last_media_path },
            )
        },
    }
}

/// What the window changes for a report (see `window_update_of`).
pub fn window_update(
    event: WindowEvent,
    post_stop_status: Option<String>,
    last_media_path: Option<Vec<u8>>,
) -> (r: WindowUpdate)
    ensures
        (r.report, opt_text(r.status), opt_text(r.label), r.toast, opt_text(r.post_stop_status), opt_bytes(
            r.last_media_path,
        )) == window_update_of(event, opt_text(post_stop_status), opt_bytes(last_media_path)),
{
    match event {
        WindowEvent::PreviewStarted { width, height } => {
            let mut text = chars_of("Preview ativo em ");
            let w = decimal_chars(width as u64);
            append_chars(&mut text, &w);
            append_str(&mut text, "x");
            let h = decimal_chars(height as u64);
            append_chars(&mut text, &h);
            append_str(&mut text, ".");
            WindowUpdate {
                report: WorkerReport::PreviewStarted,
                status: Some(string_from_chars(&text)),
                label: Some(String::from_str("Preview ativo.")),
                toast: false,
                post_stop_status,
                last_media_path,
            }
        },
        WindowEvent::PreviewStopped { reason } => {
            let text = match post_stop_status {
                Some(kept) => kept,
                None => reason,
            };
            WindowUpdate {
                report: WorkerReport::PreviewStopped,
                status: Some(text.clone()),
                label: Some(text),
                toast: false,
                post_stop_status: None,
                last_media_path,
            }
        },
        WindowEvent::PreviewFrame => WindowUpdate {
            report: WorkerReport::Other,
            status: None,
            label: None,
            toast: false,
            post_stop_status,
            last_media_path,
        },
        WindowEvent::Status { message } => WindowUpdate {
            report: WorkerReport::Other,
            status: Some(message.clone()),
            label: Some(message),
            toast: false,
            post_stop_status,
            last_media_path,
        },
        WindowEvent::PhotoFinished { success, path, shown_path, stderr, resolution } => {
            let text = photo_finished_message(success, shown_path.as_str(), stderr.as_str(), resolution);
            WindowUpdate {
                report: WorkerReport::Other,
                status: Some(text.clone()),
                label: Some(text),
                toast: true,
                post_stop_status,
                last_media_path: if success { Some(path) } else { last_media_path },
            }
        },
        WindowEvent::RecordingFinished { success, path, shown_path, stderr } => {
            let text = recording_finished_message(success, shown_path.as_str(), stderr.as_str());
            WindowUpdate {
                report: WorkerReport::RecordingFinished,
                status: Some(text.clone()),
                label: Some(text),
                toast: true,
                post_stop_status,
                last_media_path: if success { Some(path) } else { last_media_path },
            }
        },
    }
}

/// A recording is prepared exactly when it is asked for while a preview
/// runs with nothing recording or waiting to record; video asks for a
/// preview exactly when recording is asked for without one; and a photo is
/// taken exactly when one is asked for while no recording runs or waits.
pub proof fn lemma_worker_recording_rules(session: SessionState, command: WorkerCommandKind)
    ensures
        worker_steps(session, command).contains(WorkerStep::BeginPendingRecording) <==> (command
            == WorkerCommandKind::StartRecording && session.active && !session.recording
            && !session.pending_recording),
        worker_steps(session, command).contains(WorkerStep::ReportNeedPreview) <==> (command
            == WorkerCommandKind::StartRecording && !session.active),
        worker_steps(session, command).contains(WorkerStep::CapturePhoto) <==> (command
            == WorkerCommandKind::CapturePhoto && !(session.active && (session.recording
            || session.pending_recording))),
        worker_steps(session, command).contains(WorkerStep::FinishRecorder) <==> (command
            == WorkerCommandKind::StopRecording && session.active && session.recording),
{
    let steps = worker_steps(session, command);
    if command == WorkerCommandKind::StartRecording && session.active && !session.recording
        && !session.pending_recording {
        assert(steps[0] == WorkerStep::BeginPendingRecording);
    }
    if command == WorkerCommandKind::StartRecording && !session.active {
        assert(steps[0] == WorkerStep::ReportNeedPreview);
    }
    if command == WorkerCommandKind::CapturePhoto && !(session.active && (session.recording
        || session.pending_recording)) {
        if session.active {
            assert(steps[1] == WorkerStep::CapturePhoto);
        } else {
            assert(steps[0] == WorkerStep::CapturePhoto);
        }
    }
    if command == WorkerCommandKind::StopRecording && session.active && session.recording {
        assert(steps[1] == WorkerStep::FinishRecorder);
    }
    if steps.contains(WorkerStep::BeginPendingRecording) {
        let i = choose|i: int| 0 <= i < steps.len() && steps[i] == WorkerStep::BeginPendingRecording;
        assert(steps[i] == WorkerStep::BeginPendingRecording);
    }
    if steps.contains(WorkerStep::ReportNeedPreview) {
        let i = choose|i: int| 0 <= i < steps.len() && steps[i] == WorkerStep::ReportNeedPreview;
        assert(steps[i] == WorkerStep::ReportNeedPreview);
    }
    if steps.contains(WorkerStep::CapturePhoto) {
        let i = choose|i: int| 0 <= i < steps.len() && steps[i] == WorkerStep::CapturePhoto;
        assert(steps[i] == WorkerStep::CapturePhoto);
    }
    if steps.contains(WorkerStep::FinishRecorder) {
        let i = choose|i: int| 0 <= i < steps.len() && steps[i] == WorkerStep::FinishRecorder;
        assert(steps[i] == WorkerStep::FinishRecorder);
    }
}

} // verus!
