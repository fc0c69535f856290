//! What the capture button does: photo or video, at once or after a
//! countdown, and the countdown itself.

use vstd::prelude::*;

use crate::resolution::{countdown_choices, normalize_countdown_seconds, normalized_countdown};
use crate::text::{append_chars, chars_of, decimal, decimal_chars, string_from_chars};

verus! {

/// Whether the capture button takes photos or records video.
#[derive(Clone, Copy, Debug, PartialEq, Eq, Structural)]
pub enum CaptureMode {
    Photo,
    Video,
}

/// The capture that a running countdown ends in.
#[derive(Clone, Copy, Debug, PartialEq, Eq, Structural)]
pub enum PendingCaptureAction {
    Photo,
    StartRecording,
}

/// The part of the window's state that capturing reads and changes.
#[derive(Clone, Copy, Debug, PartialEq, Eq, Structural)]
pub struct CaptureState {
    pub capture_mode: CaptureMode,
    pub preview_active: bool,
    pub is_recording: bool,
    /// Seconds left on the countdown, while one runs.
    pub countdown_remaining: Option<u32>,
    /// What the running countdown ends in.
    pub pending_capture_action: Option<PendingCaptureAction>,
}

impl CaptureState {
    /// The state of a new window: photo mode, no preview, nothing running.
    pub fn new() -> (r: Self)
        ensures
            r.capture_mode == CaptureMode::Photo,
            !r.preview_active,
            !r.is_recording,
            r.countdown_remaining is None,
            r.pending_capture_action is None,
    {
        CaptureState {
            capture_mode: CaptureMode::Photo,
            preview_active: false,
            is_recording: false,
            countdown_remaining: None,
            pending_capture_action: None,
        }
    }

    /// A countdown runs exactly when a capture waits for it, and it never
    /// shows zero seconds.
    pub open spec fn wf(self) -> bool {
        &&& (self.countdown_remaining is Some) == (self.pending_capture_action is Some)
        &&& (self.countdown_remaining matches Some(n) ==> n > 0)
    }
}

/// What pressing the capture button does.
#[derive(Clone, Copy, Debug, PartialEq, Eq, Structural)]
pub enum CaptureStep {
    /// A countdown runs: cancel it, saying so.
    CancelCountdown,
    /// Start a countdown of the given seconds that ends in the action.
    StartCountdown(PendingCaptureAction, u32),
    /// Take a photo now.
    CapturePhotoNow,
    /// Stop the running recording.
    StopRecordingNow,
    /// Video needs a running preview: say so.
    NeedPreview,
    /// Start recording now.
    StartRecordingNow,
}

/// What pressing the capture button does, given the state and the
/// configured countdown (normalized to one of the offered choices first).
pub open spec fn capture_step_for(state: CaptureState, countdown_seconds: u32) -> CaptureStep {
    let seconds = normalized_countdown(countdown_seconds);
    if state.countdown_remaining is Some {
        CaptureStep::CancelCountdown
    } else {
        match state.capture_mode {
            CaptureMode::Photo => if seconds > 0 {
                CaptureStep::StartCountdown(PendingCaptureAction::Photo, seconds)
            } else {
                CaptureStep::CapturePhotoNow
            },
            CaptureMode::Video => if state.is_recording {
                CaptureStep::StopRecordingNow
            } else if !state.preview_active {
                CaptureStep::NeedPreview
            } else if seconds > 0 {
                CaptureStep::StartCountdown(PendingCaptureAction::StartRecording, seconds)
            } else {
                CaptureStep::StartRecordingNow
            },
        }
    }
}

/// What pressing the capture button does (see `capture_step_for`).
pub fn capture_step(state: &CaptureState, countdown_seconds: u32) -> (r: CaptureStep)
    ensures
        r == capture_step_for(*state, countdown_seconds),
{
    if state.countdown_remaining.is_some() {
        return CaptureStep::CancelCountdown;
    }
    let seconds = normalize_countdown_seconds(countdown_seconds);
    match state.capture_mode {
        CaptureMode::Photo => {
            if seconds > 0 {
                CaptureStep::StartCountdown(PendingCaptureAction::Photo, seconds)
            } else {
                CaptureStep::CapturePhotoNow
            }
        },
        CaptureMode::Video => {
            if state.is_recording {
                CaptureStep::StopRecordingNow
            } else if !state.preview_active {
                CaptureStep::NeedPreview
            } else if seconds > 0 {
                CaptureStep::StartCountdown(PendingCaptureAction::StartRecording, seconds)
            } else {
                CaptureStep::StartRecordingNow
            }
        },
    }
}

/// Starts a countdown of `seconds` that ends in `action`, replacing any
/// countdown that ran.
pub fn start_countdown(state: &mut CaptureState, action: PendingCaptureAction, seconds: u32)
    ensures
        final(state).countdown_remaining == Some(seconds),
        final(state).pending_capture_action == Some(action),
        final(state).capture_mode == old(state).capture_mode,
        final(state).preview_active == old(state).preview_active,
        final(state).is_recording == old(state).is_recording,
{
    state.countdown_remaining = Some(seconds);
    state.pending_capture_action = Some(action);
}

/// Cancels the running countdown, if any; tells whether one ran.
pub fn cancel_countdown(state: &mut CaptureState) -> (was_active: bool)
    ensures
        was_active == (old(state).countdown_remaining is Some),
        was_active ==> *final(state) == without_countdown(*old(state)),
        !was_active ==> *final(state) == *old(state),
{
    if state.countdown_remaining.is_none() {
        return false;
    }
    state.countdown_remaining = None;
    state.pending_capture_action = None;
    true
}

/// What one second of the countdown leads to.
#[derive(Clone, Copy, Debug, PartialEq, Eq, Structural)]
pub enum CountdownTick {
    /// No countdown runs: stop ticking.
    Stopped,
    /// The countdown goes on with the given seconds left.
    Continue(u32),
    /// The countdown is over: run the action it waited for, if any.
    Fire(Option<PendingCaptureAction>),
}

/// The state after one second of the countdown.
pub open spec fn ticked(state: CaptureState) -> CaptureState {
    match state.countdown_remaining {
        Some(n) => if n > 1 {
            CaptureState { countdown_remaining: Some((n - 1) as u32), ..state }
        } else {
            CaptureState { countdown_remaining: None, pending_capture_action: None, ..state }
        },
        None => state,
    }
}

/// What one second of the countdown leads to.
pub open spec fn tick_result(state: CaptureState) -> CountdownTick {
    match state.countdown_remaining {
        Some(n) => if n > 1 {
            CountdownTick::Continue((n - 1) as u32)
        } else {
            CountdownTick::Fire(state.pending_capture_action)
        },
        None => CountdownTick::Stopped,
    }
}

/// One second of the countdown (see `ticked` and `tick_result`).
pub fn countdown_tick(state: &mut CaptureState) -> (r: CountdownTick)
    ensures
        *final(state) == ticked(*old(state)),
        r == tick_result(*old(state)),
{
    match state.countdown_remaining {
        Some(remaining) => {
            if remaining > 1 {
                state.countdown_remaining = Some(remaining - 1);
                CountdownTick::Continue(remaining - 1)
            } else {
                state.countdown_remaining = None;
                let action = state.pending_capture_action;
                state.pending_capture_action = None;
                CountdownTick::Fire(action)
            }
        },
        None => CountdownTick::Stopped,
    }
}

/// The state after `k` seconds of the countdown.
pub open spec fn ticked_times(state: CaptureState, k: nat) -> CaptureState
    decreases k,
{
    if k == 0 {
        state
    } else {
        ticked_times(ticked(state), (k - 1) as nat)
    }
}

/// The state with the countdown showing `n`.
pub open spec fn showing(state: CaptureState, n: u32) -> CaptureState {
    CaptureState { countdown_remaining: Some(n), ..state }
}

/// The state with no countdown and nothing waiting for one.
pub open spec fn without_countdown(state: CaptureState) -> CaptureState {
    CaptureState { countdown_remaining: None, pending_capture_action: None, ..state }
}

/// The state right after a countdown of `seconds` ending in `action` starts.
pub open spec fn counting_down(state: CaptureState, action: PendingCaptureAction, seconds: u32) -> CaptureState {
    CaptureState {
        countdown_remaining: Some(seconds),
        pending_capture_action: Some(action),
        ..state
    }
}

/// A countdown started with `seconds` goes on for `seconds - 1` ticks and
/// then fires exactly the action it was started with, leaving no countdown
/// behind; the rest of the state is untouched.
pub proof fn lemma_countdown_fires_after_its_seconds(
    state: CaptureState,
    action: PendingCaptureAction,
    seconds: u32,
)
    requires
        seconds > 0,
    ensures
        forall|k: nat| #![trigger ticked_times(counting_down(state, action, seconds), k)]
            k < seconds - 1 ==> tick_result(ticked_times(counting_down(state, action, seconds), k))
                == CountdownTick::Continue((seconds - 1 - k) as u32),
        tick_result(ticked_times(counting_down(state, action, seconds), (seconds - 1) as nat))
            == CountdownTick::Fire(Some(action)),
        ticked_times(counting_down(state, action, seconds), seconds as nat) == without_countdown(state),
{
    let started = counting_down(state, action, seconds);
    assert forall|k: nat| #![trigger ticked_times(started, k)]
        k < seconds - 1 implies tick_result(ticked_times(started, k)) == CountdownTick::Continue(
            (seconds - 1 - k) as u32,
        ) by {
        lemma_ticked_times_step(started, seconds, k);
    }
    lemma_ticked_times_step(started, seconds, (seconds - 1) as nat);
    lemma_ticked_times_split(started, (seconds - 1) as nat);
}

/// After `k` ticks of a countdown that started at `seconds > k`, it shows
/// `seconds - k`.
proof fn lemma_ticked_times_step(started: CaptureState, seconds: u32, k: nat)
    requires
        started.countdown_remaining == Some(seconds),
        k < seconds,
    ensures
        ticked_times(started, k) == showing(started, (seconds - k) as u32),
    decreases k,
{
    if k > 0 {
        lemma_ticked_times_step(started, seconds, (k - 1) as nat);
        lemma_ticked_times_split(started, (k - 1) as nat);
    } else {
        assert(started == showing(started, (seconds - 0) as u32));
    }
}

/// Ticking `k + 1` times is ticking `k` times, then once more.
proof fn lemma_ticked_times_split(state: CaptureState, k: nat)
    ensures
        ticked_times(state, k + 1) == ticked(ticked_times(state, k)),
    decreases k,
{
    if k > 0 {
        lemma_ticked_times_split(ticked(state), (k - 1) as nat);
        assert(ticked_times(state, k + 1) == ticked_times(ticked(state), k));
        assert(ticked_times(state, k) == ticked_times(ticked(state), (k - 1) as nat));
    } else {
        assert(ticked_times(state, 1) == ticked_times(ticked(state), 0));
    }
}

/// The status line while a countdown runs.
pub open spec fn countdown_message(action: PendingCaptureAction, seconds: u32) -> Seq<char> {
    match action {
        PendingCaptureAction::Photo => "Foto em "@ + decimal(seconds as nat) + "s..."@,
        PendingCaptureAction::StartRecording => "Vídeo em "@ + decimal(seconds as nat) + "s..."@,
    }
}

/// The status line while a countdown runs (see `countdown_message`).
pub fn countdown_status_message(action: PendingCaptureAction, seconds: u32) -> (r: String)
    ensures
        r@ == countdown_message(action, seconds),
{
    let mut text = match action {
        PendingCaptureAction::Photo => chars_of("Foto em "),
        PendingCaptureAction::StartRecording => chars_of("Vídeo em "),
    };
    let digits = decimal_chars(seconds as u64);
    append_chars(&mut text, &digits);
    crate::text::append_str(&mut text, "s...");
    string_from_chars(&text)
}

/// Recording starts only with a running preview; it marks the state as
/// recording and tells whether the start goes ahead.
pub fn begin_recording(state: &mut CaptureState) -> (started: bool)
    ensures
        started == old(state).preview_active,
        started ==> *final(state) == (CaptureState { is_recording: true, ..*old(state) }),
        !started ==> *final(state) == *old(state),
{
    if !state.preview_active {
        return false;
    }
    state.is_recording = true;
    true
}

/// Stopping applies only to a running recording; it clears the mark and
/// tells whether a stop goes ahead.
pub fn end_recording(state: &mut CaptureState) -> (stopped: bool)
    ensures
        stopped == old(state).is_recording,
        *final(state) == (CaptureState { is_recording: false, ..*old(state) }),
{
    if !state.is_recording {
        return false;
    }
    state.is_recording = false;
    true
}

/// How the capture button looks.
#[derive(Clone, Copy, Debug, PartialEq, Eq, Structural)]
pub enum CaptureButtonLook {
    Photo,
    Video,
    Recording,
}

/// How the capture button looks: by mode, and as a stop button while
/// recording video.
pub fn capture_button_look(mode: CaptureMode, is_recording: bool) -> (r: CaptureButtonLook)
    ensures
        r == match mode {
            CaptureMode::Photo => CaptureButtonLook::Photo,
            CaptureMode::Video => if is_recording {
                CaptureButtonLook::Recording
            } else {
                CaptureButtonLook::Video
            },
        },
{
    match mode {
        CaptureMode::Photo => CaptureButtonLook::Photo,
        CaptureMode::Video => {
            if is_recording {
                CaptureButtonLook::Recording
            } else {
                CaptureButtonLook::Video
            }
        },
    }
}

/// The message (before translation) of the capture button's tooltip.
pub open spec fn capture_tooltip(mode: CaptureMode, is_recording: bool, countdown_active: bool) -> Seq<char> {
    if countdown_active {
        "Cancelar contagem regressiva"@
    } else {
        match mode {
            CaptureMode::Photo => "Tirar foto"@,
            CaptureMode::Video => if is_recording {
                "Parar gravação"@
            } else {
                "Iniciar gravação"@
            },
        }
    }
}

/// The message (before translation) of the capture button's tooltip (see
/// `capture_tooltip`).
pub fn capture_tooltip_message(mode: CaptureMode, is_recording: bool, countdown_active: bool) -> (r: &'static str)
    ensures
        r@ == capture_tooltip(mode, is_recording, countdown_active),
{
    if countdown_active {
        "Cancelar contagem regressiva"
    } else {
        match mode {
            CaptureMode::Photo => "Tirar foto",
            CaptureMode::Video => {
                if is_recording {
                    "Parar gravação"
                } else {
                    "Iniciar gravação"
                }
            },
        }
    }
}

/// What the capture button may do. A running countdown is cancelled, and
/// only then. Video recording, at once or after a countdown, starts only in
/// video mode with a running preview and nothing recording; without a
/// preview, video mode asks for one whatever the countdown. A countdown is
/// only ever started for 3 or 10 seconds, the length configured.
pub proof fn lemma_capture_button_rules(state: CaptureState, countdown_seconds: u32)
    ensures
        (capture_step_for(state, countdown_seconds) == CaptureStep::CancelCountdown)
            == (state.countdown_remaining is Some),
        state.countdown_remaining is None && state.capture_mode == CaptureMode::Video
            && !state.is_recording && !state.preview_active
            ==> capture_step_for(state, countdown_seconds) == CaptureStep::NeedPreview,
        (capture_step_for(state, countdown_seconds) == CaptureStep::StartRecordingNow
            || capture_step_for(state, countdown_seconds) matches CaptureStep::StartCountdown(
            PendingCaptureAction::StartRecording,
            _,
        )) ==> state.capture_mode == CaptureMode::Video && state.preview_active && !state.is_recording
            && state.countdown_remaining is None,
        capture_step_for(state, countdown_seconds) matches CaptureStep::StartCountdown(_, n) ==> n
            == countdown_seconds && (n == 3 || n == 10),
        state.countdown_remaining is None && state.capture_mode == CaptureMode::Video
            && state.is_recording ==> capture_step_for(state, countdown_seconds)
            == CaptureStep::StopRecordingNow,
{
    let choices = countdown_choices();
    if choices.contains(countdown_seconds) {
        let i = choose|i: int| 0 <= i < choices.len() && choices[i] == countdown_seconds;
        assert(i == 0 || i == 1 || i == 2);
    }
}

} // verus!
