//! The ffmpeg side of video: encoder choice, the argument lists of the
//! encoding processes, and the reading of what those processes report.

use vstd::prelude::*;

use crate::frame::OwnedFrame;
use crate::text::{
    append_str, chars_of, decimal, decimal_chars, decode_utf8_lossy, is_whitespace_char, is_ws,
    join, join_exec, lines, lines_of, occurs_at, occurs_at_exec, starts_with, starts_with_exec,
    string_from_chars, trim, trim_chars, utf8_lossy, views,
};

verus! {

/// The frame rate at which raw preview frames are fed to the encoder.
pub const PREVIEW_FRAMERATE: u32 = 30;

/// The DRM render nodes probed for hardware encoding, in order.
pub open spec fn drm_render_nodes() -> Seq<Seq<char>> {
    seq!["/dev/dri/renderD128"@, "/dev/dri/renderD129"@]
}

/// The DRM render nodes probed for hardware encoding, in order.
pub fn drm_render_node_paths() -> (r: Vec<&'static str>)
    ensures
        r@.map_values(|s: &'static str| s@) == drm_render_nodes(),
{
    let r = vec!["/dev/dri/renderD128", "/dev/dri/renderD129"];
    assert(r@.map_values(|s: &'static str| s@) =~= drm_render_nodes());
    r
}

/// The first candidate marked present, if any (`present[i]` tells whether
/// `candidates[i]` exists).
pub fn first_present<'a>(candidates: &Vec<&'a str>, present: &Vec<bool>) -> (r: Option<&'a str>)
    requires
        candidates.len() == present.len(),
    ensures
        match r {
            Some(c) => exists|i: int|
                0 <= i < candidates.len() && present[i] && candidates[i] == c
                    && forall|j: int| 0 <= j < i ==> !present[j],
            None => forall|j: int| 0 <= j < present.len() ==> !present[j],
        },
{
    let mut i: usize = 0;
    while i < candidates.len()
        invariant
            candidates.len() == present.len(),
            i <= candidates.len(),
            forall|j: int| 0 <= j < i ==> !present[j],
        decreases candidates.len() - i,
    {
        if present[i] {
            return Some(candidates[i]);
        }
        i = i + 1;
    }
    None
}

/// The encoders that video recording can use.
#[derive(Clone, Copy, Debug, PartialEq, Eq, Structural)]
pub enum VideoEncoderBackend {
    NvidiaNvenc,
    IntelQsv,
    Vaapi,
    CpuX264,
}

/// The views of a list of arguments.
pub open spec fn arg_views(v: Seq<String>) -> Seq<Seq<char>> {
    v.map_values(|s: String| s@)
}

/// Appends one argument.
fn push_arg(args: &mut Vec<String>, a: &str)
    ensures
        arg_views(final(args)@) == arg_views(old(args)@).push(a@),
{
    args.push(String::from_str(a));
    assert(arg_views(args@) =~= arg_views(old(args)@).push(a@));
}

/// Appends one argument given as characters.
fn push_arg_chars(args: &mut Vec<String>, a: &Vec<char>)
    ensures
        arg_views(final(args)@) == arg_views(old(args)@).push(a@),
{
    args.push(string_from_chars(a));
    assert(arg_views(args@) =~= arg_views(old(args)@).push(a@));
}

impl VideoEncoderBackend {
    /// The message under which the encoder is shown to the user.
    pub open spec fn ui_message(self) -> Seq<char> {
        match self {
            VideoEncoderBackend::NvidiaNvenc => "GPU NVIDIA (NVENC)"@,
            VideoEncoderBackend::IntelQsv => "hardware Intel (Quick Sync)"@,
            VideoEncoderBackend::Vaapi => "hardware VA-API"@,
            VideoEncoderBackend::CpuX264 => "CPU (libx264)"@,
        }
    }

    /// The message (before translation) under which the encoder is shown
    /// to the user (see `ui_message`).
    pub fn ui_message_id(self) -> (r: &'static str)
        ensures
            r@ == self.ui_message(),
    {
        match self {
            VideoEncoderBackend::NvidiaNvenc => "GPU NVIDIA (NVENC)",
            VideoEncoderBackend::IntelQsv => "hardware Intel (Quick Sync)",
            VideoEncoderBackend::Vaapi => "hardware VA-API",
            VideoEncoderBackend::CpuX264 => "CPU (libx264)",
        }
    }

    /// Arguments that go before the inputs: VA-API names its render node.
    pub open spec fn global_args(self, render_node: Option<Seq<char>>) -> Seq<Seq<char>> {
        match (self, render_node) {
            (VideoEncoderBackend::Vaapi, Some(node)) => seq!["-vaapi_device"@, node],
            _ => seq![],
        }
    }

    /// Arguments that select and tune the video encoder.
    pub open spec fn video_output_args(self) -> Seq<Seq<char>> {
        seq!["-fps_mode:v"@, "vfr"@] + match self {
            VideoEncoderBackend::NvidiaNvenc => seq![
                "-c:v"@, "h264_nvenc"@, "-preset"@, "p5"@, "-tune"@, "hq"@, "-pix_fmt"@, "yuv420p"@,
            ],
            VideoEncoderBackend::IntelQsv => seq!["-c:v"@, "h264_qsv"@, "-preset"@, "faster"@],
            VideoEncoderBackend::Vaapi => seq!["-vf"@, "format=nv12,hwupload"@, "-c:v"@, "h264_vaapi"@],
            VideoEncoderBackend::CpuX264 => seq![
                "-c:v"@, "libx264"@, "-preset"@, "ultrafast"@, "-pix_fmt"@, "yuv420p"@,
            ],
        }
    }

    fn add_global_args(self, args: &mut Vec<String>, render_node: Option<&str>)
        ensures
            arg_views(final(args)@) == arg_views(old(args)@) + self.global_args(
                match render_node { Some(n) => Some(n@), None => None },
            ),
    {
        match (self, render_node) {
            (VideoEncoderBackend::Vaapi, Some(node)) => {
                push_arg(args, "-vaapi_device");
                push_arg(args, node);
            },
            _ => {},
        }
        assert(arg_views(args@) =~= arg_views(old(args)@) + self.global_args(
            match render_node { Some(n) => Some(n@), None => None },
        ));
    }

    fn add_video_output_args(self, args: &mut Vec<String>)
        ensures
            arg_views(final(args)@) == arg_views(old(args)@) + self.video_output_args(),
    {
        push_arg(args, "-fps_mode:v");
        push_arg(args, "vfr");
        match self {
            VideoEncoderBackend::NvidiaNvenc => {
                push_arg(args, "-c:v");
                push_arg(args, "h264_nvenc");
                push_arg(args, "-preset");
                push_arg(args, "p5");
                push_arg(args, "-tune");
                push_arg(args, "hq");
                push_arg(args, "-pix_fmt");
                push_arg(args, "yuv420p");
            },
            VideoEncoderBackend::IntelQsv => {
                push_arg(args, "-c:v");
                push_arg(args, "h264_qsv");
                push_arg(args, "-preset");
                push_arg(args, "faster");
            },
            VideoEncoderBackend::Vaapi => {
                push_arg(args, "-vf");
                push_arg(args, "format=nv12,hwupload");
                push_arg(args, "-c:v");
                push_arg(args, "h264_vaapi");
            },
            VideoEncoderBackend::CpuX264 => {
                push_arg(args, "-c:v");
                push_arg(args, "libx264");
                push_arg(args, "-preset");
                push_arg(args, "ultrafast");
                push_arg(args, "-pix_fmt");
                push_arg(args, "yuv420p");
            },
        }
        assert(arg_views(args@) =~= arg_views(old(args)@) + self.video_output_args());
    }
}

/// The view of an optional render node.
pub open spec fn node_view(render_node: Option<&str>) -> Option<Seq<char>> {
    match render_node {
        Some(n) => Some(n@),
        None => None,
    }
}

/// The arguments of an ffmpeg run that reads raw RGBA frames of the given
/// size from standard input, up to and including the input.
pub open spec fn rawvideo_arg_list(
    width: nat,
    height: nat,
    use_wallclock_timestamps: bool,
    backend: VideoEncoderBackend,
    render_node: Option<Seq<char>>,
) -> Seq<Seq<char>> {
    seq!["-hide_banner"@, "-loglevel"@, "error"@, "-y"@] + backend.global_args(render_node) + (
    if use_wallclock_timestamps {
        seq!["-use_wallclock_as_timestamps"@, "1"@, "-fflags"@, "+genpts"@]
    } else {
        seq![]
    }) + seq![
        "-f"@, "rawvideo"@, "-pix_fmt"@, "rgba"@, "-video_size"@,
        decimal(width) + "x"@ + decimal(height), "-framerate"@, decimal(PREVIEW_FRAMERATE as nat),
        "-i"@, "pipe:0"@,
    ]
}

/// The arguments of an ffmpeg run that reads raw RGBA frames of the given
/// size from standard input (the program name not included).
pub fn rawvideo_args(
    width: usize,
    height: usize,
    use_wallclock_timestamps: bool,
    backend: VideoEncoderBackend,
    render_node: Option<&str>,
) -> (r: Vec<String>)
    ensures
        arg_views(r@) == rawvideo_arg_list(
            width as nat,
            height as nat,
            use_wallclock_timestamps,
            backend,
            node_view(render_node),
        ),
{
    let mut args: Vec<String> = Vec::new();
    push_arg(&mut args, "-hide_banner");
    push_arg(&mut args, "-loglevel");
    push_arg(&mut args, "error");
    push_arg(&mut args, "-y");
    let ghost head = arg_views(args@);
    backend.add_global_args(&mut args, render_node);
    let ghost with_global = arg_views(args@);
    if use_wallclock_timestamps {
        push_arg(&mut args, "-use_wallclock_as_timestamps");
        push_arg(&mut args, "1");
        push_arg(&mut args, "-fflags");
        push_arg(&mut args, "+genpts");
    }
    let ghost with_clock = arg_views(args@);
    push_arg(&mut args, "-f");
    push_arg(&mut args, "rawvideo");
    push_arg(&mut args, "-pix_fmt");
    push_arg(&mut args, "rgba");
    push_arg(&mut args, "-video_size");
    let mut size = decimal_chars(width as u64);
    append_str(&mut size, "x");
    let h = decimal_chars(height as u64);
    crate::text::append_chars(&mut size, &h);
    push_arg_chars(&mut args, &size);
    push_arg(&mut args, "-framerate");
    let rate = decimal_chars(PREVIEW_FRAMERATE as u64);
    push_arg_chars(&mut args, &rate);
    push_arg(&mut args, "-i");
    push_arg(&mut args, "pipe:0");
    proof {
        assert(head =~= seq!["-hide_banner"@, "-loglevel"@, "error"@, "-y"@]);
        assert(arg_views(args@) =~= rawvideo_arg_list(
            width as nat,
            height as nat,
            use_wallclock_timestamps,
            backend,
            node_view(render_node),
        ));
    }
    args
}

/// The audio input that recording asks for: the configured source, or the
/// system's default when it is blank.
pub open spec fn recording_audio_input(audio_source: Seq<char>) -> Seq<char> {
    if trim(audio_source).len() == 0 {
        "default"@
    } else {
        audio_source
    }
}

/// The arguments of the ffmpeg run that records video from raw frames, and
/// audio from PulseAudio when asked to (the output path, which comes last,
/// not included).
pub open spec fn recorder_arg_list(
    width: nat,
    height: nat,
    record_audio: bool,
    audio_source: Seq<char>,
    backend: VideoEncoderBackend,
    render_node: Option<Seq<char>>,
) -> Seq<Seq<char>> {
    rawvideo_arg_list(width, height, true, backend, render_node) + (if record_audio {
        seq![
            "-thread_queue_size"@, "512"@, "-f"@, "pulse"@, "-i"@,
            recording_audio_input(audio_source),
        ]
    } else {
        seq!["-an"@]
    }) + backend.video_output_args() + (if record_audio {
        seq![
            "-af"@, "aresample=async=1:first_pts=0"@, "-c:a"@, "aac"@, "-b:a"@, "160k"@,
            "-shortest"@,
        ]
    } else {
        seq![]
    })
}

/// The arguments of the ffmpeg run that records a video (see
/// `recorder_arg_list`); the caller appends the output path.
pub fn video_recorder_args(
    width: usize,
    height: usize,
    record_audio: bool,
    audio_source: &str,
    backend: VideoEncoderBackend,
    render_node: Option<&str>,
) -> (r: Vec<String>)
    ensures
        arg_views(r@) == recorder_arg_list(
            width as nat,
            height as nat,
            record_audio,
            audio_source@,
            backend,
            node_view(render_node),
        ),
{
    let mut args = rawvideo_args(width, height, true, backend, render_node);
    let ghost raw = arg_views(args@);
    if record_audio {
        push_arg(&mut args, "-thread_queue_size");
        push_arg(&mut args, "512");
        push_arg(&mut args, "-f");
        push_arg(&mut args, "pulse");
        push_arg(&mut args, "-i");
        let trimmed = crate::text::trim_str(audio_source);
        if trimmed.len() == 0 {
            push_arg(&mut args, "default");
        } else {
            push_arg(&mut args, audio_source);
        }
    } else {
        push_arg(&mut args, "-an");
    }
    let ghost with_input = arg_views(args@);
    backend.add_video_output_args(&mut args);
    let ghost with_video = arg_views(args@);
    if record_audio {
        push_arg(&mut args, "-af");
        push_arg(&mut args, "aresample=async=1:first_pts=0");
        push_arg(&mut args, "-c:a");
        push_arg(&mut args, "aac");
        push_arg(&mut args, "-b:a");
        push_arg(&mut args, "160k");
        push_arg(&mut args, "-shortest");
    }
    proof {
        assert(arg_views(args@) =~= recorder_arg_list(
            width as nat,
            height as nat,
            record_audio,
            audio_source@,
            backend,
            node_view(render_node),
        ));
    }
    args
}

/// The arguments of the ffmpeg run that encodes the smoke-test video with
/// the CPU encoder (the output path, which comes last, not included).
pub open spec fn smoke_video_arg_list(width: nat, height: nat) -> Seq<Seq<char>> {
    rawvideo_arg_list(width, height, false, VideoEncoderBackend::CpuX264, None) + seq!["-an"@]
        + VideoEncoderBackend::CpuX264.video_output_args()
}

/// The arguments of the smoke-test video run (see `smoke_video_arg_list`).
pub fn smoke_video_args(width: usize, height: usize) -> (r: Vec<String>)
    ensures
        arg_views(r@) == smoke_video_arg_list(width as nat, height as nat),
{
    let mut args = rawvideo_args(width, height, false, VideoEncoderBackend::CpuX264, None);
    push_arg(&mut args, "-an");
    VideoEncoderBackend::CpuX264.add_video_output_args(&mut args);
    proof {
        assert(arg_views(args@) =~= smoke_video_arg_list(width as nat, height as nat));
    }
    args
}

/// The number of raw frames written to the smoke-test video.
pub const SMOKE_VIDEO_FRAMES: usize = 30;

// ---------------------------------------------------------------------------
// What a finished process left behind
// ---------------------------------------------------------------------------

/// What a finished process left behind.
#[derive(Clone, Debug)]
pub struct ProcessOutput {
    /// Whether the process exited successfully.
    pub success: bool,
    pub stdout: Vec<u8>,
    pub stderr: Vec<u8>,
}

/// The text of a run: standard output, then standard error on a line of its
/// own when there was any (`has_err`) and the output text is not empty.
pub open spec fn combined_output(out: Seq<char>, err: Seq<char>, has_err: bool) -> Seq<char> {
    if !has_err {
        out
    } else if out.len() == 0 {
        err
    } else {
        out + seq!['\n'] + err
    }
}

/// The text of a run, each stream decoded as UTF-8 with invalid sequences
/// replaced (see `combined_output`).
pub fn output_text(output: &ProcessOutput) -> (r: String)
    ensures
        r@ == combined_output(
            utf8_lossy(output.stdout@),
            utf8_lossy(output.stderr@),
            output.stderr.len() > 0,
        ),
{
    let out = decode_utf8_lossy(output.stdout.as_slice());
    if output.stderr.len() == 0 {
        return out;
    }
    let err = decode_utf8_lossy(output.stderr.as_slice());
    let mut combined = chars_of(out.as_str());
    if combined.len() > 0 {
        combined.push('\n');
    }
    append_str(&mut combined, err.as_str());
    proof {
        if out@.len() == 0 {
            assert(combined@ =~= err@);
        }
    }
    string_from_chars(&combined)
}

// ---------------------------------------------------------------------------
// Choosing the encoder
// ---------------------------------------------------------------------------

/// The listing of `ffmpeg -encoders`: empty when the process could not be
/// started (`None`), else the text of the run.
pub fn available_ffmpeg_encoders(output: Option<ProcessOutput>) -> (r: String)
    ensures
        match output {
            None => r@ == Seq::<char>::empty(),
            Some(o) => r@ == combined_output(
                utf8_lossy(o.stdout@),
                utf8_lossy(o.stderr@),
                o.stderr.len() > 0,
            ),
        },
{
    match output {
        None => String::new(),
        Some(o) => output_text(&o),
    }
}

/// `name` is one of the whitespace-separated tokens of `line`.
pub open spec fn has_token(line: Seq<char>, name: Seq<char>) -> bool {
    &&& name.len() > 0
    &&& forall|k: int| 0 <= k < name.len() ==> !is_ws(#[trigger] name[k])
    &&& exists|i: int|
        0 <= i && i + name.len() <= line.len() && #[trigger] occurs_at(line, name, i)
            && (i == 0 || is_ws(line[i - 1]))
            && (i + name.len() == line.len() || is_ws(line[i + name.len()]))
}

/// Some line of the listing has the encoder's name as one of its tokens.
pub open spec fn lists_encoder(encoders_output: Seq<char>, encoder_name: Seq<char>) -> bool {
    exists|i: int| 0 <= i < lines(encoders_output).len() && has_token(
        trim(#[trigger] lines(encoders_output)[i]),
        encoder_name,
    )
}

/// Whether `name` is a token of `line`.
fn line_has_token(line: &Vec<char>, name: &Vec<char>) -> (r: bool)
    ensures
        r == has_token(line@, name@),
{
    if name.len() == 0 {
        return false;
    }
    let mut k: usize = 0;
    while k < name.len()
        invariant
            k <= name.len(),
            forall|j: int| 0 <= j < k ==> !is_ws(#[trigger] name@[j]),
        decreases name.len() - k,
    {
        if is_whitespace_char(name[k]) {
            assert(!(forall|j: int| 0 <= j < name.len() ==> !is_ws(#[trigger] name@[j])));
            return false;
        }
        k = k + 1;
    }
    if name.len() > line.len() {
        return false;
    }
    let last = line.len() - name.len();
    let mut i: usize = 0;
    while i <= last
        invariant
            last == line.len() - name.len(),
            name.len() > 0,
            i <= last + 1,
            forall|j: int| 0 <= j < name.len() ==> !is_ws(#[trigger] name@[j]),
            forall|p: int|
                0 <= p < i ==> !(occurs_at(line@, name@, p) && (p == 0 || is_ws(line@[p - 1])) && (
                p + name.len() == line.len() || is_ws(line@[p + name.len()]))),
        decreases last + 1 - i,
    {
        let left_ok = i == 0 || is_whitespace_char(line[i - 1]);
        let right_ok = i + name.len() == line.len() || is_whitespace_char(line[i + name.len()]);
        if left_ok && right_ok && occurs_at_exec(line, name, i) {
            return true;
        }
        i = i + 1;
    }
    false
}

/// Whether the `ffmpeg -encoders` listing names the encoder as a token of
/// one of its lines.
pub fn ffmpeg_has_encoder(encoders_output: &str, encoder_name: &str) -> (r: bool)
    ensures
        r == lists_encoder(encoders_output@, encoder_name@),
{
    let ls = lines_of(&chars_of(encoders_output));
    let name = chars_of(encoder_name);
    let mut i: usize = 0;
    while i < ls.len()
        invariant
            views(ls@) == lines(encoders_output@),
            name@ == encoder_name@,
            i <= ls.len(),
            forall|j: int| 0 <= j < i ==> !has_token(trim(#[trigger] lines(encoders_output@)[j]), encoder_name@),
        decreases ls.len() - i,
    {
        assert(views(ls@)[i as int] == ls@[i as int]@);
        let t = trim_chars(&ls[i]);
        if line_has_token(&t, &name) {
            return true;
        }
        i = i + 1;
    }
    false
}

/// The encoder that recording prefers: NVENC where NVIDIA devices are there
/// and ffmpeg lists it, then Quick Sync and VA-API where a render node is
/// there and ffmpeg lists them, else the CPU encoder.
pub open spec fn preferred_backend(
    encoders_output: Seq<char>,
    nvidia_devices_available: bool,
    render_node_available: bool,
) -> VideoEncoderBackend {
    if nvidia_devices_available && lists_encoder(encoders_output, "h264_nvenc"@) {
        VideoEncoderBackend::NvidiaNvenc
    } else if render_node_available && lists_encoder(encoders_output, "h264_qsv"@) {
        VideoEncoderBackend::IntelQsv
    } else if render_node_available && lists_encoder(encoders_output, "h264_vaapi"@) {
        VideoEncoderBackend::Vaapi
    } else {
        VideoEncoderBackend::CpuX264
    }
}

/// The encoder that recording prefers, from the `ffmpeg -encoders` listing
/// and what the machine has (see `preferred_backend`).
pub fn preferred_video_encoder_backend(
    encoders_output: &str,
    nvidia_devices_available: bool,
    render_node_available: bool,
) -> (r: VideoEncoderBackend)
    ensures
        r == preferred_backend(encoders_output@, nvidia_devices_available, render_node_available),
{
    if nvidia_devices_available && ffmpeg_has_encoder(encoders_output, "h264_nvenc") {
        return VideoEncoderBackend::NvidiaNvenc;
    }
    if render_node_available && ffmpeg_has_encoder(encoders_output, "h264_qsv") {
        return VideoEncoderBackend::IntelQsv;
    }
    if render_node_available && ffmpeg_has_encoder(encoders_output, "h264_vaapi") {
        return VideoEncoderBackend::Vaapi;
    }
    VideoEncoderBackend::CpuX264
}

// ---------------------------------------------------------------------------
// Reading what ffmpeg reports
// ---------------------------------------------------------------------------

/// The lines of ffmpeg's standard error worth showing, trimmed: blank lines
/// and the `libva info:` chatter are left out.
pub open spec fn kept_stderr_lines(ls: Seq<Seq<char>>) -> Seq<Seq<char>>
    decreases ls.len(),
{
    if ls.len() == 0 {
        seq![]
    } else {
        let rest = kept_stderr_lines(ls.drop_last());
        let t = trim(ls.last());
        if t.len() == 0 || starts_with(t, "libva info:"@) {
            rest
        } else {
            rest.push(t)
        }
    }
}

/// ffmpeg's standard error in one line: the kept lines joined by `"; "`.
pub open spec fn normalized_stderr(raw: Seq<u8>) -> Seq<char> {
    join(kept_stderr_lines(lines(utf8_lossy(raw))), "; "@)
}

/// ffmpeg's standard error in one line (see `normalized_stderr`).
pub fn normalize_ffmpeg_stderr(raw: &[u8]) -> (r: String)
    ensures
        r@ == normalized_stderr(raw@),
{
    let text = decode_utf8_lossy(raw);
    let ls = lines_of(&chars_of(text.as_str()));
    let info = chars_of("libva info:");
    let mut kept: Vec<Vec<char>> = Vec::new();
    let mut i: usize = 0;
    while i < ls.len()
        invariant
            views(ls@) == lines(utf8_lossy(raw@)),
            info@ == "libva info:"@,
            i <= ls.len(),
            views(kept@) == kept_stderr_lines(views(ls@).take(i as int)),
        decreases ls.len() - i,
    {
        let t = trim_chars(&ls[i]);
        proof {
            let pre = views(ls@).take(i + 1);
            assert(pre.drop_last() =~= views(ls@).take(i as int));
            assert(pre.last() == ls@[i as int]@);
        }
        if t.len() > 0 && !starts_with_exec(&t, &info) {
            let ghost before = views(kept@);
            kept.push(t);
            assert(views(kept@) =~= before.push(t@));
        }
        i = i + 1;
    }
    assert(views(ls@).take(ls.len() as int) =~= views(ls@));
    let sep = chars_of("; ");
    let joined = join_exec(&kept, &sep);
    string_from_chars(&joined)
}

/// The trimmed standard error of a command, or the fallback when it is blank.
pub open spec fn stderr_or(output: Seq<u8>, fallback: Seq<char>) -> Seq<char> {
    let t = trim(utf8_lossy(output));
    if t.len() == 0 {
        fallback
    } else {
        t
    }
}

/// The trimmed standard error of a command, or the fallback when it is blank.
pub fn command_stderr_or(output: &[u8], fallback: &str) -> (r: String)
    ensures
        r@ == stderr_or(output@, fallback@),
{
    let text = decode_utf8_lossy(output);
    let t = crate::text::trim_str(text.as_str());
    if t.len() == 0 {
        String::from_str(fallback)
    } else {
        string_from_chars(&t)
    }
}

/// A write error followed by ffmpeg's report, when there is one.
pub open spec fn joined_report(write_error: Seq<char>, ffmpeg_stderr: Seq<char>) -> Seq<char> {
    if ffmpeg_stderr.len() == 0 {
        write_error
    } else {
        write_error + "; "@ + ffmpeg_stderr
    }
}

/// How a recording ended once ffmpeg exited: it succeeded when ffmpeg
/// exited successfully and every frame was written; the message is ffmpeg's
/// report where only ffmpeg failed, nothing where nothing failed, and the
/// write error followed by ffmpeg's report where a write failed.
pub open spec fn recording_result(
    exited_ok: bool,
    write_error: Seq<char>,
    ffmpeg_stderr: Seq<char>,
) -> (bool, Seq<char>) {
    let had_write_error = write_error.len() > 0;
    (
        exited_ok && !had_write_error,
        if !had_write_error {
            if exited_ok {
                seq![]
            } else {
                ffmpeg_stderr
            }
        } else {
            joined_report(write_error, ffmpeg_stderr)
        },
    )
}

/// How a recording ended once ffmpeg exited (see `recording_result`), with
/// ffmpeg's standard error reduced to one line first.
pub fn recording_outcome(exited_ok: bool, write_error: &str, stderr: &[u8]) -> (r: (bool, String))
    ensures
        r.0 == recording_result(exited_ok, write_error@, normalized_stderr(stderr@)).0,
        r.1@ == recording_result(exited_ok, write_error@, normalized_stderr(stderr@)).1,
{
    let ffmpeg_stderr = normalize_ffmpeg_stderr(stderr);
    let had_write_error = write_error.unicode_len() > 0;
    let success = exited_ok && !had_write_error;
    if !had_write_error {
        if exited_ok {
            (success, String::new())
        } else {
            (success, ffmpeg_stderr)
        }
    } else if ffmpeg_stderr.as_str().unicode_len() == 0 {
        (success, String::from_str(write_error))
    } else {
        let mut text = chars_of(write_error);
        append_str(&mut text, "; ");
        append_str(&mut text, ffmpeg_stderr.as_str());
        (success, string_from_chars(&text))
    }
}

/// Whether a running recorder takes a frame: only frames of the size it
/// was started with.
pub fn recorder_accepts_frame(width: usize, height: usize, frame: &OwnedFrame) -> (r: bool)
    ensures
        r == (frame.width == width && frame.height == height),
{
    frame.width == width && frame.height == height
}

/// Whether `value` follows `flag` somewhere in the arguments.
pub open spec fn has_option(args: Seq<Seq<char>>, flag: Seq<char>, value: Seq<char>) -> bool {
    exists|i: int| 0 <= i && i + 1 < args.len() && #[trigger] args[i] == flag && args[i + 1] == value
}

/// The recording asks ffmpeg, with `-c:v`, for the encoder of the chosen
/// backend, the one the backend was picked for (`h264_nvenc`, `h264_qsv`,
/// `h264_vaapi` or `libx264`); with VA-API and a render node it also names
/// the device and uploads the frames to it.
pub proof fn lemma_recorder_names_its_encoder(
    width: nat,
    height: nat,
    record_audio: bool,
    audio_source: Seq<char>,
    backend: VideoEncoderBackend,
    render_node: Option<Seq<char>>,
)
    ensures
        has_option(
            recorder_arg_list(width, height, record_audio, audio_source, backend, render_node),
            "-c:v"@,
            match backend {
                VideoEncoderBackend::NvidiaNvenc => "h264_nvenc"@,
                VideoEncoderBackend::IntelQsv => "h264_qsv"@,
                VideoEncoderBackend::Vaapi => "h264_vaapi"@,
                VideoEncoderBackend::CpuX264 => "libx264"@,
            },
        ),
        backend == VideoEncoderBackend::Vaapi ==> has_option(
            recorder_arg_list(width, height, record_audio, audio_source, backend, render_node),
            "-vf"@,
            "format=nv12,hwupload"@,
        ),
        backend == VideoEncoderBackend::Vaapi && render_node is Some ==> has_option(
            recorder_arg_list(width, height, record_audio, audio_source, backend, render_node),
            "-vaapi_device"@,
            render_node->0,
        ),
{
    let raw = rawvideo_arg_list(width, height, true, backend, render_node);
    let audio = if record_audio {
        seq!["-thread_queue_size"@, "512"@, "-f"@, "pulse"@, "-i"@, recording_audio_input(audio_source)]
    } else {
        seq!["-an"@]
    };
    let video = backend.video_output_args();
    let tail = if record_audio {
        seq!["-af"@, "aresample=async=1:first_pts=0"@, "-c:a"@, "aac"@, "-b:a"@, "160k"@, "-shortest"@]
    } else {
        seq![]
    };
    let all = recorder_arg_list(width, height, record_audio, audio_source, backend, render_node);
    assert(all == raw + audio + video + tail);
    let base: int = (raw.len() + audio.len()) as int;
    let k: int = if backend == VideoEncoderBackend::Vaapi { 2 } else { 0 };
    assert(video[k + 2] == "-c:v"@);
    assert(all[base + k + 2] == video[k + 2]);
    assert(all[base + k + 3] == video[k + 3]);
    assert(all[base + k + 2] == "-c:v"@);
    if backend == VideoEncoderBackend::Vaapi {
        assert(all[base + 2] == video[2]);
        assert(all[base + 3] == video[3]);
        assert(all[base + 2] == "-vf"@);
        if render_node is Some {
            assert(raw[4] == "-vaapi_device"@);
            assert(raw[5] == render_node->0);
            assert(all[4] == raw[4]);
            assert(all[5] == raw[5]);
            assert(all[4] == "-vaapi_device"@);
        }
    }
}

} // verus!
