//! The camera configuration file: presets, the settings it holds, reading it
//! from text and writing it back.
//!
//! The file is a list of `KEY=value` lines. The capture, layout and audio
//! settings are held by [`CameraConfig`]; the tone adjustments (brightness,
//! contrast and the like) are floating-point values, which the library keeps
//! as the text that the file holds for them ([`ToneSetting`]).

use vstd::prelude::*;

use crate::resolution::{countdown_choices, normalize_countdown_seconds, normalized_countdown, PreviewZoomOption};
use vstd::string::StringExecFns;
use crate::text::{
    all_digits, append_chars, decimal, decimal_chars, is_digit, is_ws, lemma_decimal_digits,
    lemma_first_index_of, lemma_lines_of_terminated, lemma_parse_decimal, lemma_trim_fixed,
    lemma_trim_shape, strip_cr, terminated_lines, terminated_lines_exec,
    chars_eq_str, chars_of, lines, lines_of, parse_u32, parse_u32_exec, split_once, split_once_exec,
    string_from_chars, trim, trim_chars, views,
};

verus! {

// ---------------------------------------------------------------------------
// Presets
// ---------------------------------------------------------------------------

/// A named set of tone adjustments.
#[derive(Clone, Copy, PartialEq, Eq, Structural, Debug)]
pub enum Preset {
    Natural,
    Indoor,
    Daylight,
}

impl Preset {
    /// Every preset, in the order of the preset selector.
    pub fn all() -> (r: [Preset; 3])
        ensures
            r@ == seq![Preset::Natural, Preset::Indoor, Preset::Daylight],
    {
        let r = [Preset::Natural, Preset::Indoor, Preset::Daylight];
        assert(r@ =~= seq![Preset::Natural, Preset::Indoor, Preset::Daylight]);
        r
    }

    pub open spec fn spec_label(self) -> Seq<char> {
        match self {
            Preset::Natural => "Natural"@,
            Preset::Indoor => "Interno claro"@,
            Preset::Daylight => "Luz do dia"@,
        }
    }

    /// The name shown for the preset.
    pub fn label(self) -> (r: &'static str)
        ensures
            r@ == self.spec_label(),
    {
        match self {
            Preset::Natural => "Natural",
            Preset::Indoor => "Interno claro",
            Preset::Daylight => "Luz do dia",
        }
    }

    /// The preset at a position of the selector; `Natural` past the end.
    pub fn from_index(index: usize) -> (r: Preset)
        ensures
            r == (if index < 3 {
                seq![Preset::Natural, Preset::Indoor, Preset::Daylight][index as int]
            } else {
                Preset::Natural
            }),
    {
        let all = Self::all();
        if index < 3 {
            all[index]
        } else {
            Preset::Natural
        }
    }
}

// ---------------------------------------------------------------------------
// The settings
// ---------------------------------------------------------------------------

/// The capture, layout and audio settings of the camera.
#[derive(Clone, Debug)]
pub struct CameraConfig {
    pub softisp_mode: String,
    pub width: Option<u32>,
    pub height: Option<u32>,
    pub countdown_seconds: u32,
    pub show_grid: bool,
    pub mirror: bool,
    pub record_audio: bool,
    pub audio_source: String,
}

/// The settings as mathematical values.
pub struct CameraConfigView {
    pub softisp_mode: Seq<char>,
    pub width: Option<u32>,
    pub height: Option<u32>,
    pub countdown_seconds: u32,
    pub show_grid: bool,
    pub mirror: bool,
    pub record_audio: bool,
    pub audio_source: Seq<char>,
}

impl View for CameraConfig {
    type V = CameraConfigView;

    open spec fn view(&self) -> CameraConfigView {
        CameraConfigView {
            softisp_mode: self.softisp_mode@,
            width: self.width,
            height: self.height,
            countdown_seconds: self.countdown_seconds,
            show_grid: self.show_grid,
            mirror: self.mirror,
            record_audio: self.record_audio,
            audio_source: self.audio_source@,
        }
    }
}

/// The settings used when the file has none.
pub open spec fn default_config() -> CameraConfigView {
    CameraConfigView {
        softisp_mode: "cpu"@,
        width: Some(1920),
        height: Some(1092),
        countdown_seconds: 0,
        show_grid: true,
        mirror: false,
        record_audio: true,
        audio_source: "default"@,
    }
}

impl Default for CameraConfig {
    fn default() -> (r: Self)
        ensures
            r@ == default_config(),
    {
        CameraConfig {
            softisp_mode: String::from_str("cpu"),
            width: Some(1920),
            height: Some(1092),
            countdown_seconds: 0,
            show_grid: true,
            mirror: false,
            record_audio: true,
            audio_source: String::from_str("default"),
        }
    }
}

/// A tone adjustment, which the file stores as a decimal number.
#[derive(Clone, Copy, PartialEq, Eq, Structural, Debug)]
pub enum ToneSetting {
    Brightness,
    ExposureValue,
    Contrast,
    Saturation,
    Hue,
    Temperature,
    Tint,
    RedGain,
    GreenGain,
    BlueGain,
    Gamma,
    Sharpness,
}

/// The tone adjustments in the order in which the file lists them.
pub open spec fn tone_at(i: int) -> ToneSetting {
    if i == 0 {
        ToneSetting::Brightness
    } else if i == 1 {
        ToneSetting::ExposureValue
    } else if i == 2 {
        ToneSetting::Contrast
    } else if i == 3 {
        ToneSetting::Saturation
    } else if i == 4 {
        ToneSetting::Hue
    } else if i == 5 {
        ToneSetting::Temperature
    } else if i == 6 {
        ToneSetting::Tint
    } else if i == 7 {
        ToneSetting::RedGain
    } else if i == 8 {
        ToneSetting::GreenGain
    } else if i == 9 {
        ToneSetting::BlueGain
    } else if i == 10 {
        ToneSetting::Gamma
    } else {
        ToneSetting::Sharpness
    }
}

/// The key under which the file stores a tone adjustment.
pub open spec fn tone_key(t: ToneSetting) -> Seq<char> {
    match t {
        ToneSetting::Brightness => "CAMERA_BRIGHTNESS"@,
        ToneSetting::ExposureValue => "CAMERA_EXPOSURE_VALUE"@,
        ToneSetting::Contrast => "CAMERA_CONTRAST"@,
        ToneSetting::Saturation => "CAMERA_SATURATION"@,
        ToneSetting::Hue => "CAMERA_HUE"@,
        ToneSetting::Temperature => "CAMERA_TEMPERATURE"@,
        ToneSetting::Tint => "CAMERA_TINT"@,
        ToneSetting::RedGain => "CAMERA_RED_GAIN"@,
        ToneSetting::GreenGain => "CAMERA_GREEN_GAIN"@,
        ToneSetting::BlueGain => "CAMERA_BLUE_GAIN"@,
        ToneSetting::Gamma => "CAMERA_GAMMA"@,
        ToneSetting::Sharpness => "CAMERA_SHARPNESS"@,
    }
}

/// What a key of the file sets.
#[derive(Clone, Copy, PartialEq, Eq, Structural, Debug)]
pub enum ConfigKey {
    SoftIspMode,
    Width,
    Height,
    Countdown,
    ShowGrid,
    Mirror,
    Tone(ToneSetting),
    RecordAudio,
    AudioSource,
}

/// The setting that a (trimmed) key names, if any.
pub open spec fn config_key(key: Seq<char>) -> Option<ConfigKey> {
    if key == "LIBCAMERA_SOFTISP_MODE"@ {
        Some(ConfigKey::SoftIspMode)
    } else if key == "CAMERA_WIDTH"@ {
        Some(ConfigKey::Width)
    } else if key == "CAMERA_HEIGHT"@ {
        Some(ConfigKey::Height)
    } else if key == "CAMERA_COUNTDOWN"@ {
        Some(ConfigKey::Countdown)
    } else if key == "CAMERA_SHOW_GRID"@ {
        Some(ConfigKey::ShowGrid)
    } else if key == "CAMERA_MIRROR"@ {
        Some(ConfigKey::Mirror)
    } else if key == "CAMERA_BRIGHTNESS"@ {
        Some(ConfigKey::Tone(ToneSetting::Brightness))
    } else if key == "CAMERA_EXPOSURE_VALUE"@ {
        Some(ConfigKey::Tone(ToneSetting::ExposureValue))
    } else if key == "CAMERA_CONTRAST"@ {
        Some(ConfigKey::Tone(ToneSetting::Contrast))
    } else if key == "CAMERA_SATURATION"@ {
        Some(ConfigKey::Tone(ToneSetting::Saturation))
    } else if key == "CAMERA_HUE"@ {
        Some(ConfigKey::Tone(ToneSetting::Hue))
    } else if key == "CAMERA_TEMPERATURE"@ {
        Some(ConfigKey::Tone(ToneSetting::Temperature))
    } else if key == "CAMERA_TINT"@ {
        Some(ConfigKey::Tone(ToneSetting::Tint))
    } else if key == "CAMERA_RED_GAIN"@ {
        Some(ConfigKey::Tone(ToneSetting::RedGain))
    } else if key == "CAMERA_GREEN_GAIN"@ {
        Some(ConfigKey::Tone(ToneSetting::GreenGain))
    } else if key == "CAMERA_BLUE_GAIN"@ {
        Some(ConfigKey::Tone(ToneSetting::BlueGain))
    } else if key == "CAMERA_GAMMA"@ {
        Some(ConfigKey::Tone(ToneSetting::Gamma))
    } else if key == "CAMERA_SHARPNESS"@ {
        Some(ConfigKey::Tone(ToneSetting::Sharpness))
    } else if key == "CAMERA_RECORD_AUDIO"@ {
        Some(ConfigKey::RecordAudio)
    } else if key == "CAMERA_AUDIO_SOURCE"@ {
        Some(ConfigKey::AudioSource)
    } else {
        None
    }
}

/// Decides `config_key`.
fn config_key_exec(key: &Vec<char>) -> (r: Option<ConfigKey>)
    ensures
        r == config_key(key@),
{
    if chars_eq_str(key, "LIBCAMERA_SOFTISP_MODE") {
        Some(ConfigKey::SoftIspMode)
    } else if chars_eq_str(key, "CAMERA_WIDTH") {
        Some(ConfigKey::Width)
    } else if chars_eq_str(key, "CAMERA_HEIGHT") {
        Some(ConfigKey::Height)
    } else if chars_eq_str(key, "CAMERA_COUNTDOWN") {
        Some(ConfigKey::Countdown)
    } else if chars_eq_str(key, "CAMERA_SHOW_GRID") {
        Some(ConfigKey::ShowGrid)
    } else if chars_eq_str(key, "CAMERA_MIRROR") {
        Some(ConfigKey::Mirror)
    } else if chars_eq_str(key, "CAMERA_BRIGHTNESS") {
        Some(ConfigKey::Tone(ToneSetting::Brightness))
    } else if chars_eq_str(key, "CAMERA_EXPOSURE_VALUE") {
        Some(ConfigKey::Tone(ToneSetting::ExposureValue))
    } else if chars_eq_str(key, "CAMERA_CONTRAST") {
        Some(ConfigKey::Tone(ToneSetting::Contrast))
    } else if chars_eq_str(key, "CAMERA_SATURATION") {
        Some(ConfigKey::Tone(ToneSetting::Saturation))
    } else if chars_eq_str(key, "CAMERA_HUE") {
        Some(ConfigKey::Tone(ToneSetting::Hue))
    } else if chars_eq_str(key, "CAMERA_TEMPERATURE") {
        Some(ConfigKey::Tone(ToneSetting::Temperature))
    } else if chars_eq_str(key, "CAMERA_TINT") {
        Some(ConfigKey::Tone(ToneSetting::Tint))
    } else if chars_eq_str(key, "CAMERA_RED_GAIN") {
        Some(ConfigKey::Tone(ToneSetting::RedGain))
    } else if chars_eq_str(key, "CAMERA_GREEN_GAIN") {
        Some(ConfigKey::Tone(ToneSetting::GreenGain))
    } else if chars_eq_str(key, "CAMERA_BLUE_GAIN") {
        Some(ConfigKey::Tone(ToneSetting::BlueGain))
    } else if chars_eq_str(key, "CAMERA_GAMMA") {
        Some(ConfigKey::Tone(ToneSetting::Gamma))
    } else if chars_eq_str(key, "CAMERA_SHARPNESS") {
        Some(ConfigKey::Tone(ToneSetting::Sharpness))
    } else if chars_eq_str(key, "CAMERA_RECORD_AUDIO") {
        Some(ConfigKey::RecordAudio)
    } else if chars_eq_str(key, "CAMERA_AUDIO_SOURCE") {
        Some(ConfigKey::AudioSource)
    } else {
        None
    }
}

// ---------------------------------------------------------------------------
// Values
// ---------------------------------------------------------------------------

/// An optional dimension: empty (after trimming) means none; otherwise the
/// number, or none when it does not parse.
pub open spec fn parse_optional_u32(value: Seq<char>) -> Option<u32> {
    if trim(value).len() == 0 {
        None
    } else {
        parse_u32(trim(value))
    }
}

fn parse_optional_u32_exec(value: &Vec<char>) -> (r: Option<u32>)
    ensures
        r == parse_optional_u32(value@),
{
    let t = trim_chars(value);
    if t.len() == 0 {
        None
    } else {
        parse_u32_exec(&t)
    }
}

/// A switch: `1`, `true`, `yes`, `on` or `0`, `false`, `no`, `off`
/// (after trimming); anything else keeps the fallback.
pub open spec fn parse_bool(value: Seq<char>, fallback: bool) -> bool {
    let t = trim(value);
    if t == "1"@ || t == "true"@ || t == "yes"@ || t == "on"@ {
        true
    } else if t == "0"@ || t == "false"@ || t == "no"@ || t == "off"@ {
        false
    } else {
        fallback
    }
}

fn parse_bool_exec(value: &Vec<char>, fallback: bool) -> (r: bool)
    ensures
        r == parse_bool(value@, fallback),
{
    let t = trim_chars(value);
    if chars_eq_str(&t, "1") || chars_eq_str(&t, "true") || chars_eq_str(&t, "yes")
        || chars_eq_str(&t, "on") {
        true
    } else if chars_eq_str(&t, "0") || chars_eq_str(&t, "false") || chars_eq_str(&t, "no")
        || chars_eq_str(&t, "off") {
        false
    } else {
        fallback
    }
}

/// A countdown length: the number, normalized to the choices, or the
/// fallback when it does not parse.
pub open spec fn parse_countdown_seconds(value: Seq<char>, fallback: u32) -> u32 {
    match parse_u32(trim(value)) {
        Some(n) => normalized_countdown(n),
        None => fallback,
    }
}

fn parse_countdown_seconds_exec(value: &Vec<char>, fallback: u32) -> (r: u32)
    ensures
        r == parse_countdown_seconds(value@, fallback),
{
    let t = trim_chars(value);
    match parse_u32_exec(&t) {
        Some(n) => normalize_countdown_seconds(n),
        None => fallback,
    }
}

// ---------------------------------------------------------------------------
// Reading the file
// ---------------------------------------------------------------------------

/// The outcome of reading a configuration file.
#[derive(Clone, Debug)]
pub struct ParsedConfig {
    /// The capture, layout and audio settings.
    pub config: CameraConfig,
    /// The tone adjustments in the order in which the file sets them, each
    /// with its trimmed text.
    pub tones: Vec<(ToneSetting, String)>,
}

/// The state of reading: the settings so far and the tone values seen.
pub type ConfigState = (CameraConfigView, Seq<(ToneSetting, Seq<char>)>);

/// One line applied to the state. Blank lines, comments (`#`) and lines
/// without `=` change nothing; otherwise the trimmed text before the first
/// `=` names the setting and the rest is its value. Unknown keys are ignored.
pub open spec fn apply_config_line(st: ConfigState, line: Seq<char>) -> ConfigState {
    let t = trim(line);
    if t.len() == 0 || t[0] == '#' {
        st
    } else {
        match split_once(t, '=') {
            None => st,
            Some((k, v)) => match config_key(trim(k)) {
                Some(key) => apply_key(st, key, v),
                None => st,
            },
        }
    }
}

/// The value of a known key applied to the state.
pub open spec fn apply_key(st: ConfigState, key: ConfigKey, v: Seq<char>) -> ConfigState {
    let c = st.0;
    let tones = st.1;
    match key {
        ConfigKey::SoftIspMode => (CameraConfigView { softisp_mode: trim(v), ..c }, tones),
        ConfigKey::Width => (CameraConfigView { width: parse_optional_u32(v), ..c }, tones),
        ConfigKey::Height => (CameraConfigView { height: parse_optional_u32(v), ..c }, tones),
        ConfigKey::Countdown => (
            CameraConfigView {
                countdown_seconds: parse_countdown_seconds(v, c.countdown_seconds),
                ..c
            },
            tones,
        ),
        ConfigKey::ShowGrid => (CameraConfigView { show_grid: parse_bool(v, c.show_grid), ..c }, tones),
        ConfigKey::Mirror => (CameraConfigView { mirror: parse_bool(v, c.mirror), ..c }, tones),
        ConfigKey::Tone(tone) => (c, tones.push((tone, trim(v)))),
        ConfigKey::RecordAudio => (CameraConfigView { record_audio: parse_bool(v, c.record_audio), ..c }, tones),
        ConfigKey::AudioSource => (CameraConfigView { audio_source: trim(v), ..c }, tones),
    }
}

/// The lines applied in order.
pub open spec fn apply_config_lines(st: ConfigState, ls: Seq<Seq<char>>) -> ConfigState
    decreases ls.len(),
{
    if ls.len() == 0 {
        st
    } else {
        apply_config_lines(apply_config_line(st, ls[0]), ls.drop_first())
    }
}

/// What reading a configuration text gives: its lines applied to the defaults.
pub open spec fn parse_config(raw: Seq<char>) -> ConfigState {
    apply_config_lines((default_config(), seq![]), lines(raw))
}

/// The views of the tone values read.
pub open spec fn tone_views(tones: Seq<(ToneSetting, String)>) -> Seq<(ToneSetting, Seq<char>)> {
    tones.map_values(|p: (ToneSetting, String)| (p.0, p.1@))
}

impl CameraConfig {
    /// Applies one line of the configuration file.
    fn apply_line(&mut self, tones: &mut Vec<(ToneSetting, String)>, line: &Vec<char>)
        ensures
            (final(self)@, tone_views(final(tones)@)) == apply_config_line(
                (old(self)@, tone_views(old(tones)@)),
                line@,
            ),
    {
        let t = trim_chars(line);
        if t.len() == 0 || t[0] == '#' {
            return;
        }
        let (k, v) = match split_once_exec(&t, '=') {
            Some(parts) => parts,
            None => return,
        };
        let key = trim_chars(&k);
        match config_key_exec(&key) {
            Some(ConfigKey::SoftIspMode) => {
                let value = trim_chars(&v);
                self.softisp_mode = string_from_chars(&value);
            },
            Some(ConfigKey::Width) => {
                self.width = parse_optional_u32_exec(&v);
            },
            Some(ConfigKey::Height) => {
                self.height = parse_optional_u32_exec(&v);
            },
            Some(ConfigKey::Countdown) => {
                self.countdown_seconds = parse_countdown_seconds_exec(&v, self.countdown_seconds);
            },
            Some(ConfigKey::ShowGrid) => {
                self.show_grid = parse_bool_exec(&v, self.show_grid);
            },
            Some(ConfigKey::Mirror) => {
                self.mirror = parse_bool_exec(&v, self.mirror);
            },
            Some(ConfigKey::Tone(tone)) => {
                let value = trim_chars(&v);
                let ghost before = tones@;
                tones.push((tone, string_from_chars(&value)));
                proof {
                    assert(tone_views(tones@) =~= tone_views(before).push((tone, value@)));
                }
            },
            Some(ConfigKey::RecordAudio) => {
                self.record_audio = parse_bool_exec(&v, self.record_audio);
            },
            Some(ConfigKey::AudioSource) => {
                let value = trim_chars(&v);
                self.audio_source = string_from_chars(&value);
            },
            None => {},
        }
    }

    /// Reads a configuration text: starting from the defaults, each line
    /// sets the value of its key, a later line overriding an earlier one.
    pub fn parse_config_text(raw: &str) -> (r: ParsedConfig)
        ensures
            (r.config@, tone_views(r.tones@)) == parse_config(raw@),
    {
        let chars = chars_of(raw);
        let ls = lines_of(&chars);
        let mut config = CameraConfig::default();
        let mut tones: Vec<(ToneSetting, String)> = Vec::new();
        let ghost all = lines(raw@);
        proof {
            assert(all.skip(0) =~= all);
            assert(tone_views(tones@) =~= Seq::<(ToneSetting, Seq<char>)>::empty());
        }
        let mut i: usize = 0;
        while i < ls.len()
            invariant
                views(ls@) == all,
                i <= ls.len(),
                apply_config_lines((default_config(), seq![]), all) == apply_config_lines(
                    (config@, tone_views(tones@)),
                    all.skip(i as int),
                ),
            decreases ls.len() - i,
        {
            config.apply_line(&mut tones, &ls[i]);
            proof {
                assert(all.skip(i as int)[0] == ls@[i as int]@);
                assert(all.skip(i as int).drop_first() =~= all.skip(i + 1));
            }
            i = i + 1;
        }
        ParsedConfig { config, tones }
    }
}


// ---------------------------------------------------------------------------
// Writing the file
// ---------------------------------------------------------------------------

/// How the file writes a switch.
pub open spec fn bool_text(b: bool) -> Seq<char> {
    if b {
        "true"@
    } else {
        "false"@
    }
}

/// How the file writes an optional dimension: its number, or nothing.
pub open spec fn optional_text(v: Option<u32>) -> Seq<char> {
    match v {
        Some(n) => decimal(n as nat),
        None => seq![],
    }
}

/// A `KEY=value` line.
pub open spec fn key_line(key: Seq<char>, value: Seq<char>) -> Seq<char> {
    key + seq!['='] + value
}

/// The lines of the configuration file, given the text of each tone
/// adjustment in the order of `tone_at`.
pub open spec fn config_lines(c: CameraConfigView, tone_texts: Seq<Seq<char>>) -> Seq<Seq<char>> {
    seq![
        "# Camera tuning used by:"@,
        "#   galaxybook-camera (Rust + libcamera)"@,
        seq![],
        key_line("LIBCAMERA_SOFTISP_MODE"@, c.softisp_mode),
        seq![],
        key_line("CAMERA_WIDTH"@, optional_text(c.width)),
        key_line("CAMERA_HEIGHT"@, optional_text(c.height)),
        seq![],
        key_line("CAMERA_COUNTDOWN"@, decimal(normalized_countdown(c.countdown_seconds) as nat)),
        key_line("CAMERA_SHOW_GRID"@, bool_text(c.show_grid)),
        key_line("CAMERA_MIRROR"@, bool_text(c.mirror)),
    ] + Seq::new(12, |i: int| key_line(tone_key(tone_at(i)), tone_texts[i])) + seq![
        key_line("CAMERA_RECORD_AUDIO"@, bool_text(c.record_audio)),
        key_line("CAMERA_AUDIO_SOURCE"@, c.audio_source),
    ]
}

/// The text of the configuration file.
pub open spec fn config_text(c: CameraConfigView, tone_texts: Seq<Seq<char>>) -> Seq<char> {
    terminated_lines(config_lines(c, tone_texts))
}

/// Builds a `KEY=value` line.
fn key_line_exec(key: &str, value: &Vec<char>) -> (r: Vec<char>)
    ensures
        r@ == key_line(key@, value@),
{
    let mut r = chars_of(key);
    r.push('=');
    append_chars(&mut r, value);
    r
}

fn bool_text_exec(b: bool) -> (r: Vec<char>)
    ensures
        r@ == bool_text(b),
{
    if b {
        chars_of("true")
    } else {
        chars_of("false")
    }
}

fn optional_text_exec(v: Option<u32>) -> (r: Vec<char>)
    ensures
        r@ == optional_text(v),
{
    match v {
        Some(n) => decimal_chars(n as u64),
        None => Vec::new(),
    }
}

impl CameraConfig {
    /// The text of the configuration file for these settings, with
    /// `tone_texts` holding the text of each tone adjustment in the order of
    /// `tone_at` (brightness, exposure value, contrast, saturation, hue,
    /// temperature, tint, red, green and blue gains, gamma, sharpness). The
    /// countdown is written normalized to the choices.
    pub fn to_config_text(&self, tone_texts: &Vec<String>) -> (r: String)
        requires
            tone_texts@.len() == 12,
        ensures
            r@ == config_text(self@, tone_texts@.map_values(|t: String| t@)),
    {
        let ghost texts = tone_texts@.map_values(|t: String| t@);
        let mut ls: Vec<Vec<char>> = Vec::new();
        ls.push(chars_of("# Camera tuning used by:"));
        ls.push(chars_of("#   galaxybook-camera (Rust + libcamera)"));
        ls.push(Vec::new());
        ls.push(key_line_exec("LIBCAMERA_SOFTISP_MODE", &chars_of(self.softisp_mode.as_str())));
        ls.push(Vec::new());
        ls.push(key_line_exec("CAMERA_WIDTH", &optional_text_exec(self.width)));
        ls.push(key_line_exec("CAMERA_HEIGHT", &optional_text_exec(self.height)));
        ls.push(Vec::new());
        let countdown = normalize_countdown_seconds(self.countdown_seconds);
        ls.push(key_line_exec("CAMERA_COUNTDOWN", &decimal_chars(countdown as u64)));
        ls.push(key_line_exec("CAMERA_SHOW_GRID", &bool_text_exec(self.show_grid)));
        ls.push(key_line_exec("CAMERA_MIRROR", &bool_text_exec(self.mirror)));
        ls.push(key_line_exec("CAMERA_BRIGHTNESS", &chars_of(tone_texts[0].as_str())));
        ls.push(key_line_exec("CAMERA_EXPOSURE_VALUE", &chars_of(tone_texts[1].as_str())));
        ls.push(key_line_exec("CAMERA_CONTRAST", &chars_of(tone_texts[2].as_str())));
        ls.push(key_line_exec("CAMERA_SATURATION", &chars_of(tone_texts[3].as_str())));
        ls.push(key_line_exec("CAMERA_HUE", &chars_of(tone_texts[4].as_str())));
        ls.push(key_line_exec("CAMERA_TEMPERATURE", &chars_of(tone_texts[5].as_str())));
        ls.push(key_line_exec("CAMERA_TINT", &chars_of(tone_texts[6].as_str())));
        ls.push(key_line_exec("CAMERA_RED_GAIN", &chars_of(tone_texts[7].as_str())));
        ls.push(key_line_exec("CAMERA_GREEN_GAIN", &chars_of(tone_texts[8].as_str())));
        ls.push(key_line_exec("CAMERA_BLUE_GAIN", &chars_of(tone_texts[9].as_str())));
        ls.push(key_line_exec("CAMERA_GAMMA", &chars_of(tone_texts[10].as_str())));
        ls.push(key_line_exec("CAMERA_SHARPNESS", &chars_of(tone_texts[11].as_str())));
        ls.push(key_line_exec("CAMERA_RECORD_AUDIO", &bool_text_exec(self.record_audio)));
        ls.push(key_line_exec("CAMERA_AUDIO_SOURCE", &chars_of(self.audio_source.as_str())));
        proof {
            assert(views(ls@) =~= config_lines(self@, texts));
        }
        let text = terminated_lines_exec(&ls);
        string_from_chars(&text)
    }
}


// ---------------------------------------------------------------------------
// Writing then reading
// ---------------------------------------------------------------------------

/// Text that fits on one line of the file and reads back unchanged: no line
/// feed, and nothing that trimming would remove.
pub open spec fn line_safe(s: Seq<char>) -> bool {
    trim(s) == s && forall|i: int| 0 <= i < s.len() ==> s[i] != '\n'
}

/// A key of the file: nonempty, without `=`, line feed or whitespace at its
/// ends, and not a comment.
pub open spec fn plain_key(key: Seq<char>) -> bool {
    &&& key.len() > 0
    &&& !is_ws(key[0])
    &&& key[0] != '#'
    &&& !is_ws(key.last())
    &&& forall|i: int| 0 <= i < key.len() ==> key[i] != '=' && key[i] != '\n'
}

proof fn lemma_line_safe_ends(v: Seq<char>)
    requires
        line_safe(v),
        v.len() > 0,
    ensures
        !is_ws(v[0]),
        !is_ws(v.last()),
{
    lemma_trim_shape(v);
}

/// A `KEY=value` line applies the value to the setting that the key names.
proof fn lemma_key_line(st: ConfigState, key: Seq<char>, value: Seq<char>, k: ConfigKey)
    requires
        plain_key(key),
        config_key(key) == Some(k),
        line_safe(value),
    ensures
        apply_config_line(st, key_line(key, value)) == apply_key(st, k, value),
        forall|i: int| 0 <= i < key_line(key, value).len() ==> key_line(key, value)[i] != '\n',
        strip_cr(key_line(key, value)) == key_line(key, value),
{
    let line = key_line(key, value);
    assert(line[0] == key[0]);
    if value.len() > 0 {
        lemma_line_safe_ends(value);
        assert(line.last() == value.last());
    } else {
        assert(line.last() == '=');
    }
    lemma_trim_fixed(line);
    lemma_first_index_of(line, '=', key.len() as int);
    assert(line.take(key.len() as int) =~= key);
    assert(line.skip(key.len() as int + 1) =~= value);
    lemma_trim_fixed(key);
    assert forall|i: int| 0 <= i < line.len() implies line[i] != '\n' by {
        if i < key.len() {
            assert(line[i] == key[i]);
        } else if i > key.len() {
            assert(line[i] == value[i - key.len() - 1]);
        }
    }
}

/// The decimal notation of a number fits on a line.
proof fn lemma_decimal_line_safe(n: nat)
    ensures
        line_safe(decimal(n)),
        decimal(n).len() > 0,
{
    lemma_decimal_digits(n);
    let d = decimal(n);
    assert(is_digit(d[0]) && is_digit(d.last()));
    lemma_trim_fixed(d);
}

proof fn lemma_bool_text(b: bool)
    ensures
        line_safe(bool_text(b)),
        parse_bool(bool_text(b), true) == b,
        parse_bool(bool_text(b), false) == b,
{
    reveal_strlit("true");
    reveal_strlit("false");
    reveal_strlit("1");
    reveal_strlit("yes");
    reveal_strlit("on");
    reveal_strlit("0");
    reveal_strlit("no");
    reveal_strlit("off");
    lemma_trim_fixed(bool_text(b));
}

proof fn lemma_key_libcamera_softisp_mode()
    ensures
        config_key("LIBCAMERA_SOFTISP_MODE"@) == Some(ConfigKey::SoftIspMode),
        plain_key("LIBCAMERA_SOFTISP_MODE"@),
{
    reveal_strlit("LIBCAMERA_SOFTISP_MODE");
}

proof fn lemma_key_camera_width()
    ensures
        config_key("CAMERA_WIDTH"@) == Some(ConfigKey::Width),
        plain_key("CAMERA_WIDTH"@),
{
    reveal_strlit("LIBCAMERA_SOFTISP_MODE");
    reveal_strlit("CAMERA_WIDTH");
    assert("CAMERA_WIDTH"@.len() == 12);
    assert("LIBCAMERA_SOFTISP_MODE"@.len() == 22);
    assert("CAMERA_WIDTH"@ != "LIBCAMERA_SOFTISP_MODE"@);
}

proof fn lemma_key_camera_height()
    ensures
        config_key("CAMERA_HEIGHT"@) == Some(ConfigKey::Height),
        plain_key("CAMERA_HEIGHT"@),
{
    reveal_strlit("LIBCAMERA_SOFTISP_MODE");
    reveal_strlit("CAMERA_WIDTH");
    reveal_strlit("CAMERA_HEIGHT");
    assert("CAMERA_HEIGHT"@.len() == 13);
    assert("LIBCAMERA_SOFTISP_MODE"@.len() == 22);
    assert("CAMERA_HEIGHT"@ != "LIBCAMERA_SOFTISP_MODE"@);
    assert("CAMERA_HEIGHT"@.len() == 13);
    assert("CAMERA_WIDTH"@.len() == 12);
    assert("CAMERA_HEIGHT"@ != "CAMERA_WIDTH"@);
}

proof fn lemma_key_camera_countdown()
    ensures
        config_key("CAMERA_COUNTDOWN"@) == Some(ConfigKey::Countdown),
        plain_key("CAMERA_COUNTDOWN"@),
{
    reveal_strlit("LIBCAMERA_SOFTISP_MODE");
    reveal_strlit("CAMERA_WIDTH");
    reveal_strlit("CAMERA_HEIGHT");
    reveal_strlit("CAMERA_COUNTDOWN");
    assert("CAMERA_COUNTDOWN"@.len() == 16);
    assert("LIBCAMERA_SOFTISP_MODE"@.len() == 22);
    assert("CAMERA_COUNTDOWN"@ != "LIBCAMERA_SOFTISP_MODE"@);
    assert("CAMERA_COUNTDOWN"@.len() == 16);
    assert("CAMERA_WIDTH"@.len() == 12);
    assert("CAMERA_COUNTDOWN"@ != "CAMERA_WIDTH"@);
    assert("CAMERA_COUNTDOWN"@.len() == 16);
    assert("CAMERA_HEIGHT"@.len() == 13);
    assert("CAMERA_COUNTDOWN"@ != "CAMERA_HEIGHT"@);
}

proof fn lemma_key_camera_show_grid()
    ensures
        config_key("CAMERA_SHOW_GRID"@) == Some(ConfigKey::ShowGrid),
        plain_key("CAMERA_SHOW_GRID"@),
{
    reveal_strlit("LIBCAMERA_SOFTISP_MODE");
    reveal_strlit("CAMERA_WIDTH");
    reveal_strlit("CAMERA_HEIGHT");
    reveal_strlit("CAMERA_COUNTDOWN");
    reveal_strlit("CAMERA_SHOW_GRID");
    assert("CAMERA_SHOW_GRID"@.len() == 16);
    assert("LIBCAMERA_SOFTISP_MODE"@.len() == 22);
    assert("CAMERA_SHOW_GRID"@ != "LIBCAMERA_SOFTISP_MODE"@);
    assert("CAMERA_SHOW_GRID"@.len() == 16);
    assert("CAMERA_WIDTH"@.len() == 12);
    assert("CAMERA_SHOW_GRID"@ != "CAMERA_WIDTH"@);
    assert("CAMERA_SHOW_GRID"@.len() == 16);
    assert("CAMERA_HEIGHT"@.len() == 13);
    assert("CAMERA_SHOW_GRID"@ != "CAMERA_HEIGHT"@);
    assert("CAMERA_SHOW_GRID"@.len() == 16);
    assert("CAMERA_COUNTDOWN"@.len() == 16);
    assert("CAMERA_SHOW_GRID"@[7] == 'S');
    assert("CAMERA_COUNTDOWN"@[7] == 'C');
    assert("CAMERA_SHOW_GRID"@ != "CAMERA_COUNTDOWN"@);
}

proof fn lemma_key_camera_mirror()
    ensures
        config_key("CAMERA_MIRROR"@) == Some(ConfigKey::Mirror),
        plain_key("CAMERA_MIRROR"@),
{
    reveal_strlit("LIBCAMERA_SOFTISP_MODE");
    reveal_strlit("CAMERA_WIDTH");
    reveal_strlit("CAMERA_HEIGHT");
    reveal_strlit("CAMERA_COUNTDOWN");
    reveal_strlit("CAMERA_SHOW_GRID");
    reveal_strlit("CAMERA_MIRROR");
    assert("CAMERA_MIRROR"@.len() == 13);
    assert("LIBCAMERA_SOFTISP_MODE"@.len() == 22);
    assert("CAMERA_MIRROR"@ != "LIBCAMERA_SOFTISP_MODE"@);
    assert("CAMERA_MIRROR"@.len() == 13);
    assert("CAMERA_WIDTH"@.len() == 12);
    assert("CAMERA_MIRROR"@ != "CAMERA_WIDTH"@);
    assert("CAMERA_MIRROR"@.len() == 13);
    assert("CAMERA_HEIGHT"@.len() == 13);
    assert("CAMERA_MIRROR"@[7] == 'M');
    assert("CAMERA_HEIGHT"@[7] == 'H');
    assert("CAMERA_MIRROR"@ != "CAMERA_HEIGHT"@);
    assert("CAMERA_MIRROR"@.len() == 13);
    assert("CAMERA_COUNTDOWN"@.len() == 16);
    assert("CAMERA_MIRROR"@ != "CAMERA_COUNTDOWN"@);
    assert("CAMERA_MIRROR"@.len() == 13);
    assert("CAMERA_SHOW_GRID"@.len() == 16);
    assert("CAMERA_MIRROR"@ != "CAMERA_SHOW_GRID"@);
}

proof fn lemma_key_camera_brightness()
    ensures
        config_key("CAMERA_BRIGHTNESS"@) == Some(ConfigKey::Tone(ToneSetting::Brightness)),
        plain_key("CAMERA_BRIGHTNESS"@),
{
    reveal_strlit("LIBCAMERA_SOFTISP_MODE");
    reveal_strlit("CAMERA_WIDTH");
    reveal_strlit("CAMERA_HEIGHT");
    reveal_strlit("CAMERA_COUNTDOWN");
    reveal_strlit("CAMERA_SHOW_GRID");
    reveal_strlit("CAMERA_MIRROR");
    reveal_strlit("CAMERA_BRIGHTNESS");
    assert("CAMERA_BRIGHTNESS"@.len() == 17);
    assert("LIBCAMERA_SOFTISP_MODE"@.len() == 22);
    assert("CAMERA_BRIGHTNESS"@ != "LIBCAMERA_SOFTISP_MODE"@);
    assert("CAMERA_BRIGHTNESS"@.len() == 17);
    assert("CAMERA_WIDTH"@.len() == 12);
    assert("CAMERA_BRIGHTNESS"@ != "CAMERA_WIDTH"@);
    assert("CAMERA_BRIGHTNESS"@.len() == 17);
    assert("CAMERA_HEIGHT"@.len() == 13);
    assert("CAMERA_BRIGHTNESS"@ != "CAMERA_HEIGHT"@);
    assert("CAMERA_BRIGHTNESS"@.len() == 17);
    assert("CAMERA_COUNTDOWN"@.len() == 16);
    assert("CAMERA_BRIGHTNESS"@ != "CAMERA_COUNTDOWN"@);
    assert("CAMERA_BRIGHTNESS"@.len() == 17);
    assert("CAMERA_SHOW_GRID"@.len() == 16);
    assert("CAMERA_BRIGHTNESS"@ != "CAMERA_SHOW_GRID"@);
    assert("CAMERA_BRIGHTNESS"@.len() == 17);
    assert("CAMERA_MIRROR"@.len() == 13);
    assert("CAMERA_BRIGHTNESS"@ != "CAMERA_MIRROR"@);
}

proof fn lemma_key_camera_exposure_value()
    ensures
        config_key("CAMERA_EXPOSURE_VALUE"@) == Some(ConfigKey::Tone(ToneSetting::ExposureValue)),
        plain_key("CAMERA_EXPOSURE_VALUE"@),
{
    reveal_strlit("LIBCAMERA_SOFTISP_MODE");
    reveal_strlit("CAMERA_WIDTH");
    reveal_strlit("CAMERA_HEIGHT");
    reveal_strlit("CAMERA_COUNTDOWN");
    reveal_strlit("CAMERA_SHOW_GRID");
    reveal_strlit("CAMERA_MIRROR");
    reveal_strlit("CAMERA_BRIGHTNESS");
    reveal_strlit("CAMERA_EXPOSURE_VALUE");
    assert("CAMERA_EXPOSURE_VALUE"@.len() == 21);
    assert("LIBCAMERA_SOFTISP_MODE"@.len() == 22);
    assert("CAMERA_EXPOSURE_VALUE"@ != "LIBCAMERA_SOFTISP_MODE"@);
    assert("CAMERA_EXPOSURE_VALUE"@.len() == 21);
    assert("CAMERA_WIDTH"@.len() == 12);
    assert("CAMERA_EXPOSURE_VALUE"@ != "CAMERA_WIDTH"@);
    assert("CAMERA_EXPOSURE_VALUE"@.len() == 21);
    assert("CAMERA_HEIGHT"@.len() == 13);
    assert("CAMERA_EXPOSURE_VALUE"@ != "CAMERA_HEIGHT"@);
    assert("CAMERA_EXPOSURE_VALUE"@.len() == 21);
    assert("CAMERA_COUNTDOWN"@.len() == 16);
    assert("CAMERA_EXPOSURE_VALUE"@ != "CAMERA_COUNTDOWN"@);
    assert("CAMERA_EXPOSURE_VALUE"@.len() == 21);
    assert("CAMERA_SHOW_GRID"@.len() == 16);
    assert("CAMERA_EXPOSURE_VALUE"@ != "CAMERA_SHOW_GRID"@);
    assert("CAMERA_EXPOSURE_VALUE"@.len() == 21);
    assert("CAMERA_MIRROR"@.len() == 13);
    assert("CAMERA_EXPOSURE_VALUE"@ != "CAMERA_MIRROR"@);
    assert("CAMERA_EXPOSURE_VALUE"@.len() == 21);
    assert("CAMERA_BRIGHTNESS"@.len() == 17);
    assert("CAMERA_EXPOSURE_VALUE"@ != "CAMERA_BRIGHTNESS"@);
}

proof fn lemma_key_camera_contrast()
    ensures
        config_key("CAMERA_CONTRAST"@) == Some(ConfigKey::Tone(ToneSetting::Contrast)),
        plain_key("CAMERA_CONTRAST"@),
{
    reveal_strlit("LIBCAMERA_SOFTISP_MODE");
    reveal_strlit("CAMERA_WIDTH");
    reveal_strlit("CAMERA_HEIGHT");
    reveal_strlit("CAMERA_COUNTDOWN");
    reveal_strlit("CAMERA_SHOW_GRID");
    reveal_strlit("CAMERA_MIRROR");
    reveal_strlit("CAMERA_BRIGHTNESS");
    reveal_strlit("CAMERA_EXPOSURE_VALUE");
    reveal_strlit("CAMERA_CONTRAST");
    assert("CAMERA_CONTRAST"@.len() == 15);
    assert("LIBCAMERA_SOFTISP_MODE"@.len() == 22);
    assert("CAMERA_CONTRAST"@ != "LIBCAMERA_SOFTISP_MODE"@);
    assert("CAMERA_CONTRAST"@.len() == 15);
    assert("CAMERA_WIDTH"@.len() == 12);
    assert("CAMERA_CONTRAST"@ != "CAMERA_WIDTH"@);
    assert("CAMERA_CONTRAST"@.len() == 15);
    assert("CAMERA_HEIGHT"@.len() == 13);
    assert("CAMERA_CONTRAST"@ != "CAMERA_HEIGHT"@);
    assert("CAMERA_CONTRAST"@.len() == 15);
    assert("CAMERA_COUNTDOWN"@.len() == 16);
    assert("CAMERA_CONTRAST"@ != "CAMERA_COUNTDOWN"@);
    assert("CAMERA_CONTRAST"@.len() == 15);
    assert("CAMERA_SHOW_GRID"@.len() == 16);
    assert("CAMERA_CONTRAST"@ != "CAMERA_SHOW_GRID"@);
    assert("CAMERA_CONTRAST"@.len() == 15);
    assert("CAMERA_MIRROR"@.len() == 13);
    assert("CAMERA_CONTRAST"@ != "CAMERA_MIRROR"@);
    assert("CAMERA_CONTRAST"@.len() == 15);
    assert("CAMERA_BRIGHTNESS"@.len() == 17);
    assert("CAMERA_CONTRAST"@ != "CAMERA_BRIGHTNESS"@);
    assert("CAMERA_CONTRAST"@.len() == 15);
    assert("CAMERA_EXPOSURE_VALUE"@.len() == 21);
    assert("CAMERA_CONTRAST"@ != "CAMERA_EXPOSURE_VALUE"@);
}

proof fn lemma_key_camera_saturation()
    ensures
        config_key("CAMERA_SATURATION"@) == Some(ConfigKey::Tone(ToneSetting::Saturation)),
        plain_key("CAMERA_SATURATION"@),
{
    reveal_strlit("LIBCAMERA_SOFTISP_MODE");
    reveal_strlit("CAMERA_WIDTH");
    reveal_strlit("CAMERA_HEIGHT");
    reveal_strlit("CAMERA_COUNTDOWN");
    reveal_strlit("CAMERA_SHOW_GRID");
    reveal_strlit("CAMERA_MIRROR");
    reveal_strlit("CAMERA_BRIGHTNESS");
    reveal_strlit("CAMERA_EXPOSURE_VALUE");
    reveal_strlit("CAMERA_CONTRAST");
    reveal_strlit("CAMERA_SATURATION");
    assert("CAMERA_SATURATION"@.len() == 17);
    assert("LIBCAMERA_SOFTISP_MODE"@.len() == 22);
    assert("CAMERA_SATURATION"@ != "LIBCAMERA_SOFTISP_MODE"@);
    assert("CAMERA_SATURATION"@.len() == 17);
    assert("CAMERA_WIDTH"@.len() == 12);
    assert("CAMERA_SATURATION"@ != "CAMERA_WIDTH"@);
    assert("CAMERA_SATURATION"@.len() == 17);
    assert("CAMERA_HEIGHT"@.len() == 13);
    assert("CAMERA_SATURATION"@ != "CAMERA_HEIGHT"@);
    assert("CAMERA_SATURATION"@.len() == 17);
    assert("CAMERA_COUNTDOWN"@.len() == 16);
    assert("CAMERA_SATURATION"@ != "CAMERA_COUNTDOWN"@);
    assert("CAMERA_SATURATION"@.len() == 17);
    assert("CAMERA_SHOW_GRID"@.len() == 16);
    assert("CAMERA_SATURATION"@ != "CAMERA_SHOW_GRID"@);
    assert("CAMERA_SATURATION"@.len() == 17);
    assert("CAMERA_MIRROR"@.len() == 13);
    assert("CAMERA_SATURATION"@ != "CAMERA_MIRROR"@);
    assert("CAMERA_SATURATION"@.len() == 17);
    assert("CAMERA_BRIGHTNESS"@.len() == 17);
    assert("CAMERA_SATURATION"@[7] == 'S');
    assert("CAMERA_BRIGHTNESS"@[7] == 'B');
    assert("CAMERA_SATURATION"@ != "CAMERA_BRIGHTNESS"@);
    assert("CAMERA_SATURATION"@.len() == 17);
    assert("CAMERA_EXPOSURE_VALUE"@.len() == 21);
    assert("CAMERA_SATURATION"@ != "CAMERA_EXPOSURE_VALUE"@);
    assert("CAMERA_SATURATION"@.len() == 17);
    assert("CAMERA_CONTRAST"@.len() == 15);
    assert("CAMERA_SATURATION"@ != "CAMERA_CONTRAST"@);
}

proof fn lemma_key_camera_hue()
    ensures
        config_key("CAMERA_HUE"@) == Some(ConfigKey::Tone(ToneSetting::Hue)),
        plain_key("CAMERA_HUE"@),
{
    reveal_strlit("LIBCAMERA_SOFTISP_MODE");
    reveal_strlit("CAMERA_WIDTH");
    reveal_strlit("CAMERA_HEIGHT");
    reveal_strlit("CAMERA_COUNTDOWN");
    reveal_strlit("CAMERA_SHOW_GRID");
    reveal_strlit("CAMERA_MIRROR");
    reveal_strlit("CAMERA_BRIGHTNESS");
    reveal_strlit("CAMERA_EXPOSURE_VALUE");
    reveal_strlit("CAMERA_CONTRAST");
    reveal_strlit("CAMERA_SATURATION");
    reveal_strlit("CAMERA_HUE");
    assert("CAMERA_HUE"@.len() == 10);
    assert("LIBCAMERA_SOFTISP_MODE"@.len() == 22);
    assert("CAMERA_HUE"@ != "LIBCAMERA_SOFTISP_MODE"@);
    assert("CAMERA_HUE"@.len() == 10);
    assert("CAMERA_WIDTH"@.len() == 12);
    assert("CAMERA_HUE"@ != "CAMERA_WIDTH"@);
    assert("CAMERA_HUE"@.len() == 10);
    assert("CAMERA_HEIGHT"@.len() == 13);
    assert("CAMERA_HUE"@ != "CAMERA_HEIGHT"@);
    assert("CAMERA_HUE"@.len() == 10);
    assert("CAMERA_COUNTDOWN"@.len() == 16);
    assert("CAMERA_HUE"@ != "CAMERA_COUNTDOWN"@);
    assert("CAMERA_HUE"@.len() == 10);
    assert("CAMERA_SHOW_GRID"@.len() == 16);
    assert("CAMERA_HUE"@ != "CAMERA_SHOW_GRID"@);
    assert("CAMERA_HUE"@.len() == 10);
    assert("CAMERA_MIRROR"@.len() == 13);
    assert("CAMERA_HUE"@ != "CAMERA_MIRROR"@);
    assert("CAMERA_HUE"@.len() == 10);
    assert("CAMERA_BRIGHTNESS"@.len() == 17);
    assert("CAMERA_HUE"@ != "CAMERA_BRIGHTNESS"@);
    assert("CAMERA_HUE"@.len() == 10);
    assert("CAMERA_EXPOSURE_VALUE"@.len() == 21);
    assert("CAMERA_HUE"@ != "CAMERA_EXPOSURE_VALUE"@);
    assert("CAMERA_HUE"@.len() == 10);
    assert("CAMERA_CONTRAST"@.len() == 15);
    assert("CAMERA_HUE"@ != "CAMERA_CONTRAST"@);
    assert("CAMERA_HUE"@.len() == 10);
    assert("CAMERA_SATURATION"@.len() == 17);
    assert("CAMERA_HUE"@ != "CAMERA_SATURATION"@);
}

proof fn lemma_key_camera_temperature()
    ensures
        config_key("CAMERA_TEMPERATURE"@) == Some(ConfigKey::Tone(ToneSetting::Temperature)),
        plain_key("CAMERA_TEMPERATURE"@),
{
    reveal_strlit("LIBCAMERA_SOFTISP_MODE");
    reveal_strlit("CAMERA_WIDTH");
    reveal_strlit("CAMERA_HEIGHT");
    reveal_strlit("CAMERA_COUNTDOWN");
    reveal_strlit("CAMERA_SHOW_GRID");
    reveal_strlit("CAMERA_MIRROR");
    reveal_strlit("CAMERA_BRIGHTNESS");
    reveal_strlit("CAMERA_EXPOSURE_VALUE");
    reveal_strlit("CAMERA_CONTRAST");
    reveal_strlit("CAMERA_SATURATION");
    reveal_strlit("CAMERA_HUE");
    reveal_strlit("CAMERA_TEMPERATURE");
    assert("CAMERA_TEMPERATURE"@.len() == 18);
    assert("LIBCAMERA_SOFTISP_MODE"@.len() == 22);
    assert("CAMERA_TEMPERATURE"@ != "LIBCAMERA_SOFTISP_MODE"@);
    assert("CAMERA_TEMPERATURE"@.len() == 18);
    assert("CAMERA_WIDTH"@.len() == 12);
    assert("CAMERA_TEMPERATURE"@ != "CAMERA_WIDTH"@);
    assert("CAMERA_TEMPERATURE"@.len() == 18);
    assert("CAMERA_HEIGHT"@.len() == 13);
    assert("CAMERA_TEMPERATURE"@ != "CAMERA_HEIGHT"@);
    assert("CAMERA_TEMPERATURE"@.len() == 18);
    assert("CAMERA_COUNTDOWN"@.len() == 16);
    assert("CAMERA_TEMPERATURE"@ != "CAMERA_COUNTDOWN"@);
    assert("CAMERA_TEMPERATURE"@.len() == 18);
    assert("CAMERA_SHOW_GRID"@.len() == 16);
    assert("CAMERA_TEMPERATURE"@ != "CAMERA_SHOW_GRID"@);
    assert("CAMERA_TEMPERATURE"@.len() == 18);
    assert("CAMERA_MIRROR"@.len() == 13);
    assert("CAMERA_TEMPERATURE"@ != "CAMERA_MIRROR"@);
    assert("CAMERA_TEMPERATURE"@.len() == 18);
    assert("CAMERA_BRIGHTNESS"@.len() == 17);
    assert("CAMERA_TEMPERATURE"@ != "CAMERA_BRIGHTNESS"@);
    assert("CAMERA_TEMPERATURE"@.len() == 18);
    assert("CAMERA_EXPOSURE_VALUE"@.len() == 21);
    assert("CAMERA_TEMPERATURE"@ != "CAMERA_EXPOSURE_VALUE"@);
    assert("CAMERA_TEMPERATURE"@.len() == 18);
    assert("CAMERA_CONTRAST"@.len() == 15);
    assert("CAMERA_TEMPERATURE"@ != "CAMERA_CONTRAST"@);
    assert("CAMERA_TEMPERATURE"@.len() == 18);
    assert("CAMERA_SATURATION"@.len() == 17);
    assert("CAMERA_TEMPERATURE"@ != "CAMERA_SATURATION"@);
    assert("CAMERA_TEMPERATURE"@.len() == 18);
    assert("CAMERA_HUE"@.len() == 10);
    assert("CAMERA_TEMPERATURE"@ != "CAMERA_HUE"@);
}

proof fn lemma_key_camera_tint()
    ensures
        config_key("CAMERA_TINT"@) == Some(ConfigKey::Tone(ToneSetting::Tint)),
        plain_key("CAMERA_TINT"@),
{
    reveal_strlit("LIBCAMERA_SOFTISP_MODE");
    reveal_strlit("CAMERA_WIDTH");
    reveal_strlit("CAMERA_HEIGHT");
    reveal_strlit("CAMERA_COUNTDOWN");
    reveal_strlit("CAMERA_SHOW_GRID");
    reveal_strlit("CAMERA_MIRROR");
    reveal_strlit("CAMERA_BRIGHTNESS");
    reveal_strlit("CAMERA_EXPOSURE_VALUE");
    reveal_strlit("CAMERA_CONTRAST");
    reveal_strlit("CAMERA_SATURATION");
    reveal_strlit("CAMERA_HUE");
    reveal_strlit("CAMERA_TEMPERATURE");
    reveal_strlit("CAMERA_TINT");
    assert("CAMERA_TINT"@.len() == 11);
    assert("LIBCAMERA_SOFTISP_MODE"@.len() == 22);
    assert("CAMERA_TINT"@ != "LIBCAMERA_SOFTISP_MODE"@);
    assert("CAMERA_TINT"@.len() == 11);
    assert("CAMERA_WIDTH"@.len() == 12);
    assert("CAMERA_TINT"@ != "CAMERA_WIDTH"@);
    assert("CAMERA_TINT"@.len() == 11);
    assert("CAMERA_HEIGHT"@.len() == 13);
    assert("CAMERA_TINT"@ != "CAMERA_HEIGHT"@);
    assert("CAMERA_TINT"@.len() == 11);
    assert("CAMERA_COUNTDOWN"@.len() == 16);
    assert("CAMERA_TINT"@ != "CAMERA_COUNTDOWN"@);
    assert("CAMERA_TINT"@.len() == 11);
    assert("CAMERA_SHOW_GRID"@.len() == 16);
    assert("CAMERA_TINT"@ != "CAMERA_SHOW_GRID"@);
    assert("CAMERA_TINT"@.len() == 11);
    assert("CAMERA_MIRROR"@.len() == 13);
    assert("CAMERA_TINT"@ != "CAMERA_MIRROR"@);
    assert("CAMERA_TINT"@.len() == 11);
    assert("CAMERA_BRIGHTNESS"@.len() == 17);
    assert("CAMERA_TINT"@ != "CAMERA_BRIGHTNESS"@);
    assert("CAMERA_TINT"@.len() == 11);
    assert("CAMERA_EXPOSURE_VALUE"@.len() == 21);
    assert("CAMERA_TINT"@ != "CAMERA_EXPOSURE_VALUE"@);
    assert("CAMERA_TINT"@.len() == 11);
    assert("CAMERA_CONTRAST"@.len() == 15);
    assert("CAMERA_TINT"@ != "CAMERA_CONTRAST"@);
    assert("CAMERA_TINT"@.len() == 11);
    assert("CAMERA_SATURATION"@.len() == 17);
    assert("CAMERA_TINT"@ != "CAMERA_SATURATION"@);
    assert("CAMERA_TINT"@.len() == 11);
    assert("CAMERA_HUE"@.len() == 10);
    assert("CAMERA_TINT"@ != "CAMERA_HUE"@);
    assert("CAMERA_TINT"@.len() == 11);
    assert("CAMERA_TEMPERATURE"@.len() == 18);
    assert("CAMERA_TINT"@ != "CAMERA_TEMPERATURE"@);
}

proof fn lemma_key_camera_red_gain()
    ensures
        config_key("CAMERA_RED_GAIN"@) == Some(ConfigKey::Tone(ToneSetting::RedGain)),
        plain_key("CAMERA_RED_GAIN"@),
{
    reveal_strlit("LIBCAMERA_SOFTISP_MODE");
    reveal_strlit("CAMERA_WIDTH");
    reveal_strlit("CAMERA_HEIGHT");
    reveal_strlit("CAMERA_COUNTDOWN");
    reveal_strlit("CAMERA_SHOW_GRID");
    reveal_strlit("CAMERA_MIRROR");
    reveal_strlit("CAMERA_BRIGHTNESS");
    reveal_strlit("CAMERA_EXPOSURE_VALUE");
    reveal_strlit("CAMERA_CONTRAST");
    reveal_strlit("CAMERA_SATURATION");
    reveal_strlit("CAMERA_HUE");
    reveal_strlit("CAMERA_TEMPERATURE");
    reveal_strlit("CAMERA_TINT");
    reveal_strlit("CAMERA_RED_GAIN");
    assert("CAMERA_RED_GAIN"@.len() == 15);
    assert("LIBCAMERA_SOFTISP_MODE"@.len() == 22);
    assert("CAMERA_RED_GAIN"@ != "LIBCAMERA_SOFTISP_MODE"@);
    assert("CAMERA_RED_GAIN"@.len() == 15);
    assert("CAMERA_WIDTH"@.len() == 12);
    assert("CAMERA_RED_GAIN"@ != "CAMERA_WIDTH"@);
    assert("CAMERA_RED_GAIN"@.len() == 15);
    assert("CAMERA_HEIGHT"@.len() == 13);
    assert("CAMERA_RED_GAIN"@ != "CAMERA_HEIGHT"@);
    assert("CAMERA_RED_GAIN"@.len() == 15);
    assert("CAMERA_COUNTDOWN"@.len() == 16);
    assert("CAMERA_RED_GAIN"@ != "CAMERA_COUNTDOWN"@);
    assert("CAMERA_RED_GAIN"@.len() == 15);
    assert("CAMERA_SHOW_GRID"@.len() == 16);
    assert("CAMERA_RED_GAIN"@ != "CAMERA_SHOW_GRID"@);
    assert("CAMERA_RED_GAIN"@.len() == 15);
    assert("CAMERA_MIRROR"@.len() == 13);
    assert("CAMERA_RED_GAIN"@ != "CAMERA_MIRROR"@);
    assert("CAMERA_RED_GAIN"@.len() == 15);
    assert("CAMERA_BRIGHTNESS"@.len() == 17);
    assert("CAMERA_RED_GAIN"@ != "CAMERA_BRIGHTNESS"@);
    assert("CAMERA_RED_GAIN"@.len() == 15);
    assert("CAMERA_EXPOSURE_VALUE"@.len() == 21);
    assert("CAMERA_RED_GAIN"@ != "CAMERA_EXPOSURE_VALUE"@);
    assert("CAMERA_RED_GAIN"@.len() == 15);
    assert("CAMERA_CONTRAST"@.len() == 15);
    assert("CAMERA_RED_GAIN"@[7] == 'R');
    assert("CAMERA_CONTRAST"@[7] == 'C');
    assert("CAMERA_RED_GAIN"@ != "CAMERA_CONTRAST"@);
    assert("CAMERA_RED_GAIN"@.len() == 15);
    assert("CAMERA_SATURATION"@.len() == 17);
    assert("CAMERA_RED_GAIN"@ != "CAMERA_SATURATION"@);
    assert("CAMERA_RED_GAIN"@.len() == 15);
    assert("CAMERA_HUE"@.len() == 10);
    assert("CAMERA_RED_GAIN"@ != "CAMERA_HUE"@);
    assert("CAMERA_RED_GAIN"@.len() == 15);
    assert("CAMERA_TEMPERATURE"@.len() == 18);
    assert("CAMERA_RED_GAIN"@ != "CAMERA_TEMPERATURE"@);
    assert("CAMERA_RED_GAIN"@.len() == 15);
    assert("CAMERA_TINT"@.len() == 11);
    assert("CAMERA_RED_GAIN"@ != "CAMERA_TINT"@);
}

proof fn lemma_key_camera_green_gain()
    ensures
        config_key("CAMERA_GREEN_GAIN"@) == Some(ConfigKey::Tone(ToneSetting::GreenGain)),
        plain_key("CAMERA_GREEN_GAIN"@),
{
    reveal_strlit("LIBCAMERA_SOFTISP_MODE");
    reveal_strlit("CAMERA_WIDTH");
    reveal_strlit("CAMERA_HEIGHT");
    reveal_strlit("CAMERA_COUNTDOWN");
    reveal_strlit("CAMERA_SHOW_GRID");
    reveal_strlit("CAMERA_MIRROR");
    reveal_strlit("CAMERA_BRIGHTNESS");
    reveal_strlit("CAMERA_EXPOSURE_VALUE");
    reveal_strlit("CAMERA_CONTRAST");
    reveal_strlit("CAMERA_SATURATION");
    reveal_strlit("CAMERA_HUE");
    reveal_strlit("CAMERA_TEMPERATURE");
    reveal_strlit("CAMERA_TINT");
    reveal_strlit("CAMERA_RED_GAIN");
    reveal_strlit("CAMERA_GREEN_GAIN");
    assert("CAMERA_GREEN_GAIN"@.len() == 17);
    assert("LIBCAMERA_SOFTISP_MODE"@.len() == 22);
    assert("CAMERA_GREEN_GAIN"@ != "LIBCAMERA_SOFTISP_MODE"@);
    assert("CAMERA_GREEN_GAIN"@.len() == 17);
    assert("CAMERA_WIDTH"@.len() == 12);
    assert("CAMERA_GREEN_GAIN"@ != "CAMERA_WIDTH"@);
    assert("CAMERA_GREEN_GAIN"@.len() == 17);
    assert("CAMERA_HEIGHT"@.len() == 13);
    assert("CAMERA_GREEN_GAIN"@ != "CAMERA_HEIGHT"@);
    assert("CAMERA_GREEN_GAIN"@.len() == 17);
    assert("CAMERA_COUNTDOWN"@.len() == 16);
    assert("CAMERA_GREEN_GAIN"@ != "CAMERA_COUNTDOWN"@);
    assert("CAMERA_GREEN_GAIN"@.len() == 17);
    assert("CAMERA_SHOW_GRID"@.len() == 16);
    assert("CAMERA_GREEN_GAIN"@ != "CAMERA_SHOW_GRID"@);
    assert("CAMERA_GREEN_GAIN"@.len() == 17);
    assert("CAMERA_MIRROR"@.len() == 13);
    assert("CAMERA_GREEN_GAIN"@ != "CAMERA_MIRROR"@);
    assert("CAMERA_GREEN_GAIN"@.len() == 17);
    assert("CAMERA_BRIGHTNESS"@.len() == 17);
    assert("CAMERA_GREEN_GAIN"@[7] == 'G');
    assert("CAMERA_BRIGHTNESS"@[7] == 'B');
    assert("CAMERA_GREEN_GAIN"@ != "CAMERA_BRIGHTNESS"@);
    assert("CAMERA_GREEN_GAIN"@.len() == 17);
    assert("CAMERA_EXPOSURE_VALUE"@.len() == 21);
    assert("CAMERA_GREEN_GAIN"@ != "CAMERA_EXPOSURE_VALUE"@);
    assert("CAMERA_GREEN_GAIN"@.len() == 17);
    assert("CAMERA_CONTRAST"@.len() == 15);
    assert("CAMERA_GREEN_GAIN"@ != "CAMERA_CONTRAST"@);
    assert("CAMERA_GREEN_GAIN"@.len() == 17);
    assert("CAMERA_SATURATION"@.len() == 17);
    assert("CAMERA_GREEN_GAIN"@[7] == 'G');
    assert("CAMERA_SATURATION"@[7] == 'S');
    assert("CAMERA_GREEN_GAIN"@ != "CAMERA_SATURATION"@);
    assert("CAMERA_GREEN_GAIN"@.len() == 17);
    assert("CAMERA_HUE"@.len() == 10);
    assert("CAMERA_GREEN_GAIN"@ != "CAMERA_HUE"@);
    assert("CAMERA_GREEN_GAIN"@.len() == 17);
    assert("CAMERA_TEMPERATURE"@.len() == 18);
    assert("CAMERA_GREEN_GAIN"@ != "CAMERA_TEMPERATURE"@);
    assert("CAMERA_GREEN_GAIN"@.len() == 17);
    assert("CAMERA_TINT"@.len() == 11);
    assert("CAMERA_GREEN_GAIN"@ != "CAMERA_TINT"@);
    assert("CAMERA_GREEN_GAIN"@.len() == 17);
    assert("CAMERA_RED_GAIN"@.len() == 15);
    assert("CAMERA_GREEN_GAIN"@ != "CAMERA_RED_GAIN"@);
}

proof fn lemma_key_camera_blue_gain()
    ensures
        config_key("CAMERA_BLUE_GAIN"@) == Some(ConfigKey::Tone(ToneSetting::BlueGain)),
        plain_key("CAMERA_BLUE_GAIN"@),
{
    reveal_strlit("LIBCAMERA_SOFTISP_MODE");
    reveal_strlit("CAMERA_WIDTH");
    reveal_strlit("CAMERA_HEIGHT");
    reveal_strlit("CAMERA_COUNTDOWN");
    reveal_strlit("CAMERA_SHOW_GRID");
    reveal_strlit("CAMERA_MIRROR");
    reveal_strlit("CAMERA_BRIGHTNESS");
    reveal_strlit("CAMERA_EXPOSURE_VALUE");
    reveal_strlit("CAMERA_CONTRAST");
    reveal_strlit("CAMERA_SATURATION");
    reveal_strlit("CAMERA_HUE");
    reveal_strlit("CAMERA_TEMPERATURE");
    reveal_strlit("CAMERA_TINT");
    reveal_strlit("CAMERA_RED_GAIN");
    reveal_strlit("CAMERA_GREEN_GAIN");
    reveal_strlit("CAMERA_BLUE_GAIN");
    assert("CAMERA_BLUE_GAIN"@.len() == 16);
    assert("LIBCAMERA_SOFTISP_MODE"@.len() == 22);
    assert("CAMERA_BLUE_GAIN"@ != "LIBCAMERA_SOFTISP_MODE"@);
    assert("CAMERA_BLUE_GAIN"@.len() == 16);
    assert("CAMERA_WIDTH"@.len() == 12);
    assert("CAMERA_BLUE_GAIN"@ != "CAMERA_WIDTH"@);
    assert("CAMERA_BLUE_GAIN"@.len() == 16);
    assert("CAMERA_HEIGHT"@.len() == 13);
    assert("CAMERA_BLUE_GAIN"@ != "CAMERA_HEIGHT"@);
    assert("CAMERA_BLUE_GAIN"@.len() == 16);
    assert("CAMERA_COUNTDOWN"@.len() == 16);
    assert("CAMERA_BLUE_GAIN"@[7] == 'B');
    assert("CAMERA_COUNTDOWN"@[7] == 'C');
    assert("CAMERA_BLUE_GAIN"@ != "CAMERA_COUNTDOWN"@);
    assert("CAMERA_BLUE_GAIN"@.len() == 16);
    assert("CAMERA_SHOW_GRID"@.len() == 16);
    assert("CAMERA_BLUE_GAIN"@[7] == 'B');
    assert("CAMERA_SHOW_GRID"@[7] == 'S');
    assert("CAMERA_BLUE_GAIN"@ != "CAMERA_SHOW_GRID"@);
    assert("CAMERA_BLUE_GAIN"@.len() == 16);
    assert("CAMERA_MIRROR"@.len() == 13);
    assert("CAMERA_BLUE_GAIN"@ != "CAMERA_MIRROR"@);
    assert("CAMERA_BLUE_GAIN"@.len() == 16);
    assert("CAMERA_BRIGHTNESS"@.len() == 17);
    assert("CAMERA_BLUE_GAIN"@ != "CAMERA_BRIGHTNESS"@);
    assert("CAMERA_BLUE_GAIN"@.len() == 16);
    assert("CAMERA_EXPOSURE_VALUE"@.len() == 21);
    assert("CAMERA_BLUE_GAIN"@ != "CAMERA_EXPOSURE_VALUE"@);
    assert("CAMERA_BLUE_GAIN"@.len() == 16);
    assert("CAMERA_CONTRAST"@.len() == 15);
    assert("CAMERA_BLUE_GAIN"@ != "CAMERA_CONTRAST"@);
    assert("CAMERA_BLUE_GAIN"@.len() == 16);
    assert("CAMERA_SATURATION"@.len() == 17);
    assert("CAMERA_BLUE_GAIN"@ != "CAMERA_SATURATION"@);
    assert("CAMERA_BLUE_GAIN"@.len() == 16);
    assert("CAMERA_HUE"@.len() == 10);
    assert("CAMERA_BLUE_GAIN"@ != "CAMERA_HUE"@);
    assert("CAMERA_BLUE_GAIN"@.len() == 16);
    assert("CAMERA_TEMPERATURE"@.len() == 18);
    assert("CAMERA_BLUE_GAIN"@ != "CAMERA_TEMPERATURE"@);
    assert("CAMERA_BLUE_GAIN"@.len() == 16);
    assert("CAMERA_TINT"@.len() == 11);
    assert("CAMERA_BLUE_GAIN"@ != "CAMERA_TINT"@);
    assert("CAMERA_BLUE_GAIN"@.len() == 16);
    assert("CAMERA_RED_GAIN"@.len() == 15);
    assert("CAMERA_BLUE_GAIN"@ != "CAMERA_RED_GAIN"@);
    assert("CAMERA_BLUE_GAIN"@.len() == 16);
    assert("CAMERA_GREEN_GAIN"@.len() == 17);
    assert("CAMERA_BLUE_GAIN"@ != "CAMERA_GREEN_GAIN"@);
}

proof fn lemma_key_camera_gamma()
    ensures
        config_key("CAMERA_GAMMA"@) == Some(ConfigKey::Tone(ToneSetting::Gamma)),
        plain_key("CAMERA_GAMMA"@),
{
    reveal_strlit("LIBCAMERA_SOFTISP_MODE");
    reveal_strlit("CAMERA_WIDTH");
    reveal_strlit("CAMERA_HEIGHT");
    reveal_strlit("CAMERA_COUNTDOWN");
    reveal_strlit("CAMERA_SHOW_GRID");
    reveal_strlit("CAMERA_MIRROR");
    reveal_strlit("CAMERA_BRIGHTNESS");
    reveal_strlit("CAMERA_EXPOSURE_VALUE");
    reveal_strlit("CAMERA_CONTRAST");
    reveal_strlit("CAMERA_SATURATION");
    reveal_strlit("CAMERA_HUE");
    reveal_strlit("CAMERA_TEMPERATURE");
    reveal_strlit("CAMERA_TINT");
    reveal_strlit("CAMERA_RED_GAIN");
    reveal_strlit("CAMERA_GREEN_GAIN");
    reveal_strlit("CAMERA_BLUE_GAIN");
    reveal_strlit("CAMERA_GAMMA");
    assert("CAMERA_GAMMA"@.len() == 12);
    assert("LIBCAMERA_SOFTISP_MODE"@.len() == 22);
    assert("CAMERA_GAMMA"@ != "LIBCAMERA_SOFTISP_MODE"@);
    assert("CAMERA_GAMMA"@.len() == 12);
    assert("CAMERA_WIDTH"@.len() == 12);
    assert("CAMERA_GAMMA"@[7] == 'G');
    assert("CAMERA_WIDTH"@[7] == 'W');
    assert("CAMERA_GAMMA"@ != "CAMERA_WIDTH"@);
    assert("CAMERA_GAMMA"@.len() == 12);
    assert("CAMERA_HEIGHT"@.len() == 13);
    assert("CAMERA_GAMMA"@ != "CAMERA_HEIGHT"@);
    assert("CAMERA_GAMMA"@.len() == 12);
    assert("CAMERA_COUNTDOWN"@.len() == 16);
    assert("CAMERA_GAMMA"@ != "CAMERA_COUNTDOWN"@);
    assert("CAMERA_GAMMA"@.len() == 12);
    assert("CAMERA_SHOW_GRID"@.len() == 16);
    assert("CAMERA_GAMMA"@ != "CAMERA_SHOW_GRID"@);
    assert("CAMERA_GAMMA"@.len() == 12);
    assert("CAMERA_MIRROR"@.len() == 13);
    assert("CAMERA_GAMMA"@ != "CAMERA_MIRROR"@);
    assert("CAMERA_GAMMA"@.len() == 12);
    assert("CAMERA_BRIGHTNESS"@.len() == 17);
    assert("CAMERA_GAMMA"@ != "CAMERA_BRIGHTNESS"@);
    assert("CAMERA_GAMMA"@.len() == 12);
    assert("CAMERA_EXPOSURE_VALUE"@.len() == 21);
    assert("CAMERA_GAMMA"@ != "CAMERA_EXPOSURE_VALUE"@);
    assert("CAMERA_GAMMA"@.len() == 12);
    assert("CAMERA_CONTRAST"@.len() == 15);
    assert("CAMERA_GAMMA"@ != "CAMERA_CONTRAST"@);
    assert("CAMERA_GAMMA"@.len() == 12);
    assert("CAMERA_SATURATION"@.len() == 17);
    assert("CAMERA_GAMMA"@ != "CAMERA_SATURATION"@);
    assert("CAMERA_GAMMA"@.len() == 12);
    assert("CAMERA_HUE"@.len() == 10);
    assert("CAMERA_GAMMA"@ != "CAMERA_HUE"@);
    assert("CAMERA_GAMMA"@.len() == 12);
    assert("CAMERA_TEMPERATURE"@.len() == 18);
    assert("CAMERA_GAMMA"@ != "CAMERA_TEMPERATURE"@);
    assert("CAMERA_GAMMA"@.len() == 12);
    assert("CAMERA_TINT"@.len() == 11);
    assert("CAMERA_GAMMA"@ != "CAMERA_TINT"@);
    assert("CAMERA_GAMMA"@.len() == 12);
    assert("CAMERA_RED_GAIN"@.len() == 15);
    assert("CAMERA_GAMMA"@ != "CAMERA_RED_GAIN"@);
    assert("CAMERA_GAMMA"@.len() == 12);
    assert("CAMERA_GREEN_GAIN"@.len() == 17);
    assert("CAMERA_GAMMA"@ != "CAMERA_GREEN_GAIN"@);
    assert("CAMERA_GAMMA"@.len() == 12);
    assert("CAMERA_BLUE_GAIN"@.len() == 16);
    assert("CAMERA_GAMMA"@ != "CAMERA_BLUE_GAIN"@);
}

proof fn lemma_key_camera_sharpness()
    ensures
        config_key("CAMERA_SHARPNESS"@) == Some(ConfigKey::Tone(ToneSetting::Sharpness)),
        plain_key("CAMERA_SHARPNESS"@),
{
    reveal_strlit("LIBCAMERA_SOFTISP_MODE");
    reveal_strlit("CAMERA_WIDTH");
    reveal_strlit("CAMERA_HEIGHT");
    reveal_strlit("CAMERA_COUNTDOWN");
    reveal_strlit("CAMERA_SHOW_GRID");
    reveal_strlit("CAMERA_MIRROR");
    reveal_strlit("CAMERA_BRIGHTNESS");
    reveal_strlit("CAMERA_EXPOSURE_VALUE");
    reveal_strlit("CAMERA_CONTRAST");
    reveal_strlit("CAMERA_SATURATION");
    reveal_strlit("CAMERA_HUE");
    reveal_strlit("CAMERA_TEMPERATURE");
    reveal_strlit("CAMERA_TINT");
    reveal_strlit("CAMERA_RED_GAIN");
    reveal_strlit("CAMERA_GREEN_GAIN");
    reveal_strlit("CAMERA_BLUE_GAIN");
    reveal_strlit("CAMERA_GAMMA");
    reveal_strlit("CAMERA_SHARPNESS");
    assert("CAMERA_SHARPNESS"@.len() == 16);
    assert("LIBCAMERA_SOFTISP_MODE"@.len() == 22);
    assert("CAMERA_SHARPNESS"@ != "LIBCAMERA_SOFTISP_MODE"@);
    assert("CAMERA_SHARPNESS"@.len() == 16);
    assert("CAMERA_WIDTH"@.len() == 12);
    assert("CAMERA_SHARPNESS"@ != "CAMERA_WIDTH"@);
    assert("CAMERA_SHARPNESS"@.len() == 16);
    assert("CAMERA_HEIGHT"@.len() == 13);
    assert("CAMERA_SHARPNESS"@ != "CAMERA_HEIGHT"@);
    assert("CAMERA_SHARPNESS"@.len() == 16);
    assert("CAMERA_COUNTDOWN"@.len() == 16);
    assert("CAMERA_SHARPNESS"@[7] == 'S');
    assert("CAMERA_COUNTDOWN"@[7] == 'C');
    assert("CAMERA_SHARPNESS"@ != "CAMERA_COUNTDOWN"@);
    assert("CAMERA_SHARPNESS"@.len() == 16);
    assert("CAMERA_SHOW_GRID"@.len() == 16);
    assert("CAMERA_SHARPNESS"@[9] == 'A');
    assert("CAMERA_SHOW_GRID"@[9] == 'O');
    assert("CAMERA_SHARPNESS"@ != "CAMERA_SHOW_GRID"@);
    assert("CAMERA_SHARPNESS"@.len() == 16);
    assert("CAMERA_MIRROR"@.len() == 13);
    assert("CAMERA_SHARPNESS"@ != "CAMERA_MIRROR"@);
    assert("CAMERA_SHARPNESS"@.len() == 16);
    assert("CAMERA_BRIGHTNESS"@.len() == 17);
    assert("CAMERA_SHARPNESS"@ != "CAMERA_BRIGHTNESS"@);
    assert("CAMERA_SHARPNESS"@.len() == 16);
    assert("CAMERA_EXPOSURE_VALUE"@.len() == 21);
    assert("CAMERA_SHARPNESS"@ != "CAMERA_EXPOSURE_VALUE"@);
    assert("CAMERA_SHARPNESS"@.len() == 16);
    assert("CAMERA_CONTRAST"@.len() == 15);
    assert("CAMERA_SHARPNESS"@ != "CAMERA_CONTRAST"@);
    assert("CAMERA_SHARPNESS"@.len() == 16);
    assert("CAMERA_SATURATION"@.len() == 17);
    assert("CAMERA_SHARPNESS"@ != "CAMERA_SATURATION"@);
    assert("CAMERA_SHARPNESS"@.len() == 16);
    assert("CAMERA_HUE"@.len() == 10);
    assert("CAMERA_SHARPNESS"@ != "CAMERA_HUE"@);
    assert("CAMERA_SHARPNESS"@.len() == 16);
    assert("CAMERA_TEMPERATURE"@.len() == 18);
    assert("CAMERA_SHARPNESS"@ != "CAMERA_TEMPERATURE"@);
    assert("CAMERA_SHARPNESS"@.len() == 16);
    assert("CAMERA_TINT"@.len() == 11);
    assert("CAMERA_SHARPNESS"@ != "CAMERA_TINT"@);
    assert("CAMERA_SHARPNESS"@.len() == 16);
    assert("CAMERA_RED_GAIN"@.len() == 15);
    assert("CAMERA_SHARPNESS"@ != "CAMERA_RED_GAIN"@);
    assert("CAMERA_SHARPNESS"@.len() == 16);
    assert("CAMERA_GREEN_GAIN"@.len() == 17);
    assert("CAMERA_SHARPNESS"@ != "CAMERA_GREEN_GAIN"@);
    assert("CAMERA_SHARPNESS"@.len() == 16);
    assert("CAMERA_BLUE_GAIN"@.len() == 16);
    assert("CAMERA_SHARPNESS"@[7] == 'S');
    assert("CAMERA_BLUE_GAIN"@[7] == 'B');
    assert("CAMERA_SHARPNESS"@ != "CAMERA_BLUE_GAIN"@);
    assert("CAMERA_SHARPNESS"@.len() == 16);
    assert("CAMERA_GAMMA"@.len() == 12);
    assert("CAMERA_SHARPNESS"@ != "CAMERA_GAMMA"@);
}

proof fn lemma_key_camera_record_audio()
    ensures
        config_key("CAMERA_RECORD_AUDIO"@) == Some(ConfigKey::RecordAudio),
        plain_key("CAMERA_RECORD_AUDIO"@),
{
    reveal_strlit("LIBCAMERA_SOFTISP_MODE");
    reveal_strlit("CAMERA_WIDTH");
    reveal_strlit("CAMERA_HEIGHT");
    reveal_strlit("CAMERA_COUNTDOWN");
    reveal_strlit("CAMERA_SHOW_GRID");
    reveal_strlit("CAMERA_MIRROR");
    reveal_strlit("CAMERA_BRIGHTNESS");
    reveal_strlit("CAMERA_EXPOSURE_VALUE");
    reveal_strlit("CAMERA_CONTRAST");
    reveal_strlit("CAMERA_SATURATION");
    reveal_strlit("CAMERA_HUE");
    reveal_strlit("CAMERA_TEMPERATURE");
    reveal_strlit("CAMERA_TINT");
    reveal_strlit("CAMERA_RED_GAIN");
    reveal_strlit("CAMERA_GREEN_GAIN");
    reveal_strlit("CAMERA_BLUE_GAIN");
    reveal_strlit("CAMERA_GAMMA");
    reveal_strlit("CAMERA_SHARPNESS");
    reveal_strlit("CAMERA_RECORD_AUDIO");
    assert("CAMERA_RECORD_AUDIO"@.len() == 19);
    assert("LIBCAMERA_SOFTISP_MODE"@.len() == 22);
    assert("CAMERA_RECORD_AUDIO"@ != "LIBCAMERA_SOFTISP_MODE"@);
    assert("CAMERA_RECORD_AUDIO"@.len() == 19);
    assert("CAMERA_WIDTH"@.len() == 12);
    assert("CAMERA_RECORD_AUDIO"@ != "CAMERA_WIDTH"@);
    assert("CAMERA_RECORD_AUDIO"@.len() == 19);
    assert("CAMERA_HEIGHT"@.len() == 13);
    assert("CAMERA_RECORD_AUDIO"@ != "CAMERA_HEIGHT"@);
    assert("CAMERA_RECORD_AUDIO"@.len() == 19);
    assert("CAMERA_COUNTDOWN"@.len() == 16);
    assert("CAMERA_RECORD_AUDIO"@ != "CAMERA_COUNTDOWN"@);
    assert("CAMERA_RECORD_AUDIO"@.len() == 19);
    assert("CAMERA_SHOW_GRID"@.len() == 16);
    assert("CAMERA_RECORD_AUDIO"@ != "CAMERA_SHOW_GRID"@);
    assert("CAMERA_RECORD_AUDIO"@.len() == 19);
    assert("CAMERA_MIRROR"@.len() == 13);
    assert("CAMERA_RECORD_AUDIO"@ != "CAMERA_MIRROR"@);
    assert("CAMERA_RECORD_AUDIO"@.len() == 19);
    assert("CAMERA_BRIGHTNESS"@.len() == 17);
    assert("CAMERA_RECORD_AUDIO"@ != "CAMERA_BRIGHTNESS"@);
    assert("CAMERA_RECORD_AUDIO"@.len() == 19);
    assert("CAMERA_EXPOSURE_VALUE"@.len() == 21);
    assert("CAMERA_RECORD_AUDIO"@ != "CAMERA_EXPOSURE_VALUE"@);
    assert("CAMERA_RECORD_AUDIO"@.len() == 19);
    assert("CAMERA_CONTRAST"@.len() == 15);
    assert("CAMERA_RECORD_AUDIO"@ != "CAMERA_CONTRAST"@);
    assert("CAMERA_RECORD_AUDIO"@.len() == 19);
    assert("CAMERA_SATURATION"@.len() == 17);
    assert("CAMERA_RECORD_AUDIO"@ != "CAMERA_SATURATION"@);
    assert("CAMERA_RECORD_AUDIO"@.len() == 19);
    assert("CAMERA_HUE"@.len() == 10);
    assert("CAMERA_RECORD_AUDIO"@ != "CAMERA_HUE"@);
    assert("CAMERA_RECORD_AUDIO"@.len() == 19);
    assert("CAMERA_TEMPERATURE"@.len() == 18);
    assert("CAMERA_RECORD_AUDIO"@ != "CAMERA_TEMPERATURE"@);
    assert("CAMERA_RECORD_AUDIO"@.len() == 19);
    assert("CAMERA_TINT"@.len() == 11);
    assert("CAMERA_RECORD_AUDIO"@ != "CAMERA_TINT"@);
    assert("CAMERA_RECORD_AUDIO"@.len() == 19);
    assert("CAMERA_RED_GAIN"@.len() == 15);
    assert("CAMERA_RECORD_AUDIO"@ != "CAMERA_RED_GAIN"@);
    assert("CAMERA_RECORD_AUDIO"@.len() == 19);
    assert("CAMERA_GREEN_GAIN"@.len() == 17);
    assert("CAMERA_RECORD_AUDIO"@ != "CAMERA_GREEN_GAIN"@);
    assert("CAMERA_RECORD_AUDIO"@.len() == 19);
    assert("CAMERA_BLUE_GAIN"@.len() == 16);
    assert("CAMERA_RECORD_AUDIO"@ != "CAMERA_BLUE_GAIN"@);
    assert("CAMERA_RECORD_AUDIO"@.len() == 19);
    assert("CAMERA_GAMMA"@.len() == 12);
    assert("CAMERA_RECORD_AUDIO"@ != "CAMERA_GAMMA"@);
    assert("CAMERA_RECORD_AUDIO"@.len() == 19);
    assert("CAMERA_SHARPNESS"@.len() == 16);
    assert("CAMERA_RECORD_AUDIO"@ != "CAMERA_SHARPNESS"@);
}

proof fn lemma_key_camera_audio_source()
    ensures
        config_key("CAMERA_AUDIO_SOURCE"@) == Some(ConfigKey::AudioSource),
        plain_key("CAMERA_AUDIO_SOURCE"@),
{
    reveal_strlit("LIBCAMERA_SOFTISP_MODE");
    reveal_strlit("CAMERA_WIDTH");
    reveal_strlit("CAMERA_HEIGHT");
    reveal_strlit("CAMERA_COUNTDOWN");
    reveal_strlit("CAMERA_SHOW_GRID");
    reveal_strlit("CAMERA_MIRROR");
    reveal_strlit("CAMERA_BRIGHTNESS");
    reveal_strlit("CAMERA_EXPOSURE_VALUE");
    reveal_strlit("CAMERA_CONTRAST");
    reveal_strlit("CAMERA_SATURATION");
    reveal_strlit("CAMERA_HUE");
    reveal_strlit("CAMERA_TEMPERATURE");
    reveal_strlit("CAMERA_TINT");
    reveal_strlit("CAMERA_RED_GAIN");
    reveal_strlit("CAMERA_GREEN_GAIN");
    reveal_strlit("CAMERA_BLUE_GAIN");
    reveal_strlit("CAMERA_GAMMA");
    reveal_strlit("CAMERA_SHARPNESS");
    reveal_strlit("CAMERA_RECORD_AUDIO");
    reveal_strlit("CAMERA_AUDIO_SOURCE");
    assert("CAMERA_AUDIO_SOURCE"@.len() == 19);
    assert("LIBCAMERA_SOFTISP_MODE"@.len() == 22);
    assert("CAMERA_AUDIO_SOURCE"@ != "LIBCAMERA_SOFTISP_MODE"@);
    assert("CAMERA_AUDIO_SOURCE"@.len() == 19);
    assert("CAMERA_WIDTH"@.len() == 12);
    assert("CAMERA_AUDIO_SOURCE"@ != "CAMERA_WIDTH"@);
    assert("CAMERA_AUDIO_SOURCE"@.len() == 19);
    assert("CAMERA_HEIGHT"@.len() == 13);
    assert("CAMERA_AUDIO_SOURCE"@ != "CAMERA_HEIGHT"@);
    assert("CAMERA_AUDIO_SOURCE"@.len() == 19);
    assert("CAMERA_COUNTDOWN"@.len() == 16);
    assert("CAMERA_AUDIO_SOURCE"@ != "CAMERA_COUNTDOWN"@);
    assert("CAMERA_AUDIO_SOURCE"@.len() == 19);
    assert("CAMERA_SHOW_GRID"@.len() == 16);
    assert("CAMERA_AUDIO_SOURCE"@ != "CAMERA_SHOW_GRID"@);
    assert("CAMERA_AUDIO_SOURCE"@.len() == 19);
    assert("CAMERA_MIRROR"@.len() == 13);
    assert("CAMERA_AUDIO_SOURCE"@ != "CAMERA_MIRROR"@);
    assert("CAMERA_AUDIO_SOURCE"@.len() == 19);
    assert("CAMERA_BRIGHTNESS"@.len() == 17);
    assert("CAMERA_AUDIO_SOURCE"@ != "CAMERA_BRIGHTNESS"@);
    assert("CAMERA_AUDIO_SOURCE"@.len() == 19);
    assert("CAMERA_EXPOSURE_VALUE"@.len() == 21);
    assert("CAMERA_AUDIO_SOURCE"@ != "CAMERA_EXPOSURE_VALUE"@);
    assert("CAMERA_AUDIO_SOURCE"@.len() == 19);
    assert("CAMERA_CONTRAST"@.len() == 15);
    assert("CAMERA_AUDIO_SOURCE"@ != "CAMERA_CONTRAST"@);
    assert("CAMERA_AUDIO_SOURCE"@.len() == 19);
    assert("CAMERA_SATURATION"@.len() == 17);
    assert("CAMERA_AUDIO_SOURCE"@ != "CAMERA_SATURATION"@);
    assert("CAMERA_AUDIO_SOURCE"@.len() == 19);
    assert("CAMERA_HUE"@.len() == 10);
    assert("CAMERA_AUDIO_SOURCE"@ != "CAMERA_HUE"@);
    assert("CAMERA_AUDIO_SOURCE"@.len() == 19);
    assert("CAMERA_TEMPERATURE"@.len() == 18);
    assert("CAMERA_AUDIO_SOURCE"@ != "CAMERA_TEMPERATURE"@);
    assert("CAMERA_AUDIO_SOURCE"@.len() == 19);
    assert("CAMERA_TINT"@.len() == 11);
    assert("CAMERA_AUDIO_SOURCE"@ != "CAMERA_TINT"@);
    assert("CAMERA_AUDIO_SOURCE"@.len() == 19);
    assert("CAMERA_RED_GAIN"@.len() == 15);
    assert("CAMERA_AUDIO_SOURCE"@ != "CAMERA_RED_GAIN"@);
    assert("CAMERA_AUDIO_SOURCE"@.len() == 19);
    assert("CAMERA_GREEN_GAIN"@.len() == 17);
    assert("CAMERA_AUDIO_SOURCE"@ != "CAMERA_GREEN_GAIN"@);
    assert("CAMERA_AUDIO_SOURCE"@.len() == 19);
    assert("CAMERA_BLUE_GAIN"@.len() == 16);
    assert("CAMERA_AUDIO_SOURCE"@ != "CAMERA_BLUE_GAIN"@);
    assert("CAMERA_AUDIO_SOURCE"@.len() == 19);
    assert("CAMERA_GAMMA"@.len() == 12);
    assert("CAMERA_AUDIO_SOURCE"@ != "CAMERA_GAMMA"@);
    assert("CAMERA_AUDIO_SOURCE"@.len() == 19);
    assert("CAMERA_SHARPNESS"@.len() == 16);
    assert("CAMERA_AUDIO_SOURCE"@ != "CAMERA_SHARPNESS"@);
    assert("CAMERA_AUDIO_SOURCE"@.len() == 19);
    assert("CAMERA_RECORD_AUDIO"@.len() == 19);
    assert("CAMERA_AUDIO_SOURCE"@[7] == 'A');
    assert("CAMERA_RECORD_AUDIO"@[7] == 'R');
    assert("CAMERA_AUDIO_SOURCE"@ != "CAMERA_RECORD_AUDIO"@);
}

/// The keys of the file name the settings that the file writes them for.
proof fn lemma_keys()
    ensures
        config_key("LIBCAMERA_SOFTISP_MODE"@) == Some(ConfigKey::SoftIspMode),
        config_key("CAMERA_WIDTH"@) == Some(ConfigKey::Width),
        config_key("CAMERA_HEIGHT"@) == Some(ConfigKey::Height),
        config_key("CAMERA_COUNTDOWN"@) == Some(ConfigKey::Countdown),
        config_key("CAMERA_SHOW_GRID"@) == Some(ConfigKey::ShowGrid),
        config_key("CAMERA_MIRROR"@) == Some(ConfigKey::Mirror),
        forall|i: int| 0 <= i < 12 ==> config_key(#[trigger] tone_key(tone_at(i))) == Some(ConfigKey::Tone(tone_at(i))),
        config_key("CAMERA_RECORD_AUDIO"@) == Some(ConfigKey::RecordAudio),
        config_key("CAMERA_AUDIO_SOURCE"@) == Some(ConfigKey::AudioSource),
        plain_key("LIBCAMERA_SOFTISP_MODE"@),
        plain_key("CAMERA_WIDTH"@),
        plain_key("CAMERA_HEIGHT"@),
        plain_key("CAMERA_COUNTDOWN"@),
        plain_key("CAMERA_SHOW_GRID"@),
        plain_key("CAMERA_MIRROR"@),
        forall|i: int| 0 <= i < 12 ==> plain_key(#[trigger] tone_key(tone_at(i))),
        plain_key("CAMERA_RECORD_AUDIO"@),
        plain_key("CAMERA_AUDIO_SOURCE"@),
{
    lemma_key_libcamera_softisp_mode();
    lemma_key_camera_width();
    lemma_key_camera_height();
    lemma_key_camera_countdown();
    lemma_key_camera_show_grid();
    lemma_key_camera_mirror();
    lemma_key_camera_record_audio();
    lemma_key_camera_audio_source();
    assert forall|i: int| 0 <= i < 12 implies config_key(#[trigger] tone_key(tone_at(i))) == Some(ConfigKey::Tone(tone_at(i))) && plain_key(tone_key(tone_at(i))) by {
        if i == 0 {
            lemma_key_camera_brightness();
        } else if i == 1 {
            lemma_key_camera_exposure_value();
        } else if i == 2 {
            lemma_key_camera_contrast();
        } else if i == 3 {
            lemma_key_camera_saturation();
        } else if i == 4 {
            lemma_key_camera_hue();
        } else if i == 5 {
            lemma_key_camera_temperature();
        } else if i == 6 {
            lemma_key_camera_tint();
        } else if i == 7 {
            lemma_key_camera_red_gain();
        } else if i == 8 {
            lemma_key_camera_green_gain();
        } else if i == 9 {
            lemma_key_camera_blue_gain();
        } else if i == 10 {
            lemma_key_camera_gamma();
        } else if i == 11 {
            lemma_key_camera_sharpness();
        }
    }
}


proof fn lemma_apply_skip(st: ConfigState, ls: Seq<Seq<char>>, i: int)
    requires
        0 <= i < ls.len(),
    ensures
        apply_config_lines(st, ls.skip(i)) == apply_config_lines(apply_config_line(st, ls[i]), ls.skip(i + 1)),
{
    assert(ls.skip(i).drop_first() =~= ls.skip(i + 1));
    assert(ls.skip(i)[0] == ls[i]);
}

/// A comment line or a blank line changes nothing.
proof fn lemma_inert_line(st: ConfigState, line: Seq<char>)
    requires
        line.len() == 0 || (line[0] == '#' && !is_ws(line.last())),
    ensures
        apply_config_line(st, line) == st,
{
    lemma_trim_fixed(line);
}

proof fn lemma_optional_text(v: Option<u32>)
    ensures
        line_safe(optional_text(v)),
        parse_optional_u32(optional_text(v)) == v,
{
    match v {
        Some(n) => {
            lemma_decimal_line_safe(n as nat);
            lemma_parse_decimal(n as nat);
        },
        None => {
            lemma_trim_fixed(optional_text(v));
        },
    }
}

proof fn lemma_countdown_text(value: u32, fallback: u32)
    ensures
        line_safe(decimal(normalized_countdown(value) as nat)),
        parse_countdown_seconds(decimal(normalized_countdown(value) as nat), fallback)
            == normalized_countdown(value),
{
    let n = normalized_countdown(value);
    lemma_decimal_line_safe(n as nat);
    lemma_parse_decimal(n as nat);
    assert(countdown_choices()[0] == 0);
    assert(countdown_choices().contains(n));
}

proof fn lemma_header_lines()
    ensures
        "# Camera tuning used by:"@.len() > 0,
        "# Camera tuning used by:"@[0] == '#',
        !is_ws("# Camera tuning used by:"@.last()),
        strip_cr("# Camera tuning used by:"@) == "# Camera tuning used by:"@,
        forall|j: int| 0 <= j < "# Camera tuning used by:"@.len() ==> "# Camera tuning used by:"@[j] != '\n',
        "#   galaxybook-camera (Rust + libcamera)"@.len() > 0,
        "#   galaxybook-camera (Rust + libcamera)"@[0] == '#',
        !is_ws("#   galaxybook-camera (Rust + libcamera)"@.last()),
        strip_cr("#   galaxybook-camera (Rust + libcamera)"@) == "#   galaxybook-camera (Rust + libcamera)"@,
        forall|j: int| 0 <= j < "#   galaxybook-camera (Rust + libcamera)"@.len() ==> "#   galaxybook-camera (Rust + libcamera)"@[j] != '\n',
{
    reveal_strlit("# Camera tuning used by:");
    reveal_strlit("#   galaxybook-camera (Rust + libcamera)");
}


/// The lines that the file writes before the tone adjustments.
pub open spec fn head_lines(c: CameraConfigView) -> Seq<Seq<char>> {
    config_lines(c, seq![]).take(11)
}

/// The lines that the file writes for the tone adjustments.
pub open spec fn tone_lines(tone_texts: Seq<Seq<char>>) -> Seq<Seq<char>> {
    Seq::new(12, |i: int| key_line(tone_key(tone_at(i)), tone_texts[i]))
}

/// The lines that the file writes after the tone adjustments.
pub open spec fn tail_lines(c: CameraConfigView) -> Seq<Seq<char>> {
    seq![
        key_line("CAMERA_RECORD_AUDIO"@, bool_text(c.record_audio)),
        key_line("CAMERA_AUDIO_SOURCE"@, c.audio_source),
    ]
}

proof fn lemma_config_lines_parts(c: CameraConfigView, tone_texts: Seq<Seq<char>>)
    requires
        tone_texts.len() == 12,
    ensures
        config_lines(c, tone_texts) == head_lines(c) + tone_lines(tone_texts) + tail_lines(c),
{
    assert(config_lines(c, tone_texts) =~= head_lines(c) + tone_lines(tone_texts) + tail_lines(c));
}

proof fn lemma_apply_concat(st: ConfigState, a: Seq<Seq<char>>, b: Seq<Seq<char>>)
    ensures
        apply_config_lines(st, a + b) == apply_config_lines(apply_config_lines(st, a), b),
    decreases a.len(),
{
    if a.len() > 0 {
        assert((a + b).drop_first() =~= a.drop_first() + b);
        assert((a + b)[0] == a[0]);
        lemma_apply_concat(apply_config_line(st, a[0]), a.drop_first(), b);
    } else {
        assert(a + b =~= b);
    }
}

/// Every tone adjustment's key names it.
proof fn lemma_tone_key(t: ToneSetting)
    ensures
        config_key(tone_key(t)) == Some(ConfigKey::Tone(t)),
        plain_key(tone_key(t)),
{
    match t {
        ToneSetting::Brightness => lemma_key_camera_brightness(),
        ToneSetting::ExposureValue => lemma_key_camera_exposure_value(),
        ToneSetting::Contrast => lemma_key_camera_contrast(),
        ToneSetting::Saturation => lemma_key_camera_saturation(),
        ToneSetting::Hue => lemma_key_camera_hue(),
        ToneSetting::Temperature => lemma_key_camera_temperature(),
        ToneSetting::Tint => lemma_key_camera_tint(),
        ToneSetting::RedGain => lemma_key_camera_red_gain(),
        ToneSetting::GreenGain => lemma_key_camera_green_gain(),
        ToneSetting::BlueGain => lemma_key_camera_blue_gain(),
        ToneSetting::Gamma => lemma_key_camera_gamma(),
        ToneSetting::Sharpness => lemma_key_camera_sharpness(),
    }
}

/// Tone lines append their settings and texts to the tone values.
proof fn lemma_apply_tone_lines(st: ConfigState, ts: Seq<ToneSetting>, vs: Seq<Seq<char>>)
    requires
        ts.len() == vs.len(),
        forall|i: int| 0 <= i < vs.len() ==> line_safe(#[trigger] vs[i]),
    ensures
        apply_config_lines(st, Seq::new(ts.len(), |i: int| key_line(tone_key(ts[i]), vs[i])))
            == (st.0, st.1 + Seq::new(ts.len(), |i: int| (ts[i], vs[i]))),
    decreases ts.len(),
{
    let ls = Seq::new(ts.len(), |i: int| key_line(tone_key(ts[i]), vs[i]));
    if ts.len() == 0 {
        assert(st.1 + Seq::new(ts.len(), |i: int| (ts[i], vs[i])) =~= st.1);
    } else {
        lemma_tone_key(ts[0]);
        assert(line_safe(vs[0]));
        lemma_key_line(st, tone_key(ts[0]), vs[0], ConfigKey::Tone(ts[0]));
        let st1: ConfigState = (st.0, st.1.push((ts[0], vs[0])));
        assert(apply_config_line(st, ls[0]) == st1);
        assert forall|i: int| 0 <= i < vs.drop_first().len() implies line_safe(#[trigger] vs.drop_first()[i]) by {
            assert(vs.drop_first()[i] == vs[i + 1]);
        }
        lemma_apply_tone_lines(st1, ts.drop_first(), vs.drop_first());
        assert(ls.drop_first() =~= Seq::new(ts.drop_first().len(), |i: int| key_line(tone_key(ts.drop_first()[i]), vs.drop_first()[i])));
        assert(st1.1 + Seq::new(ts.drop_first().len(), |i: int| (ts.drop_first()[i], vs.drop_first()[i]))
            =~= st.1 + Seq::new(ts.len(), |i: int| (ts[i], vs[i])));
    }
}

/// The tone lines of the file append every tone text in file order.
proof fn lemma_apply_tone_part(st: ConfigState, tone_texts: Seq<Seq<char>>)
    requires
        tone_texts.len() == 12,
        forall|i: int| 0 <= i < 12 ==> line_safe(#[trigger] tone_texts[i]),
    ensures
        apply_config_lines(st, tone_lines(tone_texts)) == (st.0, st.1 + Seq::new(12, |i: int| (tone_at(i), tone_texts[i]))),
{
    let ts = Seq::new(12, |i: int| tone_at(i));
    lemma_apply_tone_lines(st, ts, tone_texts);
    assert(tone_lines(tone_texts) =~= Seq::new(ts.len(), |i: int| key_line(tone_key(ts[i]), tone_texts[i])));
    assert(Seq::new(12, |i: int| (tone_at(i), tone_texts[i])) =~= Seq::new(ts.len(), |i: int| (ts[i], tone_texts[i])));
}

/// The lines before the tone adjustments set the capture and layout settings.
#[verifier::rlimit(50)]
proof fn lemma_apply_head(st: ConfigState, c: CameraConfigView)
    requires
        line_safe(c.softisp_mode),
    ensures
        apply_config_lines(st, head_lines(c)) == (
            CameraConfigView {
                softisp_mode: c.softisp_mode,
                width: c.width,
                height: c.height,
                countdown_seconds: normalized_countdown(c.countdown_seconds),
                show_grid: c.show_grid,
                mirror: c.mirror,
                ..st.0
            },
            st.1,
        ),
{
    let ls = head_lines(c);
    lemma_keys();
    lemma_header_lines();
    lemma_optional_text(c.width);
    lemma_optional_text(c.height);
    lemma_bool_text(c.show_grid);
    lemma_bool_text(c.mirror);
    let s0: ConfigState = st;
    assert(ls.skip(0) =~= ls);
    lemma_inert_line(s0, ls[0]);
    let s1: ConfigState = s0;
    lemma_apply_skip(s0, ls, 0);
    lemma_inert_line(s1, ls[1]);
    let s2: ConfigState = s1;
    lemma_apply_skip(s1, ls, 1);
    lemma_inert_line(s2, ls[2]);
    let s3: ConfigState = s2;
    lemma_apply_skip(s2, ls, 2);
    lemma_key_line(s3, "LIBCAMERA_SOFTISP_MODE"@, c.softisp_mode, ConfigKey::SoftIspMode);
    let s4: ConfigState = apply_key(s3, ConfigKey::SoftIspMode, c.softisp_mode);
    lemma_apply_skip(s3, ls, 3);
    lemma_inert_line(s4, ls[4]);
    let s5: ConfigState = s4;
    lemma_apply_skip(s4, ls, 4);
    lemma_key_line(s5, "CAMERA_WIDTH"@, optional_text(c.width), ConfigKey::Width);
    let s6: ConfigState = apply_key(s5, ConfigKey::Width, optional_text(c.width));
    lemma_apply_skip(s5, ls, 5);
    lemma_key_line(s6, "CAMERA_HEIGHT"@, optional_text(c.height), ConfigKey::Height);
    let s7: ConfigState = apply_key(s6, ConfigKey::Height, optional_text(c.height));
    lemma_apply_skip(s6, ls, 6);
    lemma_inert_line(s7, ls[7]);
    let s8: ConfigState = s7;
    lemma_apply_skip(s7, ls, 7);
    lemma_countdown_text(c.countdown_seconds, s8.0.countdown_seconds);
    lemma_key_line(s8, "CAMERA_COUNTDOWN"@, decimal(normalized_countdown(c.countdown_seconds) as nat), ConfigKey::Countdown);
    let s9: ConfigState = apply_key(s8, ConfigKey::Countdown, decimal(normalized_countdown(c.countdown_seconds) as nat));
    lemma_apply_skip(s8, ls, 8);
    lemma_key_line(s9, "CAMERA_SHOW_GRID"@, bool_text(c.show_grid), ConfigKey::ShowGrid);
    let s10: ConfigState = apply_key(s9, ConfigKey::ShowGrid, bool_text(c.show_grid));
    lemma_apply_skip(s9, ls, 9);
    lemma_key_line(s10, "CAMERA_MIRROR"@, bool_text(c.mirror), ConfigKey::Mirror);
    let s11: ConfigState = apply_key(s10, ConfigKey::Mirror, bool_text(c.mirror));
    lemma_apply_skip(s10, ls, 10);
    assert(ls.skip(11) =~= Seq::<Seq<char>>::empty());
}

/// The lines after the tone adjustments set the audio settings.
proof fn lemma_apply_tail(st: ConfigState, c: CameraConfigView)
    requires
        line_safe(c.audio_source),
    ensures
        apply_config_lines(st, tail_lines(c)) == (
            CameraConfigView { record_audio: c.record_audio, audio_source: c.audio_source, ..st.0 },
            st.1,
        ),
{
    let ls = tail_lines(c);
    lemma_keys();
    lemma_bool_text(c.record_audio);
    let s0: ConfigState = st;
    assert(ls.skip(0) =~= ls);
    lemma_key_line(s0, "CAMERA_RECORD_AUDIO"@, bool_text(c.record_audio), ConfigKey::RecordAudio);
    let s1: ConfigState = apply_key(s0, ConfigKey::RecordAudio, bool_text(c.record_audio));
    lemma_apply_skip(s0, ls, 0);
    lemma_key_line(s1, "CAMERA_AUDIO_SOURCE"@, c.audio_source, ConfigKey::AudioSource);
    let s2: ConfigState = apply_key(s1, ConfigKey::AudioSource, c.audio_source);
    lemma_apply_skip(s1, ls, 1);
    assert(ls.skip(2) =~= Seq::<Seq<char>>::empty());
}

/// Every line of the file is a single line that `str::lines` gives back.
proof fn lemma_config_lines_plain(c: CameraConfigView, tone_texts: Seq<Seq<char>>)
    requires
        tone_texts.len() == 12,
        line_safe(c.softisp_mode),
        line_safe(c.audio_source),
        forall|i: int| 0 <= i < 12 ==> line_safe(#[trigger] tone_texts[i]),
    ensures
        lines(config_text(c, tone_texts)) == config_lines(c, tone_texts),
{
    let ls = config_lines(c, tone_texts);
    let st: ConfigState = (default_config(), seq![]);
    lemma_keys();
    lemma_header_lines();
    lemma_optional_text(c.width);
    lemma_optional_text(c.height);
    lemma_countdown_text(c.countdown_seconds, 0);
    lemma_bool_text(c.show_grid);
    lemma_bool_text(c.mirror);
    lemma_bool_text(c.record_audio);
    assert forall|i: int| 0 <= i < ls.len() implies strip_cr(#[trigger] ls[i]) == ls[i] && forall|j: int| 0 <= j < ls[i].len() ==> ls[i][j] != '\n' by {
        if i < 3 || i == 4 || i == 7 {
        } else if i == 3 {
            lemma_key_line(st, "LIBCAMERA_SOFTISP_MODE"@, c.softisp_mode, ConfigKey::SoftIspMode);
        } else if i == 5 {
            lemma_key_line(st, "CAMERA_WIDTH"@, optional_text(c.width), ConfigKey::Width);
        } else if i == 6 {
            lemma_key_line(st, "CAMERA_HEIGHT"@, optional_text(c.height), ConfigKey::Height);
        } else if i == 8 {
            lemma_key_line(st, "CAMERA_COUNTDOWN"@, decimal(normalized_countdown(c.countdown_seconds) as nat), ConfigKey::Countdown);
        } else if i == 9 {
            lemma_key_line(st, "CAMERA_SHOW_GRID"@, bool_text(c.show_grid), ConfigKey::ShowGrid);
        } else if i == 10 {
            lemma_key_line(st, "CAMERA_MIRROR"@, bool_text(c.mirror), ConfigKey::Mirror);
        } else if i < 23 {
            lemma_tone_key(tone_at(i - 11));
            assert(line_safe(tone_texts[i - 11]));
            lemma_key_line(st, tone_key(tone_at(i - 11)), tone_texts[i - 11], ConfigKey::Tone(tone_at(i - 11)));
        } else if i == 23 {
            lemma_key_line(st, "CAMERA_RECORD_AUDIO"@, bool_text(c.record_audio), ConfigKey::RecordAudio);
        } else {
            lemma_key_line(st, "CAMERA_AUDIO_SOURCE"@, c.audio_source, ConfigKey::AudioSource);
        }
    }
    assert forall|i: int, j: int| 0 <= i < ls.len() && 0 <= j < ls[i].len() implies ls[i][j] != '\n' by {
        assert(strip_cr(ls[i]) == ls[i]);
    }
    lemma_lines_of_terminated(ls);
}

/// Reading back the text written for a configuration gives the same
/// settings (the countdown normalized to the choices) and the tone texts in
/// file order, provided each text fits on one line.
pub proof fn lemma_config_text_roundtrip(c: CameraConfigView, tone_texts: Seq<Seq<char>>)
    requires
        tone_texts.len() == 12,
        line_safe(c.softisp_mode),
        line_safe(c.audio_source),
        forall|i: int| 0 <= i < 12 ==> line_safe(#[trigger] tone_texts[i]),
    ensures
        parse_config(config_text(c, tone_texts)) == (
            CameraConfigView { countdown_seconds: normalized_countdown(c.countdown_seconds), ..c },
            Seq::new(12, |i: int| (tone_at(i), tone_texts[i])),
        ),
{
    lemma_config_lines_plain(c, tone_texts);
    lemma_config_lines_parts(c, tone_texts);
    let s0: ConfigState = (default_config(), seq![]);
    lemma_apply_concat(s0, head_lines(c) + tone_lines(tone_texts), tail_lines(c));
    lemma_apply_concat(s0, head_lines(c), tone_lines(tone_texts));
    lemma_apply_head(s0, c);
    let s1 = apply_config_lines(s0, head_lines(c));
    lemma_apply_tone_part(s1, tone_texts);
    let s2 = apply_config_lines(s1, tone_lines(tone_texts));
    lemma_apply_tail(s2, c);
    assert(s0.1 + Seq::new(12, |i: int| (tone_at(i), tone_texts[i])) =~= Seq::new(12, |i: int| (tone_at(i), tone_texts[i])));
}


// ---------------------------------------------------------------------------
// Resolution and zoom
// ---------------------------------------------------------------------------

/// Whether a zoom level has the configured resolution.
pub open spec fn matches_resolution(o: PreviewZoomOption, width: Option<u32>, height: Option<u32>) -> bool {
    width == Some(o.width) && height == Some(o.height)
}

/// The position of the first zoom level from `i` on with the configured
/// resolution, or 0 when none has it.
pub open spec fn first_match_from(options: Seq<PreviewZoomOption>, width: Option<u32>, height: Option<u32>, i: int) -> int
    decreases options.len() - i,
{
    if i < 0 || i >= options.len() {
        0
    } else if matches_resolution(options[i], width, height) {
        i
    } else {
        first_match_from(options, width, height, i + 1)
    }
}

/// The position of the first zoom level with the configured resolution,
/// or 0 when none has it.
pub open spec fn resolution_position(options: Seq<PreviewZoomOption>, width: Option<u32>, height: Option<u32>) -> int {
    first_match_from(options, width, height, 0)
}

proof fn lemma_first_match_skip(options: Seq<PreviewZoomOption>, width: Option<u32>, height: Option<u32>, i: int)
    requires
        0 <= i <= options.len(),
        forall|j: int| 0 <= j < i ==> !matches_resolution(#[trigger] options[j], width, height),
    ensures
        resolution_position(options, width, height) == first_match_from(options, width, height, i),
    decreases i,
{
    if i > 0 {
        lemma_first_match_skip(options, width, height, i - 1);
    }
}

/// The position is that of a matching level, or 0 when none matches; it is
/// inside the list when the list is not empty.
pub proof fn lemma_resolution_position_bounds(options: Seq<PreviewZoomOption>, width: Option<u32>, height: Option<u32>, i: int)
    requires
        0 <= i <= options.len(),
    ensures
        0 <= first_match_from(options, width, height, i),
        options.len() > 0 ==> first_match_from(options, width, height, i) < options.len(),
        first_match_from(options, width, height, i) != 0 ==> matches_resolution(
            options[first_match_from(options, width, height, i)],
            width,
            height,
        ),
    decreases options.len() - i,
{
    if i < options.len() && !matches_resolution(options[i], width, height) {
        lemma_resolution_position_bounds(options, width, height, i + 1);
    }
}

/// The first zoom level with the configured resolution, as a position.
fn first_matching(options: &[PreviewZoomOption], width: Option<u32>, height: Option<u32>) -> (r: usize)
    ensures
        r == resolution_position(options@, width, height),
{
    let mut i: usize = 0;
    while i < options.len()
        invariant
            i <= options@.len(),
            forall|j: int| 0 <= j < i ==> !matches_resolution(#[trigger] options@[j], width, height),
        decreases options.len() - i,
    {
        let o = &options[i];
        let hit = match (width, height) {
            (Some(w), Some(h)) => w == o.width && h == o.height,
            _ => false,
        };
        if hit {
            proof {
                lemma_first_match_skip(options@, width, height, i as int);
            }
            return i;
        }
        i = i + 1;
    }
    proof {
        lemma_first_match_skip(options@, width, height, i as int);
    }
    0
}

impl CameraConfig {
    /// The position of the zoom level with the configured resolution; 0
    /// when none has it.
    pub fn resolution_index(&self, options: &[PreviewZoomOption]) -> (r: usize)
        ensures
            r == resolution_position(options@, self.width, self.height),
    {
        first_matching(options, self.width, self.height)
    }

    /// The configured resolution as `"{width}x{height}"`, or `"automatico"`
    /// when it is not set.
    pub fn resolution_text(&self) -> (r: String)
        ensures
            r@ == match (self.width, self.height) {
                (Some(w), Some(h)) => decimal(w as nat) + "x"@ + decimal(h as nat),
                _ => "automatico"@,
            },
    {
        match (self.width, self.height) {
            (Some(w), Some(h)) => {
                let mut v = decimal_chars(w as u64);
                append_chars(&mut v, &chars_of("x"));
                append_chars(&mut v, &decimal_chars(h as u64));
                string_from_chars(&v)
            },
            _ => String::from_str("automatico"),
        }
    }

    /// The label of the zoom level with the configured resolution (of the
    /// first level when none has it), or `"1x"` when there is no level.
    pub fn zoom_text(&self, options: &[PreviewZoomOption]) -> (r: String)
        ensures
            r@ == (if resolution_position(options@, self.width, self.height) < options@.len() {
                options@[resolution_position(options@, self.width, self.height)].label@
            } else {
                "1x"@
            }),
    {
        let index = self.resolution_index(options);
        if index < options.len() {
            options[index].label.clone()
        } else {
            String::from_str("1x")
        }
    }

    /// At startup, keeps the configured resolution when a zoom level has it,
    /// and otherwise takes the resolution of the first level. With no
    /// level, nothing changes.
    pub fn apply_validated_startup_resolution(&mut self, options: &[PreviewZoomOption])
        ensures
            options@.len() == 0 ==> final(self)@ == old(self)@,
            options@.len() > 0 ==> {
                let o = options@[resolution_position(options@, old(self).width, old(self).height)];
                &&& final(self)@ == CameraConfigView {
                    width: Some(o.width),
                    height: Some(o.height),
                    ..old(self)@
                }
            },
    {
        if options.len() == 0 {
            return;
        }
        let index = self.resolution_index(options);
        proof {
            lemma_resolution_position_bounds(options@, self.width, self.height, 0);
        }
        let w = options[index].width;
        let h = options[index].height;
        self.width = Some(w);
        self.height = Some(h);
    }
}

/// After the startup check, the configured resolution is that of a listed
/// zoom level, and `resolution_index` points at a level with it.
pub proof fn lemma_startup_resolution_is_listed(options: Seq<PreviewZoomOption>, width: Option<u32>, height: Option<u32>)
    requires
        options.len() > 0,
    ensures
        ({
            let o = options[resolution_position(options, width, height)];
            let p = resolution_position(options, Some(o.width), Some(o.height));
            p < options.len() && matches_resolution(options[p], Some(o.width), Some(o.height))
        }),
{
    lemma_resolution_position_bounds(options, width, height, 0);
    let o = options[resolution_position(options, width, height)];
    lemma_resolution_position_bounds(options, Some(o.width), Some(o.height), 0);
    let p = resolution_position(options, Some(o.width), Some(o.height));
    if p == 0 && !matches_resolution(options[0], Some(o.width), Some(o.height)) {
        assert(first_match_from(options, Some(o.width), Some(o.height), 1) == 0);
    }
}

/// A switch reads as on for `1`, `true`, `yes` and `on`, as off for `0`,
/// `false`, `no` and `off` (surrounding whitespace ignored), and keeps the
/// value it had for anything else, whatever that value was.
pub proof fn lemma_switch_words(value: Seq<char>, fallback: bool)
    ensures
        trim(value) == "1"@ || trim(value) == "true"@ || trim(value) == "yes"@ || trim(value) == "on"@
            ==> parse_bool(value, fallback),
        trim(value) == "0"@ || trim(value) == "false"@ || trim(value) == "no"@ || trim(value) == "off"@
            ==> !parse_bool(value, fallback),
        trim(value) != "1"@ && trim(value) != "true"@ && trim(value) != "yes"@ && trim(value) != "on"@
            && trim(value) != "0"@ && trim(value) != "false"@ && trim(value) != "no"@ && trim(value)
            != "off"@ ==> parse_bool(value, fallback) == fallback,
{
    reveal_strlit("1");
    reveal_strlit("true");
    reveal_strlit("yes");
    reveal_strlit("on");
    reveal_strlit("0");
    reveal_strlit("false");
    reveal_strlit("no");
    reveal_strlit("off");
    let offs = seq!["0"@, "false"@, "no"@, "off"@];
    let ons = seq!["1"@, "true"@, "yes"@, "on"@];
    assert forall|i: int, j: int| 0 <= i < 4 && 0 <= j < 4 implies offs[i] != ons[j] by {
        if offs[i].len() == ons[j].len() {
            assert(offs[i][0] != ons[j][0]);
        }
    }
    assert(offs[0] != ons[0] && offs[0] != ons[1] && offs[0] != ons[2] && offs[0] != ons[3]);
    assert(offs[1] != ons[0] && offs[1] != ons[1] && offs[1] != ons[2] && offs[1] != ons[3]);
    assert(offs[2] != ons[0] && offs[2] != ons[1] && offs[2] != ons[2] && offs[2] != ons[3]);
    assert(offs[3] != ons[0] && offs[3] != ons[1] && offs[3] != ons[2] && offs[3] != ons[3]);
}

} // verus!
