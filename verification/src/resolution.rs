//! Preview resolutions, zoom levels and countdown choices.

use vstd::prelude::*;

use crate::text::{append_chars, append_str, decimal, decimal_chars, string_from_chars};

verus! {

/// A preview resolution offered to the user.
#[derive(Clone, Debug, PartialEq, Eq)]
pub struct ResolutionOption {
    pub label: String,
    pub width: u32,
    pub height: u32,
}

/// The label of a resolution: `"{width} x {height}"`.
pub open spec fn resolution_label(width: u32, height: u32) -> Seq<char> {
    decimal(width as nat) + " x "@ + decimal(height as nat)
}

/// Formats the label of a resolution.
pub fn format_resolution_label(width: u32, height: u32) -> (label: String)
    ensures
        label@ == resolution_label(width, height),
{
    let mut v = decimal_chars(width as u64);
    append_str(&mut v, " x ");
    let h = decimal_chars(height as u64);
    append_chars(&mut v, &h);
    string_from_chars(&v)
}

/// The option for a resolution, with its label.
pub fn resolution_option(width: u32, height: u32) -> (option: ResolutionOption)
    ensures
        option.width == width,
        option.height == height,
        option.label@ == resolution_label(width, height),
{
    ResolutionOption { label: format_resolution_label(width, height), width, height }
}

/// The resolutions offered when the camera cannot be asked for its own.
pub fn fallback_preview_resolution_options() -> (options: Vec<ResolutionOption>)
    ensures
        options@.len() == 2,
        options@[0].width == 1920 && options@[0].height == 1092,
        options@[1].width == 1280 && options@[1].height == 720,
        forall|i: int| 0 <= i < 2 ==> (#[trigger] options@[i]).label@ == resolution_label(options@[i].width, options@[i].height),
{
    let mut options: Vec<ResolutionOption> = Vec::new();
    options.push(resolution_option(1920, 1092));
    options.push(resolution_option(1280, 720));
    options
}

// ---------------------------------------------------------------------------
// Ordering the sizes reported by the camera
// ---------------------------------------------------------------------------

/// The number of pixels of a size.
pub open spec fn area(s: (u32, u32)) -> int {
    s.0 * s.1
}

/// Whether size `a` is listed before size `b`: larger area first, then the
/// wider one, then the taller one.
pub open spec fn listed_before(a: (u32, u32), b: (u32, u32)) -> bool {
    area(a) > area(b) || (area(a) == area(b) && (a.0 > b.0 || (a.0 == b.0 && a.1 > b.1)))
}

/// The sizes are listed strictly in order, hence without repetition.
pub open spec fn strictly_listed(s: Seq<(u32, u32)>) -> bool {
    forall|i: int, j: int| 0 <= i < j < s.len() ==> listed_before(s[i], s[j])
}

/// Decides `listed_before`.
pub(crate) fn listed_before_exec(a: (u32, u32), b: (u32, u32)) -> (r: bool)
    ensures
        r == listed_before(a, b),
{
    proof {
        assert(a.0 * a.1 <= 0xffff_ffff * 0xffff_ffff) by (nonlinear_arith)
            requires
                a.0 <= 0xffff_ffff,
                a.1 <= 0xffff_ffff,
        ;
        assert(b.0 * b.1 <= 0xffff_ffff * 0xffff_ffff) by (nonlinear_arith)
            requires
                b.0 <= 0xffff_ffff,
                b.1 <= 0xffff_ffff,
        ;
    }
    let area_a = a.0 as u64 * a.1 as u64;
    let area_b = b.0 as u64 * b.1 as u64;
    area_a > area_b || (area_a == area_b && (a.0 > b.0 || (a.0 == b.0 && a.1 > b.1)))
}

proof fn lemma_listed_before_total(a: (u32, u32), b: (u32, u32))
    ensures
        a == b || listed_before(a, b) || listed_before(b, a),
        !(listed_before(a, b) && listed_before(b, a)),
        !listed_before(a, a),
{
}

proof fn lemma_listed_before_transitive(a: (u32, u32), b: (u32, u32), c: (u32, u32))
    requires
        listed_before(a, b),
        listed_before(b, c),
    ensures
        listed_before(a, c),
{
}

/// The sizes, largest first, each listed once (`sort_unstable_by` on area,
/// width and height, all descending, then `dedup`).
pub fn sorted_distinct_sizes(sizes: &Vec<(u32, u32)>) -> (r: Vec<(u32, u32)>)
    ensures
        strictly_listed(r@),
        forall|s: (u32, u32)| r@.contains(s) <==> sizes@.contains(s),
{
    let mut out: Vec<(u32, u32)> = Vec::new();
    let mut i: usize = 0;
    while i < sizes.len()
        invariant
            i <= sizes.len(),
            strictly_listed(out@),
            forall|s: (u32, u32)| out@.contains(s) <==> sizes@.take(i as int).contains(s),
        decreases sizes.len() - i,
    {
        let s = sizes[i];
        let mut j: usize = 0;
        while j < out.len() && listed_before_exec(out[j], s)
            invariant
                j <= out.len(),
                forall|k: int| 0 <= k < j ==> listed_before(#[trigger] out@[k], s),
            decreases out.len() - j,
        {
            j = j + 1;
        }
        let ghost before = out@;
        let ghost prev = sizes@.take(i as int);
        let ghost next = sizes@.take(i + 1);
        proof {
            assert(next =~= prev.push(s));
        }
        if j < out.len() && out[j].0 == s.0 && out[j].1 == s.1 {
            proof {
                assert forall|t: (u32, u32)| out@.contains(t) <==> next.contains(t) by {
                    if t == s {
                        assert(out@[j as int] == s);
                    }
                    if next.contains(t) && t != s {
                        let w = choose|w: int| #![auto] 0 <= w < next.len() && next[w] == t;
                        assert(prev[w] == t);
                    }
                }
            }
        } else {
            proof {
                if j < out.len() {
                    lemma_listed_before_total(out@[j as int], s);
                }
            }
            out.insert(j, s);
            proof {
                assert forall|a: int, b: int| 0 <= a < b < out@.len() implies listed_before(out@[a], out@[b]) by {
                    if b < j {
                        assert(out@[a] == before[a] && out@[b] == before[b]);
                    } else if b == j {
                        assert(out@[a] == before[a]);
                    } else if a == j {
                        assert(out@[b] == before[b - 1]);
                        if b - 1 > j {
                            lemma_listed_before_transitive(s, before[j as int], before[b - 1]);
                        }
                    } else if a < j {
                        assert(out@[a] == before[a] && out@[b] == before[b - 1]);
                        if b - 1 >= j {
                            lemma_listed_before_transitive(before[a], s, before[j as int]);
                            if b - 1 > j {
                                lemma_listed_before_transitive(before[a], before[j as int], before[b - 1]);
                            }
                        }
                    } else {
                        assert(out@[a] == before[a - 1] && out@[b] == before[b - 1]);
                    }
                }
                assert forall|t: (u32, u32)| out@.contains(t) <==> next.contains(t) by {
                    if out@.contains(t) {
                        let w = choose|w: int| #![auto] 0 <= w < out@.len() && out@[w] == t;
                        if w < j {
                            assert(before[w] == t);
                            assert(before.contains(t));
                        } else if w > j {
                            assert(before[w - 1] == t);
                            assert(before.contains(t));
                        }
                        if t != s {
                            let v = choose|v: int| #![auto] 0 <= v < prev.len() && prev[v] == t;
                            assert(next[v] == t);
                        } else {
                            assert(next[i as int] == s);
                        }
                    }
                    if next.contains(t) {
                        if t == s {
                            assert(out@[j as int] == s);
                        } else {
                            let w = choose|w: int| #![auto] 0 <= w < next.len() && next[w] == t;
                            assert(prev[w] == t);
                            assert(before.contains(t));
                            let v = choose|v: int| #![auto] 0 <= v < before.len() && before[v] == t;
                            if v < j {
                                assert(out@[v] == t);
                            } else {
                                assert(out@[v + 1] == t);
                            }
                        }
                    }
                }
            }
        }
        i = i + 1;
    }
    proof {
        assert(sizes@.take(i as int) =~= sizes@);
    }
    out
}

/// The options for a list of sizes, in the given order.
fn options_for_sizes(sizes: &Vec<(u32, u32)>) -> (options: Vec<ResolutionOption>)
    ensures
        options@.len() == sizes@.len(),
        forall|i: int| 0 <= i < sizes@.len() ==> {
            &&& (#[trigger] options@[i]).width == sizes@[i].0
            &&& options@[i].height == sizes@[i].1
            &&& options@[i].label@ == resolution_label(sizes@[i].0, sizes@[i].1)
        },
{
    let mut options: Vec<ResolutionOption> = Vec::new();
    let mut i: usize = 0;
    while i < sizes.len()
        invariant
            i <= sizes.len(),
            options@.len() == i,
            forall|k: int| 0 <= k < i ==> {
                &&& (#[trigger] options@[k]).width == sizes@[k].0
                &&& options@[k].height == sizes@[k].1
                &&& options@[k].label@ == resolution_label(sizes@[k].0, sizes@[k].1)
            },
        decreases sizes.len() - i,
    {
        let (w, h) = sizes[i];
        options.push(resolution_option(w, h));
        i = i + 1;
    }
    options
}

/// The preview resolutions: the sizes that the camera reported, largest
/// first and each once, or the fallback resolutions when the camera could not
/// be asked (`None`) or reported no size.
pub fn preview_resolution_options(detected: Option<Vec<(u32, u32)>>) -> (options: Vec<ResolutionOption>)
    ensures
        forall|i: int| 0 <= i < options@.len() ==> (#[trigger] options@[i]).label@ == resolution_label(options@[i].width, options@[i].height),
        match detected {
            Some(sizes) if sizes@.len() > 0 => {
                &&& strictly_listed(Seq::new(options@.len(), |i: int| (options@[i].width, options@[i].height)))
                &&& forall|s: (u32, u32)| (exists|i: int| #![auto] 0 <= i < options@.len() && options@[i].width == s.0 && options@[i].height == s.1) <==> sizes@.contains(s)
            },
            _ => {
                &&& options@.len() == 2
                &&& options@[0].width == 1920 && options@[0].height == 1092
                &&& options@[1].width == 1280 && options@[1].height == 720
            },
        },
{
    match detected {
        Some(sizes) => {
            let sorted = sorted_distinct_sizes(&sizes);
            if sorted.len() == 0 {
                proof {
                    if sizes@.len() > 0 {
                        assert(sizes@.contains(sizes@[0]));
                        assert(!sorted@.contains(sizes@[0]));
                    }
                }
                return fallback_preview_resolution_options();
            }
            let options = options_for_sizes(&sorted);
            proof {
                assert(sorted@.contains(sorted@[0]));
                assert(sizes@.len() > 0);
                let keys = Seq::new(options@.len(), |i: int| (options@[i].width, options@[i].height));
                assert(keys =~= sorted@);
                assert forall|s: (u32, u32)| (exists|i: int| #![auto] 0 <= i < options@.len() && options@[i].width == s.0 && options@[i].height == s.1) <==> sizes@.contains(s) by {
                    if exists|i: int| #![auto] 0 <= i < options@.len() && options@[i].width == s.0 && options@[i].height == s.1 {
                        let i = choose|i: int| #![auto] 0 <= i < options@.len() && options@[i].width == s.0 && options@[i].height == s.1;
                        assert(sorted@[i] == s);
                        assert(sorted@.contains(s));
                    }
                    if sizes@.contains(s) {
                        assert(sorted@.contains(s));
                        let i = choose|i: int| #![auto] 0 <= i < sorted@.len() && sorted@[i] == s;
                        assert(options@[i].width == s.0 && options@[i].height == s.1);
                    }
                }
            }
            options
        },
        None => fallback_preview_resolution_options(),
    }
}

// ---------------------------------------------------------------------------
// Zoom levels
// ---------------------------------------------------------------------------

/// A zoom level of the preview: the resolution asked of the camera for it.
#[derive(Clone, Debug, PartialEq, Eq)]
pub struct PreviewZoomOption {
    pub label: String,
    pub width: u32,
    pub height: u32,
    /// How many times the base resolution is divided.
    pub factor: u32,
}

/// The zoom factors and their labels.
pub open spec fn zoom_factor(i: int) -> u32 {
    if i == 0 { 1 } else if i == 1 { 2 } else if i == 2 { 3 } else if i == 3 { 5 } else { 10 }
}

pub open spec fn zoom_label(i: int) -> Seq<char> {
    if i == 0 { "1x"@ } else if i == 1 { "2x"@ } else if i == 2 { "3x"@ } else if i == 3 { "5x"@ } else { "10x"@ }
}

/// `n / d` rounded to the nearest integer, halves rounded up.
pub open spec fn round_div(n: int, d: int) -> int {
    (2 * n + d) / (2 * d)
}

/// The dimension of a zoom level: the base dimension (at least 2) divided by
/// the factor and rounded, at least 2, then rounded down to an even number.
pub open spec fn zoomed_dimension(base: int, factor: int) -> int {
    let b = if base < 2 { 2 } else { base };
    let d = round_div(b, factor);
    let m = if d < 2 { 2 } else { d };
    m - m % 2
}

fn zoomed_dimension_exec(base: u32, factor: u32) -> (r: u32)
    requires
        1 <= factor <= 10,
    ensures
        r == zoomed_dimension(base as int, factor as int),
{
    let b: u64 = if base < 2 { 2 } else { base as u64 };
    let f: u64 = factor as u64;
    let d: u64 = (2 * b + f) / (2 * f);
    proof {
        let n = 2 * b + f;
        vstd::arithmetic::div_mod::lemma_fundamental_div_mod(n as int, 2 * f as int);
        vstd::arithmetic::div_mod::lemma_mod_bound(n as int, 2 * f as int);
        if d > b {
            assert(false) by (nonlinear_arith)
                requires
                    n == 2 * b + f,
                    n == (2 * f) * d + n % (2 * f),
                    n % (2 * f) >= 0,
                    d >= b + 1,
                    f >= 1,
                    b >= 0,
            ;
        }
    }
    let m: u64 = if d < 2 { 2 } else { d };
    (m - m % 2) as u32
}

/// The zoom levels for a list of resolutions: for each factor (1, 2, 3, 5,
/// 10), the first resolution divided by it. An empty list gives none.
pub fn derive_preview_zoom_options_from(options: &[ResolutionOption]) -> (zoom: Vec<PreviewZoomOption>)
    ensures
        options@.len() == 0 ==> zoom@.len() == 0,
        options@.len() > 0 ==> {
            &&& zoom@.len() == 5
            &&& forall|i: int| 0 <= i < 5 ==> {
                &&& (#[trigger] zoom@[i]).factor == zoom_factor(i)
                &&& zoom@[i].label@ == zoom_label(i)
                &&& zoom@[i].width == zoomed_dimension(options@[0].width as int, zoom_factor(i) as int)
                &&& zoom@[i].height == zoomed_dimension(options@[0].height as int, zoom_factor(i) as int)
            }
        },
{
    let mut zoom: Vec<PreviewZoomOption> = Vec::new();
    if options.len() == 0 {
        return zoom;
    }
    let base_width = options[0].width;
    let base_height = options[0].height;
    let factors: [u32; 5] = [1, 2, 3, 5, 10];
    let mut i: usize = 0;
    while i < 5
        invariant
            i <= 5,
            factors@ == seq![1u32, 2, 3, 5, 10],
            base_width == options@[0].width,
            base_height == options@[0].height,
            zoom@.len() == i,
            forall|k: int| 0 <= k < i ==> {
                &&& (#[trigger] zoom@[k]).factor == zoom_factor(k)
                &&& zoom@[k].label@ == zoom_label(k)
                &&& zoom@[k].width == zoomed_dimension(base_width as int, zoom_factor(k) as int)
                &&& zoom@[k].height == zoomed_dimension(base_height as int, zoom_factor(k) as int)
            },
        decreases 5 - i,
    {
        let factor = factors[i];
        let label = if i == 0 {
            String::from_str("1x")
        } else if i == 1 {
            String::from_str("2x")
        } else if i == 2 {
            String::from_str("3x")
        } else if i == 3 {
            String::from_str("5x")
        } else {
            String::from_str("10x")
        };
        zoom.push(PreviewZoomOption {
            label,
            width: zoomed_dimension_exec(base_width, factor),
            height: zoomed_dimension_exec(base_height, factor),
            factor,
        });
        i = i + 1;
    }
    zoom
}

// ---------------------------------------------------------------------------
// Countdown
// ---------------------------------------------------------------------------

/// The countdown lengths, in seconds, that can be chosen.
pub open spec fn countdown_choices() -> Seq<u32> {
    seq![0u32, 3, 10]
}

/// A countdown length kept as it is when it is one of the choices, else 0.
pub open spec fn normalized_countdown(value: u32) -> u32 {
    if countdown_choices().contains(value) {
        value
    } else {
        0
    }
}

/// A countdown length kept as it is when it is one of the choices, else 0.
pub fn normalize_countdown_seconds(value: u32) -> (r: u32)
    ensures
        r == normalized_countdown(value),
{
    proof {
        assert(countdown_choices()[0] == 0);
        assert(countdown_choices()[1] == 3);
        assert(countdown_choices()[2] == 10);
    }
    if value == 0 || value == 3 || value == 10 {
        value
    } else {
        proof {
            value_is_not_a_choice(value);
        }
        0
    }
}

proof fn value_is_not_a_choice(value: u32)
    requires
        value != 0 && value != 3 && value != 10,
    ensures
        !countdown_choices().contains(value),
{
    if countdown_choices().contains(value) {
        let i = choose|i: int| #![auto] 0 <= i < 3 && countdown_choices()[i] == value;
    }
}

/// The countdown lengths, in seconds, that can be chosen.
pub fn countdown_options() -> (r: Vec<u32>)
    ensures
        r@ == countdown_choices(),
{
    let mut r: Vec<u32> = Vec::new();
    r.push(0);
    r.push(3);
    r.push(10);
    assert(r@ =~= countdown_choices());
    r
}

/// A normalized countdown length is one of the choices, and normalizing it
/// again changes nothing.
pub proof fn lemma_normalize_countdown_idempotent(value: u32)
    ensures
        countdown_choices().contains(normalized_countdown(value)),
        normalized_countdown(normalized_countdown(value)) == normalized_countdown(value),
{
    assert(countdown_choices()[0] == 0);
}

/// The label the zoom button shows: the selected option's, else the first
/// option's, else `1x`.
pub open spec fn zoom_button_label(options: Seq<PreviewZoomOption>, selected_index: int) -> Seq<char> {
    if 0 <= selected_index < options.len() {
        options[selected_index].label@
    } else if options.len() > 0 {
        options[0].label@
    } else {
        "1x"@
    }
}

/// The label the zoom button shows (see `zoom_button_label`).
pub fn selected_zoom_label(options: &[PreviewZoomOption], selected_index: usize) -> (r: String)
    ensures
        r@ == zoom_button_label(options@, selected_index as int),
{
    if selected_index < options.len() {
        options[selected_index].label.clone()
    } else if options.len() > 0 {
        options[0].label.clone()
    } else {
        String::from_str("1x")
    }
}

/// The resolution of the zoom level chosen in the selector: the one at the
/// position, else the first level's; none without levels.
pub fn zoom_resolution_at(options: &[PreviewZoomOption], index: usize) -> (r: Option<(u32, u32)>)
    ensures
        r == (if index < options@.len() {
            Some((options@[index as int].width, options@[index as int].height))
        } else if options@.len() > 0 {
            Some((options@[0].width, options@[0].height))
        } else {
            None::<(u32, u32)>
        }),
{
    if index < options.len() {
        Some((options[index].width, options[index].height))
    } else if options.len() > 0 {
        Some((options[0].width, options[0].height))
    } else {
        None
    }
}

} // verus!
