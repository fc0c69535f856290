//! Audio sources for video recording, as ffmpeg lists the PulseAudio ones.

use vstd::prelude::*;

use crate::ffmpeg::{combined_output, output_text, ProcessOutput};
use crate::text::{
    append_chars, append_str, chars_eq, chars_eq_str, chars_of, copy_range, decode_utf8_lossy, ends_with,
    ends_with_exec, find_char_from, first_index_of, lines, lines_of, split_once, split_once_exec,
    is_ws, starts_with, starts_with_exec, string_from_chars, trim, trim_chars, trim_end, trim_start,
    trim_start_chars, utf8_lossy, views,
};

verus! {

/// An audio source that recording can use.
#[derive(Clone, Debug)]
pub struct AudioSourceOption {
    pub id: String,
    pub label: String,
}

/// The views of a list of sources: (id, label) pairs.
pub open spec fn source_views(s: Seq<AudioSourceOption>) -> Seq<(Seq<char>, Seq<char>)> {
    s.map_values(|o: AudioSourceOption| (o.id@, o.label@))
}

/// The system's default source, always offered first.
pub open spec fn default_sources() -> Seq<(Seq<char>, Seq<char>)> {
    seq![("default"@, "Padrao do sistema"@)]
}

/// The list that holds only the system's default source.
pub fn default_audio_sources() -> (r: Vec<AudioSourceOption>)
    ensures
        source_views(r@) == default_sources(),
{
    let mut r: Vec<AudioSourceOption> = Vec::new();
    r.push(AudioSourceOption {
        id: String::from_str("default"),
        label: String::from_str("Padrao do sistema"),
    });
    assert(source_views(r@) =~= default_sources());
    r
}

/// Index of the last `c` in `s`, or -1.
pub open spec fn last_char_pos(s: Seq<char>, c: char) -> int
    decreases s.len(),
{
    if s.len() == 0 {
        -1
    } else if s.last() == c {
        s.len() - 1
    } else {
        last_char_pos(s.drop_last(), c)
    }
}

/// Drops every leading `*`.
pub open spec fn trim_stars(s: Seq<char>) -> Seq<char>
    decreases s.len(),
{
    if s.len() > 0 && s[0] == '*' {
        trim_stars(s.drop_first())
    } else {
        s
    }
}

/// The entry of a listing line: the line without leading whitespace and
/// stars, trimmed; `None` for blank lines and the heading.
pub open spec fn listing_entry(line: Seq<char>) -> Option<(bool, Seq<char>)> {
    let t = trim_start(line);
    if t.len() == 0 || starts_with(t, "Auto-detected sources for "@) {
        None
    } else {
        Some((t[0] == '*', trim(trim_stars(t))))
    }
}

/// The description between the first `[` and the last `]` of the rest of an
/// entry, when both are there.
pub open spec fn bracket_bounds(rest: Seq<char>) -> Option<(int, int)> {
    match first_index_of(rest, '[') {
        Some(start) => if last_char_pos(rest, ']') >= 0 {
            Some((start, last_char_pos(rest, ']')))
        } else {
            None
        },
        None => None,
    }
}

/// The line is malformed: the description of a source it names has its
/// last `]` before its first `[`, so no text lies between them.
pub open spec fn listing_line_malformed(line: Seq<char>) -> bool {
    match listing_entry(line) {
        Some((_, entry)) => match split_once(entry, ' ') {
            Some((id, rest)) => !ends_with(id, ".monitor"@) && match bracket_bounds(rest) {
                Some((start, end)) => end < start + 1,
                None => false,
            },
            None => false,
        },
        None => false,
    }
}

/// The source that a listing line names, if any: its id (before the first
/// space) and its label (the description in brackets, else the id), marked
/// as the current default when the line starts with `*`. Monitor sources
/// are left out.
pub open spec fn listing_source(line: Seq<char>) -> Option<(Seq<char>, Seq<char>)> {
    match listing_entry(line) {
        Some((is_default, entry)) => match split_once(entry, ' ') {
            Some((id, rest)) => if ends_with(id, ".monitor"@) {
                None
            } else {
                let text = match bracket_bounds(rest) {
                    Some((start, end)) => trim(rest.subrange(start + 1, end)),
                    None => id,
                };
                Some((id, if is_default { text + " (padrao atual)"@ } else { text }))
            },
            None => None,
        },
        None => None,
    }
}

/// One listing line applied to the sources: a new id is appended, an id
/// already listed is kept as it was.
pub open spec fn apply_listing_line(sources: Seq<(Seq<char>, Seq<char>)>, line: Seq<char>) -> Seq<(Seq<char>, Seq<char>)> {
    match listing_source(line) {
        Some((id, label)) => if exists|i: int| 0 <= i < sources.len() && #[trigger] sources[i].0 == id {
            sources
        } else {
            sources.push((id, label))
        },
        None => sources,
    }
}

pub open spec fn apply_listing_lines(sources: Seq<(Seq<char>, Seq<char>)>, ls: Seq<Seq<char>>) -> Seq<(Seq<char>, Seq<char>)>
    decreases ls.len(),
{
    if ls.len() == 0 {
        sources
    } else {
        apply_listing_lines(apply_listing_line(sources, ls[0]), ls.drop_first())
    }
}

/// No line of the listing is malformed.
pub open spec fn listing_is_safe(raw: Seq<char>) -> bool {
    forall|i: int| 0 <= i < lines(raw).len() ==> !listing_line_malformed(#[trigger] lines(raw)[i])
}

proof fn lemma_trim_stars_skip(s: Seq<char>, k: int)
    requires
        0 <= k <= s.len(),
        forall|i: int| 0 <= i < k ==> s[i] == '*',
        k < s.len() ==> s[k] != '*',
    ensures
        trim_stars(s) == s.skip(k),
    decreases k,
{
    if k > 0 {
        assert(s.drop_first().skip(k - 1) =~= s.skip(k));
        lemma_trim_stars_skip(s.drop_first(), k - 1);
    } else {
        assert(s.skip(0) =~= s);
    }
}

fn last_char_pos_exec(s: &Vec<char>, c: char) -> (r: Option<usize>)
    ensures
        match r {
            Some(i) => last_char_pos(s@, c) == i && i < s.len(),
            None => last_char_pos(s@, c) == -1,
        },
{
    let mut i = s.len();
    assert(s@.take(i as int) =~= s@);
    while i > 0
        invariant
            i <= s.len(),
            last_char_pos(s@, c) == last_char_pos(s@.take(i as int), c),
        decreases i,
    {
        assert(s@.take(i as int).drop_last() =~= s@.take(i - 1));
        if s[i - 1] == c {
            return Some(i - 1);
        }
        i = i - 1;
    }
    None
}

/// The entry of a listing line (see `listing_entry`).
fn listing_entry_exec(line: &Vec<char>) -> (r: Option<(bool, Vec<char>)>)
    ensures
        match listing_entry(line@) {
            Some((d, e)) => r matches Some((d2, e2)) && d2 == d && e2@ == e,
            None => r is None,
        },
{
    let t = trim_start_chars(line);
    if t.len() == 0 || starts_with_exec(&t, &chars_of("Auto-detected sources for ")) {
        return None;
    }
    let is_default = t[0] == '*';
    let mut k: usize = 0;
    while k < t.len() && t[k] == '*'
        invariant
            k <= t.len(),
            forall|i: int| 0 <= i < k ==> t@[i] == '*',
        decreases t.len() - k,
    {
        k = k + 1;
    }
    proof {
        lemma_trim_stars_skip(t@, k as int);
        assert(t@.skip(k as int) =~= t@.subrange(k as int, t.len() as int));
    }
    let stars_gone = copy_range(&t, k, t.len());
    Some((is_default, trim_chars(&stars_gone)))
}

/// Whether a listing line is free of the malformed bracket order.
fn listing_line_is_safe(line: &Vec<char>) -> (r: bool)
    ensures
        r == !listing_line_malformed(line@),
{
    let (_, entry) = match listing_entry_exec(line) {
        Some(e) => e,
        None => return true,
    };
    let (id, rest) = match split_once_exec(&entry, ' ') {
        Some(parts) => parts,
        None => return true,
    };
    if ends_with_exec(&id, &chars_of(".monitor")) {
        return true;
    }
    let start = find_char_from(&rest, '[', 0);
    proof {
        crate::text::lemma_first_index_of(rest@, '[', start as int);
    }
    if start == rest.len() {
        return true;
    }
    match last_char_pos_exec(&rest, ']') {
        Some(end) => end >= start + 1,
        None => true,
    }
}

/// Whether no line of a listing is malformed.
pub fn audio_listing_is_safe(raw: &str) -> (r: bool)
    ensures
        r == listing_is_safe(raw@),
{
    let ls = lines_of(&chars_of(raw));
    let mut i: usize = 0;
    while i < ls.len()
        invariant
            views(ls@) == lines(raw@),
            i <= ls.len(),
            forall|j: int| 0 <= j < i ==> !listing_line_malformed(#[trigger] lines(raw@)[j]),
        decreases ls.len() - i,
    {
        assert(views(ls@)[i as int] == ls@[i as int]@);
        if !listing_line_is_safe(&ls[i]) {
            return false;
        }
        i = i + 1;
    }
    true
}

/// The source that a listing line names (see `listing_source`).
fn listing_source_exec(line: &Vec<char>) -> (r: Option<(Vec<char>, Vec<char>)>)
    requires
        !listing_line_malformed(line@),
    ensures
        match listing_source(line@) {
            Some((id, label)) => r matches Some((i2, l2)) && i2@ == id && l2@ == label,
            None => r is None,
        },
{
    let (is_default, entry) = match listing_entry_exec(line) {
        Some(e) => e,
        None => return None,
    };
    let (id, rest) = match split_once_exec(&entry, ' ') {
        Some(parts) => parts,
        None => return None,
    };
    if ends_with_exec(&id, &chars_of(".monitor")) {
        return None;
    }
    let start = find_char_from(&rest, '[', 0);
    proof {
        crate::text::lemma_first_index_of(rest@, '[', start as int);
    }
    let mut text: Vec<char> = Vec::new();
    let mut found = false;
    if start < rest.len() {
        match last_char_pos_exec(&rest, ']') {
            Some(end) => {
                let inside = copy_range(&rest, start + 1, end);
                text = trim_chars(&inside);
                found = true;
            },
            None => {},
        }
    }
    if !found {
        text = copy_range(&id, 0, id.len());
        assert(text@ =~= id@);
    }
    if is_default {
        append_str(&mut text, " (padrao atual)");
    }
    Some((id, text))
}

/// The pairs of a list of sources under construction.
spec fn pair_views(v: Seq<(Vec<char>, Vec<char>)>) -> Seq<(Seq<char>, Seq<char>)> {
    v.map_values(|p: (Vec<char>, Vec<char>)| (p.0@, p.1@))
}

/// Whether some pair of the list already has the id.
fn has_id(pairs: &Vec<(Vec<char>, Vec<char>)>, id: &Vec<char>) -> (r: bool)
    ensures
        r == exists|i: int| 0 <= i < pairs.len() && #[trigger] pair_views(pairs@)[i].0 == id@,
{
    let mut i: usize = 0;
    while i < pairs.len()
        invariant
            i <= pairs.len(),
            forall|j: int| 0 <= j < i ==> #[trigger] pair_views(pairs@)[j].0 != id@,
        decreases pairs.len() - i,
    {
        if chars_eq(&pairs[i].0, id) {
            assert(pair_views(pairs@)[i as int].0 == id@);
            return true;
        }
        i = i + 1;
    }
    false
}

/// The sources that an `ffmpeg -sources pulse` listing names, after the
/// system's default: one per id, in the order of first appearance, monitor
/// sources left out.
pub fn parse_audio_sources(raw: &str) -> (r: Vec<AudioSourceOption>)
    requires
        listing_is_safe(raw@),
    ensures
        source_views(r@) == apply_listing_lines(default_sources(), lines(raw@)),
{
    let ls = lines_of(&chars_of(raw));
    let mut pairs: Vec<(Vec<char>, Vec<char>)> = Vec::new();
    pairs.push((chars_of("default"), chars_of("Padrao do sistema")));
    assert(pair_views(pairs@) =~= default_sources());
    assert(lines(raw@).skip(0) =~= lines(raw@));
    let mut i: usize = 0;
    while i < ls.len()
        invariant
            views(ls@) == lines(raw@),
            i <= ls.len(),
            listing_is_safe(raw@),
            apply_listing_lines(default_sources(), lines(raw@)) == apply_listing_lines(
                pair_views(pairs@),
                lines(raw@).skip(i as int),
            ),
        decreases ls.len() - i,
    {
        let ghost before = pair_views(pairs@);
        assert(views(ls@)[i as int] == ls@[i as int]@);
        assert(lines(raw@).skip(i as int).drop_first() =~= lines(raw@).skip(i + 1));
        assert(lines(raw@).skip(i as int)[0] == lines(raw@)[i as int]);
        match listing_source_exec(&ls[i]) {
            Some((id, label)) => {
                if !has_id(&pairs, &id) {
                    pairs.push((id, label));
                    assert(pair_views(pairs@) =~= before.push((id@, label@)));
                }
            },
            None => {},
        }
        assert(pair_views(pairs@) == apply_listing_line(before, ls@[i as int]@));
        i = i + 1;
    }
    assert(lines(raw@).skip(ls.len() as int) =~= Seq::<Seq<char>>::empty());
    let mut r: Vec<AudioSourceOption> = Vec::new();
    let mut k: usize = 0;
    while k < pairs.len()
        invariant
            k <= pairs.len(),
            source_views(r@) == pair_views(pairs@).take(k as int),
        decreases pairs.len() - k,
    {
        let ghost r0 = r@;
        let id = string_from_chars(&pairs[k].0);
        let label = string_from_chars(&pairs[k].1);
        r.push(AudioSourceOption { id, label });
        assert(source_views(r@) =~= source_views(r0).push((pairs@[k as int].0@, pairs@[k as int].1@)));
        assert(pair_views(pairs@).take(k + 1) =~= pair_views(pairs@).take(k as int).push(
            pair_views(pairs@)[k as int],
        ));
        k = k + 1;
        assert(source_views(r@) =~= pair_views(pairs@).take(k as int));
    }
    assert(pair_views(pairs@).take(pairs.len() as int) =~= pair_views(pairs@));
    r
}

/// Whether a run counts as having produced nothing: it failed and wrote
/// nothing on either stream.
pub open spec fn run_is_empty(output: ProcessOutput) -> bool {
    !output.success && output.stdout.len() == 0 && output.stderr.len() == 0
}

/// The audio sources offered for recording, from the run of
/// `ffmpeg -sources pulse` (`None` where the process could not be started).
/// Where the process did not start, or failed without output, only the
/// system's default is offered. Where a line of the listing would give a
/// description whose closing bracket precedes its opening one, no list is
/// made and `None` comes back.
pub fn detect_audio_sources(output: Option<ProcessOutput>) -> (r: Option<Vec<AudioSourceOption>>)
    ensures
        match output {
            None => r matches Some(v) && source_views(v@) == default_sources(),
            Some(o) => if run_is_empty(o) {
                r matches Some(v) && source_views(v@) == default_sources()
            } else {
                let text = combined_output(
                    utf8_lossy(o.stdout@),
                    utf8_lossy(o.stderr@),
                    o.stderr.len() > 0,
                );
                if listing_is_safe(text) {
                    r matches Some(v) && source_views(v@) == apply_listing_lines(
                        default_sources(),
                        lines(text),
                    )
                } else {
                    r is None
                }
            },
        },
{
    let o = match output {
        None => return Some(default_audio_sources()),
        Some(o) => o,
    };
    if !o.success && o.stdout.len() == 0 && o.stderr.len() == 0 {
        return Some(default_audio_sources());
    }
    let text = output_text(&o);
    if audio_listing_is_safe(text.as_str()) {
        Some(parse_audio_sources(text.as_str()))
    } else {
        None
    }
}

/// The label under which the source with the given id is listed; the id
/// itself where no option has it.
pub open spec fn selected_label(options: Seq<(Seq<char>, Seq<char>)>, selected: Seq<char>) -> Seq<char>
    decreases options.len(),
{
    if options.len() == 0 {
        selected
    } else if options[0].0 == selected {
        options[0].1
    } else {
        selected_label(options.drop_first(), selected)
    }
}

/// The label of the first option whose id is `selected_id`, or the id itself.
pub fn selected_audio_source_label(options: &[AudioSourceOption], selected_id: &str) -> (r: String)
    ensures
        r@ == selected_label(source_views(options@), selected_id@),
{
    let target = chars_of(selected_id);
    assert(source_views(options@).skip(0) =~= source_views(options@));
    let mut i: usize = 0;
    while i < options.len()
        invariant
            i <= options.len(),
            target@ == selected_id@,
            selected_label(source_views(options@), selected_id@) == selected_label(
                source_views(options@).skip(i as int),
                selected_id@,
            ),
        decreases options.len() - i,
    {
        assert(source_views(options@).skip(i as int).drop_first() =~= source_views(options@).skip(i + 1));
        assert(source_views(options@).skip(i as int)[0] == (options@[i as int].id@, options@[i as int].label@));
        if chars_eq_str(&target, options[i].id.as_str()) {
            return options[i].label.clone();
        }
        i = i + 1;
    }
    assert(source_views(options@).skip(options.len() as int) =~= Seq::<(Seq<char>, Seq<char>)>::empty());
    String::from_str(selected_id)
}

/// The position of the first option with the given id, or 0 when none has it.
pub open spec fn selected_position(options: Seq<(Seq<char>, Seq<char>)>, selected: Seq<char>) -> nat
    decreases options.len(),
{
    if options.len() == 0 {
        0
    } else if options[0].0 == selected {
        0
    } else if exists|i: int| 0 <= i < options.len() && #[trigger] options[i].0 == selected {
        1 + selected_position(options.drop_first(), selected)
    } else {
        0
    }
}

/// The row to select in the audio source list: the position of the option
/// with the given id, or the first row (as `u32`, wrapping like `as`).
pub fn selected_audio_index(options: &[AudioSourceOption], selected_id: &str) -> (r: u32)
    ensures
        r == selected_position(source_views(options@), selected_id@) as u32,
{
    let target = chars_of(selected_id);
    let ghost all = source_views(options@);
    let mut i: usize = 0;
    while i < options.len()
        invariant
            i <= options.len(),
            target@ == selected_id@,
            all == source_views(options@),
            forall|j: int| 0 <= j < i ==> #[trigger] all[j].0 != selected_id@,
        decreases options.len() - i,
    {
        if chars_eq_str(&target, options[i].id.as_str()) {
            proof {
                lemma_selected_position(all, selected_id@, i as int);
            }
            return i as u32;
        }
        i = i + 1;
    }
    proof {
        lemma_selected_position_absent(all, selected_id@);
    }
    0
}

proof fn lemma_selected_position(options: Seq<(Seq<char>, Seq<char>)>, selected: Seq<char>, i: int)
    requires
        0 <= i < options.len(),
        options[i].0 == selected,
        forall|j: int| 0 <= j < i ==> #[trigger] options[j].0 != selected,
    ensures
        selected_position(options, selected) == i,
    decreases i,
{
    if i > 0 {
        let rest = options.drop_first();
        assert(rest[i - 1] == options[i]);
        assert forall|j: int| 0 <= j < i - 1 implies #[trigger] rest[j].0 != selected by {
            assert(rest[j] == options[j + 1]);
        }
        lemma_selected_position(rest, selected, i - 1);
    }
}

proof fn lemma_selected_position_absent(options: Seq<(Seq<char>, Seq<char>)>, selected: Seq<char>)
    requires
        forall|j: int| 0 <= j < options.len() ==> #[trigger] options[j].0 != selected,
    ensures
        selected_position(options, selected) == 0,
{
    if options.len() > 0 {
        assert(options[0].0 != selected);
    }
}

/// No id is listed twice.
pub open spec fn ids_unique(sources: Seq<(Seq<char>, Seq<char>)>) -> bool {
    forall|i: int, j: int| 0 <= i < j < sources.len() ==> sources[i].0 != sources[j].0
}

/// No monitor source is listed.
pub open spec fn no_monitors(sources: Seq<(Seq<char>, Seq<char>)>) -> bool {
    forall|i: int| 0 <= i < sources.len() ==> !ends_with(#[trigger] sources[i].0, ".monitor"@)
}

proof fn lemma_listing_line_keeps(sources: Seq<(Seq<char>, Seq<char>)>, line: Seq<char>)
    requires
        ids_unique(sources),
        no_monitors(sources),
    ensures
        ids_unique(apply_listing_line(sources, line)),
        no_monitors(apply_listing_line(sources, line)),
        apply_listing_line(sources, line).len() >= sources.len(),
        apply_listing_line(sources, line).take(sources.len() as int) == sources,
{
    let r = apply_listing_line(sources, line);
    match listing_source(line) {
        Some((id, label)) => {
            if exists|i: int| 0 <= i < sources.len() && #[trigger] sources[i].0 == id {
                assert(r.take(sources.len() as int) =~= sources);
            } else {
                assert(r == sources.push((id, label)));
                assert(r.take(sources.len() as int) =~= sources);
                assert forall|i: int, j: int| 0 <= i < j < r.len() implies r[i].0 != r[j].0 by {
                    if j == sources.len() {
                        assert(sources[i].0 != id);
                    }
                }
                assert forall|i: int| 0 <= i < r.len() implies !ends_with(#[trigger] r[i].0, ".monitor"@) by {
                    if i < sources.len() {
                        assert(r[i] == sources[i]);
                    }
                }
            }
        },
        None => {
            assert(r.take(sources.len() as int) =~= sources);
        },
    }
}

/// Whatever the listing, the sources offered start with the system's
/// default, list each id once, and leave the monitor sources out.
pub proof fn lemma_listing_sources_shape(ls: Seq<Seq<char>>)
    ensures
        apply_listing_lines(default_sources(), ls).len() >= 1,
        apply_listing_lines(default_sources(), ls)[0] == default_sources()[0],
        ids_unique(apply_listing_lines(default_sources(), ls)),
        no_monitors(apply_listing_lines(default_sources(), ls)),
{
    reveal_strlit("default");
    reveal_strlit(".monitor");
    assert(!ends_with(default_sources()[0].0, ".monitor"@));
    lemma_listing_lines_keep(default_sources(), ls);
}

proof fn lemma_listing_lines_keep(sources: Seq<(Seq<char>, Seq<char>)>, ls: Seq<Seq<char>>)
    requires
        ids_unique(sources),
        no_monitors(sources),
    ensures
        ids_unique(apply_listing_lines(sources, ls)),
        no_monitors(apply_listing_lines(sources, ls)),
        apply_listing_lines(sources, ls).len() >= sources.len(),
        apply_listing_lines(sources, ls).take(sources.len() as int) == sources,
    decreases ls.len(),
{
    if ls.len() > 0 {
        let next = apply_listing_line(sources, ls[0]);
        lemma_listing_line_keeps(sources, ls[0]);
        lemma_listing_lines_keep(next, ls.drop_first());
        let r = apply_listing_lines(next, ls.drop_first());
        assert(r.take(sources.len() as int) =~= r.take(next.len() as int).take(sources.len() as int));
    } else {
        assert(sources.take(sources.len() as int) =~= sources);
    }
}

/// The id of the source chosen in the list: the one at the row, or the
/// system's default past the end.
pub fn audio_source_id_at(options: &[AudioSourceOption], index: usize) -> (r: String)
    ensures
        r@ == (if index < options@.len() { options@[index as int].id@ } else { "default"@ }),
{
    if index < options.len() {
        options[index].id.clone()
    } else {
        String::from_str("default")
    }
}

/// No listed id holds a space.
pub open spec fn ids_without_spaces(sources: Seq<(Seq<char>, Seq<char>)>) -> bool {
    forall|i: int, j: int| 0 <= i < sources.len() && 0 <= j < sources[i].0.len() ==> sources[i].0[j] != ' '
}

/// Where `c` occurs in `s`, it has a first occurrence.
proof fn lemma_first_occurrence(s: Seq<char>, c: char, w: int)
    requires
        0 <= w < s.len(),
        s[w] == c,
    ensures
        exists|i: int| 0 <= i < s.len() && s[i] == c && forall|j: int| 0 <= j < i ==> s[j] != c,
    decreases w,
{
    if s[0] != c {
        lemma_first_occurrence(s.drop_first(), c, w - 1);
        let i = choose|i: int|
            0 <= i < s.drop_first().len() && s.drop_first()[i] == c && forall|j: int|
                0 <= j < i ==> s.drop_first()[j] != c;
        assert(s[i + 1] == c);
        assert forall|j: int| 0 <= j < i + 1 implies s[j] != c by {
            if j > 0 {
                assert(s[j] == s.drop_first()[j - 1]);
            }
        }
    } else {
        assert(forall|j: int| 0 <= j < 0 ==> s[j] != c);
    }
}

/// The part of an entry before its first space holds no space.
proof fn lemma_split_head_has_no_space(entry: Seq<char>)
    ensures
        split_once(entry, ' ') matches Some((id, _)) ==> forall|j: int| 0 <= j < id.len() ==> id[j] != ' ',
{
    if exists|w: int| 0 <= w < entry.len() && entry[w] == ' ' {
        let w = choose|w: int| 0 <= w < entry.len() && entry[w] == ' ';
        lemma_first_occurrence(entry, ' ', w);
    }
}

/// `trim_start` drops a prefix.
proof fn lemma_trim_start_offset(s: Seq<char>) -> (a: int)
    ensures
        0 <= a <= s.len(),
        trim_start(s) == s.skip(a),
    decreases s.len(),
{
    if s.len() > 0 && is_ws(s[0]) {
        let b = lemma_trim_start_offset(s.drop_first());
        assert(s.drop_first().skip(b) =~= s.skip(b + 1));
        b + 1
    } else {
        assert(s.skip(0) =~= s);
        0
    }
}

/// `trim_stars` drops a prefix.
proof fn lemma_trim_stars_offset(s: Seq<char>) -> (a: int)
    ensures
        0 <= a <= s.len(),
        trim_stars(s) == s.skip(a),
    decreases s.len(),
{
    if s.len() > 0 && s[0] == '*' {
        let b = lemma_trim_stars_offset(s.drop_first());
        assert(s.drop_first().skip(b) =~= s.skip(b + 1));
        b + 1
    } else {
        assert(s.skip(0) =~= s);
        0
    }
}

/// `trim_end` keeps a prefix that ends on a character that is not
/// whitespace, and drops only whitespace.
proof fn lemma_trim_end_length(s: Seq<char>) -> (e: int)
    ensures
        0 <= e <= s.len(),
        trim_end(s) == s.take(e),
        e == 0 || !is_ws(s[e - 1]),
        forall|i: int| e <= i < s.len() ==> is_ws(#[trigger] s[i]),
    decreases s.len(),
{
    if s.len() > 0 && is_ws(s.last()) {
        let e = lemma_trim_end_length(s.drop_last());
        assert(s.drop_last().take(e) =~= s.take(e));
        assert forall|i: int| e <= i < s.len() implies is_ws(#[trigger] s[i]) by {
            if i < s.len() - 1 {
                assert(s[i] == s.drop_last()[i]);
            }
        }
        e
    } else {
        assert(s.take(s.len() as int) =~= s);
        s.len() as int
    }
}

/// A space inside the entry of a line is a space of the trimmed line.
proof fn lemma_entry_within_trimmed_line(line: Seq<char>)
    ensures
        listing_entry(line) matches Some((_, entry)) ==> forall|p: int|
            0 <= p < entry.len() && entry[p] == ' ' ==> trim(line).contains(' '),
{
    let t = trim_start(line);
    if t.len() > 0 && !starts_with(t, "Auto-detected sources for "@) {
        let entry = trim(trim_stars(t));
        let k = lemma_trim_stars_offset(t);
        let x = t.skip(k);
        let a = lemma_trim_start_offset(x);
        let y = x.skip(a);
        let e = lemma_trim_end_length(y);
        assert(entry == y.take(e));
        let big_e = lemma_trim_end_length(t);
        assert(trim(line) == t.take(big_e));
        assert forall|p: int| 0 <= p < entry.len() && entry[p] == ' ' implies trim(line).contains(' ') by {
            assert(entry[p] == t[k + a + p]);
            assert(e > 0);
            assert(y[e - 1] == t[k + a + e - 1]);
            assert(!is_ws(t[k + a + e - 1]));
            if k + a + p >= big_e {
                assert(k + a + e - 1 >= big_e);
                assert(is_ws(t[k + a + e - 1]));
            }
            assert(trim(line)[k + a + p] == ' ');
        }
    }
}

/// Listed ids hold no space, and a listing none of whose trimmed lines holds
/// a space offers only the system's default.
pub proof fn lemma_listing_ids_have_no_spaces(ls: Seq<Seq<char>>)
    ensures
        ids_without_spaces(apply_listing_lines(default_sources(), ls)),
        (forall|i: int| 0 <= i < ls.len() ==> !trim(#[trigger] ls[i]).contains(' '))
            ==> apply_listing_lines(default_sources(), ls) == default_sources(),
{
    reveal_strlit("default");
    assert(ids_without_spaces(default_sources()));
    lemma_listing_lines_no_spaces(default_sources(), ls);
}

proof fn lemma_listing_lines_no_spaces(sources: Seq<(Seq<char>, Seq<char>)>, ls: Seq<Seq<char>>)
    requires
        ids_without_spaces(sources),
    ensures
        ids_without_spaces(apply_listing_lines(sources, ls)),
        (forall|i: int| 0 <= i < ls.len() ==> !trim(#[trigger] ls[i]).contains(' '))
            ==> apply_listing_lines(sources, ls) == sources,
    decreases ls.len(),
{
    if ls.len() > 0 {
        let line = ls[0];
        let next = apply_listing_line(sources, line);
        match listing_entry(line) {
            Some((_, entry)) => {
                lemma_split_head_has_no_space(entry);
                lemma_entry_within_trimmed_line(line);
                if !trim(line).contains(' ') {
                    assert(split_once(entry, ' ') is None) by {
                        if exists|w: int| 0 <= w < entry.len() && entry[w] == ' ' {
                            let w = choose|w: int| 0 <= w < entry.len() && entry[w] == ' ';
                            assert(trim(line).contains(' '));
                        }
                    }
                    assert(next == sources);
                }
            },
            None => {},
        }
        assert(ids_without_spaces(next));
        lemma_listing_lines_no_spaces(next, ls.drop_first());
        if forall|i: int| 0 <= i < ls.len() ==> !trim(#[trigger] ls[i]).contains(' ') {
            assert(!trim(ls[0]).contains(' '));
            assert forall|i: int| 0 <= i < ls.drop_first().len() implies !trim(#[trigger] ls.drop_first()[i]).contains(' ') by {
                assert(ls.drop_first()[i] == ls[i + 1]);
            }
        }
    }
}

} // verus!
