//! Locale names, the localized application name, and the filling of
//! placeholders in messages (the translation itself is gettext's, which the
//! program around the library calls).

use vstd::prelude::*;
use vstd::string::StrSliceExecFns;

use crate::paths::{ascii_bytes, bytes_of, join_path, join_path_exec, opt_view, path_views};

use crate::text::{
    append_chars, append_str, ascii_lowercase, ascii_lowercase_exec, char_pos, chars_eq, chars_eq_str,
    chars_of, copy_range, ends_with, ends_with_exec, find_char_from, lemma_char_pos, lines,
    lines_of, replace_all, replace_all_exec, split_char, split_once, split_once_exec, starts_with,
    starts_with_exec, string_from_chars, trim, trim_chars, trim_range, views,
};

verus! {

// ---------------------------------------------------------------------------
// Locale names
// ---------------------------------------------------------------------------

/// A locale name worth using: not empty, and not `C` or `POSIX`.
pub open spec fn acceptable_locale(t: Seq<char>) -> bool {
    t.len() > 0 && t != "C"@ && t != "POSIX"@
}

/// The first trimmed piece that is an acceptable locale name.
pub open spec fn first_acceptable(pieces: Seq<Seq<char>>) -> Option<Seq<char>>
    decreases pieces.len(),
{
    if pieces.len() == 0 {
        None
    } else if acceptable_locale(trim(pieces[0])) {
        Some(trim(pieces[0]))
    } else {
        first_acceptable(pieces.drop_first())
    }
}

/// One piece of a colon-separated text, then the rest.
proof fn lemma_split_step(s: Seq<char>, k: int)
    requires
        0 <= k <= s.len(),
        forall|j: int| 0 <= j < k ==> s[j] != ':',
        k < s.len() ==> s[k] == ':',
    ensures
        k < s.len() ==> split_char(s, ':') == seq![s.take(k)] + split_char(s.skip(k + 1), ':'),
        k == s.len() ==> split_char(s, ':') == seq![s],
{
    lemma_char_pos(s, ':', k);
}

/// Decides `acceptable_locale` for `s[lo..hi]`.
fn acceptable_piece(s: &Vec<char>, lo: usize, hi: usize) -> (r: bool)
    requires
        lo <= hi <= s.len(),
    ensures
        r == acceptable_locale(s@.subrange(lo as int, hi as int)),
{
    let ghost piece = s@.subrange(lo as int, hi as int);
    let is_c = hi - lo == 1 && s[lo] == 'C';
    let is_posix = hi - lo == 5 && s[lo] == 'P' && s[lo + 1] == 'O' && s[lo + 2] == 'S' && s[lo + 3]
        == 'I' && s[lo + 4] == 'X';
    proof {
        reveal_strlit("C");
        reveal_strlit("POSIX");
        assert("C"@.len() == 1);
        assert("POSIX"@.len() == 5);
        if is_c {
            assert(piece =~= "C"@);
        }
        if piece == "C"@ {
            assert(piece[0] == 'C');
        }
        if is_posix {
            assert(piece =~= "POSIX"@);
        }
        if piece == "POSIX"@ {
            assert(piece[0] == 'P' && piece[1] == 'O' && piece[2] == 'S' && piece[3] == 'I' && piece[4] == 'X');
        }
    }
    hi > lo && !is_c && !is_posix
}

/// The piece of `s` from `start` up to the next colon (or the end), and
/// how the pieces of `s[start..]` continue after it.
fn next_piece(s: &Vec<char>, start: usize) -> (k: usize)
    requires
        start <= s.len(),
    ensures
        start <= k <= s.len(),
        k < s.len() ==> split_char(s@.skip(start as int), ':') == seq![s@.subrange(start as int, k as int)]
            + split_char(s@.skip(k + 1), ':'),
        k == s.len() ==> split_char(s@.skip(start as int), ':') == seq![s@.subrange(start as int, k as int)],
{
    let ghost t = s@.skip(start as int);
    let k = find_char_from(s, ':', start);
    proof {
        assert forall|j: int| 0 <= j < k - start implies t[j] != ':' by {
            assert(t[j] == s@[j + start]);
        }
        lemma_split_step(t, k - start);
        assert(t.take(k - start) =~= s@.subrange(start as int, k as int));
        if k < s.len() {
            assert(t.skip(k - start + 1) =~= s@.skip(k + 1));
        } else {
            assert(t =~= s@.subrange(start as int, k as int));
        }
    }
    k
}

/// The first usable locale of a colon-separated list such as `LANGUAGE`:
/// each piece trimmed, skipping empty pieces, `C` and `POSIX`.
pub fn first_locale_candidate(locale_value: &str) -> (r: Option<&str>)
    ensures
        match r {
            Some(t) => first_acceptable(split_char(locale_value@, ':')) == Some(t@),
            None => first_acceptable(split_char(locale_value@, ':')) is None,
        },
{
    let s = chars_of(locale_value);
    let mut start: usize = 0;
    assert(s@.skip(0) =~= s@);
    loop
        invariant
            s@ == locale_value@,
            start <= s.len(),
            first_acceptable(split_char(s@, ':')) == first_acceptable(split_char(s@.skip(start as int), ':')),
        decreases s.len() - start,
    {
        let k = next_piece(&s, start);
        let (lo, hi) = trim_range(&s, start, k);
        proof {
            let piece = s@.subrange(start as int, k as int);
            let pieces = split_char(s@.skip(start as int), ':');
            assert(pieces[0] == piece);
            if k < s.len() {
                assert(pieces.drop_first() =~= split_char(s@.skip(k + 1), ':'));
            } else {
                assert(pieces.drop_first() =~= Seq::<Seq<char>>::empty());
                assert(first_acceptable(pieces.drop_first()) is None);
            }
        }
        if acceptable_piece(&s, lo, hi) {
            let r = locale_value.substring_char(lo, hi);
            return Some(r);
        }
        if k == s.len() {
            return None;
        }
        start = k + 1;
    }
}


/// Position of the first `.` or `@`, or the length when there is none.
pub open spec fn dot_or_at_pos(s: Seq<char>) -> nat
    decreases s.len(),
{
    if s.len() == 0 {
        0
    } else if s[0] == '.' || s[0] == '@' {
        0
    } else {
        1 + dot_or_at_pos(s.drop_first())
    }
}

proof fn lemma_dot_or_at_pos(s: Seq<char>, m: int)
    requires
        0 <= m <= s.len(),
        forall|j: int| 0 <= j < m ==> s[j] != '.' && s[j] != '@',
        m < s.len() ==> s[m] == '.' || s[m] == '@',
    ensures
        dot_or_at_pos(s) == m,
    decreases m,
{
    if m > 0 {
        lemma_dot_or_at_pos(s.drop_first(), m - 1);
    }
}

/// The locale without its encoding or modifier, `-` read as `_`.
pub open spec fn locale_stem(locale: Seq<char>) -> Seq<char> {
    locale.take(dot_or_at_pos(locale) as int).map_values(|c: char| if c == '-' { '_' } else { c })
}

/// The language of a locale: the part of the stem before the first `_`,
/// in lower case.
pub open spec fn locale_language(locale: Seq<char>) -> Seq<char> {
    let stem = locale_stem(locale);
    ascii_lowercase(stem.take(char_pos(stem, '_') as int))
}

/// The region of a locale: the part of the stem between the first and the
/// second `_`, in lower case; none without `_`.
pub open spec fn locale_region(locale: Seq<char>) -> Option<Seq<char>> {
    let stem = locale_stem(locale);
    let k = char_pos(stem, '_');
    if k < stem.len() {
        let rest = stem.skip(k as int + 1);
        Some(ascii_lowercase(rest.take(char_pos(rest, '_') as int)))
    } else {
        None
    }
}

/// The stem of a locale as characters.
fn locale_stem_exec(locale: &str) -> (r: Vec<char>)
    ensures
        r@ == locale_stem(locale@),
{
    let s = chars_of(locale);
    let mut out: Vec<char> = Vec::new();
    let mut i: usize = 0;
    while i < s.len() && s[i] != '.' && s[i] != '@'
        invariant
            s@ == locale@,
            i <= s.len(),
            forall|j: int| 0 <= j < i ==> s@[j] != '.' && s@[j] != '@',
            out@ == s@.take(i as int).map_values(|c: char| if c == '-' { '_' } else { c }),
        decreases s.len() - i,
    {
        let c = s[i];
        out.push(if c == '-' { '_' } else { c });
        i = i + 1;
        assert(out@ =~= s@.take(i as int).map_values(|c: char| if c == '-' { '_' } else { c }));
    }
    proof {
        lemma_dot_or_at_pos(s@, i as int);
    }
    out
}

/// The language and the region of a locale such as `pt_BR.UTF-8`.
pub fn locale_language_and_region(locale: &str) -> (r: (String, Option<String>))
    ensures
        r.0@ == locale_language(locale@),
        match r.1 {
            Some(region) => locale_region(locale@) == Some(region@),
            None => locale_region(locale@) is None,
        },
{
    let stem = locale_stem_exec(locale);
    let k = find_char_from(&stem, '_', 0);
    proof {
        lemma_char_pos(stem@, '_', k as int);
        assert(stem@.take(k as int) =~= stem@.subrange(0, k as int));
    }
    let language = ascii_lowercase_exec(&copy_range(&stem, 0, k));
    if k == stem.len() {
        return (string_from_chars(&language), None);
    }
    let k2 = find_char_from(&stem, '_', k + 1);
    proof {
        let rest = stem@.skip(k + 1);
        assert forall|j: int| 0 <= j < k2 - (k + 1) implies rest[j] != '_' by {
            assert(rest[j] == stem@[j + k + 1]);
        }
        lemma_char_pos(rest, '_', k2 - (k + 1));
        assert(rest.take(k2 - (k + 1)) =~= stem@.subrange(k + 1, k2 as int));
    }
    let region = ascii_lowercase_exec(&copy_range(&stem, k + 1, k2));
    (string_from_chars(&language), Some(string_from_chars(&region)))
}

/// The word for "camera" in a language, when no desktop translation is known.
pub open spec fn fallback_camera_word(language: Seq<char>, region: Option<Seq<char>>) -> Seq<char> {
    if language == "pt"@ {
        "Câmera"@
    } else if language == "es"@ {
        "Cámara"@
    } else if language == "fr"@ {
        "Caméra"@
    } else if language == "ru"@ || language == "uk"@ {
        "Камера"@
    } else if language == "it"@ {
        "Fotocamera"@
    } else if language == "de"@ {
        "Kamera"@
    } else if language == "ja"@ {
        "カメラ"@
    } else if language == "ko"@ {
        "카메라"@
    } else if language == "zh"@ && (region == Some("tw"@) || region == Some("hk"@) || region
        == Some("mo"@)) {
        "相機"@
    } else if language == "zh"@ {
        "相机"@
    } else {
        "Camera"@
    }
}

fn region_is(region: &Option<String>, name: &str) -> (r: bool)
    ensures
        r == (match region {
            Some(x) => x@ == name@,
            None => false,
        }),
{
    match region {
        Some(x) => chars_eq_str(&chars_of(x.as_str()), name),
        None => false,
    }
}

/// The word for "camera" in the language of a locale, when no desktop
/// translation is known.
pub fn fallback_camera_word_for_locale(locale: &str) -> (r: &'static str)
    ensures
        r@ == fallback_camera_word(locale_language(locale@), locale_region(locale@)),
{
    let (language, region) = locale_language_and_region(locale);
    let lang = chars_of(language.as_str());
    if chars_eq_str(&lang, "pt") {
        "Câmera"
    } else if chars_eq_str(&lang, "es") {
        "Cámara"
    } else if chars_eq_str(&lang, "fr") {
        "Caméra"
    } else if chars_eq_str(&lang, "ru") || chars_eq_str(&lang, "uk") {
        "Камера"
    } else if chars_eq_str(&lang, "it") {
        "Fotocamera"
    } else if chars_eq_str(&lang, "de") {
        "Kamera"
    } else if chars_eq_str(&lang, "ja") {
        "カメラ"
    } else if chars_eq_str(&lang, "ko") {
        "카메라"
    } else if chars_eq_str(&lang, "zh") && (region_is(&region, "tw") || region_is(&region, "hk")
        || region_is(&region, "mo")) {
        "相機"
    } else if chars_eq_str(&lang, "zh") {
        "相机"
    } else {
        "Camera"
    }
}

// ---------------------------------------------------------------------------
// Translations of the application name from a desktop file
// ---------------------------------------------------------------------------

/// The value that the last entry with key `k` gives, if any.
pub open spec fn lookup(entries: Seq<(Seq<char>, Seq<char>)>, k: Seq<char>) -> Option<Seq<char>>
    decreases entries.len(),
{
    if entries.len() == 0 {
        None
    } else if entries.last().0 == k {
        Some(entries.last().1)
    } else {
        lookup(entries.drop_last(), k)
    }
}

/// Localized names keyed by lower-case locale (`""` for the untranslated
/// name); a later entry for a key replaces an earlier one.
#[derive(Clone, Debug)]
pub struct NameTranslations {
    entries: Vec<(String, String)>,
}

impl NameTranslations {
    pub closed spec fn entry_views(&self) -> Seq<(Seq<char>, Seq<char>)> {
        self.entries@.map_values(|e: (String, String)| (e.0@, e.1@))
    }

    /// The translations as a map from locale key to name.
    pub closed spec fn spec_map(&self) -> Map<Seq<char>, Seq<char>> {
        Map::new(
            |k: Seq<char>| lookup(self.entry_views(), k) is Some,
            |k: Seq<char>| lookup(self.entry_views(), k)->0,
        )
    }

    /// No translation.
    pub fn new() -> (r: Self)
        ensures
            r.spec_map() == Map::<Seq<char>, Seq<char>>::empty(),
    {
        let r = NameTranslations { entries: Vec::new() };
        assert(r.spec_map() =~= Map::<Seq<char>, Seq<char>>::empty());
        r
    }

    /// Sets the name for a key.
    pub fn insert(&mut self, key: String, name: String)
        ensures
            final(self).spec_map() == old(self).spec_map().insert(key@, name@),
    {
        let ghost before = self.entry_views();
        let ghost k = key@;
        let ghost v = name@;
        self.entries.push((key, name));
        proof {
            assert(self.entry_views() =~= before.push((k, v)));
            assert forall|q: Seq<char>| #[trigger] lookup(self.entry_views(), q) == (if q == k {
                Some(v)
            } else {
                lookup(before, q)
            }) by {
                assert(self.entry_views().drop_last() =~= before);
            }
            assert(self.spec_map() =~= old(self).spec_map().insert(k, v));
        }
    }

    /// Whether there is no translation.
    pub fn is_empty(&self) -> (r: bool)
        ensures
            r == (self.spec_map() == Map::<Seq<char>, Seq<char>>::empty()),
    {
        if self.entries.len() == 0 {
            proof {
                assert(self.entry_views() =~= Seq::<(Seq<char>, Seq<char>)>::empty());
                assert(self.spec_map() =~= Map::<Seq<char>, Seq<char>>::empty());
            }
            true
        } else {
            proof {
                let last = self.entry_views().last();
                assert(lookup(self.entry_views(), last.0) is Some);
                assert(self.spec_map().dom().contains(last.0));
                assert(!Map::<Seq<char>, Seq<char>>::empty().dom().contains(last.0));
            }
            false
        }
    }

    /// The name for a key, if any.
    pub fn get(&self, key: &Vec<char>) -> (r: Option<String>)
        ensures
            match r {
                Some(name) => self.spec_map().dom().contains(key@) && self.spec_map()[key@] == name@,
                None => !self.spec_map().dom().contains(key@),
            },
    {
        let mut i = self.entries.len();
        assert(self.entry_views().take(i as int) =~= self.entry_views());
        while i > 0
            invariant
                i <= self.entries@.len(),
                lookup(self.entry_views(), key@) == lookup(self.entry_views().take(i as int), key@),
            decreases i,
        {
            let k = chars_of(self.entries[i - 1].0.as_str());
            proof {
                assert(self.entry_views().take(i as int).drop_last() =~= self.entry_views().take(i - 1));
                assert(self.entry_views().take(i as int).last() == self.entry_views()[i - 1]);
            }
            if chars_eq(&k, key) {
                return Some(self.entries[i - 1].1.clone());
            }
            i = i - 1;
        }
        proof {
            assert(self.entry_views().take(0) =~= Seq::<(Seq<char>, Seq<char>)>::empty());
        }
        None
    }
}

/// One line of a desktop file applied to the name translations: `Name=`
/// gives the untranslated name, `Name[xx]=` the name for locale `xx` (in
/// lower case); other lines, blank lines and comments change nothing.
pub open spec fn apply_name_line(m: Map<Seq<char>, Seq<char>>, line: Seq<char>) -> Map<Seq<char>, Seq<char>> {
    let t = trim(line);
    if t.len() == 0 || t[0] == '#' {
        m
    } else {
        match split_once(t, '=') {
            None => m,
            Some((k, v)) => if k == "Name"@ {
                m.insert(seq![], v)
            } else if starts_with(k, "Name["@) && ends_with(k.skip(5), "]"@) {
                m.insert(ascii_lowercase(k.skip(5).drop_last()), v)
            } else {
                m
            },
        }
    }
}

/// The lines of a desktop file applied in order.
pub open spec fn apply_name_lines(m: Map<Seq<char>, Seq<char>>, ls: Seq<Seq<char>>) -> Map<Seq<char>, Seq<char>>
    decreases ls.len(),
{
    if ls.len() == 0 {
        m
    } else {
        apply_name_lines(apply_name_line(m, ls[0]), ls.drop_first())
    }
}

fn apply_name_line_exec(m: &mut NameTranslations, line: &Vec<char>)
    ensures
        final(m).spec_map() == apply_name_line(old(m).spec_map(), line@),
{
    let t = trim_chars(line);
    if t.len() == 0 || t[0] == '#' {
        return;
    }
    let (k, v) = match split_once_exec(&t, '=') {
        Some(parts) => parts,
        None => return,
    };
    if chars_eq_str(&k, "Name") {
        m.insert(String::new(), string_from_chars(&v));
        return;
    }
    let prefix = chars_of("Name[");
    proof {
        reveal_strlit("Name[");
        assert(prefix@.len() == 5);
    }
    if starts_with_exec(&k, &prefix) {
        let rest = copy_range(&k, 5, k.len());
        assert(rest@ =~= k@.skip(5));
        if ends_with_exec(&rest, &chars_of("]")) {
            proof {
                reveal_strlit("]");
                assert("]"@.len() == 1);
            }
            let locale = copy_range(&rest, 0, rest.len() - 1);
            assert(locale@ =~= rest@.drop_last());
            let lowered = ascii_lowercase_exec(&locale);
            m.insert(string_from_chars(&lowered), string_from_chars(&v));
        }
    }
}

/// The name translations of a desktop file (`Name` and `Name[locale]` keys).
pub fn parse_snapshot_name_translations(contents: &str) -> (r: NameTranslations)
    ensures
        r.spec_map() == apply_name_lines(Map::empty(), lines(contents@)),
{
    let chars = chars_of(contents);
    let ls = lines_of(&chars);
    let mut m = NameTranslations::new();
    let ghost all = lines(contents@);
    assert(all.skip(0) =~= all);
    let mut i: usize = 0;
    while i < ls.len()
        invariant
            views(ls@) == all,
            i <= ls.len(),
            apply_name_lines(Map::empty(), all) == apply_name_lines(m.spec_map(), all.skip(i as int)),
        decreases ls.len() - i,
    {
        apply_name_line_exec(&mut m, &ls[i]);
        proof {
            assert(all.skip(i as int)[0] == ls@[i as int]@);
            assert(all.skip(i as int).drop_first() =~= all.skip(i + 1));
        }
        i = i + 1;
    }
    m
}

/// The localized name for a locale: nothing when there are no
/// translations; the untranslated name for a locale without language;
/// otherwise the name for `language_region`, else for `language`, else the
/// untranslated one.
pub open spec fn translated_name(m: Map<Seq<char>, Seq<char>>, locale: Seq<char>) -> Option<Seq<char>> {
    let language = locale_language(locale);
    let region = locale_region(locale);
    let untranslated = if m.dom().contains(seq![]) { Some(m[seq![]]) } else { None };
    if m == Map::<Seq<char>, Seq<char>>::empty() {
        None
    } else if language.len() == 0 {
        untranslated
    } else if region is Some && m.dom().contains(language + seq!['_'] + region->0) {
        Some(m[language + seq!['_'] + region->0])
    } else if m.dom().contains(language) {
        Some(m[language])
    } else {
        untranslated
    }
}

/// The localized name for a locale (see `translated_name`).
pub fn translated_name_from_map(map: &NameTranslations, locale: &str) -> (r: Option<String>)
    ensures
        match r {
            Some(name) => translated_name(map.spec_map(), locale@) == Some(name@),
            None => translated_name(map.spec_map(), locale@) is None,
        },
{
    if map.is_empty() {
        return None;
    }
    let (language, region) = locale_language_and_region(locale);
    let lang = chars_of(language.as_str());
    if lang.len() == 0 {
        return map.get(&Vec::new());
    }
    if let Some(region) = region {
        let mut key = chars_of(language.as_str());
        key.push('_');
        append_str(&mut key, region.as_str());
        assert(key@ =~= lang@ + seq!['_'] + region@);
        if let Some(value) = map.get(&key) {
            return Some(value);
        }
    }
    match map.get(&lang) {
        Some(value) => Some(value),
        None => map.get(&Vec::new()),
    }
}

/// The word for "camera" in a locale: the desktop translation when there is
/// one, else the built-in word.
pub open spec fn camera_word(m: Map<Seq<char>, Seq<char>>, locale: Seq<char>) -> Seq<char> {
    match translated_name(m, locale) {
        Some(name) => name,
        None => fallback_camera_word(locale_language(locale), locale_region(locale)),
    }
}

/// The word for "camera" in a locale (see `camera_word`).
pub fn localized_camera_word_for_locale(translations: &NameTranslations, locale: &str) -> (r: String)
    ensures
        r@ == camera_word(translations.spec_map(), locale@),
{
    match translated_name_from_map(translations, locale) {
        Some(name) => name,
        None => String::from_str(fallback_camera_word_for_locale(locale)),
    }
}

/// The application name in a locale: "Galaxy Book " and the word for camera.
pub fn localized_app_name_for_locale(translations: &NameTranslations, locale: &str) -> (r: String)
    ensures
        r@ == "Galaxy Book "@ + camera_word(translations.spec_map(), locale@),
{
    let word = localized_camera_word_for_locale(translations, locale);
    let mut v = chars_of("Galaxy Book ");
    append_str(&mut v, word.as_str());
    string_from_chars(&v)
}

/// The locale of the first variable that names a usable one.
pub open spec fn first_locale_of(values: Seq<Option<Seq<char>>>) -> Option<Seq<char>>
    decreases values.len(),
{
    if values.len() == 0 {
        None
    } else {
        match values[0] {
            Some(v) if first_acceptable(split_char(v, ':')) is Some => first_acceptable(split_char(v, ':')),
            _ => first_locale_of(values.drop_first()),
        }
    }
}

/// The application name for the locale named by the first of the locale
/// variables (`LC_MESSAGES`, `LC_ALL`, `LANGUAGE`, `LANG`, as the caller
/// read them) that names a usable one, or `APP_NAME` when none does.
pub fn localized_app_name(translations: &NameTranslations, locale_values: &Vec<Option<String>>) -> (r: String)
    ensures
        r@ == match first_locale_of(locale_values@.map_values(|v: Option<String>| match v {
            Some(s) => Some(s@),
            None => None,
        })) {
            Some(locale) => "Galaxy Book "@ + camera_word(translations.spec_map(), locale),
            None => crate::APP_NAME@,
        },
{
    let ghost vs = locale_values@.map_values(|v: Option<String>| match v {
        Some(s) => Some(s@),
        None => None,
    });
    let mut i: usize = 0;
    assert(vs.skip(0) =~= vs);
    while i < locale_values.len()
        invariant
            i <= locale_values@.len(),
            vs == locale_values@.map_values(|v: Option<String>| match v {
                Some(s) => Some(s@),
                None => None,
            }),
            first_locale_of(vs) == first_locale_of(vs.skip(i as int)),
        decreases locale_values.len() - i,
    {
        proof {
            assert(vs.skip(i as int)[0] == vs[i as int]);
            assert(vs.skip(i as int).drop_first() =~= vs.skip(i + 1));
        }
        if let Some(value) = &locale_values[i] {
            if let Some(locale) = first_locale_candidate(value.as_str()) {
                return localized_app_name_for_locale(translations, locale);
            }
        }
        i = i + 1;
    }
    proof {
        assert(vs.skip(i as int) =~= Seq::<Option<Seq<char>>>::empty());
    }
    String::from_str(crate::APP_NAME)
}

// ---------------------------------------------------------------------------
// Messages with placeholders
// ---------------------------------------------------------------------------

/// The text with each `{key}` placeholder replaced by its value, the
/// replacements applied one after the other.
pub open spec fn substituted(text: Seq<char>, replacements: Seq<(Seq<char>, Seq<char>)>) -> Seq<char>
    decreases replacements.len(),
{
    if replacements.len() == 0 {
        text
    } else {
        let (key, value) = replacements.last();
        replace_all(substituted(text, replacements.drop_last()), seq!['{'] + key + seq!['}'], value)
    }
}

/// The views of placeholder replacements.
pub open spec fn replacement_views(replacements: Seq<(&str, String)>) -> Seq<(Seq<char>, Seq<char>)> {
    replacements.map_values(|p: (&str, String)| (p.0@, p.1@))
}

/// Replaces each `{key}` placeholder of a text by its value, in the order of
/// the replacements (`str::replace` for each one).
pub fn substitute_placeholders(text: &str, replacements: &[(&str, String)]) -> (r: String)
    ensures
        r@ == substituted(text@, replacement_views(replacements@)),
{
    let mut current = chars_of(text);
    let mut i: usize = 0;
    while i < replacements.len()
        invariant
            i <= replacements@.len(),
            current@ == substituted(text@, replacement_views(replacements@).take(i as int)),
        decreases replacements.len() - i,
    {
        let (key, value) = &replacements[i];
        let mut pattern: Vec<char> = Vec::new();
        pattern.push('{');
        append_str(&mut pattern, key);
        pattern.push('}');
        let with = chars_of(value.as_str());
        current = replace_all_exec(&current, &pattern, &with);
        proof {
            let reps = replacement_views(replacements@).take(i + 1);
            assert(reps.drop_last() =~= replacement_views(replacements@).take(i as int));
            assert(reps.last() == (key@, value@));
            assert(pattern@ =~= seq!['{'] + key@ + seq!['}']);
        }
        i = i + 1;
    }
    assert(replacement_views(replacements@).take(i as int) =~= replacement_views(replacements@));
    string_from_chars(&current)
}


// ---------------------------------------------------------------------------
// Where the camera's name comes from
// ---------------------------------------------------------------------------

/// The desktop files of GNOME Snapshot whose `Name` translations give the
/// camera's name, in the order they are tried: three absolute ones, and one
/// under the home folder when `HOME` is set.
pub open spec fn snapshot_desktop_paths(home: Option<Seq<u8>>) -> Seq<Seq<u8>> {
    seq![
        bytes_of("/usr/share/applications/org.gnome.Snapshot.desktop"),
        bytes_of("/usr/local/share/applications/org.gnome.Snapshot.desktop"),
        bytes_of("/var/lib/flatpak/exports/share/applications/org.gnome.Snapshot.desktop"),
    ] + match home {
        Some(h) => seq![join_path(h, bytes_of(".local/share/flatpak/exports/share/applications/org.gnome.Snapshot.desktop"))],
        None => seq![],
    }
}

/// The desktop files to read, given `HOME` (see `snapshot_desktop_paths`).
pub fn snapshot_desktop_candidates(home: &Option<Vec<u8>>) -> (r: Vec<Vec<u8>>)
    ensures
        path_views(r@) == snapshot_desktop_paths(opt_view(*home)),
{
    let mut r: Vec<Vec<u8>> = Vec::new();
    r.push(ascii_bytes("/usr/share/applications/org.gnome.Snapshot.desktop"));
    r.push(ascii_bytes("/usr/local/share/applications/org.gnome.Snapshot.desktop"));
    r.push(ascii_bytes("/var/lib/flatpak/exports/share/applications/org.gnome.Snapshot.desktop"));
    if let Some(h) = home {
        let rel = ascii_bytes(".local/share/flatpak/exports/share/applications/org.gnome.Snapshot.desktop");
        r.push(join_path_exec(h, &rel));
    }
    assert(path_views(r@) =~= snapshot_desktop_paths(opt_view(*home)));
    r
}

/// The translations of the first file that was read and has any, else none.
pub open spec fn first_translations(contents: Seq<Option<Seq<char>>>) -> Map<Seq<char>, Seq<char>>
    decreases contents.len(),
{
    if contents.len() == 0 {
        Map::empty()
    } else {
        match contents[0] {
            Some(c) => if apply_name_lines(Map::empty(), lines(c)) != Map::<Seq<char>, Seq<char>>::empty() {
                apply_name_lines(Map::empty(), lines(c))
            } else {
                first_translations(contents.drop_first())
            },
            None => first_translations(contents.drop_first()),
        }
    }
}

/// The views of the files' contents (`None` where a file could not be read).
pub open spec fn content_views(contents: Seq<Option<String>>) -> Seq<Option<Seq<char>>> {
    contents.map_values(|c: Option<String>| match c {
        Some(s) => Some(s@),
        None => None,
    })
}

/// The camera's name translations from the contents of the desktop files,
/// in order (see `first_translations`).
pub fn snapshot_camera_translations(contents: &Vec<Option<String>>) -> (r: NameTranslations)
    ensures
        r.spec_map() == first_translations(content_views(contents@)),
{
    let ghost all = content_views(contents@);
    assert(all.skip(0) =~= all);
    let mut i: usize = 0;
    while i < contents.len()
        invariant
            all == content_views(contents@),
            i <= contents.len(),
            first_translations(all) == first_translations(all.skip(i as int)),
        decreases contents.len() - i,
    {
        assert(all.skip(i as int).drop_first() =~= all.skip(i + 1));
        assert(all.skip(i as int)[0] == all[i as int]);
        if let Some(c) = &contents[i] {
            let m = parse_snapshot_name_translations(c.as_str());
            if !m.is_empty() {
                return m;
            }
        }
        i = i + 1;
    }
    assert(all.skip(i as int) =~= Seq::<Option<Seq<char>>>::empty());
    NameTranslations::new()
}

/// With no desktop translation, the camera's name comes from a table by
/// language: `pt` Câmera, `es` Cámara, `fr` Caméra, `ru` and `uk` Камера,
/// `it` Fotocamera, `de` Kamera, `ja` カメラ, `ko` 카메라, `zh` 相機 for
/// Taiwan, Hong Kong and Macau and 相机 elsewhere, and Camera for any other
/// language.
pub proof fn lemma_camera_word_table(locale: Seq<char>)
    ensures
        ({
            let language = locale_language(locale);
            let region = locale_region(locale);
            let word = camera_word(Map::empty(), locale);
            &&& language == "pt"@ ==> word == "Câmera"@
            &&& language == "es"@ ==> word == "Cámara"@
            &&& language == "fr"@ ==> word == "Caméra"@
            &&& language == "ru"@ ==> word == "Камера"@
            &&& language == "uk"@ ==> word == "Камера"@
            &&& language == "it"@ ==> word == "Fotocamera"@
            &&& language == "de"@ ==> word == "Kamera"@
            &&& language == "ja"@ ==> word == "カメラ"@
            &&& language == "ko"@ ==> word == "카메라"@
            &&& language == "zh"@ && (region == Some("tw"@) || region == Some("hk"@) || region == Some("mo"@))
                ==> word == "相機"@
            &&& language == "zh"@ && region != Some("tw"@) && region != Some("hk"@) && region != Some("mo"@)
                ==> word == "相机"@
            &&& language != "pt"@ && language != "es"@ && language != "fr"@ && language != "ru"@
                && language != "uk"@ && language != "it"@ && language != "de"@ && language != "ja"@
                && language != "ko"@ && language != "zh"@ ==> word == "Camera"@
        }),
{
    reveal_strlit("pt");
    reveal_strlit("es");
    reveal_strlit("fr");
    reveal_strlit("ru");
    reveal_strlit("uk");
    reveal_strlit("it");
    reveal_strlit("de");
    reveal_strlit("ja");
    reveal_strlit("ko");
    reveal_strlit("zh");
    let names = seq!["pt"@, "es"@, "fr"@, "ru"@, "uk"@, "it"@, "de"@, "ja"@, "ko"@, "zh"@];
    assert forall|i: int, j: int| 0 <= i < j < 10 implies names[i] != names[j] by {
        if names[i][0] == names[j][0] {
            assert(names[i][1] != names[j][1]);
        }
    }
    assert(translated_name(Map::<Seq<char>, Seq<char>>::empty(), locale) is None);
    let language = locale_language(locale);
    if language == names[0] {
        assert(names[0] != names[1] && names[0] != names[2] && names[0] != names[3] && names[0] != names[4] && names[0] != names[5] && names[0] != names[6] && names[0] != names[7] && names[0] != names[8] && names[0] != names[9]);
    }
    if language == names[1] {
        assert(names[1] != names[0] && names[1] != names[2] && names[1] != names[3] && names[1] != names[4] && names[1] != names[5] && names[1] != names[6] && names[1] != names[7] && names[1] != names[8] && names[1] != names[9]);
    }
    if language == names[2] {
        assert(names[2] != names[0] && names[2] != names[1] && names[2] != names[3] && names[2] != names[4] && names[2] != names[5] && names[2] != names[6] && names[2] != names[7] && names[2] != names[8] && names[2] != names[9]);
    }
    if language == names[3] {
        assert(names[3] != names[0] && names[3] != names[1] && names[3] != names[2] && names[3] != names[4] && names[3] != names[5] && names[3] != names[6] && names[3] != names[7] && names[3] != names[8] && names[3] != names[9]);
    }
    if language == names[4] {
        assert(names[4] != names[0] && names[4] != names[1] && names[4] != names[2] && names[4] != names[3] && names[4] != names[5] && names[4] != names[6] && names[4] != names[7] && names[4] != names[8] && names[4] != names[9]);
    }
    if language == names[5] {
        assert(names[5] != names[0] && names[5] != names[1] && names[5] != names[2] && names[5] != names[3] && names[5] != names[4] && names[5] != names[6] && names[5] != names[7] && names[5] != names[8] && names[5] != names[9]);
    }
    if language == names[6] {
        assert(names[6] != names[0] && names[6] != names[1] && names[6] != names[2] && names[6] != names[3] && names[6] != names[4] && names[6] != names[5] && names[6] != names[7] && names[6] != names[8] && names[6] != names[9]);
    }
    if language == names[7] {
        assert(names[7] != names[0] && names[7] != names[1] && names[7] != names[2] && names[7] != names[3] && names[7] != names[4] && names[7] != names[5] && names[7] != names[6] && names[7] != names[8] && names[7] != names[9]);
    }
    if language == names[8] {
        assert(names[8] != names[0] && names[8] != names[1] && names[8] != names[2] && names[8] != names[3] && names[8] != names[4] && names[8] != names[5] && names[8] != names[6] && names[8] != names[7] && names[8] != names[9]);
    }
    if language == names[9] {
        assert(names[9] != names[0] && names[9] != names[1] && names[9] != names[2] && names[9] != names[3] && names[9] != names[4] && names[9] != names[5] && names[9] != names[6] && names[9] != names[7] && names[9] != names[8]);
    }
}

} // verus!
