//! Where the application keeps its files: the configuration file, the photo
//! and video folders, the cache and the single-instance socket.
//!
//! Paths are byte strings, as Unix keeps them; the caller reads the
//! environment and hands its values in.

use vstd::prelude::*;

use crate::text::{chars_of, decode_utf8_lossy, string_from_chars, trim, trim_chars, utf8_lossy};
use vstd::utf8::encode_utf8;

verus! {

/// The bytes of an ASCII string.
pub fn ascii_bytes(s: &str) -> (r: Vec<u8>)
    ensures
        r@ == s@.map_values(|c: char| c as u8),
{
    let v = chars_of(s);
    let mut r: Vec<u8> = Vec::new();
    let mut i: usize = 0;
    while i < v.len()
        invariant
            v@ == s@,
            i <= v.len(),
            r@ == v@.take(i as int).map_values(|c: char| c as u8),
        decreases v.len() - i,
    {
        r.push(v[i] as u8);
        i = i + 1;
        assert(r@ =~= v@.take(i as int).map_values(|c: char| c as u8));
    }
    assert(v@.take(i as int) =~= v@);
    r
}

/// The bytes of an ASCII literal.
pub open spec fn bytes_of(s: &str) -> Seq<u8> {
    s@.map_values(|c: char| c as u8)
}

/// `Path::join` with a relative path: the two parts with one `/` between
/// them, unless the first is empty or already ends with `/`.
pub open spec fn join_path(base: Seq<u8>, rel: Seq<u8>) -> Seq<u8> {
    if base.len() == 0 {
        rel
    } else if base.last() == 47u8 {
        base + rel
    } else {
        base + seq![47u8] + rel
    }
}

/// `Path::join` with a relative path.
pub fn join_path_exec(base: &Vec<u8>, rel: &Vec<u8>) -> (r: Vec<u8>)
    ensures
        r@ == join_path(base@, rel@),
{
    let mut r: Vec<u8> = Vec::new();
    let mut i: usize = 0;
    while i < base.len()
        invariant
            i <= base.len(),
            r@ == base@.take(i as int),
        decreases base.len() - i,
    {
        r.push(base[i]);
        i = i + 1;
        assert(r@ =~= base@.take(i as int));
    }
    assert(base@.take(i as int) =~= base@);
    if base.len() > 0 && base[base.len() - 1] != 47u8 {
        r.push(47u8);
    }
    let ghost mid = r@;
    let mut j: usize = 0;
    while j < rel.len()
        invariant
            j <= rel.len(),
            r@ == mid + rel@.take(j as int),
        decreases rel.len() - j,
    {
        r.push(rel[j]);
        j = j + 1;
        assert(r@ =~= mid + rel@.take(j as int));
    }
    assert(rel@.take(j as int) =~= rel@);
    if base.len() == 0 {
        assert(r@ =~= rel@);
    }
    r
}

/// The home folder: `HOME`, or `/tmp` when it is not set.
pub open spec fn home_path(home: Option<Seq<u8>>) -> Seq<u8> {
    match home {
        Some(h) => h,
        None => bytes_of("/tmp"),
    }
}

/// The home folder, given the value of `HOME`.
pub fn home_dir(home: &Option<Vec<u8>>) -> (r: Vec<u8>)
    ensures
        r@ == home_path(opt_view(*home)),
{
    match home {
        Some(h) => h.clone(),
        None => ascii_bytes("/tmp"),
    }
}

/// The view of an optional byte string.
pub open spec fn opt_view(v: Option<Vec<u8>>) -> Option<Seq<u8>> {
    match v {
        Some(x) => Some(x@),
        None => None,
    }
}

/// The configuration file: `.config/camera-tuned.env` in the home folder.
pub fn default_config_path(home: &Option<Vec<u8>>) -> (r: Vec<u8>)
    ensures
        r@ == join_path(home_path(opt_view(*home)), bytes_of(".config/camera-tuned.env")),
{
    join_path_exec(&home_dir(home), &ascii_bytes(".config/camera-tuned.env"))
}

/// The environment variable that names a user folder of the given kind
/// (`PICTURES`, `VIDEOS`), if the kind is known.
pub fn user_dir_variable(kind: &str) -> (r: Option<&'static str>)
    ensures
        kind@ == "PICTURES"@ ==> r == Some("XDG_PICTURES_DIR"),
        kind@ == "VIDEOS"@ ==> r == Some("XDG_VIDEOS_DIR"),
        kind@ != "PICTURES"@ && kind@ != "VIDEOS"@ ==> r is None,
{
    let k = chars_of(kind);
    proof {
        reveal_strlit("PICTURES");
        reveal_strlit("VIDEOS");
        assert("PICTURES"@.len() == 8);
        assert("VIDEOS"@.len() == 6);
    }
    if crate::text::chars_eq_str(&k, "PICTURES") {
        Some("XDG_PICTURES_DIR")
    } else if crate::text::chars_eq_str(&k, "VIDEOS") {
        Some("XDG_VIDEOS_DIR")
    } else {
        None
    }
}

/// The UTF-8 bytes of a string.
fn string_bytes(s: &String) -> (r: Vec<u8>)
    ensures
        r@ == encode_utf8(s@),
{
    let b = s.as_str().as_bytes();
    let mut r: Vec<u8> = Vec::new();
    let mut i: usize = 0;
    while i < b.len()
        invariant
            b@ == encode_utf8(s@),
            i <= b@.len(),
            r@ == b@.take(i as int),
        decreases b.len() - i,
    {
        r.push(b[i]);
        i = i + 1;
        assert(r@ =~= b@.take(i as int));
    }
    assert(b@.take(i as int) =~= b@);
    r
}

/// A user folder: the environment variable's value when it is not empty,
/// else what `xdg-user-dir` printed (decoded, trimmed) when that is not
/// empty, else none.
pub open spec fn user_dir(env_value: Option<Seq<u8>>, command_stdout: Option<Seq<u8>>) -> Option<Seq<u8>> {
    match env_value {
        Some(p) if p.len() > 0 => Some(p),
        _ => match command_stdout {
            Some(out) if trim(utf8_lossy(out)).len() > 0 => Some(encode_utf8(trim(utf8_lossy(out)))),
            _ => None,
        },
    }
}

/// Chooses a user folder from the environment variable's value and from
/// the standard output of a successful `xdg-user-dir` run (`None` when it
/// could not run or failed).
pub fn default_user_dir(env_value: &Option<Vec<u8>>, command_stdout: &Option<Vec<u8>>) -> (r: Option<Vec<u8>>)
    ensures
        opt_view(r) == user_dir(opt_view(*env_value), opt_view(*command_stdout)),
{
    if let Some(p) = env_value {
        if p.len() > 0 {
            return Some(p.clone());
        }
    }
    match command_stdout {
        Some(out) => {
            let text = decode_utf8_lossy(out.as_slice());
            let trimmed = trim_chars(&chars_of(text.as_str()));
            if trimmed.len() == 0 {
                None
            } else {
                Some(string_bytes(&string_from_chars(&trimmed)))
            }
        },
        None => None,
    }
}

/// The folder for photos: the user's pictures folder (or `Pictures` in
/// the home folder), then `Camera`.
pub fn photo_library_dir(pictures_dir: &Option<Vec<u8>>, home: &Option<Vec<u8>>) -> (r: Vec<u8>)
    ensures
        r@ == join_path(
            match opt_view(*pictures_dir) {
                Some(p) => p,
                None => join_path(home_path(opt_view(*home)), bytes_of("Pictures")),
            },
            bytes_of("Camera"),
        ),
{
    let base = match pictures_dir {
        Some(p) => p.clone(),
        None => join_path_exec(&home_dir(home), &ascii_bytes("Pictures")),
    };
    join_path_exec(&base, &ascii_bytes("Camera"))
}

/// The folder for videos: the user's videos folder (or `Videos` in the
/// home folder), then `Camera`.
pub fn video_library_dir(videos_dir: &Option<Vec<u8>>, home: &Option<Vec<u8>>) -> (r: Vec<u8>)
    ensures
        r@ == join_path(
            match opt_view(*videos_dir) {
                Some(p) => p,
                None => join_path(home_path(opt_view(*home)), bytes_of("Videos")),
            },
            bytes_of("Camera"),
        ),
{
    let base = match videos_dir {
        Some(p) => p.clone(),
        None => join_path_exec(&home_dir(home), &ascii_bytes("Videos")),
    };
    join_path_exec(&base, &ascii_bytes("Camera"))
}

/// The cache folder: `XDG_CACHE_HOME`, or `.cache` in the home folder.
pub open spec fn cache_path(cache_home: Option<Seq<u8>>, home: Option<Seq<u8>>) -> Seq<u8> {
    match cache_home {
        Some(c) => c,
        None => join_path(home_path(home), bytes_of(".cache")),
    }
}

/// The cache folder, given `XDG_CACHE_HOME` and `HOME`.
pub fn cache_dir(cache_home: &Option<Vec<u8>>, home: &Option<Vec<u8>>) -> (r: Vec<u8>)
    ensures
        r@ == cache_path(opt_view(*cache_home), opt_view(*home)),
{
    match cache_home {
        Some(c) => c.clone(),
        None => join_path_exec(&home_dir(home), &ascii_bytes(".cache")),
    }
}

/// The socket that keeps the application to one instance: in
/// `XDG_RUNTIME_DIR` when it is set and not empty, else in the cache folder.
pub fn singleton_socket_path(runtime_dir: &Option<Vec<u8>>, cache_home: &Option<Vec<u8>>, home: &Option<Vec<u8>>) -> (r: Vec<u8>)
    ensures
        r@ == join_path(
            match opt_view(*runtime_dir) {
                Some(d) if d.len() > 0 => d,
                _ => cache_path(opt_view(*cache_home), opt_view(*home)),
            },
            bytes_of("galaxybook-camera.sock"),
        ),
{
    let name = ascii_bytes("galaxybook-camera.sock");
    if let Some(d) = runtime_dir {
        if d.len() > 0 {
            return join_path_exec(d, &name);
        }
    }
    join_path_exec(&cache_dir(cache_home, home), &name)
}

/// The file a capture is saved to: `camera-<stamp>.<extension>` in the
/// given folder.
pub open spec fn capture_file(dir: Seq<u8>, stamp: Seq<char>, extension: Seq<char>) -> Seq<u8> {
    join_path(dir, encode_utf8("camera-"@ + stamp + "."@ + extension))
}

/// The file a capture is saved to (see `capture_file`).
pub fn capture_file_path(dir: &Vec<u8>, stamp: &str, extension: &str) -> (r: Vec<u8>)
    ensures
        r@ == capture_file(dir@, stamp@, extension@),
{
    let mut name = chars_of("camera-");
    crate::text::append_str(&mut name, stamp);
    crate::text::append_str(&mut name, ".");
    crate::text::append_str(&mut name, extension);
    let bytes = string_bytes(&string_from_chars(&name));
    join_path_exec(dir, &bytes)
}

/// The libcamera tuning file of the OV02C10 sensor, where the system has it.
pub const SYSTEM_TUNING_PATH: &'static str = "/usr/share/galaxybook-camera/libcamera/simple/ov02c10.yaml";

/// The tuning file in the user's data folder, under the home folder.
pub const LOCAL_TUNING_PATH_RELATIVE: &'static str = ".local/share/galaxybook-camera/libcamera/simple/ov02c10.yaml";

/// The tuning file in a source tree.
pub const DEV_TUNING_PATH_RELATIVE: &'static str = "data/libcamera/simple/ov02c10.yaml";

/// Where the tuning file is looked for, in order: the system's copy, the
/// user's, then the source tree's under the current folder, under the
/// folder two levels above the executable, and under the project's folder
/// (the first two of those only when known).
pub open spec fn tuning_candidates(
    home: Option<Seq<u8>>,
    current_dir: Option<Seq<u8>>,
    exe_grandparent: Option<Seq<u8>>,
    project_dir: Seq<u8>,
) -> Seq<Seq<u8>> {
    seq![bytes_of(SYSTEM_TUNING_PATH), join_path(home_path(home), bytes_of(LOCAL_TUNING_PATH_RELATIVE))]
        + match current_dir {
            Some(d) => seq![join_path(d, bytes_of(DEV_TUNING_PATH_RELATIVE))],
            None => seq![],
        } + match exe_grandparent {
            Some(d) => seq![join_path(d, bytes_of(DEV_TUNING_PATH_RELATIVE))],
            None => seq![],
        } + seq![join_path(project_dir, bytes_of(DEV_TUNING_PATH_RELATIVE))]
}

/// The views of a list of paths.
pub open spec fn path_views(v: Seq<Vec<u8>>) -> Seq<Seq<u8>> {
    v.map_values(|p: Vec<u8>| p@)
}

/// Where the tuning file is looked for (see `tuning_candidates`).
pub fn simple_tuning_file_candidates(
    home: &Option<Vec<u8>>,
    current_dir: &Option<Vec<u8>>,
    exe_grandparent: &Option<Vec<u8>>,
    project_dir: &Vec<u8>,
) -> (r: Vec<Vec<u8>>)
    ensures
        path_views(r@) == tuning_candidates(
            opt_view(*home),
            opt_view(*current_dir),
            opt_view(*exe_grandparent),
            project_dir@,
        ),
{
    let mut r: Vec<Vec<u8>> = Vec::new();
    r.push(ascii_bytes(SYSTEM_TUNING_PATH));
    r.push(join_path_exec(&home_dir(home), &ascii_bytes(LOCAL_TUNING_PATH_RELATIVE)));
    let ghost first = path_views(r@);
    let dev = ascii_bytes(DEV_TUNING_PATH_RELATIVE);
    if let Some(d) = current_dir {
        r.push(join_path_exec(d, &dev));
    }
    let ghost second = path_views(r@);
    if let Some(d) = exe_grandparent {
        r.push(join_path_exec(d, &dev));
    }
    let ghost third = path_views(r@);
    r.push(join_path_exec(project_dir, &dev));
    proof {
        assert(first =~= seq![bytes_of(SYSTEM_TUNING_PATH), join_path(home_path(opt_view(*home)), bytes_of(LOCAL_TUNING_PATH_RELATIVE))]);
        assert(path_views(r@) =~= tuning_candidates(
            opt_view(*home),
            opt_view(*current_dir),
            opt_view(*exe_grandparent),
            project_dir@,
        ));
    }
    r
}

/// The first candidate that is a file (`is_file[i]` tells whether
/// `candidates[i]` is one).
pub fn first_existing_file(candidates: &Vec<Vec<u8>>, is_file: &Vec<bool>) -> (r: Option<Vec<u8>>)
    requires
        candidates.len() == is_file.len(),
    ensures
        match r {
            Some(p) => exists|i: int|
                0 <= i < candidates.len() && is_file[i] && candidates[i]@ == p@
                    && forall|j: int| 0 <= j < i ==> !is_file[j],
            None => forall|j: int| 0 <= j < is_file.len() ==> !is_file[j],
        },
{
    let mut i: usize = 0;
    while i < candidates.len()
        invariant
            candidates.len() == is_file.len(),
            i <= candidates.len(),
            forall|j: int| 0 <= j < i ==> !is_file[j],
        decreases candidates.len() - i,
    {
        if is_file[i] {
            return Some(candidates[i].clone());
        }
        i = i + 1;
    }
    None
}

/// The tuning variable is left alone when it is already set to something.
pub fn tuning_env_needs_setting(current_value: &Option<Vec<u8>>) -> (r: bool)
    ensures
        r == match *current_value {
            Some(v) => v@.len() == 0,
            None => true,
        },
{
    match current_value {
        Some(v) => v.len() == 0,
        None => true,
    }
}

} // verus!
