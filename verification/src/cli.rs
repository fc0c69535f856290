//! The command line: `--smoke-test`, `--capture-photo-once PATH` and
//! `--config PATH`.

use vstd::prelude::*;

use crate::text::chars_eq_str;

verus! {

/// What the command line asks for.
#[derive(Clone, Debug)]
pub struct CliArgs {
    /// Run the smoke test and leave.
    pub smoke_test: bool,
    /// Take one photo to this path and leave.
    pub capture_photo_once: Option<String>,
    /// The configuration file to use instead of the default one.
    pub config_path: Option<String>,
}

/// The view of the command line's options.
pub struct CliView {
    pub smoke_test: bool,
    pub capture_photo_once: Option<Seq<char>>,
    pub config_path: Option<Seq<char>>,
}

impl CliArgs {
    pub open spec fn view(self) -> CliView {
        CliView {
            smoke_test: self.smoke_test,
            capture_photo_once: match self.capture_photo_once {
                Some(p) => Some(p@),
                None => None,
            },
            config_path: match self.config_path {
                Some(p) => Some(p@),
                None => None,
            },
        }
    }
}

/// The options read from the arguments left, on top of those read so far.
/// An option that takes a path and comes last, without one, ends the
/// reading; unknown arguments are skipped; a later option wins.
pub open spec fn parse_from(args: Seq<Seq<char>>, acc: CliView) -> CliView
    decreases args.len(),
{
    if args.len() == 0 {
        acc
    } else if args[0] == "--smoke-test"@ {
        parse_from(args.drop_first(), CliView { smoke_test: true, ..acc })
    } else if args[0] == "--capture-photo-once"@ {
        if args.len() < 2 {
            acc
        } else {
            parse_from(args.skip(2), CliView { capture_photo_once: Some(args[1]), ..acc })
        }
    } else if args[0] == "--config"@ {
        if args.len() < 2 {
            acc
        } else {
            parse_from(args.skip(2), CliView { config_path: Some(args[1]), ..acc })
        }
    } else {
        parse_from(args.drop_first(), acc)
    }
}

/// The views of the arguments.
pub open spec fn arg_seq(args: Seq<String>) -> Seq<Seq<char>> {
    args.map_values(|a: String| a@)
}

/// Nothing asked: the interactive application with the default configuration.
pub open spec fn no_options() -> CliView {
    CliView { smoke_test: false, capture_photo_once: None, config_path: None }
}

/// Reads the options from the arguments that follow the program's name
/// (see `parse_from`).
pub fn parse_args(args: &Vec<String>) -> (r: CliArgs)
    ensures
        r.view() == parse_from(arg_seq(args@), no_options()),
{
    let mut r = CliArgs { smoke_test: false, capture_photo_once: None, config_path: None };
    assert(arg_seq(args@).skip(0) =~= arg_seq(args@));
    assert(r.view() == no_options());
    let mut i: usize = 0;
    while i < args.len()
        invariant
            i <= args.len(),
            parse_from(arg_seq(args@), no_options()) == parse_from(arg_seq(args@).skip(i as int), r.view()),
        decreases args.len() - i,
    {
        let ghost rest = arg_seq(args@).skip(i as int);
        assert(rest[0] == args@[i as int]@);
        assert(rest.drop_first() =~= arg_seq(args@).skip(i + 1));
        let arg = &args[i];
        if chars_eq_str(&crate::text::chars_of(arg.as_str()), "--smoke-test") {
            r.smoke_test = true;
            i = i + 1;
        } else if chars_eq_str(&crate::text::chars_of(arg.as_str()), "--capture-photo-once") {
            if i + 1 >= args.len() {
                return r;
            }
            assert(rest[1] == args@[i + 1]@);
            assert(rest.skip(2) =~= arg_seq(args@).skip(i + 2));
            r.capture_photo_once = Some(args[i + 1].clone());
            i = i + 2;
        } else if chars_eq_str(&crate::text::chars_of(arg.as_str()), "--config") {
            if i + 1 >= args.len() {
                return r;
            }
            assert(rest[1] == args@[i + 1]@);
            assert(rest.skip(2) =~= arg_seq(args@).skip(i + 2));
            r.config_path = Some(args[i + 1].clone());
            i = i + 2;
        } else {
            i = i + 1;
        }
    }
    assert(arg_seq(args@).skip(i as int) =~= Seq::<Seq<char>>::empty());
    r
}

} // verus!
