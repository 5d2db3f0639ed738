//! Two-phase resolution of the raw argument list.
//!
//! Phase one scans for a registered standalone-command token; a match
//! short-circuits everything else, required flags included. Phase two decodes
//! the full flag schema into a `CommandLineArgs`, or reports a usage error.
//! `args[0]` is the program name: both phases ignore it, so it can never be
//! mistaken for a command token or a flag.

use vstd::prelude::*;

use crate::config::{
    default_replacement_char, default_special_characters, default_special_chars, CommandLineArgs,
    ConfigView, CoreArgs, CoreView, RenameArgs, RenameView, UsageError,
};
use crate::registry::{first_match, CommandRegistry};
use vstd::string::StrSliceExecFns;

verus! {

/// Does `a` select the source directory?
pub open spec fn is_source_flag(a: Seq<char>) -> bool {
    a == "-s"@ || a == "--source"@
}

/// Does `a` select the destination directory?
pub open spec fn is_dest_flag(a: Seq<char>) -> bool {
    a == "-d"@ || a == "--destination"@
}

/// Does `a` add a playlist?
pub open spec fn is_playlist_flag(a: Seq<char>) -> bool {
    a == "-p"@ || a == "--playlist"@
}

/// Does `a` add an allowed destination format?
pub open spec fn is_format_flag(a: Seq<char>) -> bool {
    a == "-f"@ || a == "--format"@
}

/// Does `a` belong to the rename group?
pub open spec fn is_rename_flag(a: Seq<char>) -> bool {
    a == "--rename-special"@ || a == "--replacement-char"@ || a == "--special-characters"@
}

/// The accumulator of the structured parse: each field stays `None` (or
/// empty, or `false`) until its flag has been seen.
pub struct PartialView {
    pub source: Option<Seq<char>>,
    pub dest: Option<Seq<char>>,
    pub playlists: Seq<Seq<char>>,
    pub formats: Seq<Seq<char>>,
    pub rename_special: bool,
    pub replacement_char: Option<char>,
    pub special_characters: Option<Seq<char>>,
    pub list_codecs: bool,
}

/// The accumulator before any argument has been read.
pub open spec fn empty_partial() -> PartialView {
    PartialView {
        source: None,
        dest: None,
        playlists: Seq::empty(),
        formats: Seq::empty(),
        rename_special: false,
        replacement_char: None,
        special_characters: None,
        list_codecs: false,
    }
}

/// One left-to-right pass over `args[i..]`, folding each flag (and its value,
/// where it takes one) into `acc`. Repeatable flags append in order of
/// appearance; non-repeatable ones refuse a second occurrence; a value flag
/// with nothing after it is missing its value; anything unrecognized is
/// rejected outright.
pub open spec fn parse_from(args: Seq<Seq<char>>, i: int, acc: PartialView) -> Result<
    PartialView,
    UsageError,
>
    decreases args.len() - i,
{
    if i < 0 || i >= args.len() {
        Ok(acc)
    } else {
        let a = args[i];
        if is_source_flag(a) {
            if acc.source is Some {
                Err(UsageError::DuplicateFlag)
            } else if i + 1 >= args.len() {
                Err(UsageError::MissingValue)
            } else {
                parse_from(args, i + 2, PartialView { source: Some(args[i + 1]), ..acc })
            }
        } else if is_dest_flag(a) {
            if acc.dest is Some {
                Err(UsageError::DuplicateFlag)
            } else if i + 1 >= args.len() {
                Err(UsageError::MissingValue)
            } else {
                parse_from(args, i + 2, PartialView { dest: Some(args[i + 1]), ..acc })
            }
        } else if is_playlist_flag(a) {
            if i + 1 >= args.len() {
                Err(UsageError::MissingValue)
            } else {
                parse_from(
                    args,
                    i + 2,
                    PartialView { playlists: acc.playlists.push(args[i + 1]), ..acc },
                )
            }
        } else if is_format_flag(a) {
            if i + 1 >= args.len() {
                Err(UsageError::MissingValue)
            } else {
                parse_from(
                    args,
                    i + 2,
                    PartialView { formats: acc.formats.push(args[i + 1]), ..acc },
                )
            }
        } else if a == "--rename-special"@ {
            if acc.rename_special {
                Err(UsageError::DuplicateFlag)
            } else {
                parse_from(args, i + 1, PartialView { rename_special: true, ..acc })
            }
        } else if a == "--replacement-char"@ {
            if acc.replacement_char is Some {
                Err(UsageError::DuplicateFlag)
            } else if i + 1 >= args.len() {
                Err(UsageError::MissingValue)
            } else if args[i + 1].len() != 1 {
                Err(UsageError::InvalidReplacementChar)
            } else {
                parse_from(
                    args,
                    i + 2,
                    PartialView { replacement_char: Some(args[i + 1][0]), ..acc },
                )
            }
        } else if a == "--special-characters"@ {
            if acc.special_characters is Some {
                Err(UsageError::DuplicateFlag)
            } else if i + 1 >= args.len() {
                Err(UsageError::MissingValue)
            } else {
                parse_from(
                    args,
                    i + 2,
                    PartialView { special_characters: Some(args[i + 1]), ..acc },
                )
            }
        } else if a == "--list-codecs"@ {
            if acc.list_codecs {
                Err(UsageError::DuplicateFlag)
            } else {
                parse_from(args, i + 1, PartialView { list_codecs: true, ..acc })
            }
        } else {
            Err(UsageError::UnexpectedArgument)
        }
    }
}

/// The final validation: both required fields must have been seen; the
/// optional ones fall back to their documented defaults.
pub open spec fn finalize(p: PartialView) -> Result<ConfigView, UsageError> {
    if p.source is None {
        Err(UsageError::MissingSource)
    } else if p.dest is None {
        Err(UsageError::MissingDestination)
    } else {
        Ok(
            ConfigView {
                core: CoreView {
                    source: p.source->0,
                    dest: p.dest->0,
                    playlists: p.playlists,
                    formats: p.formats,
                },
                rename: RenameView {
                    rename_special: p.rename_special,
                    replacement_char: if p.replacement_char is Some {
                        p.replacement_char->0
                    } else {
                        default_replacement_char()
                    },
                    special_characters: if p.special_characters is Some {
                        p.special_characters->0
                    } else {
                        default_special_characters()
                    },
                },
                list_codecs: p.list_codecs,
            },
        )
    }
}

/// The whole structured parse, as a mathematical function of the raw
/// argument views.
pub open spec fn structured_parse(args: Seq<Seq<char>>) -> Result<ConfigView, UsageError> {
    match parse_from(args, 1, empty_partial()) {
        Ok(p) => finalize(p),
        Err(e) => Err(e),
    }
}

/// The registry index selected by the first (leftmost) argument at or after
/// position `i` that equals a registered token.
pub open spec fn scan_from(args: Seq<Seq<char>>, tokens: Seq<Seq<char>>, i: int) -> Option<int>
    decreases args.len() - i,
{
    if i < 0 || i >= args.len() {
        None
    } else {
        match first_match(tokens, args[i], 0) {
            Some(j) => Some(j),
            None => scan_from(args, tokens, i + 1),
        }
    }
}

/// Mathematical view of `Resolution`.
pub enum ResolutionView {
    Command(int),
    Config(ConfigView),
    Usage(UsageError),
}

/// The whole two-phase resolution as a mathematical function: the scanner's
/// verdict wins; only when it finds nothing does the structured parse decide.
pub open spec fn resolution_of(args: Seq<Seq<char>>, tokens: Seq<Seq<char>>) -> ResolutionView {
    match scan_from(args, tokens, 1) {
        Some(j) => ResolutionView::Command(j),
        None => match structured_parse(args) {
            Ok(c) => ResolutionView::Config(c),
            Err(e) => ResolutionView::Usage(e),
        },
    }
}

/// The outcome of resolution. Exactly one of the three is produced per
/// invocation — never more, never none.
#[derive(Debug)]
pub enum Resolution {
    /// A standalone command was found: the caller runs the action at this
    /// registry index and terminates the process with its status.
    Command(usize),
    /// The structured parse succeeded: the caller hands this configuration
    /// to the copy/transcode engine.
    Config(CommandLineArgs),
    /// The structured parse failed: the caller reports the error and
    /// terminates the process with a non-zero status.
    Usage(UsageError),
}

impl View for Resolution {
    type V = ResolutionView;

    open spec fn view(&self) -> ResolutionView {
        match self {
            Resolution::Command(j) => ResolutionView::Command(*j as int),
            Resolution::Config(c) => ResolutionView::Config(c@),
            Resolution::Usage(e) => ResolutionView::Usage(*e),
        }
    }
}

/// Does the argument `a` spell exactly the flag `lit`?
fn flag_eq(a: &String, lit: &str) -> (r: bool)
    ensures
        r == (a@ == lit@),
{
    let l: String = lit.to_owned();
    *a == l
}

/// The view of an optional `String`.
pub open spec fn opt_view(o: Option<String>) -> Option<Seq<char>> {
    match o {
        Some(s) => Some(s@),
        None => None,
    }
}

/// The accumulator made of the parser's working state.
pub open spec fn partial_of(
    source: Option<Seq<char>>,
    dest: Option<Seq<char>>,
    playlists: Seq<Seq<char>>,
    formats: Seq<Seq<char>>,
    rename_special: bool,
    replacement_char: Option<char>,
    special_characters: Option<Seq<char>>,
    list_codecs: bool,
) -> PartialView {
    PartialView {
        source,
        dest,
        playlists,
        formats,
        rename_special,
        replacement_char,
        special_characters,
        list_codecs,
    }
}

/// Phase two: decodes `args` (program name first) against the flag schema,
/// agreeing exactly with the mathematical `structured_parse`.
pub fn parse_structured(args: &Vec<String>) -> (r: Result<CommandLineArgs, UsageError>)
    ensures
        r matches Ok(c) ==> structured_parse(args.deep_view()) == Ok::<ConfigView, UsageError>(c@),
        r matches Err(e) ==> structured_parse(args.deep_view()) == Err::<ConfigView, UsageError>(
            e,
        ),
{
    let ghost av = args.deep_view();
    let mut source: Option<String> = None;
    let mut dest: Option<String> = None;
    let mut playlists: Vec<String> = Vec::new();
    let mut formats: Vec<String> = Vec::new();
    let mut rename_special: bool = false;
    let mut replacement_char: Option<char> = None;
    let mut special_characters: Option<String> = None;
    let mut list_codecs: bool = false;
    proof {
        assert(playlists.deep_view() =~= Seq::<Seq<char>>::empty());
        assert(formats.deep_view() =~= Seq::<Seq<char>>::empty());
    }
    let mut i: usize = 1;
    while i < args.len()
        invariant
            1 <= i,
            av == args.deep_view(),
            parse_from(av, 1, empty_partial()) == parse_from(
                av,
                i as int,
                partial_of(
                    opt_view(source),
                    opt_view(dest),
                    playlists.deep_view(),
                    formats.deep_view(),
                    rename_special,
                    replacement_char,
                    opt_view(special_characters),
                    list_codecs,
                ),
            ),
        decreases args.len() - i,
    {
        let ghost cur = partial_of(
            opt_view(source),
            opt_view(dest),
            playlists.deep_view(),
            formats.deep_view(),
            rename_special,
            replacement_char,
            opt_view(special_characters),
            list_codecs,
        );
        let a = &args[i];
        proof {
            assert(av[i as int] == args@[i as int]@);
            assert(a@ == av[i as int]);
        }
        if flag_eq(a, "-s") || flag_eq(a, "--source") {
            if source.is_some() {
                return Err(UsageError::DuplicateFlag);
            }
            if i + 1 == args.len() {
                return Err(UsageError::MissingValue);
            }
            proof {
                assert(av[i + 1] == args@[i + 1]@);
            }
            source = Some(args[i + 1].clone());
            i = i + 2;
        } else if flag_eq(a, "-d") || flag_eq(a, "--destination") {
            if dest.is_some() {
                return Err(UsageError::DuplicateFlag);
            }
            if i + 1 == args.len() {
                return Err(UsageError::MissingValue);
            }
            proof {
                assert(av[i + 1] == args@[i + 1]@);
            }
            dest = Some(args[i + 1].clone());
            i = i + 2;
        } else if flag_eq(a, "-p") || flag_eq(a, "--playlist") {
            if i + 1 == args.len() {
                return Err(UsageError::MissingValue);
            }
            proof {
                assert(av[i + 1] == args@[i + 1]@);
            }
            let ghost before = playlists.deep_view();
            playlists.push(args[i + 1].clone());
            proof {
                assert(playlists.deep_view() =~= before.push(av[i + 1]));
            }
            i = i + 2;
        } else if flag_eq(a, "-f") || flag_eq(a, "--format") {
            if i + 1 == args.len() {
                return Err(UsageError::MissingValue);
            }
            proof {
                assert(av[i + 1] == args@[i + 1]@);
            }
            let ghost before = formats.deep_view();
            formats.push(args[i + 1].clone());
            proof {
                assert(formats.deep_view() =~= before.push(av[i + 1]));
            }
            i = i + 2;
        } else if flag_eq(a, "--rename-special") {
            if rename_special {
                return Err(UsageError::DuplicateFlag);
            }
            rename_special = true;
            i = i + 1;
        } else if flag_eq(a, "--replacement-char") {
            if replacement_char.is_some() {
                return Err(UsageError::DuplicateFlag);
            }
            if i + 1 == args.len() {
                return Err(UsageError::MissingValue);
            }
            proof {
                assert(av[i + 1] == args@[i + 1]@);
            }
            let v = &args[i + 1];
            if v.as_str().unicode_len() != 1 {
                return Err(UsageError::InvalidReplacementChar);
            }
            let c = v.as_str().get_char(0);
            replacement_char = Some(c);
            i = i + 2;
        } else if flag_eq(a, "--special-characters") {
            if special_characters.is_some() {
                return Err(UsageError::DuplicateFlag);
            }
            if i + 1 == args.len() {
                return Err(UsageError::MissingValue);
            }
            proof {
                assert(av[i + 1] == args@[i + 1]@);
            }
            special_characters = Some(args[i + 1].clone());
            i = i + 2;
        } else if flag_eq(a, "--list-codecs") {
            if list_codecs {
                return Err(UsageError::DuplicateFlag);
            }
            list_codecs = true;
            i = i + 1;
        } else {
            return Err(UsageError::UnexpectedArgument);
        }
    }
    let source_v = match source {
        Some(s) => s,
        None => {
            return Err(UsageError::MissingSource);
        },
    };
    let dest_v = match dest {
        Some(s) => s,
        None => {
            return Err(UsageError::MissingDestination);
        },
    };
    let replacement_v = match replacement_char {
        Some(c) => c,
        None => '_',
    };
    let special_v = match special_characters {
        Some(s) => s,
        None => default_special_chars(),
    };
    let result = CommandLineArgs {
        core: CoreArgs { source: source_v, dest: dest_v, playlists, formats },
        rename: RenameArgs {
            rename_special,
            replacement_char: replacement_v,
            special_characters: special_v,
        },
        list_codecs,
    };
    Ok(result)
}

/// The whole two-phase resolution: the scanner first; only when it finds no
/// registered token does the structured parse decide. Exactly one of the
/// three outcomes is returned, matching `resolution_of` on the views.
pub fn parse_args(registry: &CommandRegistry, args: &Vec<String>) -> (r: Resolution)
    ensures
        r@ == resolution_of(args.deep_view(), registry@),
{
    match scan_standalone(registry, args) {
        Some(j) => Resolution::Command(j),
        None => match parse_structured(args) {
            Ok(c) => Resolution::Config(c),
            Err(e) => Resolution::Usage(e),
        },
    }
}

/// Phase one: the registry index of the command selected by the leftmost
/// matching argument after the program name, if any.
pub fn scan_standalone(registry: &CommandRegistry, args: &Vec<String>) -> (r: Option<usize>)
    ensures
        r matches Some(j) ==> scan_from(args.deep_view(), registry@, 1) == Some(j as int) && j
            < registry@.len(),
        r is None ==> scan_from(args.deep_view(), registry@, 1) is None,
{
    let ghost av = args.deep_view();
    let mut i: usize = 1;
    while i < args.len()
        invariant
            1 <= i,
            av == args.deep_view(),
            scan_from(av, registry@, 1) == scan_from(av, registry@, i as int),
        decreases args.len() - i,
    {
        proof {
            assert(av[i as int] == args@[i as int]@);
        }
        if let Some(j) = registry.find(&args[i]) {
            return Some(j);
        }
        i = i + 1;
    }
    None
}

} // verus!
