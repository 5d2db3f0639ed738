//! The laws of the resolver, stated over the mathematical functions that the
//! executable contracts are pinned to: scanner precedence over validation,
//! rejection of inputs missing a required flag, the exact shape of a minimal
//! valid invocation, and the rename defaults.

use vstd::prelude::*;

use crate::config::{default_rename, ConfigView, CoreView, UsageError};
use crate::parse::{
    empty_partial, is_dest_flag, is_format_flag, is_playlist_flag, is_rename_flag, is_source_flag,
    parse_from, resolution_of, scan_from, structured_parse, PartialView, ResolutionView,
};
use crate::registry::{default_tokens, first_match, lemma_first_match};

verus! {

/// The scanner finds a command exactly when some argument at or after `i`
/// equals a registered token, and the index it returns is a registry index.
pub proof fn lemma_scan_from(args: Seq<Seq<char>>, tokens: Seq<Seq<char>>, i: int)
    requires
        0 <= i,
    ensures
        (scan_from(args, tokens, i) is Some) <==> exists|k: int|
            i <= k < args.len() && tokens.contains(args[k]),
        scan_from(args, tokens, i) matches Some(j) ==> 0 <= j < tokens.len(),
    decreases args.len() - i,
{
    if i < args.len() {
        lemma_first_match(tokens, args[i], 0);
        match first_match(tokens, args[i], 0) {
            Some(_) => {
                assert(tokens.contains(args[i]));
            },
            None => {
                lemma_scan_from(args, tokens, i + 1);
                assert(!tokens.contains(args[i]));
            },
        }
    }
}

/// A flag whose tokens never occur in `args[i..]` leaves its accumulator
/// field exactly as it stood, whatever else the parse does.
pub proof fn lemma_parse_untouched(args: Seq<Seq<char>>, i: int, acc: PartialView)
    ensures
        parse_from(args, i, acc) matches Ok(p) ==> {
            &&& (forall|k: int| i <= k < args.len() ==> !is_source_flag(args[k])) ==> p.source
                == acc.source
            &&& (forall|k: int| i <= k < args.len() ==> !is_dest_flag(args[k])) ==> p.dest
                == acc.dest
            &&& (forall|k: int| i <= k < args.len() ==> !is_rename_flag(args[k])) ==> {
                &&& p.rename_special == acc.rename_special
                &&& p.replacement_char == acc.replacement_char
                &&& p.special_characters == acc.special_characters
            }
        },
    decreases args.len() - i,
{
    if 0 <= i < args.len() {
        let a = args[i];
        if is_source_flag(a) {
            if !(acc.source is Some) && i + 1 < args.len() {
                lemma_parse_untouched(
                    args,
                    i + 2,
                    PartialView { source: Some(args[i + 1]), ..acc },
                );
            }
        } else if is_dest_flag(a) {
            if !(acc.dest is Some) && i + 1 < args.len() {
                lemma_parse_untouched(args, i + 2, PartialView { dest: Some(args[i + 1]), ..acc });
            }
        } else if is_playlist_flag(a) {
            if i + 1 < args.len() {
                lemma_parse_untouched(
                    args,
                    i + 2,
                    PartialView { playlists: acc.playlists.push(args[i + 1]), ..acc },
                );
            }
        } else if is_format_flag(a) {
            if i + 1 < args.len() {
                lemma_parse_untouched(
                    args,
                    i + 2,
                    PartialView { formats: acc.formats.push(args[i + 1]), ..acc },
                );
            }
        } else if a == "--rename-special"@ {
            if !acc.rename_special {
                lemma_parse_untouched(args, i + 1, PartialView { rename_special: true, ..acc });
            }
        } else if a == "--replacement-char"@ {
            if !(acc.replacement_char is Some) && i + 1 < args.len() && args[i + 1].len() == 1 {
                lemma_parse_untouched(
                    args,
                    i + 2,
                    PartialView { replacement_char: Some(args[i + 1][0]), ..acc },
                );
            }
        } else if a == "--special-characters"@ {
            if !(acc.special_characters is Some) && i + 1 < args.len() {
                lemma_parse_untouched(
                    args,
                    i + 2,
                    PartialView { special_characters: Some(args[i + 1]), ..acc },
                );
            }
        } else if a == "--list-codecs"@ {
            if !acc.list_codecs {
                lemma_parse_untouched(args, i + 1, PartialView { list_codecs: true, ..acc });
            }
        }
    }
}

/// Standalone-command precedence: a registered token anywhere after the
/// program name resolves to command dispatch — never a usage error — whatever
/// else the arguments hold and whether the required flags are present.
pub proof fn lemma_standalone_precedence(args: Seq<Seq<char>>, tokens: Seq<Seq<char>>)
    requires
        exists|k: int| 1 <= k < args.len() && tokens.contains(args[k]),
    ensures
        resolution_of(args, tokens) is Command,
{
    lemma_scan_from(args, tokens, 1);
}

/// With the registry this tool ships, `--list-codecs` anywhere after the
/// program name resolves to the command at index 0 — the codec-listing
/// action, whose status is 0 — even when required flags are missing.
pub proof fn lemma_list_codecs_short_circuits(args: Seq<Seq<char>>)
    requires
        exists|k: int| 1 <= k < args.len() && args[k] == "--list-codecs"@,
    ensures
        resolution_of(args, default_tokens()) == ResolutionView::Command(0),
{
    let k = choose|k: int| 1 <= k < args.len() && args[k] == "--list-codecs"@;
    assert(default_tokens()[0] == "--list-codecs"@);
    assert(default_tokens().contains(args[k]));
    lemma_scan_from(args, default_tokens(), 1);
    assert(scan_from(args, default_tokens(), 1) is Some);
}

/// Without a standalone token, an argument list in which the source flag (or
/// the destination flag) never occurs can only end in a usage error, never a
/// configuration.
pub proof fn lemma_missing_required_rejected(args: Seq<Seq<char>>, tokens: Seq<Seq<char>>)
    requires
        forall|k: int| 1 <= k < args.len() ==> !tokens.contains(args[k]),
        (forall|k: int| 1 <= k < args.len() ==> !is_source_flag(args[k])) || (forall|k: int|
            1 <= k < args.len() ==> !is_dest_flag(args[k])),
    ensures
        resolution_of(args, tokens) is Usage,
{
    lemma_scan_from(args, tokens, 1);
    lemma_parse_untouched(args, 1, empty_partial());
}

/// A configuration reached with no rename flag among the arguments carries
/// exactly the documented rename defaults: renaming off, `'_'` as the
/// replacement, and the fixed special-character set.
pub proof fn lemma_rename_defaults(args: Seq<Seq<char>>, tokens: Seq<Seq<char>>, c: ConfigView)
    requires
        forall|k: int| 1 <= k < args.len() ==> !is_rename_flag(args[k]),
        resolution_of(args, tokens) == ResolutionView::Config(c),
    ensures
        c.rename == default_rename(),
{
    lemma_parse_untouched(args, 1, empty_partial());
}

/// A minimal valid invocation: exactly `--source S --destination D` (with S
/// and D not registered as standalone tokens) resolves to a configuration
/// carrying S and D, no playlists, no formats, the rename defaults, and no
/// codec-listing request.
pub proof fn lemma_source_dest_exact(prog: Seq<char>, s: Seq<char>, d: Seq<char>)
    requires
        s != "--list-codecs"@,
        d != "--list-codecs"@,
    ensures
        resolution_of(seq![prog, "--source"@, s, "--destination"@, d], default_tokens())
            == ResolutionView::Config(
            ConfigView {
                core: CoreView {
                    source: s,
                    dest: d,
                    playlists: Seq::empty(),
                    formats: Seq::empty(),
                },
                rename: default_rename(),
                list_codecs: false,
            },
        ),
{
    let args = seq![prog, "--source"@, s, "--destination"@, d];
    let tokens = default_tokens();
    reveal_strlit("--source");
    reveal_strlit("--destination");
    reveal_strlit("--list-codecs");
    reveal_strlit("-s");
    reveal_strlit("-d");
    reveal_strlit("-p");
    reveal_strlit("--playlist");
    reveal_strlit("-f");
    reveal_strlit("--format");
    reveal_strlit("--rename-special");
    reveal_strlit("--replacement-char");
    reveal_strlit("--special-characters");
    // the scanner matches nothing: the two flags differ from the one token,
    // and the two values are ruled out by hypothesis
    assert(("--source"@).len() == 8);
    assert(("--list-codecs"@).len() == 13);
    assert(("--destination"@).len() == 13);
    assert(("--destination"@)[2] == 'd');
    assert(("--list-codecs"@)[2] == 'l');
    assert("--destination"@ != "--list-codecs"@);
    reveal_with_fuel(first_match, 3);
    reveal_with_fuel(scan_from, 6);
    reveal_with_fuel(parse_from, 4);
    assert(tokens.len() == 1);
    assert(args.len() == 5);
    assert(first_match(tokens, args[1], 0) is None);
    assert(first_match(tokens, args[2], 0) is None);
    assert(first_match(tokens, args[3], 0) is None);
    assert(first_match(tokens, args[4], 0) is None);
    assert(scan_from(args, tokens, 1) is None);
    // the structured parse takes the source at 1..2 and the destination at
    // 3..4, then finalizes with the defaults
    assert(is_source_flag(args[1]));
    assert(("-s"@).len() == 2);
    assert(("-d"@).len() == 2);
    assert(!is_source_flag(args[3]));
    assert(is_dest_flag(args[3]));
    let acc1 = PartialView { source: Some(s), ..empty_partial() };
    let acc2 = PartialView { dest: Some(d), ..acc1 };
    assert(parse_from(args, 5, acc2) == Ok::<PartialView, UsageError>(acc2));
    assert(parse_from(args, 3, acc1) == Ok::<PartialView, UsageError>(acc2));
    assert(parse_from(args, 1, empty_partial()) == Ok::<
        PartialView,
        UsageError,
    >(acc2));
    assert(structured_parse(args) is Ok);
}

} // verus!

