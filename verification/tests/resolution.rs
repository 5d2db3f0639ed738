use mediasync::{
    default_registry, parse_args, parse_structured, CommandRegistry, Resolution, UsageError,
};

fn mk_args(raw: &[&str]) -> Vec<String> {
    raw.iter().map(|s| s.to_string()).collect()
}

fn resolve(raw: &[&str]) -> Resolution {
    let registry = default_registry();
    parse_args(&registry, &mk_args(raw))
}

#[test]
fn scanner_precedence_over_validation() {
    // missing --destination, yet the standalone command still wins
    match resolve(&["prog", "--list-codecs", "-s", "/x"]) {
        Resolution::Command(idx) => assert_eq!(idx, 0),
        other => panic!("expected command dispatch, got {:?}", other),
    }
}

#[test]
fn list_codecs_anywhere() {
    match resolve(&["prog", "-s", "/a", "-d", "/b", "--list-codecs"]) {
        Resolution::Command(idx) => assert_eq!(idx, 0),
        other => panic!("expected command dispatch, got {:?}", other),
    }
}

#[test]
fn program_name_is_not_a_command_token() {
    // the token in position 0 is the program name, never a command
    match resolve(&["--list-codecs"]) {
        Resolution::Usage(e) => assert!(matches!(e, UsageError::MissingSource)),
        other => panic!("expected usage error, got {:?}", other),
    }
}

#[test]
fn empty_invocation_is_missing_source() {
    match resolve(&[]) {
        Resolution::Usage(e) => assert!(matches!(e, UsageError::MissingSource)),
        other => panic!("expected usage error, got {:?}", other),
    }
}

#[test]
fn missing_source_rejected() {
    match resolve(&["prog", "-d", "/b"]) {
        Resolution::Usage(e) => assert!(matches!(e, UsageError::MissingSource)),
        other => panic!("expected usage error, got {:?}", other),
    }
}

#[test]
fn missing_destination_rejected() {
    match resolve(&["prog", "--source", "/a"]) {
        Resolution::Usage(e) => assert!(matches!(e, UsageError::MissingDestination)),
        other => panic!("expected usage error, got {:?}", other),
    }
}

#[test]
fn source_and_destination_resolved() {
    match resolve(&["prog", "--source", "/a", "--destination", "/b"]) {
        Resolution::Config(cfg) => {
            assert_eq!(cfg.core.source, "/a");
            assert_eq!(cfg.core.dest, "/b");
            assert!(cfg.core.playlists.is_empty());
            assert!(cfg.core.formats.is_empty());
        },
        other => panic!("expected configuration, got {:?}", other),
    }
}

#[test]
fn short_aliases_resolved() {
    match resolve(&["prog", "-s", "/a", "-d", "/b"]) {
        Resolution::Config(cfg) => {
            assert_eq!(cfg.core.source, "/a");
            assert_eq!(cfg.core.dest, "/b");
        },
        other => panic!("expected configuration, got {:?}", other),
    }
}

#[test]
fn playlists_preserve_order() {
    match resolve(&["prog", "-s", "/a", "-d", "/b", "-p", "a", "-p", "b", "-p", "c"]) {
        Resolution::Config(cfg) => {
            assert_eq!(cfg.core.playlists, vec!["a", "b", "c"]);
        },
        other => panic!("expected configuration, got {:?}", other),
    }
}

#[test]
fn formats_preserve_order() {
    match resolve(&["prog", "-s", "/a", "-d", "/b", "--format", "mp3", "-f", "ogg"]) {
        Resolution::Config(cfg) => {
            assert_eq!(cfg.core.formats, vec!["mp3", "ogg"]);
        },
        other => panic!("expected configuration, got {:?}", other),
    }
}

#[test]
fn rename_defaults_materialized() {
    match resolve(&["prog", "-s", "/a", "-d", "/b"]) {
        Resolution::Config(cfg) => {
            assert!(!cfg.rename.rename_special);
            assert_eq!(cfg.rename.replacement_char, '_');
            assert_eq!(cfg.rename.special_characters, "\"*:<>?|\\");
        },
        other => panic!("expected configuration, got {:?}", other),
    }
}

#[test]
fn rename_flags_resolved() {
    match resolve(&[
        "prog",
        "-s",
        "/a",
        "-d",
        "/b",
        "--rename-special",
        "--replacement-char",
        "x",
        "--special-characters",
        "abc",
    ]) {
        Resolution::Config(cfg) => {
            assert!(cfg.rename.rename_special);
            assert_eq!(cfg.rename.replacement_char, 'x');
            assert_eq!(cfg.rename.special_characters, "abc");
        },
        other => panic!("expected configuration, got {:?}", other),
    }
}

#[test]
fn two_character_replacement_rejected() {
    match resolve(&["prog", "-s", "/a", "-d", "/b", "--replacement-char", "ab"]) {
        Resolution::Usage(e) => assert!(matches!(e, UsageError::InvalidReplacementChar)),
        other => panic!("expected usage error, got {:?}", other),
    }
}

#[test]
fn empty_replacement_rejected() {
    match resolve(&["prog", "-s", "/a", "-d", "/b", "--replacement-char", ""]) {
        Resolution::Usage(e) => assert!(matches!(e, UsageError::InvalidReplacementChar)),
        other => panic!("expected usage error, got {:?}", other),
    }
}

#[test]
fn unknown_flag_rejected() {
    match resolve(&["prog", "-s", "/a", "-d", "/b", "--bogus"]) {
        Resolution::Usage(e) => assert!(matches!(e, UsageError::UnexpectedArgument)),
        other => panic!("expected usage error, got {:?}", other),
    }
}

#[test]
fn positional_argument_rejected() {
    match resolve(&["prog", "stray"]) {
        Resolution::Usage(e) => assert!(matches!(e, UsageError::UnexpectedArgument)),
        other => panic!("expected usage error, got {:?}", other),
    }
}

#[test]
fn trailing_value_flag_rejected() {
    match resolve(&["prog", "-d", "/b", "-s"]) {
        Resolution::Usage(e) => assert!(matches!(e, UsageError::MissingValue)),
        other => panic!("expected usage error, got {:?}", other),
    }
}

#[test]
fn duplicate_source_rejected() {
    match resolve(&["prog", "-s", "/a", "--source", "/c", "-d", "/b"]) {
        Resolution::Usage(e) => assert!(matches!(e, UsageError::DuplicateFlag)),
        other => panic!("expected usage error, got {:?}", other),
    }
}

#[test]
fn duplicate_rename_special_rejected() {
    match resolve(&["prog", "-s", "/a", "-d", "/b", "--rename-special", "--rename-special"]) {
        Resolution::Usage(e) => assert!(matches!(e, UsageError::DuplicateFlag)),
        other => panic!("expected usage error, got {:?}", other),
    }
}

#[test]
fn value_taken_verbatim() {
    // the token after a value flag is its value, even when it looks like a flag
    match resolve(&["prog", "-s", "--destination", "-d", "/b"]) {
        Resolution::Config(cfg) => {
            assert_eq!(cfg.core.source, "--destination");
            assert_eq!(cfg.core.dest, "/b");
        },
        other => panic!("expected configuration, got {:?}", other),
    }
}

#[test]
fn dummy_list_codecs_flag_parses() {
    // with no registered command, --list-codecs falls through to the
    // structured parser, which accepts it without acting on it
    let registry = CommandRegistry::new();
    let args = mk_args(&["prog", "--list-codecs", "-s", "/a", "-d", "/b"]);
    match parse_args(&registry, &args) {
        Resolution::Config(cfg) => {
            assert!(cfg.list_codecs);
            assert_eq!(cfg.core.source, "/a");
        },
        other => panic!("expected configuration, got {:?}", other),
    }
}

#[test]
fn structured_parse_alone() {
    let args = mk_args(&["prog", "-s", "/a", "-d", "/b"]);
    let cfg = parse_structured(&args).expect("valid input");
    assert_eq!(cfg.core.source, "/a");
    assert_eq!(cfg.core.dest, "/b");
}

#[test]
fn registry_refuses_duplicates() {
    let mut registry = CommandRegistry::new();
    assert!(registry.register("--alpha".to_string()));
    assert!(!registry.register("--alpha".to_string()));
    assert_eq!(registry.len(), 1);
}

#[test]
fn scanner_picks_leftmost_argument_match() {
    let mut registry = CommandRegistry::new();
    assert!(registry.register("--alpha".to_string()));
    assert!(registry.register("--beta".to_string()));
    // --beta stands first among the arguments, so its index wins
    let args = mk_args(&["prog", "--beta", "--alpha"]);
    match parse_args(&registry, &args) {
        Resolution::Command(idx) => assert_eq!(idx, 1),
        other => panic!("expected command dispatch, got {:?}", other),
    }
}

#[test]
fn default_registry_lists_codecs() {
    let registry = default_registry();
    assert_eq!(registry.len(), 1);
}
