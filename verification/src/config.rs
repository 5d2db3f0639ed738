//! The configuration types that a successful resolution produces, the usage
//! errors that a failed one reports, and their mathematical views.

use vstd::prelude::*;

verus! {

/// Why the structured parser rejected a raw argument list.
#[derive(Debug, Clone, Copy, PartialEq, Eq, Structural)]
pub enum UsageError {
    /// Neither `--source` nor `-s` appeared.
    MissingSource,
    /// Neither `--destination` nor `-d` appeared.
    MissingDestination,
    /// A value flag stood last, with no value after it.
    MissingValue,
    /// A non-repeatable flag appeared more than once.
    DuplicateFlag,
    /// `--replacement-char` was given a value that is not exactly one character.
    InvalidReplacementChar,
    /// A token that is neither a flag of the schema nor the value of one.
    UnexpectedArgument,
}

/// The mandatory and repeatable selection flags.
#[derive(Debug, PartialEq)]
pub struct CoreArgs {
    /// Source directory to copy files from.
    pub source: String,
    /// Destination directory to copy files to.
    pub dest: String,
    /// Playlists used to select files, in order of appearance; empty means
    /// all files are selected recursively (honored by the engine, not here).
    pub playlists: Vec<String>,
    /// Formats allowed at the destination, in order of appearance; empty
    /// means no transcoding takes place.
    pub formats: Vec<String>,
}

/// The filename-sanitization flags.
#[derive(Debug, PartialEq)]
pub struct RenameArgs {
    /// Rename special characters to support more restrictive file-systems.
    pub rename_special: bool,
    /// Character to replace special characters with.
    pub replacement_char: char,
    /// Characters that should be replaced, if renaming is enabled.
    pub special_characters: String,
}

/// A validated configuration: the successful outcome of resolution, handed
/// to the external copy/transcode engine.
#[derive(Debug, PartialEq)]
pub struct CommandLineArgs {
    pub core: CoreArgs,
    pub rename: RenameArgs,
    /// Accepted only so that a stray `--list-codecs` reaching the structured
    /// parser is not an error; the scanner, not this field, triggers the
    /// codec-listing action, and this value is never read.
    pub list_codecs: bool,
}

/// Mathematical view of `CoreArgs`.
pub struct CoreView {
    pub source: Seq<char>,
    pub dest: Seq<char>,
    pub playlists: Seq<Seq<char>>,
    pub formats: Seq<Seq<char>>,
}

/// Mathematical view of `RenameArgs`.
pub struct RenameView {
    pub rename_special: bool,
    pub replacement_char: char,
    pub special_characters: Seq<char>,
}

/// Mathematical view of `CommandLineArgs`.
pub struct ConfigView {
    pub core: CoreView,
    pub rename: RenameView,
    pub list_codecs: bool,
}

impl View for CoreArgs {
    type V = CoreView;

    open spec fn view(&self) -> CoreView {
        CoreView {
            source: self.source@,
            dest: self.dest@,
            playlists: self.playlists.deep_view(),
            formats: self.formats.deep_view(),
        }
    }
}

impl View for RenameArgs {
    type V = RenameView;

    open spec fn view(&self) -> RenameView {
        RenameView {
            rename_special: self.rename_special,
            replacement_char: self.replacement_char,
            special_characters: self.special_characters@,
        }
    }
}

impl View for CommandLineArgs {
    type V = ConfigView;

    open spec fn view(&self) -> ConfigView {
        ConfigView { core: self.core@, rename: self.rename@, list_codecs: self.list_codecs }
    }
}

/// The default replacement character.
pub open spec fn default_replacement_char() -> char {
    '_'
}

/// The default set of characters to replace.
pub open spec fn default_special_characters() -> Seq<char> {
    "\"*:<>?|\\"@
}

/// The rename settings produced when no rename flag is supplied.
pub open spec fn default_rename() -> RenameView {
    RenameView {
        rename_special: false,
        replacement_char: default_replacement_char(),
        special_characters: default_special_characters(),
    }
}

/// The default set of characters to replace, as a `String`.
pub fn default_special_chars() -> (r: String)
    ensures
        r@ == default_special_characters(),
{
    "\"*:<>?|\\".to_owned()
}

} // verus!
