//! The errors that loading and matching can end in.

use vstd::prelude::*;

verus! {

/// A format that the loaders understand.
#[derive(Clone, Copy, Debug, PartialEq, Eq, Structural)]
pub enum Format {
    Json,
    Yaml,
    Csv,
}

impl Format {
    /// The lower-case name of the format.
    pub open spec fn label(self) -> Seq<char> {
        match self {
            Format::Json => "json"@,
            Format::Yaml => "yaml"@,
            Format::Csv => "csv"@,
        }
    }

    /// The document format that a file extension selects: JSON for `json`,
    /// YAML for `yaml` and `yml`, none for anything else. Letter case counts.
    pub open spec fn document_format(extension: Seq<char>) -> Option<Format> {
        if extension == "json"@ {
            Some(Format::Json)
        } else if extension == "yaml"@ || extension == "yml"@ {
            Some(Format::Yaml)
        } else {
            None
        }
    }

    /// The document format to read a file with, by its extension (the part
    /// of its name after the last dot): JSON for `json`, YAML for `yaml` and
    /// `yml`. Any other extension selects no format.
    pub fn of_extension(extension: &str) -> (f: Option<Format>)
        ensures
            f == Self::document_format(extension@),
    {
        let given = extension.to_owned();
        if given == "json".to_owned() {
            Some(Format::Json)
        } else if given == "yaml".to_owned() || given == "yml".to_owned() {
            Some(Format::Yaml)
        } else {
            None
        }
    }

    /// The lower-case name of the format: `"json"`, `"yaml"` or `"csv"`.
    pub fn name(self) -> (s: &'static str)
        ensures
            s@ == self.label(),
    {
        match self {
            Format::Json => "json",
            Format::Yaml => "yaml",
            Format::Csv => "csv",
        }
    }
}

/// What a [`ParseError`] holds, as mathematical values.
pub struct ParseErrorView {
    pub format: Format,
    pub message: Seq<char>,
}

/// Text that is not a document of the requested format.
#[derive(Clone, Debug, PartialEq, Eq)]
pub struct ParseError {
    /// The format that the text was read as.
    pub format: Format,
    /// The parser's own account of what is wrong.
    pub message: String,
}

impl View for ParseError {
    type V = ParseErrorView;

    open spec fn view(&self) -> ParseErrorView {
        ParseErrorView { format: self.format, message: self.message@ }
    }
}

impl ParseError {
    /// A parse error of `format` with the parser's `message`.
    pub fn new(format: Format, message: String) -> (e: ParseError)
        ensures
            e@ == (ParseErrorView { format, message: message@ }),
    {
        ParseError { format, message }
    }
}

/// What a [`LoadError`] holds, as mathematical values.
pub enum LoadErrorView {
    IoFailure { path: Seq<char>, reason: Seq<char> },
    DecodeFailure { format: Format, message: Seq<char> },
}

/// Why a file could not be loaded.
#[derive(Clone, Debug, PartialEq, Eq)]
pub enum LoadError {
    /// The file at `path` could not be read; `reason` is the system's own.
    IoFailure { path: String, reason: String },
    /// The file was read but its contents are not a document of `format`.
    DecodeFailure { format: Format, message: String },
}

impl View for LoadError {
    type V = LoadErrorView;

    open spec fn view(&self) -> LoadErrorView {
        match self {
            LoadError::IoFailure { path, reason } => LoadErrorView::IoFailure {
                path: path@,
                reason: reason@,
            },
            LoadError::DecodeFailure { format, message } => LoadErrorView::DecodeFailure {
                format: *format,
                message: message@,
            },
        }
    }
}

impl LoadError {
    /// The view of the load error that a parse error turns into.
    pub open spec fn decode_view(e: ParseErrorView) -> LoadErrorView {
        LoadErrorView::DecodeFailure { format: e.format, message: e.message }
    }

    /// The file at `path` could not be read, for `reason`.
    pub fn io_failure(path: &str, reason: String) -> (e: LoadError)
        ensures
            e@ == (LoadErrorView::IoFailure { path: path@, reason: reason@ }),
    {
        LoadError::IoFailure { path: path.to_owned(), reason }
    }

    /// The load error for contents that failed to parse: same format, same
    /// message.
    pub fn decode_failure(e: ParseError) -> (r: LoadError)
        ensures
            r@ == Self::decode_view(e@),
    {
        LoadError::DecodeFailure { format: e.format, message: e.message }
    }
}

/// What a [`CompileError`] holds, as mathematical values.
pub struct CompileErrorView {
    pub pattern: Seq<char>,
    pub message: Seq<char>,
}

/// A pattern that is not a valid regular expression.
#[derive(Clone, Debug, PartialEq, Eq)]
pub struct CompileError {
    /// The pattern as it was given.
    pub pattern: String,
    /// The compiler's own account of what is wrong.
    pub message: String,
}

impl View for CompileError {
    type V = CompileErrorView;

    open spec fn view(&self) -> CompileErrorView {
        CompileErrorView { pattern: self.pattern@, message: self.message@ }
    }
}

impl CompileError {
    /// The error for `pattern`, which the compiler refused with `message`.
    pub fn new(pattern: &str, message: String) -> (e: CompileError)
        ensures
            e@ == (CompileErrorView { pattern: pattern@, message: message@ }),
    {
        CompileError { pattern: pattern.to_owned(), message }
    }
}

/// A parse result with its error taken by view.
pub open spec fn parse_view<T>(r: Result<T, ParseError>) -> Result<T, ParseErrorView> {
    match r {
        Ok(value) => Ok(value),
        Err(e) => Err(e@),
    }
}

/// A load result with its error taken by view.
pub open spec fn load_view<T>(r: Result<T, LoadError>) -> Result<T, LoadErrorView> {
    match r {
        Ok(value) => Ok(value),
        Err(e) => Err(e@),
    }
}

/// What a load returns once the contents have been through the parser: the
/// parsed value as it is, or the parser's error as a decode failure.
pub open spec fn load_of_parse<T>(r: Result<T, ParseErrorView>) -> Result<T, LoadErrorView> {
    match r {
        Ok(value) => Ok(value),
        Err(e) => Err(LoadError::decode_view(e)),
    }
}

/// Turns what a parser returned into what a loader returns.
///
/// A parsed value is handed on untouched. A parse error becomes
/// [`LoadError::DecodeFailure`] with the same format and message.
pub fn into_load_result<T>(parsed: Result<T, ParseError>) -> (r: Result<T, LoadError>)
    ensures
        load_view(r) == load_of_parse(parse_view(parsed)),
{
    match parsed {
        Ok(value) => Ok(value),
        Err(e) => Err(LoadError::decode_failure(e)),
    }
}

} // verus!
