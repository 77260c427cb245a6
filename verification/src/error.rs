//! The error type shared by the library's fallible operations.
use vstd::prelude::*;
use crate::text::has_prefix;

verus! {

/// `std::io::Error`, carried through unchanged.
#[verifier::external_type_specification]
#[verifier::external_body]
pub struct ExIoError(std::io::Error);

/// Application error type.
#[derive(Debug)]
pub enum Error {
    Io(std::io::Error),
    Config(String),
    Physics(String),
    Render(String),
    Wallpaper(String),
    /// A configuration file that TOML could not read, with the parser's report.
    TomlParse(String),
    /// A JSON document that could not be read, with the parser's report.
    Json(String),
    InvalidArgument(String),
    NotFound(String),
    Validation(String),
    Unknown(String),
}

/// Result type alias for application errors.
pub type Result<T> = std::result::Result<T, Error>;

/// The text `std::io::Error`'s `Display` writes for `e`.
///
/// Nothing is stated of the text: the operating system supplies it.
#[verifier::external_body]
pub(crate) fn io_error_text(e: &std::io::Error) -> String {
    e.to_string()
}

/// The prefix each variant's message begins with.
pub open spec fn error_prefix(e: &Error) -> Seq<char> {
    match e {
        Error::Io(_) => "IO error: "@,
        Error::Config(_) => "Configuration error: "@,
        Error::Physics(_) => "Physics simulation error: "@,
        Error::Render(_) => "Rendering error: "@,
        Error::Wallpaper(_) => "Wallpaper integration error: "@,
        Error::TomlParse(_) => "TOML parsing error: "@,
        Error::Json(_) => "JSON error: "@,
        Error::InvalidArgument(_) => "Invalid argument: "@,
        Error::NotFound(_) => "Not found: "@,
        Error::Validation(_) => "Validation error: "@,
        Error::Unknown(_) => "Unknown error: "@,
    }
}

impl Error {
    /// The message this error displays: the variant's prefix, then its text.
    /// For an I/O error the text after the prefix is the operating system's.
    pub fn message(&self) -> (s: String)
        ensures
            has_prefix(s@, error_prefix(self)),
            match self {
                Error::Config(d) => s@ == error_prefix(self) + d@,
                Error::Physics(d) => s@ == error_prefix(self) + d@,
                Error::Render(d) => s@ == error_prefix(self) + d@,
                Error::Wallpaper(d) => s@ == error_prefix(self) + d@,
                Error::InvalidArgument(d) => s@ == error_prefix(self) + d@,
                Error::NotFound(d) => s@ == error_prefix(self) + d@,
                Error::Validation(d) => s@ == error_prefix(self) + d@,
                Error::Unknown(d) => s@ == error_prefix(self) + d@,
                Error::TomlParse(d) => s@ == error_prefix(self) + d@,
                Error::Json(d) => s@ == error_prefix(self) + d@,
                Error::Io(_) => true,
            },
    {
        let (mut s, detail) = match self {
            Error::Io(e) => (String::from_str("IO error: "), io_error_text(e)),
            Error::Config(d) => (String::from_str("Configuration error: "), d.clone()),
            Error::Physics(d) => (String::from_str("Physics simulation error: "), d.clone()),
            Error::Render(d) => (String::from_str("Rendering error: "), d.clone()),
            Error::Wallpaper(d) => (String::from_str("Wallpaper integration error: "), d.clone()),
            Error::TomlParse(d) => (String::from_str("TOML parsing error: "), d.clone()),
            Error::Json(d) => (String::from_str("JSON error: "), d.clone()),
            Error::InvalidArgument(d) => (String::from_str("Invalid argument: "), d.clone()),
            Error::NotFound(d) => (String::from_str("Not found: "), d.clone()),
            Error::Validation(d) => (String::from_str("Validation error: "), d.clone()),
            Error::Unknown(d) => (String::from_str("Unknown error: "), d.clone()),
        };
        let ghost p = s@;
        s.append(detail.as_str());
        assert(s@.take(p.len() as int) =~= p);
        s
    }
}

} // verus!
