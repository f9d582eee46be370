//! The ways in which a decode can be abandoned.

use vstd::prelude::*;
use vstd::string::StringExecFns;

verus! {

/// Why a decode was abandoned. The first error met ends the decode.
#[derive(Debug, PartialEq, Eq)]
pub enum DeserializationError {
    /// The input ended before a field was complete.
    CannotRead,
    /// A complete field was read but breaks a structural rule of the format.
    Parsing(String),
    /// An index into the constant pool is zero where an entry is required,
    /// lies outside the pool, or names an entry of the wrong variant; or a
    /// `Code` attribute holds no code.
    Link,
    /// The bytes of a `Utf8` entry are not valid UTF-8. The error tells
    /// where they stop being so.
    Encoding(std::string::FromUtf8Error),
}

/// Mathematical model of a [`DeserializationError`].
pub enum ErrorView {
    CannotRead,
    Parsing(Seq<char>),
    Link,
    Encoding,
}

impl DeepView for DeserializationError {
    type V = ErrorView;

    open spec fn deep_view(&self) -> ErrorView {
        match self {
            DeserializationError::CannotRead => ErrorView::CannotRead,
            DeserializationError::Parsing(message) => ErrorView::Parsing(message@),
            DeserializationError::Link => ErrorView::Link,
            DeserializationError::Encoding(_) => ErrorView::Encoding,
        }
    }
}

/// What a grammar function yields at a position of the input: the value
/// together with the position just behind it, or the error.
pub type Parsed<T> = Result<(T, int), ErrorView>;

/// The text shown for an error.
pub open spec fn spec_error_text(e: ErrorView) -> Seq<char> {
    match e {
        ErrorView::CannotRead => "Data stream error"@,
        ErrorView::Parsing(message) => "Unable to parse data: `"@ + message + "`"@,
        ErrorView::Link => "Link element index error."@,
        ErrorView::Encoding => "UTF-8 string parsing."@,
    }
}

impl DeserializationError {
    /// The text shown for this error.
    pub fn to_string(&self) -> (text: String)
        ensures
            text@ == spec_error_text(self.deep_view()),
    {
        match self {
            DeserializationError::CannotRead => "Data stream error".to_owned(),
            DeserializationError::Parsing(message) => {
                let mut text = "Unable to parse data: `".to_owned();
                text.append(message.as_str());
                text.append("`");
                text
            },
            DeserializationError::Link => "Link element index error.".to_owned(),
            DeserializationError::Encoding(_) => "UTF-8 string parsing.".to_owned(),
        }
    }
}

} // verus!
