//! The errors of the conversion handle.

use vstd::prelude::*;

verus! {

/// Represents all errors that may occur
#[derive(Debug)]
pub enum OpenCCError {
    /// Occurs when the supplied path cannot be handed to the engine as a C string: it is not
    /// UTF-8, or it contains internal NULL characters.
    InvalidConfigPath,
    /// Occurs when the engine cannot be initialized with the given configuration file.
    /// This usually means that the configuration file path is wrong, or the file contents are
    /// malformed. The String contains the engine's own account of the failure.
    NewInstanceFailed(String),
    /// Occurs when the input string to be converted contains an internal NULL character.
    InputContainsNull,
    /// The engine reported an error during string conversion.
    /// The String contains the engine's own account of the failure.
    ConversionFailed(String),
    /// Occurs when the engine returns an illegal UTF-8 byte sequence.
    InvalidUtf8,
}

/// An [`OpenCCError`] with its texts as sequences of characters.
pub enum OpenCCErrorView {
    InvalidConfigPath,
    NewInstanceFailed(Seq<char>),
    InputContainsNull,
    ConversionFailed(Seq<char>),
    InvalidUtf8,
}

impl View for OpenCCError {
    type V = OpenCCErrorView;

    open spec fn view(&self) -> OpenCCErrorView {
        match self {
            OpenCCError::InvalidConfigPath => OpenCCErrorView::InvalidConfigPath,
            OpenCCError::NewInstanceFailed(details) => OpenCCErrorView::NewInstanceFailed(details@),
            OpenCCError::InputContainsNull => OpenCCErrorView::InputContainsNull,
            OpenCCError::ConversionFailed(details) => OpenCCErrorView::ConversionFailed(details@),
            OpenCCError::InvalidUtf8 => OpenCCErrorView::InvalidUtf8,
        }
    }
}

/// A result with its value and its error taken by their views.
pub open spec fn outcome<T: View, E: View>(result: Result<T, E>) -> Result<T::V, E::V> {
    match result {
        Ok(value) => Ok(value@),
        Err(error) => Err(error@),
    }
}

impl OpenCCErrorView {
    /// The text that describes the error to a reader.
    pub open spec fn message(self) -> Seq<char> {
        match self {
            OpenCCErrorView::InvalidConfigPath =>
                "The configuration file path contains invalid characters"@,
            OpenCCErrorView::NewInstanceFailed(details) =>
                "Failed to create OpenCC instance: "@ + details,
            OpenCCErrorView::InputContainsNull =>
                "The input string contains an invalid NULL character"@,
            OpenCCErrorView::ConversionFailed(details) => "OpenCC conversion failed: "@ + details,
            OpenCCErrorView::InvalidUtf8 => "OpenCC returned an invalid UTF-8 sequence"@,
        }
    }
}

impl OpenCCError {
    /// The text that describes the error to a reader.
    pub fn message(&self) -> (text: String)
        ensures
            text@ == self@.message(),
    {
        match self {
            OpenCCError::InvalidConfigPath => String::from_str(
                "The configuration file path contains invalid characters",
            ),
            OpenCCError::NewInstanceFailed(details) => String::from_str(
                "Failed to create OpenCC instance: ",
            ).concat(details.as_str()),
            OpenCCError::InputContainsNull => String::from_str(
                "The input string contains an invalid NULL character",
            ),
            OpenCCError::ConversionFailed(details) => String::from_str(
                "OpenCC conversion failed: ",
            ).concat(details.as_str()),
            OpenCCError::InvalidUtf8 => String::from_str(
                "OpenCC returned an invalid UTF-8 sequence",
            ),
        }
    }
}

} // verus!
