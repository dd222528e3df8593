//! The error taxonomy shared by loading and saving.

use vstd::prelude::*;

verus! {

/// Everything that can go wrong while a configuration is loaded or saved.
///
/// Which of the three kinds an error is tells the caller what happened; the
/// optional text only adds detail for a human reader.
#[derive(Debug)]
pub enum Error {
    /// The configuration could not be loaded. A handle without an origin path
    /// also answers a save with this kind, and then without a message.
    ConfigLoadError(Option<String>),
    /// The file extension names no supported format. The message is the
    /// extension as it stands in the path; it is absent when the path has no
    /// extension at all.
    UnknownFileExtension(Option<String>),
    /// Reading or writing the file failed, or the codec rejected the text or
    /// the value. The message is the one the failing party gave.
    SerializationError(Option<String>),
}

/// The mathematical value of an [`Error`]: its kind, and its message as a
/// sequence of characters.
pub enum ErrorView {
    ConfigLoadError(Option<Seq<char>>),
    UnknownFileExtension(Option<Seq<char>>),
    SerializationError(Option<Seq<char>>),
}

/// The view of an optional message.
pub open spec fn message_view(message: Option<String>) -> Option<Seq<char>> {
    match message {
        Some(text) => Some(text@),
        None => None,
    }
}

/// The view of an optional text.
pub open spec fn text_view(text: Option<&str>) -> Option<Seq<char>> {
    match text {
        Some(text) => Some(text@),
        None => None,
    }
}

/// The view of a result whose error is an [`Error`]: the value as it is, the
/// error by its view.
pub open spec fn outcome_view<V>(outcome: Result<V, Error>) -> Result<V, ErrorView> {
    match outcome {
        Ok(value) => Ok(value),
        Err(error) => Err(error@),
    }
}

impl View for Error {
    type V = ErrorView;

    open spec fn view(&self) -> ErrorView {
        match *self {
            Error::ConfigLoadError(message) => ErrorView::ConfigLoadError(message_view(message)),
            Error::UnknownFileExtension(message) => ErrorView::UnknownFileExtension(
                message_view(message),
            ),
            Error::SerializationError(message) => ErrorView::SerializationError(
                message_view(message),
            ),
        }
    }
}

impl ErrorView {
    /// The name under which the kind is printed.
    pub open spec fn label(self) -> Seq<char> {
        match self {
            ErrorView::ConfigLoadError(_) => "opzioni::ConfigLoadError"@,
            ErrorView::UnknownFileExtension(_) => "opzioni::UnknownFileExtension"@,
            ErrorView::SerializationError(_) => "opzioni::SerializationError"@,
        }
    }

    /// The message, if the error carries one.
    pub open spec fn detail(self) -> Option<Seq<char>> {
        match self {
            ErrorView::ConfigLoadError(message) => message,
            ErrorView::UnknownFileExtension(message) => message,
            ErrorView::SerializationError(message) => message,
        }
    }

    /// The printed form: the label, followed by a colon, a space and the
    /// message where there is one.
    pub open spec fn text(self) -> Seq<char> {
        match self.detail() {
            Some(message) => self.label() + ": "@ + message,
            None => self.label(),
        }
    }
}

impl Error {
    /// The printed form of the error, for logs and diagnostics.
    pub fn to_string(&self) -> (text: String)
        ensures
            text@ == self@.text(),
    {
        let (label, detail) = match self {
            Error::ConfigLoadError(message) => ("opzioni::ConfigLoadError", message),
            Error::UnknownFileExtension(message) => ("opzioni::UnknownFileExtension", message),
            Error::SerializationError(message) => ("opzioni::SerializationError", message),
        };
        let mut text = String::from_str(label);
        match detail {
            Some(message) => {
                text.append(": ");
                text.append(message.as_str());
            },
            None => {},
        }
        text
    }
}

} // verus!
