//! The ways in which an operation of the clipboard manager can fail.

use vstd::prelude::*;

verus! {

/// A failure reported by the file system about the store file.
#[derive(Debug, PartialEq)]
pub enum IoFailure {
    /// There is no file at the path.
    NotFound,
    /// Any other failure, with the cause as the system words it.
    Other(String),
}

/// The mathematical value of an [`IoFailure`].
pub enum IoFailureModel {
    NotFound,
    Other(Seq<char>),
}

impl View for IoFailure {
    type V = IoFailureModel;

    open spec fn view(&self) -> IoFailureModel {
        match self {
            IoFailure::NotFound => IoFailureModel::NotFound,
            IoFailure::Other(cause) => IoFailureModel::Other(cause@),
        }
    }
}

/// A failure of the operating system's clipboard.
#[derive(Debug, PartialEq)]
pub enum ClipboardError {
    /// The clipboard is empty, or does not hold the kind of content asked for.
    ContentNotAvailable,
    /// The selected clipboard is not supported on this system.
    ClipboardNotSupported,
    /// Another party holds the clipboard.
    ClipboardOccupied,
    /// The content could not be converted to or from the clipboard's format.
    ConversionFailure,
    /// Any other failure, with a description.
    Unknown(String),
}

/// The mathematical value of a [`ClipboardError`].
pub enum ClipboardErrorModel {
    ContentNotAvailable,
    ClipboardNotSupported,
    ClipboardOccupied,
    ConversionFailure,
    Unknown(Seq<char>),
}

impl View for ClipboardError {
    type V = ClipboardErrorModel;

    open spec fn view(&self) -> ClipboardErrorModel {
        match self {
            ClipboardError::ContentNotAvailable => ClipboardErrorModel::ContentNotAvailable,
            ClipboardError::ClipboardNotSupported => ClipboardErrorModel::ClipboardNotSupported,
            ClipboardError::ClipboardOccupied => ClipboardErrorModel::ClipboardOccupied,
            ClipboardError::ConversionFailure => ClipboardErrorModel::ConversionFailure,
            ClipboardError::Unknown(description) => ClipboardErrorModel::Unknown(description@),
        }
    }
}

/// Why a command of the clipboard manager failed.
#[derive(Debug, PartialEq)]
pub enum ClipmanError {
    /// The store file could not be read or written.
    Io(IoFailure),
    /// The store file does not hold a slot table.
    Deserialization,
    /// The slot table could not be turned into bytes that read back as it.
    Serialization,
    /// The slot asked for was never filled.
    IndexNotFound,
    /// The operating system's clipboard failed.
    Clipboard(ClipboardError),
    /// The desktop notification could not be shown.
    Notification(String),
    /// The session was handed an event that it had not asked for.
    OutOfTurn,
}

/// The mathematical value of a [`ClipmanError`].
pub enum ClipmanErrorModel {
    Io(IoFailureModel),
    Deserialization,
    Serialization,
    IndexNotFound,
    Clipboard(ClipboardErrorModel),
    Notification(Seq<char>),
    OutOfTurn,
}

impl View for ClipmanError {
    type V = ClipmanErrorModel;

    open spec fn view(&self) -> ClipmanErrorModel {
        match self {
            ClipmanError::Io(failure) => ClipmanErrorModel::Io(failure@),
            ClipmanError::Deserialization => ClipmanErrorModel::Deserialization,
            ClipmanError::Serialization => ClipmanErrorModel::Serialization,
            ClipmanError::IndexNotFound => ClipmanErrorModel::IndexNotFound,
            ClipmanError::Clipboard(failure) => ClipmanErrorModel::Clipboard(failure@),
            ClipmanError::Notification(cause) => ClipmanErrorModel::Notification(cause@),
            ClipmanError::OutOfTurn => ClipmanErrorModel::OutOfTurn,
        }
    }
}

impl ClipboardErrorModel {
    /// The words for a clipboard failure.
    pub open spec fn message(self) -> Seq<char> {
        match self {
            ClipboardErrorModel::ContentNotAvailable => "clipboard content not available"@,
            ClipboardErrorModel::ClipboardNotSupported => "clipboard not supported"@,
            ClipboardErrorModel::ClipboardOccupied => "clipboard occupied"@,
            ClipboardErrorModel::ConversionFailure => "clipboard conversion failure"@,
            ClipboardErrorModel::Unknown(description) => description,
        }
    }
}

impl ClipmanErrorModel {
    /// The words shown to the user for an error.
    pub open spec fn message(self) -> Seq<char> {
        match self {
            ClipmanErrorModel::Io(IoFailureModel::NotFound) => "file not found"@,
            ClipmanErrorModel::Io(IoFailureModel::Other(cause)) => cause,
            ClipmanErrorModel::Deserialization => "failed to deserialize Clipboard"@,
            ClipmanErrorModel::Serialization => "failed to serialize Clipboard"@,
            ClipmanErrorModel::IndexNotFound => "index not found"@,
            ClipmanErrorModel::Clipboard(failure) => failure.message(),
            ClipmanErrorModel::Notification(cause) => cause,
            ClipmanErrorModel::OutOfTurn => "event out of turn"@,
        }
    }
}

impl ClipboardError {
    /// The words for this failure.
    pub fn message(&self) -> (words: String)
        ensures
            words@ == self@.message(),
    {
        match self {
            ClipboardError::ContentNotAvailable => String::from_str(
                "clipboard content not available",
            ),
            ClipboardError::ClipboardNotSupported => String::from_str("clipboard not supported"),
            ClipboardError::ClipboardOccupied => String::from_str("clipboard occupied"),
            ClipboardError::ConversionFailure => String::from_str("clipboard conversion failure"),
            ClipboardError::Unknown(description) => description.clone(),
        }
    }
}

impl ClipmanError {
    /// The words shown to the user for this error.
    pub fn message(&self) -> (words: String)
        ensures
            words@ == self@.message(),
    {
        match self {
            ClipmanError::Io(IoFailure::NotFound) => String::from_str("file not found"),
            ClipmanError::Io(IoFailure::Other(cause)) => cause.clone(),
            ClipmanError::Deserialization => String::from_str("failed to deserialize Clipboard"),
            ClipmanError::Serialization => String::from_str("failed to serialize Clipboard"),
            ClipmanError::IndexNotFound => String::from_str("index not found"),
            ClipmanError::Clipboard(failure) => failure.message(),
            ClipmanError::Notification(cause) => cause.clone(),
            ClipmanError::OutOfTurn => String::from_str("event out of turn"),
        }
    }
}

} // verus!
