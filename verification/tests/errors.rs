use clipman::error::{ClipboardError, ClipmanError, IoFailure};

#[test]
fn each_error_has_its_words() {
    assert_eq!(ClipmanError::IndexNotFound.message(), "index not found");
    assert_eq!(ClipmanError::Deserialization.message(), "failed to deserialize Clipboard");
    assert_eq!(ClipmanError::Serialization.message(), "failed to serialize Clipboard");
    assert_eq!(ClipmanError::Io(IoFailure::NotFound).message(), "file not found");
    assert_eq!(
        ClipmanError::Io(IoFailure::Other("Permission denied (os error 13)".to_owned())).message(),
        "Permission denied (os error 13)"
    );
    assert_eq!(ClipmanError::Notification("no bus".to_owned()).message(), "no bus");
    assert_eq!(ClipmanError::OutOfTurn.message(), "event out of turn");
}

#[test]
fn each_clipboard_failure_has_its_words() {
    assert_eq!(
        ClipboardError::ContentNotAvailable.message(),
        "clipboard content not available"
    );
    assert_eq!(ClipboardError::ClipboardNotSupported.message(), "clipboard not supported");
    assert_eq!(ClipboardError::ClipboardOccupied.message(), "clipboard occupied");
    assert_eq!(ClipboardError::ConversionFailure.message(), "clipboard conversion failure");
    assert_eq!(ClipboardError::Unknown("odd".to_owned()).message(), "odd");
    assert_eq!(
        ClipmanError::Clipboard(ClipboardError::ClipboardOccupied).message(),
        "clipboard occupied"
    );
}
