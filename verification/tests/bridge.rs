use clipman::bridge::{get_clipboard, set_clipboard, Fetch, Paste, Platform, Reading};
use clipman::content::{ClipContent, ImageData};
use clipman::error::ClipboardError;

fn pixels() -> ImageData {
    ImageData { width: 2, height: 2, data: (0u8..16).collect() }
}

#[test]
fn text_on_the_clipboard_is_the_content() {
    let next = get_clipboard(Reading::Text(Ok("hello".to_owned())));
    assert_eq!(next, Fetch::Done(Ok(ClipContent::Text("hello".to_owned()))));
}

#[test]
fn no_text_falls_back_to_the_image() {
    let next = get_clipboard(Reading::Text(Err(ClipboardError::ContentNotAvailable)));
    assert_eq!(next, Fetch::ReadImage);
    let next = get_clipboard(Reading::Image(Ok(pixels())));
    assert_eq!(next, Fetch::Done(Ok(ClipContent::Image(pixels()))));
}

#[test]
fn other_failures_of_the_text_read_do_not_fall_back() {
    let failures = [
        ClipboardError::ClipboardNotSupported,
        ClipboardError::ClipboardOccupied,
        ClipboardError::ConversionFailure,
        ClipboardError::Unknown("backend gone".to_owned()),
    ];
    for failure in failures {
        let expected = match &failure {
            ClipboardError::ClipboardNotSupported => ClipboardError::ClipboardNotSupported,
            ClipboardError::ClipboardOccupied => ClipboardError::ClipboardOccupied,
            ClipboardError::ConversionFailure => ClipboardError::ConversionFailure,
            ClipboardError::Unknown(description) => ClipboardError::Unknown(description.clone()),
            ClipboardError::ContentNotAvailable => ClipboardError::ContentNotAvailable,
        };
        assert_eq!(get_clipboard(Reading::Text(Err(failure))), Fetch::Done(Err(expected)));
    }
}

#[test]
fn a_failed_image_read_is_the_failure_of_the_whole() {
    let next = get_clipboard(Reading::Image(Err(ClipboardError::ContentNotAvailable)));
    assert_eq!(next, Fetch::Done(Err(ClipboardError::ContentNotAvailable)));
    let next = get_clipboard(Reading::Image(Err(ClipboardError::ConversionFailure)));
    assert_eq!(next, Fetch::Done(Err(ClipboardError::ConversionFailure)));
}

#[test]
fn a_write_waits_on_linux_only() {
    let text = ClipContent::Text("x".to_owned());
    assert_eq!(
        set_clipboard(&text, Platform::Linux),
        Paste { content: ClipContent::Text("x".to_owned()), wait: true }
    );
    assert_eq!(
        set_clipboard(&text, Platform::Other),
        Paste { content: ClipContent::Text("x".to_owned()), wait: false }
    );
    let image = ClipContent::Image(pixels());
    assert_eq!(
        set_clipboard(&image, Platform::Linux),
        Paste { content: ClipContent::Image(pixels()), wait: true }
    );
    assert_eq!(
        set_clipboard(&image, Platform::Other),
        Paste { content: ClipContent::Image(pixels()), wait: false }
    );
}
