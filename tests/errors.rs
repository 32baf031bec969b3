use rtoolkit::{
    FontFailure, IntegerOrBackendFailure, TextInitFailure, TextureFailure, ToolkitError,
    WindowBuildFailure,
};

#[test]
fn plain_message_becomes_backend_error() {
    let e = ToolkitError::from(String::from("no video device"));
    assert!(matches!(e, ToolkitError::BackendError(ref s) if s == "no video device"));
}

#[test]
fn window_build_failure_becomes_backend_error() {
    let e = ToolkitError::from(WindowBuildFailure { description: String::from("bad title") });
    assert!(matches!(e, ToolkitError::BackendError(ref s) if s == "bad title"));
}

#[test]
fn integer_overflow_maps_to_integer_overflow() {
    let e = ToolkitError::from(IntegerOrBackendFailure::IntegerOverflows("width", 4_000_000_000));
    assert!(matches!(e, ToolkitError::IntegerOverflow));
}

#[test]
fn integer_or_backend_backend_side_keeps_message() {
    let e = ToolkitError::from(IntegerOrBackendFailure::Backend(String::from("renderer lost")));
    assert!(matches!(e, ToolkitError::BackendError(ref s) if s == "renderer lost"));
}

#[test]
fn text_init_already_initialized() {
    let e = ToolkitError::from(TextInitFailure::AlreadyInitialized);
    assert!(matches!(e, ToolkitError::AlreadyInitialized));
}

#[test]
fn text_init_io_fault_keeps_error() {
    let io = std::io::Error::new(std::io::ErrorKind::Other, "disk gone");
    let e = ToolkitError::from(TextInitFailure::Io(io));
    match e {
        ToolkitError::TextSubsystemIOError(err) => {
            assert_eq!(err.kind(), std::io::ErrorKind::Other);
            assert_eq!(err.to_string(), "disk gone");
        }
        other => panic!("unexpected {:?}", other),
    }
}

#[test]
fn font_invalid_text() {
    let e = ToolkitError::from(FontFailure::InvalidLatin1Text);
    assert!(matches!(e, ToolkitError::InvalidText));
}

#[test]
fn font_backend_failure_keeps_message() {
    let e = ToolkitError::from(FontFailure::Backend(String::from("glyph missing")));
    assert!(matches!(e, ToolkitError::BackendError(ref s) if s == "glyph missing"));
}

#[test]
fn texture_width_overflow() {
    let e = ToolkitError::from(TextureFailure::WidthOverflows(u32::MAX));
    assert!(matches!(e, ToolkitError::IntegerOverflow));
}

#[test]
fn texture_height_overflow() {
    let e = ToolkitError::from(TextureFailure::HeightOverflows(u32::MAX));
    assert!(matches!(e, ToolkitError::IntegerOverflow));
}

#[test]
fn texture_width_not_even() {
    let e = ToolkitError::from(TextureFailure::WidthMustBeMultipleOfTwo(3));
    assert!(matches!(e, ToolkitError::DimensionNotEven));
}

#[test]
fn texture_backend_failure_keeps_message() {
    let e = ToolkitError::from(TextureFailure::Backend(String::from("out of memory")));
    assert!(matches!(e, ToolkitError::BackendError(ref s) if s == "out of memory"));
}

#[test]
fn messages_of_each_kind() {
    assert_eq!(ToolkitError::BackendError(String::from("x")).message(), "SDL Error: x");
    assert_eq!(ToolkitError::IntegerOverflow.message(), "Integer overflow");
    assert_eq!(ToolkitError::AlreadyInitialized.message(), "TTF context already initialized");
    assert_eq!(ToolkitError::DimensionNotEven.message(), "Input value not a multiple of two");
    assert_eq!(ToolkitError::InvalidText.message(), "Invalid input text");
    assert_eq!(ToolkitError::NoTabs.message(), "No tabs have been created");
}

#[test]
fn io_message_carries_error_text() {
    let io = std::io::Error::new(std::io::ErrorKind::Other, "disk gone");
    let m = ToolkitError::TextSubsystemIOError(io).message();
    assert_eq!(m, "SDL_ttf input/output Error: disk gone");
}
