use wpopup::text_input::{
    ImeCapabilities, ImePurpose, ImeRequestError, ImeSurroundingText, ImeSurroundingTextError,
    MAX_TEXT_BYTES,
};

#[test]
fn surrounding_text_at_caret() {
    let s = ImeSurroundingText::new("foobar".to_string(), 3, 3).unwrap();
    assert_eq!(s.text(), "foobar");
    assert_eq!(s.cursor(), 3);
    assert_eq!(s.anchor(), 3);
    assert_eq!(s.clone().into_text(), "foobar".to_string());
}

#[test]
fn surrounding_text_ends_are_boundaries() {
    assert!(ImeSurroundingText::new("foobar".to_string(), 0, 6).is_ok());
    assert_eq!(
        ImeSurroundingText::new("foobar".to_string(), 7, 0),
        Err(ImeSurroundingTextError::CursorBadPosition)
    );
    assert_eq!(
        ImeSurroundingText::new("foobar".to_string(), 0, 7),
        Err(ImeSurroundingTextError::AnchorBadPosition)
    );
}

#[test]
fn surrounding_text_inside_a_code_point() {
    // "é" takes two bytes.
    let t = "aéb".to_string();
    assert!(ImeSurroundingText::new(t.clone(), 1, 3).is_ok());
    assert_eq!(
        ImeSurroundingText::new(t.clone(), 2, 1),
        Err(ImeSurroundingTextError::CursorBadPosition)
    );
    assert_eq!(
        ImeSurroundingText::new(t, 1, 2),
        Err(ImeSurroundingTextError::AnchorBadPosition)
    );
}

#[test]
fn surrounding_text_length_limit() {
    assert_eq!(MAX_TEXT_BYTES, 4000);
    assert!(ImeSurroundingText::new("x".repeat(3999), 0, 0).is_ok());
    assert_eq!(
        ImeSurroundingText::new("x".repeat(4000), 0, 0),
        Err(ImeSurroundingTextError::TextTooLong)
    );
    assert_eq!(
        ImeSurroundingText::new("x".repeat(5000), 9000, 0),
        Err(ImeSurroundingTextError::TextTooLong)
    );
}

#[test]
fn capabilities_toggle_independently() {
    let c = ImeCapabilities::new();
    assert!(!c.hint_and_purpose() && !c.cursor_area() && !c.surrounding_text());
    assert_eq!(c, ImeCapabilities::default());
    let c = c.with_cursor_area();
    assert!(c.cursor_area() && !c.hint_and_purpose() && !c.surrounding_text());
    let c = c.with_hint_and_purpose().with_surrounding_text();
    assert!(c.cursor_area() && c.hint_and_purpose() && c.surrounding_text());
    let c = c.without_cursor_area();
    assert!(!c.cursor_area() && c.hint_and_purpose() && c.surrounding_text());
    let c = c.without_hint_and_purpose().without_surrounding_text();
    assert_eq!(c, ImeCapabilities::new());
}

#[test]
fn purpose_defaults_to_normal() {
    assert_eq!(ImePurpose::default(), ImePurpose::Normal);
}

#[test]
fn request_error_messages() {
    assert_eq!(ImeRequestError::NotEnabled.message(), "ime is not enabled.");
    assert_eq!(ImeRequestError::AlreadyEnabled.message(), "ime is already enabled.");
    assert_eq!(ImeRequestError::NotSupported.message(), "ime is not supported.");
}
