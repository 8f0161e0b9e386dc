use rzw::error::ParseError;

#[test]
fn error_messages() {
    assert_eq!(ParseError::EmptyFrame.message(), "Message has no data");
    assert_eq!(ParseError::FrameTooShort.message(), "Message is too short");
}

#[test]
fn errors_compare_by_variant() {
    assert_eq!(ParseError::EmptyFrame, ParseError::EmptyFrame);
    assert_ne!(ParseError::EmptyFrame, ParseError::FrameTooShort);
}
