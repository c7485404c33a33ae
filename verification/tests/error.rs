use wooting_sdk::WootingError;

#[test]
fn disconnected_error_message() {
    assert_eq!(
        WootingError::Disconnected.message(),
        "Wooting keyboard is not connected"
    );
}

#[test]
fn invalid_buffer_size_error_message() {
    assert_eq!(
        WootingError::InvalidBufferSize.message(),
        "Requested analog value of too many keys"
    );
}

#[test]
fn errors_compare_by_variant() {
    assert_eq!(WootingError::Disconnected, WootingError::Disconnected);
    assert_ne!(WootingError::Disconnected, WootingError::InvalidBufferSize);
}
