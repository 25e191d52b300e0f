//! Serial framing: the eight-digit length header and the wire form.
use lambdo::agent::comms::Message;

#[test]
fn new_message_well_encoded() {
    let message_data = "Hello world".to_string();
    let message = Message::new(message_data);
    assert_eq!(
        message.message,
        [72, 101, 108, 108, 111, 32, 119, 111, 114, 108, 100]
    );
    assert_eq!(message.message_size, [48, 48, 48, 48, 48, 48, 49, 49]);

    assert_eq!(
        message.to_bytes(),
        [48, 48, 48, 48, 48, 48, 49, 49, 72, 101, 108, 108, 111, 32, 119, 111, 114, 108, 100]
    );
}

#[test]
fn message_size_badly_encoded() {
    let message_data = "Hello world".to_string();
    let message = Message::new(message_data);
    assert_eq!(
        message.message,
        [72, 101, 108, 108, 111, 32, 119, 111, 114, 108, 100]
    );
    // should be 11, is 12
    assert_ne!(message.message_size, [48, 48, 48, 48, 48, 48, 49, 50]);
}

#[test]
fn empty_message_has_zero_header() {
    let message = Message::new(String::new());
    assert_eq!(message.message.len(), 0);
    assert_eq!(message.message_size, [48, 48, 48, 48, 48, 48, 48, 48]);
    assert_eq!(message.to_bytes(), [48, 48, 48, 48, 48, 48, 48, 48]);
}

#[test]
fn multibyte_text_is_counted_in_bytes() {
    // One two-byte character: the header counts bytes, not characters.
    let message = Message::new("é".to_string());
    assert_eq!(message.message.len(), 2);
    assert_eq!(message.message_size, [48, 48, 48, 48, 48, 48, 48, 50]);
}
