use npio::cancellable::Cancellable;
use npio::error::IOErrorEnum;
use npio::iostream::StreamState;

#[test]
fn test_token_starts_armed() {
    let token = Cancellable::new();
    assert!(!token.is_cancelled());
    assert!(token.check().is_ok());
    assert!(!Cancellable::default().is_cancelled());
}

#[test]
fn test_cancel_is_final_and_idempotent() {
    let mut token = Cancellable::new();
    assert!(token.cancel());
    assert!(token.is_cancelled());
    assert!(!token.cancel());
    assert!(token.is_cancelled());
    let e = token.check().err().expect("the token is cancelled");
    assert_eq!(*e.kind(), IOErrorEnum::Cancelled);
    assert_eq!(e.message(), "Operation cancelled");
}

#[test]
fn test_stream_state() {
    let mut stream = StreamState::new();
    assert!(!stream.is_closed());
    assert!(stream.check_open().is_ok());
    assert!(stream.close());
    assert!(stream.is_closed());
    let e = stream.check_open().err().expect("the stream is closed");
    assert_eq!(*e.kind(), IOErrorEnum::Closed);
    // Closing twice is no error and changes nothing.
    assert!(!stream.close());
    assert!(stream.is_closed());
}
