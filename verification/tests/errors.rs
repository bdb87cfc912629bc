use dstore::error::{
    ErrorKind, Fault, CODE_ALREADY_EXISTS, CODE_INTERNAL, CODE_INVALID_ARGUMENT, CODE_NOT_FOUND,
    CODE_UNAVAILABLE,
};
use dstore::DstoreError;

#[test]
fn error_text_is_prefixed() {
    assert_eq!(DstoreError("Key occupied!".to_string()).to_string(), "dstore error: Key occupied!");
    assert_eq!(DstoreError(String::new()).to_string(), "dstore error: ");
}

#[test]
fn status_codes_are_the_usual_ones() {
    assert_eq!(CODE_INVALID_ARGUMENT, 3);
    assert_eq!(CODE_NOT_FOUND, 5);
    assert_eq!(CODE_ALREADY_EXISTS, 6);
    assert_eq!(CODE_INTERNAL, 13);
    assert_eq!(CODE_UNAVAILABLE, 14);
}

#[test]
fn kinds_have_codes() {
    assert_eq!(ErrorKind::NotFound.code(), 5);
    assert_eq!(ErrorKind::AlreadyExists.code(), 6);
    assert_eq!(ErrorKind::MalformedStream.code(), 3);
    assert_eq!(ErrorKind::UnknownNode.code(), 3);
    assert_eq!(ErrorKind::JoinFailed.code(), 13);
    assert_eq!(ErrorKind::CoordinatorUnreachable.code(), 14);
    assert_eq!(ErrorKind::Internal.code(), 13);
}

#[test]
fn codes_have_kinds() {
    assert_eq!(ErrorKind::from_code(5), ErrorKind::NotFound);
    assert_eq!(ErrorKind::from_code(6), ErrorKind::AlreadyExists);
    assert_eq!(ErrorKind::from_code(3), ErrorKind::MalformedStream);
    assert_eq!(ErrorKind::from_code(14), ErrorKind::CoordinatorUnreachable);
    assert_eq!(ErrorKind::from_code(13), ErrorKind::Internal);
    assert_eq!(ErrorKind::from_code(0), ErrorKind::Internal);
    assert_eq!(ErrorKind::from_code(2), ErrorKind::Internal);
    assert_eq!(ErrorKind::from_code(-1), ErrorKind::Internal);
}

#[test]
fn kinds_on_the_wire_come_back() {
    for kind in [
        ErrorKind::NotFound,
        ErrorKind::AlreadyExists,
        ErrorKind::MalformedStream,
        ErrorKind::CoordinatorUnreachable,
        ErrorKind::Internal,
    ] {
        assert_eq!(ErrorKind::from_code(kind.code()), kind);
    }
}

#[test]
fn faults_keep_kind_and_message() {
    let fault = Fault::new(ErrorKind::NotFound, "gone");
    assert_eq!(fault.kind, ErrorKind::NotFound);
    assert_eq!(fault.message, "gone");
    let fault = Fault::from_status(6, "taken".to_string());
    assert_eq!(fault, Fault { kind: ErrorKind::AlreadyExists, message: "taken".to_string() });
}
