use post_service::error::{find_bytes, is_duplicate_key_message, MyError, DUPLICATE_KEY_MARKER};
use post_service::response::GenericResponse;

const DUPLICATE: &str = "Kind: Write error: WriteError { code: 11000, code_name: None, message: \"E11000 duplicate key error collection: firstDb.posts index: title_1 dup key: { title: \\\"A\\\" }\", details: None }, labels: {}";

#[test]
fn status_code_of_each_fault() {
    assert_eq!(MyError::InvalidIDError("x".to_string()).status_code(), 400);
    assert_eq!(MyError::NotFoundError("x".to_string()).status_code(), 404);
    assert_eq!(MyError::MongoDuplicateError("x".to_string()).status_code(), 409);
    assert_eq!(MyError::MongoQueryError("x".to_string()).status_code(), 500);
    assert_eq!(MyError::MongoError("x".to_string()).status_code(), 500);
    assert_eq!(MyError::MongoSerializeBsonError("x".to_string()).status_code(), 500);
}

#[test]
fn message_of_an_invalid_identifier_names_it() {
    let error = MyError::InvalidIDError("not-an-id".to_string());
    assert_eq!(error.message(), "invalid ID: not-an-id");
}

#[test]
fn message_of_a_missing_post_names_its_identifier() {
    let error = MyError::NotFoundError("650abc0123456789abcdefff".to_string());
    assert_eq!(error.message(), "Post with ID: 650abc0123456789abcdefff not found");
}

#[test]
fn message_of_a_duplicate_hides_the_words_of_the_store() {
    let error = MyError::MongoDuplicateError(DUPLICATE.to_string());
    assert_eq!(error.message(), "Post with that title already exists");
}

#[test]
fn message_of_other_faults_is_passed_through() {
    assert_eq!(MyError::MongoQueryError("cursor lost".to_string()).message(), "cursor lost");
    assert_eq!(MyError::MongoError("no route to host".to_string()).message(), "no route to host");
    assert_eq!(
        MyError::MongoSerializeBsonError("bad value".to_string()).message(),
        "bad value"
    );
}

#[test]
fn response_of_a_fault_has_the_status_fail() {
    let error = MyError::NotFoundError("abc".to_string());
    assert_eq!(
        error.response(),
        GenericResponse {
            status: "fail".to_string(),
            message: "Post with ID: abc not found".to_string(),
        }
    );
}

#[test]
fn duplicate_key_marker_is_the_text_of_the_store() {
    assert_eq!(DUPLICATE_KEY_MARKER, "E11000 duplicate key error collection");
}

#[test]
fn duplicate_key_message_is_recognised() {
    assert!(is_duplicate_key_message(DUPLICATE));
    assert!(is_duplicate_key_message("E11000 duplicate key error collection"));
    assert!(is_duplicate_key_message("ü E11000 duplicate key error collection: ü"));
}

#[test]
fn other_messages_are_no_duplicate_key_message() {
    assert!(!is_duplicate_key_message(""));
    assert!(!is_duplicate_key_message("E11000 duplicate key error"));
    assert!(!is_duplicate_key_message("e11000 duplicate key error collection"));
    assert!(!is_duplicate_key_message("E11000 duplicate key error  collection"));
    assert!(!is_duplicate_key_message("Kind: I/O error: connection reset"));
}

#[test]
fn find_bytes_finds_at_the_start_in_the_middle_and_at_the_end() {
    assert!(find_bytes(b"abcdef", b"abc"));
    assert!(find_bytes(b"abcdef", b"cd"));
    assert!(find_bytes(b"abcdef", b"def"));
    assert!(find_bytes(b"abcdef", b"abcdef"));
    assert!(find_bytes(b"aab", b"ab"));
}

#[test]
fn find_bytes_misses_what_is_not_there() {
    assert!(!find_bytes(b"abcdef", b"abd"));
    assert!(!find_bytes(b"abcdef", b"abcdefg"));
    assert!(!find_bytes(b"", b"a"));
    assert!(!find_bytes(b"abcdef", b"fa"));
}

#[test]
fn find_bytes_finds_the_empty_needle_everywhere() {
    assert!(find_bytes(b"abc", b""));
    assert!(find_bytes(b"", b""));
}
