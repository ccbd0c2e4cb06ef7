use bunko::BunkoError;

#[test]
fn to_string_prints_kind_and_message() {
    let error = BunkoError::CompressionError(String::from("engine said no"));
    assert_eq!(error.to_string(), "CompressionError(\"engine said no\")");
    let error = BunkoError::DecompressionError(String::from("corrupt deflate stream"));
    assert_eq!(error.to_string(), "DecompressionError(\"corrupt deflate stream\")");
    let error = BunkoError::Utf8Error(String::new());
    assert_eq!(error.to_string(), "Utf8Error(\"\")");
    let error = BunkoError::SerializationError(String::from("refused"));
    assert_eq!(error.to_string(), "SerializationError(\"refused\")");
    let error = BunkoError::DeserializationError(String::from("io error"));
    assert_eq!(error.to_string(), "DeserializationError(\"io error\")");
}

#[test]
fn to_string_escapes_as_debug_does() {
    let messages = ["plain", "with \"quotes\"", "tab\tand\nnewline", "back\\slash", "h\u{e9}", ""];
    for message in messages {
        let error = BunkoError::DeserializationError(String::from(message));
        assert_eq!(error.to_string(), format!("{:?}", error));
    }
    let error = BunkoError::Utf8Error(String::from("a \"b\"\n"));
    assert_eq!(error.to_string(), "Utf8Error(\"a \\\"b\\\"\\n\")");
}

#[test]
fn a_failed_conversion_becomes_a_utf8_error() {
    let failure = String::from_utf8(vec![b'o', b'k', 0xff]).unwrap_err();
    let words = failure.to_string();
    match BunkoError::from(failure) {
        BunkoError::Utf8Error(message) => {
            assert_eq!(message, words);
            assert_eq!(message, "invalid utf-8 sequence of 1 bytes from index 2");
        }
        other => panic!("unexpected: {:?}", other),
    }
}

#[test]
fn the_question_mark_converts() {
    fn read(bytes: Vec<u8>) -> Result<String, BunkoError> {
        Ok(String::from_utf8(bytes)?)
    }
    assert_eq!(read(vec![b'o', b'k']).unwrap(), "ok");
    assert!(matches!(read(vec![0xc0]), Err(BunkoError::Utf8Error(_))));
}
