use command_bridge::error::BridgeError;
use command_bridge::response::{decode_response, response_from, ProcessOutcome};
use serde_json::Value;

fn outcome(exit_success: bool, stdout: &[u8], stderr: &[u8]) -> ProcessOutcome {
    ProcessOutcome { exit_success, stdout: stdout.to_vec(), stderr: stderr.to_vec() }
}

#[test]
fn a_json_line_is_the_result() {
    let result = decode_response(&outcome(true, b"{\"count\": 2, \"items\": [\"a\", null]}\n", b""));
    let mut expected = serde_json::Map::new();
    expected.insert("count".to_string(), Value::from(2));
    expected
        .insert("items".to_string(), Value::Array(vec![Value::String("a".to_string()), Value::Null]));
    assert_eq!(result, Ok(Value::Object(expected)));
}

#[test]
fn diagnostics_on_standard_error_do_not_spoil_a_result() {
    let result = decode_response(&outcome(true, b"true", b"warning: slow query\n"));
    assert_eq!(result, Ok(Value::Bool(true)));
}

#[test]
fn output_that_is_not_json_is_a_format_error_with_the_output() {
    let result = decode_response(&outcome(true, b"Hello, world\n", b""));
    assert_eq!(
        result,
        Err(BridgeError::ResponseFormat {
            diagnostic: "expected value at line 1 column 1".to_string(),
            raw_output: "Hello, world\n".to_string(),
        })
    );
    assert_eq!(
        result.unwrap_err().message(),
        "Failed to parse Python response: expected value at line 1 column 1 - Output: Hello, world\n"
    );
}

#[test]
fn empty_output_is_a_format_error() {
    let result = decode_response(&outcome(true, b"", b""));
    match result {
        Err(BridgeError::ResponseFormat { diagnostic, raw_output }) => {
            assert_eq!(raw_output, "");
            assert_eq!(diagnostic, "EOF while parsing a value at line 1 column 0");
        }
        other => panic!("unexpected result: {:?}", other),
    }
}

#[test]
fn text_before_the_json_line_is_a_format_error() {
    let result = decode_response(&outcome(true, b"loading...\n{\"ok\": true}\n", b""));
    match result {
        Err(BridgeError::ResponseFormat { raw_output, .. }) => {
            assert_eq!(raw_output, "loading...\n{\"ok\": true}\n");
        }
        other => panic!("unexpected result: {:?}", other),
    }
}

#[test]
fn a_failed_process_is_a_backend_error_with_its_standard_error() {
    let result = decode_response(&outcome(false, b"", b"ValueError: bad date\n"));
    assert_eq!(result, Err(BridgeError::Backend("ValueError: bad date\n".to_string())));
    assert_eq!(result.unwrap_err().message(), "Python error: ValueError: bad date\n");
}

#[test]
fn the_output_of_a_failed_process_is_discarded() {
    let result = decode_response(&outcome(false, b"{\"ok\": true}", b"boom"));
    assert_eq!(result, Err(BridgeError::Backend("boom".to_string())));
    let silent = decode_response(&outcome(false, b"{\"ok\": true}", b""));
    assert_eq!(silent, Err(BridgeError::Backend(String::new())));
}

#[test]
fn bytes_that_are_not_utf8_are_replaced() {
    let failed = decode_response(&outcome(false, b"", b"bad \xff byte"));
    assert_eq!(failed, Err(BridgeError::Backend("bad \u{fffd} byte".to_string())));
    let garbled = decode_response(&outcome(true, b"\xff", b""));
    match garbled {
        Err(BridgeError::ResponseFormat { raw_output, .. }) => assert_eq!(raw_output, "\u{fffd}"),
        other => panic!("unexpected result: {:?}", other),
    }
}

#[test]
fn text_outside_ascii_is_decoded() {
    let result = decode_response(&outcome(true, "\"caf\u{e9}\"".as_bytes(), b""));
    assert_eq!(result, Ok(Value::String("caf\u{e9}".to_string())));
}

#[test]
fn a_value_that_was_read_is_returned_as_it_is() {
    let value = Value::Array(vec![Value::from(1), Value::from(2)]);
    assert_eq!(response_from("[1,2]".to_string(), Ok(value.clone())), Ok(value));
}

#[test]
fn a_failed_read_keeps_the_output_and_the_complaint() {
    assert_eq!(
        response_from("[1,".to_string(), Err("EOF while parsing a value".to_string())),
        Err(BridgeError::ResponseFormat {
            diagnostic: "EOF while parsing a value".to_string(),
            raw_output: "[1,".to_string(),
        })
    );
}

#[test]
fn the_complaint_names_what_is_wrong_and_where() {
    let cases: Vec<(&[u8], &str)> = vec![
        (b"[1,", "EOF while parsing a value at line 1 column 3"),
        (b"{\"a\" 1}", "expected `:` at line 1 column 6"),
        (b"1 2", "trailing characters at line 1 column 3"),
        (b"\n\n  oops", "expected value at line 3 column 3"),
    ];
    for (stdout, complaint) in cases {
        match decode_response(&outcome(true, stdout, b"")) {
            Err(BridgeError::ResponseFormat { diagnostic, raw_output }) => {
                assert_eq!(diagnostic, complaint);
                assert_eq!(raw_output.as_bytes(), stdout);
            }
            other => panic!("unexpected result: {:?}", other),
        }
    }
}

#[test]
fn equal_outcomes_give_equal_results() {
    for (exit_success, stdout, stderr) in [
        (true, &b"{\"ok\": true}"[..], &b""[..]),
        (true, &b"oops"[..], &b"warn"[..]),
        (false, &b"1"[..], &b"boom"[..]),
    ] {
        let first = decode_response(&outcome(exit_success, stdout, stderr));
        let second = decode_response(&outcome(exit_success, stdout, stderr));
        assert_eq!(first, second);
    }
}
