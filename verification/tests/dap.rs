use den::dap::{
    breakpoint_message, dap_error_detail, dap_int_member, dap_json_as_display, dap_json_as_i64,
    float_value, prints_fraction, read_breakpoints, read_frames, read_scope_reference, read_threads,
    read_variables, DapBody, FloatReading,
};
use den::debug_state::{StackFrameSummary, ThreadSummary, VariableSummary};
use serde_json::Value;

fn json(text: &str) -> Value {
    serde_json::from_str(text).unwrap()
}

fn body(text: &str) -> DapBody {
    DapBody { json: json(text), floats: Vec::new() }
}

fn reading(text: &str, value: i64) -> FloatReading {
    FloatReading { text: String::from(text), value }
}

#[test]
fn whole_numbers_are_read_in_every_form() {
    let none: Vec<FloatReading> = Vec::new();
    assert_eq!(dap_json_as_i64(&json("7"), &none), Some(7));
    assert_eq!(dap_json_as_i64(&json("-7"), &none), Some(-7));
    assert_eq!(dap_json_as_i64(&json("\"17\""), &none), Some(17));
    assert_eq!(dap_json_as_i64(&json("\"x\""), &none), None);
    assert_eq!(dap_json_as_i64(&json("true"), &none), None);
    assert_eq!(dap_json_as_i64(&json("null"), &none), None);
    assert_eq!(dap_json_as_i64(&json("[1]"), &none), None);
    assert_eq!(dap_json_as_i64(&json("18446744073709551615"), &none), Some(i64::MAX));
}

#[test]
fn numbers_without_a_fraction_have_a_reading() {
    let huge = json("1e300").to_string();
    let floats = vec![reading("3.0", 3), reading(&huge, i64::MAX)];
    assert_eq!(dap_json_as_i64(&json("3.0"), &floats), Some(3));
    assert_eq!(dap_json_as_i64(&json("3.5"), &floats), None);
    assert_eq!(dap_json_as_i64(&json("4.0"), &floats), None);
    assert_eq!(dap_json_as_i64(&json("1e300"), &floats), Some(i64::MAX));
    assert_eq!(float_value(&floats, "3.0"), Some(3));
    assert_eq!(float_value(&floats, "3"), None);
}

#[test]
fn a_number_with_a_fraction_is_no_integer_whatever_its_reading() {
    for text in ["2.5", "-2.5", "0.1", "1e-7", "1.5e-300", "1234567.25", "0.00001"] {
        let value = json(text);
        let printed = value.to_string();
        assert!(prints_fraction(&printed), "{printed}");
        assert_eq!(dap_json_as_i64(&value, &vec![reading(&printed, 2)]), None, "{printed}");
    }
    for text in ["2.0", "-0.0", "10.0", "1e15", "9007199254740993.0", "1e16", "1.5e300"] {
        let value = json(text);
        let printed = value.to_string();
        assert!(!prints_fraction(&printed), "{printed}");
        let whole = value.as_f64().unwrap() as i64;
        assert_eq!(dap_json_as_i64(&value, &vec![reading(&printed, whole)]), Some(whole));
    }
    let none: Vec<FloatReading> = Vec::new();
    assert_eq!(dap_json_as_i64(&json("\"2.5\""), &none), None);
    assert_eq!(dap_json_as_i64(&json("{}"), &none), None);
}

#[test]
fn every_printed_number_has_a_fraction_where_the_number_has_one() {
    let mut bits: u64 = 1;
    for _ in 0..20000 {
        bits = bits.wrapping_mul(6364136223846793005).wrapping_add(1442695040888963407);
        let wild = f64::from_bits(bits);
        let near = (bits >> 11) as f64 / f64::from(1u32 << (bits % 32) as u32);
        for float in [wild, near] {
            if float.is_finite() {
                let printed = Value::from(float).to_string();
                assert_eq!(prints_fraction(&printed), float.fract() != 0.0, "{printed}");
            }
        }
    }
}

#[test]
fn integers_are_read_stored_written_or_shown() {
    let none: Vec<FloatReading> = Vec::new();
    for n in [i64::MIN, -1, 0, 1, 10, i64::MAX] {
        let stored = Value::from(n);
        assert_eq!(dap_json_as_i64(&stored, &none), Some(n));
        assert_eq!(dap_json_as_i64(&Value::from(n.to_string()), &none), Some(n));
        assert_eq!(dap_json_as_i64(&Value::from(dap_json_as_display(&stored)), &none), Some(n));
    }
}

#[test]
fn a_member_is_read_as_a_number() {
    let none: Vec<FloatReading> = Vec::new();
    assert_eq!(dap_int_member(&json("{\"threadId\": 5}"), "threadId", &none), Some(5));
    assert_eq!(dap_int_member(&json("{\"threadId\": \"5\"}"), "threadId", &none), Some(5));
    assert_eq!(dap_int_member(&json("{}"), "threadId", &none), None);
    assert_eq!(dap_int_member(&json("[]"), "threadId", &none), None);
}

#[test]
fn values_are_shown_without_quotes() {
    assert_eq!(dap_json_as_display(&json("\"a\\\"b\"")), "a\"b");
    assert_eq!(dap_json_as_display(&json("12")), "12");
    assert_eq!(dap_json_as_display(&json("1.5")), "1.5");
    assert_eq!(dap_json_as_display(&json("true")), "true");
    assert_eq!(dap_json_as_display(&json("null")), "");
    assert_eq!(dap_json_as_display(&json("[1, \"x\"]")), "[1,\"x\"]");
    assert_eq!(dap_json_as_display(&json("{\"a\": null}")), "{\"a\":null}");
}

#[test]
fn the_reason_of_a_refusal_is_found() {
    let with_format = json("{\"error\": {\"format\": \"why\", \"message\": \"what\"}}");
    assert_eq!(dap_error_detail("m", &with_format), "why");
    assert_eq!(dap_error_detail("m", &json("{\"error\": {\"message\": \"what\"}}")), "what");
    assert_eq!(dap_error_detail("m", &json("{\"error\": \"plain\"}")), "plain");
    assert_eq!(dap_error_detail("m", &json("{\"error\": 5}")), "m");
    assert_eq!(dap_error_detail("m", &json("{}")), "m");
    assert_eq!(dap_error_detail("", &json("{\"a\": 1}")), "{\"a\":1}");
}

#[test]
fn threads_are_read() {
    let read = read_threads(&body("{\"threads\": [{\"id\": 1, \"name\": \"main\"}, {\"id\": \"2\"}, {}]}"));
    assert_eq!(
        read,
        vec![
            ThreadSummary { id: 1, name: String::from("main") },
            ThreadSummary { id: 2, name: String::new() },
            ThreadSummary { id: 0, name: String::new() },
        ]
    );
    assert!(read_threads(&body("{}")).is_empty());
    assert!(read_threads(&body("{\"threads\": 3}")).is_empty());
}

#[test]
fn frames_are_read() {
    let read = read_frames(&body(
        "{\"stackFrames\": [{\"id\": 9, \"name\": \"f\", \"line\": 3, \"column\": 4,
          \"source\": {\"path\": \"/a.rs\"}}, {\"line\": \"3\", \"source\": {}}]}",
    ));
    assert_eq!(
        read,
        vec![
            StackFrameSummary {
                id: 9,
                name: String::from("f"),
                line: 3,
                column: 4,
                source_path: String::from("/a.rs"),
            },
            StackFrameSummary {
                id: 0,
                name: String::new(),
                line: 0,
                column: 0,
                source_path: String::new(),
            },
        ]
    );
}

#[test]
fn variables_are_read() {
    let read = read_variables(&body(
        "{\"variables\": [{\"name\": \"x\", \"value\": 5, \"type\": \"int\",
          \"variablesReference\": 11}, {\"name\": \"y\"}]}",
    ));
    assert_eq!(
        read,
        vec![
            VariableSummary {
                name: String::from("x"),
                value: String::from("5"),
                type_label: String::from("int"),
                variables_reference: 11,
            },
            VariableSummary {
                name: String::from("y"),
                value: String::new(),
                type_label: String::new(),
                variables_reference: 0,
            },
        ]
    );
}

#[test]
fn the_first_positive_scope_is_taken() {
    let read = |text: &str| read_scope_reference(&body(text));
    assert_eq!(
        read("{\"scopes\": [{\"variablesReference\": 0}, {\"variablesReference\": 8}]}"),
        8
    );
    assert_eq!(read("{\"scopes\": [{\"variablesReference\": -3}, {}]}"), -3);
    assert_eq!(read("{\"scopes\": [{}, {\"variablesReference\": -3}]}"), 0);
    assert_eq!(read("{\"scopes\": []}"), 0);
    assert_eq!(read("{}"), 0);
}

#[test]
fn breakpoints_are_counted() {
    let say = |text: &str| breakpoint_message(&read_breakpoints(&body(text)));
    assert_eq!(
        say("{\"breakpoints\": [{\"verified\": true}, {\"verified\": false, \"message\": \"no\"}]}"),
        Some(String::from("Breakpoints verified: 1/2"))
    );
    assert_eq!(
        say("{\"breakpoints\": [{}, {\"message\": \"no code\"}, {\"message\": \"other\"}]}"),
        Some(String::from("Breakpoints verified: 0/3 (no code)"))
    );
    assert_eq!(
        say("{\"breakpoints\": [{\"verified\": 1}]}"),
        Some(String::from("Breakpoints verified: 0/1"))
    );
    assert_eq!(say("{\"breakpoints\": []}"), None);
    assert_eq!(say("{}"), None);
    let report = read_breakpoints(&body("{\"breakpoints\": [{\"verified\": true, \"message\": \"m\"}]}"));
    assert_eq!((report.verified, report.total, report.reason), (1, 1, None));
}
