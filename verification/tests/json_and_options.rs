use arnelify_native::config::{Http1Opts, WebSocketOpts};
use arnelify_native::decimal::{i64_to_decimal, u64_to_decimal};
use arnelify_native::headers::headers_from_json;
use arnelify_native::json::{parse_json, text_eq, JsonNumber, JsonValue};
use arnelify_native::options::{get_bool, get_str, get_u16, get_u64, get_u8, get_usize, OptionProblem};
use arnelify_native::text::{decode_c_string, ffi_error, invalid_json_detail, invalid_utf8_detail};

fn doc(text: &str) -> JsonValue {
    parse_json(text).expect("valid JSON")
}

#[test]
fn decodes_utf8_c_strings() {
    assert_eq!(decode_c_string(b"/index"), Some("/index".to_string()));
    assert_eq!(decode_c_string("héllo".as_bytes()), Some("héllo".to_string()));
    assert_eq!(decode_c_string(&[0x66, 0xff, 0x6f]), None);
    assert_eq!(decode_c_string(b""), Some(String::new()));
}

#[test]
fn builds_diagnostic_lines() {
    assert_eq!(
        ffi_error("http1_add_header", &invalid_utf8_detail("c_key")),
        "[Arnelify Server]: Rust FFI error in http1_add_header: Invalid UTF-8 in 'c_key'."
    );
    assert_eq!(
        ffi_error("ws_push", &invalid_json_detail("c_json")),
        "[Arnelify Server]: Rust FFI error in ws_push: Invalid JSON in 'c_json'."
    );
    assert_eq!(
        ffi_error("http3_end", "No stream found"),
        "[Arnelify Server]: Rust FFI error in http3_end: No stream found."
    );
}

#[test]
fn parses_json_documents() {
    assert!(parse_json("{\"a\": 1").is_none());
    assert!(parse_json("").is_none());
    assert!(parse_json("[1, 2] x").is_none());
    let v = doc("{\"port\": 4433, \"name\": \"srv\", \"tls\": true, \"neg\": -3, \"f\": 1.5}");
    assert_eq!(v.get("port").and_then(|p| p.as_u64()), Some(4433));
    assert_eq!(v.get("name").and_then(|p| p.as_str()), Some("srv"));
    assert_eq!(v.get("tls").and_then(|p| p.as_bool()), Some(true));
    assert_eq!(v.get("neg").and_then(|p| p.as_u64()), None);
    assert!(matches!(v.get("neg"), Some(JsonValue::Number(JsonNumber::NegInt(-3)))));
    assert!(matches!(v.get("f"), Some(JsonValue::Number(JsonNumber::Float(t))) if t == "1.5"));
    assert!(v.get("missing").is_none());
    assert!(doc("[1]").get("port").is_none());
}

#[test]
fn later_duplicate_member_wins() {
    let v = doc("{\"k\": 1, \"k\": 2}");
    assert_eq!(v.get("k").and_then(|p| p.as_u64()), Some(2));
}

#[test]
fn compares_texts() {
    assert!(text_eq("abc", "abc"));
    assert!(!text_eq("abc", "abd"));
    assert!(!text_eq("ab", "abc"));
    assert!(text_eq("", ""));
}

#[test]
fn reads_typed_options() {
    let v = doc("{\"port\": 70000, \"small\": 255, \"big\": 256, \"name\": \"x\", \"flag\": false, \"neg\": -1}");
    assert_eq!(get_u64(&v, "port").unwrap(), 70000);
    assert_eq!(get_usize(&v, "port").unwrap(), 70000);
    assert_eq!(get_u8(&v, "small").unwrap(), 255);
    assert_eq!(get_str(&v, "name").unwrap(), "x");
    assert!(!get_bool(&v, "flag").unwrap());

    let e = get_u16(&v, "port").unwrap_err();
    assert_eq!(e.problem, OptionProblem::OutOfU16Range);
    assert_eq!(e.message(), "[Arnelify Server]: Rust FFI error: 'port' out of u16 range.: TryFromIntError(())");

    let e = get_u8(&v, "big").unwrap_err();
    assert_eq!(e.message(), "[Arnelify Server]: Rust FFI error: 'big' out of u8 range.: TryFromIntError(())");

    let e = get_u64(&v, "neg").unwrap_err();
    assert_eq!(e.message(), "[Arnelify Server]: Rust FFI error: 'neg' missing or not a u64.");

    let e = get_str(&v, "port").unwrap_err();
    assert_eq!(e.message(), "[Arnelify Server]: Rust FFI error: 'port' missing or not a string.");

    let e = get_bool(&v, "absent").unwrap_err();
    assert_eq!(e.message(), "[Arnelify Server]: Rust FFI error: 'absent' missing or not a bool.");

    let e = get_u16(&v, "absent").unwrap_err();
    assert_eq!(e.problem, OptionProblem::NotAU64);
}

const HTTP1_OPTS: &str = "{\"allow_empty_files\": true, \"block_size_kb\": 64, \"charset\": \"utf-8\", \
    \"compression\": true, \"keep_alive\": 30, \"keep_extensions\": true, \"max_fields\": 60, \
    \"max_fields_size_total_mb\": 1, \"max_files\": 3, \"max_files_size_total_mb\": 60, \
    \"max_file_size_mb\": 60, \"port\": 4433, \"storage_path\": \"/var/www/storage\", \"thread_limit\": 4}";

#[test]
fn reads_http1_options() {
    let o = Http1Opts::from_json(&doc(HTTP1_OPTS)).unwrap();
    assert!(o.allow_empty_files);
    assert_eq!(o.block_size_kb, 64);
    assert_eq!(o.charset, "utf-8");
    assert_eq!(o.keep_alive, 30);
    assert_eq!(o.max_fields, 60);
    assert_eq!(o.port, 4433);
    assert_eq!(o.storage_path, "/var/www/storage");
    assert_eq!(o.thread_limit, 4);
}

#[test]
fn first_unreadable_option_is_reported() {
    let text = HTTP1_OPTS.replace("\"keep_alive\": 30", "\"keep_alive\": 300").replace("\"port\": 4433", "\"port\": \"x\"");
    let e = Http1Opts::from_json(&doc(&text)).unwrap_err();
    assert_eq!(e.key, "keep_alive");
    assert_eq!(e.message(), "[Arnelify Server]: Rust FFI error: 'keep_alive' out of u8 range.: TryFromIntError(())");

    let e = WebSocketOpts::from_json(&doc("{\"block_size_kb\": 64}")).unwrap_err();
    assert_eq!(e.message(), "[Arnelify Server]: Rust FFI error: 'compression' missing or not a bool.");
}

#[test]
fn renders_decimal_integers() {
    assert_eq!(u64_to_decimal(0), "0");
    assert_eq!(u64_to_decimal(7), "7");
    assert_eq!(u64_to_decimal(12345), "12345");
    assert_eq!(u64_to_decimal(u64::MAX), "18446744073709551615");
    assert_eq!(i64_to_decimal(-42), "-42");
    assert_eq!(i64_to_decimal(i64::MIN), "-9223372036854775808");
    assert_eq!(i64_to_decimal(0), "0");
}

#[test]
fn flattens_headers() {
    let v = doc("[{\"b\": \"x\", \"a\": 1, \"c\": true, \"d\": null, \"e\": [1]}, 5, {\"f\": -2.5, \"g\": false}, {\"n\": -7}]");
    let items = match v {
        JsonValue::Array(items) => items,
        _ => panic!("array expected"),
    };
    let h = headers_from_json(&items);
    let expect: Vec<(String, String)> = vec![
        ("a".to_string(), "1".to_string()),
        ("b".to_string(), "x".to_string()),
        ("c".to_string(), "true".to_string()),
        ("f".to_string(), "-2.5".to_string()),
        ("g".to_string(), "false".to_string()),
        ("n".to_string(), "-7".to_string()),
    ];
    assert_eq!(h, expect);
    assert!(headers_from_json(&Vec::new()).is_empty());
}
