//! Unit exercises of the text, wire and naming helpers.

use econfmanager::naming::{
    format_anyvalue_type, get_parameter_name_for_enum, get_parameter_name_for_function,
    get_parameter_name_short,
};
use econfmanager::text::{
    debug_limited, eq_ignore_ascii_case, i32_to_string, i64_to_string, parse_bool, parse_i32,
    parse_i64, parse_u32, parse_u64, u32_to_string, u64_to_string,
};
use econfmanager::value::{f64_order_key, ParameterValue, ParameterValueType};
use econfmanager::interface::InterfaceInstance;
use econfmanager::wire::{decode_notification, encode_notification};

#[test]
fn decimal_rendering_is_exact() {
    assert_eq!(u64_to_string(0), "0");
    assert_eq!(u64_to_string(7), "7");
    assert_eq!(u64_to_string(12345), "12345");
    assert_eq!(u64_to_string(u64::MAX), "18446744073709551615");
    assert_eq!(u32_to_string(4294967295), "4294967295");
    assert_eq!(i64_to_string(-1), "-1");
    assert_eq!(i64_to_string(i64::MIN), "-9223372036854775808");
    assert_eq!(i32_to_string(i32::MIN), "-2147483648");
    assert_eq!(i32_to_string(100), "100");
}

#[test]
fn decimal_parsing_matches_std() {
    for s in ["0", "42", "+42", "18446744073709551615", "-1", "abc", "", "4 2", "99999999999999999999"] {
        assert_eq!(parse_u64(s), s.parse::<u64>().ok(), "u64 {:?}", s);
        assert_eq!(parse_i64(s), s.parse::<i64>().ok(), "i64 {:?}", s);
        assert_eq!(parse_u32(s), s.parse::<u32>().ok(), "u32 {:?}", s);
        assert_eq!(parse_i32(s), s.parse::<i32>().ok(), "i32 {:?}", s);
    }
    assert_eq!(parse_i64("-9223372036854775808"), Some(i64::MIN));
    assert_eq!(parse_i64("-9223372036854775809"), None);
    assert_eq!(parse_i32("-2147483648"), Some(i32::MIN));
    assert_eq!(parse_i32("2147483648"), None);
    assert_eq!(parse_u32("4294967296"), None);
}

#[test]
fn bool_parsing_ignores_ascii_case() {
    assert_eq!(parse_bool("true"), Some(true));
    assert_eq!(parse_bool("TRUE"), Some(true));
    assert_eq!(parse_bool("1"), Some(true));
    assert_eq!(parse_bool("False"), Some(false));
    assert_eq!(parse_bool("0"), Some(false));
    assert_eq!(parse_bool("yes"), None);
    assert!(eq_ignore_ascii_case("HeLLo", "hello"));
    assert!(!eq_ignore_ascii_case("hello!", "hello"));
}

#[test]
fn notification_encoding_round_trips() {
    for id in [0u32, 1, 2, 127, 128, 300, 65535, u32::MAX] {
        let bytes = encode_notification(id);
        assert_eq!(decode_notification(&bytes), Some(id), "id {}", id);
    }
    assert_eq!(encode_notification(0), Vec::<u8>::new());
    assert_eq!(encode_notification(1), vec![0x08, 0x01]);
    assert_eq!(encode_notification(300), vec![0x08, 0xAC, 0x02]);
    assert_eq!(decode_notification(&vec![0x08]), None);
    assert_eq!(decode_notification(&vec![0x12, 0x01]), None);
    assert_eq!(decode_notification(&vec![0x08, 0x01, 0x99]), None);
}

#[test]
fn float_order_key_orders_numerically() {
    let values = [-1000.5f64, -1.0, -0.0, 0.0, 0.5, 1.0, 37.5, 1.0e9];
    for pair in values.windows(2) {
        let (a, b) = (pair[0], pair[1]);
        assert!(
            f64_order_key(a.to_bits()) <= f64_order_key(b.to_bits()),
            "{} should order before {}",
            a,
            b
        );
    }
    assert!(f64_order_key((-1.0f64).to_bits()) < f64_order_key(1.0f64.to_bits()));
}

#[test]
fn generated_name_spellings() {
    let name = "device@max_rate".to_string();
    assert_eq!(get_parameter_name_for_enum(&name), "DEVICE_MAX_RATE");
    assert_eq!(get_parameter_name_for_function(&name), "device_max_rate");
    assert_eq!(get_parameter_name_short(&name), "max_rate");
    assert_eq!(get_parameter_name_short(&"plain".to_string()), "plain");
}

#[test]
fn type_spellings_for_generated_tables() {
    assert_eq!(
        format_anyvalue_type(&ParameterValueType::TypeBool),
        "ParameterValueType::TypeBool"
    );
    assert_eq!(
        format_anyvalue_type(&ParameterValueType::TypeEnum("CameraSource".to_string())),
        "ParameterValueType::TypeEnum(\"CameraSource\")"
    );
}

#[test]
fn value_text_forms() {
    assert_eq!(
        InterfaceInstance::value_to_string(&ParameterValue::ValBool(true)).unwrap(),
        "true"
    );
    assert_eq!(
        InterfaceInstance::value_to_string(&ParameterValue::ValI32(-7)).unwrap(),
        "-7"
    );
    assert_eq!(
        InterfaceInstance::value_to_string(&ParameterValue::ValU64(9000)).unwrap(),
        "9000"
    );
    assert_eq!(
        InterfaceInstance::value_to_string(&ParameterValue::ValString("x".to_string())).unwrap(),
        "x"
    );
    assert_eq!(
        InterfaceInstance::value_to_string(&ParameterValue::ValBlob(b"hello".to_vec())).unwrap(),
        "aGVsbG8="
    );
    assert_eq!(
        InterfaceInstance::value_to_string(&ParameterValue::ValF64(1.5f64.to_bits())),
        None
    );
}

#[test]
fn log_lines_truncate_at_character_count() {
    assert_eq!(debug_limited(&"short".to_string(), 100), "short");
    assert_eq!(debug_limited(&"a longer message".to_string(), 8), "a longer");
}
