use web_mcp::arguments::{get_bool, get_str, get_u64, ArgValue, ToolArgs};
use web_mcp::text::{decimal_string, parse_u64};

#[test]
fn set_replaces_earlier_value() {
    let mut a = ToolArgs::new();
    a.set("format", ArgValue::Text("text".to_string()));
    a.set("format", ArgValue::Text("html".to_string()));
    a.set("full_page", ArgValue::Bool(true));
    assert_eq!(get_str(&a, "format"), Some("html"));
    assert_eq!(get_bool(&a, "full_page"), Some(true));
    assert_eq!(get_bool(&a, "format"), None);
    assert_eq!(get_str(&a, "missing"), None);
}

#[test]
fn numbers_and_numeric_strings() {
    let mut a = ToolArgs::new();
    a.set("n", ArgValue::Number(42));
    a.set("s", ArgValue::Text("0042".to_string()));
    a.set("b", ArgValue::Bool(true));
    assert_eq!(get_u64(&a, "n"), Some(42));
    assert_eq!(get_u64(&a, "s"), Some(42));
    assert_eq!(get_u64(&a, "b"), None);
}

#[test]
fn parse_u64_follows_decimal_syntax() {
    assert_eq!(parse_u64("0"), Some(0));
    assert_eq!(parse_u64("+7"), Some(7));
    assert_eq!(parse_u64("18446744073709551615"), Some(u64::MAX));
    assert_eq!(parse_u64("18446744073709551616"), None);
    assert_eq!(parse_u64("99999999999999999999x"), None);
    assert_eq!(parse_u64("-1"), None);
    assert_eq!(parse_u64(""), None);
    assert_eq!(parse_u64("+"), None);
    assert_eq!(parse_u64(" 1"), None);
    assert_eq!(parse_u64("١"), None);
}

#[test]
fn decimal_rendering() {
    assert_eq!(decimal_string(0), "0");
    assert_eq!(decimal_string(30000), "30000");
    assert_eq!(decimal_string(u64::MAX), "18446744073709551615");
}
