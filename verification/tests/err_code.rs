use errcode::CodeError;
use errcode::ErrCode;
use errcode::ErrorCode;
use errcode::INTERNAL_ERROR_STATUS;

fn sample(code: &str, message: &str, result: Option<u8>) -> ErrCode<u8> {
    ErrCode {
        code: code.to_string(),
        message: message.to_string(),
        result,
    }
}

#[test]
fn status_code_valid_prefix() {
    let e = sample("404NotFound", "missing", None);
    assert_eq!(e.status_code(), 404);
}

#[test]
fn status_code_non_numeric_prefix() {
    let e = sample("abcXYZ", "m", None);
    assert_eq!(e.status_code(), INTERNAL_ERROR_STATUS);
}

#[test]
fn status_code_below_range() {
    let e = sample("050XYZ", "m", None);
    assert_eq!(e.status_code(), INTERNAL_ERROR_STATUS);
}

#[test]
fn status_code_above_range() {
    let e = sample("999ZZZ", "m", None);
    assert_eq!(e.status_code(), INTERNAL_ERROR_STATUS);
}

#[test]
fn status_code_range_boundaries() {
    assert_eq!(sample("100", "m", None).status_code(), 100);
    assert_eq!(sample("599suffix", "m", None).status_code(), 599);
    assert_eq!(sample("600", "m", None).status_code(), INTERNAL_ERROR_STATUS);
    assert_eq!(sample("099", "m", None).status_code(), INTERNAL_ERROR_STATUS);
}

#[test]
fn status_code_short_code_falls_back() {
    let e = sample("ab", "m", None);
    assert_eq!(e.status_code(), INTERNAL_ERROR_STATUS);
}

#[test]
fn status_code_plus_sign_prefix_falls_back() {
    let e = sample("+99XYZ", "m", None);
    assert_eq!(e.status_code(), INTERNAL_ERROR_STATUS);
}

#[test]
fn status_code_ignores_suffix_entirely() {
    let e = sample("503", "m", None);
    assert_eq!(e.status_code(), 503);
    let e = sample("418 I'm a teapot", "m", None);
    assert_eq!(e.status_code(), 418);
}

#[test]
fn status_code_multibyte_suffix() {
    let e = sample("404héllo", "m", None);
    assert_eq!(e.status_code(), 404);
}

#[test]
fn status_code_rejects_non_ascii_digits() {
    let e = sample("٤٠٤AB", "m", None);
    assert_eq!(e.status_code(), INTERNAL_ERROR_STATUS);
}

#[test]
fn with_status_code_on_bare_prefix() {
    let e = sample("100", "m", None::<u8>);
    let e2 = e.with_status_code(404).unwrap();
    assert_eq!(e2.code, "404");
    assert_eq!(e2.status_code(), 404);
}

#[test]
fn parse_status_code_errors_name_the_cause() {
    assert_eq!(
        sample("ab", "m", None).parse_status_code(),
        Err(CodeError::CodeTooShort)
    );
    assert_eq!(
        sample("12x45", "m", None).parse_status_code(),
        Err(CodeError::PrefixNotNumeric)
    );
    assert_eq!(
        sample("099ABC", "m", None).parse_status_code(),
        Err(CodeError::StatusTooLow)
    );
    assert_eq!(
        sample("600ABC", "m", None).parse_status_code(),
        Err(CodeError::StatusTooHigh)
    );
    assert_eq!(sample("404AB", "m", None).parse_status_code(), Ok(404));
}

#[test]
fn with_message_changes_only_message() {
    let e = sample("404AB", "old", Some(7));
    let e2 = e.with_message("new");
    assert_eq!(e2.code, "404AB");
    assert_eq!(e2.message, "new");
    assert_eq!(e2.result, Some(7));
    assert_eq!(e.message, "old");
}

#[test]
fn with_result_changes_only_result() {
    let e = sample("404AB", "m", None);
    let e2 = e.with_result(9);
    assert_eq!(e2.code, "404AB");
    assert_eq!(e2.message, "m");
    assert_eq!(e2.result, Some(9));
    assert_eq!(e.result, None);
}

#[test]
fn with_status_code_rewrites_prefix() {
    let e = sample("000ABC", "m", Some(3));
    let e2 = e.with_status_code(404).unwrap();
    assert_eq!(e2.code, "404ABC");
    assert_eq!(e2.message, "m");
    assert_eq!(e2.result, Some(3));
}

#[test]
fn with_status_code_keeps_suffix() {
    let e = sample("404NotFound", "m", None);
    let e2 = e.with_status_code(503).unwrap();
    assert_eq!(e2.code, "503NotFound");
}

#[test]
fn with_status_code_rejects_short_rendering() {
    let e = sample("404AB", "m", None::<u8>);
    assert_eq!(
        e.with_status_code(99).unwrap_err(),
        CodeError::StatusNotThreeDigits
    );
    assert_eq!(
        e.with_status_code(1000).unwrap_err(),
        CodeError::StatusNotThreeDigits
    );
}

#[test]
fn with_status_code_rejects_short_code() {
    let e = sample("ab", "m", None::<u8>);
    assert_eq!(e.with_status_code(404).unwrap_err(), CodeError::CodeTooShort);
}

#[test]
fn with_code_replaces_suffix() {
    let e = sample("404AB", "m", Some(1));
    let e2 = e.with_code("CD").unwrap();
    assert_eq!(e2.code, "404CD");
    assert_eq!(e2.message, "m");
    assert_eq!(e2.result, Some(1));
}

#[test]
fn with_code_empty_suffix() {
    let e = sample("404", "m", None::<u8>);
    let e2 = e.with_code("").unwrap();
    assert_eq!(e2.code, "404");
}

#[test]
fn with_code_counts_characters_not_bytes() {
    let e = sample("404é", "m", None::<u8>);
    let e2 = e.with_code("ü").unwrap();
    assert_eq!(e2.code, "404ü");
}

#[test]
fn with_code_rejects_length_mismatch() {
    let e = sample("404AB", "m", None::<u8>);
    assert_eq!(
        e.with_code("CDE").unwrap_err(),
        CodeError::SubCodeLengthMismatch
    );
    assert_eq!(e.with_code("").unwrap_err(), CodeError::SubCodeLengthMismatch);
}

#[test]
fn with_code_rejects_short_code() {
    let e = sample("ab", "m", None::<u8>);
    assert_eq!(e.with_code("").unwrap_err(), CodeError::CodeTooShort);
}

#[test]
fn getters_return_the_fields() {
    let e = sample("404AB", "missing", Some(5));
    assert_eq!(e.code(), "404AB");
    assert_eq!(e.message(), "missing");
    assert_eq!(e.result(), Some(5));
}

#[test]
fn from_parts_round_trips_wire_fields() {
    let e = sample("418Teapot", "short and stout", Some(2));
    let back = ErrCode::from_parts(e.code.clone(), e.message.clone(), e.result).unwrap();
    assert_eq!(back.code, e.code);
    assert_eq!(back.message, e.message);
    assert_eq!(back.result, e.result);
}

#[test]
fn from_parts_rejects_malformed_codes() {
    assert_eq!(
        ErrCode::<u8>::from_parts("ab".to_string(), "m".to_string(), None).unwrap_err(),
        CodeError::CodeTooShort
    );
    assert_eq!(
        ErrCode::<u8>::from_parts("abcX".to_string(), "m".to_string(), None).unwrap_err(),
        CodeError::PrefixNotNumeric
    );
    assert_eq!(
        ErrCode::<u8>::from_parts("050X".to_string(), "m".to_string(), None).unwrap_err(),
        CodeError::StatusTooLow
    );
    assert_eq!(
        ErrCode::<u8>::from_parts("600X".to_string(), "m".to_string(), None).unwrap_err(),
        CodeError::StatusTooHigh
    );
}

#[test]
fn parse_status_prefix_on_plain_strings() {
    assert_eq!(errcode::parse_status_prefix("404NotFound"), Ok(404));
    assert_eq!(
        errcode::parse_status_prefix(""),
        Err(CodeError::CodeTooShort)
    );
}

#[test]
fn render_status_gives_three_digits() {
    assert_eq!(errcode::render_status(404), "404");
    assert_eq!(errcode::render_status(100), "100");
    assert_eq!(errcode::render_status(999), "999");
}

#[test]
fn rendered_status_parses_back() {
    let code = format!("{}{}", errcode::render_status(234), "AB");
    assert_eq!(errcode::parse_status_prefix(&code), Ok(234));
}

#[test]
fn display_text_with_and_without_result() {
    assert_eq!(
        errcode::display_text("404AB", "missing", None),
        "(404AB, missing)"
    );
    assert_eq!(
        errcode::display_text("404AB", "missing", Some("7")),
        "(404AB, missing, 7)"
    );
}
