use get_huawei_market::utils::{
    ensure_valid_utf8, has_invalid_utf8_chars, remove_null_bytes, sanitize_utf8_string,
};

#[test]
fn test_sanitize_utf8_string() {
    assert_eq!(sanitize_utf8_string(""), "");

    assert_eq!(sanitize_utf8_string("正常文本"), "正常文本");

    let input = "正常文本\0中间有空字节\0结尾";
    let expected = "正常文本中间有空字节结尾";
    assert_eq!(sanitize_utf8_string(input), expected);

    let input = "文本\x01控制字符\x02测试";
    let expected = "文本 控制字符 测试";
    assert_eq!(sanitize_utf8_string(input), expected);
}

#[test]
fn test_remove_null_bytes() {
    assert_eq!(remove_null_bytes(""), "");
    assert_eq!(remove_null_bytes("正常文本"), "正常文本");
    assert_eq!(remove_null_bytes("文本\0有空字节"), "文本有空字节");
    assert_eq!(remove_null_bytes("\0开头\0中间\0结尾\0"), "开头中间结尾");
}

#[test]
fn test_ensure_valid_utf8() {
    assert_eq!(ensure_valid_utf8(""), "");
    assert_eq!(ensure_valid_utf8("正常文本"), "正常文本");
    assert_eq!(ensure_valid_utf8("文本\0\x01测试"), "文本测试");
}

#[test]
fn test_has_invalid_utf8_chars() {
    assert!(!has_invalid_utf8_chars(""));
    assert!(!has_invalid_utf8_chars("正常文本"));
    assert!(has_invalid_utf8_chars("文本\0"));
    assert!(has_invalid_utf8_chars("文本\x01"));
}

#[test]
fn sanitize_keeps_common_whitespace() {
    assert_eq!(sanitize_utf8_string("a\nb\rc\td"), "a\nb\rc\td");
    assert_eq!(ensure_valid_utf8("a\nb\rc\td"), "a\nb\rc\td");
}

#[test]
fn sanitize_masks_delete_and_c1_controls() {
    assert_eq!(sanitize_utf8_string("a\u{7f}b"), "a b");
    assert_eq!(sanitize_utf8_string("a\u{9f}b"), "a b");
    assert!(has_invalid_utf8_chars("a\u{7f}b"));
}
