use utils::{__convert_ident, __join_idents};

#[test]
fn root_key_is_the_identifier_in_upper_case() {
    assert_eq!(__join_idents("", "id"), "ID");
    assert_eq!(__join_idents("", "guest_id"), "GUEST_ID");
    assert_eq!(__join_idents("", ""), "");
}

#[test]
fn nested_key_joins_with_an_underscore() {
    assert_eq!(__join_idents("nested", "host"), "NESTED_HOST");
    assert_eq!(__join_idents("NESTED", "host"), "NESTED_HOST");
    assert_eq!(__join_idents("a_b", "c"), "A_B_C");
    assert_eq!(__join_idents("x", ""), "X_");
}

#[test]
fn ascii_goes_to_upper_case_as_std_does_it() {
    for code in 0u8..128 {
        let c = code as char;
        let text = c.to_string();
        let expected: String = c.to_uppercase().collect();
        assert_eq!(__convert_ident(&text), expected);
        assert_eq!(__convert_ident(&text), c.to_ascii_uppercase().to_string());
    }
}

#[test]
fn characters_outside_ascii_go_through_std() {
    assert_eq!(__convert_ident("é"), "É");
    assert_eq!(__convert_ident("ß"), "SS");
    assert_eq!(__convert_ident("ŉ"), "ʼN");
    assert_eq!(__convert_ident("straße_1"), "STRASSE_1");
    assert_eq!(__convert_ident("日本"), "日本");
    for text in ["ǆ", "ﬁ", "ա", "ΐ", "mañana", "ÿ"] {
        assert_eq!(__convert_ident(text), text.to_uppercase());
    }
}

#[test]
fn upper_case_stays() {
    assert_eq!(__convert_ident("ALREADY_UPPER_9"), "ALREADY_UPPER_9");
    assert_eq!(__convert_ident("MiXeD-case.1"), "MIXED-CASE.1");
}
