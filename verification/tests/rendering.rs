use utils::render::integer_text;
use utils::{FromEnv, Value};

fn text(value: &str) -> Value {
    Value::Text(String::from(value))
}

fn masked(value: Value) -> Value {
    Value::Masked(Box::new(value))
}

#[test]
fn integers_as_text() {
    for n in [
        0i128,
        1,
        -1,
        9,
        10,
        -10,
        99,
        100,
        12345,
        -12345,
        i64::MAX as i128,
        i64::MIN as i128,
        u64::MAX as i128,
        i128::MAX,
        i128::MIN,
        i128::MIN + 1,
    ] {
        assert_eq!(integer_text(n), n.to_string());
    }
    for n in -1000i128..=1000 {
        assert_eq!(integer_text(n), n.to_string());
    }
}

#[test]
fn integer_text_reads_back() {
    for n in [i64::MIN, -129, -128, -1, 0, 1, 127, 128, 255, 256, i64::MAX] {
        assert_eq!(<i64 as FromEnv>::from_env(&integer_text(n as i128)), Ok(n));
    }
    assert_eq!(<u64 as FromEnv>::from_env(&integer_text(u64::MAX as i128)), Ok(u64::MAX));
}

#[test]
fn scalars_as_text() {
    assert_eq!(Value::I8(-8).to_text(), "-8");
    assert_eq!(Value::I16(-16).to_text(), "-16");
    assert_eq!(Value::I32(32).to_text(), "32");
    assert_eq!(Value::I64(i64::MIN).to_text(), "-9223372036854775808");
    assert_eq!(Value::Isize(-1).to_text(), "-1");
    assert_eq!(Value::U8(255).to_text(), "255");
    assert_eq!(Value::U16(0).to_text(), "0");
    assert_eq!(Value::U32(7).to_text(), "7");
    assert_eq!(Value::U64(u64::MAX).to_text(), "18446744073709551615");
    assert_eq!(Value::Usize(42).to_text(), "42");
    assert_eq!(Value::Bool(true).to_text(), "true");
    assert_eq!(Value::Bool(false).to_text(), "false");
    assert_eq!(text("john doe").to_text(), "\"john doe\"");
    assert_eq!(text("").to_text(), "\"\"");
}

#[test]
fn optional_values_as_text() {
    assert_eq!(Value::Optional(None).to_text(), "None");
    assert_eq!(Value::Optional(Some(Box::new(Value::U64(4)))).to_text(), "Some(4)");
    assert_eq!(
        Value::Optional(Some(Box::new(Value::Optional(None)))).to_text(),
        "Some(None)"
    );
}

#[test]
fn records_as_text() {
    assert_eq!(Value::Record(vec![]).to_text(), "{}");
    assert_eq!(Value::Record(vec![(String::from("id"), Value::I32(5))]).to_text(), "{id: 5}");
    let nested = Value::Record(vec![
        (String::from("host"), text("yoyo")),
        (String::from("address"), Value::Optional(None)),
    ]);
    let config = Value::Record(vec![
        (String::from("id"), Value::I32(5)),
        (String::from("name"), text("john doe")),
        (String::from("guest_id"), Value::Optional(Some(Box::new(Value::U64(4))))),
        (String::from("nested"), nested),
    ]);
    assert_eq!(
        config.to_text(),
        "{id: 5, name: \"john doe\", guest_id: Some(4), nested: {host: \"yoyo\", address: None}}"
    );
}

#[test]
fn masked_values_never_show() {
    assert_eq!(masked(text("hunter2")).to_text(), "***");
    assert_eq!(masked(Value::U32(1234)).to_text(), "***");
    assert_eq!(masked(Value::Optional(None)).to_text(), "***");
    assert_eq!(masked(Value::Record(vec![(String::from("k"), text("v"))])).to_text(), "***");
    assert_eq!(
        Value::Optional(Some(Box::new(masked(text("hunter2"))))).to_text(),
        "Some(***)"
    );
    let with = |secret: &str| {
        Value::Record(vec![
            (String::from("user"), text("admin")),
            (String::from("password"), masked(text(secret))),
            (
                String::from("inner"),
                Value::Record(vec![(String::from("token"), masked(text(secret)))]),
            ),
        ])
        .to_text()
    };
    assert_eq!(with("hunter2"), "{user: \"admin\", password: ***, inner: {token: ***}}");
    assert_eq!(with("hunter2"), with("something else"));
    assert!(!with("hunter2").contains("hunter2"));
}
