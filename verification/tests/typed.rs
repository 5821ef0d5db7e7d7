use utils::{load_field, EnvError, EnvErrorType, Masked, Outcome, Source};

struct NestedConfig {
    host: String,
    address: Option<Masked<String>>,
}

struct TestConfig {
    id: i32,
    name: String,
    guest_id: Option<u64>,
    nested: NestedConfig,
}

impl NestedConfig {
    fn fields(src: &Source, ident: &str) -> Result<Self, Outcome<Self>> {
        Ok(NestedConfig {
            host: load_field(src, ident, "host", None, false).or_stop()?,
            address: load_field(src, ident, "address", None, false).or_stop()?,
        })
    }

    fn load(src: &Source, ident: &str) -> Outcome<Self> {
        match Self::fields(src, ident) {
            Ok(value) => Outcome::Loaded(value),
            Err(stopped) => stopped,
        }
    }
}

impl TestConfig {
    fn fields(src: &Source, ident: &str) -> Result<Self, Outcome<Self>> {
        Ok(TestConfig {
            id: load_field(src, ident, "id", None, false).or_stop()?,
            name: load_field(src, ident, "name", Some("TEST_NAME"), true).or_stop()?,
            guest_id: load_field(src, ident, "guest_id", None, false).or_stop()?,
            nested: NestedConfig::load(src, &utils::__join_idents(ident, "nested")).or_stop()?,
        })
    }

    fn load(src: &Source, ident: &str) -> Outcome<Self> {
        match Self::fields(src, ident) {
            Ok(value) => Outcome::Loaded(value),
            Err(stopped) => stopped,
        }
    }
}

fn loaded<T>(outcome: Outcome<T>) -> Result<T, EnvError> {
    outcome.into_result().expect("no file is asked for")
}

#[test]
fn test_regular() {
    let mut src = Source::new();
    src.env.set_var("ID", "5");
    src.env.remove_var("TEST_NAME_FILE");
    src.env.set_var("TEST_NAME", "john doe");
    src.env.set_var("GUEST_ID", "4");
    src.env.set_var("NESTED_HOST", "yoyo");

    let config = loaded(TestConfig::load(&src, "")).expect("Config should parse correctly");
    assert_eq!(config.id, 5);
    assert_eq!(config.name, "john doe");
    assert_eq!(config.guest_id, Some(4));
    assert_eq!(config.nested.host, "yoyo");
    assert!(config.nested.address.is_none());
}

#[test]
fn test_file() {
    let mut src = Source::new();
    src.env.set_var("ID", "5");
    src.env.set_var("GUEST_ID", "4");
    src.env.set_var("NESTED_HOST", "yoyo");
    src.env.remove_var("TEST_NAME");
    src.env.set_var("TEST_NAME_FILE", "test_name.txt");

    match TestConfig::load(&src, "") {
        Outcome::NeedsFile(path) => {
            assert_eq!(path, "test_name.txt");
            src.files.record(&path, Ok(String::from("test")));
        }
        _ => panic!("the file is asked for"),
    }

    let config2 = loaded(TestConfig::load(&src, "")).expect("Config should parse correctly");
    assert_eq!(config2.name, "test");
}

#[test]
fn typed_config_with_a_masked_address() {
    let mut src = Source::new();
    src.env.set_var("ID", "-1");
    src.env.set_var("TEST_NAME", "n");
    src.env.set_var("NESTED_HOST", "h");
    src.env.set_var("NESTED_ADDRESS", "10.0.0.1");
    let config = loaded(TestConfig::load(&src, "")).expect("loads");
    assert_eq!(config.id, -1);
    assert_eq!(config.guest_id, None);
    let address = config.nested.address.expect("the address is present");
    assert_eq!(address.to_text(), "***");
    assert_eq!(address.into_inner(), "10.0.0.1");
}

#[test]
fn typed_config_stops_at_the_first_failure() {
    let mut src = Source::new();
    src.env.set_var("ID", "x");
    src.env.set_var("GUEST_ID", "y");
    let error = loaded(TestConfig::load(&src, "")).err().expect("fails");
    assert_eq!(error, EnvError { var: String::from("ID"), ty: EnvErrorType::InvalidFormat });
    src.env.set_var("ID", "1");
    let error = loaded(TestConfig::load(&src, "")).err().expect("fails");
    assert_eq!(error, EnvError { var: String::from("TEST_NAME_FILE"), ty: EnvErrorType::NotPresent });
    src.env.set_var("TEST_NAME", "n");
    let error = loaded(TestConfig::load(&src, "")).err().expect("fails");
    assert_eq!(error, EnvError { var: String::from("GUEST_ID"), ty: EnvErrorType::InvalidFormat });
}

#[test]
fn field_key_and_strategy() {
    let mut src = Source::new();
    src.env.set_var("OUTER_PORT", "80");
    src.env.set_var("PORT", "81");
    src.env.set_var("Given", "82");
    src.env.set_var("P_FILE", "p.txt");
    src.files.record("p.txt", Ok(String::from("83")));
    assert_eq!(load_field::<u16>(&src, "outer", "port", None, false), Outcome::Loaded(80));
    assert_eq!(load_field::<u16>(&src, "", "port", None, false), Outcome::Loaded(81));
    assert_eq!(load_field::<u16>(&src, "outer", "port", Some("Given"), false), Outcome::Loaded(82));
    assert_eq!(load_field::<u16>(&src, "", "p", None, true), Outcome::Loaded(83));
    assert_eq!(
        load_field::<u16>(&src, "", "p", None, false),
        Outcome::Failed(EnvError { var: String::from("P"), ty: EnvErrorType::NotPresent })
    );
    assert_eq!(Outcome::Loaded(1u8).or_stop::<bool>(), Ok(1));
    assert_eq!(
        Outcome::<u8>::NeedsFile(String::from("p")).or_stop::<bool>(),
        Err(Outcome::NeedsFile(String::from("p")))
    );
}
