use utils::text::{chars_of, same_text, text_of};
use utils::{
    EnvError, EnvErrorType, FileStore, Namespace, Outcome, Source, VarError,
};

#[test]
fn namespace_holds_what_was_set() {
    let mut env = Namespace::new();
    assert_eq!(env.var("A"), Err(VarError::NotPresent));
    env.set_var("A", "1");
    env.set_var("B", "2");
    assert_eq!(env.var("A"), Ok(String::from("1")));
    assert_eq!(env.var("B"), Ok(String::from("2")));
    assert_eq!(env.var("a"), Err(VarError::NotPresent));
    env.set_var("A", "3");
    assert_eq!(env.var("A"), Ok(String::from("3")));
    assert_eq!(env.var("B"), Ok(String::from("2")));
    env.remove_var("A");
    assert_eq!(env.var("A"), Err(VarError::NotPresent));
    assert_eq!(env.var("B"), Ok(String::from("2")));
    env.remove_var("A");
    env.remove_var("missing");
    assert_eq!(env.var("B"), Ok(String::from("2")));
}

#[test]
fn namespace_holds_values_that_are_no_text() {
    let mut env = Namespace::new();
    env.set_raw("RAW", vec![0x66, 0xff]);
    assert_eq!(env.var("RAW"), Err(VarError::NotUnicode(vec![0x66, 0xff])));
    env.set_var("RAW", "text");
    assert_eq!(env.var("RAW"), Ok(String::from("text")));
    env.set_raw("RAW", vec![]);
    assert_eq!(env.var("RAW"), Err(VarError::NotUnicode(vec![])));
}

#[test]
fn file_store_holds_what_was_read() {
    let mut files = FileStore::new();
    assert_eq!(files.read("a.txt"), None);
    files.record("a.txt", Ok(String::from("contents")));
    files.record("b.txt", Err(String::from("denied")));
    assert_eq!(files.read("a.txt"), Some(Ok(String::from("contents"))));
    assert_eq!(files.read("b.txt"), Some(Err(String::from("denied"))));
    files.record("b.txt", Ok(String::new()));
    assert_eq!(files.read("b.txt"), Some(Ok(String::new())));
    assert_eq!(files.read("c.txt"), None);
}

#[test]
fn probe_tells_text_absence_and_failure_apart() {
    let mut src = Source::new();
    src.env.set_var("T", "text");
    src.env.set_raw("R", vec![0xc3]);
    assert_eq!(src.probe("T"), Outcome::Loaded(Some(String::from("text"))));
    assert_eq!(src.probe("A"), Outcome::Loaded(None));
    assert_eq!(
        src.probe("R"),
        Outcome::Failed(EnvError {
            var: String::from("R"),
            ty: EnvErrorType::NotUnicode(vec![0xc3]),
        })
    );
}

#[test]
fn probe_or_file_goes_to_the_file_only_for_an_absent_key() {
    let mut src = Source::new();
    src.env.set_var("K", "direct");
    src.env.set_var("K_FILE", "k.txt");
    assert_eq!(src.probe_or_file("K"), Outcome::Loaded(Some(String::from("direct"))));
    src.files.record("k.txt", Ok(String::from("from file")));
    assert_eq!(src.probe_or_file("K"), Outcome::Loaded(Some(String::from("direct"))));

    src.env.remove_var("K");
    assert_eq!(src.probe_or_file("K"), Outcome::Loaded(Some(String::from("from file"))));

    src.env.set_var("K_FILE", "other.txt");
    assert_eq!(src.probe_or_file("K"), Outcome::NeedsFile(String::from("other.txt")));
    src.files.record("other.txt", Err(String::from("No such file or directory (os error 2)")));
    assert_eq!(
        src.probe_or_file("K"),
        Outcome::Failed(EnvError {
            var: String::from("K_FILE"),
            ty: EnvErrorType::Other(String::from("No such file or directory (os error 2)")),
        })
    );

    src.env.remove_var("K_FILE");
    assert_eq!(src.probe_or_file("K"), Outcome::Loaded(None));
}

#[test]
fn probe_or_file_stops_at_a_value_that_is_no_text() {
    let mut src = Source::new();
    src.env.set_raw("K", vec![0xff]);
    src.env.set_var("K_FILE", "k.txt");
    assert_eq!(
        src.probe_or_file("K"),
        Outcome::Failed(EnvError {
            var: String::from("K"),
            ty: EnvErrorType::NotUnicode(vec![0xff]),
        })
    );
    src.env.remove_var("K");
    src.env.set_raw("K_FILE", vec![0xfe]);
    assert_eq!(
        src.probe_or_file("K"),
        Outcome::Failed(EnvError {
            var: String::from("K_FILE"),
            ty: EnvErrorType::NotUnicode(vec![0xfe]),
        })
    );
}

#[test]
fn errors_read_as_a_line() {
    let e = |ty| EnvError { var: String::from("KEY"), ty };
    assert_eq!(
        e(EnvErrorType::NotPresent).to_text(),
        "Error parsing environment variable 'KEY': Not present"
    );
    assert_eq!(
        e(EnvErrorType::NotUnicode(vec![1])).to_text(),
        "Error parsing environment variable 'KEY': Not valid unicode"
    );
    assert_eq!(
        e(EnvErrorType::InvalidFormat).to_text(),
        "Error parsing environment variable 'KEY': Unable to parse"
    );
    assert_eq!(
        e(EnvErrorType::Other(String::from("disk on fire"))).to_text(),
        "Error parsing environment variable 'KEY': disk on fire"
    );
    let empty = EnvError { var: String::new(), ty: EnvErrorType::Other(String::new()) };
    assert_eq!(empty.to_text(), "Error parsing environment variable '': ");
}

#[test]
fn lookup_errors_become_causes() {
    assert_eq!(EnvErrorType::from(VarError::NotPresent), EnvErrorType::NotPresent);
    assert_eq!(
        EnvErrorType::from(VarError::NotUnicode(vec![1, 2])),
        EnvErrorType::NotUnicode(vec![1, 2])
    );
}

#[test]
fn convert_attaches_the_key() {
    assert_eq!(EnvError::convert(Ok::<u8, EnvErrorType>(1), "K"), Ok(1));
    assert_eq!(
        EnvError::convert(Err::<u8, EnvErrorType>(EnvErrorType::InvalidFormat), "K"),
        Err(EnvError { var: String::from("K"), ty: EnvErrorType::InvalidFormat })
    );
}

#[test]
fn outcome_and_result() {
    let e = || EnvError { var: String::from("K"), ty: EnvErrorType::NotPresent };
    assert_eq!(Outcome::Loaded(1).into_result(), Some(Ok(1)));
    assert_eq!(Outcome::<u8>::Failed(e()).into_result(), Some(Err(e())));
    assert_eq!(Outcome::<u8>::NeedsFile(String::from("p")).into_result(), None);
    assert_eq!(Outcome::from_result(Ok::<u8, EnvError>(1)), Outcome::Loaded(1));
    assert_eq!(Outcome::<u8>::from_result(Err(e())), Outcome::Failed(e()));
}

#[test]
fn text_helpers() {
    assert_eq!(chars_of("aß日"), vec!['a', 'ß', '日']);
    assert_eq!(chars_of(""), Vec::<char>::new());
    assert_eq!(text_of(&vec!['a', 'ß', '日']), "aß日");
    assert_eq!(text_of(&vec![]), "");
    assert!(same_text("abc", "abc"));
    assert!(!same_text("abc", "abd"));
    assert!(!same_text("abc", "ab"));
    assert!(same_text("", ""));
}
