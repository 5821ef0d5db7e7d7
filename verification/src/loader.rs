//! The loading protocol: a type says how a text becomes a value of it and is
//! then loaded by key.

use crate::error::{EnvError, EnvErrorType, ErrorKind, ErrorView, VarError};
use crate::ident::{__join_idents, joined};
use crate::outcome::{Outcome, OutcomeView};
use crate::scalar::{decimal_within, parse_decimal, parse_truth, truth};
use crate::source::{file_key, probed, probed_or_file, Source, SourceView};
use vstd::prelude::*;

verus! {

/// The mathematical value of what [`FromEnv::from_env`] returns.
pub open spec fn parse_view<T: DeepView>(r: Result<T, EnvErrorType>) -> Result<T::V, ErrorKind> {
    match r {
        Ok(value) => Ok(value.deep_view()),
        Err(ty) => Err(ty@),
    }
}

/// What becomes of the text that was found for a key. A text is parsed, and
/// a failure to parse is one for `ident`. Where there is no text, the value
/// that stands for absence is taken, and without one the key `missing` is
/// reported as not present. A failure to find the text, and a file that has
/// to be read first, stay as they are.
pub open spec fn settled<V>(
    text: OutcomeView<Option<Seq<char>>>,
    parse: spec_fn(Seq<char>) -> Result<V, ErrorKind>,
    absent: Option<V>,
    ident: Seq<char>,
    missing: Seq<char>,
) -> OutcomeView<V> {
    match text {
        OutcomeView::Loaded(Some(text)) => match parse(text) {
            Ok(value) => OutcomeView::Loaded(value),
            Err(ty) => OutcomeView::Failed(ErrorView { var: ident, ty }),
        },
        OutcomeView::Loaded(None) => match absent {
            Some(value) => OutcomeView::Loaded(value),
            None => OutcomeView::Failed(ErrorView { var: missing, ty: ErrorKind::NotPresent }),
        },
        OutcomeView::Failed(error) => OutcomeView::Failed(error),
        OutcomeView::NeedsFile(path) => OutcomeView::NeedsFile(path),
    }
}

/// What loading by the key `ident` gives for a type that parses with `parse`
/// and stands for absence as `absent` says.
pub open spec fn load_of<V>(
    parse: spec_fn(Seq<char>) -> Result<V, ErrorKind>,
    absent: Option<V>,
    src: SourceView,
    ident: Seq<char>,
) -> OutcomeView<V> {
    settled(probed(src.env, ident), parse, absent, ident, ident)
}

/// What loading by the key `ident` with the fall-back to a file gives for a
/// type that parses with `parse` and stands for absence as `absent` says.
pub open spec fn load_or_file_of<V>(
    parse: spec_fn(Seq<char>) -> Result<V, ErrorKind>,
    absent: Option<V>,
    src: SourceView,
    ident: Seq<char>,
) -> OutcomeView<V> {
    settled(probed_or_file(src, ident), parse, absent, ident, file_key(ident))
}

/// A type that can be built from one text, and so from a key of a source.
pub trait FromEnv: Sized + DeepView {
    /// The value that `value` denotes, or why it denotes none.
    spec fn parsed(value: Seq<char>) -> Result<<Self as DeepView>::V, ErrorKind>;

    /// The value that a load gives where the key is absent, if the type has
    /// one; without one an absent key is an error.
    spec fn when_absent() -> Option<<Self as DeepView>::V>;

    /// Builds the value that `value` denotes.
    fn from_env(value: &str) -> (r: Result<Self, EnvErrorType>)
        ensures
            parse_view(r) == Self::parsed(value@),
    ;

    /// The value that stands for an absent key, if the type has one.
    fn absent() -> (r: Option<Self>)
        ensures
            match r {
                Some(value) => Self::when_absent() == Some(value.deep_view()),
                None => Self::when_absent() is None,
            },
    ;

    /// Loads the value from the text under `ident`.
    fn load(src: &Source, ident: &str) -> (r: Outcome<Self>)
        ensures
            r.deep_view() == load_of(
                |text: Seq<char>| Self::parsed(text),
                Self::when_absent(),
                src@,
                ident@,
            ),
    {
        match src.probe(ident) {
            Outcome::Loaded(Some(text)) => Outcome::from_result(
                EnvError::convert(Self::from_env(text.as_str()), ident),
            ),
            Outcome::Loaded(None) => match Self::absent() {
                Some(value) => Outcome::Loaded(value),
                None => Outcome::Failed(
                    EnvError { var: ident.to_owned(), ty: EnvErrorType::NotPresent },
                ),
            },
            Outcome::Failed(error) => Outcome::Failed(error),
            Outcome::NeedsFile(path) => Outcome::NeedsFile(path),
        }
    }

    /// Loads the value from the text under `ident` or, where nothing stands
    /// there, from the contents of the file named under `ident` with `_FILE`
    /// appended.
    fn load_or_file(src: &Source, ident: &str) -> (r: Outcome<Self>)
        ensures
            r.deep_view() == load_or_file_of(
                |text: Seq<char>| Self::parsed(text),
                Self::when_absent(),
                src@,
                ident@,
            ),
    {
        match src.probe_or_file(ident) {
            Outcome::Loaded(Some(text)) => Outcome::from_result(
                EnvError::convert(Self::from_env(text.as_str()), ident),
            ),
            Outcome::Loaded(None) => match Self::absent() {
                Some(value) => Outcome::Loaded(value),
                None => Outcome::Failed(
                    EnvError {
                        var: ident.to_owned().concat("_FILE"),
                        ty: EnvErrorType::NotPresent,
                    },
                ),
            },
            Outcome::Failed(error) => Outcome::Failed(error),
            Outcome::NeedsFile(path) => Outcome::NeedsFile(path),
        }
    }
}

/// What [`FromEnv::load`] gives for the type `T`.
pub open spec fn loaded<T: FromEnv>(src: SourceView, ident: Seq<char>) -> OutcomeView<
    <T as DeepView>::V,
> {
    load_of(|text: Seq<char>| T::parsed(text), T::when_absent(), src, ident)
}

/// What [`FromEnv::load_or_file`] gives for the type `T`.
pub open spec fn loaded_or_file<T: FromEnv>(src: SourceView, ident: Seq<char>) -> OutcomeView<
    <T as DeepView>::V,
> {
    load_or_file_of(|text: Seq<char>| T::parsed(text), T::when_absent(), src, ident)
}

/// The key that a field is loaded from in a composite loaded under `parent`:
/// the key given with `name`, as it is written, or else the key that the
/// two identifiers make.
pub open spec fn key_of(parent: Seq<char>, ident: Seq<char>, name: Option<Seq<char>>) -> Seq<
    char,
> {
    match name {
        Some(key) => key,
        None => joined(parent, ident),
    }
}

/// Loads the field `ident` of a composite that is loaded under `parent`:
/// from the key given with `name` or else from the key that the two
/// identifiers make, and with the fall-back to a file where `var_or_file`
/// says so.
pub fn load_field<T: FromEnv>(
    src: &Source,
    parent: &str,
    ident: &str,
    name: Option<&str>,
    var_or_file: bool,
) -> (r: Outcome<T>)
    ensures
        r.deep_view() == if var_or_file {
            loaded_or_file::<T>(src@, key_of(parent@, ident@, name.deep_view()))
        } else {
            loaded::<T>(src@, key_of(parent@, ident@, name.deep_view()))
        },
{
    let key = match name {
        Some(key) => key.to_owned(),
        None => __join_idents(parent, ident),
    };
    if var_or_file {
        T::load_or_file(src, key.as_str())
    } else {
        T::load(src, key.as_str())
    }
}

/// `i8`: a decimal integer with an optional sign, within the range of the type.
impl FromEnv for i8 {
    open spec fn parsed(value: Seq<char>) -> Result<i8, ErrorKind> {
        match decimal_within(value, true, i8::MIN as int, i8::MAX as int) {
            Some(n) => Ok(n as i8),
            None => Err(ErrorKind::InvalidFormat),
        }
    }

    open spec fn when_absent() -> Option<i8> {
        None
    }

    fn from_env(value: &str) -> (r: Result<Self, EnvErrorType>) {
        match parse_decimal(value, true, i8::MIN as i128, i8::MAX as i128) {
            Some(n) => Ok(n as i8),
            None => Err(EnvErrorType::InvalidFormat),
        }
    }

    fn absent() -> (r: Option<Self>) {
        None
    }
}

/// `i16`: a decimal integer with an optional sign, within the range of the type.
impl FromEnv for i16 {
    open spec fn parsed(value: Seq<char>) -> Result<i16, ErrorKind> {
        match decimal_within(value, true, i16::MIN as int, i16::MAX as int) {
            Some(n) => Ok(n as i16),
            None => Err(ErrorKind::InvalidFormat),
        }
    }

    open spec fn when_absent() -> Option<i16> {
        None
    }

    fn from_env(value: &str) -> (r: Result<Self, EnvErrorType>) {
        match parse_decimal(value, true, i16::MIN as i128, i16::MAX as i128) {
            Some(n) => Ok(n as i16),
            None => Err(EnvErrorType::InvalidFormat),
        }
    }

    fn absent() -> (r: Option<Self>) {
        None
    }
}

/// `i32`: a decimal integer with an optional sign, within the range of the type.
impl FromEnv for i32 {
    open spec fn parsed(value: Seq<char>) -> Result<i32, ErrorKind> {
        match decimal_within(value, true, i32::MIN as int, i32::MAX as int) {
            Some(n) => Ok(n as i32),
            None => Err(ErrorKind::InvalidFormat),
        }
    }

    open spec fn when_absent() -> Option<i32> {
        None
    }

    fn from_env(value: &str) -> (r: Result<Self, EnvErrorType>) {
        match parse_decimal(value, true, i32::MIN as i128, i32::MAX as i128) {
            Some(n) => Ok(n as i32),
            None => Err(EnvErrorType::InvalidFormat),
        }
    }

    fn absent() -> (r: Option<Self>) {
        None
    }
}

/// `i64`: a decimal integer with an optional sign, within the range of the type.
impl FromEnv for i64 {
    open spec fn parsed(value: Seq<char>) -> Result<i64, ErrorKind> {
        match decimal_within(value, true, i64::MIN as int, i64::MAX as int) {
            Some(n) => Ok(n as i64),
            None => Err(ErrorKind::InvalidFormat),
        }
    }

    open spec fn when_absent() -> Option<i64> {
        None
    }

    fn from_env(value: &str) -> (r: Result<Self, EnvErrorType>) {
        match parse_decimal(value, true, i64::MIN as i128, i64::MAX as i128) {
            Some(n) => Ok(n as i64),
            None => Err(EnvErrorType::InvalidFormat),
        }
    }

    fn absent() -> (r: Option<Self>) {
        None
    }
}

/// `isize`: a decimal integer with an optional sign, within the range of the type.
impl FromEnv for isize {
    open spec fn parsed(value: Seq<char>) -> Result<isize, ErrorKind> {
        match decimal_within(value, true, isize::MIN as int, isize::MAX as int) {
            Some(n) => Ok(n as isize),
            None => Err(ErrorKind::InvalidFormat),
        }
    }

    open spec fn when_absent() -> Option<isize> {
        None
    }

    fn from_env(value: &str) -> (r: Result<Self, EnvErrorType>) {
        match parse_decimal(value, true, isize::MIN as i128, isize::MAX as i128) {
            Some(n) => Ok(n as isize),
            None => Err(EnvErrorType::InvalidFormat),
        }
    }

    fn absent() -> (r: Option<Self>) {
        None
    }
}

/// `u8`: a decimal integer with an optional plus sign, within the range of the
/// type.
impl FromEnv for u8 {
    open spec fn parsed(value: Seq<char>) -> Result<u8, ErrorKind> {
        match decimal_within(value, false, u8::MIN as int, u8::MAX as int) {
            Some(n) => Ok(n as u8),
            None => Err(ErrorKind::InvalidFormat),
        }
    }

    open spec fn when_absent() -> Option<u8> {
        None
    }

    fn from_env(value: &str) -> (r: Result<Self, EnvErrorType>) {
        match parse_decimal(value, false, u8::MIN as i128, u8::MAX as i128) {
            Some(n) => Ok(n as u8),
            None => Err(EnvErrorType::InvalidFormat),
        }
    }

    fn absent() -> (r: Option<Self>) {
        None
    }
}

/// `u16`: a decimal integer with an optional plus sign, within the range of the
/// type.
impl FromEnv for u16 {
    open spec fn parsed(value: Seq<char>) -> Result<u16, ErrorKind> {
        match decimal_within(value, false, u16::MIN as int, u16::MAX as int) {
            Some(n) => Ok(n as u16),
            None => Err(ErrorKind::InvalidFormat),
        }
    }

    open spec fn when_absent() -> Option<u16> {
        None
    }

    fn from_env(value: &str) -> (r: Result<Self, EnvErrorType>) {
        match parse_decimal(value, false, u16::MIN as i128, u16::MAX as i128) {
            Some(n) => Ok(n as u16),
            None => Err(EnvErrorType::InvalidFormat),
        }
    }

    fn absent() -> (r: Option<Self>) {
        None
    }
}

/// `u32`: a decimal integer with an optional plus sign, within the range of the
/// type.
impl FromEnv for u32 {
    open spec fn parsed(value: Seq<char>) -> Result<u32, ErrorKind> {
        match decimal_within(value, false, u32::MIN as int, u32::MAX as int) {
            Some(n) => Ok(n as u32),
            None => Err(ErrorKind::InvalidFormat),
        }
    }

    open spec fn when_absent() -> Option<u32> {
        None
    }

    fn from_env(value: &str) -> (r: Result<Self, EnvErrorType>) {
        match parse_decimal(value, false, u32::MIN as i128, u32::MAX as i128) {
            Some(n) => Ok(n as u32),
            None => Err(EnvErrorType::InvalidFormat),
        }
    }

    fn absent() -> (r: Option<Self>) {
        None
    }
}

/// `u64`: a decimal integer with an optional plus sign, within the range of the
/// type.
impl FromEnv for u64 {
    open spec fn parsed(value: Seq<char>) -> Result<u64, ErrorKind> {
        match decimal_within(value, false, u64::MIN as int, u64::MAX as int) {
            Some(n) => Ok(n as u64),
            None => Err(ErrorKind::InvalidFormat),
        }
    }

    open spec fn when_absent() -> Option<u64> {
        None
    }

    fn from_env(value: &str) -> (r: Result<Self, EnvErrorType>) {
        match parse_decimal(value, false, u64::MIN as i128, u64::MAX as i128) {
            Some(n) => Ok(n as u64),
            None => Err(EnvErrorType::InvalidFormat),
        }
    }

    fn absent() -> (r: Option<Self>) {
        None
    }
}

/// `usize`: a decimal integer with an optional plus sign, within the range of the
/// type.
impl FromEnv for usize {
    open spec fn parsed(value: Seq<char>) -> Result<usize, ErrorKind> {
        match decimal_within(value, false, usize::MIN as int, usize::MAX as int) {
            Some(n) => Ok(n as usize),
            None => Err(ErrorKind::InvalidFormat),
        }
    }

    open spec fn when_absent() -> Option<usize> {
        None
    }

    fn from_env(value: &str) -> (r: Result<Self, EnvErrorType>) {
        match parse_decimal(value, false, usize::MIN as i128, usize::MAX as i128) {
            Some(n) => Ok(n as usize),
            None => Err(EnvErrorType::InvalidFormat),
        }
    }

    fn absent() -> (r: Option<Self>) {
        None
    }
}

/// `bool`: `true` or `false`, written so.
impl FromEnv for bool {
    open spec fn parsed(value: Seq<char>) -> Result<bool, ErrorKind> {
        match truth(value) {
            Some(b) => Ok(b),
            None => Err(ErrorKind::InvalidFormat),
        }
    }

    open spec fn when_absent() -> Option<bool> {
        None
    }

    fn from_env(value: &str) -> (r: Result<Self, EnvErrorType>) {
        match parse_truth(value) {
            Some(b) => Ok(b),
            None => Err(EnvErrorType::InvalidFormat),
        }
    }

    fn absent() -> (r: Option<Self>) {
        None
    }
}

/// `String`: every text, as it is.
impl FromEnv for String {
    open spec fn parsed(value: Seq<char>) -> Result<Seq<char>, ErrorKind> {
        Ok(value)
    }

    open spec fn when_absent() -> Option<Seq<char>> {
        None
    }

    fn from_env(value: &str) -> (r: Result<Self, EnvErrorType>) {
        Ok(value.to_owned())
    }

    fn absent() -> (r: Option<Self>) {
        None
    }
}

/// An optional value: a text is parsed as the type inside, and an absent key
/// is no error but the empty value. This is what makes a field of a
/// composite one that may be left out. The two loads are written out for
/// it; `absent` hands the same to a type that wraps an optional one.
impl<T: FromEnv> FromEnv for Option<T> {
    open spec fn parsed(value: Seq<char>) -> Result<Option<<T as DeepView>::V>, ErrorKind> {
        match T::parsed(value) {
            Ok(inner) => Ok(Some(inner)),
            Err(ty) => Err(ty),
        }
    }

    open spec fn when_absent() -> Option<Option<<T as DeepView>::V>> {
        Some(None)
    }

    fn from_env(value: &str) -> (r: Result<Self, EnvErrorType>) {
        match T::from_env(value) {
            Ok(inner) => Ok(Some(inner)),
            Err(ty) => Err(ty),
        }
    }

    fn absent() -> (r: Option<Self>) {
        Some(None)
    }

    fn load(src: &Source, ident: &str) -> (r: Outcome<Self>) {
        match src.env.var(ident) {
            Ok(value) => Outcome::from_result(
                EnvError::convert(Self::from_env(value.as_str()), ident),
            ),
            Err(VarError::NotPresent) => Outcome::Loaded(None),
            Err(VarError::NotUnicode(bytes)) => Outcome::Failed(
                EnvError { var: ident.to_owned(), ty: EnvErrorType::NotUnicode(bytes) },
            ),
        }
    }

    fn load_or_file(src: &Source, ident: &str) -> (r: Outcome<Self>) {
        match src.probe_or_file(ident) {
            Outcome::Loaded(Some(text)) => Outcome::from_result(
                EnvError::convert(Self::from_env(text.as_str()), ident),
            ),
            Outcome::Loaded(None) => Outcome::Loaded(None),
            Outcome::Failed(error) => Outcome::Failed(error),
            Outcome::NeedsFile(path) => Outcome::NeedsFile(path),
        }
    }
}

} // verus!
