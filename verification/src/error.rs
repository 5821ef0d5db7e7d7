//! What can go wrong while a key is resolved, and the key it went wrong for.

use vstd::prelude::*;

verus! {

/// Why a lookup in the namespace gave no text.
#[derive(Debug, PartialEq, Eq)]
pub enum VarError {
    /// The namespace has nothing under the key.
    NotPresent,
    /// The namespace has a value under the key that is no text; these are its bytes.
    NotUnicode(Vec<u8>),
}

/// Why a key could not be turned into a value.
#[derive(Debug, PartialEq, Eq)]
pub enum EnvErrorType {
    /// The namespace has nothing under the key.
    NotPresent,
    /// The value under the key is no text; these are its bytes.
    NotUnicode(Vec<u8>),
    /// The text under the key is not a value of the type asked for.
    InvalidFormat,
    /// Anything else, in words; a file that could not be read ends here.
    Other(String),
}

/// A cause together with the key whose resolution met it.
#[derive(Debug, PartialEq, Eq)]
pub struct EnvError {
    pub var: String,
    pub ty: EnvErrorType,
}

/// The mathematical value of an [`EnvErrorType`].
pub enum ErrorKind {
    NotPresent,
    NotUnicode(Seq<u8>),
    InvalidFormat,
    Other(Seq<char>),
}

/// The mathematical value of an [`EnvError`].
pub struct ErrorView {
    pub var: Seq<char>,
    pub ty: ErrorKind,
}

impl View for VarError {
    type V = ErrorKind;

    open spec fn view(&self) -> ErrorKind {
        match self {
            VarError::NotPresent => ErrorKind::NotPresent,
            VarError::NotUnicode(bytes) => ErrorKind::NotUnicode(bytes@),
        }
    }
}

impl View for EnvErrorType {
    type V = ErrorKind;

    open spec fn view(&self) -> ErrorKind {
        match self {
            EnvErrorType::NotPresent => ErrorKind::NotPresent,
            EnvErrorType::NotUnicode(bytes) => ErrorKind::NotUnicode(bytes@),
            EnvErrorType::InvalidFormat => ErrorKind::InvalidFormat,
            EnvErrorType::Other(words) => ErrorKind::Other(words@),
        }
    }
}

impl View for EnvError {
    type V = ErrorView;

    open spec fn view(&self) -> ErrorView {
        ErrorView { var: self.var@, ty: self.ty@ }
    }
}

/// A failed lookup as the cause of an error: the same variant, the same bytes.
impl From<VarError> for EnvErrorType {
    fn from(value: VarError) -> (r: Self) {
        match value {
            VarError::NotPresent => EnvErrorType::NotPresent,
            VarError::NotUnicode(bytes) => EnvErrorType::NotUnicode(bytes),
        }
    }
}

impl vstd::std_specs::convert::FromSpecImpl<VarError> for EnvErrorType {
    open spec fn obeys_from_spec() -> bool {
        true
    }

    open spec fn from_spec(value: VarError) -> Self {
        match value {
            VarError::NotPresent => EnvErrorType::NotPresent,
            VarError::NotUnicode(bytes) => EnvErrorType::NotUnicode(bytes),
        }
    }
}

/// The words that stand for a cause in a message.
pub open spec fn cause_text(ty: ErrorKind) -> Seq<char> {
    match ty {
        ErrorKind::NotPresent => "Not present"@,
        ErrorKind::NotUnicode(_) => "Not valid unicode"@,
        ErrorKind::InvalidFormat => "Unable to parse"@,
        ErrorKind::Other(words) => words,
    }
}

/// The message of an error: the key between quotes, then the cause.
pub open spec fn message_text(e: ErrorView) -> Seq<char> {
    "Error parsing environment variable '"@ + e.var + "': "@ + cause_text(e.ty)
}

impl EnvError {
    /// Attaches `ident` to the failure of `res`; a success passes through.
    pub fn convert<T>(res: Result<T, EnvErrorType>, ident: &str) -> (r: Result<T, EnvError>)
        ensures
            match res {
                Ok(v) => r == Ok::<T, EnvError>(v),
                Err(ty) => r matches Err(e) && e.var@ == ident@ && e.ty == ty,
            },
    {
        match res {
            Ok(v) => Ok(v),
            Err(ty) => Err(EnvError { var: ident.to_owned(), ty }),
        }
    }

    /// The error as a line of text for a person to read.
    pub fn to_text(&self) -> (s: String)
        ensures
            s@ == message_text(self@),
    {
        let head = "Error parsing environment variable '".to_owned();
        let head = head.concat(self.var.as_str());
        let head = head.concat("': ");
        match &self.ty {
            EnvErrorType::NotPresent => head.concat("Not present"),
            EnvErrorType::NotUnicode(_) => head.concat("Not valid unicode"),
            EnvErrorType::InvalidFormat => head.concat("Unable to parse"),
            EnvErrorType::Other(words) => head.concat(words.as_str()),
        }
    }
}

} // verus!
