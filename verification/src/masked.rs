//! A wrapper for values that must not show in what is printed.

use crate::error::{EnvErrorType, ErrorKind};
use crate::loader::FromEnv;
use crate::outcome::Outcome;
use crate::source::Source;
use vstd::prelude::*;

verus! {

/// A value that loads as its inner type does and is never rendered: its text
/// is always the same three asterisks.
pub struct Masked<T>(pub T);

/// What stands in print for every masked value.
pub open spec fn redaction() -> Seq<char> {
    "***"@
}

/// The mathematical value of a masked value is that of the value inside.
impl<T: DeepView> DeepView for Masked<T> {
    type V = T::V;

    open spec fn deep_view(&self) -> T::V {
        self.0.deep_view()
    }
}

impl<T> Masked<T> {
    /// The text that stands for the value: the redaction marker, whatever
    /// the value is.
    pub fn to_text(&self) -> (s: String)
        ensures
            s@ == redaction(),
    {
        "***".to_owned()
    }

    /// The value inside.
    pub fn into_inner(self) -> (r: T)
        ensures
            r == self.0,
    {
        self.0
    }
}

/// Masks a value.
impl<T> From<T> for Masked<T> {
    fn from(value: T) -> (r: Self) {
        Masked(value)
    }
}

impl<T> vstd::std_specs::convert::FromSpecImpl<T> for Masked<T> {
    open spec fn obeys_from_spec() -> bool {
        true
    }

    open spec fn from_spec(value: T) -> Self {
        Masked(value)
    }
}

/// A masked value parses and loads as the type inside: the same values, the
/// same failures, the same value for an absent key.
impl<T: FromEnv> FromEnv for Masked<T> {
    open spec fn parsed(value: Seq<char>) -> Result<<T as DeepView>::V, ErrorKind> {
        T::parsed(value)
    }

    open spec fn when_absent() -> Option<<T as DeepView>::V> {
        T::when_absent()
    }

    fn from_env(value: &str) -> (r: Result<Self, EnvErrorType>) {
        match T::from_env(value) {
            Ok(inner) => Ok(Masked(inner)),
            Err(ty) => Err(ty),
        }
    }

    fn absent() -> (r: Option<Self>) {
        match T::absent() {
            Some(inner) => Some(Masked(inner)),
            None => None,
        }
    }

    fn load(src: &Source, ident: &str) -> (r: Outcome<Self>) {
        match T::load(src, ident) {
            Outcome::Loaded(inner) => Outcome::Loaded(Masked(inner)),
            Outcome::Failed(error) => Outcome::Failed(error),
            Outcome::NeedsFile(path) => Outcome::NeedsFile(path),
        }
    }

    fn load_or_file(src: &Source, ident: &str) -> (r: Outcome<Self>) {
        match T::load_or_file(src, ident) {
            Outcome::Loaded(inner) => Outcome::Loaded(Masked(inner)),
            Outcome::Failed(error) => Outcome::Failed(error),
            Outcome::NeedsFile(path) => Outcome::NeedsFile(path),
        }
    }
}

} // verus!
