//! How a load ends.

use crate::error::{EnvError, ErrorView};
use vstd::prelude::*;

verus! {

/// How a load ends: with the value, with an error, or with the path of a file
/// that has to be read before the load can be decided.
#[derive(Debug, PartialEq, Eq)]
pub enum Outcome<T> {
    /// The value was built.
    Loaded(T),
    /// The load failed; the error names the key that it failed for.
    Failed(EnvError),
    /// The namespace points to the file at this path and the source does not
    /// hold what reading it gave.
    NeedsFile(String),
}

/// The mathematical value of an [`Outcome`].
pub enum OutcomeView<V> {
    Loaded(V),
    Failed(ErrorView),
    NeedsFile(Seq<char>),
}

impl<T: DeepView> DeepView for Outcome<T> {
    type V = OutcomeView<T::V>;

    open spec fn deep_view(&self) -> OutcomeView<T::V> {
        match self {
            Outcome::Loaded(value) => OutcomeView::Loaded(value.deep_view()),
            Outcome::Failed(error) => OutcomeView::Failed(error@),
            Outcome::NeedsFile(path) => OutcomeView::NeedsFile(path@),
        }
    }
}

impl<V> OutcomeView<V> {
    /// The outcome with `f` applied to the value, where there is one.
    pub open spec fn map<W>(self, f: spec_fn(V) -> W) -> OutcomeView<W> {
        match self {
            OutcomeView::Loaded(value) => OutcomeView::Loaded(f(value)),
            OutcomeView::Failed(error) => OutcomeView::Failed(error),
            OutcomeView::NeedsFile(path) => OutcomeView::NeedsFile(path),
        }
    }
}

impl<T> Outcome<T> {
    /// The outcome as a `Result`, or `None` where a file has to be read first.
    pub fn into_result(self) -> (r: Option<Result<T, EnvError>>)
        ensures
            r == match self {
                Outcome::Loaded(value) => Some(Ok::<T, EnvError>(value)),
                Outcome::Failed(error) => Some(Err::<T, EnvError>(error)),
                Outcome::NeedsFile(_) => None::<Result<T, EnvError>>,
            },
    {
        match self {
            Outcome::Loaded(value) => Some(Ok(value)),
            Outcome::Failed(error) => Some(Err(error)),
            Outcome::NeedsFile(_) => None,
        }
    }

    /// The value, or the outcome as that of a load of another type that
    /// stops where this one stopped.
    pub fn or_stop<U>(self) -> (r: Result<T, Outcome<U>>)
        ensures
            r == match self {
                Outcome::Loaded(value) => Ok::<T, Outcome<U>>(value),
                Outcome::Failed(error) => Err::<T, Outcome<U>>(Outcome::Failed(error)),
                Outcome::NeedsFile(path) => Err::<T, Outcome<U>>(Outcome::NeedsFile(path)),
            },
    {
        match self {
            Outcome::Loaded(value) => Ok(value),
            Outcome::Failed(error) => Err(Outcome::Failed(error)),
            Outcome::NeedsFile(path) => Err(Outcome::NeedsFile(path)),
        }
    }

    /// The success or failure of a `Result` as an outcome.
    pub fn from_result(res: Result<T, EnvError>) -> (r: Self)
        ensures
            r == match res {
                Ok(value) => Outcome::Loaded(value),
                Err(error) => Outcome::Failed(error),
            },
    {
        match res {
            Ok(value) => Outcome::Loaded(value),
            Err(error) => Outcome::Failed(error),
        }
    }
}

} // verus!
