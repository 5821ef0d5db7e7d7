//! Typed configuration values built from a flat namespace of named texts.
//!
//! A [`Source`] holds the namespace and what reading files gave so far. A
//! type that implements [`FromEnv`] says how a text becomes a value of it
//! and is then loaded by key in two ways: from the text under the key, or
//! with a fall-back to the contents of the file whose path stands under the
//! key with `_FILE` appended. A load ends in an [`Outcome`]: the value, an
//! [`EnvError`] that names the key it failed for, or the path of a file that
//! has to be read first. The library reads no file itself; whoever calls it
//! reads the file, records the reading with [`FileStore::record`] and loads
//! again.
//!
//! A [`Composite`] is the loader of a struct. [`derive_env_config`] makes it
//! from the struct's declaration: each field gets its key, from its
//! identifier and the key above it or from a `name` given in an attribute,
//! and its way of loading. Loading a composite loads the fields in the order
//! of declaration and stops at the first that does not load.
//!
//! The module [`laws`] states what holds of loading for every source.

pub mod composite;
pub mod derive;
pub mod entries;
pub mod error;
pub mod ident;
pub mod laws;
pub mod loader;
pub mod masked;
pub mod outcome;
pub mod render;
pub mod scalar;
pub mod schema;
pub mod source;
pub mod text;

pub use derive::{
    apply_arg, apply_args, apply_attr, derive_env_config, handle_field, read_attrs, refusal,
    try_derive_env_config, try_handle_field, Attribute, Data, DeriveError, DeriveInput, Field,
    Fields, Meta, Settings,
};
pub use error::{EnvError, EnvErrorType, ErrorKind, ErrorView, VarError};
pub use ident::{__convert_ident, __join_idents};
pub use loader::{load_field, FromEnv};
pub use masked::Masked;
pub use outcome::{Outcome, OutcomeView};
pub use schema::{Composite, EnvField, FieldType, Value, ValueView};
pub use source::{FileStore, Namespace, Source, SourceView, VarValue, VarView};
