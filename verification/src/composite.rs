//! Loading by the type of a field, and loading a composite field by field.

use crate::entries::{find, seek};
use crate::error::{EnvError, EnvErrorType, ErrorKind};
use crate::ident::__join_idents;
use crate::loader::{key_of, load_of, load_or_file_of, parse_view, settled, FromEnv};
use crate::outcome::{Outcome, OutcomeView};
use crate::schema::{record_view, Composite, EnvField, FieldType, Value, ValueView};
use crate::source::{Source, SourceView};
use vstd::prelude::*;

verus! {

/// What a composite answers when it is asked to build itself from one text.
pub open spec fn no_text_form() -> Seq<char> {
    "'from' method not implemented for derive(FromEnv)"@
}

/// The value of the type `ty` that `text` denotes. A composite has no text
/// form, so no text denotes one.
pub open spec fn parsed_value(ty: FieldType, text: Seq<char>) -> Result<ValueView, ErrorKind>
    decreases ty,
{
    match ty {
        FieldType::I8 => match <i8 as FromEnv>::parsed(text) {
            Ok(n) => Ok(ValueView::I8(n)),
            Err(ty) => Err(ty),
        },
        FieldType::I16 => match <i16 as FromEnv>::parsed(text) {
            Ok(n) => Ok(ValueView::I16(n)),
            Err(ty) => Err(ty),
        },
        FieldType::I32 => match <i32 as FromEnv>::parsed(text) {
            Ok(n) => Ok(ValueView::I32(n)),
            Err(ty) => Err(ty),
        },
        FieldType::I64 => match <i64 as FromEnv>::parsed(text) {
            Ok(n) => Ok(ValueView::I64(n)),
            Err(ty) => Err(ty),
        },
        FieldType::Isize => match <isize as FromEnv>::parsed(text) {
            Ok(n) => Ok(ValueView::Isize(n)),
            Err(ty) => Err(ty),
        },
        FieldType::U8 => match <u8 as FromEnv>::parsed(text) {
            Ok(n) => Ok(ValueView::U8(n)),
            Err(ty) => Err(ty),
        },
        FieldType::U16 => match <u16 as FromEnv>::parsed(text) {
            Ok(n) => Ok(ValueView::U16(n)),
            Err(ty) => Err(ty),
        },
        FieldType::U32 => match <u32 as FromEnv>::parsed(text) {
            Ok(n) => Ok(ValueView::U32(n)),
            Err(ty) => Err(ty),
        },
        FieldType::U64 => match <u64 as FromEnv>::parsed(text) {
            Ok(n) => Ok(ValueView::U64(n)),
            Err(ty) => Err(ty),
        },
        FieldType::Usize => match <usize as FromEnv>::parsed(text) {
            Ok(n) => Ok(ValueView::Usize(n)),
            Err(ty) => Err(ty),
        },
        FieldType::Bool => match <bool as FromEnv>::parsed(text) {
            Ok(b) => Ok(ValueView::Bool(b)),
            Err(ty) => Err(ty),
        },
        FieldType::Text => Ok(ValueView::Text(text)),
        FieldType::Optional(inner) => match parsed_value(*inner, text) {
            Ok(value) => Ok(ValueView::Optional(Some(Box::new(value)))),
            Err(ty) => Err(ty),
        },
        FieldType::Masked(inner) => match parsed_value(*inner, text) {
            Ok(value) => Ok(ValueView::Masked(Box::new(value))),
            Err(ty) => Err(ty),
        },
        FieldType::Composite(_) => Err(ErrorKind::Other(no_text_form())),
    }
}

/// The value of the type `ty` that stands for an absent key, if the type
/// has one: the empty value of an optional type, masked where the type is.
pub open spec fn absent_value(ty: FieldType) -> Option<ValueView>
    decreases ty,
{
    match ty {
        FieldType::Optional(_) => Some(ValueView::Optional(None)),
        FieldType::Masked(inner) => match absent_value(*inner) {
            Some(value) => Some(ValueView::Masked(Box::new(value))),
            None => None,
        },
        _ => None,
    }
}

/// The outcome with its value masked, where it has one.
pub open spec fn masked(outcome: OutcomeView<ValueView>) -> OutcomeView<ValueView> {
    match outcome {
        OutcomeView::Loaded(value) => OutcomeView::Loaded(ValueView::Masked(Box::new(value))),
        other => other,
    }
}

/// The outcome with its fields made a record, where it has them.
pub open spec fn record(outcome: OutcomeView<Seq<(Seq<char>, ValueView)>>) -> OutcomeView<
    ValueView,
> {
    match outcome {
        OutcomeView::Loaded(fields) => OutcomeView::Loaded(ValueView::Record(fields)),
        OutcomeView::Failed(error) => OutcomeView::Failed(error),
        OutcomeView::NeedsFile(path) => OutcomeView::NeedsFile(path),
    }
}

/// The key that `field` is loaded from in a composite loaded under `parent`:
/// the key given with `name`, as it is written, or else the key that the
/// two identifiers make.
pub open spec fn field_key(field: EnvField, parent: Seq<char>) -> Seq<char> {
    key_of(parent, field.ident@, field.name.deep_view())
}

/// What loading a value of the type `ty` by the key `ident` gives. A
/// composite is loaded field by field, a masked type as the type inside,
/// every other type from the one text under the key.
pub open spec fn loaded_value(ty: FieldType, src: SourceView, ident: Seq<char>) -> OutcomeView<
    ValueView,
>
    decreases ty,
{
    match ty {
        FieldType::Composite(composite) => record(
            loaded_fields(composite.fields@, src, ident, composite.fields@.len()),
        ),
        FieldType::Masked(inner) => masked(loaded_value(*inner, src, ident)),
        _ => load_of(|text: Seq<char>| parsed_value(ty, text), absent_value(ty), src, ident),
    }
}

/// What loading a value of the type `ty` by the key `ident` with the
/// fall-back to a file gives. A masked type is loaded as the type inside,
/// every other type from one text; for a composite no text will do.
pub open spec fn loaded_or_file_value(
    ty: FieldType,
    src: SourceView,
    ident: Seq<char>,
) -> OutcomeView<ValueView>
    decreases ty,
{
    match ty {
        FieldType::Masked(inner) => masked(loaded_or_file_value(*inner, src, ident)),
        _ => load_or_file_of(
            |text: Seq<char>| parsed_value(ty, text),
            absent_value(ty),
            src,
            ident,
        ),
    }
}

/// What loading `field` gives in a composite loaded under `parent`.
pub open spec fn loaded_field(field: EnvField, src: SourceView, parent: Seq<char>) -> OutcomeView<
    ValueView,
>
    decreases field,
{
    if field.var_or_file {
        loaded_or_file_value(field.ty, src, field_key(field, parent))
    } else {
        loaded_value(field.ty, src, field_key(field, parent))
    }
}

/// What loading the first `n` of `fields` gives, in their order: the loaded
/// values by identifier, or the outcome of the first field that does not
/// load.
pub open spec fn loaded_fields(
    fields: Seq<EnvField>,
    src: SourceView,
    parent: Seq<char>,
    n: nat,
) -> OutcomeView<Seq<(Seq<char>, ValueView)>>
    decreases fields, n,
{
    if n == 0 || n > fields.len() {
        OutcomeView::Loaded(Seq::empty())
    } else {
        match loaded_fields(fields, src, parent, (n - 1) as nat) {
            OutcomeView::Loaded(before) => match loaded_field(fields[n - 1], src, parent) {
                OutcomeView::Loaded(value) => OutcomeView::Loaded(
                    before.push((fields[n - 1].ident@, value)),
                ),
                OutcomeView::Failed(error) => OutcomeView::Failed(error),
                OutcomeView::NeedsFile(path) => OutcomeView::NeedsFile(path),
            },
            other => other,
        }
    }
}

/// The mathematical value of the outcome of loading fields.
pub open spec fn fields_view(outcome: Outcome<Vec<(String, Value)>>) -> OutcomeView<
    Seq<(Seq<char>, ValueView)>,
> {
    match outcome {
        Outcome::Loaded(fields) => OutcomeView::Loaded(record_view(fields@, fields@.len())),
        Outcome::Failed(error) => OutcomeView::Failed(error@),
        Outcome::NeedsFile(path) => OutcomeView::NeedsFile(path@),
    }
}

/// Records that agree on their first `n` fields agree on the values of these.
proof fn lemma_record_agrees(a: Seq<(String, Value)>, b: Seq<(String, Value)>, n: nat)
    requires
        n <= a.len(),
        n <= b.len(),
        forall|i: int| 0 <= i < n ==> a[i] == b[i],
    ensures
        record_view(a, n) == record_view(b, n),
    decreases n,
{
    if n > 0 {
        lemma_record_agrees(a, b, (n - 1) as nat);
    }
}

impl FieldType {
    /// Builds the value of this type that `value` denotes.
    pub fn from_env(&self, value: &str) -> (r: Result<Value, EnvErrorType>)
        ensures
            parse_view(r) == parsed_value(*self, value@),
        decreases *self,
    {
        match self {
            FieldType::I8 => match <i8 as FromEnv>::from_env(value) {
                Ok(n) => Ok(Value::I8(n)),
                Err(ty) => Err(ty),
            },
            FieldType::I16 => match <i16 as FromEnv>::from_env(value) {
                Ok(n) => Ok(Value::I16(n)),
                Err(ty) => Err(ty),
            },
            FieldType::I32 => match <i32 as FromEnv>::from_env(value) {
                Ok(n) => Ok(Value::I32(n)),
                Err(ty) => Err(ty),
            },
            FieldType::I64 => match <i64 as FromEnv>::from_env(value) {
                Ok(n) => Ok(Value::I64(n)),
                Err(ty) => Err(ty),
            },
            FieldType::Isize => match <isize as FromEnv>::from_env(value) {
                Ok(n) => Ok(Value::Isize(n)),
                Err(ty) => Err(ty),
            },
            FieldType::U8 => match <u8 as FromEnv>::from_env(value) {
                Ok(n) => Ok(Value::U8(n)),
                Err(ty) => Err(ty),
            },
            FieldType::U16 => match <u16 as FromEnv>::from_env(value) {
                Ok(n) => Ok(Value::U16(n)),
                Err(ty) => Err(ty),
            },
            FieldType::U32 => match <u32 as FromEnv>::from_env(value) {
                Ok(n) => Ok(Value::U32(n)),
                Err(ty) => Err(ty),
            },
            FieldType::U64 => match <u64 as FromEnv>::from_env(value) {
                Ok(n) => Ok(Value::U64(n)),
                Err(ty) => Err(ty),
            },
            FieldType::Usize => match <usize as FromEnv>::from_env(value) {
                Ok(n) => Ok(Value::Usize(n)),
                Err(ty) => Err(ty),
            },
            FieldType::Bool => match <bool as FromEnv>::from_env(value) {
                Ok(b) => Ok(Value::Bool(b)),
                Err(ty) => Err(ty),
            },
            FieldType::Text => Ok(Value::Text(value.to_owned())),
            FieldType::Optional(inner) => match inner.from_env(value) {
                Ok(found) => Ok(Value::Optional(Some(Box::new(found)))),
                Err(ty) => Err(ty),
            },
            FieldType::Masked(inner) => match inner.from_env(value) {
                Ok(found) => Ok(Value::Masked(Box::new(found))),
                Err(ty) => Err(ty),
            },
            FieldType::Composite(composite) => composite.from_env(value),
        }
    }

    /// The value of this type that stands for an absent key, if the type
    /// has one.
    pub fn absent(&self) -> (r: Option<Value>)
        ensures
            match r {
                Some(value) => absent_value(*self) == Some(value.deep_view()),
                None => absent_value(*self) is None,
            },
        decreases *self,
    {
        match self {
            FieldType::Optional(_) => Some(Value::Optional(None)),
            FieldType::Masked(inner) => match inner.absent() {
                Some(value) => Some(Value::Masked(Box::new(value))),
                None => None,
            },
            _ => None,
        }
    }

    /// Makes the value of this type from the text that was found for
    /// `ident`, or reports `missing` where there is none and the type needs
    /// one.
    fn settle(&self, text: Outcome<Option<String>>, ident: &str, missing: &str) -> (r: Outcome<
        Value,
    >)
        ensures
            r.deep_view() == settled(
                text.deep_view(),
                |text: Seq<char>| parsed_value(*self, text),
                absent_value(*self),
                ident@,
                missing@,
            ),
    {
        match text {
            Outcome::Loaded(Some(text)) => Outcome::from_result(
                EnvError::convert(self.from_env(text.as_str()), ident),
            ),
            Outcome::Loaded(None) => match self.absent() {
                Some(value) => Outcome::Loaded(value),
                None => Outcome::Failed(
                    EnvError { var: missing.to_owned(), ty: EnvErrorType::NotPresent },
                ),
            },
            Outcome::Failed(error) => Outcome::Failed(error),
            Outcome::NeedsFile(path) => Outcome::NeedsFile(path),
        }
    }

    /// Loads a value of this type by the key `ident`.
    pub fn load(&self, src: &Source, ident: &str) -> (r: Outcome<Value>)
        ensures
            r.deep_view() == loaded_value(*self, src@, ident@),
        decreases *self,
    {
        match self {
            FieldType::Composite(composite) => composite.load(src, ident),
            FieldType::Masked(inner) => match inner.load(src, ident) {
                Outcome::Loaded(value) => Outcome::Loaded(Value::Masked(Box::new(value))),
                other => other,
            },
            _ => self.settle(src.probe(ident), ident, ident),
        }
    }

    /// Loads a value of this type by the key `ident`, with the fall-back to
    /// a file.
    pub fn load_or_file(&self, src: &Source, ident: &str) -> (r: Outcome<Value>)
        ensures
            r.deep_view() == loaded_or_file_value(*self, src@, ident@),
        decreases *self,
    {
        match self {
            FieldType::Masked(inner) => match inner.load_or_file(src, ident) {
                Outcome::Loaded(value) => Outcome::Loaded(Value::Masked(Box::new(value))),
                other => other,
            },
            _ => {
                let missing = ident.to_owned().concat("_FILE");
                self.settle(src.probe_or_file(ident), ident, missing.as_str())
            },
        }
    }
}

impl EnvField {
    /// The key that the field is loaded from in a composite loaded under
    /// `parent`.
    pub fn key(&self, parent: &str) -> (r: String)
        ensures
            r@ == field_key(*self, parent@),
    {
        match &self.name {
            Some(name) => name.clone(),
            None => __join_idents(parent, self.ident.as_str()),
        }
    }

    /// Loads the field of a composite that is loaded under `parent`.
    pub fn load(&self, src: &Source, parent: &str) -> (r: Outcome<Value>)
        ensures
            r.deep_view() == loaded_field(*self, src@, parent@),
        decreases *self,
    {
        let key = self.key(parent);
        if self.var_or_file {
            self.ty.load_or_file(src, key.as_str())
        } else {
            self.ty.load(src, key.as_str())
        }
    }
}

/// Loads the first `n` of `fields`, in their order, and stops at the first
/// that does not load.
fn load_fields(fields: &Vec<EnvField>, src: &Source, parent: &str, n: usize) -> (r: Outcome<
    Vec<(String, Value)>,
>)
    requires
        n <= fields.len(),
    ensures
        fields_view(r) == loaded_fields(fields@, src@, parent@, n as nat),
    decreases fields@, n,
{
    if n == 0 {
        return Outcome::Loaded(Vec::new());
    }
    match load_fields(fields, src, parent, n - 1) {
        Outcome::Loaded(mut before) => match fields[n - 1].load(src, parent) {
            Outcome::Loaded(value) => {
                let ghost earlier = before@;
                before.push((fields[n - 1].ident.clone(), value));
                proof {
                    lemma_record_agrees(earlier, before@, earlier.len());
                }
                Outcome::Loaded(before)
            },
            Outcome::Failed(error) => Outcome::Failed(error),
            Outcome::NeedsFile(path) => Outcome::NeedsFile(path),
        },
        Outcome::Failed(error) => Outcome::Failed(error),
        Outcome::NeedsFile(path) => Outcome::NeedsFile(path),
    }
}

impl Composite {
    /// What loading the composite under `ident` gives.
    pub open spec fn loaded(self, src: SourceView, ident: Seq<char>) -> OutcomeView<ValueView> {
        loaded_value(FieldType::Composite(self), src, ident)
    }

    /// A composite has no text form: no text builds one.
    pub fn from_env(&self, value: &str) -> (r: Result<Value, EnvErrorType>)
        ensures
            parse_view(r) == Err::<ValueView, ErrorKind>(ErrorKind::Other(no_text_form())),
    {
        Err(EnvErrorType::Other("'from' method not implemented for derive(FromEnv)".to_owned()))
    }

    /// Loads the composite under `ident`: every field from its own key, in
    /// the order of declaration. The first field that does not load decides
    /// the outcome, and no later field is looked at.
    pub fn load(&self, src: &Source, ident: &str) -> (r: Outcome<Value>)
        ensures
            r.deep_view() == self.loaded(src@, ident@),
        decreases *self,
    {
        match load_fields(&self.fields, src, ident, self.fields.len()) {
            Outcome::Loaded(fields) => Outcome::Loaded(Value::Record(fields)),
            Outcome::Failed(error) => Outcome::Failed(error),
            Outcome::NeedsFile(path) => Outcome::NeedsFile(path),
        }
    }

    /// Loads with the fall-back to a file. This asks for the composite's
    /// text form, which it has not: where a text is found the load fails.
    pub fn load_or_file(&self, src: &Source, ident: &str) -> (r: Outcome<Value>)
        ensures
            r.deep_view() == loaded_or_file_value(FieldType::Composite(*self), src@, ident@),
    {
        match src.probe_or_file(ident) {
            Outcome::Loaded(Some(text)) => Outcome::from_result(
                EnvError::convert(self.from_env(text.as_str()), ident),
            ),
            Outcome::Loaded(None) => Outcome::Failed(
                EnvError { var: ident.to_owned().concat("_FILE"), ty: EnvErrorType::NotPresent },
            ),
            Outcome::Failed(error) => Outcome::Failed(error),
            Outcome::NeedsFile(path) => Outcome::NeedsFile(path),
        }
    }
}

impl Value {
    /// The field `name` of a record.
    pub fn field(&self, name: &str) -> (r: Option<&Value>)
        ensures
            r == match *self {
                Value::Record(fields) => match find(fields@, name@) {
                    Some(value) => Some(&value),
                    None => None,
                },
                _ => None::<&Value>,
            },
    {
        match self {
            Value::Record(fields) => seek(fields, name),
            _ => None,
        }
    }
}

} // verus!
