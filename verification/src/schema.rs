//! What a composite is made of: the types that a field can have and the
//! values that loading gives.

use crate::text::same_text;
use vstd::prelude::*;

verus! {

/// The type of a field, as far as loading goes.
#[derive(Debug, PartialEq, Eq)]
pub enum FieldType {
    I8,
    I16,
    I32,
    I64,
    Isize,
    U8,
    U16,
    U32,
    U64,
    Usize,
    Bool,
    Text,
    /// A value that may be absent.
    Optional(Box<FieldType>),
    /// A value that is never rendered.
    Masked(Box<FieldType>),
    /// A composite of its own, loaded below the field's key.
    Composite(Composite),
}

/// A field of a composite with what its attributes said.
#[derive(Debug, PartialEq, Eq)]
pub struct EnvField {
    /// The field's identifier.
    pub ident: String,
    /// The field's type.
    pub ty: FieldType,
    /// Whether the field is loaded with the fall-back to a file.
    pub var_or_file: bool,
    /// The key to load the field from, where one was given in place of the
    /// key that the identifiers make.
    pub name: Option<String>,
}

/// A composite type: its name and its fields in the order of declaration.
/// It is also the loader of the type.
#[derive(Debug, PartialEq, Eq)]
pub struct Composite {
    pub ident: String,
    pub fields: Vec<EnvField>,
}

/// A loaded value.
#[derive(PartialEq, Eq)]
pub enum Value {
    I8(i8),
    I16(i16),
    I32(i32),
    I64(i64),
    Isize(isize),
    U8(u8),
    U16(u16),
    U32(u32),
    U64(u64),
    Usize(usize),
    Bool(bool),
    Text(String),
    Optional(Option<Box<Value>>),
    Masked(Box<Value>),
    /// The fields of a composite by identifier, in the order of declaration.
    Record(Vec<(String, Value)>),
}

/// The mathematical value of a [`Value`].
pub enum ValueView {
    I8(i8),
    I16(i16),
    I32(i32),
    I64(i64),
    Isize(isize),
    U8(u8),
    U16(u16),
    U32(u32),
    U64(u64),
    Usize(usize),
    Bool(bool),
    Text(Seq<char>),
    Optional(Option<Box<ValueView>>),
    Masked(Box<ValueView>),
    Record(Seq<(Seq<char>, ValueView)>),
}

/// The mathematical value of `value`.
pub open spec fn value_view(value: Value) -> ValueView
    decreases value,
{
    match value {
        Value::I8(n) => ValueView::I8(n),
        Value::I16(n) => ValueView::I16(n),
        Value::I32(n) => ValueView::I32(n),
        Value::I64(n) => ValueView::I64(n),
        Value::Isize(n) => ValueView::Isize(n),
        Value::U8(n) => ValueView::U8(n),
        Value::U16(n) => ValueView::U16(n),
        Value::U32(n) => ValueView::U32(n),
        Value::U64(n) => ValueView::U64(n),
        Value::Usize(n) => ValueView::Usize(n),
        Value::Bool(b) => ValueView::Bool(b),
        Value::Text(text) => ValueView::Text(text@),
        Value::Optional(Some(inner)) => ValueView::Optional(Some(Box::new(value_view(*inner)))),
        Value::Optional(None) => ValueView::Optional(None),
        Value::Masked(inner) => ValueView::Masked(Box::new(value_view(*inner))),
        Value::Record(fields) => ValueView::Record(record_view(fields@, fields@.len())),
    }
}

/// The mathematical values of the first `n` fields of a record.
pub open spec fn record_view(fields: Seq<(String, Value)>, n: nat) -> Seq<(Seq<char>, ValueView)>
    decreases fields, n,
{
    if n == 0 || n > fields.len() {
        Seq::empty()
    } else {
        record_view(fields, (n - 1) as nat).push(
            (fields[n - 1].0@, value_view(fields[n - 1].1)),
        )
    }
}

impl DeepView for Value {
    type V = ValueView;

    open spec fn deep_view(&self) -> ValueView {
        value_view(*self)
    }
}

/// The scalar type that is written `name`, if there is one.
pub open spec fn scalar_named(name: Seq<char>) -> Option<FieldType> {
    if name == "i8"@ {
        Some(FieldType::I8)
    } else if name == "i16"@ {
        Some(FieldType::I16)
    } else if name == "i32"@ {
        Some(FieldType::I32)
    } else if name == "i64"@ {
        Some(FieldType::I64)
    } else if name == "isize"@ {
        Some(FieldType::Isize)
    } else if name == "u8"@ {
        Some(FieldType::U8)
    } else if name == "u16"@ {
        Some(FieldType::U16)
    } else if name == "u32"@ {
        Some(FieldType::U32)
    } else if name == "u64"@ {
        Some(FieldType::U64)
    } else if name == "usize"@ {
        Some(FieldType::Usize)
    } else if name == "bool"@ {
        Some(FieldType::Bool)
    } else if name == "String"@ {
        Some(FieldType::Text)
    } else {
        None
    }
}

impl FieldType {
    /// The scalar type that is written `name`, if there is one.
    pub fn scalar(name: &str) -> (r: Option<FieldType>)
        ensures
            r == scalar_named(name@),
    {
        if same_text(name, "i8") {
            Some(FieldType::I8)
        } else if same_text(name, "i16") {
            Some(FieldType::I16)
        } else if same_text(name, "i32") {
            Some(FieldType::I32)
        } else if same_text(name, "i64") {
            Some(FieldType::I64)
        } else if same_text(name, "isize") {
            Some(FieldType::Isize)
        } else if same_text(name, "u8") {
            Some(FieldType::U8)
        } else if same_text(name, "u16") {
            Some(FieldType::U16)
        } else if same_text(name, "u32") {
            Some(FieldType::U32)
        } else if same_text(name, "u64") {
            Some(FieldType::U64)
        } else if same_text(name, "usize") {
            Some(FieldType::Usize)
        } else if same_text(name, "bool") {
            Some(FieldType::Bool)
        } else if same_text(name, "String") {
            Some(FieldType::Text)
        } else {
            None
        }
    }
}

} // verus!
