//! Loaded values as text for a person to read. What is masked is never
//! written out.

use crate::masked::redaction;
use crate::schema::{record_view, Value, ValueView};
use crate::text::text_of;
use vstd::prelude::*;

verus! {

/// The character of the digit `d`.
pub open spec fn digit_char(d: int) -> char {
    (('0' as int) + d) as char
}

/// The decimal digits of `n`, without leading zeros.
pub open spec fn digits_of(n: nat) -> Seq<char>
    decreases n,
{
    if n < 10 {
        seq![digit_char(n as int)]
    } else {
        digits_of(n / 10).push(digit_char((n % 10) as int))
    }
}

/// The decimal text of `n`: its digits, behind a minus sign where `n` is
/// negative.
pub open spec fn int_text(n: int) -> Seq<char> {
    if n < 0 {
        seq!['-'] + digits_of((-n) as nat)
    } else {
        digits_of(n as nat)
    }
}

/// The text of `value`. A masked value is the redaction marker, whatever is
/// inside it. A text stands between quotes, an optional value as `None` or
/// inside `Some(..)`, and a record as its fields between braces, each with
/// its identifier.
pub open spec fn rendered(value: ValueView) -> Seq<char>
    decreases value,
{
    match value {
        ValueView::I8(n) => int_text(n as int),
        ValueView::I16(n) => int_text(n as int),
        ValueView::I32(n) => int_text(n as int),
        ValueView::I64(n) => int_text(n as int),
        ValueView::Isize(n) => int_text(n as int),
        ValueView::U8(n) => int_text(n as int),
        ValueView::U16(n) => int_text(n as int),
        ValueView::U32(n) => int_text(n as int),
        ValueView::U64(n) => int_text(n as int),
        ValueView::Usize(n) => int_text(n as int),
        ValueView::Bool(b) => if b {
            "true"@
        } else {
            "false"@
        },
        ValueView::Text(text) => "\""@ + text + "\""@,
        ValueView::Optional(None) => "None"@,
        ValueView::Optional(Some(inner)) => "Some("@ + rendered(*inner) + ")"@,
        ValueView::Masked(_) => redaction(),
        ValueView::Record(fields) => "{"@ + rendered_fields(fields, fields.len()) + "}"@,
    }
}

/// The text of the first `n` fields of a record, with a comma between one
/// field and the next.
pub open spec fn rendered_fields(fields: Seq<(Seq<char>, ValueView)>, n: nat) -> Seq<char>
    decreases fields, n,
{
    if n == 0 || n > fields.len() {
        Seq::empty()
    } else if n == 1 {
        fields[0].0 + ": "@ + rendered(fields[0].1)
    } else {
        rendered_fields(fields, (n - 1) as nat) + ", "@ + fields[n - 1].0 + ": "@ + rendered(
            fields[n - 1].1,
        )
    }
}

/// The value with everything that is masked taken out of it: whatever a
/// mask holds, the same stands in its place.
pub open spec fn redacted(value: ValueView) -> ValueView
    decreases value,
{
    match value {
        ValueView::Masked(_) => ValueView::Masked(Box::new(ValueView::Bool(false))),
        ValueView::Optional(Some(inner)) => ValueView::Optional(Some(Box::new(redacted(*inner)))),
        ValueView::Record(fields) => ValueView::Record(redacted_fields(fields, fields.len())),
        other => other,
    }
}

/// The first `n` fields of a record with everything that is masked taken
/// out of their values.
pub open spec fn redacted_fields(fields: Seq<(Seq<char>, ValueView)>, n: nat) -> Seq<
    (Seq<char>, ValueView),
>
    decreases fields, n,
{
    if n == 0 || n > fields.len() {
        Seq::empty()
    } else {
        redacted_fields(fields, (n - 1) as nat).push((fields[n - 1].0, redacted(fields[n - 1].1)))
    }
}

/// The decimal text of `n`.
pub fn integer_text(n: i128) -> (s: String)
    ensures
        s@ == int_text(n as int),
{
    let negative = n < 0;
    let magnitude: u128 = if n == i128::MIN {
        0x8000_0000_0000_0000_0000_0000_0000_0000
    } else if negative {
        (-n) as u128
    } else {
        n as u128
    };
    let mut rest = magnitude;
    let mut digits: Vec<char> = Vec::new();
    while rest >= 10
        invariant
            digits_of(magnitude as nat) == digits_of(rest as nat) + digits@,
        decreases rest,
    {
        let d = (rest % 10) as u8;
        let ghost before = digits@;
        digits.insert(0, (48 + d) as char);
        proof {
            assert(digits@ =~= seq![digit_char(d as int)] + before);
            assert(digits_of(rest as nat) + before =~= digits_of((rest / 10) as nat) + digits@);
        }
        rest = rest / 10;
    }
    let ghost before = digits@;
    digits.insert(0, (48 + (rest as u8)) as char);
    proof {
        assert(digits@ =~= digits_of(rest as nat) + before);
    }
    if negative {
        let ghost unsigned = digits@;
        digits.insert(0, '-');
        proof {
            assert(digits@ =~= seq!['-'] + unsigned);
        }
    }
    text_of(&digits)
}

/// The mathematical value of a record holds, field by field, the identifier
/// and the mathematical value of the field.
proof fn lemma_record_field(fields: Seq<(String, Value)>, n: nat, i: int)
    requires
        0 <= i < n <= fields.len(),
    ensures
        record_view(fields, n)[i] == (fields[i].0@, fields[i].1.deep_view()),
    decreases n,
{
    lemma_record_len(fields, (n - 1) as nat);
    if i < n - 1 {
        lemma_record_field(fields, (n - 1) as nat, i);
    }
}

/// The mathematical value of a record has as many fields as the record.
proof fn lemma_record_len(fields: Seq<(String, Value)>, n: nat)
    requires
        n <= fields.len(),
    ensures
        record_view(fields, n).len() == n,
    decreases n,
{
    if n > 0 {
        lemma_record_len(fields, (n - 1) as nat);
    }
}

impl Value {
    /// The value as text. What is masked shows as the redaction marker.
    pub fn to_text(&self) -> (s: String)
        ensures
            s@ == rendered(self.deep_view()),
        decreases *self,
    {
        match self {
            Value::I8(n) => integer_text(*n as i128),
            Value::I16(n) => integer_text(*n as i128),
            Value::I32(n) => integer_text(*n as i128),
            Value::I64(n) => integer_text(*n as i128),
            Value::Isize(n) => integer_text(*n as i128),
            Value::U8(n) => integer_text(*n as i128),
            Value::U16(n) => integer_text(*n as i128),
            Value::U32(n) => integer_text(*n as i128),
            Value::U64(n) => integer_text(*n as i128),
            Value::Usize(n) => integer_text(*n as i128),
            Value::Bool(b) => if *b {
                "true".to_owned()
            } else {
                "false".to_owned()
            },
            Value::Text(text) => "\"".to_owned().concat(text.as_str()).concat("\""),
            Value::Optional(None) => "None".to_owned(),
            Value::Optional(Some(inner)) => {
                let inside = inner.to_text();
                "Some(".to_owned().concat(inside.as_str()).concat(")")
            },
            Value::Masked(_) => "***".to_owned(),
            Value::Record(fields) => {
                let inside = fields_text(fields, fields.len());
                proof {
                    lemma_record_len(fields@, fields@.len());
                }
                "{".to_owned().concat(inside.as_str()).concat("}")
            },
        }
    }
}

/// The text of the first `n` fields of a record.
fn fields_text(fields: &Vec<(String, Value)>, n: usize) -> (s: String)
    requires
        n <= fields.len(),
    ensures
        s@ == rendered_fields(record_view(fields@, fields@.len()), n as nat),
    decreases fields@, n,
{
    if n == 0 {
        return String::new();
    }
    proof {
        lemma_record_len(fields@, fields@.len());
        lemma_record_field(fields@, fields@.len(), n - 1);
    }
    let head = if n == 1 {
        String::new()
    } else {
        fields_text(fields, n - 1).concat(", ")
    };
    let value = fields[n - 1].1.to_text();
    head.concat(fields[n - 1].0.as_str()).concat(": ").concat(value.as_str())
}

} // verus!
