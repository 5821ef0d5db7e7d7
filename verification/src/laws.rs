//! What holds of loading, whatever the source and the type.

use crate::composite::{
    field_key, loaded_field, loaded_fields, loaded_or_file_value, loaded_value, masked,
    parsed_value,
};
use crate::derive::{attrs_applied, first_refusal, lemma_refusal_stays, plain, Field};
use crate::error::{ErrorKind, ErrorView};
use crate::ident::uppercase;
use crate::loader::{load_of, load_or_file_of, loaded, loaded_or_file, FromEnv};
use crate::masked::Masked;
use crate::outcome::OutcomeView;
use crate::render::{
    digit_char, digits_of, int_text, redacted, redacted_fields, rendered, rendered_fields,
};
use crate::scalar::{all_digits, decimal, digit, number};
use crate::schema::{Composite, EnvField, FieldType, ValueView};
use crate::source::{file_key, SourceView, VarView};
use vstd::prelude::*;

verus! {

/// The outcome of parsing the text that was found for `ident`.
pub open spec fn parse_outcome<V>(res: Result<V, ErrorKind>, ident: Seq<char>) -> OutcomeView<V> {
    match res {
        Ok(value) => OutcomeView::Loaded(value),
        Err(ty) => OutcomeView::Failed(ErrorView { var: ident, ty }),
    }
}

/// Where the namespace holds a text under the key, loading gives what the
/// text parses to, and a failure to parse names the key. This holds of every
/// way to parse.
pub proof fn law_load_present<V>(
    parse: spec_fn(Seq<char>) -> Result<V, ErrorKind>,
    absent: Option<V>,
    src: SourceView,
    key: Seq<char>,
    text: Seq<char>,
)
    requires
        src.env.dom().contains(key),
        src.env[key] == VarView::Text(text),
    ensures
        load_of(parse, absent, src, key) == parse_outcome(parse(text), key),
{
}

/// Where the namespace holds nothing under the key, loading a type that has
/// no value for absence fails with the cause `NotPresent` and the key.
pub proof fn law_load_absent<V>(
    parse: spec_fn(Seq<char>) -> Result<V, ErrorKind>,
    src: SourceView,
    key: Seq<char>,
)
    requires
        !src.env.dom().contains(key),
    ensures
        load_of(parse, None, src, key) == OutcomeView::<V>::Failed(
            ErrorView { var: key, ty: ErrorKind::NotPresent },
        ),
{
}

/// Loading without the fall-back never asks for a file, and it does not
/// depend on the files that were read.
pub proof fn law_load_ignores_files<V>(
    parse: spec_fn(Seq<char>) -> Result<V, ErrorKind>,
    absent: Option<V>,
    a: SourceView,
    b: SourceView,
    key: Seq<char>,
)
    requires
        a.env == b.env,
    ensures
        !(load_of(parse, absent, a, key) is NeedsFile),
        load_of(parse, absent, a, key) == load_of(parse, absent, b, key),
{
}

/// Every scalar type has no value for absence: its absent key is an error.
pub proof fn law_scalars_are_mandatory()
    ensures
        <i8 as FromEnv>::when_absent() is None,
        <i16 as FromEnv>::when_absent() is None,
        <i32 as FromEnv>::when_absent() is None,
        <i64 as FromEnv>::when_absent() is None,
        <isize as FromEnv>::when_absent() is None,
        <u8 as FromEnv>::when_absent() is None,
        <u16 as FromEnv>::when_absent() is None,
        <u32 as FromEnv>::when_absent() is None,
        <u64 as FromEnv>::when_absent() is None,
        <usize as FromEnv>::when_absent() is None,
        <bool as FromEnv>::when_absent() is None,
        <String as FromEnv>::when_absent() is None,
{
}

/// An optional value loads as empty where the namespace holds nothing under
/// the key, whatever the type inside.
pub proof fn law_optional_absent<T: FromEnv>(src: SourceView, key: Seq<char>)
    requires
        !src.env.dom().contains(key),
    ensures
        loaded::<Option<T>>(src, key) == OutcomeView::<Option<<T as DeepView>::V>>::Loaded(None),
{
}

/// An optional value whose text does not parse fails as the type inside
/// does: it does not load as empty.
pub proof fn law_optional_unparseable<T: FromEnv>(
    src: SourceView,
    key: Seq<char>,
    text: Seq<char>,
    ty: ErrorKind,
)
    requires
        src.env.dom().contains(key),
        src.env[key] == VarView::Text(text),
        T::parsed(text) == Err::<<T as DeepView>::V, ErrorKind>(ty),
    ensures
        loaded::<Option<T>>(src, key) == OutcomeView::<Option<<T as DeepView>::V>>::Failed(
            ErrorView { var: key, ty },
        ),
{
}

/// With the fall-back, a text under the key itself wins: the outcome is what
/// the text parses to, no file is asked for, and neither the files nor what
/// stands under the key with `_FILE` appended matter.
pub proof fn law_direct_wins<V>(
    parse: spec_fn(Seq<char>) -> Result<V, ErrorKind>,
    absent: Option<V>,
    a: SourceView,
    b: SourceView,
    key: Seq<char>,
    text: Seq<char>,
)
    requires
        a.env.dom().contains(key),
        a.env[key] == VarView::Text(text),
        b.env.dom().contains(key),
        b.env[key] == VarView::Text(text),
    ensures
        load_or_file_of(parse, absent, a, key) == parse_outcome(parse(text), key),
        load_or_file_of(parse, absent, a, key) == load_or_file_of(parse, absent, b, key),
{
}

/// With the fall-back, where the key itself is absent and the key with
/// `_FILE` appended holds the path of a file that was read, the outcome is
/// what the file's contents parse to, and a failure to parse names the key
/// itself, not the appended one.
pub proof fn law_file_fallback<V>(
    parse: spec_fn(Seq<char>) -> Result<V, ErrorKind>,
    absent: Option<V>,
    src: SourceView,
    key: Seq<char>,
    path: Seq<char>,
    contents: Seq<char>,
)
    requires
        !src.env.dom().contains(key),
        src.env.dom().contains(file_key(key)),
        src.env[file_key(key)] == VarView::Text(path),
        src.files.dom().contains(path),
        src.files[path] == Ok::<Seq<char>, Seq<char>>(contents),
    ensures
        load_or_file_of(parse, absent, src, key) == parse_outcome(parse(contents), key),
{
}

/// With the fall-back, a file that could not be read is a failure for the
/// key with `_FILE` appended, with the words of the failure as its cause.
pub proof fn law_file_unreadable<V>(
    parse: spec_fn(Seq<char>) -> Result<V, ErrorKind>,
    absent: Option<V>,
    src: SourceView,
    key: Seq<char>,
    path: Seq<char>,
    words: Seq<char>,
)
    requires
        !src.env.dom().contains(key),
        src.env.dom().contains(file_key(key)),
        src.env[file_key(key)] == VarView::Text(path),
        src.files.dom().contains(path),
        src.files[path] == Err::<Seq<char>, Seq<char>>(words),
    ensures
        load_or_file_of(parse, absent, src, key) == OutcomeView::<V>::Failed(
            ErrorView { var: file_key(key), ty: ErrorKind::Other(words) },
        ),
{
}

/// With the fall-back, where both keys are absent, a type that has no value
/// for absence fails with the cause `NotPresent` and the appended key, and
/// a type that has one loads as that value.
pub proof fn law_both_absent<V>(
    parse: spec_fn(Seq<char>) -> Result<V, ErrorKind>,
    absent: Option<V>,
    src: SourceView,
    key: Seq<char>,
)
    requires
        !src.env.dom().contains(key),
        !src.env.dom().contains(file_key(key)),
    ensures
        load_or_file_of(parse, absent, src, key) == match absent {
            Some(value) => OutcomeView::Loaded(value),
            None => OutcomeView::Failed(
                ErrorView { var: file_key(key), ty: ErrorKind::NotPresent },
            ),
        },
{
}

/// A file is asked for only where the source does not hold what reading it
/// gave, and only the file whose path stands under the appended key.
pub proof fn law_asked_file_is_unread<V>(
    parse: spec_fn(Seq<char>) -> Result<V, ErrorKind>,
    absent: Option<V>,
    src: SourceView,
    key: Seq<char>,
)
    requires
        load_or_file_of(parse, absent, src, key) is NeedsFile,
    ensures
        !src.files.dom().contains(load_or_file_of(parse, absent, src, key)->NeedsFile_0),
        !src.env.dom().contains(key),
        src.env.dom().contains(file_key(key)),
        src.env[file_key(key)] == VarView::Text(
            load_or_file_of(parse, absent, src, key)->NeedsFile_0,
        ),
{
}

/// A masked value parses and loads exactly as the value inside.
pub proof fn law_masked_like_inner<T: FromEnv>(src: SourceView, key: Seq<char>, text: Seq<char>)
    ensures
        <Masked<T> as FromEnv>::parsed(text) == T::parsed(text),
        loaded::<Masked<T>>(src, key) == loaded::<T>(src, key),
        loaded_or_file::<Masked<T>>(src, key) == loaded_or_file::<T>(src, key),
{
    assert(loaded::<Masked<T>>(src, key) == loaded::<T>(src, key)) by {
        let f = |text: Seq<char>| <Masked<T> as FromEnv>::parsed(text);
        let g = |text: Seq<char>| T::parsed(text);
        assert(forall|t: Seq<char>| #[trigger] f(t) == g(t));
    }
    assert(loaded_or_file::<Masked<T>>(src, key) == loaded_or_file::<T>(src, key)) by {
        let f = |text: Seq<char>| <Masked<T> as FromEnv>::parsed(text);
        let g = |text: Seq<char>| T::parsed(text);
        assert(forall|t: Seq<char>| #[trigger] f(t) == g(t));
    }
}

/// A field of a scalar type loads as the type itself does: the same value
/// under the tag of the type, the same failure.
pub proof fn law_declared_scalar_like_typed(src: SourceView, key: Seq<char>)
    ensures
        loaded_value(FieldType::I8, src, key) == loaded::<i8>(src, key).map(
            |n: i8| ValueView::I8(n),
        ),
        loaded_value(FieldType::I16, src, key) == loaded::<i16>(src, key).map(
            |n: i16| ValueView::I16(n),
        ),
        loaded_value(FieldType::I32, src, key) == loaded::<i32>(src, key).map(
            |n: i32| ValueView::I32(n),
        ),
        loaded_value(FieldType::I64, src, key) == loaded::<i64>(src, key).map(
            |n: i64| ValueView::I64(n),
        ),
        loaded_value(FieldType::Isize, src, key) == loaded::<isize>(src, key).map(
            |n: isize| ValueView::Isize(n),
        ),
        loaded_value(FieldType::U8, src, key) == loaded::<u8>(src, key).map(
            |n: u8| ValueView::U8(n),
        ),
        loaded_value(FieldType::U16, src, key) == loaded::<u16>(src, key).map(
            |n: u16| ValueView::U16(n),
        ),
        loaded_value(FieldType::U32, src, key) == loaded::<u32>(src, key).map(
            |n: u32| ValueView::U32(n),
        ),
        loaded_value(FieldType::U64, src, key) == loaded::<u64>(src, key).map(
            |n: u64| ValueView::U64(n),
        ),
        loaded_value(FieldType::Usize, src, key) == loaded::<usize>(src, key).map(
            |n: usize| ValueView::Usize(n),
        ),
        loaded_value(FieldType::Bool, src, key) == loaded::<bool>(src, key).map(
            |b: bool| ValueView::Bool(b),
        ),
        loaded_value(FieldType::Text, src, key) == loaded::<String>(src, key).map(
            |text: Seq<char>| ValueView::Text(text),
        ),
{
}

/// An optional field loads as empty where the namespace holds nothing under
/// its key, whatever the type inside, and where the text under its key does
/// not parse it fails as the type inside does.
pub proof fn law_declared_optional(inner: FieldType, src: SourceView, key: Seq<char>)
    ensures
        !src.env.dom().contains(key) ==> loaded_value(
            FieldType::Optional(Box::new(inner)),
            src,
            key,
        ) == OutcomeView::Loaded(ValueView::Optional(None)),
        forall|text: Seq<char>, ty: ErrorKind|
            src.env.dom().contains(key) && src.env[key] == VarView::Text(text) && parsed_value(
                inner,
                text,
            ) == Err::<ValueView, ErrorKind>(ty) ==> loaded_value(
                FieldType::Optional(Box::new(inner)),
                src,
                key,
            ) == OutcomeView::<ValueView>::Failed(ErrorView { var: key, ty }),
{
}

/// A field of a masked type loads as a field of the type inside does, with
/// the loaded value masked: the same failures, the same files asked for.
pub proof fn law_masked_field_like_inner(inner: FieldType, src: SourceView, key: Seq<char>)
    ensures
        loaded_value(FieldType::Masked(Box::new(inner)), src, key) == masked(
            loaded_value(inner, src, key),
        ),
        loaded_or_file_value(FieldType::Masked(Box::new(inner)), src, key) == masked(
            loaded_or_file_value(inner, src, key),
        ),
{
}

/// A key given with `name` is the field's key as it is written, whatever
/// the composite is loaded under.
pub proof fn law_name_overrides(field: EnvField, parent: Seq<char>)
    requires
        field.name is Some,
    ensures
        field_key(field, parent) == field.name->0@,
{
}

/// Without `name`, the key of a field at the root is its identifier in upper
/// case, and below a key it is that key in upper case, an underscore and
/// the identifier in upper case.
pub proof fn law_derived_key(field: EnvField, parent: Seq<char>)
    requires
        field.name is None,
    ensures
        parent.len() == 0 ==> field_key(field, parent) == uppercase(field.ident@),
        parent.len() > 0 ==> field_key(field, parent) == uppercase(parent) + seq!['_']
            + uppercase(field.ident@),
{
    reveal_strlit("_");
    assert("_"@ =~= seq!['_']);
}

/// The first field that does not load decides the outcome of the composite:
/// where every field before the field `i` loads and the field `i` does not,
/// the composite ends as the field `i` does, whatever the later fields
/// would give.
pub proof fn law_first_failure_wins(composite: Composite, src: SourceView, key: Seq<char>, i: int)
    requires
        0 <= i < composite.fields@.len(),
        forall|j: int| 0 <= j < i ==> loaded_field(composite.fields@[j], src, key) is Loaded,
        !(loaded_field(composite.fields@[i], src, key) is Loaded),
    ensures
        match loaded_field(composite.fields@[i], src, key) {
            OutcomeView::Failed(error) => composite.loaded(src, key) == OutcomeView::<
                ValueView,
            >::Failed(error),
            OutcomeView::NeedsFile(path) => composite.loaded(src, key) == OutcomeView::<
                ValueView,
            >::NeedsFile(path),
            OutcomeView::Loaded(_) => false,
        },
{
    let fields = composite.fields@;
    lemma_prefix_loads(fields, src, key, i as nat);
    lemma_stopped_stays(fields, src, key, (i + 1) as nat, fields.len());
}

/// Where every field loads, the composite loads as the record of the loaded
/// values by identifier, in the order of declaration.
pub proof fn law_all_fields_load(composite: Composite, src: SourceView, key: Seq<char>)
    requires
        forall|j: int|
            0 <= j < composite.fields@.len() ==> loaded_field(composite.fields@[j], src, key)
                is Loaded,
    ensures
        composite.loaded(src, key) matches OutcomeView::Loaded(ValueView::Record(values))
            && values.len() == composite.fields@.len() && forall|j: int|
            0 <= j < values.len() ==> #[trigger] values[j] == (
                composite.fields@[j].ident@,
                loaded_field(composite.fields@[j], src, key)->Loaded_0,
            ),
{
    lemma_prefix_loads(composite.fields@, src, key, composite.fields@.len());
}

/// A composite asks only for a file of which the source does not hold what
/// reading it gave. So each reading brings the load further.
pub proof fn law_composite_asks_unread_file(composite: Composite, src: SourceView, key: Seq<char>)
    requires
        composite.loaded(src, key) is NeedsFile,
    ensures
        !src.files.dom().contains(composite.loaded(src, key)->NeedsFile_0),
{
    lemma_value_asks_unread_file(FieldType::Composite(composite), src, key);
}

/// A load by type asks only for a file that was not read.
proof fn lemma_value_asks_unread_file(ty: FieldType, src: SourceView, key: Seq<char>)
    requires
        loaded_value(ty, src, key) is NeedsFile,
    ensures
        !src.files.dom().contains(loaded_value(ty, src, key)->NeedsFile_0),
    decreases ty,
{
    match ty {
        FieldType::Composite(composite) => {
            lemma_fields_ask_unread_file(composite.fields@, src, key, composite.fields@.len());
        },
        FieldType::Masked(inner) => {
            lemma_value_asks_unread_file(*inner, src, key);
        },
        _ => {},
    }
}

/// A load by type with the fall-back asks only for a file that was not read.
proof fn lemma_file_value_asks_unread_file(ty: FieldType, src: SourceView, key: Seq<char>)
    requires
        loaded_or_file_value(ty, src, key) is NeedsFile,
    ensures
        !src.files.dom().contains(loaded_or_file_value(ty, src, key)->NeedsFile_0),
    decreases ty,
{
    match ty {
        FieldType::Masked(inner) => {
            lemma_file_value_asks_unread_file(*inner, src, key);
        },
        _ => {},
    }
}

/// The first fields of a composite ask only for a file that was not read.
proof fn lemma_fields_ask_unread_file(
    fields: Seq<EnvField>,
    src: SourceView,
    key: Seq<char>,
    n: nat,
)
    requires
        n <= fields.len(),
        loaded_fields(fields, src, key, n) is NeedsFile,
    ensures
        !src.files.dom().contains(loaded_fields(fields, src, key, n)->NeedsFile_0),
    decreases fields, n,
{
    if n > 0 {
        if loaded_fields(fields, src, key, (n - 1) as nat) is NeedsFile {
            lemma_fields_ask_unread_file(fields, src, key, (n - 1) as nat);
        } else {
            let field = fields[n - 1];
            assert(loaded_fields(fields, src, key, (n - 1) as nat) is Loaded);
            assert(loaded_field(field, src, key) is NeedsFile);
            assert(loaded_fields(fields, src, key, n)->NeedsFile_0 == loaded_field(
                field,
                src,
                key,
            )->NeedsFile_0);
            if field.var_or_file {
                lemma_file_value_asks_unread_file(field.ty, src, field_key(field, key));
            } else {
                lemma_value_asks_unread_file(field.ty, src, field_key(field, key));
            }
        }
    }
}

/// Whether `later` is `earlier` with more files read: the same namespace,
/// and of every file that `earlier` holds the same reading.
pub open spec fn reads_on(earlier: SourceView, later: SourceView) -> bool {
    &&& later.env == earlier.env
    &&& forall|path: Seq<char>| #[trigger]
        earlier.files.dom().contains(path) ==> later.files.dom().contains(path)
            && later.files[path] == earlier.files[path]
}

/// An outcome that asks for no file is final: reading more files does not
/// change it.
pub proof fn law_outcome_is_final<V>(
    parse: spec_fn(Seq<char>) -> Result<V, ErrorKind>,
    absent: Option<V>,
    earlier: SourceView,
    later: SourceView,
    key: Seq<char>,
)
    requires
        reads_on(earlier, later),
        !(load_or_file_of(parse, absent, earlier, key) is NeedsFile),
    ensures
        load_or_file_of(parse, absent, later, key) == load_or_file_of(parse, absent, earlier, key),
{
}

/// The outcome of a composite that asks for no file is final: reading more
/// files does not change it.
pub proof fn law_composite_outcome_is_final(
    composite: Composite,
    earlier: SourceView,
    later: SourceView,
    key: Seq<char>,
)
    requires
        reads_on(earlier, later),
        !(composite.loaded(earlier, key) is NeedsFile),
    ensures
        composite.loaded(later, key) == composite.loaded(earlier, key),
{
    lemma_value_is_final(FieldType::Composite(composite), earlier, later, key);
}

/// A load by type that asks for no file ends the same with more files read.
proof fn lemma_value_is_final(ty: FieldType, earlier: SourceView, later: SourceView, key: Seq<char>)
    requires
        reads_on(earlier, later),
        !(loaded_value(ty, earlier, key) is NeedsFile),
    ensures
        loaded_value(ty, later, key) == loaded_value(ty, earlier, key),
    decreases ty,
{
    match ty {
        FieldType::Composite(composite) => {
            lemma_fields_are_final(
                composite.fields@,
                earlier,
                later,
                key,
                composite.fields@.len(),
            );
        },
        FieldType::Masked(inner) => {
            lemma_value_is_final(*inner, earlier, later, key);
        },
        _ => {},
    }
}

/// A load by type with the fall-back that asks for no file ends the same
/// with more files read.
proof fn lemma_file_value_is_final(
    ty: FieldType,
    earlier: SourceView,
    later: SourceView,
    key: Seq<char>,
)
    requires
        reads_on(earlier, later),
        !(loaded_or_file_value(ty, earlier, key) is NeedsFile),
    ensures
        loaded_or_file_value(ty, later, key) == loaded_or_file_value(ty, earlier, key),
    decreases ty,
{
    match ty {
        FieldType::Masked(inner) => {
            lemma_file_value_is_final(*inner, earlier, later, key);
        },
        _ => {},
    }
}

/// The first fields of a composite, where they ask for no file, end the same
/// with more files read.
proof fn lemma_fields_are_final(
    fields: Seq<EnvField>,
    earlier: SourceView,
    later: SourceView,
    key: Seq<char>,
    n: nat,
)
    requires
        n <= fields.len(),
        reads_on(earlier, later),
        !(loaded_fields(fields, earlier, key, n) is NeedsFile),
    ensures
        loaded_fields(fields, later, key, n) == loaded_fields(fields, earlier, key, n),
    decreases fields, n,
{
    if n > 0 {
        let before = loaded_fields(fields, earlier, key, (n - 1) as nat);
        assert(!(before is NeedsFile));
        lemma_fields_are_final(fields, earlier, later, key, (n - 1) as nat);
        if before is Loaded {
            let field = fields[n - 1];
            assert(!(loaded_field(field, earlier, key) is NeedsFile));
            if field.var_or_file {
                lemma_file_value_is_final(field.ty, earlier, later, field_key(field, key));
            } else {
                lemma_value_is_final(field.ty, earlier, later, field_key(field, key));
            }
            assert(loaded_field(field, later, key) == loaded_field(field, earlier, key));
        }
        assert(loaded_fields(fields, later, key, (n - 1) as nat) == before);
    }
}

/// The first field that is refused decides why a declaration gets no
/// loader: where no field before the field `i` is refused and the field `i`
/// is, the error is that of the field `i`.
pub proof fn law_first_refusal_wins(fields: Seq<Field>, i: int)
    requires
        0 <= i < fields.len(),
        forall|j: int| 0 <= j < i ==> attrs_applied(fields[j].attrs@, plain()) is Ok,
        attrs_applied(fields[i].attrs@, plain()) is Err,
    ensures
        first_refusal(fields) == Some(attrs_applied(fields[i].attrs@, plain())->Err_0),
{
    lemma_none_refused(fields.take(i));
    assert(fields.take(i + 1).drop_last() =~= fields.take(i));
    lemma_refusal_stays(fields, i + 1);
}

/// Where no field is refused, none is the first.
pub proof fn law_no_refusal(fields: Seq<Field>)
    requires
        forall|j: int| 0 <= j < fields.len() ==> attrs_applied(fields[j].attrs@, plain()) is Ok,
    ensures
        first_refusal(fields) is None,
{
    lemma_none_refused(fields);
}

/// Where no field is refused, none is the first.
proof fn lemma_none_refused(fields: Seq<Field>)
    requires
        forall|j: int| 0 <= j < fields.len() ==> attrs_applied(fields[j].attrs@, plain()) is Ok,
    ensures
        first_refusal(fields) is None,
    decreases fields.len(),
{
    if fields.len() > 0 {
        lemma_none_refused(fields.drop_last());
    }
}

/// The capital letter of a small ASCII letter, and every other character as
/// it is.
pub open spec fn ascii_upper(c: char) -> char {
    if 'a' <= c && c <= 'z' {
        ((c as int) - 32) as char
    } else {
        c
    }
}

/// The upper-case form of a text in ASCII has one character for each of the
/// text: its capital letter where it is a small letter, and else itself.
pub proof fn law_ascii_uppercase(text: Seq<char>)
    requires
        forall|i: int| 0 <= i < text.len() ==> text[i] <= '\u{7f}',
    ensures
        uppercase(text) == text.map_values(|c: char| ascii_upper(c)),
    decreases text.len(),
{
    if text.len() > 0 {
        law_ascii_uppercase(text.drop_last());
        assert(uppercase(text) =~= text.map_values(|c: char| ascii_upper(c)));
    } else {
        assert(uppercase(text) =~= text.map_values(|c: char| ascii_upper(c)));
    }
}

/// The text of a value says nothing of what is masked in it: two values
/// that differ only in what their masks hold have the same text.
pub proof fn law_text_hides_masked(a: ValueView, b: ValueView)
    requires
        redacted(a) == redacted(b),
    ensures
        rendered(a) == rendered(b),
{
    lemma_text_of_redacted(a);
    lemma_text_of_redacted(b);
}

/// Taking out what is masked does not change the text.
proof fn lemma_text_of_redacted(value: ValueView)
    ensures
        rendered(redacted(value)) == rendered(value),
    decreases value,
{
    match value {
        ValueView::Optional(Some(inner)) => {
            lemma_text_of_redacted(*inner);
        },
        ValueView::Record(fields) => {
            lemma_redacted_len(fields, fields.len());
            lemma_fields_text_of_redacted(fields, fields.len());
        },
        _ => {},
    }
}

/// Taking out what is masked keeps the fields and their identifiers.
proof fn lemma_redacted_len(fields: Seq<(Seq<char>, ValueView)>, n: nat)
    requires
        n <= fields.len(),
    ensures
        redacted_fields(fields, n).len() == n,
        forall|i: int|
            0 <= i < n ==> #[trigger] redacted_fields(fields, n)[i] == (
                fields[i].0,
                redacted(fields[i].1),
            ),
    decreases n,
{
    if n > 0 {
        lemma_redacted_len(fields, (n - 1) as nat);
    }
}

/// Taking out what is masked does not change the text of the fields.
proof fn lemma_fields_text_of_redacted(fields: Seq<(Seq<char>, ValueView)>, n: nat)
    requires
        n <= fields.len(),
    ensures
        rendered_fields(redacted_fields(fields, fields.len()), n) == rendered_fields(fields, n),
    decreases fields, n,
{
    lemma_redacted_len(fields, fields.len());
    if n > 0 {
        lemma_fields_text_of_redacted(fields, (n - 1) as nat);
        lemma_text_of_redacted(fields[n - 1].1);
    }
}

/// The decimal text of an integer reads back as that integer.
pub proof fn law_integer_text_reads_back(n: int)
    ensures
        decimal(int_text(n), true) == Some(n),
        n >= 0 ==> decimal(int_text(n), false) == Some(n),
{
    if n < 0 {
        lemma_digits_read_back((-n) as nat);
        assert(int_text(n).skip(1) =~= digits_of((-n) as nat));
    } else {
        lemma_digits_read_back(n as nat);
    }
}

/// The digits of a number are digits, start with no sign and denote it.
proof fn lemma_digits_read_back(n: nat)
    ensures
        digits_of(n).len() > 0,
        all_digits(digits_of(n)),
        number(digits_of(n)) == n,
        digits_of(n)[0] != '+',
        digits_of(n)[0] != '-',
    decreases n,
{
    let last = if n >= 10 {
        (n % 10) as int
    } else {
        n as int
    };
    assert(digits_of(n).last() == digit_char(last));
    assert(digit(digit_char(last)) == last);
    if n >= 10 {
        lemma_digits_read_back(n / 10);
        assert(digits_of(n).drop_last() =~= digits_of(n / 10));
    } else {
        assert(digits_of(n).drop_last() =~= Seq::<char>::empty());
        assert(number(Seq::<char>::empty()) == 0);
    }
}

/// Where the first `n` fields load, they load as their values by identifier.
proof fn lemma_prefix_loads(fields: Seq<EnvField>, src: SourceView, key: Seq<char>, n: nat)
    requires
        n <= fields.len(),
        forall|j: int| 0 <= j < n ==> loaded_field(fields[j], src, key) is Loaded,
    ensures
        loaded_fields(fields, src, key, n) matches OutcomeView::Loaded(values) && values.len() == n
            && forall|j: int|
            0 <= j < n ==> #[trigger] values[j] == (
                fields[j].ident@,
                loaded_field(fields[j], src, key)->Loaded_0,
            ),
    decreases n,
{
    if n > 0 {
        lemma_prefix_loads(fields, src, key, (n - 1) as nat);
    }
}

/// Once the first fields do not load, more fields do not change the outcome.
proof fn lemma_stopped_stays(
    fields: Seq<EnvField>,
    src: SourceView,
    key: Seq<char>,
    n: nat,
    m: nat,
)
    requires
        n <= m <= fields.len(),
        !(loaded_fields(fields, src, key, n) is Loaded),
    ensures
        loaded_fields(fields, src, key, m) == loaded_fields(fields, src, key, n),
    decreases m,
{
    if m > n {
        lemma_stopped_stays(fields, src, key, n, (m - 1) as nat);
    }
}

} // verus!
