//! From the declaration of a struct to its loader.
//!
//! A declaration says of each field its identifier, its type and its
//! attributes. Of the attributes only those with the path `utils` count.
//! Their arguments are a list, separated by commas, of `var_or_file` and
//! `name = "KEY"`; anything else in them refuses the declaration.
//!
//! [`derive_env_config`] and [`handle_field`] are for declarations that are
//! not refused. [`try_derive_env_config`] and [`try_handle_field`] take any
//! declaration and say why one is refused.

use crate::schema::{Composite, EnvField, FieldType};
use crate::text::same_text;
use vstd::pervasive::unreached;
use vstd::prelude::*;
use vstd::std_specs::iter::IteratorSpec;

verus! {

/// One argument of an attribute.
#[derive(Debug, PartialEq, Eq)]
pub enum Meta {
    /// A path alone, like `var_or_file`: its identifier, where it is a
    /// single one.
    Path(Option<String>),
    /// A path with a list of its own, like `any(a, b)`.
    List(Option<String>),
    /// A path and a value, like `name = "KEY"`: the path's identifier, where
    /// it is a single one, and what the value holds, where it is a string
    /// literal.
    NameValue(Option<String>, Option<String>),
}

/// The mathematical value of a [`Meta`].
pub enum MetaView {
    Path(Option<Seq<char>>),
    List(Option<Seq<char>>),
    NameValue(Option<Seq<char>>, Option<Seq<char>>),
}

impl View for Meta {
    type V = MetaView;

    open spec fn view(&self) -> MetaView {
        match self {
            Meta::Path(path) => MetaView::Path(path.deep_view()),
            Meta::List(path) => MetaView::List(path.deep_view()),
            Meta::NameValue(path, value) => MetaView::NameValue(
                path.deep_view(),
                value.deep_view(),
            ),
        }
    }
}

/// The mathematical values of a list of arguments.
pub open spec fn metas_view(args: Seq<Meta>) -> Seq<MetaView> {
    args.map_values(|arg: Meta| arg@)
}

/// An attribute of a field.
#[derive(Debug, PartialEq, Eq)]
pub struct Attribute {
    /// The identifier that the attribute's path is, where it is a single
    /// one, like `utils`.
    pub path: Option<String>,
    /// The arguments between the delimiters behind the path, in their
    /// order, where the attribute has delimiters and what stands between
    /// them is a list of arguments separated by commas.
    pub args: Option<Vec<Meta>>,
}

/// A named field of a struct as it is declared.
#[derive(Debug, PartialEq, Eq)]
pub struct Field {
    pub ident: String,
    pub ty: FieldType,
    pub attrs: Vec<Attribute>,
}

/// The fields of a struct.
#[derive(Debug, PartialEq, Eq)]
pub enum Fields {
    /// Fields with names, in the order of declaration.
    Named(Vec<Field>),
    /// Fields without names.
    Unnamed,
    /// No fields at all.
    Unit,
}

/// What kind of item a declaration is.
#[derive(Debug, PartialEq, Eq)]
pub enum Data {
    Struct(Fields),
    Enum,
    Union,
}

/// The declaration that a loader is made from.
#[derive(Debug, PartialEq, Eq)]
pub struct DeriveInput {
    pub ident: String,
    pub data: Data,
}

/// Why a declaration gets no loader.
#[derive(PartialEq, Eq, Structural, Clone, Copy, Debug)]
pub enum DeriveError {
    /// The item is no struct.
    NotAStruct,
    /// The struct's fields have no names.
    UnnamedFields,
    /// The arguments of a `utils` attribute are no list of arguments.
    MalformedArguments,
    /// A `utils` attribute holds an argument that is neither `var_or_file`
    /// nor `name` with a string literal.
    UnknownArgument,
}

/// The words for `error`.
pub open spec fn refusal_text(error: DeriveError) -> Seq<char> {
    match error {
        DeriveError::NotAStruct => "FromEnv can only be derived for structs"@,
        DeriveError::UnnamedFields => "Fields must be named"@,
        DeriveError::MalformedArguments => "Error parsing arguments to 'utils' attribute"@,
        DeriveError::UnknownArgument =>
            "Encountered unknown or invalid arguments in 'utils' attribute"@,
    }
}

impl DeriveError {
    /// The error in words.
    pub fn to_text(&self) -> (s: String)
        ensures
            s@ == refusal_text(*self),
    {
        match self {
            DeriveError::NotAStruct => "FromEnv can only be derived for structs".to_owned(),
            DeriveError::UnnamedFields => "Fields must be named".to_owned(),
            DeriveError::MalformedArguments => "Error parsing arguments to 'utils' attribute"
                .to_owned(),
            DeriveError::UnknownArgument =>
                "Encountered unknown or invalid arguments in 'utils' attribute".to_owned(),
        }
    }
}

/// What the attributes of a field say.
#[derive(Debug, PartialEq, Eq)]
pub struct Settings {
    pub var_or_file: bool,
    pub name: Option<String>,
}

/// The mathematical value of [`Settings`].
pub struct SettingsView {
    pub var_or_file: bool,
    pub name: Option<Seq<char>>,
}

impl View for Settings {
    type V = SettingsView;

    open spec fn view(&self) -> SettingsView {
        SettingsView { var_or_file: self.var_or_file, name: self.name.deep_view() }
    }
}

/// What a field says that has no attribute: no fall-back, no key of its own.
pub open spec fn plain() -> SettingsView {
    SettingsView { var_or_file: false, name: None }
}

/// What one argument makes of the settings: `var_or_file` switches the
/// fall-back on, `name` with a string literal sets the key, and anything
/// else is refused.
pub open spec fn arg_applied(arg: MetaView, settings: SettingsView) -> Result<
    SettingsView,
    DeriveError,
> {
    match arg {
        MetaView::Path(Some(path)) => if path == "var_or_file"@ {
            Ok(SettingsView { var_or_file: true, name: settings.name })
        } else {
            Err(DeriveError::UnknownArgument)
        },
        MetaView::NameValue(Some(path), Some(value)) => if path == "name"@ {
            Ok(SettingsView { var_or_file: settings.var_or_file, name: Some(value) })
        } else {
            Err(DeriveError::UnknownArgument)
        },
        _ => Err(DeriveError::UnknownArgument),
    }
}

/// What the arguments make of the settings, one after another; the first
/// that is refused refuses them all.
pub open spec fn args_applied(args: Seq<MetaView>, settings: SettingsView) -> Result<
    SettingsView,
    DeriveError,
>
    decreases args.len(),
{
    if args.len() == 0 {
        Ok(settings)
    } else {
        match args_applied(args.drop_last(), settings) {
            Ok(so_far) => arg_applied(args.last(), so_far),
            Err(error) => Err(error),
        }
    }
}

/// What one attribute makes of the settings. An attribute whose path is not
/// `utils` changes nothing. One whose path is `utils` must have arguments
/// that are a list.
pub open spec fn attr_applied(attr: Attribute, settings: SettingsView) -> Result<
    SettingsView,
    DeriveError,
> {
    if attr.path.deep_view() != Some("utils"@) {
        Ok(settings)
    } else {
        match attr.args {
            None => Err(DeriveError::MalformedArguments),
            Some(args) => args_applied(metas_view(args@), settings),
        }
    }
}

/// What the attributes of a field make of the settings, one after another.
pub open spec fn attrs_applied(attrs: Seq<Attribute>, settings: SettingsView) -> Result<
    SettingsView,
    DeriveError,
>
    decreases attrs.len(),
{
    if attrs.len() == 0 {
        Ok(settings)
    } else {
        match attrs_applied(attrs.drop_last(), settings) {
            Ok(so_far) => attr_applied(attrs.last(), so_far),
            Err(error) => Err(error),
        }
    }
}

/// Whether `out` is `field` with what its attributes say.
pub open spec fn describes(out: EnvField, field: Field) -> bool {
    &&& out.ident == field.ident
    &&& out.ty == field.ty
    &&& attrs_applied(field.attrs@, plain()) == Ok::<SettingsView, DeriveError>(
        SettingsView { var_or_file: out.var_or_file, name: out.name.deep_view() },
    )
}

/// The error of the first field that is refused, if one is.
pub open spec fn first_refusal(fields: Seq<Field>) -> Option<DeriveError>
    decreases fields.len(),
{
    if fields.len() == 0 {
        None
    } else {
        match first_refusal(fields.drop_last()) {
            Some(error) => Some(error),
            None => match attrs_applied(fields.last().attrs@, plain()) {
                Ok(_) => None,
                Err(error) => Some(error),
            },
        }
    }
}

/// Applies one argument to the settings.
pub fn apply_arg(arg: &Meta, settings: Settings) -> (r: Result<Settings, DeriveError>)
    ensures
        match arg_applied(arg@, settings@) {
            Ok(next) => r matches Ok(out) && out@ == next,
            Err(error) => r matches Err(e) && e == error,
        },
{
    match arg {
        Meta::Path(Some(path)) => {
            if same_text(path.as_str(), "var_or_file") {
                Ok(Settings { var_or_file: true, name: settings.name })
            } else {
                Err(DeriveError::UnknownArgument)
            }
        },
        Meta::NameValue(Some(path), Some(value)) => {
            if same_text(path.as_str(), "name") {
                Ok(Settings { var_or_file: settings.var_or_file, name: Some(value.clone()) })
            } else {
                Err(DeriveError::UnknownArgument)
            }
        },
        _ => Err(DeriveError::UnknownArgument),
    }
}

/// Applies the arguments to the settings, in their order.
pub fn apply_args(args: &Vec<Meta>, settings: Settings) -> (r: Result<Settings, DeriveError>)
    ensures
        match args_applied(metas_view(args@), settings@) {
            Ok(next) => r matches Ok(out) && out@ == next,
            Err(error) => r matches Err(e) && e == error,
        },
{
    let ghost views = metas_view(args@);
    let mut current = settings;
    let mut i: usize = 0;
    assert(views.take(0) =~= Seq::<MetaView>::empty());
    while i < args.len()
        invariant
            i <= args.len(),
            views == metas_view(args@),
            args_applied(views.take(i as int), settings@) == Ok::<SettingsView, DeriveError>(
                current@,
            ),
        decreases args.len() - i,
    {
        proof {
            assert(views.take(i + 1).drop_last() =~= views.take(i as int));
            assert(views.take(i + 1).last() == args@[i as int]@);
        }
        match apply_arg(&args[i], current) {
            Ok(next) => {
                current = next;
            },
            Err(error) => {
                proof {
                    lemma_args_refused(views, i + 1, settings@);
                }
                return Err(error);
            },
        }
        i += 1;
    }
    proof {
        assert(views.take(i as int) =~= views);
    }
    Ok(current)
}

/// Once a beginning of the arguments is refused, so are all of them, with the
/// same error.
proof fn lemma_args_refused(args: Seq<MetaView>, n: int, settings: SettingsView)
    requires
        0 <= n <= args.len(),
        args_applied(args.take(n), settings) is Err,
    ensures
        args_applied(args, settings) == args_applied(args.take(n), settings),
    decreases args.len() - n,
{
    if n == args.len() {
        assert(args.take(n) =~= args);
    } else {
        assert(args.take(n + 1).drop_last() =~= args.take(n));
        lemma_args_refused(args, n + 1, settings);
    }
}

/// Once a beginning of the attributes is refused, so are all of them, with
/// the same error.
proof fn lemma_attrs_refused(attrs: Seq<Attribute>, n: int, settings: SettingsView)
    requires
        0 <= n <= attrs.len(),
        attrs_applied(attrs.take(n), settings) is Err,
    ensures
        attrs_applied(attrs, settings) == attrs_applied(attrs.take(n), settings),
    decreases attrs.len() - n,
{
    if n == attrs.len() {
        assert(attrs.take(n) =~= attrs);
    } else {
        assert(attrs.take(n + 1).drop_last() =~= attrs.take(n));
        lemma_attrs_refused(attrs, n + 1, settings);
    }
}

/// Applies one attribute to the settings.
pub fn apply_attr(attr: &Attribute, settings: Settings) -> (r: Result<Settings, DeriveError>)
    ensures
        match attr_applied(*attr, settings@) {
            Ok(next) => r matches Ok(out) && out@ == next,
            Err(error) => r matches Err(e) && e == error,
        },
{
    let counts = match &attr.path {
        Some(path) => same_text(path.as_str(), "utils"),
        None => false,
    };
    if !counts {
        return Ok(settings);
    }
    match &attr.args {
        None => Err(DeriveError::MalformedArguments),
        Some(args) => apply_args(args, settings),
    }
}

/// Reads the attributes of a field: what they say, or the error of the first
/// of them that is refused.
pub fn read_attrs(attrs: &Vec<Attribute>) -> (r: Result<Settings, DeriveError>)
    ensures
        match attrs_applied(attrs@, plain()) {
            Ok(settings) => r matches Ok(out) && out@ == settings,
            Err(error) => r matches Err(e) && e == error,
        },
{
    let mut settings = Settings { var_or_file: false, name: None };
    let mut i: usize = 0;
    assert(attrs@.take(0) =~= Seq::<Attribute>::empty());
    while i < attrs.len()
        invariant
            i <= attrs.len(),
            attrs_applied(attrs@.take(i as int), plain()) == Ok::<SettingsView, DeriveError>(
                settings@,
            ),
        decreases attrs.len() - i,
    {
        proof {
            assert(attrs@.take(i + 1).drop_last() =~= attrs@.take(i as int));
            assert(attrs@.take(i + 1).last() == attrs@[i as int]);
        }
        match apply_attr(&attrs[i], settings) {
            Ok(next) => {
                settings = next;
            },
            Err(error) => {
                proof {
                    lemma_attrs_refused(attrs@, i + 1, plain());
                }
                return Err(error);
            },
        }
        i += 1;
    }
    proof {
        assert(attrs@.take(i as int) =~= attrs@);
    }
    Ok(settings)
}

/// The field with what its attributes say. This is for a field whose
/// attributes are not refused; [`try_handle_field`] takes any field.
pub fn handle_field(field: Field) -> (out: EnvField)
    requires
        attrs_applied(field.attrs@, plain()) is Ok,
    ensures
        describes(out, field),
{
    let settings = match read_attrs(&field.attrs) {
        Ok(settings) => settings,
        Err(_) => unreached(),
    };
    EnvField {
        ident: field.ident,
        ty: field.ty,
        var_or_file: settings.var_or_file,
        name: settings.name,
    }
}

/// Reads the attributes of `field`: the field with what they say, or the
/// error of the first of them that is refused.
pub fn try_handle_field(field: Field) -> (r: Result<EnvField, DeriveError>)
    ensures
        match attrs_applied(field.attrs@, plain()) {
            Ok(_) => r matches Ok(out) && describes(out, field),
            Err(error) => r matches Err(e) && e == error,
        },
{
    match read_attrs(&field.attrs) {
        Ok(_) => Ok(handle_field(field)),
        Err(error) => Err(error),
    }
}

/// A refusal among the first fields is the first refusal of them all.
pub(crate) proof fn lemma_refusal_stays(fields: Seq<Field>, n: int)
    requires
        0 <= n <= fields.len(),
        first_refusal(fields.take(n)) is Some,
    ensures
        first_refusal(fields) == first_refusal(fields.take(n)),
    decreases fields.len() - n,
{
    if n == fields.len() {
        assert(fields.take(n) =~= fields);
    } else {
        assert(fields.take(n + 1).drop_last() =~= fields.take(n));
        lemma_refusal_stays(fields, n + 1);
    }
}

/// Where no field is the first to be refused, none is refused.
pub(crate) proof fn lemma_none_is_refused(fields: Seq<Field>, i: int)
    requires
        first_refusal(fields) is None,
        0 <= i < fields.len(),
    ensures
        attrs_applied(fields[i].attrs@, plain()) is Ok,
    decreases fields.len(),
{
    if i < fields.len() - 1 {
        lemma_none_is_refused(fields.drop_last(), i);
    }
}

/// Why `input` gets no loader, if it gets none: it is no struct, its fields
/// have no names, or one of its fields is refused, of which the first
/// counts.
pub open spec fn refusal_of(input: DeriveInput) -> Option<DeriveError> {
    match input.data {
        Data::Struct(Fields::Named(fields)) => first_refusal(fields@),
        Data::Struct(_) => Some(DeriveError::UnnamedFields),
        _ => Some(DeriveError::NotAStruct),
    }
}

/// Whether `out` is the loader of the struct that `input` declares: the
/// struct's name, and its fields in their order, each with what its
/// attributes say.
pub open spec fn derived(out: Composite, input: DeriveInput) -> bool {
    &&& out.ident == input.ident
    &&& input.data matches Data::Struct(Fields::Named(fields))
    &&& out.fields@.len() == fields@.len()
    &&& forall|i: int| 0 <= i < fields@.len() ==> describes(#[trigger] out.fields@[i], fields@[i])
}

/// Why `input` gets no loader, if it gets none.
pub fn refusal(input: &DeriveInput) -> (r: Option<DeriveError>)
    ensures
        r == refusal_of(*input),
{
    let fields = match &input.data {
        Data::Struct(Fields::Named(fields)) => fields,
        Data::Struct(_) => {
            return Some(DeriveError::UnnamedFields);
        },
        _ => {
            return Some(DeriveError::NotAStruct);
        },
    };
    let mut i: usize = 0;
    assert(fields@.take(0) =~= Seq::<Field>::empty());
    while i < fields.len()
        invariant
            i <= fields.len(),
            input.data == Data::Struct(Fields::Named(*fields)),
            first_refusal(fields@.take(i as int)) is None,
        decreases fields.len() - i,
    {
        proof {
            assert(fields@.take(i + 1).drop_last() =~= fields@.take(i as int));
            assert(fields@.take(i + 1).last() == fields@[i as int]);
        }
        match read_attrs(&fields[i].attrs) {
            Ok(_) => {},
            Err(error) => {
                proof {
                    lemma_refusal_stays(fields@, i + 1);
                }
                return Some(error);
            },
        }
        i += 1;
    }
    proof {
        assert(fields@.take(i as int) =~= fields@);
    }
    None
}

/// Makes the loader of the struct that `input` declares. This is for a
/// struct with named fields of which none is refused;
/// [`try_derive_env_config`] takes any declaration.
pub fn derive_env_config(input: DeriveInput) -> (out: Composite)
    requires
        refusal_of(input) is None,
    ensures
        derived(out, input),
{
    let fields = match input.data {
        Data::Struct(Fields::Named(fields)) => fields,
        _ => unreached(),
    };
    let ghost declared = fields@;
    let mut out: Vec<EnvField> = Vec::new();
    for field in it: fields
        invariant
            it.seq() == declared,
            first_refusal(declared) is None,
            out@.len() == it.index(),
            forall|i: int| 0 <= i < it.index() ==> describes(#[trigger] out@[i], declared[i]),
    {
        proof {
            lemma_none_is_refused(declared, it.index() as int);
        }
        out.push(handle_field(field));
    }
    Composite { ident: input.ident, fields: out }
}

/// Makes the loader of the struct that `input` declares, or says why it
/// gets none. Only a struct with named fields gets one, and only if no field
/// is refused; the error is that of the first field that is.
pub fn try_derive_env_config(input: DeriveInput) -> (r: Result<Composite, DeriveError>)
    ensures
        match refusal_of(input) {
            Some(error) => r matches Err(e) && e == error,
            None => r matches Ok(out) && derived(out, input),
        },
{
    match refusal(&input) {
        Some(error) => Err(error),
        None => Ok(derive_env_config(input)),
    }
}

} // verus!
