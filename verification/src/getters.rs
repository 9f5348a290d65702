//! Planning of the `Getters` derive: from a struct's fields, their types and
//! their `#[getter(..)]` attributes, which accessor methods are generated, under
//! which names, and in which shape they return the field.
//!
//! The input is a plain description of what the derive reads from the parsed
//! struct; rendering the plan as Rust code is left to the macro front end.
use vstd::prelude::*;

use crate::text::str_equal;

verus! {

/// A literal that stands after `=` in an attribute item.
#[derive(Debug, Clone)]
pub enum LitValue {
    /// A string literal, with its unescaped contents.
    Str(String),
    /// A literal of another kind (integer, boolean, ...).
    NonStr,
    /// Tokens that do not parse as a literal.
    Invalid,
}

/// What follows the path of an item of a structured attribute.
#[derive(Debug, Clone)]
pub enum MetaValue {
    /// Nothing: the item ends right after its path.
    Bare,
    /// `= value`; `ends_cleanly` tells whether the item ends right after the
    /// literal (at a `,` or at the end of the list).
    Assign { lit: LitValue, ends_cleanly: bool },
    /// Anything else (a nested list, or stray tokens).
    Other,
}

/// One item of a structured attribute such as `#[getter(skip, rename = "x")]`,
/// in the order in which it is written. A list ends at the first item whose
/// path does not parse.
#[derive(Debug, Clone)]
pub struct MetaItem {
    /// The item's path when it is a single plain identifier.
    pub ident: Option<String>,
    pub value: MetaValue,
}

/// An attribute on a field.
#[derive(Debug, Clone)]
pub struct Attribute {
    /// The attribute's path when it is a single plain identifier.
    pub path: Option<String>,
    /// The items when the attribute is a parenthesised list.
    pub items: Option<Vec<MetaItem>>,
}

/// The type of a field, as far as the derive looks at it.
#[derive(Debug)]
pub enum FieldType {
    /// A path type such as `Vec<String>`: the identifier of its last segment,
    /// and its first generic argument when that segment has angle-bracketed
    /// arguments whose first is a type.
    Path { last: Option<String>, first_arg: Option<Box<FieldType>> },
    /// A reference type `&T`.
    Reference,
    /// Any other type.
    Other,
}

/// A field of the struct.
#[derive(Debug)]
pub struct Field {
    pub ident: Option<String>,
    pub ty: FieldType,
    pub attrs: Vec<Attribute>,
}

/// The item the derive is applied to.
#[derive(Debug)]
pub enum InputData {
    /// A struct with named fields.
    NamedStruct(Vec<Field>),
    /// A tuple struct or a unit struct.
    UnnamedStruct,
    /// An enum or a union.
    NotStruct,
}

/// Which type stands inside the returned slice or option.
#[derive(Debug, Clone, Copy, PartialEq, Eq, Structural)]
pub enum InnerType {
    /// The first generic argument of the field's type.
    FirstArg,
    /// An inferred type `_`.
    Infer,
}

/// How an accessor returns its field.
#[derive(Debug, Clone, Copy, PartialEq, Eq, Structural)]
pub enum GetterShape {
    /// `String` field: `&str`, via `as_str()`.
    Str,
    /// `Vec<T>` field: `&[T]`, via `as_slice()`.
    Slice(InnerType),
    /// `Option<String>` field: `Option<&str>`, via `as_deref()`.
    OptionStr,
    /// `Option<T>` field: `Option<&T>`, via `as_ref()`.
    OptionRef(InnerType),
    /// Copy or reference field: the field's own type, by value.
    ByValue,
    /// Any other field: `&T`.
    ByRef,
}

/// One accessor to generate.
#[derive(Debug, Clone)]
pub struct GetterPlan {
    /// Position of the field among the struct's fields.
    pub field_index: usize,
    /// Name of the field.
    pub field: String,
    /// Name of the accessor method.
    pub method: String,
    pub shape: GetterShape,
}

impl View for GetterPlan {
    type V = (nat, Seq<char>, Seq<char>, GetterShape);

    open spec fn view(&self) -> (nat, Seq<char>, Seq<char>, GetterShape) {
        (self.field_index as nat, self.field@, self.method@, self.shape)
    }
}

/// Why the derive rejects its input.
#[derive(Debug, Clone, Copy, PartialEq, Eq, Structural)]
pub enum GettersError {
    /// The input is not a struct.
    NotStruct,
    /// The struct's fields are not named.
    UnnamedFields,
}

// ---------------------------------------------------------------------------
// Specification
// ---------------------------------------------------------------------------

/// An optional identifier is present and spells `word`.
pub open spec fn ident_is(ident: Option<String>, word: Seq<char>) -> bool {
    match ident {
        Some(s) => s@ == word,
        None => false,
    }
}

/// Whether reading `items` from position `j` on meets `skip` before reading
/// stops. Reading stops after the first item that carries a value (the reader
/// of `skip` does not consume one).
pub open spec fn skip_from(items: Seq<MetaItem>, j: int) -> bool
    decreases items.len() - j,
{
    if j < 0 || j >= items.len() {
        false
    } else if ident_is(items[j].ident, "skip"@) {
        true
    } else if items[j].value is Bare {
        skip_from(items, j + 1)
    } else {
        false
    }
}

/// An attribute `#[getter(..)]` whose items ask to skip the field.
pub open spec fn attr_requests_skip(attr: Attribute) -> bool {
    &&& ident_is(attr.path, "getter"@)
    &&& match attr.items {
        Some(items) => skip_from(items@, 0),
        None => false,
    }
}

/// Some `#[getter(..)]` attribute of the field asks to skip it.
pub open spec fn field_skipped(attrs: Seq<Attribute>) -> bool {
    exists|i: int| 0 <= i < attrs.len() && #[trigger] attr_requests_skip(attrs[i])
}

/// The name given by `rename = "..."` items, reading `items` from position `j`
/// with `found` the name given so far. A string literal sets the name; a later
/// one replaces it. Reading stops at a `rename` without `= literal`, after a
/// literal that is followed by stray tokens, and after any other item that
/// carries a value.
pub open spec fn rename_from(items: Seq<MetaItem>, j: int, found: Option<Seq<char>>) -> Option<
    Seq<char>,
>
    decreases items.len() - j,
{
    if j < 0 || j >= items.len() {
        found
    } else if ident_is(items[j].ident, "rename"@) {
        match items[j].value {
            MetaValue::Assign { lit, ends_cleanly } => {
                let now = match lit {
                    LitValue::Str(s) => Some(s@),
                    _ => found,
                };
                if lit is Invalid {
                    found
                } else if ends_cleanly {
                    rename_from(items, j + 1, now)
                } else {
                    now
                }
            },
            _ => found,
        }
    } else if items[j].value is Bare {
        rename_from(items, j + 1, found)
    } else {
        found
    }
}

/// The name that one attribute gives, if it is a `#[getter(..)]` list.
pub open spec fn attr_rename(attr: Attribute) -> Option<Seq<char>> {
    if ident_is(attr.path, "getter"@) {
        match attr.items {
            Some(items) => rename_from(items@, 0, None),
            None => None,
        }
    } else {
        None
    }
}

/// The name given by the first attribute, from position `i` on, that gives one.
pub open spec fn rename_of(attrs: Seq<Attribute>, i: int) -> Option<Seq<char>>
    decreases attrs.len() - i,
{
    if i < 0 || i >= attrs.len() {
        None
    } else if attr_rename(attrs[i]) is Some {
        attr_rename(attrs[i])
    } else {
        rename_of(attrs, i + 1)
    }
}

/// The type is a path whose last segment is `name`.
pub open spec fn type_named(ty: FieldType, name: Seq<char>) -> bool {
    match ty {
        FieldType::Path { last, .. } => ident_is(last, name),
        _ => false,
    }
}

/// The type handed out inside a slice or an option for a `name<..>` field.
pub open spec fn inner_of(ty: FieldType, name: Seq<char>) -> InnerType {
    match ty {
        FieldType::Path { last, first_arg } => if ident_is(last, name) && first_arg is Some {
            InnerType::FirstArg
        } else {
            InnerType::Infer
        },
        _ => InnerType::Infer,
    }
}

/// `Option<String>`: an `Option` whose first generic argument is a `String`.
pub open spec fn option_of_string(ty: FieldType) -> bool {
    type_named(ty, "Option"@) && match ty {
        FieldType::Path { first_arg, .. } => match first_arg {
            Some(inner) => type_named(*inner, "String"@),
            None => false,
        },
        _ => false,
    }
}

/// The names of the types returned by value.
pub open spec fn is_copy_name(name: Seq<char>) -> bool {
    ||| name == "bool"@
    ||| name == "u8"@
    ||| name == "u16"@
    ||| name == "u32"@
    ||| name == "u64"@
    ||| name == "usize"@
    ||| name == "i8"@
    ||| name == "i16"@
    ||| name == "i32"@
    ||| name == "i64"@
    ||| name == "f32"@
    ||| name == "f64"@
}

/// A path type whose last segment names a type returned by value.
pub open spec fn copy_typed(ty: FieldType) -> bool {
    match ty {
        FieldType::Path { last, .. } => match last {
            Some(s) => is_copy_name(s@),
            None => false,
        },
        _ => false,
    }
}

/// The shape of the accessor for a field of type `ty`; the first rule that
/// applies wins.
pub open spec fn shape_of(ty: FieldType) -> GetterShape {
    if type_named(ty, "String"@) {
        GetterShape::Str
    } else if type_named(ty, "Vec"@) {
        GetterShape::Slice(inner_of(ty, "Vec"@))
    } else if option_of_string(ty) {
        GetterShape::OptionStr
    } else if type_named(ty, "Option"@) {
        GetterShape::OptionRef(inner_of(ty, "Option"@))
    } else if copy_typed(ty) || ty is Reference {
        GetterShape::ByValue
    } else {
        GetterShape::ByRef
    }
}

/// A field gets an accessor: it has a name and is not skipped.
pub open spec fn kept(field: Field) -> bool {
    field.ident is Some && !field_skipped(field.attrs@)
}

/// The accessor's name: the one given by `rename`, else the field's.
pub open spec fn method_name(field: Field) -> Seq<char> {
    match rename_of(field.attrs@, 0) {
        Some(name) => name,
        None => field.ident->0@,
    }
}

/// The accessor planned for the field at position `index`.
pub open spec fn entry_for(field: Field, index: int) -> (nat, Seq<char>, Seq<char>, GetterShape) {
    (index as nat, field.ident->0@, method_name(field), shape_of(field.ty))
}

/// The accessors planned for the first `n` fields, in field order.
pub open spec fn planned(fields: Seq<Field>, n: int) -> Seq<(nat, Seq<char>, Seq<char>, GetterShape)>
    decreases n,
{
    if n <= 0 {
        seq![]
    } else if kept(fields[n - 1]) {
        planned(fields, n - 1).push(entry_for(fields[n - 1], n - 1))
    } else {
        planned(fields, n - 1)
    }
}

/// The views of a sequence of plans.
pub open spec fn plan_views(plans: Seq<GetterPlan>) -> Seq<(nat, Seq<char>, Seq<char>, GetterShape)> {
    plans.map_values(|p: GetterPlan| p@)
}

/// The message the derive reports for an error.
pub open spec fn error_message(e: GettersError) -> Seq<char> {
    match e {
        GettersError::NotStruct => "Getters only supports structs"@,
        GettersError::UnnamedFields => "Getters only supports structs with named fields"@,
    }
}

// ---------------------------------------------------------------------------
// Implementation
// ---------------------------------------------------------------------------

fn ident_equals(ident: &Option<String>, word: &str) -> (r: bool)
    ensures
        r == ident_is(*ident, word@),
{
    match ident {
        Some(s) => str_equal(s.as_str(), word),
        None => false,
    }
}

fn items_request_skip(items: &Vec<MetaItem>) -> (r: bool)
    ensures
        r == skip_from(items@, 0),
{
    let mut j: usize = 0;
    while j < items.len()
        invariant
            j <= items@.len(),
            skip_from(items@, 0) == skip_from(items@, j as int),
        decreases items@.len() - j,
    {
        let item = &items[j];
        if ident_equals(&item.ident, "skip") {
            return true;
        }
        match item.value {
            MetaValue::Bare => {},
            _ => {
                return false;
            },
        }
        j = j + 1;
    }
    false
}

fn attribute_requests_skip(attr: &Attribute) -> (r: bool)
    ensures
        r == attr_requests_skip(*attr),
{
    if !ident_equals(&attr.path, "getter") {
        return false;
    }
    match &attr.items {
        Some(items) => items_request_skip(items),
        None => false,
    }
}

/// Whether some `#[getter(..)]` attribute asks to leave the field without an
/// accessor (`#[getter(skip)]`).
pub fn has_getter_skip(attrs: &Vec<Attribute>) -> (r: bool)
    ensures
        r == field_skipped(attrs@),
{
    let mut i: usize = 0;
    while i < attrs.len()
        invariant
            i <= attrs@.len(),
            forall|k: int| 0 <= k < i ==> !#[trigger] attr_requests_skip(attrs@[k]),
        decreases attrs@.len() - i,
    {
        if attribute_requests_skip(&attrs[i]) {
            return true;
        }
        i = i + 1;
    }
    false
}

/// The characters of an optional string.
pub open spec fn optional_view(s: Option<String>) -> Option<Seq<char>> {
    match s {
        Some(v) => Some(v@),
        None => None,
    }
}

fn items_rename(items: &Vec<MetaItem>) -> (r: Option<String>)
    ensures
        optional_view(r) == rename_from(items@, 0, None),
{
    let mut found: Option<String> = None;
    let mut j: usize = 0;
    while j < items.len()
        invariant
            j <= items@.len(),
            rename_from(items@, 0, None) == rename_from(items@, j as int, optional_view(found)),
        decreases items@.len() - j,
    {
        let item = &items[j];
        if ident_equals(&item.ident, "rename") {
            match &item.value {
                MetaValue::Assign { lit, ends_cleanly } => {
                    match lit {
                        LitValue::Str(s) => {
                            found = Some(s.clone());
                        },
                        LitValue::NonStr => {},
                        LitValue::Invalid => {
                            return found;
                        },
                    }
                    if !*ends_cleanly {
                        return found;
                    }
                },
                _ => {
                    return found;
                },
            }
        } else {
            match item.value {
                MetaValue::Bare => {},
                _ => {
                    return found;
                },
            }
        }
        j = j + 1;
    }
    found
}

fn attribute_rename(attr: &Attribute) -> (r: Option<String>)
    ensures
        optional_view(r) == attr_rename(*attr),
{
    if !ident_equals(&attr.path, "getter") {
        return None;
    }
    match &attr.items {
        Some(items) => items_rename(items),
        None => None,
    }
}

/// The accessor name given by `#[getter(rename = "...")]`: that of the first
/// `getter` attribute that gives one.
pub fn get_getter_rename(attrs: &Vec<Attribute>) -> (r: Option<String>)
    ensures
        optional_view(r) == rename_of(attrs@, 0),
{
    let mut i: usize = 0;
    while i < attrs.len()
        invariant
            i <= attrs@.len(),
            rename_of(attrs@, 0) == rename_of(attrs@, i as int),
        decreases attrs@.len() - i,
    {
        let found = attribute_rename(&attrs[i]);
        if found.is_some() {
            return found;
        }
        i = i + 1;
    }
    None
}

/// Whether the type is a path whose last segment is `segment`.
pub fn type_matches(ty: &FieldType, segment: &str) -> (r: bool)
    ensures
        r == type_named(*ty, segment@),
{
    match ty {
        FieldType::Path { last, .. } => ident_equals(last, segment),
        _ => false,
    }
}

/// Whether the field's type is `String`.
pub fn is_string_type(ty: &FieldType) -> (r: bool)
    ensures
        r == type_named(*ty, "String"@),
{
    type_matches(ty, "String")
}

/// Whether the field's type is `Vec<..>`.
pub fn is_vec_type(ty: &FieldType) -> (r: bool)
    ensures
        r == type_named(*ty, "Vec"@),
{
    type_matches(ty, "Vec")
}

/// Whether the field's type is `Option<..>`.
pub fn is_option_type(ty: &FieldType) -> (r: bool)
    ensures
        r == type_named(*ty, "Option"@),
{
    type_matches(ty, "Option")
}

/// Which type stands inside `outer<..>`: its first generic argument when the
/// type is an `outer` path with one, else `_`.
pub fn extract_generic_inner(ty: &FieldType, outer: &str) -> (r: InnerType)
    ensures
        r == inner_of(*ty, outer@),
{
    match ty {
        FieldType::Path { last, first_arg } => {
            if ident_equals(last, outer) && first_arg.is_some() {
                InnerType::FirstArg
            } else {
                InnerType::Infer
            }
        },
        _ => InnerType::Infer,
    }
}

/// Which type stands inside a `Vec<..>` field's slice.
pub fn extract_vec_inner(ty: &FieldType) -> (r: InnerType)
    ensures
        r == inner_of(*ty, "Vec"@),
{
    extract_generic_inner(ty, "Vec")
}

/// Which type stands inside an `Option<..>` field's option.
pub fn extract_option_inner(ty: &FieldType) -> (r: InnerType)
    ensures
        r == inner_of(*ty, "Option"@),
{
    extract_generic_inner(ty, "Option")
}

/// Whether the field's type is `Option<String>`.
pub fn is_option_string(ty: &FieldType) -> (r: bool)
    ensures
        r == option_of_string(*ty),
{
    if !is_option_type(ty) {
        return false;
    }
    match ty {
        FieldType::Path { first_arg, .. } => match first_arg {
            Some(inner) => is_string_type(inner),
            None => false,
        },
        _ => false,
    }
}

/// Whether the field's type names one of the types returned by value.
pub fn is_copy_type(ty: &FieldType) -> (r: bool)
    ensures
        r == copy_typed(*ty),
{
    match ty {
        FieldType::Path { last: Some(s), .. } => {
            let n = s.as_str();
            str_equal(n, "bool") || str_equal(n, "u8") || str_equal(n, "u16") || str_equal(
                n,
                "u32",
            ) || str_equal(n, "u64") || str_equal(n, "usize") || str_equal(n, "i8") || str_equal(
                n,
                "i16",
            ) || str_equal(n, "i32") || str_equal(n, "i64") || str_equal(n, "f32") || str_equal(
                n,
                "f64",
            )
        },
        _ => false,
    }
}

/// Whether the field's type is a reference.
pub fn is_ref_type(ty: &FieldType) -> (r: bool)
    ensures
        r == ty is Reference,
{
    match ty {
        FieldType::Reference => true,
        _ => false,
    }
}

/// The shape of the accessor for a field of type `ty`.
pub fn getter_shape(ty: &FieldType) -> (shape: GetterShape)
    ensures
        shape == shape_of(*ty),
{
    if is_string_type(ty) {
        GetterShape::Str
    } else if is_vec_type(ty) {
        GetterShape::Slice(extract_vec_inner(ty))
    } else if is_option_string(ty) {
        GetterShape::OptionStr
    } else if is_option_type(ty) {
        GetterShape::OptionRef(extract_option_inner(ty))
    } else if is_copy_type(ty) || is_ref_type(ty) {
        GetterShape::ByValue
    } else {
        GetterShape::ByRef
    }
}

/// The accessor for the field at position `index`, or none for a field
/// without a name.
pub fn generate_getter(field: &Field, index: usize) -> (r: Option<GetterPlan>)
    ensures
        match field.ident {
            Some(_) => r matches Some(plan) && plan@ == entry_for(*field, index as int),
            None => r is None,
        },
{
    match &field.ident {
        Some(name) => {
            let method = match get_getter_rename(&field.attrs) {
                Some(renamed) => renamed,
                None => name.clone(),
            };
            Some(
                GetterPlan {
                    field_index: index,
                    field: name.clone(),
                    method,
                    shape: getter_shape(&field.ty),
                },
            )
        },
        None => None,
    }
}

/// Plans the accessors that `#[derive(Getters)]` generates: one per named
/// field that is not skipped, in field order. Only structs with named fields
/// are accepted.
pub fn derive_getters(input: &InputData) -> (r: Result<Vec<GetterPlan>, GettersError>)
    ensures
        match input {
            InputData::NamedStruct(fields) => r matches Ok(plans) && plan_views(plans@) == planned(
                fields@,
                fields@.len() as int,
            ),
            InputData::UnnamedStruct => r == Err::<Vec<GetterPlan>, GettersError>(
                GettersError::UnnamedFields,
            ),
            InputData::NotStruct => r == Err::<Vec<GetterPlan>, GettersError>(
                GettersError::NotStruct,
            ),
        },
{
    match input {
        InputData::NamedStruct(fields) => {
            let mut plans: Vec<GetterPlan> = Vec::new();
            let mut i: usize = 0;
            while i < fields.len()
                invariant
                    i <= fields@.len(),
                    plan_views(plans@) == planned(fields@, i as int),
                decreases fields@.len() - i,
            {
                let field = &fields[i];
                if !has_getter_skip(&field.attrs) {
                    match generate_getter(field, i) {
                        Some(plan) => {
                            plans.push(plan);
                        },
                        None => {},
                    }
                }
                assert(plan_views(plans@) =~= planned(fields@, i + 1));
                i = i + 1;
            }
            Ok(plans)
        },
        InputData::UnnamedStruct => Err(GettersError::UnnamedFields),
        InputData::NotStruct => Err(GettersError::NotStruct),
    }
}

impl GettersError {
    /// The message the derive reports for this error.
    pub fn message(&self) -> (m: String)
        ensures
            m@ == error_message(*self),
    {
        match self {
            GettersError::NotStruct => String::from_str("Getters only supports structs"),
            GettersError::UnnamedFields => String::from_str(
                "Getters only supports structs with named fields",
            ),
        }
    }
}

// ---------------------------------------------------------------------------
// Laws
// ---------------------------------------------------------------------------

proof fn lemma_planned_structure(fields: Seq<Field>, n: int)
    requires
        0 <= n <= fields.len(),
    ensures
        forall|k: int|
            0 <= k < planned(fields, n).len() ==> {
                let idx = (#[trigger] planned(fields, n)[k]).0 as int;
                &&& 0 <= idx < n
                &&& kept(fields[idx])
                &&& planned(fields, n)[k] == entry_for(fields[idx], idx)
            },
        forall|k1: int, k2: int|
            0 <= k1 < k2 < planned(fields, n).len() ==> (#[trigger] planned(fields, n)[k1]).0
                < (#[trigger] planned(fields, n)[k2]).0,
        forall|i: int|
            0 <= i < n && #[trigger] kept(fields[i]) ==> exists|k: int|
                0 <= k < planned(fields, n).len() && (#[trigger] planned(fields, n)[k]).0 == i,
    decreases n,
{
    if n > 0 {
        lemma_planned_structure(fields, n - 1);
        let prev = planned(fields, n - 1);
        if kept(fields[n - 1]) {
            let cur = planned(fields, n);
            assert(cur == prev.push(entry_for(fields[n - 1], n - 1)));
            assert forall|i: int| 0 <= i < n && #[trigger] kept(fields[i]) implies exists|k: int|
                0 <= k < cur.len() && (#[trigger] cur[k]).0 == i by {
                if i == n - 1 {
                    assert(cur[prev.len() as int].0 == i);
                } else {
                    let k = choose|k: int| 0 <= k < prev.len() && (#[trigger] prev[k]).0 == i;
                    assert(cur[k] == prev[k]);
                }
            }
        }
    }
}

/// A field that is skipped, or has no name, gets no accessor.
pub proof fn skipped_field_gets_no_getter(fields: Seq<Field>, i: int)
    requires
        0 <= i < fields.len(),
        !kept(fields[i]),
    ensures
        forall|k: int|
            0 <= k < planned(fields, fields.len() as int).len() ==> (#[trigger] planned(
                fields,
                fields.len() as int,
            )[k]).0 != i,
{
    lemma_planned_structure(fields, fields.len() as int);
}

/// A named field that is not skipped gets exactly one accessor, named by its
/// `rename` attribute or else after the field, returning the field in the
/// shape that its type calls for.
pub proof fn kept_field_gets_one_getter(fields: Seq<Field>, i: int)
    requires
        0 <= i < fields.len(),
        kept(fields[i]),
    ensures
        exists|k: int|
            0 <= k < planned(fields, fields.len() as int).len() && #[trigger] planned(
                fields,
                fields.len() as int,
            )[k] == entry_for(fields[i], i),
        forall|k1: int, k2: int|
            0 <= k1 < planned(fields, fields.len() as int).len() && 0 <= k2 < planned(
                fields,
                fields.len() as int,
            ).len() && (#[trigger] planned(fields, fields.len() as int)[k1]).0 == i && (
            #[trigger] planned(fields, fields.len() as int)[k2]).0 == i ==> k1 == k2,
{
    let n = fields.len() as int;
    lemma_planned_structure(fields, n);
    let k = choose|k: int| 0 <= k < planned(fields, n).len() && (#[trigger] planned(fields, n)[k]).0 == i;
    assert(planned(fields, n)[k] == entry_for(fields[i], i));
}

/// Accessors come in the order of their fields.
pub proof fn getters_follow_field_order(fields: Seq<Field>)
    ensures
        forall|k1: int, k2: int|
            0 <= k1 < k2 < planned(fields, fields.len() as int).len() ==> (#[trigger] planned(
                fields,
                fields.len() as int,
            )[k1]).0 < (#[trigger] planned(fields, fields.len() as int)[k2]).0,
{
    lemma_planned_structure(fields, fields.len() as int);
}

/// Fields whose type is one of the primitive types `bool`, `u8`, `u16`,
/// `u32`, `u64`, `usize`, `i8`, `i16`, `i32`, `i64`, `f32`, `f64` get an
/// accessor that returns the field by value.
pub proof fn primitive_fields_returned_by_value(ty: FieldType)
    requires
        ty matches FieldType::Path { last: Some(s), .. } && (s@ == "bool"@ || s@ == "u8"@ || s@
            == "u16"@ || s@ == "u32"@ || s@ == "u64"@ || s@ == "usize"@ || s@ == "i8"@ || s@
            == "i16"@ || s@ == "i32"@ || s@ == "i64"@ || s@ == "f32"@ || s@ == "f64"@),
    ensures
        shape_of(ty) == GetterShape::ByValue,
{
    reveal_strlit("String");
    reveal_strlit("Vec");
    reveal_strlit("Option");
    reveal_strlit("bool");
    reveal_strlit("u8");
    reveal_strlit("u16");
    reveal_strlit("u32");
    reveal_strlit("u64");
    reveal_strlit("usize");
    reveal_strlit("i8");
    reveal_strlit("i16");
    reveal_strlit("i32");
    reveal_strlit("i64");
    reveal_strlit("f32");
    reveal_strlit("f64");
    let s = ty->Path_last->0;
    assert(s@ != "String"@ && s@ != "Vec"@ && s@ != "Option"@) by {
        assert(s@.len() <= 5);
        if s@.len() == 3 {
            assert(s@[0] != "Vec"@[0]);
        }
    }
    assert(copy_typed(ty));
}

/// Reference fields get an accessor that returns the reference itself.
pub proof fn reference_fields_returned_by_value()
    ensures
        shape_of(FieldType::Reference) == GetterShape::ByValue,
{
}

/// A `Vec` field is handed out as a slice of its element type whenever the
/// type spells out a first generic argument, whatever kind of type that is;
/// only without one is the element type left to inference.
pub proof fn vec_fields_returned_as_slices(last: String, first_arg: Option<Box<FieldType>>)
    requires
        last@ == "Vec"@,
    ensures
        shape_of(FieldType::Path { last: Some(last), first_arg }) == GetterShape::Slice(
            if first_arg is Some {
                InnerType::FirstArg
            } else {
                InnerType::Infer
            },
        ),
{
    reveal_strlit("String");
    reveal_strlit("Vec");
    assert(last@[0] != "String"@[0]);
}

/// An `Option` field whose argument is not `String` is handed out as an
/// optional reference to its argument type whenever the type spells one out,
/// whatever kind of type that is; only without one is it left to inference.
pub proof fn option_fields_returned_as_optional_refs(
    last: String,
    first_arg: Option<Box<FieldType>>,
)
    requires
        last@ == "Option"@,
        !(first_arg matches Some(inner) && (*inner matches FieldType::Path { last: Some(n), .. }
            && n@ == "String"@)),
    ensures
        shape_of(FieldType::Path { last: Some(last), first_arg }) == GetterShape::OptionRef(
            if first_arg is Some {
                InnerType::FirstArg
            } else {
                InnerType::Infer
            },
        ),
{
    reveal_strlit("String");
    reveal_strlit("Vec");
    reveal_strlit("Option");
    assert(last@[0] != "String"@[0]);
    assert(last@[0] != "Vec"@[0]);
}

/// An attribute whose path is not `getter`.
pub open spec fn foreign_attr(attr: Attribute) -> bool {
    !(attr.path matches Some(p) && p@ == "getter"@)
}

proof fn lemma_rename_of_shift(a: Attribute, attrs: Seq<Attribute>, k: int)
    requires
        0 <= k,
    ensures
        rename_of(seq![a] + attrs, k + 1) == rename_of(attrs, k),
    decreases attrs.len() - k,
{
    let s = seq![a] + attrs;
    if k < attrs.len() {
        assert(s[k + 1] == attrs[k]);
        lemma_rename_of_shift(a, attrs, k + 1);
    }
}

/// An attribute other than `getter` (a doc comment, `serde`, ...) in front of
/// the others never changes the name given by `rename`.
pub proof fn foreign_attribute_keeps_rename(a: Attribute, attrs: Seq<Attribute>)
    requires
        foreign_attr(a),
    ensures
        rename_of(seq![a] + attrs, 0) == rename_of(attrs, 0),
{
    let s = seq![a] + attrs;
    assert(s[0] == a);
    lemma_rename_of_shift(a, attrs, 0);
}

proof fn lemma_no_getter_no_rename(attrs: Seq<Attribute>, k: int)
    requires
        0 <= k,
        forall|j: int| 0 <= j < attrs.len() ==> foreign_attr(#[trigger] attrs[j]),
    ensures
        rename_of(attrs, k) is None,
    decreases attrs.len() - k,
{
    if k < attrs.len() {
        assert(foreign_attr(attrs[k]));
        lemma_no_getter_no_rename(attrs, k + 1);
    }
}

/// Attributes other than `getter` never name an accessor: a field none of
/// whose attributes is `getter` gets an accessor named after the field.
pub proof fn foreign_attributes_never_rename(field: Field)
    requires
        field.ident is Some,
        forall|j: int| 0 <= j < field.attrs@.len() ==> foreign_attr(#[trigger] field.attrs@[j]),
    ensures
        rename_of(field.attrs@, 0) is None,
        method_name(field) == field.ident->0@,
{
    lemma_no_getter_no_rename(field.attrs@, 0);
}

proof fn lemma_first_getter_rename(attrs: Seq<Attribute>, i: int, name: String, k: int)
    requires
        0 <= k <= i < attrs.len(),
        forall|j: int| 0 <= j < i ==> foreign_attr(#[trigger] attrs[j]),
        attrs[i].path matches Some(p) && p@ == "getter"@,
        attrs[i].items matches Some(items) && (items@.len() == 1 && (items@[0].ident matches Some(r)
            && r@ == "rename"@) && items@[0].value == (MetaValue::Assign {
            lit: LitValue::Str(name),
            ends_cleanly: true,
        })),
    ensures
        rename_of(attrs, k) == Some(name@),
    decreases i - k,
{
    if k < i {
        assert(foreign_attr(attrs[k]));
        lemma_first_getter_rename(attrs, i, name, k + 1);
    } else {
        let items = attrs[i].items->0@;
        assert(rename_from(items, 1, Some(name@)) == Some(name@));
        assert(rename_from(items, 0, None) == Some(name@));
    }
}

/// `#[getter(rename = "name")]` names the accessor, wherever the attribute
/// stands, as long as no `getter` attribute comes before it: attributes of
/// other kinds in front (doc comments, ...) do not matter.
pub proof fn getter_rename_names_accessor(field: Field, i: int, name: String)
    requires
        field.ident is Some,
        0 <= i < field.attrs@.len(),
        forall|j: int| 0 <= j < i ==> foreign_attr(#[trigger] field.attrs@[j]),
        field.attrs@[i].path matches Some(p) && p@ == "getter"@,
        field.attrs@[i].items matches Some(items) && (items@.len() == 1 && (items@[0].ident matches Some(r)
            && r@ == "rename"@) && items@[0].value == (MetaValue::Assign {
            lit: LitValue::Str(name),
            ends_cleanly: true,
        })),
    ensures
        rename_of(field.attrs@, 0) == Some(name@),
        method_name(field) == name@,
{
    lemma_first_getter_rename(field.attrs@, i, name, 0);
}

/// `#[getter(skip)]` skips the field wherever the attribute stands among the
/// field's attributes, whatever attributes come before or after it.
pub proof fn getter_skip_anywhere_skips(attrs: Seq<Attribute>, i: int)
    requires
        0 <= i < attrs.len(),
        attrs[i].path matches Some(p) && p@ == "getter"@,
        attrs[i].items matches Some(items) && (items@.len() > 0 && (items@[0].ident matches Some(s)
            && s@ == "skip"@)),
    ensures
        field_skipped(attrs),
{
    assert(attr_requests_skip(attrs[i]));
}

/// An attribute other than `getter` in front of the others never changes
/// whether the field is skipped.
pub proof fn foreign_attribute_keeps_skip(a: Attribute, attrs: Seq<Attribute>)
    requires
        foreign_attr(a),
    ensures
        field_skipped(seq![a] + attrs) == field_skipped(attrs),
{
    let s = seq![a] + attrs;
    assert(!attr_requests_skip(a));
    if field_skipped(attrs) {
        let i = choose|i: int| 0 <= i < attrs.len() && #[trigger] attr_requests_skip(attrs[i]);
        assert(s[i + 1] == attrs[i]);
    }
    if field_skipped(s) {
        let i = choose|i: int| 0 <= i < s.len() && #[trigger] attr_requests_skip(s[i]);
        assert(i != 0);
        assert(s[i] == attrs[i - 1]);
    }
}

/// `String` fields are handed out as `&str`, whatever generic arguments the
/// path carries.
pub proof fn string_fields_returned_as_str(last: String, first_arg: Option<Box<FieldType>>)
    requires
        last@ == "String"@,
    ensures
        shape_of(FieldType::Path { last: Some(last), first_arg }) == GetterShape::Str,
{
}

/// `Option<String>` fields are handed out as `Option<&str>`.
pub proof fn option_string_fields_returned_as_optional_str(
    last: String,
    inner_last: String,
    inner_arg: Option<Box<FieldType>>,
)
    requires
        last@ == "Option"@,
        inner_last@ == "String"@,
    ensures
        shape_of(
            FieldType::Path {
                last: Some(last),
                first_arg: Some(Box::new(FieldType::Path { last: Some(inner_last), first_arg: inner_arg })),
            },
        ) == GetterShape::OptionStr,
{
    reveal_strlit("String");
    reveal_strlit("Vec");
    reveal_strlit("Option");
    assert(last@[0] != "String"@[0]);
    assert(last@[0] != "Vec"@[0]);
}

/// A path type named by none of `String`, `Vec`, `Option` and the primitive
/// types returned by value (for instance `HashMap`, `u128`, `char`) is handed
/// out by reference; so is every type that is neither a path nor a reference.
pub proof fn other_fields_returned_by_ref(ty: FieldType)
    requires
        ty is Other || (ty matches FieldType::Path { last, .. } && !(last matches Some(s) && (s@
            == "String"@ || s@ == "Vec"@ || s@ == "Option"@ || s@ == "bool"@ || s@ == "u8"@ || s@
            == "u16"@ || s@ == "u32"@ || s@ == "u64"@ || s@ == "usize"@ || s@ == "i8"@ || s@
            == "i16"@ || s@ == "i32"@ || s@ == "i64"@ || s@ == "f32"@ || s@ == "f64"@))),
    ensures
        shape_of(ty) == GetterShape::ByRef,
{
}

/// Attributes other than `getter` never ask to skip: a field none of whose
/// attributes is `getter` is never skipped.
pub proof fn foreign_attributes_never_skip(attrs: Seq<Attribute>)
    requires
        forall|j: int| 0 <= j < attrs.len() ==> foreign_attr(#[trigger] attrs[j]),
    ensures
        !field_skipped(attrs),
{
    if field_skipped(attrs) {
        let i = choose|i: int| 0 <= i < attrs.len() && #[trigger] attr_requests_skip(attrs[i]);
        assert(foreign_attr(attrs[i]));
    }
}

} // verus!
