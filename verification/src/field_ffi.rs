//! Describes the fields of structs and enum variants, and generates the FFI functions for reading
//! and initializing them.

use crate::alias_resolution::{copy_names, map_view, names_view, resolvable, resolve_type_alias, resolves_to, AliasMap};
use crate::attributes::{field_attributes_readable, field_attributes_spec, AttributeError};
use crate::parsing::{
    expose_as_ident_spec, get_segment_for_field, path_is_ident, segment_for_field_spec, separable,
    separate_spec, separate_wrapping_type_from_inner_type, Attribute, FieldAttributes, Lit, Meta,
    RustType,
};
use crate::parsing::is_ident;
use crate::text::{decimal, decimal_string, snake_case, to_snake_case, views};
use crate::type_ffi::{
    argument_into_rust_spec, ffi_type_spec, identify, rust_to_ffi_value_spec, Context, IdentView,
    TypeFFI, TypeFFIView, TypeIdentifier, WrappingType,
};
use vstd::prelude::*;

verus! {

/// Where a field is found: in a struct, or in a variant of an enum.
pub enum FieldSource {
    /// A field of a struct.
    Struct,
    /// A field of an enum variant.
    Enum {
        /// The variant.
        variant_ident: String,
        /// The number of fields of the variant.
        variant_fields_len: usize,
        /// The enum's other variants, each with its number of fields.
        other_variants: Vec<(String, usize)>,
    },
}

/// The identifier of a field: its name, or, in a tuple struct or variant, its index.
pub enum FieldIdent {
    /// A named field like `bar` in `struct Foo { bar: Baz }`.
    NamedField(String),
    /// An unnamed field in a tuple struct like `struct Foo(Bar)`, by index.
    UnnamedField(usize),
}

/// The Rust text for accessing the field `f`.
pub open spec fn rust_token_spec(f: FieldIdent) -> Seq<char> {
    match f {
        FieldIdent::NamedField(i) => i@,
        FieldIdent::UnnamedField(n) => decimal(n as nat),
    }
}

/// The FFI identifier of the field `f`: its name, or `unnamed_field_N` for the field at index N.
pub open spec fn ffi_ident_spec(f: FieldIdent) -> Seq<char> {
    match f {
        FieldIdent::NamedField(i) => i@,
        FieldIdent::UnnamedField(n) => "unnamed_field_"@ + decimal(n as nat),
    }
}

impl FieldIdent {
    /// The Rust text for accessing this field (an index is not an identifier).
    pub fn rust_token(&self) -> (r: String)
        ensures
            r@ == rust_token_spec(*self),
    {
        match self {
            FieldIdent::NamedField(i) => String::from_str(i.as_str()),
            FieldIdent::UnnamedField(n) => decimal_string(*n),
        }
    }

    /// The FFI identifier for this field: the field's name, or an identifier like
    /// `unnamed_field_0` for a field of a tuple struct.
    pub fn ffi_ident(&self) -> (r: String)
        ensures
            r@ == ffi_ident_spec(*self),
    {
        match self {
            FieldIdent::NamedField(i) => String::from_str(i.as_str()),
            FieldIdent::UnnamedField(n) => {
                let mut r = String::from_str("unnamed_field_");
                let d = decimal_string(*n);
                r.append(d.as_str());
                r
            },
        }
    }

    /// The consumer's identifier for this field, which must match the FFI identifier.
    pub fn consumer_ident(&self) -> (r: String)
        ensures
            r@ == ffi_ident_spec(*self),
    {
        self.ffi_ident()
    }
}

/// The components of a field for generating an FFI.
pub struct FieldFFI {
    /// The type to which this field belongs.
    pub type_ident: String,
    /// The field for which this interface is being generated.
    pub field_name: FieldIdent,
    /// Where the field is found.
    pub field_source: FieldSource,
    /// The type information for generating an FFI for this field.
    pub native_type_data: TypeFFI,
    /// The FFI helper attributes on this field.
    pub attributes: FieldAttributes,
    /// Documentation comments on this field.
    pub doc_comments: Vec<String>,
}

/// The name of the generated getter for the field `f`, as in `get_foo_bar` for the field `bar`
/// of `Foo` (`get_optional_foo_bar` when optional, `get_foo_variant_bar` in an enum's variant).
pub open spec fn getter_name_spec(f: FieldFFI) -> Seq<char> {
    let prefix = if f.native_type_data.is_option {
        "get_optional_"@
    } else {
        "get_"@
    };
    let variant = match f.field_source {
        FieldSource::Enum { variant_ident, .. } => snake_case(variant_ident@) + "_"@,
        FieldSource::Struct => Seq::empty(),
    };
    prefix + snake_case(f.type_ident@) + "_"@ + variant + snake_case(ffi_ident_spec(f.field_name))
}

/// The `expose_as` identifier of a field.
pub open spec fn field_expose(f: FieldFFI) -> Option<Seq<char>> {
    expose_as_ident_spec(f.attributes)
}

/// The unreachable match arms for the other variants `others` of the enum `t`.
pub open spec fn invalid_arms_spec(t: Seq<char>, others: Seq<(String, usize)>) -> Seq<char>
    decreases others.len(),
{
    if others.len() == 0 {
        Seq::empty()
    } else {
        let (v, count) = others.last();
        let argument = if count == 0 {
            Seq::empty()
        } else {
            "(..)"@
        };
        invalid_arms_spec(t, others.drop_last()) + t + "::"@ + v@ + argument
            + " => unreachable!(\"This arm is unreachable.\"), "@
    }
}

/// The FFI getter function for the field `f`: an `extern "C"` function taking a pointer to the
/// struct (or enum) and returning the field's value as an FFI-safe type.
pub open spec fn getter_fn_spec(f: FieldFFI) -> Seq<char> {
    let t = f.type_ident@;
    let ffi_type = ffi_type_spec(f.native_type_data, field_expose(f), Context::Return);
    match f.field_source {
        FieldSource::Struct => {
            let field = rust_token_spec(f.field_name);
            let conversion = rust_to_ffi_value_spec(
                f.native_type_data,
                "data."@ + field,
                f.attributes.expose_as is Some,
            );
            "ffi_common::core::paste! {\n    #[no_mangle]\n    #[doc = \"Get `\" "@ + field
                + " \"` for this `\" "@ + t + " \"`.\"]\n    pub unsafe extern \"C\" fn "@
                + getter_name_spec(f) + "(\n        ptr: *const "@ + t + "\n    ) -> "@ + ffi_type
                + " {\n        let data = &*ptr;\n        "@ + conversion + "\n    }\n}\n"@
        },
        FieldSource::Enum { variant_ident, other_variants, .. } => {
            let conversion = rust_to_ffi_value_spec(
                f.native_type_data,
                "data"@,
                f.attributes.expose_as is Some,
            );
            "ffi_common::core::paste! {\n    #[no_mangle]\n    pub unsafe extern \"C\" fn "@
                + getter_name_spec(f) + "(\n        ptr: *const "@ + t + "\n    ) -> "@ + ffi_type
                + " {\n        match &*ptr {\n            "@ + t + "::"@ + variant_ident@
                + "(data) => "@ + conversion + ",\n            "@ + invalid_arms_spec(
                t,
                other_variants@,
            ) + "\n        }\n    }\n}\n"@
        },
    }
}

/// The initializer argument for the field `f`, as in `bar: *mut Bar,`.
pub open spec fn initializer_argument_spec(f: FieldFFI) -> Seq<char> {
    ffi_ident_spec(f.field_name) + ": "@ + ffi_type_spec(
        f.native_type_data,
        field_expose(f),
        Context::Argument,
    ) + ","@
}

/// The expression assigning the initializer argument of the field `f` to the field, converting
/// it to the native type.
pub open spec fn assignment_spec(f: FieldFFI) -> Seq<char> {
    let conversion = argument_into_rust_spec(
        f.native_type_data,
        ffi_ident_spec(f.field_name),
        f.attributes.expose_as is Some,
    );
    match f.field_source {
        FieldSource::Struct => rust_token_spec(f.field_name) + ": "@ + conversion + ","@,
        FieldSource::Enum { .. } => conversion + ","@,
    }
}

/// True when the field's enum variant is not among the other variants.
pub open spec fn source_consistent(s: FieldSource) -> bool {
    match s {
        FieldSource::Enum { variant_ident, other_variants, .. } => forall|i: int|
            0 <= i < other_variants@.len() ==> (#[trigger] other_variants@[i]).0@ != variant_ident@,
        FieldSource::Struct => true,
    }
}

impl FieldFFI {
    /// The name of the generated getter function. This is used both for the Rust getter and the
    /// body of the consumer's getter, which keeps them linked.
    pub fn getter_name(&self) -> (r: String)
        ensures
            r@ == getter_name_spec(*self),
    {
        let mut r = if self.native_type_data.is_option {
            String::from_str("get_optional_")
        } else {
            String::from_str("get_")
        };
        let t = to_snake_case(self.type_ident.as_str());
        r.append(t.as_str());
        r.append("_");
        match &self.field_source {
            FieldSource::Enum { variant_ident, .. } => {
                let v = to_snake_case(variant_ident.as_str());
                r.append(v.as_str());
                r.append("_");
            },
            FieldSource::Struct => {
                let ghost before = r@;
                assert(before + Seq::<char>::empty() =~= before);
            },
        }
        let f = self.field_name.ffi_ident();
        let fs = to_snake_case(f.as_str());
        r.append(fs.as_str());
        r
    }

    /// An `extern "C"` function returning the value of this field through the FFI, as in
    /// `pub extern "C" fn get_some_type_field(ptr: *const SomeType) -> FFIType`.
    pub fn getter_fn(&self) -> (r: String)
        requires
            source_consistent(self.field_source),
        ensures
            r@ == getter_fn_spec(*self),
    {
        let t = self.type_ident.as_str();
        let getter_name = self.getter_name();
        let ffi_type = self.native_type_data.ffi_type(self.attributes.expose_as_ident(), Context::Return);
        match &self.field_source {
            FieldSource::Struct => {
                let field = self.field_name.rust_token();
                let mut accessor = String::from_str("data.");
                accessor.append(field.as_str());
                let conversion = self.native_type_data.rust_to_ffi_value(accessor.as_str(), &self.attributes);
                let mut r = String::from_str("ffi_common::core::paste! {\n    #[no_mangle]\n    #[doc = \"Get `\" ");
                r.append(field.as_str());
                r.append(" \"` for this `\" ");
                r.append(t);
                r.append(" \"`.\"]\n    pub unsafe extern \"C\" fn ");
                r.append(getter_name.as_str());
                r.append("(\n        ptr: *const ");
                r.append(t);
                r.append("\n    ) -> ");
                r.append(ffi_type.as_str());
                r.append(" {\n        let data = &*ptr;\n        ");
                r.append(conversion.as_str());
                r.append("\n    }\n}\n");
                r
            },
            FieldSource::Enum { variant_ident, other_variants, .. } => {
                let conversion = self.native_type_data.rust_to_ffi_value("data", &self.attributes);
                let invalid = invalid_arms(t, other_variants);
                let mut r = String::from_str("ffi_common::core::paste! {\n    #[no_mangle]\n    pub unsafe extern \"C\" fn ");
                r.append(getter_name.as_str());
                r.append("(\n        ptr: *const ");
                r.append(t);
                r.append("\n    ) -> ");
                r.append(ffi_type.as_str());
                r.append(" {\n        match &*ptr {\n            ");
                r.append(t);
                r.append("::");
                r.append(variant_ident.as_str());
                r.append("(data) => ");
                r.append(conversion.as_str());
                r.append(",\n            ");
                r.append(invalid.as_str());
                r.append("\n        }\n    }\n}\n");
                r
            },
        }
    }

    /// The memberwise initializer argument for passing a value for this field to an FFI
    /// initializer.
    pub fn ffi_initializer_argument(&self) -> (r: String)
        ensures
            r@ == initializer_argument_spec(*self),
    {
        let mut r = self.field_name.ffi_ident();
        let ty = self.native_type_data.ffi_type(self.attributes.expose_as_ident(), Context::Argument);
        r.append(": ");
        r.append(ty.as_str());
        r.append(",");
        r
    }

    /// The expression assigning an initializer argument to this field, with any required type
    /// conversion included.
    pub fn assignment_expression(&self) -> (r: String)
        ensures
            r@ == assignment_spec(*self),
    {
        let ffi_ident = self.field_name.ffi_ident();
        let conversion = self.native_type_data.argument_into_rust(
            ffi_ident.as_str(),
            self.attributes.expose_as.is_some(),
        );
        match &self.field_source {
            FieldSource::Struct => {
                let mut r = self.field_name.rust_token();
                r.append(": ");
                r.append(conversion.as_str());
                r.append(",");
                r
            },
            FieldSource::Enum { .. } => {
                let mut r = conversion;
                r.append(",");
                r
            },
        }
    }
}

/// The unreachable match arms for the other variants of the enum `t`.
fn invalid_arms(t: &str, others: &Vec<(String, usize)>) -> (r: String)
    ensures
        r@ == invalid_arms_spec(t@, others@),
{
    let mut r = String::new();
    let mut i: usize = 0;
    while i < others.len()
        invariant
            i <= others.len(),
            r@ == invalid_arms_spec(t@, others@.take(i as int)),
        decreases others.len() - i,
    {
        proof {
            assert(others@.take(i + 1).drop_last() =~= others@.take(i as int));
        }
        r.append(t);
        r.append("::");
        r.append(others[i].0.as_str());
        if others[i].1 != 0 {
            r.append("(..)");
        } else {
            let ghost before = r@;
            assert(before + Seq::<char>::empty() =~= before);
        }
        r.append(" => unreachable!(\"This arm is unreachable.\"), ");
        i = i + 1;
    }
    assert(others@.take(others.len() as int) =~= others@);
    r
}

// ---------------------------------------------------------------------------------------------
// Building fields
// ---------------------------------------------------------------------------------------------

/// A field as written in a struct or enum variant.
pub struct Field {
    /// The field's name; `None` in a tuple struct or variant.
    pub ident: Option<String>,
    /// The field's type.
    pub ty: RustType,
    /// The attributes on the field.
    pub attrs: Vec<Attribute>,
}

/// The fields of a struct or enum variant.
pub enum Fields {
    /// Named fields, as in `{ a: A, b: B }`.
    Named(Vec<Field>),
    /// Unnamed fields, as in `(A, B)`.
    Unnamed(Vec<Field>),
    /// No fields.
    Unit,
}

/// Why a field cannot be exposed through the FFI.
#[derive(Debug, Clone, Copy, PartialEq, Eq, Structural)]
pub enum FieldError {
    /// The field's type has no path segment.
    NoPathSegment,
    /// A named field has no identifier.
    MissingIdentifier,
    /// The field's FFI helper attributes are rejected.
    Attributes(AttributeError),
}

/// The documentation strings among `attrs`: the values of `doc = "..."` attributes, in order.
pub open spec fn docs_of(attrs: Seq<Attribute>) -> Seq<Seq<char>>
    decreases attrs.len(),
{
    if attrs.len() == 0 {
        Seq::empty()
    } else {
        let rest = docs_of(attrs.drop_last());
        let a = attrs.last();
        if path_is_ident(a.path, "doc"@) {
            match a.meta {
                Some(Meta::NameValue(nv)) => match nv.lit {
                    Lit::Str(ls) => rest.push(ls.value@),
                    _ => rest,
                },
                _ => rest,
            }
        } else {
            rest
        }
    }
}

/// The documentation strings among `attrs`, in order.
pub fn parse_doc_comments(attrs: &Vec<Attribute>) -> (r: Vec<String>)
    ensures
        views(r@) == docs_of(attrs@),
{
    let mut r: Vec<String> = Vec::new();
    let mut i: usize = 0;
    while i < attrs.len()
        invariant
            i <= attrs.len(),
            views(r@) == docs_of(attrs@.take(i as int)),
        decreases attrs.len() - i,
    {
        proof {
            assert(attrs@.take(i + 1).drop_last() =~= attrs@.take(i as int));
        }
        let a = &attrs[i];
        if is_ident(&a.path, "doc") {
            match &a.meta {
                Some(Meta::NameValue(nv)) => match &nv.lit {
                    Lit::Str(ls) => {
                        let ghost before = views(r@);
                        r.push(String::from_str(ls.value.as_str()));
                        assert(views(r@) =~= before.push(ls.value@));
                    },
                    _ => {},
                },
                _ => {},
            }
        }
        i = i + 1;
    }
    assert(attrs@.take(attrs.len() as int) =~= attrs@);
    r
}

/// The data read from a field before it is turned into a `FieldFFI`.
pub struct FieldInputs {
    /// The type the field belongs to.
    pub type_ident: String,
    /// The field's identifier.
    pub field_ident: FieldIdent,
    /// The field's type.
    pub field_type: RustType,
    /// Where the field is found.
    pub field_source: FieldSource,
    /// The attributes on the field.
    pub field_attrs: Vec<Attribute>,
    /// The alias modules in which the field's type is looked up.
    pub alias_modules: Vec<String>,
}

/// The identifier of the first segment of a separable field type and its wrapper.
pub open spec fn field_type_parts(ty: RustType) -> (Seq<char>, WrappingType) {
    separate_spec(segment_for_field_spec(ty)->0)
}

/// True when a field's inputs can be read: its attributes readable, its type separable into a
/// wrapper and an inner type, and the inner type's chain of aliases finite.
pub open spec fn field_inputs_readable(inputs: FieldInputs, map: AliasMap) -> bool {
    &&& field_attributes_readable(inputs.field_attrs@)
    &&& (segment_for_field_spec(inputs.field_type) matches Some(seg) ==> {
        &&& separable(seg)
        &&& resolvable(map_view(map.modules@), separate_spec(seg).0, names_view(inputs.alias_modules@))
    })
}

/// The mathematical value of a field identifier.
pub enum FieldIdentView {
    /// A named field.
    Named(Seq<char>),
    /// An unnamed field, by index.
    Unnamed(usize),
}

/// The mathematical value of a field identifier.
pub open spec fn ident_view(f: FieldIdent) -> FieldIdentView {
    match f {
        FieldIdent::NamedField(i) => FieldIdentView::Named(i@),
        FieldIdent::UnnamedField(n) => FieldIdentView::Unnamed(n),
    }
}

/// The mathematical value of the other variants of an enum.
pub open spec fn others_view(o: Seq<(String, usize)>) -> Seq<(Seq<char>, usize)> {
    o.map_values(|e: (String, usize)| (e.0@, e.1))
}

/// The mathematical value of where a field is found.
pub enum SourceView {
    /// A struct.
    Struct,
    /// A variant of an enum: the variant, its number of fields, and the other variants.
    Enum(Seq<char>, usize, Seq<(Seq<char>, usize)>),
}

/// The mathematical value of where a field is found.
pub open spec fn source_view(s: FieldSource) -> SourceView {
    match s {
        FieldSource::Struct => SourceView::Struct,
        FieldSource::Enum { variant_ident, variant_fields_len, other_variants } => SourceView::Enum(
            variant_ident@,
            variant_fields_len,
            others_view(other_variants@),
        ),
    }
}

/// True when `f` is the field built from a field of the type `type_ident`, with identifier
/// `ident`, found in `source`, of the type `field_type` and with the attributes `attrs`: its
/// attributes parsed, and the type data of its type with aliases resolved in `modules` (a raw
/// field's type is raw).
pub open spec fn field_built(
    f: FieldFFI,
    type_ident: Seq<char>,
    ident: FieldIdentView,
    source: SourceView,
    field_type: RustType,
    attrs: Seq<Attribute>,
    modules: Seq<Seq<char>>,
    map: AliasMap,
) -> bool {
    let (inner, wrapping) = field_type_parts(field_type);
    &&& segment_for_field_spec(field_type) is Some
    &&& f.type_ident@ == type_ident
    &&& ident_view(f.field_name) == ident
    &&& source_view(f.field_source) == source
    &&& field_attributes_spec(attrs) == Ok::<FieldAttributes, AttributeError>(f.attributes)
    &&& views(f.doc_comments@) == docs_of(attrs)
    &&& exists|t: Seq<char>| {
        &&& resolves_to(map_view(map.modules@), inner, modules, t)
        &&& f.native_type_data@ == TypeFFIView {
            native_type: if f.attributes.raw {
                IdentView::Raw(t)
            } else {
                identify(t)
            },
            is_option: wrapping == WrappingType::Option || wrapping == WrappingType::OptionVec,
            is_vec: wrapping == WrappingType::Vec || wrapping == WrappingType::OptionVec,
            is_result: false,
            is_cow: false,
            is_borrow: false,
        }
    }
}

impl FieldFFI {
    /// Reads a field: parses its FFI helper attributes and its type, resolving aliases through
    /// `map`. A field whose type has no path segment, or whose attributes are rejected, cannot be
    /// exposed.
    pub fn from(inputs: FieldInputs, map: &AliasMap) -> (r: Result<FieldFFI, FieldError>)
        requires
            field_inputs_readable(inputs, *map),
        ensures
            match r {
                Ok(f) => field_built(
                    f,
                    inputs.type_ident@,
                    ident_view(inputs.field_ident),
                    source_view(inputs.field_source),
                    inputs.field_type,
                    inputs.field_attrs@,
                    names_view(inputs.alias_modules@),
                    *map,
                ),
                Err(FieldError::Attributes(e)) => field_attributes_spec(inputs.field_attrs@) == Err::<FieldAttributes, AttributeError>(e),
                Err(FieldError::NoPathSegment) => field_attributes_spec(inputs.field_attrs@) is Ok
                    && segment_for_field_spec(inputs.field_type) is None,
                Err(FieldError::MissingIdentifier) => false,
            },
    {
        let ghost inputs0 = inputs;
        let docs = parse_doc_comments(&inputs.field_attrs);
        let attributes = match FieldAttributes::from(inputs.field_attrs) {
            Ok(a) => a,
            Err(e) => {
                return Err(FieldError::Attributes(e));
            },
        };
        let (ident, wrapping_type) = match get_segment_for_field(&inputs.field_type) {
            Some(seg) => separate_wrapping_type_from_inner_type(seg),
            None => {
                return Err(FieldError::NoPathSegment);
            },
        };
        let unaliased = resolve_type_alias(ident.as_str(), &inputs.alias_modules, map);
        let ghost t = unaliased@;
        let field_type = if attributes.raw {
            TypeIdentifier::Raw(unaliased)
        } else {
            TypeIdentifier::from(unaliased)
        };
        let native_type_data = TypeFFI::from_wrapped(field_type, wrapping_type);
        let f = FieldFFI {
            type_ident: inputs.type_ident,
            field_name: inputs.field_ident,
            field_source: inputs.field_source,
            native_type_data,
            attributes,
            doc_comments: docs,
        };
        assert(resolves_to(map_view(map.modules@), ident@, names_view(inputs0.alias_modules@), t));
        Ok(f)
    }
}

/// Why the field `fl`, which cannot be exposed, is rejected: its attributes first, then its type.
pub open spec fn field_error(fl: Field) -> FieldError {
    match field_attributes_spec(fl.attrs@) {
        Err(e) => FieldError::Attributes(e),
        Ok(_) => FieldError::NoPathSegment,
    }
}

/// True when `e` is the rejection of the first field of `fs` that cannot be exposed.
pub open spec fn first_field_error(fs: Seq<Field>, e: FieldError) -> bool {
    exists|j: int| {
        &&& 0 <= j < fs.len()
        &&& (forall|i: int| 0 <= i < j ==> field_ok(#[trigger] fs[i]))
        &&& !field_ok(#[trigger] fs[j])
        &&& e == field_error(fs[j])
    }
}

/// True when every field of `fields` has a name.
pub open spec fn fields_named(fields: Seq<Field>) -> bool {
    forall|j: int| 0 <= j < fields.len() ==> (#[trigger] fields[j]).ident is Some
}

/// True when a field can be exposed: its attributes are accepted and its type has a path segment.
pub open spec fn field_ok(fl: Field) -> bool {
    field_attributes_spec(fl.attrs@) is Ok && segment_for_field_spec(fl.ty) is Some
}

/// True when every field of `fields` can be read, given the alias modules and map.
pub open spec fn fields_readable(fields: Seq<Field>, modules: Seq<Seq<char>>, map: AliasMap) -> bool {
    forall|j: int| 0 <= j < fields.len() ==> {
        &&& field_attributes_readable((#[trigger] fields[j]).attrs@)
        &&& (segment_for_field_spec(fields[j].ty) matches Some(seg) ==> {
            &&& separable(seg)
            &&& resolvable(map_view(map.modules@), separate_spec(seg).0, modules)
        })
    }
}

/// The identifier of the field at `j`: its name for named fields, its index otherwise.
pub open spec fn field_ident_at(named: bool, fields: Seq<Field>, j: int) -> FieldIdentView {
    if named {
        FieldIdentView::Named(fields[j].ident->0@)
    } else {
        FieldIdentView::Unnamed(j as usize)
    }
}

/// A copy of the other variants.
fn copy_others(o: &Vec<(String, usize)>) -> (r: Vec<(String, usize)>)
    ensures
        others_view(r@) == others_view(o@),
{
    let mut r: Vec<(String, usize)> = Vec::new();
    let mut i: usize = 0;
    while i < o.len()
        invariant
            i <= o.len(),
            r@.len() == i,
            forall|j: int| 0 <= j < i ==> (#[trigger] r@[j]).0@ == o@[j].0@ && r@[j].1 == o@[j].1,
        decreases o.len() - i,
    {
        r.push((String::from_str(o[i].0.as_str()), o[i].1));
        i = i + 1;
    }
    assert(others_view(r@) =~= others_view(o@));
    r
}

/// Builds the fields of the enum variant `variant_ident` of `type_ident`, whose other variants
/// are `other_variants`. A unit variant has no fields; a named field without a name, or a field
/// that cannot be exposed, is rejected.
pub fn fields_for_variant(
    type_ident: &String,
    alias_modules: &Vec<String>,
    variant_ident: &String,
    variant_fields: Fields,
    other_variants: Vec<(String, usize)>,
    map: &AliasMap,
) -> (r: Result<Vec<FieldFFI>, FieldError>)
    requires
        match variant_fields {
            Fields::Named(fs) => fields_readable(fs@, names_view(alias_modules@), *map),
            Fields::Unnamed(fs) => fields_readable(fs@, names_view(alias_modules@), *map),
            Fields::Unit => true,
        },
    ensures
        match variant_fields {
            Fields::Unit => r matches Ok(v) && v@.len() == 0,
            Fields::Named(fs) => variant_fields_result(r, true, fs@, *type_ident, *variant_ident, other_variants@, *alias_modules, *map),
            Fields::Unnamed(fs) => variant_fields_result(r, false, fs@, *type_ident, *variant_ident, other_variants@, *alias_modules, *map),
        },
{
    let (named, fields) = match variant_fields {
        Fields::Named(fs) => (true, fs),
        Fields::Unnamed(fs) => (false, fs),
        Fields::Unit => {
            return Ok(Vec::new());
        },
    };
    build_variant_fields(named, fields, type_ident, variant_ident, other_variants, alias_modules, map)
}

/// The result of building the fields `fs` of a variant: each field built with its identifier and
/// the variant as its source, when every field has a name (for named fields) and can be
/// exposed; otherwise the rejection.
pub open spec fn variant_fields_result(
    r: Result<Vec<FieldFFI>, FieldError>,
    named: bool,
    fs: Seq<Field>,
    type_ident: String,
    variant_ident: String,
    other_variants: Seq<(String, usize)>,
    alias_modules: Vec<String>,
    map: AliasMap,
) -> bool {
    &&& (r is Ok <==> ((named ==> fields_named(fs)) && forall|j: int| 0 <= j < fs.len() ==> field_ok(#[trigger] fs[j])))
    &&& (r matches Ok(v) ==> {
        &&& v@.len() == fs.len()
        &&& forall|j: int| 0 <= j < fs.len() ==> field_built(
            #[trigger] v@[j],
            type_ident@,
            field_ident_at(named, fs, j),
            SourceView::Enum(variant_ident@, fs.len() as usize, others_view(other_variants)),
            fs[j].ty,
            fs[j].attrs@,
            names_view(alias_modules@),
            map,
        )
    })
    &&& (r matches Err(FieldError::MissingIdentifier) <==> named && !fields_named(fs))
    &&& (r matches Err(e) ==> (e != FieldError::MissingIdentifier ==> first_field_error(fs, e)))
}

/// Builds the fields `fields` of a variant, named or not.
fn build_variant_fields(
    named: bool,
    fields: Vec<Field>,
    type_ident: &String,
    variant_ident: &String,
    other_variants: Vec<(String, usize)>,
    alias_modules: &Vec<String>,
    map: &AliasMap,
) -> (r: Result<Vec<FieldFFI>, FieldError>)
    requires
        fields_readable(fields@, names_view(alias_modules@), *map),
    ensures
        variant_fields_result(r, named, fields@, *type_ident, *variant_ident, other_variants@, *alias_modules, *map),
{
    let ghost all = fields@;
    let n: usize = fields.len();
    if named {
        let mut i: usize = 0;
        while i < n
            invariant
                named,
                n == fields@.len(),
                all == fields@,
                i <= n,
                forall|j: int| 0 <= j < i ==> (#[trigger] fields@[j]).ident is Some,
            decreases n - i,
        {
            if fields[i].ident.is_none() {
                assert(!fields_named(fields@));
                return Err(FieldError::MissingIdentifier);
            }
            i = i + 1;
        }
    }
    let mut rest = fields;
    let mut out: Vec<FieldFFI> = Vec::new();
    let mut k: usize = 0;
    while rest.len() > 0
        invariant
            all.len() == n,
            all == fields@,
            k + rest@.len() == all.len(),
            rest@ == all.skip(k as int),
            named ==> fields_named(all),
            fields_readable(all, names_view(alias_modules@), *map),
            out@.len() == k,
            forall|j: int| 0 <= j < k ==> field_ok(#[trigger] all[j]),
            forall|j: int| 0 <= j < k ==> field_built(
                #[trigger] out@[j],
                type_ident@,
                field_ident_at(named, all, j),
                SourceView::Enum(variant_ident@, n, others_view(other_variants@)),
                all[j].ty,
                all[j].attrs@,
                names_view(alias_modules@),
                *map,
            ),
        decreases rest@.len(),
    {
        let fl = rest.remove(0);
        assert(fl == all[k as int]);
        let field_ident = if named {
            match fl.ident {
                Some(i) => FieldIdent::NamedField(i),
                None => FieldIdent::UnnamedField(k),
            }
        } else {
            FieldIdent::UnnamedField(k)
        };
        let inputs = FieldInputs {
            type_ident: String::from_str(type_ident.as_str()),
            field_ident,
            field_type: fl.ty,
            field_source: FieldSource::Enum {
                variant_ident: String::from_str(variant_ident.as_str()),
                variant_fields_len: n,
                other_variants: copy_others(&other_variants),
            },
            field_attrs: fl.attrs,
            alias_modules: copy_names(alias_modules),
        };
        match FieldFFI::from(inputs, map) {
            Ok(f) => {
                out.push(f);
            },
            Err(e) => {
                assert(!field_ok(all[k as int]));
                return Err(e);
            },
        }
        k = k + 1;
        assert(rest@ =~= all.skip(k as int));
    }
    Ok(out)
}

} // verus!
