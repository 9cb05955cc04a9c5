//! The syntax that the FFI generators read, and the parsing of FFI helper attributes and types out
//! of it.
//!
//! The syntax is a plain data model of the parts of Rust's syntax tree that the generators look
//! at: paths, types, and attribute metadata.

use crate::text::{join, seq_join, str_equal, views};
use crate::type_ffi::WrappingType;
use vstd::prelude::*;

verus! {

/// A segment of a path, such as `Vec<T>` in `std::vec::Vec<T>`.
pub struct PathSegment {
    /// The segment's identifier.
    pub ident: String,
    /// The generic arguments of the segment.
    pub arguments: PathArguments,
}

/// The arguments of a path segment.
pub enum PathArguments {
    /// No arguments, as in `Foo`.
    Bare,
    /// Angle-bracketed arguments, as in `Vec<T>`.
    AngleBracketed(Vec<GenericArgument>),
    /// Parenthesized arguments, as in `Fn(A) -> B`.
    Parenthesized,
}

/// A generic argument in angle brackets.
pub enum GenericArgument {
    /// A type argument.
    Type(RustType),
    /// A lifetime argument.
    Lifetime,
    /// An associated type binding, as in `Item = T`.
    Binding,
    /// An associated type constraint, as in `Item: Trait`.
    Constraint,
    /// A const argument.
    Const,
}

/// A path, as in `std::vec::Vec<T>`.
pub struct Path {
    /// The path's segments, in order.
    pub segments: Vec<PathSegment>,
}

/// A Rust type.
pub enum RustType {
    /// An array type, `[T; n]`.
    Array(Box<RustType>),
    /// A path type, such as `Option<Foo>`.
    Path(Path),
    /// A raw pointer type: `*mut T` when the flag is set, `*const T` otherwise.
    Ptr(bool, Box<RustType>),
    /// A reference type, `&T` or `&mut T`.
    Reference(Box<RustType>),
    /// A slice type, `[T]`.
    Slice(Box<RustType>),
    /// Any other kind of type.
    Other,
}

/// The identifiers of a path's segments.
pub open spec fn path_idents(p: Path) -> Seq<Seq<char>> {
    p.segments@.map_values(|s: PathSegment| s.ident@)
}

/// True when the path is the single identifier `name`.
pub open spec fn path_is_ident(p: Path, name: Seq<char>) -> bool {
    &&& p.segments@.len() == 1
    &&& p.segments@[0].ident@ == name
    &&& p.segments@[0].arguments is Bare
}

/// True when `p` is the single identifier `name`.
pub fn is_ident(p: &Path, name: &str) -> (r: bool)
    ensures
        r == path_is_ident(*p, name@),
{
    if p.segments.len() != 1 {
        return false;
    }
    let seg = &p.segments[0];
    match &seg.arguments {
        PathArguments::Bare => str_equal(seg.ident.as_str(), name),
        _ => false,
    }
}

/// The identifiers of the segments of `p`.
pub fn path_segment_idents(p: &Path) -> (r: Vec<String>)
    ensures
        views(r@) == path_idents(*p),
{
    let mut r: Vec<String> = Vec::new();
    let mut i: usize = 0;
    while i < p.segments.len()
        invariant
            i <= p.segments.len(),
            r@.len() == i,
            forall|j: int| 0 <= j < i ==> #[trigger] r@[j]@ == p.segments@[j].ident@,
        decreases p.segments.len() - i,
    {
        r.push(String::from_str(p.segments[i].ident.as_str()));
        i = i + 1;
    }
    assert(views(r@) =~= path_idents(*p));
    r
}

/// The path written out, its segments separated by `::`.
pub open spec fn path_text_spec(p: Path) -> Seq<char> {
    seq_join(path_idents(p), "::"@)
}

/// The path written out, its segments separated by `::`.
pub fn path_text(p: &Path) -> (r: String)
    ensures
        r@ == path_text_spec(*p),
{
    let idents = path_segment_idents(p);
    join(&idents, "::")
}

/// The identifier of the last segment of `p`, if it has a segment.
pub open spec fn last_ident(p: Path) -> Option<Seq<char>> {
    if p.segments@.len() == 0 {
        None
    } else {
        Some(p.segments@.last().ident@)
    }
}

/// Field-level FFI helper attributes.
pub struct FieldAttributes {
    /// If `Some`, a path to the type that this field should be exposed as. That type must be
    /// FFI-safe and have a `From<T>` impl for the field's native type `T`.
    pub expose_as: Option<Path>,
    /// Whether the field's data should be exposed as a raw value (i.e., not boxed). This should
    /// only be applied to fields whose type is `repr(C)` and safe to expose over FFI.
    pub raw: bool,
}

/// The identifier of the type named by an `expose_as` path, if there is one.
pub open spec fn expose_as_ident_spec(a: FieldAttributes) -> Option<Seq<char>> {
    match a.expose_as {
        Some(p) => last_ident(p),
        None => None,
    }
}

impl FieldAttributes {
    /// If there's an `expose_as` attribute, the identifier of the last segment in its path (i.e.,
    /// the identifier of the type being referenced).
    pub fn expose_as_ident(&self) -> (r: Option<&String>)
        ensures
            match r {
                Some(s) => expose_as_ident_spec(*self) == Some(s@),
                None => expose_as_ident_spec(*self) is None,
            },
    {
        match &self.expose_as {
            Some(p) => {
                if p.segments.len() == 0 {
                    None
                } else {
                    Some(&p.segments[p.segments.len() - 1].ident)
                }
            },
            None => None,
        }
    }
}

/// A literal in attribute metadata.
pub enum Lit {
    /// A string literal.
    Str(LitStr),
    /// Any other literal.
    Other,
}

/// A string literal.
pub struct LitStr {
    /// The literal's value.
    pub value: String,
}

/// Attribute metadata, as in `ffi(raw)`, `ffi(custom = "path")`, or `raw`.
pub enum Meta {
    /// A bare path, as in `raw`.
    Path(Path),
    /// A list, as in `ffi(raw, expose_as = "Foo")`.
    List(MetaList),
    /// A name and a value, as in `expose_as = "Foo"`.
    NameValue(MetaNameValue),
}

/// A metadata list: a path followed by nested items in parentheses.
pub struct MetaList {
    /// The list's path.
    pub path: Path,
    /// The nested items.
    pub nested: Vec<NestedMeta>,
}

/// A metadata name-value pair.
pub struct MetaNameValue {
    /// The name.
    pub path: Path,
    /// The value.
    pub lit: Lit,
}

/// An item of a metadata list.
pub enum NestedMeta {
    /// Metadata.
    Meta(Meta),
    /// A literal.
    Lit(Lit),
}

/// An attribute on an item, as in `#[repr(C)]`.
pub struct Attribute {
    /// The attribute's path, as `repr` in `#[repr(C)]`.
    pub path: Path,
    /// The attribute's contents read as metadata, if they can be.
    pub meta: Option<Meta>,
}

/// The path of a metadata item.
pub open spec fn meta_path(m: Meta) -> Path {
    match m {
        Meta::Path(p) => p,
        Meta::List(l) => l.path,
        Meta::NameValue(nv) => nv.path,
    }
}

/// The identifier of the first segment of a path, if it has one.
pub open spec fn first_ident(p: Path) -> Option<Seq<char>> {
    if p.segments@.len() == 0 {
        None
    } else {
        Some(p.segments@[0].ident@)
    }
}

/// The path held by a nested metadata item, if the item is a bare path.
pub open spec fn nested_path_spec(arg: NestedMeta) -> Option<Path> {
    match arg {
        NestedMeta::Meta(Meta::Path(p)) => Some(p),
        _ => None,
    }
}

/// Digs the path out of a nested metadata item that is a bare path.
pub fn parse_path_from_nested_meta(arg: NestedMeta) -> (r: Option<Path>)
    ensures
        r == nested_path_spec(arg),
{
    match arg {
        NestedMeta::Meta(Meta::Path(p)) => Some(p),
        _ => None,
    }
}

/// The first segment of a type, if it is a path type with a segment.
pub open spec fn segment_for_field_spec(field_type: RustType) -> Option<PathSegment> {
    match field_type {
        RustType::Path(p) => if p.segments@.len() > 0 {
            Some(p.segments@[0])
        } else {
            None
        },
        _ => None,
    }
}

/// Finds the first path segment of `field_type`; `None` on types that are not paths, or paths
/// with no segments.
pub fn get_segment_for_field(field_type: &RustType) -> (r: Option<&PathSegment>)
    ensures
        match r {
            Some(s) => segment_for_field_spec(*field_type) == Some(*s),
            None => segment_for_field_spec(*field_type) is None,
        },
{
    match field_type {
        RustType::Path(p) => {
            if p.segments.len() > 0 {
                Some(&p.segments[0])
            } else {
                None
            }
        },
        _ => None,
    }
}

/// The type given as the first generic argument of a segment, if there is one.
pub open spec fn first_type_argument(seg: PathSegment) -> Option<RustType> {
    match seg.arguments {
        PathArguments::AngleBracketed(args) => if args@.len() > 0 {
            match args@[0] {
                GenericArgument::Type(t) => Some(t),
                _ => None,
            }
        } else {
            None
        },
        _ => None,
    }
}

/// The first segment of the first type argument of `seg`, if there is one.
pub open spec fn inner_segment(seg: PathSegment) -> Option<PathSegment> {
    match first_type_argument(seg) {
        Some(t) => segment_for_field_spec(t),
        None => None,
    }
}

/// True when `seg` can be separated into a wrapper and an inner type: a segment other than
/// `Option` and `Vec` always can; `Option<T>` and `Vec<T>` need a path `T` with a segment, and
/// `Option<Vec<T>>` needs the same of the `Vec`.
pub open spec fn separable(seg: PathSegment) -> bool {
    let id = seg.ident@;
    if id != "Option"@ && id != "Vec"@ {
        true
    } else {
        match inner_segment(seg) {
            Some(inner) => {
                if id == "Option"@ && inner.ident@ == "Vec"@ {
                    inner_segment(inner) is Some
                } else {
                    true
                }
            },
            None => false,
        }
    }
}

/// The inner type's identifier and the wrapper found around it, for a separable segment.
pub open spec fn separate_spec(seg: PathSegment) -> (Seq<char>, WrappingType) {
    let id = seg.ident@;
    if id == "Option"@ {
        let inner = inner_segment(seg)->0;
        if inner.ident@ == "Vec"@ {
            (inner_segment(inner)->0.ident@, WrappingType::OptionVec)
        } else {
            (inner.ident@, WrappingType::Option)
        }
    } else if id == "Vec"@ {
        (inner_segment(seg)->0.ident@, WrappingType::Vec)
    } else {
        (id, WrappingType::Unwrapped)
    }
}

/// The identifier of the first segment of the first type argument of `seg`.
fn inner_segment_ident(seg: &PathSegment) -> (r: Option<&String>)
    ensures
        match r {
            Some(i) => inner_segment(*seg) matches Some(s) && s.ident == *i,
            None => inner_segment(*seg) is None,
        },
{
    match &seg.arguments {
        PathArguments::AngleBracketed(args) => {
            if args.len() == 0 {
                return None;
            }
            match &args[0] {
                GenericArgument::Type(t) => match get_segment_for_field(t) {
                    Some(s) => Some(&s.ident),
                    None => None,
                },
                _ => None,
            }
        },
        _ => None,
    }
}

/// The first segment of the first type argument of `seg`.
fn inner_segment_exec(seg: &PathSegment) -> (r: Option<&PathSegment>)
    ensures
        match r {
            Some(s) => inner_segment(*seg) == Some(*s),
            None => inner_segment(*seg) is None,
        },
{
    match &seg.arguments {
        PathArguments::AngleBracketed(args) => {
            if args.len() == 0 {
                return None;
            }
            match &args[0] {
                GenericArgument::Type(t) => get_segment_for_field(t),
                _ => None,
            }
        },
        _ => None,
    }
}

/// True when `field_type_path` can be separated into a wrapper and an inner type.
pub fn is_separable(field_type_path: &PathSegment) -> (r: bool)
    ensures
        r == separable(*field_type_path),
{
    let id = field_type_path.ident.as_str();
    if !str_equal(id, "Option") && !str_equal(id, "Vec") {
        return true;
    }
    match inner_segment_exec(field_type_path) {
        Some(inner) => {
            if str_equal(id, "Option") && str_equal(inner.ident.as_str(), "Vec") {
                inner_segment_exec(inner).is_some()
            } else {
                true
            }
        },
        None => false,
    }
}

/// Given a path segment, flattens an outer `Option` or `Vec` (if any) so that the inner type can
/// be worked with directly. An `Option<Vec<T>>` gives `T` and `WrappingType::OptionVec`.
pub fn separate_wrapping_type_from_inner_type(field_type_path: &PathSegment) -> (r: (
    String,
    WrappingType,
))
    requires
        separable(*field_type_path),
    ensures
        (r.0@, r.1) == separate_spec(*field_type_path),
{
    let id = field_type_path.ident.as_str();
    if str_equal(id, "Option") {
        let inner = inner_segment_exec(field_type_path).unwrap();
        if str_equal(inner.ident.as_str(), "Vec") {
            let innermost = inner_segment_ident(inner).unwrap();
            (String::from_str(innermost.as_str()), WrappingType::OptionVec)
        } else {
            (String::from_str(inner.ident.as_str()), WrappingType::Option)
        }
    } else if str_equal(id, "Vec") {
        let inner = inner_segment_exec(field_type_path).unwrap();
        (String::from_str(inner.ident.as_str()), WrappingType::Vec)
    } else {
        (String::from_str(id), WrappingType::Unwrapped)
    }
}

/// True when the attribute is `repr(...)` with at least one item, the first naming `C`.
pub open spec fn attr_is_repr_c(a: Attribute) -> bool {
    match a.meta {
        Some(Meta::List(l)) => {
            &&& first_ident(l.path) == Some("repr"@)
            &&& l.nested@.len() > 0
            &&& match l.nested@[0] {
                NestedMeta::Meta(m) => first_ident(meta_path(m)) == Some("C"@),
                _ => false,
            }
        },
        _ => false,
    }
}

/// True when a `repr` metadata list of the attribute has no items.
pub open spec fn attr_is_empty_repr(a: Attribute) -> bool {
    match a.meta {
        Some(Meta::List(l)) => first_ident(l.path) == Some("repr"@) && l.nested@.len() == 0,
        _ => false,
    }
}

/// True when the path's first segment is `name`.
fn first_ident_is(p: &Path, name: &str) -> (r: bool)
    ensures
        r == (first_ident(*p) == Some(name@)),
{
    if p.segments.len() == 0 {
        false
    } else {
        str_equal(p.segments[0].ident.as_str(), name)
    }
}

/// The path of a metadata item.
pub fn meta_path_exec(m: &Meta) -> (r: &Path)
    ensures
        *r == meta_path(*m),
{
    match m {
        Meta::Path(p) => p,
        Meta::List(l) => &l.path,
        Meta::NameValue(nv) => &nv.path,
    }
}

/// True when an empty `repr()` among `attrs` is read before any `repr(C)`: the attributes are
/// read in order, up to the first `repr(C)`, and an empty `repr()` cannot be read.
pub open spec fn empty_repr_reached(attrs: Seq<Attribute>) -> bool {
    exists|i: int|
        0 <= i < attrs.len() && attr_is_empty_repr(#[trigger] attrs[i]) && forall|j: int|
            0 <= j < i ==> !attr_is_repr_c(#[trigger] attrs[j])
}

/// Returns true if an element of `attrs` marks this item as `repr(C)`. Otherwise, false.
pub fn is_repr_c(attrs: &Vec<Attribute>) -> (r: bool)
    requires
        !empty_repr_reached(attrs@),
    ensures
        r == exists|i: int| 0 <= i < attrs@.len() && attr_is_repr_c(#[trigger] attrs@[i]),
{
    let mut i: usize = 0;
    while i < attrs.len()
        invariant
            i <= attrs.len(),
            forall|j: int| 0 <= j < i ==> !attr_is_repr_c(#[trigger] attrs@[j]),
            !empty_repr_reached(attrs@),
        decreases attrs.len() - i,
    {
        let a = &attrs[i];
        assert(!attr_is_empty_repr(attrs@[i as int]));
        let found = match &a.meta {
            Some(Meta::List(l)) => {
                if first_ident_is(&l.path, "repr") {
                    match &l.nested[0] {
                        NestedMeta::Meta(m) => first_ident_is(meta_path_exec(m), "C"),
                        _ => false,
                    }
                } else {
                    false
                }
            },
            _ => false,
        };
        if found {
            assert(attr_is_repr_c(attrs@[i as int]));
            return true;
        }
        i = i + 1;
    }
    false
}

} // verus!
