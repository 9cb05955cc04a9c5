//! Reading Rust source text with `syn` into the syntax model of [`crate::parsing`].
//!
//! What `syn` parses is named here and not restated: a reading of a path, of a type, or of a
//! whole source file is a function of the text alone. The functions below convert `syn`'s tree
//! into the model one node for one node.

use crate::fn_ffi::{FnArg, Method};
use crate::parsing::{
    Attribute, GenericArgument, Lit, LitStr, Meta, MetaList, MetaNameValue, NestedMeta, Path,
    PathArguments, PathSegment, RustType,
};
use vstd::prelude::*;
use syn::Path as SynPath;
use syn::PathSegment as SynPathSegment;
use syn::GenericArgument as SynGenericArgument;
use syn::Lit as SynLit;
use syn::Meta as SynMeta;
use syn::NestedMeta as SynNestedMeta;
use syn::Attribute as SynAttribute;
use syn::FnArg as SynFnArg;

verus! {

/// An item of a source file: a function, with its signature and attributes, or anything else.
pub enum FileItem {
    /// A function.
    Fn(Method),
    /// Any other item.
    Other,
}

/// The path that `syn` reads from the text `s`, if the text is a path.
pub uninterp spec fn parsed_path(s: Seq<char>) -> Option<Path>;

/// The type that `syn` reads from the text `s`, if the text is a type.
pub uninterp spec fn parsed_type(s: Seq<char>) -> Option<RustType>;

/// The items that `syn` reads from the source file `src`, in order, if it is a source file.
pub uninterp spec fn parsed_file_items(src: Seq<char>) -> Option<Seq<FileItem>>;

#[verifier::external_type_specification]
#[verifier::external_body]
pub struct ExSynPath(SynPath);

#[verifier::external_type_specification]
#[verifier::external_body]
pub struct ExSynPathSegment(SynPathSegment);

#[verifier::external_type_specification]
#[verifier::external_body]
pub struct ExSynGenericArgument(SynGenericArgument);

#[verifier::external_type_specification]
#[verifier::external_body]
pub struct ExSynType(syn::Type);

#[verifier::external_type_specification]
#[verifier::external_body]
pub struct ExSynLit(SynLit);

#[verifier::external_type_specification]
#[verifier::external_body]
pub struct ExSynMeta(SynMeta);

#[verifier::external_type_specification]
#[verifier::external_body]
pub struct ExSynNestedMeta(SynNestedMeta);

#[verifier::external_type_specification]
#[verifier::external_body]
pub struct ExSynAttribute(SynAttribute);

#[verifier::external_type_specification]
#[verifier::external_body]
pub struct ExSynFnArg(SynFnArg);

#[verifier::external_type_specification]
#[verifier::external_body]
pub struct ExSynSignature(syn::Signature);

#[verifier::external_type_specification]
#[verifier::external_body]
pub struct ExSynItem(syn::Item);

/// Converts a `syn` path into the model, segment for segment.
#[verifier::external_body]
fn path_of(p: &SynPath) -> Path {
    Path { segments: p.segments.iter().map(|s| segment_of(s)).collect() }
}

/// Converts a `syn` path segment into the model: its identifier and its arguments.
#[verifier::external_body]
fn segment_of(s: &SynPathSegment) -> PathSegment {
    let arguments = match &s.arguments {
        syn::PathArguments::None => PathArguments::Bare,
        syn::PathArguments::AngleBracketed(a) => {
            PathArguments::AngleBracketed(a.args.iter().map(|g| generic_argument_of(g)).collect())
        },
        syn::PathArguments::Parenthesized(_) => PathArguments::Parenthesized,
    };
    PathSegment { ident: s.ident.to_string(), arguments }
}

/// Converts a `syn` generic argument into the model, one variant for one variant.
#[verifier::external_body]
fn generic_argument_of(a: &SynGenericArgument) -> GenericArgument {
    match a {
        syn::GenericArgument::Type(t) => GenericArgument::Type(type_of(t)),
        syn::GenericArgument::Lifetime(_) => GenericArgument::Lifetime,
        syn::GenericArgument::Binding(_) => GenericArgument::Binding,
        syn::GenericArgument::Constraint(_) => GenericArgument::Constraint,
        syn::GenericArgument::Const(_) => GenericArgument::Const,
    }
}

/// Converts a `syn` type into the model: arrays, paths, pointers, references and slices, each
/// with its element; any other type as `Other`.
#[verifier::external_body]
fn type_of(t: &syn::Type) -> RustType {
    match t {
        syn::Type::Array(a) => RustType::Array(Box::new(type_of(&a.elem))),
        syn::Type::Path(p) => RustType::Path(path_of(&p.path)),
        syn::Type::Ptr(p) => RustType::Ptr(p.mutability.is_some(), Box::new(type_of(&p.elem))),
        syn::Type::Reference(r) => RustType::Reference(Box::new(type_of(&r.elem))),
        syn::Type::Slice(s) => RustType::Slice(Box::new(type_of(&s.elem))),
        _ => RustType::Other,
    }
}

/// Converts a `syn` literal into the model: a string literal with its value, or another literal.
#[verifier::external_body]
fn lit_of(l: &SynLit) -> Lit {
    match l {
        syn::Lit::Str(s) => Lit::Str(LitStr { value: s.value() }),
        _ => Lit::Other,
    }
}

/// Converts `syn` attribute metadata into the model, one variant for one variant.
#[verifier::external_body]
fn meta_of(m: &SynMeta) -> Meta {
    match m {
        syn::Meta::Path(p) => Meta::Path(path_of(p)),
        syn::Meta::List(l) => Meta::List(
            MetaList { path: path_of(&l.path), nested: l.nested.iter().map(|n| nested_meta_of(n)).collect() },
        ),
        syn::Meta::NameValue(nv) => Meta::NameValue(MetaNameValue { path: path_of(&nv.path), lit: lit_of(&nv.lit) }),
    }
}

/// Converts an item of a `syn` metadata list into the model, one variant for one variant.
#[verifier::external_body]
fn nested_meta_of(n: &SynNestedMeta) -> NestedMeta {
    match n {
        syn::NestedMeta::Meta(m) => NestedMeta::Meta(meta_of(m)),
        syn::NestedMeta::Lit(l) => NestedMeta::Lit(lit_of(l)),
    }
}

/// Converts a `syn` attribute into the model: its path, and its contents as `syn` reads them as
/// metadata (`syn::Attribute::parse_meta`), when they can be.
#[verifier::external_body]
fn attribute_of(a: &SynAttribute) -> Attribute {
    Attribute { path: path_of(&a.path), meta: a.parse_meta().ok().map(|m| meta_of(&m)) }
}

/// Converts a `syn` function argument into the model: a receiver, or a typed argument with its
/// identifier (when its pattern is one) and its type.
#[verifier::external_body]
fn fn_arg_of(a: &SynFnArg) -> FnArg {
    match a {
        syn::FnArg::Receiver(r) => FnArg::Receiver { reference: r.reference.is_some() },
        syn::FnArg::Typed(t) => FnArg::Typed {
            pat_ident: match &*t.pat {
                syn::Pat::Ident(i) => Some(i.ident.to_string()),
                _ => None,
            },
            ty: type_of(&t.ty),
        },
    }
}

/// Converts a `syn` function signature and the function's attributes into the model.
#[verifier::external_body]
fn method_of(sig: &syn::Signature, attrs: &Vec<SynAttribute>) -> Method {
    Method {
        ident: sig.ident.to_string(),
        inputs: sig.inputs.iter().map(|a| fn_arg_of(a)).collect(),
        output: match &sig.output {
            syn::ReturnType::Default => None,
            syn::ReturnType::Type(_, t) => Some(type_of(t)),
        },
        attrs: attrs.iter().map(|a| attribute_of(a)).collect(),
    }
}

/// Converts a `syn` item into the model: a function, or any other item.
#[verifier::external_body]
fn file_item_of(i: &syn::Item) -> FileItem {
    match i {
        syn::Item::Fn(f) => FileItem::Fn(method_of(&f.sig, &f.attrs)),
        _ => FileItem::Other,
    }
}

/// Reads the text `s` as a path with `syn::parse_str`, converted into the model; `None` when
/// `syn` does not read it as a path. The result is `syn`'s reading of the text, named
/// [`parsed_path`].
#[verifier::external_body]
pub(crate) fn parse_path_str(s: &str) -> (r: Option<Path>)
    ensures
        r == parsed_path(s@),
{
    syn::parse_str::<SynPath>(s).ok().map(|p| path_of(&p))
}

/// Reads the text `s` as a type with `syn::parse_str`, converted into the model; `None` when
/// `syn` does not read it as a type. The result is `syn`'s reading of the text, named
/// [`parsed_type`].
#[verifier::external_body]
pub(crate) fn parse_type_str(s: &str) -> (r: Option<RustType>)
    ensures
        r == parsed_type(s@),
{
    syn::parse_str::<syn::Type>(s).ok().map(|t| type_of(&t))
}

/// Reads the source file `src` with `syn::parse_file`, its items converted into the model in
/// order; `None` when `syn` does not read it as a source file. The result is `syn`'s reading of
/// the text, named [`parsed_file_items`].
#[verifier::external_body]
pub(crate) fn parse_file_items(src: &str) -> (r: Option<Vec<FileItem>>)
    ensures
        match r {
            Some(items) => parsed_file_items(src@) == Some(items@),
            None => parsed_file_items(src@) is None,
        },
{
    syn::parse_file(src).ok().map(|f| f.items.iter().map(|i| file_item_of(i)).collect())
}

} // verus!
