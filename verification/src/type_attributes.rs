//! Parses a Rust type into a `TypeFFI`: the wrappers found around the type (`Option`, `Vec`,
//! arrays, slices, `Result`, `Cow`, references and pointers) are peeled off one at a time, and the
//! innermost type is classified.

use crate::parsing::{
    get_segment_for_field, segment_for_field_spec, separable, separate_spec,
    separate_wrapping_type_from_inner_type, GenericArgument, Path, PathArguments, RustType,
};
use crate::type_ffi::WrappingType;
use crate::text::{str_equal, views};
use crate::type_ffi::{identify, IdentView, TypeFFI, TypeFFIView, TypeIdentifier};
use vstd::prelude::*;

verus! {

/// The state when parsing a type, where it is known which wrappers have been found so far.
pub struct TypeAttributes {
    /// The type being parsed.
    pub ty: RustType,
    /// Whether `ty` was discovered inside of an `Option`.
    pub is_option: bool,
    /// Whether `ty` was discovered inside of a `Vec`, array, or slice.
    pub is_collection: bool,
    /// Whether `ty` was discovered in the success variant of a `Result`.
    pub is_result: bool,
    /// Whether `ty` was discovered inside of a `Cow`.
    pub is_cow: bool,
    /// Whether this is a borrowed reference to `ty`.
    pub is_borrow: bool,
    /// Names of types that ought to be exposed directly to the FFI as raw values, as opposed to
    /// being boxed.
    pub raw_types: Vec<String>,
    /// The type that `Self` stands for, if known.
    pub self_type: Option<String>,
}

/// Why a type cannot be exposed through the FFI.
#[derive(Debug, Clone, Copy, PartialEq, Eq, Structural)]
pub enum TypeError {
    /// A path type has no segments.
    NoSegments,
    /// A supported generic has no angle-bracketed arguments.
    UnsupportedPathArguments,
    /// A supported generic has no arguments.
    NoGenericArguments,
    /// The argument of a supported generic is a lifetime, binding, constraint or const.
    UnsupportedGenericArgument,
    /// The type is of an unsupported kind.
    UnsupportedType,
    /// `Self` was found, but the type it stands for is not known.
    UnknownSelfType,
}

/// The wrappers found so far while parsing a type.
#[derive(Clone, Copy)]
pub struct Found {
    /// Inside an `Option`.
    pub option: bool,
    /// Inside a collection.
    pub collection: bool,
    /// Inside a `Result`.
    pub result: bool,
    /// Inside a `Cow`.
    pub cow: bool,
    /// Behind a reference.
    pub borrow: bool,
}

/// True for the generics whose argument is unwrapped: `Option`, `Vec`, `Result` and `Cow`.
pub open spec fn is_supported_generic(s: Seq<char>) -> bool {
    s == "Option"@ || s == "Vec"@ || s == "Result"@ || s == "Cow"@
}

/// The wrappers found after also finding the generic `s`.
pub open spec fn with_generic(f: Found, s: Seq<char>) -> Found {
    if s == "Option"@ {
        Found { option: true, ..f }
    } else if s == "Vec"@ {
        Found { collection: true, ..f }
    } else if s == "Result"@ {
        Found { result: true, ..f }
    } else {
        Found { cow: true, ..f }
    }
}

/// The type data for the innermost type named `name`, given the wrappers found around it.
pub open spec fn leaf_view(
    name: Seq<char>,
    f: Found,
    raw_types: Seq<Seq<char>>,
    self_type: Option<Seq<char>>,
) -> TypeFFIView {
    let name = if name == "Self"@ {
        self_type->0
    } else {
        name
    };
    TypeFFIView {
        native_type: if raw_types.contains(name) {
            IdentView::Raw(name)
        } else {
            identify(name)
        },
        is_option: f.option,
        is_vec: f.collection,
        is_result: f.result,
        is_cow: f.cow,
        is_borrow: f.borrow,
    }
}

/// The type data of `ty`, found inside the wrappers `f`, or why it cannot be exposed.
///
/// Arrays and slices are collections, references are borrows, pointers are looked through, and a
/// path whose last segment is a supported generic is unwrapped: its last argument for a `Cow`
/// (once one was found), its first otherwise. Any other path names the innermost type; `Self`
/// stands for `self_type`, and types named in `raw_types` are raw.
pub open spec fn parse_type(
    ty: RustType,
    f: Found,
    raw_types: Seq<Seq<char>>,
    self_type: Option<Seq<char>>,
) -> Result<TypeFFIView, TypeError>
    decreases ty,
{
    match ty {
        RustType::Array(elem) => parse_type(*elem, Found { collection: true, ..f }, raw_types, self_type),
        RustType::Ptr(_, elem) => parse_type(*elem, f, raw_types, self_type),
        RustType::Reference(elem) => parse_type(*elem, Found { borrow: true, ..f }, raw_types, self_type),
        RustType::Slice(elem) => parse_type(*elem, Found { collection: true, ..f }, raw_types, self_type),
        RustType::Path(p) => {
            if p.segments@.len() == 0 {
                Err(TypeError::NoSegments)
            } else {
                let seg = p.segments@.last();
                let id = seg.ident@;
                if is_supported_generic(id) {
                    let g = with_generic(f, id);
                    match seg.arguments {
                        PathArguments::AngleBracketed(args) => {
                            if args@.len() == 0 {
                                Err(TypeError::NoGenericArguments)
                            } else {
                                let arg = if g.cow {
                                    args@.last()
                                } else {
                                    args@[0]
                                };
                                match arg {
                                    GenericArgument::Type(t) => parse_type(t, g, raw_types, self_type),
                                    _ => Err(TypeError::UnsupportedGenericArgument),
                                }
                            }
                        },
                        _ => Err(TypeError::UnsupportedPathArguments),
                    }
                } else if id == "Self"@ && self_type is None {
                    Err(TypeError::UnknownSelfType)
                } else {
                    Ok(leaf_view(id, f, raw_types, self_type))
                }
            }
        },
        RustType::Other => Err(TypeError::UnsupportedType),
    }
}

/// No wrapper found yet.
pub open spec fn no_wrappers() -> Found {
    Found { option: false, collection: false, result: false, cow: false, borrow: false }
}

/// The found wrappers recorded in `t`.
pub open spec fn found_of(t: TypeAttributes) -> Found {
    Found {
        option: t.is_option,
        collection: t.is_collection,
        result: t.is_result,
        cow: t.is_cow,
        borrow: t.is_borrow,
    }
}

/// The optional string's view.
pub open spec fn opt_view(o: Option<String>) -> Option<Seq<char>> {
    match o {
        Some(s) => Some(s@),
        None => None,
    }
}

/// The type data of the type in `t`, or why it cannot be exposed.
pub open spec fn parse_attributes(t: TypeAttributes) -> Result<TypeFFIView, TypeError> {
    parse_type(t.ty, found_of(t), views(t.raw_types@), opt_view(t.self_type))
}

impl TypeAttributes {
    /// The initial state, where no wrapper has been found yet.
    pub fn initial(ty: RustType, raw_types: Vec<String>, self_type: Option<String>) -> (r: Self)
        ensures
            r.ty == ty,
            r.raw_types == raw_types,
            r.self_type == self_type,
            found_of(r) == (Found { option: false, collection: false, result: false, cow: false, borrow: false }),
    {
        TypeAttributes {
            ty,
            is_option: false,
            is_collection: false,
            is_result: false,
            is_cow: false,
            is_borrow: false,
            raw_types,
            self_type,
        }
    }
}

/// True when `name` is one of `names`.
pub(crate) fn contains_name(names: &Vec<String>, name: &str) -> (r: bool)
    ensures
        r == views(names@).contains(name@),
{
    let mut i: usize = 0;
    while i < names.len()
        invariant
            i <= names.len(),
            forall|j: int| 0 <= j < i ==> names@[j]@ != name@,
        decreases names.len() - i,
    {
        if str_equal(names[i].as_str(), name) {
            assert(views(names@)[i as int] == name@);
            return true;
        }
        i = i + 1;
    }
    proof {
        if views(names@).contains(name@) {
            let k = choose|k: int| 0 <= k < views(names@).len() && views(names@)[k] == name@;
            assert(names@[k]@ == name@);
        }
    }
    false
}

/// The type data of the type named `name`, with the wrappers found around it.
fn leaf(name: String, f: Found, raw_types: &Vec<String>, self_type: &Option<String>) -> (r:
    TypeFFI)
    requires
        name@ == "Self"@ ==> self_type is Some,
    ensures
        r@ == leaf_view(name@, f, views(raw_types@), opt_view(*self_type)),
{
    let name = if str_equal(name.as_str(), "Self") {
        match self_type {
            Some(s) => String::from_str(s.as_str()),
            None => name,
        }
    } else {
        name
    };
    let native_type = if contains_name(raw_types, name.as_str()) {
        TypeIdentifier::Raw(name)
    } else {
        TypeIdentifier::from(name)
    };
    TypeFFI {
        native_type,
        is_option: f.option,
        is_vec: f.collection,
        is_result: f.result,
        is_cow: f.cow,
        is_borrow: f.borrow,
    }
}

/// Parses `ty`, found inside the wrappers `f`.
fn parse_found(ty: &RustType, f: Found, raw_types: &Vec<String>, self_type: &Option<String>) -> (r:
    Result<TypeFFI, TypeError>)
    requires
        parse_type(*ty, f, views(raw_types@), opt_view(*self_type)) != Err::<TypeFFIView, TypeError>(TypeError::UnknownSelfType),
    ensures
        match r {
            Ok(t) => parse_type(*ty, f, views(raw_types@), opt_view(*self_type)) == Ok::<TypeFFIView, TypeError>(t@),
            Err(e) => parse_type(*ty, f, views(raw_types@), opt_view(*self_type)) == Err::<TypeFFIView, TypeError>(e),
        },
    decreases ty,
{
    match ty {
        RustType::Array(elem) => parse_found(&**elem, Found { collection: true, ..f }, raw_types, self_type),
        RustType::Ptr(_, elem) => parse_found(&**elem, f, raw_types, self_type),
        RustType::Reference(elem) => parse_found(&**elem, Found { borrow: true, ..f }, raw_types, self_type),
        RustType::Slice(elem) => parse_found(&**elem, Found { collection: true, ..f }, raw_types, self_type),
        RustType::Path(p) => {
            let n = p.segments.len();
            if n == 0 {
                return Err(TypeError::NoSegments);
            }
            let seg = &p.segments[n - 1];
            let id = seg.ident.as_str();
            let generic = str_equal(id, "Option") || str_equal(id, "Vec") || str_equal(id, "Result")
                || str_equal(id, "Cow");
            if generic {
                let g = if str_equal(id, "Option") {
                    Found { option: true, ..f }
                } else if str_equal(id, "Vec") {
                    Found { collection: true, ..f }
                } else if str_equal(id, "Result") {
                    Found { result: true, ..f }
                } else {
                    Found { cow: true, ..f }
                };
                match &seg.arguments {
                    PathArguments::AngleBracketed(args) => {
                        let k = args.len();
                        if k == 0 {
                            return Err(TypeError::NoGenericArguments);
                        }
                        let arg = if g.cow {
                            &args[k - 1]
                        } else {
                            &args[0]
                        };
                        match arg {
                            GenericArgument::Type(t) => parse_found(t, g, raw_types, self_type),
                            _ => Err(TypeError::UnsupportedGenericArgument),
                        }
                    },
                    _ => Err(TypeError::UnsupportedPathArguments),
                }
            } else {
                Ok(leaf(String::from_str(id), f, raw_types, self_type))
            }
        },
        RustType::Other => Err(TypeError::UnsupportedType),
    }
}

/// Finding a generic records exactly its own wrapper: `Option` sets `option`, `Vec` sets
/// `collection`, `Result` sets `result` and `Cow` sets `cow`; every other wrapper found so far
/// stays as it was.
pub proof fn lemma_generic_wrappers(f: Found)
    ensures
        with_generic(f, "Option"@) == (Found { option: true, ..f }),
        with_generic(f, "Vec"@) == (Found { collection: true, ..f }),
        with_generic(f, "Result"@) == (Found { result: true, ..f }),
        with_generic(f, "Cow"@) == (Found { cow: true, ..f }),
        with_generic(f, "Result"@).option == f.option,
        with_generic(f, "Option"@).result == f.result,
{
    reveal_strlit("Option");
    reveal_strlit("Vec");
    reveal_strlit("Result");
    reveal_strlit("Cow");
    assert("Vec"@.len() != "Option"@.len());
    assert("Result"@[0] != "Option"@[0]);
    assert("Result"@.len() != "Vec"@.len());
    assert("Cow"@[0] != "Vec"@[0]);
    assert("Cow"@.len() != "Option"@.len());
    assert("Cow"@.len() != "Result"@.len());
}

/// `Result<T, E>` is read as its success type `T` with `result` recorded and nothing else
/// changed, and `Option<T>` as `T` with `option` recorded and nothing else changed (outside a
/// `Cow`, whose last argument is read instead).
pub proof fn lemma_unwrap_result_and_option(
    p: Path,
    t: RustType,
    f: Found,
    raw_types: Seq<Seq<char>>,
    self_type: Option<Seq<char>>,
)
    requires
        p.segments@.len() > 0,
        p.segments@.last().arguments matches PathArguments::AngleBracketed(args) && args@.len() > 0
            && args@[0] == GenericArgument::Type(t),
        !f.cow,
    ensures
        p.segments@.last().ident@ == "Result"@ ==> parse_type(RustType::Path(p), f, raw_types, self_type)
            == parse_type(t, Found { result: true, ..f }, raw_types, self_type),
        p.segments@.last().ident@ == "Option"@ ==> parse_type(RustType::Path(p), f, raw_types, self_type)
            == parse_type(t, Found { option: true, ..f }, raw_types, self_type),
{
    lemma_generic_wrappers(f);
    reveal_strlit("Option");
    reveal_strlit("Vec");
    reveal_strlit("Result");
    reveal_strlit("Cow");
}

/// A type whose `Self` stands for a known type never fails for want of it.
pub proof fn lemma_known_self_type(ty: RustType, f: Found, raw_types: Seq<Seq<char>>, s: Seq<char>)
    ensures
        parse_type(ty, f, raw_types, Some(s)) != Err::<TypeFFIView, TypeError>(TypeError::UnknownSelfType),
    decreases ty,
{
    match ty {
        RustType::Array(elem) => lemma_known_self_type(*elem, Found { collection: true, ..f }, raw_types, s),
        RustType::Ptr(_, elem) => lemma_known_self_type(*elem, f, raw_types, s),
        RustType::Reference(elem) => lemma_known_self_type(*elem, Found { borrow: true, ..f }, raw_types, s),
        RustType::Slice(elem) => lemma_known_self_type(*elem, Found { collection: true, ..f }, raw_types, s),
        RustType::Path(p) => {
            if p.segments@.len() > 0 {
                let seg = p.segments@.last();
                let id = seg.ident@;
                if is_supported_generic(id) {
                    let g = with_generic(f, id);
                    match seg.arguments {
                        PathArguments::AngleBracketed(args) => {
                            if args@.len() > 0 {
                                let arg = if g.cow {
                                    args@.last()
                                } else {
                                    args@[0]
                                };
                                match arg {
                                    GenericArgument::Type(t) => lemma_known_self_type(t, g, raw_types, s),
                                    _ => {},
                                }
                            }
                        },
                        _ => {},
                    }
                }
            }
        },
        RustType::Other => {},
    }
}

/// True when a custom FFI type can be read: a path must have a separable first segment.
pub open spec fn custom_type_readable(ty: RustType) -> bool {
    match ty {
        RustType::Path(_) => match segment_for_field_spec(ty) {
            Some(seg) => separable(seg),
            None => true,
        },
        _ => true,
    }
}

/// The type data of a type read from a custom FFI implementation, or why it cannot be exposed.
///
/// A path is classified by its first segment, with its `Option`/`Vec` wrapper. A pointer to a path
/// is a boxed type (a string for `c_char`), optional unless `required`, since the nullability of
/// a handwritten FFI's pointers is unknown.
pub open spec fn custom_type_spec(ty: RustType, required: bool) -> Result<TypeFFIView, TypeError> {
    match ty {
        RustType::Path(_) => match segment_for_field_spec(ty) {
            Some(seg) => {
                let (id, w) = separate_spec(seg);
                Ok(
                    TypeFFIView {
                        native_type: identify(id),
                        is_option: w == WrappingType::Option || w == WrappingType::OptionVec,
                        is_vec: w == WrappingType::Vec || w == WrappingType::OptionVec,
                        is_result: false,
                        is_cow: false,
                        is_borrow: false,
                    },
                )
            },
            None => Err(TypeError::NoSegments),
        },
        RustType::Ptr(_, elem) => match *elem {
            RustType::Path(_) => match segment_for_field_spec(*elem) {
                Some(seg) => Ok(
                    TypeFFIView {
                        native_type: if seg.ident@ == "c_char"@ {
                            IdentView::String
                        } else {
                            IdentView::Boxed(seg.ident@)
                        },
                        is_option: !required,
                        is_vec: false,
                        is_result: false,
                        is_cow: false,
                        is_borrow: false,
                    },
                ),
                None => Err(TypeError::NoSegments),
            },
            _ => Err(TypeError::UnsupportedType),
        },
        _ => Err(TypeError::UnsupportedType),
    }
}

impl TypeFFI {
    /// The data for a type read from a custom (handwritten) FFI implementation; `required` says
    /// whether a pointer parameter was explicitly labeled as required.
    pub fn from_custom(ffi_type: &RustType, required: bool) -> (r: Result<TypeFFI, TypeError>)
        requires
            custom_type_readable(*ffi_type),
        ensures
            match r {
                Ok(t) => custom_type_spec(*ffi_type, required) == Ok::<TypeFFIView, TypeError>(t@),
                Err(e) => custom_type_spec(*ffi_type, required) == Err::<TypeFFIView, TypeError>(e),
            },
    {
        match ffi_type {
            RustType::Path(_) => match get_segment_for_field(ffi_type) {
                Some(seg) => {
                    let (id, w) = separate_wrapping_type_from_inner_type(seg);
                    Ok(TypeFFI::from_wrapped(TypeIdentifier::from(id), w))
                },
                None => Err(TypeError::NoSegments),
            },
            RustType::Ptr(_, elem) => match &**elem {
                RustType::Path(_) => match get_segment_for_field(&**elem) {
                    Some(seg) => {
                        let native_type = if str_equal(seg.ident.as_str(), "c_char") {
                            TypeIdentifier::String
                        } else {
                            TypeIdentifier::Boxed(String::from_str(seg.ident.as_str()))
                        };
                        Ok(
                            TypeFFI {
                                native_type,
                                is_option: !required,
                                is_vec: false,
                                is_result: false,
                                is_cow: false,
                                is_borrow: false,
                            },
                        )
                    },
                    None => Err(TypeError::NoSegments),
                },
                _ => Err(TypeError::UnsupportedType),
            },
            _ => Err(TypeError::UnsupportedType),
        }
    }

    /// Parses the type `ty`, around which no wrapper has been found yet, where `Self` stands for
    /// `self_type` and the types named in `raw_types` are raw.
    pub fn from_type(ty: &RustType, raw_types: &Vec<String>, self_type: &Option<String>) -> (r: Result<TypeFFI, TypeError>)
        requires
            parse_type(*ty, no_wrappers(), views(raw_types@), opt_view(*self_type)) != Err::<TypeFFIView, TypeError>(TypeError::UnknownSelfType),
        ensures
            match r {
                Ok(t) => parse_type(*ty, no_wrappers(), views(raw_types@), opt_view(*self_type)) == Ok::<TypeFFIView, TypeError>(t@),
                Err(e) => parse_type(*ty, no_wrappers(), views(raw_types@), opt_view(*self_type)) == Err::<TypeFFIView, TypeError>(e),
            },
    {
        let f = Found { option: false, collection: false, result: false, cow: false, borrow: false };
        parse_found(ty, f, raw_types, self_type)
    }

    /// Parses the type in `unparsed` into the data for exposing it through the FFI, or gives why
    /// it cannot be exposed.
    pub fn from_attributes(unparsed: TypeAttributes) -> (r: Result<TypeFFI, TypeError>)
        requires
            parse_attributes(unparsed) != Err::<TypeFFIView, TypeError>(TypeError::UnknownSelfType),
        ensures
            match r {
                Ok(t) => parse_attributes(unparsed) == Ok::<TypeFFIView, TypeError>(t@),
                Err(e) => parse_attributes(unparsed) == Err::<TypeFFIView, TypeError>(e),
            },
    {
        let f = Found {
            option: unparsed.is_option,
            collection: unparsed.is_collection,
            result: unparsed.is_result,
            cow: unparsed.is_cow,
            borrow: unparsed.is_borrow,
        };
        parse_found(&unparsed.ty, f, &unparsed.raw_types, &unparsed.self_type)
    }
}

} // verus!
