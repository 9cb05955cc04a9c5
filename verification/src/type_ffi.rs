//! Describes the data for a Rust type exposed through the FFI, and computes the related FFI types,
//! consumer types and conversion expressions.
//!
//! Rust code is produced as source text; a conversion expression takes the text of the expression
//! it converts and returns the text of the converted expression.

use crate::consumer::{consumer_type_for, consumer_type_spec};
use crate::parsing::FieldAttributes;
use crate::text::{contains_text, snake_case, str_equal, to_snake_case};
use vstd::prelude::*;

verus! {

/// Describes a Rust type that is exposed via FFI (as the type of a field, or the type returned by
/// a function, or a function parameter, etc).
pub enum TypeIdentifier {
    /// A type exposed behind an opaque pointer, as a `*const T`; consumers initialize, free and
    /// read it through FFI functions.
    Boxed(String),
    /// A timestamp that's safe to expose across the FFI.
    DateTime,
    /// A type exposed as a raw value (like an `i32`, or a `repr(C)` enum).
    Raw(String),
    /// A `String`.
    String,
    /// A `Uuid`.
    Uuid,
}

/// True for the names of the Rust primitives that are exposed as raw values.
pub open spec fn is_raw_primitive(s: Seq<char>) -> bool {
    ||| s == "bool"@
    ||| s == "u8"@
    ||| s == "u16"@
    ||| s == "u32"@
    ||| s == "u64"@
    ||| s == "i8"@
    ||| s == "i16"@
    ||| s == "i32"@
    ||| s == "i64"@
    ||| s == "f32"@
    ||| s == "f64"@
}

/// True when `r` is the type identifier for the type named `s`: `NaiveDateTime` is a timestamp,
/// `String` and `str` are strings, `Uuid` is a UUID, primitives are raw and anything else is
/// boxed.
pub open spec fn identifies(s: Seq<char>, r: TypeIdentifier) -> bool {
    if s == "NaiveDateTime"@ {
        r is DateTime
    } else if s == "String"@ || s == "str"@ {
        r is String
    } else if s == "Uuid"@ {
        r is Uuid
    } else if is_raw_primitive(s) {
        r matches TypeIdentifier::Raw(i) && i@ == s
    } else {
        r matches TypeIdentifier::Boxed(i) && i@ == s
    }
}

/// The mathematical value of a type identifier: its kind, with the type's name where it has one.
pub enum IdentView {
    /// A boxed type and its name.
    Boxed(Seq<char>),
    /// A timestamp.
    DateTime,
    /// A raw type and its name.
    Raw(Seq<char>),
    /// A string.
    String,
    /// A UUID.
    Uuid,
}

impl View for TypeIdentifier {
    type V = IdentView;

    open spec fn view(&self) -> IdentView {
        match self {
            TypeIdentifier::Boxed(i) => IdentView::Boxed(i@),
            TypeIdentifier::DateTime => IdentView::DateTime,
            TypeIdentifier::Raw(i) => IdentView::Raw(i@),
            TypeIdentifier::String => IdentView::String,
            TypeIdentifier::Uuid => IdentView::Uuid,
        }
    }
}

/// The identifier view of the type named `s`: `NaiveDateTime` is a timestamp, `String` and `str`
/// are strings, `Uuid` is a UUID, primitives are raw and anything else is boxed.
pub open spec fn identify(s: Seq<char>) -> IdentView {
    if s == "NaiveDateTime"@ {
        IdentView::DateTime
    } else if s == "String"@ || s == "str"@ {
        IdentView::String
    } else if s == "Uuid"@ {
        IdentView::Uuid
    } else if is_raw_primitive(s) {
        IdentView::Raw(s)
    } else {
        IdentView::Boxed(s)
    }
}

/// True when `a` and `b` are the same type identifier.
pub open spec fn same_identifier(a: TypeIdentifier, b: TypeIdentifier) -> bool {
    match (a, b) {
        (TypeIdentifier::Boxed(x), TypeIdentifier::Boxed(y)) => x@ == y@,
        (TypeIdentifier::Raw(x), TypeIdentifier::Raw(y)) => x@ == y@,
        (TypeIdentifier::DateTime, TypeIdentifier::DateTime) => true,
        (TypeIdentifier::String, TypeIdentifier::String) => true,
        (TypeIdentifier::Uuid, TypeIdentifier::Uuid) => true,
        _ => false,
    }
}

impl TypeIdentifier {
    /// Classifies the type named `type_path`.
    pub fn from(type_path: String) -> (r: Self)
        ensures
            identifies(type_path@, r),
            r@ == identify(type_path@),
    {
        let s = type_path.as_str();
        if str_equal(s, "NaiveDateTime") {
            TypeIdentifier::DateTime
        } else if str_equal(s, "String") || str_equal(s, "str") {
            TypeIdentifier::String
        } else if str_equal(s, "Uuid") {
            TypeIdentifier::Uuid
        } else if str_equal(s, "bool") || str_equal(s, "u8") || str_equal(s, "u16") || str_equal(
            s,
            "u32",
        ) || str_equal(s, "u64") || str_equal(s, "i8") || str_equal(s, "i16") || str_equal(
            s,
            "i32",
        ) || str_equal(s, "i64") || str_equal(s, "f32") || str_equal(s, "f64") {
            TypeIdentifier::Raw(type_path)
        } else {
            TypeIdentifier::Boxed(type_path)
        }
    }

    /// A copy of this identifier.
    pub fn copy(&self) -> (r: Self)
        ensures
            same_identifier(*self, r),
    {
        match self {
            TypeIdentifier::Boxed(i) => TypeIdentifier::Boxed(String::from_str(i.as_str())),
            TypeIdentifier::DateTime => TypeIdentifier::DateTime,
            TypeIdentifier::Raw(i) => TypeIdentifier::Raw(String::from_str(i.as_str())),
            TypeIdentifier::String => TypeIdentifier::String,
            TypeIdentifier::Uuid => TypeIdentifier::Uuid,
        }
    }
}

/// The context in which a type is being referenced.
pub enum Context {
    /// Type is being used as an argument to a Rust function.
    Argument,
    /// Type is being returned to the consumer.
    Return,
}

/// The language-level wrapper found around a type: `Option<T>`, `Vec<T>`, `Option<Vec<T>>`, or
/// none.
#[derive(Clone, Copy, Debug, PartialEq, Eq, Structural)]
pub enum WrappingType {
    /// An `Option<T>`.
    Option,
    /// A `Vec<T>`.
    Vec,
    /// An `Option<Vec<T>>`.
    OptionVec,
    /// A bare `T`.
    Unwrapped,
}

/// Describes the data of a Rust type exposed through the FFI: the underlying type and the
/// language-level generic wrappers around it, so that an `Option<Foo>` or even a
/// `Result<Vec<Foo>>` can be exposed.
pub struct TypeFFI {
    /// The underlying type being exposed.
    pub native_type: TypeIdentifier,
    /// True if `native_type` is wrapped in an `Option`.
    pub is_option: bool,
    /// True if `native_type` is the type of the elements in a `Vec` or slice.
    pub is_vec: bool,
    /// True if `native_type` is the type of the success variant of a `Result`.
    pub is_result: bool,
    /// True if `native_type` is wrapped in a `Cow`.
    pub is_cow: bool,
    /// True if this is a borrowed reference to `native_type`.
    pub is_borrow: bool,
}

/// The mathematical value of a `TypeFFI`.
pub struct TypeFFIView {
    /// The underlying type.
    pub native_type: IdentView,
    /// Wrapped in an `Option`.
    pub is_option: bool,
    /// The element type of a collection.
    pub is_vec: bool,
    /// The success type of a `Result`.
    pub is_result: bool,
    /// Wrapped in a `Cow`.
    pub is_cow: bool,
    /// A borrowed reference.
    pub is_borrow: bool,
}

impl View for TypeFFI {
    type V = TypeFFIView;

    open spec fn view(&self) -> TypeFFIView {
        TypeFFIView {
            native_type: self.native_type@,
            is_option: self.is_option,
            is_vec: self.is_vec,
            is_result: self.is_result,
            is_cow: self.is_cow,
            is_borrow: self.is_borrow,
        }
    }
}

/// True when `a` and `b` describe the same type.
pub open spec fn same_type_ffi(a: TypeFFI, b: TypeFFI) -> bool {
    &&& same_identifier(a.native_type, b.native_type)
    &&& a.is_option == b.is_option
    &&& a.is_vec == b.is_vec
    &&& a.is_result == b.is_result
    &&& a.is_cow == b.is_cow
    &&& a.is_borrow == b.is_borrow
}

/// The pointer qualifier used in `context`.
pub open spec fn ptr_spec(context: Context) -> Seq<char> {
    match context {
        Context::Argument => "*mut"@,
        Context::Return => "*const"@,
    }
}

/// Text of `if t.is_null() { none } else { some }`.
pub open spec fn null_check_spec(t: Seq<char>, none: Seq<char>, some: Seq<char>) -> Seq<char> {
    "if "@ + t + ".is_null() { "@ + none + " } else { "@ + some + " }"@
}

/// Text that converts the FFI argument `t` of the type `ty` into its native Rust value.
pub open spec fn argument_into_rust_spec(ty: TypeFFI, t: Seq<char>, custom: bool) -> Seq<char> {
    if ty.is_vec {
        t + ".into()"@
    } else {
        match ty.native_type {
            TypeIdentifier::Boxed(_) => {
                if custom {
                    let conv = if ty.is_borrow {
                        "&*"@ + t
                    } else {
                        "(*Box::from_raw("@ + t + ")).into()"@
                    };
                    let none = if ty.is_borrow { "&None"@ } else { "None"@ };
                    if ty.is_option { null_check_spec(t, none, conv) } else { conv }
                } else if ty.is_option {
                    let conv = if ty.is_borrow {
                        "Some(&*"@ + t + ")"@
                    } else {
                        "Some(*Box::from_raw("@ + t + "))"@
                    };
                    let none = if ty.is_borrow { "&None"@ } else { "None"@ };
                    null_check_spec(t, none, conv)
                } else if ty.is_borrow {
                    "&*"@ + t
                } else {
                    "*Box::from_raw("@ + t + ")"@
                }
            },
            TypeIdentifier::DateTime => {
                if ty.is_option {
                    null_check_spec(t, "None"@, "Some((&*Box::from_raw("@ + t + ")).into())"@)
                } else {
                    "(&*Box::from_raw("@ + t + ")).into()"@
                }
            },
            TypeIdentifier::Raw(_) => {
                if ty.is_option {
                    null_check_spec(t, "None"@, "Some(*Box::from_raw("@ + t + "))"@)
                } else {
                    t
                }
            },
            TypeIdentifier::String => {
                if ty.is_option {
                    null_check_spec(
                        t,
                        "None"@,
                        "Some(ffi_common::core::string::string_from_c("@ + t + "))"@,
                    )
                } else {
                    "ffi_common::core::string::string_from_c("@ + t + ")"@
                }
            },
            TypeIdentifier::Uuid => {
                if ty.is_option {
                    null_check_spec(
                        t,
                        "None"@,
                        "Some(ffi_common::core::string::uuid_from_c("@ + t + "))"@,
                    )
                } else {
                    "ffi_common::core::string::uuid_from_c("@ + t + ")"@
                }
            },
        }
    }
}

/// The name of the FFI function that boxes an optional raw value of the type `inner`.
pub open spec fn option_boxer_spec(inner: Seq<char>) -> Seq<char> {
    "option_"@ + snake_case(inner) + "_init"@
}

/// Text that converts the Rust value `a` of the type `ty` into its FFI value; `expose` says
/// whether the value is exposed as another type.
pub open spec fn rust_to_ffi_value_spec(ty: TypeFFI, a: Seq<char>, expose: bool) -> Seq<char> {
    if ty.is_vec {
        if ty.is_option {
            a + ".as_deref().into()"@
        } else {
            "(&*"@ + a + ").into()"@
        }
    } else {
        match ty.native_type {
            TypeIdentifier::Boxed(_) => {
                if ty.is_option {
                    let rv = if expose { "f.clone().into()"@ } else { "f.clone()"@ };
                    a + ".as_ref().map_or(ptr::null(), |f| { Box::into_raw(Box::new("@ + rv
                        + ")) })"@
                } else {
                    let rv = if expose { a + ".clone().into()"@ } else { a + ".clone()"@ };
                    "Box::into_raw(Box::new("@ + rv + "))"@
                }
            },
            TypeIdentifier::DateTime => {
                if ty.is_option {
                    a + ".as_ref().map_or(ptr::null(), |f| { Box::into_raw(Box::new(f.into())) })"@
                } else {
                    "Box::into_raw(Box::new((&"@ + a + ").into()))"@
                }
            },
            TypeIdentifier::Raw(inner) => {
                if ty.is_option {
                    "match "@ + a + " { Some(data) => "@ + option_boxer_spec(inner@)
                        + "(true, data), None => "@ + option_boxer_spec(inner@) + "(false, "@
                        + inner@ + "::default()), }"@
                } else {
                    a + ".clone().into()"@
                }
            },
            _ => {
                if ty.is_option {
                    a
                        + ".as_ref().map_or(ptr::null(), |s| { ffi_common::core::ffi_string!(s.to_string()) })"@
                } else {
                    "ffi_common::core::ffi_string!("@ + a + ".to_string())"@
                }
            },
        }
    }
}

/// An optional raw value is handed over with a truthful presence flag: in the arm for `Some(data)`
/// the value `data` is boxed with the flag `true`, and in the arm for `None` (which follows it) the
/// default value is boxed with the flag `false`.
pub proof fn lemma_optional_raw_presence(ty: TypeFFI, a: Seq<char>, expose: bool)
    requires
        ty.is_option,
        !ty.is_vec,
        ty.native_type is Raw,
    ensures
        contains_text(
            rust_to_ffi_value_spec(ty, a, expose),
            " { Some(data) => "@ + option_boxer_spec(ty.native_type->Raw_0@) + "(true, data), None => "@
                + option_boxer_spec(ty.native_type->Raw_0@) + "(false, "@,
        ),
{
    let inner = ty.native_type->Raw_0@;
    let b = option_boxer_spec(inner);
    let x = " { Some(data) => "@ + b + "(true, data), None => "@ + b + "(false, "@;
    let r = rust_to_ffi_value_spec(ty, a, expose);
    let p = "match "@ + a;
    assert(r =~= p + x + (inner + "::default()), }"@));
    assert(r.subrange(p.len() as int, (p.len() + x.len()) as int) =~= x);
}

/// True when a borrowed argument of the type `ty` is passed by borrowing: it is a borrow, not of a
/// collection, of a boxed type or a timestamp.
pub open spec fn argument_borrows_supported_spec(ty: TypeFFI) -> bool {
    if !ty.is_borrow || ty.is_vec {
        false
    } else {
        match ty.native_type {
            TypeIdentifier::Boxed(_) => true,
            TypeIdentifier::DateTime => true,
            _ => false,
        }
    }
}

/// The FFI type of `ty` in `context`; `expose` replaces the inner type's name where given.
pub open spec fn ffi_type_spec(ty: TypeFFI, expose: Option<Seq<char>>, context: Context) -> Seq<
    char,
> {
    match ty.native_type {
        TypeIdentifier::Boxed(inner) => {
            let inner = match expose {
                Some(e) => e,
                None => inner@,
            };
            if ty.is_vec {
                "FFIArray"@ + inner
            } else {
                ptr_spec(context) + " "@ + inner
            }
        },
        TypeIdentifier::DateTime => {
            if ty.is_vec {
                "FFIArrayTimeStamp"@
            } else {
                ptr_spec(context) + " TimeStamp"@
            }
        },
        TypeIdentifier::Raw(inner) => {
            let inner = match expose {
                Some(e) => e,
                None => inner@,
            };
            if ty.is_vec {
                "FFIArray"@ + inner
            } else if ty.is_option {
                ptr_spec(context) + " "@ + inner
            } else {
                inner
            }
        },
        _ => {
            if ty.is_vec {
                "FFIArrayString"@
            } else {
                "*const std::os::raw::c_char"@
            }
        },
    }
}

/// The consumer's name for the type `ty` before any wrapping; `expose` replaces it where given.
pub open spec fn consumer_base_view(ty: TypeFFIView, expose: Option<Seq<char>>) -> Seq<char> {
    match expose {
        Some(e) => e,
        None => match ty.native_type {
            IdentView::Boxed(inner) => inner,
            IdentView::Raw(inner) => consumer_type_spec(inner, false),
            IdentView::DateTime => "Date"@,
            _ => "String"@,
        },
    }
}

/// The name of the type `ty` in the consumer's language: `[T]` for collections and `T?` for
/// optionals.
pub open spec fn consumer_view_type(ty: TypeFFIView, expose: Option<Seq<char>>) -> Seq<char> {
    let t = consumer_base_view(ty, expose);
    let t = if ty.is_vec { "["@ + t + "]"@ } else { t };
    if ty.is_option { t + "?"@ } else { t }
}

/// The name of the type `ty` in the consumer's language.
pub open spec fn consumer_type_of(ty: TypeFFI, expose: Option<Seq<char>>) -> Seq<char> {
    consumer_view_type(ty@, expose)
}

/// The native Rust type of `ty`, as text.
pub open spec fn native_type_spec(ty: TypeFFI) -> Seq<char> {
    let t = match ty.native_type {
        TypeIdentifier::Boxed(inner) => inner@,
        TypeIdentifier::Raw(inner) => inner@,
        TypeIdentifier::DateTime => "datetime"@,
        TypeIdentifier::String => "String"@,
        TypeIdentifier::Uuid => "Uuid"@,
    };
    let t = if ty.is_vec {
        "Vec<"@ + t + ">"@
    } else if ty.is_borrow {
        if ty.native_type is String {
            "&str"@
        } else {
            "&"@ + t
        }
    } else {
        t
    };
    if ty.is_option {
        "Option::<"@ + t + ">"@
    } else {
        t
    }
}

/// The consumer-side conversion, closing parenthesis and return signature for returning `ty`.
pub open spec fn return_components_spec(ty: TypeFFI) -> (Seq<char>, Seq<char>, Seq<char>) {
    let t = consumer_type_of(ty, None);
    if ty.is_result {
        ("handle(result: "@, ")"@, "-> Result<"@ + t + ", RustError>"@)
    } else {
        (t + ".fromRust("@, ")"@, "-> "@ + t)
    }
}

/// Text of `if t.is_null() { none } else { some }`.
fn null_check(t: &str, none: &str, some: &str) -> (r: String)
    ensures
        r@ == null_check_spec(t@, none@, some@),
{
    let mut r = String::from_str("if ");
    r.append(t);
    r.append(".is_null() { ");
    r.append(none);
    r.append(" } else { ");
    r.append(some);
    r.append(" }");
    r
}

/// `a` followed by `b`.
fn cat(a: &str, b: &str) -> (r: String)
    ensures
        r@ == a@ + b@,
{
    let mut r = String::from_str(a);
    r.append(b);
    r
}

/// `a`, then `b`, then `c`.
fn cat3(a: &str, b: &str, c: &str) -> (r: String)
    ensures
        r@ == a@ + b@ + c@,
{
    let mut r = String::from_str(a);
    r.append(b);
    r.append(c);
    r
}

impl TypeFFI {
    /// The data for `native_type` found inside the wrapper `wrapping_type`.
    pub fn from_wrapped(native_type: TypeIdentifier, wrapping_type: WrappingType) -> (r: Self)
        ensures
            r.native_type == native_type,
            r.is_option == (wrapping_type == WrappingType::Option || wrapping_type
                == WrappingType::OptionVec),
            r.is_vec == (wrapping_type == WrappingType::Vec || wrapping_type
                == WrappingType::OptionVec),
            !r.is_result,
            !r.is_cow,
            !r.is_borrow,
    {
        TypeFFI {
            native_type,
            is_option: wrapping_type == WrappingType::Option || wrapping_type
                == WrappingType::OptionVec,
            is_vec: wrapping_type == WrappingType::Vec || wrapping_type == WrappingType::OptionVec,
            is_result: false,
            is_cow: false,
            is_borrow: false,
        }
    }

    /// A copy of this type data.
    pub fn copy(&self) -> (r: Self)
        ensures
            same_type_ffi(*self, r),
    {
        TypeFFI {
            native_type: self.native_type.copy(),
            is_option: self.is_option,
            is_vec: self.is_vec,
            is_result: self.is_result,
            is_cow: self.is_cow,
            is_borrow: self.is_borrow,
        }
    }

    /// Text that turns the FFI argument `field_name` of this type into a native Rust value.
    /// `has_custom_implementation` is true when the field is exposed as another type, which then
    /// converts itself with `into()`.
    pub fn argument_into_rust(&self, field_name: &str, has_custom_implementation: bool) -> (r:
        String)
        ensures
            r@ == argument_into_rust_spec(*self, field_name@, has_custom_implementation),
    {
        let t = field_name;
        if self.is_vec {
            return cat(t, ".into()");
        }
        match &self.native_type {
            TypeIdentifier::Boxed(_) => {
                if has_custom_implementation {
                    let conv = if self.is_borrow {
                        cat("&*", t)
                    } else {
                        cat3("(*Box::from_raw(", t, ")).into()")
                    };
                    let none = if self.is_borrow { "&None" } else { "None" };
                    if self.is_option {
                        null_check(t, none, conv.as_str())
                    } else {
                        conv
                    }
                } else if self.is_option {
                    let conv = if self.is_borrow {
                        cat3("Some(&*", t, ")")
                    } else {
                        cat3("Some(*Box::from_raw(", t, "))")
                    };
                    let none = if self.is_borrow { "&None" } else { "None" };
                    null_check(t, none, conv.as_str())
                } else if self.is_borrow {
                    cat("&*", t)
                } else {
                    cat3("*Box::from_raw(", t, ")")
                }
            },
            TypeIdentifier::DateTime => {
                if self.is_option {
                    let conv = cat3("Some((&*Box::from_raw(", t, ")).into())");
                    null_check(t, "None", conv.as_str())
                } else {
                    cat3("(&*Box::from_raw(", t, ")).into()")
                }
            },
            TypeIdentifier::Raw(_) => {
                if self.is_option {
                    let conv = cat3("Some(*Box::from_raw(", t, "))");
                    null_check(t, "None", conv.as_str())
                } else {
                    String::from_str(t)
                }
            },
            TypeIdentifier::String => {
                if self.is_option {
                    let conv = cat3("Some(ffi_common::core::string::string_from_c(", t, "))");
                    null_check(t, "None", conv.as_str())
                } else {
                    cat3("ffi_common::core::string::string_from_c(", t, ")")
                }
            },
            TypeIdentifier::Uuid => {
                if self.is_option {
                    let conv = cat3("Some(ffi_common::core::string::uuid_from_c(", t, "))");
                    null_check(t, "None", conv.as_str())
                } else {
                    cat3("ffi_common::core::string::uuid_from_c(", t, ")")
                }
            },
        }
    }

    /// Text that turns the Rust value `accessor` of this type into its FFI value. A value exposed
    /// as another type (per `attributes`) is converted to it with `into()`.
    pub fn rust_to_ffi_value(&self, accessor: &str, attributes: &FieldAttributes) -> (r: String)
        ensures
            r@ == rust_to_ffi_value_spec(*self, accessor@, attributes.expose_as is Some),
    {
        let a = accessor;
        let expose = attributes.expose_as.is_some();
        if self.is_vec {
            if self.is_option {
                return cat(a, ".as_deref().into()");
            } else {
                return cat3("(&*", a, ").into()");
            }
        }
        match &self.native_type {
            TypeIdentifier::Boxed(_) => {
                if self.is_option {
                    let rv = if expose { "f.clone().into()" } else { "f.clone()" };
                    let mut r = String::from_str(a);
                    r.append(".as_ref().map_or(ptr::null(), |f| { Box::into_raw(Box::new(");
                    r.append(rv);
                    r.append(")) })");
                    r
                } else {
                    let rv = if expose {
                        cat(a, ".clone().into()")
                    } else {
                        cat(a, ".clone()")
                    };
                    cat3("Box::into_raw(Box::new(", rv.as_str(), "))")
                }
            },
            TypeIdentifier::DateTime => {
                if self.is_option {
                    cat(
                        a,
                        ".as_ref().map_or(ptr::null(), |f| { Box::into_raw(Box::new(f.into())) })",
                    )
                } else {
                    cat3("Box::into_raw(Box::new((&", a, ").into()))")
                }
            },
            TypeIdentifier::Raw(inner) => {
                if self.is_option {
                    let snake = to_snake_case(inner.as_str());
                    let boxer = cat3("option_", snake.as_str(), "_init");
                    let mut r = String::from_str("match ");
                    r.append(a);
                    r.append(" { Some(data) => ");
                    r.append(boxer.as_str());
                    r.append("(true, data), None => ");
                    r.append(boxer.as_str());
                    r.append("(false, ");
                    r.append(inner.as_str());
                    r.append("::default()), }");
                    r
                } else {
                    cat(a, ".clone().into()")
                }
            },
            _ => {
                if self.is_option {
                    cat(
                        a,
                        ".as_ref().map_or(ptr::null(), |s| { ffi_common::core::ffi_string!(s.to_string()) })",
                    )
                } else {
                    cat3("ffi_common::core::ffi_string!(", a, ".to_string())")
                }
            },
        }
    }

    /// True if borrowed arguments are supported for this type: it must be a borrow, not of a
    /// collection, of a boxed type or a timestamp (both always exposed via pointer). Raw values
    /// are passed by value and strings are not borrowed yet.
    pub fn argument_borrows_supported(&self) -> (r: bool)
        ensures
            r == argument_borrows_supported_spec(*self),
    {
        if !self.is_borrow || self.is_vec {
            return false;
        }
        match &self.native_type {
            TypeIdentifier::Boxed(_) | TypeIdentifier::DateTime => true,
            _ => false,
        }
    }

    /// The type used for communicating this type's data across the FFI boundary. Reference types
    /// are `*mut T` for an argument (whose pointer is consumed) and `*const T` for a returned
    /// value; strings are always `*const c_char`.
    pub fn ffi_type(&self, expose_as: Option<&String>, context: Context) -> (r: String)
        ensures
            r@ == ffi_type_spec(
                *self,
                match expose_as {
                    Some(e) => Some(e@),
                    None => None,
                },
                context,
            ),
    {
        let ptr_type = match context {
            Context::Argument => "*mut",
            Context::Return => "*const",
        };
        match &self.native_type {
            TypeIdentifier::Boxed(inner) => {
                let inner = match expose_as {
                    Some(e) => e.as_str(),
                    None => inner.as_str(),
                };
                if self.is_vec {
                    cat("FFIArray", inner)
                } else {
                    cat3(ptr_type, " ", inner)
                }
            },
            TypeIdentifier::DateTime => {
                if self.is_vec {
                    String::from_str("FFIArrayTimeStamp")
                } else {
                    cat(ptr_type, " TimeStamp")
                }
            },
            TypeIdentifier::Raw(inner) => {
                let inner = match expose_as {
                    Some(e) => e.as_str(),
                    None => inner.as_str(),
                };
                if self.is_vec {
                    cat("FFIArray", inner)
                } else if self.is_option {
                    cat3(ptr_type, " ", inner)
                } else {
                    String::from_str(inner)
                }
            },
            _ => {
                if self.is_vec {
                    String::from_str("FFIArrayString")
                } else {
                    String::from_str("*const std::os::raw::c_char")
                }
            },
        }
    }

    /// The name of this type in the consumer's language; `expose_as` names the type to use in
    /// place of the native one.
    pub fn consumer_type(&self, expose_as: Option<&String>) -> (r: String)
        ensures
            r@ == consumer_type_of(
                *self,
                match expose_as {
                    Some(e) => Some(e@),
                    None => None,
                },
            ),
    {
        let mut t = match expose_as {
            Some(e) => String::from_str(e.as_str()),
            None => match &self.native_type {
                TypeIdentifier::Boxed(inner) => String::from_str(inner.as_str()),
                TypeIdentifier::Raw(inner) => consumer_type_for(inner.as_str(), false),
                TypeIdentifier::DateTime => String::from_str("Date"),
                _ => String::from_str("String"),
            },
        };
        if self.is_vec {
            t = cat3("[", t.as_str(), "]");
        }
        if self.is_option {
            t.append("?");
        }
        t
    }

    /// This type as a native Rust type, as text, for converting an FFI value back into native
    /// Rust.
    pub fn native_type(&self) -> (r: String)
        ensures
            r@ == native_type_spec(*self),
    {
        let t = match &self.native_type {
            TypeIdentifier::Boxed(inner) => String::from_str(inner.as_str()),
            TypeIdentifier::Raw(inner) => String::from_str(inner.as_str()),
            TypeIdentifier::DateTime => String::from_str("datetime"),
            TypeIdentifier::String => String::from_str("String"),
            TypeIdentifier::Uuid => String::from_str("Uuid"),
        };
        let t = if self.is_vec {
            cat3("Vec<", t.as_str(), ">")
        } else if self.is_borrow {
            match &self.native_type {
                TypeIdentifier::String => String::from_str("&str"),
                _ => cat("&", t.as_str()),
            }
        } else {
            t
        };
        if self.is_option {
            cat3("Option::<", t.as_str(), ">")
        } else {
            t
        }
    }

    /// The conversion to perform for this type on the consumer side, a closing parenthesis, and
    /// the signature for returning this type from a consumer function.
    pub fn consumer_return_type_components(&self) -> (r: (String, String, String))
        ensures
            (r.0@, r.1@, r.2@) == return_components_spec(*self),
    {
        let ty = self.consumer_type(None);
        if self.is_result {
            (
                String::from_str("handle(result: "),
                String::from_str(")"),
                cat3("-> Result<", ty.as_str(), ", RustError>"),
            )
        } else {
            (cat(ty.as_str(), ".fromRust("), String::from_str(")"), cat("-> ", ty.as_str()))
        }
    }
}

} // verus!
