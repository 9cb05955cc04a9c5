//! Describes a Rust function that is exposed through the FFI, and generates the FFI function that
//! calls it, as Rust source text.

use crate::attributes::{same_idents, same_key, FnAttributes};
use crate::field_ffi::{docs_of, parse_doc_comments};
use crate::parsing::{Attribute, FieldAttributes, Path, PathArguments, RustType};
use crate::text::{copy_string, escaped, str_equal, string_literal, views};
use crate::type_attributes::{lemma_known_self_type, no_wrappers, parse_type, TypeError};
use crate::type_ffi::{
    argument_into_rust_spec, ffi_type_spec, native_type_spec, rust_to_ffi_value_spec, Context,
    TypeFFI, TypeFFIView, TypeIdentifier,
};
use vstd::prelude::*;

verus! {

/// The kinds of receivers a function may take.
#[derive(Debug, Clone, Copy, PartialEq, Eq, Structural)]
pub enum FnReceiver {
    /// The function takes no `self` argument.
    NoReceiver,
    /// The function takes an owned receiver (`self`).
    Owned,
    /// The function takes a borrowed receiver (`&self`).
    Borrowed,
}

/// An argument in a function's signature.
pub enum FnArg {
    /// A `self` receiver; `reference` is true for `&self` and `&mut self`.
    Receiver {
        /// Whether the receiver is a reference.
        reference: bool,
    },
    /// A typed argument, as in `foo: i32`.
    Typed {
        /// The argument's identifier, when its pattern is an identifier.
        pat_ident: Option<String>,
        /// The argument's type.
        ty: RustType,
    },
}

/// A function or method: its name, arguments, return type and attributes.
pub struct Method {
    /// The function's name.
    pub ident: String,
    /// The function's arguments, in order.
    pub inputs: Vec<FnArg>,
    /// The function's return type; `None` when it returns `()` implicitly.
    pub output: Option<RustType>,
    /// The attributes on the function.
    pub attrs: Vec<Attribute>,
}

/// Why a function cannot be exposed through the FFI.
#[derive(Debug, Clone, Copy, PartialEq, Eq, Structural)]
pub enum FnError {
    /// A parameter's pattern is not an identifier.
    AnonymousParameter,
    /// A parameter's type, or the return type, cannot be exposed.
    Type(TypeError),
}

/// A parameter of a Rust function.
pub struct FnParameterFFI {
    /// The parameter's name.
    pub name: String,
    /// The type information for generating an FFI for this parameter.
    pub native_type_data: TypeFFI,
}

/// The inputs for building a `FnParameterFFI`: a parameter, as in `foo: i32`.
pub struct FnParameterFFIInputs<'a> {
    /// The parameter's identifier, when its pattern is an identifier.
    pub arg_ident: &'a Option<String>,
    /// The parameter's type.
    pub arg_type: &'a RustType,
    /// The helper attributes on the function.
    pub fn_attributes: &'a FnAttributes,
}

/// True when every segment of `p` is bare, without generic arguments.
pub open spec fn all_bare(p: Path) -> bool {
    forall|i: int| 0 <= i < p.segments@.len() ==> (#[trigger] p.segments@[i]).arguments is Bare
}

/// True when the type `ty` is the generic parameter `key`.
pub open spec fn is_generic_key(ty: RustType, key: Path) -> bool {
    match ty {
        RustType::Path(p) => same_key(p, key) && all_bare(p) && all_bare(key),
        _ => false,
    }
}

/// The concrete type given for the generic `ty` among `gens`: the first substitution whose
/// parameter is `ty`.
pub open spec fn generic_lookup(gens: Seq<(Path, RustType)>, ty: RustType) -> Option<RustType>
    decreases gens.len(),
{
    if gens.len() == 0 {
        None
    } else if is_generic_key(ty, gens[0].0) {
        Some(gens[0].1)
    } else {
        generic_lookup(gens.drop_first(), ty)
    }
}

/// The type used in the FFI for a parameter of the type `ty`: the concrete type given for it when
/// it is a generic parameter, `ty` itself otherwise.
pub open spec fn concrete_type(gens: Seq<(Path, RustType)>, ty: RustType) -> RustType {
    match generic_lookup(gens, ty) {
        Some(t) => t,
        None => ty,
    }
}

/// The type data of a parameter of the type `ty` of a function with the attributes `a`.
pub open spec fn parameter_type_spec(ty: RustType, a: FnAttributes) -> Result<TypeFFIView, TypeError> {
    parse_type(concrete_type(a.generics@, ty), no_wrappers(), views(a.raw_types@), Some(a.extend_type@))
}

/// True when every segment of `p` is bare.
fn path_all_bare(p: &Path) -> (r: bool)
    ensures
        r == all_bare(*p),
{
    let mut i: usize = 0;
    while i < p.segments.len()
        invariant
            i <= p.segments.len(),
            forall|j: int| 0 <= j < i ==> (#[trigger] p.segments@[j]).arguments is Bare,
        decreases p.segments.len() - i,
    {
        match &p.segments[i].arguments {
            PathArguments::Bare => {},
            _ => {
                return false;
            },
        }
        i = i + 1;
    }
    true
}

/// True when the type `ty` is the generic parameter `key`.
fn generic_key_matches(ty: &RustType, key: &Path) -> (r: bool)
    ensures
        r == is_generic_key(*ty, *key),
{
    match ty {
        RustType::Path(p) => same_idents(p, key) && path_all_bare(p) && path_all_bare(key),
        _ => false,
    }
}

/// The concrete type given for the generic `ty` among `gens`, if it is one.
fn find_generic<'a>(gens: &'a Vec<(Path, RustType)>, ty: &RustType) -> (r: Option<&'a RustType>)
    ensures
        match r {
            Some(t) => generic_lookup(gens@, *ty) == Some(*t),
            None => generic_lookup(gens@, *ty) is None,
        },
{
    let mut i: usize = 0;
    assert(gens@.skip(0) =~= gens@);
    while i < gens.len()
        invariant
            i <= gens.len(),
            generic_lookup(gens@, *ty) == generic_lookup(gens@.skip(i as int), *ty),
        decreases gens.len() - i,
    {
        assert(gens@.skip(i as int)[0] == gens@[i as int]);
        if generic_key_matches(ty, &gens[i].0) {
            return Some(&gens[i].1);
        }
        assert(gens@.skip(i as int).drop_first() =~= gens@.skip(i + 1));
        i = i + 1;
    }
    assert(gens@.skip(i as int) =~= Seq::<(Path, RustType)>::empty());
    None
}

impl FnParameterFFI {
    /// Reads a parameter: its name, and the type data of its type (or of the concrete type given
    /// for it in the function's attributes, when it is a generic parameter).
    pub fn from(inputs: FnParameterFFIInputs) -> (r: Result<FnParameterFFI, FnError>)
        ensures
            match r {
                Ok(p) => (inputs.arg_ident matches Some(n) && n@ == p.name@) && parameter_type_spec(
                    *inputs.arg_type,
                    *inputs.fn_attributes,
                ) == Ok::<TypeFFIView, TypeError>(p.native_type_data@),
                Err(FnError::AnonymousParameter) => inputs.arg_ident is None,
                Err(FnError::Type(e)) => inputs.arg_ident is Some && parameter_type_spec(
                    *inputs.arg_type,
                    *inputs.fn_attributes,
                ) == Err::<TypeFFIView, TypeError>(e),
            },
    {
        let a = inputs.fn_attributes;
        let name = match inputs.arg_ident {
            Some(n) => copy_string(n),
            None => {
                return Err(FnError::AnonymousParameter);
            },
        };
        let self_type = Some(copy_string(&a.extend_type));
        let found = find_generic(&a.generics, inputs.arg_type);
        let ty = match found {
            Some(t) => t,
            None => inputs.arg_type,
        };
        proof {
            lemma_known_self_type(*ty, no_wrappers(), views(a.raw_types@), a.extend_type@);
        }
        match TypeFFI::from_type(ty, &a.raw_types, &self_type) {
            Ok(t) => Ok(FnParameterFFI { name, native_type_data: t }),
            Err(e) => Err(FnError::Type(e)),
        }
    }
}

/// A Rust function, with what is needed to generate an FFI and consumer code for calling it.
pub struct FnFFI {
    /// The function's name.
    pub fn_name: String,
    /// The receiver the function takes.
    pub receiver: FnReceiver,
    /// The function's parameters.
    pub parameters: Vec<FnParameterFFI>,
    /// The return type, if any.
    pub return_type: Option<TypeFFI>,
    /// The function's documentation strings.
    pub doc_comments: Vec<String>,
}

/// The inputs for building a `FnFFI` for a method of an impl.
pub struct FnFFIInputs {
    /// The method.
    pub method: Method,
    /// The helper attributes on the method.
    pub fn_attributes: FnAttributes,
    /// The local aliases: each newtype's identifier with the type it stands for.
    pub local_aliases: Vec<(String, RustType)>,
    /// The documentation strings of the method.
    pub doc_comments: Vec<String>,
}

/// The type that the local alias `name` stands for: the first alias of that name.
pub open spec fn local_lookup(aliases: Seq<(String, RustType)>, name: Seq<char>) -> Option<RustType>
    decreases aliases.len(),
{
    if aliases.len() == 0 {
        None
    } else if aliases[0].0@ == name {
        Some(aliases[0].1)
    } else {
        local_lookup(aliases.drop_first(), name)
    }
}

/// The type `ty` with a local alias replaced by the type it stands for: a path is looked up by
/// the identifier of its last segment.
pub open spec fn stripped_type(aliases: Seq<(String, RustType)>, ty: RustType) -> RustType {
    match ty {
        RustType::Path(p) => if p.segments@.len() == 0 {
            ty
        } else {
            match local_lookup(aliases, p.segments@.last().ident@) {
                Some(t) => t,
                None => ty,
            }
        },
        _ => ty,
    }
}

/// True when a path type has a last segment to look up.
pub open spec fn strippable(ty: RustType) -> bool {
    ty matches RustType::Path(p) ==> p.segments@.len() > 0
}

/// The type that the local alias `name` stands for.
fn find_local<'a>(aliases: &'a Vec<(String, RustType)>, name: &str) -> (r: Option<&'a RustType>)
    ensures
        match r {
            Some(t) => local_lookup(aliases@, name@) == Some(*t),
            None => local_lookup(aliases@, name@) is None,
        },
{
    let mut i: usize = 0;
    assert(aliases@.skip(0) =~= aliases@);
    while i < aliases.len()
        invariant
            i <= aliases.len(),
            local_lookup(aliases@, name@) == local_lookup(aliases@.skip(i as int), name@),
        decreases aliases.len() - i,
    {
        assert(aliases@.skip(i as int)[0] == aliases@[i as int]);
        if str_equal(aliases[i].0.as_str(), name) {
            return Some(&aliases[i].1);
        }
        assert(aliases@.skip(i as int).drop_first() =~= aliases@.skip(i + 1));
        i = i + 1;
    }
    assert(aliases@.skip(i as int) =~= Seq::<(String, RustType)>::empty());
    None
}

/// The type `ty` with a local alias replaced by the type it stands for.
fn strip_alias<'a>(aliases: &'a Vec<(String, RustType)>, ty: &'a RustType) -> (r: &'a RustType)
    ensures
        *r == stripped_type(aliases@, *ty),
{
    match ty {
        RustType::Path(p) => {
            let n = p.segments.len();
            if n == 0 {
                return ty;
            }
            match find_local(aliases, p.segments[n - 1].ident.as_str()) {
                Some(t) => t,
                None => ty,
            }
        },
        _ => ty,
    }
}

impl FnFFIInputs {
    /// The type `ty` with a local alias replaced by the type it stands for.
    pub fn strip_local_alias<'a>(&'a self, ty: &'a RustType) -> (r: &'a RustType)
        requires
            strippable(*ty),
        ensures
            *r == stripped_type(self.local_aliases@, *ty),
    {
        strip_alias(&self.local_aliases, ty)
    }
}

/// The receiver a function with the arguments `inputs` takes: that of its last receiver argument.
pub open spec fn receiver_of(inputs: Seq<FnArg>) -> FnReceiver
    decreases inputs.len(),
{
    if inputs.len() == 0 {
        FnReceiver::NoReceiver
    } else {
        match inputs.last() {
            FnArg::Receiver { reference } => if reference {
                FnReceiver::Borrowed
            } else {
                FnReceiver::Owned
            },
            FnArg::Typed { .. } => receiver_of(inputs.drop_last()),
        }
    }
}

/// The names and type data of the parameters of a function with the arguments `inputs` and the
/// attributes `a`, in order, or the first parameter's rejection.
pub open spec fn parameters_result(inputs: Seq<FnArg>, a: FnAttributes) -> Result<
    Seq<(Seq<char>, TypeFFIView)>,
    FnError,
>
    decreases inputs.len(),
{
    if inputs.len() == 0 {
        Ok(Seq::empty())
    } else {
        match parameters_result(inputs.drop_last(), a) {
            Err(e) => Err(e),
            Ok(ps) => match inputs.last() {
                FnArg::Receiver { .. } => Ok(ps),
                FnArg::Typed { pat_ident, ty } => match pat_ident {
                    None => Err(FnError::AnonymousParameter),
                    Some(n) => match parameter_type_spec(ty, a) {
                        Ok(t) => Ok(ps.push((n@, t))),
                        Err(e) => Err(FnError::Type(e)),
                    },
                },
            },
        }
    }
}

/// The names and type data of parameters.
pub open spec fn params_view(ps: Seq<FnParameterFFI>) -> Seq<(Seq<char>, TypeFFIView)> {
    ps.map_values(|p: FnParameterFFI| (p.name@, p.native_type_data@))
}

/// The type data of the return type `output` once local aliases are replaced, or its rejection.
pub open spec fn return_type_result(
    output: Option<RustType>,
    aliases: Seq<(String, RustType)>,
    a: FnAttributes,
) -> Result<Option<TypeFFIView>, FnError> {
    match output {
        None => Ok(None),
        Some(ty) => match parse_type(
            stripped_type(aliases, ty),
            no_wrappers(),
            views(a.raw_types@),
            Some(a.extend_type@),
        ) {
            Ok(t) => Ok(Some(t)),
            Err(e) => Err(FnError::Type(e)),
        },
    }
}

/// The type data of an optional type.
pub open spec fn opt_type_view(t: Option<TypeFFI>) -> Option<TypeFFIView> {
    match t {
        Some(t) => Some(t@),
        None => None,
    }
}

/// True when `f` was built from the method `m` with the attributes `a` and the local aliases
/// `aliases`: its name, receiver, parameters, return type and documentation are those of `m`.
pub open spec fn fn_built(f: FnFFI, m: Method, a: FnAttributes, aliases: Seq<(String, RustType)>) -> bool {
    &&& f.fn_name@ == m.ident@
    &&& f.receiver == receiver_of(m.inputs@)
    &&& parameters_result(m.inputs@, a) == Ok::<Seq<(Seq<char>, TypeFFIView)>, FnError>(params_view(f.parameters@))
    &&& return_type_result(m.output, aliases, a) == Ok::<Option<TypeFFIView>, FnError>(opt_type_view(f.return_type))
    &&& views(f.doc_comments@) == docs_of(m.attrs@)
}

/// The result of building a `FnFFI` from the method `m`: built when its parameters and return
/// type can be exposed, otherwise the first rejection, parameters first.
pub open spec fn fn_result(
    r: Result<FnFFI, FnError>,
    m: Method,
    a: FnAttributes,
    aliases: Seq<(String, RustType)>,
) -> bool {
    match r {
        Ok(f) => fn_built(f, m, a, aliases),
        Err(e) => match parameters_result(m.inputs@, a) {
            Err(pe) => e == pe,
            Ok(_) => return_type_result(m.output, aliases, a) == Err::<Option<TypeFFIView>, FnError>(e),
        },
    }
}

/// Builds a `FnFFI` from the method `m`, replacing local aliases in its return type.
pub(crate) fn build_fn(m: Method, a: &FnAttributes, aliases: &Vec<(String, RustType)>) -> (r: Result<FnFFI, FnError>)
    ensures
        fn_result(r, m, *a, aliases@),
{
    let ghost m0 = m;
    let mut receiver = FnReceiver::NoReceiver;
    let mut parameters: Vec<FnParameterFFI> = Vec::new();
    let mut i: usize = 0;
    assert(m.inputs@.take(0) =~= Seq::<FnArg>::empty());
    assert(params_view(parameters@) =~= Seq::<(Seq<char>, TypeFFIView)>::empty());
    while i < m.inputs.len()
        invariant
            m == m0,
            i <= m.inputs.len(),
            receiver == receiver_of(m.inputs@.take(i as int)),
            parameters_result(m.inputs@.take(i as int), *a) == Ok::<Seq<(Seq<char>, TypeFFIView)>, FnError>(params_view(parameters@)),
        decreases m.inputs.len() - i,
    {
        proof {
            assert(m.inputs@.take(i + 1).drop_last() =~= m.inputs@.take(i as int));
            assert(m.inputs@.take(i + 1).last() == m.inputs@[i as int]);
        }
        match &m.inputs[i] {
            FnArg::Receiver { reference } => {
                receiver = if *reference {
                    FnReceiver::Borrowed
                } else {
                    FnReceiver::Owned
                };
            },
            FnArg::Typed { pat_ident, ty } => {
                let inputs = FnParameterFFIInputs { arg_ident: pat_ident, arg_type: ty, fn_attributes: a };
                match FnParameterFFI::from(inputs) {
                    Ok(p) => {
                        let ghost before = params_view(parameters@);
                        parameters.push(p);
                        assert(params_view(parameters@) =~= before.push((p.name@, p.native_type_data@)));
                    },
                    Err(e) => {
                        proof {
                            lemma_parameters_err(m.inputs@, *a, i as int + 1);
                        }
                        return Err(e);
                    },
                }
            },
        }
        i = i + 1;
    }
    assert(m.inputs@.take(i as int) =~= m.inputs@);
    let return_type = match &m.output {
        None => None,
        Some(ty) => {
            let stripped = strip_alias(aliases, ty);
            let self_type = Some(copy_string(&a.extend_type));
            proof {
                lemma_known_self_type(*stripped, no_wrappers(), views(a.raw_types@), a.extend_type@);
            }
            match TypeFFI::from_type(stripped, &a.raw_types, &self_type) {
                Ok(t) => Some(t),
                Err(e) => {
                    return Err(FnError::Type(e));
                },
            }
        },
    };
    let doc_comments = parse_doc_comments(&m.attrs);
    Ok(FnFFI { fn_name: m.ident, receiver, parameters, return_type, doc_comments })
}

/// Once the parameters of a prefix of the arguments are rejected, those of all the arguments are,
/// with the same rejection.
proof fn lemma_parameters_err(inputs: Seq<FnArg>, a: FnAttributes, k: int)
    requires
        0 <= k <= inputs.len(),
        parameters_result(inputs.take(k), a) is Err,
    ensures
        parameters_result(inputs, a) == parameters_result(inputs.take(k), a),
    decreases inputs.len() - k,
{
    if k < inputs.len() {
        assert(inputs.take(k + 1).drop_last() =~= inputs.take(k));
        lemma_parameters_err(inputs, a, k + 1);
    } else {
        assert(inputs.take(k) =~= inputs);
    }
}

impl FnFFI {
    /// Reads a method of an impl: its name, receiver, parameters, return type (with local aliases
    /// replaced by the types they stand for) and documentation. A parameter whose pattern is not
    /// an identifier, or a type that cannot be exposed, is rejected.
    pub fn from(inputs: FnFFIInputs) -> (r: Result<FnFFI, FnError>)
        requires
            inputs.method.output matches Some(ty) ==> strippable(ty),
        ensures
            fn_result(r, inputs.method, inputs.fn_attributes, inputs.local_aliases@),
    {
        build_fn(inputs.method, &inputs.fn_attributes, &inputs.local_aliases)
    }

    /// Reads a standalone function, as `from` does for a method, without local aliases.
    pub fn from_item_fn(method: Method, fn_attributes: &FnAttributes) -> (r: Result<FnFFI, FnError>)
        ensures
            fn_result(r, method, *fn_attributes, Seq::empty()),
    {
        let aliases: Vec<(String, RustType)> = Vec::new();
        assert(aliases@ =~= Seq::<(String, RustType)>::empty());
        build_fn(method, fn_attributes, &aliases)
    }
}

// ---------------------------------------------------------------------------------------------
// The FFI function
// ---------------------------------------------------------------------------------------------

/// The text of an optional name; empty when there is none.
pub open spec fn opt_text(o: Option<&String>) -> Seq<char> {
    match o {
        Some(s) => s@,
        None => Seq::empty(),
    }
}

/// The parameter that passes the receiver `r`, a pointer to an instance of `t` named `p`.
pub open spec fn receiver_arg_spec(r: FnReceiver, t: Seq<char>, p: Seq<char>) -> Seq<char> {
    match r {
        FnReceiver::NoReceiver => Seq::empty(),
        _ => p + ": *const "@ + t + ", "@,
    }
}

/// The statement that reads the receiver `r` from the pointer `p`.
pub open spec fn receiver_conversion_spec(r: FnReceiver, p: Seq<char>) -> Seq<char> {
    match r {
        FnReceiver::NoReceiver => Seq::empty(),
        _ => "let data = (*"@ + p + ").clone();\n    "@,
    }
}

/// The FFI parameter for the parameter `p`, as in `foo: FFIArrayFoo, `.
pub open spec fn param_signature_spec(p: FnParameterFFI) -> Seq<char> {
    p.name@ + ": "@ + ffi_type_spec(p.native_type_data, None, Context::Argument) + ", "@
}

/// The argument passing the parameter `p` to the native function, borrowing a collection.
pub open spec fn param_calling_spec(p: FnParameterFFI) -> Seq<char> {
    (if p.native_type_data.is_vec {
        "&*"@
    } else {
        Seq::empty()
    }) + p.name@ + ", "@
}

/// The statement converting the FFI parameter `p` into its native value, as in
/// `let foo: Vec<Foo> = foo.into();`.
pub open spec fn param_conversion_spec(p: FnParameterFFI) -> Seq<char> {
    let ty = p.native_type_data;
    let c = argument_into_rust_spec(ty, p.name@, false);
    let c = if ty.is_borrow && ty.native_type is String {
        "&*"@ + c
    } else {
        c
    };
    "let "@ + p.name@ + ": "@ + native_type_spec(ty) + " = "@ + c + ";\n    "@
}

/// The FFI parameters for the parameters `ps`, one after another.
pub open spec fn params_signature_spec(ps: Seq<FnParameterFFI>) -> Seq<char>
    decreases ps.len(),
{
    if ps.len() == 0 {
        Seq::empty()
    } else {
        params_signature_spec(ps.drop_last()) + param_signature_spec(ps.last())
    }
}

/// The arguments passing the parameters `ps`, one after another.
pub open spec fn params_calling_spec(ps: Seq<FnParameterFFI>) -> Seq<char>
    decreases ps.len(),
{
    if ps.len() == 0 {
        Seq::empty()
    } else {
        params_calling_spec(ps.drop_last()) + param_calling_spec(ps.last())
    }
}

/// The native call passes the parameters in their declared order: the arguments for the first
/// `k + 1` parameters are those for the first `k`, followed by the `k`-th parameter's name
/// (after `&*` when it is a collection) and a comma. With no parameter there is no argument.
pub proof fn lemma_call_arguments_in_order(ps: Seq<FnParameterFFI>, k: int)
    requires
        0 <= k < ps.len(),
    ensures
        params_calling_spec(Seq::<FnParameterFFI>::empty()) == Seq::<char>::empty(),
        params_calling_spec(ps.take(k + 1)) == params_calling_spec(ps.take(k)) + (if ps[k].native_type_data.is_vec {
            "&*"@
        } else {
            Seq::<char>::empty()
        }) + ps[k].name@ + ", "@,
{
    assert(ps.take(k + 1).drop_last() =~= ps.take(k));
    assert(ps.take(k + 1).last() == ps[k]);
}

/// The conversions of the parameters `ps`, one after another.
pub open spec fn params_conversions_spec(ps: Seq<FnParameterFFI>) -> Seq<char>
    decreases ps.len(),
{
    if ps.len() == 0 {
        Seq::empty()
    } else {
        params_conversions_spec(ps.drop_last()) + param_conversion_spec(ps.last())
    }
}

/// The name of the FFI function for the function `f` in the module `m`.
pub open spec fn ffi_fn_name_spec(m: Seq<char>, f: Seq<char>) -> Seq<char> {
    m + "_"@ + f
}

/// The expression that names the native function `f`: called on `data` when it takes a
/// receiver, through the type `t` when there is one, by name otherwise.
pub open spec fn native_call_spec(f: FnFFI, t: Option<&String>) -> Seq<char> {
    if f.receiver == FnReceiver::NoReceiver {
        match t {
            Some(t) => t@ + "::"@ + f.fn_name@,
            None => f.fn_name@,
        }
    } else {
        "data."@ + f.fn_name@
    }
}

/// The expression converting `return_value`, of the type `r`, into its FFI value; a `Result`
/// sets the last error when it fails.
pub open spec fn return_conversion_spec(r: TypeFFI) -> Seq<char> {
    let conversion = rust_to_ffi_value_spec(r, "r"@, false);
    if r.is_result {
        if !r.is_vec && (r.native_type is Boxed || r.native_type is String || r.native_type is DateTime) {
            "ffi_common::core::try_or_set_error!(return_value.map(|r| "@ + conversion + "))"@
        } else {
            let map = "ffi_common::core::try_or_set_error!(return_value.map(|r| "@ + conversion
                + "), <"@ + native_type_spec(r) + ">::default())"@;
            if r.is_vec {
                "use std::ops::Deref;\n    "@ + map + ".deref().into()"@
            } else {
                map
            }
        }
    } else {
        rust_to_ffi_value_spec(r, "return_value"@, false)
    }
}

/// The call of the native function and the return of its converted value.
pub open spec fn call_and_return_spec(f: FnFFI, t: Option<&String>) -> Seq<char> {
    let call = native_call_spec(f, t) + "("@ + params_calling_spec(f.parameters@) + ")"@;
    match f.return_type {
        Some(r) => "let return_value = "@ + call + ";\n    "@ + return_conversion_spec(r),
        None => call + ";"@,
    }
}

/// The documentation attributes for the documentation strings `docs`.
pub open spec fn doc_attrs_spec(docs: Seq<Seq<char>>) -> Seq<char>
    decreases docs.len(),
{
    if docs.len() == 0 {
        Seq::empty()
    } else {
        doc_attrs_spec(docs.drop_last()) + "#[doc = "@ + ("\""@ + escaped(docs.last()) + "\""@) + "]\n"@
    }
}

/// The FFI function for calling `f` from outside of Rust, in the module `m`, for a method of the
/// type `t` whose receiver pointer is named `p`.
pub open spec fn generate_ffi_spec(f: FnFFI, m: Seq<char>, t: Option<&String>, p: Option<&String>) -> Seq<char> {
    let ret = match f.return_type {
        Some(r) => ffi_type_spec(r, None, Context::Return),
        None => Seq::empty(),
    };
    doc_attrs_spec(views(f.doc_comments@)) + "#[no_mangle]\npub unsafe extern \"C\" fn "@
        + ffi_fn_name_spec(m, f.fn_name@) + "("@ + receiver_arg_spec(f.receiver, opt_text(t), opt_text(p))
        + params_signature_spec(f.parameters@) + ") -> "@ + ret + " {\n    "@
        + receiver_conversion_spec(f.receiver, opt_text(p)) + params_conversions_spec(f.parameters@)
        + call_and_return_spec(f, t) + "\n}\n"@
}

/// The text of an optional name.
fn opt_string(o: Option<&String>) -> (r: String)
    ensures
        r@ == opt_text(o),
{
    match o {
        Some(s) => copy_string(s),
        None => String::new(),
    }
}

/// The documentation attributes for the documentation strings `docs`.
fn doc_attrs(docs: &Vec<String>) -> (r: String)
    ensures
        r@ == doc_attrs_spec(views(docs@)),
{
    let ghost vs = views(docs@);
    let mut r = String::new();
    let mut i: usize = 0;
    while i < docs.len()
        invariant
            vs == views(docs@),
            i <= docs.len(),
            r@ == doc_attrs_spec(vs.take(i as int)),
        decreases docs.len() - i,
    {
        proof {
            assert(vs.take(i + 1).drop_last() =~= vs.take(i as int));
        }
        let lit = string_literal(docs[i].as_str());
        r.append("#[doc = ");
        r.append(lit.as_str());
        r.append("]\n");
        proof {
            assert(r@ =~= doc_attrs_spec(vs.take(i as int)) + "#[doc = "@ + ("\""@ + escaped(vs[i as int]) + "\""@) + "]\n"@);
        }
        i = i + 1;
    }
    assert(vs.take(docs.len() as int) =~= vs);
    r
}

/// The expression converting `return_value`, of the type `r`, into its FFI value.
fn return_conversion(r: &TypeFFI) -> (s: String)
    ensures
        s@ == return_conversion_spec(*r),
{
    let attributes = FieldAttributes { expose_as: None, raw: false };
    let conversion = r.rust_to_ffi_value("r", &attributes);
    if r.is_result {
        let simple = !r.is_vec && match &r.native_type {
            TypeIdentifier::Boxed(_) | TypeIdentifier::String | TypeIdentifier::DateTime => true,
            _ => false,
        };
        if simple {
            let mut s = String::from_str("ffi_common::core::try_or_set_error!(return_value.map(|r| ");
            s.append(conversion.as_str());
            s.append("))");
            s
        } else {
            let native = r.native_type();
            let mut map = String::from_str("ffi_common::core::try_or_set_error!(return_value.map(|r| ");
            map.append(conversion.as_str());
            map.append("), <");
            map.append(native.as_str());
            map.append(">::default())");
            if r.is_vec {
                let mut s = String::from_str("use std::ops::Deref;\n    ");
                s.append(map.as_str());
                s.append(".deref().into()");
                s
            } else {
                map
            }
        }
    } else {
        r.rust_to_ffi_value("return_value", &attributes)
    }
}

impl FnFFI {
    /// The name of the FFI function for this function in the module `module_name`.
    pub fn ffi_fn_name(&self, module_name: &str) -> (r: String)
        ensures
            r@ == ffi_fn_name_spec(module_name@, self.fn_name@),
    {
        let mut r = String::from_str(module_name);
        r.append("_");
        r.append(self.fn_name.as_str());
        r
    }

    /// Generates a function for calling the native function from outside of Rust, as Rust source
    /// text. A function taking a receiver gets a pointer to an instance of `type_ident`, named
    /// `type_as_parameter_name`; each parameter is converted from its FFI type to its native type
    /// before the call, and the return value is converted to its FFI type (a failing `Result`
    /// sets the last error).
    pub fn generate_ffi(
        &self,
        module_name: &str,
        type_ident: Option<&String>,
        type_as_parameter_name: Option<&String>,
    ) -> (r: String)
        ensures
            r@ == generate_ffi_spec(*self, module_name@, type_ident, type_as_parameter_name),
    {
        let t = opt_string(type_ident);
        let p = opt_string(type_as_parameter_name);
        let mut signature_args = String::new();
        let mut receiver_conversion = String::new();
        match self.receiver {
            FnReceiver::NoReceiver => {},
            FnReceiver::Owned | FnReceiver::Borrowed => {
                signature_args.append(p.as_str());
                signature_args.append(": *const ");
                signature_args.append(t.as_str());
                signature_args.append(", ");
                receiver_conversion.append("let data = (*");
                receiver_conversion.append(p.as_str());
                receiver_conversion.append(").clone();\n    ");
            },
        }
        let ghost ra = signature_args@;
        let ps = &self.parameters;
        let mut params_sig = String::new();
        let mut calling_args = String::new();
        let mut conversions = String::new();
        let mut i: usize = 0;
        while i < ps.len()
            invariant
                i <= ps.len(),
                params_sig@ == params_signature_spec(ps@.take(i as int)),
                calling_args@ == params_calling_spec(ps@.take(i as int)),
                conversions@ == params_conversions_spec(ps@.take(i as int)),
            decreases ps.len() - i,
        {
            proof {
                assert(ps@.take(i + 1).drop_last() =~= ps@.take(i as int));
            }
            let arg = &ps[i];
            let ty = &arg.native_type_data;
            let ffi_ty = ty.ffi_type(None, Context::Argument);
            params_sig.append(arg.name.as_str());
            params_sig.append(": ");
            params_sig.append(ffi_ty.as_str());
            params_sig.append(", ");
            if ty.is_vec {
                calling_args.append("&*");
            }
            calling_args.append(arg.name.as_str());
            calling_args.append(", ");
            let native = ty.native_type();
            let c = ty.argument_into_rust(arg.name.as_str(), false);
            let is_string = match &ty.native_type {
                TypeIdentifier::String => true,
                _ => false,
            };
            let c = if ty.is_borrow && is_string {
                let mut b = String::from_str("&*");
                b.append(c.as_str());
                b
            } else {
                c
            };
            conversions.append("let ");
            conversions.append(arg.name.as_str());
            conversions.append(": ");
            conversions.append(native.as_str());
            conversions.append(" = ");
            conversions.append(c.as_str());
            conversions.append(";\n    ");
            i = i + 1;
        }
        proof {
            assert(ps@.take(ps.len() as int) =~= ps@);
        }
        let ffi_fn_name = self.ffi_fn_name(module_name);
        let mut call = if self.receiver == FnReceiver::NoReceiver {
            match type_ident {
                Some(tn) => {
                    let mut c = copy_string(tn);
                    c.append("::");
                    c.append(self.fn_name.as_str());
                    c
                },
                None => copy_string(&self.fn_name),
            }
        } else {
            let mut c = String::from_str("data.");
            c.append(self.fn_name.as_str());
            c
        };
        call.append("(");
        call.append(calling_args.as_str());
        call.append(")");
        let (ret, call_and_return) = match &self.return_type {
            Some(r) => {
                let ret = r.ffi_type(None, Context::Return);
                let conv = return_conversion(r);
                let mut cr = String::from_str("let return_value = ");
                cr.append(call.as_str());
                cr.append(";\n    ");
                cr.append(conv.as_str());
                (ret, cr)
            },
            None => {
                let mut cr = call;
                cr.append(";");
                (String::new(), cr)
            },
        };
        let mut r = doc_attrs(&self.doc_comments);
        r.append("#[no_mangle]\npub unsafe extern \"C\" fn ");
        r.append(ffi_fn_name.as_str());
        r.append("(");
        r.append(signature_args.as_str());
        r.append(params_sig.as_str());
        r.append(") -> ");
        r.append(ret.as_str());
        r.append(" {\n    ");
        r.append(receiver_conversion.as_str());
        r.append(conversions.as_str());
        r.append(call_and_return.as_str());
        r.append("\n}\n");
        r
    }
}

} // verus!
