//! Describes a struct with a handwritten (custom) FFI, read from the functions of the file that
//! holds it, and generates the supporting FFI module (as Rust source text).

use crate::attributes::CustomAttributes;
use crate::enum_ffi::complex::{imports_spec, imports_text};
use crate::fn_ffi::{FnArg, Method};
use crate::parsing::{is_ident, path_is_ident, Path, RustType};
use crate::struct_ffi::{struct_clone_fn_name_spec, struct_free_fn_name_spec, struct_init_fn_name_spec};
use crate::syntax::{parse_file_items, parsed_file_items, FileItem};
use crate::text::{copy_string, str_equal, to_snake_case};
use vstd::prelude::*;

verus! {

/// Why the functions of a custom FFI file cannot describe the FFI of a type.
#[derive(Debug, Clone, Copy, PartialEq, Eq, Structural)]
pub enum CustomFfiError {
    /// No function has the initializer's name.
    NoInitializer,
    /// The initializer does not return `*const Type`.
    InitializerReturn,
    /// An argument of the initializer is not a named, typed argument.
    InitializerArgument,
    /// A function other than the initializer does not take exactly one `ptr: *const Type`.
    GetterArgument,
    /// A function other than the initializer returns nothing.
    GetterReturn,
    /// The file is not a Rust source file.
    UnreadableFile,
}

/// True when `ty` is `*const t`.
pub open spec fn is_const_ptr_to(ty: RustType, t: Seq<char>) -> bool {
    ty matches RustType::Ptr(mutable, elem) && !mutable && (*elem matches RustType::Path(p) && path_is_ident(p, t))
}

/// True when `i` is the first function of `fns` named `init`.
pub open spec fn is_first_init(fns: Seq<Method>, init: Seq<char>, i: int) -> bool {
    &&& 0 <= i < fns.len()
    &&& fns[i].ident@ == init
    &&& forall|j: int| 0 <= j < i ==> (#[trigger] fns[j]).ident@ != init
}

/// The name and type of a named, typed argument.
pub open spec fn typed_arg(a: FnArg) -> Option<(Seq<char>, RustType)> {
    match a {
        FnArg::Typed { pat_ident: Some(n), ty } => Some((n@, ty)),
        _ => None,
    }
}

/// True when every argument of `m` is named and typed.
pub open spec fn init_args_ok(m: Method) -> bool {
    forall|k: int| 0 <= k < m.inputs@.len() ==> typed_arg(#[trigger] m.inputs@[k]) is Some
}

/// The names and types of the arguments of `m`.
pub open spec fn init_data(m: Method) -> Seq<(Seq<char>, RustType)> {
    m.inputs@.map_values(|a: FnArg| typed_arg(a)->0)
}

/// True when `f` takes exactly one argument, `ptr: *const t`.
pub open spec fn getter_args_ok(f: Method, t: Seq<char>) -> bool {
    &&& f.inputs@.len() == 1
    &&& f.inputs@[0] matches FnArg::Typed { pat_ident: Some(n), ty }
    &&& n@ == "ptr"@
    &&& is_const_ptr_to(ty, t)
}

/// The rejection of the first function of `fns`, other than those named `init`, that is not a
/// getter of `t`: one that takes anything but `ptr: *const t`, or returns nothing.
pub open spec fn getter_error(fns: Seq<Method>, init: Seq<char>, t: Seq<char>) -> Option<CustomFfiError>
    decreases fns.len(),
{
    if fns.len() == 0 {
        None
    } else {
        match getter_error(fns.drop_last(), init, t) {
            Some(e) => Some(e),
            None => {
                let f = fns.last();
                if f.ident@ == init {
                    None
                } else if !getter_args_ok(f, t) {
                    Some(CustomFfiError::GetterArgument)
                } else if f.output is None {
                    Some(CustomFfiError::GetterReturn)
                } else {
                    None
                }
            },
        }
    }
}

/// The names and return types of the functions of `fns` other than those named `init`.
pub open spec fn getters_spec(fns: Seq<Method>, init: Seq<char>) -> Seq<(Seq<char>, RustType)>
    decreases fns.len(),
{
    if fns.len() == 0 {
        Seq::empty()
    } else {
        let g = getters_spec(fns.drop_last(), init);
        let f = fns.last();
        if f.ident@ == init {
            g
        } else {
            g.push((f.ident@, f.output->0))
        }
    }
}

/// What the functions `fns` of a custom FFI file say of the FFI of `t` whose initializer is
/// `init`: the initializer's arguments and the getters, or why they cannot be read. The
/// initializer is the first function named `init` and must return `*const t`; every other
/// function is a getter.
pub open spec fn custom_ffi_result(fns: Seq<Method>, t: Seq<char>, init: Seq<char>) -> Result<
    (Seq<(Seq<char>, RustType)>, Seq<(Seq<char>, RustType)>),
    CustomFfiError,
> {
    if forall|j: int| 0 <= j < fns.len() ==> (#[trigger] fns[j]).ident@ != init {
        Err(CustomFfiError::NoInitializer)
    } else {
        let m = fns[choose|i: int| is_first_init(fns, init, i)];
        if !(m.output matches Some(o) && is_const_ptr_to(o, t)) {
            Err(CustomFfiError::InitializerReturn)
        } else if !init_args_ok(m) {
            Err(CustomFfiError::InitializerArgument)
        } else {
            match getter_error(fns, init, t) {
                Some(e) => Err(e),
                None => Ok((init_data(m), getters_spec(fns, init))),
            }
        }
    }
}

/// Names and types, as text and type.
pub open spec fn pairs_view(v: Seq<(String, RustType)>) -> Seq<(Seq<char>, RustType)> {
    v.map_values(|e: (String, RustType)| (e.0@, e.1))
}

/// True when `ty` is `*const t`.
fn const_ptr_to(ty: &RustType, t: &str) -> (r: bool)
    ensures
        r == is_const_ptr_to(*ty, t@),
{
    match ty {
        RustType::Ptr(mutable, elem) => {
            if *mutable {
                return false;
            }
            match &**elem {
                RustType::Path(p) => is_ident(p, t),
                _ => false,
            }
        },
        _ => false,
    }
}

/// True when `f` takes exactly one argument, `ptr: *const t`.
fn getter_args_check(f: &Method, t: &str) -> (r: bool)
    ensures
        r == getter_args_ok(*f, t@),
{
    if f.inputs.len() != 1 {
        return false;
    }
    match &f.inputs[0] {
        FnArg::Typed { pat_ident: Some(n), ty } => str_equal(n.as_str(), "ptr") && const_ptr_to(ty, t),
        _ => false,
    }
}

/// Once a prefix of the functions holds a rejected getter, the functions do, with the same
/// rejection.
proof fn lemma_getter_error_prefix(fns: Seq<Method>, init: Seq<char>, t: Seq<char>, k: int)
    requires
        0 <= k <= fns.len(),
        getter_error(fns.take(k), init, t) is Some,
    ensures
        getter_error(fns, init, t) == getter_error(fns.take(k), init, t),
    decreases fns.len() - k,
{
    if k < fns.len() {
        assert(fns.take(k + 1).drop_last() =~= fns.take(k));
        lemma_getter_error_prefix(fns, init, t, k + 1);
    } else {
        assert(fns.take(k) =~= fns);
    }
}

/// With no rejected getter, every function not named `init` is a getter with a return type.
proof fn lemma_no_getter_error(fns: Seq<Method>, init: Seq<char>, t: Seq<char>)
    requires
        getter_error(fns, init, t) is None,
    ensures
        forall|j: int| 0 <= j < fns.len() && (#[trigger] fns[j]).ident@ != init ==> getter_args_ok(fns[j], t)
            && fns[j].output is Some,
    decreases fns.len(),
{
    if fns.len() > 0 {
        lemma_no_getter_error(fns.drop_last(), init, t);
        assert forall|j: int| 0 <= j < fns.len() && (#[trigger] fns[j]).ident@ != init implies getter_args_ok(fns[j], t)
            && fns[j].output is Some by {
            if j < fns.len() - 1 {
                assert(fns.drop_last()[j] == fns[j]);
            }
        }
    }
}

/// The index of the first function of `fns` named `name`, or the number of functions when none is.
fn first_named(fns: &Vec<Method>, name: &str) -> (r: usize)
    ensures
        r <= fns@.len(),
        forall|j: int| 0 <= j < r ==> (#[trigger] fns@[j]).ident@ != name@,
        r < fns@.len() ==> fns@[r as int].ident@ == name@,
{
    let mut i: usize = 0;
    while i < fns.len()
        invariant
            i <= fns@.len(),
            forall|j: int| 0 <= j < i ==> (#[trigger] fns@[j]).ident@ != name@,
        decreases fns.len() - i,
    {
        if str_equal(fns[i].ident.as_str(), name) {
            return i;
        }
        i = i + 1;
    }
    i
}

/// The functions among the items of a source file, in order.
pub open spec fn file_fns_spec(items: Seq<FileItem>) -> Seq<Method>
    decreases items.len(),
{
    if items.len() == 0 {
        Seq::empty()
    } else {
        let fns = file_fns_spec(items.drop_last());
        match items.last() {
            FileItem::Fn(m) => fns.push(m),
            FileItem::Other => fns,
        }
    }
}

/// The functions among `items`, in order.
fn file_fns(items: Vec<FileItem>) -> (r: Vec<Method>)
    ensures
        r@ == file_fns_spec(items@),
{
    let ghost all = items@;
    let mut rest = items;
    let mut fns: Vec<Method> = Vec::new();
    let mut k: usize = 0;
    let n: usize = rest.len();
    assert(all.take(0) =~= Seq::<FileItem>::empty());
    while rest.len() > 0
        invariant
            all.len() == n,
            k + rest@.len() == n,
            rest@ == all.skip(k as int),
            fns@ == file_fns_spec(all.take(k as int)),
        decreases rest@.len(),
    {
        let item = rest.remove(0);
        proof {
            assert(item == all[k as int]);
            assert(all.take(k + 1).drop_last() =~= all.take(k as int));
            assert(all.take(k + 1).last() == all[k as int]);
        }
        match item {
            FileItem::Fn(m) => fns.push(m),
            FileItem::Other => {},
        }
        k = k + 1;
        assert(rest@ =~= all.skip(k as int));
    }
    assert(all.take(k as int) =~= all);
    fns
}

/// What the custom FFI file whose text is `src` says of the FFI of `t` whose initializer is
/// `init`, as [`custom_ffi_result`] reads its functions; or why it cannot be read.
pub open spec fn custom_ffi_source_result(src: Seq<char>, t: Seq<char>, init: Seq<char>) -> Result<
    (Seq<(Seq<char>, RustType)>, Seq<(Seq<char>, RustType)>),
    CustomFfiError,
> {
    match parsed_file_items(src) {
        Some(items) => custom_ffi_result(file_fns_spec(items), t, init),
        None => Err(CustomFfiError::UnreadableFile),
    }
}

/// Reads the custom FFI file whose text is `src`, for the type `type_ident` whose initializer is
/// `expected_init`: the initializer's arguments' names and types, and the getters' names and
/// return types; or why the file cannot describe that FFI.
pub fn parse_custom_ffi_source(src: &str, type_ident: &str, expected_init: &str) -> (r: Result<
    (Vec<(String, RustType)>, Vec<(String, RustType)>),
    CustomFfiError,
>)
    ensures
        match r {
            Ok((a, g)) => custom_ffi_source_result(src@, type_ident@, expected_init@) == Ok::<
                (Seq<(Seq<char>, RustType)>, Seq<(Seq<char>, RustType)>),
                CustomFfiError,
            >((pairs_view(a@), pairs_view(g@))),
            Err(e) => custom_ffi_source_result(src@, type_ident@, expected_init@) == Err::<
                (Seq<(Seq<char>, RustType)>, Seq<(Seq<char>, RustType)>),
                CustomFfiError,
            >(e),
        },
{
    match parse_file_items(src) {
        Some(items) => read_custom_ffi(file_fns(items), type_ident, expected_init),
        None => Err(CustomFfiError::UnreadableFile),
    }
}

/// Checks the functions of a custom FFI file for the type `type_ident` whose initializer is
/// `expected_init`: fails with the rejection exactly when [`custom_ffi_result`] rejects them.
pub fn validate_custom_ffi(fns: Vec<Method>, type_ident: &str, expected_init: &str) -> (r: Result<
    (),
    CustomFfiError,
>)
    ensures
        match r {
            Ok(()) => custom_ffi_result(fns@, type_ident@, expected_init@) is Ok,
            Err(e) => custom_ffi_result(fns@, type_ident@, expected_init@) == Err::<
                (Seq<(Seq<char>, RustType)>, Seq<(Seq<char>, RustType)>),
                CustomFfiError,
            >(e),
        },
{
    match read_custom_ffi(fns, type_ident, expected_init) {
        Ok(_) => Ok(()),
        Err(e) => Err(e),
    }
}

/// Reads the functions of a custom FFI file for the type `type_ident`: the initializer
/// `expected_init`, whose arguments' names and types are returned first, and the getters, whose
/// names and return types are returned second. A file without that initializer returning
/// `*const type_ident`, or with another function that is not a getter taking
/// `ptr: *const type_ident`, cannot be used and is ruled out here; [`validate_custom_ffi`]
/// reports why.
pub fn parse_custom_ffi_type(fns: Vec<Method>, type_ident: &str, expected_init: &str) -> (r: (
    Vec<(String, RustType)>,
    Vec<(String, RustType)>,
))
    requires
        custom_ffi_result(fns@, type_ident@, expected_init@) is Ok,
    ensures
        custom_ffi_result(fns@, type_ident@, expected_init@) == Ok::<
            (Seq<(Seq<char>, RustType)>, Seq<(Seq<char>, RustType)>),
            CustomFfiError,
        >((pairs_view(r.0@), pairs_view(r.1@))),
{
    match read_custom_ffi(fns, type_ident, expected_init) {
        Ok(data) => data,
        Err(_) => unreached(),
    }
}

/// Reads the initializer's arguments and the getters, or the rejection.
fn read_custom_ffi(fns: Vec<Method>, type_ident: &str, expected_init: &str) -> (r: Result<
    (Vec<(String, RustType)>, Vec<(String, RustType)>),
    CustomFfiError,
>)
    ensures
        match r {
            Ok((a, g)) => custom_ffi_result(fns@, type_ident@, expected_init@) == Ok::<
                (Seq<(Seq<char>, RustType)>, Seq<(Seq<char>, RustType)>),
                CustomFfiError,
            >((pairs_view(a@), pairs_view(g@))),
            Err(e) => custom_ffi_result(fns@, type_ident@, expected_init@) == Err::<
                (Seq<(Seq<char>, RustType)>, Seq<(Seq<char>, RustType)>),
                CustomFfiError,
            >(e),
        },
{
    let ghost all = fns@;
    let ghost init = expected_init@;
    let ghost t = type_ident@;
    let n: usize = fns.len();
    let idx = first_named(&fns, expected_init);
    if idx == n {
        return Err(CustomFfiError::NoInitializer);
    }
    assert(is_first_init(all, init, idx as int));
    proof {
        let c = choose|i: int| is_first_init(all, init, i);
        assert(is_first_init(all, init, c));
        if c < idx {
            assert(all[c].ident@ != init);
        } else if c > idx {
            assert(all[idx as int].ident@ != init);
        }
        assert(c == idx);
    }
    let returns_type = match &fns[idx].output {
        Some(o) => const_ptr_to(o, type_ident),
        None => false,
    };
    if !returns_type {
        return Err(CustomFfiError::InitializerReturn);
    }
    let mut a: usize = 0;
    while a < fns[idx].inputs.len()
        invariant
            n == fns@.len(),
            all == fns@,
            init == expected_init@,
            t == type_ident@,
            idx < n,
            is_first_init(all, init, idx as int),
            all[idx as int].output matches Some(o) && is_const_ptr_to(o, t),
            a <= fns@[idx as int].inputs@.len(),
            forall|k: int| 0 <= k < a ==> typed_arg(#[trigger] fns@[idx as int].inputs@[k]) is Some,
        decreases fns@[idx as int].inputs@.len() - a,
    {
        match &fns[idx].inputs[a] {
            FnArg::Typed { pat_ident: Some(_), .. } => {},
            _ => {
                return Err(CustomFfiError::InitializerArgument);
            },
        }
        a = a + 1;
    }
    // Check the getters.
    let mut g: usize = 0;
    assert(all.take(0) =~= Seq::<Method>::empty());
    while g < n
        invariant
            n == fns@.len(),
            all == fns@,
            g <= n,
            getter_error(all.take(g as int), init, t) is None,
            init == expected_init@,
            t == type_ident@,
            idx < n,
            is_first_init(all, init, idx as int),
            all[idx as int].output matches Some(o) && is_const_ptr_to(o, t),
            init_args_ok(all[idx as int]),
        decreases n - g,
    {
        proof {
            assert(all.take(g + 1).drop_last() =~= all.take(g as int));
            assert(all.take(g + 1).last() == all[g as int]);
        }
        if !str_equal(fns[g].ident.as_str(), expected_init) {
            if !getter_args_check(&fns[g], type_ident) {
                proof { lemma_getter_error_prefix(all, init, t, g + 1); }
                return Err(CustomFfiError::GetterArgument);
            }
            if fns[g].output.is_none() {
                proof { lemma_getter_error_prefix(all, init, t, g + 1); }
                return Err(CustomFfiError::GetterReturn);
            }
        }
        g = g + 1;
    }
    assert(all.take(n as int) =~= all);
    proof {
        lemma_no_getter_error(all, init, t);
    }
    // Collect the initializer's arguments and the getters.
    let mut rest = fns;
    let mut init_args: Vec<(String, RustType)> = Vec::new();
    let mut getters: Vec<(String, RustType)> = Vec::new();
    let mut k: usize = 0;
    while rest.len() > 0
        invariant
            all.len() == n,
            idx < n,
            is_first_init(all, init, idx as int),
            init_args_ok(all[idx as int]),
            forall|j: int| 0 <= j < all.len() && (#[trigger] all[j]).ident@ != init ==> getter_args_ok(all[j], t)
                && all[j].output is Some,
            k + rest@.len() == n,
            rest@ == all.skip(k as int),
            pairs_view(getters@) == getters_spec(all.take(k as int), init),
            k > idx ==> pairs_view(init_args@) == init_data(all[idx as int]),
            k <= idx ==> init_args@.len() == 0,
            init == expected_init@,
            t == type_ident@,
        decreases rest@.len(),
    {
        let m = rest.remove(0);
        proof {
            assert(m == all[k as int]);
            assert(all.take(k + 1).drop_last() =~= all.take(k as int));
            assert(all.take(k + 1).last() == all[k as int]);
        }
        let is_init = str_equal(m.ident.as_str(), expected_init);
        if k == idx {
            let ghost args0 = m.inputs@;
            let mut args = m.inputs;
            let mut j: usize = 0;
            let la: usize = args.len();
            while args.len() > 0
                invariant
                    la == args0.len(),
                    j + args@.len() == la,
                    args@ == args0.skip(j as int),
                    forall|q: int| 0 <= q < la ==> typed_arg(#[trigger] args0[q]) is Some,
                    init_args@.len() == j,
                    forall|q: int| 0 <= q < j ==> (#[trigger] init_args@[q]).0@ == (typed_arg(args0[q])->0).0
                        && init_args@[q].1 == (typed_arg(args0[q])->0).1,
                decreases args@.len(),
            {
                let arg = args.remove(0);
                assert(arg == args0[j as int]);
                match arg {
                    FnArg::Typed { pat_ident: Some(name), ty } => {
                        init_args.push((name, ty));
                    },
                    _ => {
                        assert(typed_arg(args0[j as int]) is Some);
                        assert(false);
                    },
                }
                j = j + 1;
                assert(args@ =~= args0.skip(j as int));
            }
            assert(pairs_view(init_args@) =~= init_data(all[idx as int]));
        }
        if !is_init {
            match m.output {
                Some(o) => {
                    let ghost before = pairs_view(getters@);
                    getters.push((m.ident, o));
                    assert(pairs_view(getters@) =~= before.push((all[k as int].ident@, all[k as int].output->0)));
                },
                None => {
                    assert(false);
                },
            }
        }
        k = k + 1;
        assert(rest@ =~= all.skip(k as int));
    }
    assert(all.take(k as int) =~= all);
    Ok((init_args, getters))
}

/// The path of the file holding the custom FFI: `custom_attributes.path` below `crate_root`.
pub fn custom_ffi_path(crate_root: &str, custom_attributes: &CustomAttributes) -> (r: String)
    ensures
        r@ == crate_root@ + "/"@ + custom_attributes.path@,
{
    let mut r = String::from_str(crate_root);
    r.append("/");
    r.append(custom_attributes.path.as_str());
    r
}

/// A struct with a custom FFI implementation.
pub struct StructFFI {
    /// The name of the struct.
    pub type_ident: String,
    /// The name of the FFI module to generate.
    pub module_name: String,
    /// The paths the consumer imports.
    pub consumer_imports: Vec<Path>,
    /// The paths imported into the FFI module.
    pub ffi_mod_imports: Vec<Path>,
    /// The custom attributes set on the struct.
    pub custom_attributes: CustomAttributes,
    /// The name of the initializer.
    pub init_fn_name: String,
    /// The initializer's arguments, each with its type.
    pub init_args: Vec<(String, RustType)>,
    /// The getters, each with its return type.
    pub getters: Vec<(String, RustType)>,
    /// The name of the free function.
    pub free_fn_name: String,
    /// The name of the clone function.
    pub clone_fn_name: String,
    /// True when no memberwise initializer may be generated.
    pub forbid_memberwise_init: bool,
    /// The struct's documentation strings.
    pub doc_comments: Vec<String>,
}

/// The name of the initializer a custom FFI of the type `t` must define.
pub fn custom_init_fn_name(type_ident: &str) -> (r: String)
    ensures
        r@ == struct_init_fn_name_spec(type_ident@),
{
    let mut r = to_snake_case(type_ident);
    r.append("_init");
    r
}

/// The FFI module supporting the custom FFI of `s`.
pub open spec fn custom_module_spec(s: StructFFI) -> Seq<char> {
    let t = s.type_ident@;
    "#[allow(box_pointers, missing_docs)]\npub mod "@ + s.module_name@
        + " {\n    use ffi_common::core::{ffi_string, declare_opaque_type_ffi, datetime::*, paste, string::FFIArrayString};\n    use std::os::raw::c_char;\n    use std::{ffi::{CStr, CString}, mem::ManuallyDrop, ptr};\n    use super::*;\n    "@
        + imports_spec(s.ffi_mod_imports@) + "\n    #[no_mangle]\n    pub unsafe extern \"C\" fn "@ + s.free_fn_name@
        + "(data: *const "@ + t + ") {\n        drop(Box::from_raw(data as *mut "@ + t
        + "));\n    }\n\n    declare_opaque_type_ffi! { "@ + t + " }\n}\n"@
}

impl StructFFI {
    /// A struct with a custom FFI whose file gives the initializer arguments and getters in
    /// `custom_ffi` (as `parse_custom_ffi_type` reads them); the initializer, free and clone
    /// functions are named after the type.
    pub fn new(
        type_ident: String,
        module_name: String,
        custom_attributes: CustomAttributes,
        consumer_imports: Vec<Path>,
        ffi_mod_imports: Vec<Path>,
        forbid_memberwise_init: bool,
        doc_comments: Vec<String>,
        custom_ffi: (Vec<(String, RustType)>, Vec<(String, RustType)>),
    ) -> (r: Self)
        ensures
            r.type_ident == type_ident,
            r.module_name == module_name,
            r.custom_attributes == custom_attributes,
            r.consumer_imports == consumer_imports,
            r.ffi_mod_imports == ffi_mod_imports,
            r.forbid_memberwise_init == forbid_memberwise_init,
            r.doc_comments == doc_comments,
            r.init_args == custom_ffi.0,
            r.getters == custom_ffi.1,
            r.init_fn_name@ == struct_init_fn_name_spec(type_ident@),
            r.free_fn_name@ == struct_free_fn_name_spec(type_ident@),
            r.clone_fn_name@ == struct_clone_fn_name_spec(type_ident@),
    {
        let snake = to_snake_case(type_ident.as_str());
        let mut init_fn_name = copy_string(&snake);
        init_fn_name.append("_init");
        let mut free_fn_name = copy_string(&snake);
        free_fn_name.append("_free");
        let mut clone_fn_name = String::from_str("clone_");
        clone_fn_name.append(snake.as_str());
        let (init_args, getters) = custom_ffi;
        StructFFI {
            type_ident,
            module_name,
            consumer_imports,
            ffi_mod_imports,
            custom_attributes,
            init_fn_name,
            init_args,
            getters,
            free_fn_name,
            clone_fn_name,
            forbid_memberwise_init,
            doc_comments,
        }
    }

    /// The FFI module supporting the custom FFI, as Rust source text: the FFI imports, the free
    /// function, and the opaque type's declaration.
    pub fn token_stream(&self) -> (r: String)
        ensures
            r@ == custom_module_spec(*self),
    {
        let t = self.type_ident.as_str();
        let imports = imports_text(&self.ffi_mod_imports);
        let mut r = String::from_str("#[allow(box_pointers, missing_docs)]\npub mod ");
        r.append(self.module_name.as_str());
        r.append(" {\n    use ffi_common::core::{ffi_string, declare_opaque_type_ffi, datetime::*, paste, string::FFIArrayString};\n    use std::os::raw::c_char;\n    use std::{ffi::{CStr, CString}, mem::ManuallyDrop, ptr};\n    use super::*;\n    ");
        r.append(imports.as_str());
        r.append("\n    #[no_mangle]\n    pub unsafe extern \"C\" fn ");
        r.append(self.free_fn_name.as_str());
        r.append("(data: *const ");
        r.append(t);
        r.append(") {\n        drop(Box::from_raw(data as *mut ");
        r.append(t);
        r.append("));\n    }\n\n    declare_opaque_type_ffi! { ");
        r.append(t);
        r.append(" }\n}\n");
        r
    }
}

} // verus!
