//! Describes a struct whose FFI is derived from its fields, and generates that FFI (as Rust source
//! text): an initializer taking every field, a getter for each field, and clone and free
//! functions.

pub mod custom;

use crate::alias_resolution::{copy_names, names_view, AliasMap};
use crate::enum_ffi::complex::{assignments_spec, field_getters_spec, init_args_spec};
use crate::field_ffi::{
    field_built, field_ok, fields_named, fields_readable, first_field_error, FieldError, FieldFFI,
    FieldIdent, FieldIdentView, FieldInputs, FieldSource, Fields, Field, SourceView,
};
use crate::parsing::{path_text, path_text_spec, Path};
use crate::text::{join, seq_join, snake_case, to_snake_case, views};
use crate::type_attributes::contains_name;
use vstd::prelude::*;

verus! {

/// Why the FFI of a struct cannot be derived.
#[derive(Debug, Clone, Copy, PartialEq, Eq, Structural)]
pub enum DeriveError {
    /// The struct is a tuple struct.
    UnnamedFields,
    /// The struct has no fields.
    UnitFields,
}

/// Why a struct cannot be exposed through a derived FFI.
#[derive(Debug, Clone, Copy, PartialEq, Eq, Structural)]
pub enum StructError {
    /// The struct's shape is not supported.
    Derive(DeriveError),
    /// A field cannot be exposed.
    Field(FieldError),
}

/// The data read from a struct and its FFI helper attributes.
pub struct StructInputs {
    /// The name of the FFI module to generate.
    pub module_name: String,
    /// The name of the struct.
    pub type_ident: String,
    /// The struct's fields.
    pub data: Fields,
    /// The alias modules in which the fields' types are looked up.
    pub alias_modules: Vec<String>,
    /// The paths the consumer imports.
    pub consumer_imports: Vec<Path>,
    /// True when no memberwise initializer may be generated.
    pub forbid_memberwise_init: bool,
    /// The struct's documentation strings.
    pub doc_comments: Vec<String>,
}

/// A struct whose FFI is derived from its fields.
pub struct StructFFI {
    /// The name of the FFI module.
    pub module_name: String,
    /// The name of the struct.
    pub name: String,
    /// The struct's fields.
    pub fields: Vec<FieldFFI>,
    /// The paths the consumer imports.
    pub consumer_imports: Vec<Path>,
    /// True when no memberwise initializer may be generated.
    pub forbid_memberwise_init: bool,
    /// The struct's documentation strings.
    pub doc_comments: Vec<String>,
}

/// The name of the initializer of the struct `t`.
pub open spec fn struct_init_fn_name_spec(t: Seq<char>) -> Seq<char> {
    snake_case(t) + "_init"@
}

/// The name of the free function of the struct `t`.
pub open spec fn struct_free_fn_name_spec(t: Seq<char>) -> Seq<char> {
    snake_case(t) + "_free"@
}

/// The name of the clone function of the struct `t`.
pub open spec fn struct_clone_fn_name_spec(t: Seq<char>) -> Seq<char> {
    "clone_"@ + snake_case(t)
}

/// The result of building the fields `fs` of the struct `t`: each built as a named field of the
/// struct, when every field has a name and can be exposed; otherwise the rejection.
pub open spec fn struct_fields_result(
    r: Result<Vec<FieldFFI>, FieldError>,
    fs: Seq<Field>,
    t: Seq<char>,
    alias_modules: Seq<Seq<char>>,
    map: AliasMap,
) -> bool {
    &&& (r is Ok <==> (fields_named(fs) && forall|j: int| 0 <= j < fs.len() ==> field_ok(#[trigger] fs[j])))
    &&& (r matches Ok(v) ==> {
        &&& v@.len() == fs.len()
        &&& forall|j: int| 0 <= j < fs.len() ==> field_built(
            #[trigger] v@[j],
            t,
            FieldIdentView::Named(fs[j].ident->0@),
            SourceView::Struct,
            fs[j].ty,
            fs[j].attrs@,
            alias_modules,
            map,
        )
    })
    &&& (r matches Err(FieldError::MissingIdentifier) <==> !fields_named(fs))
    &&& (r matches Err(e) ==> (e != FieldError::MissingIdentifier ==> first_field_error(fs, e)))
}

/// Builds the named fields `fields` of the struct `type_ident`.
fn build_struct_fields(
    fields: Vec<Field>,
    type_ident: &String,
    alias_modules: &Vec<String>,
    map: &AliasMap,
) -> (r: Result<Vec<FieldFFI>, FieldError>)
    requires
        fields_readable(fields@, names_view(alias_modules@), *map),
    ensures
        struct_fields_result(r, fields@, type_ident@, names_view(alias_modules@), *map),
{
    let ghost all = fields@;
    let n: usize = fields.len();
    let mut i: usize = 0;
    while i < n
        invariant
            n == fields@.len(),
            all == fields@,
            i <= n,
            forall|j: int| 0 <= j < i ==> (#[trigger] fields@[j]).ident is Some,
        decreases n - i,
    {
        if fields[i].ident.is_none() {
            assert(!fields_named(fields@));
            return Err(FieldError::MissingIdentifier);
        }
        i = i + 1;
    }
    let mut rest = fields;
    let mut out: Vec<FieldFFI> = Vec::new();
    let mut k: usize = 0;
    while rest.len() > 0
        invariant
            all.len() == n,
            k + rest@.len() == n,
            rest@ == all.skip(k as int),
            all == fields@,
            fields_named(all),
            fields_readable(all, names_view(alias_modules@), *map),
            out@.len() == k,
            forall|j: int| 0 <= j < k ==> field_ok(#[trigger] all[j]),
            forall|j: int| 0 <= j < k ==> field_built(
                #[trigger] out@[j],
                type_ident@,
                FieldIdentView::Named(all[j].ident->0@),
                SourceView::Struct,
                all[j].ty,
                all[j].attrs@,
                names_view(alias_modules@),
                *map,
            ),
        decreases rest@.len(),
    {
        let fl = rest.remove(0);
        assert(fl == all[k as int]);
        let field_ident = match fl.ident {
            Some(i) => FieldIdent::NamedField(i),
            None => FieldIdent::UnnamedField(k),
        };
        let inputs = FieldInputs {
            type_ident: String::from_str(type_ident.as_str()),
            field_ident,
            field_type: fl.ty,
            field_source: FieldSource::Struct,
            field_attrs: fl.attrs,
            alias_modules: copy_names(alias_modules),
        };
        match FieldFFI::from(inputs, map) {
            Ok(f) => {
                out.push(f);
            },
            Err(e) => {
                assert(!field_ok(all[k as int]));
                return Err(e);
            },
        }
        k = k + 1;
        assert(rest@ =~= all.skip(k as int));
    }
    Ok(out)
}

/// True when the fields of a struct can be read.
pub open spec fn struct_readable(inputs: StructInputs, map: AliasMap) -> bool {
    inputs.data matches Fields::Named(fs) ==> fields_readable(fs@, names_view(inputs.alias_modules@), map)
}

/// The texts of the `expose_as` paths of the fields `fs`, in order.
pub open spec fn expose_paths(fs: Seq<FieldFFI>) -> Seq<Seq<char>>
    decreases fs.len(),
{
    if fs.len() == 0 {
        Seq::empty()
    } else {
        match fs.last().attributes.expose_as {
            Some(p) => expose_paths(fs.drop_last()).push(path_text_spec(p)),
            None => expose_paths(fs.drop_last()),
        }
    }
}

/// The elements of `s` without repetitions, each where it first occurs.
pub open spec fn distinct_in_order(s: Seq<Seq<char>>) -> Seq<Seq<char>>
    decreases s.len(),
{
    if s.len() == 0 {
        Seq::empty()
    } else {
        let d = distinct_in_order(s.drop_last());
        if d.contains(s.last()) {
            d
        } else {
            d.push(s.last())
        }
    }
}

/// The `use` items for the paths with texts `paths`.
pub open spec fn use_items_spec(paths: Seq<Seq<char>>) -> Seq<char>
    decreases paths.len(),
{
    if paths.len() == 0 {
        Seq::empty()
    } else {
        use_items_spec(paths.drop_last()) + "use "@ + paths.last() + ";\n    "@
    }
}

/// The imports for the `expose_as` types of the fields of `s`, each path once.
pub open spec fn extra_imports_spec(s: StructFFI) -> Seq<char> {
    use_items_spec(distinct_in_order(expose_paths(s.fields@)))
}

/// The FFI module of the struct `s`.
pub open spec fn struct_module_spec(s: StructFFI) -> Seq<char> {
    let t = s.name@;
    "#[allow(box_pointers, missing_docs)]\npub mod "@ + s.module_name@
        + " {\n    use ffi_common::{*, datetime::*, ffi_string, string::FFIArrayString};\n    use std::os::raw::c_char;\n    use std::{ffi::{CStr, CString}, mem::ManuallyDrop, ptr};\n    use paste::paste;\n    "@
        + extra_imports_spec(s) + "use super::*;\n\n    #[no_mangle]\n    pub unsafe extern \"C\" fn "@
        + struct_free_fn_name_spec(t) + "(data: *const "@ + t + ") {\n        let _ = Box::from_raw(data as *mut "@ + t
        + ");\n    }\n\n    declare_opaque_type_ffi! { "@ + t + " }\n\n    #[no_mangle]\n    pub extern \"C\" fn "@
        + struct_init_fn_name_spec(t) + "(\n        "@ + seq_join(init_args_spec(s.fields@), " "@)
        + "\n    ) -> *const "@ + t + " {\n        let data = "@ + t + " {\n            "@
        + seq_join(assignments_spec(s.fields@), " "@)
        + "\n        };\n        Box::into_raw(Box::new(data))\n    }\n\n    #[no_mangle]\n    pub extern \"C\" fn "@
        + struct_clone_fn_name_spec(t) + "(ptr: *const "@ + t + ") -> *const "@ + t
        + " {\n        unsafe { Box::into_raw(Box::new((&*ptr).clone())) }\n    }\n\n    "@
        + field_getters_spec(s.fields@) + "\n}\n"@
}

/// True when every field of `fs` is consistent with where it is found.
pub open spec fn fields_consistent(fs: Seq<FieldFFI>) -> bool {
    forall|j: int| 0 <= j < fs.len() ==> crate::field_ffi::source_consistent((#[trigger] fs[j]).field_source)
}

impl StructFFI {
    /// Reads a struct with named fields: each field is exposed with its attributes and the type
    /// data of its type, aliases resolved through `map`. A tuple struct or a unit struct has no
    /// derived FFI, and a field that cannot be exposed is rejected.
    pub fn try_from(inputs: StructInputs, map: &AliasMap) -> (r: Result<StructFFI, StructError>)
        requires
            struct_readable(inputs, *map),
        ensures
            match inputs.data {
                Fields::Unnamed(_) => r == Err::<StructFFI, StructError>(StructError::Derive(DeriveError::UnnamedFields)),
                Fields::Unit => r == Err::<StructFFI, StructError>(StructError::Derive(DeriveError::UnitFields)),
                Fields::Named(fs) => match r {
                    Ok(s) => {
                        &&& s.module_name == inputs.module_name
                        &&& s.name@ == inputs.type_ident@
                        &&& s.consumer_imports == inputs.consumer_imports
                        &&& s.forbid_memberwise_init == inputs.forbid_memberwise_init
                        &&& s.doc_comments == inputs.doc_comments
                        &&& fields_consistent(s.fields@)
                        &&& struct_fields_result(Ok(s.fields), fs@, inputs.type_ident@, names_view(inputs.alias_modules@), *map)
                    },
                    Err(StructError::Field(e)) => struct_fields_result(Err(e), fs@, inputs.type_ident@, names_view(inputs.alias_modules@), *map),
                    Err(StructError::Derive(_)) => false,
                },
            },
    {
        let fs = match inputs.data {
            Fields::Named(fs) => fs,
            Fields::Unnamed(_) => {
                return Err(StructError::Derive(DeriveError::UnnamedFields));
            },
            Fields::Unit => {
                return Err(StructError::Derive(DeriveError::UnitFields));
            },
        };
        match build_struct_fields(fs, &inputs.type_ident, &inputs.alias_modules, map) {
            Ok(fields) => Ok(StructFFI {
                module_name: inputs.module_name,
                name: inputs.type_ident,
                fields,
                consumer_imports: inputs.consumer_imports,
                forbid_memberwise_init: inputs.forbid_memberwise_init,
                doc_comments: inputs.doc_comments,
            }),
            Err(e) => Err(StructError::Field(e)),
        }
    }

    /// The name of the initializer, as in `some_type_init`.
    pub fn init_fn_name(&self) -> (r: String)
        ensures
            r@ == struct_init_fn_name_spec(self.name@),
    {
        let mut r = to_snake_case(self.name.as_str());
        r.append("_init");
        r
    }

    /// The name of the free function, as in `some_type_free`.
    pub fn free_fn_name(&self) -> (r: String)
        ensures
            r@ == struct_free_fn_name_spec(self.name@),
    {
        let mut r = to_snake_case(self.name.as_str());
        r.append("_free");
        r
    }

    /// The name of the clone function, as in `clone_some_type`.
    pub fn clone_fn_name(&self) -> (r: String)
        ensures
            r@ == struct_clone_fn_name_spec(self.name@),
    {
        let mut r = String::from_str("clone_");
        let s = to_snake_case(self.name.as_str());
        r.append(s.as_str());
        r
    }

    /// The imports of the types that fields are exposed as, each path once, in the order in which
    /// the fields first name it.
    pub fn extra_imports(&self) -> (r: String)
        ensures
            r@ == extra_imports_spec(*self),
    {
        let fs = &self.fields;
        let mut seen: Vec<String> = Vec::new();
        let mut r = String::new();
        let mut i: usize = 0;
        while i < fs.len()
            invariant
                i <= fs.len(),
                views(seen@) == distinct_in_order(expose_paths(fs@.take(i as int))),
                r@ == use_items_spec(views(seen@)),
            decreases fs.len() - i,
        {
            proof {
                assert(fs@.take(i + 1).drop_last() =~= fs@.take(i as int));
                assert(fs@.take(i + 1).last() == fs@[i as int]);
            }
            match &fs[i].attributes.expose_as {
                Some(p) => {
                    let text = path_text(p);
                    proof {
                        let x = expose_paths(fs@.take(i as int));
                        assert(expose_paths(fs@.take(i + 1)) == x.push(text@));
                        assert(x.push(text@).drop_last() =~= x);
                    }
                    if !contains_name(&seen, text.as_str()) {
                        let ghost before = views(seen@);
                        r.append("use ");
                        r.append(text.as_str());
                        r.append(";\n    ");
                        seen.push(text);
                        proof {
                            assert(views(seen@) =~= before.push(text@));
                            assert(views(seen@).drop_last() =~= before);
                        }
                    }
                },
                None => {
                    assert(expose_paths(fs@.take(i + 1)) == expose_paths(fs@.take(i as int)));
                },
            }
            i = i + 1;
        }
        assert(fs@.take(fs.len() as int) =~= fs@);
        r
    }

    /// The FFI module for this struct, as Rust source text: the imports, the free function, the
    /// memberwise initializer, the clone function and a getter for each field.
    pub fn token_stream(&self) -> (r: String)
        requires
            fields_consistent(self.fields@),
        ensures
            r@ == struct_module_spec(*self),
    {
        let fs = &self.fields;
        let t = self.name.as_str();
        let mut args: Vec<String> = Vec::new();
        let mut assigns: Vec<String> = Vec::new();
        let mut getters = String::new();
        let mut i: usize = 0;
        while i < fs.len()
            invariant
                i <= fs.len(),
                fields_consistent(fs@),
                args@.len() == i,
                assigns@.len() == i,
                forall|j: int| 0 <= j < i ==> (#[trigger] args@[j])@ == crate::field_ffi::initializer_argument_spec(fs@[j]),
                forall|j: int| 0 <= j < i ==> (#[trigger] assigns@[j])@ == crate::field_ffi::assignment_spec(fs@[j]),
                getters@ == field_getters_spec(fs@.take(i as int)),
            decreases fs.len() - i,
        {
            proof {
                assert(fs@.take(i + 1).drop_last() =~= fs@.take(i as int));
            }
            args.push(fs[i].ffi_initializer_argument());
            assigns.push(fs[i].assignment_expression());
            assert(crate::field_ffi::source_consistent(fs@[i as int].field_source));
            let g = fs[i].getter_fn();
            getters.append(g.as_str());
            i = i + 1;
        }
        proof {
            assert(fs@.take(fs.len() as int) =~= fs@);
            assert(views(args@) =~= init_args_spec(fs@));
            assert(views(assigns@) =~= assignments_spec(fs@));
        }
        let args_text = join(&args, " ");
        let assigns_text = join(&assigns, " ");
        let extra = self.extra_imports();
        let free_name = self.free_fn_name();
        let init_name = self.init_fn_name();
        let clone_name = self.clone_fn_name();
        let mut r = String::from_str("#[allow(box_pointers, missing_docs)]\npub mod ");
        r.append(self.module_name.as_str());
        r.append(" {\n    use ffi_common::{*, datetime::*, ffi_string, string::FFIArrayString};\n    use std::os::raw::c_char;\n    use std::{ffi::{CStr, CString}, mem::ManuallyDrop, ptr};\n    use paste::paste;\n    ");
        r.append(extra.as_str());
        r.append("use super::*;\n\n    #[no_mangle]\n    pub unsafe extern \"C\" fn ");
        r.append(free_name.as_str());
        r.append("(data: *const ");
        r.append(t);
        r.append(") {\n        let _ = Box::from_raw(data as *mut ");
        r.append(t);
        r.append(");\n    }\n\n    declare_opaque_type_ffi! { ");
        r.append(t);
        r.append(" }\n\n    #[no_mangle]\n    pub extern \"C\" fn ");
        r.append(init_name.as_str());
        r.append("(\n        ");
        r.append(args_text.as_str());
        r.append("\n    ) -> *const ");
        r.append(t);
        r.append(" {\n        let data = ");
        r.append(t);
        r.append(" {\n            ");
        r.append(assigns_text.as_str());
        r.append("\n        };\n        Box::into_raw(Box::new(data))\n    }\n\n    #[no_mangle]\n    pub extern \"C\" fn ");
        r.append(clone_name.as_str());
        r.append("(ptr: *const ");
        r.append(t);
        r.append(") -> *const ");
        r.append(t);
        r.append(" {\n        unsafe { Box::into_raw(Box::new((&*ptr).clone())) }\n    }\n\n    ");
        r.append(getters.as_str());
        r.append("\n}\n");
        r
    }
}

} // verus!
