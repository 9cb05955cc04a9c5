//! Representations of, and FFI code for, the two kinds of enums supported: `repr(C)` enums, which
//! are exposed directly by value, and complex enums (any enum that isn't `repr(C)`, generally one
//! whose variants have associated values), which are wrapped like structs.

use crate::alias_resolution::{names_view, AliasMap};
use crate::field_ffi::{
    assignment_spec, fields_for_variant, getter_fn_spec, initializer_argument_spec,
    parse_doc_comments, source_consistent, variant_fields_result, docs_of, FieldError, FieldFFI,
    Fields, fields_readable,
};
use crate::parsing::{path_text, path_text_spec, Attribute, Path};
use crate::text::{join, seq_join, snake_case, to_snake_case, views};
use vstd::prelude::*;

verus! {

/// A variant of an enum as written.
pub struct Variant {
    /// The variant's name.
    pub ident: String,
    /// The variant's fields.
    pub fields: Fields,
    /// The attributes on the variant.
    pub attrs: Vec<Attribute>,
}

/// Describes a variant of a complex enum.
pub struct VariantFFI {
    /// The variant's identifier.
    pub ident: String,
    /// The variant's fields.
    pub fields: Vec<FieldFFI>,
    /// Documentation comments on this variant.
    pub doc_comments: Vec<String>,
}

/// The name of the FFI function initializing the enum `t` with the variant `v`.
pub open spec fn variant_init_fn_name_spec(t: Seq<char>, v: Seq<char>) -> Seq<char> {
    snake_case(t) + "_"@ + snake_case(v) + "_rust_ffi_init"@
}

impl VariantFFI {
    /// The name of the FFI function initializing an enum with this variant. Each variant has a
    /// dedicated initializer, so that the values of the variant's fields are typed.
    pub fn init_fn_name(&self, type_ident: &str) -> (r: String)
        ensures
            r@ == variant_init_fn_name_spec(type_ident@, self.ident@),
    {
        let mut r = to_snake_case(type_ident);
        let v = to_snake_case(self.ident.as_str());
        r.append("_");
        r.append(v.as_str());
        r.append("_rust_ffi_init");
        r
    }
}

/// The components of a complex enum for generating an FFI.
pub struct EnumFFI {
    /// The identifier for the FFI module to be generated.
    pub module_name: String,
    /// The name of the enum.
    pub type_ident: String,
    /// The enum's variants.
    pub variants: Vec<VariantFFI>,
    /// Alias modules that are referenced by the types of this enum's variants' fields.
    pub alias_modules: Vec<String>,
    /// Paths that need to be imported into the consumer module.
    pub consumer_imports: Vec<Path>,
    /// Paths that need to be imported into the FFI module.
    pub ffi_mod_imports: Vec<Path>,
    /// Documentation comments on this enum.
    pub doc_comments: Vec<String>,
}

/// The name of the free function of the enum `t`.
pub open spec fn enum_free_fn_name_spec(t: Seq<char>) -> Seq<char> {
    "rust_ffi_free_"@ + snake_case(t)
}

/// The name of the initializer of the enum `t`.
pub open spec fn enum_init_fn_name_spec(t: Seq<char>) -> Seq<char> {
    snake_case(t) + "_rust_ffi_init"@
}

/// The name of the function returning the variant of an instance of the enum `t`.
pub open spec fn get_variant_fn_name_spec(t: Seq<char>) -> Seq<char> {
    "get_"@ + snake_case(t) + "_variant"@
}

/// The name of the `repr(C)` enum that names the variants of the enum `t` across the FFI.
pub open spec fn reprc_enum_spec(t: Seq<char>) -> Seq<char> {
    t + "Type"@
}

/// The name of the clone function of the enum `t`.
pub open spec fn enum_clone_fn_name_spec(t: Seq<char>) -> Seq<char> {
    "rust_ffi_clone_"@ + snake_case(t)
}

/// The other variants of the variant at `i`: every other variant's name and number of fields.
pub open spec fn others_of(variants: Seq<Variant>, i: int) -> Seq<(Seq<char>, usize)> {
    variants.remove(i).map_values(|v: Variant| (v.ident@, fields_len(v.fields)))
}

/// The number of fields.
pub open spec fn fields_len(f: Fields) -> usize {
    match f {
        Fields::Named(fs) => fs@.len() as usize,
        Fields::Unnamed(fs) => fs@.len() as usize,
        Fields::Unit => 0,
    }
}

/// The number of fields.
fn fields_count(f: &Fields) -> (r: usize)
    ensures
        r == fields_len(*f),
{
    match f {
        Fields::Named(fs) => fs.len(),
        Fields::Unnamed(fs) => fs.len(),
        Fields::Unit => 0,
    }
}

/// True when the fields of every variant can be read.
pub open spec fn variants_readable(variants: Seq<Variant>, modules: Seq<Seq<char>>, map: AliasMap) -> bool {
    forall|i: int| 0 <= i < variants.len() ==> match (#[trigger] variants[i]).fields {
        Fields::Named(fs) => fields_readable(fs@, modules, map),
        Fields::Unnamed(fs) => fields_readable(fs@, modules, map),
        Fields::Unit => true,
    }
}

/// True when `built` is the variant built from `v`, whose enum's other variants are `others`.
pub open spec fn variant_built(
    built: VariantFFI,
    v: Variant,
    type_ident: String,
    others: Seq<(Seq<char>, usize)>,
    alias_modules: Vec<String>,
    map: AliasMap,
) -> bool {
    &&& built.ident@ == v.ident@
    &&& views(built.doc_comments@) == docs_of(v.attrs@)
    &&& match v.fields {
        Fields::Unit => built.fields@.len() == 0,
        Fields::Named(fs) => exists|o: Seq<(String, usize)>|
            crate::field_ffi::others_view(o) == others && variant_fields_result(
                Ok::<Vec<FieldFFI>, FieldError>(built.fields),
                true,
                fs@,
                type_ident,
                v.ident,
                o,
                alias_modules,
                map,
            ),
        Fields::Unnamed(fs) => exists|o: Seq<(String, usize)>|
            crate::field_ffi::others_view(o) == others && variant_fields_result(
                Ok::<Vec<FieldFFI>, FieldError>(built.fields),
                false,
                fs@,
                type_ident,
                v.ident,
                o,
                alias_modules,
                map,
            ),
    }
}

/// The name and number of fields of a variant.
pub open spec fn variant_summary(v: Variant) -> (Seq<char>, usize) {
    (v.ident@, fields_len(v.fields))
}

/// The other variants of the variant at `i`.
fn other_variants_of(variants: &Vec<Variant>, i: usize) -> (r: Vec<(String, usize)>)
    requires
        i < variants@.len(),
    ensures
        crate::field_ffi::others_view(r@) == others_of(variants@, i as int),
{
    let mut r: Vec<(String, usize)> = Vec::new();
    let mut j: usize = 0;
    while j < i
        invariant
            i < variants@.len(),
            j <= i,
            r@.len() == j,
            forall|k: int| 0 <= k < j ==> (#[trigger] r@[k]).0@ == variants@[k].ident@ && r@[k].1
                == fields_len(variants@[k].fields),
        decreases i - j,
    {
        r.push((String::from_str(variants[j].ident.as_str()), fields_count(&variants[j].fields)));
        j = j + 1;
    }
    let n = variants.len();
    j = i + 1;
    while j < n
        invariant
            i < variants@.len(),
            n == variants@.len(),
            i + 1 <= j <= variants@.len(),
            r@.len() == j - 1,
            forall|k: int| 0 <= k < i ==> (#[trigger] r@[k]).0@ == variants@[k].ident@ && r@[k].1
                == fields_len(variants@[k].fields),
            forall|k: int| i <= k < j - 1 ==> (#[trigger] r@[k]).0@ == variants@[k + 1].ident@ && r@[k].1
                == fields_len(variants@[k + 1].fields),
        decreases n - j,
    {
        r.push((String::from_str(variants[j].ident.as_str()), fields_count(&variants[j].fields)));
        j = j + 1;
    }
    assert(crate::field_ffi::others_view(r@) =~= others_of(variants@, i as int));
    r
}

/// True when the fields of a variant can be exposed: every named field has a name, and every
/// field has accepted attributes and a path type.
pub open spec fn variant_ok(v: Variant) -> bool {
    match v.fields {
        Fields::Unit => true,
        Fields::Named(fs) => crate::field_ffi::fields_named(fs@) && forall|j: int|
            0 <= j < fs@.len() ==> crate::field_ffi::field_ok(#[trigger] fs@[j]),
        Fields::Unnamed(fs) => forall|j: int|
            0 <= j < fs@.len() ==> crate::field_ffi::field_ok(#[trigger] fs@[j]),
    }
}

/// True when `e` is the rejection of the fields of `v`, which cannot be exposed: a named field
/// without a name first, then the first field that cannot be exposed.
pub open spec fn variant_error(v: Variant, e: FieldError) -> bool {
    match v.fields {
        Fields::Unit => false,
        Fields::Named(fs) => if crate::field_ffi::fields_named(fs@) {
            crate::field_ffi::first_field_error(fs@, e)
        } else {
            e == FieldError::MissingIdentifier
        },
        Fields::Unnamed(fs) => crate::field_ffi::first_field_error(fs@, e),
    }
}

/// True when no two variants share a name.
pub open spec fn idents_distinct(variants: Seq<Variant>) -> bool {
    forall|a: int, b: int| 0 <= a < b < variants.len() ==> (#[trigger] variants[a]).ident@ != (#[trigger] variants[b]).ident@
}

/// A field found in the variant at `m`, whose other variants are those of `all` but that one,
/// is consistent with where it is found when the variants' names are distinct.
proof fn lemma_field_source_consistent(f: FieldFFI, all: Seq<Variant>, m: int, n: usize, o: Seq<(String, usize)>)
    requires
        0 <= m < all.len(),
        idents_distinct(all),
        crate::field_ffi::others_view(o) == others_of(all, m),
        crate::field_ffi::source_view(f.field_source) == crate::field_ffi::SourceView::Enum(
            all[m].ident@,
            n,
            crate::field_ffi::others_view(o),
        ),
    ensures
        source_consistent(f.field_source),
{
    match f.field_source {
        crate::field_ffi::FieldSource::Enum { variant_ident, other_variants, .. } => {
            let ov = crate::field_ffi::others_view(other_variants@);
            assert(ov.len() == other_variants@.len());
            assert(others_of(all, m).len() == all.len() - 1);
            assert(variant_ident@ == all[m].ident@);
            assert forall|k: int| 0 <= k < other_variants@.len() implies (#[trigger] other_variants@[k]).0@
                != variant_ident@ by {
                assert(ov[k] == others_of(all, m)[k]);
                assert(ov[k].0 == other_variants@[k].0@);
                if k < m {
                    assert(all.remove(m)[k] == all[k]);
                    assert(all[k].ident@ != all[m].ident@);
                } else {
                    assert(all.remove(m)[k] == all[k + 1]);
                    assert(all[m].ident@ != all[k + 1].ident@);
                }
            }
        },
        crate::field_ffi::FieldSource::Struct => {},
    }
}

/// The fields of a variant built from the variant at `m` of `all` are consistent with where they
/// are found when the variants' names are distinct.
proof fn lemma_built_variant_consistent(
    built: VariantFFI,
    all: Seq<Variant>,
    m: int,
    type_ident: String,
    alias_modules: Vec<String>,
    map: AliasMap,
)
    requires
        0 <= m < all.len(),
        idents_distinct(all),
        variant_built(built, all[m], type_ident, others_of(all, m), alias_modules, map),
    ensures
        forall|j: int| 0 <= j < built.fields@.len() ==> source_consistent((#[trigger] built.fields@[j]).field_source),
{
    match all[m].fields {
        Fields::Unit => {},
        Fields::Named(fs) => {
            let o = choose|o: Seq<(String, usize)>|
                crate::field_ffi::others_view(o) == others_of(all, m) && variant_fields_result(
                    Ok::<Vec<FieldFFI>, FieldError>(built.fields),
                    true,
                    fs@,
                    type_ident,
                    all[m].ident,
                    o,
                    alias_modules,
                    map,
                );
            assert forall|j: int| 0 <= j < built.fields@.len() implies source_consistent((#[trigger] built.fields@[j]).field_source) by {
                lemma_field_source_consistent(built.fields@[j], all, m, fs@.len() as usize, o);
            }
        },
        Fields::Unnamed(fs) => {
            let o = choose|o: Seq<(String, usize)>|
                crate::field_ffi::others_view(o) == others_of(all, m) && variant_fields_result(
                    Ok::<Vec<FieldFFI>, FieldError>(built.fields),
                    false,
                    fs@,
                    type_ident,
                    all[m].ident,
                    o,
                    alias_modules,
                    map,
                );
            assert forall|j: int| 0 <= j < built.fields@.len() implies source_consistent((#[trigger] built.fields@[j]).field_source) by {
                lemma_field_source_consistent(built.fields@[j], all, m, fs@.len() as usize, o);
            }
        },
    }
}

impl EnumFFI {
    /// Creates an `EnumFFI` from the derive macro's inputs: each variant is built with its
    /// fields, each field knowing the enum's other variants. A variant whose fields cannot be
    /// exposed is rejected.
    pub fn new(
        module_name: String,
        type_ident: String,
        derive: Vec<Variant>,
        alias_modules: Vec<String>,
        consumer_imports: Vec<Path>,
        ffi_mod_imports: Vec<Path>,
        doc_comments: Vec<String>,
        map: &AliasMap,
    ) -> (r: Result<EnumFFI, FieldError>)
        requires
            variants_readable(derive@, names_view(alias_modules@), *map),
        ensures
            r is Ok <==> forall|i: int| 0 <= i < derive@.len() ==> variant_ok(#[trigger] derive@[i]),
            r matches Err(e) ==> exists|i: int| {
                &&& 0 <= i < derive@.len()
                &&& (forall|m: int| 0 <= m < i ==> variant_ok(#[trigger] derive@[m]))
                &&& !variant_ok(#[trigger] derive@[i])
                &&& variant_error(derive@[i], e)
            },
            r matches Ok(e) ==> {
                &&& e.module_name == module_name
                &&& e.type_ident == type_ident
                &&& e.alias_modules == alias_modules
                &&& e.consumer_imports == consumer_imports
                &&& e.ffi_mod_imports == ffi_mod_imports
                &&& e.doc_comments == doc_comments
                &&& e.variants@.len() == derive@.len()
                &&& (idents_distinct(derive@) ==> variants_consistent(e.variants@))
                &&& forall|i: int| 0 <= i < derive@.len() ==> variant_built(
                    #[trigger] e.variants@[i],
                    derive@[i],
                    type_ident,
                    others_of(derive@, i),
                    alias_modules,
                    *map,
                )
            },
    {
        let ghost all = derive@;
        let n = derive.len();
        let mut others: Vec<Vec<(String, usize)>> = Vec::new();
        let mut i: usize = 0;
        while i < n
            invariant
                n == derive@.len(),
                all == derive@,
                i <= n,
                others@.len() == i,
                forall|k: int| 0 <= k < i ==> crate::field_ffi::others_view((#[trigger] others@[k])@) == others_of(all, k),
            decreases n - i,
        {
            others.push(other_variants_of(&derive, i));
            i = i + 1;
        }
        let mut rest = derive;
        let mut variants: Vec<VariantFFI> = Vec::new();
        let mut k: usize = 0;
        while rest.len() > 0
            invariant
                all.len() == n,
                all == derive@,
                k + rest@.len() == n,
                rest@ == all.skip(k as int),
                others@.len() == n,
                forall|m: int| 0 <= m < n ==> crate::field_ffi::others_view((#[trigger] others@[m])@) == others_of(all, m),
                variants_readable(all, names_view(alias_modules@), *map),
                variants@.len() == k,
                forall|m: int| 0 <= m < k ==> variant_ok(#[trigger] all[m]),
                forall|m: int| 0 <= m < k ==> variant_built(
                    #[trigger] variants@[m],
                    all[m],
                    type_ident,
                    others_of(all, m),
                    alias_modules,
                    *map,
                ),
            decreases rest@.len(),
        {
            let v = rest.remove(0);
            assert(v == all[k as int]);
            let docs = parse_doc_comments(&v.attrs);
            let o = copy_others_list(&others[k]);
            let ghost o_view = o@;
            let ghost fields0 = v.fields;
            match fields_for_variant(&type_ident, &alias_modules, &v.ident, v.fields, o, map) {
                Ok(fields) => {
                    let built = VariantFFI { ident: v.ident, fields, doc_comments: docs };
                    proof {
                        match fields0 {
                            Fields::Named(fs) => {
                                assert(crate::field_ffi::others_view(o_view) == others_of(all, k as int));
                            },
                            Fields::Unnamed(fs) => {
                                assert(crate::field_ffi::others_view(o_view) == others_of(all, k as int));
                            },
                            Fields::Unit => {},
                        }
                    }
                    variants.push(built);
                },
                Err(e) => {
                    assert(!variant_ok(all[k as int]));
                    return Err(e);
                },
            }
            k = k + 1;
            assert(rest@ =~= all.skip(k as int));
        }
        proof {
            if idents_distinct(all) {
                assert forall|m: int, j: int|
                    0 <= m < variants@.len() && 0 <= j < variants@[m].fields@.len() implies source_consistent(
                    (#[trigger] variants@[m].fields@[j]).field_source,
                ) by {
                    lemma_built_variant_consistent(variants@[m], all, m, type_ident, alias_modules, *map);
                }
            }
        }
        Ok(
            EnumFFI {
                module_name,
                type_ident,
                variants,
                alias_modules,
                consumer_imports,
                ffi_mod_imports,
                doc_comments,
            },
        )
    }
}

/// A copy of a list of other variants.
fn copy_others_list(o: &Vec<(String, usize)>) -> (r: Vec<(String, usize)>)
    ensures
        crate::field_ffi::others_view(r@) == crate::field_ffi::others_view(o@),
{
    let mut r: Vec<(String, usize)> = Vec::new();
    let mut i: usize = 0;
    while i < o.len()
        invariant
            i <= o.len(),
            r@.len() == i,
            forall|j: int| 0 <= j < i ==> (#[trigger] r@[j]).0@ == o@[j].0@ && r@[j].1 == o@[j].1,
        decreases o.len() - i,
    {
        r.push((String::from_str(o[i].0.as_str()), o[i].1));
        i = i + 1;
    }
    assert(crate::field_ffi::others_view(r@) =~= crate::field_ffi::others_view(o@));
    r
}

/// The `use` items for the paths `paths`, each followed by a new line and indentation.
pub open spec fn imports_spec(paths: Seq<Path>) -> Seq<char>
    decreases paths.len(),
{
    if paths.len() == 0 {
        Seq::empty()
    } else {
        imports_spec(paths.drop_last()) + "use "@ + path_text_spec(paths.last()) + ";\n    "@
    }
}

/// The `use` items for the paths `paths`.
pub fn imports_text(paths: &Vec<Path>) -> (r: String)
    ensures
        r@ == imports_spec(paths@),
{
    let mut r = String::new();
    let mut i: usize = 0;
    while i < paths.len()
        invariant
            i <= paths.len(),
            r@ == imports_spec(paths@.take(i as int)),
        decreases paths.len() - i,
    {
        proof {
            assert(paths@.take(i + 1).drop_last() =~= paths@.take(i as int));
        }
        let p = path_text(&paths[i]);
        r.append("use ");
        r.append(p.as_str());
        r.append(";\n    ");
        i = i + 1;
    }
    assert(paths@.take(paths.len() as int) =~= paths@);
    r
}

/// The variants of the `repr(C)` enum that names the variants of `vs`.
pub open spec fn variant_list_spec(vs: Seq<VariantFFI>) -> Seq<char>
    decreases vs.len(),
{
    if vs.len() == 0 {
        Seq::empty()
    } else {
        variant_list_spec(vs.drop_last()) + vs.last().ident@ + ",\n        "@
    }
}

/// The arms matching each variant of the enum `t` to its variant in the `repr(C)` enum `e`.
pub open spec fn variant_match_spec(t: Seq<char>, e: Seq<char>, vs: Seq<VariantFFI>) -> Seq<char>
    decreases vs.len(),
{
    if vs.len() == 0 {
        Seq::empty()
    } else {
        let v = vs.last();
        let case = if v.fields@.len() == 0 {
            v.ident@
        } else {
            v.ident@ + "(..)"@
        };
        variant_match_spec(t, e, vs.drop_last()) + t + "::"@ + case + " => "@ + e + "::"@ + v.ident@
            + ",\n            "@
    }
}

/// The getters of the fields `fs`, one after another.
pub open spec fn field_getters_spec(fs: Seq<FieldFFI>) -> Seq<char>
    decreases fs.len(),
{
    if fs.len() == 0 {
        Seq::empty()
    } else {
        field_getters_spec(fs.drop_last()) + getter_fn_spec(fs.last())
    }
}

/// The getters of the fields of all the variants `vs`.
pub open spec fn variant_getters_spec(vs: Seq<VariantFFI>) -> Seq<char>
    decreases vs.len(),
{
    if vs.len() == 0 {
        Seq::empty()
    } else {
        variant_getters_spec(vs.drop_last()) + field_getters_spec(vs.last().fields@)
    }
}

/// The initializer arguments of the fields `fs`.
pub open spec fn init_args_spec(fs: Seq<FieldFFI>) -> Seq<Seq<char>> {
    fs.map_values(|f: FieldFFI| initializer_argument_spec(f))
}

/// The assignments of the fields `fs`.
pub open spec fn assignments_spec(fs: Seq<FieldFFI>) -> Seq<Seq<char>> {
    fs.map_values(|f: FieldFFI| assignment_spec(f))
}

/// The initializer of the enum `t` with the variant `v`.
pub open spec fn variant_initializer_spec(t: Seq<char>, v: VariantFFI) -> Seq<char> {
    let assignment = if v.fields@.len() == 0 {
        Seq::empty()
    } else {
        "("@ + seq_join(assignments_spec(v.fields@), ", "@) + ")"@
    };
    "/// # Safety\n    /// `data` must not be a null pointer, and it must point to the appropriate type for `variant`. Otherwise, this will panic.\n    ///\n    #[no_mangle]\n    pub unsafe extern \"C\" fn "@
        + variant_init_fn_name_spec(t, v.ident@) + "("@ + seq_join(init_args_spec(v.fields@), ", "@)
        + ") -> *const "@ + t + " {\n        Box::into_raw(Box::new("@ + t + "::"@ + v.ident@ + assignment
        + "))\n    }\n\n    "@
}

/// The initializers of the enum `t` for all the variants `vs`.
pub open spec fn initializers_spec(t: Seq<char>, vs: Seq<VariantFFI>) -> Seq<char>
    decreases vs.len(),
{
    if vs.len() == 0 {
        Seq::empty()
    } else {
        initializers_spec(t, vs.drop_last()) + variant_initializer_spec(t, vs.last())
    }
}

/// The FFI module of the complex enum `e`.
pub open spec fn complex_module_spec(e: EnumFFI) -> Seq<char> {
    let t = e.type_ident@;
    let reprc = reprc_enum_spec(t);
    "#[allow(box_pointers, missing_docs)]\npub mod "@ + e.module_name@
        + " {\n    use ffi_common::core::{error, paste, declare_opaque_type_ffi};\n    use std::any::Any;\n    "@
        + imports_spec(e.ffi_mod_imports@)
        + "use super::*;\n\n    #[derive(Debug, Clone, Copy, PartialEq, ffi_common::derive::FFI)]\n    #[repr(C)]\n    pub enum "@
        + reprc + " {\n        "@ + variant_list_spec(e.variants@)
        + "\n    }\n\n    #[no_mangle]\n    pub unsafe extern \"C\" fn "@ + get_variant_fn_name_spec(t)
        + "(data: *const "@ + t + ") -> "@ + reprc + " {\n        match &*data {\n            "@
        + variant_match_spec(t, reprc, e.variants@) + "\n        }\n    }\n\n    "@
        + variant_getters_spec(e.variants@) + "\n    "@ + initializers_spec(t, e.variants@)
        + "#[no_mangle]\n    pub unsafe extern \"C\" fn "@ + enum_clone_fn_name_spec(t) + "(ptr: *const "@ + t
        + ") -> *const "@ + t
        + " {\n        Box::into_raw(Box::new((&*ptr).clone()))\n    }\n\n    /// # Safety\n    /// `data` must not be a null pointer.\n    ///\n    #[no_mangle]\n    pub unsafe extern \"C\" fn "@
        + enum_free_fn_name_spec(t) + "(data: *const "@ + t + ") {\n        drop(Box::from_raw(data as *mut "@ + t
        + "));\n    }\n\n    declare_opaque_type_ffi! { "@ + t + " }\n}\n"@
}

/// True when every field of every variant of `vs` is consistent with its source.
pub open spec fn variants_consistent(vs: Seq<VariantFFI>) -> bool {
    forall|i: int, j: int|
        0 <= i < vs.len() && 0 <= j < vs[i].fields@.len() ==> source_consistent(
            (#[trigger] vs[i].fields@[j]).field_source,
        )
}

/// The getters of the fields `fs`.
fn field_getters(fs: &Vec<FieldFFI>) -> (r: String)
    requires
        forall|j: int| 0 <= j < fs@.len() ==> source_consistent((#[trigger] fs@[j]).field_source),
    ensures
        r@ == field_getters_spec(fs@),
{
    let mut r = String::new();
    let mut i: usize = 0;
    while i < fs.len()
        invariant
            i <= fs.len(),
            forall|j: int| 0 <= j < fs@.len() ==> source_consistent((#[trigger] fs@[j]).field_source),
            r@ == field_getters_spec(fs@.take(i as int)),
        decreases fs.len() - i,
    {
        proof {
            assert(fs@.take(i + 1).drop_last() =~= fs@.take(i as int));
        }
        let g = fs[i].getter_fn();
        r.append(g.as_str());
        i = i + 1;
    }
    assert(fs@.take(fs.len() as int) =~= fs@);
    r
}

/// The initializer arguments of the fields `fs`.
fn init_args(fs: &Vec<FieldFFI>) -> (r: Vec<String>)
    ensures
        views(r@) == init_args_spec(fs@),
{
    let mut r: Vec<String> = Vec::new();
    let mut i: usize = 0;
    while i < fs.len()
        invariant
            i <= fs.len(),
            r@.len() == i,
            forall|j: int| 0 <= j < i ==> (#[trigger] r@[j])@ == initializer_argument_spec(fs@[j]),
        decreases fs.len() - i,
    {
        r.push(fs[i].ffi_initializer_argument());
        i = i + 1;
    }
    assert(views(r@) =~= init_args_spec(fs@));
    r
}

/// The assignments of the fields `fs`.
fn assignments(fs: &Vec<FieldFFI>) -> (r: Vec<String>)
    ensures
        views(r@) == assignments_spec(fs@),
{
    let mut r: Vec<String> = Vec::new();
    let mut i: usize = 0;
    while i < fs.len()
        invariant
            i <= fs.len(),
            r@.len() == i,
            forall|j: int| 0 <= j < i ==> (#[trigger] r@[j])@ == assignment_spec(fs@[j]),
        decreases fs.len() - i,
    {
        r.push(fs[i].assignment_expression());
        i = i + 1;
    }
    assert(views(r@) =~= assignments_spec(fs@));
    r
}

/// The initializer of the enum `t` with the variant `v`.
fn variant_initializer(t: &str, v: &VariantFFI) -> (r: String)
    ensures
        r@ == variant_initializer_spec(t@, *v),
{
    let init_name = v.init_fn_name(t);
    let args = init_args(&v.fields);
    let args_text = join(&args, ", ");
    let mut r = String::from_str("/// # Safety\n    /// `data` must not be a null pointer, and it must point to the appropriate type for `variant`. Otherwise, this will panic.\n    ///\n    #[no_mangle]\n    pub unsafe extern \"C\" fn ");
    r.append(init_name.as_str());
    r.append("(");
    r.append(args_text.as_str());
    r.append(") -> *const ");
    r.append(t);
    r.append(" {\n        Box::into_raw(Box::new(");
    r.append(t);
    r.append("::");
    r.append(v.ident.as_str());
    if v.fields.len() != 0 {
        let assigns = assignments(&v.fields);
        let assigns_text = join(&assigns, ", ");
        r.append("(");
        r.append(assigns_text.as_str());
        r.append(")");
    }
    r.append("))\n    }\n\n    ");
    r
}

impl EnumFFI {
    /// The name of the Rust type's free function.
    pub fn free_fn_name(&self) -> (r: String)
        ensures
            r@ == enum_free_fn_name_spec(self.type_ident@),
    {
        let mut r = String::from_str("rust_ffi_free_");
        let s = to_snake_case(self.type_ident.as_str());
        r.append(s.as_str());
        r
    }

    /// The name of the Rust type's initializer function.
    pub fn init_fn_name(&self) -> (r: String)
        ensures
            r@ == enum_init_fn_name_spec(self.type_ident@),
    {
        let mut r = to_snake_case(self.type_ident.as_str());
        r.append("_rust_ffi_init");
        r
    }

    /// The name of the function returning the variant that a pointer to an instance of this enum
    /// represents.
    pub fn get_variant_fn_name(&self) -> (r: String)
        ensures
            r@ == get_variant_fn_name_spec(self.type_ident@),
    {
        let mut r = String::from_str("get_");
        let s = to_snake_case(self.type_ident.as_str());
        r.append(s.as_str());
        r.append("_variant");
        r
    }

    /// The name of the `repr(C)` enum for this type, which communicates the variants of this type
    /// across the FFI boundary.
    pub fn reprc_enum(&self) -> (r: String)
        ensures
            r@ == reprc_enum_spec(self.type_ident@),
    {
        let mut r = String::from_str(self.type_ident.as_str());
        r.append("Type");
        r
    }

    /// The name of the clone function for this enum.
    pub fn clone_fn_name(&self) -> (r: String)
        ensures
            r@ == enum_clone_fn_name_spec(self.type_ident@),
    {
        let mut r = String::from_str("rust_ffi_clone_");
        let s = to_snake_case(self.type_ident.as_str());
        r.append(s.as_str());
        r
    }

    /// The FFI module for this enum, as Rust source text: the `repr(C)` enum of its variants, a
    /// function returning the variant of an instance, the getters of the variants' fields, an
    /// initializer for each variant, and clone and free functions.
    #[verifier::rlimit(40)]
    pub fn token_stream(&self) -> (r: String)
        requires
            variants_consistent(self.variants@),
        ensures
            r@ == complex_module_spec(*self),
    {
        let t = self.type_ident.as_str();
        let reprc = self.reprc_enum();
        let vs = &self.variants;
        let mut variant_list = String::new();
        let mut match_body = String::new();
        let mut getters = String::new();
        let mut initializers = String::new();
        let mut i: usize = 0;
        while i < vs.len()
            invariant
                i <= vs.len(),
                variants_consistent(vs@),
                reprc@ == reprc_enum_spec(t@),
                variant_list@ == variant_list_spec(vs@.take(i as int)),
                match_body@ == variant_match_spec(t@, reprc@, vs@.take(i as int)),
                getters@ == variant_getters_spec(vs@.take(i as int)),
                initializers@ == initializers_spec(t@, vs@.take(i as int)),
            decreases vs.len() - i,
        {
            proof {
                assert(vs@.take(i + 1).drop_last() =~= vs@.take(i as int));
            }
            let v = &vs[i];
            variant_list.append(v.ident.as_str());
            variant_list.append(",\n        ");
            match_body.append(t);
            match_body.append("::");
            match_body.append(v.ident.as_str());
            if v.fields.len() != 0 {
                match_body.append("(..)");
            }
            match_body.append(" => ");
            match_body.append(reprc.as_str());
            match_body.append("::");
            match_body.append(v.ident.as_str());
            match_body.append(",\n            ");
            proof {
                assert forall|j: int| 0 <= j < v.fields@.len() implies source_consistent(
                    (#[trigger] v.fields@[j]).field_source,
                ) by {
                    assert(source_consistent(vs@[i as int].fields@[j].field_source));
                }
            }
            let g = field_getters(&v.fields);
            getters.append(g.as_str());
            let init = variant_initializer(t, v);
            initializers.append(init.as_str());
            i = i + 1;
        }
        proof {
            assert(vs@.take(vs.len() as int) =~= vs@);
        }
        let imports = imports_text(&self.ffi_mod_imports);
        let get_variant = self.get_variant_fn_name();
        let clone_name = self.clone_fn_name();
        let free_name = self.free_fn_name();
        let mut r = String::from_str("#[allow(box_pointers, missing_docs)]\npub mod ");
        r.append(self.module_name.as_str());
        r.append(" {\n    use ffi_common::core::{error, paste, declare_opaque_type_ffi};\n    use std::any::Any;\n    ");
        r.append(imports.as_str());
        r.append("use super::*;\n\n    #[derive(Debug, Clone, Copy, PartialEq, ffi_common::derive::FFI)]\n    #[repr(C)]\n    pub enum ");
        r.append(reprc.as_str());
        r.append(" {\n        ");
        r.append(variant_list.as_str());
        r.append("\n    }\n\n    #[no_mangle]\n    pub unsafe extern \"C\" fn ");
        r.append(get_variant.as_str());
        r.append("(data: *const ");
        r.append(t);
        r.append(") -> ");
        r.append(reprc.as_str());
        r.append(" {\n        match &*data {\n            ");
        r.append(match_body.as_str());
        r.append("\n        }\n    }\n\n    ");
        r.append(getters.as_str());
        r.append("\n    ");
        r.append(initializers.as_str());
        r.append("#[no_mangle]\n    pub unsafe extern \"C\" fn ");
        r.append(clone_name.as_str());
        r.append("(ptr: *const ");
        r.append(t);
        r.append(") -> *const ");
        r.append(t);
        r.append(" {\n        Box::into_raw(Box::new((&*ptr).clone()))\n    }\n\n    /// # Safety\n    /// `data` must not be a null pointer.\n    ///\n    #[no_mangle]\n    pub unsafe extern \"C\" fn ");
        r.append(free_name.as_str());
        r.append("(data: *const ");
        r.append(t);
        r.append(") {\n        drop(Box::from_raw(data as *mut ");
        r.append(t);
        r.append("));\n    }\n\n    declare_opaque_type_ffi! { ");
        r.append(t);
        r.append(" }\n}\n");
        r
    }
}

} // verus!
