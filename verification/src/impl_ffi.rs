//! Describes an impl whose methods are exposed through the FFI, and generates the FFI module for
//! it (as Rust source text) and the consumer extension that calls it.

use crate::attributes::FnAttributes;
use crate::consumer::{docs_spec, consumer_docs_from, header_and_imports, header_and_imports_spec, importable};
use crate::consumer_fn::generate_consumer_spec;
use crate::enum_ffi::complex::{imports_spec, imports_text};
use crate::fn_ffi::{
    build_fn, fn_result, generate_ffi_spec, parameters_result, return_type_result, strippable,
    FnError, FnFFI, Method,
};
use crate::parsing::{Path, RustType};
use crate::text::{copy_string, seq_join, snake_case, to_snake_case, views};
use vstd::prelude::*;

verus! {

/// An item of an impl.
pub enum ImplItem {
    /// A method.
    Method(Method),
    /// An associated type, as in `type Alias = Type;`: a local alias.
    Type {
        /// The alias.
        ident: String,
        /// The type it stands for.
        ty: RustType,
    },
    /// Any other item.
    Other,
}

/// The data read from an impl and its FFI helper attributes.
pub struct ImplInputs {
    /// The items of the impl.
    pub items: Vec<ImplItem>,
    /// The paths to import into the FFI module.
    pub ffi_imports: Vec<Path>,
    /// The paths the consumer imports.
    pub consumer_imports: Vec<Path>,
    /// The types passed through the FFI without wrapping.
    pub raw_types: Vec<String>,
    /// The generic parameters, each with the concrete type to use in its place.
    pub generics: Vec<(Path, RustType)>,
    /// The description given in the attributes, naming the impl.
    pub description: Option<String>,
    /// The name of the trait implemented, if any.
    pub trait_ident: Option<String>,
    /// The name of the type the impl applies to.
    pub type_ident: String,
    /// The documentation strings of the impl.
    pub doc_comments: Vec<String>,
}

/// Why an impl cannot be exposed through the FFI.
#[derive(Debug, Clone, Copy, PartialEq, Eq, Structural)]
pub enum ImplError {
    /// The impl implements no trait and has no description to name it.
    MissingDescription,
    /// A method cannot be exposed.
    Fn(FnError),
}

/// An impl whose methods are exposed through the FFI.
pub struct ImplFFI {
    /// The name of the impl: its description, or the trait it implements.
    pub impl_description: String,
    /// The name of the type the impl applies to.
    pub type_ident: String,
    /// The exposed methods.
    pub fns: Vec<FnFFI>,
    /// The paths to import into the FFI module.
    pub ffi_imports: Vec<Path>,
    /// The paths the consumer imports.
    pub consumer_imports: Vec<Path>,
    /// The documentation strings of the impl.
    pub doc_comments: Vec<String>,
}

/// The type that the local alias `name` stands for among `items`: that of its last declaration.
pub open spec fn last_alias(items: Seq<ImplItem>, name: Seq<char>) -> Option<RustType>
    decreases items.len(),
{
    if items.len() == 0 {
        None
    } else {
        match items.last() {
            ImplItem::Type { ident, ty } => if ident@ == name {
                Some(ty)
            } else {
                last_alias(items.drop_last(), name)
            },
            _ => last_alias(items.drop_last(), name),
        }
    }
}

/// The methods among `items`, in order.
pub open spec fn methods_of(items: Seq<ImplItem>) -> Seq<Method>
    decreases items.len(),
{
    if items.len() == 0 {
        Seq::empty()
    } else {
        match items.last() {
            ImplItem::Method(m) => methods_of(items.drop_last()).push(m),
            _ => methods_of(items.drop_last()),
        }
    }
}

/// True when the return type of every method among `items` can have its local alias looked up.
pub open spec fn methods_strippable(items: Seq<ImplItem>) -> bool {
    forall|i: int| 0 <= i < items.len() ==> (#[trigger] items[i] matches ImplItem::Method(m) ==> (
    m.output matches Some(ty) ==> strippable(ty)))
}

/// The function attributes shared by the methods of an impl of `t`.
pub open spec fn impl_fn_attributes(inputs: ImplInputs) -> FnAttributes {
    FnAttributes { extend_type: inputs.type_ident, raw_types: inputs.raw_types, generics: inputs.generics }
}

/// True when the method `m` can be exposed.
pub open spec fn fn_ok(m: Method, a: FnAttributes, aliases: Seq<(String, RustType)>) -> bool {
    parameters_result(m.inputs@, a) is Ok && return_type_result(m.output, aliases, a) is Ok
}

/// True when `aliases` gives, for each name, the type of the last alias of that name in `items`.
pub open spec fn aliases_of(aliases: Seq<(String, RustType)>, items: Seq<ImplItem>) -> bool {
    forall|name: Seq<char>| #[trigger] crate::fn_ffi::local_lookup(aliases, name) == last_alias(items, name)
}

/// The name of an impl: its description, or the trait it implements.
pub open spec fn impl_description_spec(inputs: ImplInputs) -> Option<Seq<char>> {
    match inputs.description {
        Some(d) => Some(d@),
        None => match inputs.trait_ident {
            Some(t) => Some(t@),
            None => None,
        },
    }
}

/// Collects the local aliases and the methods of `items`.
fn split_items(items: Vec<ImplItem>) -> (r: (Vec<(String, RustType)>, Vec<Method>))
    ensures
        aliases_of(r.0@, items@),
        r.1@ == methods_of(items@),
{
    let ghost all = items@;
    let n: usize = items.len();
    let mut rest = items;
    let mut aliases: Vec<(String, RustType)> = Vec::new();
    let mut methods: Vec<Method> = Vec::new();
    let mut k: usize = 0;
    assert(all.take(0) =~= Seq::<ImplItem>::empty());
    while rest.len() > 0
        invariant
            all.len() == n,
            k + rest@.len() == n,
            rest@ == all.skip(k as int),
            aliases_of(aliases@, all.take(k as int)),
            methods@ == methods_of(all.take(k as int)),
        decreases rest@.len(),
    {
        let item = rest.remove(0);
        proof {
            assert(item == all[k as int]);
            assert(all.take(k + 1).drop_last() =~= all.take(k as int));
            assert(all.take(k + 1).last() == all[k as int]);
        }
        let ghost before = aliases@;
        match item {
            ImplItem::Method(m) => {
                methods.push(m);
            },
            ImplItem::Type { ident, ty } => {
                aliases.insert(0, (ident, ty));
                proof {
                    assert(aliases@.drop_first() =~= before);
                }
            },
            ImplItem::Other => {},
        }
        proof {
            assert forall|name: Seq<char>| #[trigger] crate::fn_ffi::local_lookup(aliases@, name)
                == last_alias(all.take(k + 1), name) by {
                assert(crate::fn_ffi::local_lookup(before, name) == last_alias(all.take(k as int), name));
            }
        }
        k = k + 1;
        assert(rest@ =~= all.skip(k as int));
    }
    assert(all.take(k as int) =~= all);
    (aliases, methods)
}

/// The result of exposing the methods `ms`: built when every method can be exposed, otherwise
/// the rejection of the first that cannot.
pub open spec fn fns_result(
    r: Result<Vec<FnFFI>, FnError>,
    ms: Seq<Method>,
    a: FnAttributes,
    aliases: Seq<(String, RustType)>,
) -> bool {
    match r {
        Ok(fs) => fs@.len() == ms.len() && forall|j: int| 0 <= j < ms.len() ==> fn_result(
            Ok::<FnFFI, FnError>(#[trigger] fs@[j]),
            ms[j],
            a,
            aliases,
        ),
        Err(e) => exists|j: int| {
            &&& 0 <= j < ms.len()
            &&& (forall|i: int| 0 <= i < j ==> fn_ok(#[trigger] ms[i], a, aliases))
            &&& fn_result(Err::<FnFFI, FnError>(e), #[trigger] ms[j], a, aliases)
        },
    }
}

/// Exposes the methods `ms`.
fn build_fns(ms: Vec<Method>, a: &FnAttributes, aliases: &Vec<(String, RustType)>) -> (r: Result<Vec<FnFFI>, FnError>)
    ensures
        fns_result(r, ms@, *a, aliases@),
{
    let ghost all = ms@;
    let n: usize = ms.len();
    let mut rest = ms;
    let mut fns: Vec<FnFFI> = Vec::new();
    let mut k: usize = 0;
    while rest.len() > 0
        invariant
            all.len() == n,
            k + rest@.len() == n,
            rest@ == all.skip(k as int),
            all == ms@,
            fns@.len() == k,
            forall|j: int| 0 <= j < k ==> fn_result(Ok::<FnFFI, FnError>(#[trigger] fns@[j]), all[j], *a, aliases@),
            forall|j: int| 0 <= j < k ==> fn_ok(#[trigger] all[j], *a, aliases@),
        decreases rest@.len(),
    {
        let m = rest.remove(0);
        assert(m == all[k as int]);
        match build_fn(m, a, aliases) {
            Ok(f) => {
                fns.push(f);
            },
            Err(e) => {
                assert(fn_result(Err::<FnFFI, FnError>(e), all[k as int], *a, aliases@));
                return Err(e);
            },
        }
        k = k + 1;
        assert(rest@ =~= all.skip(k as int));
    }
    Ok(fns)
}

/// The name of the module for the impl named `d` of the type `t`.
pub open spec fn impl_module_name_spec(d: Seq<char>, t: Seq<char>) -> Seq<char> {
    snake_case(d) + "_"@ + snake_case(t) + "_ffi"@
}

/// The FFI functions of `fs`, one after another, in the module `m` for the type `t` whose
/// receiver parameter is `p`.
pub open spec fn impl_fns_spec(fs: Seq<FnFFI>, m: Seq<char>, t: String, p: String) -> Seq<char>
    decreases fs.len(),
{
    if fs.len() == 0 {
        Seq::empty()
    } else {
        impl_fns_spec(fs.drop_last(), m, t, p) + generate_ffi_spec(fs.last(), m, Some(&t), Some(&p))
    }
}

/// The FFI module of the impl `i`.
pub open spec fn impl_module_spec(i: ImplFFI, p: String) -> Seq<char> {
    let m = impl_module_name_spec(i.impl_description@, i.type_ident@);
    "pub mod "@ + m + " {\n    use super::*;\n    "@ + imports_spec(i.ffi_imports@)
        + impl_fns_spec(i.fns@, m, i.type_ident, p) + "}\n"@
}

/// The consumer extension for the impl `i`: each consumer function in turn, separated by blank
/// lines; a single function carries the impl's documentation, otherwise the extension does.
pub open spec fn impl_consumer_spec(i: ImplFFI) -> Seq<char> {
    let m = impl_module_name_spec(i.impl_description@, i.type_ident@);
    let single = i.fns@.len() == 1;
    let module_docs = if single {
        Some(views(i.doc_comments@))
    } else {
        None
    };
    let docs = if single {
        Seq::empty()
    } else {
        docs_spec(views(i.doc_comments@), 0)
    };
    docs + "public extension "@ + i.type_ident@ + " {\n"@ + seq_join(
        i.fns@.map_values(|f: FnFFI| generate_consumer_spec(f, m, module_docs)),
        "\n\n"@,
    ) + "\n}"@
}

impl ImplFFI {
    /// Reads an impl: its local aliases (the associated types) and its methods, each exposed with
    /// the impl's raw types and generics, `Self` standing for the impl's type. The impl is named
    /// by its description, or else by the trait it implements; one with neither is rejected, as
    /// is one with a method that cannot be exposed.
    pub fn from(inputs: ImplInputs) -> (r: Result<ImplFFI, ImplError>)
        requires
            methods_strippable(inputs.items@),
        ensures
            impl_description_spec(inputs) is None ==> r == Err::<ImplFFI, ImplError>(ImplError::MissingDescription),
            impl_description_spec(inputs) is Some ==> match r {
                Ok(i) => {
                    &&& Some(i.impl_description@) == impl_description_spec(inputs)
                    &&& i.type_ident@ == inputs.type_ident@
                    &&& i.ffi_imports == inputs.ffi_imports
                    &&& i.consumer_imports == inputs.consumer_imports
                    &&& i.doc_comments == inputs.doc_comments
                    &&& exists|aliases: Seq<(String, RustType)>| {
                        &&& aliases_of(aliases, inputs.items@)
                        &&& fns_result(
                            Ok::<Vec<FnFFI>, FnError>(i.fns),
                            methods_of(inputs.items@),
                            impl_fn_attributes(inputs),
                            aliases,
                        )
                    }
                },
                Err(ImplError::Fn(e)) => exists|aliases: Seq<(String, RustType)>| {
                    &&& aliases_of(aliases, inputs.items@)
                    &&& fns_result(
                        Err::<Vec<FnFFI>, FnError>(e),
                        methods_of(inputs.items@),
                        impl_fn_attributes(inputs),
                        aliases,
                    )
                },
                Err(ImplError::MissingDescription) => false,
            },
    {
        let ghost inputs0 = inputs;
        let impl_description = match inputs.description {
            Some(d) => d,
            None => match inputs.trait_ident {
                Some(t) => t,
                None => {
                    return Err(ImplError::MissingDescription);
                },
            },
        };
        let (aliases, methods) = split_items(inputs.items);
        let a = FnAttributes {
            extend_type: inputs.type_ident,
            raw_types: inputs.raw_types,
            generics: inputs.generics,
        };
        assert(a == impl_fn_attributes(inputs0));
        match build_fns(methods, &a, &aliases) {
            Ok(fns) => Ok(ImplFFI {
                impl_description,
                type_ident: copy_string(&a.extend_type),
                fns,
                ffi_imports: inputs.ffi_imports,
                consumer_imports: inputs.consumer_imports,
                doc_comments: inputs.doc_comments,
            }),
            Err(e) => Err(ImplError::Fn(e)),
        }
    }

    /// The type's name in snake case, used as the name of the receiver parameter in the FFI.
    pub fn type_name_as_parameter_name(&self) -> (r: String)
        ensures
            r@ == snake_case(self.type_ident@),
    {
        to_snake_case(self.type_ident.as_str())
    }

    /// The name of the FFI module, in the pattern `description_type_ffi`.
    pub fn module_name(&self) -> (r: String)
        ensures
            r@ == impl_module_name_spec(self.impl_description@, self.type_ident@),
    {
        let mut r = to_snake_case(self.impl_description.as_str());
        r.append("_");
        let t = to_snake_case(self.type_ident.as_str());
        r.append(t.as_str());
        r.append("_ffi");
        r
    }

    /// The FFI module, as Rust source text: the FFI imports, then an FFI function for each method.
    pub fn generate_ffi(&self) -> (r: String)
        ensures
            exists|p: String| p@ == snake_case(self.type_ident@) && r@ == impl_module_spec(*self, p),
    {
        let m = self.module_name();
        let p = self.type_name_as_parameter_name();
        let imports = imports_text(&self.ffi_imports);
        let mut fns = String::new();
        let mut i: usize = 0;
        while i < self.fns.len()
            invariant
                i <= self.fns.len(),
                m@ == impl_module_name_spec(self.impl_description@, self.type_ident@),
                fns@ == impl_fns_spec(self.fns@.take(i as int), m@, self.type_ident, p),
            decreases self.fns.len() - i,
        {
            proof {
                assert(self.fns@.take(i + 1).drop_last() =~= self.fns@.take(i as int));
            }
            let f = self.fns[i].generate_ffi(m.as_str(), Some(&self.type_ident), Some(&p));
            fns.append(f.as_str());
            i = i + 1;
        }
        proof {
            assert(self.fns@.take(self.fns.len() as int) =~= self.fns@);
        }
        let mut r = String::from_str("pub mod ");
        r.append(m.as_str());
        r.append(" {\n    use super::*;\n    ");
        r.append(imports.as_str());
        r.append(fns.as_str());
        r.append("}\n");
        assert(r@ =~= impl_module_spec(*self, p));
        r
    }

    /// The name of the consumer file for this impl, joining its description and its type.
    pub fn consumer_file_name(&self) -> (r: String)
        ensures
            r@ == self.impl_description@ + "_"@ + self.type_ident@ + ".swift"@,
    {
        let mut r = copy_string(&self.impl_description);
        r.append("_");
        r.append(self.type_ident.as_str());
        r.append(".swift");
        r
    }

    /// The consumer extension of the type, with a consumer function for each method.
    pub fn generate_consumer(&self) -> (r: String)
        ensures
            r@ == impl_consumer_spec(*self),
    {
        let m = self.module_name();
        let single = self.fns.len() == 1;
        let mut r = if single {
            String::new()
        } else {
            consumer_docs_from(&self.doc_comments, 0)
        };
        let mut list: Vec<String> = Vec::new();
        let mut i: usize = 0;
        while i < self.fns.len()
            invariant
                i <= self.fns.len(),
                single == (self.fns@.len() == 1),
                m@ == impl_module_name_spec(self.impl_description@, self.type_ident@),
                list@.len() == i,
                forall|j: int| 0 <= j < i ==> (#[trigger] list@[j])@ == generate_consumer_spec(
                    self.fns@[j],
                    m@,
                    if single {
                        Some(views(self.doc_comments@))
                    } else {
                        None
                    },
                ),
            decreases self.fns.len() - i,
        {
            let docs = if single {
                Some(&self.doc_comments)
            } else {
                None
            };
            let c = self.fns[i].generate_consumer(m.as_str(), docs);
            list.push(c);
            i = i + 1;
        }
        let ghost module_docs = if single {
            Some(views(self.doc_comments@))
        } else {
            None
        };
        assert(views(list@) =~= self.fns@.map_values(|f: FnFFI| generate_consumer_spec(f, m@, module_docs)));
        let body = crate::text::join(&list, "\n\n");
        r.append("public extension ");
        r.append(self.type_ident.as_str());
        r.append(" {\n");
        r.append(body.as_str());
        r.append("\n}");
        r
    }

    /// The consumer file for this impl: the header with the consumer imports, then the consumer
    /// extension. A consumer import with no segment cannot be imported and gives `None`.
    pub fn consumer_file_contents(&self) -> (r: Option<String>)
        ensures
            r is Some <==> importable(self.consumer_imports@),
            r matches Some(s) ==> s@ == header_and_imports_spec(self.consumer_imports@) + "\n"@
                + impl_consumer_spec(*self),
    {
        match header_and_imports(&self.consumer_imports) {
            Some(h) => {
                let mut r = h;
                r.append("\n");
                let c = self.generate_consumer();
                r.append(c.as_str());
                Some(r)
            },
            None => None,
        }
    }
}

} // verus!
