//! Generates the consumer (Swift) function that wraps the FFI function of a Rust function.

use crate::consumer::{consumer_docs_from, docs_spec, header_and_imports, header_and_imports_spec};
use crate::fn_ffi::{ffi_fn_name_spec, FnFFI, FnParameterFFI, FnReceiver};
use crate::parsing::Path;
use crate::text::{contains_text, indent, join, lemma_contains_extend, lemma_contains_pair, mixed_case, seq_join, spaces, to_mixed_case, views};
use crate::type_ffi::{argument_borrows_supported_spec, consumer_type_of, return_components_spec};
use crate::TAB_SIZE;
use vstd::prelude::*;

verus! {

/// The consumer parameter for the parameter `p`, as in `foo: Foo`.
pub open spec fn consumer_parameter_spec(p: FnParameterFFI) -> Seq<char> {
    p.name@ + ": "@ + consumer_type_of(p.native_type_data, None)
}

/// The consumer parameters of `f`, separated by commas.
pub open spec fn consumer_parameters_spec(f: FnFFI) -> Seq<char> {
    seq_join(f.parameters@.map_values(|p: FnParameterFFI| consumer_parameter_spec(p)), ", "@)
}

/// The consumer argument passing the parameter `p` to the FFI: borrowed where the FFI supports
/// borrowing it, cloned otherwise.
pub open spec fn ffi_calling_argument_spec(p: FnParameterFFI) -> Seq<char> {
    p.name@ + "."@ + (if argument_borrows_supported_spec(p.native_type_data) {
        "borrowReference"@
    } else {
        "clone"@
    }) + "()"@
}

/// The consumer arguments passed to the FFI function of `f`, separated by commas: the receiver's
/// `pointer` first when `f` takes one, then each parameter.
pub open spec fn ffi_calling_arguments_spec(f: FnFFI) -> Seq<char> {
    let args = f.parameters@.map_values(|p: FnParameterFFI| ffi_calling_argument_spec(p));
    let args = if f.receiver == FnReceiver::NoReceiver {
        args
    } else {
        seq!["pointer"@] + args
    };
    seq_join(args, ", "@)
}

/// The conversion, closing parenthesis and return signature of the consumer function for `f`.
pub open spec fn return_parts_spec(f: FnFFI) -> (Seq<char>, Seq<char>, Seq<char>) {
    match f.return_type {
        Some(r) => return_components_spec(r),
        None => (Seq::empty(), Seq::empty(), Seq::empty()),
    }
}

/// The consumer function calling the FFI function of `f` in the module `m`: `static` when `f`
/// takes no receiver, named in mixed case, converting the returned value.
pub open spec fn consumer_fn_spec(f: FnFFI, m: Seq<char>) -> Seq<char> {
    let (conversion, close, sig) = return_parts_spec(f);
    let static_keyword = if f.receiver == FnReceiver::NoReceiver {
        "static "@
    } else {
        Seq::empty()
    };
    spaces(4) + static_keyword + "func "@ + mixed_case(f.fn_name@) + "("@ + consumer_parameters_spec(f)
        + ") "@ + sig + " {\n"@ + spaces(8) + conversion + ffi_fn_name_spec(m, f.fn_name@) + "("@
        + ffi_calling_arguments_spec(f) + ")"@ + close + "\n"@ + spaces(4) + "}"@
}

/// The consumer function for `f`, preceded by the module's documentation when given and by the
/// function's own.
pub open spec fn generate_consumer_spec(f: FnFFI, m: Seq<char>, module_docs: Option<Seq<Seq<char>>>) -> Seq<char> {
    let docs = match module_docs {
        Some(d) => docs_spec(d, 1),
        None => Seq::empty(),
    };
    docs + docs_spec(views(f.doc_comments@), 1) + consumer_fn_spec(f, m)
}

/// A consumer file extending `t` with the consumer function for `f`.
pub open spec fn consumer_extension_spec(f: FnFFI, t: Seq<char>, m: Seq<char>) -> Seq<char> {
    header_and_imports_spec(Seq::empty()) + "\n"@ + "extension "@ + t + " {"@ + "\n"@
        + docs_spec(views(f.doc_comments@), 1) + consumer_fn_spec(f, m) + "\n"@ + "}"@
}

impl FnFFI {
    /// The consumer parameters, as in `foo: Foo, bar: [Bar]`.
    pub fn consumer_parameters(&self) -> (r: String)
        ensures
            r@ == consumer_parameters_spec(*self),
    {
        let ps = &self.parameters;
        let mut list: Vec<String> = Vec::new();
        let mut i: usize = 0;
        while i < ps.len()
            invariant
                i <= ps.len(),
                list@.len() == i,
                forall|j: int| 0 <= j < i ==> (#[trigger] list@[j])@ == consumer_parameter_spec(ps@[j]),
            decreases ps.len() - i,
        {
            let mut s = String::from_str(ps[i].name.as_str());
            s.append(": ");
            let t = ps[i].native_type_data.consumer_type(None);
            s.append(t.as_str());
            list.push(s);
            i = i + 1;
        }
        assert(views(list@) =~= ps@.map_values(|p: FnParameterFFI| consumer_parameter_spec(p)));
        join(&list, ", ")
    }

    /// The consumer arguments passed to the FFI function, as in `pointer, foo.clone()`.
    pub fn ffi_calling_arguments(&self) -> (r: String)
        ensures
            r@ == ffi_calling_arguments_spec(*self),
    {
        let ps = &self.parameters;
        let mut list: Vec<String> = Vec::new();
        let offset: usize = if self.receiver == FnReceiver::NoReceiver {
            0
        } else {
            list.push(String::from_str("pointer"));
            1
        };
        let mut i: usize = 0;
        while i < ps.len()
            invariant
                i <= ps.len(),
                offset == (if self.receiver == FnReceiver::NoReceiver { 0usize } else { 1usize }),
                list@.len() == offset + i,
                offset == 1 ==> list@[0]@ == "pointer"@,
                forall|j: int| 0 <= j < i ==> (#[trigger] list@[offset + j])@ == ffi_calling_argument_spec(ps@[j]),
            decreases ps.len() - i,
        {
            let mut s = String::from_str(ps[i].name.as_str());
            s.append(".");
            if ps[i].native_type_data.argument_borrows_supported() {
                s.append("borrowReference");
            } else {
                s.append("clone");
            }
            s.append("()");
            list.push(s);
            i = i + 1;
        }
        let ghost args = ps@.map_values(|p: FnParameterFFI| ffi_calling_argument_spec(p));
        proof {
            if self.receiver == FnReceiver::NoReceiver {
                assert forall|k: int| 0 <= k < list@.len() implies views(list@)[k] == args[k] by {
                    assert(list@[0 + k]@ == ffi_calling_argument_spec(ps@[k]));
                }
                assert(views(list@) =~= args);
            } else {
                let with_pointer = seq!["pointer"@] + args;
                assert forall|k: int| 0 <= k < list@.len() implies views(list@)[k] == with_pointer[k] by {
                    if k > 0 {
                        assert(list@[1 + (k - 1)]@ == ffi_calling_argument_spec(ps@[k - 1]));
                    }
                }
                assert(views(list@) =~= with_pointer);
            }
        }
        join(&list, ", ")
    }

    /// The consumer function calling the FFI function in the module `module_name`.
    fn consumer_fn(&self, module_name: &str) -> (r: String)
        ensures
            r@ == consumer_fn_spec(*self, module_name@),
    {
        let (conversion, close, sig) = match &self.return_type {
            Some(r) => r.consumer_return_type_components(),
            None => (String::new(), String::new(), String::new()),
        };
        let l1 = indent(TAB_SIZE);
        let l2 = indent(TAB_SIZE * 2);
        let mut r = String::from_str(l1.as_str());
        if self.receiver == FnReceiver::NoReceiver {
            r.append("static ");
        }
        r.append("func ");
        let name = to_mixed_case(self.fn_name.as_str());
        r.append(name.as_str());
        r.append("(");
        let params = self.consumer_parameters();
        r.append(params.as_str());
        r.append(") ");
        r.append(sig.as_str());
        r.append(" {\n");
        r.append(l2.as_str());
        r.append(conversion.as_str());
        let ffi_name = self.ffi_fn_name(module_name);
        r.append(ffi_name.as_str());
        r.append("(");
        let args = self.ffi_calling_arguments();
        r.append(args.as_str());
        r.append(")");
        r.append(close.as_str());
        r.append("\n");
        r.append(l1.as_str());
        r.append("}");
        r
    }

    /// The consumer function for calling the FFI function produced by `generate_ffi` in the
    /// module `module_name`, documented with `module_docs` (when given) and this function's own
    /// documentation.
    pub fn generate_consumer(&self, module_name: &str, module_docs: Option<&Vec<String>>) -> (r: String)
        ensures
            r@ == generate_consumer_spec(
                *self,
                module_name@,
                match module_docs {
                    Some(d) => Some(views(d@)),
                    None => None,
                },
            ),
    {
        let mut r = match module_docs {
            Some(d) => consumer_docs_from(d, 1),
            None => String::new(),
        };
        let own = consumer_docs_from(&self.doc_comments, 1);
        r.append(own.as_str());
        let body = self.consumer_fn(module_name);
        r.append(body.as_str());
        r
    }

    /// A consumer file extending the consumer type `consumer_type` with the consumer function for
    /// this function; for a standalone function exposed in the module `module_name`.
    pub fn generate_consumer_extension(&self, consumer_type: &str, module_name: &str) -> (r: String)
        ensures
            r@ == consumer_extension_spec(*self, consumer_type@, module_name@),
    {
        let no_paths: Vec<Path> = Vec::new();
        let header = match header_and_imports(&no_paths) {
            Some(h) => h,
            None => {
                assert(no_paths@ =~= Seq::<Path>::empty());
                String::new()
            },
        };
        assert(no_paths@ =~= Seq::<Path>::empty());
        let mut r = header;
        r.append("\n");
        r.append("extension ");
        r.append(consumer_type);
        r.append(" {");
        r.append("\n");
        let docs = consumer_docs_from(&self.doc_comments, 1);
        r.append(docs.as_str());
        let body = self.consumer_fn(module_name);
        r.append(body.as_str());
        r.append("\n");
        r.append("}");
        r
    }
}

/// The consumer function of `f` calls the FFI function that `generate_ffi` defines for `f` in the
/// same module: both hold the FFI function's name followed by its argument list.
pub proof fn lemma_consumer_calls_ffi_fn(f: FnFFI, m: Seq<char>, t: Option<&String>, p: Option<&String>)
    ensures
        contains_text(crate::fn_ffi::generate_ffi_spec(f, m, t, p), ffi_fn_name_spec(m, f.fn_name@) + "("@),
        contains_text(consumer_fn_spec(f, m), ffi_fn_name_spec(m, f.fn_name@) + "("@),
{
    let x = ffi_fn_name_spec(m, f.fn_name@) + "("@;
    lemma_contains_extend(x);
    lemma_contains_pair(
        crate::fn_ffi::doc_attrs_spec(views(f.doc_comments@)) + "#[no_mangle]\npub unsafe extern \"C\" fn "@,
        ffi_fn_name_spec(m, f.fn_name@),
        "("@,
    );
    let (conversion, close, sig) = return_parts_spec(f);
    let static_keyword = if f.receiver == FnReceiver::NoReceiver {
        "static "@
    } else {
        Seq::empty()
    };
    lemma_contains_pair(
        spaces(4) + static_keyword + "func "@ + mixed_case(f.fn_name@) + "("@ + consumer_parameters_spec(f)
            + ") "@ + sig + " {\n"@ + spaces(8) + conversion,
        ffi_fn_name_spec(m, f.fn_name@),
        "("@,
    );
}

} // verus!
