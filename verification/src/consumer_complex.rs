//! Generates the consumer (Swift) enum that wraps a complex (non-`repr(C)`) Rust enum: a case for
//! each variant with its associated values and a reference to the Rust instance, static
//! initializers, and the conversions between the consumer's enum and the Rust one.

use crate::consumer::{consumer_docs_from, docs_spec};
use crate::consumer_enum::{
    array_free_fn_name, array_free_fn_name_spec, array_init_fn_name, array_init_fn_name_spec,
    array_name, array_name_spec,
};
use crate::enum_ffi::complex::{
    complex_module_spec, enum_clone_fn_name_spec, enum_free_fn_name_spec, get_variant_fn_name_spec,
    imports_spec, initializers_spec, reprc_enum_spec, variant_getters_spec, variant_init_fn_name_spec,
    variant_initializer_spec, variant_list_spec, variant_match_spec, EnumFFI, VariantFFI,
};
use crate::field_ffi::{getter_name_spec, FieldFFI};
use crate::parsing::Path;
use crate::text::{
    contains_text, lemma_contains_extend, lemma_contains_pair, lemma_contains_prepend, copy_string, decimal, decimal_string, indent, join, mixed_case, seq_join, spaces,
    to_mixed_case, views,
};
use crate::type_ffi::consumer_type_of;
use vstd::prelude::*;

verus! {

/// The data required to generate the consumer enum of a complex enum.
pub struct ComplexConsumerEnum<'a> {
    /// The enum's FFI data.
    pub enum_ffi: &'a EnumFFI,
}

/// The consumer type of the field `f`.
pub open spec fn field_ct(f: FieldFFI) -> Seq<char> {
    consumer_type_of(f.native_type_data, None)
}

/// The consumer types of the fields `fs`.
pub open spec fn field_cts(fs: Seq<FieldFFI>) -> Seq<Seq<char>> {
    fs.map_values(|f: FieldFFI| field_ct(f))
}

/// The case of the consumer enum `t` for the variant `v`: its documentation, then the case with
/// the variant's values and the enum's FFI class as associated values.
pub open spec fn case_definition_spec(t: Seq<char>, v: VariantFFI) -> Seq<char> {
    let values = if v.fields@.len() == 0 {
        Seq::empty()
    } else {
        "("@ + seq_join(field_cts(v.fields@), ", "@) + ", "@ + t + ".FFI)"@
    };
    docs_spec(views(v.doc_comments@), 1) + "    case "@ + mixed_case(v.ident@) + values
}

/// The text `data.i.clone()` for the field at `i`.
pub open spec fn tuple_clone_spec(i: nat) -> Seq<char> {
    "data."@ + decimal(i) + ".clone()"@
}

/// The static initializer of the consumer enum `t` for the variant `v`, calling the variant's
/// Rust initializer with clones of its values.
pub open spec fn case_init_spec(t: Seq<char>, v: VariantFFI) -> Seq<char> {
    let n = v.fields@.len();
    let args = if n == 0 {
        Seq::empty()
    } else if n == 1 {
        "_ data: "@ + field_ct(v.fields@[0])
    } else {
        "_ data: ("@ + seq_join(field_cts(v.fields@), ", "@) + ")"@
    };
    let conversions = if n == 0 {
        Seq::empty()
    } else if n == 1 {
        "data.clone()"@
    } else {
        seq_join(Seq::new(n, |i: int| tuple_clone_spec(i as nat)), ","@)
    };
    "    static func "@ + mixed_case(v.ident@) + "("@ + args + ") -> Self {\n        FFI("@
        + variant_init_fn_name_spec(t, v.ident@) + "("@ + conversions + ")).makeNative()\n    }"@
}

/// The getter call reading the field `f` in `makeNative()`.
pub open spec fn native_getter_spec(f: FieldFFI) -> Seq<char> {
    spaces(16) + ".fromRust("@ + getter_name_spec(f) + "(pointer))"@
}

/// The case of `makeNative()` for the variant `v` of the enum `t`, building the consumer's case
/// from the variant's values read through their getters.
pub open spec fn make_native_case_spec(t: Seq<char>, v: VariantFFI) -> Seq<char> {
    "        case "@ + reprc_enum_spec(t) + "_"@ + v.ident@ + ":\n            return ."@ + mixed_case(v.ident@)
        + "(\n"@ + seq_join(v.fields@.map_values(|f: FieldFFI| native_getter_spec(f)), ",\n"@)
        + ",\n                self\n            )"@
}

/// The pattern binding the FFI class of the case for the variant `v`.
pub open spec fn ffi_assignment_spec(v: VariantFFI) -> Seq<char> {
    "            let ."@ + mixed_case(v.ident@) + "("@ + seq_join(Seq::new(v.fields@.len(), |i: int| "_"@), ", "@)
        + ", ffi)"@
}

/// The FFI class nested in the consumer enum of the enum `t`, owning the Rust instance.
pub open spec fn ffi_declaration_spec(t: Seq<char>) -> Seq<char> {
    "    public final class FFI {\n        internal let pointer: OpaquePointer\n\n        internal init(_ pointer: OpaquePointer) {\n            self.pointer = pointer\n        }\n\n        deinit {\n            "@
        + enum_free_fn_name_spec(t) + "(pointer)\n        }\n    }"@
}

/// The conformances converting between the consumer enum of `e` and its FFI class.
pub open spec fn enum_protocol_conformance_spec(e: EnumFFI) -> Seq<char> {
    let t = e.type_ident@;
    "// MARK: - ForeignEnum\nextension "@ + t + ".FFI: ForeignEnum {\n    public typealias NativeEnumType = "@ + t
        + "\n\n    public func makeNative() -> NativeEnumType {\n        switch "@ + get_variant_fn_name_spec(t)
        + "(pointer) {\n"@ + seq_join(e.variants@.map_values(|v: VariantFFI| make_native_case_spec(t, v)), "\n"@)
        + "\n        default:\n            fatalError(\"Unreachable\")\n        }\n    }\n}\n\n// MARK: - NativeEnum\nextension "@
        + t
        + ": NativeEnum {\n    public typealias FFIType = Self.FFI\n\n    public var ffi: FFI {\n        switch self {\n        case\n"@
        + seq_join(e.variants@.map_values(|v: VariantFFI| ffi_assignment_spec(v)), ",\n"@)
        + "\n        :\n            return ffi\n        }\n    }\n\n    public static func fromRust(pointer: FFIType.ForeignType) -> Self {\n        return FFI.fromRust(pointer).makeNative()\n    }\n}"@
}

/// The consumer enum of `e` with its FFI class and conformances.
pub open spec fn complex_type_definition_spec(e: EnumFFI) -> Seq<char> {
    let t = e.type_ident@;
    docs_spec(views(e.doc_comments@), 0) + "public enum "@ + t + " {\n"@
        + seq_join(e.variants@.map_values(|v: VariantFFI| case_definition_spec(t, v)), "\n"@) + "\n\n"@
        + seq_join(e.variants@.map_values(|v: VariantFFI| case_init_spec(t, v)), "\n\n"@)
        + "\n}\n\n// MARK: - FFI\nextension "@ + t + " {\n"@ + ffi_declaration_spec(t) + "\n}\n\n"@
        + enum_protocol_conformance_spec(e)
}

/// The `NativeData` conformances of the consumer enum `t` and of its FFI class.
pub open spec fn complex_native_data_spec(t: Seq<char>) -> Seq<char> {
    "// MARK: - NativeData\nextension "@ + t
        + ".FFI: NativeData {\n    public typealias ForeignType = OpaquePointer?\n\n    /// `clone()` will clone this instance (in Rust) and return a pointer to it that can be\n    /// used when calling a Rust function that takes ownership of an instance (like an initializer\n    /// with a parameter of this type).\n    public func clone() -> ForeignType {\n        return "@
        + enum_clone_fn_name_spec(t)
        + "(pointer)\n    }\n\n    /// `borrowReference()` will pass this instance's `pointer` to Rust as a reference. This\n    /// must only be used when calling Rust functions that take a borrowed reference; otherwise,\n    /// Rust will free `pointer` while this instance retains it.\n    public func borrowReference() -> ForeignType {\n        return pointer\n    }\n\n    /// Initializes an instance of this type from a pointer to an instance of the Rust type.\n    public static func fromRust(_ foreignObject: ForeignType) -> Self {\n        return Self(foreignObject!)\n    }\n}\n\nextension "@
        + t
        + ": NativeData {\n    public typealias ForeignType = FFIType.ForeignType\n\n    /// `clone()` will clone this instance (in Rust) and return a pointer to it that can be\n    /// used when calling a Rust function that takes ownership of an instance (like an initializer\n    /// with a parameter of this type).\n    public func clone() -> FFIType.ForeignType {\n        ffi.clone()\n    }\n\n    /// `borrowReference()` will pass this instance's `pointer` to Rust as a reference. This\n    /// must only be used when calling Rust functions that take a borrowed reference; otherwise,\n    /// Rust will free `pointer` while this instance retains it.\n    public func borrowReference() -> FFIType.ForeignType {\n        ffi.borrowReference()\n    }\n\n    /// Initializes an instance of this type from a pointer to an instance of the Rust type.\n    public static func fromRust(_ foreignObject: FFIType.ForeignType) -> Self {\n        Self.FFIType.fromRust(foreignObject).makeNative()\n    }\n}"@
}

/// The `FFIArray` conformance of the array type of the enum `t`.
pub open spec fn complex_ffi_array_spec(t: Seq<char>) -> Seq<char> {
    "extension "@ + array_name_spec(t)
        + ": FFIArray {\n    public typealias Value = OpaquePointer?\n\n    public static func from(ptr: UnsafePointer<Value>?, len: Int) -> Self {\n        "@
        + array_init_fn_name_spec(t) + "(ptr, len)\n    }\n\n    public static func free(_ array: Self) {\n        "@
        + array_free_fn_name_spec(t) + "(array)\n    }\n}"@
}

/// The `NativeArrayData` conformances of the consumer enum `t` and of its FFI class.
pub open spec fn complex_native_array_data_spec(t: Seq<char>) -> Seq<char> {
    "// MARK: - NativeArrayData\nextension "@ + t + ".FFI: NativeArrayData {\n    public typealias FFIArrayType = "@
        + array_name_spec(t) + "\n}\n\nextension "@ + t + ": NativeArrayData {\n    public typealias FFIArrayType = "@
        + array_name_spec(t) + "\n}"@
}

/// The body shared by the `Optional` extensions of the enum and of its FFI class.
pub open spec fn optional_body_spec() -> Seq<char> {
    " {\n    func clone() -> OpaquePointer? {\n        switch self {\n        case let .some(value):\n            return value.clone()\n        case .none:\n            return nil\n        }\n    }\n\n    func borrowReference() -> OpaquePointer? {\n        switch self {\n        case let .some(value):\n            return value.borrowReference()\n        case .none:\n            return nil\n        }\n    }\n\n    static func fromRust(_ ptr: OpaquePointer?) -> Self {\n        guard let ptr = ptr else {\n            return .none\n        }\n        return Wrapped.fromRust(ptr)\n    }\n}"@
}

/// The `Optional` extensions for the FFI class and for the consumer enum `t`.
pub open spec fn complex_option_spec(t: Seq<char>) -> Seq<char> {
    "// MARK: - Optional\npublic extension Optional where Wrapped == "@ + t + ".FFI"@ + optional_body_spec()
        + "\n\npublic extension Optional where Wrapped == "@ + t + optional_body_spec()
}

/// The consumer types of the fields `fs`.
fn consumer_types(fs: &Vec<FieldFFI>) -> (r: Vec<String>)
    ensures
        views(r@) == field_cts(fs@),
{
    let mut r: Vec<String> = Vec::new();
    let mut i: usize = 0;
    while i < fs.len()
        invariant
            i <= fs.len(),
            r@.len() == i,
            forall|j: int| 0 <= j < i ==> (#[trigger] r@[j])@ == field_ct(fs@[j]),
        decreases fs.len() - i,
    {
        r.push(fs[i].native_type_data.consumer_type(None));
        i = i + 1;
    }
    assert(views(r@) =~= field_cts(fs@));
    r
}

/// The case of the consumer enum `t` for the variant `v`.
fn case_definition(t: &str, v: &VariantFFI) -> (r: String)
    ensures
        r@ == case_definition_spec(t@, *v),
{
    let mut r = consumer_docs_from(&v.doc_comments, 1);
    r.append("    case ");
    let ident = to_mixed_case(v.ident.as_str());
    r.append(ident.as_str());
    if v.fields.len() != 0 {
        let types = consumer_types(&v.fields);
        let joined = join(&types, ", ");
        r.append("(");
        r.append(joined.as_str());
        r.append(", ");
        r.append(t);
        r.append(".FFI)");
    }
    r
}

/// The static initializer of the consumer enum `t` for the variant `v`.
fn case_init(t: &str, v: &VariantFFI) -> (r: String)
    ensures
        r@ == case_init_spec(t@, *v),
{
    let n = v.fields.len();
    let (args, conversions) = if n == 0 {
        (String::new(), String::new())
    } else if n == 1 {
        let mut a = String::from_str("_ data: ");
        let ct = v.fields[0].native_type_data.consumer_type(None);
        a.append(ct.as_str());
        (a, String::from_str("data.clone()"))
    } else {
        let types = consumer_types(&v.fields);
        let joined = join(&types, ", ");
        let mut a = String::from_str("_ data: (");
        a.append(joined.as_str());
        a.append(")");
        let mut clones: Vec<String> = Vec::new();
        let mut i: usize = 0;
        while i < n
            invariant
                i <= n,
                clones@.len() == i,
                forall|j: int| 0 <= j < i ==> (#[trigger] clones@[j])@ == tuple_clone_spec(j as nat),
            decreases n - i,
        {
            let mut c = String::from_str("data.");
            let d = decimal_string(i);
            c.append(d.as_str());
            c.append(".clone()");
            clones.push(c);
            i = i + 1;
        }
        assert(views(clones@) =~= Seq::new(n as nat, |i: int| tuple_clone_spec(i as nat)));
        (a, join(&clones, ","))
    };
    let mut r = String::from_str("    static func ");
    let ident = to_mixed_case(v.ident.as_str());
    r.append(ident.as_str());
    r.append("(");
    r.append(args.as_str());
    r.append(") -> Self {\n        FFI(");
    let init = v.init_fn_name(t);
    r.append(init.as_str());
    r.append("(");
    r.append(conversions.as_str());
    r.append(")).makeNative()\n    }");
    r
}

/// The case of `makeNative()` for the variant `v`, whose `repr(C)` enum is `reprc`.
fn make_native_case(reprc: &str, v: &VariantFFI) -> (r: String)
    ensures
        forall|t: Seq<char>| reprc@ == reprc_enum_spec(t) ==> r@ == make_native_case_spec(t, *v),
{
    let fs = &v.fields;
    let mut getters: Vec<String> = Vec::new();
    let pad = indent(16);
    let mut i: usize = 0;
    while i < fs.len()
        invariant
            i <= fs.len(),
            pad@ == spaces(16),
            getters@.len() == i,
            forall|j: int| 0 <= j < i ==> (#[trigger] getters@[j])@ == native_getter_spec(fs@[j]),
        decreases fs.len() - i,
    {
        let mut g = copy_string(&pad);
        g.append(".fromRust(");
        let name = fs[i].getter_name();
        g.append(name.as_str());
        g.append("(pointer))");
        getters.push(g);
        i = i + 1;
    }
    assert(views(getters@) =~= fs@.map_values(|f: FieldFFI| native_getter_spec(f)));
    let joined = join(&getters, ",\n");
    let mut r = String::from_str("        case ");
    r.append(reprc);
    r.append("_");
    r.append(v.ident.as_str());
    r.append(":\n            return .");
    let ident = to_mixed_case(v.ident.as_str());
    r.append(ident.as_str());
    r.append("(\n");
    r.append(joined.as_str());
    r.append(",\n                self\n            )");
    r
}

/// The pattern binding the FFI class of the case for the variant `v`.
fn ffi_assignment_line(v: &VariantFFI) -> (r: String)
    ensures
        r@ == ffi_assignment_spec(*v),
{
    let n = v.fields.len();
    let mut holes: Vec<String> = Vec::new();
    let mut i: usize = 0;
    while i < n
        invariant
            i <= n,
            holes@.len() == i,
            forall|j: int| 0 <= j < i ==> (#[trigger] holes@[j])@ == "_"@,
        decreases n - i,
    {
        holes.push(String::from_str("_"));
        i = i + 1;
    }
    assert(views(holes@) =~= Seq::new(n as nat, |i: int| "_"@));
    let joined = join(&holes, ", ");
    let mut r = String::from_str("            let .");
    let ident = to_mixed_case(v.ident.as_str());
    r.append(ident.as_str());
    r.append("(");
    r.append(joined.as_str());
    r.append(", ffi)");
    r
}

impl<'a> ComplexConsumerEnum<'a> {
    /// The consumer enum data of the complex enum `ffi`.
    pub fn from(ffi: &'a EnumFFI) -> (r: Self)
        ensures
            r.enum_ffi == ffi,
    {
        ComplexConsumerEnum { enum_ffi: ffi }
    }

    /// The enum's name.
    pub fn type_name_ident(&self) -> (r: &String)
        ensures
            r == &self.enum_ffi.type_ident,
    {
        &self.enum_ffi.type_ident
    }

    /// The enum's name in the consumer.
    pub fn consumer_type_name(&self) -> (r: String)
        ensures
            r@ == self.enum_ffi.type_ident@,
    {
        copy_string(&self.enum_ffi.type_ident)
    }

    /// The cases of the consumer enum, one for each variant, separated by newlines.
    pub fn case_definitions(&self) -> (r: String)
        ensures
            r@ == seq_join(
                self.enum_ffi.variants@.map_values(|v: VariantFFI| case_definition_spec(self.enum_ffi.type_ident@, v)),
                "\n"@,
            ),
    {
        let t = self.enum_ffi.type_ident.as_str();
        let vs = &self.enum_ffi.variants;
        let mut list: Vec<String> = Vec::new();
        let mut i: usize = 0;
        while i < vs.len()
            invariant
                i <= vs.len(),
                list@.len() == i,
                forall|j: int| 0 <= j < i ==> (#[trigger] list@[j])@ == case_definition_spec(t@, vs@[j]),
            decreases vs.len() - i,
        {
            list.push(case_definition(t, &vs[i]));
            i = i + 1;
        }
        assert(views(list@) =~= vs@.map_values(|v: VariantFFI| case_definition_spec(t@, v)));
        join(&list, "\n")
    }

    /// The static initializers of the consumer enum, separated by blank lines.
    pub fn case_inits(&self) -> (r: String)
        ensures
            r@ == seq_join(
                self.enum_ffi.variants@.map_values(|v: VariantFFI| case_init_spec(self.enum_ffi.type_ident@, v)),
                "\n\n"@,
            ),
    {
        let t = self.enum_ffi.type_ident.as_str();
        let vs = &self.enum_ffi.variants;
        let mut list: Vec<String> = Vec::new();
        let mut i: usize = 0;
        while i < vs.len()
            invariant
                i <= vs.len(),
                list@.len() == i,
                forall|j: int| 0 <= j < i ==> (#[trigger] list@[j])@ == case_init_spec(t@, vs@[j]),
            decreases vs.len() - i,
        {
            list.push(case_init(t, &vs[i]));
            i = i + 1;
        }
        assert(views(list@) =~= vs@.map_values(|v: VariantFFI| case_init_spec(t@, v)));
        join(&list, "\n\n")
    }

    /// The cases of `makeNative()`, separated by newlines.
    pub fn make_native_cases(&self) -> (r: String)
        ensures
            r@ == seq_join(
                self.enum_ffi.variants@.map_values(|v: VariantFFI| make_native_case_spec(self.enum_ffi.type_ident@, v)),
                "\n"@,
            ),
    {
        let t = self.enum_ffi.type_ident.as_str();
        let reprc = self.enum_ffi.reprc_enum();
        let vs = &self.enum_ffi.variants;
        let mut list: Vec<String> = Vec::new();
        let mut i: usize = 0;
        while i < vs.len()
            invariant
                i <= vs.len(),
                reprc@ == reprc_enum_spec(t@),
                list@.len() == i,
                forall|j: int| 0 <= j < i ==> (#[trigger] list@[j])@ == make_native_case_spec(t@, vs@[j]),
            decreases vs.len() - i,
        {
            list.push(make_native_case(reprc.as_str(), &vs[i]));
            i = i + 1;
        }
        assert(views(list@) =~= vs@.map_values(|v: VariantFFI| make_native_case_spec(t@, v)));
        join(&list, "\n")
    }

    /// The patterns binding the FFI class of each case, separated by commas and newlines.
    pub fn ffi_assignment(&self) -> (r: String)
        ensures
            r@ == seq_join(self.enum_ffi.variants@.map_values(|v: VariantFFI| ffi_assignment_spec(v)), ",\n"@),
    {
        let vs = &self.enum_ffi.variants;
        let mut list: Vec<String> = Vec::new();
        let mut i: usize = 0;
        while i < vs.len()
            invariant
                i <= vs.len(),
                list@.len() == i,
                forall|j: int| 0 <= j < i ==> (#[trigger] list@[j])@ == ffi_assignment_spec(vs@[j]),
            decreases vs.len() - i,
        {
            list.push(ffi_assignment_line(&vs[i]));
            i = i + 1;
        }
        assert(views(list@) =~= vs@.map_values(|v: VariantFFI| ffi_assignment_spec(v)));
        join(&list, ",\n")
    }

    /// The FFI class nested in the consumer enum.
    pub fn ffi_declaration(&self) -> (r: String)
        ensures
            r@ == ffi_declaration_spec(self.enum_ffi.type_ident@),
    {
        let free = self.enum_ffi.free_fn_name();
        let mut r = String::from_str("    public final class FFI {\n        internal let pointer: OpaquePointer\n\n        internal init(_ pointer: OpaquePointer) {\n            self.pointer = pointer\n        }\n\n        deinit {\n            ");
        r.append(free.as_str());
        r.append("(pointer)\n        }\n    }");
        r
    }

    /// The conformances converting between the consumer enum and its FFI class.
    pub fn enum_protocol_conformance(&self) -> (r: String)
        ensures
            r@ == enum_protocol_conformance_spec(*self.enum_ffi),
    {
        let t = self.enum_ffi.type_ident.as_str();
        let get_variant = self.enum_ffi.get_variant_fn_name();
        let cases = self.make_native_cases();
        let assignment = self.ffi_assignment();
        let mut r = String::from_str("// MARK: - ForeignEnum\nextension ");
        r.append(t);
        r.append(".FFI: ForeignEnum {\n    public typealias NativeEnumType = ");
        r.append(t);
        r.append("\n\n    public func makeNative() -> NativeEnumType {\n        switch ");
        r.append(get_variant.as_str());
        r.append("(pointer) {\n");
        r.append(cases.as_str());
        r.append("\n        default:\n            fatalError(\"Unreachable\")\n        }\n    }\n}\n\n// MARK: - NativeEnum\nextension ");
        r.append(t);
        r.append(": NativeEnum {\n    public typealias FFIType = Self.FFI\n\n    public var ffi: FFI {\n        switch self {\n        case\n");
        r.append(assignment.as_str());
        r.append("\n        :\n            return ffi\n        }\n    }\n\n    public static func fromRust(pointer: FFIType.ForeignType) -> Self {\n        return FFI.fromRust(pointer).makeNative()\n    }\n}");
        r
    }

    /// The consumer enum with its FFI class and conformances.
    pub fn type_definition(&self) -> (r: Option<String>)
        ensures
            r matches Some(s) && s@ == complex_type_definition_spec(*self.enum_ffi),
    {
        let t = self.enum_ffi.type_ident.as_str();
        let mut r = consumer_docs_from(&self.enum_ffi.doc_comments, 0);
        let defs = self.case_definitions();
        let inits = self.case_inits();
        let decl = self.ffi_declaration();
        let conformance = self.enum_protocol_conformance();
        r.append("public enum ");
        r.append(t);
        r.append(" {\n");
        r.append(defs.as_str());
        r.append("\n\n");
        r.append(inits.as_str());
        r.append("\n}\n\n// MARK: - FFI\nextension ");
        r.append(t);
        r.append(" {\n");
        r.append(decl.as_str());
        r.append("\n}\n\n");
        r.append(conformance.as_str());
        Some(r)
    }

    /// The `NativeData` conformances of the consumer enum and of its FFI class.
    pub fn native_data_impl(&self) -> (r: String)
        ensures
            r@ == complex_native_data_spec(self.enum_ffi.type_ident@),
    {
        let t = self.enum_ffi.type_ident.as_str();
        let clone = self.enum_ffi.clone_fn_name();
        let mut r = String::from_str("// MARK: - NativeData\nextension ");
        r.append(t);
        r.append(".FFI: NativeData {\n    public typealias ForeignType = OpaquePointer?\n\n    /// `clone()` will clone this instance (in Rust) and return a pointer to it that can be\n    /// used when calling a Rust function that takes ownership of an instance (like an initializer\n    /// with a parameter of this type).\n    public func clone() -> ForeignType {\n        return ");
        r.append(clone.as_str());
        r.append("(pointer)\n    }\n\n    /// `borrowReference()` will pass this instance's `pointer` to Rust as a reference. This\n    /// must only be used when calling Rust functions that take a borrowed reference; otherwise,\n    /// Rust will free `pointer` while this instance retains it.\n    public func borrowReference() -> ForeignType {\n        return pointer\n    }\n\n    /// Initializes an instance of this type from a pointer to an instance of the Rust type.\n    public static func fromRust(_ foreignObject: ForeignType) -> Self {\n        return Self(foreignObject!)\n    }\n}\n\nextension ");
        r.append(t);
        r.append(": NativeData {\n    public typealias ForeignType = FFIType.ForeignType\n\n    /// `clone()` will clone this instance (in Rust) and return a pointer to it that can be\n    /// used when calling a Rust function that takes ownership of an instance (like an initializer\n    /// with a parameter of this type).\n    public func clone() -> FFIType.ForeignType {\n        ffi.clone()\n    }\n\n    /// `borrowReference()` will pass this instance's `pointer` to Rust as a reference. This\n    /// must only be used when calling Rust functions that take a borrowed reference; otherwise,\n    /// Rust will free `pointer` while this instance retains it.\n    public func borrowReference() -> FFIType.ForeignType {\n        ffi.borrowReference()\n    }\n\n    /// Initializes an instance of this type from a pointer to an instance of the Rust type.\n    public static func fromRust(_ foreignObject: FFIType.ForeignType) -> Self {\n        Self.FFIType.fromRust(foreignObject).makeNative()\n    }\n}");
        r
    }

    /// The `FFIArray` conformance of the enum's array type.
    pub fn ffi_array_impl(&self) -> (r: String)
        ensures
            r@ == complex_ffi_array_spec(self.enum_ffi.type_ident@),
    {
        let t = self.enum_ffi.type_ident.as_str();
        let an = array_name(t);
        let ai = array_init_fn_name(t);
        let af = array_free_fn_name(t);
        let mut r = String::from_str("extension ");
        r.append(an.as_str());
        r.append(": FFIArray {\n    public typealias Value = OpaquePointer?\n\n    public static func from(ptr: UnsafePointer<Value>?, len: Int) -> Self {\n        ");
        r.append(ai.as_str());
        r.append("(ptr, len)\n    }\n\n    public static func free(_ array: Self) {\n        ");
        r.append(af.as_str());
        r.append("(array)\n    }\n}");
        r
    }

    /// The `NativeArrayData` conformances of the consumer enum and of its FFI class.
    pub fn native_array_data_impl(&self) -> (r: String)
        ensures
            r@ == complex_native_array_data_spec(self.enum_ffi.type_ident@),
    {
        let t = self.enum_ffi.type_ident.as_str();
        let an = array_name(t);
        let mut r = String::from_str("// MARK: - NativeArrayData\nextension ");
        r.append(t);
        r.append(".FFI: NativeArrayData {\n    public typealias FFIArrayType = ");
        r.append(an.as_str());
        r.append("\n}\n\nextension ");
        r.append(t);
        r.append(": NativeArrayData {\n    public typealias FFIArrayType = ");
        r.append(an.as_str());
        r.append("\n}");
        r
    }

    /// The `Optional` extensions for the FFI class and for the consumer enum.
    pub fn option_impl(&self) -> (r: String)
        ensures
            r@ == complex_option_spec(self.enum_ffi.type_ident@),
    {
        let t = self.enum_ffi.type_ident.as_str();
        let body = " {\n    func clone() -> OpaquePointer? {\n        switch self {\n        case let .some(value):\n            return value.clone()\n        case .none:\n            return nil\n        }\n    }\n\n    func borrowReference() -> OpaquePointer? {\n        switch self {\n        case let .some(value):\n            return value.borrowReference()\n        case .none:\n            return nil\n        }\n    }\n\n    static func fromRust(_ ptr: OpaquePointer?) -> Self {\n        guard let ptr = ptr else {\n            return .none\n        }\n        return Wrapped.fromRust(ptr)\n    }\n}";
        let mut r = String::from_str("// MARK: - Optional\npublic extension Optional where Wrapped == ");
        r.append(t);
        r.append(".FFI");
        r.append(body);
        r.append("\n\npublic extension Optional where Wrapped == ");
        r.append(t);
        r.append(body);
        r
    }

    /// The paths the consumer imports.
    pub fn consumer_imports(&self) -> (r: &Vec<Path>)
        ensures
            r == &self.enum_ffi.consumer_imports,
    {
        &self.enum_ffi.consumer_imports
    }
}

/// The initializers of the enum `t` for the variants `vs` define the initializer of each variant.
proof fn lemma_initializers_define(t: Seq<char>, vs: Seq<VariantFFI>, i: int)
    requires
        0 <= i < vs.len(),
    ensures
        contains_text(initializers_spec(t, vs), variant_init_fn_name_spec(t, vs[i].ident@) + "("@),
    decreases vs.len(),
{
    let x = variant_init_fn_name_spec(t, vs[i].ident@) + "("@;
    lemma_contains_extend(x);
    lemma_contains_prepend(x);
    if i == vs.len() - 1 {
        lemma_contains_pair(
            "/// # Safety\n    /// `data` must not be a null pointer, and it must point to the appropriate type for `variant`. Otherwise, this will panic.\n    ///\n    #[no_mangle]\n    pub unsafe extern \"C\" fn "@,
            variant_init_fn_name_spec(t, vs[i].ident@),
            "("@,
        );
        assert(contains_text(variant_initializer_spec(t, vs.last()), x));
    } else {
        lemma_initializers_define(t, vs.drop_last(), i);
        assert(vs.drop_last()[i] == vs[i]);
    }
}

/// The consumer enum of a complex enum calls the functions that the enum's FFI module defines:
/// its FFI class frees the Rust instance with the module's free function, and the static
/// initializer of each variant calls the module's initializer for that variant.
pub proof fn lemma_enum_consumer_links(e: EnumFFI, i: int)
    requires
        0 <= i < e.variants@.len(),
    ensures
        contains_text(complex_module_spec(e), enum_free_fn_name_spec(e.type_ident@) + "(data: *const "@),
        contains_text(ffi_declaration_spec(e.type_ident@), enum_free_fn_name_spec(e.type_ident@) + "(pointer)\n        }\n    }"@),
        contains_text(complex_module_spec(e), variant_init_fn_name_spec(e.type_ident@, e.variants@[i].ident@) + "("@),
        contains_text(case_init_spec(e.type_ident@, e.variants@[i]), variant_init_fn_name_spec(e.type_ident@, e.variants@[i].ident@) + "("@),
{
    let t = e.type_ident@;
    let reprc = reprc_enum_spec(t);
    let v = e.variants@[i];
    let head = "#[allow(box_pointers, missing_docs)]\npub mod "@ + e.module_name@
        + " {\n    use ffi_common::core::{error, paste, declare_opaque_type_ffi};\n    use std::any::Any;\n    "@
        + imports_spec(e.ffi_mod_imports@)
        + "use super::*;\n\n    #[derive(Debug, Clone, Copy, PartialEq, ffi_common::derive::FFI)]\n    #[repr(C)]\n    pub enum "@
        + reprc + " {\n        "@ + variant_list_spec(e.variants@)
        + "\n    }\n\n    #[no_mangle]\n    pub unsafe extern \"C\" fn "@ + get_variant_fn_name_spec(t)
        + "(data: *const "@ + t + ") -> "@ + reprc + " {\n        match &*data {\n            "@
        + variant_match_spec(t, reprc, e.variants@) + "\n        }\n    }\n\n    "@
        + variant_getters_spec(e.variants@) + "\n    "@;
    let free = enum_free_fn_name_spec(t) + "(data: *const "@;
    lemma_contains_extend(free);
    lemma_contains_pair(
        head + initializers_spec(t, e.variants@) + "#[no_mangle]\n    pub unsafe extern \"C\" fn "@
            + enum_clone_fn_name_spec(t) + "(ptr: *const "@ + t + ") -> *const "@ + t
            + " {\n        Box::into_raw(Box::new((&*ptr).clone()))\n    }\n\n    /// # Safety\n    /// `data` must not be a null pointer.\n    ///\n    #[no_mangle]\n    pub unsafe extern \"C\" fn "@,
        enum_free_fn_name_spec(t),
        "(data: *const "@,
    );
    lemma_contains_pair(
        "    public final class FFI {\n        internal let pointer: OpaquePointer\n\n        internal init(_ pointer: OpaquePointer) {\n            self.pointer = pointer\n        }\n\n        deinit {\n            "@,
        enum_free_fn_name_spec(t),
        "(pointer)\n        }\n    }"@,
    );
    let init = variant_init_fn_name_spec(t, v.ident@) + "("@;
    lemma_contains_extend(init);
    lemma_contains_prepend(init);
    lemma_initializers_define(t, e.variants@, i);
    assert(contains_text(head + initializers_spec(t, e.variants@), init));
    let n = v.fields@.len();
    let args = if n == 0 {
        Seq::empty()
    } else if n == 1 {
        "_ data: "@ + field_ct(v.fields@[0])
    } else {
        "_ data: ("@ + seq_join(field_cts(v.fields@), ", "@) + ")"@
    };
    lemma_contains_pair(
        "    static func "@ + mixed_case(v.ident@) + "("@ + args + ") -> Self {\n        FFI("@,
        variant_init_fn_name_spec(t, v.ident@),
        "("@,
    );
}

} // verus!
