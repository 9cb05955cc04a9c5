//! Generates the consumer (Swift) class that wraps a Rust struct exposed through the FFI: a
//! native initializer, a deinitializer that calls the Rust free function, and getters that read
//! the struct's fields through the FFI.

use crate::attributes::CustomAttributes;
use crate::consumer::{consumer_docs_from, docs_spec};
use crate::consumer_enum::{
    array_free_fn_name, array_free_fn_name_spec, array_init_fn_name, array_init_fn_name_spec,
    array_name, array_name_spec,
};
use crate::field_ffi::{ffi_ident_spec, field_expose, getter_name_spec, FieldFFI};
use crate::parsing::{last_ident, Path, RustType};
use crate::struct_ffi::custom::StructFFI as CustomStructFFI;
use crate::struct_ffi::{
    struct_clone_fn_name_spec, struct_free_fn_name_spec, struct_init_fn_name_spec, struct_module_spec, StructFFI,
};
use crate::text::{
    contains_text, lemma_contains_extend, lemma_contains_pair, lemma_contains_prepend, copy_string, indent, join, last_piece, last_piece_spec, mixed_case, seq_join, spaces,
    strip_prefix, strip_prefix_spec, to_mixed_case, views,
};
use crate::type_attributes::{custom_type_readable, custom_type_spec, TypeError};
use crate::type_ffi::{consumer_type_of, consumer_view_type, TypeFFI, TypeFFIView};
use vstd::prelude::*;

verus! {

/// The data for generating the consumer class of a struct.
pub struct ConsumerStruct {
    /// The name of the type.
    pub type_ident: String,
    /// The paths the consumer imports.
    pub consumer_imports: Vec<Path>,
    /// The parameters of the consumer's initializer.
    pub consumer_init_args: String,
    /// The arguments the consumer passes to the FFI initializer.
    pub ffi_init_args: String,
    /// The consumer's getters: read-only variables that call the Rust getters.
    pub consumer_getters: String,
    /// The name of the Rust initializer.
    pub init_fn_name: String,
    /// The name of the Rust free function.
    pub free_fn_name: String,
    /// The name of the Rust clone function.
    pub clone_fn_name: String,
    /// True if the Rust initializer can fail (only for a custom FFI).
    pub failable_init: bool,
    /// True when no memberwise initializer may be generated.
    pub forbid_memberwise_init: bool,
    /// The documentation comments of the type.
    pub docs: String,
}

// ---------------------------------------------------------------------------------------------
// Consumer code of a struct
// ---------------------------------------------------------------------------------------------

/// The consumer's memberwise initializer of `c`, unless memberwise initialization is forbidden:
/// a failable initializer returns `nil` when the Rust initializer gives no pointer.
pub open spec fn init_impl_spec(c: ConsumerStruct) -> Option<Seq<char>> {
    if c.forbid_memberwise_init {
        None
    } else if c.failable_init {
        Some(
            "    internal init?(\n"@ + c.consumer_init_args@ + "\n    ) {\n        guard let pointer = "@
                + c.init_fn_name@ + "(\n"@ + c.ffi_init_args@
                + "\n        ) else {\n            return nil\n        }\n        self.pointer = pointer\n    }"@,
        )
    } else {
        Some(
            "    public init(\n"@ + c.consumer_init_args@ + "\n    ) {\n        self.pointer = "@
                + c.init_fn_name@ + "(\n"@ + c.ffi_init_args@ + "\n        )\n    }"@,
        )
    }
}

/// The consumer class wrapping the Rust type of `c`.
pub open spec fn struct_type_definition_spec(c: ConsumerStruct) -> Seq<char> {
    let init = match init_impl_spec(c) {
        Some(i) => i + "\n\n"@,
        None => Seq::empty(),
    };
    c.docs@ + "public final class "@ + c.type_ident@ + " {\n\n    internal let pointer: OpaquePointer"@
        + "\n\n"@ + init + "    internal init(_ pointer: OpaquePointer) {\n        self.pointer = pointer\n    }\n\n    deinit {\n        "@
        + c.free_fn_name@ + "(pointer)\n    }\n\n"@ + c.consumer_getters@ + "\n}"@
}

/// The `NativeData` conformance of the class of `c`.
pub open spec fn struct_native_data_spec(c: ConsumerStruct) -> Seq<char> {
    "// MARK: - NativeData\nextension "@ + c.type_ident@
        + ": NativeData {\n    public typealias ForeignType = OpaquePointer?\n\n    /// `clone()` will clone this instance (in Rust) and return a pointer to it that can be \n    /// used when calling a Rust function that takes ownership of an instance (like an initializer\n    /// with a parameter of this type).\n    public func clone() -> ForeignType {\n        return "@
        + c.clone_fn_name@
        + "(pointer)\n    }\n\n    /// `borrowReference()` will pass this instance's `pointer` to Rust as a reference. This\n    /// must only be used when calling Rust functions that take a borrowed reference; otherwise,\n    /// Rust will free `pointer` while this instance retains it.\n    public func borrowReference() -> ForeignType {\n        return pointer\n    }\n\n    /// Initializes an instance of this type from a pointer to an instance of the Rust type.\n    public static func fromRust(_ foreignObject: ForeignType) -> Self {\n        return Self(foreignObject!)\n    }\n}"@
}

/// The `FFIArray` conformance of the array type of the class named `t`.
pub open spec fn struct_ffi_array_spec(t: Seq<char>) -> Seq<char> {
    "// MARK: - FFIArray\nextension "@ + array_name_spec(t)
        + ": FFIArray {\n    public typealias Value = OpaquePointer?\n\n    public static func from(ptr: UnsafePointer<Value>?, len: Int) -> Self {\n        "@
        + array_init_fn_name_spec(t) + "(ptr, len)\n    }\n\n    public static func free(_ array: Self) {\n        "@
        + array_free_fn_name_spec(t) + "(array)\n    }\n}"@
}

/// The `NativeArrayData` conformance of the class named `t`.
pub open spec fn struct_native_array_data_spec(t: Seq<char>) -> Seq<char> {
    "// MARK: - NativeArrayData\nextension "@ + t + ": NativeArrayData {\n    public typealias FFIArrayType = "@
        + array_name_spec(t) + "\n}"@
}

/// The `Optional` extension for the class named `t`.
pub open spec fn struct_option_spec(t: Seq<char>) -> Seq<char> {
    "// MARK: - Optional\npublic extension Optional where Wrapped == "@ + t
        + " {\n    func clone() -> OpaquePointer? {\n        switch self {\n        case let .some(value):\n            return value.clone()\n        case .none:\n            return nil\n        }\n    }\n\n    func borrowReference() -> OpaquePointer? {\n        switch self {\n        case let .some(value):\n            return value.borrowReference()\n        case .none:\n            return nil\n        }\n    }\n\n    static func fromRust(_ ptr: OpaquePointer?) -> Self {\n        guard let ptr = ptr else {\n            return .none\n        }\n        return Wrapped.fromRust(ptr)\n    }\n}"@
}

impl ConsumerStruct {
    /// The name of the consumer's array type, as in `FFIArrayFoo`.
    pub fn array_name(&self) -> (r: String)
        ensures
            r@ == array_name_spec(self.type_ident@),
    {
        array_name(self.type_ident.as_str())
    }

    /// The name of the FFI array initializer.
    pub fn array_init(&self) -> (r: String)
        ensures
            r@ == array_init_fn_name_spec(self.type_ident@),
    {
        array_init_fn_name(self.type_ident.as_str())
    }

    /// The name of the FFI array free function.
    pub fn array_free(&self) -> (r: String)
        ensures
            r@ == array_free_fn_name_spec(self.type_ident@),
    {
        array_free_fn_name(self.type_ident.as_str())
    }

    /// The name of the type in the consumer.
    pub fn consumer_type_name(&self) -> (r: String)
        ensures
            r@ == self.type_ident@,
    {
        copy_string(&self.type_ident)
    }

    /// The paths the consumer imports.
    pub fn consumer_imports(&self) -> (r: &Vec<Path>)
        ensures
            r == &self.consumer_imports,
    {
        &self.consumer_imports
    }

    /// The consumer's memberwise initializer, unless memberwise initialization is forbidden.
    pub fn init_impl(&self) -> (r: Option<String>)
        ensures
            match r {
                Some(s) => init_impl_spec(*self) == Some(s@),
                None => init_impl_spec(*self) is None,
            },
    {
        if self.forbid_memberwise_init {
            return None;
        }
        if self.failable_init {
            let mut r = String::from_str("    internal init?(\n");
            r.append(self.consumer_init_args.as_str());
            r.append("\n    ) {\n        guard let pointer = ");
            r.append(self.init_fn_name.as_str());
            r.append("(\n");
            r.append(self.ffi_init_args.as_str());
            r.append("\n        ) else {\n            return nil\n        }\n        self.pointer = pointer\n    }");
            Some(r)
        } else {
            let mut r = String::from_str("    public init(\n");
            r.append(self.consumer_init_args.as_str());
            r.append("\n    ) {\n        self.pointer = ");
            r.append(self.init_fn_name.as_str());
            r.append("(\n");
            r.append(self.ffi_init_args.as_str());
            r.append("\n        )\n    }");
            Some(r)
        }
    }

    /// The consumer class wrapping the Rust type: the pointer to the Rust instance, the
    /// memberwise initializer (when allowed), the initializer from a pointer, the deinitializer
    /// and the getters.
    pub fn type_definition(&self) -> (r: Option<String>)
        ensures
            r matches Some(s) && s@ == struct_type_definition_spec(*self),
    {
        let mut r = copy_string(&self.docs);
        r.append("public final class ");
        r.append(self.type_ident.as_str());
        r.append(" {\n\n    internal let pointer: OpaquePointer");
        r.append("\n\n");
        match self.init_impl() {
            Some(i) => {
                r.append(i.as_str());
                r.append("\n\n");
            },
            None => {},
        }
        r.append("    internal init(_ pointer: OpaquePointer) {\n        self.pointer = pointer\n    }\n\n    deinit {\n        ");
        r.append(self.free_fn_name.as_str());
        r.append("(pointer)\n    }\n\n");
        r.append(self.consumer_getters.as_str());
        r.append("\n}");
        Some(r)
    }

    /// The `NativeData` conformance of the class.
    pub fn native_data_impl(&self) -> (r: String)
        ensures
            r@ == struct_native_data_spec(*self),
    {
        let mut r = String::from_str("// MARK: - NativeData\nextension ");
        r.append(self.type_ident.as_str());
        r.append(": NativeData {\n    public typealias ForeignType = OpaquePointer?\n\n    /// `clone()` will clone this instance (in Rust) and return a pointer to it that can be \n    /// used when calling a Rust function that takes ownership of an instance (like an initializer\n    /// with a parameter of this type).\n    public func clone() -> ForeignType {\n        return ");
        r.append(self.clone_fn_name.as_str());
        r.append("(pointer)\n    }\n\n    /// `borrowReference()` will pass this instance's `pointer` to Rust as a reference. This\n    /// must only be used when calling Rust functions that take a borrowed reference; otherwise,\n    /// Rust will free `pointer` while this instance retains it.\n    public func borrowReference() -> ForeignType {\n        return pointer\n    }\n\n    /// Initializes an instance of this type from a pointer to an instance of the Rust type.\n    public static func fromRust(_ foreignObject: ForeignType) -> Self {\n        return Self(foreignObject!)\n    }\n}");
        r
    }

    /// The `FFIArray` conformance of the class's array type.
    pub fn ffi_array_impl(&self) -> (r: String)
        ensures
            r@ == struct_ffi_array_spec(self.type_ident@),
    {
        let an = self.array_name();
        let ai = self.array_init();
        let af = self.array_free();
        let mut r = String::from_str("// MARK: - FFIArray\nextension ");
        r.append(an.as_str());
        r.append(": FFIArray {\n    public typealias Value = OpaquePointer?\n\n    public static func from(ptr: UnsafePointer<Value>?, len: Int) -> Self {\n        ");
        r.append(ai.as_str());
        r.append("(ptr, len)\n    }\n\n    public static func free(_ array: Self) {\n        ");
        r.append(af.as_str());
        r.append("(array)\n    }\n}");
        r
    }

    /// The `NativeArrayData` conformance of the class.
    pub fn native_array_data_impl(&self) -> (r: String)
        ensures
            r@ == struct_native_array_data_spec(self.type_ident@),
    {
        let an = self.array_name();
        let mut r = String::from_str("// MARK: - NativeArrayData\nextension ");
        r.append(self.type_ident.as_str());
        r.append(": NativeArrayData {\n    public typealias FFIArrayType = ");
        r.append(an.as_str());
        r.append("\n}");
        r
    }

    /// The `Optional` extension for the class.
    pub fn option_impl(&self) -> (r: String)
        ensures
            r@ == struct_option_spec(self.type_ident@),
    {
        let mut r = String::from_str("// MARK: - Optional\npublic extension Optional where Wrapped == ");
        r.append(self.type_ident.as_str());
        r.append(" {\n    func clone() -> OpaquePointer? {\n        switch self {\n        case let .some(value):\n            return value.clone()\n        case .none:\n            return nil\n        }\n    }\n\n    func borrowReference() -> OpaquePointer? {\n        switch self {\n        case let .some(value):\n            return value.borrowReference()\n        case .none:\n            return nil\n        }\n    }\n\n    static func fromRust(_ ptr: OpaquePointer?) -> Self {\n        guard let ptr = ptr else {\n            return .none\n        }\n        return Wrapped.fromRust(ptr)\n    }\n}");
        r
    }
}

// ---------------------------------------------------------------------------------------------
// From a struct with a derived FFI
// ---------------------------------------------------------------------------------------------

/// The consumer type of the field `f`.
pub open spec fn field_consumer_type(f: FieldFFI) -> Seq<char> {
    consumer_type_of(f.native_type_data, field_expose(f))
}

/// The consumer initializer parameter for the field `f`, as in `foo: Bar`.
pub open spec fn consumer_init_arg_spec(f: FieldFFI) -> Seq<char> {
    spaces(8) + ffi_ident_spec(f.field_name) + ": "@ + field_consumer_type(f)
}

/// The argument passing the field `f` to the FFI initializer: borrowed for a borrowed type,
/// cloned otherwise.
pub open spec fn ffi_init_arg_spec(f: FieldFFI) -> Seq<char> {
    spaces(12) + ffi_ident_spec(f.field_name) + "."@ + (if f.native_type_data.is_borrow {
        "borrowReference"@
    } else {
        "clone"@
    }) + "()"@
}

/// The consumer getter for the field `f`, which reads it through its Rust getter.
pub open spec fn consumer_getter_spec(f: FieldFFI) -> Seq<char> {
    let t = field_consumer_type(f);
    "    public var "@ + ffi_ident_spec(f.field_name) + ": "@ + t + " {\n        "@ + t + ".fromRust("@
        + getter_name_spec(f) + "(pointer))\n    }"@
}

/// The consumer class data of the struct `s`: its fields expanded into the initializer's
/// parameters and FFI arguments (separated by commas and newlines) and the getters (separated by
/// blank lines).
pub open spec fn from_standard_spec(c: ConsumerStruct, s: StructFFI) -> bool {
    let fs = s.fields@;
    &&& c.type_ident@ == s.name@
    &&& c.consumer_imports == s.consumer_imports
    &&& c.consumer_init_args@ == seq_join(fs.map_values(|f: FieldFFI| consumer_init_arg_spec(f)), ",\n"@)
    &&& c.ffi_init_args@ == seq_join(fs.map_values(|f: FieldFFI| ffi_init_arg_spec(f)), ",\n"@)
    &&& c.consumer_getters@ == seq_join(fs.map_values(|f: FieldFFI| consumer_getter_spec(f)), "\n\n"@)
    &&& c.init_fn_name@ == struct_init_fn_name_spec(s.name@)
    &&& c.free_fn_name@ == struct_free_fn_name_spec(s.name@)
    &&& c.clone_fn_name@ == struct_clone_fn_name_spec(s.name@)
    &&& !c.failable_init
    &&& c.forbid_memberwise_init == s.forbid_memberwise_init
    &&& c.docs@ == docs_spec(views(s.doc_comments@), 0)
}

// ---------------------------------------------------------------------------------------------
// From a struct with a custom FFI
// ---------------------------------------------------------------------------------------------

/// Why the consumer class of a struct with a custom FFI cannot be generated.
#[derive(Debug, Clone, Copy, PartialEq, Eq, Structural)]
pub enum ConsumerStructError {
    /// A path to a failable function has no segment.
    MissingPathSegment,
    /// A type of the custom FFI cannot be exposed.
    Type(TypeError),
}

/// The names of the failable functions of a custom FFI: the last segment of each path.
pub open spec fn failable_idents(c: CustomAttributes) -> Seq<Seq<char>> {
    c.failable_fns@.map_values(|p: Path| last_ident(p)->0)
}

/// True when every path to a failable function has a segment.
pub open spec fn failable_paths_ok(c: CustomAttributes) -> bool {
    forall|i: int| 0 <= i < c.failable_fns@.len() ==> last_ident(#[trigger] c.failable_fns@[i]) is Some
}

/// The consumer's name for the getter `g` of the type `t`: what follows the prefix `get_t_`, in
/// mixed case.
pub open spec fn consumer_getter_name_spec(g: Seq<char>, t: Seq<char>) -> Seq<char> {
    mixed_case(last_piece_spec(g, "get_"@ + t + "_"@))
}

/// The consumer getter for the custom getter `g` of the type `t`, returning a value of the type
/// data `ty`: internal when the getter can fail, public otherwise.
pub open spec fn custom_getter_spec(g: Seq<char>, ty: TypeFFIView, t: Seq<char>, failable: Seq<Seq<char>>) -> Seq<char> {
    let access = if failable.contains(g) {
        "internal"@
    } else {
        "public"@
    };
    let ct = consumer_view_type(ty, None);
    "    "@ + access + " var "@ + consumer_getter_name_spec(g, t) + ": "@ + ct + " {\n        "@ + ct
        + ".fromRust("@ + g + "(pointer))\n    }"@
}

/// An initializer argument's name without the `required_` prefix, and whether it had it.
pub open spec fn required_arg(a: Seq<char>) -> (bool, Seq<char>) {
    match strip_prefix_spec(a, "required_"@) {
        Some(rest) => (true, rest),
        None => (false, a),
    }
}

/// The type data of the custom type `ty`, given that it reads.
pub open spec fn custom_view(ty: RustType, required: bool) -> TypeFFIView {
    custom_type_spec(ty, required)->Ok_0
}

/// The consumer initializer parameter for the custom initializer argument `a` of the type `ty`.
pub open spec fn custom_init_arg_spec(a: (Seq<char>, RustType)) -> Seq<char> {
    let (required, name) = required_arg(a.0);
    spaces(8) + name + ": "@ + consumer_view_type(custom_view(a.1, required), None)
}

/// The argument passing the custom initializer argument `a` to the FFI initializer: always a
/// clone, since the new Rust instance takes ownership.
pub open spec fn custom_ffi_arg_spec(a: (Seq<char>, RustType)) -> Seq<char> {
    spaces(12) + required_arg(a.0).1 + ".clone()"@
}

/// True when every type of the custom FFI of `s` can be read.
pub open spec fn custom_types_readable(s: CustomStructFFI) -> bool {
    &&& forall|i: int| 0 <= i < s.init_args@.len() ==> custom_type_readable((#[trigger] s.init_args@[i]).1)
    &&& forall|i: int| 0 <= i < s.getters@.len() ==> custom_type_readable((#[trigger] s.getters@[i]).1)
}

/// True when every type of the custom FFI of `s` can be exposed.
pub open spec fn custom_types_ok(s: CustomStructFFI) -> bool {
    &&& forall|i: int| 0 <= i < s.init_args@.len() ==> custom_type_spec(
        (#[trigger] s.init_args@[i]).1,
        required_arg(s.init_args@[i].0@).0,
    ) is Ok
    &&& forall|i: int| 0 <= i < s.getters@.len() ==> custom_type_spec((#[trigger] s.getters@[i]).1, false) is Ok
}

/// True when `e` is why the first type of the custom FFI of `s` that cannot be exposed is
/// rejected: the initializer's arguments first, then the getters.
pub open spec fn first_custom_type_error(s: CustomStructFFI, e: TypeError) -> bool {
    let args = s.init_args@;
    let gs = s.getters@;
    ||| exists|i: int| {
        &&& 0 <= i < args.len()
        &&& (forall|k: int| 0 <= k < i ==> custom_type_spec((#[trigger] args[k]).1, required_arg(args[k].0@).0) is Ok)
        &&& custom_type_spec((#[trigger] args[i]).1, required_arg(args[i].0@).0) == Err::<TypeFFIView, TypeError>(e)
    }
    ||| {
        &&& (forall|k: int| 0 <= k < args.len() ==> custom_type_spec((#[trigger] args[k]).1, required_arg(args[k].0@).0) is Ok)
        &&& exists|j: int| {
            &&& 0 <= j < gs.len()
            &&& (forall|k: int| 0 <= k < j ==> custom_type_spec((#[trigger] gs[k]).1, false) is Ok)
            &&& custom_type_spec((#[trigger] gs[j]).1, false) == Err::<TypeFFIView, TypeError>(e)
        }
    }
}

/// The consumer class data of the struct `s` with a custom FFI.
pub open spec fn from_custom_spec(c: ConsumerStruct, s: CustomStructFFI) -> bool {
    let t = s.type_ident@;
    let args = s.init_args@.map_values(|a: (String, RustType)| (a.0@, a.1));
    let failable = failable_idents(s.custom_attributes);
    &&& c.type_ident@ == t
    &&& c.consumer_imports == s.consumer_imports
    &&& c.consumer_init_args@ == seq_join(args.map_values(|a: (Seq<char>, RustType)| custom_init_arg_spec(a)), ",\n"@)
    &&& c.ffi_init_args@ == seq_join(args.map_values(|a: (Seq<char>, RustType)| custom_ffi_arg_spec(a)), ",\n"@)
    &&& c.consumer_getters@ == seq_join(
        s.getters@.map_values(|g: (String, RustType)| custom_getter_spec(g.0@, custom_view(g.1, false), t, failable)),
        "\n\n"@,
    )
    &&& c.init_fn_name@ == s.init_fn_name@
    &&& c.free_fn_name@ == s.free_fn_name@
    &&& c.clone_fn_name@ == s.clone_fn_name@
    &&& c.failable_init == s.custom_attributes.failable_init
    &&& c.forbid_memberwise_init == s.forbid_memberwise_init
    &&& c.docs@ == docs_spec(views(s.doc_comments@), 0)
}

/// The names of the failable functions: the last segment of each path.
fn failable_names(c: &CustomAttributes) -> (r: Option<Vec<String>>)
    ensures
        r is Some <==> failable_paths_ok(*c),
        r matches Some(v) ==> views(v@) == failable_idents(*c),
{
    let ps = &c.failable_fns;
    let mut r: Vec<String> = Vec::new();
    let mut i: usize = 0;
    while i < ps.len()
        invariant
            i <= ps.len(),
            ps@ == c.failable_fns@,
            r@.len() == i,
            forall|j: int| 0 <= j < i ==> last_ident(#[trigger] ps@[j]) == Some(r@[j]@),
        decreases ps.len() - i,
    {
        let n = ps[i].segments.len();
        if n == 0 {
            assert(last_ident(c.failable_fns@[i as int]) is None);
            return None;
        }
        r.push(copy_string(&ps[i].segments[n - 1].ident));
        i = i + 1;
    }
    assert(views(r@) =~= failable_idents(*c));
    Some(r)
}

impl ConsumerStruct {
    /// The consumer class data of a struct with a derived FFI: the fields expanded into the
    /// initializer's parameters (`foo: Bar`), the arguments passed to the FFI initializer
    /// (`foo.clone()`, or `foo.borrowReference()` for a borrowed type) and the getters.
    pub fn from_standard(struct_ffi: StructFFI) -> (r: ConsumerStruct)
        ensures
            from_standard_spec(r, struct_ffi),
    {
        let fs = &struct_ffi.fields;
        let mut init_args: Vec<String> = Vec::new();
        let mut ffi_args: Vec<String> = Vec::new();
        let mut getters: Vec<String> = Vec::new();
        let l2 = indent(8);
        let l3 = indent(12);
        let mut i: usize = 0;
        while i < fs.len()
            invariant
                i <= fs.len(),
                l2@ == spaces(8),
                l3@ == spaces(12),
                init_args@.len() == i,
                ffi_args@.len() == i,
                getters@.len() == i,
                forall|j: int| 0 <= j < i ==> (#[trigger] init_args@[j])@ == consumer_init_arg_spec(fs@[j]),
                forall|j: int| 0 <= j < i ==> (#[trigger] ffi_args@[j])@ == ffi_init_arg_spec(fs@[j]),
                forall|j: int| 0 <= j < i ==> (#[trigger] getters@[j])@ == consumer_getter_spec(fs@[j]),
            decreases fs.len() - i,
        {
            let f = &fs[i];
            let ident = f.field_name.consumer_ident();
            let t = f.native_type_data.consumer_type(f.attributes.expose_as_ident());
            let mut a = copy_string(&l2);
            a.append(ident.as_str());
            a.append(": ");
            a.append(t.as_str());
            init_args.push(a);
            let mut b = copy_string(&l3);
            b.append(ident.as_str());
            b.append(".");
            if f.native_type_data.is_borrow {
                b.append("borrowReference");
            } else {
                b.append("clone");
            }
            b.append("()");
            ffi_args.push(b);
            let getter = f.getter_name();
            let mut g = String::from_str("    public var ");
            g.append(ident.as_str());
            g.append(": ");
            g.append(t.as_str());
            g.append(" {\n        ");
            g.append(t.as_str());
            g.append(".fromRust(");
            g.append(getter.as_str());
            g.append("(pointer))\n    }");
            getters.push(g);
            i = i + 1;
        }
        proof {
            assert(views(init_args@) =~= fs@.map_values(|f: FieldFFI| consumer_init_arg_spec(f)));
            assert(views(ffi_args@) =~= fs@.map_values(|f: FieldFFI| ffi_init_arg_spec(f)));
            assert(views(getters@) =~= fs@.map_values(|f: FieldFFI| consumer_getter_spec(f)));
        }
        let consumer_init_args = join(&init_args, ",\n");
        let ffi_init_args = join(&ffi_args, ",\n");
        let consumer_getters = join(&getters, "\n\n");
        let init_fn_name = struct_ffi.init_fn_name();
        let free_fn_name = struct_ffi.free_fn_name();
        let clone_fn_name = struct_ffi.clone_fn_name();
        let docs = consumer_docs_from(&struct_ffi.doc_comments, 0);
        let type_ident = copy_string(&struct_ffi.name);
        ConsumerStruct {
            type_ident,
            consumer_imports: struct_ffi.consumer_imports,
            consumer_init_args,
            ffi_init_args,
            consumer_getters,
            init_fn_name,
            free_fn_name,
            clone_fn_name,
            failable_init: false,
            forbid_memberwise_init: struct_ffi.forbid_memberwise_init,
            docs,
        }
    }

    /// The consumer class data of a struct with a custom FFI: the initializer's arguments become
    /// parameters (an argument prefixed `required_` loses the prefix and is not optional) and
    /// cloned FFI arguments; each getter becomes a variable named after what follows `get_Type_`,
    /// internal when the getter can fail. A path to a failable function without a segment, or a
    /// type that cannot be exposed, is rejected.
    pub fn from_custom(inputs: CustomStructFFI) -> (r: Result<ConsumerStruct, ConsumerStructError>)
        requires
            custom_types_readable(inputs),
        ensures
            r is Ok <==> failable_paths_ok(inputs.custom_attributes) && custom_types_ok(inputs),
            r matches Ok(c) ==> from_custom_spec(c, inputs),
            r matches Err(ConsumerStructError::MissingPathSegment) ==> !failable_paths_ok(inputs.custom_attributes),
            r matches Err(ConsumerStructError::Type(e)) ==> failable_paths_ok(inputs.custom_attributes)
                && first_custom_type_error(inputs, e),
    {
        let failable = match failable_names(&inputs.custom_attributes) {
            Some(f) => f,
            None => {
                return Err(ConsumerStructError::MissingPathSegment);
            },
        };
        let t = inputs.type_ident.as_str();
        let mut prefix = String::from_str("get_");
        prefix.append(t);
        prefix.append("_");
        proof {
            reveal_strlit("get_");
            reveal_strlit("_");
        }
        let ghost args_v = inputs.init_args@.map_values(|a: (String, RustType)| (a.0@, a.1));
        let ia = &inputs.init_args;
        let mut consumer_args: Vec<String> = Vec::new();
        let mut ffi_args: Vec<String> = Vec::new();
        let l2 = indent(8);
        let l3 = indent(12);
        let mut i: usize = 0;
        while i < ia.len()
            invariant
                i <= ia.len(),
                ia == &inputs.init_args,
                custom_types_readable(inputs),
                failable_paths_ok(inputs.custom_attributes),
                args_v == inputs.init_args@.map_values(|a: (String, RustType)| (a.0@, a.1)),
                l2@ == spaces(8),
                l3@ == spaces(12),
                consumer_args@.len() == i,
                ffi_args@.len() == i,
                forall|j: int| 0 <= j < i ==> custom_type_spec((#[trigger] ia@[j]).1, required_arg(ia@[j].0@).0) is Ok,
                forall|j: int| 0 <= j < i ==> (#[trigger] consumer_args@[j])@ == custom_init_arg_spec(args_v[j]),
                forall|j: int| 0 <= j < i ==> (#[trigger] ffi_args@[j])@ == custom_ffi_arg_spec(args_v[j]),
            decreases ia.len() - i,
        {
            let (name, ty) = (&ia[i].0, &ia[i].1);
            let (required, stripped) = match strip_prefix(name.as_str(), "required_") {
                Some(rest) => (true, rest),
                None => (false, copy_string(name)),
            };
            assert(custom_type_readable(inputs.init_args@[i as int].1));
            let data = match TypeFFI::from_custom(ty, required) {
                Ok(d) => d,
                Err(e) => {
                    return Err(ConsumerStructError::Type(e));
                },
            };
            let ct = data.consumer_type(None);
            let mut a = copy_string(&l2);
            a.append(stripped.as_str());
            a.append(": ");
            a.append(ct.as_str());
            consumer_args.push(a);
            let mut b = copy_string(&l3);
            b.append(stripped.as_str());
            b.append(".clone()");
            ffi_args.push(b);
            i = i + 1;
        }
        proof {
            assert(views(consumer_args@) =~= args_v.map_values(|a: (Seq<char>, RustType)| custom_init_arg_spec(a)));
            assert(views(ffi_args@) =~= args_v.map_values(|a: (Seq<char>, RustType)| custom_ffi_arg_spec(a)));
        }
        let gs = &inputs.getters;
        let mut getters: Vec<String> = Vec::new();
        let mut k: usize = 0;
        while k < gs.len()
            invariant
                k <= gs.len(),
                gs == &inputs.getters,
                custom_types_readable(inputs),
                failable_paths_ok(inputs.custom_attributes),
                forall|j: int| 0 <= j < inputs.init_args@.len() ==> custom_type_spec(
                    (#[trigger] inputs.init_args@[j]).1,
                    required_arg(inputs.init_args@[j].0@).0,
                ) is Ok,
                views(failable@) == failable_idents(inputs.custom_attributes),
                prefix@ == "get_"@ + inputs.type_ident@ + "_"@,
                prefix@.len() > 0,
                getters@.len() == k,
                forall|j: int| 0 <= j < k ==> custom_type_spec((#[trigger] gs@[j]).1, false) is Ok,
                forall|j: int| 0 <= j < k ==> (#[trigger] getters@[j])@ == custom_getter_spec(
                    gs@[j].0@,
                    custom_view(gs@[j].1, false),
                    inputs.type_ident@,
                    failable_idents(inputs.custom_attributes),
                ),
            decreases gs.len() - k,
        {
            let (name, ty) = (&gs[k].0, &gs[k].1);
            assert(custom_type_readable(inputs.getters@[k as int].1));
            let data = match TypeFFI::from_custom(ty, false) {
                Ok(d) => d,
                Err(e) => {
                    return Err(ConsumerStructError::Type(e));
                },
            };
            let access = if crate::type_attributes::contains_name(&failable, name.as_str()) {
                "internal"
            } else {
                "public"
            };
            let ct = data.consumer_type(None);
            let piece = last_piece(name.as_str(), prefix.as_str());
            let consumer_name = to_mixed_case(piece.as_str());
            let mut g = String::from_str("    ");
            g.append(access);
            g.append(" var ");
            g.append(consumer_name.as_str());
            g.append(": ");
            g.append(ct.as_str());
            g.append(" {\n        ");
            g.append(ct.as_str());
            g.append(".fromRust(");
            g.append(name.as_str());
            g.append("(pointer))\n    }");
            getters.push(g);
            k = k + 1;
        }
        proof {
            assert(views(getters@) =~= inputs.getters@.map_values(|g: (String, RustType)| custom_getter_spec(g.0@, custom_view(g.1, false), inputs.type_ident@, failable_idents(inputs.custom_attributes))));
        }
        let consumer_init_args = join(&consumer_args, ",\n");
        let ffi_init_args = join(&ffi_args, ",\n");
        let consumer_getters = join(&getters, "\n\n");
        let docs = consumer_docs_from(&inputs.doc_comments, 0);
        Ok(ConsumerStruct {
            type_ident: inputs.type_ident,
            consumer_imports: inputs.consumer_imports,
            consumer_init_args,
            ffi_init_args,
            consumer_getters,
            init_fn_name: inputs.init_fn_name,
            free_fn_name: inputs.free_fn_name,
            clone_fn_name: inputs.clone_fn_name,
            failable_init: inputs.custom_attributes.failable_init,
            forbid_memberwise_init: inputs.forbid_memberwise_init,
            docs,
        })
    }
}

/// The consumer class of a struct with a derived FFI calls the functions that the struct's FFI
/// module defines: its deinitializer frees the Rust instance with the module's free function,
/// and its memberwise initializer (when allowed) calls the module's initializer.
pub proof fn lemma_struct_consumer_links(c: ConsumerStruct, s: StructFFI)
    requires
        from_standard_spec(c, s),
    ensures
        contains_text(struct_module_spec(s), c.free_fn_name@ + "(data: *const "@),
        contains_text(struct_type_definition_spec(c), c.free_fn_name@ + "(pointer)\n    }\n\n"@),
        contains_text(struct_module_spec(s), c.init_fn_name@ + "(\n        "@),
        !c.forbid_memberwise_init ==> contains_text(struct_type_definition_spec(c), c.init_fn_name@ + "(\n"@),
{
    let t = s.name@;
    let free = c.free_fn_name@ + "(data: *const "@;
    lemma_contains_extend(free);
    lemma_contains_pair(
        "#[allow(box_pointers, missing_docs)]\npub mod "@ + s.module_name@
            + " {\n    use ffi_common::{*, datetime::*, ffi_string, string::FFIArrayString};\n    use std::os::raw::c_char;\n    use std::{ffi::{CStr, CString}, mem::ManuallyDrop, ptr};\n    use paste::paste;\n    "@
            + crate::struct_ffi::extra_imports_spec(s) + "use super::*;\n\n    #[no_mangle]\n    pub unsafe extern \"C\" fn "@,
        c.free_fn_name@,
        "(data: *const "@,
    );
    let init = c.init_fn_name@ + "(\n        "@;
    lemma_contains_extend(init);
    lemma_contains_pair(
        "#[allow(box_pointers, missing_docs)]\npub mod "@ + s.module_name@
            + " {\n    use ffi_common::{*, datetime::*, ffi_string, string::FFIArrayString};\n    use std::os::raw::c_char;\n    use std::{ffi::{CStr, CString}, mem::ManuallyDrop, ptr};\n    use paste::paste;\n    "@
            + crate::struct_ffi::extra_imports_spec(s) + "use super::*;\n\n    #[no_mangle]\n    pub unsafe extern \"C\" fn "@
            + struct_free_fn_name_spec(t) + "(data: *const "@ + t + ") {\n        let _ = Box::from_raw(data as *mut "@ + t
            + ");\n    }\n\n    declare_opaque_type_ffi! { "@ + t + " }\n\n    #[no_mangle]\n    pub extern \"C\" fn "@,
        c.init_fn_name@,
        "(\n        "@,
    );
    let deinit = c.free_fn_name@ + "(pointer)\n    }\n\n"@;
    lemma_contains_extend(deinit);
    let init_text = match init_impl_spec(c) {
        Some(i) => i + "\n\n"@,
        None => Seq::empty(),
    };
    lemma_contains_pair(
        c.docs@ + "public final class "@ + c.type_ident@ + " {\n\n    internal let pointer: OpaquePointer"@ + "\n\n"@
            + init_text + "    internal init(_ pointer: OpaquePointer) {\n        self.pointer = pointer\n    }\n\n    deinit {\n        "@,
        c.free_fn_name@,
        "(pointer)\n    }\n\n"@,
    );
    if !c.forbid_memberwise_init {
        let call = c.init_fn_name@ + "(\n"@;
        lemma_contains_extend(call);
        lemma_contains_prepend(call);
        if c.failable_init {
            lemma_contains_pair(
                "    internal init?(\n"@ + c.consumer_init_args@ + "\n    ) {\n        guard let pointer = "@,
                c.init_fn_name@,
                "(\n"@,
            );
        } else {
            lemma_contains_pair(
                "    public init(\n"@ + c.consumer_init_args@ + "\n    ) {\n        self.pointer = "@,
                c.init_fn_name@,
                "(\n"@,
            );
        }
        assert(contains_text(init_text, call));
    }
}

/// The consumer's getter of a field calls the Rust getter that the FFI defines for it: both use
/// the field's getter name.
pub proof fn lemma_field_getter_links(f: FieldFFI)
    ensures
        contains_text(crate::field_ffi::getter_fn_spec(f), getter_name_spec(f) + "(\n        ptr: *const "@),
        contains_text(consumer_getter_spec(f), getter_name_spec(f) + "(pointer))\n    }"@),
{
    let t = f.type_ident@;
    let x = getter_name_spec(f) + "(\n        ptr: *const "@;
    lemma_contains_extend(x);
    match f.field_source {
        crate::field_ffi::FieldSource::Struct => {
            let field = crate::field_ffi::rust_token_spec(f.field_name);
            lemma_contains_pair(
                "ffi_common::core::paste! {\n    #[no_mangle]\n    #[doc = \"Get `\" "@ + field
                    + " \"` for this `\" "@ + t + " \"`.\"]\n    pub unsafe extern \"C\" fn "@,
                getter_name_spec(f),
                "(\n        ptr: *const "@,
            );
        },
        crate::field_ffi::FieldSource::Enum { .. } => {
            lemma_contains_pair(
                "ffi_common::core::paste! {\n    #[no_mangle]\n    pub unsafe extern \"C\" fn "@,
                getter_name_spec(f),
                "(\n        ptr: *const "@,
            );
        },
    }
    let ct = field_consumer_type(f);
    lemma_contains_pair(
        "    public var "@ + ffi_ident_spec(f.field_name) + ": "@ + ct + " {\n        "@ + ct + ".fromRust("@,
        getter_name_spec(f),
        "(pointer))\n    }"@,
    );
}

} // verus!
