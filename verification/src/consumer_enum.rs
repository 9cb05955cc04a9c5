//! Consumer (Swift) code for `repr(C)` enums, and the names shared by the consumer code of all
//! enums.

use crate::parsing::Path;
use vstd::prelude::*;

verus! {

/// Name of the consumer's array type for the enum `t`.
pub open spec fn array_name_spec(t: Seq<char>) -> Seq<char> {
    "FFIArray"@ + t
}

/// Name of the FFI function that builds an array of the enum `t`.
pub open spec fn array_init_fn_name_spec(t: Seq<char>) -> Seq<char> {
    "ffi_array_"@ + t + "_init"@
}

/// Name of the FFI function that frees an array of the enum `t`.
pub open spec fn array_free_fn_name_spec(t: Seq<char>) -> Seq<char> {
    "ffi_array_"@ + t + "_free"@
}

/// Name of the FFI function that boxes an optional value of the enum `t`.
pub open spec fn option_init_fn_name_spec(t: Seq<char>) -> Seq<char> {
    "option_"@ + t + "_init"@
}

/// Name of the FFI function that frees a boxed optional value of the enum `t`.
pub open spec fn option_free_fn_name_spec(t: Seq<char>) -> Seq<char> {
    "option_"@ + t + "_free"@
}

/// The consumer's array type name for the enum named `t`.
pub fn array_name(t: &str) -> (r: String)
    ensures
        r@ == array_name_spec(t@),
{
    let mut r = String::from_str("FFIArray");
    r.append(t);
    r
}

/// The name of the FFI array initializer for the enum named `t`.
pub fn array_init_fn_name(t: &str) -> (r: String)
    ensures
        r@ == array_init_fn_name_spec(t@),
{
    let mut r = String::from_str("ffi_array_");
    r.append(t);
    r.append("_init");
    r
}

/// The name of the FFI array free function for the enum named `t`.
pub fn array_free_fn_name(t: &str) -> (r: String)
    ensures
        r@ == array_free_fn_name_spec(t@),
{
    let mut r = String::from_str("ffi_array_");
    r.append(t);
    r.append("_free");
    r
}

/// The name of the FFI optional initializer for the enum named `t`.
pub fn option_init_fn_name(t: &str) -> (r: String)
    ensures
        r@ == option_init_fn_name_spec(t@),
{
    let mut r = String::from_str("option_");
    r.append(t);
    r.append("_init");
    r
}

/// The name of the FFI optional free function for the enum named `t`.
pub fn option_free_fn_name(t: &str) -> (r: String)
    ensures
        r@ == option_free_fn_name_spec(t@),
{
    let mut r = String::from_str("option_");
    r.append(t);
    r.append("_free");
    r
}

/// Contains the data required to generate a consumer type for `repr(C)` enums, which ought to be
/// any enums that don't have associated values.
pub struct ReprCConsumerEnum {
    ident: String,
}

impl View for ReprCConsumerEnum {
    type V = Seq<char>;

    /// The enum's name.
    closed spec fn view(&self) -> Seq<char> {
        self.ident@
    }
}

/// The `NativeData` conformance of a `repr(C)` enum named `t`.
pub open spec fn reprc_native_data_spec(t: Seq<char>) -> Seq<char> {
    "// MARK: - NativeData\nextension "@ + t + ": NativeData {\n    public typealias ForeignType = "@
        + t
        + "\n\n    public func clone() -> ForeignType {\n        return self\n    }\n\n    public func borrowReference() -> ForeignType {\n        return self\n    }\n\n    public static func fromRust(_ foreignObject: ForeignType) -> Self {\n        return foreignObject\n    }\n}"@
}

/// The `FFIArray` conformance of the array type of a `repr(C)` enum named `t`.
pub open spec fn reprc_ffi_array_spec(t: Seq<char>) -> Seq<char> {
    "// MARK: - FFIArray\nextension "@ + array_name_spec(t) + ": FFIArray {\n    public typealias Value = "@
        + t
        + "\n\n    public static func from(ptr: UnsafePointer<Value>?, len: Int) -> Self {\n        "@
        + array_init_fn_name_spec(t) + "(ptr, len)\n    }\n\n    public static func free(_ array: Self) {\n        "@
        + array_free_fn_name_spec(t) + "(array)\n    }\n}"@
}

/// The `NativeArrayData` conformance of a `repr(C)` enum named `t`.
pub open spec fn reprc_native_array_data_spec(t: Seq<char>) -> Seq<char> {
    "// MARK: - NativeArrayData\nextension "@ + t + ": NativeArrayData {\n    public typealias FFIArrayType = "@
        + array_name_spec(t) + "\n}"@
}

/// The `Optional` extension for a `repr(C)` enum named `t`.
pub open spec fn reprc_option_spec(t: Seq<char>) -> Seq<char> {
    "// MARK: - Optional\npublic extension Optional where Wrapped == "@ + t
        + " {\n    func clone() -> UnsafeMutablePointer<"@ + t
        + ">? {\n        switch self {\n        case let .some(value):\n            let v = value.clone()\n            return UnsafeMutablePointer(mutating: "@
        + option_init_fn_name_spec(t)
        + "(true, v))\n        case .none:\n            return nil\n        }\n    }\n\n    func borrowReference() -> UnsafeMutablePointer<"@
        + t
        + ">? {\n        switch self {\n        case let .some(value):\n            let v = value.borrowReference()\n            return UnsafeMutablePointer(mutating: "@
        + option_init_fn_name_spec(t)
        + "(true, v))\n        case .none:\n            return nil\n        }\n    }\n\n    static func fromRust(_ ptr: UnsafePointer<"@
        + t
        + ">?) -> Self {\n        guard let ptr = ptr else {\n            return .none\n        }\n        let value = Wrapped.fromRust(ptr.pointee)\n        free(ptr)\n        return value\n    }\n\n    static func free(_ option: UnsafePointer<"@
        + t + ">?) {\n        "@ + option_free_fn_name_spec(t) + "(option)\n    }\n}"@
}

impl ReprCConsumerEnum {
    /// Constructor for `ReprCConsumerEnum`, for the enum named `ident`.
    pub fn new(ident: &String) -> (r: Self)
        ensures
            r@ == ident@,
    {
        ReprCConsumerEnum { ident: String::from_str(ident.as_str()) }
    }

    /// The enum's name.
    pub fn type_name_ident(&self) -> (r: &String)
        ensures
            r@ == self@,
    {
        &self.ident
    }

    /// The consumer type's name, which is the enum's name.
    pub fn consumer_type_name(&self) -> (r: String)
        ensures
            r@ == self@,
    {
        String::from_str(self.ident.as_str())
    }

    /// There's no type definition for `repr(C)` enums: the FFI enum is extended since it is usable
    /// as-is, so this is empty.
    pub fn type_definition(&self) -> (r: String)
        ensures
            r@ == Seq::<char>::empty(),
    {
        String::new()
    }

    /// The `NativeData` conformance of this enum.
    pub fn native_data_impl(&self) -> (r: String)
        ensures
            r@ == reprc_native_data_spec(self@),
    {
        let t = self.ident.as_str();
        let mut r = String::from_str("// MARK: - NativeData\nextension ");
        r.append(t);
        r.append(": NativeData {\n    public typealias ForeignType = ");
        r.append(t);
        r.append(
            "\n\n    public func clone() -> ForeignType {\n        return self\n    }\n\n    public func borrowReference() -> ForeignType {\n        return self\n    }\n\n    public static func fromRust(_ foreignObject: ForeignType) -> Self {\n        return foreignObject\n    }\n}",
        );
        r
    }

    /// The `FFIArray` conformance of this enum's array type.
    pub fn ffi_array_impl(&self) -> (r: String)
        ensures
            r@ == reprc_ffi_array_spec(self@),
    {
        let t = self.ident.as_str();
        let an = array_name(t);
        let ai = array_init_fn_name(t);
        let af = array_free_fn_name(t);
        let mut r = String::from_str("// MARK: - FFIArray\nextension ");
        r.append(an.as_str());
        r.append(": FFIArray {\n    public typealias Value = ");
        r.append(t);
        r.append("\n\n    public static func from(ptr: UnsafePointer<Value>?, len: Int) -> Self {\n        ");
        r.append(ai.as_str());
        r.append("(ptr, len)\n    }\n\n    public static func free(_ array: Self) {\n        ");
        r.append(af.as_str());
        r.append("(array)\n    }\n}");
        r
    }

    /// The `NativeArrayData` conformance of this enum.
    pub fn native_array_data_impl(&self) -> (r: String)
        ensures
            r@ == reprc_native_array_data_spec(self@),
    {
        let t = self.ident.as_str();
        let an = array_name(t);
        let mut r = String::from_str("// MARK: - NativeArrayData\nextension ");
        r.append(t);
        r.append(": NativeArrayData {\n    public typealias FFIArrayType = ");
        r.append(an.as_str());
        r.append("\n}");
        r
    }

    /// The `Optional` extension for this enum.
    pub fn option_impl(&self) -> (r: String)
        ensures
            r@ == reprc_option_spec(self@),
    {
        let t = self.ident.as_str();
        let oi = option_init_fn_name(t);
        let of = option_free_fn_name(t);
        let mut r = String::from_str("// MARK: - Optional\npublic extension Optional where Wrapped == ");
        r.append(t);
        r.append(" {\n    func clone() -> UnsafeMutablePointer<");
        r.append(t);
        r.append(
            ">? {\n        switch self {\n        case let .some(value):\n            let v = value.clone()\n            return UnsafeMutablePointer(mutating: ",
        );
        r.append(oi.as_str());
        r.append(
            "(true, v))\n        case .none:\n            return nil\n        }\n    }\n\n    func borrowReference() -> UnsafeMutablePointer<",
        );
        r.append(t);
        r.append(
            ">? {\n        switch self {\n        case let .some(value):\n            let v = value.borrowReference()\n            return UnsafeMutablePointer(mutating: ",
        );
        r.append(oi.as_str());
        r.append(
            "(true, v))\n        case .none:\n            return nil\n        }\n    }\n\n    static func fromRust(_ ptr: UnsafePointer<",
        );
        r.append(t);
        r.append(
            ">?) -> Self {\n        guard let ptr = ptr else {\n            return .none\n        }\n        let value = Wrapped.fromRust(ptr.pointee)\n        free(ptr)\n        return value\n    }\n\n    static func free(_ option: UnsafePointer<",
        );
        r.append(t);
        r.append(">?) {\n        ");
        r.append(of.as_str());
        r.append("(option)\n    }\n}");
        r
    }

    /// A `repr(C)` enum needs no consumer imports.
    pub fn consumer_imports(&self) -> (r: Vec<Path>)
        ensures
            r@.len() == 0,
    {
        Vec::new()
    }
}

} // verus!
