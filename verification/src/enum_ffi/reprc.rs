//! A `repr(C)` enum, and the FFI module built for it.

use crate::text::{snake_case, to_snake_case};
use vstd::prelude::*;

verus! {

/// A `repr(C)` enum, from which the FFI module for the type is built.
pub struct EnumFFI {
    /// The name of the module for the enum's FFI.
    pub module_name: String,
    /// The name of the type that this represents.
    pub type_ident: String,
}

/// The name of the free function of the `repr(C)` enum `t`.
pub open spec fn free_fn_name_spec(t: Seq<char>) -> Seq<char> {
    "free_"@ + snake_case(t)
}

/// The FFI module for the `repr(C)` enum `t` in the module `m`.
pub open spec fn reprc_module_spec(m: Seq<char>, t: Seq<char>) -> Seq<char> {
    "#[allow(missing_docs)]\npub mod "@ + m
        + " {\n    use ffi_common::core::{error, paste, declare_value_type_ffi};\n    use super::*;\n\n    #[no_mangle]\n    pub unsafe extern \"C\" fn "@
        + free_fn_name_spec(t) + "(data: "@ + t
        + ") {\n        let _ = data;\n    }\n\n    declare_value_type_ffi! { "@ + t + " }\n}\n"@
}

impl EnumFFI {
    /// A `repr(C)` enum named `type_ident`, whose FFI goes in the module `module_name`.
    pub fn new(module_name: String, type_ident: String) -> (r: Self)
        ensures
            r.module_name == module_name,
            r.type_ident == type_ident,
    {
        EnumFFI { module_name, type_ident }
    }

    /// The name of the free function of this enum, which takes ownership of a value.
    pub fn free_fn_name(&self) -> (r: String)
        ensures
            r@ == free_fn_name_spec(self.type_ident@),
    {
        let mut r = String::from_str("free_");
        let s = to_snake_case(self.type_ident.as_str());
        r.append(s.as_str());
        r
    }

    /// The FFI module for this enum, as Rust source text: a free function and the value type
    /// declarations.
    pub fn token_stream(&self) -> (r: String)
        ensures
            r@ == reprc_module_spec(self.module_name@, self.type_ident@),
    {
        let t = self.type_ident.as_str();
        let free_fn_name = self.free_fn_name();
        let mut r = String::from_str("#[allow(missing_docs)]\npub mod ");
        r.append(self.module_name.as_str());
        r.append(
            " {\n    use ffi_common::core::{error, paste, declare_value_type_ffi};\n    use super::*;\n\n    #[no_mangle]\n    pub unsafe extern \"C\" fn ",
        );
        r.append(free_fn_name.as_str());
        r.append("(data: ");
        r.append(t);
        r.append(") {\n        let _ = data;\n    }\n\n    declare_value_type_ffi! { ");
        r.append(t);
        r.append(" }\n}\n");
        r
    }
}

} // verus!
