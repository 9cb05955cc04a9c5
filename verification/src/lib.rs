//! Generation of a C foreign function interface for Rust types, and of the Swift code that wraps
//! that interface on the consumer's side.

pub mod alias_resolution;
pub mod attributes;
pub mod consumer;
pub mod consumer_complex;
pub mod consumer_enum;
pub mod consumer_fn;
pub mod consumer_struct;
pub mod enum_ffi;
pub mod error;
pub mod field_ffi;
pub mod fn_ffi;
pub mod impl_ffi;
pub mod parsing;
pub mod struct_ffi;
pub mod syntax;
pub mod text;
pub mod type_attributes;
pub mod type_ffi;

use vstd::prelude::*;

verus! {

/// Width of one indentation level in generated consumer code.
pub const TAB_SIZE: usize = 4;

} // verus!
