# ffi_common

Generation of a C foreign function interface (FFI) for Rust types, functions and impls, and of
the Swift code that wraps that interface on the consumer's side.

The library (`src/`) reads a plain model of Rust syntax (paths, types, attributes, fields,
variants, functions) and produces the generated Rust and Swift code as source text; each
generator's output is stated exactly in its contract and proved.

- `parsing`, `attributes`, `type_attributes`: the syntax model, and the parsing of the FFI helper
  attributes and of types into `type_ffi::TypeFFI`.
- `alias_resolution`: the alias map and the resolution of type aliases across modules.
- `type_ffi`, `field_ffi`: FFI types and conversions, and the getters and initializer pieces of
  fields.
- `struct_ffi` (with `custom`), `enum_ffi` (`reprc`, `complex`), `fn_ffi`, `impl_ffi`: the Rust FFI
  modules.
- `consumer`, `consumer_enum`, `consumer_complex`, `consumer_struct`, `consumer_fn`: the Swift
  consumer code.
- `error`: the last-error store.
- `syntax`: reading source text with `syn` (paths, types, source files) into the syntax model.
- `text`: text building blocks, and the identifier case conversions of `heck`.

`app/` holds what touches the outside world: `syn` conversions into the model, parsing generated
text into token streams, the alias map file, the consumer files, and the thread-local last error
exposed over the C ABI.

Every FFI type, whether of a field, an argument or a return value, is described by one model,
`type_ffi::TypeFFI`, which holds everything the generators read of the native type.
