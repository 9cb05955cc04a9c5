use ffi_common::consumer_complex::ComplexConsumerEnum;
use ffi_common::enum_ffi::complex::{EnumFFI, VariantFFI};
use ffi_common::field_ffi::{FieldFFI, FieldIdent, FieldSource};
use ffi_common::parsing::FieldAttributes;
use ffi_common::type_ffi::{TypeFFI, TypeIdentifier};

fn raw_field(type_ident: &str, variant: &str, other: &str, raw_type: &str) -> FieldFFI {
    FieldFFI {
        type_ident: type_ident.to_string(),
        field_name: FieldIdent::UnnamedField(0),
        field_source: FieldSource::Enum {
            variant_ident: variant.to_string(),
            variant_fields_len: 1,
            other_variants: vec![(other.to_string(), 1)],
        },
        native_type_data: TypeFFI {
            native_type: TypeIdentifier::Raw(raw_type.to_string()),
            is_option: false,
            is_vec: false,
            is_result: false,
            is_cow: false,
            is_borrow: false,
        },
        attributes: FieldAttributes { expose_as: None, raw: false },
        doc_comments: vec![],
    }
}

fn foo() -> EnumFFI {
    EnumFFI {
        module_name: "test_module".to_string(),
        type_ident: "TestType".to_string(),
        variants: vec![
            VariantFFI {
                ident: "variant1".to_string(),
                fields: vec![raw_field("TestType", "variant1", "variant2", "u16")],
                doc_comments: vec![],
            },
            VariantFFI {
                ident: "variant2".to_string(),
                fields: vec![raw_field("TestType", "variant2", "variant1", "u8")],
                doc_comments: vec![],
            },
        ],
        alias_modules: vec![],
        consumer_imports: vec![],
        ffi_mod_imports: vec![],
        doc_comments: vec![],
    }
}

#[test]
fn complex_enum_test_type_definition() {
    let enum_ffi = foo();
    let complex_consumer_enum = ComplexConsumerEnum::from(&enum_ffi);
    assert_eq!(
        complex_consumer_enum.type_definition().unwrap(),
        r#"public enum TestType {
    case variant1(UInt16, TestType.FFI)
    case variant2(UInt8, TestType.FFI)

    static func variant1(_ data: UInt16) -> Self {
        FFI(test_type_variant1_rust_ffi_init(data.clone())).makeNative()
    }

    static func variant2(_ data: UInt8) -> Self {
        FFI(test_type_variant2_rust_ffi_init(data.clone())).makeNative()
    }
}

// MARK: - FFI
extension TestType {
    public final class FFI {
        internal let pointer: OpaquePointer

        internal init(_ pointer: OpaquePointer) {
            self.pointer = pointer
        }

        deinit {
            rust_ffi_free_test_type(pointer)
        }
    }
}

// MARK: - ForeignEnum
extension TestType.FFI: ForeignEnum {
    public typealias NativeEnumType = TestType

    public func makeNative() -> NativeEnumType {
        switch get_test_type_variant(pointer) {
        case TestTypeType_variant1:
            return .variant1(
                .fromRust(get_test_type_variant1_unnamed_field_0(pointer)),
                self
            )
        case TestTypeType_variant2:
            return .variant2(
                .fromRust(get_test_type_variant2_unnamed_field_0(pointer)),
                self
            )
        default:
            fatalError("Unreachable")
        }
    }
}

// MARK: - NativeEnum
extension TestType: NativeEnum {
    public typealias FFIType = Self.FFI

    public var ffi: FFI {
        switch self {
        case
            let .variant1(_, ffi),
            let .variant2(_, ffi)
        :
            return ffi
        }
    }

    public static func fromRust(pointer: FFIType.ForeignType) -> Self {
        return FFI.fromRust(pointer).makeNative()
    }
}"#
    );
}

#[test]
fn complex_enum_native_data_impl() {
    let enum_ffi = foo();
    let complex_consumer_enum = ComplexConsumerEnum::from(&enum_ffi);
    assert_eq!(
        complex_consumer_enum.native_data_impl(),
        r#"// MARK: - NativeData
extension TestType.FFI: NativeData {
    public typealias ForeignType = OpaquePointer?

    /// `clone()` will clone this instance (in Rust) and return a pointer to it that can be
    /// used when calling a Rust function that takes ownership of an instance (like an initializer
    /// with a parameter of this type).
    public func clone() -> ForeignType {
        return rust_ffi_clone_test_type(pointer)
    }

    /// `borrowReference()` will pass this instance's `pointer` to Rust as a reference. This
    /// must only be used when calling Rust functions that take a borrowed reference; otherwise,
    /// Rust will free `pointer` while this instance retains it.
    public func borrowReference() -> ForeignType {
        return pointer
    }

    /// Initializes an instance of this type from a pointer to an instance of the Rust type.
    public static func fromRust(_ foreignObject: ForeignType) -> Self {
        return Self(foreignObject!)
    }
}

extension TestType: NativeData {
    public typealias ForeignType = FFIType.ForeignType

    /// `clone()` will clone this instance (in Rust) and return a pointer to it that can be
    /// used when calling a Rust function that takes ownership of an instance (like an initializer
    /// with a parameter of this type).
    public func clone() -> FFIType.ForeignType {
        ffi.clone()
    }

    /// `borrowReference()` will pass this instance's `pointer` to Rust as a reference. This
    /// must only be used when calling Rust functions that take a borrowed reference; otherwise,
    /// Rust will free `pointer` while this instance retains it.
    public func borrowReference() -> FFIType.ForeignType {
        ffi.borrowReference()
    }

    /// Initializes an instance of this type from a pointer to an instance of the Rust type.
    public static func fromRust(_ foreignObject: FFIType.ForeignType) -> Self {
        Self.FFIType.fromRust(foreignObject).makeNative()
    }
}"#
    );
}

#[test]
fn complex_enum_ffi_array_impl() {
    let enum_ffi = foo();
    let complex_consumer_enum = ComplexConsumerEnum::from(&enum_ffi);
    assert_eq!(
        complex_consumer_enum.native_data_impl(),
        r#"// MARK: - NativeData
extension TestType.FFI: NativeData {
    public typealias ForeignType = OpaquePointer?

    /// `clone()` will clone this instance (in Rust) and return a pointer to it that can be
    /// used when calling a Rust function that takes ownership of an instance (like an initializer
    /// with a parameter of this type).
    public func clone() -> ForeignType {
        return rust_ffi_clone_test_type(pointer)
    }

    /// `borrowReference()` will pass this instance's `pointer` to Rust as a reference. This
    /// must only be used when calling Rust functions that take a borrowed reference; otherwise,
    /// Rust will free `pointer` while this instance retains it.
    public func borrowReference() -> ForeignType {
        return pointer
    }

    /// Initializes an instance of this type from a pointer to an instance of the Rust type.
    public static func fromRust(_ foreignObject: ForeignType) -> Self {
        return Self(foreignObject!)
    }
}

extension TestType: NativeData {
    public typealias ForeignType = FFIType.ForeignType

    /// `clone()` will clone this instance (in Rust) and return a pointer to it that can be
    /// used when calling a Rust function that takes ownership of an instance (like an initializer
    /// with a parameter of this type).
    public func clone() -> FFIType.ForeignType {
        ffi.clone()
    }

    /// `borrowReference()` will pass this instance's `pointer` to Rust as a reference. This
    /// must only be used when calling Rust functions that take a borrowed reference; otherwise,
    /// Rust will free `pointer` while this instance retains it.
    public func borrowReference() -> FFIType.ForeignType {
        ffi.borrowReference()
    }

    /// Initializes an instance of this type from a pointer to an instance of the Rust type.
    public static func fromRust(_ foreignObject: FFIType.ForeignType) -> Self {
        Self.FFIType.fromRust(foreignObject).makeNative()
    }
}"#
    );
}

#[test]
fn complex_enum_native_array_data_impl() {
    let enum_ffi = foo();
    let complex_consumer_enum = ComplexConsumerEnum::from(&enum_ffi);
    assert_eq!(
        complex_consumer_enum.native_data_impl(),
        r#"// MARK: - NativeData
extension TestType.FFI: NativeData {
    public typealias ForeignType = OpaquePointer?

    /// `clone()` will clone this instance (in Rust) and return a pointer to it that can be
    /// used when calling a Rust function that takes ownership of an instance (like an initializer
    /// with a parameter of this type).
    public func clone() -> ForeignType {
        return rust_ffi_clone_test_type(pointer)
    }

    /// `borrowReference()` will pass this instance's `pointer` to Rust as a reference. This
    /// must only be used when calling Rust functions that take a borrowed reference; otherwise,
    /// Rust will free `pointer` while this instance retains it.
    public func borrowReference() -> ForeignType {
        return pointer
    }

    /// Initializes an instance of this type from a pointer to an instance of the Rust type.
    public static func fromRust(_ foreignObject: ForeignType) -> Self {
        return Self(foreignObject!)
    }
}

extension TestType: NativeData {
    public typealias ForeignType = FFIType.ForeignType

    /// `clone()` will clone this instance (in Rust) and return a pointer to it that can be
    /// used when calling a Rust function that takes ownership of an instance (like an initializer
    /// with a parameter of this type).
    public func clone() -> FFIType.ForeignType {
        ffi.clone()
    }

    /// `borrowReference()` will pass this instance's `pointer` to Rust as a reference. This
    /// must only be used when calling Rust functions that take a borrowed reference; otherwise,
    /// Rust will free `pointer` while this instance retains it.
    public func borrowReference() -> FFIType.ForeignType {
        ffi.borrowReference()
    }

    /// Initializes an instance of this type from a pointer to an instance of the Rust type.
    public static func fromRust(_ foreignObject: FFIType.ForeignType) -> Self {
        Self.FFIType.fromRust(foreignObject).makeNative()
    }
}"#
    );
}

#[test]
fn complex_enum_option_impl() {
    let enum_ffi = foo();
    let complex_consumer_enum = ComplexConsumerEnum::from(&enum_ffi);
    assert_eq!(
        complex_consumer_enum.native_data_impl(),
        r#"// MARK: - NativeData
extension TestType.FFI: NativeData {
    public typealias ForeignType = OpaquePointer?

    /// `clone()` will clone this instance (in Rust) and return a pointer to it that can be
    /// used when calling a Rust function that takes ownership of an instance (like an initializer
    /// with a parameter of this type).
    public func clone() -> ForeignType {
        return rust_ffi_clone_test_type(pointer)
    }

    /// `borrowReference()` will pass this instance's `pointer` to Rust as a reference. This
    /// must only be used when calling Rust functions that take a borrowed reference; otherwise,
    /// Rust will free `pointer` while this instance retains it.
    public func borrowReference() -> ForeignType {
        return pointer
    }

    /// Initializes an instance of this type from a pointer to an instance of the Rust type.
    public static func fromRust(_ foreignObject: ForeignType) -> Self {
        return Self(foreignObject!)
    }
}

extension TestType: NativeData {
    public typealias ForeignType = FFIType.ForeignType

    /// `clone()` will clone this instance (in Rust) and return a pointer to it that can be
    /// used when calling a Rust function that takes ownership of an instance (like an initializer
    /// with a parameter of this type).
    public func clone() -> FFIType.ForeignType {
        ffi.clone()
    }

    /// `borrowReference()` will pass this instance's `pointer` to Rust as a reference. This
    /// must only be used when calling Rust functions that take a borrowed reference; otherwise,
    /// Rust will free `pointer` while this instance retains it.
    public func borrowReference() -> FFIType.ForeignType {
        ffi.borrowReference()
    }

    /// Initializes an instance of this type from a pointer to an instance of the Rust type.
    public static func fromRust(_ foreignObject: FFIType.ForeignType) -> Self {
        Self.FFIType.fromRust(foreignObject).makeNative()
    }
}"#
    );
}
