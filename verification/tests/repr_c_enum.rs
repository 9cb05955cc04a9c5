use ffi_common::consumer_enum::ReprCConsumerEnum;

fn test_type() -> String {
    "TestType".to_string()
}

#[test]
fn repr_c_enum_test_type_definition() {
    let ident = test_type();
    let repr_c_enum = ReprCConsumerEnum::new(&ident);
    assert!(repr_c_enum.type_definition().is_empty());
}

#[test]
fn repr_c_enum_native_data_impl() {
    let ident = test_type();
    let repr_c_enum = ReprCConsumerEnum::new(&ident);
    assert_eq!(
        repr_c_enum.native_data_impl(),
        r#"// MARK: - NativeData
extension TestType: NativeData {
    public typealias ForeignType = TestType

    public func clone() -> ForeignType {
        return self
    }

    public func borrowReference() -> ForeignType {
        return self
    }

    public static func fromRust(_ foreignObject: ForeignType) -> Self {
        return foreignObject
    }
}"#
    );
}

#[test]
fn repr_c_enum_ffi_array_impl() {
    let ident = test_type();
    let repr_c_enum = ReprCConsumerEnum::new(&ident);
    assert_eq!(
        repr_c_enum.ffi_array_impl(),
        r#"// MARK: - FFIArray
extension FFIArrayTestType: FFIArray {
    public typealias Value = TestType

    public static func from(ptr: UnsafePointer<Value>?, len: Int) -> Self {
        ffi_array_TestType_init(ptr, len)
    }

    public static func free(_ array: Self) {
        ffi_array_TestType_free(array)
    }
}"#
    );
}

#[test]
fn repr_c_enum_native_array_data_impl() {
    let ident = test_type();
    let repr_c_enum = ReprCConsumerEnum::new(&ident);
    assert_eq!(
        repr_c_enum.native_array_data_impl(),
        r#"// MARK: - NativeArrayData
extension TestType: NativeArrayData {
    public typealias FFIArrayType = FFIArrayTestType
}"#
    );
}

#[test]
fn repr_c_enum_option_impl() {
    let ident = test_type();
    let repr_c_enum = ReprCConsumerEnum::new(&ident);
    assert_eq!(
        repr_c_enum.option_impl(),
        r#"// MARK: - Optional
public extension Optional where Wrapped == TestType {
    func clone() -> UnsafeMutablePointer<TestType>? {
        switch self {
        case let .some(value):
            let v = value.clone()
            return UnsafeMutablePointer(mutating: option_TestType_init(true, v))
        case .none:
            return nil
        }
    }

    func borrowReference() -> UnsafeMutablePointer<TestType>? {
        switch self {
        case let .some(value):
            let v = value.borrowReference()
            return UnsafeMutablePointer(mutating: option_TestType_init(true, v))
        case .none:
            return nil
        }
    }

    static func fromRust(_ ptr: UnsafePointer<TestType>?) -> Self {
        guard let ptr = ptr else {
            return .none
        }
        let value = Wrapped.fromRust(ptr.pointee)
        free(ptr)
        return value
    }

    static func free(_ option: UnsafePointer<TestType>?) {
        option_TestType_free(option)
    }
}"#
    );
}

#[test]
fn repr_c_enum_names_and_imports() {
    let ident = test_type();
    let repr_c_enum = ReprCConsumerEnum::new(&ident);
    assert_eq!(repr_c_enum.type_name_ident(), "TestType");
    assert_eq!(repr_c_enum.consumer_type_name(), "TestType");
    assert!(repr_c_enum.consumer_imports().is_empty());
}
