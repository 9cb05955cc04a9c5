use ffi_common::alias_resolution::AliasMap;
use ffi_common::attributes::{CustomAttributes, FnAttributes};
use ffi_common::consumer::{
    build_import, consumer_docs_from, consumer_foundation_dir, consumer_type_for,
    header_and_imports, primitive_class_names, primitive_conformance_file_name, with_header, HEADER,
};
use ffi_common::consumer_struct::{ConsumerStruct, ConsumerStructError};
use ffi_common::enum_ffi::complex::{EnumFFI, Variant};
use ffi_common::enum_ffi::reprc;
use ffi_common::field_ffi::{Field, FieldError, Fields};
use ffi_common::fn_ffi::{FnArg, FnError, FnFFI, FnReceiver, Method};
use ffi_common::impl_ffi::{ImplError, ImplFFI, ImplInputs, ImplItem};
use ffi_common::parsing::{
    Attribute, Lit, LitStr, Meta, MetaNameValue, Path, PathArguments, PathSegment, RustType,
};
use ffi_common::struct_ffi::custom::{
    custom_init_fn_name, parse_custom_ffi_source, parse_custom_ffi_type, validate_custom_ffi, CustomFfiError,
};
use ffi_common::struct_ffi::{custom, DeriveError, StructError, StructFFI, StructInputs};
use ffi_common::text::{last_piece, strip_prefix, string_literal};
use ffi_common::type_attributes::TypeError;

fn path(ident: &str) -> Path {
    Path { segments: vec![PathSegment { ident: ident.to_string(), arguments: PathArguments::Bare }] }
}

fn ty(ident: &str) -> RustType {
    RustType::Path(path(ident))
}

fn const_ptr(ident: &str) -> RustType {
    RustType::Ptr(false, Box::new(ty(ident)))
}

fn doc(text: &str) -> Attribute {
    Attribute {
        path: path("doc"),
        meta: Some(Meta::NameValue(MetaNameValue {
            path: path("doc"),
            lit: Lit::Str(LitStr { value: text.to_string() }),
        })),
    }
}

fn typed(name: &str, t: RustType) -> FnArg {
    FnArg::Typed { pat_ident: Some(name.to_string()), ty: t }
}

fn widget_attributes() -> FnAttributes {
    FnAttributes { extend_type: "Widget".to_string(), raw_types: vec![], generics: vec![] }
}

fn do_thing() -> FnFFI {
    let method = Method {
        ident: "do_thing".to_string(),
        inputs: vec![typed("count", ty("u32"))],
        output: Some(ty("String")),
        attrs: vec![],
    };
    FnFFI::from_item_fn(method, &widget_attributes()).unwrap()
}

#[test]
fn fn_ffi_reads_a_function() {
    let f = do_thing();
    assert_eq!(f.fn_name, "do_thing");
    assert_eq!(f.receiver, FnReceiver::NoReceiver);
    assert_eq!(f.parameters.len(), 1);
    assert_eq!(f.parameters[0].name, "count");
    assert!(f.return_type.is_some());
    assert_eq!(f.ffi_fn_name("widget_ffi"), "widget_ffi_do_thing");
}

#[test]
fn fn_ffi_generates_the_ffi_function() {
    let f = do_thing();
    let t = "Widget".to_string();
    let p = "widget".to_string();
    assert_eq!(
        f.generate_ffi("widget_ffi", Some(&t), Some(&p)),
        "#[no_mangle]\npub unsafe extern \"C\" fn widget_ffi_do_thing(count: u32, ) -> *const std::os::raw::c_char {\n    let count: u32 = count;\n    let return_value = Widget::do_thing(count, );\n    ffi_common::core::ffi_string!(return_value.to_string())\n}\n"
    );
}

#[test]
fn fn_ffi_generates_the_consumer_function() {
    let f = do_thing();
    assert_eq!(f.consumer_parameters(), "count: UInt32");
    assert_eq!(f.ffi_calling_arguments(), "count.clone()");
    assert_eq!(
        f.generate_consumer("widget_ffi", None),
        "    static func doThing(count: UInt32) -> String {\n        String.fromRust(widget_ffi_do_thing(count.clone()))\n    }"
    );
    let extension = f.generate_consumer_extension("Widget", "widget_ffi");
    assert!(extension.starts_with(HEADER));
    assert!(extension.ends_with("extension Widget {\n    static func doThing(count: UInt32) -> String {\n        String.fromRust(widget_ffi_do_thing(count.clone()))\n    }\n}"));
}

#[test]
fn fn_ffi_rejects_an_anonymous_parameter() {
    let method = Method {
        ident: "f".to_string(),
        inputs: vec![FnArg::Typed { pat_ident: None, ty: ty("u8") }],
        output: None,
        attrs: vec![],
    };
    assert!(matches!(FnFFI::from_item_fn(method, &widget_attributes()), Err(FnError::AnonymousParameter)));
}

#[test]
fn fn_ffi_rejects_an_unsupported_type() {
    let method = Method {
        ident: "f".to_string(),
        inputs: vec![],
        output: Some(RustType::Other),
        attrs: vec![],
    };
    assert!(matches!(
        FnFFI::from_item_fn(method, &widget_attributes()),
        Err(FnError::Type(TypeError::UnsupportedType))
    ));
}

#[test]
fn fn_ffi_substitutes_generics_and_documents() {
    let attributes = FnAttributes {
        extend_type: "Widget".to_string(),
        raw_types: vec![],
        generics: vec![(path("T"), ty("u8"))],
    };
    let method = Method {
        ident: "take".to_string(),
        inputs: vec![typed("value", ty("T"))],
        output: None,
        attrs: vec![doc(" Takes \"it\".")],
    };
    let f = FnFFI::from_item_fn(method, &attributes).unwrap();
    assert_eq!(
        f.generate_ffi("m", None, None),
        "#[doc = \" Takes \\\"it\\\".\"]\n#[no_mangle]\npub unsafe extern \"C\" fn m_take(value: u8, ) ->  {\n    let value: u8 = value;\n    take(value, );\n}\n"
    );
}

fn measure_impl() -> ImplInputs {
    ImplInputs {
        items: vec![
            ImplItem::Method(Method {
                ident: "size".to_string(),
                inputs: vec![FnArg::Receiver { reference: true }],
                output: Some(ty("Alias")),
                attrs: vec![doc("Size.")],
            }),
            ImplItem::Type { ident: "Alias".to_string(), ty: ty("u32") },
            ImplItem::Other,
        ],
        ffi_imports: vec![],
        consumer_imports: vec![],
        raw_types: vec![],
        generics: vec![],
        description: None,
        trait_ident: Some("Measure".to_string()),
        type_ident: "Widget".to_string(),
        doc_comments: vec!["Widget measure.".to_string()],
    }
}

#[test]
fn impl_ffi_generates_ffi_and_consumer() {
    let i = ImplFFI::from(measure_impl()).unwrap();
    assert_eq!(i.module_name(), "measure_widget_ffi");
    assert_eq!(i.type_name_as_parameter_name(), "widget");
    assert_eq!(i.consumer_file_name(), "Measure_Widget.swift");
    assert_eq!(
        i.generate_ffi(),
        "pub mod measure_widget_ffi {\n    use super::*;\n    #[doc = \"Size.\"]\n#[no_mangle]\npub unsafe extern \"C\" fn measure_widget_ffi_size(widget: *const Widget, ) -> u32 {\n    let data = (*widget).clone();\n    let return_value = data.size();\n    return_value.clone().into()\n}\n}\n"
    );
    assert_eq!(
        i.generate_consumer(),
        "public extension Widget {\n    ///Widget measure.\n    ///Size.\n    func size() -> UInt32 {\n        UInt32.fromRust(measure_widget_ffi_size(pointer))\n    }\n}"
    );
    let file = i.consumer_file_contents().unwrap();
    assert_eq!(file, format!("{}\n\n{}", HEADER, i.generate_consumer()));
}

#[test]
fn impl_ffi_needs_a_name() {
    let mut inputs = measure_impl();
    inputs.trait_ident = None;
    assert!(matches!(ImplFFI::from(inputs), Err(ImplError::MissingDescription)));
    let mut described = measure_impl();
    described.description = Some("Sized".to_string());
    assert_eq!(ImplFFI::from(described).unwrap().module_name(), "sized_widget_ffi");
}

fn point_inputs(data: Fields) -> StructInputs {
    StructInputs {
        module_name: "point_ffi".to_string(),
        type_ident: "Point".to_string(),
        data,
        alias_modules: vec![],
        consumer_imports: vec![],
        forbid_memberwise_init: false,
        doc_comments: vec![],
    }
}

fn point_fields() -> Fields {
    Fields::Named(vec![
        Field { ident: Some("x".to_string()), ty: ty("i32"), attrs: vec![] },
        Field { ident: Some("label".to_string()), ty: ty("String"), attrs: vec![] },
    ])
}

#[test]
fn struct_ffi_names_and_module() {
    let map = AliasMap { modules: vec![] };
    let s = StructFFI::try_from(point_inputs(point_fields()), &map).unwrap();
    assert_eq!(s.init_fn_name(), "point_init");
    assert_eq!(s.free_fn_name(), "point_free");
    assert_eq!(s.clone_fn_name(), "clone_point");
    assert_eq!(s.extra_imports(), "");
    let module = s.token_stream();
    assert!(module.starts_with("#[allow(box_pointers, missing_docs)]\npub mod point_ffi {\n"));
    assert!(module.contains("pub extern \"C\" fn point_init(\n        x: i32, label: *const std::os::raw::c_char,\n    ) -> *const Point {\n        let data = Point {\n            x: x, label: ffi_common::core::string::string_from_c(label),\n        };"));
    assert!(module.contains("pub unsafe extern \"C\" fn point_free(data: *const Point) {"));
    assert!(module.contains("fn get_point_x(\n        ptr: *const Point\n    ) -> i32 {"));
}

#[test]
fn struct_ffi_rejects_tuple_and_unit_structs() {
    let map = AliasMap { modules: vec![] };
    assert!(matches!(
        StructFFI::try_from(point_inputs(Fields::Unnamed(vec![])), &map),
        Err(StructError::Derive(DeriveError::UnnamedFields))
    ));
    assert!(matches!(
        StructFFI::try_from(point_inputs(Fields::Unit), &map),
        Err(StructError::Derive(DeriveError::UnitFields))
    ));
    let unnamed = Fields::Named(vec![Field { ident: None, ty: ty("i32"), attrs: vec![] }]);
    assert!(matches!(
        StructFFI::try_from(point_inputs(unnamed), &map),
        Err(StructError::Field(FieldError::MissingIdentifier))
    ));
    let no_segment = Fields::Named(vec![Field { ident: Some("x".to_string()), ty: RustType::Other, attrs: vec![] }]);
    assert!(matches!(
        StructFFI::try_from(point_inputs(no_segment), &map),
        Err(StructError::Field(FieldError::NoPathSegment))
    ));
}

#[test]
fn struct_ffi_imports_each_exposed_path_once() {
    let map = AliasMap { modules: vec![] };
    let mut s = StructFFI::try_from(point_inputs(point_fields()), &map).unwrap();
    let exposed = Path {
        segments: vec![
            PathSegment { ident: "other".to_string(), arguments: PathArguments::Bare },
            PathSegment { ident: "Label".to_string(), arguments: PathArguments::Bare },
        ],
    };
    s.fields[0].attributes.expose_as = Some(path("Wrapped"));
    s.fields[1].attributes.expose_as = Some(exposed);
    assert_eq!(s.extra_imports(), "use Wrapped;\n    use other::Label;\n    ");
    s.fields[1].attributes.expose_as = Some(path("Wrapped"));
    assert_eq!(s.extra_imports(), "use Wrapped;\n    ");
}

#[test]
fn consumer_struct_from_a_derived_ffi() {
    let map = AliasMap { modules: vec![] };
    let s = StructFFI::try_from(point_inputs(point_fields()), &map).unwrap();
    let c = ConsumerStruct::from_standard(s);
    assert_eq!(c.array_name(), "FFIArrayPoint");
    assert_eq!(c.array_init(), "ffi_array_Point_init");
    assert_eq!(c.array_free(), "ffi_array_Point_free");
    assert_eq!(
        c.type_definition().unwrap(),
        "public final class Point {\n\n    internal let pointer: OpaquePointer\n\n    public init(\n        x: Int32,\n        label: String\n    ) {\n        self.pointer = point_init(\n            x.clone(),\n            label.clone()\n        )\n    }\n\n    internal init(_ pointer: OpaquePointer) {\n        self.pointer = pointer\n    }\n\n    deinit {\n        point_free(pointer)\n    }\n\n    public var x: Int32 {\n        Int32.fromRust(get_point_x(pointer))\n    }\n\n    public var label: String {\n        String.fromRust(get_point_label(pointer))\n    }\n}"
    );
    assert!(c.native_data_impl().contains("        return clone_point(pointer)\n"));
    assert_eq!(
        c.native_array_data_impl(),
        "// MARK: - NativeArrayData\nextension Point: NativeArrayData {\n    public typealias FFIArrayType = FFIArrayPoint\n}"
    );
    assert!(c.option_impl().starts_with("// MARK: - Optional\npublic extension Optional where Wrapped == Point {\n"));
    assert!(c.ffi_array_impl().contains("        ffi_array_Point_init(ptr, len)\n"));
}

fn custom_fns() -> Vec<Method> {
    vec![
        Method {
            ident: "point_init".to_string(),
            inputs: vec![typed("x", ty("i32")), typed("required_name", const_ptr("c_char"))],
            output: Some(const_ptr("Point")),
            attrs: vec![],
        },
        Method {
            ident: "get_point_x".to_string(),
            inputs: vec![typed("ptr", const_ptr("Point"))],
            output: Some(ty("i32")),
            attrs: vec![],
        },
        Method {
            ident: "get_Point_name".to_string(),
            inputs: vec![typed("ptr", const_ptr("Point"))],
            output: Some(const_ptr("c_char")),
            attrs: vec![],
        },
    ]
}

#[test]
fn custom_ffi_file_is_read() {
    let init = custom_init_fn_name("Point");
    assert_eq!(init, "point_init");
    assert!(validate_custom_ffi(custom_fns(), "Point", &init).is_ok());
    let (args, getters) = parse_custom_ffi_type(custom_fns(), "Point", &init);
    assert_eq!(args.iter().map(|a| a.0.as_str()).collect::<Vec<_>>(), vec!["x", "required_name"]);
    assert_eq!(getters.iter().map(|g| g.0.as_str()).collect::<Vec<_>>(), vec!["get_point_x", "get_Point_name"]);
}

#[test]
fn custom_ffi_file_errors() {
    assert!(matches!(validate_custom_ffi(custom_fns(), "Point", "other_init"), Err(CustomFfiError::NoInitializer)));
    let mut mutable = custom_fns();
    mutable[0].output = Some(RustType::Ptr(true, Box::new(ty("Point"))));
    assert!(matches!(validate_custom_ffi(mutable, "Point", "point_init"), Err(CustomFfiError::InitializerReturn)));
    let mut anonymous = custom_fns();
    anonymous[0].inputs.push(FnArg::Typed { pat_ident: None, ty: ty("u8") });
    assert!(matches!(validate_custom_ffi(anonymous, "Point", "point_init"), Err(CustomFfiError::InitializerArgument)));
    let mut two_args = custom_fns();
    two_args[1].inputs.push(typed("extra", ty("u8")));
    assert!(matches!(validate_custom_ffi(two_args, "Point", "point_init"), Err(CustomFfiError::GetterArgument)));
    let mut no_return = custom_fns();
    no_return[2].output = None;
    assert!(matches!(validate_custom_ffi(no_return, "Point", "point_init"), Err(CustomFfiError::GetterReturn)));
}

fn custom_point(failable: Vec<Path>) -> custom::StructFFI {
    let init = custom_init_fn_name("Point");
    let data = parse_custom_ffi_type(custom_fns(), "Point", &init);
    let attributes = CustomAttributes { failable_fns: failable, failable_init: true, path: "src/point_ffi.rs".to_string() };
    custom::StructFFI::new(
        "Point".to_string(),
        "point_ffi".to_string(),
        attributes,
        vec![],
        vec![path("extra")],
        false,
        vec![],
        data,
    )
}

#[test]
fn custom_struct_ffi_module() {
    let s = custom_point(vec![]);
    assert_eq!(s.init_fn_name, "point_init");
    assert_eq!(s.free_fn_name, "point_free");
    assert_eq!(s.clone_fn_name, "clone_point");
    assert_eq!(ffi_common::struct_ffi::custom::custom_ffi_path("/crate", &s.custom_attributes), "/crate/src/point_ffi.rs");
    assert_eq!(
        s.token_stream(),
        "#[allow(box_pointers, missing_docs)]\npub mod point_ffi {\n    use ffi_common::core::{ffi_string, declare_opaque_type_ffi, datetime::*, paste, string::FFIArrayString};\n    use std::os::raw::c_char;\n    use std::{ffi::{CStr, CString}, mem::ManuallyDrop, ptr};\n    use super::*;\n    use extra;\n    \n    #[no_mangle]\n    pub unsafe extern \"C\" fn point_free(data: *const Point) {\n        drop(Box::from_raw(data as *mut Point));\n    }\n\n    declare_opaque_type_ffi! { Point }\n}\n"
    );
}

#[test]
fn consumer_struct_from_a_custom_ffi() {
    let failable = vec![Path {
        segments: vec![
            PathSegment { ident: "ffi".to_string(), arguments: PathArguments::Bare },
            PathSegment { ident: "get_Point_name".to_string(), arguments: PathArguments::Bare },
        ],
    }];
    let c = ConsumerStruct::from_custom(custom_point(failable)).unwrap();
    assert_eq!(
        c.init_impl().unwrap(),
        "    internal init?(\n        x: Int32,\n        name: String\n    ) {\n        guard let pointer = point_init(\n            x.clone(),\n            name.clone()\n        ) else {\n            return nil\n        }\n        self.pointer = pointer\n    }"
    );
    assert_eq!(
        c.consumer_getters,
        "    public var getPointX: Int32 {\n        Int32.fromRust(get_point_x(pointer))\n    }\n\n    internal var name: String? {\n        String?.fromRust(get_Point_name(pointer))\n    }"
    );
}

#[test]
fn consumer_struct_custom_errors() {
    let c = ConsumerStruct::from_custom(custom_point(vec![Path { segments: vec![] }]));
    assert!(matches!(c, Err(ConsumerStructError::MissingPathSegment)));
    let mut s = custom_point(vec![]);
    s.getters[0].1 = RustType::Other;
    assert!(matches!(ConsumerStruct::from_custom(s), Err(ConsumerStructError::Type(TypeError::UnsupportedType))));
}

#[test]
fn forbidden_memberwise_init_is_not_generated() {
    let map = AliasMap { modules: vec![] };
    let mut inputs = point_inputs(point_fields());
    inputs.forbid_memberwise_init = true;
    let c = ConsumerStruct::from_standard(StructFFI::try_from(inputs, &map).unwrap());
    assert!(c.init_impl().is_none());
    assert!(!c.type_definition().unwrap().contains("public init("));
}

#[test]
fn complex_enum_ffi_names_and_module() {
    let map = AliasMap { modules: vec![] };
    let variants = vec![
        Variant { ident: "Empty".to_string(), fields: Fields::Unit, attrs: vec![] },
        Variant {
            ident: "Pair".to_string(),
            fields: Fields::Unnamed(vec![
                Field { ident: None, ty: ty("u8"), attrs: vec![] },
                Field { ident: None, ty: ty("String"), attrs: vec![] },
            ]),
            attrs: vec![doc("Two values.")],
        },
    ];
    let e = EnumFFI::new("shape_ffi".to_string(), "Shape".to_string(), variants, vec![], vec![], vec![], vec![], &map).unwrap();
    assert_eq!(e.free_fn_name(), "rust_ffi_free_shape");
    assert_eq!(e.init_fn_name(), "shape_rust_ffi_init");
    assert_eq!(e.get_variant_fn_name(), "get_shape_variant");
    assert_eq!(e.reprc_enum(), "ShapeType");
    assert_eq!(e.clone_fn_name(), "rust_ffi_clone_shape");
    assert_eq!(e.variants[1].doc_comments, vec!["Two values.".to_string()]);
    let module = e.token_stream();
    assert!(module.contains("pub enum ShapeType {\n        Empty,\n        Pair,\n        \n    }"));
    assert!(module.contains("Shape::Empty => ShapeType::Empty,\n            Shape::Pair(..) => ShapeType::Pair,"));
    assert!(module.contains("pub unsafe extern \"C\" fn shape_pair_rust_ffi_init(unnamed_field_0: u8,, unnamed_field_1: *const std::os::raw::c_char,) -> *const Shape {"));
    let consumer = ffi_common::consumer_complex::ComplexConsumerEnum::from(&e);
    assert_eq!(
        consumer.case_inits(),
        "    static func empty() -> Self {\n        FFI(shape_empty_rust_ffi_init()).makeNative()\n    }\n\n    static func pair(_ data: (UInt8, String)) -> Self {\n        FFI(shape_pair_rust_ffi_init(data.0.clone(),data.1.clone())).makeNative()\n    }"
    );
    assert_eq!(
        consumer.ffi_assignment(),
        "            let .empty(, ffi),\n            let .pair(_, _, ffi)"
    );
    assert_eq!(
        consumer.native_array_data_impl(),
        "// MARK: - NativeArrayData\nextension Shape.FFI: NativeArrayData {\n    public typealias FFIArrayType = FFIArrayShape\n}\n\nextension Shape: NativeArrayData {\n    public typealias FFIArrayType = FFIArrayShape\n}"
    );
    assert!(consumer.ffi_array_impl().starts_with("extension FFIArrayShape: FFIArray {\n"));
    assert!(consumer.option_impl().contains("public extension Optional where Wrapped == Shape.FFI {\n"));
    assert!(consumer.option_impl().contains("\n\npublic extension Optional where Wrapped == Shape {\n"));
}

#[test]
fn complex_enum_rejects_a_named_field_without_a_name() {
    let map = AliasMap { modules: vec![] };
    let variants = vec![Variant {
        ident: "Broken".to_string(),
        fields: Fields::Named(vec![Field { ident: None, ty: ty("u8"), attrs: vec![] }]),
        attrs: vec![],
    }];
    let r = EnumFFI::new("m".to_string(), "E".to_string(), variants, vec![], vec![], vec![], vec![], &map);
    assert!(matches!(r, Err(FieldError::MissingIdentifier)));
}

#[test]
fn reprc_enum_ffi_module() {
    let e = reprc::EnumFFI::new("color_ffi".to_string(), "Color".to_string());
    assert_eq!(e.free_fn_name(), "free_color");
    assert_eq!(
        e.token_stream(),
        "#[allow(missing_docs)]\npub mod color_ffi {\n    use ffi_common::core::{error, paste, declare_value_type_ffi};\n    use super::*;\n\n    #[no_mangle]\n    pub unsafe extern \"C\" fn free_color(data: Color) {\n        let _ = data;\n    }\n\n    declare_value_type_ffi! { Color }\n}\n"
    );
}

#[test]
fn consumer_names_and_files() {
    assert_eq!(consumer_type_for("u8", false), "UInt8");
    assert_eq!(consumer_type_for("f64", true), "Double?");
    assert_eq!(consumer_type_for("bool", false), "Bool");
    assert_eq!(consumer_type_for("MyType", false), "MyType");
    assert_eq!(primitive_conformance_file_name("u16"), "UInt16.swift");
    assert_eq!(consumer_foundation_dir("out"), "out/common");
    assert_eq!(primitive_class_names().len(), 11);
    assert_eq!(
        build_import(&vec!["my_crate".to_string(), "my_type".to_string()]),
        Some("import class MyCrate.MyType".to_string())
    );
    assert_eq!(build_import(&vec![]), None);
    let import = Path {
        segments: vec![
            PathSegment { ident: "my_crate".to_string(), arguments: PathArguments::Bare },
            PathSegment { ident: "MyType".to_string(), arguments: PathArguments::Bare },
        ],
    };
    assert_eq!(header_and_imports(&vec![import]), Some(format!("{}\nimport class MyCrate.MyType\n", HEADER)));
    assert_eq!(header_and_imports(&vec![Path { segments: vec![] }]), None);
    assert_eq!(with_header("body"), format!("{}\n\nbody", HEADER));
    assert_eq!(consumer_docs_from(&vec![" a".to_string(), " b".to_string()], 1), "    /// a\n    /// b\n");
}

#[test]
fn text_helpers() {
    assert_eq!(string_literal("a\"b\\c\n"), "\"a\\\"b\\\\c\\n\"");
    assert_eq!(last_piece("get_Point_name", "get_Point_"), "name");
    assert_eq!(last_piece("aaa", "aa"), "a");
    assert_eq!(last_piece("plain", "get_"), "plain");
    assert_eq!(strip_prefix("required_name", "required_"), Some("name".to_string()));
    assert_eq!(strip_prefix("name", "required_"), None);
}

#[test]
fn self_stands_for_the_extended_type() {
    let method = Method {
        ident: "make".to_string(),
        inputs: vec![],
        output: Some(ty("Self")),
        attrs: vec![],
    };
    let f = FnFFI::from_item_fn(method, &widget_attributes()).unwrap();
    assert!(matches!(
        f.return_type.map(|t| t.native_type),
        Some(ffi_common::type_ffi::TypeIdentifier::Boxed(name)) if name == "Widget"
    ));
}

const POINT_FFI_SOURCE: &str = r#"
use std::os::raw::c_char;

/// Makes a point.
#[no_mangle]
pub unsafe extern "C" fn point_init(x: i32, required_name: *const c_char) -> *const Point {
    Box::into_raw(Box::new(Point::new(x, required_name)))
}

#[no_mangle]
pub unsafe extern "C" fn get_point_x(ptr: *const Point) -> i32 {
    (*ptr).x
}

struct Helper;

#[no_mangle]
pub unsafe extern "C" fn get_Point_name(ptr: *const Point) -> *const c_char {
    (*ptr).name()
}
"#;

#[test]
fn custom_ffi_source_is_read() {
    let (args, getters) = parse_custom_ffi_source(POINT_FFI_SOURCE, "Point", "point_init").unwrap();
    assert_eq!(args.iter().map(|a| a.0.as_str()).collect::<Vec<_>>(), vec!["x", "required_name"]);
    assert_eq!(getters.iter().map(|g| g.0.as_str()).collect::<Vec<_>>(), vec!["get_point_x", "get_Point_name"]);
    match &args[1].1 {
        RustType::Ptr(mutable, _) => assert!(!*mutable),
        _ => panic!("required_name is a pointer"),
    }
}

#[test]
fn custom_ffi_source_errors() {
    assert!(matches!(
        parse_custom_ffi_source("fn point_init( {", "Point", "point_init"),
        Err(CustomFfiError::UnreadableFile)
    ));
    assert!(matches!(
        parse_custom_ffi_source(POINT_FFI_SOURCE, "Point", "other_init"),
        Err(CustomFfiError::NoInitializer)
    ));
    let mutable = POINT_FFI_SOURCE.replace("-> *const Point {", "-> *mut Point {");
    assert!(matches!(
        parse_custom_ffi_source(&mutable, "Point", "point_init"),
        Err(CustomFfiError::InitializerReturn)
    ));
}
