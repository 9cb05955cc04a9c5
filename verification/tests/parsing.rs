use ffi_common::attributes::{field_attributes_readable_check, AttributeError};
use ffi_common::parsing::{
    is_repr_c, separate_wrapping_type_from_inner_type, Attribute, FieldAttributes,
    GenericArgument, Lit, LitStr, Meta, MetaList, MetaNameValue, NestedMeta, Path, PathArguments,
    PathSegment, RustType,
};
use ffi_common::type_ffi::WrappingType;

fn segment(ident: &str) -> PathSegment {
    PathSegment { ident: ident.to_string(), arguments: PathArguments::Bare }
}

fn path(ident: &str) -> Path {
    Path { segments: vec![segment(ident)] }
}

fn generic_segment(ident: &str, arg: RustType) -> PathSegment {
    PathSegment {
        ident: ident.to_string(),
        arguments: PathArguments::AngleBracketed(vec![GenericArgument::Type(arg)]),
    }
}

fn list_attribute(name: &str, items: &[&str]) -> Attribute {
    Attribute {
        path: path(name),
        meta: Some(Meta::List(MetaList {
            path: path(name),
            nested: items.iter().map(|i| NestedMeta::Meta(Meta::Path(path(i)))).collect(),
        })),
    }
}

fn doc_attribute(text: &str) -> Attribute {
    Attribute {
        path: path("doc"),
        meta: Some(Meta::NameValue(MetaNameValue {
            path: path("doc"),
            lit: Lit::Str(LitStr { value: text.to_string() }),
        })),
    }
}

fn struct_attributes(repr_c: bool) -> Vec<Attribute> {
    let mut attrs = vec![
        list_attribute("derive", &["Clone", "Copy", "Debug", "PartialEq"]),
        doc_attribute("a doc attr"),
    ];
    if repr_c {
        attrs.push(list_attribute("repr", &["C"]));
    }
    attrs
}

#[test]
fn test_is_repr_c() {
    let attrs = struct_attributes(true);
    assert!(is_repr_c(&attrs));
}

#[test]
fn test_is_not_repr_c() {
    let attrs = struct_attributes(false);
    assert!(!is_repr_c(&attrs));
}

#[test]
fn test_no_wrapping_type() {
    let seg = segment("SomeType");
    assert_eq!(
        separate_wrapping_type_from_inner_type(&seg),
        ("SomeType".to_string(), WrappingType::Unwrapped)
    );
}

#[test]
fn test_wrapping_vec() {
    let seg = generic_segment("Vec", RustType::Path(path("SomeType")));
    assert_eq!(
        separate_wrapping_type_from_inner_type(&seg),
        ("SomeType".to_string(), WrappingType::Vec)
    );
}

#[test]
fn test_wrapping_option() {
    let seg = generic_segment("Option", RustType::Path(path("SomeType")));
    assert_eq!(
        separate_wrapping_type_from_inner_type(&seg),
        ("SomeType".to_string(), WrappingType::Option)
    );
}

#[test]
fn test_wrapping_option_vec() {
    let inner = Path { segments: vec![generic_segment("Vec", RustType::Path(path("SomeType")))] };
    let seg = generic_segment("Option", RustType::Path(inner));
    assert_eq!(
        separate_wrapping_type_from_inner_type(&seg),
        ("SomeType".to_string(), WrappingType::OptionVec)
    );
}

#[test]
fn test_is_raw_ffi_field() {
    let attrs = vec![list_attribute("ffi", &["raw"])];
    assert!(FieldAttributes::from(attrs).unwrap().raw);
}

#[test]
fn test_is_not_raw_ffi_field() {
    let attrs: Vec<Attribute> = vec![];
    assert!(!FieldAttributes::from(attrs).unwrap().raw);
}

#[test]
fn unsupported_field_attribute_is_rejected() {
    let attrs = vec![list_attribute("ffi", &["boxed"])];
    assert!(matches!(
        FieldAttributes::from(attrs),
        Err(AttributeError::UnsupportedFieldAttribute)
    ));
}

#[test]
fn repr_list_without_c_is_not_repr_c() {
    let attrs = vec![list_attribute("repr", &["u8"])];
    assert!(!is_repr_c(&attrs));
}

#[test]
fn expose_as_ident_is_last_segment() {
    let expose = Path { segments: vec![segment("other_crate"), segment("Exposed")] };
    let attributes = FieldAttributes { expose_as: Some(expose), raw: false };
    assert_eq!(attributes.expose_as_ident().map(|s| s.as_str()), Some("Exposed"));
}

#[test]
fn empty_repr_after_repr_c_is_not_read() {
    let attrs = vec![list_attribute("repr", &["C"]), list_attribute("repr", &[])];
    assert!(is_repr_c(&attrs));
}

#[test]
fn expose_as_path_is_read_from_its_text() {
    let attrs = vec![Attribute {
        path: path("ffi"),
        meta: Some(Meta::List(MetaList {
            path: path("ffi"),
            nested: vec![NestedMeta::Meta(Meta::NameValue(MetaNameValue {
                path: path("expose_as"),
                lit: Lit::Str(LitStr { value: "remote::Exposed".to_string() }),
            }))],
        })),
    }];
    let a = FieldAttributes::from(attrs).unwrap();
    let p = a.expose_as.expect("expose_as is set");
    assert_eq!(p.segments.len(), 2);
    assert_eq!(p.segments[0].ident, "remote");
    assert_eq!(p.segments[1].ident, "Exposed");
}

fn expose_as_attribute(value: &str) -> Attribute {
    Attribute {
        path: path("ffi"),
        meta: Some(Meta::List(MetaList {
            path: path("ffi"),
            nested: vec![NestedMeta::Meta(Meta::NameValue(MetaNameValue {
                path: path("expose_as"),
                lit: Lit::Str(LitStr { value: value.to_string() }),
            }))],
        })),
    }
}

#[test]
fn expose_as_that_is_not_a_path_cannot_be_read() {
    let bad = vec![expose_as_attribute("not a path!")];
    assert!(!field_attributes_readable_check(&bad));
    assert!(FieldAttributes::from_checked(bad).is_none());
    let good = vec![expose_as_attribute("Exposed"), list_attribute("ffi", &["raw"])];
    assert!(field_attributes_readable_check(&good));
    let a = FieldAttributes::from_checked(good).expect("readable").unwrap();
    assert!(a.raw);
    assert_eq!(a.expose_as.expect("set").segments[0].ident, "Exposed");
    let not_a_list = vec![Attribute { path: path("ffi"), meta: Some(Meta::Path(path("ffi"))) }];
    assert!(!field_attributes_readable_check(&not_a_list));
}
