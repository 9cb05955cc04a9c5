use ffi_common::attributes::{AttributeError, FnAttributes, ImplAttributes, StructAttributes};
use ffi_common::parsing::{
    Attribute, Lit, LitStr, Meta, MetaList, MetaNameValue, NestedMeta, Path, PathArguments,
    PathSegment, RustType,
};

fn path(ident: &str) -> Path {
    Path { segments: vec![PathSegment { ident: ident.to_string(), arguments: PathArguments::Bare }] }
}

fn lit_str(value: &str) -> Lit {
    Lit::Str(LitStr { value: value.to_string() })
}

fn bare(ident: &str) -> NestedMeta {
    NestedMeta::Meta(Meta::Path(path(ident)))
}

fn list(name: &str, nested: Vec<NestedMeta>) -> NestedMeta {
    NestedMeta::Meta(Meta::List(MetaList { path: path(name), nested }))
}

fn name_value(name: &str, lit: Lit) -> NestedMeta {
    NestedMeta::Meta(Meta::NameValue(MetaNameValue { path: path(name), lit }))
}

fn generic(name: &str, ty: &str) -> NestedMeta {
    list("generic", vec![name_value(name, lit_str(ty))])
}

fn ident_of(p: &Path) -> &str {
    &p.segments[0].ident
}

fn type_ident(t: &RustType) -> &str {
    match t {
        RustType::Path(p) => ident_of(p),
        _ => panic!("not a path type"),
    }
}

fn impl_args() -> Vec<NestedMeta> {
    vec![
        list("raw_types", vec![bare("u8"), bare("Foo")]),
        list("description", vec![NestedMeta::Lit(lit_str("Bar"))]),
        generic("T", "u16"),
    ]
}

#[test]
fn impl_attributes_are_read() {
    assert_eq!(ImplAttributes::validate(impl_args()), Ok(()));
    let a = ImplAttributes::from(impl_args());
    assert_eq!(a.raw_types, vec!["u8".to_string(), "Foo".to_string()]);
    assert_eq!(a.description, Some("Bar".to_string()));
    assert_eq!(a.generics.len(), 1);
    assert_eq!(ident_of(&a.generics[0].0), "T");
    assert_eq!(type_ident(&a.generics[0].1), "u16");
    assert!(a.ffi_imports.is_empty());
    assert!(a.consumer_imports.is_empty());
}

#[test]
fn impl_attributes_are_rejected() {
    let mut repeated = impl_args();
    repeated.push(list("raw_types", vec![bare("u16")]));
    assert_eq!(ImplAttributes::validate(repeated), Err(AttributeError::DuplicateRawTypes));
    let mut twice = impl_args();
    twice.push(generic("T", "u32"));
    assert_eq!(ImplAttributes::validate(twice), Err(AttributeError::DuplicateGeneric));
    let mut unknown = impl_args();
    unknown.push(list("extend_type", vec![bare("Foo")]));
    assert_eq!(ImplAttributes::validate(unknown), Err(AttributeError::UnsupportedImplAttribute));
    assert_eq!(ImplAttributes::validate(vec![bare("raw_types")]), Err(AttributeError::UnsupportedMetaType));
}

fn fn_args() -> Vec<NestedMeta> {
    vec![
        list("extend_type", vec![bare("Widget")]),
        list("raw_types", vec![bare("Foo")]),
        generic("T", "u16"),
    ]
}

#[test]
fn fn_attributes_are_read() {
    assert_eq!(FnAttributes::validate(fn_args()), Ok(()));
    let a = FnAttributes::from(fn_args());
    assert_eq!(a.extend_type, "Widget");
    assert_eq!(a.raw_types, vec!["Foo".to_string()]);
    assert_eq!(a.generics.len(), 1);
    assert_eq!(ident_of(&a.generics[0].0), "T");
    assert_eq!(type_ident(&a.generics[0].1), "u16");
}

#[test]
fn fn_attributes_are_rejected() {
    assert_eq!(
        FnAttributes::validate(vec![list("raw_types", vec![bare("Foo")])]),
        Err(AttributeError::MissingExtendType)
    );
    let mut repeated = fn_args();
    repeated.push(list("extend_type", vec![bare("Gadget")]));
    assert_eq!(FnAttributes::validate(repeated), Err(AttributeError::DuplicateExtendType));
    let mut twice = fn_args();
    twice.push(list("raw_types", vec![bare("Bar")]));
    assert_eq!(FnAttributes::validate(twice), Err(AttributeError::DuplicateRawTypes));
    let mut generic_twice = fn_args();
    generic_twice.push(generic("T", "u32"));
    assert_eq!(FnAttributes::validate(generic_twice), Err(AttributeError::DuplicateGeneric));
    let mut unknown = fn_args();
    unknown.push(list("description", vec![]));
    assert_eq!(FnAttributes::validate(unknown), Err(AttributeError::UnsupportedFnAttribute));
    assert_eq!(FnAttributes::validate(vec![bare("extend_type")]), Err(AttributeError::UnsupportedMetaType));
    assert_eq!(
        FnAttributes::validate(vec![NestedMeta::Lit(lit_str("Widget"))]),
        Err(AttributeError::LiteralAttribute)
    );
    assert_eq!(
        FnAttributes::validate(vec![list("extend_type", vec![])]),
        Err(AttributeError::EmptyExtendType)
    );
}

fn attribute(name: &str, meta: Meta) -> Attribute {
    Attribute { path: path(name), meta: Some(meta) }
}

fn struct_attrs(extra: Vec<NestedMeta>) -> Vec<Attribute> {
    let mut nested = vec![
        name_value("custom", lit_str("src/custom.rs")),
        bare("failable_init"),
        list("alias_modules", vec![bare("m1"), bare("m2")]),
        bare("forbid_memberwise_init"),
    ];
    nested.extend(extra);
    vec![
        attribute("doc", Meta::NameValue(MetaNameValue { path: path("doc"), lit: lit_str("d") })),
        attribute("ffi", Meta::List(MetaList { path: path("ffi"), nested })),
    ]
}

#[test]
fn struct_attributes_are_read() {
    assert_eq!(StructAttributes::validate(struct_attrs(vec![])), Ok(()));
    let s = StructAttributes::from(struct_attrs(vec![]));
    let custom = s.custom_attributes.expect("custom attributes");
    assert!(custom.failable_fns.is_empty());
    assert!(custom.failable_init);
    assert_eq!(custom.path, "src/custom.rs");
    assert_eq!(s.alias_modules, vec!["m1".to_string(), "m2".to_string()]);
    assert!(s.forbid_memberwise_init);
    assert!(s.consumer_imports.is_empty());
    assert!(s.ffi_mod_imports.is_empty());
}

#[test]
fn unsupported_struct_attribute_is_rejected() {
    assert_eq!(
        StructAttributes::validate(struct_attrs(vec![bare("raw")])),
        Err(AttributeError::UnsupportedStructAttribute)
    );
}

#[test]
fn generic_types_are_read_from_their_text() {
    let a = FnAttributes::from(vec![list("extend_type", vec![bare("Widget")]), generic("T", "Vec<u8>")]);
    match &a.generics[0].1 {
        RustType::Path(p) => {
            assert_eq!(p.segments.len(), 1);
            assert_eq!(p.segments[0].ident, "Vec");
            match &p.segments[0].arguments {
                PathArguments::AngleBracketed(args) => assert_eq!(args.len(), 1),
                _ => panic!("Vec takes one type argument"),
            }
        },
        _ => panic!("Vec<u8> is a path type"),
    }
    assert_eq!(
        FnAttributes::validate(vec![list("extend_type", vec![bare("Widget")]), generic("T", "not a type")]),
        Err(AttributeError::InvalidGenericType)
    );
    assert_eq!(ImplAttributes::validate(vec![generic("T", "u16,")]), Err(AttributeError::InvalidGenericType));
}
