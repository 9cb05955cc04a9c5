use ffi_common::alias_resolution::{
    kept_attribute_positions, parse_alias_module, resolve_type_alias, update_alias_map, AliasDefinition,
    AliasError, AliasMap, ModuleItem, TypeAliasItem,
};
use ffi_common::parsing::{
    Attribute, Lit, LitStr, Meta, MetaNameValue, Path, PathArguments, PathSegment, RustType,
};

const RESOLUTION_KEY1: &str = "test_module_key1";
const RESOLUTION_KEY2: &str = "test_module_key2";

fn definition(definition: &str, source: Option<&str>) -> AliasDefinition {
    AliasDefinition {
        definition: definition.to_string(),
        definition_source: source.map(|s| s.to_string()),
    }
}

fn setup() -> AliasMap {
    let mut map = AliasMap { modules: vec![] };
    let aliases1 = vec![
        ("alias1".to_string(), definition("u8", None)),
        ("alias2".to_string(), definition("String", None)),
    ];
    update_alias_map(&mut map, RESOLUTION_KEY1.to_string(), aliases1);
    let aliases2 = vec![
        ("alias3".to_string(), definition("u16", None)),
        ("alias4".to_string(), definition("alias1", Some(RESOLUTION_KEY1))),
    ];
    update_alias_map(&mut map, RESOLUTION_KEY2.to_string(), aliases2);
    map
}

#[test]
fn test_simple_alias_resolution() {
    let map = setup();
    let relevant_modules = vec![RESOLUTION_KEY1.to_string()];
    assert_eq!("u8", resolve_type_alias("alias1", &relevant_modules, &map));
}

#[test]
fn test_nested_alias_resolution() {
    let map = setup();
    let relevant_modules = vec![RESOLUTION_KEY2.to_string()];
    assert_eq!("u8", resolve_type_alias("alias4", &relevant_modules, &map));
}

#[test]
fn test_non_alias_type() {
    let map = setup();
    let relevant_modules = vec![RESOLUTION_KEY2.to_string()];
    assert_eq!("i32", resolve_type_alias("i32", &relevant_modules, &map));
}

#[test]
fn updating_a_module_replaces_its_aliases() {
    let mut map = setup();
    update_alias_map(&mut map, RESOLUTION_KEY1.to_string(), vec![("alias1".to_string(), definition("u32", None))]);
    assert_eq!(map.modules.len(), 2);
    let relevant_modules = vec![RESOLUTION_KEY1.to_string()];
    assert_eq!("u32", resolve_type_alias("alias1", &relevant_modules, &map));
    assert_eq!("alias2", resolve_type_alias("alias2", &relevant_modules, &map));
}

fn path(ident: &str) -> Path {
    Path { segments: vec![PathSegment { ident: ident.to_string(), arguments: PathArguments::Bare }] }
}

fn name_value_attribute(name: &str, value: &str) -> Attribute {
    Attribute {
        path: path(name),
        meta: Some(Meta::NameValue(MetaNameValue {
            path: path(name),
            lit: Lit::Str(LitStr { value: value.to_string() }),
        })),
    }
}

fn alias(ident: &str, attrs: Vec<Attribute>, ty: RustType) -> ModuleItem {
    ModuleItem::TypeAlias(TypeAliasItem { ident: ident.to_string(), attrs, ty })
}

#[test]
fn alias_module_is_read_and_stripped() {
    let items = vec![
        alias("Foo", vec![], RustType::Path(path("u16"))),
        ModuleItem::Other,
        alias(
            "Bar",
            vec![name_value_attribute("doc", "d"), name_value_attribute("nested_alias", "key")],
            RustType::Path(path("Foo")),
        ),
    ];
    let mut map = setup();
    let stripped = match parse_alias_module("new_key".to_string(), Some(items), &mut map) {
        Ok(r) => r,
        Err(e) => panic!("{:?}", e),
    };
    assert_eq!(map.modules.len(), 3);
    assert_eq!(map.modules[2].0, "new_key");
    let aliases = &map.modules[2].1;
    assert_eq!(aliases.len(), 2);
    assert_eq!(aliases[0].0, "Foo");
    assert_eq!(aliases[0].1.definition, "u16");
    assert_eq!(aliases[0].1.definition_source, None);
    assert_eq!(aliases[1].0, "Bar");
    assert_eq!(aliases[1].1.definition, "Foo");
    assert_eq!(aliases[1].1.definition_source, Some("key".to_string()));
    assert_eq!(resolve_type_alias("Bar", &vec!["new_key".to_string()], &map), "Foo");
    assert_eq!(stripped.len(), 3);
    match &stripped[2] {
        ModuleItem::TypeAlias(t) => {
            assert_eq!(t.attrs.len(), 1);
            assert_eq!(t.attrs[0].path.segments[0].ident, "doc");
        },
        ModuleItem::Other => panic!("the alias is kept"),
    }
}

#[test]
fn unreadable_alias_is_reported_with_its_position() {
    let mut map = setup();
    let items = vec![
        alias("Foo", vec![], RustType::Path(path("u16"))),
        alias("Bar", vec![], RustType::Reference(Box::new(RustType::Path(path("u16"))))),
    ];
    assert!(matches!(
        parse_alias_module(RESOLUTION_KEY1.to_string(), Some(items), &mut map),
        Err(AliasError::UnexpectedType(1))
    ));
    let items = vec![ModuleItem::Other, alias("Foo", vec![], RustType::Path(Path { segments: vec![] }))];
    assert!(matches!(
        parse_alias_module(RESOLUTION_KEY1.to_string(), Some(items), &mut map),
        Err(AliasError::MissingPath(1))
    ));
    assert_eq!(map.modules.len(), 2);
    assert_eq!(map.modules[0].1[0].1.definition, "u8");
}

#[test]
fn module_without_content_is_rejected() {
    let mut map = setup();
    assert!(matches!(
        parse_alias_module(RESOLUTION_KEY1.to_string(), None, &mut map),
        Err(AliasError::EmptyModule)
    ));
    assert_eq!(map.modules.len(), 2);
    assert_eq!(map.modules[0].1.len(), 2);
}

#[test]
fn later_alias_of_one_name_replaces_the_earlier() {
    let mut map = AliasMap { modules: vec![] };
    let items = vec![
        alias("Foo", vec![], RustType::Path(path("u16"))),
        alias("Foo", vec![], RustType::Path(path("u32"))),
    ];
    assert!(parse_alias_module("m".to_string(), Some(items), &mut map).is_ok());
    assert_eq!(map.modules[0].1.len(), 1);
    assert_eq!(map.modules[0].1[0].1.definition, "u32");
}

#[test]
fn nested_alias_attributes_are_not_kept() {
    let attrs = vec![
        name_value_attribute("nested_alias", "key"),
        name_value_attribute("doc", "d"),
        name_value_attribute("nested_alias", "other"),
        name_value_attribute("allow", "x"),
    ];
    assert_eq!(kept_attribute_positions(&attrs), vec![1, 3]);
}
