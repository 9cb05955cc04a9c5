//! Parses the FFI helper attributes on fields, structs, functions and impls.
//!
//! Attributes are consumed as they are read, so that the paths and types found in them move into
//! the parsed result unchanged.

use crate::parsing::{
    path_is_ident, Attribute, FieldAttributes, Lit, Meta, NestedMeta, Path, PathArguments,
    RustType,
};
use crate::text::{str_equal, views};
use crate::parsing::is_ident;
use crate::syntax::{parse_path_str, parse_type_str, parsed_path, parsed_type};
use vstd::prelude::*;

verus! {

/// Why a set of FFI helper attributes is rejected.
#[derive(Debug, Clone, Copy, PartialEq, Eq, Structural)]
pub enum AttributeError {
    /// A field attribute other than `raw` and `expose_as`.
    UnsupportedFieldAttribute,
    /// A struct attribute other than `custom`, `alias_modules`, `consumer_imports`,
    /// `ffi_mod_imports`, `failable_init`, `failable_fns` and `forbid_memberwise_init`.
    UnsupportedStructAttribute,
    /// A function or impl attribute that is a bare path or a name-value pair instead of a list.
    UnsupportedMetaType,
    /// A function attribute other than `generic`, `raw_types` and `extend_type`.
    UnsupportedFnAttribute,
    /// An impl attribute other than `ffi_imports`, `consumer_imports`, `raw_types`, `description`
    /// and `generic`.
    UnsupportedImplAttribute,
    /// A literal where an attribute was expected.
    LiteralAttribute,
    /// `extend_type` set more than once.
    DuplicateExtendType,
    /// `extend_type` given no path.
    EmptyExtendType,
    /// `extend_type` not set.
    MissingExtendType,
    /// `raw_types` set more than once.
    DuplicateRawTypes,
    /// `ffi_imports` set more than once.
    DuplicateFfiImports,
    /// `consumer_imports` set more than once.
    DuplicateConsumerImports,
    /// `description` set more than once.
    DuplicateDescription,
    /// `description` given no value.
    MissingDescription,
    /// A generic given more than one concrete type.
    DuplicateGeneric,
    /// A generic's concrete type is not a type.
    InvalidGenericType,
}

// ---------------------------------------------------------------------------------------------
// `ffi(...)` attribute contents
// ---------------------------------------------------------------------------------------------

/// True when an attribute can be read: an `ffi` attribute must be a metadata list.
pub open spec fn ffi_attr_readable(a: Attribute) -> bool {
    path_is_ident(a.path, "ffi"@) ==> (a.meta matches Some(Meta::List(_)))
}

/// The items of an `ffi(...)` attribute; nothing for any other attribute.
pub open spec fn ffi_meta_spec(a: Attribute) -> Seq<NestedMeta> {
    if path_is_ident(a.path, "ffi"@) {
        match a.meta {
            Some(Meta::List(l)) => l.nested@,
            _ => Seq::empty(),
        }
    } else {
        Seq::empty()
    }
}

/// The items of all `ffi(...)` attributes among `attrs`, in order.
pub open spec fn ffi_items_spec(attrs: Seq<Attribute>) -> Seq<NestedMeta>
    decreases attrs.len(),
{
    if attrs.len() == 0 {
        Seq::empty()
    } else {
        ffi_items_spec(attrs.drop_last()) + ffi_meta_spec(attrs.last())
    }
}

/// If the path of the attribute is `ffi`, the attribute's items. Otherwise, nothing.
pub fn parse_ffi_meta(attr: Attribute) -> (r: Vec<NestedMeta>)
    requires
        ffi_attr_readable(attr),
    ensures
        r@ == ffi_meta_spec(attr),
{
    if !is_ident(&attr.path, "ffi") {
        return Vec::new();
    }
    match attr.meta {
        Some(Meta::List(l)) => l.nested,
        _ => Vec::new(),
    }
}

/// The items of all `ffi(...)` attributes among `attrs`, in order.
pub fn ffi_items(attrs: Vec<Attribute>) -> (r: Vec<NestedMeta>)
    requires
        forall|i: int| 0 <= i < attrs@.len() ==> ffi_attr_readable(#[trigger] attrs@[i]),
    ensures
        r@ == ffi_items_spec(attrs@),
{
    let ghost all = attrs@;
    let mut rest = attrs;
    let mut r: Vec<NestedMeta> = Vec::new();
    let mut k: usize = 0;
    let n: usize = rest.len();
    while rest.len() > 0
        invariant
            all.len() == n,
            k + rest@.len() == all.len(),
            rest@ == all.skip(k as int),
            r@ == ffi_items_spec(all.take(k as int)),
            forall|i: int| 0 <= i < all.len() ==> ffi_attr_readable(#[trigger] all[i]),
        decreases rest@.len(),
    {
        let a = rest.remove(0);
        assert(a == all[k as int]);
        let mut items = parse_ffi_meta(a);
        r.append(&mut items);
        proof {
            assert(all.take(k + 1).drop_last() =~= all.take(k as int));
            assert(all.take(k + 1).last() == all[k as int]);
        }
        k = k + 1;
        assert(rest@ =~= all.skip(k as int));
    }
    assert(all.take(k as int) =~= all);
    r
}

// ---------------------------------------------------------------------------------------------
// Paths in metadata lists
// ---------------------------------------------------------------------------------------------

/// The bare paths among `items`, in order.
pub open spec fn paths_spec(items: Seq<NestedMeta>) -> Seq<Path>
    decreases items.len(),
{
    if items.len() == 0 {
        Seq::empty()
    } else {
        match items.last() {
            NestedMeta::Meta(Meta::Path(p)) => paths_spec(items.drop_last()).push(p),
            _ => paths_spec(items.drop_last()),
        }
    }
}

/// The bare paths among `items`, in order.
pub fn paths_from_nested(items: Vec<NestedMeta>) -> (r: Vec<Path>)
    ensures
        r@ == paths_spec(items@),
{
    let ghost all = items@;
    let mut rest = items;
    let mut r: Vec<Path> = Vec::new();
    let mut k: usize = 0;
    let n: usize = rest.len();
    while rest.len() > 0
        invariant
            all.len() == n,
            k + rest@.len() == all.len(),
            rest@ == all.skip(k as int),
            r@ == paths_spec(all.take(k as int)),
        decreases rest@.len(),
    {
        let item = rest.remove(0);
        assert(item == all[k as int]);
        proof {
            assert(all.take(k + 1).drop_last() =~= all.take(k as int));
            assert(all.take(k + 1).last() == all[k as int]);
        }
        match item {
            NestedMeta::Meta(Meta::Path(p)) => {
                r.push(p);
            },
            _ => {},
        }
        k = k + 1;
        assert(rest@ =~= all.skip(k as int));
    }
    assert(all.take(k as int) =~= all);
    r
}

/// The identifier of a path that is a single bare identifier.
pub open spec fn get_ident_spec(p: Path) -> Option<Seq<char>> {
    if p.segments@.len() == 1 && p.segments@[0].arguments is Bare {
        Some(p.segments@[0].ident@)
    } else {
        None
    }
}

/// The identifiers of the paths among `paths` that are single bare identifiers, in order.
pub open spec fn idents_spec(paths: Seq<Path>) -> Seq<Seq<char>>
    decreases paths.len(),
{
    if paths.len() == 0 {
        Seq::empty()
    } else {
        match get_ident_spec(paths.last()) {
            Some(i) => idents_spec(paths.drop_last()).push(i),
            None => idents_spec(paths.drop_last()),
        }
    }
}

/// The identifier of a path that is a single bare identifier.
pub fn get_ident(p: &Path) -> (r: Option<String>)
    ensures
        match r {
            Some(s) => get_ident_spec(*p) == Some(s@),
            None => get_ident_spec(*p) is None,
        },
{
    if p.segments.len() == 1 {
        match &p.segments[0].arguments {
            PathArguments::Bare => Some(String::from_str(p.segments[0].ident.as_str())),
            _ => None,
        }
    } else {
        None
    }
}

/// The identifiers of the paths among `paths` that are single bare identifiers, in order.
pub fn idents_of(paths: &Vec<Path>) -> (r: Vec<String>)
    ensures
        views(r@) == idents_spec(paths@),
{
    let mut r: Vec<String> = Vec::new();
    let mut i: usize = 0;
    while i < paths.len()
        invariant
            i <= paths.len(),
            views(r@) == idents_spec(paths@.take(i as int)),
        decreases paths.len() - i,
    {
        let ghost before = r@;
        proof {
            assert(paths@.take(i + 1).drop_last() =~= paths@.take(i as int));
        }
        match get_ident(&paths[i]) {
            Some(s) => {
                r.push(s);
                assert(views(r@) =~= views(before).push(r@.last()@));
            },
            None => {},
        }
        i = i + 1;
    }
    assert(paths@.take(paths.len() as int) =~= paths@);
    r
}

/// The identifiers of the segments of the bare paths among `items`, in order.
pub open spec fn modules_spec(items: Seq<NestedMeta>) -> Seq<Seq<char>>
    decreases items.len(),
{
    if items.len() == 0 {
        Seq::empty()
    } else {
        match items.last() {
            NestedMeta::Meta(Meta::Path(p)) => modules_spec(items.drop_last()) + p.segments@.map_values(
                |s: crate::parsing::PathSegment| s.ident@,
            ),
            _ => modules_spec(items.drop_last()),
        }
    }
}

/// The identifiers of the segments of a nested item's path; nothing if it is not a bare path.
pub fn get_modules_from_meta(meta: &NestedMeta) -> (r: Vec<String>)
    ensures
        views(r@) == match *meta {
            NestedMeta::Meta(Meta::Path(p)) => p.segments@.map_values(
                |s: crate::parsing::PathSegment| s.ident@,
            ),
            _ => Seq::<Seq<char>>::empty(),
        },
{
    match meta {
        NestedMeta::Meta(Meta::Path(p)) => {
            let r = crate::parsing::path_segment_idents(p);
            assert(views(r@) =~= p.segments@.map_values(|s: crate::parsing::PathSegment| s.ident@));
            r
        },
        _ => {
            let r: Vec<String> = Vec::new();
            assert(views(r@) =~= Seq::<Seq<char>>::empty());
            r
        },
    }
}

/// Appends the strings of `src` to `dst`.
fn extend_strings(dst: &mut Vec<String>, src: Vec<String>)
    ensures
        views(final(dst)@) == views(old(dst)@) + views(src@),
{
    let mut src = src;
    let ghost s0 = src@;
    dst.append(&mut src);
    assert(views(dst@) =~= views(old(dst)@) + views(s0));
}

// ---------------------------------------------------------------------------------------------
// Field attributes
// ---------------------------------------------------------------------------------------------

/// True when an `expose_as = "..."` item names a path.
pub open spec fn expose_as_readable(item: NestedMeta) -> bool {
    match item {
        NestedMeta::Meta(Meta::NameValue(m)) => path_is_ident(m.path, "expose_as"@) ==> match m.lit {
            Lit::Str(ls) => parsed_path(ls.value@) is Some,
            _ => true,
        },
        _ => true,
    }
}

/// The state of reading field attributes: the `expose_as` path, the `raw` flag, and whether an
/// unsupported item was found.
pub struct FieldState {
    /// The `expose_as` path found last, if any.
    pub expose_as: Option<Path>,
    /// Whether `raw` was found.
    pub raw: bool,
    /// Whether an unsupported item was found.
    pub unsupported: bool,
}

/// The field attribute state after reading `item`.
pub open spec fn field_step(st: FieldState, item: NestedMeta) -> FieldState {
    match item {
        NestedMeta::Meta(Meta::NameValue(m)) => if path_is_ident(m.path, "expose_as"@) {
            match m.lit {
                Lit::Str(ls) => FieldState { expose_as: Some(parsed_path(ls.value@)->0), ..st },
                _ => st,
            }
        } else {
            FieldState { unsupported: true, ..st }
        },
        NestedMeta::Meta(Meta::Path(p)) => if path_is_ident(p, "raw"@) {
            FieldState { raw: true, ..st }
        } else {
            FieldState { unsupported: true, ..st }
        },
        _ => FieldState { unsupported: true, ..st },
    }
}

/// The field attribute state after reading `items` in order.
pub open spec fn field_fold(items: Seq<NestedMeta>) -> FieldState
    decreases items.len(),
{
    if items.len() == 0 {
        FieldState { expose_as: None, raw: false, unsupported: false }
    } else {
        field_step(field_fold(items.drop_last()), items.last())
    }
}

/// The field attributes given by `attrs`, or the rejection of an unsupported item.
pub open spec fn field_attributes_spec(attrs: Seq<Attribute>) -> Result<FieldAttributes, AttributeError> {
    let st = field_fold(ffi_items_spec(attrs));
    if st.unsupported {
        Err(AttributeError::UnsupportedFieldAttribute)
    } else {
        Ok(FieldAttributes { expose_as: st.expose_as, raw: st.raw })
    }
}

/// True when the attributes can be read as field attributes.
pub open spec fn field_attributes_readable(attrs: Seq<Attribute>) -> bool {
    &&& forall|i: int| 0 <= i < attrs.len() ==> ffi_attr_readable(#[trigger] attrs[i])
    &&& forall|i: int|
        0 <= i < ffi_items_spec(attrs).len() ==> expose_as_readable(#[trigger] ffi_items_spec(attrs)[i])
}

/// True when every item of `items` that is an `expose_as = "..."` item names a path.
pub open spec fn items_readable(items: Seq<NestedMeta>) -> bool {
    forall|i: int| 0 <= i < items.len() ==> expose_as_readable(#[trigger] items[i])
}

/// Items of two lists are readable exactly when those of each list are.
proof fn lemma_items_readable_concat(a: Seq<NestedMeta>, b: Seq<NestedMeta>)
    ensures
        items_readable(a + b) == (items_readable(a) && items_readable(b)),
{
    if items_readable(a + b) {
        assert forall|i: int| 0 <= i < a.len() implies expose_as_readable(#[trigger] a[i]) by {
            assert((a + b)[i] == a[i]);
        }
        assert forall|i: int| 0 <= i < b.len() implies expose_as_readable(#[trigger] b[i]) by {
            assert((a + b)[a.len() + i] == b[i]);
        }
    }
    if items_readable(a) && items_readable(b) {
        assert forall|i: int| 0 <= i < (a + b).len() implies expose_as_readable(#[trigger] (a + b)[i]) by {
            if i < a.len() {
                assert((a + b)[i] == a[i]);
            } else {
                assert((a + b)[i] == b[i - a.len()]);
            }
        }
    }
}

/// True when the item, if it is an `expose_as = "..."` item, names a path.
fn expose_as_item_readable(item: &NestedMeta) -> (r: bool)
    ensures
        r == expose_as_readable(*item),
{
    match item {
        NestedMeta::Meta(Meta::NameValue(m)) => {
            if is_ident(&m.path, "expose_as") {
                match &m.lit {
                    Lit::Str(ls) => parse_path_str(ls.value.as_str()).is_some(),
                    _ => true,
                }
            } else {
                true
            }
        },
        _ => true,
    }
}

/// True when every item of `items` that is an `expose_as = "..."` item names a path.
fn items_readable_check(items: &Vec<NestedMeta>) -> (r: bool)
    ensures
        r == items_readable(items@),
{
    let mut ok = true;
    let mut j: usize = 0;
    assert(items@.take(0) =~= Seq::<NestedMeta>::empty());
    while j < items.len()
        invariant
            j <= items@.len(),
            ok == items_readable(items@.take(j as int)),
        decreases items@.len() - j,
    {
        let item_ok = expose_as_item_readable(&items[j]);
        proof {
            assert(items@.take(j + 1) =~= items@.take(j as int) + seq![items@[j as int]]);
            lemma_items_readable_concat(items@.take(j as int), seq![items@[j as int]]);
            assert(items_readable(seq![items@[j as int]]) == expose_as_readable(items@[j as int])) by {
                assert(seq![items@[j as int]][0] == items@[j as int]);
            }
        }
        ok = ok && item_ok;
        j = j + 1;
    }
    assert(items@.take(j as int) =~= items@);
    ok
}

/// True when `attrs` can be read as field attributes: every `ffi` attribute is a metadata list,
/// and every `expose_as = "..."` item in them names a path.
pub fn field_attributes_readable_check(attrs: &Vec<Attribute>) -> (r: bool)
    ensures
        r == field_attributes_readable(attrs@),
{
    let ghost all = attrs@;
    let mut ok = true;
    let mut i: usize = 0;
    assert(all.take(0) =~= Seq::<Attribute>::empty());
    while i < attrs.len()
        invariant
            i <= all.len(),
            all == attrs@,
            ok == ((forall|j: int| 0 <= j < i ==> ffi_attr_readable(#[trigger] all[j])) && items_readable(
                ffi_items_spec(all.take(i as int)),
            )),
        decreases all.len() - i,
    {
        let a = &attrs[i];
        let is_ffi = is_ident(&a.path, "ffi");
        let (readable, inner) = match &a.meta {
            Some(Meta::List(l)) => (true, !is_ffi || items_readable_check(&l.nested)),
            _ => (!is_ffi, true),
        };
        proof {
            assert(all.take(i + 1).drop_last() =~= all.take(i as int));
            assert(all.take(i + 1).last() == all[i as int]);
            lemma_items_readable_concat(ffi_items_spec(all.take(i as int)), ffi_meta_spec(all[i as int]));
            assert(readable == ffi_attr_readable(all[i as int]));
            assert(inner == items_readable(ffi_meta_spec(all[i as int])));
            if ok && readable {
                assert forall|j: int| 0 <= j < i + 1 implies ffi_attr_readable(#[trigger] all[j]) by {}
            }
        }
        ok = ok && readable && inner;
        i = i + 1;
    }
    assert(all.take(i as int) =~= all);
    ok
}

impl FieldAttributes {
    /// Reads the field-level FFI helper attributes of `attrs` when they can be read (see
    /// [`field_attributes_readable_check`]); `None` when they cannot.
    pub fn from_checked(attrs: Vec<Attribute>) -> (r: Option<Result<FieldAttributes, AttributeError>>)
        ensures
            match r {
                Some(x) => field_attributes_readable(attrs@) && x == field_attributes_spec(attrs@),
                None => !field_attributes_readable(attrs@),
            },
    {
        if field_attributes_readable_check(&attrs) {
            Some(Self::from(attrs))
        } else {
            None
        }
    }

    /// Reads the field-level FFI helper attributes `raw` and `expose_as = "Path"` out of `attrs`.
    /// Any other item in an `ffi(...)` attribute is rejected.
    pub fn from(attrs: Vec<Attribute>) -> (r: Result<FieldAttributes, AttributeError>)
        requires
            field_attributes_readable(attrs@),
        ensures
            r == field_attributes_spec(attrs@),
    {
        let ghost all_attrs = attrs@;
        let items = ffi_items(attrs);
        let ghost all = items@;
        let mut rest = items;
        let mut expose_as: Option<Path> = None;
        let mut raw = false;
        let mut unsupported = false;
        let mut k: usize = 0;
        let n: usize = rest.len();
        while rest.len() > 0
            invariant
                all.len() == n,
                all == ffi_items_spec(all_attrs),
                field_attributes_readable(all_attrs),
                k + rest@.len() == all.len(),
                rest@ == all.skip(k as int),
                field_fold(all.take(k as int)) == (FieldState { expose_as, raw, unsupported }),
            decreases rest@.len(),
        {
            let item = rest.remove(0);
            assert(item == all[k as int]);
            assert(expose_as_readable(all[k as int]));
            proof {
                assert(all.take(k + 1).drop_last() =~= all.take(k as int));
            }
            match item {
                NestedMeta::Meta(Meta::NameValue(m)) => {
                    if is_ident(&m.path, "expose_as") {
                        match m.lit {
                            Lit::Str(ls) => {
                                expose_as = Some(parse_path_str(ls.value.as_str()).unwrap());
                            },
                            _ => {},
                        }
                    } else {
                        unsupported = true;
                    }
                },
                NestedMeta::Meta(Meta::Path(p)) => {
                    if is_ident(&p, "raw") {
                        raw = true;
                    } else {
                        unsupported = true;
                    }
                },
                _ => {
                    unsupported = true;
                },
            }
            k = k + 1;
            assert(rest@ =~= all.skip(k as int));
        }
        assert(all.take(k as int) =~= all);
        if unsupported {
            Err(AttributeError::UnsupportedFieldAttribute)
        } else {
            Ok(FieldAttributes { expose_as, raw })
        }
    }
}

// ---------------------------------------------------------------------------------------------
// Struct attributes
// ---------------------------------------------------------------------------------------------

/// The identifiers of the segments of the bare paths among `items`, in order.
pub fn modules_from_nested(items: &Vec<NestedMeta>) -> (r: Vec<String>)
    ensures
        views(r@) == modules_spec(items@),
{
    let mut r: Vec<String> = Vec::new();
    let mut i: usize = 0;
    while i < items.len()
        invariant
            i <= items.len(),
            views(r@) == modules_spec(items@.take(i as int)),
        decreases items.len() - i,
    {
        proof {
            assert(items@.take(i + 1).drop_last() =~= items@.take(i as int));
        }
        let m = get_modules_from_meta(&items[i]);
        extend_strings(&mut r, m);
        i = i + 1;
    }
    assert(items@.take(items.len() as int) =~= items@);
    r
}

/// Helper attributes that describe special behavior for structs with a custom FFI.
pub struct CustomAttributes {
    /// Paths to the functions that can fail (i.e., return a `Result` internally).
    pub failable_fns: Vec<Path>,
    /// True if the initializer in this custom FFI can fail.
    pub failable_init: bool,
    /// The path (relative to the crate's root) to the file containing the custom FFI
    /// implementation for the struct.
    pub path: String,
}

impl CustomAttributes {
    /// No failable functions, an infallible initializer and an empty path.
    pub fn default() -> (r: Self)
        ensures
            r.failable_fns@.len() == 0,
            !r.failable_init,
            r.path@.len() == 0,
    {
        CustomAttributes { failable_fns: Vec::new(), failable_init: false, path: String::new() }
    }
}

/// Struct-level FFI helper attributes.
pub struct StructAttributes {
    /// Alias modules that are referenced by the types of this struct's fields.
    pub alias_modules: Vec<String>,
    /// Custom attributes of a struct that has a custom (manually defined) FFI; `None` for a struct
    /// whose FFI is derived.
    pub custom_attributes: Option<CustomAttributes>,
    /// Paths that need to be imported into the consumer module.
    pub consumer_imports: Vec<Path>,
    /// Paths that need to be imported into the FFI module.
    pub ffi_mod_imports: Vec<Path>,
    /// If true, do not generate a memberwise initializer for this type.
    pub forbid_memberwise_init: bool,
}

/// The mathematical value of custom attributes.
pub struct CustomState {
    /// The failable functions.
    pub failable_fns: Seq<Path>,
    /// Whether the initializer is failable.
    pub failable_init: bool,
    /// The custom FFI file's path.
    pub path: Seq<char>,
}

/// The state of reading struct attributes.
pub struct StructState {
    /// The alias modules found so far.
    pub alias_modules: Seq<Seq<char>>,
    /// The custom attributes found so far, if any.
    pub custom: Option<CustomState>,
    /// The consumer imports found so far.
    pub consumer_imports: Seq<Path>,
    /// The FFI module imports found so far.
    pub ffi_mod_imports: Seq<Path>,
    /// Whether `forbid_memberwise_init` was found.
    pub forbid: bool,
    /// Whether an unsupported item was found.
    pub unsupported: bool,
}

/// The custom attributes found so far, or the defaults when there are none yet.
pub open spec fn custom_or_default(c: Option<CustomState>) -> CustomState {
    match c {
        Some(c) => c,
        None => CustomState { failable_fns: Seq::empty(), failable_init: false, path: Seq::empty() },
    }
}

/// The struct attribute state after reading `item`.
pub open spec fn struct_step(st: StructState, item: NestedMeta) -> StructState {
    let c = custom_or_default(st.custom);
    match item {
        NestedMeta::Meta(Meta::NameValue(m)) => if path_is_ident(m.path, "custom"@) {
            match m.lit {
                Lit::Str(ls) => StructState { custom: Some(CustomState { path: ls.value@, ..c }), ..st },
                _ => st,
            }
        } else {
            StructState { unsupported: true, ..st }
        },
        NestedMeta::Meta(Meta::List(l)) => if path_is_ident(l.path, "alias_modules"@) {
            StructState { alias_modules: st.alias_modules + modules_spec(l.nested@), ..st }
        } else if path_is_ident(l.path, "consumer_imports"@) {
            StructState { consumer_imports: st.consumer_imports + paths_spec(l.nested@), ..st }
        } else if path_is_ident(l.path, "ffi_mod_imports"@) {
            StructState { ffi_mod_imports: st.ffi_mod_imports + paths_spec(l.nested@), ..st }
        } else if path_is_ident(l.path, "failable_fns"@) {
            StructState {
                custom: Some(CustomState { failable_fns: c.failable_fns + paths_spec(l.nested@), ..c }),
                ..st
            }
        } else {
            StructState { unsupported: true, ..st }
        },
        NestedMeta::Meta(Meta::Path(p)) => if path_is_ident(p, "failable_init"@) {
            StructState { custom: Some(CustomState { failable_init: true, ..c }), ..st }
        } else if path_is_ident(p, "forbid_memberwise_init"@) {
            StructState { forbid: true, ..st }
        } else {
            StructState { unsupported: true, ..st }
        },
        _ => StructState { unsupported: true, ..st },
    }
}

/// The struct attribute state after reading `items` in order.
pub open spec fn struct_fold(items: Seq<NestedMeta>) -> StructState
    decreases items.len(),
{
    if items.len() == 0 {
        StructState {
            alias_modules: Seq::empty(),
            custom: None,
            consumer_imports: Seq::empty(),
            ffi_mod_imports: Seq::empty(),
            forbid: false,
            unsupported: false,
        }
    } else {
        struct_step(struct_fold(items.drop_last()), items.last())
    }
}

/// The mathematical value of custom attributes.
pub open spec fn custom_view(c: CustomAttributes) -> CustomState {
    CustomState { failable_fns: c.failable_fns@, failable_init: c.failable_init, path: c.path@ }
}

/// The mathematical value of optional custom attributes.
pub open spec fn custom_opt_view(c: Option<CustomAttributes>) -> Option<CustomState> {
    match c {
        Some(c) => Some(custom_view(c)),
        None => None,
    }
}

/// True when `r` holds the struct attributes read into the state `st`.
pub open spec fn struct_matches(r: StructAttributes, st: StructState) -> bool {
    &&& views(r.alias_modules@) == st.alias_modules
    &&& custom_opt_view(r.custom_attributes) == st.custom
    &&& r.consumer_imports@ == st.consumer_imports
    &&& r.ffi_mod_imports@ == st.ffi_mod_imports
    &&& r.forbid_memberwise_init == st.forbid
}

/// Takes the custom attributes out of `c`, or the defaults when there are none.
fn take_custom(c: &mut Option<CustomAttributes>) -> (r: CustomAttributes)
    ensures
        custom_view(r) == custom_or_default(custom_opt_view(*old(c))),
        *final(c) is None,
{
    match c.take() {
        Some(x) => x,
        None => {
            let d = CustomAttributes::default();
            assert(d.failable_fns@ =~= Seq::<Path>::empty());
            assert(d.path@ =~= Seq::<char>::empty());
            d
        },
    }
}

impl StructAttributes {
    /// Checks the struct-level FFI helper attributes in `attrs`: fails with
    /// `UnsupportedStructAttribute` exactly when one of their items is not among those that
    /// [`StructAttributes::from`] reads.
    pub fn validate(attrs: Vec<Attribute>) -> (r: Result<(), AttributeError>)
        requires
            forall|i: int| 0 <= i < attrs@.len() ==> ffi_attr_readable(#[trigger] attrs@[i]),
        ensures
            match r {
                Ok(()) => !struct_fold(ffi_items_spec(attrs@)).unsupported,
                Err(e) => struct_fold(ffi_items_spec(attrs@)).unsupported && e
                    == AttributeError::UnsupportedStructAttribute,
            },
    {
        match Self::read(attrs) {
            Ok(_) => Ok(()),
            Err(e) => Err(e),
        }
    }

    /// Reads the struct-level FFI helper attributes out of `attrs`: `custom = "path"`,
    /// `alias_modules(...)`, `consumer_imports(...)`, `ffi_mod_imports(...)`, `failable_init`,
    /// `failable_fns(...)` and `forbid_memberwise_init`. Any other item is a compile error of the
    /// annotated struct, so it is ruled out here; [`StructAttributes::validate`] reports it.
    pub fn from(attrs: Vec<Attribute>) -> (r: StructAttributes)
        requires
            forall|i: int| 0 <= i < attrs@.len() ==> ffi_attr_readable(#[trigger] attrs@[i]),
            !struct_fold(ffi_items_spec(attrs@)).unsupported,
        ensures
            struct_matches(r, struct_fold(ffi_items_spec(attrs@))),
    {
        match Self::read(attrs) {
            Ok(a) => a,
            Err(_) => unreached(),
        }
    }

    /// Reads the struct-level attributes, or rejects them when an item is unsupported.
    fn read(attrs: Vec<Attribute>) -> (r: Result<StructAttributes, AttributeError>)
        requires
            forall|i: int| 0 <= i < attrs@.len() ==> ffi_attr_readable(#[trigger] attrs@[i]),
        ensures
            match r {
                Ok(a) => !struct_fold(ffi_items_spec(attrs@)).unsupported && struct_matches(
                    a,
                    struct_fold(ffi_items_spec(attrs@)),
                ),
                Err(e) => struct_fold(ffi_items_spec(attrs@)).unsupported && e
                    == AttributeError::UnsupportedStructAttribute,
            },
    {
        let ghost all_attrs = attrs@;
        let items = ffi_items(attrs);
        let ghost all = items@;
        let mut rest = items;
        let mut res = StructAttributes {
            alias_modules: Vec::new(),
            custom_attributes: None,
            consumer_imports: Vec::new(),
            ffi_mod_imports: Vec::new(),
            forbid_memberwise_init: false,
        };
        let mut unsupported = false;
        let mut k: usize = 0;
        let n: usize = rest.len();
        assert(views(res.alias_modules@) =~= Seq::<Seq<char>>::empty());
        while rest.len() > 0
            invariant
                all.len() == n,
                all == ffi_items_spec(all_attrs),
                k + rest@.len() == all.len(),
                rest@ == all.skip(k as int),
                struct_matches(res, struct_fold(all.take(k as int))),
                unsupported == struct_fold(all.take(k as int)).unsupported,
            decreases rest@.len(),
        {
            let item = rest.remove(0);
            assert(item == all[k as int]);
            proof {
                assert(all.take(k + 1).drop_last() =~= all.take(k as int));
            }
            match item {
                NestedMeta::Meta(Meta::NameValue(m)) => {
                    if is_ident(&m.path, "custom") {
                        match m.lit {
                            Lit::Str(ls) => {
                                let mut c = take_custom(&mut res.custom_attributes);
                                c.path = ls.value;
                                res.custom_attributes = Some(c);
                            },
                            _ => {},
                        }
                    } else {
                        unsupported = true;
                    }
                },
                NestedMeta::Meta(Meta::List(l)) => {
                    if is_ident(&l.path, "alias_modules") {
                        let m = modules_from_nested(&l.nested);
                        extend_strings(&mut res.alias_modules, m);
                    } else if is_ident(&l.path, "consumer_imports") {
                        let mut ps = paths_from_nested(l.nested);
                        res.consumer_imports.append(&mut ps);
                    } else if is_ident(&l.path, "ffi_mod_imports") {
                        let mut ps = paths_from_nested(l.nested);
                        res.ffi_mod_imports.append(&mut ps);
                    } else if is_ident(&l.path, "failable_fns") {
                        let mut c = take_custom(&mut res.custom_attributes);
                        let mut ps = paths_from_nested(l.nested);
                        c.failable_fns.append(&mut ps);
                        res.custom_attributes = Some(c);
                    } else {
                        unsupported = true;
                    }
                },
                NestedMeta::Meta(Meta::Path(p)) => {
                    if is_ident(&p, "failable_init") {
                        let mut c = take_custom(&mut res.custom_attributes);
                        c.failable_init = true;
                        res.custom_attributes = Some(c);
                    } else if is_ident(&p, "forbid_memberwise_init") {
                        res.forbid_memberwise_init = true;
                    } else {
                        unsupported = true;
                    }
                },
                _ => {
                    unsupported = true;
                },
            }
            k = k + 1;
            assert(rest@ =~= all.skip(k as int));
        }
        assert(all.take(k as int) =~= all);
        if unsupported {
            Err(AttributeError::UnsupportedStructAttribute)
        } else {
            Ok(res)
        }
    }
}

// ---------------------------------------------------------------------------------------------
// Generic substitutions, shared by function and impl attributes
// ---------------------------------------------------------------------------------------------

/// True when two generic parameters are the same: their paths have the same segments.
pub open spec fn same_key(a: Path, b: Path) -> bool {
    crate::parsing::path_idents(a) == crate::parsing::path_idents(b)
}

/// True when `key` is a generic parameter of `gens`.
pub open spec fn has_key(gens: Seq<(Path, RustType)>, key: Path) -> bool {
    exists|i: int| 0 <= i < gens.len() && same_key(#[trigger] gens[i].0, key)
}

/// The generic substitutions after reading the items of a `generic(T = "Type", ...)` list: each
/// `name = "type"` pair adds a substitution; other items are skipped. A generic given twice, or a
/// value that is not a type, is rejected.
pub open spec fn generics_fold(gens: Seq<(Path, RustType)>, items: Seq<NestedMeta>) -> Result<
    Seq<(Path, RustType)>,
    AttributeError,
>
    decreases items.len(),
{
    if items.len() == 0 {
        Ok(gens)
    } else {
        match generics_fold(gens, items.drop_last()) {
            Err(e) => Err(e),
            Ok(acc) => match items.last() {
                NestedMeta::Meta(Meta::NameValue(nv)) => match nv.lit {
                    Lit::Str(ls) => match parsed_type(ls.value@) {
                        Some(ty) => if has_key(acc, nv.path) {
                            Err(AttributeError::DuplicateGeneric)
                        } else {
                            Ok(acc.push((nv.path, ty)))
                        },
                        None => Err(AttributeError::InvalidGenericType),
                    },
                    _ => Ok(acc),
                },
                _ => Ok(acc),
            },
        }
    }
}

/// True when the two paths have the same segments.
pub(crate) fn same_idents(a: &Path, b: &Path) -> (r: bool)
    ensures
        r == same_key(*a, *b),
{
    if a.segments.len() != b.segments.len() {
        assert(crate::parsing::path_idents(*a).len() != crate::parsing::path_idents(*b).len());
        return false;
    }
    let mut i: usize = 0;
    while i < a.segments.len()
        invariant
            a.segments.len() == b.segments.len(),
            i <= a.segments.len(),
            forall|j: int| 0 <= j < i ==> a.segments@[j].ident@ == b.segments@[j].ident@,
        decreases a.segments.len() - i,
    {
        if !str_equal(a.segments[i].ident.as_str(), b.segments[i].ident.as_str()) {
            assert(crate::parsing::path_idents(*a)[i as int] != crate::parsing::path_idents(*b)[i as int]);
            return false;
        }
        i = i + 1;
    }
    assert(crate::parsing::path_idents(*a) =~= crate::parsing::path_idents(*b));
    true
}

/// True when `key` is a generic parameter of `gens`.
fn contains_key(gens: &Vec<(Path, RustType)>, key: &Path) -> (r: bool)
    ensures
        r == has_key(gens@, *key),
{
    let mut i: usize = 0;
    while i < gens.len()
        invariant
            i <= gens.len(),
            forall|j: int| 0 <= j < i ==> !same_key(#[trigger] gens@[j].0, *key),
        decreases gens.len() - i,
    {
        if same_idents(&gens[i].0, key) {
            assert(same_key(gens@[i as int].0, *key));
            return true;
        }
        i = i + 1;
    }
    false
}

/// Adds the substitutions of a `generic(...)` list to `gens`.
fn read_generics(gens: &mut Vec<(Path, RustType)>, items: Vec<NestedMeta>) -> (r: Result<
    (),
    AttributeError,
>)
    ensures
        r is Ok ==> generics_fold(old(gens)@, items@) == Ok::<Seq<(Path, RustType)>, AttributeError>(final(gens)@),
        r matches Err(e) ==> generics_fold(old(gens)@, items@) == Err::<Seq<(Path, RustType)>, AttributeError>(e),
{
    let ghost g0 = gens@;
    let ghost all = items@;
    let mut rest = items;
    let mut k: usize = 0;
    let n: usize = rest.len();
    while rest.len() > 0
        invariant
            all.len() == n,
            k + rest@.len() == all.len(),
            rest@ == all.skip(k as int),
            generics_fold(g0, all.take(k as int)) == Ok::<Seq<(Path, RustType)>, AttributeError>(gens@),
            g0 == old(gens)@,
            all == items@,
        decreases rest@.len(),
    {
        let item = rest.remove(0);
        assert(item == all[k as int]);
        proof {
            assert(all.take(k + 1).drop_last() =~= all.take(k as int));
            assert(all.take(k + 1).last() == all[k as int]);
        }
        match item {
            NestedMeta::Meta(Meta::NameValue(nv)) => match nv.lit {
                Lit::Str(ls) => match parse_type_str(ls.value.as_str()) {
                    Some(ty) => {
                        if contains_key(gens, &nv.path) {
                            proof { lemma_generics_fold_err(g0, all, k + 1); }
                            return Err(AttributeError::DuplicateGeneric);
                        }
                        gens.push((nv.path, ty));
                    },
                    None => {
                        proof { lemma_generics_fold_err(g0, all, k + 1); }
                        return Err(AttributeError::InvalidGenericType);
                    },
                },
                _ => {},
            },
            _ => {},
        }
        k = k + 1;
        assert(rest@ =~= all.skip(k as int));
    }
    assert(all.take(k as int) =~= all);
    Ok(())
}

// ---------------------------------------------------------------------------------------------
// Function attributes
// ---------------------------------------------------------------------------------------------

/// Function-level FFI helper attributes.
pub struct FnAttributes {
    /// The type to be extended with an implementation for this function in the consumer.
    pub extend_type: String,
    /// Any types in this function that should be treated as raw types.
    pub raw_types: Vec<String>,
    /// The generic parameters used in this function, each with the concrete type to use in its
    /// place for the FFI.
    pub generics: Vec<(Path, RustType)>,
}

/// The state of reading function attributes.
pub struct FnState {
    /// The type to extend, if set.
    pub extend_type: Option<Seq<char>>,
    /// The raw types.
    pub raw_types: Seq<Seq<char>>,
    /// The generic substitutions.
    pub generics: Seq<(Path, RustType)>,
}

/// The function attribute state after reading `arg`, or the rejection it causes.
pub open spec fn fn_step(st: FnState, arg: NestedMeta) -> Result<FnState, AttributeError> {
    match arg {
        NestedMeta::Meta(Meta::List(l)) => {
            let paths = paths_spec(l.nested@);
            if path_is_ident(l.path, "extend_type"@) {
                if st.extend_type is Some {
                    Err(AttributeError::DuplicateExtendType)
                } else if paths.len() == 0 {
                    Err(AttributeError::EmptyExtendType)
                } else {
                    Ok(FnState { extend_type: get_ident_spec(paths[0]), ..st })
                }
            } else if path_is_ident(l.path, "raw_types"@) {
                if st.raw_types.len() > 0 {
                    Err(AttributeError::DuplicateRawTypes)
                } else {
                    Ok(FnState { raw_types: idents_spec(paths), ..st })
                }
            } else if path_is_ident(l.path, "generic"@) {
                match generics_fold(st.generics, l.nested@) {
                    Ok(g) => Ok(FnState { generics: g, ..st }),
                    Err(e) => Err(e),
                }
            } else {
                Err(AttributeError::UnsupportedFnAttribute)
            }
        },
        NestedMeta::Meta(_) => Err(AttributeError::UnsupportedMetaType),
        NestedMeta::Lit(_) => Err(AttributeError::LiteralAttribute),
    }
}

/// The function attribute state after reading `args` in order, or the first rejection.
pub open spec fn fn_fold(args: Seq<NestedMeta>) -> Result<FnState, AttributeError>
    decreases args.len(),
{
    if args.len() == 0 {
        Ok(FnState { extend_type: None, raw_types: Seq::empty(), generics: Seq::empty() })
    } else {
        match fn_fold(args.drop_last()) {
            Ok(st) => fn_step(st, args.last()),
            Err(e) => Err(e),
        }
    }
}

/// The function attributes read from `args`, as their state, or the rejection: `extend_type`
/// must be set.
pub open spec fn fn_attributes_spec(args: Seq<NestedMeta>) -> Result<FnState, AttributeError> {
    match fn_fold(args) {
        Ok(st) => if st.extend_type is Some {
            Ok(st)
        } else {
            Err(AttributeError::MissingExtendType)
        },
        Err(e) => Err(e),
    }
}

/// The state of function attributes.
pub open spec fn fn_view(a: FnAttributes) -> FnState {
    FnState { extend_type: Some(a.extend_type@), raw_types: views(a.raw_types@), generics: a.generics@ }
}

/// True when the list item is a bare path or a list, not a name-value pair.
fn first_path_ident(paths: &Vec<Path>) -> (r: Option<String>)
    requires
        paths@.len() > 0,
    ensures
        match r {
            Some(s) => get_ident_spec(paths@[0]) == Some(s@),
            None => get_ident_spec(paths@[0]) is None,
        },
{
    get_ident(&paths[0])
}

impl FnAttributes {
    /// Checks the function-level FFI helper arguments: fails with the first rejection
    /// exactly when [`fn_attributes_spec`] rejects them.
    pub fn validate(args: Vec<NestedMeta>) -> (r: Result<(), AttributeError>)
        ensures
            match r {
                Ok(()) => fn_attributes_spec(args@) is Ok,
                Err(e) => fn_attributes_spec(args@) == Err::<FnState, AttributeError>(e),
            },
    {
        match Self::read(args) {
            Ok(_) => Ok(()),
            Err(e) => Err(e),
        }
    }

    /// Reads the function-level FFI helper arguments `extend_type(Type)`, `raw_types(...)` and
    /// `generic(T = "Type", ...)`. Each must be a list; `extend_type` must be set exactly once
    /// and `raw_types` at most once, and a generic may be given one type only. Anything else is
    /// a compile error of the annotated function, so it is ruled out here;
    /// [`FnAttributes::validate`] reports it.
    pub fn from(args: Vec<NestedMeta>) -> (r: FnAttributes)
        requires
            fn_attributes_spec(args@) is Ok,
        ensures
            fn_attributes_spec(args@) == Ok::<FnState, AttributeError>(fn_view(r)),
    {
        match Self::read(args) {
            Ok(a) => a,
            Err(_) => unreached(),
        }
    }

    /// Reads the function-level arguments, or the first rejection.
    fn read(args: Vec<NestedMeta>) -> (r: Result<FnAttributes, AttributeError>)
        ensures
            match r {
                Ok(a) => fn_attributes_spec(args@) == Ok::<FnState, AttributeError>(fn_view(a)),
                Err(e) => fn_attributes_spec(args@) == Err::<FnState, AttributeError>(e),
            },
    {
        let ghost all = args@;
        let mut rest = args;
        let mut extend_type: Option<String> = None;
        let mut raw_types: Vec<String> = Vec::new();
        let mut generics: Vec<(Path, RustType)> = Vec::new();
        let mut k: usize = 0;
        let n: usize = rest.len();
        assert(views(raw_types@) =~= Seq::<Seq<char>>::empty());
        assert(generics@ =~= Seq::<(Path, RustType)>::empty());
        assert(all.take(0) =~= Seq::<NestedMeta>::empty());
        while rest.len() > 0
            invariant
                all.len() == n,
                k + rest@.len() == all.len(),
                rest@ == all.skip(k as int),
                all == args@,
                fn_fold(all.take(k as int)) == Ok::<FnState, AttributeError>(
                    FnState {
                        extend_type: match extend_type {
                            Some(s) => Some(s@),
                            None => None,
                        },
                        raw_types: views(raw_types@),
                        generics: generics@,
                    },
                ),
            decreases rest@.len(),
        {
            let arg = rest.remove(0);
            assert(arg == all[k as int]);
            proof {
                assert(all.take(k + 1).drop_last() =~= all.take(k as int));
            }
            match arg {
                NestedMeta::Meta(Meta::List(l)) => {
                    if is_ident(&l.path, "extend_type") {
                        if extend_type.is_some() {
                            proof { lemma_fn_fold_err(all, k + 1); }
                            return Err(AttributeError::DuplicateExtendType);
                        }
                        let paths = paths_from_nested(l.nested);
                        if paths.len() == 0 {
                            proof { lemma_fn_fold_err(all, k + 1); }
                            return Err(AttributeError::EmptyExtendType);
                        }
                        extend_type = first_path_ident(&paths);
                    } else if is_ident(&l.path, "raw_types") {
                        if raw_types.len() > 0 {
                            proof { lemma_fn_fold_err(all, k + 1); }
                            return Err(AttributeError::DuplicateRawTypes);
                        }
                        let paths = paths_from_nested(l.nested);
                        raw_types = idents_of(&paths);
                    } else if is_ident(&l.path, "generic") {
                        match read_generics(&mut generics, l.nested) {
                            Ok(()) => {},
                            Err(e) => {
                                proof { lemma_fn_fold_err(all, k + 1); }
                                return Err(e);
                            },
                        }
                    } else {
                        proof { lemma_fn_fold_err(all, k + 1); }
                        return Err(AttributeError::UnsupportedFnAttribute);
                    }
                },
                NestedMeta::Meta(_) => {
                    proof { lemma_fn_fold_err(all, k + 1); }
                    return Err(AttributeError::UnsupportedMetaType);
                },
                NestedMeta::Lit(_) => {
                    proof { lemma_fn_fold_err(all, k + 1); }
                    return Err(AttributeError::LiteralAttribute);
                },
            }
            k = k + 1;
            assert(rest@ =~= all.skip(k as int));
        }
        assert(all.take(k as int) =~= all);
        match extend_type {
            Some(extend_type) => Ok(FnAttributes { extend_type, raw_types, generics }),
            None => Err(AttributeError::MissingExtendType),
        }
    }
}

// ---------------------------------------------------------------------------------------------
// Impl attributes
// ---------------------------------------------------------------------------------------------

/// Impl-level FFI helper attributes.
pub struct ImplAttributes {
    /// Any imports that need to be included in the generated FFI module.
    pub ffi_imports: Vec<Path>,
    /// Any imports the consumer will need in order to support the implementation.
    pub consumer_imports: Vec<Path>,
    /// Any types in this impl that should be treated as raw types.
    pub raw_types: Vec<String>,
    /// A description of this impl, used to name the generated module and consumer file uniquely.
    pub description: Option<String>,
    /// The generic parameters used throughout this impl, each with the concrete type to use in
    /// its place for the FFI.
    pub generics: Vec<(Path, RustType)>,
}

/// The state of reading impl attributes.
pub struct ImplState {
    /// The FFI imports.
    pub ffi_imports: Seq<Path>,
    /// The consumer imports.
    pub consumer_imports: Seq<Path>,
    /// The raw types.
    pub raw_types: Seq<Seq<char>>,
    /// The description, if set.
    pub description: Option<Seq<char>>,
    /// The generic substitutions.
    pub generics: Seq<(Path, RustType)>,
}

/// The impl attribute state after reading `arg`, or the rejection it causes.
pub open spec fn impl_step(st: ImplState, arg: NestedMeta) -> Result<ImplState, AttributeError> {
    match arg {
        NestedMeta::Meta(Meta::List(l)) => {
            let paths = paths_spec(l.nested@);
            if path_is_ident(l.path, "ffi_imports"@) {
                if st.ffi_imports.len() > 0 {
                    Err(AttributeError::DuplicateFfiImports)
                } else {
                    Ok(ImplState { ffi_imports: paths, ..st })
                }
            } else if path_is_ident(l.path, "consumer_imports"@) {
                if st.consumer_imports.len() > 0 {
                    Err(AttributeError::DuplicateConsumerImports)
                } else {
                    Ok(ImplState { consumer_imports: paths, ..st })
                }
            } else if path_is_ident(l.path, "raw_types"@) {
                if st.raw_types.len() > 0 {
                    Err(AttributeError::DuplicateRawTypes)
                } else {
                    Ok(ImplState { raw_types: idents_spec(paths), ..st })
                }
            } else if path_is_ident(l.path, "description"@) {
                if st.description is Some {
                    Err(AttributeError::DuplicateDescription)
                } else if l.nested@.len() == 0 {
                    Err(AttributeError::MissingDescription)
                } else {
                    match l.nested@[0] {
                        NestedMeta::Lit(Lit::Str(ls)) => Ok(ImplState { description: Some(ls.value@), ..st }),
                        _ => Ok(st),
                    }
                }
            } else if path_is_ident(l.path, "generic"@) {
                match generics_fold(st.generics, l.nested@) {
                    Ok(g) => Ok(ImplState { generics: g, ..st }),
                    Err(e) => Err(e),
                }
            } else {
                Err(AttributeError::UnsupportedImplAttribute)
            }
        },
        NestedMeta::Meta(_) => Err(AttributeError::UnsupportedMetaType),
        NestedMeta::Lit(_) => Err(AttributeError::LiteralAttribute),
    }
}

/// The impl attribute state after reading `args` in order, or the first rejection.
pub open spec fn impl_fold(args: Seq<NestedMeta>) -> Result<ImplState, AttributeError>
    decreases args.len(),
{
    if args.len() == 0 {
        Ok(
            ImplState {
                ffi_imports: Seq::empty(),
                consumer_imports: Seq::empty(),
                raw_types: Seq::empty(),
                description: None,
                generics: Seq::empty(),
            },
        )
    } else {
        match impl_fold(args.drop_last()) {
            Ok(st) => impl_step(st, args.last()),
            Err(e) => Err(e),
        }
    }
}

/// The state of impl attributes.
pub open spec fn impl_view(a: ImplAttributes) -> ImplState {
    ImplState {
        ffi_imports: a.ffi_imports@,
        consumer_imports: a.consumer_imports@,
        raw_types: views(a.raw_types@),
        description: match a.description {
            Some(d) => Some(d@),
            None => None,
        },
        generics: a.generics@,
    }
}

impl ImplAttributes {
    /// Checks the impl-level FFI helper arguments: fails with the first rejection exactly when
    /// [`impl_fold`] rejects them.
    pub fn validate(args: Vec<NestedMeta>) -> (r: Result<(), AttributeError>)
        ensures
            match r {
                Ok(()) => impl_fold(args@) is Ok,
                Err(e) => impl_fold(args@) == Err::<ImplState, AttributeError>(e),
            },
    {
        match Self::read(args) {
            Ok(_) => Ok(()),
            Err(e) => Err(e),
        }
    }

    /// Reads the impl-level FFI helper arguments `ffi_imports(...)`, `consumer_imports(...)`,
    /// `raw_types(...)`, `description("...")` and `generic(T = "Type", ...)`. Each must be a list
    /// given at most once, and a generic may be given one type only. Anything else is a compile
    /// error of the annotated impl, so it is ruled out here; [`ImplAttributes::validate`]
    /// reports it.
    pub fn from(args: Vec<NestedMeta>) -> (r: ImplAttributes)
        requires
            impl_fold(args@) is Ok,
        ensures
            impl_fold(args@) == Ok::<ImplState, AttributeError>(impl_view(r)),
    {
        match Self::read(args) {
            Ok(a) => a,
            Err(_) => unreached(),
        }
    }

    /// Reads the impl-level arguments, or the first rejection.
    fn read(args: Vec<NestedMeta>) -> (r: Result<ImplAttributes, AttributeError>)
        ensures
            match r {
                Ok(a) => impl_fold(args@) == Ok::<ImplState, AttributeError>(impl_view(a)),
                Err(e) => impl_fold(args@) == Err::<ImplState, AttributeError>(e),
            },
    {
        let ghost all = args@;
        let mut rest = args;
        let mut res = ImplAttributes {
            ffi_imports: Vec::new(),
            consumer_imports: Vec::new(),
            raw_types: Vec::new(),
            description: None,
            generics: Vec::new(),
        };
        let mut k: usize = 0;
        let n: usize = rest.len();
        assert(views(res.raw_types@) =~= Seq::<Seq<char>>::empty());
        assert(res.ffi_imports@ =~= Seq::<Path>::empty());
        assert(res.consumer_imports@ =~= Seq::<Path>::empty());
        assert(res.generics@ =~= Seq::<(Path, RustType)>::empty());
        assert(all.take(0) =~= Seq::<NestedMeta>::empty());
        while rest.len() > 0
            invariant
                all.len() == n,
                k + rest@.len() == all.len(),
                rest@ == all.skip(k as int),
                impl_fold(all.take(k as int)) == Ok::<ImplState, AttributeError>(impl_view(res)),
                all == args@,
            decreases rest@.len(),
        {
            let arg = rest.remove(0);
            assert(arg == all[k as int]);
            proof {
                assert(all.take(k + 1).drop_last() =~= all.take(k as int));
            }
            match arg {
                NestedMeta::Meta(Meta::List(l)) => {
                    if is_ident(&l.path, "ffi_imports") {
                        if res.ffi_imports.len() > 0 {
                            proof { lemma_impl_fold_err(all, k + 1); }
                            return Err(AttributeError::DuplicateFfiImports);
                        }
                        res.ffi_imports = paths_from_nested(l.nested);
                    } else if is_ident(&l.path, "consumer_imports") {
                        if res.consumer_imports.len() > 0 {
                            proof { lemma_impl_fold_err(all, k + 1); }
                            return Err(AttributeError::DuplicateConsumerImports);
                        }
                        res.consumer_imports = paths_from_nested(l.nested);
                    } else if is_ident(&l.path, "raw_types") {
                        if res.raw_types.len() > 0 {
                            proof { lemma_impl_fold_err(all, k + 1); }
                            return Err(AttributeError::DuplicateRawTypes);
                        }
                        let paths = paths_from_nested(l.nested);
                        res.raw_types = idents_of(&paths);
                    } else if is_ident(&l.path, "description") {
                        if res.description.is_some() {
                            proof { lemma_impl_fold_err(all, k + 1); }
                            return Err(AttributeError::DuplicateDescription);
                        }
                        let mut nested = l.nested;
                        if nested.len() == 0 {
                            proof { lemma_impl_fold_err(all, k + 1); }
                            return Err(AttributeError::MissingDescription);
                        }
                        match nested.remove(0) {
                            NestedMeta::Lit(Lit::Str(ls)) => {
                                res.description = Some(ls.value);
                            },
                            _ => {},
                        }
                    } else if is_ident(&l.path, "generic") {
                        match read_generics(&mut res.generics, l.nested) {
                            Ok(()) => {},
                            Err(e) => {
                                proof { lemma_impl_fold_err(all, k + 1); }
                                return Err(e);
                            },
                        }
                    } else {
                        proof { lemma_impl_fold_err(all, k + 1); }
                        return Err(AttributeError::UnsupportedImplAttribute);
                    }
                },
                NestedMeta::Meta(_) => {
                    proof { lemma_impl_fold_err(all, k + 1); }
                    return Err(AttributeError::UnsupportedMetaType);
                },
                NestedMeta::Lit(_) => {
                    proof { lemma_impl_fold_err(all, k + 1); }
                    return Err(AttributeError::LiteralAttribute);
                },
            }
            k = k + 1;
            assert(rest@ =~= all.skip(k as int));
        }
        assert(all.take(k as int) =~= all);
        Ok(res)
    }
}

/// Once reading generic substitutions is rejected, reading more items keeps the rejection.
proof fn lemma_generics_fold_err(g: Seq<(Path, RustType)>, all: Seq<NestedMeta>, k: int)
    requires
        0 <= k <= all.len(),
        generics_fold(g, all.take(k)) is Err,
    ensures
        generics_fold(g, all) == generics_fold(g, all.take(k)),
    decreases all.len() - k,
{
    if k < all.len() {
        assert(all.take(k + 1).drop_last() =~= all.take(k));
        lemma_generics_fold_err(g, all, k + 1);
    } else {
        assert(all.take(k) =~= all);
    }
}

/// Once reading function attributes is rejected, reading more items keeps the rejection.
proof fn lemma_fn_fold_err(all: Seq<NestedMeta>, k: int)
    requires
        0 <= k <= all.len(),
        fn_fold(all.take(k)) is Err,
    ensures
        fn_fold(all) == fn_fold(all.take(k)),
    decreases all.len() - k,
{
    if k < all.len() {
        assert(all.take(k + 1).drop_last() =~= all.take(k));
        lemma_fn_fold_err(all, k + 1);
    } else {
        assert(all.take(k) =~= all);
    }
}

/// Once reading impl attributes is rejected, reading more items keeps the rejection.
proof fn lemma_impl_fold_err(all: Seq<NestedMeta>, k: int)
    requires
        0 <= k <= all.len(),
        impl_fold(all.take(k)) is Err,
    ensures
        impl_fold(all) == impl_fold(all.take(k)),
    decreases all.len() - k,
{
    if k < all.len() {
        assert(all.take(k + 1).drop_last() =~= all.take(k));
        lemma_impl_fold_err(all, k + 1);
    } else {
        assert(all.take(k) =~= all);
    }
}

} // verus!
