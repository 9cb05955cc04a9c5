//! Resolution of type aliases defined in other crates.
//!
//! When a field's type is an alias defined in a remote crate (`type Foo = u16;`), the underlying
//! type decides how it is exposed. Alias modules are read into an alias map, keyed first by the
//! module's resolution key and then by the alias's name; resolving an alias follows its
//! definition, through aliases of aliases, until a type that is not an alias is reached.

use crate::parsing::{path_is_ident, Attribute, Lit, Meta, RustType};
use crate::parsing::is_ident;
use crate::text::str_equal;
use vstd::prelude::*;

verus! {

/// The data for a type alias.
pub struct AliasDefinition {
    /// The type that the alias is defined as. In `type Foo = u16`, this is `u16`.
    pub definition: String,
    /// `Some` if `definition` is itself an alias, naming the module to look it up in.
    pub definition_source: Option<String>,
}

/// The mathematical value of an alias definition.
pub open spec fn def_view(d: AliasDefinition) -> (Seq<char>, Option<Seq<char>>) {
    (
        d.definition@,
        match d.definition_source {
            Some(s) => Some(s@),
            None => None,
        },
    )
}

/// The aliases of one module: each alias's name with its definition.
pub type ModuleAliases = Vec<(String, AliasDefinition)>;

/// The mathematical value of a module's aliases.
pub open spec fn aliases_view(a: Seq<(String, AliasDefinition)>) -> Seq<(Seq<char>, (Seq<char>, Option<Seq<char>>))> {
    a.map_values(|e: (String, AliasDefinition)| (e.0@, def_view(e.1)))
}

/// The alias map: each alias module's resolution key with the module's aliases.
pub struct AliasMap {
    /// The alias modules.
    pub modules: Vec<(String, ModuleAliases)>,
}

/// The mathematical value of an alias map.
pub open spec fn map_view(m: Seq<(String, ModuleAliases)>) -> Seq<(Seq<char>, Seq<(Seq<char>, (Seq<char>, Option<Seq<char>>))>)> {
    m.map_values(|e: (String, ModuleAliases)| (e.0@, aliases_view(e.1@)))
}

/// The first entry of `entries` under `key`.
pub open spec fn lookup<V>(entries: Seq<(Seq<char>, V)>, key: Seq<char>) -> Option<V>
    decreases entries.len(),
{
    if entries.len() == 0 {
        None
    } else if entries[0].0 == key {
        Some(entries[0].1)
    } else {
        lookup(entries.drop_first(), key)
    }
}

/// `entries` with the entry under `key` replaced by `value`, or with `(key, value)` added when
/// there is none.
pub open spec fn upsert<V>(entries: Seq<(Seq<char>, V)>, key: Seq<char>, value: V) -> Seq<(Seq<char>, V)>
    decreases entries.len(),
{
    if entries.len() == 0 {
        seq![(key, value)]
    } else if entries[0].0 == key {
        entries.update(0, (key, value))
    } else {
        seq![entries[0]] + upsert(entries.drop_first(), key, value)
    }
}

/// The definition of the alias `name` in the first of `modules` whose aliases define it.
pub open spec fn find_alias(
    map: Seq<(Seq<char>, Seq<(Seq<char>, (Seq<char>, Option<Seq<char>>))>)>,
    modules: Seq<Seq<char>>,
    name: Seq<char>,
) -> Option<(Seq<char>, Option<Seq<char>>)>
    decreases modules.len(),
{
    if modules.len() == 0 {
        None
    } else {
        match lookup(map, modules[0]) {
            Some(aliases) => match lookup(aliases, name) {
                Some(d) => Some(d),
                None => find_alias(map, modules.drop_first(), name),
            },
            None => find_alias(map, modules.drop_first(), name),
        }
    }
}

/// The type that `name` resolves to, looking it up in `modules`, in at most `fuel` steps:
/// an alias resolves to what its definition resolves to (looked up in its definition's source
/// module if it names one, in the same modules otherwise); any other name resolves to itself.
/// `None` when `fuel` steps are not enough.
pub open spec fn resolve_in(
    map: Seq<(Seq<char>, Seq<(Seq<char>, (Seq<char>, Option<Seq<char>>))>)>,
    name: Seq<char>,
    modules: Seq<Seq<char>>,
    fuel: nat,
) -> Option<Seq<char>>
    decreases fuel,
{
    match find_alias(map, modules, name) {
        None => Some(name),
        Some(d) => if fuel == 0 {
            None
        } else {
            let next_modules = match d.1 {
                Some(src) => seq![src],
                None => modules,
            };
            resolve_in(map, d.0, next_modules, (fuel - 1) as nat)
        },
    }
}

/// True when `name` resolves, in `modules`, to `target` (the chain of aliases is finite).
pub open spec fn resolves_to(
    map: Seq<(Seq<char>, Seq<(Seq<char>, (Seq<char>, Option<Seq<char>>))>)>,
    name: Seq<char>,
    modules: Seq<Seq<char>>,
    target: Seq<char>,
) -> bool {
    exists|fuel: nat| resolve_in(map, name, modules, fuel) == Some(target)
}

/// True when resolving `name` in `modules` ends: its chain of aliases has no cycle.
pub open spec fn resolvable(
    map: Seq<(Seq<char>, Seq<(Seq<char>, (Seq<char>, Option<Seq<char>>))>)>,
    name: Seq<char>,
    modules: Seq<Seq<char>>,
) -> bool {
    exists|fuel: nat| resolve_in(map, name, modules, fuel) is Some
}

/// More fuel gives the same resolution.
pub proof fn lemma_resolve_fuel_mono(
    map: Seq<(Seq<char>, Seq<(Seq<char>, (Seq<char>, Option<Seq<char>>))>)>,
    name: Seq<char>,
    modules: Seq<Seq<char>>,
    f1: nat,
    f2: nat,
)
    requires
        f1 <= f2,
        resolve_in(map, name, modules, f1) is Some,
    ensures
        resolve_in(map, name, modules, f2) == resolve_in(map, name, modules, f1),
    decreases f1,
{
    match find_alias(map, modules, name) {
        None => {},
        Some(d) => {
            let next_modules = match d.1 {
                Some(src) => seq![src],
                None => modules,
            };
            lemma_resolve_fuel_mono(map, d.0, next_modules, (f1 - 1) as nat, (f2 - 1) as nat);
        },
    }
}

/// A name resolves to one type at most.
pub proof fn lemma_resolution_unique(
    map: Seq<(Seq<char>, Seq<(Seq<char>, (Seq<char>, Option<Seq<char>>))>)>,
    name: Seq<char>,
    modules: Seq<Seq<char>>,
    t1: Seq<char>,
    t2: Seq<char>,
)
    requires
        resolves_to(map, name, modules, t1),
        resolves_to(map, name, modules, t2),
    ensures
        t1 == t2,
{
    let f1 = choose|fuel: nat| resolve_in(map, name, modules, fuel) == Some(t1);
    let f2 = choose|fuel: nat| resolve_in(map, name, modules, fuel) == Some(t2);
    if f1 <= f2 {
        lemma_resolve_fuel_mono(map, name, modules, f1, f2);
    } else {
        lemma_resolve_fuel_mono(map, name, modules, f2, f1);
    }
}

/// An alias resolves to what its definition resolves to: looked up in the alias's source module
/// when it names one, and in the same modules otherwise.
pub proof fn lemma_alias_resolves_through_definition(
    map: Seq<(Seq<char>, Seq<(Seq<char>, (Seq<char>, Option<Seq<char>>))>)>,
    name: Seq<char>,
    modules: Seq<Seq<char>>,
    definition: Seq<char>,
    source: Option<Seq<char>>,
    target: Seq<char>,
)
    requires
        find_alias(map, modules, name) == Some((definition, source)),
    ensures
        source is None ==> (resolves_to(map, name, modules, target) <==> resolves_to(map, definition, modules, target)),
        source matches Some(src) ==> (resolves_to(map, name, modules, target) <==> resolves_to(
            map,
            definition,
            seq![src],
            target,
        )),
{
    let next = match source {
        Some(src) => seq![src],
        None => modules,
    };
    if resolves_to(map, name, modules, target) {
        let k = choose|fuel: nat| resolve_in(map, name, modules, fuel) == Some(target);
        assert(k > 0);
        assert(resolve_in(map, definition, next, (k - 1) as nat) == Some(target));
    }
    if resolves_to(map, definition, next, target) {
        let k = choose|fuel: nat| resolve_in(map, definition, next, fuel) == Some(target);
        assert(resolve_in(map, name, modules, k + 1) == Some(target));
    }
}

/// A name that no module defines as an alias resolves to itself.
pub proof fn lemma_non_alias_resolves_to_itself(
    map: Seq<(Seq<char>, Seq<(Seq<char>, (Seq<char>, Option<Seq<char>>))>)>,
    name: Seq<char>,
    modules: Seq<Seq<char>>,
)
    requires
        find_alias(map, modules, name) is None,
    ensures
        resolves_to(map, name, modules, name),
{
    assert(resolve_in(map, name, modules, 0) == Some(name));
}

/// The index of the first entry under `key`, if any.
fn position<V>(entries: &Vec<(String, V)>, key: &str) -> (r: Option<usize>)
    ensures
        match r {
            Some(i) => i < entries@.len() && entries@[i as int].0@ == key@ && forall|j: int|
                0 <= j < i ==> entries@[j].0@ != key@,
            None => forall|j: int| 0 <= j < entries@.len() ==> entries@[j].0@ != key@,
        },
{
    let mut i: usize = 0;
    while i < entries.len()
        invariant
            i <= entries.len(),
            forall|j: int| 0 <= j < i ==> entries@[j].0@ != key@,
        decreases entries.len() - i,
    {
        if str_equal(entries[i].0.as_str(), key) {
            return Some(i);
        }
        i = i + 1;
    }
    None
}

/// The first entry under `key` is the one at `i`, when `i` is the first position of `key`.
proof fn lemma_lookup_position<V>(entries: Seq<(Seq<char>, V)>, key: Seq<char>, i: int)
    requires
        0 <= i < entries.len(),
        entries[i].0 == key,
        forall|j: int| 0 <= j < i ==> entries[j].0 != key,
    ensures
        lookup(entries, key) == Some(entries[i].1),
    decreases i,
{
    if i > 0 {
        lemma_lookup_position(entries.drop_first(), key, i - 1);
    }
}

/// There is no entry under `key` when no entry has it.
proof fn lemma_lookup_absent<V>(entries: Seq<(Seq<char>, V)>, key: Seq<char>)
    requires
        forall|j: int| 0 <= j < entries.len() ==> entries[j].0 != key,
    ensures
        lookup(entries, key) is None,
    decreases entries.len(),
{
    if entries.len() > 0 {
        lemma_lookup_absent(entries.drop_first(), key);
    }
}

/// The definition of `name` in a module's aliases, if it has one.
fn module_alias<'a>(aliases: &'a ModuleAliases, name: &str) -> (r: Option<&'a AliasDefinition>)
    ensures
        match r {
            Some(d) => lookup(aliases_view(aliases@), name@) == Some(def_view(*d)),
            None => lookup(aliases_view(aliases@), name@) is None,
        },
{
    match position(aliases, name) {
        Some(i) => {
            proof {
                lemma_lookup_position(aliases_view(aliases@), name@, i as int);
            }
            Some(&aliases[i].1)
        },
        None => {
            proof {
                lemma_lookup_absent(aliases_view(aliases@), name@);
            }
            None
        },
    }
}

/// The aliases of the module under `key`, if the map has it.
fn map_module<'a>(map: &'a AliasMap, key: &str) -> (r: Option<&'a ModuleAliases>)
    ensures
        match r {
            Some(a) => lookup(map_view(map.modules@), key@) == Some(aliases_view(a@)),
            None => lookup(map_view(map.modules@), key@) is None,
        },
{
    match position(&map.modules, key) {
        Some(i) => {
            proof {
                lemma_lookup_position(map_view(map.modules@), key@, i as int);
            }
            Some(&map.modules[i].1)
        },
        None => {
            proof {
                lemma_lookup_absent(map_view(map.modules@), key@);
            }
            None
        },
    }
}

/// The views of a sequence of strings.
pub open spec fn names_view(v: Seq<String>) -> Seq<Seq<char>> {
    v.map_values(|s: String| s@)
}

/// The definition of the alias `name` in the first of `modules` whose aliases define it.
fn find_alias_exec<'a>(map: &'a AliasMap, modules: &Vec<String>, name: &str) -> (r: Option<
    &'a AliasDefinition,
>)
    ensures
        match r {
            Some(d) => find_alias(map_view(map.modules@), names_view(modules@), name@) == Some(def_view(*d)),
            None => find_alias(map_view(map.modules@), names_view(modules@), name@) is None,
        },
{
    let ghost mv = map_view(map.modules@);
    let ghost ms = names_view(modules@);
    let mut i: usize = 0;
    assert(ms.skip(0) =~= ms);
    while i < modules.len()
        invariant
            i <= modules.len(),
            mv == map_view(map.modules@),
            ms == names_view(modules@),
            find_alias(mv, ms, name@) == find_alias(mv, ms.skip(i as int), name@),
        decreases modules.len() - i,
    {
        let ghost rest = ms.skip(i as int);
        assert(rest[0] == modules@[i as int]@);
        assert(rest.drop_first() =~= ms.skip(i + 1));
        match map_module(map, modules[i].as_str()) {
            Some(aliases) => match module_alias(aliases, name) {
                Some(d) => {
                    return Some(d);
                },
                None => {},
            },
            None => {},
        }
        i = i + 1;
    }
    assert(ms.skip(i as int) =~= Seq::<Seq<char>>::empty());
    None
}

/// The views of a copy of the strings.
pub fn copy_names(v: &Vec<String>) -> (r: Vec<String>)
    ensures
        names_view(r@) == names_view(v@),
{
    let mut r: Vec<String> = Vec::new();
    let mut i: usize = 0;
    while i < v.len()
        invariant
            i <= v.len(),
            r@.len() == i,
            forall|j: int| 0 <= j < i ==> #[trigger] r@[j]@ == v@[j]@,
        decreases v.len() - i,
    {
        r.push(String::from_str(v[i].as_str()));
        i = i + 1;
    }
    assert(names_view(r@) =~= names_view(v@));
    r
}

/// If `type_ident` is an alias in the alias map, returns the underlying type, resolving aliases of
/// aliases; otherwise returns `type_ident`. Aliases are looked up in `relevant_modules`, in order.
pub fn resolve_type_alias(type_ident: &str, relevant_modules: &Vec<String>, map: &AliasMap) -> (r:
    String)
    requires
        resolvable(map_view(map.modules@), type_ident@, names_view(relevant_modules@)),
    ensures
        resolves_to(map_view(map.modules@), type_ident@, names_view(relevant_modules@), r@),
{
    let ghost mv = map_view(map.modules@);
    let ghost fuel0 = choose|fuel: nat| resolve_in(mv, type_ident@, names_view(relevant_modules@), fuel) is Some;
    let ghost target = resolve_in(mv, type_ident@, names_view(relevant_modules@), fuel0)->0;
    let mut name = String::from_str(type_ident);
    let mut modules = copy_names(relevant_modules);
    let ghost mut fuel: nat = fuel0;
    loop
        invariant
            mv == map_view(map.modules@),
            resolve_in(mv, name@, names_view(modules@), fuel) == Some(target),
            resolve_in(mv, type_ident@, names_view(relevant_modules@), fuel0) == Some(target),
        decreases fuel,
    {
        match find_alias_exec(map, &modules, name.as_str()) {
            None => {
                proof {
                    assert(resolve_in(mv, type_ident@, names_view(relevant_modules@), fuel0) == Some(name@));
                }
                return name;
            },
            Some(d) => {
                let next_name = String::from_str(d.definition.as_str());
                let next_modules = match &d.definition_source {
                    Some(src) => {
                        let mut v: Vec<String> = Vec::new();
                        v.push(String::from_str(src.as_str()));
                        assert(names_view(v@) =~= seq![src@]);
                        v
                    },
                    None => modules,
                };
                name = next_name;
                modules = next_modules;
                proof {
                    fuel = (fuel - 1) as nat;
                }
            },
        }
    }
}

/// True when no key occurs twice among the entries.
pub open spec fn keys_distinct<V>(entries: Seq<(Seq<char>, V)>) -> bool {
    forall|i: int, j: int| 0 <= i < j < entries.len() ==> #[trigger] entries[i].0 != #[trigger] entries[j].0
}

/// True when an alias map holds each resolution key once, and each of its modules each alias name
/// once: the map is a map of maps.
pub open spec fn alias_map_wf(m: Seq<(Seq<char>, Seq<(Seq<char>, (Seq<char>, Option<Seq<char>>))>)>) -> bool {
    &&& keys_distinct(m)
    &&& forall|i: int| 0 <= i < m.len() ==> keys_distinct(#[trigger] m[i].1)
}

/// Each entry after an upsert of `key` is the new entry, or an entry that was there before.
proof fn lemma_upsert_entries<V>(entries: Seq<(Seq<char>, V)>, key: Seq<char>, value: V)
    ensures
        forall|i: int|
            0 <= i < upsert(entries, key, value).len() ==> #[trigger] upsert(entries, key, value)[i] == (key, value)
                || exists|j: int| 0 <= j < entries.len() && upsert(entries, key, value)[i] == entries[j],
    decreases entries.len(),
{
    let u = upsert(entries, key, value);
    if entries.len() > 0 {
        if entries[0].0 != key {
            let rest = entries.drop_first();
            lemma_upsert_entries(rest, key, value);
            assert forall|i: int| 0 <= i < u.len() implies #[trigger] u[i] == (key, value) || exists|j: int|
                0 <= j < entries.len() && u[i] == entries[j] by {
                if i == 0 {
                    assert(u[0] == entries[0]);
                } else {
                    assert(u[i] == upsert(rest, key, value)[i - 1]);
                    if u[i] != (key, value) {
                        let j = choose|j: int| 0 <= j < rest.len() && upsert(rest, key, value)[i - 1] == rest[j];
                        assert(u[i] == entries[j + 1]);
                    }
                }
            }
        } else {
            assert forall|i: int| 0 <= i < u.len() implies #[trigger] u[i] == (key, value) || exists|j: int|
                0 <= j < entries.len() && u[i] == entries[j] by {
                if i > 0 {
                    assert(u[i] == entries[i]);
                }
            }
        }
    }
}

/// An upsert keeps the keys of the entries distinct.
pub proof fn lemma_upsert_keeps_keys_distinct<V>(entries: Seq<(Seq<char>, V)>, key: Seq<char>, value: V)
    requires
        keys_distinct(entries),
    ensures
        keys_distinct(upsert(entries, key, value)),
    decreases entries.len(),
{
    let u = upsert(entries, key, value);
    if entries.len() > 0 {
        let rest = entries.drop_first();
        if entries[0].0 != key {
            lemma_upsert_keeps_keys_distinct(rest, key, value);
            lemma_upsert_entries(rest, key, value);
            let ur = upsert(rest, key, value);
            assert forall|i: int, j: int| 0 <= i < j < u.len() implies #[trigger] u[i].0 != #[trigger] u[j].0 by {
                assert(u[j] == ur[j - 1]);
                if i == 0 {
                    assert(u[0] == entries[0]);
                    if ur[j - 1] != (key, value) {
                        let q = choose|q: int| 0 <= q < rest.len() && ur[j - 1] == rest[q];
                        assert(rest[q] == entries[q + 1]);
                    }
                } else {
                    assert(u[i] == ur[i - 1]);
                }
            }
        } else {
            assert forall|i: int, j: int| 0 <= i < j < u.len() implies #[trigger] u[i].0 != #[trigger] u[j].0 by {
                assert(u[j] == entries[j]);
                if i > 0 {
                    assert(u[i] == entries[i]);
                }
            }
        }
    }
}

/// Storing the aliases of a module, whose names are distinct, in an alias map that holds each key
/// once and each alias name of a module once keeps it so.
pub proof fn lemma_alias_map_update_keeps_wf(
    before: Seq<(Seq<char>, Seq<(Seq<char>, (Seq<char>, Option<Seq<char>>))>)>,
    key: Seq<char>,
    aliases: Seq<(Seq<char>, (Seq<char>, Option<Seq<char>>))>,
)
    requires
        alias_map_wf(before),
        keys_distinct(aliases),
    ensures
        alias_map_wf(upsert(before, key, aliases)),
{
    let u = upsert(before, key, aliases);
    lemma_upsert_keeps_keys_distinct(before, key, aliases);
    lemma_upsert_entries(before, key, aliases);
    assert forall|i: int| 0 <= i < u.len() implies keys_distinct(#[trigger] u[i].1) by {
        if u[i] != (key, aliases) {
            let j = choose|j: int| 0 <= j < before.len() && u[i] == before[j];
            assert(keys_distinct(before[j].1));
        }
    }
}

/// The alias map after storing `new_aliases` under `resolution_key`, replacing any aliases stored
/// under it before.
pub fn update_alias_map(map: &mut AliasMap, resolution_key: String, new_aliases: ModuleAliases)
    ensures
        map_view(final(map).modules@) == upsert(
            map_view(old(map).modules@),
            resolution_key@,
            aliases_view(new_aliases@),
        ),
        alias_map_wf(map_view(old(map).modules@)) && keys_distinct(aliases_view(new_aliases@)) ==> alias_map_wf(
            map_view(final(map).modules@),
        ),
{
    let ghost before = map_view(map.modules@);
    proof {
        if alias_map_wf(before) && keys_distinct(aliases_view(new_aliases@)) {
            lemma_alias_map_update_keeps_wf(before, resolution_key@, aliases_view(new_aliases@));
        }
    }
    match position(&map.modules, resolution_key.as_str()) {
        Some(i) => {
            map.modules.set(i, (resolution_key, new_aliases));
            proof {
                lemma_upsert_at(before, resolution_key@, aliases_view(new_aliases@), i as int);
            }
            assert(map_view(map.modules@) =~= before.update(i as int, (resolution_key@, aliases_view(new_aliases@))));
        },
        None => {
            let ghost nv = aliases_view(new_aliases@);
            let ghost k = resolution_key@;
            map.modules.push((resolution_key, new_aliases));
            proof {
                lemma_upsert_absent(before, k, nv);
            }
            assert(map_view(map.modules@) =~= before.push((k, nv)));
        },
    }
}

/// Replacing the first entry under `key`, at `i`, is the upsert of `key`.
proof fn lemma_upsert_at<V>(entries: Seq<(Seq<char>, V)>, key: Seq<char>, value: V, i: int)
    requires
        0 <= i < entries.len(),
        entries[i].0 == key,
        forall|j: int| 0 <= j < i ==> entries[j].0 != key,
    ensures
        upsert(entries, key, value) == entries.update(i, (key, value)),
    decreases i,
{
    if i > 0 {
        lemma_upsert_at(entries.drop_first(), key, value, i - 1);
        assert(seq![entries[0]] + entries.drop_first().update(i - 1, (key, value)) =~= entries.update(
            i,
            (key, value),
        ));
    }
}

/// Adding an entry under a new `key` is the upsert of `key`.
proof fn lemma_upsert_absent<V>(entries: Seq<(Seq<char>, V)>, key: Seq<char>, value: V)
    requires
        forall|j: int| 0 <= j < entries.len() ==> entries[j].0 != key,
    ensures
        upsert(entries, key, value) == entries.push((key, value)),
    decreases entries.len(),
{
    if entries.len() > 0 {
        lemma_upsert_absent(entries.drop_first(), key, value);
        assert(seq![entries[0]] + entries.drop_first().push((key, value)) =~= entries.push((key, value)));
    } else {
        assert(seq![(key, value)] =~= entries.push((key, value)));
    }
}

/// After an upsert of `key`, looking `key` up gives the value stored.
pub proof fn lemma_lookup_after_upsert<V>(entries: Seq<(Seq<char>, V)>, key: Seq<char>, value: V)
    ensures
        lookup(upsert(entries, key, value), key) == Some(value),
    decreases entries.len(),
{
    if entries.len() > 0 && entries[0].0 != key {
        lemma_lookup_after_upsert(entries.drop_first(), key, value);
        assert((seq![entries[0]] + upsert(entries.drop_first(), key, value)).drop_first()
            =~= upsert(entries.drop_first(), key, value));
    }
}

/// An upsert of `key` leaves the entries under every other key as they were.
pub proof fn lemma_lookup_other_after_upsert<V>(
    entries: Seq<(Seq<char>, V)>,
    key: Seq<char>,
    value: V,
    other: Seq<char>,
)
    requires
        other != key,
    ensures
        lookup(upsert(entries, key, value), other) == lookup(entries, other),
    decreases entries.len(),
{
    if entries.len() == 0 {
        let single = seq![(key, value)];
        assert(single.drop_first() =~= Seq::<(Seq<char>, V)>::empty());
        assert(lookup(single.drop_first(), other) is None);
    } else {
        if entries[0].0 == key {
            let updated = entries.update(0, (key, value));
            assert(updated[0].0 == key);
            assert(updated.drop_first() =~= entries.drop_first());
        } else {
            lemma_lookup_other_after_upsert(entries.drop_first(), key, value, other);
            assert((seq![entries[0]] + upsert(entries.drop_first(), key, value)).drop_first()
                =~= upsert(entries.drop_first(), key, value));
        }
    }
}

/// After storing aliases under a resolution key, looking that key up in the alias map gives
/// exactly those aliases, and every other key gives what it gave before.
pub proof fn lemma_alias_map_update(
    before: Seq<(Seq<char>, Seq<(Seq<char>, (Seq<char>, Option<Seq<char>>))>)>,
    key: Seq<char>,
    aliases: Seq<(Seq<char>, (Seq<char>, Option<Seq<char>>))>,
    other: Seq<char>,
)
    ensures
        lookup(upsert(before, key, aliases), key) == Some(aliases),
        other != key ==> lookup(upsert(before, key, aliases), other) == lookup(before, other),
{
    lemma_lookup_after_upsert(before, key, aliases);
    if other != key {
        lemma_lookup_other_after_upsert(before, key, aliases, other);
    }
}

// ---------------------------------------------------------------------------------------------
// Reading alias modules
// ---------------------------------------------------------------------------------------------

/// A type alias item, as in `#[nested_alias = "key"] type Foo = Bar;`.
pub struct TypeAliasItem {
    /// The alias's name.
    pub ident: String,
    /// The attributes on the alias.
    pub attrs: Vec<Attribute>,
    /// The type the alias stands for.
    pub ty: RustType,
}

/// An item of an alias module.
pub enum ModuleItem {
    /// A type alias.
    TypeAlias(TypeAliasItem),
    /// Any other item, kept as it is.
    Other,
}

/// Why an alias module cannot be read.
#[derive(Debug, Clone, Copy, PartialEq, Eq, Structural)]
pub enum AliasError {
    /// The alias at this position among the module's items stands for a type that is not a path.
    UnexpectedType(usize),
    /// The alias at this position among the module's items stands for a path with no segments.
    MissingPath(usize),
    /// A `nested_alias` attribute's value is not a string.
    UnexpectedNestedAliasValue,
    /// A `nested_alias` attribute is not of the form `nested_alias = "key"`.
    UnexpectedMeta,
    /// A `nested_alias` attribute's contents cannot be read.
    UnreadableMeta,
    /// The module has no content (it is declared as `mod name;`).
    EmptyModule,
}

/// For a `nested_alias = "key"` attribute, the key; for another attribute, nothing; or why a
/// `nested_alias` attribute cannot be read.
pub open spec fn nested_alias_spec(a: Attribute) -> Result<Option<Seq<char>>, AliasError> {
    if !path_is_ident(a.path, "nested_alias"@) {
        Ok(None)
    } else {
        match a.meta {
            Some(Meta::NameValue(nv)) => match nv.lit {
                Lit::Str(ls) => Ok(Some(ls.value@)),
                _ => Err(AliasError::UnexpectedNestedAliasValue),
            },
            Some(_) => Err(AliasError::UnexpectedMeta),
            None => Err(AliasError::UnreadableMeta),
        }
    }
}

/// Reads the `nested_alias` helper attribute: `Some(value)` if the attribute is one, otherwise
/// `None`; an error if it is one that cannot be read.
pub fn parse_nested_alias_meta(attr: &Attribute) -> (r: Result<Option<String>, AliasError>)
    ensures
        match r {
            Ok(Some(v)) => nested_alias_spec(*attr) == Ok::<Option<Seq<char>>, AliasError>(Some(v@)),
            Ok(None) => nested_alias_spec(*attr) == Ok::<Option<Seq<char>>, AliasError>(None),
            Err(e) => nested_alias_spec(*attr) == Err::<Option<Seq<char>>, AliasError>(e),
        },
{
    if !is_ident(&attr.path, "nested_alias") {
        return Ok(None);
    }
    match &attr.meta {
        Some(Meta::NameValue(nv)) => match &nv.lit {
            Lit::Str(ls) => Ok(Some(String::from_str(ls.value.as_str()))),
            _ => Err(AliasError::UnexpectedNestedAliasValue),
        },
        Some(_) => Err(AliasError::UnexpectedMeta),
        None => Err(AliasError::UnreadableMeta),
    }
}

/// The error of the first `nested_alias` attribute among `attrs` that cannot be read.
pub open spec fn first_attr_error(attrs: Seq<Attribute>) -> Option<AliasError>
    decreases attrs.len(),
{
    if attrs.len() == 0 {
        None
    } else {
        match nested_alias_spec(attrs[0]) {
            Err(e) => Some(e),
            Ok(_) => first_attr_error(attrs.drop_first()),
        }
    }
}

/// The key of the first `nested_alias` attribute among `attrs`.
pub open spec fn first_source(attrs: Seq<Attribute>) -> Option<Seq<char>>
    decreases attrs.len(),
{
    if attrs.len() == 0 {
        None
    } else {
        match nested_alias_spec(attrs[0]) {
            Ok(Some(v)) => Some(v),
            _ => first_source(attrs.drop_first()),
        }
    }
}

/// The attributes among `attrs` that are not `nested_alias` attributes.
pub open spec fn strip_spec(attrs: Seq<Attribute>) -> Seq<Attribute>
    decreases attrs.len(),
{
    if attrs.len() == 0 {
        Seq::empty()
    } else if path_is_ident(attrs[0].path, "nested_alias"@) {
        strip_spec(attrs.drop_first())
    } else {
        seq![attrs[0]] + strip_spec(attrs.drop_first())
    }
}

/// The definition read from the alias item `t` at position `pos` among a module's items, or why
/// it cannot be read.
pub open spec fn alias_item_spec(t: TypeAliasItem, pos: usize) -> Result<(Seq<char>, Option<Seq<char>>), AliasError> {
    match first_attr_error(t.attrs@) {
        Some(e) => Err(e),
        None => match t.ty {
            RustType::Path(p) => if p.segments@.len() == 0 {
                Err(AliasError::MissingPath(pos))
            } else {
                Ok((p.segments@[0].ident@, first_source(t.attrs@)))
            },
            _ => Err(AliasError::UnexpectedType(pos)),
        },
    }
}

/// The aliases read from `items`, or the error of the first item that cannot be read.
pub open spec fn module_aliases_spec(items: Seq<ModuleItem>) -> Result<
    Seq<(Seq<char>, (Seq<char>, Option<Seq<char>>))>,
    AliasError,
>
    decreases items.len(),
{
    if items.len() == 0 {
        Ok(Seq::empty())
    } else {
        match module_aliases_spec(items.drop_last()) {
            Err(e) => Err(e),
            Ok(acc) => match items.last() {
                ModuleItem::TypeAlias(t) => match alias_item_spec(t, (items.len() - 1) as usize) {
                    Ok(d) => Ok(upsert(acc, t.ident@, d)),
                    Err(e) => Err(e),
                },
                ModuleItem::Other => Ok(acc),
            },
        }
    }
}

/// True when `after` is `before` with its `nested_alias` attributes removed.
pub open spec fn stripped_item(before: ModuleItem, after: ModuleItem) -> bool {
    match (before, after) {
        (ModuleItem::TypeAlias(b), ModuleItem::TypeAlias(a)) => {
            &&& a.ident == b.ident
            &&& a.ty == b.ty
            &&& a.attrs@ == strip_spec(b.attrs@)
        },
        (ModuleItem::Other, ModuleItem::Other) => true,
        _ => false,
    }
}

/// Reads one alias item: its definition, and the item without its `nested_alias` attributes.
fn read_alias_item(t: TypeAliasItem, pos: usize) -> (r: Result<(TypeAliasItem, AliasDefinition), AliasError>)
    ensures
        match r {
            Ok((a, d)) => alias_item_spec(t, pos) == Ok::<(Seq<char>, Option<Seq<char>>), AliasError>(def_view(d))
                && stripped_item(ModuleItem::TypeAlias(t), ModuleItem::TypeAlias(a)),
            Err(e) => alias_item_spec(t, pos) == Err::<(Seq<char>, Option<Seq<char>>), AliasError>(e),
        },
{
    let ghost all = t.attrs@;
    let mut rest = t.attrs;
    let mut kept: Vec<Attribute> = Vec::new();
    let mut source: Option<String> = None;
    let mut k: usize = 0;
    let n: usize = rest.len();
    assert(all.skip(0) =~= all);
    while rest.len() > 0
        invariant
            all.len() == n,
            k + rest@.len() == all.len(),
            rest@ == all.skip(k as int),
            all == t.attrs@,
            first_attr_error(all) == first_attr_error(all.skip(k as int)),
            strip_spec(all) == kept@ + strip_spec(all.skip(k as int)),
            first_source(all) == match source {
                Some(v) => Some(v@),
                None => first_source(all.skip(k as int)),
            },
        decreases rest@.len(),
    {
        let a = rest.remove(0);
        let ghost suffix = all.skip(k as int);
        assert(suffix[0] == a);
        assert(suffix.drop_first() =~= all.skip(k + 1));
        match parse_nested_alias_meta(&a) {
            Err(e) => {
                return Err(e);
            },
            Ok(Some(v)) => {
                if source.is_none() {
                    source = Some(v);
                }
            },
            Ok(None) => {
                let ghost before = kept@;
                kept.push(a);
                assert(before + (seq![a] + strip_spec(suffix.drop_first())) =~= kept@ + strip_spec(suffix.drop_first()));
            },
        }
        k = k + 1;
        assert(rest@ =~= all.skip(k as int));
    }
    assert(all.skip(k as int) =~= Seq::<Attribute>::empty());
    assert(kept@ =~= kept@ + Seq::<Attribute>::empty());
    match t.ty {
        RustType::Path(p) => {
            if p.segments.len() == 0 {
                return Err(AliasError::MissingPath(pos));
            }
            let definition = String::from_str(p.segments[0].ident.as_str());
            let item = TypeAliasItem { ident: t.ident, attrs: kept, ty: RustType::Path(p) };
            Ok((item, AliasDefinition { definition, definition_source: source }))
        },
        other => {
            let ghost _o = other;
            Err(AliasError::UnexpectedType(pos))
        },
    }
}

/// The positions of the attributes among `attrs` that are not `nested_alias` attributes, in
/// order: the attributes that [`parse_alias_module`] keeps on an alias.
pub fn kept_attribute_positions(attrs: &Vec<Attribute>) -> (r: Vec<usize>)
    ensures
        r@.len() == strip_spec(attrs@).len(),
        forall|k: int| 0 <= k < r@.len() ==> #[trigger] r@[k] < attrs@.len() && attrs@[r@[k] as int] == strip_spec(attrs@)[k],
        forall|k: int, l: int| 0 <= k < l < r@.len() ==> #[trigger] r@[k] < #[trigger] r@[l],
{
    let ghost all = attrs@;
    let mut r: Vec<usize> = Vec::new();
    let mut i: usize = 0;
    assert(all.skip(0) =~= all);
    while i < attrs.len()
        invariant
            i <= attrs@.len(),
            all == attrs@,
            strip_spec(all) == Seq::new(r@.len(), |k: int| all[r@[k] as int]) + strip_spec(all.skip(i as int)),
            forall|k: int| 0 <= k < r@.len() ==> #[trigger] r@[k] < i,
            forall|k: int, l: int| 0 <= k < l < r@.len() ==> #[trigger] r@[k] < #[trigger] r@[l],
        decreases attrs@.len() - i,
    {
        let ghost suffix = all.skip(i as int);
        assert(suffix[0] == all[i as int]);
        assert(suffix.drop_first() =~= all.skip(i + 1));
        if !is_ident(&attrs[i].path, "nested_alias") {
            let ghost before = Seq::new(r@.len(), |k: int| all[r@[k] as int]);
            r.push(i);
            assert(before + (seq![all[i as int]] + strip_spec(all.skip(i + 1))) =~= Seq::new(
                r@.len(),
                |k: int| all[r@[k] as int],
            ) + strip_spec(all.skip(i + 1)));
        }
        i = i + 1;
    }
    assert(all.skip(i as int) =~= Seq::<Attribute>::empty());
    assert(strip_spec(all) =~= Seq::new(r@.len(), |k: int| all[r@[k] as int]));
    r
}

/// Stores `def` under `ident` in a module's aliases, replacing an earlier definition.
fn upsert_alias(aliases: &mut ModuleAliases, ident: String, def: AliasDefinition)
    ensures
        aliases_view(final(aliases)@) == upsert(aliases_view(old(aliases)@), ident@, def_view(def)),
{
    let ghost before = aliases_view(aliases@);
    let ghost k = ident@;
    let ghost v = def_view(def);
    match position(aliases, ident.as_str()) {
        Some(i) => {
            aliases.set(i, (ident, def));
            proof {
                lemma_upsert_at(before, k, v, i as int);
            }
            assert(aliases_view(aliases@) =~= before.update(i as int, (k, v)));
        },
        None => {
            aliases.push((ident, def));
            proof {
                lemma_upsert_absent(before, k, v);
            }
            assert(aliases_view(aliases@) =~= before.push((k, v)));
        },
    }
}

/// Once reading a module is rejected, reading more items keeps the rejection.
proof fn lemma_module_err(all: Seq<ModuleItem>, k: int)
    requires
        0 <= k <= all.len(),
        module_aliases_spec(all.take(k)) is Err,
    ensures
        module_aliases_spec(all) == module_aliases_spec(all.take(k)),
    decreases all.len() - k,
{
    if k < all.len() {
        assert(all.take(k + 1).drop_last() =~= all.take(k));
        lemma_module_err(all, k + 1);
    } else {
        assert(all.take(k) =~= all);
    }
}

/// The aliases read from a module name each alias once.
pub proof fn lemma_module_aliases_distinct(items: Seq<ModuleItem>)
    requires
        module_aliases_spec(items) is Ok,
    ensures
        keys_distinct(module_aliases_spec(items)->Ok_0),
    decreases items.len(),
{
    if items.len() > 0 {
        lemma_module_aliases_distinct(items.drop_last());
        let acc = module_aliases_spec(items.drop_last())->Ok_0;
        match items.last() {
            ModuleItem::TypeAlias(t) => {
                lemma_upsert_keeps_keys_distinct(acc, t.ident@, alias_item_spec(t, (items.len() - 1) as usize)->Ok_0);
            },
            ModuleItem::Other => {},
        }
    }
}

/// Reads the alias module with the items `content` (`None` for a module without content) and
/// stores its aliases under `resolution_key` in `map`, replacing the aliases stored under that key
/// before (a later alias of one name replaces an earlier one). Returns the items with their
/// `nested_alias` attributes removed. A module without content, or with an item that cannot be
/// read, is rejected and leaves `map` as it was.
pub fn parse_alias_module(resolution_key: String, content: Option<Vec<ModuleItem>>, map: &mut AliasMap) -> (r:
    Result<Vec<ModuleItem>, AliasError>)
    ensures
        match content {
            None => r == Err::<Vec<ModuleItem>, AliasError>(AliasError::EmptyModule) && final(map).modules@
                == old(map).modules@,
            Some(items) => match module_aliases_spec(items@) {
                Err(e) => r == Err::<Vec<ModuleItem>, AliasError>(e) && final(map).modules@ == old(map).modules@,
                Ok(aliases) => {
                    &&& r matches Ok(stripped) && stripped@.len() == items@.len() && forall|i: int|
                        0 <= i < items@.len() ==> stripped_item(#[trigger] items@[i], stripped@[i])
                    &&& map_view(final(map).modules@) == upsert(map_view(old(map).modules@), resolution_key@, aliases)
                    &&& keys_distinct(aliases)
                    &&& alias_map_wf(map_view(old(map).modules@)) ==> alias_map_wf(map_view(final(map).modules@))
                },
            },
        },
{
    match content {
        None => Err(AliasError::EmptyModule),
        Some(items) => {
            let ghost all = items@;
            match read_alias_module(items) {
                Ok((stripped, aliases)) => {
                    proof {
                        lemma_module_aliases_distinct(all);
                    }
                    update_alias_map(map, resolution_key, aliases);
                    Ok(stripped)
                },
                Err(e) => Err(e),
            }
        },
    }
}

/// Reads the alias definitions out of the items of an alias module, and returns the items with
/// their `nested_alias` attributes removed, together with the module's aliases (a later alias of
/// one name replaces an earlier one).
fn read_alias_module(items: Vec<ModuleItem>) -> (r: Result<(Vec<ModuleItem>, ModuleAliases), AliasError>)
    ensures
        match r {
            Ok((stripped, aliases)) => {
                &&& module_aliases_spec(items@) == Ok::<Seq<(Seq<char>, (Seq<char>, Option<Seq<char>>))>, AliasError>(aliases_view(aliases@))
                &&& stripped@.len() == items@.len()
                &&& forall|i: int| 0 <= i < items@.len() ==> stripped_item(#[trigger] items@[i], stripped@[i])
            },
            Err(e) => module_aliases_spec(items@) == Err::<Seq<(Seq<char>, (Seq<char>, Option<Seq<char>>))>, AliasError>(e),
        },
{
    let ghost all = items@;
    let mut rest = items;
    let mut stripped: Vec<ModuleItem> = Vec::new();
    let mut aliases: ModuleAliases = Vec::new();
    let mut k: usize = 0;
    let n: usize = rest.len();
    assert(aliases_view(aliases@) =~= Seq::<(Seq<char>, (Seq<char>, Option<Seq<char>>))>::empty());
    assert(all.take(0) =~= Seq::<ModuleItem>::empty());
    while rest.len() > 0
        invariant
            all.len() == n,
            all == items@,
            k + rest@.len() == all.len(),
            rest@ == all.skip(k as int),
            module_aliases_spec(all.take(k as int)) == Ok::<Seq<(Seq<char>, (Seq<char>, Option<Seq<char>>))>, AliasError>(aliases_view(aliases@)),
            stripped@.len() == k,
            forall|i: int| 0 <= i < k ==> stripped_item(#[trigger] all[i], stripped@[i]),
        decreases rest@.len(),
    {
        let item = rest.remove(0);
        assert(item == all[k as int]);
        proof {
            assert(all.take(k + 1).drop_last() =~= all.take(k as int));
            assert(all.take(k + 1).last() == all[k as int]);
        }
        match item {
            ModuleItem::TypeAlias(t) => {
                let ghost ident_view = t.ident@;
                match read_alias_item(t, k) {
                    Ok((a, d)) => {
                        let ident = String::from_str(a.ident.as_str());
                        upsert_alias(&mut aliases, ident, d);
                        stripped.push(ModuleItem::TypeAlias(a));
                    },
                    Err(e) => {
                        proof {
                            lemma_module_err(all, k + 1);
                        }
                        return Err(e);
                    },
                }
            },
            ModuleItem::Other => {
                stripped.push(ModuleItem::Other);
            },
        }
        k = k + 1;
        assert(rest@ =~= all.skip(k as int));
    }
    assert(all.take(k as int) =~= all);
    Ok((stripped, aliases))
}

} // verus!
