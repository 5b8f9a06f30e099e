//! Edits of a TOML table, each stated by what a read of the table gives
//! afterwards: the keys it sets and that every other key reads as before.

use vstd::prelude::*;
use vstd::string::StringExecFns;

use crate::toml_tree::{value_well_keyed, well_keyed, 
    first_index, get, get_table, has_key, lemma_first_index, lemma_get_after_set, lemma_get_other_after_set, lookup,
    set_entry, TomlTable, TomlValue,
};

verus! {

/// The value under `key` of a table that may not exist.
pub open spec fn get_in(t: Option<TomlTable>, key: Seq<char>) -> Option<TomlValue> {
    match t {
        Some(t) => get(t, key),
        None => None,
    }
}

/// The table under `key` of a table that may not exist.
pub open spec fn table_in(t: Option<TomlTable>, key: Seq<char>) -> Option<TomlTable> {
    match t {
        Some(t) => get_table(t, key),
        None => None,
    }
}

/// Whether `v` is the string `s`.
pub open spec fn is_str(v: Option<TomlValue>, s: Seq<char>) -> bool {
    match v {
        Some(TomlValue::String(x)) => x@ == s,
        _ => false,
    }
}

/// Whether `v` is the boolean `b`.
pub open spec fn is_bool(v: Option<TomlValue>, b: bool) -> bool {
    v == Some(TomlValue::Boolean(b))
}

/// Whether `v` is an array of exactly the strings `items`.
pub open spec fn is_str_array(v: Option<TomlValue>, items: Seq<Seq<char>>) -> bool {
    match v {
        Some(TomlValue::Array(a)) => a@.len() == items.len() && forall|i: int|
            0 <= i < items.len() ==> is_str(Some(#[trigger] a@[i]), items[i]),
        _ => false,
    }
}

/// Whether `v` is the table `{ workspace = true }`.
pub open spec fn is_workspace_marker(v: Option<TomlValue>) -> bool {
    match v {
        Some(TomlValue::Table(t)) => is_bool(get(t, "workspace"@), true) && forall|k: Seq<char>|
            k != "workspace"@ ==> #[trigger] get(t, k) is None,
        _ => false,
    }
}

/// Whether every key of `new` other than those of `keys` reads as in `old`.
pub open spec fn unchanged_except(old: Option<TomlTable>, new: TomlTable, keys: Seq<Seq<char>>) -> bool {
    forall|k: Seq<char>| !keys.contains(k) ==> #[trigger] get(new, k) == get_in(old, k)
}

/// Whether `key` of `new` reads as in `old` where `old` has it, and
/// satisfies `fresh` otherwise.
pub open spec fn kept_or(old: Option<TomlTable>, new: TomlTable, key: Seq<char>, fresh: bool) -> bool {
    if get_in(old, key) is Some {
        get(new, key) == get_in(old, key)
    } else {
        fresh
    }
}

/// Sets `key` of `t` to `value`.
pub fn set_value(t: &mut TomlTable, key: &str, value: TomlValue)
    ensures
        get(*final(t), key@) == Some(value),
        forall|k: Seq<char>| k != key@ ==> #[trigger] get(*final(t), k) == get(*old(t), k),
        well_keyed(*old(t)) && value_well_keyed(value) ==> well_keyed(*final(t)),
{
    let owned = key.to_owned();
    proof {
        lemma_get_after_set(t.entries@, owned, value);
        assert forall|k: Seq<char>| k != key@ implies #[trigger] lookup(set_entry(t.entries@, owned, value), k) == lookup(t.entries@, k) by {
            lemma_get_other_after_set(t.entries@, owned, value, k);
        }
    }
    t.insert(owned, value);
}

/// Sets `key` of `t` to the string `value`.
pub fn set_string(t: &mut TomlTable, key: &str, value: &str)
    ensures
        is_str(get(*final(t), key@), value@),
        forall|k: Seq<char>| k != key@ ==> #[trigger] get(*final(t), k) == get(*old(t), k),
        well_keyed(*old(t)) ==> well_keyed(*final(t)),
{
    set_value(t, key, TomlValue::String(value.to_owned()));
}

/// Sets `key` of `t` to the string `value` unless `t` has the key.
pub fn set_string_if_missing(t: &mut TomlTable, key: &str, value: &str)
    ensures
        has_key(*old(t), key@) ==> get(*final(t), key@) == get(*old(t), key@),
        !has_key(*old(t), key@) ==> is_str(get(*final(t), key@), value@),
        forall|k: Seq<char>| k != key@ ==> #[trigger] get(*final(t), k) == get(*old(t), k),
        well_keyed(*old(t)) ==> well_keyed(*final(t)),
{
    if t.contains_key(key) {
        return;
    }
    set_string(t, key, value);
}

/// Sets `key` of `t` to the boolean `value` unless `t` has the key.
pub fn set_bool_if_missing(t: &mut TomlTable, key: &str, value: bool)
    ensures
        has_key(*old(t), key@) ==> get(*final(t), key@) == get(*old(t), key@),
        !has_key(*old(t), key@) ==> is_bool(get(*final(t), key@), value),
        forall|k: Seq<char>| k != key@ ==> #[trigger] get(*final(t), k) == get(*old(t), k),
        well_keyed(*old(t)) ==> well_keyed(*final(t)),
{
    if t.contains_key(key) {
        return;
    }
    set_value(t, key, TomlValue::Boolean(value));
}

/// The array of the given strings.
pub fn string_array(values: &Vec<&'static str>) -> (v: TomlValue)
    ensures
        is_str_array(Some(v), values@.map_values(|s: &str| s@)),
        value_well_keyed(v),
{
    let mut items: Vec<TomlValue> = Vec::new();
    let mut i: usize = 0;
    while i < values.len()
        invariant
            i <= values.len(),
            items@.len() == i,
            forall|j: int| 0 <= j < i ==> is_str(Some(#[trigger] items@[j]), values@[j]@),
            forall|j: int| 0 <= j < i ==> value_well_keyed(#[trigger] items@[j]),
        decreases values.len() - i,
    {
        items.push(TomlValue::String(values[i].to_owned()));
        i = i + 1;
    }
    TomlValue::Array(items)
}

/// Sets `key` of `t` to the array of `values`.
pub fn set_string_array(t: &mut TomlTable, key: &str, values: &Vec<&'static str>)
    ensures
        is_str_array(get(*final(t), key@), values@.map_values(|s: &str| s@)),
        forall|k: Seq<char>| k != key@ ==> #[trigger] get(*final(t), k) == get(*old(t), k),
        well_keyed(*old(t)) ==> well_keyed(*final(t)),
{
    let v = string_array(values);
    set_value(t, key, v);
}

/// Sets `key` of `t` to the array of `values` unless `t` has the key.
pub fn set_string_array_if_missing(t: &mut TomlTable, key: &str, values: &Vec<&'static str>)
    ensures
        has_key(*old(t), key@) ==> get(*final(t), key@) == get(*old(t), key@),
        !has_key(*old(t), key@) ==> is_str_array(get(*final(t), key@), values@.map_values(|s: &str| s@)),
        forall|k: Seq<char>| k != key@ ==> #[trigger] get(*final(t), k) == get(*old(t), k),
        well_keyed(*old(t)) ==> well_keyed(*final(t)),
{
    if t.contains_key(key) {
        return;
    }
    set_string_array(t, key, values);
}

/// Sets `key` of `t` to `{ workspace = true }`.
pub fn set_workspace_true(t: &mut TomlTable, key: &str)
    ensures
        is_workspace_marker(get(*final(t), key@)),
        forall|k: Seq<char>| k != key@ ==> #[trigger] get(*final(t), k) == get(*old(t), k),
        well_keyed(*old(t)) ==> well_keyed(*final(t)),
{
    let mut marker = TomlTable::new();
    set_value(&mut marker, "workspace", TomlValue::Boolean(true));
    proof {
        assert forall|k: Seq<char>| k != "workspace"@ implies #[trigger] get(marker, k) is None by {
            assert(get(TomlTable { entries: marker.entries }, k) == get(marker, k));
        }
    }
    set_value(t, key, TomlValue::Table(marker));
}

/// Whether `v` is the lint table `{ level = .., priority = .. }`.
pub open spec fn is_lint_table(v: Option<TomlValue>, level: Seq<char>, priority: i64) -> bool {
    match v {
        Some(TomlValue::Table(t)) => is_str(get(t, "level"@), level) && get(t, "priority"@) == Some(TomlValue::Integer(priority)),
        _ => false,
    }
}

/// Sets `key` of `t` to a lint table with `level` and `priority` unless `t`
/// has the key.
pub fn set_lint_table_if_missing(t: &mut TomlTable, key: &str, level: &str, priority: i64)
    ensures
        has_key(*old(t), key@) ==> get(*final(t), key@) == get(*old(t), key@),
        !has_key(*old(t), key@) ==> is_lint_table(get(*final(t), key@), level@, priority),
        forall|k: Seq<char>| k != key@ ==> #[trigger] get(*final(t), k) == get(*old(t), k),
        well_keyed(*old(t)) ==> well_keyed(*final(t)),
{
    if t.contains_key(key) {
        return;
    }
    let mut lint = TomlTable::new();
    proof {
        reveal_strlit("level");
        reveal_strlit("priority");
        assert("level"@[0] != "priority"@[0]);
    }
    set_string(&mut lint, "level", level);
    set_value(&mut lint, "priority", TomlValue::Integer(priority));
    set_value(t, key, TomlValue::Table(lint));
}

/// Takes the table under `key` out of `t` (a new empty table where the key
/// holds no table), to be put back with `set_value`.
pub fn take_table(t: &mut TomlTable, key: &str) -> (child: TomlTable)
    ensures
        match get_table(*old(t), key@) {
            Some(c) => child == c,
            None => child.entries@.len() == 0,
        },
        forall|k: Seq<char>| #[trigger] get(child, k) == get_in(get_table(*old(t), key@), k),
        forall|k: Seq<char>| k != key@ ==> #[trigger] get(*final(t), k) == get(*old(t), k),
        well_keyed(*old(t)) ==> well_keyed(*final(t)) && well_keyed(child),
{
    proof {
        lemma_first_index(t.entries@, key@);
    }
    let ghost e = t.entries@;
    proof {
        if well_keyed(*t) {
            crate::toml_tree::lemma_get_table_well_keyed(*t, key@);
        }
    }
    let taken = t.take(key);
    proof {
        if taken is Some {
            let i = first_index(e, key@);
            let name = e[i].0;
            assert(t.entries@ == set_entry(e, name, TomlValue::Boolean(false)));
            assert forall|k: Seq<char>| k != key@ implies #[trigger] get(*t, k) == get(*old(t), k) by {
                lemma_get_other_after_set(e, name, TomlValue::Boolean(false), k);
            }
        }
    }
    match taken {
        Some(TomlValue::Table(c)) => c,
        _ => {
            let empty = TomlTable::new();
            assert forall|k: Seq<char>| #[trigger] get(empty, k) == get_in(get_table(*old(t), key@), k) by {
                lemma_first_index(empty.entries@, k);
            }
            empty
        },
    }
}

/// Removes every entry of `t` under `key`.
pub fn remove_key(t: &mut TomlTable, key: &str)
    ensures
        get(*final(t), key@) is None,
        forall|k: Seq<char>| k != key@ ==> #[trigger] get(*final(t), k) == get(*old(t), k),
        well_keyed(*old(t)) ==> well_keyed(*final(t)),
    decreases old(t).entries@.len(),
{
    match t.find(key) {
        None => {},
        Some(i) => {
            let ghost e = t.entries@;
            proof {
                lemma_first_index(e, key@);
            }
            let _removed = t.entries.remove(i);
            proof {
                if well_keyed(*old(t)) {
                    crate::toml_tree::lemma_remove_well_keyed(e, i as int);
                }
                assert forall|k: Seq<char>| k != key@ implies #[trigger] lookup(t.entries@, k) == lookup(e, k) by {
                    lemma_lookup_after_remove(e, i as int, k);
                }
            }
            remove_key(t, key);
        },
    }
}

/// Removing an entry does not change what another key reads.
pub proof fn lemma_lookup_after_remove(e: Seq<(String, TomlValue)>, i: int, k: Seq<char>)
    requires
        0 <= i < e.len(),
        e[i].0@ != k,
    ensures
        lookup(e.remove(i), k) == lookup(e, k),
    decreases e.len(),
{
    let r = e.remove(i);
    lemma_first_index(e, k);
    lemma_first_index(r, k);
    if i == 0 {
        assert(r =~= e.drop_first());
        assert(first_index(e, k) == if first_index(r, k) < 0 { -1 } else { first_index(r, k) + 1 });
        if first_index(r, k) >= 0 {
            assert(e[first_index(e, k)] == r[first_index(r, k)]);
        }
    } else if e[0].0@ == k {
        assert(r[0] == e[0]);
        assert(first_index(r, k) == 0);
    } else {
        lemma_lookup_after_remove(e.drop_first(), i - 1, k);
        assert(r.drop_first() =~= e.drop_first().remove(i - 1));
        assert(r[0] == e[0]);
        lemma_first_index(e.drop_first(), k);
        lemma_first_index(r.drop_first(), k);
    }
}

/// Whether the first components of `pairs` are pairwise distinct.
pub open spec fn distinct_keys(keys: Seq<Seq<char>>) -> bool {
    forall|i: int, j: int| 0 <= i < j < keys.len() ==> #[trigger] keys[i] != #[trigger] keys[j]
}

/// The keys of a list of key and value pairs.
pub open spec fn pair_keys(pairs: Seq<(&'static str, &'static str)>) -> Seq<Seq<char>> {
    pairs.map_values(|p: (&'static str, &'static str)| p.0@)
}

/// The keys of a list of keys.
pub open spec fn key_views(keys: Seq<&'static str>) -> Seq<Seq<char>> {
    keys.map_values(|k: &'static str| k@)
}

/// Whether each key of `pairs` reads in `new` as in `old`, or, where `old`
/// lacks it, as its string.
pub open spec fn string_defaults_ok(old: Option<TomlTable>, new: TomlTable, pairs: Seq<(&'static str, &'static str)>) -> bool {
    forall|i: int| 0 <= i < pairs.len() ==> kept_or(old, new, (#[trigger] pairs[i]).0@, is_str(get(new, pairs[i].0@), pairs[i].1@))
}

/// Sets each key of `pairs` to its string unless the table has it.
pub fn apply_string_defaults(t: &mut TomlTable, pairs: &Vec<(&'static str, &'static str)>)
    requires
        distinct_keys(pair_keys(pairs@)),
    ensures
        string_defaults_ok(Some(*old(t)), *final(t), pairs@),
        unchanged_except(Some(*old(t)), *final(t), pair_keys(pairs@)),
        well_keyed(*old(t)) ==> well_keyed(*final(t)),
{
    let ghost start = *t;
    let ghost keys = pair_keys(pairs@);
    let mut i: usize = 0;
    while i < pairs.len()
        invariant
            i <= pairs.len(),
            keys == pair_keys(pairs@),
            distinct_keys(keys),
            forall|j: int| 0 <= j < i ==> kept_or(Some(start), *t, (#[trigger] pairs@[j]).0@, is_str(get(*t, pairs@[j].0@), pairs@[j].1@)),
            forall|k: Seq<char>| !keys.take(i as int).contains(k) ==> #[trigger] get(*t, k) == get(start, k),
            well_keyed(start) ==> well_keyed(*t),
        decreases pairs.len() - i,
    {
        let (key, value) = pairs[i];
        let ghost before = *t;
        proof {
            assert(keys[i as int] == key@);
            if keys.take(i as int).contains(key@) {
                let w = choose|w: int| 0 <= w < i && keys.take(i as int)[w] == key@;
                assert(keys[w] == keys[i as int]);
            }
            assert(get(before, key@) == get(start, key@));
        }
        set_string_if_missing(t, key, value);
        proof {
            assert forall|j: int| 0 <= j < i + 1 implies kept_or(Some(start), *t, (#[trigger] pairs@[j]).0@, is_str(get(*t, pairs@[j].0@), pairs@[j].1@)) by {
                if j < i {
                    assert(keys[j] != keys[i as int]);
                }
            }
            assert forall|k: Seq<char>| !keys.take(i + 1).contains(k) implies #[trigger] get(*t, k) == get(start, k) by {
                assert(keys.take(i + 1)[i as int] == key@);
                if keys.take(i as int).contains(k) {
                    let w = choose|w: int| 0 <= w < i && keys.take(i as int)[w] == k;
                    assert(keys.take(i + 1)[w] == k);
                }
            }
        }
        i = i + 1;
    }
    assert(keys.take(i as int) =~= keys);
}

/// Whether each key of `keys` reads in `new` as in `old`, or, where `old`
/// lacks it, as a lint table with `level` and `priority`.
pub open spec fn lint_defaults_ok(old: Option<TomlTable>, new: TomlTable, keys: Seq<&'static str>, level: Seq<char>, priority: i64) -> bool {
    forall|i: int| 0 <= i < keys.len() ==> kept_or(old, new, (#[trigger] keys[i])@, is_lint_table(get(new, keys[i]@), level, priority))
}

/// Sets each key of `keys` to a lint table unless the table has it.
pub fn apply_lint_defaults(t: &mut TomlTable, keys: &Vec<&'static str>, level: &str, priority: i64)
    requires
        distinct_keys(key_views(keys@)),
    ensures
        lint_defaults_ok(Some(*old(t)), *final(t), keys@, level@, priority),
        unchanged_except(Some(*old(t)), *final(t), key_views(keys@)),
        well_keyed(*old(t)) ==> well_keyed(*final(t)),
{
    let ghost start = *t;
    let ghost kv = key_views(keys@);
    let mut i: usize = 0;
    while i < keys.len()
        invariant
            i <= keys.len(),
            kv == key_views(keys@),
            distinct_keys(kv),
            forall|j: int| 0 <= j < i ==> kept_or(Some(start), *t, (#[trigger] keys@[j])@, is_lint_table(get(*t, keys@[j]@), level@, priority)),
            forall|k: Seq<char>| !kv.take(i as int).contains(k) ==> #[trigger] get(*t, k) == get(start, k),
            well_keyed(start) ==> well_keyed(*t),
        decreases keys.len() - i,
    {
        let key = keys[i];
        proof {
            assert(kv[i as int] == key@);
            if kv.take(i as int).contains(key@) {
                let w = choose|w: int| 0 <= w < i && kv.take(i as int)[w] == key@;
                assert(kv[w] == kv[i as int]);
            }
        }
        set_lint_table_if_missing(t, key, level, priority);
        proof {
            assert forall|j: int| 0 <= j < i + 1 implies kept_or(Some(start), *t, (#[trigger] keys@[j])@, is_lint_table(get(*t, keys@[j]@), level@, priority)) by {
                if j < i {
                    assert(kv[j] != kv[i as int]);
                }
            }
            assert forall|k: Seq<char>| !kv.take(i + 1).contains(k) implies #[trigger] get(*t, k) == get(start, k) by {
                assert(kv.take(i + 1)[i as int] == key@);
                if kv.take(i as int).contains(k) {
                    let w = choose|w: int| 0 <= w < i && kv.take(i as int)[w] == k;
                    assert(kv.take(i + 1)[w] == k);
                }
            }
        }
        i = i + 1;
    }
    assert(kv.take(i as int) =~= kv);
}

} // verus!
