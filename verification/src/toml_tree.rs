//! An in-memory TOML document: the values that manifest analysis reads and
//! manifest repair writes, with exact lookup and update operations.
//!
//! Parsing and rendering TOML text are done by the `toml` crate; the two
//! calls stand behind the trusted items at the end of this file.

use vstd::prelude::*;

use crate::text::str_eq;

verus! {

/// One TOML value.
///
/// Floats and date-times are carried as the text that `toml` renders for
/// them: no logic of this library reads them, and keeping their text keeps
/// them unchanged through a repair.
#[derive(Debug)]
pub enum TomlValue {
    String(String),
    Integer(i64),
    Float(String),
    Boolean(bool),
    Datetime(String),
    Array(Vec<TomlValue>),
    Table(TomlTable),
}

/// A TOML table: its entries in the order `toml` yields them. A table that
/// `toml` parsed is `well_keyed` (each key once), and every operation of
/// this library keeps it so.
#[derive(Debug)]
pub struct TomlTable {
    pub entries: Vec<(String, TomlValue)>,
}

/// Whether no two entries of `e` have the same key.
pub open spec fn keys_distinct(e: Seq<(String, TomlValue)>) -> bool {
    forall|i: int, j: int| #![trigger e[i], e[j]] 0 <= i < j < e.len() ==> e[i].0@ != e[j].0@
}

/// Whether no key occurs twice in `t`, nor in any table it holds, nested
/// or inside an array: what a `toml` map holds.
pub open spec fn well_keyed(t: TomlTable) -> bool
    decreases t,
{
    entries_well_keyed(t.entries@)
}

/// Whether the keys of `e` are distinct and every value is
/// `value_well_keyed`.
pub open spec fn entries_well_keyed(e: Seq<(String, TomlValue)>) -> bool
    decreases e,
{
    &&& keys_distinct(e)
    &&& forall|i: int| 0 <= i < e.len() ==> value_well_keyed(#[trigger] e[i].1)
}

/// Whether every table held in `v`, nested or inside an array, is
/// `well_keyed`.
pub open spec fn value_well_keyed(v: TomlValue) -> bool
    decreases v,
{
    match v {
        TomlValue::Table(t) => well_keyed(t),
        TomlValue::Array(a) => forall|i: int| 0 <= i < a@.len() ==> value_well_keyed(#[trigger] a@[i]),
        _ => true,
    }
}

/// The position of the first entry of `e` with key `key`, or -1.
pub open spec fn first_index(e: Seq<(String, TomlValue)>, key: Seq<char>) -> int
    decreases e.len(),
{
    if e.len() == 0 {
        -1
    } else if e[0].0@ == key {
        0
    } else {
        let r = first_index(e.drop_first(), key);
        if r < 0 {
            -1
        } else {
            r + 1
        }
    }
}

/// The value stored under `key` in the entries `e`, if any.
pub open spec fn lookup(e: Seq<(String, TomlValue)>, key: Seq<char>) -> Option<TomlValue> {
    let i = first_index(e, key);
    if i < 0 {
        None
    } else {
        Some(e[i].1)
    }
}

/// The value stored under `key` in `t`, if any.
pub open spec fn get(t: TomlTable, key: Seq<char>) -> Option<TomlValue> {
    lookup(t.entries@, key)
}

/// The table stored under `key` in `t`, if that value is a table.
pub open spec fn get_table(t: TomlTable, key: Seq<char>) -> Option<TomlTable> {
    match get(t, key) {
        Some(TomlValue::Table(inner)) => Some(inner),
        _ => None,
    }
}

/// The string stored under `key` in `t`, if that value is a string.
pub open spec fn get_str(t: TomlTable, key: Seq<char>) -> Option<Seq<char>> {
    match get(t, key) {
        Some(TomlValue::String(s)) => Some(s@),
        _ => None,
    }
}

/// The boolean stored under `key` in `t`, if that value is a boolean.
pub open spec fn get_bool(t: TomlTable, key: Seq<char>) -> Option<bool> {
    match get(t, key) {
        Some(TomlValue::Boolean(b)) => Some(b),
        _ => None,
    }
}

/// The array stored under `key` in `t`, if that value is an array.
pub open spec fn get_array(t: TomlTable, key: Seq<char>) -> Option<Seq<TomlValue>> {
    match get(t, key) {
        Some(TomlValue::Array(items)) => Some(items@),
        _ => None,
    }
}

/// Whether `t` has an entry under `key`.
pub open spec fn has_key(t: TomlTable, key: Seq<char>) -> bool {
    get(t, key) is Some
}

/// The entries after `key` is set to `value`: the first entry with that key
/// takes the new value in place, or a new entry is appended.
pub open spec fn set_entry(e: Seq<(String, TomlValue)>, key: String, value: TomlValue) -> Seq<(String, TomlValue)> {
    let i = first_index(e, key@);
    if i < 0 {
        e.push((key, value))
    } else {
        e.update(i, (e[i].0, value))
    }
}

/// Whether `v` is a table whose `workspace` entry is `true`.
pub open spec fn is_workspace_true(v: TomlValue) -> bool {
    match v {
        TomlValue::Table(t) => get_bool(t, "workspace"@) == Some(true),
        _ => false,
    }
}

/// `first_index` finds the first matching key, or reports that none matches.
pub proof fn lemma_first_index(e: Seq<(String, TomlValue)>, key: Seq<char>)
    ensures
        -1 <= first_index(e, key) < e.len(),
        first_index(e, key) < 0 <==> forall|j: int| 0 <= j < e.len() ==> #[trigger] e[j].0@ != key,
        first_index(e, key) >= 0 ==> e[first_index(e, key)].0@ == key,
        forall|j: int| 0 <= j < first_index(e, key) ==> #[trigger] e[j].0@ != key,
    decreases e.len(),
{
    if e.len() > 0 && e[0].0@ != key {
        lemma_first_index(e.drop_first(), key);
        assert forall|j: int| 1 <= j < e.len() implies #[trigger] e[j].0@ == e.drop_first()[j - 1].0@ by {}
        if first_index(e, key) < 0 {
            assert forall|j: int| 0 <= j < e.len() implies #[trigger] e[j].0@ != key by {
                if j > 0 {
                    assert(e[j].0@ == e.drop_first()[j - 1].0@);
                }
            }
        } else {
            assert forall|j: int| 0 <= j < first_index(e, key) implies #[trigger] e[j].0@ != key by {
                if j > 0 {
                    assert(e[j].0@ == e.drop_first()[j - 1].0@);
                }
            }
        }
    }
}

/// Reading a key right after setting it gives the value that was set.
pub proof fn lemma_get_after_set(e: Seq<(String, TomlValue)>, key: String, value: TomlValue)
    ensures
        lookup(set_entry(e, key, value), key@) == Some(value),
{
    lemma_first_index(e, key@);
    let n = set_entry(e, key, value);
    lemma_first_index(n, key@);
    let i = first_index(e, key@);
    if i < 0 {
        assert(n[e.len() as int].0@ == key@);
        assert(forall|j: int| 0 <= j < e.len() ==> n[j] == e[j]);
    } else {
        assert(n[i].0@ == key@);
        assert(forall|j: int| 0 <= j < i ==> n[j] == e[j]);
    }
}

/// Setting one key leaves every other key's value unchanged.
pub proof fn lemma_get_other_after_set(
    e: Seq<(String, TomlValue)>,
    key: String,
    value: TomlValue,
    other: Seq<char>,
)
    requires
        other != key@,
    ensures
        lookup(set_entry(e, key, value), other) == lookup(e, other),
{
    lemma_first_index(e, key@);
    lemma_first_index(e, other);
    let n = set_entry(e, key, value);
    lemma_first_index(n, other);
    let i = first_index(e, key@);
    if i < 0 {
        assert(forall|j: int| 0 <= j < e.len() ==> n[j] == e[j]);
        assert(n[e.len() as int].0@ != other);
    } else {
        assert(forall|j: int| 0 <= j < e.len() && j != i ==> n[j] == e[j]);
        assert(n[i].0@ == e[i].0@);
    }
}

/// Setting a key, to a value whose tables are well keyed, keeps entries
/// well keyed.
pub proof fn lemma_set_entry_well_keyed(e: Seq<(String, TomlValue)>, key: String, value: TomlValue)
    requires
        entries_well_keyed(e),
        value_well_keyed(value),
    ensures
        entries_well_keyed(set_entry(e, key, value)),
{
    lemma_first_index(e, key@);
    let n = set_entry(e, key, value);
    assert forall|i: int, j: int| #![trigger n[i], n[j]] 0 <= i < j < n.len() implies n[i].0@ != n[j].0@ by {
        if first_index(e, key@) < 0 && j == e.len() {
            assert(e[i].0@ != key@);
        } else {
            assert(n[i].0@ == e[i].0@ && n[j].0@ == e[j].0@);
        }
    }
}

/// Replacing the value of one entry, by a value whose tables are well
/// keyed, keeps entries well keyed.
pub proof fn lemma_update_value_well_keyed(e: Seq<(String, TomlValue)>, i: int, value: TomlValue)
    requires
        entries_well_keyed(e),
        value_well_keyed(value),
        0 <= i < e.len(),
    ensures
        entries_well_keyed(e.update(i, (e[i].0, value))),
{
    let n = e.update(i, (e[i].0, value));
    assert forall|a: int, b: int| #![trigger n[a], n[b]] 0 <= a < b < n.len() implies n[a].0@ != n[b].0@ by {
        assert(n[a].0@ == e[a].0@ && n[b].0@ == e[b].0@);
    }
}

/// A table read from a well-keyed table is well keyed.
pub proof fn lemma_get_table_well_keyed(t: TomlTable, key: Seq<char>)
    requires
        well_keyed(t),
    ensures
        match get_table(t, key) {
            Some(x) => well_keyed(x),
            None => true,
        },
{
    lemma_lookup_well_keyed(t.entries@, key);
}

/// A value read from well-keyed entries is well keyed.
pub proof fn lemma_lookup_well_keyed(e: Seq<(String, TomlValue)>, key: Seq<char>)
    requires
        entries_well_keyed(e),
    ensures
        match lookup(e, key) {
            Some(v) => value_well_keyed(v),
            None => true,
        },
{
    lemma_first_index(e, key);
}

/// Removing one entry keeps entries well keyed.
pub proof fn lemma_remove_well_keyed(e: Seq<(String, TomlValue)>, i: int)
    requires
        entries_well_keyed(e),
        0 <= i < e.len(),
    ensures
        entries_well_keyed(e.remove(i)),
{
    let n = e.remove(i);
    assert forall|a: int, b: int| #![trigger n[a], n[b]] 0 <= a < b < n.len() implies n[a].0@ != n[b].0@ by {
        let a0 = if a < i { a } else { a + 1 };
        let b0 = if b < i { b } else { b + 1 };
        assert(n[a] == e[a0] && n[b] == e[b0]);
    }
    assert forall|k: int| 0 <= k < n.len() implies value_well_keyed(#[trigger] n[k].1) by {
        let k0 = if k < i { k } else { k + 1 };
        assert(n[k] == e[k0]);
    }
}

impl TomlTable {
    /// An empty table.
    pub fn new() -> (t: TomlTable)
        ensures
            t.entries@.len() == 0,
            well_keyed(t),
    {
        TomlTable { entries: Vec::new() }
    }

    /// The position of the entry with key `key`, if any.
    pub fn find(&self, key: &str) -> (r: Option<usize>)
        ensures
            match r {
                Some(i) => i < self.entries.len() && i as int == first_index(self.entries@, key@),
                None => first_index(self.entries@, key@) < 0,
            },
    {
        proof {
            lemma_first_index(self.entries@, key@);
        }
        let mut i: usize = 0;
        while i < self.entries.len()
            invariant
                i <= self.entries.len(),
                forall|j: int| 0 <= j < i ==> #[trigger] self.entries@[j].0@ != key@,
                -1 <= first_index(self.entries@, key@) < self.entries@.len(),
                first_index(self.entries@, key@) >= 0 ==> self.entries@[first_index(self.entries@, key@)].0@ == key@,
                forall|j: int| 0 <= j < first_index(self.entries@, key@) ==> #[trigger] self.entries@[j].0@ != key@,
                first_index(self.entries@, key@) < 0 <==> forall|j: int| 0 <= j < self.entries@.len() ==> #[trigger] self.entries@[j].0@ != key@,
            decreases self.entries.len() - i,
        {
            if str_eq(self.entries[i].0.as_str(), key) {
                return Some(i);
            }
            i = i + 1;
        }
        None
    }

    /// The value stored under `key`, if any.
    pub fn get(&self, key: &str) -> (r: Option<&TomlValue>)
        ensures
            match r {
                Some(v) => get(*self, key@) == Some(*v),
                None => get(*self, key@) is None,
            },
    {
        match self.find(key) {
            Some(i) => Some(&self.entries[i].1),
            None => None,
        }
    }

    /// Whether there is an entry under `key`.
    pub fn contains_key(&self, key: &str) -> (r: bool)
        ensures
            r == has_key(*self, key@),
    {
        self.find(key).is_some()
    }

    /// The table stored under `key`, if that value is a table.
    pub fn get_table(&self, key: &str) -> (r: Option<&TomlTable>)
        ensures
            match r {
                Some(t) => get_table(*self, key@) == Some(*t),
                None => get_table(*self, key@) is None,
            },
    {
        match self.get(key) {
            Some(TomlValue::Table(t)) => Some(t),
            _ => None,
        }
    }

    /// The string stored under `key`, if that value is a string.
    pub fn get_str(&self, key: &str) -> (r: Option<&String>)
        ensures
            match r {
                Some(s) => get_str(*self, key@) == Some(s@),
                None => get_str(*self, key@) is None,
            },
    {
        match self.get(key) {
            Some(TomlValue::String(s)) => Some(s),
            _ => None,
        }
    }

    /// The boolean stored under `key`, if that value is a boolean.
    pub fn get_bool(&self, key: &str) -> (r: Option<bool>)
        ensures
            r == get_bool(*self, key@),
    {
        match self.get(key) {
            Some(TomlValue::Boolean(b)) => Some(*b),
            _ => None,
        }
    }

    /// The array stored under `key`, if that value is an array.
    pub fn get_array(&self, key: &str) -> (r: Option<&Vec<TomlValue>>)
        ensures
            match r {
                Some(a) => get_array(*self, key@) == Some(a@),
                None => get_array(*self, key@) is None,
            },
    {
        match self.get(key) {
            Some(TomlValue::Array(a)) => Some(a),
            _ => None,
        }
    }

    /// Moves out the value stored under `key`, leaving `false` in its place
    /// until the key is set again.
    pub fn take(&mut self, key: &str) -> (r: Option<TomlValue>)
        ensures
            r == get(*old(self), key@),
            match r {
                Some(_) => {
                    let i = first_index(old(self).entries@, key@);
                    final(self).entries@ == old(self).entries@.update(i, (old(self).entries@[i].0, TomlValue::Boolean(false)))
                },
                None => final(self).entries@ == old(self).entries@,
            },
            well_keyed(*old(self)) ==> well_keyed(*final(self)) && match r {
                Some(v) => value_well_keyed(v),
                None => true,
            },
    {
        proof {
            if well_keyed(*self) {
                lemma_lookup_well_keyed(self.entries@, key@);
                let i = first_index(self.entries@, key@);
                lemma_first_index(self.entries@, key@);
                if i >= 0 {
                    lemma_update_value_well_keyed(self.entries@, i, TomlValue::Boolean(false));
                }
            }
        }
        match self.find(key) {
            Some(i) => {
                let entry = self.entries.remove(i);
                let (entry_key, value) = entry;
                self.entries.insert(i, (entry_key, TomlValue::Boolean(false)));
                assert(final(self).entries@ =~= old(self).entries@.update(i as int, (old(self).entries@[i as int].0, TomlValue::Boolean(false))));
                Some(value)
            },
            None => None,
        }
    }

    /// Sets `key` to `value`, in place when the key exists.
    pub fn insert(&mut self, key: String, value: TomlValue)
        ensures
            final(self).entries@ == set_entry(old(self).entries@, key, value),
            well_keyed(*old(self)) && value_well_keyed(value) ==> well_keyed(*final(self)),
    {
        proof {
            if well_keyed(*self) && value_well_keyed(value) {
                lemma_set_entry_well_keyed(self.entries@, key, value);
            }
        }
        match self.find(key.as_str()) {
            Some(i) => {
                let old_key = self.entries.remove(i);
                self.entries.insert(i, (old_key.0, value));
                assert(final(self).entries@ =~= set_entry(old(self).entries@, key, value));
            },
            None => {
                self.entries.push((key, value));
            },
        }
    }
}

impl TomlValue {
    /// Whether this value is a table whose `workspace` entry is `true`.
    pub fn is_workspace_true(&self) -> (r: bool)
        ensures
            r == is_workspace_true(*self),
    {
        match self {
            TomlValue::Table(t) => match t.get_bool("workspace") {
                Some(b) => b,
                None => false,
            },
            _ => false,
        }
    }

    /// The string held by this value, if it is a string.
    pub fn as_str(&self) -> (r: Option<&String>)
        ensures
            match r {
                Some(s) => *self == TomlValue::String(*s),
                None => !(*self is String),
            },
    {
        match self {
            TomlValue::String(s) => Some(s),
            _ => None,
        }
    }

    /// The table held by this value, if it is a table.
    pub fn as_table(&self) -> (r: Option<&TomlTable>)
        ensures
            match r {
                Some(t) => *self == TomlValue::Table(*t),
                None => !(*self is Table),
            },
    {
        match self {
            TomlValue::Table(t) => Some(t),
            _ => None,
        }
    }
}

/// `toml::Value`, carried opaquely between the conversion helpers below.
#[verifier::external_type_specification]
#[verifier::external_body]
pub struct ExTomlValue(toml::Value);

/// `toml::map::Map` (the map behind `toml::Table`), carried opaquely between
/// the conversion helpers below.
#[verifier::external_type_specification]
#[verifier::external_body]
#[verifier::reject_recursive_types(K)]
#[verifier::reject_recursive_types(V)]
pub struct ExTomlMap<K, V>(toml::map::Map<K, V>);

/// The outcome of `toml::from_str::<toml::Table>` on a document's text: the
/// document, or the text of the error.
pub uninterp spec fn toml_parse_outcome(text: Seq<char>) -> Result<TomlTable, Seq<char>>;

/// The outcome of `toml::to_string_pretty` on a document: its text, or the
/// text of the error.
pub uninterp spec fn toml_render_outcome(doc: TomlTable) -> Result<Seq<char>, Seq<char>>;

/// Parses TOML document text with `toml::from_str` into a `toml::Table`
/// and converts it variant by variant. The contract claims that the outcome
/// depends on the text alone (`toml_parse_outcome`) and that a parsed
/// document is well keyed, as every `toml` map (a `BTreeMap`) is; the error
/// text is the `Display` of the `toml` error.
#[verifier::external_body]
pub(crate) fn parse_toml_document(text: &str) -> (parsed: Result<TomlTable, String>)
    ensures
        match parsed {
            Ok(t) => toml_parse_outcome(text@) == Ok::<TomlTable, Seq<char>>(t) && well_keyed(t),
            Err(e) => toml_parse_outcome(text@) == Err::<TomlTable, Seq<char>>(e@),
        },
{
    match toml::from_str::<toml::Table>(text) {
        Ok(table) => Ok(table_from_toml(table)),
        Err(error) => Err(error.to_string()),
    }
}

/// Renders a document with `toml::to_string_pretty` after converting it
/// variant by variant into a `toml::Table`. The contract claims no more than
/// that the outcome depends on the document alone (`toml_render_outcome`).
#[verifier::external_body]
pub(crate) fn render_toml_document(doc: &TomlTable) -> (rendered: Result<String, String>)
    ensures
        match rendered {
            Ok(s) => toml_render_outcome(*doc) == Ok::<Seq<char>, Seq<char>>(s@),
            Err(e) => toml_render_outcome(*doc) == Err::<Seq<char>, Seq<char>>(e@),
        },
{
    match table_to_toml(doc) {
        Some(table) => toml::to_string_pretty(&table).map_err(|error| error.to_string()),
        None => Err("a float or date-time value does not have TOML text".to_owned()),
    }
}

/// Moves a `toml::Table` into a `TomlTable`, entry by entry, in the order
/// the `toml` map yields them.
#[verifier::external_body]
fn table_from_toml(table: toml::Table) -> TomlTable {
    TomlTable { entries: table.into_iter().map(|(key, value)| (key, value_from_toml(value))).collect() }
}

/// Moves a `toml::Value` into a `TomlValue`: one variant to the variant of
/// the same name; floats and date-times become their `Display` text.
#[verifier::external_body]
fn value_from_toml(value: toml::Value) -> TomlValue {
    match value {
        toml::Value::String(s) => TomlValue::String(s),
        toml::Value::Integer(i) => TomlValue::Integer(i),
        toml::Value::Float(f) => TomlValue::Float(f.to_string()),
        toml::Value::Boolean(b) => TomlValue::Boolean(b),
        toml::Value::Datetime(d) => TomlValue::Datetime(d.to_string()),
        toml::Value::Array(items) => TomlValue::Array(items.into_iter().map(value_from_toml).collect()),
        toml::Value::Table(table) => TomlValue::Table(table_from_toml(table)),
    }
}

/// Copies a `TomlTable` into a `toml::Table`; `None` when a float or
/// date-time text does not parse back.
#[verifier::external_body]
fn table_to_toml(table: &TomlTable) -> Option<toml::Table> {
    table.entries.iter().map(|(key, value)| Some((key.clone(), value_to_toml(value)?))).collect()
}

/// Copies a `TomlValue` into a `toml::Value`, one variant to the variant of
/// the same name; float and date-time text is parsed back.
#[verifier::external_body]
fn value_to_toml(value: &TomlValue) -> Option<toml::Value> {
    Some(match value {
        TomlValue::String(s) => toml::Value::String(s.clone()),
        TomlValue::Integer(i) => toml::Value::Integer(*i),
        TomlValue::Float(text) => toml::Value::Float(text.parse().ok()?),
        TomlValue::Boolean(b) => toml::Value::Boolean(*b),
        TomlValue::Datetime(text) => toml::Value::Datetime(text.parse().ok()?),
        TomlValue::Array(items) => toml::Value::Array(items.iter().map(value_to_toml).collect::<Option<Vec<_>>>()?),
        TomlValue::Table(table) => toml::Value::Table(table_to_toml(table)?),
    })
}

} // verus!
