use vstd::prelude::*;

verus! {

/// A configuration value as the dispatch logic reads it: text, an ordered
/// list, a table of named entries in declared order, or anything else.
#[derive(Debug, PartialEq, Eq)]
pub enum ConfigValue {
    Str(String),
    Array(Vec<ConfigValue>),
    Table(Vec<(String, ConfigValue)>),
    Other,
}

/// Whether some entry of the table is named `key`.
pub open spec fn has_key(t: Seq<(String, ConfigValue)>, key: Seq<char>) -> bool {
    exists|i: int| 0 <= i < t.len() && #[trigger] t[i].0@ == key
}

/// `i` is the position of the first entry of the table named `key`.
pub open spec fn is_first_key(t: Seq<(String, ConfigValue)>, key: Seq<char>, i: int) -> bool {
    &&& 0 <= i < t.len()
    &&& t[i].0@ == key
    &&& forall|j: int| 0 <= j < i ==> #[trigger] t[j].0@ != key
}

/// The value of the first entry named `key`, if there is one.
pub open spec fn table_get(t: Seq<(String, ConfigValue)>, key: Seq<char>) -> Option<ConfigValue> {
    if has_key(t, key) {
        Some(t[choose|i: int| is_first_key(t, key, i)].1)
    } else {
        None
    }
}

/// The first position of `key` is unique, so `table_get` reads it.
pub proof fn lemma_first_key_unique(t: Seq<(String, ConfigValue)>, key: Seq<char>, i: int)
    requires
        is_first_key(t, key, i),
    ensures
        has_key(t, key),
        table_get(t, key) == Some(t[i].1),
{
    let k = choose|k: int| is_first_key(t, key, k);
    assert(is_first_key(t, key, k));
    if k < i {
        assert(t[k].0@ != key);
    } else if i < k {
        assert(t[i].0@ != key);
    }
}

/// Finds the position of the first entry of `table` named `key`.
pub fn find_key(table: &Vec<(String, ConfigValue)>, key: &String) -> (r: Option<usize>)
    ensures
        match r {
            Some(i) => is_first_key(table@, key@, i as int),
            None => !has_key(table@, key@),
        },
{
    let mut i: usize = 0;
    while i < table.len()
        invariant
            i <= table@.len(),
            forall|j: int| 0 <= j < i ==> #[trigger] table@[j].0@ != key@,
        decreases table.len() - i,
    {
        if table[i].0 == *key {
            return Some(i);
        }
        i = i + 1;
    }
    None
}

/// The value of the first entry of `table` named `key`, if there is one.
pub fn table_lookup<'a>(table: &'a Vec<(String, ConfigValue)>, key: &String) -> (r: Option<
    &'a ConfigValue,
>)
    ensures
        match r {
            Some(v) => table_get(table@, key@) == Some(*v),
            None => table_get(table@, key@) is None,
        },
{
    match find_key(table, key) {
        Some(i) => {
            proof {
                lemma_first_key_unique(table@, key@, i as int);
            }
            Some(&table[i].1)
        },
        None => None,
    }
}

} // verus!
