//! Translation of il2cpp export names to the obfuscated names under which the
//! runtime exports them, the errors of library loading, and the laws of the
//! lookup.
use vstd::prelude::*;

use crate::exports::{
    export_table, exports, lemma_names_distinct, lemma_obfuscated_names_are_not_names, EXPORT_COUNT,
};
use crate::text::str_eq;

verus! {

/// Possible library loading errors.
#[derive(Debug, Clone, PartialEq, Eq)]
pub enum LibError {
    /// failed to load library
    FailedToLoadLib,
    /// failed to get lib name
    FailedToGetLibName,
    /// failed to get lib path
    FailedToGetLibPath,
    /// failed to get function pointer
    FailedToGetFnPtr(String),
    /// failed to create C-String
    FailedToCreateCString,
}

/// The text that describes an error.
pub open spec fn spec_message(e: LibError) -> Seq<char> {
    match e {
        LibError::FailedToLoadLib => "Failed to load library!"@,
        LibError::FailedToGetLibName => "Failed to get lib name!"@,
        LibError::FailedToGetLibPath => "Failed to get lib path!"@,
        LibError::FailedToGetFnPtr(name) => "Failed to get function pointer: "@ + name@,
        LibError::FailedToCreateCString => "Failed to create C-String"@,
    }
}

impl LibError {
    /// The text that describes this error.
    pub fn message(&self) -> (text: String)
        ensures
            text@ == spec_message(*self),
    {
        match self {
            LibError::FailedToLoadLib => String::from_str("Failed to load library!"),
            LibError::FailedToGetLibName => String::from_str("Failed to get lib name!"),
            LibError::FailedToGetLibPath => String::from_str("Failed to get lib path!"),
            LibError::FailedToGetFnPtr(name) => String::from_str(
                "Failed to get function pointer: ",
            ).concat(name.as_str()),
            LibError::FailedToCreateCString => String::from_str("Failed to create C-String"),
        }
    }
}

/// `i` is the position of the first entry of `table` whose name is `key`.
pub open spec fn is_first_match(table: Seq<(Seq<char>, Seq<char>)>, key: Seq<char>, i: int) -> bool {
    &&& 0 <= i < table.len()
    &&& table[i].0 == key
    &&& forall|j: int| 0 <= j < i ==> table[j].0 != key
}

/// `key` is the name of some entry of the export table.
pub open spec fn is_exported(key: Seq<char>) -> bool {
    exists|i: int| 0 <= i < export_table().len() && #[trigger] export_table()[i].0 == key
}

/// The obfuscated name of the first table entry named `key`, if there is one.
pub open spec fn spec_get_value(key: Seq<char>) -> Option<Seq<char>> {
    if exists|i: int| is_first_match(export_table(), key, i) {
        Some(export_table()[choose|i: int| is_first_match(export_table(), key, i)].1)
    } else {
        None
    }
}

/// The name to use for `key`: its obfuscated name, or `key` itself when the
/// table has no entry for it.
pub open spec fn spec_get(key: Seq<char>) -> Seq<char> {
    match spec_get_value(key) {
        Some(v) => v,
        None => key,
    }
}

/// The view of an optional string.
pub open spec fn view_opt(o: Option<&str>) -> Option<Seq<char>> {
    match o {
        Some(s) => Some(s@),
        None => None,
    }
}

proof fn lemma_first_match_unique(table: Seq<(Seq<char>, Seq<char>)>, key: Seq<char>, i: int, k: int)
    requires
        is_first_match(table, key, i),
        is_first_match(table, key, k),
    ensures
        i == k,
{
}

/// Looks up the obfuscated name under which the runtime exports `key`.
pub fn get_value(key: &str) -> (value: Option<&str>)
    ensures
        view_opt(value) == spec_get_value(key@),
{
    let table = exports();
    let mut i: usize = 0;
    while i < EXPORT_COUNT
        invariant
            table@.len() == EXPORT_COUNT,
            table@.len() == export_table().len(),
            forall|j: int|
                0 <= j < table@.len() ==> #[trigger] table@[j].0@ == export_table()[j].0
                    && table@[j].1@ == export_table()[j].1,
            i <= EXPORT_COUNT,
            forall|j: int| 0 <= j < i ==> export_table()[j].0 != key@,
        decreases EXPORT_COUNT - i,
    {
        let (name, obfuscated) = table[i];
        assert(table@[i as int].0@ == export_table()[i as int].0);
        if str_eq(name, key) {
            proof {
                assert(is_first_match(export_table(), key@, i as int));
                let k = choose|k: int| is_first_match(export_table(), key@, k);
                lemma_first_match_unique(export_table(), key@, i as int, k);
            }
            return Some(obfuscated);
        }
        i = i + 1;
    }
    None
}

/// The name to use for `key`: its obfuscated name when the table has one,
/// else `key` unchanged.
pub fn get(key: &str) -> (name: &str)
    ensures
        name@ == spec_get(key@),
{
    match get_value(key) {
        Some(v) => v,
        None => key,
    }
}


/// The least index `< n` at which the table holds an entry named `key`, given
/// one at `n`.
proof fn lemma_first_match_exists(key: Seq<char>, n: int)
    requires
        0 <= n < export_table().len(),
        export_table()[n].0 == key,
    ensures
        exists|i: int| is_first_match(export_table(), key, i),
    decreases n,
{
    if exists|j: int| 0 <= j < n && export_table()[j].0 == key {
        let j = choose|j: int| 0 <= j < n && export_table()[j].0 == key;
        lemma_first_match_exists(key, j);
    } else {
        assert(is_first_match(export_table(), key, n));
    }
}

/// A name has an obfuscated counterpart exactly when the table has an entry
/// for it; a name that `get_value` maps is mapped to the obfuscated name of
/// an entry with that name.
pub proof fn lemma_lookup_finds_exactly_the_exported(key: Seq<char>)
    ensures
        spec_get_value(key) is Some <==> is_exported(key),
        spec_get_value(key) matches Some(v) ==> exists|i: int|
            0 <= i < export_table().len() && #[trigger] export_table()[i] == (key, v),
{
    if is_exported(key) {
        let n = choose|n: int| 0 <= n < export_table().len() && #[trigger] export_table()[n].0 == key;
        lemma_first_match_exists(key, n);
    }
    if spec_get_value(key) is Some {
        let i = choose|i: int| is_first_match(export_table(), key, i);
        assert(export_table()[i] == (key, spec_get_value(key)->0));
    }
}

/// Every entry of the table is found by its name: looking up the name of
/// entry `i` answers with the obfuscated name of entry `i`.
pub proof fn lemma_every_entry_is_found(i: int)
    requires
        0 <= i < export_table().len(),
    ensures
        spec_get_value(export_table()[i].0) == Some(export_table()[i].1),
        spec_get(export_table()[i].0) == export_table()[i].1,
{
    let key = export_table()[i].0;
    lemma_names_distinct();
    assert(is_first_match(export_table(), key, i));
    let k = choose|k: int| is_first_match(export_table(), key, k);
    lemma_first_match_unique(export_table(), key, i, k);
}

/// The lookup answers `Some(v)` for `key` exactly when the table holds the
/// entry `(key, v)`.
pub proof fn lemma_lookup_is_the_table(key: Seq<char>, v: Seq<char>)
    ensures
        spec_get_value(key) == Some(v) <==> exists|i: int|
            0 <= i < export_table().len() && #[trigger] export_table()[i] == (key, v),
{
    if exists|i: int| 0 <= i < export_table().len() && #[trigger] export_table()[i] == (key, v) {
        let i = choose|i: int| 0 <= i < export_table().len() && #[trigger] export_table()[i] == (key, v);
        lemma_every_entry_is_found(i);
    }
    lemma_lookup_finds_exactly_the_exported(key);
}

/// `get` leaves a name that the table does not hold unchanged, and replaces a
/// name that it holds by that name's obfuscated counterpart.
pub proof fn lemma_get_translates_only_exported(key: Seq<char>)
    ensures
        !is_exported(key) ==> spec_get(key) == key,
        is_exported(key) ==> Some(spec_get(key)) == spec_get_value(key),
{
    lemma_lookup_finds_exactly_the_exported(key);
}

/// An obfuscated name is not itself translated: no entry of the table is
/// named by the obfuscated name of another, so `get` leaves it unchanged.
pub proof fn lemma_obfuscated_names_stay(i: int)
    requires
        0 <= i < export_table().len(),
    ensures
        !is_exported(export_table()[i].1),
        spec_get_value(export_table()[i].1) is None,
        spec_get(export_table()[i].1) == export_table()[i].1,
{
    lemma_obfuscated_names_are_not_names();
    lemma_lookup_finds_exactly_the_exported(export_table()[i].1);
}

/// Translating twice is translating once: `get(get(k)) == get(k)`.
pub proof fn lemma_get_idempotent(key: Seq<char>)
    ensures
        spec_get(spec_get(key)) == spec_get(key),
{
    lemma_lookup_finds_exactly_the_exported(key);
    if let Some(v) = spec_get_value(key) {
        let i = choose|i: int| 0 <= i < export_table().len() && #[trigger] export_table()[i] == (key, v);
        lemma_obfuscated_names_stay(i);
    }
}

} // verus!
