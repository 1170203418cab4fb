//! The boundary with the `toml` crate: the table type that holds unrecognised keys, and the
//! few operations on it that the rest of the library relies on without proof.

use vstd::prelude::*;

verus! {

/// `toml::map::Map`, the string-keyed map behind `toml::Table`. Its contents are opaque to
/// the verifier; the library speaks of them through [`table_keys`] and [`table_text`].
#[verifier::external_type_specification]
#[verifier::external_body]
#[verifier::reject_recursive_types(K)]
#[verifier::reject_recursive_types(V)]
pub struct ExTomlMap<K, V>(toml::map::Map<K, V>);

/// `toml::Value`, a raw document value. The library only ever carries it inside a table.
#[verifier::external_type_specification]
#[verifier::external_body]
pub struct ExTomlValue(toml::Value);

/// The keys of a table, in the order in which the table iterates over them.
pub uninterp spec fn table_keys(table: toml::Table) -> Seq<Seq<char>>;

/// The TOML text of a table as `toml::to_string` writes it, or `None` for a table that it
/// cannot write, such as one that holds a date-time without date and time.
pub uninterp spec fn table_text(table: toml::Table) -> Option<Seq<char>>;

/// `toml::map::Map::new` returns a table without keys.
pub assume_specification[ toml::map::Map::<String, toml::Value>::new ]() -> (table: toml::Table)
    ensures
        table_keys(table) == Seq::<Seq<char>>::empty(),
;

/// `toml::map::Map::len` returns the number of keys.
pub assume_specification[ toml::map::Map::<String, toml::Value>::len ](
    table: &toml::Table,
) -> (count: usize)
    ensures
        count == table_keys(*table).len(),
;

/// `Clone` for `toml::map::Map` copies the entries in their order: the copy has the same keys
/// and the same TOML text.
pub assume_specification[ <toml::map::Map<String, toml::Value> as Clone>::clone ](
    table: &toml::Table,
) -> (copy: toml::Table)
    ensures
        table_keys(copy) == table_keys(*table),
        table_text(copy) == table_text(*table),
;

/// Calls `toml::to_string` on the table, keeping the text and dropping the error: the result
/// is the table's TOML text where it has one, and `None` where the serializer fails.
#[verifier::external_body]
pub(crate) fn render_table(table: &toml::Table) -> (text: Option<String>)
    ensures
        match text {
            Some(s) => table_text(*table) == Some(s@),
            None => table_text(*table) is None,
        },
{
    toml::to_string(table).ok()
}

} // verus!
