//! Tables from names to indices, kept in a hash map.

use vstd::prelude::*;

verus! {

/// A table from names to indices.
#[verifier::external_body]
pub struct NameTable {
    inner: hashbrown::HashMap<String, usize>,
}

/// What a table holds: the index under each name.
pub uninterp spec fn entries(table: NameTable) -> Map<Seq<char>, usize>;

/// `hashbrown::HashMap::new`: a table that holds nothing.
#[verifier::external_body]
pub(crate) fn empty() -> (table: NameTable)
    ensures
        entries(table) == (Map::<Seq<char>, usize>::empty()),
{
    NameTable { inner: hashbrown::HashMap::new() }
}

/// `hashbrown::HashMap::insert`: afterwards `name` stands for `index`,
/// whether or not it stood for something before; every other name is kept.
#[verifier::external_body]
pub(crate) fn insert(table: &mut NameTable, name: &str, index: usize)
    ensures
        entries(*final(table)) == entries(*old(table)).insert(name@, index),
{
    table.inner.insert(name.to_string(), index);
}

/// `hashbrown::HashMap::get`: the index that `name` stands for, if any.
#[verifier::external_body]
pub(crate) fn get(table: &NameTable, name: &str) -> (found: Option<usize>)
    ensures
        found == (if entries(*table).contains_key(name@) {
            Some(entries(*table)[name@])
        } else {
            None
        }),
{
    table.inner.get(name).copied()
}

} // verus!
