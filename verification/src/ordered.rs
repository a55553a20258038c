//! The map that holds a table's entries: `indexmap::IndexMap`, which keeps its
//! keys in the order of their first insertion. Verus does not read that crate;
//! what this library relies on is stated here and believed.

use crate::keyed::{has_key, index_of_key, put};
use crate::variants::LanguageVariants;
use indexmap::IndexMap;
use vstd::prelude::*;

verus! {

/// `indexmap::IndexMap`. What a map of entries holds is `map_rows`.
#[verifier::external_type_specification]
#[verifier::external_body]
#[verifier::reject_recursive_types(K)]
#[verifier::reject_recursive_types(V)]
#[verifier::reject_recursive_types(S)]
pub struct ExIndexMap<K, V, S>(IndexMap<K, V, S>);

/// What a map holds: its pairs of a key and a value, an identifier and the
/// entry's texts, in the map's order.
pub uninterp spec fn map_rows(map: IndexMap<String, LanguageVariants>) -> Seq<
    (Seq<char>, Seq<(Seq<char>, Seq<char>)>),
>;

/// `IndexMap::new`: a map that holds nothing.
#[verifier::external_body]
pub(crate) fn map_new() -> (map: IndexMap<String, LanguageVariants>)
    ensures
        map_rows(map) == Seq::<(Seq<char>, Seq<(Seq<char>, Seq<char>)>)>::empty(),
{
    IndexMap::new()
}

/// `IndexMap::len`: the number of pairs in the map.
#[verifier::external_body]
pub(crate) fn map_len(map: &IndexMap<String, LanguageVariants>) -> (n: usize)
    ensures
        n == map_rows(*map).len(),
{
    map.len()
}

/// `IndexMap::get_index`: the pair at `index` in the map's order, for an index
/// below the length, and `None` for any other.
#[verifier::external_body]
pub(crate) fn map_get_index(map: &IndexMap<String, LanguageVariants>, index: usize) -> (entry:
    Option<(&String, &LanguageVariants)>)
    ensures
        match entry {
            Some((id, variants)) => index < map_rows(*map).len() && id@ == map_rows(
                *map,
            )[index as int].0 && variants@ == map_rows(*map)[index as int].1,
            None => index >= map_rows(*map).len(),
        },
{
    map.get_index(index)
}

/// `IndexMap::get_index_of`: the index of the pair whose key equals `id`, and
/// `None` where no key does.
#[verifier::external_body]
pub(crate) fn map_get_index_of(map: &IndexMap<String, LanguageVariants>, id: &String) -> (found:
    Option<usize>)
    ensures
        match found {
            Some(index) => index < map_rows(*map).len() && map_rows(*map)[index as int].0 == id@,
            None => !has_key(map_rows(*map), id@),
        },
{
    map.get_index_of(id)
}

/// `IndexMap::insert`: a key that the map has keeps its place and gets the new
/// value, and the value that was there is returned; a key that it lacks goes
/// to the end with the value, and `None` is returned.
#[verifier::external_body]
pub(crate) fn map_insert(
    map: &mut IndexMap<String, LanguageVariants>,
    id: String,
    variants: LanguageVariants,
) -> (previous: Option<LanguageVariants>)
    ensures
        map_rows(*final(map)) == put(map_rows(*old(map)), id@, variants@),
        match previous {
            Some(p) => has_key(map_rows(*old(map)), id@) && p@ == map_rows(
                *old(map),
            )[index_of_key(map_rows(*old(map)), id@)].1,
            None => !has_key(map_rows(*old(map)), id@),
        },
{
    map.insert(id, variants)
}

} // verus!
