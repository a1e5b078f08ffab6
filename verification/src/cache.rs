//! The per-tile obstacle cache, kept in a hash map of `bevy_platform`.
//!
//! Nothing of the hash map is verified. The functions of this file state what
//! its methods do to the lists that it holds, and the rest of the library is
//! proved against those statements.

use bevy_platform::collections::HashMap;
use bevy_platform::hash::FixedHasher;
use vstd::prelude::*;
use crate::obstacle::Obstacle;
use crate::placement::TileKey;

verus! {

/// `bevy_platform::collections::HashMap`, opaque to the verifier.
#[verifier::external_type_specification]
#[verifier::external_body]
#[verifier::reject_recursive_types(K)]
#[verifier::reject_recursive_types(V)]
#[verifier::reject_recursive_types(S)]
pub struct ExHashMap<K, V, S>(HashMap<K, V, S>);

/// `bevy_platform::hash::FixedHasher`, the hash map's default hasher, opaque to the verifier.
#[verifier::external_type_specification]
#[verifier::external_body]
pub struct ExFixedHasher(FixedHasher);

/// A map from tiles to the obstacles generated for them.
pub type TileMap = HashMap<TileKey, Vec<Obstacle>>;

/// The lists that a tile map holds, by tile.
pub uninterp spec fn tile_lists(cache: TileMap) -> Map<TileKey, Seq<Obstacle>>;

/// The lists of a tile map that holds nothing.
pub open spec fn no_tiles() -> Map<TileKey, Seq<Obstacle>> {
    Map::empty()
}

/// Calls `HashMap::new`, which creates an empty map: the result holds no list.
#[verifier::external_body]
pub(crate) fn tiles_new() -> (cache: TileMap)
    ensures
        tile_lists(cache) == no_tiles(),
{
    HashMap::new()
}

/// Calls `HashMap::contains_key`: whether the map holds a list for `key`.
#[verifier::external_body]
pub(crate) fn tiles_contains(cache: &TileMap, key: TileKey) -> (present: bool)
    ensures
        present == tile_lists(*cache).contains_key(key),
{
    cache.contains_key(&key)
}

/// Calls `HashMap::get`: the list held for `key`, if there is one.
#[verifier::external_body]
pub(crate) fn tiles_get(cache: &TileMap, key: TileKey) -> (list: Option<&Vec<Obstacle>>)
    ensures
        list.is_some() == tile_lists(*cache).contains_key(key),
        list.is_some() ==> list.unwrap()@ == tile_lists(*cache)[key],
{
    cache.get(&key)
}

/// Calls `HashMap::insert`: afterwards the map holds `list` for `key`, in
/// place of any list held for it before, and every other list as before.
#[verifier::external_body]
pub(crate) fn tiles_insert(cache: &mut TileMap, key: TileKey, list: Vec<Obstacle>)
    ensures
        tile_lists(*final(cache)) == tile_lists(*old(cache)).insert(key, list@),
{
    cache.insert(key, list);
}

/// Calls `HashMap::clear`: afterwards the map holds no list.
#[verifier::external_body]
pub(crate) fn tiles_clear(cache: &mut TileMap)
    ensures
        tile_lists(*final(cache)) == no_tiles(),
{
    cache.clear();
}

} // verus!
